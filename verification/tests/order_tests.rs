use ghall::config::Column;
use ghall::git::RepoStatus;
use ghall::order::{
    compare_rows, repo_type_sort_order, sort_rows, status_sort_order, ColumnOrder, SortColumn,
};
use ghall::repo::{PathTable, RepoRow};
use ghall::text::Order;

fn row(id: &str) -> RepoRow {
    RepoRow {
        id: id.to_string(),
        owner: None,
        name: id.to_string(),
        github_url: None,
        ssh_url: None,
        is_fork: false,
        fork_parent: None,
        is_private: false,
        is_archived: false,
        is_member: false,
        local_path: None,
        git_status: None,
        last_commit_time: None,
        is_subrepo: false,
        parent_repo: None,
        fork_ahead: None,
        fork_behind: None,
        has_git: true,
    }
}

fn status(ahead: u32, behind: u32, dirty: bool, has_remote: bool) -> RepoStatus {
    RepoStatus { branch: "main".to_string(), ahead, behind, dirty, untracked: 0, staged: 0, has_remote }
}

fn by(key: SortColumn, ascending: bool) -> ColumnOrder {
    ColumnOrder {
        key,
        ascending,
        username: Some("me".to_string()),
        local_root: "/root".to_string(),
        paths: PathTable::new(),
    }
}

fn ids(rows: &Vec<RepoRow>) -> Vec<String> {
    rows.iter().map(|r| r.id.clone()).collect()
}

fn sorted(mut rows: Vec<RepoRow>, key: SortColumn, ascending: bool) -> Vec<String> {
    sort_rows(&mut rows, &by(key, ascending));
    ids(&rows)
}

#[test]
fn dirty_sorts_before_synced_by_status() {
    let mut synced = row("synced");
    synced.git_status = Some(status(0, 0, false, true));
    let mut dirty = row("zz-dirty");
    dirty.git_status = Some(status(0, 0, true, true));
    assert_eq!(sorted(vec![synced, dirty], SortColumn::Status, true), vec!["zz-dirty", "synced"]);
}

#[test]
fn status_ranks() {
    let mut r = row("a");
    assert_eq!(status_sort_order(&r), 6);
    r.git_status = Some(status(0, 0, true, true));
    assert_eq!(status_sort_order(&r), 0);
    r.git_status = Some(status(2, 3, false, true));
    assert_eq!(status_sort_order(&r), 1);
    r.git_status = Some(status(2, 0, false, true));
    assert_eq!(status_sort_order(&r), 2);
    r.git_status = Some(status(0, 3, false, true));
    assert_eq!(status_sort_order(&r), 3);
    r.git_status = Some(status(0, 0, false, true));
    assert_eq!(status_sort_order(&r), 4);
    r.git_status = Some(status(0, 0, false, false));
    assert_eq!(status_sort_order(&r), 5);
    let mut s = status(0, 0, false, true);
    s.untracked = 1;
    r.git_status = Some(s);
    assert_eq!(status_sort_order(&r), 0);
}

#[test]
fn type_ranks() {
    let me = Some("Me".to_string());
    let mut r = row("a");
    assert_eq!(repo_type_sort_order(&r, &me), 3);
    r.github_url = Some("u".to_string());
    assert_eq!(repo_type_sort_order(&r, &me), 1);
    r.owner = Some("other".to_string());
    assert_eq!(repo_type_sort_order(&r, &me), 1);
    r.owner = Some("mE".to_string());
    assert_eq!(repo_type_sort_order(&r, &me), 0);
    assert_eq!(repo_type_sort_order(&r, &None), 1);
    r.is_fork = true;
    assert_eq!(repo_type_sort_order(&r, &me), 2);
    r.is_subrepo = true;
    assert_eq!(repo_type_sort_order(&r, &me), 4);
}

#[test]
fn origin_sorts_without_case_and_ownerless_last() {
    let mut a = row("1");
    a.owner = Some("bob".to_string());
    let mut b = row("2");
    b.owner = Some("Alice".to_string());
    let c = row("3");
    let mut d = row("4");
    d.owner = Some("zed".to_string());
    assert_eq!(sorted(vec![a, b, c, d], SortColumn::Origin, true), vec!["2", "1", "4", "3"]);
}

#[test]
fn name_sorts_without_case() {
    let mut a = row("1");
    a.name = "beta".to_string();
    let mut b = row("2");
    b.name = "Alpha".to_string();
    let mut c = row("3");
    c.name = "ALPHA".to_string();
    assert_eq!(sorted(vec![a, b, c], SortColumn::Name, true), vec!["2", "3", "1"]);
}

#[test]
fn path_sorts_by_bytes_with_missing_as_tilde() {
    let mut a = row("1");
    a.local_path = Some("/b".to_string());
    let mut b = row("2");
    b.local_path = Some("/B".to_string());
    let c = row("3");
    let mut d = row("4");
    d.local_path = Some("~z".to_string());
    assert_eq!(sorted(vec![a, b, c, d], SortColumn::Path, true), vec!["2", "1", "3", "4"]);
}

#[test]
fn flags_sort_set_first() {
    let mut a = row("1");
    let mut b = row("2");
    b.is_private = true;
    assert_eq!(sorted(vec![a.clone(), b.clone()], SortColumn::Private, true), vec!["2", "1"]);
    assert_eq!(sorted(vec![a.clone(), b.clone()], SortColumn::Private, false), vec!["1", "2"]);
    a.is_archived = true;
    assert_eq!(sorted(vec![b.clone(), a.clone()], SortColumn::Archived, true), vec!["1", "2"]);
    b.git_status = Some(status(0, 0, true, true));
    assert_eq!(sorted(vec![a, b], SortColumn::Dirty, true), vec!["2", "1"]);
}

#[test]
fn last_updated_sorts_numerically() {
    let mut a = row("1");
    a.last_commit_time = Some(30);
    let mut b = row("2");
    b.last_commit_time = Some(-5);
    let mut c = row("3");
    c.last_commit_time = Some(7);
    assert_eq!(sorted(vec![a.clone(), b.clone(), c.clone()], SortColumn::LastUpdated, true), vec!["2", "3", "1"]);
    assert_eq!(sorted(vec![a, b, c], SortColumn::LastUpdated, false), vec!["1", "3", "2"]);
}

#[test]
fn missing_timestamp_is_last_in_both_directions() {
    let mut a = row("1");
    a.last_commit_time = Some(30);
    let b = row("2");
    let mut c = row("3");
    c.last_commit_time = Some(7);
    assert_eq!(sorted(vec![b.clone(), a.clone(), c.clone()], SortColumn::LastUpdated, true), vec!["3", "1", "2"]);
    assert_eq!(sorted(vec![b, a, c], SortColumn::LastUpdated, false), vec!["1", "3", "2"]);
}

#[test]
fn ghq_sorts_false_true_none() {
    let mut good = row("good");
    good.owner = Some("alice".to_string());
    good.name = "foo".to_string();
    good.local_path = Some("/root/github.com/alice/foo".to_string());
    let mut bad = row("bad");
    bad.owner = Some("alice".to_string());
    bad.name = "bar".to_string();
    bad.local_path = Some("/root/bar".to_string());
    let none = row("none");
    assert_eq!(
        sorted(vec![none.clone(), good.clone(), bad.clone()], SortColumn::Ghq, true),
        vec!["bad", "good", "none"]
    );
    assert_eq!(sorted(vec![none, good, bad], SortColumn::Ghq, false), vec!["none", "good", "bad"]);
}

#[test]
fn ties_are_broken_by_identity_ascending() {
    let rows = vec![row("c"), row("a"), row("b")];
    assert_eq!(sorted(rows.clone(), SortColumn::Status, true), vec!["a", "b", "c"]);
    assert_eq!(sorted(rows, SortColumn::Status, false), vec!["a", "b", "c"]);
}

#[test]
fn sorting_twice_gives_the_same() {
    let mut rows = vec![row("c"), row("a"), row("b")];
    rows[0].last_commit_time = Some(3);
    rows[2].last_commit_time = Some(9);
    for key in [SortColumn::Origin, SortColumn::Name, SortColumn::Type, SortColumn::Status,
        SortColumn::LastUpdated, SortColumn::Path, SortColumn::Dirty, SortColumn::Private,
        SortColumn::Archived, SortColumn::Ghq]
    {
        for ascending in [true, false] {
            let mut once = rows.clone();
            sort_rows(&mut once, &by(key, ascending));
            let mut twice = once.clone();
            sort_rows(&mut twice, &by(key, ascending));
            assert_eq!(ids(&once), ids(&twice));
            assert_eq!(once.len(), 3);
        }
    }
}

#[test]
fn turning_direction_reverses_rows_with_different_keys() {
    let mut rows = Vec::new();
    for (i, n) in ["delta", "Alpha", "charlie", "Bravo"].iter().enumerate() {
        let mut r = row(&i.to_string());
        r.name = n.to_string();
        rows.push(r);
    }
    let up = sorted(rows.clone(), SortColumn::Name, true);
    let mut down = sorted(rows, SortColumn::Name, false);
    down.reverse();
    assert_eq!(up, down);
}

#[test]
fn compare_rows_is_antisymmetric() {
    let mut a = row("a");
    a.name = "x".to_string();
    let mut b = row("b");
    b.name = "y".to_string();
    let o = by(SortColumn::Name, true);
    assert!(compare_rows(&a, &b, &o) == Order::Less);
    assert!(compare_rows(&b, &a, &o) == Order::Greater);
    assert!(compare_rows(&a, &a, &o) == Order::Equal);
    let d = by(SortColumn::Name, false);
    assert!(compare_rows(&a, &b, &d) == Order::Greater);
}

#[test]
fn sort_columns_match_columns() {
    for c in Column::default_order() {
        assert!(SortColumn::from_column(c).to_column() == c);
    }
    assert!(SortColumn::Name.to_column() == Column::Repository);
    assert!(SortColumn::LastUpdated.to_column() == Column::Updated);
}

#[test]
fn sort_column_names() {
    assert_eq!(SortColumn::Name.as_str(), "repository");
    assert_eq!(SortColumn::LastUpdated.as_str(), "updated");
    assert!(SortColumn::from_string("Repository") == SortColumn::Name);
    assert!(SortColumn::from_string("NAME") == SortColumn::Name);
    assert!(SortColumn::from_string("priv") == SortColumn::Private);
    assert!(SortColumn::from_string("arch") == SortColumn::Archived);
    assert!(SortColumn::from_string("lastupdated") == SortColumn::LastUpdated);
    assert!(SortColumn::from_string("nonsense") == SortColumn::LastUpdated);
    for s in [SortColumn::Origin, SortColumn::Name, SortColumn::Type, SortColumn::Status,
        SortColumn::LastUpdated, SortColumn::Path, SortColumn::Dirty, SortColumn::Private,
        SortColumn::Archived, SortColumn::Ghq]
    {
        assert!(SortColumn::from_string(s.as_str()) == s);
    }
}

#[test]
fn next_and_prev_cycle_through_visible_columns() {
    let visible = [Column::Origin, Column::Status, Column::Path];
    assert!(SortColumn::Origin.next(&visible) == SortColumn::Status);
    assert!(SortColumn::Path.next(&visible) == SortColumn::Origin);
    assert!(SortColumn::Origin.prev(&visible) == SortColumn::Path);
    assert!(SortColumn::Status.prev(&visible) == SortColumn::Origin);
    // not visible: go to the first
    assert!(SortColumn::Ghq.next(&visible) == SortColumn::Origin);
    assert!(SortColumn::Ghq.prev(&visible) == SortColumn::Origin);
    // nothing visible: stay
    assert!(SortColumn::Ghq.next(&[]) == SortColumn::Ghq);
    assert!(SortColumn::Ghq.prev(&[]) == SortColumn::Ghq);
}

#[test]
fn sort_column_from_lower_case_name() {
    assert!(SortColumn::from_lowercase("origin") == SortColumn::Origin);
    assert!(SortColumn::from_lowercase("repository") == SortColumn::Name);
    assert!(SortColumn::from_lowercase("name") == SortColumn::Name);
    assert!(SortColumn::from_lowercase("type") == SortColumn::Type);
    assert!(SortColumn::from_lowercase("status") == SortColumn::Status);
    assert!(SortColumn::from_lowercase("updated") == SortColumn::LastUpdated);
    assert!(SortColumn::from_lowercase("lastupdated") == SortColumn::LastUpdated);
    assert!(SortColumn::from_lowercase("path") == SortColumn::Path);
    assert!(SortColumn::from_lowercase("dirty") == SortColumn::Dirty);
    assert!(SortColumn::from_lowercase("private") == SortColumn::Private);
    assert!(SortColumn::from_lowercase("priv") == SortColumn::Private);
    assert!(SortColumn::from_lowercase("archived") == SortColumn::Archived);
    assert!(SortColumn::from_lowercase("arch") == SortColumn::Archived);
    assert!(SortColumn::from_lowercase("ghq") == SortColumn::Ghq);
    assert!(SortColumn::from_lowercase("") == SortColumn::LastUpdated);
    assert!(SortColumn::from_lowercase("paths") == SortColumn::LastUpdated);
    assert!(SortColumn::from_lowercase(" path") == SortColumn::LastUpdated);
}

#[test]
fn sort_column_name_is_folded_before_it_is_read() {
    assert!(SortColumn::from_lowercase("Path") == SortColumn::LastUpdated);
    assert!(SortColumn::from_string("Path") == SortColumn::Path);
    assert!(SortColumn::from_lowercase("GHQ") == SortColumn::LastUpdated);
    assert!(SortColumn::from_string("GHQ") == SortColumn::Ghq);
    assert!(SortColumn::from_string("DiRtY") == SortColumn::Dirty);
}
