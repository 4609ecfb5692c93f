use ghall::repo::{resolve_root, GistRow, PathTable, RepoRow};

fn row(owner: Option<&str>, name: &str, path: Option<&str>) -> RepoRow {
    RepoRow {
        id: name.to_string(),
        owner: owner.map(|o| o.to_string()),
        name: name.to_string(),
        github_url: owner.map(|o| format!("https://github.com/{}/{}", o, name)),
        ssh_url: None,
        is_fork: false,
        fork_parent: None,
        is_private: false,
        is_archived: false,
        is_member: false,
        local_path: path.map(|p| p.to_string()),
        git_status: None,
        last_commit_time: None,
        is_subrepo: false,
        parent_repo: None,
        fork_ahead: None,
        fork_behind: None,
        has_git: true,
    }
}

#[test]
fn subrepo_always_complies() {
    let mut r = row(None, "x", None);
    r.is_subrepo = true;
    r.parent_repo = Some("/p".to_string());
    assert_eq!(r.follows_ghq("/root", &PathTable::new()), Some(true));
    let mut r = row(Some("a"), "x", Some("/elsewhere/x"));
    r.is_subrepo = true;
    assert_eq!(r.follows_ghq("/root", &PathTable::new()), Some(true));
}

#[test]
fn no_answer_without_path_or_owner() {
    assert_eq!(row(Some("a"), "x", None).follows_ghq("/root", &PathTable::new()), None);
    assert_eq!(row(None, "x", Some("/root/x")).follows_ghq("/root", &PathTable::new()), None);
    assert_eq!(row(None, "x", None).follows_ghq("/root", &PathTable::new()), None);
}

#[test]
fn path_in_layout_complies() {
    let r = row(Some("alice"), "foo", Some("/root/github.com/alice/foo"));
    assert_eq!(r.follows_ghq("/root", &PathTable::new()), Some(true));
    assert_eq!(r.follows_ghq("/root/", &PathTable::new()), Some(true));
    assert_eq!(r.follows_ghq("/root///", &PathTable::new()), Some(true));
}

#[test]
fn path_in_layout_complies_up_to_ascii_case() {
    let r = row(Some("Alice"), "Foo", Some("/root/github.com/alice/foo"));
    assert_eq!(r.follows_ghq("/ROOT", &PathTable::new()), Some(true));
}

#[test]
fn other_path_does_not_comply() {
    let r = row(Some("alice"), "foo", Some("/root/foo"));
    assert_eq!(r.follows_ghq("/root", &PathTable::new()), Some(false));
    let r = row(Some("alice"), "foo", Some("/root/github.com/alice/foo2"));
    assert_eq!(r.follows_ghq("/root", &PathTable::new()), Some(false));
}

#[test]
fn canonical_forms_are_compared() {
    let mut paths = PathTable::new();
    paths.record("/link".to_string(), "/data/github.com/alice/foo".to_string());
    paths.record("~/code".to_string(), "/data".to_string());
    let r = row(Some("alice"), "foo", Some("/link"));
    assert_eq!(r.follows_ghq("~/code", &paths), Some(true));
    // without the table the raw texts differ
    assert_eq!(r.follows_ghq("~/code", &PathTable::new()), Some(false));
}

#[test]
fn expected_path_is_resolved_too() {
    let mut paths = PathTable::new();
    paths.record("/root/github.com/alice/foo".to_string(), "/mnt/foo".to_string());
    let r = row(Some("alice"), "foo", Some("/mnt/foo"));
    assert_eq!(r.follows_ghq("/root", &paths), Some(true));
}

#[test]
fn unresolved_side_falls_back_to_raw_text() {
    let mut paths = PathTable::new();
    paths.record("/root".to_string(), "/real".to_string());
    let r = row(Some("alice"), "foo", Some("/real/github.com/alice/foo"));
    assert_eq!(r.follows_ghq("/root", &paths), Some(true));
    let r = row(Some("alice"), "foo", Some("/root/github.com/alice/foo"));
    assert_eq!(r.follows_ghq("/root", &paths), Some(false));
}

#[test]
fn expected_path_is_root_host_owner_name() {
    let r = row(Some("alice"), "foo", None);
    assert_eq!(
        r.expected_ghq_path("/root/", &PathTable::new()),
        Some("/root/github.com/alice/foo".to_string())
    );
    assert_eq!(row(None, "foo", None).expected_ghq_path("/root", &PathTable::new()), None);
    let mut paths = PathTable::new();
    paths.record("/root/".to_string(), "/canon".to_string());
    assert_eq!(r.expected_ghq_path("/root/", &paths), Some("/canon/github.com/alice/foo".to_string()));
}

#[test]
fn path_table_returns_first_entry() {
    let mut paths = PathTable::new();
    assert_eq!(paths.canonical("/a"), None);
    paths.record("/a".to_string(), "/one".to_string());
    paths.record("/a".to_string(), "/two".to_string());
    paths.record("/b".to_string(), "/three".to_string());
    assert_eq!(paths.canonical("/a"), Some("/one".to_string()));
    assert_eq!(paths.canonical("/b"), Some("/three".to_string()));
    assert_eq!(paths.canonical("/c"), None);
    assert_eq!(paths.clone().canonical("/b"), Some("/three".to_string()));
}

#[test]
fn resolve_root_strips_trailing_slashes() {
    assert_eq!(resolve_root("/root//", &PathTable::new()), "/root");
    assert_eq!(resolve_root("/", &PathTable::new()), "");
}

#[test]
fn row_predicates() {
    let both = row(Some("a"), "x", Some("/p"));
    assert!(both.has_local() && !both.is_local_only() && !both.is_remote_only());
    let remote_only = row(Some("a"), "x", None);
    assert!(!remote_only.has_local() && remote_only.is_remote_only());
    let local_only = row(None, "x", Some("/p"));
    assert!(local_only.has_local() && local_only.is_local_only());
}

#[test]
fn fork_owner_is_first_part_of_parent() {
    let mut r = row(Some("a"), "x", None);
    assert_eq!(r.fork_owner(), None);
    r.fork_parent = Some("upstream/x".to_string());
    assert_eq!(r.fork_owner(), Some("upstream".to_string()));
    r.fork_parent = Some("plain".to_string());
    assert_eq!(r.fork_owner(), Some("plain".to_string()));
}

#[test]
fn gist_predicates() {
    let mut g = GistRow {
        id: "abc".to_string(),
        description: "d".to_string(),
        is_public: true,
        file_names: vec![],
        html_url: "u".to_string(),
        local_path: None,
        git_status: None,
        created_at: None,
        updated_at: None,
    };
    assert!(!g.has_local());
    assert!(!g.is_dirty());
    g.local_path = Some("/g".to_string());
    let mut s = ghall::git::RepoStatus::default();
    s.staged = 1;
    g.git_status = Some(s);
    assert!(g.has_local());
    assert!(g.is_dirty());
    let copy = g.clone();
    assert_eq!(copy.id, "abc");
    assert!(copy.is_dirty());
}
