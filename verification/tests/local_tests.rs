use ghall::git::RepoStatus;
use ghall::local::{is_known, keeps_entry, mark_subrepos, sort_by_name, LocalRepo};

fn found(name: &str, path: &str) -> LocalRepo {
    LocalRepo::found(name.to_string(), path.to_string(), RepoStatus::default(), None, None)
}

#[test]
fn hidden_entries_are_passed_over() {
    assert!(keeps_entry("src"));
    assert!(keeps_entry(".git"));
    assert!(!keeps_entry(".cache"));
    assert!(!keeps_entry(".gitignore"));
    assert!(keeps_entry(""));
}

#[test]
fn found_repo_reads_owner_from_url() {
    let r = LocalRepo::found(
        "foo".to_string(),
        "/r/foo".to_string(),
        RepoStatus::default(),
        Some("git@github.com:alice/foo.git".to_string()),
        Some(5),
    );
    assert_eq!(r.remote_owner.as_deref(), Some("alice"));
    assert_eq!(r.remote_url.as_deref(), Some("git@github.com:alice/foo.git"));
    assert_eq!(r.last_commit_time, Some(5));
    assert!(r.has_git);
    assert!(!r.is_subrepo);
    assert_eq!(r.clone().path, "/r/foo");
}

#[test]
fn plain_folder_has_no_git() {
    let r = LocalRepo::folder("notes".to_string(), "/r/local/notes".to_string());
    assert!(!r.has_git);
    assert_eq!(r.remote_url, None);
    assert_eq!(r.remote_owner, None);
    assert_eq!(r.status.branch, "");
}

#[test]
fn known_paths() {
    let repos = vec![found("a", "/r/a"), found("b", "/r/b")];
    assert!(is_known(&repos, "/r/a"));
    assert!(!is_known(&repos, "/r/c"));
    assert!(!is_known(&vec![], "/r/a"));
}

#[test]
fn nested_repositories_are_marked() {
    let mut repos = vec![
        found("outer", "/r/outer"),
        found("inner", "/r/outer/vendor/inner"),
        found("outer2", "/r/outer2"),
        found("deep", "/r/outer/vendor/inner/deep"),
    ];
    mark_subrepos(&mut repos);
    assert!(!repos[0].is_subrepo);
    assert_eq!(repos[0].parent_repo, None);
    assert!(repos[1].is_subrepo);
    assert_eq!(repos[1].parent_repo.as_deref(), Some("/r/outer"));
    // a path that shares a prefix without the slash is not inside
    assert!(!repos[2].is_subrepo);
    // the first enclosing repository of the list is the parent
    assert!(repos[3].is_subrepo);
    assert_eq!(repos[3].parent_repo.as_deref(), Some("/r/outer"));
}

#[test]
fn entries_are_sorted_by_name_without_case() {
    let mut repos = vec![found("beta", "/1"), found("Alpha", "/2"), found("ALPHA", "/3"), found("gamma", "/4")];
    sort_by_name(&mut repos);
    let paths: Vec<&str> = repos.iter().map(|r| r.path.as_str()).collect();
    assert_eq!(paths, vec!["/2", "/3", "/1", "/4"]);
}
