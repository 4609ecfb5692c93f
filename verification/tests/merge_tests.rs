use ghall::git::RepoStatus;
use ghall::github::GitHubRepoInfo;
use ghall::local::LocalRepo;
use ghall::merge::{local_identities, merge_by_identity, merge_repos, remote_identities};
use ghall::repo::{PathTable, RepoRow};

fn remote(owner: &str, name: &str, url: &str) -> GitHubRepoInfo {
    GitHubRepoInfo {
        name: name.to_string(),
        owner: owner.to_string(),
        url: url.to_string(),
        ssh_url: format!("git@github.com:{}/{}.git", owner, name),
        is_private: false,
        is_fork: false,
        is_archived: false,
        fork_parent: None,
        is_member: true,
        fork_ahead: None,
        fork_behind: None,
        default_branch: Some("main".to_string()),
        parent_default_branch: None,
        pushed_at: Some(100),
    }
}

fn local(name: &str, path: &str, remote_url: Option<&str>) -> LocalRepo {
    LocalRepo {
        name: name.to_string(),
        path: path.to_string(),
        status: RepoStatus::default(),
        remote_owner: remote_url.and_then(ghall::url::parse_owner_from_url),
        remote_url: remote_url.map(|u| u.to_string()),
        last_commit_time: None,
        is_subrepo: false,
        parent_repo: None,
        has_git: true,
    }
}

fn ids(rows: &Vec<RepoRow>) -> Vec<String> {
    rows.iter().map(|r| r.id.clone()).collect()
}

#[test]
fn merges_remote_with_its_local_clone() {
    let rows = merge_repos(
        vec![remote("alice", "foo", "https://github.com/alice/foo")],
        vec![local("foo", "/root/github.com/alice/foo", Some("git@github.com:alice/foo.git"))],
    );
    assert_eq!(rows.len(), 1);
    let row = &rows[0];
    assert_eq!(row.id, "https://github.com/alice/foo");
    assert_eq!(row.owner.as_deref(), Some("alice"));
    assert_eq!(row.name, "foo");
    assert_eq!(row.github_url.as_deref(), Some("https://github.com/alice/foo"));
    assert_eq!(row.ssh_url.as_deref(), Some("git@github.com:alice/foo.git"));
    assert_eq!(row.local_path.as_deref(), Some("/root/github.com/alice/foo"));
    assert!(row.git_status.is_some());
    assert!(row.is_member);
    assert!(row.has_git);
    assert_eq!(row.follows_ghq("/root", &PathTable::new()), Some(true));
}

#[test]
fn local_without_remote_is_local_only() {
    let rows = merge_repos(vec![], vec![local("x", "/root/x", None)]);
    assert_eq!(rows.len(), 1);
    let row = &rows[0];
    assert_eq!(row.id, "/root/x");
    assert_eq!(row.owner, None);
    assert_eq!(row.github_url, None);
    assert_eq!(row.local_path.as_deref(), Some("/root/x"));
    assert!(row.is_local_only());
    assert!(!row.is_member);
    assert_eq!(row.follows_ghq("/root", &PathTable::new()), None);
}

#[test]
fn merge_of_nothing_is_empty() {
    assert_eq!(merge_repos(vec![], vec![]).len(), 0);
}

#[test]
fn remote_without_clone_is_remote_only() {
    let rows = merge_repos(vec![remote("alice", "foo", "https://github.com/alice/foo")], vec![]);
    assert_eq!(rows.len(), 1);
    assert!(rows[0].is_remote_only());
    assert_eq!(rows[0].last_commit_time, Some(100));
    assert!(rows[0].has_git);
    assert!(!rows[0].is_subrepo);
}

#[test]
fn local_commit_time_is_preferred() {
    let mut l = local("foo", "/r/foo", Some("https://github.com/alice/foo"));
    l.last_commit_time = Some(7);
    let rows = merge_repos(vec![remote("alice", "foo", "https://github.com/alice/foo")], vec![l]);
    assert_eq!(rows[0].last_commit_time, Some(7));
    let l2 = local("foo", "/r/foo", Some("https://github.com/alice/foo"));
    let rows = merge_repos(vec![remote("alice", "foo", "https://github.com/alice/foo")], vec![l2]);
    assert_eq!(rows[0].last_commit_time, Some(100));
}

#[test]
fn unmatched_local_with_remote_keeps_its_url() {
    let rows = merge_repos(
        vec![remote("alice", "foo", "https://github.com/alice/foo")],
        vec![local("bar", "/r/bar", Some("https://gitlab.com/bob/bar.git"))],
    );
    assert_eq!(rows.len(), 2);
    let bar = rows.iter().find(|r| r.name == "bar").unwrap();
    assert_eq!(bar.id, "/r/bar");
    assert_eq!(bar.owner.as_deref(), Some("bob"));
    assert_eq!(bar.github_url.as_deref(), Some("https://gitlab.com/bob/bar.git"));
    assert_eq!(bar.ssh_url.as_deref(), Some("https://gitlab.com/bob/bar.git"));
    assert!(!bar.is_member);
}

#[test]
fn every_input_gives_one_row() {
    let remotes = vec![
        remote("alice", "a", "https://github.com/alice/a"),
        remote("alice", "b", "https://github.com/alice/b"),
        remote("org", "c", "https://github.com/org/c"),
    ];
    let locals = vec![
        local("a", "/r/a", Some("git@github.com:alice/a.git")),
        local("n", "/r/n", None),
        local("z", "/r/z", Some("https://example.org/z")),
        local("c", "/r/c", Some("HTTPS://GITHUB.COM/Org/C")),
        local("m", "/r/m", None),
    ];
    let rows = merge_repos(remotes, locals);
    // 3 remote rows (2 of them merged) + 2 local-only + 1 unmatched
    assert_eq!(rows.len(), 6);
    for path in ["/r/a", "/r/n", "/r/z", "/r/c", "/r/m"] {
        assert_eq!(rows.iter().filter(|r| r.local_path.as_deref() == Some(path)).count(), 1);
    }
    for url in ["https://github.com/alice/a", "https://github.com/alice/b", "https://github.com/org/c"] {
        assert_eq!(rows.iter().filter(|r| r.id == url).count(), 1);
    }
}

#[test]
fn clones_of_one_remote_are_all_kept() {
    let rows = merge_repos(
        vec![remote("alice", "a", "https://github.com/alice/a")],
        vec![
            local("a", "/r/one", Some("https://github.com/alice/a")),
            local("a", "/r/two", Some("git@github.com:alice/a.git")),
        ],
    );
    assert_eq!(rows.len(), 2);
    let merged = rows.iter().find(|r| r.id == "https://github.com/alice/a").unwrap();
    assert_eq!(merged.local_path.as_deref(), Some("/r/two"));
    let other = rows.iter().find(|r| r.id == "/r/one").unwrap();
    assert_eq!(other.local_path.as_deref(), Some("/r/one"));
}

#[test]
fn second_remote_of_one_identity_gets_no_clone() {
    let rows = merge_repos(
        vec![
            remote("alice", "a", "https://github.com/alice/a"),
            remote("Alice", "A", "https://github.com/Alice/A"),
        ],
        vec![local("a", "/r/a", Some("https://github.com/alice/a"))],
    );
    assert_eq!(rows.len(), 2);
    assert_eq!(rows.iter().filter(|r| r.local_path.is_some()).count(), 1);
    let with_clone = rows.iter().find(|r| r.local_path.is_some()).unwrap();
    assert_eq!(with_clone.github_url.as_deref(), Some("https://github.com/alice/a"));
}

#[test]
fn rows_are_ordered_by_owner_then_name() {
    let rows = merge_repos(
        vec![
            remote("bob", "x", "https://github.com/bob/x"),
            remote("Alice", "zeta", "https://github.com/Alice/zeta"),
            remote("alice", "Alpha", "https://github.com/alice/Alpha"),
        ],
        vec![local("mid", "/r/mid", None), local("Aaa", "/r/aaa", None)],
    );
    assert_eq!(
        ids(&rows),
        vec![
            "https://github.com/alice/alpha",
            "https://github.com/alice/zeta",
            "https://github.com/bob/x",
            "/r/aaa",
            "/r/mid",
        ]
    );
}

#[test]
fn merge_is_deterministic() {
    let make = || {
        merge_repos(
            vec![remote("b", "x", "https://github.com/b/x"), remote("a", "y", "https://github.com/a/y")],
            vec![local("q", "/r/q", Some("https://h.org/q")), local("p", "/r/p", Some("https://h.org/p"))],
        )
    };
    assert_eq!(ids(&make()), ids(&make()));
}

#[test]
fn subrepo_fields_come_from_the_local_entry() {
    let mut l = local("inner", "/r/outer/inner", Some("https://github.com/alice/inner"));
    l.is_subrepo = true;
    l.parent_repo = Some("/r/outer".to_string());
    l.has_git = true;
    let rows = merge_repos(vec![remote("alice", "inner", "https://github.com/alice/inner")], vec![l]);
    assert!(rows[0].is_subrepo);
    assert_eq!(rows[0].parent_repo.as_deref(), Some("/r/outer"));
    assert_eq!(rows[0].follows_ghq("/r", &PathTable::new()), Some(true));
}

#[test]
fn clone_by_ssh_is_merged_on_any_host() {
    let rows = merge_repos(
        vec![remote("bob", "bar", "https://gitlab.com/bob/bar")],
        vec![local("bar", "/r/bar", Some("git@gitlab.com:bob/bar.git"))],
    );
    assert_eq!(rows.len(), 1);
    assert_eq!(rows[0].id, "https://gitlab.com/bob/bar");
    assert_eq!(rows[0].local_path.as_deref(), Some("/r/bar"));
    assert_eq!(rows[0].owner.as_deref(), Some("bob"));
}

#[test]
fn identities_are_normal_forms_of_urls() {
    let remotes = vec![
        remote("Alice", "Foo", "https://GitHub.com/Alice/Foo.git"),
        remote("bob", "bar", "git@example.org:bob/bar"),
    ];
    assert_eq!(
        remote_identities(&remotes),
        vec!["https://github.com/alice/foo".to_string(), "https://example.org/bob/bar".to_string()]
    );
    let locals = vec![
        local("foo", "/r/foo", Some(" git@github.com:Alice/Foo.git ")),
        local("n", "/r/n", None),
    ];
    assert_eq!(
        local_identities(&locals),
        vec![Some("https://github.com/alice/foo".to_string()), None]
    );
}

#[test]
fn merge_by_identity_joins_equal_identities() {
    let remotes = vec![
        remote("zed", "one", "https://github.com/zed/one"),
        remote("amy", "two", "https://github.com/amy/two"),
        remote("amy", "twin", "https://github.com/amy/twin"),
    ];
    let remote_ids = vec!["k1".to_string(), "k2".to_string(), "k2".to_string()];
    let locals = vec![
        local("first", "/r/first", Some("u1")),
        local("second", "/r/second", Some("u2")),
        local("third", "/r/third", Some("u3")),
        local("fourth", "/r/fourth", None),
        local("fifth", "/r/fifth", Some("u5")),
    ];
    let local_ids = vec![
        Some("k2".to_string()),
        Some("k2".to_string()),
        Some("K1".to_string()),
        None,
        Some("k1".to_string()),
    ];
    let rows = merge_by_identity(&remotes, &remote_ids, &locals, &local_ids);
    let seen: Vec<(String, Option<String>, Option<String>)> =
        rows.iter().map(|r| (r.id.clone(), r.owner.clone(), r.local_path.clone())).collect();
    let s = |x: &str| Some(x.to_string());
    assert_eq!(
        seen,
        vec![
            ("k2".to_string(), s("amy"), None),
            ("k2".to_string(), s("amy"), s("/r/second")),
            ("k1".to_string(), s("zed"), s("/r/fifth")),
            ("/r/first".to_string(), None, s("/r/first")),
            ("/r/fourth".to_string(), None, s("/r/fourth")),
            ("/r/third".to_string(), None, s("/r/third")),
        ]
    );
    assert_eq!(rows[0].name, "twin");
    assert_eq!(rows[1].name, "two");
}

#[test]
fn merge_by_identity_goes_by_the_identity_and_not_by_the_url() {
    let remotes = vec![remote("alice", "foo", "https://github.com/alice/foo")];
    let locals = vec![local("foo", "/r/foo", Some("https://github.com/alice/foo"))];
    let apart = merge_by_identity(
        &remotes,
        &vec!["one".to_string()],
        &locals,
        &vec![Some("other".to_string())],
    );
    assert_eq!(apart.len(), 2);
    assert!(apart.iter().any(|r| r.id == "one" && r.local_path.is_none()));
    assert!(apart.iter().any(|r| r.id == "/r/foo" && r.github_url.as_deref() == Some("https://github.com/alice/foo")));
    let joined = merge_by_identity(
        &remotes,
        &vec!["same".to_string()],
        &locals,
        &vec![Some("same".to_string())],
    );
    assert_eq!(joined.len(), 1);
    assert_eq!(joined[0].id, "same");
    assert_eq!(joined[0].local_path.as_deref(), Some("/r/foo"));
}

#[test]
fn merge_by_identity_of_nothing_is_empty() {
    let rows = merge_by_identity(&Vec::new(), &Vec::new(), &Vec::new(), &Vec::new());
    assert!(rows.is_empty());
}

#[test]
fn each_remote_entry_has_one_row_of_its_identity() {
    let remotes = vec![
        remote("alice", "foo", "https://github.com/alice/foo"),
        remote("alice", "bar", "https://github.com/Alice/Bar.git"),
        remote("bob", "baz", "git@example.org:bob/baz"),
    ];
    let locals = vec![
        local("foo", "/r/foo", Some("git@github.com:alice/foo.git")),
        local("foo2", "/r/foo2", Some("https://github.com/alice/foo")),
        local("baz", "/r/baz", Some("https://example.org/bob/baz")),
        local("n", "/r/n", None),
    ];
    let rows = merge_repos(remotes.clone(), locals);
    for g in &remotes {
        let id = ghall::url::normalize_github_url(&g.url);
        let found: Vec<&RepoRow> = rows.iter().filter(|r| r.id == id).collect();
        assert_eq!(found.len(), 1);
        let r = found[0];
        assert_eq!(r.github_url.as_deref(), Some(g.url.as_str()));
        assert_eq!(r.owner.as_deref(), Some(g.owner.as_str()));
        assert_eq!(r.name, g.name);
        assert_eq!(r.is_private, g.is_private);
        assert_eq!(r.is_archived, g.is_archived);
        assert_eq!(r.is_member, g.is_member);
        assert_eq!(r.is_fork, g.is_fork);
        assert_eq!(r.fork_parent, g.fork_parent);
    }
    assert_eq!(rows.len(), 5);
}

#[test]
fn folder_named_like_an_identity_shares_it_with_the_remote_row() {
    let url = "https://github.com/alice/foo";
    let rows = merge_repos(
        vec![remote("alice", "foo", url)],
        vec![local("odd", url, Some(url)), local("foo", "/r/foo", Some(url))],
    );
    assert_eq!(rows.len(), 2);
    assert!(rows.iter().all(|r| r.id == url && r.github_url.as_deref() == Some(url)));
    assert_eq!(rows.iter().filter(|r| r.local_path.as_deref() == Some("/r/foo")).count(), 1);
    assert_eq!(rows.iter().filter(|r| r.local_path.as_deref() == Some(url)).count(), 1);
}
