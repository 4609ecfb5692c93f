use ghall::git::RepoStatus;
use ghall::github::GitHubRepoInfo;
use ghall::local::LocalRepo;
use ghall::refresh::{
    copy_gists, copy_repos, perform_local_refresh, perform_refresh, perform_refresh_without_remote,
    refresh_next, RefreshEvent, RefreshRequest, RefreshStep,
};
use ghall::repo::{GistRow, GitHubCache};

fn remote(owner: &str, name: &str) -> GitHubRepoInfo {
    GitHubRepoInfo {
        name: name.to_string(),
        owner: owner.to_string(),
        url: format!("https://github.com/{}/{}", owner, name),
        ssh_url: String::new(),
        is_private: false,
        is_fork: false,
        is_archived: false,
        fork_parent: None,
        is_member: true,
        fork_ahead: None,
        fork_behind: None,
        default_branch: None,
        parent_default_branch: None,
        pushed_at: None,
    }
}

fn local(name: &str, path: &str, url: Option<&str>) -> LocalRepo {
    LocalRepo::found(name.to_string(), path.to_string(), RepoStatus::default(), url.map(|u| u.to_string()), None)
}

fn gist(id: &str) -> GistRow {
    GistRow {
        id: id.to_string(),
        description: String::new(),
        is_public: false,
        file_names: vec!["f".to_string()],
        html_url: String::new(),
        local_path: None,
        git_status: None,
        created_at: None,
        updated_at: None,
    }
}

#[test]
fn refused_user_still_sees_local_repositories() {
    let data = perform_refresh_without_remote("not logged in".to_string(), vec![local("x", "/r/x", None)]);
    assert_eq!(data.github_username, None);
    assert_eq!(data.repos.len(), 1);
    assert_eq!(data.repos[0].id, "/r/x");
    assert_eq!(data.gists.len(), 0);
    assert_eq!(data.error.as_deref(), Some("not logged in"));
    assert!(data.github_cache.is_none());
}

#[test]
fn full_refresh_merges_and_keeps_remote_data() {
    let data = perform_refresh(
        None,
        Some("me".to_string()),
        vec![remote("me", "a"), remote("me", "b")],
        vec![local("a", "/r/a", Some("git@github.com:me/a.git")), local("n", "/r/n", None)],
        vec![gist("g1")],
    );
    assert_eq!(data.github_username.as_deref(), Some("me"));
    assert_eq!(data.repos.len(), 3);
    assert_eq!(data.gists.len(), 1);
    assert!(data.error.is_none());
    let cache = data.github_cache.unwrap();
    assert_eq!(cache.repos.len(), 2);
    assert_eq!(cache.repos[1].name, "b");
    assert_eq!(cache.gists.len(), 1);
    assert_eq!(cache.gists[0].id, "g1");
}

#[test]
fn local_refresh_reuses_kept_data() {
    let cache = GitHubCache { repos: vec![remote("me", "a")], gists: vec![gist("g1"), gist("g2")] };
    let data = perform_local_refresh(cache, vec![local("a", "/r/a", Some("https://github.com/me/a"))]);
    assert_eq!(data.github_username, None);
    assert!(data.error.is_none());
    assert_eq!(data.repos.len(), 1);
    assert_eq!(data.repos[0].local_path.as_deref(), Some("/r/a"));
    assert_eq!(data.gists.len(), 2);
    assert_eq!(data.gists[1].id, "g2");
    let kept = data.github_cache.unwrap();
    assert_eq!(kept.repos.len(), 1);
    assert_eq!(kept.gists.len(), 2);
}

#[test]
fn copies_hold_the_same() {
    let repos = vec![remote("me", "a"), remote("you", "b")];
    let copy = copy_repos(&repos);
    assert_eq!(copy.len(), 2);
    assert_eq!(copy[1].owner, "you");
    let gists = vec![gist("x")];
    let copy = copy_gists(&gists);
    assert_eq!(copy[0].id, "x");
    assert_eq!(copy[0].file_names, vec!["f"]);
}

#[test]
fn refresh_after_failed_authentication_holds_nothing_remote() {
    let data = perform_refresh(
        Some("gh: not logged in".to_string()),
        Some("me".to_string()),
        vec![remote("me", "a"), remote("me", "b")],
        vec![local("a", "/r/a", Some("git@github.com:me/a.git")), local("n", "/r/n", None)],
        vec![gist("g1")],
    );
    assert_eq!(data.github_username, None);
    assert_eq!(data.error.as_deref(), Some("gh: not logged in"));
    assert!(data.github_cache.is_none());
    assert_eq!(data.gists.len(), 0);
    assert_eq!(data.repos.len(), 2);
    assert!(data.repos.iter().all(|r| r.local_path.is_some()));
    assert!(data.repos.iter().all(|r| r.id.starts_with("/r/")));
}

#[test]
fn refused_refresh_scans_the_disk_and_ends() {
    let step = RefreshStep::CheckAuth;
    assert_eq!(step.request(), Some(RefreshRequest::CheckAuth));
    let step = refresh_next(step, RefreshEvent::AuthChecked { error: Some("no token".to_string()) });
    assert_eq!(step.request(), Some(RefreshRequest::DiscoverLocal));
    assert!(matches!(step, RefreshStep::DiscoverLocalOnly { .. }));
    let step = refresh_next(step, RefreshEvent::Local { repos: vec![local("x", "/r/x", None)] });
    assert_eq!(step.request(), None);
    match step {
        RefreshStep::Done { data } => {
            assert_eq!(data.github_username, None);
            assert_eq!(data.error.as_deref(), Some("no token"));
            assert!(data.github_cache.is_none());
            assert_eq!(data.gists.len(), 0);
            assert_eq!(data.repos.len(), 1);
            assert_eq!(data.repos[0].id, "/r/x");
        }
        other => panic!("not done: {:?}", other),
    }
}

#[test]
fn accepted_refresh_asks_for_everything_in_turn() {
    let mut asked = Vec::new();
    let mut step = RefreshStep::CheckAuth;
    while let Some(request) = step.request() {
        asked.push(request);
        let event = match request {
            RefreshRequest::CheckAuth => RefreshEvent::AuthChecked { error: None },
            RefreshRequest::FetchUser => RefreshEvent::User { username: Some("me".to_string()) },
            RefreshRequest::FetchRepos => RefreshEvent::Repos { repos: vec![remote("me", "a")] },
            RefreshRequest::CompareForks => {
                let mut compared = remote("me", "a");
                compared.fork_ahead = Some(2);
                RefreshEvent::ForksCompared { repos: vec![compared] }
            }
            RefreshRequest::DiscoverLocal => RefreshEvent::Local {
                repos: vec![local("a", "/r/a", Some("git@github.com:me/a.git"))],
            },
            RefreshRequest::FetchGists => RefreshEvent::Gists { gists: vec![gist("g1")] },
        };
        step = refresh_next(step, event);
    }
    assert_eq!(
        asked,
        vec![
            RefreshRequest::CheckAuth,
            RefreshRequest::FetchUser,
            RefreshRequest::FetchRepos,
            RefreshRequest::CompareForks,
            RefreshRequest::DiscoverLocal,
            RefreshRequest::FetchGists,
        ]
    );
    match step {
        RefreshStep::Done { data } => {
            assert_eq!(data.github_username.as_deref(), Some("me"));
            assert!(data.error.is_none());
            assert_eq!(data.repos.len(), 1);
            assert_eq!(data.repos[0].id, "https://github.com/me/a");
            assert_eq!(data.repos[0].local_path.as_deref(), Some("/r/a"));
            assert_eq!(data.repos[0].fork_ahead, Some(2));
            assert_eq!(data.gists.len(), 1);
            let cache = data.github_cache.unwrap();
            assert_eq!(cache.repos.len(), 1);
            assert_eq!(cache.repos[0].fork_ahead, Some(2));
            assert_eq!(cache.gists.len(), 1);
        }
        other => panic!("not done: {:?}", other),
    }
}

#[test]
fn refresh_step_ignores_an_event_that_answers_another_request() {
    let step = refresh_next(RefreshStep::CheckAuth, RefreshEvent::Gists { gists: vec![gist("g")] });
    assert!(matches!(step, RefreshStep::CheckAuth));
    let step = refresh_next(
        RefreshStep::DiscoverLocalOnly { error: "e".to_string() },
        RefreshEvent::Repos { repos: vec![remote("me", "a")] },
    );
    assert_eq!(step.request(), Some(RefreshRequest::DiscoverLocal));
    assert!(matches!(step, RefreshStep::DiscoverLocalOnly { .. }));
}
