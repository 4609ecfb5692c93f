//! Snapshots of the remote and local state, as a refresh delivers them.
//!
//! A full refresh asks the hosting service and scans the local disk. A
//! local refresh scans the local disk only and merges with the data of
//! the hosting service kept from the last full refresh.

use crate::github::{GitHubRepoInfo, GitHubRepoModel};
use crate::local::{LocalRepo, LocalRepoModel};
use crate::merge::{merge_repos, merged};
use crate::repo::{
    GistRow, GistRowModel, GitHubCache, GitHubCacheModel, PathTable, RepoRow, RepoRowModel,
};
use vstd::prelude::*;

verus! {

/// What a refresh delivers. It is applied to the state as a whole.
#[derive(Debug)]
pub struct RefreshData {
    pub github_username: Option<String>,
    pub repos: Vec<RepoRow>,
    pub gists: Vec<GistRow>,
    /// A failure to show in the status line; the data is applied all the same.
    pub error: Option<String>,
    /// The data of the hosting service to keep for local refreshes.
    pub github_cache: Option<GitHubCache>,
    /// What the file system says of the paths that the layout check looks at.
    pub paths: PathTable,
}

/// The mathematical content of a [`RefreshData`].
pub struct RefreshDataModel {
    pub github_username: Option<Seq<char>>,
    pub repos: Seq<RepoRowModel>,
    pub gists: Seq<GistRowModel>,
    pub error: Option<Seq<char>>,
    pub github_cache: Option<GitHubCacheModel>,
    pub paths: Seq<(Seq<char>, Seq<char>)>,
}

impl DeepView for RefreshData {
    type V = RefreshDataModel;

    open spec fn deep_view(&self) -> RefreshDataModel {
        RefreshDataModel {
            github_username: self.github_username.deep_view(),
            repos: self.repos.deep_view(),
            gists: self.gists.deep_view(),
            error: self.error.deep_view(),
            github_cache: self.github_cache.deep_view(),
            paths: self.paths@,
        }
    }
}

impl View for RefreshData {
    type V = RefreshDataModel;

    open spec fn view(&self) -> RefreshDataModel {
        self.deep_view()
    }
}

/// A copy of a list of remote repositories.
pub fn copy_repos(repos: &Vec<GitHubRepoInfo>) -> (r: Vec<GitHubRepoInfo>)
    ensures
        r.deep_view() == repos.deep_view(),
{
    let r = repos.clone();
    proof {
        assert(r.deep_view() =~= repos.deep_view());
    }
    r
}

/// A copy of a list of gists.
pub fn copy_gists(gists: &Vec<GistRow>) -> (r: Vec<GistRow>)
    ensures
        r.deep_view() == gists.deep_view(),
{
    let mut r: Vec<GistRow> = Vec::new();
    let mut i: usize = 0;
    while i < gists.len()
        invariant
            i <= gists.len(),
            r.len() == i,
            forall|k: int| 0 <= k < i ==> (#[trigger] r@[k])@ == gists@[k]@,
        decreases gists.len() - i,
    {
        r.push(gists[i].clone());
        i += 1;
    }
    proof {
        assert(r.deep_view() =~= gists.deep_view());
    }
    r
}

/// The snapshot after the hosting service has refused the user: the local
/// repositories alone, with the reason of the refusal to show.
pub open spec fn snapshot_without_remote(
    error: Seq<char>,
    local: Seq<LocalRepoModel>,
) -> RefreshDataModel {
    RefreshDataModel {
        github_username: None,
        repos: merged(Seq::empty(), local),
        gists: Seq::empty(),
        error: Some(error),
        github_cache: None,
        paths: Seq::empty(),
    }
}

/// The snapshot of a full refresh: remote and local repositories merged,
/// the gists, and the remote data as received kept for local refreshes.
pub open spec fn full_snapshot(
    username: Option<Seq<char>>,
    remote: Seq<GitHubRepoModel>,
    local: Seq<LocalRepoModel>,
    gists: Seq<GistRowModel>,
) -> RefreshDataModel {
    RefreshDataModel {
        github_username: username,
        repos: merged(remote, local),
        gists,
        error: None,
        github_cache: Some(GitHubCacheModel { repos: remote, gists }),
        paths: Seq::empty(),
    }
}

/// The snapshot of a local refresh: the kept remote repositories merged
/// with the local ones found now, the kept gists as they are, and the kept
/// data passed on unchanged.
pub open spec fn local_snapshot(
    cache: GitHubCacheModel,
    local: Seq<LocalRepoModel>,
) -> RefreshDataModel {
    RefreshDataModel {
        github_username: None,
        repos: merged(cache.repos, local),
        gists: cache.gists,
        error: None,
        github_cache: Some(cache),
        paths: Seq::empty(),
    }
}

/// Assembles the snapshot for a user whom the hosting service has refused.
pub fn perform_refresh_without_remote(error: String, local_repos: Vec<LocalRepo>) -> (r:
    RefreshData)
    ensures
        r@ == snapshot_without_remote(error@, local_repos.deep_view()),
{
    let remote: Vec<GitHubRepoInfo> = Vec::new();
    proof {
        assert(remote.deep_view() =~= Seq::<GitHubRepoModel>::empty());
    }
    let repos = merge_repos(remote, local_repos);
    let gists: Vec<GistRow> = Vec::new();
    proof {
        assert(gists.deep_view() =~= Seq::<GistRowModel>::empty());
    }
    RefreshData {
        github_username: None,
        repos,
        gists,
        error: Some(error),
        github_cache: None,
        paths: PathTable::new(),
    }
}

/// The snapshot of a full refresh, given how the check of the
/// authentication went: after a refusal the local repositories alone with
/// the reason of the refusal, whatever else is given; else everything that
/// was fetched.
pub open spec fn refresh_snapshot(
    auth_error: Option<Seq<char>>,
    username: Option<Seq<char>>,
    remote: Seq<GitHubRepoModel>,
    local: Seq<LocalRepoModel>,
    gists: Seq<GistRowModel>,
) -> RefreshDataModel {
    match auth_error {
        Some(e) => snapshot_without_remote(e, local),
        None => full_snapshot(username, remote, local, gists),
    }
}

/// Assembles the snapshot of a full refresh. `auth_error` is the reason
/// for which the hosting service has refused the user, if it has; then
/// nothing of the hosting service goes into the snapshot.
pub fn perform_refresh(
    auth_error: Option<String>,
    github_username: Option<String>,
    github_repos: Vec<GitHubRepoInfo>,
    local_repos: Vec<LocalRepo>,
    gists: Vec<GistRow>,
) -> (r: RefreshData)
    ensures
        r@ == refresh_snapshot(
            auth_error.deep_view(),
            github_username.deep_view(),
            github_repos.deep_view(),
            local_repos.deep_view(),
            gists.deep_view(),
        ),
{
    match auth_error {
        Some(error) => perform_refresh_without_remote(error, local_repos),
        None => {
            let repos = merge_repos(copy_repos(&github_repos), local_repos);
            let kept = copy_gists(&gists);
            RefreshData {
                github_username,
                repos,
                github_cache: Some(GitHubCache { repos: github_repos, gists: kept }),
                gists,
                error: None,
                paths: PathTable::new(),
            }
        },
    }
}

/// Assembles the snapshot of a local refresh from the kept remote data and
/// the local repositories found now.
pub fn perform_local_refresh(cache: GitHubCache, local_repos: Vec<LocalRepo>) -> (r: RefreshData)
    ensures
        r@ == local_snapshot(cache@, local_repos.deep_view()),
{
    let repos = merge_repos(copy_repos(&cache.repos), local_repos);
    let gists = copy_gists(&cache.gists);
    RefreshData {
        github_username: None,
        repos,
        gists,
        error: None,
        github_cache: Some(cache),
        paths: PathTable::new(),
    }
}


/// What a full refresh asks of the outside, one request at a time.
#[derive(Clone, Copy, Debug, PartialEq, Eq, Structural)]
pub enum RefreshRequest {
    /// Check whether the hosting service accepts the user.
    CheckAuth,
    FetchUser,
    FetchRepos,
    /// Compare every fork with its upstream.
    CompareForks,
    /// Scan the local disk.
    DiscoverLocal,
    FetchGists,
}

/// How far a full refresh has come, with what it has gathered.
#[derive(Debug)]
pub enum RefreshStep {
    CheckAuth,
    FetchUser,
    FetchRepos { username: Option<String> },
    CompareForks { username: Option<String>, repos: Vec<GitHubRepoInfo> },
    DiscoverLocal { username: Option<String>, repos: Vec<GitHubRepoInfo> },
    FetchGists { username: Option<String>, repos: Vec<GitHubRepoInfo>, local: Vec<LocalRepo> },
    /// The hosting service has refused the user: the local disk is
    /// scanned, and nothing else.
    DiscoverLocalOnly { error: String },
    /// Nothing is left to do.
    Done { data: RefreshData },
}

/// What came back from the outside.
#[derive(Debug)]
pub enum RefreshEvent {
    /// The authentication was checked; `error` says why the user was refused.
    AuthChecked { error: Option<String> },
    User { username: Option<String> },
    Repos { repos: Vec<GitHubRepoInfo> },
    /// The repositories, with the distance of every fork to its upstream.
    ForksCompared { repos: Vec<GitHubRepoInfo> },
    Local { repos: Vec<LocalRepo> },
    Gists { gists: Vec<GistRow> },
}

/// The mathematical content of a [`RefreshStep`].
pub enum RefreshStepModel {
    CheckAuth,
    FetchUser,
    FetchRepos { username: Option<Seq<char>> },
    CompareForks { username: Option<Seq<char>>, repos: Seq<GitHubRepoModel> },
    DiscoverLocal { username: Option<Seq<char>>, repos: Seq<GitHubRepoModel> },
    FetchGists {
        username: Option<Seq<char>>,
        repos: Seq<GitHubRepoModel>,
        local: Seq<LocalRepoModel>,
    },
    DiscoverLocalOnly { error: Seq<char> },
    Done { data: RefreshDataModel },
}

/// The mathematical content of a [`RefreshEvent`].
pub enum RefreshEventModel {
    AuthChecked { error: Option<Seq<char>> },
    User { username: Option<Seq<char>> },
    Repos { repos: Seq<GitHubRepoModel> },
    ForksCompared { repos: Seq<GitHubRepoModel> },
    Local { repos: Seq<LocalRepoModel> },
    Gists { gists: Seq<GistRowModel> },
}

impl DeepView for RefreshStep {
    type V = RefreshStepModel;

    open spec fn deep_view(&self) -> RefreshStepModel {
        match self {
            RefreshStep::CheckAuth => RefreshStepModel::CheckAuth,
            RefreshStep::FetchUser => RefreshStepModel::FetchUser,
            RefreshStep::FetchRepos { username } => RefreshStepModel::FetchRepos {
                username: username.deep_view(),
            },
            RefreshStep::CompareForks { username, repos } => RefreshStepModel::CompareForks {
                username: username.deep_view(),
                repos: repos.deep_view(),
            },
            RefreshStep::DiscoverLocal { username, repos } => RefreshStepModel::DiscoverLocal {
                username: username.deep_view(),
                repos: repos.deep_view(),
            },
            RefreshStep::FetchGists { username, repos, local } => RefreshStepModel::FetchGists {
                username: username.deep_view(),
                repos: repos.deep_view(),
                local: local.deep_view(),
            },
            RefreshStep::DiscoverLocalOnly { error } => RefreshStepModel::DiscoverLocalOnly {
                error: error@,
            },
            RefreshStep::Done { data } => RefreshStepModel::Done { data: data@ },
        }
    }
}

impl View for RefreshStep {
    type V = RefreshStepModel;

    open spec fn view(&self) -> RefreshStepModel {
        self.deep_view()
    }
}

impl DeepView for RefreshEvent {
    type V = RefreshEventModel;

    open spec fn deep_view(&self) -> RefreshEventModel {
        match self {
            RefreshEvent::AuthChecked { error } => RefreshEventModel::AuthChecked {
                error: error.deep_view(),
            },
            RefreshEvent::User { username } => RefreshEventModel::User {
                username: username.deep_view(),
            },
            RefreshEvent::Repos { repos } => RefreshEventModel::Repos { repos: repos.deep_view() },
            RefreshEvent::ForksCompared { repos } => RefreshEventModel::ForksCompared {
                repos: repos.deep_view(),
            },
            RefreshEvent::Local { repos } => RefreshEventModel::Local { repos: repos.deep_view() },
            RefreshEvent::Gists { gists } => RefreshEventModel::Gists { gists: gists.deep_view() },
        }
    }
}

impl View for RefreshEvent {
    type V = RefreshEventModel;

    open spec fn view(&self) -> RefreshEventModel {
        self.deep_view()
    }
}

/// What a step asks of the outside; nothing once the refresh is done.
pub open spec fn request_of(step: RefreshStepModel) -> Option<RefreshRequest> {
    match step {
        RefreshStepModel::CheckAuth => Some(RefreshRequest::CheckAuth),
        RefreshStepModel::FetchUser => Some(RefreshRequest::FetchUser),
        RefreshStepModel::FetchRepos { username } => Some(RefreshRequest::FetchRepos),
        RefreshStepModel::CompareForks { username, repos } => Some(RefreshRequest::CompareForks),
        RefreshStepModel::DiscoverLocal { username, repos } => Some(
            RefreshRequest::DiscoverLocal,
        ),
        RefreshStepModel::FetchGists { username, repos, local } => Some(
            RefreshRequest::FetchGists,
        ),
        RefreshStepModel::DiscoverLocalOnly { error } => Some(RefreshRequest::DiscoverLocal),
        RefreshStepModel::Done { data } => None,
    }
}

/// The step that follows `step` once `event` has come back. The
/// authentication is checked first. After a refusal the local disk is
/// scanned and the refresh is done, with the local repositories alone and
/// the reason of the refusal. Else the user, the repositories, the
/// distances of the forks, the local repositories and the gists are
/// gathered in turn. An event that does not answer the request of the step
/// changes nothing.
pub open spec fn refresh_after(step: RefreshStepModel, event: RefreshEventModel) -> RefreshStepModel {
    match (step, event) {
        (RefreshStepModel::CheckAuth, RefreshEventModel::AuthChecked { error }) => match error {
            Some(e) => RefreshStepModel::DiscoverLocalOnly { error: e },
            None => RefreshStepModel::FetchUser,
        },
        (
            RefreshStepModel::FetchUser,
            RefreshEventModel::User { username },
        ) => RefreshStepModel::FetchRepos { username },
        (
            RefreshStepModel::FetchRepos { username },
            RefreshEventModel::Repos { repos },
        ) => RefreshStepModel::CompareForks { username, repos },
        (
            RefreshStepModel::CompareForks { username, repos },
            RefreshEventModel::ForksCompared { repos: compared },
        ) => RefreshStepModel::DiscoverLocal { username, repos: compared },
        (
            RefreshStepModel::DiscoverLocal { username, repos },
            RefreshEventModel::Local { repos: local },
        ) => RefreshStepModel::FetchGists { username, repos, local },
        (
            RefreshStepModel::FetchGists { username, repos, local },
            RefreshEventModel::Gists { gists },
        ) => RefreshStepModel::Done { data: full_snapshot(username, repos, local, gists) },
        (
            RefreshStepModel::DiscoverLocalOnly { error },
            RefreshEventModel::Local { repos: local },
        ) => RefreshStepModel::Done { data: snapshot_without_remote(error, local) },
        _ => step,
    }
}

impl RefreshStep {
    /// What the step asks of the outside.
    pub fn request(&self) -> (r: Option<RefreshRequest>)
        ensures
            r == request_of(self@),
    {
        match self {
            RefreshStep::CheckAuth => Some(RefreshRequest::CheckAuth),
            RefreshStep::FetchUser => Some(RefreshRequest::FetchUser),
            RefreshStep::FetchRepos { username } => Some(RefreshRequest::FetchRepos),
            RefreshStep::CompareForks { username, repos } => Some(RefreshRequest::CompareForks),
            RefreshStep::DiscoverLocal { username, repos } => Some(RefreshRequest::DiscoverLocal),
            RefreshStep::FetchGists { username, repos, local } => Some(RefreshRequest::FetchGists),
            RefreshStep::DiscoverLocalOnly { error } => Some(RefreshRequest::DiscoverLocal),
            RefreshStep::Done { data } => None,
        }
    }
}

/// Decides how a full refresh goes on after `event` has come back.
pub fn refresh_next(step: RefreshStep, event: RefreshEvent) -> (next: RefreshStep)
    ensures
        next@ == refresh_after(step@, event@),
{
    match step {
        RefreshStep::CheckAuth => match event {
            RefreshEvent::AuthChecked { error } => match error {
                Some(e) => RefreshStep::DiscoverLocalOnly { error: e },
                None => RefreshStep::FetchUser,
            },
            _ => RefreshStep::CheckAuth,
        },
        RefreshStep::FetchUser => match event {
            RefreshEvent::User { username } => RefreshStep::FetchRepos { username },
            _ => RefreshStep::FetchUser,
        },
        RefreshStep::FetchRepos { username } => match event {
            RefreshEvent::Repos { repos } => RefreshStep::CompareForks { username, repos },
            _ => RefreshStep::FetchRepos { username },
        },
        RefreshStep::CompareForks { username, repos } => match event {
            RefreshEvent::ForksCompared { repos: compared } => RefreshStep::DiscoverLocal {
                username,
                repos: compared,
            },
            _ => RefreshStep::CompareForks { username, repos },
        },
        RefreshStep::DiscoverLocal { username, repos } => match event {
            RefreshEvent::Local { repos: local } => RefreshStep::FetchGists {
                username,
                repos,
                local,
            },
            _ => RefreshStep::DiscoverLocal { username, repos },
        },
        RefreshStep::FetchGists { username, repos, local } => match event {
            RefreshEvent::Gists { gists } => RefreshStep::Done {
                data: perform_refresh(None, username, repos, local, gists),
            },
            _ => RefreshStep::FetchGists { username, repos, local },
        },
        RefreshStep::DiscoverLocalOnly { error } => match event {
            RefreshEvent::Local { repos: local } => {
                let none: Vec<GitHubRepoInfo> = Vec::new();
                let no_gists: Vec<GistRow> = Vec::new();
                RefreshStep::Done {
                    data: perform_refresh(Some(error), None, none, local, no_gists),
                }
            },
            _ => RefreshStep::DiscoverLocalOnly { error },
        },
        RefreshStep::Done { data } => RefreshStep::Done { data },
    }
}

/// The refresh has been refused: it scans the local disk, or is done.
pub open spec fn is_refused(step: RefreshStepModel) -> bool {
    step is DiscoverLocalOnly || (step is Done && step->data.github_cache is None
        && step->data.error is Some)
}

/// After a failed authentication the local disk is scanned and nothing
/// else: whatever comes back, no request goes to the hosting service.
pub proof fn refused_refresh_asks_nothing_remote(step: RefreshStepModel, event: RefreshEventModel)
    requires
        is_refused(step),
    ensures
        is_refused(refresh_after(step, event)),
        request_of(step) == Some(RefreshRequest::DiscoverLocal) || request_of(step) is None,
{
}

/// A refresh whose authentication fails delivers the local repositories
/// alone: no user, no remote repository, no gist, the reason of the
/// failure, and nothing kept of the hosting service.
pub proof fn refused_refresh_delivers_local_only(error: Seq<char>, local: Seq<LocalRepoModel>)
    ensures
        ({
            let refused = refresh_after(
                RefreshStepModel::CheckAuth,
                RefreshEventModel::AuthChecked { error: Some(error) },
            );
            let done = refresh_after(refused, RefreshEventModel::Local { repos: local });
            &&& is_refused(refused)
            &&& request_of(refused) == Some(RefreshRequest::DiscoverLocal)
            &&& done == (RefreshStepModel::Done { data: snapshot_without_remote(error, local) })
            &&& done->data.repos == merged(Seq::<GitHubRepoModel>::empty(), local)
            &&& done->data.gists.len() == 0
            &&& done->data.error == Some(error)
            &&& done->data.github_username is None
            &&& done->data.github_cache is None
        }),
{
}

/// A refresh whose authentication succeeds gathers everything in turn and
/// delivers the full snapshot.
pub proof fn accepted_refresh_delivers_everything(
    username: Option<Seq<char>>,
    repos: Seq<GitHubRepoModel>,
    compared: Seq<GitHubRepoModel>,
    local: Seq<LocalRepoModel>,
    gists: Seq<GistRowModel>,
)
    ensures
        ({
            let a = refresh_after(
                RefreshStepModel::CheckAuth,
                RefreshEventModel::AuthChecked { error: None },
            );
            let b = refresh_after(a, RefreshEventModel::User { username });
            let c = refresh_after(b, RefreshEventModel::Repos { repos });
            let d = refresh_after(c, RefreshEventModel::ForksCompared { repos: compared });
            let e = refresh_after(d, RefreshEventModel::Local { repos: local });
            let f = refresh_after(e, RefreshEventModel::Gists { gists });
            &&& request_of(a) == Some(RefreshRequest::FetchUser)
            &&& request_of(b) == Some(RefreshRequest::FetchRepos)
            &&& request_of(c) == Some(RefreshRequest::CompareForks)
            &&& request_of(d) == Some(RefreshRequest::DiscoverLocal)
            &&& request_of(e) == Some(RefreshRequest::FetchGists)
            &&& f == (RefreshStepModel::Done {
                data: full_snapshot(username, compared, local, gists),
            })
        }),
{
}

} // verus!
