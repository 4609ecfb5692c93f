//! Records of the hosting service: repositories, gists and the outcome of
//! operations on them.

use crate::git::{CommandOutcome, RepoStatus};
use crate::repo::{GistRow, GistRowModel};
use crate::sort::{sorted_strings, sorted_strings_ignore_order, stable_sorted, ByteOrder};
use crate::text::{concat2, concat3, lines_of, split_lines, str_trim, trimmed};
use crate::url::{first_piece, first_segment};
use vstd::prelude::*;

verus! {

/// Outcome of an operation on the hosting service, with the diagnostic text
/// it printed on failure.
#[derive(Debug)]
pub struct GhOpResult {
    pub success: bool,
    pub stderr: String,
}

impl GhOpResult {
    /// A successful outcome, with no diagnostic text.
    pub fn ok() -> (r: Self)
        ensures
            r.success,
            r.stderr@ == Seq::<char>::empty(),
    {
        Self { success: true, stderr: String::new() }
    }

    /// A failed outcome carrying `stderr`.
    pub fn err(stderr: String) -> (r: Self)
        ensures
            !r.success,
            r.stderr == stderr,
    {
        Self { success: false, stderr }
    }
}

impl Clone for GhOpResult {
    fn clone(&self) -> (r: Self)
        ensures
            r == *self,
    {
        Self { success: self.success, stderr: self.stderr.clone() }
    }
}

/// A repository as the hosting service reports it.
#[derive(Debug)]
pub struct GitHubRepoInfo {
    pub name: String,
    pub owner: String,
    pub url: String,
    pub ssh_url: String,
    pub is_private: bool,
    pub is_fork: bool,
    pub is_archived: bool,
    pub fork_parent: Option<String>,
    /// The user owns the repository or is a member of the owning organization.
    pub is_member: bool,
    /// Commits ahead of the upstream, for forks.
    pub fork_ahead: Option<u32>,
    /// Commits behind the upstream, for forks.
    pub fork_behind: Option<u32>,
    pub default_branch: Option<String>,
    /// Default branch of the upstream, for forks.
    pub parent_default_branch: Option<String>,
    /// Time of the last push, in seconds since the epoch.
    pub pushed_at: Option<i64>,
}

/// The mathematical content of a [`GitHubRepoInfo`].
pub struct GitHubRepoModel {
    pub name: Seq<char>,
    pub owner: Seq<char>,
    pub url: Seq<char>,
    pub ssh_url: Seq<char>,
    pub is_private: bool,
    pub is_fork: bool,
    pub is_archived: bool,
    pub fork_parent: Option<Seq<char>>,
    pub is_member: bool,
    pub fork_ahead: Option<u32>,
    pub fork_behind: Option<u32>,
    pub default_branch: Option<Seq<char>>,
    pub parent_default_branch: Option<Seq<char>>,
    pub pushed_at: Option<i64>,
}

impl DeepView for GitHubRepoInfo {
    type V = GitHubRepoModel;

    open spec fn deep_view(&self) -> GitHubRepoModel {
        GitHubRepoModel {
            name: self.name@,
            owner: self.owner@,
            url: self.url@,
            ssh_url: self.ssh_url@,
            is_private: self.is_private,
            is_fork: self.is_fork,
            is_archived: self.is_archived,
            fork_parent: self.fork_parent.deep_view(),
            is_member: self.is_member,
            fork_ahead: self.fork_ahead,
            fork_behind: self.fork_behind,
            default_branch: self.default_branch.deep_view(),
            parent_default_branch: self.parent_default_branch.deep_view(),
            pushed_at: self.pushed_at,
        }
    }
}

impl View for GitHubRepoInfo {
    type V = GitHubRepoModel;

    open spec fn view(&self) -> GitHubRepoModel {
        self.deep_view()
    }
}

impl Clone for GitHubRepoInfo {
    fn clone(&self) -> (r: Self)
        ensures
            r == *self,
    {
        Self {
            name: self.name.clone(),
            owner: self.owner.clone(),
            url: self.url.clone(),
            ssh_url: self.ssh_url.clone(),
            is_private: self.is_private,
            is_fork: self.is_fork,
            is_archived: self.is_archived,
            fork_parent: self.fork_parent.clone(),
            is_member: self.is_member,
            fork_ahead: self.fork_ahead,
            fork_behind: self.fork_behind,
            default_branch: self.default_branch.clone(),
            parent_default_branch: self.parent_default_branch.clone(),
            pushed_at: self.pushed_at,
        }
    }
}

/// One file of a gist.
#[derive(Debug)]
pub struct GistFile {
    pub filename: String,
}

/// A gist as the hosting service reports it, its files in whatever order
/// they were received.
#[derive(Debug)]
pub struct GitHubGist {
    pub id: String,
    pub description: Option<String>,
    pub public: bool,
    pub html_url: String,
    pub files: Vec<GistFile>,
    pub created_at: Option<String>,
    pub updated_at: Option<String>,
}

/// What is needed to create a repository on the hosting service from a local folder.
#[derive(Debug)]
pub struct CreateRepoOptions {
    pub name: String,
    pub path: String,
    pub description: Option<String>,
    pub private: bool,
    /// The organization to create it in; `None` for the personal account.
    pub org: Option<String>,
}

/// The mathematical content of [`CreateRepoOptions`].
pub struct CreateRepoModel {
    pub name: Seq<char>,
    pub path: Seq<char>,
    pub description: Option<Seq<char>>,
    pub private: bool,
    pub org: Option<Seq<char>>,
}

impl DeepView for CreateRepoOptions {
    type V = CreateRepoModel;

    open spec fn deep_view(&self) -> CreateRepoModel {
        CreateRepoModel {
            name: self.name@,
            path: self.path@,
            description: self.description.deep_view(),
            private: self.private,
            org: self.org.deep_view(),
        }
    }
}

impl View for CreateRepoOptions {
    type V = CreateRepoModel;

    open spec fn view(&self) -> CreateRepoModel {
        self.deep_view()
    }
}


impl GhOpResult {
    /// The result of an operation that consists of one command: success
    /// if the command succeeded, else a failure with its text.
    pub fn from_outcome(outcome: CommandOutcome) -> (r: Self)
        ensures
            r.success == outcome.succeeded(),
            r.stderr@ == if outcome.succeeded() {
                Seq::<char>::empty()
            } else {
                outcome.text@
            },
    {
        if outcome.launched && outcome.success {
            GhOpResult::ok()
        } else {
            GhOpResult::err(outcome.text)
        }
    }
}

/// The instant that an RFC 3339 date and time denotes, in seconds since
/// the epoch; `None` for a text that is no such date and time.
pub uninterp spec fn rfc3339_timestamp(s: Seq<char>) -> Option<i64>;

/// Reads a time stamp of the hosting service. Wraps
/// `chrono::DateTime::parse_from_rfc3339` and `DateTime::timestamp`: the
/// result is the number of seconds since the epoch of the instant that the
/// text denotes, if it is an RFC 3339 date and time.
#[verifier::external_body]
pub(crate) fn parse_iso8601_timestamp(s: &str) -> (r: Option<i64>)
    ensures
        r == rfc3339_timestamp(s@),
{
    match chrono::DateTime::parse_from_rfc3339(s) {
        Ok(dt) => Some(dt.timestamp()),
        Err(_) => None,
    }
}

/// The name of a branch.
#[derive(Debug)]
pub struct BranchRef {
    pub name: String,
}

/// The upstream of a fork.
#[derive(Debug)]
pub struct ParentRepo {
    pub name_with_owner: String,
    pub default_branch_ref: Option<BranchRef>,
}

/// A repository in the answer of the hosting service.
#[derive(Debug)]
pub struct Repository {
    pub name: String,
    pub name_with_owner: String,
    pub url: String,
    pub ssh_url: String,
    pub is_private: bool,
    pub is_fork: bool,
    pub is_archived: bool,
    pub pushed_at: Option<String>,
    pub parent: Option<ParentRepo>,
    pub default_branch_ref: Option<BranchRef>,
}

/// A list of repositories in the answer of the hosting service.
#[derive(Debug)]
pub struct RepositoryConnection {
    pub nodes: Vec<Repository>,
}

/// An organization of the user with its repositories.
#[derive(Debug)]
pub struct Organization {
    pub login: String,
    pub repositories: RepositoryConnection,
}

/// The organizations of the user.
#[derive(Debug)]
pub struct OrganizationConnection {
    pub nodes: Vec<Organization>,
}

/// The user with the repositories of the user and of the user's organizations.
#[derive(Debug)]
pub struct Viewer {
    pub login: String,
    pub repositories: RepositoryConnection,
    pub organizations: OrganizationConnection,
}

/// The payload of the answer of the hosting service.
#[derive(Debug)]
pub struct GraphQLData {
    pub viewer: Viewer,
}

/// The answer of the hosting service to the query for all repositories.
#[derive(Debug)]
pub struct GraphQLResponse {
    pub data: Option<GraphQLData>,
}

/// The name of a branch reference, if there is one.
pub open spec fn branch_of_ref(r: Option<BranchRef>) -> Option<Seq<char>> {
    match r {
        Some(b) => Some(b.name@),
        None => None,
    }
}

/// What is recorded of a repository in the answer of the hosting service,
/// given its owner and the time of its last push. The user is a member of
/// every repository listed; the distance of a fork to its upstream is not
/// known yet.
pub open spec fn repo_info_at(
    repo: Repository,
    owner: Seq<char>,
    pushed_at: Option<i64>,
) -> GitHubRepoModel {
    GitHubRepoModel {
        name: repo.name@,
        owner,
        url: repo.url@,
        ssh_url: repo.ssh_url@,
        is_private: repo.is_private,
        is_fork: repo.is_fork,
        is_archived: repo.is_archived,
        fork_parent: match repo.parent {
            Some(p) => Some(p.name_with_owner@),
            None => None,
        },
        is_member: true,
        fork_ahead: None,
        fork_behind: None,
        default_branch: branch_of_ref(repo.default_branch_ref),
        parent_default_branch: match repo.parent {
            Some(p) => branch_of_ref(p.default_branch_ref),
            None => None,
        },
        pushed_at,
    }
}

/// What is recorded of a repository in the answer of the hosting service,
/// given its owner: the time of its last push is read from the timestamp
/// that the answer holds, if it holds one.
pub open spec fn repo_info(repo: Repository, owner: Seq<char>) -> GitHubRepoModel {
    repo_info_at(
        repo,
        owner,
        match repo.pushed_at {
            Some(t) => rfc3339_timestamp(t@),
            None => None,
        },
    )
}

/// The records of the first `n` repositories of the user: each is owned
/// by whoever stands before the slash in its full name.
pub open spec fn user_repos(nodes: Seq<Repository>, n: int) -> Seq<GitHubRepoModel>
    decreases n,
{
    if n <= 0 {
        Seq::empty()
    } else {
        user_repos(nodes, n - 1).push(
            repo_info(nodes[n - 1], first_piece(nodes[n - 1].name_with_owner@, '/')),
        )
    }
}

/// The records of the first `n` repositories of an organization.
pub open spec fn org_repos(nodes: Seq<Repository>, login: Seq<char>, n: int) -> Seq<GitHubRepoModel>
    decreases n,
{
    if n <= 0 {
        Seq::empty()
    } else {
        org_repos(nodes, login, n - 1).push(repo_info(nodes[n - 1], login))
    }
}

/// The records of the repositories of the first `n` organizations.
pub open spec fn orgs_repos(orgs: Seq<Organization>, n: int) -> Seq<GitHubRepoModel>
    decreases n,
{
    if n <= 0 {
        Seq::empty()
    } else {
        orgs_repos(orgs, n - 1) + org_repos(
            orgs[n - 1].repositories.nodes@,
            orgs[n - 1].login@,
            orgs[n - 1].repositories.nodes@.len() as int,
        )
    }
}

/// All repositories in an answer: those of the user, then those of the
/// user's organizations.
pub open spec fn all_repos(data: GraphQLData) -> Seq<GitHubRepoModel> {
    user_repos(data.viewer.repositories.nodes@, data.viewer.repositories.nodes@.len() as int)
        + orgs_repos(
        data.viewer.organizations.nodes@,
        data.viewer.organizations.nodes@.len() as int,
    )
}

/// Records a repository of the answer of the hosting service under its
/// owner, with `pushed_at` as the time of its last push.
pub fn repo_record(repo: &Repository, owner: String, pushed_at: Option<i64>) -> (r: GitHubRepoInfo)
    ensures
        r@ == repo_info_at(*repo, owner@, pushed_at),
{
    let default_branch = match &repo.default_branch_ref {
        Some(b) => Some(b.name.clone()),
        None => None,
    };
    let (fork_parent, parent_default_branch) = match &repo.parent {
        Some(p) => (
            Some(p.name_with_owner.clone()),
            match &p.default_branch_ref {
                Some(b) => Some(b.name.clone()),
                None => None,
            },
        ),
        None => (None, None),
    };
    GitHubRepoInfo {
        name: repo.name.clone(),
        owner,
        url: repo.url.clone(),
        ssh_url: repo.ssh_url.clone(),
        is_private: repo.is_private,
        is_fork: repo.is_fork,
        is_archived: repo.is_archived,
        fork_parent,
        is_member: true,
        fork_ahead: None,
        fork_behind: None,
        default_branch,
        parent_default_branch,
        pushed_at,
    }
}

fn record_repo(repo: &Repository, owner: String) -> (r: GitHubRepoInfo)
    ensures
        r@ == repo_info(*repo, owner@),
{
    let pushed_at = match &repo.pushed_at {
        Some(t) => parse_iso8601_timestamp(t.as_str()),
        None => None,
    };
    repo_record(repo, owner, pushed_at)
}

/// Turns the answer of the hosting service into the list of repositories.
pub fn repos_from_graphql(data: &GraphQLData) -> (r: Vec<GitHubRepoInfo>)
    ensures
        r.deep_view() == all_repos(*data),
{
    let mut repos: Vec<GitHubRepoInfo> = Vec::new();
    let nodes = &data.viewer.repositories.nodes;
    let mut i: usize = 0;
    proof {
        assert(repos.deep_view() =~= Seq::<GitHubRepoModel>::empty());
    }
    while i < nodes.len()
        invariant
            i <= nodes.len(),
            repos.deep_view() == user_repos(nodes@, i as int),
        decreases nodes.len() - i,
    {
        let ghost before = repos.deep_view();
        let owner = first_segment(nodes[i].name_with_owner.as_str(), '/');
        let info = record_repo(&nodes[i], owner);
        repos.push(info);
        proof {
            assert(repos.deep_view() =~= before.push(info@));
        }
        i += 1;
    }
    let ghost own = repos.deep_view();
    let orgs = &data.viewer.organizations.nodes;
    let mut k: usize = 0;
    proof {
        assert(own + orgs_repos(orgs@, 0) =~= own);
    }
    while k < orgs.len()
        invariant
            k <= orgs.len(),
            repos.deep_view() == own + orgs_repos(orgs@, k as int),
        decreases orgs.len() - k,
    {
        let org = &orgs[k];
        let ghost head = repos.deep_view();
        let mut j: usize = 0;
        proof {
            assert(head + org_repos(org.repositories.nodes@, org.login@, 0) =~= head);
        }
        while j < org.repositories.nodes.len()
            invariant
                j <= org.repositories.nodes.len(),
                repos.deep_view() == head + org_repos(
                    org.repositories.nodes@,
                    org.login@,
                    j as int,
                ),
            decreases org.repositories.nodes.len() - j,
        {
            let ghost before = repos.deep_view();
            let info = record_repo(&org.repositories.nodes[j], org.login.clone());
            repos.push(info);
            proof {
                assert(repos.deep_view() =~= before.push(info@));
                assert(before.push(info@) =~= head + org_repos(
                    org.repositories.nodes@,
                    org.login@,
                    j + 1,
                ));
            }
            j += 1;
        }
        proof {
            assert(own + orgs_repos(orgs@, k as int) + org_repos(
                org.repositories.nodes@,
                org.login@,
                org.repositories.nodes@.len() as int,
            ) =~= own + orgs_repos(orgs@, k + 1));
        }
        k += 1;
    }
    repos
}

/// The names of the first `n` files.
pub open spec fn file_names(files: Seq<GistFile>, n: int) -> Seq<Seq<char>>
    decreases n,
{
    if n <= 0 {
        Seq::empty()
    } else {
        file_names(files, n - 1).push(files[n - 1].filename@)
    }
}

/// The names of the files of a gist, in the order of their bytes: the
/// order in which the files were received does not matter.
pub open spec fn ordered_file_names(g: GitHubGist) -> Seq<Seq<char>> {
    stable_sorted(file_names(g.files@, g.files@.len() as int), ByteOrder)
}

/// The row for a gist, with its file names in the order of their bytes. A
/// gist without description is described by the first of these names, or
/// as `Untitled` if it has no file.
pub open spec fn gist_row_of(
    g: GitHubGist,
    local_path: Option<Seq<char>>,
    git_status: Option<crate::git::RepoStatusModel>,
) -> GistRowModel {
    GistRowModel {
        id: g.id@,
        description: match g.description {
            Some(d) => d@,
            None => if g.files@.len() > 0 {
                ordered_file_names(g)[0]
            } else {
                "Untitled"@
            },
        },
        is_public: g.public,
        file_names: ordered_file_names(g),
        html_url: g.html_url@,
        local_path,
        git_status,
        created_at: g.created_at.deep_view(),
        updated_at: g.updated_at.deep_view(),
    }
}

/// As many names are listed as there are files.
pub proof fn lemma_file_names_len(files: Seq<GistFile>, n: int)
    requires
        0 <= n,
    ensures
        file_names(files, n).len() == n,
    decreases n,
{
    if n > 0 {
        lemma_file_names_len(files, n - 1);
    }
}

/// The row of a gist does not depend on the order in which its files were
/// received: two gists that differ in nothing else give the same row,
/// where no two files have the same name.
pub proof fn gist_row_ignores_file_order(
    g: GitHubGist,
    h: GitHubGist,
    local_path: Option<Seq<char>>,
    git_status: Option<crate::git::RepoStatusModel>,
)
    requires
        g.id == h.id,
        g.description == h.description,
        g.public == h.public,
        g.html_url == h.html_url,
        g.created_at == h.created_at,
        g.updated_at == h.updated_at,
        file_names(g.files@, g.files@.len() as int).no_duplicates(),
        file_names(g.files@, g.files@.len() as int).to_multiset() == file_names(
            h.files@,
            h.files@.len() as int,
        ).to_multiset(),
    ensures
        gist_row_of(g, local_path, git_status) == gist_row_of(h, local_path, git_status),
{
    let a = file_names(g.files@, g.files@.len() as int);
    let b = file_names(h.files@, h.files@.len() as int);
    lemma_file_names_len(g.files@, g.files@.len() as int);
    lemma_file_names_len(h.files@, h.files@.len() as int);
    vstd::seq_lib::to_multiset_len(a);
    vstd::seq_lib::to_multiset_len(b);
    sorted_strings_ignore_order(a, b);
}

/// Where the local clone of a gist belongs: `gists/{id}` below the local root.
pub fn gist_clone_path(local_root: &str, id: &str) -> (r: String)
    ensures
        r@ == local_root@ + "/gists/"@ + id@,
{
    concat3(local_root, "/gists/", id)
}

/// Makes the row for a gist, given its local clone if there is one.
pub fn gist_row(g: GitHubGist, local_path: Option<String>, git_status: Option<RepoStatus>) -> (r:
    GistRow)
    ensures
        r@ == gist_row_of(g, local_path.deep_view(), git_status.deep_view()),
{
    let mut names: Vec<String> = Vec::new();
    let mut i: usize = 0;
    proof {
        assert(names.deep_view() =~= Seq::<Seq<char>>::empty());
    }
    while i < g.files.len()
        invariant
            i <= g.files.len(),
            names.deep_view() == file_names(g.files@, i as int),
        decreases g.files.len() - i,
    {
        let ghost before = names.deep_view();
        names.push(g.files[i].filename.clone());
        proof {
            assert(names.deep_view() =~= before.push(g.files@[i as int].filename@));
        }
        i += 1;
    }
    let ordered = sorted_strings(&names);
    let description = match g.description {
        Some(d) => d,
        None => if ordered.len() > 0 {
            proof {
                assert(ordered.deep_view()[0] == ordered@[0]@);
            }
            ordered[0].clone()
        } else {
            "Untitled".to_owned()
        },
    };
    GistRow {
        id: g.id,
        description,
        is_public: g.public,
        file_names: ordered,
        html_url: g.html_url,
        local_path,
        git_status,
        created_at: g.created_at,
        updated_at: g.updated_at,
    }
}

/// The name under which a repository is created: in an organization, the
/// organization and the name with a slash between them.
pub open spec fn full_name(options: CreateRepoModel) -> Seq<char> {
    match options.org {
        Some(org) => org + "/"@ + options.name,
        None => options.name,
    }
}

/// The arguments with which the client of the hosting service creates a
/// repository from a local folder and pushes it. A description is passed
/// on unless it is empty.
pub open spec fn create_repo_arguments(options: CreateRepoModel) -> Seq<Seq<char>> {
    let base = seq![
        "repo"@,
        "create"@,
        full_name(options),
        if options.private {
            "--private"@
        } else {
            "--public"@
        },
        "--source"@,
        options.path,
        "--push"@,
    ];
    match options.description {
        Some(d) => if d.len() > 0 {
            base.push("--description"@).push(d)
        } else {
            base
        },
        None => base,
    }
}

/// Builds the arguments for creating a repository.
pub fn create_repo_args(opts: &CreateRepoOptions) -> (r: Vec<String>)
    ensures
        r.deep_view() == create_repo_arguments(opts@),
{
    let full = match &opts.org {
        Some(org) => concat3(org.as_str(), "/", opts.name.as_str()),
        None => opts.name.clone(),
    };
    let mut args: Vec<String> = Vec::new();
    args.push("repo".to_owned());
    args.push("create".to_owned());
    args.push(full);
    if opts.private {
        args.push("--private".to_owned());
    } else {
        args.push("--public".to_owned());
    }
    args.push("--source".to_owned());
    args.push(opts.path.clone());
    args.push("--push".to_owned());
    proof {
        assert(args.deep_view() =~= seq![
            "repo"@,
            "create"@,
            full_name(opts@),
            if opts@.private {
                "--private"@
            } else {
                "--public"@
            },
            "--source"@,
            opts@.path,
            "--push"@,
        ]);
    }
    match &opts.description {
        Some(desc) => {
            if desc.as_str().unicode_len() > 0 {
                let ghost base = args.deep_view();
                args.push("--description".to_owned());
                args.push(desc.clone());
                proof {
                    assert(args.deep_view() =~= base.push("--description"@).push(desc@));
                }
            }
        },
        None => {},
    }
    args
}

/// The request that compares a fork with its upstream, for a fork whose
/// upstream and whose two default branches are known:
/// `repos/{upstream}/compare/{upstream branch}...{owner}:{branch}`.
pub open spec fn comparison_endpoint(repo: GitHubRepoModel) -> Option<Seq<char>> {
    if repo.is_fork && repo.fork_parent is Some && repo.default_branch is Some
        && repo.parent_default_branch is Some {
        Some(
            "repos/"@ + repo.fork_parent->0 + "/compare/"@ + repo.parent_default_branch->0
                + "..."@ + repo.owner + ":"@ + repo.default_branch->0,
        )
    } else {
        None
    }
}

/// Builds the request that compares a fork with its upstream.
pub fn fork_comparison_endpoint(repo: &GitHubRepoInfo) -> (r: Option<String>)
    ensures
        r.deep_view() == comparison_endpoint(repo@),
{
    if !repo.is_fork {
        return None;
    }
    match (&repo.fork_parent, &repo.default_branch, &repo.parent_default_branch) {
        (Some(parent), Some(branch), Some(parent_branch)) => {
            let a = concat3("repos/", parent.as_str(), "/compare/");
            let b = concat3(a.as_str(), parent_branch.as_str(), "...");
            let c = concat3(b.as_str(), repo.owner.as_str(), ":");
            Some(concat2(c.as_str(), branch.as_str()))
        },
        _ => None,
    }
}

/// Records the distance of fork `idx` to its upstream.
pub fn set_fork_comparison(repos: &mut Vec<GitHubRepoInfo>, idx: usize, ahead: u32, behind: u32)
    requires
        idx < old(repos).len(),
    ensures
        final(repos).len() == old(repos).len(),
        final(repos)@[idx as int]@ == (GitHubRepoModel {
            fork_ahead: Some(ahead),
            fork_behind: Some(behind),
            ..old(repos)@[idx as int]@
        }),
        forall|k: int| 0 <= k < old(repos).len() && k != idx ==> final(repos)@[k] == old(repos)@[k],
{
    let mut repo = repos[idx].clone();
    repo.fork_ahead = Some(ahead);
    repo.fork_behind = Some(behind);
    repos.set(idx, repo);
}

/// The path of the request that unarchives a repository.
pub fn unarchive_endpoint(repo: &str) -> (r: String)
    ensures
        r@ == "/repos/"@ + repo@,
{
    concat2("/repos/", repo)
}

/// Reads the organizations of the user, one per line; none where the
/// request failed.
pub fn parse_user_orgs(success: bool, stdout: &str) -> (r: Vec<String>)
    ensures
        r.deep_view() == if success {
            lines_of(stdout@)
        } else {
            Seq::empty()
        },
{
    if success {
        split_lines(stdout)
    } else {
        let r: Vec<String> = Vec::new();
        proof {
            assert(r.deep_view() =~= Seq::<Seq<char>>::empty());
        }
        r
    }
}

/// Reads the login of the user from the answer of the hosting service.
pub fn parse_current_user(stdout: &str) -> (r: String)
    ensures
        r@ == trimmed(stdout@),
{
    str_trim(stdout)
}

} // verus!
