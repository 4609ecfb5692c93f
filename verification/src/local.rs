//! Repositories and plain folders found on the local disk.

use crate::git::{RepoStatus, RepoStatusModel};
use crate::sort::{
    is_sorted, is_total_preorder, stable_sort, stable_sorted, Precedence, SpecOrder,
};
use crate::text::{
    compare_folded, concat2, folded, lemma_str_order_antisymmetric, lemma_str_order_transitive,
    starts_with, str_eq, str_order, str_starts_with, Order,
};
use crate::url::{parse_owner_from_url, url_owner};
use vstd::prelude::*;

verus! {

/// A folder found below the scan root: a git repository, or a plain folder
/// (`has_git` false).
#[derive(Debug)]
pub struct LocalRepo {
    pub name: String,
    pub path: String,
    pub status: RepoStatus,
    pub remote_owner: Option<String>,
    pub remote_url: Option<String>,
    /// Time of the last commit, in seconds since the epoch.
    pub last_commit_time: Option<i64>,
    /// Nested inside another repository.
    pub is_subrepo: bool,
    /// Path of the enclosing repository, for a subrepo.
    pub parent_repo: Option<String>,
    pub has_git: bool,
}

/// The mathematical content of a [`LocalRepo`].
pub struct LocalRepoModel {
    pub name: Seq<char>,
    pub path: Seq<char>,
    pub status: RepoStatusModel,
    pub remote_owner: Option<Seq<char>>,
    pub remote_url: Option<Seq<char>>,
    pub last_commit_time: Option<i64>,
    pub is_subrepo: bool,
    pub parent_repo: Option<Seq<char>>,
    pub has_git: bool,
}

impl DeepView for LocalRepo {
    type V = LocalRepoModel;

    open spec fn deep_view(&self) -> LocalRepoModel {
        LocalRepoModel {
            name: self.name@,
            path: self.path@,
            status: self.status@,
            remote_owner: self.remote_owner.deep_view(),
            remote_url: self.remote_url.deep_view(),
            last_commit_time: self.last_commit_time,
            is_subrepo: self.is_subrepo,
            parent_repo: self.parent_repo.deep_view(),
            has_git: self.has_git,
        }
    }
}

impl View for LocalRepo {
    type V = LocalRepoModel;

    open spec fn view(&self) -> LocalRepoModel {
        self.deep_view()
    }
}

impl Clone for LocalRepo {
    fn clone(&self) -> (r: Self)
        ensures
            r == *self,
    {
        Self {
            name: self.name.clone(),
            path: self.path.clone(),
            status: self.status.clone(),
            remote_owner: self.remote_owner.clone(),
            remote_url: self.remote_url.clone(),
            last_commit_time: self.last_commit_time,
            is_subrepo: self.is_subrepo,
            parent_repo: self.parent_repo.clone(),
            has_git: self.has_git,
        }
    }
}


/// Whether the scan looks at a folder entry of this name: hidden entries
/// are passed over, but for `.git`.
pub fn keeps_entry(name: &str) -> (r: bool)
    ensures
        r == (!starts_with(name@, "."@) || name@ == ".git"@),
{
    !str_starts_with(name, ".") || str_eq(name, ".git")
}

/// The entry for a git repository found at `path`. The owner is read from
/// the URL of its remote.
pub open spec fn found_repo(
    name: Seq<char>,
    path: Seq<char>,
    status: RepoStatusModel,
    remote_url: Option<Seq<char>>,
    last_commit_time: Option<i64>,
) -> LocalRepoModel {
    LocalRepoModel {
        name,
        path,
        status,
        remote_owner: match remote_url {
            Some(u) => url_owner(u),
            None => None,
        },
        remote_url,
        last_commit_time,
        is_subrepo: false,
        parent_repo: None,
        has_git: true,
    }
}

/// The entry for a folder at `path` that is no git repository.
pub open spec fn plain_folder(name: Seq<char>, path: Seq<char>) -> LocalRepoModel {
    LocalRepoModel {
        name,
        path,
        status: RepoStatusModel {
            branch: Seq::empty(),
            ahead: 0,
            behind: 0,
            dirty: false,
            untracked: 0,
            staged: 0,
            has_remote: false,
        },
        remote_owner: None,
        remote_url: None,
        last_commit_time: None,
        is_subrepo: false,
        parent_repo: None,
        has_git: false,
    }
}

impl LocalRepo {
    /// The entry for a git repository.
    pub fn found(
        name: String,
        path: String,
        status: RepoStatus,
        remote_url: Option<String>,
        last_commit_time: Option<i64>,
    ) -> (r: Self)
        ensures
            r@ == found_repo(name@, path@, status@, remote_url.deep_view(), last_commit_time),
    {
        let remote_owner = match &remote_url {
            Some(url) => parse_owner_from_url(url.as_str()),
            None => None,
        };
        Self {
            name,
            path,
            status,
            remote_owner,
            remote_url,
            last_commit_time,
            is_subrepo: false,
            parent_repo: None,
            has_git: true,
        }
    }

    /// The entry for a folder that is no git repository.
    pub fn folder(name: String, path: String) -> (r: Self)
        ensures
            r@ == plain_folder(name@, path@),
    {
        Self {
            name,
            path,
            status: RepoStatus::default(),
            remote_owner: None,
            remote_url: None,
            last_commit_time: None,
            is_subrepo: false,
            parent_repo: None,
            has_git: false,
        }
    }
}

/// Whether `path` lies below `other`: it starts with `other` and a slash.
pub open spec fn lies_below(path: Seq<char>, other: Seq<char>) -> bool {
    path != other && starts_with(path, other + "/"@)
}

/// The first of the first `n` paths below which `path` lies.
pub open spec fn enclosing(paths: Seq<Seq<char>>, path: Seq<char>, n: int) -> Option<Seq<char>>
    decreases n,
{
    if n <= 0 {
        None
    } else {
        match enclosing(paths, path, n - 1) {
            Some(p) => Some(p),
            None => if lies_below(path, paths[n - 1]) {
                Some(paths[n - 1])
            } else {
                None
            },
        }
    }
}

/// The paths of the entries.
pub open spec fn paths_of(repos: Seq<LocalRepoModel>) -> Seq<Seq<char>> {
    Seq::new(repos.len(), |i: int| repos[i].path)
}

/// An entry marked as a subrepo of the first entry below which it lies,
/// or unchanged if it lies below none.
pub open spec fn marked(repo: LocalRepoModel, paths: Seq<Seq<char>>) -> LocalRepoModel {
    match enclosing(paths, repo.path, paths.len() as int) {
        Some(p) => LocalRepoModel { is_subrepo: true, parent_repo: Some(p), ..repo },
        None => repo,
    }
}

/// The entries with the subrepos among them marked.
pub open spec fn with_subrepos_marked(repos: Seq<LocalRepoModel>) -> Seq<LocalRepoModel> {
    Seq::new(repos.len(), |i: int| marked(repos[i], paths_of(repos)))
}

/// Whether `path` is the path of one of the entries.
pub fn is_known(repos: &Vec<LocalRepo>, path: &str) -> (r: bool)
    ensures
        r == paths_of(repos.deep_view()).contains(path@),
{
    let mut i: usize = 0;
    while i < repos.len()
        invariant
            i <= repos.len(),
            forall|k: int| 0 <= k < i ==> paths_of(repos.deep_view())[k] != path@,
        decreases repos.len() - i,
    {
        proof {
            assert(paths_of(repos.deep_view())[i as int] == repos@[i as int].path@);
        }
        if str_eq(repos[i].path.as_str(), path) {
            return true;
        }
        i += 1;
    }
    false
}

fn find_enclosing(paths: &Vec<String>, path: &str) -> (r: Option<String>)
    ensures
        r.deep_view() == enclosing(paths.deep_view(), path@, paths.len() as int),
{
    let mut i: usize = 0;
    while i < paths.len()
        invariant
            i <= paths.len(),
            enclosing(paths.deep_view(), path@, i as int) is None,
        decreases paths.len() - i,
    {
        proof {
            assert(paths.deep_view()[i as int] == paths@[i as int]@);
        }
        let below = concat2(paths[i].as_str(), "/");
        if !str_eq(path, paths[i].as_str()) && str_starts_with(path, below.as_str()) {
            proof {
                lemma_enclosing_found(paths.deep_view(), path@, i + 1, paths.len() as int);
            }
            return Some(paths[i].clone());
        }
        i += 1;
    }
    None
}

/// What is found among the first `m` paths is found among the first `n`,
/// for `n` no smaller.
pub proof fn lemma_enclosing_found(paths: Seq<Seq<char>>, path: Seq<char>, m: int, n: int)
    requires
        0 <= m <= n,
        enclosing(paths, path, m) is Some,
    ensures
        enclosing(paths, path, n) == enclosing(paths, path, m),
    decreases n - m,
{
    if m < n {
        lemma_enclosing_found(paths, path, m, n - 1);
    }
}

/// Marks the repositories that lie inside another repository of the list
/// as subrepos of it.
pub fn mark_subrepos(repos: &mut Vec<LocalRepo>)
    ensures
        final(repos).deep_view() == with_subrepos_marked(old(repos).deep_view()),
{
    let ghost orig = repos.deep_view();
    let mut paths: Vec<String> = Vec::new();
    let mut i: usize = 0;
    while i < repos.len()
        invariant
            i <= repos.len(),
            orig == repos.deep_view(),
            paths.len() == i,
            forall|k: int| 0 <= k < i ==> (#[trigger] paths@[k])@ == orig[k].path,
        decreases repos.len() - i,
    {
        proof {
            assert(orig[i as int] == repos@[i as int]@);
        }
        paths.push(repos[i].path.clone());
        i += 1;
    }
    proof {
        assert(paths.deep_view() =~= paths_of(orig));
    }
    let mut i: usize = 0;
    while i < repos.len()
        invariant
            i <= repos.len(),
            repos.len() == orig.len(),
            paths.deep_view() == paths_of(orig),
            forall|k: int| 0 <= k < i ==> (#[trigger] repos@[k])@ == marked(orig[k], paths_of(orig)),
            forall|k: int| i <= k < repos.len() ==> (#[trigger] repos@[k])@ == orig[k],
        decreases repos.len() - i,
    {
        match find_enclosing(&paths, repos[i].path.as_str()) {
            Some(parent) => {
                let mut repo = repos[i].clone();
                repo.is_subrepo = true;
                repo.parent_repo = Some(parent);
                repos.set(i, repo);
            },
            None => {},
        }
        i += 1;
    }
    proof {
        assert(repos.deep_view() =~= with_subrepos_marked(orig));
    }
}

/// The precedence of local entries by name, without regard to case.
pub struct ByName;

impl SpecOrder<LocalRepoModel> for ByName {
    open spec fn le(&self, a: LocalRepoModel, b: LocalRepoModel) -> bool {
        str_order(folded(a.name), folded(b.name)) != Order::Greater
    }
}

impl Precedence<LocalRepo> for ByName {
    fn precedes(&self, a: &LocalRepo, b: &LocalRepo) -> (r: bool) {
        compare_folded(a.name.as_str(), b.name.as_str()) != Order::Greater
    }
}

/// The order by name relates every two entries, and is transitive.
pub proof fn by_name_is_total()
    ensures
        is_total_preorder::<LocalRepoModel, ByName>(ByName),
{
    let by = ByName;
    assert forall|a: LocalRepoModel, b: LocalRepoModel| #[trigger] by.le(a, b) || by.le(b, a) by {
        lemma_str_order_antisymmetric(folded(a.name), folded(b.name));
    }
    assert forall|a: LocalRepoModel, b: LocalRepoModel, c: LocalRepoModel| #[trigger]
        by.le(a, b) && #[trigger] by.le(b, c) implies by.le(a, c) by {
        lemma_str_order_transitive(folded(a.name), folded(b.name), folded(c.name));
    }
}

/// Puts the entries in order by name, without regard to case. Entries of
/// one name keep their relative order.
pub fn sort_by_name(repos: &mut Vec<LocalRepo>)
    ensures
        final(repos).deep_view() == stable_sorted(old(repos).deep_view(), ByName),
        final(repos).len() == old(repos).len(),
        final(repos).deep_view().to_multiset() == old(repos).deep_view().to_multiset(),
        is_sorted(final(repos).deep_view(), ByName),
{
    proof {
        by_name_is_total();
    }
    stable_sort(repos, &ByName);
}

} // verus!
