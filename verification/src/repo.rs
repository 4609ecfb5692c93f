//! The unified entities shown to the user, rows for repositories and
//! gists, and the check of a local path against the canonical layout
//! `{root}/github.com/{owner}/{name}`.

use crate::git::{RepoStatus, RepoStatusModel};
use crate::github::{GitHubRepoInfo, GitHubRepoModel};
use crate::text::{
    chars_of, concat3, eq_ignore_ascii_case, str_eq, str_eq_ignore_ascii_case, string_of,
    strip_suffix_all, trim_end_matches,
};
use crate::url::{first_piece, first_segment};
use vstd::prelude::*;

verus! {

/// One repository of the unified list: remote data, local data, or both.
#[derive(Debug)]
pub struct RepoRow {
    /// Identity within one snapshot: the normal form of the remote URL for
    /// a repository of the hosting service, the local path otherwise.
    pub id: String,
    pub owner: Option<String>,
    pub name: String,
    pub github_url: Option<String>,
    pub ssh_url: Option<String>,
    pub is_fork: bool,
    pub fork_parent: Option<String>,
    pub is_private: bool,
    pub is_archived: bool,
    /// The user owns the repository or is a member of the owning organization.
    pub is_member: bool,
    pub local_path: Option<String>,
    pub git_status: Option<RepoStatus>,
    /// Time of the last commit, in seconds since the epoch.
    pub last_commit_time: Option<i64>,
    /// Nested inside another repository.
    pub is_subrepo: bool,
    /// Path of the enclosing repository, for a subrepo.
    pub parent_repo: Option<String>,
    /// Commits ahead of the upstream, for forks.
    pub fork_ahead: Option<u32>,
    /// Commits behind the upstream, for forks.
    pub fork_behind: Option<u32>,
    pub has_git: bool,
}

/// The mathematical content of a [`RepoRow`].
pub struct RepoRowModel {
    pub id: Seq<char>,
    pub owner: Option<Seq<char>>,
    pub name: Seq<char>,
    pub github_url: Option<Seq<char>>,
    pub ssh_url: Option<Seq<char>>,
    pub is_fork: bool,
    pub fork_parent: Option<Seq<char>>,
    pub is_private: bool,
    pub is_archived: bool,
    pub is_member: bool,
    pub local_path: Option<Seq<char>>,
    pub git_status: Option<RepoStatusModel>,
    pub last_commit_time: Option<i64>,
    pub is_subrepo: bool,
    pub parent_repo: Option<Seq<char>>,
    pub fork_ahead: Option<u32>,
    pub fork_behind: Option<u32>,
    pub has_git: bool,
}

impl RepoRowModel {
    /// What holds of every row of a snapshot: a remote URL or a local path
    /// is present, a subrepo names its enclosing repository, and a fork its upstream.
    pub open spec fn well_formed(self) -> bool {
        &&& self.github_url is Some || self.local_path is Some
        &&& self.is_subrepo ==> self.parent_repo is Some
        &&& self.is_fork ==> self.fork_parent is Some
    }
}

impl DeepView for RepoRow {
    type V = RepoRowModel;

    open spec fn deep_view(&self) -> RepoRowModel {
        RepoRowModel {
            id: self.id@,
            owner: self.owner.deep_view(),
            name: self.name@,
            github_url: self.github_url.deep_view(),
            ssh_url: self.ssh_url.deep_view(),
            is_fork: self.is_fork,
            fork_parent: self.fork_parent.deep_view(),
            is_private: self.is_private,
            is_archived: self.is_archived,
            is_member: self.is_member,
            local_path: self.local_path.deep_view(),
            git_status: self.git_status.deep_view(),
            last_commit_time: self.last_commit_time,
            is_subrepo: self.is_subrepo,
            parent_repo: self.parent_repo.deep_view(),
            fork_ahead: self.fork_ahead,
            fork_behind: self.fork_behind,
            has_git: self.has_git,
        }
    }
}

impl View for RepoRow {
    type V = RepoRowModel;

    open spec fn view(&self) -> RepoRowModel {
        self.deep_view()
    }
}

impl Clone for RepoRow {
    fn clone(&self) -> (r: Self)
        ensures
            r == *self,
    {
        Self {
            id: self.id.clone(),
            owner: self.owner.clone(),
            name: self.name.clone(),
            github_url: self.github_url.clone(),
            ssh_url: self.ssh_url.clone(),
            is_fork: self.is_fork,
            fork_parent: self.fork_parent.clone(),
            is_private: self.is_private,
            is_archived: self.is_archived,
            is_member: self.is_member,
            local_path: self.local_path.clone(),
            git_status: self.git_status.clone(),
            last_commit_time: self.last_commit_time,
            is_subrepo: self.is_subrepo,
            parent_repo: self.parent_repo.clone(),
            fork_ahead: self.fork_ahead,
            fork_behind: self.fork_behind,
            has_git: self.has_git,
        }
    }
}

/// What the file system says of the paths that matter to the layout check:
/// each listed path with its canonical form (symlinks and relative segments
/// resolved). A path that is not listed could not be resolved.
#[derive(Debug)]
pub struct PathTable {
    pub entries: Vec<(String, String)>,
}

/// The canonical form listed for `path`: that of the first entry for it.
pub open spec fn canonical_in(entries: Seq<(Seq<char>, Seq<char>)>, path: Seq<char>) -> Option<
    Seq<char>,
>
    decreases entries.len(),
{
    if entries.len() == 0 {
        None
    } else if entries[0].0 == path {
        Some(entries[0].1)
    } else {
        canonical_in(entries.drop_first(), path)
    }
}

impl DeepView for PathTable {
    type V = Seq<(Seq<char>, Seq<char>)>;

    open spec fn deep_view(&self) -> Seq<(Seq<char>, Seq<char>)> {
        Seq::new(self.entries@.len(), |i: int| (self.entries@[i].0@, self.entries@[i].1@))
    }
}

impl View for PathTable {
    type V = Seq<(Seq<char>, Seq<char>)>;

    open spec fn view(&self) -> Seq<(Seq<char>, Seq<char>)> {
        self.deep_view()
    }
}

impl Clone for PathTable {
    fn clone(&self) -> (r: Self)
        ensures
            r@ == self@,
    {
        let mut entries: Vec<(String, String)> = Vec::new();
        let mut i: usize = 0;
        while i < self.entries.len()
            invariant
                i <= self.entries.len(),
                entries.len() == i,
                forall|k: int|
                    0 <= k < i ==> (#[trigger] entries@[k]).0@ == self.entries@[k].0@
                        && entries@[k].1@ == self.entries@[k].1@,
            decreases self.entries.len() - i,
        {
            entries.push((self.entries[i].0.clone(), self.entries[i].1.clone()));
            i += 1;
        }
        let r = Self { entries };
        proof {
            assert(r@ =~= self@);
        }
        r
    }
}

impl PathTable {
    /// A table that lists no path.
    pub fn new() -> (r: Self)
        ensures
            r@ == Seq::<(Seq<char>, Seq<char>)>::empty(),
    {
        let r = Self { entries: Vec::new() };
        proof {
            assert(r@ =~= Seq::<(Seq<char>, Seq<char>)>::empty());
        }
        r
    }

    /// Lists `path` with its canonical form, behind the entries already there.
    pub fn record(&mut self, path: String, canonical: String)
        ensures
            final(self)@ == old(self)@.push((path@, canonical@)),
    {
        self.entries.push((path, canonical));
        proof {
            assert(self@ =~= old(self)@.push((path@, canonical@)));
        }
    }

    /// The canonical form of `path`, if the table lists it.
    pub fn canonical(&self, path: &str) -> (r: Option<String>)
        ensures
            r.deep_view() == canonical_in(self@, path@),
    {
        let mut i: usize = 0;
        proof {
            assert(self@.skip(0) =~= self@);
        }
        while i < self.entries.len()
            invariant
                i <= self.entries.len(),
                self@.len() == self.entries@.len(),
                canonical_in(self@, path@) == canonical_in(self@.skip(i as int), path@),
            decreases self.entries.len() - i,
        {
            proof {
                assert(self@.skip(i as int)[0] == self@[i as int]);
                assert(self@.skip(i as int).drop_first() =~= self@.skip(i + 1));
            }
            if str_eq(self.entries[i].0.as_str(), path) {
                return Some(self.entries[i].1.clone());
            }
            i += 1;
        }
        None
    }
}

/// The canonical form of `path` where the table lists one, else `path` itself.
pub open spec fn resolved(entries: Seq<(Seq<char>, Seq<char>)>, path: Seq<char>) -> Seq<char> {
    match canonical_in(entries, path) {
        Some(c) => c,
        None => path,
    }
}

/// The root under which the canonical layout is laid out: the canonical
/// form of `local_root`, or `local_root` without trailing slashes where it
/// could not be resolved.
pub open spec fn layout_root(entries: Seq<(Seq<char>, Seq<char>)>, local_root: Seq<char>) -> Seq<
    char,
> {
    match canonical_in(entries, local_root) {
        Some(c) => c,
        None => strip_suffix_all(local_root, "/"@),
    }
}

/// The path `{root}/github.com/{owner}/{name}`.
pub open spec fn layout_path(root: Seq<char>, owner: Seq<char>, name: Seq<char>) -> Seq<char> {
    root + "/github.com/"@ + owner + "/"@ + name
}

/// Whether two paths name the same place: equal up to the case of ASCII
/// letters, or equal.
pub open spec fn paths_agree(a: Seq<char>, b: Seq<char>) -> bool {
    str_eq_ignore_ascii_case(a, b) || a == b
}

/// The answer of the layout check on a row. A subrepo complies, being
/// nested in its parent. For a row without local path or without owner
/// there is no answer. Any other row complies exactly when its resolved
/// local path agrees with the resolved path `{root}/github.com/{owner}/{name}`.
pub open spec fn ghq_compliance(
    row: RepoRowModel,
    local_root: Seq<char>,
    entries: Seq<(Seq<char>, Seq<char>)>,
) -> Option<bool> {
    if row.is_subrepo {
        Some(true)
    } else if row.local_path is Some && row.owner is Some {
        let actual = resolved(entries, row.local_path->0);
        let expected = resolved(
            entries,
            layout_path(layout_root(entries, local_root), row.owner->0, row.name),
        );
        Some(paths_agree(actual, expected))
    } else {
        None
    }
}

/// The three outcomes of the layout check, one by one.
pub proof fn ghq_compliance_cases(
    row: RepoRowModel,
    local_root: Seq<char>,
    entries: Seq<(Seq<char>, Seq<char>)>,
)
    ensures
        row.is_subrepo ==> ghq_compliance(row, local_root, entries) == Some(true),
        !row.is_subrepo && (row.local_path is None || row.owner is None) ==> ghq_compliance(
            row,
            local_root,
            entries,
        ) is None,
        !row.is_subrepo && row.local_path is Some && row.owner is Some ==> ghq_compliance(
            row,
            local_root,
            entries,
        ) == Some(
            paths_agree(
                resolved(entries, row.local_path->0),
                resolved(
                    entries,
                    layout_path(layout_root(entries, local_root), row.owner->0, row.name),
                ),
            ),
        ),
{
}

/// The root of the canonical layout for `local_root`.
pub fn resolve_root(local_root: &str, paths: &PathTable) -> (r: String)
    ensures
        r@ == layout_root(paths@, local_root@),
{
    match paths.canonical(local_root) {
        Some(c) => c,
        None => {
            let chars = chars_of(local_root);
            let slash = chars_of("/");
            let stripped = trim_end_matches(&chars, &slash);
            string_of(&stripped)
        },
    }
}

impl RepoRow {
    /// Whether a local copy exists.
    pub fn has_local(&self) -> (r: bool)
        ensures
            r == (self@.local_path is Some),
    {
        self.local_path.is_some()
    }

    /// Whether the repository exists on the local disk only.
    pub fn is_local_only(&self) -> (r: bool)
        ensures
            r == (self@.local_path is Some && self@.github_url is None),
    {
        self.local_path.is_some() && self.github_url.is_none()
    }

    /// Whether the repository exists on the hosting service only.
    pub fn is_remote_only(&self) -> (r: bool)
        ensures
            r == (self@.github_url is Some && self@.local_path is None),
    {
        self.github_url.is_some() && self.local_path.is_none()
    }

    /// The owner of the upstream of a fork: what stands before the first
    /// slash of `fork_parent`.
    pub fn fork_owner(&self) -> (r: Option<String>)
        ensures
            r.deep_view() == match self@.fork_parent {
                Some(p) => Some(first_piece(p, '/')),
                None => None,
            },
    {
        match &self.fork_parent {
            Some(p) => Some(first_segment(p.as_str(), '/')),
            None => None,
        }
    }

    /// The path at which the canonical layout expects this repository:
    /// `{root}/github.com/{owner}/{name}`. `None` for a row without owner.
    pub fn expected_ghq_path(&self, local_root: &str, paths: &PathTable) -> (r: Option<String>)
        ensures
            r.deep_view() == match self@.owner {
                Some(owner) => Some(
                    layout_path(layout_root(paths@, local_root@), owner, self@.name),
                ),
                None => None,
            },
    {
        match &self.owner {
            Some(owner) => {
                let root = resolve_root(local_root, paths);
                let head = concat3(root.as_str(), "/github.com/", owner.as_str());
                Some(concat3(head.as_str(), "/", self.name.as_str()))
            },
            None => None,
        }
    }

    /// Checks the local path against the canonical layout.
    pub fn follows_ghq(&self, local_root: &str, paths: &PathTable) -> (r: Option<bool>)
        ensures
            r == ghq_compliance(self@, local_root@, paths@),
    {
        if self.is_subrepo {
            return Some(true);
        }
        match (&self.local_path, &self.owner) {
            (Some(local_path), Some(_)) => {
                let actual = match paths.canonical(local_path.as_str()) {
                    Some(c) => c,
                    None => local_path.clone(),
                };
                let expected_raw = self.expected_ghq_path(local_root, paths).unwrap();
                let expected = match paths.canonical(expected_raw.as_str()) {
                    Some(c) => c,
                    None => expected_raw,
                };
                Some(
                    eq_ignore_ascii_case(actual.as_str(), expected.as_str()) || str_eq(
                        actual.as_str(),
                        expected.as_str(),
                    ),
                )
            },
            _ => None,
        }
    }
}

/// One gist of the user, with its local clone if there is one.
#[derive(Debug)]
pub struct GistRow {
    pub id: String,
    pub description: String,
    pub is_public: bool,
    pub file_names: Vec<String>,
    pub html_url: String,
    pub local_path: Option<String>,
    pub git_status: Option<RepoStatus>,
    pub created_at: Option<String>,
    pub updated_at: Option<String>,
}

/// The mathematical content of a [`GistRow`].
pub struct GistRowModel {
    pub id: Seq<char>,
    pub description: Seq<char>,
    pub is_public: bool,
    pub file_names: Seq<Seq<char>>,
    pub html_url: Seq<char>,
    pub local_path: Option<Seq<char>>,
    pub git_status: Option<RepoStatusModel>,
    pub created_at: Option<Seq<char>>,
    pub updated_at: Option<Seq<char>>,
}

impl DeepView for GistRow {
    type V = GistRowModel;

    open spec fn deep_view(&self) -> GistRowModel {
        GistRowModel {
            id: self.id@,
            description: self.description@,
            is_public: self.is_public,
            file_names: self.file_names.deep_view(),
            html_url: self.html_url@,
            local_path: self.local_path.deep_view(),
            git_status: self.git_status.deep_view(),
            created_at: self.created_at.deep_view(),
            updated_at: self.updated_at.deep_view(),
        }
    }
}

impl View for GistRow {
    type V = GistRowModel;

    open spec fn view(&self) -> GistRowModel {
        self.deep_view()
    }
}

impl Clone for GistRow {
    fn clone(&self) -> (r: Self)
        ensures
            r@ == self@,
    {
        let file_names = self.file_names.clone();
        proof {
            assert(file_names.deep_view() =~= self.file_names.deep_view());
        }
        Self {
            id: self.id.clone(),
            description: self.description.clone(),
            is_public: self.is_public,
            file_names,
            html_url: self.html_url.clone(),
            local_path: self.local_path.clone(),
            git_status: self.git_status.clone(),
            created_at: self.created_at.clone(),
            updated_at: self.updated_at.clone(),
        }
    }
}

impl GistRow {
    /// Whether a local clone exists.
    pub fn has_local(&self) -> (r: bool)
        ensures
            r == (self@.local_path is Some),
    {
        self.local_path.is_some()
    }

    /// Whether the local clone holds uncommitted changes.
    pub fn is_dirty(&self) -> (r: bool)
        ensures
            r == match self@.git_status {
                Some(s) => s.is_dirty(),
                None => false,
            },
    {
        match &self.git_status {
            Some(s) => s.is_dirty(),
            None => false,
        }
    }
}


/// The data of the hosting service as last fetched, kept so that a refresh
/// after a local operation need not fetch it again.
#[derive(Debug)]
pub struct GitHubCache {
    pub repos: Vec<GitHubRepoInfo>,
    pub gists: Vec<GistRow>,
}

/// The mathematical content of a [`GitHubCache`].
pub struct GitHubCacheModel {
    pub repos: Seq<GitHubRepoModel>,
    pub gists: Seq<GistRowModel>,
}

impl DeepView for GitHubCache {
    type V = GitHubCacheModel;

    open spec fn deep_view(&self) -> GitHubCacheModel {
        GitHubCacheModel { repos: self.repos.deep_view(), gists: self.gists.deep_view() }
    }
}

impl View for GitHubCache {
    type V = GitHubCacheModel;

    open spec fn view(&self) -> GitHubCacheModel {
        self.deep_view()
    }
}

} // verus!
