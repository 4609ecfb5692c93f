//! Merging the repositories reported by the hosting service with those
//! found on the local disk into one list of rows.
//!
//! Entries are matched by the normal form of their remote URL. Every remote
//! entry gives one row. A local entry is merged into the first remote entry
//! of its identity if it is the last local entry of that identity; every
//! other local entry gives a row of its own. Nothing is dropped.

use crate::github::{GitHubRepoInfo, GitHubRepoModel};
use crate::local::{LocalRepo, LocalRepoModel};
use crate::repo::{RepoRow, RepoRowModel};
use crate::sort::{
    is_sorted, is_total_preorder, lemma_stable_sorted_is_sorted, lemma_stable_sorted_items,
    lemma_only_one_rearranged, lemma_stable_sorted_members, stable_sorted_keeps_ties, ties_of,
    stable_sort, stable_sorted, Precedence, SpecOrder,
};
use crate::text::{
    compare_folded, folded, lemma_str_order_antisymmetric, lemma_str_order_equal,
    lemma_str_order_transitive, str_eq,
    str_order, Order,
};
use crate::url::{normalize_github_url, normalized_url};
use vstd::prelude::*;

verus! {

/// The identity of each remote entry: the normal form of its URL.
pub open spec fn remote_keys(remote: Seq<GitHubRepoModel>) -> Seq<Seq<char>> {
    Seq::new(remote.len(), |i: int| normalized_url(remote[i].url))
}

/// The identity under which each local entry is indexed: the normal form of
/// its remote URL, if it has one.
pub open spec fn local_keys(local: Seq<LocalRepoModel>) -> Seq<Option<Seq<char>>> {
    Seq::new(
        local.len(),
        |j: int|
            match local[j].remote_url {
                Some(u) => Some(normalized_url(u)),
                None => None,
            },
    )
}

/// An entry before `i` has the key of entry `i`.
pub open spec fn seen_before(keys: Seq<Seq<char>>, i: int) -> bool {
    exists|k: int| 0 <= k < i && #[trigger] keys[k] == keys[i]
}

/// Some entry has the key `key`.
pub open spec fn occurs(keys: Seq<Seq<char>>, key: Seq<char>) -> bool {
    exists|k: int| 0 <= k < keys.len() && #[trigger] keys[k] == key
}

/// An entry after `j` has the key of entry `j`.
pub open spec fn seen_after(keys: Seq<Option<Seq<char>>>, j: int) -> bool {
    exists|k: int| j < k < keys.len() && #[trigger] keys[k] == keys[j]
}

/// The last of the first `n` entries that has the key `key`.
pub open spec fn last_with_key(keys: Seq<Option<Seq<char>>>, key: Seq<char>, n: int) -> Option<int>
    decreases n,
{
    if n <= 0 {
        None
    } else if keys[n - 1] == Some(key) {
        Some(n - 1)
    } else {
        last_with_key(keys, key, n - 1)
    }
}

/// The local entry that is merged into remote entry `i`: the last local
/// entry of the same identity, unless an earlier remote entry of that
/// identity has taken it.
pub open spec fn match_of(rkeys: Seq<Seq<char>>, lkeys: Seq<Option<Seq<char>>>, i: int) -> Option<
    int,
> {
    if seen_before(rkeys, i) {
        None
    } else {
        last_with_key(lkeys, rkeys[i], lkeys.len() as int)
    }
}

/// Local entry `j` is merged into a remote entry: it is the last local
/// entry of its identity, and a remote entry has that identity.
pub open spec fn is_matched(rkeys: Seq<Seq<char>>, lkeys: Seq<Option<Seq<char>>>, j: int) -> bool {
    lkeys[j] is Some && !seen_after(lkeys, j) && occurs(rkeys, lkeys[j]->0)
}

/// The row for a local entry without remote: identified by its path.
pub open spec fn local_only_row(l: LocalRepoModel) -> RepoRowModel {
    RepoRowModel {
        id: l.path,
        owner: None,
        name: l.name,
        github_url: None,
        ssh_url: None,
        is_fork: false,
        fork_parent: None,
        is_private: false,
        is_archived: false,
        is_member: false,
        local_path: Some(l.path),
        git_status: Some(l.status),
        last_commit_time: l.last_commit_time,
        is_subrepo: l.is_subrepo,
        parent_repo: l.parent_repo,
        fork_ahead: None,
        fork_behind: None,
        has_git: l.has_git,
    }
}

/// The row for a local entry whose remote matched no entry of the hosting
/// service: identified by its path, with the owner read from its remote URL.
pub open spec fn unmatched_row(l: LocalRepoModel) -> RepoRowModel {
    RepoRowModel {
        id: l.path,
        owner: l.remote_owner,
        name: l.name,
        github_url: l.remote_url,
        ssh_url: l.remote_url,
        is_fork: false,
        fork_parent: None,
        is_private: false,
        is_archived: false,
        is_member: false,
        local_path: Some(l.path),
        git_status: Some(l.status),
        last_commit_time: l.last_commit_time,
        is_subrepo: l.is_subrepo,
        parent_repo: l.parent_repo,
        fork_ahead: None,
        fork_behind: None,
        has_git: l.has_git,
    }
}

/// The row for a remote entry, merged with its local entry if it has one.
/// The time of the last local commit is preferred to that of the last push.
pub open spec fn merged_row(r: GitHubRepoModel, l: Option<LocalRepoModel>) -> RepoRowModel {
    RepoRowModel {
        id: normalized_url(r.url),
        owner: Some(r.owner),
        name: r.name,
        github_url: Some(r.url),
        ssh_url: Some(r.ssh_url),
        is_fork: r.is_fork,
        fork_parent: r.fork_parent,
        is_private: r.is_private,
        is_archived: r.is_archived,
        is_member: r.is_member,
        local_path: match l {
            Some(l) => Some(l.path),
            None => None,
        },
        git_status: match l {
            Some(l) => Some(l.status),
            None => None,
        },
        last_commit_time: match l {
            Some(l) => if l.last_commit_time is Some {
                l.last_commit_time
            } else {
                r.pushed_at
            },
            None => r.pushed_at,
        },
        is_subrepo: match l {
            Some(l) => l.is_subrepo,
            None => false,
        },
        parent_repo: match l {
            Some(l) => l.parent_repo,
            None => None,
        },
        fork_ahead: r.fork_ahead,
        fork_behind: r.fork_behind,
        has_git: match l {
            Some(l) => l.has_git,
            None => true,
        },
    }
}

/// The items `make(j)` for those `j` below `n` that `keep` selects, in order.
pub open spec fn picked<T>(n: int, keep: spec_fn(int) -> bool, make: spec_fn(int) -> T) -> Seq<T>
    decreases n,
{
    if n <= 0 {
        Seq::empty()
    } else if keep(n - 1) {
        picked(n - 1, keep, make).push(make(n - 1))
    } else {
        picked(n - 1, keep, make)
    }
}

/// The rows of the first `n` local entries that have no remote, in order.
pub open spec fn local_only_rows(local: Seq<LocalRepoModel>, n: int) -> Seq<RepoRowModel> {
    picked(n, |j: int| local[j].remote_url is None, |j: int| local_only_row(local[j]))
}

/// The row of remote entry `i`.
pub open spec fn remote_row(
    remote: Seq<GitHubRepoModel>,
    local: Seq<LocalRepoModel>,
    i: int,
) -> RepoRowModel {
    merged_row(
        remote[i],
        match match_of(remote_keys(remote), local_keys(local), i) {
            Some(j) => Some(local[j]),
            None => None,
        },
    )
}

/// The rows of the remote entries, in order.
pub open spec fn remote_rows(remote: Seq<GitHubRepoModel>, local: Seq<LocalRepoModel>) -> Seq<
    RepoRowModel,
> {
    Seq::new(remote.len(), |i: int| remote_row(remote, local, i))
}

/// Local entry `j` has a remote but is not merged into a remote entry.
pub open spec fn is_left_over(
    remote: Seq<GitHubRepoModel>,
    local: Seq<LocalRepoModel>,
    j: int,
) -> bool {
    local[j].remote_url is Some && !is_matched(remote_keys(remote), local_keys(local), j)
}

/// The rows of those of the first `n` local entries that have a remote but
/// are not merged into a remote entry, in order.
pub open spec fn leftover_rows(
    remote: Seq<GitHubRepoModel>,
    local: Seq<LocalRepoModel>,
    n: int,
) -> Seq<RepoRowModel> {
    picked(n, |j: int| is_left_over(remote, local, j), |j: int| unmatched_row(local[j]))
}

/// All rows before they are put in order: the local entries without
/// remote, then the remote entries, then the local entries left over.
pub open spec fn merged_rows(remote: Seq<GitHubRepoModel>, local: Seq<LocalRepoModel>) -> Seq<
    RepoRowModel,
> {
    local_only_rows(local, local.len() as int) + remote_rows(remote, local) + leftover_rows(
        remote,
        local,
        local.len() as int,
    )
}

/// The row for a remote entry under the identity `id`, merged with its
/// local entry if it has one.
pub open spec fn merged_row_as(
    id: Seq<char>,
    r: GitHubRepoModel,
    l: Option<LocalRepoModel>,
) -> RepoRowModel {
    RepoRowModel { id, ..merged_row(r, l) }
}

/// The rows of those of the first `n` local entries that have no identity,
/// in order.
pub open spec fn keyless_rows(
    local: Seq<LocalRepoModel>,
    lkeys: Seq<Option<Seq<char>>>,
    n: int,
) -> Seq<RepoRowModel> {
    picked(n, |j: int| lkeys[j] is None, |j: int| local_only_row(local[j]))
}

/// The row of remote entry `i`, where `rkeys` and `lkeys` are the
/// identities of the remote and of the local entries.
pub open spec fn identified_row(
    remote: Seq<GitHubRepoModel>,
    local: Seq<LocalRepoModel>,
    rkeys: Seq<Seq<char>>,
    lkeys: Seq<Option<Seq<char>>>,
    i: int,
) -> RepoRowModel {
    merged_row_as(
        rkeys[i],
        remote[i],
        match match_of(rkeys, lkeys, i) {
            Some(j) => Some(local[j]),
            None => None,
        },
    )
}

/// The rows of the remote entries under the given identities, in order.
pub open spec fn identified_rows(
    remote: Seq<GitHubRepoModel>,
    local: Seq<LocalRepoModel>,
    rkeys: Seq<Seq<char>>,
    lkeys: Seq<Option<Seq<char>>>,
) -> Seq<RepoRowModel> {
    Seq::new(remote.len(), |i: int| identified_row(remote, local, rkeys, lkeys, i))
}

/// The rows of those of the first `n` local entries that have an identity
/// but are not merged into a remote entry, in order.
pub open spec fn unclaimed_rows(
    local: Seq<LocalRepoModel>,
    rkeys: Seq<Seq<char>>,
    lkeys: Seq<Option<Seq<char>>>,
    n: int,
) -> Seq<RepoRowModel> {
    picked(
        n,
        |j: int| lkeys[j] is Some && !is_matched(rkeys, lkeys, j),
        |j: int| unmatched_row(local[j]),
    )
}

/// All rows under the given identities, before they are put in order: the
/// local entries without identity, then the remote entries, then the local
/// entries that no remote entry has taken.
pub open spec fn rows_by_identity(
    remote: Seq<GitHubRepoModel>,
    local: Seq<LocalRepoModel>,
    rkeys: Seq<Seq<char>>,
    lkeys: Seq<Option<Seq<char>>>,
) -> Seq<RepoRowModel> {
    keyless_rows(local, lkeys, local.len() as int) + identified_rows(remote, local, rkeys, lkeys)
        + unclaimed_rows(local, rkeys, lkeys, local.len() as int)
}

/// Comparison of two names without regard to case.
pub open spec fn name_order(a: Seq<char>, b: Seq<char>) -> Order {
    str_order(folded(a), folded(b))
}

/// The order of the merged list: by owner, then by name, both without
/// regard to case; rows without owner come last.
pub open spec fn owner_name_order(a: RepoRowModel, b: RepoRowModel) -> Order {
    match (a.owner, b.owner) {
        (Some(oa), Some(ob)) => if name_order(oa, ob) == Order::Equal {
            name_order(a.name, b.name)
        } else {
            name_order(oa, ob)
        },
        (Some(_), None) => Order::Less,
        (None, Some(_)) => Order::Greater,
        (None, None) => name_order(a.name, b.name),
    }
}

/// The precedence by owner and name.
pub struct OwnerThenName;

impl SpecOrder<RepoRowModel> for OwnerThenName {
    open spec fn le(&self, a: RepoRowModel, b: RepoRowModel) -> bool {
        owner_name_order(a, b) != Order::Greater
    }
}

impl Precedence<RepoRow> for OwnerThenName {
    fn precedes(&self, a: &RepoRow, b: &RepoRow) -> (r: bool) {
        let o = match (&a.owner, &b.owner) {
            (Some(oa), Some(ob)) => {
                let by_owner = compare_folded(oa.as_str(), ob.as_str());
                if by_owner == Order::Equal {
                    compare_folded(a.name.as_str(), b.name.as_str())
                } else {
                    by_owner
                }
            },
            (Some(_), None) => Order::Less,
            (None, Some(_)) => Order::Greater,
            (None, None) => compare_folded(a.name.as_str(), b.name.as_str()),
        };
        o != Order::Greater
    }
}

/// The unified list: all rows, ordered by owner and name, rows that tie in
/// the order in which they were made.
pub open spec fn merged(remote: Seq<GitHubRepoModel>, local: Seq<LocalRepoModel>) -> Seq<
    RepoRowModel,
> {
    stable_sorted(merged_rows(remote, local), OwnerThenName)
}

/// The unified list under the given identities: all rows, ordered by owner
/// and name, rows that tie in the order in which they were made.
pub open spec fn merged_by_identity(
    remote: Seq<GitHubRepoModel>,
    local: Seq<LocalRepoModel>,
    rkeys: Seq<Seq<char>>,
    lkeys: Seq<Option<Seq<char>>>,
) -> Seq<RepoRowModel> {
    stable_sorted(rows_by_identity(remote, local, rkeys, lkeys), OwnerThenName)
}

fn make_local_only_row(l: &LocalRepo) -> (r: RepoRow)
    ensures
        r@ == local_only_row(l@),
{
    RepoRow {
        id: l.path.clone(),
        owner: None,
        name: l.name.clone(),
        github_url: None,
        ssh_url: None,
        is_fork: false,
        fork_parent: None,
        is_private: false,
        is_archived: false,
        is_member: false,
        local_path: Some(l.path.clone()),
        git_status: Some(l.status.clone()),
        last_commit_time: l.last_commit_time,
        is_subrepo: l.is_subrepo,
        parent_repo: l.parent_repo.clone(),
        fork_ahead: None,
        fork_behind: None,
        has_git: l.has_git,
    }
}

fn make_unmatched_row(l: &LocalRepo) -> (r: RepoRow)
    ensures
        r@ == unmatched_row(l@),
{
    RepoRow {
        id: l.path.clone(),
        owner: l.remote_owner.clone(),
        name: l.name.clone(),
        github_url: l.remote_url.clone(),
        ssh_url: l.remote_url.clone(),
        is_fork: false,
        fork_parent: None,
        is_private: false,
        is_archived: false,
        is_member: false,
        local_path: Some(l.path.clone()),
        git_status: Some(l.status.clone()),
        last_commit_time: l.last_commit_time,
        is_subrepo: l.is_subrepo,
        parent_repo: l.parent_repo.clone(),
        fork_ahead: None,
        fork_behind: None,
        has_git: l.has_git,
    }
}

fn make_merged_row(r: &GitHubRepoInfo, key: String, l: Option<&LocalRepo>) -> (row: RepoRow)
    ensures
        row@ == merged_row_as(
            key@,
            r@,
            match l {
                Some(l) => Some(l@),
                None => None,
            },
        ),
{
    let last_commit_time = match l {
        Some(l) => if l.last_commit_time.is_some() {
            l.last_commit_time
        } else {
            r.pushed_at
        },
        None => r.pushed_at,
    };
    RepoRow {
        id: key,
        owner: Some(r.owner.clone()),
        name: r.name.clone(),
        github_url: Some(r.url.clone()),
        ssh_url: Some(r.ssh_url.clone()),
        is_fork: r.is_fork,
        fork_parent: r.fork_parent.clone(),
        is_private: r.is_private,
        is_archived: r.is_archived,
        is_member: r.is_member,
        local_path: match l {
            Some(l) => Some(l.path.clone()),
            None => None,
        },
        git_status: match l {
            Some(l) => Some(l.status.clone()),
            None => None,
        },
        last_commit_time,
        is_subrepo: match l {
            Some(l) => l.is_subrepo,
            None => false,
        },
        parent_repo: match l {
            Some(l) => l.parent_repo.clone(),
            None => None,
        },
        fork_ahead: r.fork_ahead,
        fork_behind: r.fork_behind,
        has_git: match l {
            Some(l) => l.has_git,
            None => true,
        },
    }
}

fn is_seen_before(keys: &Vec<String>, i: usize) -> (r: bool)
    requires
        i < keys.len(),
    ensures
        r == seen_before(keys.deep_view(), i as int),
{
    let mut k: usize = 0;
    while k < i
        invariant
            k <= i,
            i < keys.len(),
            forall|t: int| 0 <= t < k ==> #[trigger] keys.deep_view()[t] != keys.deep_view()[i as int],
        decreases i - k,
    {
        if str_eq(keys[k].as_str(), keys[i].as_str()) {
            proof {
                assert(keys.deep_view()[k as int] == keys.deep_view()[i as int]);
            }
            return true;
        }
        k += 1;
    }
    false
}

fn is_among(keys: &Vec<String>, key: &str) -> (r: bool)
    ensures
        r == occurs(keys.deep_view(), key@),
{
    let mut k: usize = 0;
    while k < keys.len()
        invariant
            k <= keys.len(),
            forall|t: int| 0 <= t < k ==> #[trigger] keys.deep_view()[t] != key@,
        decreases keys.len() - k,
    {
        if str_eq(keys[k].as_str(), key) {
            proof {
                assert(keys.deep_view()[k as int] == key@);
            }
            return true;
        }
        k += 1;
    }
    false
}

fn is_seen_after(keys: &Vec<Option<String>>, j: usize, key: &str) -> (r: bool)
    requires
        j < keys.len(),
        keys.deep_view()[j as int] == Some(key@),
    ensures
        r == seen_after(keys.deep_view(), j as int),
{
    let mut k: usize = j + 1;
    while k < keys.len()
        invariant
            j < k <= keys.len(),
            keys.deep_view()[j as int] == Some(key@),
            forall|t: int| j < t < k ==> #[trigger] keys.deep_view()[t] != keys.deep_view()[j as int],
        decreases keys.len() - k,
    {
        let same = match &keys[k] {
            Some(other) => str_eq(other.as_str(), key),
            None => false,
        };
        if same {
            proof {
                assert(keys.deep_view()[k as int] == keys.deep_view()[j as int]);
            }
            return true;
        }
        k += 1;
    }
    false
}

fn find_last_with_key(keys: &Vec<Option<String>>, key: &str) -> (r: Option<usize>)
    ensures
        match r {
            Some(j) => last_with_key(keys.deep_view(), key@, keys.len() as int) == Some(j as int)
                && j < keys.len(),
            None => last_with_key(keys.deep_view(), key@, keys.len() as int) is None,
        },
{
    let mut n: usize = keys.len();
    while n > 0
        invariant
            n <= keys.len(),
            last_with_key(keys.deep_view(), key@, keys.len() as int) == last_with_key(
                keys.deep_view(),
                key@,
                n as int,
            ),
        decreases n,
    {
        let same = match &keys[n - 1] {
            Some(other) => str_eq(other.as_str(), key),
            None => false,
        };
        proof {
            assert(keys.deep_view()[n - 1] == keys@[n - 1].deep_view());
        }
        if same {
            return Some(n - 1);
        }
        n -= 1;
    }
    None
}

/// Merges remote and local entries whose identities are given: `remote_ids`
/// holds the identity of each remote entry, `local_ids` that of each local
/// entry that has one. Every remote entry gives one row. A local entry is
/// merged into the first remote entry of its identity if it is the last
/// local entry of that identity; every other local entry gives a row of
/// its own. The rows are ordered by owner and name.
pub fn merge_by_identity(
    github_repos: &Vec<GitHubRepoInfo>,
    remote_ids: &Vec<String>,
    local_repos: &Vec<LocalRepo>,
    local_ids: &Vec<Option<String>>,
) -> (rows: Vec<RepoRow>)
    requires
        remote_ids.len() == github_repos.len(),
        local_ids.len() == local_repos.len(),
    ensures
        rows.deep_view() == merged_by_identity(
            github_repos.deep_view(),
            local_repos.deep_view(),
            remote_ids.deep_view(),
            local_ids.deep_view(),
        ),
        rows.deep_view().to_multiset() == rows_by_identity(
            github_repos.deep_view(),
            local_repos.deep_view(),
            remote_ids.deep_view(),
            local_ids.deep_view(),
        ).to_multiset(),
        is_sorted(rows.deep_view(), OwnerThenName),
{
    let ghost remote = github_repos.deep_view();
    let ghost local = local_repos.deep_view();
    let ghost rkeys = remote_ids.deep_view();
    let ghost lkeys = local_ids.deep_view();
    let mut rows: Vec<RepoRow> = Vec::new();
    let mut j: usize = 0;
    while j < local_repos.len()
        invariant
            j <= local_repos.len(),
            local == local_repos.deep_view(),
            lkeys == local_ids.deep_view(),
            local_ids.len() == local_repos.len(),
            rows.deep_view() == keyless_rows(local, lkeys, j as int),
        decreases local_repos.len() - j,
    {
        let ghost before = rows.deep_view();
        proof {
            assert(local[j as int] == local_repos@[j as int]@);
            assert(lkeys[j as int] == local_ids@[j as int].deep_view());
        }
        if local_ids[j].is_none() {
            rows.push(make_local_only_row(&local_repos[j]));
            proof {
                assert(rows.deep_view() =~= before.push(local_only_row(local[j as int])));
            }
        }
        j += 1;
    }
    let ghost head = rows.deep_view();
    let mut i: usize = 0;
    while i < github_repos.len()
        invariant
            i <= github_repos.len(),
            remote == github_repos.deep_view(),
            local == local_repos.deep_view(),
            rkeys == remote_ids.deep_view(),
            lkeys == local_ids.deep_view(),
            remote_ids.len() == github_repos.len(),
            local_ids.len() == local_repos.len(),
            rows.deep_view() == head + identified_rows(remote, local, rkeys, lkeys).take(i as int),
        decreases github_repos.len() - i,
    {
        let ghost before = rows.deep_view();
        let found = if is_seen_before(remote_ids, i) {
            None
        } else {
            find_last_with_key(local_ids, remote_ids[i].as_str())
        };
        proof {
            assert(rkeys[i as int] == remote_ids@[i as int]@);
            assert(remote[i as int] == github_repos@[i as int]@);
        }
        let row = match found {
            Some(at) => {
                proof {
                    assert(local[at as int] == local_repos@[at as int]@);
                }
                make_merged_row(&github_repos[i], remote_ids[i].clone(), Some(&local_repos[at]))
            },
            None => make_merged_row(&github_repos[i], remote_ids[i].clone(), None),
        };
        rows.push(row);
        proof {
            let all = identified_rows(remote, local, rkeys, lkeys);
            assert(row@ == identified_row(remote, local, rkeys, lkeys, i as int));
            assert(rows.deep_view() =~= before.push(row@));
            assert(all.take(i + 1) =~= all.take(i as int).push(
                identified_row(remote, local, rkeys, lkeys, i as int),
            ));
            assert(before.push(row@) =~= head + all.take(i + 1));
        }
        i += 1;
    }
    proof {
        let all = identified_rows(remote, local, rkeys, lkeys);
        assert(all.take(github_repos.len() as int) =~= all);
    }
    let ghost middle = rows.deep_view();
    let mut j: usize = 0;
    proof {
        assert(middle + Seq::<RepoRowModel>::empty() =~= middle);
    }
    while j < local_repos.len()
        invariant
            j <= local_repos.len(),
            local == local_repos.deep_view(),
            rkeys == remote_ids.deep_view(),
            lkeys == local_ids.deep_view(),
            local_ids.len() == local_repos.len(),
            rows.deep_view() == middle + unclaimed_rows(local, rkeys, lkeys, j as int),
        decreases local_repos.len() - j,
    {
        let ghost before = rows.deep_view();
        proof {
            assert(local[j as int] == local_repos@[j as int]@);
            assert(lkeys[j as int] == local_ids@[j as int].deep_view());
        }
        let unclaimed = match &local_ids[j] {
            Some(key) => !(!is_seen_after(local_ids, j, key.as_str()) && is_among(
                remote_ids,
                key.as_str(),
            )),
            None => false,
        };
        if unclaimed {
            rows.push(make_unmatched_row(&local_repos[j]));
            proof {
                assert(rows.deep_view() =~= before.push(unmatched_row(local[j as int])));
                assert(before.push(unmatched_row(local[j as int])) =~= middle + unclaimed_rows(
                    local,
                    rkeys,
                    lkeys,
                    j + 1,
                ));
            }
        }
        j += 1;
    }
    proof {
        assert(rows.deep_view() =~= rows_by_identity(remote, local, rkeys, lkeys));
        lemma_owner_then_name_is_total_preorder();
    }
    stable_sort(&mut rows, &OwnerThenName);
    rows
}

/// The identity of each remote entry: the normal form of its URL.
pub fn remote_identities(github_repos: &Vec<GitHubRepoInfo>) -> (ids: Vec<String>)
    ensures
        ids.deep_view() == remote_keys(github_repos.deep_view()),
        ids.len() == github_repos.len(),
{
    let ghost remote = github_repos.deep_view();
    let mut ids: Vec<String> = Vec::new();
    let mut i: usize = 0;
    while i < github_repos.len()
        invariant
            i <= github_repos.len(),
            remote == github_repos.deep_view(),
            ids.len() == i,
            forall|t: int| 0 <= t < i ==> #[trigger] ids.deep_view()[t] == remote_keys(remote)[t],
        decreases github_repos.len() - i,
    {
        let ghost before = ids.deep_view();
        ids.push(normalize_github_url(github_repos[i].url.as_str()));
        proof {
            assert(remote[i as int] == github_repos@[i as int]@);
            assert forall|t: int| 0 <= t < i + 1 implies #[trigger] ids.deep_view()[t]
                == remote_keys(remote)[t] by {
                if t < i {
                    assert(ids.deep_view()[t] == before[t]);
                }
            }
        }
        i += 1;
    }
    proof {
        assert(ids.deep_view() =~= remote_keys(remote));
    }
    ids
}

/// The identity of each local entry that has a remote: the normal form of
/// its remote URL.
pub fn local_identities(local_repos: &Vec<LocalRepo>) -> (ids: Vec<Option<String>>)
    ensures
        ids.deep_view() == local_keys(local_repos.deep_view()),
        ids.len() == local_repos.len(),
{
    let ghost local = local_repos.deep_view();
    let mut ids: Vec<Option<String>> = Vec::new();
    let mut j: usize = 0;
    while j < local_repos.len()
        invariant
            j <= local_repos.len(),
            local == local_repos.deep_view(),
            ids.len() == j,
            forall|t: int| 0 <= t < j ==> #[trigger] ids.deep_view()[t] == local_keys(local)[t],
        decreases local_repos.len() - j,
    {
        let ghost before = ids.deep_view();
        match &local_repos[j].remote_url {
            Some(url) => {
                ids.push(Some(normalize_github_url(url.as_str())));
            },
            None => {
                ids.push(None);
            },
        }
        proof {
            assert(local[j as int] == local_repos@[j as int]@);
            assert forall|t: int| 0 <= t < j + 1 implies #[trigger] ids.deep_view()[t]
                == local_keys(local)[t] by {
                if t < j {
                    assert(ids.deep_view()[t] == before[t]);
                }
            }
        }
        j += 1;
    }
    proof {
        assert(ids.deep_view() =~= local_keys(local));
    }
    ids
}

/// Merges the repositories of the hosting service with those found on the
/// local disk. The result holds one row for every remote entry and one for
/// every local entry that is not merged into a remote one, ordered by owner
/// and name.
pub fn merge_repos(github_repos: Vec<GitHubRepoInfo>, local_repos: Vec<LocalRepo>) -> (rows: Vec<
    RepoRow,
>)
    ensures
        rows.deep_view() == merged(github_repos.deep_view(), local_repos.deep_view()),
        rows.deep_view().to_multiset() == merged_rows(
            github_repos.deep_view(),
            local_repos.deep_view(),
        ).to_multiset(),
        is_sorted(rows.deep_view(), OwnerThenName),
{
    let remote_ids = remote_identities(&github_repos);
    let local_ids = local_identities(&local_repos);
    proof {
        identities_of_urls_give_merge(github_repos.deep_view(), local_repos.deep_view());
    }
    merge_by_identity(&github_repos, &remote_ids, &local_repos, &local_ids)
}

/// Two selections agree where what they keep and what they make agree.
pub proof fn lemma_picked_same<T>(
    n: int,
    keep: spec_fn(int) -> bool,
    make: spec_fn(int) -> T,
    keep_too: spec_fn(int) -> bool,
    make_too: spec_fn(int) -> T,
)
    requires
        forall|j: int| 0 <= j < n ==> #[trigger] keep(j) == keep_too(j),
        forall|j: int| 0 <= j < n && keep(j) ==> #[trigger] make(j) == make_too(j),
    ensures
        picked(n, keep, make) == picked(n, keep_too, make_too),
    decreases n,
{
    if n > 0 {
        lemma_picked_same(n - 1, keep, make, keep_too, make_too);
    }
}

/// Merging under the normal forms of the URLs is the merge of the two
/// lists: with the identity of every entry taken from its URL, the rows
/// under those identities are the rows of the merge.
pub proof fn identities_of_urls_give_merge(
    remote: Seq<GitHubRepoModel>,
    local: Seq<LocalRepoModel>,
)
    ensures
        rows_by_identity(remote, local, remote_keys(remote), local_keys(local)) == merged_rows(
            remote,
            local,
        ),
        merged_by_identity(remote, local, remote_keys(remote), local_keys(local)) == merged(
            remote,
            local,
        ),
{
    let rkeys = remote_keys(remote);
    let lkeys = local_keys(local);
    let n = local.len() as int;
    lemma_picked_same(
        n,
        |j: int| lkeys[j] is None,
        |j: int| local_only_row(local[j]),
        |j: int| local[j].remote_url is None,
        |j: int| local_only_row(local[j]),
    );
    lemma_picked_same(
        n,
        |j: int| lkeys[j] is Some && !is_matched(rkeys, lkeys, j),
        |j: int| unmatched_row(local[j]),
        |j: int| is_left_over(remote, local, j),
        |j: int| unmatched_row(local[j]),
    );
    assert(identified_rows(remote, local, rkeys, lkeys) =~= remote_rows(remote, local));
}

/// A longer selection extends a shorter one.
pub proof fn lemma_picked_grows<T>(
    m: int,
    n: int,
    keep: spec_fn(int) -> bool,
    make: spec_fn(int) -> T,
)
    requires
        0 <= m <= n,
    ensures
        picked(m, keep, make).len() <= picked(n, keep, make).len(),
        forall|k: int|
            0 <= k < picked(m, keep, make).len() ==> #[trigger] picked(n, keep, make)[k] == picked(
                m,
                keep,
                make,
            )[k],
    decreases n - m,
{
    if m < n {
        lemma_picked_grows(m, n - 1, keep, make);
    }
}

/// A selected index has its item in the selection, at the position given by
/// the number of selected indices before it.
pub proof fn lemma_picked_holds<T>(
    j: int,
    n: int,
    keep: spec_fn(int) -> bool,
    make: spec_fn(int) -> T,
)
    requires
        0 <= j < n,
        keep(j),
    ensures
        picked(j, keep, make).len() < picked(n, keep, make).len(),
        picked(n, keep, make)[picked(j, keep, make).len() as int] == make(j),
{
    lemma_picked_grows(j + 1, n, keep, make);
    assert(picked(j + 1, keep, make) == picked(j, keep, make).push(make(j)));
    assert(picked(j + 1, keep, make)[picked(j, keep, make).len() as int] == make(j));
}

/// Every position of a selection comes from a selected index.
pub proof fn lemma_picked_source<T>(
    k: int,
    n: int,
    keep: spec_fn(int) -> bool,
    make: spec_fn(int) -> T,
) -> (j: int)
    requires
        0 <= k < picked(n, keep, make).len(),
    ensures
        0 <= j < n,
        keep(j),
        picked(j, keep, make).len() == k,
    decreases n,
{
    if n <= 0 {
        0
    } else if keep(n - 1) && picked(n - 1, keep, make).len() == k {
        n - 1
    } else {
        lemma_picked_source(k, n - 1, keep, make)
    }
}

/// The first entry that has the key `key`.
pub open spec fn first_occurrence(keys: Seq<Seq<char>>, key: Seq<char>) -> int {
    choose|i: int| 0 <= i < keys.len() && keys[i] == key && !seen_before(keys, i)
}

/// A key that occurs has a first occurrence.
pub proof fn lemma_first_occurrence(keys: Seq<Seq<char>>, key: Seq<char>, w: int)
    requires
        0 <= w < keys.len(),
        keys[w] == key,
    ensures
        0 <= first_occurrence(keys, key) < keys.len(),
        keys[first_occurrence(keys, key)] == key,
        !seen_before(keys, first_occurrence(keys, key)),
    decreases w,
{
    if seen_before(keys, w) {
        let k = choose|k: int| 0 <= k < w && #[trigger] keys[k] == keys[w];
        lemma_first_occurrence(keys, key, k);
    }
}

/// What `last_with_key` finds: an entry with the key behind which no other
/// has it, or nothing where no entry has it.
pub proof fn lemma_last_with_key(keys: Seq<Option<Seq<char>>>, key: Seq<char>, n: int)
    requires
        0 <= n <= keys.len(),
    ensures
        match last_with_key(keys, key, n) {
            Some(j) => 0 <= j < n && keys[j] == Some(key) && forall|k: int|
                j < k < n ==> #[trigger] keys[k] != Some(key),
            None => forall|k: int| 0 <= k < n ==> #[trigger] keys[k] != Some(key),
        },
    decreases n,
{
    if n > 0 && keys[n - 1] != Some(key) {
        lemma_last_with_key(keys, key, n - 1);
    }
}

/// A matched local entry is the one that the first remote entry of its
/// identity takes.
pub proof fn lemma_matched_is_taken(
    rkeys: Seq<Seq<char>>,
    lkeys: Seq<Option<Seq<char>>>,
    j: int,
)
    requires
        0 <= j < lkeys.len(),
        is_matched(rkeys, lkeys, j),
    ensures
        0 <= first_occurrence(rkeys, lkeys[j]->0) < rkeys.len(),
        rkeys[first_occurrence(rkeys, lkeys[j]->0)] == lkeys[j]->0,
        match_of(rkeys, lkeys, first_occurrence(rkeys, lkeys[j]->0)) == Some(j),
{
    let key = lkeys[j]->0;
    let w = choose|k: int| 0 <= k < rkeys.len() && #[trigger] rkeys[k] == key;
    lemma_first_occurrence(rkeys, key, w);
    lemma_last_with_key(lkeys, key, lkeys.len() as int);
    let found = last_with_key(lkeys, key, lkeys.len() as int);
    assert(lkeys[j] == Some(key));
    assert(found is Some);
    let f = found->0;
    if f < j {
        assert(lkeys[j] != Some(key));
    }
    if j < f {
        assert(lkeys[f] == lkeys[j]);
        assert(seen_after(lkeys, j));
    }
}

/// The position, among all rows before ordering, of the row of remote entry `i`.
pub open spec fn remote_slot(local: Seq<LocalRepoModel>, i: int) -> int {
    local_only_rows(local, local.len() as int).len() + i
}

/// The position, among all rows before ordering, of the row that holds
/// local entry `j`.
pub open spec fn local_slot(
    remote: Seq<GitHubRepoModel>,
    local: Seq<LocalRepoModel>,
    j: int,
) -> int {
    if local[j].remote_url is None {
        local_only_rows(local, j).len() as int
    } else if is_matched(remote_keys(remote), local_keys(local), j) {
        remote_slot(local, first_occurrence(remote_keys(remote), local_keys(local)[j]->0))
    } else {
        (local_only_rows(local, local.len() as int).len() + remote.len() + leftover_rows(
            remote,
            local,
            j,
        ).len()) as int
    }
}

/// The row carries what the hosting service reported of `r`.
pub open spec fn holds_remote(row: RepoRowModel, r: GitHubRepoModel) -> bool {
    &&& row.id == normalized_url(r.url)
    &&& row.owner == Some(r.owner)
    &&& row.name == r.name
    &&& row.github_url == Some(r.url)
    &&& row.ssh_url == Some(r.ssh_url)
    &&& row.is_fork == r.is_fork
    &&& row.fork_parent == r.fork_parent
    &&& row.is_private == r.is_private
    &&& row.is_archived == r.is_archived
    &&& row.is_member == r.is_member
    &&& row.fork_ahead == r.fork_ahead
    &&& row.fork_behind == r.fork_behind
}

/// The row carries what was found on disk of `l`.
pub open spec fn holds_local(row: RepoRowModel, l: LocalRepoModel) -> bool {
    &&& row.local_path == Some(l.path)
    &&& row.git_status == Some(l.status)
    &&& row.is_subrepo == l.is_subrepo
    &&& row.parent_repo == l.parent_repo
    &&& row.has_git == l.has_git
}

/// Every remote entry has its row, at a position of its own.
pub proof fn merge_covers_remote(
    remote: Seq<GitHubRepoModel>,
    local: Seq<LocalRepoModel>,
    i: int,
)
    requires
        0 <= i < remote.len(),
    ensures
        0 <= remote_slot(local, i) < merged_rows(remote, local).len(),
        holds_remote(merged_rows(remote, local)[remote_slot(local, i)], remote[i]),
{
    let head = local_only_rows(local, local.len() as int);
    assert(merged_rows(remote, local)[head.len() + i] == remote_rows(remote, local)[i]);
}

/// Every local entry is held by a row.
pub proof fn merge_covers_local(
    remote: Seq<GitHubRepoModel>,
    local: Seq<LocalRepoModel>,
    j: int,
)
    requires
        0 <= j < local.len(),
    ensures
        0 <= local_slot(remote, local, j) < merged_rows(remote, local).len(),
        holds_local(merged_rows(remote, local)[local_slot(remote, local, j)], local[j]),
{
    let n = local.len() as int;
    let head = local_only_rows(local, n);
    let middle = remote_rows(remote, local);
    let tail = leftover_rows(remote, local, n);
    let rkeys = remote_keys(remote);
    let lkeys = local_keys(local);
    if local[j].remote_url is None {
        lemma_picked_holds(
            j,
            n,
            |j: int| local[j].remote_url is None,
            |j: int| local_only_row(local[j]),
        );
        assert(merged_rows(remote, local)[local_slot(remote, local, j)] == head[local_slot(
            remote,
            local,
            j,
        )]);
    } else if is_matched(rkeys, lkeys, j) {
        lemma_matched_is_taken(rkeys, lkeys, j);
        let i = first_occurrence(rkeys, lkeys[j]->0);
        assert(merged_rows(remote, local)[head.len() + i] == middle[i]);
    } else {
        lemma_picked_holds(
            j,
            n,
            |j: int| is_left_over(remote, local, j),
            |j: int| unmatched_row(local[j]),
        );
        let k = leftover_rows(remote, local, j).len() as int;
        assert(merged_rows(remote, local)[head.len() + middle.len() + k] == tail[k]);
    }
}

/// Two local entries are never held by the same row.
pub proof fn merge_separates_locals(
    remote: Seq<GitHubRepoModel>,
    local: Seq<LocalRepoModel>,
    j1: int,
    j2: int,
)
    requires
        0 <= j1 < j2 < local.len(),
    ensures
        local_slot(remote, local, j1) != local_slot(remote, local, j2),
{
    let n = local.len() as int;
    let rkeys = remote_keys(remote);
    let lkeys = local_keys(local);
    let keep_a = |j: int| local[j].remote_url is None;
    let make_a = |j: int| local_only_row(local[j]);
    let keep_c = |j: int| is_left_over(remote, local, j);
    let make_c = |j: int| unmatched_row(local[j]);
    let head = local_only_rows(local, n).len();
    lemma_picked_grows(j1, n, keep_a, make_a);
    lemma_picked_grows(j2, n, keep_a, make_a);
    lemma_picked_grows(j1, j2, keep_c, make_c);
    assert(rkeys.len() == remote.len());
    let s1 = local_slot(remote, local, j1);
    let s2 = local_slot(remote, local, j2);
    if local[j1].remote_url is None {
        lemma_picked_holds(j1, n, keep_a, make_a);
        assert(s1 < head);
        if local[j2].remote_url is None {
            lemma_picked_holds(j1, j2, keep_a, make_a);
            assert(s1 < s2);
        } else {
            if is_matched(rkeys, lkeys, j2) {
                lemma_matched_is_taken(rkeys, lkeys, j2);
            }
            assert(s2 >= head);
        }
    } else if is_matched(rkeys, lkeys, j1) {
        lemma_matched_is_taken(rkeys, lkeys, j1);
        assert(head <= s1 < head + remote.len());
        if local[j2].remote_url is None {
            lemma_picked_holds(j2, n, keep_a, make_a);
            assert(s2 < head);
        } else if is_matched(rkeys, lkeys, j2) {
            lemma_matched_is_taken(rkeys, lkeys, j2);
            if lkeys[j1] == lkeys[j2] {
                assert(seen_after(lkeys, j1));
            }
            assert(s1 != s2);
        } else {
            assert(s2 >= head + remote.len());
        }
    } else {
        assert(s1 >= head + remote.len());
        if local[j2].remote_url is None {
            lemma_picked_holds(j2, n, keep_a, make_a);
            assert(s2 < head);
        } else if is_matched(rkeys, lkeys, j2) {
            lemma_matched_is_taken(rkeys, lkeys, j2);
            assert(s2 < head + remote.len());
        } else {
            lemma_picked_holds(j1, j2, keep_c, make_c);
            assert(s1 < s2);
        }
    }
}

/// Every row holds an input entry: none is made up.
pub proof fn merge_invents_nothing(
    remote: Seq<GitHubRepoModel>,
    local: Seq<LocalRepoModel>,
    k: int,
)
    requires
        0 <= k < merged_rows(remote, local).len(),
    ensures
        (exists|i: int| 0 <= i < remote.len() && remote_slot(local, i) == k) || (exists|j: int|
            0 <= j < local.len() && local_slot(remote, local, j) == k),
{
    let n = local.len() as int;
    let head = local_only_rows(local, n);
    let middle = remote_rows(remote, local);
    let keep_a = |j: int| local[j].remote_url is None;
    let make_a = |j: int| local_only_row(local[j]);
    let keep_c = |j: int| is_left_over(remote, local, j);
    let make_c = |j: int| unmatched_row(local[j]);
    if k < head.len() {
        let j = lemma_picked_source(k, n, keep_a, make_a);
        assert(local_slot(remote, local, j) == k);
    } else if k < head.len() + middle.len() {
        assert(remote_slot(local, k - head.len()) == k);
    } else {
        let j = lemma_picked_source(k - head.len() - middle.len(), n, keep_c, make_c);
        assert(local_slot(remote, local, j) == k);
    }
}

/// Where the row of remote entry `i` has a property that no other row has
/// before the rows are put in order, it is the only row of the unified
/// list that has it.
pub proof fn lemma_remote_row_found_by(
    remote: Seq<GitHubRepoModel>,
    local: Seq<LocalRepoModel>,
    i: int,
    fits: spec_fn(RepoRowModel) -> bool,
) -> (k: int)
    requires
        0 <= i < remote.len(),
        fits(remote_row(remote, local, i)),
        forall|a: int|
            0 <= a < remote.len() && a != i ==> !fits(#[trigger] remote_row(remote, local, a)),
        forall|j: int|
            0 <= j < local.len() && local[j].remote_url is None ==> !fits(
                local_only_row(#[trigger] local[j]),
            ),
        forall|j: int|
            0 <= j < local.len() && is_left_over(remote, local, j) ==> !fits(
                unmatched_row(#[trigger] local[j]),
            ),
    ensures
        0 <= k < merged(remote, local).len(),
        merged(remote, local)[k] == remote_row(remote, local, i),
        forall|m: int|
            0 <= m < merged(remote, local).len() && fits(#[trigger] merged(remote, local)[m]) ==> m
                == k,
{
    let n = local.len() as int;
    let rows = merged_rows(remote, local);
    let head = local_only_rows(local, n);
    let middle = remote_rows(remote, local);
    let tail = leftover_rows(remote, local, n);
    let slot = remote_slot(local, i);
    let keep_a = |j: int| local[j].remote_url is None;
    let make_a = |j: int| local_only_row(local[j]);
    let keep_c = |j: int| is_left_over(remote, local, j);
    let make_c = |j: int| unmatched_row(local[j]);
    assert(rows[slot] == middle[i]);
    assert forall|m: int| 0 <= m < rows.len() && fits(#[trigger] rows[m]) implies m == slot by {
        if m < head.len() {
            let j = lemma_picked_source(m, n, keep_a, make_a);
            lemma_picked_holds(j, n, keep_a, make_a);
            assert(rows[m] == head[m]);
            assert(rows[m] == local_only_row(local[j]));
        } else if m < head.len() + middle.len() {
            let a = m - head.len();
            assert(rows[m] == middle[a]);
            assert(rows[m] == remote_row(remote, local, a));
        } else {
            let c = m - head.len() - middle.len();
            let j = lemma_picked_source(c, n, keep_c, make_c);
            lemma_picked_holds(j, n, keep_c, make_c);
            assert(rows[m] == tail[c]);
            assert(rows[m] == unmatched_row(local[j]));
        }
    }
    lemma_stable_sorted_items(rows, OwnerThenName);
    lemma_only_one_rearranged(rows, merged(remote, local), fits, slot)
}

/// The row has the identity and the URL of the remote entry `r`.
pub open spec fn is_row_of(row: RepoRowModel, r: GitHubRepoModel) -> bool {
    row.id == normalized_url(r.url) && row.github_url == Some(r.url)
}

/// Row `k` is the only row of `rows` with the identity and the URL of `r`.
pub open spec fn only_row_of(rows: Seq<RepoRowModel>, r: GitHubRepoModel, k: int) -> bool {
    &&& 0 <= k < rows.len()
    &&& is_row_of(rows[k], r)
    &&& forall|m: int| 0 <= m < rows.len() && is_row_of(#[trigger] rows[m], r) ==> m == k
}

/// No local entry that is left over lies at a path that reads like the
/// identity of `r` while it names the URL of `r` as its remote.
pub open spec fn no_local_poses_as(
    remote: Seq<GitHubRepoModel>,
    local: Seq<LocalRepoModel>,
    r: GitHubRepoModel,
) -> bool {
    forall|j: int|
        0 <= j < local.len() && is_left_over(remote, local, j) ==> !((#[trigger] local[j]).path
            == normalized_url(r.url) && local[j].remote_url == Some(r.url))
}

/// Where the remote entries have identities that differ, every remote
/// entry has exactly one row with its identity and its URL in the unified
/// list, and that row carries what the hosting service reported of it.
pub proof fn merge_gives_each_remote_one_row(
    remote: Seq<GitHubRepoModel>,
    local: Seq<LocalRepoModel>,
    i: int,
)
    requires
        0 <= i < remote.len(),
        forall|a: int, b: int|
            0 <= a < b < remote.len() ==> normalized_url(#[trigger] remote[a].url)
                != normalized_url(#[trigger] remote[b].url),
        no_local_poses_as(remote, local, remote[i]),
    ensures
        exists|k: int|
            #[trigger] only_row_of(merged(remote, local), remote[i], k) && holds_remote(
                merged(remote, local)[k],
                remote[i],
            ),
{
    let r = remote[i];
    let fits = |row: RepoRowModel| is_row_of(row, r);
    assert forall|a: int| 0 <= a < remote.len() && a != i implies !fits(
        #[trigger] remote_row(remote, local, a),
    ) by {
        if a < i {
            assert(normalized_url(remote[a].url) != normalized_url(remote[i].url));
        } else {
            assert(normalized_url(remote[i].url) != normalized_url(remote[a].url));
        }
    }
    let k = lemma_remote_row_found_by(remote, local, i, fits);
    assert(only_row_of(merged(remote, local), r, k));
}

/// Row `k` is the only row of `rows` with the identity `id`.
pub open spec fn only_row_with(rows: Seq<RepoRowModel>, id: Seq<char>, k: int) -> bool {
    &&& 0 <= k < rows.len()
    &&& rows[k].id == id
    &&& forall|m: int| 0 <= m < rows.len() && (#[trigger] rows[m]).id == id ==> m == k
}

/// The identity of remote entry `i` is its own: no other remote entry has
/// it, and no local entry that gets a row of its own lies at a path that
/// reads like it.
pub open spec fn identity_is_free(
    remote: Seq<GitHubRepoModel>,
    local: Seq<LocalRepoModel>,
    i: int,
) -> bool {
    let key = remote_keys(remote)[i];
    &&& forall|a: int|
        0 <= a < remote.len() && a != i ==> #[trigger] remote_keys(remote)[a] != key
    &&& forall|j: int|
        0 <= j < local.len() && (local[j].remote_url is None || is_left_over(remote, local, j))
            ==> (#[trigger] local[j]).path != key
}

/// A remote entry whose identity is its own is found by it: exactly one
/// row of the unified list has that identity, and it carries what the
/// hosting service reported of the entry.
pub proof fn merge_keys_rows_by_identity(
    remote: Seq<GitHubRepoModel>,
    local: Seq<LocalRepoModel>,
    i: int,
)
    requires
        0 <= i < remote.len(),
        identity_is_free(remote, local, i),
    ensures
        exists|k: int|
            #[trigger] only_row_with(merged(remote, local), remote_keys(remote)[i], k)
                && holds_remote(merged(remote, local)[k], remote[i]),
{
    let key = remote_keys(remote)[i];
    let fits = |row: RepoRowModel| row.id == key;
    assert forall|a: int| 0 <= a < remote.len() && a != i implies !fits(
        #[trigger] remote_row(remote, local, a),
    ) by {
        assert(remote_keys(remote)[a] != key);
    }
    let k = lemma_remote_row_found_by(remote, local, i, fits);
    assert(only_row_with(merged(remote, local), key, k));
}

/// A row holds a remote and a local entry together only where the two have
/// the same identity.
pub proof fn merge_joins_same_identity(
    remote: Seq<GitHubRepoModel>,
    local: Seq<LocalRepoModel>,
    i: int,
    j: int,
)
    requires
        0 <= i < remote.len(),
        0 <= j < local.len(),
        remote_slot(local, i) == local_slot(remote, local, j),
    ensures
        local_keys(local)[j] == Some(remote_keys(remote)[i]),
{
    let n = local.len() as int;
    let rkeys = remote_keys(remote);
    let lkeys = local_keys(local);
    if local[j].remote_url is None {
        lemma_picked_holds(
            j,
            n,
            |j: int| local[j].remote_url is None,
            |j: int| local_only_row(local[j]),
        );
    } else if is_matched(rkeys, lkeys, j) {
        lemma_matched_is_taken(rkeys, lkeys, j);
    }
}

/// The order by owner and name relates every two rows, and is transitive.
pub proof fn lemma_owner_then_name_is_total_preorder()
    ensures
        is_total_preorder::<RepoRowModel, OwnerThenName>(OwnerThenName),
{
    let by = OwnerThenName;
    assert forall|a: RepoRowModel, b: RepoRowModel| #[trigger] by.le(a, b) || by.le(b, a) by {
        lemma_str_order_antisymmetric(folded(a.name), folded(b.name));
        if a.owner is Some && b.owner is Some {
            lemma_str_order_antisymmetric(folded(a.owner->0), folded(b.owner->0));
        }
    }
    assert forall|a: RepoRowModel, b: RepoRowModel, c: RepoRowModel| #[trigger]
        by.le(a, b) && #[trigger] by.le(b, c) implies by.le(a, c) by {
        if a.owner is Some && b.owner is Some && c.owner is Some {
            lemma_str_order_transitive(
                folded(a.owner->0),
                folded(b.owner->0),
                folded(c.owner->0),
            );
            lemma_str_order_equal(folded(a.owner->0), folded(b.owner->0));
            lemma_str_order_equal(folded(b.owner->0), folded(c.owner->0));
            lemma_str_order_equal(folded(a.owner->0), folded(c.owner->0));
            if name_order(a.owner->0, b.owner->0) == Order::Equal && name_order(
                b.owner->0,
                c.owner->0,
            ) == Order::Equal {
                lemma_str_order_transitive(folded(a.name), folded(b.name), folded(c.name));
            }
        } else if a.owner is None && b.owner is None && c.owner is None {
            lemma_str_order_transitive(folded(a.name), folded(b.name), folded(c.name));
        }
    }
}

/// The unified list holds the rows made for the inputs, each as often as it
/// was made, and is ordered by owner and name.
pub proof fn merge_keeps_rows_in_order(remote: Seq<GitHubRepoModel>, local: Seq<LocalRepoModel>)
    ensures
        merged(remote, local).len() == merged_rows(remote, local).len(),
        merged(remote, local).to_multiset() == merged_rows(remote, local).to_multiset(),
        is_sorted(merged(remote, local), OwnerThenName),
{
    lemma_owner_then_name_is_total_preorder();
    lemma_stable_sorted_items(merged_rows(remote, local), OwnerThenName);
    lemma_stable_sorted_is_sorted(merged_rows(remote, local), OwnerThenName);
}


/// Rows of one owner and name, up to case, stand in the unified list in
/// the order in which they were made.
pub proof fn merge_keeps_ties(
    remote: Seq<GitHubRepoModel>,
    local: Seq<LocalRepoModel>,
    row: RepoRowModel,
)
    ensures
        ties_of(merged(remote, local), row, OwnerThenName) == ties_of(
            merged_rows(remote, local),
            row,
            OwnerThenName,
        ),
{
    lemma_owner_then_name_is_total_preorder();
    stable_sorted_keeps_ties(merged_rows(remote, local), row, OwnerThenName);
}

/// What the entries of a scan satisfy: a subrepo names the repository
/// that encloses it.
pub open spec fn local_well_formed(l: LocalRepoModel) -> bool {
    l.is_subrepo ==> l.parent_repo is Some
}

/// What the entries of the hosting service satisfy: a fork names its upstream.
pub open spec fn remote_well_formed(r: GitHubRepoModel) -> bool {
    r.is_fork ==> r.fork_parent is Some
}

/// Every row made from well-formed entries is well formed.
pub proof fn lemma_merged_rows_well_formed(
    remote: Seq<GitHubRepoModel>,
    local: Seq<LocalRepoModel>,
    k: int,
)
    requires
        forall|i: int| 0 <= i < remote.len() ==> remote_well_formed(#[trigger] remote[i]),
        forall|j: int| 0 <= j < local.len() ==> local_well_formed(#[trigger] local[j]),
        0 <= k < merged_rows(remote, local).len(),
    ensures
        merged_rows(remote, local)[k].well_formed(),
{
    let n = local.len() as int;
    let head = local_only_rows(local, n);
    let middle = remote_rows(remote, local);
    let rows = merged_rows(remote, local);
    if k < head.len() {
        let j = lemma_picked_source(
            k,
            n,
            |j: int| local[j].remote_url is None,
            |j: int| local_only_row(local[j]),
        );
        lemma_picked_holds(
            j,
            n,
            |j: int| local[j].remote_url is None,
            |j: int| local_only_row(local[j]),
        );
        assert(rows[k] == head[k]);
        assert(local_well_formed(local[j]));
    } else if k < head.len() + middle.len() {
        let i = k - head.len();
        assert(rows[k] == middle[i]);
        assert(remote_well_formed(remote[i]));
        match match_of(remote_keys(remote), local_keys(local), i) {
            Some(j) => {
                lemma_last_with_key(
                    local_keys(local),
                    remote_keys(remote)[i],
                    local_keys(local).len() as int,
                );
                assert(local_well_formed(local[j]));
            },
            None => {},
        }
    } else {
        let c = k - head.len() - middle.len();
        let j = lemma_picked_source(
            c,
            n,
            |j: int| is_left_over(remote, local, j),
            |j: int| unmatched_row(local[j]),
        );
        lemma_picked_holds(
            j,
            n,
            |j: int| is_left_over(remote, local, j),
            |j: int| unmatched_row(local[j]),
        );
        assert(rows[k] == leftover_rows(remote, local, n)[c]);
        assert(local_well_formed(local[j]));
    }
}

/// Every row of the unified list has a remote URL or a local path; a
/// subrepo among them names its enclosing repository and a fork its
/// upstream, where the entries that went in do.
pub proof fn merge_gives_well_formed_rows(
    remote: Seq<GitHubRepoModel>,
    local: Seq<LocalRepoModel>,
    k: int,
)
    requires
        forall|i: int| 0 <= i < remote.len() ==> remote_well_formed(#[trigger] remote[i]),
        forall|j: int| 0 <= j < local.len() ==> local_well_formed(#[trigger] local[j]),
        0 <= k < merged(remote, local).len(),
    ensures
        merged(remote, local)[k].well_formed(),
{
    lemma_stable_sorted_members(merged_rows(remote, local), OwnerThenName, k);
    let t = choose|t: int|
        0 <= t < merged_rows(remote, local).len() && merged_rows(remote, local)[t] == merged(
            remote,
            local,
        )[k];
    lemma_merged_rows_well_formed(remote, local, t);
}

} // verus!
