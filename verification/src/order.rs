//! Ordering the unified list by a chosen column and direction.
//!
//! Every column gives each row a key. Rows are compared by key, the
//! outcome is reversed for the descending direction, and rows that still
//! tie are put in the order of their identities. A row that lacks a
//! timestamp stands behind those that have one in either direction.

use crate::config::{find_column, position_of, Column};
use crate::repo::{ghq_compliance, PathTable, RepoRow, RepoRowModel};
use crate::sort::{
    is_sorted, is_total_preorder, lemma_stable_sorted_fixes_sorted, lemma_stable_sorted_is_sorted,
    lemma_sorted_arrangement_is_unique, lemma_stable_sorted_items,
    lemma_stable_sorted_same, stable_sort, stable_sorted, stable_sorted_keeps_ties, tied, ties_of,
    Precedence, SpecOrder,
};
use crate::text::{
    compare_folded, compare_str, eq_ignore_ascii_case, folded, int_order,
    lemma_str_order_antisymmetric, lemma_str_order_equal, lemma_str_order_transitive, lowercase,
    str_eq, str_eq_ignore_ascii_case, str_order, unicode_lowercase, Order,
};
use vstd::prelude::*;

verus! {

/// The column by which the list is sorted.
#[derive(Clone, Copy, Debug, PartialEq, Eq, Structural)]
pub enum SortColumn {
    Origin,
    Name,
    Type,
    Status,
    LastUpdated,
    Path,
    Dirty,
    Private,
    Archived,
    Ghq,
}

impl SortColumn {
    /// The table column that shows what this sort column orders by.
    pub open spec fn column(self) -> Column {
        match self {
            SortColumn::Origin => Column::Origin,
            SortColumn::Name => Column::Repository,
            SortColumn::Type => Column::Type,
            SortColumn::Status => Column::Status,
            SortColumn::LastUpdated => Column::Updated,
            SortColumn::Path => Column::Path,
            SortColumn::Dirty => Column::Dirty,
            SortColumn::Private => Column::Private,
            SortColumn::Archived => Column::Archived,
            SortColumn::Ghq => Column::Ghq,
        }
    }

    /// The sort column for a table column.
    pub open spec fn of_column(col: Column) -> SortColumn {
        match col {
            Column::Origin => SortColumn::Origin,
            Column::Repository => SortColumn::Name,
            Column::Type => SortColumn::Type,
            Column::Status => SortColumn::Status,
            Column::Updated => SortColumn::LastUpdated,
            Column::Path => SortColumn::Path,
            Column::Dirty => SortColumn::Dirty,
            Column::Private => SortColumn::Private,
            Column::Archived => SortColumn::Archived,
            Column::Ghq => SortColumn::Ghq,
        }
    }

    /// The sort column after `self` among the visible columns, wrapping
    /// round at the end; the first visible column where the current one is
    /// not visible; `self` where no column is visible.
    pub open spec fn after(self, visible: Seq<Column>) -> SortColumn {
        match position_of(visible, self.column()) {
            Some(i) => SortColumn::of_column(visible[(i + 1) % (visible.len() as int)]),
            None => if visible.len() > 0 {
                SortColumn::of_column(visible[0])
            } else {
                self
            },
        }
    }

    /// The sort column before `self` among the visible columns, wrapping
    /// round at the start; the first visible column where the current one
    /// is not visible; `self` where no column is visible.
    pub open spec fn before(self, visible: Seq<Column>) -> SortColumn {
        match position_of(visible, self.column()) {
            Some(i) => SortColumn::of_column(
                visible[if i == 0 {
                    visible.len() - 1
                } else {
                    i - 1
                }],
            ),
            None => if visible.len() > 0 {
                SortColumn::of_column(visible[0])
            } else {
                self
            },
        }
    }

    /// The next sort column among the visible columns.
    pub fn next(self, visible: &[Column]) -> (r: Self)
        ensures
            r == self.after(visible@),
    {
        match find_column(visible, self.to_column()) {
            Some(idx) => {
                let next_idx = (idx + 1) % visible.len();
                Self::from_column(visible[next_idx])
            },
            None => if visible.len() > 0 {
                Self::from_column(visible[0])
            } else {
                self
            },
        }
    }

    /// The previous sort column among the visible columns.
    pub fn prev(self, visible: &[Column]) -> (r: Self)
        ensures
            r == self.before(visible@),
    {
        match find_column(visible, self.to_column()) {
            Some(idx) => {
                let prev_idx = if idx == 0 {
                    visible.len() - 1
                } else {
                    idx - 1
                };
                Self::from_column(visible[prev_idx])
            },
            None => if visible.len() > 0 {
                Self::from_column(visible[0])
            } else {
                self
            },
        }
    }

    /// The table column for this sort column.
    pub fn to_column(self) -> (c: Column)
        ensures
            c == self.column(),
    {
        match self {
            SortColumn::Origin => Column::Origin,
            SortColumn::Name => Column::Repository,
            SortColumn::Type => Column::Type,
            SortColumn::Status => Column::Status,
            SortColumn::LastUpdated => Column::Updated,
            SortColumn::Path => Column::Path,
            SortColumn::Dirty => Column::Dirty,
            SortColumn::Private => Column::Private,
            SortColumn::Archived => Column::Archived,
            SortColumn::Ghq => Column::Ghq,
        }
    }

    /// The sort column for a table column.
    pub fn from_column(col: Column) -> (s: Self)
        ensures
            s == SortColumn::of_column(col),
            s.column() == col,
    {
        match col {
            Column::Origin => SortColumn::Origin,
            Column::Repository => SortColumn::Name,
            Column::Type => SortColumn::Type,
            Column::Status => SortColumn::Status,
            Column::Updated => SortColumn::LastUpdated,
            Column::Path => SortColumn::Path,
            Column::Dirty => SortColumn::Dirty,
            Column::Private => SortColumn::Private,
            Column::Archived => SortColumn::Archived,
            Column::Ghq => SortColumn::Ghq,
        }
    }

    /// The sort column that stands under the lower-case name `l`;
    /// `LastUpdated` where none does.
    pub open spec fn of_lowercase(l: Seq<char>) -> SortColumn {
        if l == "origin"@ {
            SortColumn::Origin
        } else if l == "repository"@ || l == "name"@ {
            SortColumn::Name
        } else if l == "type"@ {
            SortColumn::Type
        } else if l == "status"@ {
            SortColumn::Status
        } else if l == "updated"@ || l == "lastupdated"@ {
            SortColumn::LastUpdated
        } else if l == "path"@ {
            SortColumn::Path
        } else if l == "dirty"@ {
            SortColumn::Dirty
        } else if l == "private"@ || l == "priv"@ {
            SortColumn::Private
        } else if l == "archived"@ || l == "arch"@ {
            SortColumn::Archived
        } else if l == "ghq"@ {
            SortColumn::Ghq
        } else {
            SortColumn::LastUpdated
        }
    }

    /// The sort column that a configuration names, by the lower-case form
    /// of the name; `LastUpdated` for a name that is not known.
    pub open spec fn named(name: Seq<char>) -> SortColumn {
        SortColumn::of_lowercase(unicode_lowercase(name))
    }

    /// Reads a sort column from a name that is already in lower case.
    pub fn from_lowercase(l: &str) -> (r: Self)
        ensures
            r == SortColumn::of_lowercase(l@),
    {
        if str_eq(l, "origin") {
            SortColumn::Origin
        } else if str_eq(l, "repository") || str_eq(l, "name") {
            SortColumn::Name
        } else if str_eq(l, "type") {
            SortColumn::Type
        } else if str_eq(l, "status") {
            SortColumn::Status
        } else if str_eq(l, "updated") || str_eq(l, "lastupdated") {
            SortColumn::LastUpdated
        } else if str_eq(l, "path") {
            SortColumn::Path
        } else if str_eq(l, "dirty") {
            SortColumn::Dirty
        } else if str_eq(l, "private") || str_eq(l, "priv") {
            SortColumn::Private
        } else if str_eq(l, "archived") || str_eq(l, "arch") {
            SortColumn::Archived
        } else if str_eq(l, "ghq") {
            SortColumn::Ghq
        } else {
            SortColumn::LastUpdated
        }
    }

    /// Reads a sort column from its name in the configuration, whatever
    /// the case of its letters.
    pub fn from_string(s: &str) -> (r: Self)
        ensures
            r == SortColumn::named(s@),
    {
        let lower = lowercase(s);
        SortColumn::from_lowercase(lower.as_str())
    }

    /// Every sort column is found again under the name that the
    /// configuration holds for it.
    pub proof fn config_name_is_read_back(c: SortColumn)
        ensures
            SortColumn::of_lowercase(c.config_name()) == c,
    {
        reveal_strlit("origin");
        reveal_strlit("repository");
        reveal_strlit("name");
        reveal_strlit("type");
        reveal_strlit("status");
        reveal_strlit("updated");
        reveal_strlit("lastupdated");
        reveal_strlit("path");
        reveal_strlit("dirty");
        reveal_strlit("private");
        reveal_strlit("priv");
        reveal_strlit("archived");
        reveal_strlit("arch");
        reveal_strlit("ghq");
        assert("origin"@.len() == 6 && "origin"@[0] == 'o');
        assert("repository"@.len() == 10);
        assert("name"@.len() == 4 && "name"@[0] == 'n');
        assert("type"@.len() == 4 && "type"@[0] == 't');
        assert("status"@.len() == 6 && "status"@[0] == 's');
        assert("updated"@.len() == 7 && "updated"@[0] == 'u');
        assert("lastupdated"@.len() == 11);
        assert("path"@.len() == 4 && "path"@[0] == 'p');
        assert("dirty"@.len() == 5);
        assert("private"@.len() == 7 && "private"@[0] == 'p');
        assert("priv"@.len() == 4);
        assert("archived"@.len() == 8);
        assert("arch"@.len() == 4);
        assert("ghq"@.len() == 3);
    }

    /// The name of the sort column in the configuration.
    pub open spec fn config_name(self) -> Seq<char> {
        match self {
            SortColumn::Origin => "origin"@,
            SortColumn::Name => "repository"@,
            SortColumn::Type => "type"@,
            SortColumn::Status => "status"@,
            SortColumn::LastUpdated => "updated"@,
            SortColumn::Path => "path"@,
            SortColumn::Dirty => "dirty"@,
            SortColumn::Private => "private"@,
            SortColumn::Archived => "archived"@,
            SortColumn::Ghq => "ghq"@,
        }
    }

    /// The name under which the configuration stores the sort column.
    pub fn as_str(&self) -> (r: &'static str)
        ensures
            r@ == self.config_name(),
    {
        match self {
            SortColumn::Origin => "origin",
            SortColumn::Name => "repository",
            SortColumn::Type => "type",
            SortColumn::Status => "status",
            SortColumn::LastUpdated => "updated",
            SortColumn::Path => "path",
            SortColumn::Dirty => "dirty",
            SortColumn::Private => "private",
            SortColumn::Archived => "archived",
            SortColumn::Ghq => "ghq",
        }
    }
}

/// Sort columns and table columns correspond one to one.
pub proof fn sort_columns_match_columns(s: SortColumn, c: Column)
    ensures
        SortColumn::of_column(s.column()) == s,
        SortColumn::of_column(c).column() == c,
{
}

/// Rank of a row by kind: source 0, clone 1, fork 2, local only 3,
/// subrepo 4. A subrepo counts as such whatever else it is; a repository
/// of the hosting service is a source where the user owns it.
pub open spec fn type_rank(row: RepoRowModel, username: Option<Seq<char>>) -> int {
    if row.is_subrepo {
        4
    } else if row.is_fork {
        2
    } else if row.github_url is Some {
        if username is Some && row.owner is Some && str_eq_ignore_ascii_case(
            username->0,
            row.owner->0,
        ) {
            0
        } else {
            1
        }
    } else {
        3
    }
}

/// Rank of a row by state: dirty 0, diverged 1, ahead 2, behind 3, synced
/// 4, no remote 5, no local copy 6.
pub open spec fn status_rank(row: RepoRowModel) -> int {
    match row.git_status {
        Some(s) => if s.is_dirty() {
            0
        } else if s.ahead > 0 && s.behind > 0 {
            1
        } else if s.ahead > 0 {
            2
        } else if s.behind > 0 {
            3
        } else if !s.has_remote {
            5
        } else {
            4
        },
        None => 6,
    }
}

/// Rank of a flag: set comes first.
pub open spec fn flag_rank(flag: bool) -> int {
    if flag {
        0
    } else {
        1
    }
}

/// Rank of a answer of the layout check: not compliant 0, compliant 1, none 2.
pub open spec fn ghq_rank(answer: Option<bool>) -> int {
    match answer {
        Some(false) => 0,
        Some(true) => 1,
        None => 2,
    }
}

/// Whether the row has a local copy with uncommitted changes.
pub open spec fn row_is_dirty(row: RepoRowModel) -> bool {
    match row.git_status {
        Some(s) => s.is_dirty(),
        None => false,
    }
}

/// The key of a row under one column: a number, a text, or nothing
/// (`missing`, for a row without timestamp under `LastUpdated`).
pub struct SortKey {
    pub missing: bool,
    pub rank: int,
    pub text: Seq<char>,
}

/// What a comparison depends on besides the two rows.
pub struct ColumnOrder {
    pub key: SortColumn,
    pub ascending: bool,
    /// The user's login on the hosting service, if known.
    pub username: Option<String>,
    /// The root of the canonical layout.
    pub local_root: String,
    pub paths: PathTable,
}

/// The mathematical content of a [`ColumnOrder`].
pub struct ColumnOrderModel {
    pub key: SortColumn,
    pub ascending: bool,
    pub username: Option<Seq<char>>,
    pub local_root: Seq<char>,
    pub paths: Seq<(Seq<char>, Seq<char>)>,
}

impl DeepView for ColumnOrder {
    type V = ColumnOrderModel;

    open spec fn deep_view(&self) -> ColumnOrderModel {
        ColumnOrderModel {
            key: self.key,
            ascending: self.ascending,
            username: self.username.deep_view(),
            local_root: self.local_root@,
            paths: self.paths@,
        }
    }
}

impl View for ColumnOrder {
    type V = ColumnOrderModel;

    open spec fn view(&self) -> ColumnOrderModel {
        self.deep_view()
    }
}

/// The key of `row` under the column of `by`.
pub open spec fn sort_key(row: RepoRowModel, by: ColumnOrderModel) -> SortKey {
    let none = Seq::<char>::empty();
    match by.key {
        SortColumn::Origin => SortKey {
            missing: false,
            rank: 0,
            text: folded(
                match row.owner {
                    Some(o) => o,
                    None => "~"@,
                },
            ),
        },
        SortColumn::Name => SortKey { missing: false, rank: 0, text: folded(row.name) },
        SortColumn::Type => SortKey {
            missing: false,
            rank: type_rank(row, by.username),
            text: none,
        },
        SortColumn::Status => SortKey { missing: false, rank: status_rank(row), text: none },
        SortColumn::LastUpdated => match row.last_commit_time {
            Some(t) => SortKey { missing: false, rank: t as int, text: none },
            None => SortKey { missing: true, rank: 0, text: none },
        },
        SortColumn::Path => SortKey {
            missing: false,
            rank: 0,
            text: match row.local_path {
                Some(p) => p,
                None => "~"@,
            },
        },
        SortColumn::Dirty => SortKey {
            missing: false,
            rank: flag_rank(row_is_dirty(row)),
            text: none,
        },
        SortColumn::Private => SortKey {
            missing: false,
            rank: flag_rank(row.is_private),
            text: none,
        },
        SortColumn::Archived => SortKey {
            missing: false,
            rank: flag_rank(row.is_archived),
            text: none,
        },
        SortColumn::Ghq => SortKey {
            missing: false,
            rank: ghq_rank(ghq_compliance(row, by.local_root, by.paths)),
            text: none,
        },
    }
}

/// Comparison of two keys that are both present: by number, then by text.
pub open spec fn value_order(a: SortKey, b: SortKey) -> Order {
    if a.rank != b.rank {
        int_order(a.rank, b.rank)
    } else {
        str_order(a.text, b.text)
    }
}

/// Comparison of two keys in a direction. A missing key stands behind a
/// present one in either direction; otherwise the descending direction
/// reverses the outcome.
pub open spec fn key_order(a: SortKey, b: SortKey, ascending: bool) -> Order {
    if a.missing != b.missing {
        if b.missing {
            Order::Less
        } else {
            Order::Greater
        }
    } else if ascending {
        value_order(a, b)
    } else {
        value_order(b, a)
    }
}

/// Comparison of two rows: by key and direction, then by identity.
pub open spec fn row_order(a: RepoRowModel, b: RepoRowModel, by: ColumnOrderModel) -> Order {
    let o = key_order(sort_key(a, by), sort_key(b, by), by.ascending);
    if o == Order::Equal {
        str_order(a.id, b.id)
    } else {
        o
    }
}

impl SpecOrder<RepoRowModel> for ColumnOrderModel {
    open spec fn le(&self, a: RepoRowModel, b: RepoRowModel) -> bool {
        row_order(a, b, *self) != Order::Greater
    }
}

impl SpecOrder<RepoRowModel> for ColumnOrder {
    open spec fn le(&self, a: RepoRowModel, b: RepoRowModel) -> bool {
        row_order(a, b, self@) != Order::Greater
    }
}

/// The rank of a row by kind.
pub fn repo_type_sort_order(repo: &RepoRow, username: &Option<String>) -> (r: u8)
    ensures
        r == type_rank(repo@, username.deep_view()),
{
    if repo.is_subrepo {
        4
    } else if repo.is_fork {
        2
    } else if repo.github_url.is_some() {
        match (username, &repo.owner) {
            (Some(u), Some(o)) => {
                if eq_ignore_ascii_case(u.as_str(), o.as_str()) {
                    0
                } else {
                    1
                }
            },
            _ => 1,
        }
    } else {
        3
    }
}

/// The rank of a row by state.
pub fn status_sort_order(repo: &RepoRow) -> (r: u8)
    ensures
        r == status_rank(repo@),
{
    match &repo.git_status {
        Some(status) => {
            if status.is_dirty() {
                0
            } else if status.ahead > 0 && status.behind > 0 {
                1
            } else if status.ahead > 0 {
                2
            } else if status.behind > 0 {
                3
            } else if !status.has_remote {
                5
            } else {
                4
            }
        },
        None => 6,
    }
}

fn compare_ranks(a: u8, b: u8) -> (o: Order)
    ensures
        o == int_order(a as int, b as int),
{
    if a < b {
        Order::Less
    } else if a > b {
        Order::Greater
    } else {
        Order::Equal
    }
}

fn flag_sort_order(flag: bool) -> (r: u8)
    ensures
        r == flag_rank(flag),
{
    if flag {
        0
    } else {
        1
    }
}

fn ghq_sort_order(answer: Option<bool>) -> (r: u8)
    ensures
        r == ghq_rank(answer),
{
    match answer {
        Some(false) => 0,
        Some(true) => 1,
        None => 2,
    }
}

fn row_dirty(row: &RepoRow) -> (r: bool)
    ensures
        r == row_is_dirty(row@),
{
    match &row.git_status {
        Some(s) => s.is_dirty(),
        None => false,
    }
}

/// Swapping two present keys reverses the outcome.
pub proof fn lemma_value_order_antisymmetric(a: SortKey, b: SortKey)
    ensures
        value_order(b, a) == value_order(a, b).reversed(),
{
    lemma_str_order_antisymmetric(a.text, b.text);
}

/// The comparison of present keys composes.
pub proof fn lemma_value_order_transitive(a: SortKey, b: SortKey, c: SortKey)
    requires
        value_order(a, b) != Order::Greater,
        value_order(b, c) != Order::Greater,
    ensures
        value_order(a, c) != Order::Greater,
        value_order(a, b) == Order::Less || value_order(b, c) == Order::Less ==> value_order(a, c)
            == Order::Less,
        value_order(a, b) == Order::Equal && value_order(b, c) == Order::Equal ==> value_order(
            a,
            c,
        ) == Order::Equal,
{
    if a.rank == b.rank && b.rank == c.rank {
        lemma_str_order_transitive(a.text, b.text, c.text);
        lemma_str_order_equal(a.text, b.text);
        lemma_str_order_equal(b.text, c.text);
        lemma_str_order_equal(a.text, c.text);
    }
}

/// Swapping two keys reverses the outcome, in either direction.
pub proof fn lemma_key_order_antisymmetric(a: SortKey, b: SortKey, ascending: bool)
    ensures
        key_order(b, a, ascending) == key_order(a, b, ascending).reversed(),
{
    lemma_value_order_antisymmetric(a, b);
    lemma_value_order_antisymmetric(b, a);
}

/// The comparison of keys composes, in either direction.
pub proof fn lemma_key_order_transitive(a: SortKey, b: SortKey, c: SortKey, ascending: bool)
    requires
        key_order(a, b, ascending) != Order::Greater,
        key_order(b, c, ascending) != Order::Greater,
    ensures
        key_order(a, c, ascending) != Order::Greater,
        key_order(a, b, ascending) == Order::Less || key_order(b, c, ascending) == Order::Less
            ==> key_order(a, c, ascending) == Order::Less,
        key_order(a, b, ascending) == Order::Equal && key_order(b, c, ascending) == Order::Equal
            ==> key_order(a, c, ascending) == Order::Equal,
{
    if a.missing == b.missing && b.missing == c.missing {
        if ascending {
            lemma_value_order_transitive(a, b, c);
        } else {
            lemma_value_order_transitive(c, b, a);
        }
    }
}

/// Swapping two rows reverses the outcome.
pub proof fn lemma_row_order_antisymmetric(
    a: RepoRowModel,
    b: RepoRowModel,
    by: ColumnOrderModel,
)
    ensures
        row_order(b, a, by) == row_order(a, b, by).reversed(),
{
    lemma_key_order_antisymmetric(sort_key(a, by), sort_key(b, by), by.ascending);
    lemma_str_order_antisymmetric(a.id, b.id);
}

/// The comparison of rows composes.
pub proof fn lemma_row_order_transitive(
    a: RepoRowModel,
    b: RepoRowModel,
    c: RepoRowModel,
    by: ColumnOrderModel,
)
    requires
        row_order(a, b, by) != Order::Greater,
        row_order(b, c, by) != Order::Greater,
    ensures
        row_order(a, c, by) != Order::Greater,
{
    lemma_key_order_transitive(sort_key(a, by), sort_key(b, by), sort_key(c, by), by.ascending);
    if key_order(sort_key(a, by), sort_key(b, by), by.ascending) == Order::Equal && key_order(
        sort_key(b, by),
        sort_key(c, by),
        by.ascending,
    ) == Order::Equal {
        lemma_str_order_transitive(a.id, b.id, c.id);
    }
}

/// The order of rows is total: every two rows are related one way or the
/// other, and the relation is transitive.
pub proof fn row_order_is_total(by: ColumnOrderModel)
    ensures
        is_total_preorder::<RepoRowModel, ColumnOrderModel>(by),
{
    assert forall|a: RepoRowModel, b: RepoRowModel| #[trigger] by.le(a, b) || by.le(b, a) by {
        lemma_row_order_antisymmetric(a, b, by);
    }
    assert forall|a: RepoRowModel, b: RepoRowModel, c: RepoRowModel| #[trigger]
        by.le(a, b) && #[trigger] by.le(b, c) implies by.le(a, c) by {
        lemma_row_order_transitive(a, b, c, by);
    }
}

/// Only rows of one identity tie.
pub proof fn ties_have_one_identity(a: RepoRowModel, b: RepoRowModel, by: ColumnOrderModel)
    requires
        row_order(a, b, by) == Order::Equal,
    ensures
        a.id == b.id,
{
    lemma_str_order_equal(a.id, b.id);
}

/// The same settings with the direction turned round.
pub open spec fn turned(by: ColumnOrderModel) -> ColumnOrderModel {
    ColumnOrderModel { ascending: !by.ascending, ..by }
}

/// Turning the direction round reverses the order of every two rows whose
/// keys differ, unless exactly one of them lacks a timestamp under `LastUpdated`.
pub proof fn turning_reverses_order(a: RepoRowModel, b: RepoRowModel, by: ColumnOrderModel)
    requires
        key_order(sort_key(a, by), sort_key(b, by), by.ascending) != Order::Equal,
        sort_key(a, by).missing == sort_key(b, by).missing,
    ensures
        row_order(a, b, turned(by)) == row_order(a, b, by).reversed(),
{
    lemma_value_order_antisymmetric(sort_key(a, by), sort_key(b, by));
    lemma_value_order_antisymmetric(sort_key(b, by), sort_key(a, by));
    assert(sort_key(a, turned(by)) == sort_key(a, by));
    assert(sort_key(b, turned(by)) == sort_key(b, by));
}

/// A row without timestamp stands behind one with a timestamp in both directions.
pub proof fn missing_timestamp_stands_last(
    a: RepoRowModel,
    b: RepoRowModel,
    by: ColumnOrderModel,
)
    requires
        by.key == SortColumn::LastUpdated,
        a.last_commit_time is Some,
        b.last_commit_time is None,
    ensures
        row_order(a, b, by) == Order::Less,
        row_order(a, b, turned(by)) == Order::Less,
{
}

/// Compares two rows by the column and direction of `by`, then by identity.
pub fn compare_rows(a: &RepoRow, b: &RepoRow, by: &ColumnOrder) -> (o: Order)
    ensures
        o == row_order(a@, b@, by@),
{
    let ghost ka = sort_key(a@, by@);
    let ghost kb = sort_key(b@, by@);
    proof {
        lemma_value_order_antisymmetric(ka, kb);
        lemma_str_order_reflexive_empty();
    }
    let directed: Order = match by.key {
        SortColumn::LastUpdated => match (a.last_commit_time, b.last_commit_time) {
            (Some(x), Some(y)) => {
                let o = if x < y {
                    Order::Less
                } else if x > y {
                    Order::Greater
                } else {
                    Order::Equal
                };
                if by.ascending {
                    o
                } else {
                    o.reverse()
                }
            },
            (Some(_), None) => Order::Less,
            (None, Some(_)) => Order::Greater,
            (None, None) => Order::Equal,
        },
        _ => {
            let primary: Order = match by.key {
                SortColumn::Origin => {
                    let x = match &a.owner {
                        Some(o) => o.as_str(),
                        None => "~",
                    };
                    let y = match &b.owner {
                        Some(o) => o.as_str(),
                        None => "~",
                    };
                    compare_folded(x, y)
                },
                SortColumn::Name => compare_folded(a.name.as_str(), b.name.as_str()),
                SortColumn::Type => compare_ranks(
                    repo_type_sort_order(a, &by.username),
                    repo_type_sort_order(b, &by.username),
                ),
                SortColumn::Status => compare_ranks(status_sort_order(a), status_sort_order(b)),
                SortColumn::Path => {
                    let x = match &a.local_path {
                        Some(p) => p.as_str(),
                        None => "~",
                    };
                    let y = match &b.local_path {
                        Some(p) => p.as_str(),
                        None => "~",
                    };
                    compare_str(x, y)
                },
                SortColumn::Dirty => compare_ranks(
                    flag_sort_order(row_dirty(a)),
                    flag_sort_order(row_dirty(b)),
                ),
                SortColumn::Private => compare_ranks(
                    flag_sort_order(a.is_private),
                    flag_sort_order(b.is_private),
                ),
                SortColumn::Archived => compare_ranks(
                    flag_sort_order(a.is_archived),
                    flag_sort_order(b.is_archived),
                ),
                SortColumn::Ghq => compare_ranks(
                    ghq_sort_order(a.follows_ghq(by.local_root.as_str(), &by.paths)),
                    ghq_sort_order(b.follows_ghq(by.local_root.as_str(), &by.paths)),
                ),
                SortColumn::LastUpdated => Order::Equal,
            };
            assert(primary == value_order(ka, kb));
            if by.ascending {
                primary
            } else {
                primary.reverse()
            }
        },
    };
    assert(directed == key_order(ka, kb, by.ascending));
    if directed == Order::Equal {
        compare_str(a.id.as_str(), b.id.as_str())
    } else {
        directed
    }
}

/// The empty text compares equal to itself.
pub proof fn lemma_str_order_reflexive_empty()
    ensures
        str_order(Seq::<char>::empty(), Seq::<char>::empty()) == Order::Equal,
{
    lemma_str_order_equal(Seq::<char>::empty(), Seq::<char>::empty());
}

impl Precedence<RepoRow> for ColumnOrder {
    fn precedes(&self, a: &RepoRow, b: &RepoRow) -> (r: bool) {
        compare_rows(a, b, self) != Order::Greater
    }
}

/// Sorts the rows by the column and direction of `by`. The result holds
/// the same rows, each as often as before, and is ordered; rows of one
/// identity that tie keep their relative order.
pub fn sort_rows(rows: &mut Vec<RepoRow>, by: &ColumnOrder)
    ensures
        final(rows).deep_view() == stable_sorted(old(rows).deep_view(), by@),
        final(rows).len() == old(rows).len(),
        final(rows).deep_view().to_multiset() == old(rows).deep_view().to_multiset(),
        is_sorted(final(rows).deep_view(), by@),
{
    proof {
        row_order_is_total(by@);
        lemma_stable_sorted_items(rows.deep_view(), by@);
        lemma_stable_sorted_is_sorted(rows.deep_view(), by@);
        lemma_stable_sorted_same(rows.deep_view(), *by, by@);
    }
    stable_sort(rows, by);
}

/// Sorting again by the same column and direction changes nothing.
pub proof fn sorting_twice_changes_nothing(rows: Seq<RepoRowModel>, by: ColumnOrderModel)
    ensures
        stable_sorted(stable_sorted(rows, by), by) == stable_sorted(rows, by),
{
    row_order_is_total(by);
    lemma_stable_sorted_is_sorted(rows, by);
    lemma_stable_sorted_fixes_sorted(stable_sorted(rows, by), by);
}


/// Sorting is stable: rows that tie, which are rows of one identity, keep
/// the order in which they stood.
pub proof fn sorting_keeps_ties(rows: Seq<RepoRowModel>, row: RepoRowModel, by: ColumnOrderModel)
    ensures
        ties_of(stable_sorted(rows, by), row, by) == ties_of(rows, row, by),
{
    row_order_is_total(by);
    stable_sorted_keeps_ties(rows, row, by);
}


/// No two of the rows have the same key, and all of them have a key or
/// all lack one.
pub open spec fn keys_differ(rows: Seq<RepoRowModel>, by: ColumnOrderModel) -> bool {
    forall|i: int, j: int|
        0 <= i < rows.len() && 0 <= j < rows.len() && i != j ==> {
            &&& sort_key(#[trigger] rows[i], by).missing == sort_key(#[trigger] rows[j], by).missing
            &&& value_order(sort_key(rows[i], by), sort_key(rows[j], by)) != Order::Equal
        }
}

/// Rows whose keys differ stand, in any arrangement of them, at different
/// places with different keys.
pub proof fn lemma_keys_differ_rearranged(
    rows: Seq<RepoRowModel>,
    other: Seq<RepoRowModel>,
    by: ColumnOrderModel,
)
    requires
        keys_differ(rows, by),
        rows.to_multiset() == other.to_multiset(),
    ensures
        keys_differ(other, by),
{
    assert forall|i: int, j: int| 0 <= i < rows.len() && 0 <= j < rows.len() && i != j implies
        rows[i] != rows[j] by {
        lemma_str_order_equal(sort_key(rows[i], by).text, sort_key(rows[i], by).text);
        assert(value_order(sort_key(rows[i], by), sort_key(rows[j], by)) != Order::Equal);
    }
    assert(rows.no_duplicates());
    rows.lemma_multiset_has_no_duplicates();
    other.lemma_multiset_has_no_duplicates_conv();
    assert forall|i: int, j: int| 0 <= i < other.len() && 0 <= j < other.len() && i != j implies {
        &&& sort_key(#[trigger] other[i], by).missing == sort_key(#[trigger] other[j], by).missing
        &&& value_order(sort_key(other[i], by), sort_key(other[j], by)) != Order::Equal
    } by {
        assert(other[i] != other[j]);
        assert(other.contains(other[i]));
        assert(other.contains(other[j]));
        vstd::seq_lib::to_multiset_contains(other, other[i]);
        vstd::seq_lib::to_multiset_contains(other, other[j]);
        vstd::seq_lib::to_multiset_contains(rows, other[i]);
        vstd::seq_lib::to_multiset_contains(rows, other[j]);
        let p = choose|p: int| 0 <= p < rows.len() && rows[p] == other[i];
        let q = choose|q: int| 0 <= q < rows.len() && rows[q] == other[j];
        assert(p != q);
        assert(sort_key(rows[p], by).missing == sort_key(rows[q], by).missing);
    }
}

/// Where no two rows have the same key, turning the direction round
/// reverses the list.
pub proof fn turning_reverses_list(rows: Seq<RepoRowModel>, by: ColumnOrderModel)
    requires
        keys_differ(rows, by),
    ensures
        stable_sorted(rows, turned(by)) == stable_sorted(rows, by).reverse(),
{
    let up = stable_sorted(rows, by);
    let down = stable_sorted(rows, turned(by));
    let back = up.reverse();
    let other = turned(by);
    let n = up.len() as int;
    row_order_is_total(by);
    row_order_is_total(other);
    lemma_stable_sorted_items(rows, by);
    lemma_stable_sorted_items(rows, other);
    lemma_stable_sorted_is_sorted(rows, by);
    lemma_stable_sorted_is_sorted(rows, other);
    up.lemma_reverse_to_multiset();
    lemma_keys_differ_rearranged(rows, up, by);
    assert forall|i: int, j: int| 0 <= i < n && 0 <= j < n && i != j implies row_order(
        back[i],
        back[j],
        other,
    ) == row_order(back[j], back[i], by) && row_order(back[i], back[j], other)
        != Order::Equal by {
        let a = back[i];
        let b = back[j];
        assert(a == up[n - 1 - i] && b == up[n - 1 - j]);
        assert(sort_key(up[n - 1 - i], by).missing == sort_key(up[n - 1 - j], by).missing);
        lemma_value_order_antisymmetric(sort_key(a, by), sort_key(b, by));
        lemma_value_order_antisymmetric(sort_key(b, by), sort_key(a, by));
        turning_reverses_order(a, b, by);
        lemma_row_order_antisymmetric(a, b, by);
    }
    assert forall|i: int, j: int| 0 <= i < j < n implies other.le(
        #[trigger] back[i],
        #[trigger] back[j],
    ) by {
        assert(by.le(up[n - 1 - j], up[n - 1 - i]));
        assert(row_order(back[i], back[j], other) == row_order(back[j], back[i], by));
    }
    assert forall|i: int, j: int| 0 <= i < n && 0 <= j < n && i != j implies !tied(
        #[trigger] back[i],
        #[trigger] back[j],
        other,
    ) by {
        lemma_row_order_antisymmetric(back[i], back[j], other);
        assert(row_order(back[i], back[j], other) != Order::Equal);
    }
    lemma_sorted_arrangement_is_unique(back, down, other);
}

} // verus!
