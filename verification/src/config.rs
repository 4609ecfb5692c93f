//! User configuration: visible columns and their order, sort settings,
//! filters, and the set of ignored repositories.

use crate::sort::{sorted_strings, stable_sorted, ByteOrder};
use crate::text::{chars_of, concat2, concat3, lines_of, split_lines, str_eq};
use vstd::prelude::*;

verus! {

/// The columns of the repository table.
#[derive(Clone, Copy, Debug, PartialEq, Eq, Hash, Structural)]
pub enum Column {
    Origin,
    Repository,
    Type,
    Updated,
    Archived,
    Private,
    Ghq,
    Status,
    Dirty,
    Path,
}

impl Column {
    /// All columns, in the order in which they are shown by default.
    pub open spec fn default_columns() -> Seq<Column> {
        seq![
            Column::Origin,
            Column::Repository,
            Column::Type,
            Column::Updated,
            Column::Archived,
            Column::Private,
            Column::Ghq,
            Column::Status,
            Column::Dirty,
            Column::Path,
        ]
    }

    /// All columns in default order.
    pub fn default_order() -> (r: Vec<Column>)
        ensures
            r@ == Column::default_columns(),
    {
        let mut r: Vec<Column> = Vec::new();
        r.push(Column::Origin);
        r.push(Column::Repository);
        r.push(Column::Type);
        r.push(Column::Updated);
        r.push(Column::Archived);
        r.push(Column::Private);
        r.push(Column::Ghq);
        r.push(Column::Status);
        r.push(Column::Dirty);
        r.push(Column::Path);
        proof {
            assert(r@ =~= Column::default_columns());
        }
        r
    }

    /// The heading of the column.
    pub open spec fn heading(self) -> Seq<char> {
        match self {
            Column::Origin => "Origin"@,
            Column::Repository => "Repository"@,
            Column::Type => "Type"@,
            Column::Updated => "Updated"@,
            Column::Archived => "Arch"@,
            Column::Private => "Priv"@,
            Column::Ghq => "ghq?"@,
            Column::Status => "Status"@,
            Column::Dirty => "Dirty"@,
            Column::Path => "Path"@,
        }
    }

    /// The heading under which the column is shown.
    pub fn name(&self) -> (r: &'static str)
        ensures
            r@ == self.heading(),
    {
        match self {
            Column::Origin => "Origin",
            Column::Repository => "Repository",
            Column::Type => "Type",
            Column::Updated => "Updated",
            Column::Archived => "Arch",
            Column::Private => "Priv",
            Column::Ghq => "ghq?",
            Column::Status => "Status",
            Column::Dirty => "Dirty",
            Column::Path => "Path",
        }
    }

    /// The width reserved for the column, with room for the sort marker.
    pub open spec fn reserved_width(self) -> u16 {
        match self {
            Column::Origin => 18,
            Column::Repository => 24,
            Column::Type => 20,
            Column::Updated => 16,
            Column::Archived => 10,
            Column::Private => 10,
            Column::Ghq => 10,
            Column::Status => 14,
            Column::Dirty => 11,
            Column::Path => 0,
        }
    }

    /// The width of the column in characters; 0 for the path column, which
    /// takes what is left.
    pub fn width(&self) -> (r: u16)
        ensures
            r == self.reserved_width(),
    {
        match self {
            Column::Origin => 18,
            Column::Repository => 24,
            Column::Type => 20,
            Column::Updated => 16,
            Column::Archived => 10,
            Column::Private => 10,
            Column::Ghq => 10,
            Column::Status => 14,
            Column::Dirty => 11,
            Column::Path => 0,
        }
    }
}

/// The first position of `c` in `columns`.
pub open spec fn position_of(columns: Seq<Column>, c: Column) -> Option<int>
    decreases columns.len(),
{
    if columns.len() == 0 {
        None
    } else if columns[0] == c {
        Some(0)
    } else {
        match position_of(columns.drop_first(), c) {
            Some(i) => Some(i + 1),
            None => None,
        }
    }
}

/// What `position_of` finds: the first index that holds `c`, if any does.
pub proof fn lemma_position_of(columns: Seq<Column>, c: Column)
    ensures
        match position_of(columns, c) {
            Some(i) => 0 <= i < columns.len() && columns[i] == c && forall|k: int|
                0 <= k < i ==> columns[k] != c,
            None => forall|k: int| 0 <= k < columns.len() ==> columns[k] != c,
        },
    decreases columns.len(),
{
    if columns.len() > 0 && columns[0] != c {
        let rest = columns.drop_first();
        lemma_position_of(rest, c);
        match position_of(rest, c) {
            Some(i) => {
                assert forall|k: int| 0 <= k < i + 1 implies columns[k] != c by {
                    if k > 0 {
                        assert(rest[k - 1] != c);
                    }
                }
            },
            None => {
                assert forall|k: int| 0 <= k < columns.len() implies columns[k] != c by {
                    if k > 0 {
                        assert(rest[k - 1] != c);
                    }
                }
            },
        }
    }
}

/// Finds the first position of `c` in `columns`.
pub fn find_column(columns: &[Column], c: Column) -> (r: Option<usize>)
    ensures
        match r {
            Some(i) => position_of(columns@, c) == Some(i as int) && i < columns.len(),
            None => position_of(columns@, c) is None,
        },
{
    let mut i: usize = 0;
    while i < columns.len()
        invariant
            i <= columns.len(),
            forall|k: int| 0 <= k < i ==> columns@[k] != c,
        decreases columns.len() - i,
    {
        if columns[i] == c {
            proof {
                lemma_position_of(columns@, c);
            }
            return Some(i);
        }
        i += 1;
    }
    proof {
        lemma_position_of(columns@, c);
    }
    None
}

/// The identities of the repositories that the user has hidden, in the
/// order in which they were added. Adding an identity that is held changes
/// nothing, and removing one removes it altogether.
#[derive(Debug)]
pub struct IgnoredSet {
    items: Vec<String>,
}

impl IgnoredSet {
    /// No identity is held twice. This holds of every set at all times.
    #[verifier::type_invariant]
    closed spec fn each_once(self) -> bool {
        self.items.deep_view().no_duplicates()
    }

    /// The identities held, in the order in which they were added.
    pub closed spec fn list(&self) -> Seq<Seq<char>> {
        self.items.deep_view()
    }

    /// An empty set.
    pub fn new() -> (r: Self)
        ensures
            r.list() == Seq::<Seq<char>>::empty(),
            r.list().no_duplicates(),
    {
        let r = Self { items: Vec::new() };
        proof {
            assert(r.list() =~= Seq::<Seq<char>>::empty());
        }
        r
    }

    /// The number of identities held.
    pub fn len(&self) -> (r: usize)
        ensures
            r == self.list().len(),
    {
        self.items.len()
    }

    /// Whether no identity is held.
    pub fn is_empty(&self) -> (r: bool)
        ensures
            r == (self.list().len() == 0),
    {
        self.items.len() == 0
    }

    /// The identities held, in the order in which they were added.
    pub fn items(&self) -> (r: &Vec<String>)
        ensures
            r.deep_view() == self.list(),
            r.deep_view().no_duplicates(),
    {
        proof {
            use_type_invariant(self);
        }
        &self.items
    }

    /// Whether `id` is held.
    pub fn contains(&self, id: &str) -> (r: bool)
        ensures
            r == self.list().contains(id@),
    {
        holds(&self.items, id)
    }

    /// Adds `id`, behind the identities already held. Returns whether it
    /// was new; the set is unchanged if it was not.
    pub fn insert(&mut self, id: String) -> (added: bool)
        ensures
            added == !old(self).list().contains(id@),
            final(self).list() == if added {
                old(self).list().push(id@)
            } else {
                old(self).list()
            },
            final(self).list().no_duplicates(),
    {
        proof {
            use_type_invariant(&*self);
        }
        if holds(&self.items, id.as_str()) {
            false
        } else {
            let mut items: Vec<String> = Vec::new();
            std::mem::swap(&mut items, &mut self.items);
            let ghost before = items.deep_view();
            items.push(id);
            proof {
                assert(items.deep_view() =~= before.push(id@));
                lemma_push_new_each_once(before, id@);
            }
            self.items = items;
            true
        }
    }

    /// Removes `id`. Returns whether it was held; the other identities keep
    /// their order.
    pub fn remove(&mut self, id: &str) -> (removed: bool)
        ensures
            removed == old(self).list().contains(id@),
            final(self).list() == without(old(self).list(), id@),
            !final(self).list().contains(id@),
            final(self).list().no_duplicates(),
    {
        proof {
            use_type_invariant(&*self);
        }
        let mut items: Vec<String> = Vec::new();
        std::mem::swap(&mut items, &mut self.items);
        proof {
            lemma_without_each_once(items.deep_view(), id@);
            lemma_without_lacks(items.deep_view(), id@);
        }
        let removed = remove_each(&mut items, id);
        self.items = items;
        removed
    }

    /// The set of the identities in `names`, each held where it first
    /// occurs.
    pub fn from_list(names: &Vec<String>) -> (r: Self)
        ensures
            r.list() == kept_once(names.deep_view()),
            r.list().no_duplicates(),
            forall|id: Seq<char>| r.list().contains(id) <==> names.deep_view().contains(id),
    {
        let ghost all = names.deep_view();
        let mut r = IgnoredSet::new();
        let mut i: usize = 0;
        proof {
            assert(all.take(0) =~= Seq::<Seq<char>>::empty());
        }
        while i < names.len()
            invariant
                i <= names.len(),
                all == names.deep_view(),
                r.list() == kept_once(all.take(i as int)),
                r.list().no_duplicates(),
            decreases names.len() - i,
        {
            proof {
                assert(all[i as int] == names@[i as int]@);
                assert(all.take(i + 1).drop_last() =~= all.take(i as int));
                assert(all.take(i + 1).last() == all[i as int]);
            }
            r.insert(names[i].clone());
            i += 1;
        }
        proof {
            assert(all.take(names.len() as int) =~= all);
            assert forall|id: Seq<char>| r.list().contains(id) <==> all.contains(id) by {
                lemma_kept_once_holds(all, id);
            }
        }
        r
    }

    /// The set of the identities in `names`, held in the order of their
    /// bytes, whatever the order in which they are given.
    pub fn from_names(names: &Vec<String>) -> (r: Self)
        ensures
            r.list() == kept_once(stable_sorted(names.deep_view(), ByteOrder)),
            r.list().no_duplicates(),
            forall|id: Seq<char>| r.list().contains(id) <==> names.deep_view().contains(id),
    {
        let ordered = sorted_strings(names);
        let r = IgnoredSet::from_list(&ordered);
        proof {
            assert forall|id: Seq<char>| r.list().contains(id) <==> names.deep_view().contains(
                id,
            ) by {
                vstd::seq_lib::to_multiset_contains(names.deep_view(), id);
                vstd::seq_lib::to_multiset_contains(ordered.deep_view(), id);
            }
        }
        r
    }
}

/// `s` with every item kept where it first occurs, and nowhere else.
pub open spec fn kept_once(s: Seq<Seq<char>>) -> Seq<Seq<char>>
    decreases s.len(),
{
    if s.len() == 0 {
        s
    } else if kept_once(s.drop_last()).contains(s.last()) {
        kept_once(s.drop_last())
    } else {
        kept_once(s.drop_last()).push(s.last())
    }
}

/// Keeping every item once loses none and adds none.
pub proof fn lemma_kept_once_holds(s: Seq<Seq<char>>, x: Seq<char>)
    ensures
        kept_once(s).contains(x) <==> s.contains(x),
    decreases s.len(),
{
    if s.len() > 0 {
        let rest = s.drop_last();
        lemma_kept_once_holds(rest, x);
        lemma_kept_once_holds(rest, s.last());
        assert(s =~= rest.push(s.last()));
        lemma_contains_push(rest, s.last(), x);
        lemma_contains_push(kept_once(rest), s.last(), x);
    }
}

/// Whether `items` holds `id`.
fn holds(items: &Vec<String>, id: &str) -> (r: bool)
    ensures
        r == items.deep_view().contains(id@),
{
    let mut i: usize = 0;
    while i < items.len()
        invariant
            i <= items.len(),
            forall|k: int| 0 <= k < i ==> items@[k]@ != id@,
        decreases items.len() - i,
    {
        if str_eq(items[i].as_str(), id) {
            proof {
                assert(items.deep_view()[i as int] == id@);
            }
            return true;
        }
        i += 1;
    }
    proof {
        assert forall|k: int| 0 <= k < items.deep_view().len() implies items.deep_view()[k]
            != id@ by {
            assert(items.deep_view()[k] == items@[k]@);
        }
    }
    false
}

/// Takes every occurrence of `id` out of `items`, and says whether there
/// was one.
fn remove_each(items: &mut Vec<String>, id: &str) -> (removed: bool)
    ensures
        removed == old(items).deep_view().contains(id@),
        final(items).deep_view() == without(old(items).deep_view(), id@),
{
    let ghost orig = items.deep_view();
    let ghost mut seen: int = 0;
    let mut removed = false;
    let mut i: usize = 0;
    proof {
        assert(items.deep_view().skip(0) =~= orig.skip(0));
        assert(items.deep_view().take(0) =~= without(orig.take(0), id@));
    }
    while i < items.len()
        invariant
            i <= items.len(),
            0 <= seen <= orig.len(),
            items.len() - i == orig.len() - seen,
            items.deep_view().take(i as int) == without(orig.take(seen), id@),
            items.deep_view().skip(i as int) == orig.skip(seen),
            removed == orig.take(seen).contains(id@),
        decreases items.len() - i,
    {
        let ghost now = items.deep_view();
        proof {
            assert(now.skip(i as int)[0] == orig.skip(seen)[0]);
            assert(now[i as int] == items@[i as int]@);
            assert(orig.take(seen + 1).drop_last() =~= orig.take(seen));
            assert(orig.take(seen + 1).last() == orig[seen]);
            lemma_contains_push(orig.take(seen), orig[seen], id@);
            assert(orig.take(seen + 1) =~= orig.take(seen).push(orig[seen]));
        }
        if str_eq(items[i].as_str(), id) {
            items.remove(i);
            removed = true;
            proof {
                let after = items.deep_view();
                assert(after =~= now.remove(i as int));
                assert(after.take(i as int) =~= now.take(i as int));
                assert(after.skip(i as int) =~= now.skip(i as int).skip(1));
                assert(orig.skip(seen).skip(1) =~= orig.skip(seen + 1));
            }
        } else {
            proof {
                assert(now.take(i + 1) =~= now.take(i as int).push(now[i as int]));
                assert(now.skip(i + 1) =~= now.skip(i as int).skip(1));
                assert(orig.skip(seen).skip(1) =~= orig.skip(seen + 1));
            }
            i += 1;
        }
        proof {
            seen = seen + 1;
        }
    }
    proof {
        assert(items.deep_view().take(i as int) =~= items.deep_view());
        assert(orig.take(seen) =~= orig);
    }
    removed
}

/// A list that holds nothing twice still does so with a new item behind it.
pub proof fn lemma_push_new_each_once(s: Seq<Seq<char>>, x: Seq<char>)
    requires
        s.no_duplicates(),
        !s.contains(x),
    ensures
        s.push(x).no_duplicates(),
{
    let t = s.push(x);
    assert forall|i: int, j: int| 0 <= i < t.len() && 0 <= j < t.len() && i != j implies t[i]
        != t[j] by {
        if i < s.len() && j < s.len() {
            assert(s[i] != s[j]);
        } else if i < s.len() {
            assert(s.contains(s[i]));
        } else {
            assert(s.contains(s[j]));
        }
    }
}

/// A list that holds nothing twice still does so after a removal.
pub proof fn lemma_without_each_once(s: Seq<Seq<char>>, x: Seq<char>)
    requires
        s.no_duplicates(),
    ensures
        without(s, x).no_duplicates(),
    decreases s.len(),
{
    if s.len() > 0 {
        let rest = s.drop_last();
        assert(rest.no_duplicates());
        lemma_without_each_once(rest, x);
        if s.last() != x {
            lemma_without_lacks(rest, x);
            if rest.contains(s.last()) {
                let k = choose|k: int| 0 <= k < rest.len() && rest[k] == s.last();
                assert(s[k] == s[s.len() - 1]);
            }
            lemma_push_new_each_once(without(rest, x), s.last());
        }
    }
}

/// `s` without every occurrence of `x`.
pub open spec fn without(s: Seq<Seq<char>>, x: Seq<char>) -> Seq<Seq<char>>
    decreases s.len(),
{
    if s.len() == 0 {
        s
    } else if s.last() == x {
        without(s.drop_last(), x)
    } else {
        without(s.drop_last(), x).push(s.last())
    }
}

/// What is left after removing `x` does not hold `x`, and holds every
/// other item of `s`.
pub proof fn lemma_without_lacks(s: Seq<Seq<char>>, x: Seq<char>)
    ensures
        !without(s, x).contains(x),
        forall|y: Seq<char>| y != x ==> (without(s, x).contains(y) <==> s.contains(y)),
    decreases s.len(),
{
    if s.len() > 0 {
        let rest = s.drop_last();
        lemma_without_lacks(rest, x);
        assert(s =~= rest.push(s.last()));
        assert forall|y: Seq<char>| y != x implies (without(s, x).contains(y) <==> s.contains(
            y,
        )) by {
            lemma_contains_push(rest, s.last(), y);
            if s.last() != x {
                lemma_contains_push(without(rest, x), s.last(), y);
            }
        }
        if s.last() != x {
            lemma_contains_push(without(rest, x), s.last(), x);
        }
    }
}

/// An item is in `s.push(x)` exactly when it is `x` or in `s`.
pub proof fn lemma_contains_push(s: Seq<Seq<char>>, x: Seq<char>, y: Seq<char>)
    ensures
        s.push(x).contains(y) <==> (s.contains(y) || x == y),
{
    if s.contains(y) {
        let k = choose|k: int| 0 <= k < s.len() && s[k] == y;
        assert(s.push(x)[k] == y);
    }
    if x == y {
        assert(s.push(x)[s.len() as int] == y);
    }
    if s.push(x).contains(y) {
        let k = choose|k: int| 0 <= k < s.push(x).len() && s.push(x)[k] == y;
        if k < s.len() {
            assert(s[k] == y);
        }
    }
}

/// The application configuration.
#[derive(Debug)]
pub struct Config {
    /// Identities of the hidden repositories.
    pub ignored_repos: IgnoredSet,
    /// Visible columns in display order.
    pub columns: Vec<Column>,
    /// Name of the column to sort by.
    pub sort_column: String,
    pub sort_ascending: bool,
    pub show_archived: bool,
    pub show_private: bool,
}

/// The mathematical content of a [`Config`].
pub struct ConfigModel {
    pub ignored_repos: Seq<Seq<char>>,
    pub columns: Seq<Column>,
    pub sort_column: Seq<char>,
    pub sort_ascending: bool,
    pub show_archived: bool,
    pub show_private: bool,
}

impl DeepView for IgnoredSet {
    type V = Seq<Seq<char>>;

    open spec fn deep_view(&self) -> Seq<Seq<char>> {
        self.list()
    }
}

impl View for IgnoredSet {
    type V = Seq<Seq<char>>;

    open spec fn view(&self) -> Seq<Seq<char>> {
        self.list()
    }
}

impl DeepView for Config {
    type V = ConfigModel;

    open spec fn deep_view(&self) -> ConfigModel {
        ConfigModel {
            ignored_repos: self.ignored_repos@,
            columns: self.columns@,
            sort_column: self.sort_column@,
            sort_ascending: self.sort_ascending,
            show_archived: self.show_archived,
            show_private: self.show_private,
        }
    }
}

impl View for Config {
    type V = ConfigModel;

    open spec fn view(&self) -> ConfigModel {
        self.deep_view()
    }
}

/// The name of the column by which a fresh configuration sorts.
pub fn default_sort_column() -> (r: String)
    ensures
        r@ == "updated"@,
{
    "updated".to_owned()
}

/// The default of the two filters: show.
pub fn default_true() -> (r: bool)
    ensures
        r,
{
    true
}

impl Default for Config {
    /// Nothing ignored, all columns in default order, sorted by last update
    /// with the newest first, archived and private repositories shown.
    fn default() -> (r: Self)
        ensures
            r@ == (ConfigModel {
                ignored_repos: Seq::empty(),
                columns: Column::default_columns(),
                sort_column: "updated"@,
                sort_ascending: false,
                show_archived: true,
                show_private: true,
            }),
    {
        Self {
            ignored_repos: IgnoredSet::new(),
            columns: Column::default_order(),
            sort_column: default_sort_column(),
            sort_ascending: false,
            show_archived: true,
            show_private: true,
        }
    }
}

/// `base` with `leaf` below it: joined by a slash unless `base` is empty or
/// ends in one.
pub open spec fn joined_path(base: Seq<char>, leaf: Seq<char>) -> Seq<char> {
    if base.len() == 0 {
        leaf
    } else if base.last() == '/' {
        base + leaf
    } else {
        base + "/"@ + leaf
    }
}

/// Joins a path and a relative name.
pub fn join_path(base: &str, leaf: &str) -> (r: String)
    ensures
        r@ == joined_path(base@, leaf@),
{
    let chars = chars_of(base);
    if chars.len() == 0 {
        leaf.to_owned()
    } else if chars[chars.len() - 1] == '/' {
        concat2(base, leaf)
    } else {
        concat3(base, "/", leaf)
    }
}

/// The folder of this application below the platform's configuration
/// folder, or below the current folder where the platform names none.
pub open spec fn config_dir_below(platform_dir: Option<Seq<char>>) -> Seq<char> {
    joined_path(
        match platform_dir {
            Some(d) => d,
            None => "."@,
        },
        "ghall"@,
    )
}

/// Asks the platform for the user's configuration folder. Wraps
/// `dirs::config_dir`, whose answer depends on the environment: nothing is
/// claimed of it.
#[verifier::external_body]
fn platform_config_dir() -> Option<String> {
    match dirs::config_dir() {
        Some(p) => Some(p.to_string_lossy().into_owned()),
        None => None,
    }
}

impl Config {
    /// The configuration folder for a given answer of the platform.
    pub fn config_dir_in(platform_dir: Option<String>) -> (r: String)
        ensures
            r@ == config_dir_below(platform_dir.deep_view()),
    {
        match platform_dir {
            Some(d) => join_path(d.as_str(), "ghall"),
            None => join_path(".", "ghall"),
        }
    }

    /// The folder that holds the configuration file.
    pub fn config_dir() -> (r: String)
        ensures
            exists|platform_dir: Option<Seq<char>>| r@ == #[trigger] config_dir_below(platform_dir),
    {
        let platform_dir = platform_config_dir();
        let r = Config::config_dir_in(platform_dir);
        proof {
            assert(r@ == config_dir_below(platform_dir.deep_view()));
        }
        r
    }

    /// The path of the configuration file: `config.toml` in the
    /// configuration folder.
    pub fn config_path() -> (r: String)
        ensures
            exists|platform_dir: Option<Seq<char>>|
                r@ == joined_path(#[trigger] config_dir_below(platform_dir), "config.toml"@),
    {
        let dir = Config::config_dir();
        join_path(dir.as_str(), "config.toml")
    }

    /// The configuration that takes over a list of ignored identities, one
    /// per line, with everything else at its default.
    pub fn from_ignored_list(content: &str) -> (r: Self)
        ensures
            r.columns@ == Column::default_columns(),
            r.sort_column@ == "updated"@,
            !r.sort_ascending,
            r.show_archived,
            r.show_private,
            r.ignored_repos@ == kept_once(lines_of(content@)),
            forall|id: Seq<char>| r.ignored_repos@.contains(id) <==> lines_of(content@).contains(id),
    {
        let mut config = Config::default();
        let lines = split_lines(content);
        config.ignored_repos = IgnoredSet::from_list(&lines);
        config
    }

    /// The columns after moving `col` one place to the left: swapped with
    /// its left neighbour, unless it is the first or not shown.
    pub open spec fn columns_moved_left(columns: Seq<Column>, col: Column) -> Seq<Column> {
        match position_of(columns, col) {
            Some(i) => if i > 0 {
                columns.update(i, columns[i - 1]).update(i - 1, columns[i])
            } else {
                columns
            },
            None => columns,
        }
    }

    /// The columns after moving `col` one place to the right: swapped with
    /// its right neighbour, unless it is the last or not shown.
    pub open spec fn columns_moved_right(columns: Seq<Column>, col: Column) -> Seq<Column> {
        match position_of(columns, col) {
            Some(i) => if i + 1 < columns.len() {
                columns.update(i, columns[i + 1]).update(i + 1, columns[i])
            } else {
                columns
            },
            None => columns,
        }
    }

    /// Moves `col` one place to the left.
    pub fn move_column_left(&mut self, col: Column)
        ensures
            final(self)@ == (ConfigModel {
                columns: Config::columns_moved_left(old(self)@.columns, col),
                ..old(self)@
            }),
    {
        match find_column(self.columns.as_slice(), col) {
            Some(idx) => {
                if idx > 0 {
                    let a = self.columns[idx];
                    let b = self.columns[idx - 1];
                    self.columns.set(idx, b);
                    self.columns.set(idx - 1, a);
                }
            },
            None => {},
        }
    }

    /// Moves `col` one place to the right.
    pub fn move_column_right(&mut self, col: Column)
        ensures
            final(self)@ == (ConfigModel {
                columns: Config::columns_moved_right(old(self)@.columns, col),
                ..old(self)@
            }),
    {
        match find_column(self.columns.as_slice(), col) {
            Some(idx) => {
                if idx + 1 < self.columns.len() {
                    let a = self.columns[idx];
                    let b = self.columns[idx + 1];
                    self.columns.set(idx, b);
                    self.columns.set(idx + 1, a);
                }
            },
            None => {},
        }
    }
}

} // verus!
