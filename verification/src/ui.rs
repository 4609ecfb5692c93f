//! The texts that the table shows: shortened names and paths, the age of
//! the last commit, the state of a working tree, column headings, and the
//! parts of a line of help. Drawing them is left to the caller.

use crate::app::{App, AppModel};
use crate::git::{RepoStatus, RepoStatusModel};
use crate::repo::ghq_compliance;
use crate::text::{
    chars_of, concat2, concat3, decimal, decimal_string, lemma_matches_at_start, match_at, pieces,
    split, split_on, starts_with, str_eq, string_of, subvec,
};
use vstd::prelude::*;

verus! {

/// `s` cut to at most `max_len` characters, the last of them an ellipsis
/// where something was cut off.
pub open spec fn truncated(s: Seq<char>, max_len: usize) -> Seq<char> {
    if s.len() <= max_len {
        s
    } else {
        s.take(max_len - 1).push('…')
    }
}

/// Cuts a text to at most `max_len` characters. A text that has
/// characters cannot be cut to none: there would be no room for the
/// ellipsis.
pub fn truncate(s: &str, max_len: usize) -> (r: String)
    requires
        max_len >= 1 || s@.len() == 0,
    ensures
        r@ == truncated(s@, max_len),
{
    let chars = chars_of(s);
    if chars.len() <= max_len {
        s.to_owned()
    } else {
        let mut head = subvec(&chars, 0, max_len - 1);
        proof {
            assert(chars@.subrange(0, max_len - 1) =~= chars@.take(max_len - 1));
        }
        head.push('…');
        string_of(&head)
    }
}

/// `path` with the home folder at its start written as `~`.
pub open spec fn shortened_path(path: Seq<char>, home: Seq<char>) -> Seq<char> {
    if home.len() > 0 && starts_with(path, home) {
        "~"@ + path.skip(home.len() as int)
    } else {
        path
    }
}

/// Writes the home folder at the start of a path as `~`.
pub fn shorten_path(path: &str, home: &str) -> (r: String)
    ensures
        r@ == shortened_path(path@, home@),
{
    let p = chars_of(path);
    let h = chars_of(home);
    proof {
        assert(p@.take(p.len() as int) =~= p@);
        lemma_matches_at_start(p@, h@);
    }
    if h.len() > 0 && match_at(&p, p.len(), &h, 0) {
        let rest = subvec(&p, h.len(), p.len());
        proof {
            assert(p@.subrange(h.len() as int, p.len() as int) =~= p@.skip(h.len() as int));
        }
        let tail = string_of(&rest);
        concat2("~", tail.as_str())
    } else {
        path.to_owned()
    }
}

/// How long ago something happened, for an age in seconds: in minutes
/// below an hour, hours below a day, days below a week, weeks below thirty
/// days, months of thirty days below a year, and years of 365 days.
pub open spec fn age_text(age_secs: i64) -> Seq<char> {
    if age_secs < 60 {
        "just now"@
    } else if age_secs < 3600 {
        decimal((age_secs / 60) as nat) + "m ago"@
    } else if age_secs < 86400 {
        decimal((age_secs / 3600) as nat) + "h ago"@
    } else if age_secs < 604800 {
        decimal((age_secs / 86400) as nat) + "d ago"@
    } else if age_secs < 2592000 {
        decimal((age_secs / 604800) as nat) + "w ago"@
    } else if age_secs < 31536000 {
        decimal((age_secs / 2592000) as nat) + "mo ago"@
    } else {
        decimal((age_secs / 31536000) as nat) + "y ago"@
    }
}

/// Says how long ago something happened.
pub fn format_age(age_secs: i64) -> (r: String)
    ensures
        r@ == age_text(age_secs),
{
    if age_secs < 60 {
        "just now".to_owned()
    } else if age_secs < 3600 {
        let n = decimal_string((age_secs / 60) as u64);
        concat2(n.as_str(), "m ago")
    } else if age_secs < 86400 {
        let n = decimal_string((age_secs / 3600) as u64);
        concat2(n.as_str(), "h ago")
    } else if age_secs < 604800 {
        let n = decimal_string((age_secs / 86400) as u64);
        concat2(n.as_str(), "d ago")
    } else if age_secs < 2592000 {
        let n = decimal_string((age_secs / 604800) as u64);
        concat2(n.as_str(), "w ago")
    } else if age_secs < 31536000 {
        let n = decimal_string((age_secs / 2592000) as u64);
        concat2(n.as_str(), "mo ago")
    } else {
        let n = decimal_string((age_secs / 31536000) as u64);
        concat2(n.as_str(), "y ago")
    }
}

/// How fresh something is, by which its age is coloured.
#[derive(Clone, Copy, Debug, PartialEq, Eq, Structural)]
pub enum Freshness {
    /// Less than a day old.
    Fresh,
    /// Less than a week old.
    Recent,
    Old,
}

/// The freshness for an age in seconds.
pub fn freshness(age_secs: i64) -> (r: Freshness)
    ensures
        r == if age_secs < 86400 {
            Freshness::Fresh
        } else if age_secs < 604800 {
            Freshness::Recent
        } else {
            Freshness::Old
        },
{
    if age_secs < 86400 {
        Freshness::Fresh
    } else if age_secs < 604800 {
        Freshness::Recent
    } else {
        Freshness::Old
    }
}

/// The age in seconds of `timestamp` at the time `now`, both in seconds
/// since the epoch; as far as 64 bits hold it.
pub fn age_of(now: i64, timestamp: i64) -> (r: i64)
    ensures
        r == if now - timestamp > i64::MAX {
            i64::MAX
        } else if now - timestamp < i64::MIN {
            i64::MIN
        } else {
            (now - timestamp) as i64
        },
{
    let d: i128 = now as i128 - timestamp as i128;
    if d > i64::MAX as i128 {
        i64::MAX
    } else if d < i64::MIN as i128 {
        i64::MIN
    } else {
        d as i64
    }
}

/// The state of a working tree as the table shows it.
#[derive(Clone, Copy, Debug, PartialEq, Eq, Structural)]
pub enum SyncState {
    NoRemote,
    Dirty,
    Diverged,
    Ahead,
    Behind,
    Synced,
}

/// The state of a working tree: without remote, else dirty, else by its
/// distance to the upstream.
pub open spec fn sync_state(s: RepoStatusModel) -> SyncState {
    if !s.has_remote {
        SyncState::NoRemote
    } else if s.is_dirty() {
        SyncState::Dirty
    } else if s.ahead > 0 && s.behind > 0 {
        SyncState::Diverged
    } else if s.ahead > 0 {
        SyncState::Ahead
    } else if s.behind > 0 {
        SyncState::Behind
    } else {
        SyncState::Synced
    }
}

/// The text for the state of a working tree.
pub open spec fn sync_text(s: RepoStatusModel) -> Seq<char> {
    match sync_state(s) {
        SyncState::NoRemote => "?"@,
        SyncState::Dirty => "~"@,
        SyncState::Diverged => "⇅ +"@ + decimal(s.ahead as nat) + "/-"@ + decimal(s.behind as nat),
        SyncState::Ahead => "↑ +"@ + decimal(s.ahead as nat),
        SyncState::Behind => "↓ -"@ + decimal(s.behind as nat),
        SyncState::Synced => "✓"@,
    }
}

/// Classifies the state of a working tree.
pub fn status_state(status: &RepoStatus) -> (r: SyncState)
    ensures
        r == sync_state(status@),
{
    if !status.has_remote {
        SyncState::NoRemote
    } else if status.is_dirty() {
        SyncState::Dirty
    } else if status.ahead > 0 && status.behind > 0 {
        SyncState::Diverged
    } else if status.ahead > 0 {
        SyncState::Ahead
    } else if status.behind > 0 {
        SyncState::Behind
    } else {
        SyncState::Synced
    }
}

/// Writes the state of a working tree.
pub fn format_status_text(status: &RepoStatus) -> (r: String)
    ensures
        r@ == sync_text(status@),
{
    match status_state(status) {
        SyncState::NoRemote => "?".to_owned(),
        SyncState::Dirty => "~".to_owned(),
        SyncState::Diverged => {
            let a = decimal_string(status.ahead as u64);
            let b = decimal_string(status.behind as u64);
            let head = concat3("⇅ +", a.as_str(), "/-");
            concat2(head.as_str(), b.as_str())
        },
        SyncState::Ahead => {
            let a = decimal_string(status.ahead as u64);
            concat2("↑ +", a.as_str())
        },
        SyncState::Behind => {
            let b = decimal_string(status.behind as u64);
            concat2("↓ -", b.as_str())
        },
        SyncState::Synced => "✓".to_owned(),
    }
}

/// The heading of a column: the name, marked with the direction where the
/// list is sorted by the column.
pub open spec fn header_text(name: Seq<char>, sorted_by: bool, ascending: bool) -> Seq<char> {
    if sorted_by {
        "["@ + name + " "@ + (if ascending {
            "▲"@
        } else {
            "▼"@
        }) + "]"@
    } else {
        name
    }
}

/// Writes the heading of a column.
pub fn format_header(name: &str, sorted_by: bool, ascending: bool) -> (r: String)
    ensures
        r@ == header_text(name@, sorted_by, ascending),
{
    if sorted_by {
        let arrow = if ascending {
            "▲"
        } else {
            "▼"
        };
        let head = concat3("[", name, " ");
        concat3(head.as_str(), arrow, "]")
    } else {
        name.to_owned()
    }
}

/// A line of help, taken apart.
#[derive(Debug)]
pub enum HelpLine {
    /// An empty line.
    Gap,
    /// A line that is not of the form `KEY|DESCRIPTION`: shown as it is.
    Plain { text: String },
    /// A heading.
    Header { title: String },
    /// A key with its description and the name of its colour, empty for none.
    Entry { key: String, description: String, color: String },
}

/// The mathematical content of a [`HelpLine`].
pub enum HelpLineModel {
    Gap,
    Plain { text: Seq<char> },
    Header { title: Seq<char> },
    Entry { key: Seq<char>, description: Seq<char>, color: Seq<char> },
}

impl DeepView for HelpLine {
    type V = HelpLineModel;

    open spec fn deep_view(&self) -> HelpLineModel {
        match self {
            HelpLine::Gap => HelpLineModel::Gap,
            HelpLine::Plain { text } => HelpLineModel::Plain { text: text@ },
            HelpLine::Header { title } => HelpLineModel::Header { title: title@ },
            HelpLine::Entry { key, description, color } => HelpLineModel::Entry {
                key: key@,
                description: description@,
                color: color@,
            },
        }
    }
}

impl View for HelpLine {
    type V = HelpLineModel;

    open spec fn view(&self) -> HelpLineModel {
        self.deep_view()
    }
}

/// The parts of a line of help `KEY|DESCRIPTION|COLOR`. The colour may be
/// left out; what follows a third bar is passed over.
pub open spec fn help_line_of(s: Seq<char>) -> HelpLineModel {
    let parts = split_on(s, '|');
    if s.len() == 0 {
        HelpLineModel::Gap
    } else if parts.len() < 2 {
        HelpLineModel::Plain { text: s }
    } else if parts[0] == "HEADER"@ {
        HelpLineModel::Header { title: parts[1] }
    } else {
        HelpLineModel::Entry {
            key: parts[0],
            description: parts[1],
            color: if parts.len() > 2 {
                parts[2]
            } else {
                Seq::empty()
            },
        }
    }
}

/// Takes a line of help apart.
pub fn parse_help_line(s: &str) -> (r: HelpLine)
    ensures
        r@ == help_line_of(s@),
{
    let chars = chars_of(s);
    if chars.len() == 0 {
        return HelpLine::Gap;
    }
    let parts = split(&chars, '|');
    if parts.len() < 2 {
        return HelpLine::Plain { text: s.to_owned() };
    }
    proof {
        assert(pieces(parts@)[0] == parts@[0]@);
        assert(pieces(parts@)[1] == parts@[1]@);
    }
    let key = string_of(&parts[0]);
    let description = string_of(&parts[1]);
    if str_eq(key.as_str(), "HEADER") {
        HelpLine::Header { title: description }
    } else {
        let color = if parts.len() > 2 {
            proof {
                assert(pieces(parts@)[2] == parts@[2]@);
            }
            string_of(&parts[2])
        } else {
            String::new()
        };
        HelpLine::Entry { key, description, color }
    }
}

/// What can be done with the selected repository, by which the keys are
/// shown as enabled or not.
#[derive(Clone, Copy, Debug, PartialEq, Eq, Structural)]
pub struct RepoActions {
    pub has_local: bool,
    pub is_remote_only: bool,
    pub is_local_only: bool,
    pub is_dirty: bool,
    pub can_change_visibility: bool,
    pub has_github: bool,
    pub needs_ghq: bool,
}

impl AppModel {
    /// What can be done with the selected repository; nothing where none
    /// is selected.
    pub open spec fn repo_actions(self) -> RepoActions {
        match self.selected_repo() {
            Some(row) => RepoActions {
                has_local: row.local_path is Some,
                is_remote_only: row.github_url is Some && row.local_path is None,
                is_local_only: row.local_path is Some && row.github_url is None,
                is_dirty: match row.git_status {
                    Some(s) => s.is_dirty(),
                    None => false,
                },
                can_change_visibility: row.github_url is Some && row.is_member,
                has_github: row.github_url is Some,
                needs_ghq: ghq_compliance(row, self.local_root, self.paths) == Some(false),
            },
            None => RepoActions {
                has_local: false,
                is_remote_only: false,
                is_local_only: false,
                is_dirty: false,
                can_change_visibility: false,
                has_github: false,
                needs_ghq: false,
            },
        }
    }
}

/// Finds out what can be done with the selected repository.
pub fn repo_actions(app: &App) -> (r: RepoActions)
    ensures
        r == app@.repo_actions(),
{
    match app.get_selected_repo() {
        Some(row) => RepoActions {
            has_local: row.has_local(),
            is_remote_only: row.is_remote_only(),
            is_local_only: row.is_local_only(),
            is_dirty: match &row.git_status {
                Some(s) => s.is_dirty(),
                None => false,
            },
            can_change_visibility: app.can_change_visibility(row),
            has_github: row.github_url.is_some(),
            needs_ghq: row.follows_ghq(app.local_root.as_str(), &app.paths) == Some(false),
        },
        None => RepoActions {
            has_local: false,
            is_remote_only: false,
            is_local_only: false,
            is_dirty: false,
            can_change_visibility: false,
            has_github: false,
            needs_ghq: false,
        },
    }
}

} // verus!
