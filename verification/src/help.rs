//! The lines of the help popup.
//!
//! A line has the form `KEY|DESCRIPTION|COLOR`, the colour being optional;
//! a line `HEADER|TITLE` is a heading, and an empty line a gap.

use crate::app::ViewMode;
use crate::text::owned;
use vstd::prelude::*;

verus! {

/// The help for the repository view.
pub open spec fn repos_help() -> Seq<Seq<char>> {
    seq![
        "HEADER|Navigation"@,
        "↑/↓/j/k|Move up/down|"@,
        "←/→|Change sort column|"@,
        "v|Reverse sort direction|"@,
        ", .|Select prev/next column|"@,
        "< >|Move column left/right|"@,
        "Tab|Switch to Gists view|cyan"@,
        "Enter|Show details|"@,
        "E|Show error log|yellow"@,
        "y|Copy popup to clipboard|"@,
        ""@,
        "HEADER|Git Actions"@,
        "g|Open lazygit|green"@,
        "l|Pull (ff-only)|cyan"@,
        "h|Push|magenta"@,
        "s|Sync (pull+push)|"@,
        "y|Quicksync (rebase+add+commit+push)|yellow"@,
        "r|Refresh all|"@,
        ""@,
        "HEADER|Repository"@,
        "n|Clone repo (remote-only)|cyan"@,
        "u|Upload local repo to GitHub|magenta"@,
        "o|Open in browser|"@,
        "O|Open in file manager|"@,
        "p|Toggle private/public|"@,
        "P|Show/hide private repos|"@,
        "a|Toggle archived status|"@,
        "A|Show/hide archived repos|"@,
        "d|Delete local copy|red"@,
        "D|Delete remote repo|red"@,
        "z|Reorganize to ghq path|"@,
        "i|Init git (nogit) / Ignore repo|"@,
        "I|Show ignored repos|"@,
        ""@,
        "HEADER|Type Icons"@,
        "● src|Your original repository|green"@,
        "◌ clone|Clone from other owner|cyan"@,
        "⑂|Fork (shows upstream)|magenta"@,
        "◌ local|Local only (no remote)|blue"@,
        "⊂ sub|Subrepo (nested in another)|yellow"@,
        "○ nogit|Folder without git repo|red"@,
        ""@,
        "HEADER|Status Icons"@,
        "✓|Synced with remote|green"@,
        "↑|Ahead (unpushed)|magenta"@,
        "↓|Behind (can pull)|cyan"@,
        "⇅|Diverged|red"@,
        "*|Dirty (uncommitted)|yellow"@,
        "?|No remote configured|blue"@,
        ""@,
        "|Press ? or Esc to close|"@,
    ]
}

/// The help for the gist view.
pub open spec fn gists_help() -> Seq<Seq<char>> {
    seq![
        "HEADER|Navigation"@,
        "↑/↓/j/k|Move up/down|"@,
        "Tab|Switch to Repos view|cyan"@,
        "Enter|Show details|"@,
        ""@,
        "HEADER|Git Actions"@,
        "l|Pull (not when dirty)|cyan"@,
        "h|Push (not when dirty)|magenta"@,
        "s|Sync (not when dirty)|"@,
        "r|Refresh all|"@,
        ""@,
        "HEADER|Gist Actions"@,
        "n|Clone gist locally|cyan"@,
        "d|Delete gist from GitHub|red"@,
        ""@,
        "|Press ? or Esc to close|"@,
    ]
}

/// The help for a view.
pub open spec fn help_content(view_mode: ViewMode) -> Seq<Seq<char>> {
    match view_mode {
        ViewMode::Repos => repos_help(),
        ViewMode::Gists => gists_help(),
    }
}

/// Owned copies of a list of texts.
pub fn owned_lines(lines: &Vec<&'static str>) -> (r: Vec<String>)
    ensures
        r.len() == lines.len(),
        forall|i: int| 0 <= i < lines.len() ==> (#[trigger] r@[i])@ == lines@[i]@,
{
    let mut r: Vec<String> = Vec::new();
    let mut i: usize = 0;
    while i < lines.len()
        invariant
            i <= lines.len(),
            r.len() == i,
            forall|k: int| 0 <= k < i ==> (#[trigger] r@[k])@ == lines@[k]@,
        decreases lines.len() - i,
    {
        r.push(owned(lines[i]));
        i += 1;
    }
    r
}

fn repos_help_lines() -> (r: Vec<String>)
    ensures
        r.deep_view() == repos_help(),
{
    let lines: Vec<&'static str> = vec![
        "HEADER|Navigation",
        "↑/↓/j/k|Move up/down|",
        "←/→|Change sort column|",
        "v|Reverse sort direction|",
        ", .|Select prev/next column|",
        "< >|Move column left/right|",
        "Tab|Switch to Gists view|cyan",
        "Enter|Show details|",
        "E|Show error log|yellow",
        "y|Copy popup to clipboard|",
        "",
        "HEADER|Git Actions",
        "g|Open lazygit|green",
        "l|Pull (ff-only)|cyan",
        "h|Push|magenta",
        "s|Sync (pull+push)|",
        "y|Quicksync (rebase+add+commit+push)|yellow",
        "r|Refresh all|",
        "",
        "HEADER|Repository",
        "n|Clone repo (remote-only)|cyan",
        "u|Upload local repo to GitHub|magenta",
        "o|Open in browser|",
        "O|Open in file manager|",
        "p|Toggle private/public|",
        "P|Show/hide private repos|",
        "a|Toggle archived status|",
        "A|Show/hide archived repos|",
        "d|Delete local copy|red",
        "D|Delete remote repo|red",
        "z|Reorganize to ghq path|",
        "i|Init git (nogit) / Ignore repo|",
        "I|Show ignored repos|",
        "",
        "HEADER|Type Icons",
        "● src|Your original repository|green",
        "◌ clone|Clone from other owner|cyan",
        "⑂|Fork (shows upstream)|magenta",
        "◌ local|Local only (no remote)|blue",
        "⊂ sub|Subrepo (nested in another)|yellow",
        "○ nogit|Folder without git repo|red",
        "",
        "HEADER|Status Icons",
        "✓|Synced with remote|green",
        "↑|Ahead (unpushed)|magenta",
        "↓|Behind (can pull)|cyan",
        "⇅|Diverged|red",
        "*|Dirty (uncommitted)|yellow",
        "?|No remote configured|blue",
        "",
        "|Press ? or Esc to close|",
    ];
    let r = owned_lines(&lines);
    proof {
        assert(r.deep_view() =~= repos_help());
    }
    r
}

fn gists_help_lines() -> (r: Vec<String>)
    ensures
        r.deep_view() == gists_help(),
{
    let lines: Vec<&'static str> = vec![
        "HEADER|Navigation",
        "↑/↓/j/k|Move up/down|",
        "Tab|Switch to Repos view|cyan",
        "Enter|Show details|",
        "",
        "HEADER|Git Actions",
        "l|Pull (not when dirty)|cyan",
        "h|Push (not when dirty)|magenta",
        "s|Sync (not when dirty)|",
        "r|Refresh all|",
        "",
        "HEADER|Gist Actions",
        "n|Clone gist locally|cyan",
        "d|Delete gist from GitHub|red",
        "",
        "|Press ? or Esc to close|",
    ];
    let r = owned_lines(&lines);
    proof {
        assert(r.deep_view() =~= gists_help());
    }
    r
}

/// The lines of the help popup for a view.
pub fn get_help_content(view_mode: &ViewMode) -> (r: Vec<String>)
    ensures
        r.deep_view() == help_content(*view_mode),
{
    match view_mode {
        ViewMode::Repos => repos_help_lines(),
        ViewMode::Gists => gists_help_lines(),
    }
}

} // verus!
