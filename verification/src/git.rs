//! Results of local version-control operations and the status of a working tree.

use crate::text::{
    chars_of, concat2, lines_of, parse_i64, parse_u32, parsed_i64, parsed_u32, split, split_lines,
    split_on, str_trim, string_of, trim, trimmed, pieces,
};
use vstd::prelude::*;
use vstd::string::StringSliceAdditionalSpecFns;

verus! {

/// Outcome of a git operation, with the diagnostic text it printed on failure.
#[derive(Debug)]
pub struct GitOpResult {
    pub success: bool,
    pub stderr: String,
}

impl GitOpResult {
    /// A successful outcome, with no diagnostic text.
    pub fn ok() -> (r: Self)
        ensures
            r.success,
            r.stderr@ == Seq::<char>::empty(),
    {
        Self { success: true, stderr: String::new() }
    }

    /// A failed outcome carrying `stderr`.
    pub fn err(stderr: String) -> (r: Self)
        ensures
            !r.success,
            r.stderr == stderr,
    {
        Self { success: false, stderr }
    }
}

impl Clone for GitOpResult {
    fn clone(&self) -> (r: Self)
        ensures
            r == *self,
    {
        Self { success: self.success, stderr: self.stderr.clone() }
    }
}

/// Snapshot of a working tree: branch, distance to the upstream and pending changes.
#[derive(Debug)]
pub struct RepoStatus {
    pub branch: String,
    pub ahead: u32,
    pub behind: u32,
    pub dirty: bool,
    pub untracked: u32,
    pub staged: u32,
    pub has_remote: bool,
}

/// The mathematical content of a [`RepoStatus`].
pub struct RepoStatusModel {
    pub branch: Seq<char>,
    pub ahead: u32,
    pub behind: u32,
    pub dirty: bool,
    pub untracked: u32,
    pub staged: u32,
    pub has_remote: bool,
}

impl RepoStatusModel {
    /// Modified, staged or untracked files are present.
    pub open spec fn is_dirty(self) -> bool {
        self.dirty || self.staged > 0 || self.untracked > 0
    }
}

impl DeepView for RepoStatus {
    type V = RepoStatusModel;

    open spec fn deep_view(&self) -> RepoStatusModel {
        RepoStatusModel {
            branch: self.branch@,
            ahead: self.ahead,
            behind: self.behind,
            dirty: self.dirty,
            untracked: self.untracked,
            staged: self.staged,
            has_remote: self.has_remote,
        }
    }
}

impl View for RepoStatus {
    type V = RepoStatusModel;

    open spec fn view(&self) -> RepoStatusModel {
        self.deep_view()
    }
}

impl Clone for RepoStatus {
    fn clone(&self) -> (r: Self)
        ensures
            r == *self,
    {
        Self {
            branch: self.branch.clone(),
            ahead: self.ahead,
            behind: self.behind,
            dirty: self.dirty,
            untracked: self.untracked,
            staged: self.staged,
            has_remote: self.has_remote,
        }
    }
}

impl Default for RepoStatus {
    /// The status of a folder about which nothing is known: empty branch
    /// name, all counts zero, no flag set.
    fn default() -> (r: Self)
        ensures
            r@ == (RepoStatusModel {
                branch: Seq::<char>::empty(),
                ahead: 0,
                behind: 0,
                dirty: false,
                untracked: 0,
                staged: 0,
                has_remote: false,
            }),
    {
        Self {
            branch: String::new(),
            ahead: 0,
            behind: 0,
            dirty: false,
            untracked: 0,
            staged: 0,
            has_remote: false,
        }
    }
}

impl RepoStatus {
    /// Whether the working tree holds modified, staged or untracked files.
    pub fn is_dirty(&self) -> (r: bool)
        ensures
            r == self@.is_dirty(),
    {
        self.dirty || self.staged > 0 || self.untracked > 0
    }
}


/// What became of running a command: whether it could be started, whether
/// it succeeded, and what it wrote to its error stream; for a command
/// that could not be started, why not.
#[derive(Debug)]
pub struct CommandOutcome {
    pub launched: bool,
    pub success: bool,
    pub text: String,
}

impl CommandOutcome {
    /// The command ran and succeeded.
    pub open spec fn succeeded(&self) -> bool {
        self.launched && self.success
    }

    /// Whether the command ran and succeeded.
    pub fn is_success(&self) -> (r: bool)
        ensures
            r == self.succeeded(),
    {
        self.launched && self.success
    }
}

impl GitOpResult {
    /// The result of an operation that consists of one command: success
    /// if the command succeeded, else a failure with its text.
    pub fn from_outcome(outcome: CommandOutcome) -> (r: Self)
        ensures
            r.success == outcome.succeeded(),
            r.stderr@ == if outcome.succeeded() {
                Seq::<char>::empty()
            } else {
                outcome.text@
            },
    {
        if outcome.launched && outcome.success {
            GitOpResult::ok()
        } else {
            GitOpResult::err(outcome.text)
        }
    }

    /// A failure whose text says in which step it happened.
    pub fn failed_in(step: &str, text: &str) -> (r: Self)
        ensures
            !r.success,
            r.stderr@ == step@ + text@,
    {
        GitOpResult::err(concat2(step, text))
    }
}

/// The name of the current branch as git prints it, `HEAD` where it
/// prints none.
pub open spec fn branch_of(raw: Seq<char>) -> Seq<char> {
    if trimmed(raw).len() == 0 {
        "HEAD"@
    } else {
        trimmed(raw)
    }
}

/// Reads the name of the current branch from the output of git.
pub fn branch_name(raw: &str) -> (r: String)
    ensures
        r@ == branch_of(raw@),
{
    let branch = str_trim(raw);
    if branch.as_str().unicode_len() == 0 {
        "HEAD".to_owned()
    } else {
        branch
    }
}

/// Whether the list of remotes that git prints names a remote.
pub fn has_any_remote(success: bool, stdout: &str) -> (r: bool)
    ensures
        r == (success && trimmed(stdout@).len() > 0),
{
    success && str_trim(stdout).as_str().unicode_len() > 0
}

/// Against what the distance of the current branch is measured.
#[derive(Debug)]
pub enum AheadBehindProbe {
    /// Against the configured upstream.
    Upstream,
    /// Against the branch of the same name on `origin`, if that exists.
    Origin { branch: String },
    /// Not at all.
    Skip,
}

/// The mathematical content of an [`AheadBehindProbe`].
pub enum AheadBehindProbeModel {
    Upstream,
    Origin { branch: Seq<char> },
    Skip,
}

impl DeepView for AheadBehindProbe {
    type V = AheadBehindProbeModel;

    open spec fn deep_view(&self) -> AheadBehindProbeModel {
        match self {
            AheadBehindProbe::Upstream => AheadBehindProbeModel::Upstream,
            AheadBehindProbe::Origin { branch } => AheadBehindProbeModel::Origin {
                branch: branch@,
            },
            AheadBehindProbe::Skip => AheadBehindProbeModel::Skip,
        }
    }
}

impl View for AheadBehindProbe {
    type V = AheadBehindProbeModel;

    open spec fn view(&self) -> AheadBehindProbeModel {
        self.deep_view()
    }
}

/// Against what to measure: the upstream if one is configured, else the
/// branch of the same name on `origin` if there is a remote and a current
/// branch.
pub open spec fn probe_for(
    has_upstream: bool,
    has_remote: bool,
    branch_raw: Seq<char>,
) -> AheadBehindProbeModel {
    if has_upstream {
        AheadBehindProbeModel::Upstream
    } else if has_remote && trimmed(branch_raw).len() > 0 {
        AheadBehindProbeModel::Origin { branch: trimmed(branch_raw) }
    } else {
        AheadBehindProbeModel::Skip
    }
}

/// Decides against what to measure the distance of the current branch.
pub fn ahead_behind_probe(has_upstream: bool, has_remote: bool, branch_raw: &str) -> (r:
    AheadBehindProbe)
    ensures
        r@ == probe_for(has_upstream, has_remote, branch_raw@),
{
    if has_upstream {
        AheadBehindProbe::Upstream
    } else {
        let branch = str_trim(branch_raw);
        if has_remote && branch.as_str().unicode_len() > 0 {
            AheadBehindProbe::Origin { branch }
        } else {
            AheadBehindProbe::Skip
        }
    }
}

/// The number that a count denotes, 0 where it is no number.
pub open spec fn count_or_zero(s: Seq<char>) -> u32 {
    match parsed_u32(s) {
        Some(n) => n,
        None => 0,
    }
}

/// The commits ahead and behind in the output of `rev-list --left-right
/// --count`: two numbers with a tab between them. Anything else counts as
/// no distance.
pub open spec fn ahead_behind_of(counts: Seq<char>) -> (u32, u32) {
    let parts = split_on(trimmed(counts), '\t');
    if parts.len() == 2 {
        (count_or_zero(parts[0]), count_or_zero(parts[1]))
    } else {
        (0, 0)
    }
}

/// Reads the commits ahead and behind.
pub fn parse_ahead_behind(counts: &str) -> (r: (u32, u32))
    ensures
        r == ahead_behind_of(counts@),
{
    let chars = chars_of(counts);
    let body = trim(&chars);
    let parts = split(&body, '\t');
    if parts.len() == 2 {
        proof {
            assert(pieces(parts@)[0] == parts@[0]@);
            assert(pieces(parts@)[1] == parts@[1]@);
        }
        let a = string_of(&parts[0]);
        let b = string_of(&parts[1]);
        let ahead = match parse_u32(a.as_str()) {
            Some(n) => n,
            None => 0,
        };
        let behind = match parse_u32(b.as_str()) {
            Some(n) => n,
            None => 0,
        };
        (ahead, behind)
    } else {
        (0, 0)
    }
}

/// The pending changes of a working tree.
pub struct Changes {
    pub untracked: nat,
    pub staged: nat,
    pub dirty: bool,
}

/// The changes after one more line of `status --porcelain`. A line of
/// fewer than two bytes says nothing. A line that starts with `?` is an
/// untracked file. Any other line is a staged file unless it starts with
/// a blank, and a modified file unless its second character is a blank.
pub open spec fn with_line(c: Changes, line: Seq<char>) -> Changes {
    if line.len() >= 1 && vstd::utf8::encode_utf8(line).len() >= 2 {
        if line[0] == '?' {
            Changes { untracked: c.untracked + 1, ..c }
        } else {
            Changes {
                staged: if line[0] != ' ' {
                    c.staged + 1
                } else {
                    c.staged
                },
                dirty: c.dirty || (line.len() >= 2 && line[1] != ' '),
                ..c
            }
        }
    } else {
        c
    }
}

/// The changes that the first `n` lines report.
pub open spec fn changes_in(lines: Seq<Seq<char>>, n: int) -> Changes
    decreases n,
{
    if n <= 0 {
        Changes { untracked: 0, staged: 0, dirty: false }
    } else {
        with_line(changes_in(lines, n - 1), lines[n - 1])
    }
}

/// A count as far as 32 bits hold it.
pub open spec fn capped(n: nat) -> u32 {
    if n > u32::MAX {
        u32::MAX
    } else {
        n as u32
    }
}

/// Counts the pending changes in the output of `status --porcelain`:
/// untracked files, staged files, and whether anything is modified.
pub fn count_changes(porcelain: &str) -> (r: (u32, u32, bool))
    ensures
        r.0 == capped(changes_in(lines_of(porcelain@), lines_of(porcelain@).len() as int).untracked),
        r.1 == capped(changes_in(lines_of(porcelain@), lines_of(porcelain@).len() as int).staged),
        r.2 == changes_in(lines_of(porcelain@), lines_of(porcelain@).len() as int).dirty,
{
    let lines = split_lines(porcelain);
    let ghost all = lines.deep_view();
    let mut untracked: u32 = 0;
    let mut staged: u32 = 0;
    let mut dirty = false;
    let mut i: usize = 0;
    while i < lines.len()
        invariant
            i <= lines.len(),
            all == lines.deep_view(),
            untracked == capped(changes_in(all, i as int).untracked),
            staged == capped(changes_in(all, i as int).staged),
            dirty == changes_in(all, i as int).dirty,
        decreases lines.len() - i,
    {
        let line = lines[i].as_str();
        proof {
            assert(all[i as int] == lines@[i as int]@);
        }
        let ghost before = changes_in(all, i as int);
        proof {
            assert(line.spec_bytes() == vstd::utf8::encode_utf8(all[i as int]));
            assert(changes_in(all, i + 1) == with_line(before, all[i as int]));
        }
        if line.as_bytes().len() >= 2 {
            let chars = chars_of(line);
            if chars.len() >= 1 {
                if chars[0] == '?' {
                    untracked = untracked.saturating_add(1);
                } else {
                    if chars[0] != ' ' {
                        staged = staged.saturating_add(1);
                    }
                    if chars.len() >= 2 && chars[1] != ' ' {
                        dirty = true;
                    }
                }
            }
        }
        i += 1;
    }
    (untracked, staged, dirty)
}

/// The status of a working tree, from what git printed: the current
/// branch, whether a remote is configured, the distance to the upstream if
/// it was measured, and the pending changes if they were listed.
pub open spec fn status_of(
    branch_raw: Seq<char>,
    has_remote: bool,
    counts: Option<Seq<char>>,
    porcelain: Option<Seq<char>>,
) -> RepoStatusModel {
    let distance = match counts {
        Some(c) => ahead_behind_of(c),
        None => (0u32, 0u32),
    };
    let lines = match porcelain {
        Some(p) => lines_of(p),
        None => Seq::empty(),
    };
    let changes = changes_in(lines, lines.len() as int);
    RepoStatusModel {
        branch: branch_of(branch_raw),
        ahead: distance.0,
        behind: distance.1,
        dirty: changes.dirty,
        untracked: capped(changes.untracked),
        staged: capped(changes.staged),
        has_remote,
    }
}

/// Assembles the status of a working tree from the output of git.
pub fn repo_status(
    branch_raw: &str,
    has_remote: bool,
    counts: Option<&str>,
    porcelain: Option<&str>,
) -> (r: RepoStatus)
    ensures
        r@ == status_of(
            branch_raw@,
            has_remote,
            match counts {
                Some(c) => Some(c@),
                None => None,
            },
            match porcelain {
                Some(p) => Some(p@),
                None => None,
            },
        ),
{
    let (ahead, behind) = match counts {
        Some(c) => parse_ahead_behind(c),
        None => (0, 0),
    };
    let (untracked, staged, dirty) = match porcelain {
        Some(p) => count_changes(p),
        None => (0, 0, false),
    };
    RepoStatus { branch: branch_name(branch_raw), ahead, behind, dirty, untracked, staged, has_remote }
}

/// Reads the URL of the remote `origin` from the output of git.
pub fn parse_remote_url(success: bool, stdout: &str) -> (r: Option<String>)
    ensures
        r.deep_view() == if success {
            Some(trimmed(stdout@))
        } else {
            None
        },
{
    if success {
        Some(str_trim(stdout))
    } else {
        None
    }
}

/// Reads the time of the last commit, in seconds since the epoch, from
/// the output of git.
pub fn parse_commit_time(success: bool, stdout: &str) -> (r: Option<i64>)
    ensures
        r == if success {
            parsed_i64(trimmed(stdout@))
        } else {
            None
        },
{
    if success {
        let body = str_trim(stdout);
        parse_i64(body.as_str())
    } else {
        None
    }
}

/// The steps of a quicksync: fetch, rebase, stage everything, commit what
/// is staged, push. A rebase that fails is aborted before the failure is
/// reported.
#[derive(Debug)]
pub enum QuicksyncStep {
    Fetch,
    Rebase,
    /// Abort the rebase, then report `failure`.
    AbortRebase { failure: String },
    Add,
    /// Find out whether anything is staged.
    CheckStaged,
    Commit,
    Push,
    /// Nothing is left to do.
    Done { result: GitOpResult },
}

/// The mathematical content of a [`QuicksyncStep`].
pub enum QuicksyncStepModel {
    Fetch,
    Rebase,
    AbortRebase { failure: Seq<char> },
    Add,
    CheckStaged,
    Commit,
    Push,
    Done { success: bool, stderr: Seq<char> },
}

impl DeepView for QuicksyncStep {
    type V = QuicksyncStepModel;

    open spec fn deep_view(&self) -> QuicksyncStepModel {
        match self {
            QuicksyncStep::Fetch => QuicksyncStepModel::Fetch,
            QuicksyncStep::Rebase => QuicksyncStepModel::Rebase,
            QuicksyncStep::AbortRebase { failure } => QuicksyncStepModel::AbortRebase {
                failure: failure@,
            },
            QuicksyncStep::Add => QuicksyncStepModel::Add,
            QuicksyncStep::CheckStaged => QuicksyncStepModel::CheckStaged,
            QuicksyncStep::Commit => QuicksyncStepModel::Commit,
            QuicksyncStep::Push => QuicksyncStepModel::Push,
            QuicksyncStep::Done { result } => QuicksyncStepModel::Done {
                success: result.success,
                stderr: result.stderr@,
            },
        }
    }
}

impl View for QuicksyncStep {
    type V = QuicksyncStepModel;

    open spec fn view(&self) -> QuicksyncStepModel {
        self.deep_view()
    }
}

/// A quicksync that has failed with the text `step` followed by `text`.
pub open spec fn quicksync_failed(step: Seq<char>, text: Seq<char>) -> QuicksyncStepModel {
    QuicksyncStepModel::Done { success: false, stderr: step + text }
}

/// The step that follows `step` once its command has ended with the
/// outcome given by `launched`, `success` and `text`.
pub open spec fn quicksync_after(
    step: QuicksyncStepModel,
    launched: bool,
    success: bool,
    text: Seq<char>,
) -> QuicksyncStepModel {
    let fine = launched && success;
    match step {
        QuicksyncStepModel::Fetch => if fine {
            QuicksyncStepModel::Rebase
        } else {
            quicksync_failed("Fetch failed: "@, text)
        },
        QuicksyncStepModel::Rebase => if fine {
            QuicksyncStepModel::Add
        } else if launched {
            QuicksyncStepModel::AbortRebase { failure: "Rebase failed: "@ + text }
        } else {
            quicksync_failed("Rebase failed: "@, text)
        },
        QuicksyncStepModel::AbortRebase { failure } => QuicksyncStepModel::Done {
            success: false,
            stderr: failure,
        },
        QuicksyncStepModel::Add => if launched {
            QuicksyncStepModel::CheckStaged
        } else {
            quicksync_failed("Add failed: "@, text)
        },
        QuicksyncStepModel::CheckStaged => if launched && !success {
            QuicksyncStepModel::Commit
        } else {
            QuicksyncStepModel::Push
        },
        QuicksyncStepModel::Commit => if fine {
            QuicksyncStepModel::Push
        } else {
            quicksync_failed("Commit failed: "@, text)
        },
        QuicksyncStepModel::Push => if fine {
            QuicksyncStepModel::Done { success: true, stderr: Seq::empty() }
        } else {
            quicksync_failed("Push failed: "@, text)
        },
        QuicksyncStepModel::Done { success, stderr } => step,
    }
}

/// How many commands a quicksync may still run from `step` on.
pub open spec fn quicksync_steps_left(step: QuicksyncStepModel) -> nat {
    match step {
        QuicksyncStepModel::Fetch => 6,
        QuicksyncStepModel::Rebase => 5,
        QuicksyncStepModel::AbortRebase { failure } => 1,
        QuicksyncStepModel::Add => 4,
        QuicksyncStepModel::CheckStaged => 3,
        QuicksyncStepModel::Commit => 2,
        QuicksyncStepModel::Push => 1,
        QuicksyncStepModel::Done { success, stderr } => 0,
    }
}

/// A quicksync comes to an end: every command brings it closer.
pub proof fn quicksync_ends(step: QuicksyncStepModel, launched: bool, success: bool, text: Seq<char>)
    requires
        !(step is Done),
    ensures
        quicksync_steps_left(quicksync_after(step, launched, success, text))
            < quicksync_steps_left(step),
{
}

/// Decides how a quicksync goes on after the command of `step` has ended.
pub fn quicksync_next(step: QuicksyncStep, outcome: CommandOutcome) -> (next: QuicksyncStep)
    ensures
        next@ == quicksync_after(step@, outcome.launched, outcome.success, outcome.text@),
{
    let fine = outcome.launched && outcome.success;
    match step {
        QuicksyncStep::Fetch => if fine {
            QuicksyncStep::Rebase
        } else {
            QuicksyncStep::Done {
                result: GitOpResult::failed_in("Fetch failed: ", outcome.text.as_str()),
            }
        },
        QuicksyncStep::Rebase => if fine {
            QuicksyncStep::Add
        } else if outcome.launched {
            QuicksyncStep::AbortRebase {
                failure: concat2("Rebase failed: ", outcome.text.as_str()),
            }
        } else {
            QuicksyncStep::Done {
                result: GitOpResult::failed_in("Rebase failed: ", outcome.text.as_str()),
            }
        },
        QuicksyncStep::AbortRebase { failure } => QuicksyncStep::Done {
            result: GitOpResult::err(failure),
        },
        QuicksyncStep::Add => if outcome.launched {
            QuicksyncStep::CheckStaged
        } else {
            QuicksyncStep::Done {
                result: GitOpResult::failed_in("Add failed: ", outcome.text.as_str()),
            }
        },
        QuicksyncStep::CheckStaged => if outcome.launched && !outcome.success {
            QuicksyncStep::Commit
        } else {
            QuicksyncStep::Push
        },
        QuicksyncStep::Commit => if fine {
            QuicksyncStep::Push
        } else {
            QuicksyncStep::Done {
                result: GitOpResult::failed_in("Commit failed: ", outcome.text.as_str()),
            }
        },
        QuicksyncStep::Push => if fine {
            QuicksyncStep::Done { result: GitOpResult::ok() }
        } else {
            QuicksyncStep::Done {
                result: GitOpResult::failed_in("Push failed: ", outcome.text.as_str()),
            }
        },
        QuicksyncStep::Done { result } => QuicksyncStep::Done { result },
    }
}

} // verus!
