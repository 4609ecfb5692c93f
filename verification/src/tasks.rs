//! Background operations: what is asked of the runner, and the result that
//! each operation reports when it completes.
//!
//! One user action starts at most one operation. The operation reports one
//! [`TaskResult`], which tells the state machine what to show and whether
//! the data of the hosting service has to be fetched again.

use crate::git::GitOpResult;
use crate::github::{CreateRepoModel, CreateRepoOptions, GhOpResult};
use crate::repo::{GitHubCache, GitHubCacheModel};
use crate::text::{chars_of, concat2, concat3, push_all, string_of, subvec};
use vstd::prelude::*;

verus! {

/// An entry of the error log.
#[derive(Debug)]
pub struct ErrorLogEntry {
    /// Time of day at which the failure was logged, as `HH:MM:SS`.
    pub timestamp: String,
    pub operation: String,
    pub error: String,
}

/// The mathematical content of an [`ErrorLogEntry`].
pub struct ErrorLogEntryModel {
    pub timestamp: Seq<char>,
    pub operation: Seq<char>,
    pub error: Seq<char>,
}

impl DeepView for ErrorLogEntry {
    type V = ErrorLogEntryModel;

    open spec fn deep_view(&self) -> ErrorLogEntryModel {
        ErrorLogEntryModel {
            timestamp: self.timestamp@,
            operation: self.operation@,
            error: self.error@,
        }
    }
}

impl View for ErrorLogEntry {
    type V = ErrorLogEntryModel;

    open spec fn view(&self) -> ErrorLogEntryModel {
        self.deep_view()
    }
}

/// Reads the local time of day as `HH:MM:SS`. Wraps `chrono::Local::now`
/// and `DateTime::format`; the answer depends on the clock and the time
/// zone, so nothing is claimed of it.
#[verifier::external_body]
pub(crate) fn local_time_of_day() -> String {
    chrono::Local::now().format("%H:%M:%S").to_string()
}

impl ErrorLogEntry {
    /// An entry with the given time of day.
    pub fn at(timestamp: &str, operation: &str, error: &str) -> (r: Self)
        ensures
            r@ == (ErrorLogEntryModel {
                timestamp: timestamp@,
                operation: operation@,
                error: error@,
            }),
    {
        Self {
            timestamp: timestamp.to_owned(),
            operation: operation.to_owned(),
            error: error.to_owned(),
        }
    }

    /// An entry stamped with the current local time of day.
    pub fn new(operation: &str, error: &str) -> (r: Self)
        ensures
            r@.operation == operation@,
            r@.error == error@,
    {
        let now = local_time_of_day();
        ErrorLogEntry::at(now.as_str(), operation, error)
    }
}

impl Clone for ErrorLogEntry {
    fn clone(&self) -> (r: Self)
        ensures
            r == *self,
    {
        Self {
            timestamp: self.timestamp.clone(),
            operation: self.operation.clone(),
            error: self.error.clone(),
        }
    }
}

/// What a background operation reports when it completes.
#[derive(Debug)]
pub struct TaskResult {
    pub success: bool,
    /// The message for the status line.
    pub message: String,
    /// The diagnostic text for the error log.
    pub stderr: Option<String>,
    /// The label of the operation in the error log.
    pub operation: String,
    /// Whether the data of the hosting service has changed, so that the
    /// next refresh has to fetch it again; otherwise a local refresh will do.
    pub invalidates_github_cache: bool,
}

/// The mathematical content of a [`TaskResult`].
pub struct TaskResultModel {
    pub success: bool,
    pub message: Seq<char>,
    pub stderr: Option<Seq<char>>,
    pub operation: Seq<char>,
    pub invalidates_github_cache: bool,
}

impl DeepView for TaskResult {
    type V = TaskResultModel;

    open spec fn deep_view(&self) -> TaskResultModel {
        TaskResultModel {
            success: self.success,
            message: self.message@,
            stderr: self.stderr.deep_view(),
            operation: self.operation@,
            invalidates_github_cache: self.invalidates_github_cache,
        }
    }
}

impl View for TaskResult {
    type V = TaskResultModel;

    open spec fn view(&self) -> TaskResultModel {
        self.deep_view()
    }
}

/// The kinds of background operation that report in the common form.
#[derive(Clone, Copy, Debug, PartialEq, Eq, Structural)]
pub enum TaskKind {
    Pull,
    Push,
    Sync,
    Quicksync,
    Clone,
    Init,
    DeleteLocal,
    DeleteRemote,
    Reorganize,
    Archive,
    Unarchive,
    CloneGist,
    DeleteGist,
    PullGist,
    PushGist,
    SyncGist,
    CreateRepo,
}

impl TaskKind {
    /// What the status line shows in front of the name while the operation runs.
    pub open spec fn starting(self) -> Seq<char> {
        match self {
            TaskKind::Pull => "Pulling "@,
            TaskKind::Push => "Pushing "@,
            TaskKind::Sync => "Syncing "@,
            TaskKind::Quicksync => "Quicksyncing "@,
            TaskKind::Clone => "Cloning "@,
            TaskKind::Init => "Initializing git repo in "@,
            TaskKind::DeleteLocal => "Deleting "@,
            TaskKind::DeleteRemote => "Deleting remote "@,
            TaskKind::Reorganize => "Reorganizing "@,
            TaskKind::Archive => "Archiving "@,
            TaskKind::Unarchive => "Unarchiving "@,
            TaskKind::CloneGist => "Cloning gist "@,
            TaskKind::DeleteGist => "Deleting gist "@,
            TaskKind::PullGist => "Pulling gist "@,
            TaskKind::PushGist => "Pushing gist "@,
            TaskKind::SyncGist => "Syncing gist "@,
            TaskKind::CreateRepo => "Creating GitHub repo "@,
        }
    }

    /// What stands in front of the name in the label of the operation.
    pub open spec fn label(self) -> Seq<char> {
        match self {
            TaskKind::Pull => "pull "@,
            TaskKind::Push => "push "@,
            TaskKind::Sync => "sync "@,
            TaskKind::Quicksync => "quicksync "@,
            TaskKind::Clone => "clone "@,
            TaskKind::Init => "init "@,
            TaskKind::DeleteLocal => "delete local "@,
            TaskKind::DeleteRemote => "delete remote "@,
            TaskKind::Reorganize => "reorganize "@,
            TaskKind::Archive => "archiving "@,
            TaskKind::Unarchive => "unarchiving "@,
            TaskKind::CloneGist => "clone gist "@,
            TaskKind::DeleteGist => "delete gist "@,
            TaskKind::PullGist => "pull gist "@,
            TaskKind::PushGist => "push gist "@,
            TaskKind::SyncGist => "sync gist "@,
            TaskKind::CreateRepo => "create repo "@,
        }
    }

    /// What the message shows in front of the name after success.
    pub open spec fn done(self) -> Seq<char> {
        match self {
            TaskKind::Pull => "Pulled "@,
            TaskKind::Push => "Pushed "@,
            TaskKind::Sync => "Synced "@,
            TaskKind::Quicksync => "Quicksynced "@,
            TaskKind::Clone => "Cloned "@,
            TaskKind::Init => "Initialized git repo in "@,
            TaskKind::DeleteLocal => "Deleted "@,
            TaskKind::DeleteRemote => "Deleted remote "@,
            TaskKind::Reorganize => "Moved "@,
            TaskKind::Archive => "Archived "@,
            TaskKind::Unarchive => "Unarchived "@,
            TaskKind::CloneGist => "Cloned gist "@,
            TaskKind::DeleteGist => "Deleted gist "@,
            TaskKind::PullGist => "Pulled gist "@,
            TaskKind::PushGist => "Pushed gist "@,
            TaskKind::SyncGist => "Synced gist "@,
            TaskKind::CreateRepo => "Created "@,
        }
    }

    /// What the message shows behind the name after success.
    pub open spec fn done_end(self) -> Seq<char> {
        match self {
            TaskKind::Reorganize => " to ghq path"@,
            _ => ""@,
        }
    }

    /// Whether the message after a failure names the repository.
    pub open spec fn failure_names(self) -> bool {
        self == TaskKind::DeleteLocal || self == TaskKind::DeleteRemote || self
            == TaskKind::DeleteGist
    }

    /// What the message shows after a failure, in front of the name where
    /// it names one.
    pub open spec fn failed(self) -> Seq<char> {
        match self {
            TaskKind::Pull => "Pull failed (E: view errors)"@,
            TaskKind::Push => "Push failed (E: view errors)"@,
            TaskKind::Sync => "Sync failed (E: view errors)"@,
            TaskKind::Quicksync => "Quicksync failed (E: view errors)"@,
            TaskKind::Clone => "Clone failed (E: view errors)"@,
            TaskKind::Init => "Git init failed (E: view errors)"@,
            TaskKind::DeleteLocal => "Failed to delete "@,
            TaskKind::DeleteRemote => "Failed to delete "@,
            TaskKind::Reorganize => "Move failed (E: view errors)"@,
            TaskKind::Archive => "Archiving failed (E: view errors)"@,
            TaskKind::Unarchive => "Unarchiving failed (E: view errors)"@,
            TaskKind::CloneGist => "Clone gist failed (E: view errors)"@,
            TaskKind::DeleteGist => "Failed to delete gist "@,
            TaskKind::PullGist => "Pull gist failed (E: view errors)"@,
            TaskKind::PushGist => "Push gist failed (E: view errors)"@,
            TaskKind::SyncGist => "Sync gist failed (E: view errors)"@,
            TaskKind::CreateRepo => "Create repo failed (E: view errors)"@,
        }
    }

    /// What the message shows behind the name after a failure.
    pub open spec fn failed_end(self) -> Seq<char> {
        match self {
            TaskKind::DeleteRemote => " (E: view errors)"@,
            TaskKind::DeleteGist => " (E: view errors)"@,
            _ => ""@,
        }
    }

    /// Whether the operation changes the data of the hosting service.
    pub open spec fn changes_remote(self) -> bool {
        match self {
            TaskKind::DeleteRemote => true,
            TaskKind::Archive => true,
            TaskKind::Unarchive => true,
            TaskKind::DeleteGist => true,
            TaskKind::CreateRepo => true,
            _ => false,
        }
    }

    /// Whether the diagnostic text is reported after success as well.
    pub open spec fn always_reports_text(self) -> bool {
        self == TaskKind::DeleteRemote || self == TaskKind::DeleteGist
    }

    /// The message of the status line while the operation runs on `name`.
    pub open spec fn start_message(self, name: Seq<char>) -> Seq<char> {
        self.starting() + name + "..."@
    }

    /// The label of the operation on `name` in the error log.
    pub open spec fn operation(self, name: Seq<char>) -> Seq<char> {
        self.label() + name
    }

    /// The message after the operation on `name` has succeeded.
    pub open spec fn done_message(self, name: Seq<char>) -> Seq<char> {
        self.done() + name + self.done_end()
    }

    /// The message after the operation on `name` has failed.
    pub open spec fn failed_message(self, name: Seq<char>) -> Seq<char> {
        if self.failure_names() {
            self.failed() + name + self.failed_end()
        } else {
            self.failed()
        }
    }

    /// What the operation on `name` reports for a given outcome.
    pub open spec fn report(self, name: Seq<char>, success: bool, stderr: Seq<char>) -> TaskResultModel {
        TaskResultModel {
            success,
            message: if success {
                self.done_message(name)
            } else {
                self.failed_message(name)
            },
            stderr: if success && !self.always_reports_text() {
                None
            } else {
                Some(stderr)
            },
            operation: self.operation(name),
            invalidates_github_cache: self.changes_remote(),
        }
    }

    fn starting_text(self) -> (r: &'static str)
        ensures
            r@ == self.starting(),
    {
        match self {
            TaskKind::Pull => "Pulling ",
            TaskKind::Push => "Pushing ",
            TaskKind::Sync => "Syncing ",
            TaskKind::Quicksync => "Quicksyncing ",
            TaskKind::Clone => "Cloning ",
            TaskKind::Init => "Initializing git repo in ",
            TaskKind::DeleteLocal => "Deleting ",
            TaskKind::DeleteRemote => "Deleting remote ",
            TaskKind::Reorganize => "Reorganizing ",
            TaskKind::Archive => "Archiving ",
            TaskKind::Unarchive => "Unarchiving ",
            TaskKind::CloneGist => "Cloning gist ",
            TaskKind::DeleteGist => "Deleting gist ",
            TaskKind::PullGist => "Pulling gist ",
            TaskKind::PushGist => "Pushing gist ",
            TaskKind::SyncGist => "Syncing gist ",
            TaskKind::CreateRepo => "Creating GitHub repo ",
        }
    }

    fn label_text(self) -> (r: &'static str)
        ensures
            r@ == self.label(),
    {
        match self {
            TaskKind::Pull => "pull ",
            TaskKind::Push => "push ",
            TaskKind::Sync => "sync ",
            TaskKind::Quicksync => "quicksync ",
            TaskKind::Clone => "clone ",
            TaskKind::Init => "init ",
            TaskKind::DeleteLocal => "delete local ",
            TaskKind::DeleteRemote => "delete remote ",
            TaskKind::Reorganize => "reorganize ",
            TaskKind::Archive => "archiving ",
            TaskKind::Unarchive => "unarchiving ",
            TaskKind::CloneGist => "clone gist ",
            TaskKind::DeleteGist => "delete gist ",
            TaskKind::PullGist => "pull gist ",
            TaskKind::PushGist => "push gist ",
            TaskKind::SyncGist => "sync gist ",
            TaskKind::CreateRepo => "create repo ",
        }
    }

    fn done_text(self) -> (r: &'static str)
        ensures
            r@ == self.done(),
    {
        match self {
            TaskKind::Pull => "Pulled ",
            TaskKind::Push => "Pushed ",
            TaskKind::Sync => "Synced ",
            TaskKind::Quicksync => "Quicksynced ",
            TaskKind::Clone => "Cloned ",
            TaskKind::Init => "Initialized git repo in ",
            TaskKind::DeleteLocal => "Deleted ",
            TaskKind::DeleteRemote => "Deleted remote ",
            TaskKind::Reorganize => "Moved ",
            TaskKind::Archive => "Archived ",
            TaskKind::Unarchive => "Unarchived ",
            TaskKind::CloneGist => "Cloned gist ",
            TaskKind::DeleteGist => "Deleted gist ",
            TaskKind::PullGist => "Pulled gist ",
            TaskKind::PushGist => "Pushed gist ",
            TaskKind::SyncGist => "Synced gist ",
            TaskKind::CreateRepo => "Created ",
        }
    }

    fn done_end_text(self) -> (r: &'static str)
        ensures
            r@ == self.done_end(),
    {
        match self {
            TaskKind::Reorganize => " to ghq path",
            _ => "",
        }
    }

    fn failed_text(self) -> (r: &'static str)
        ensures
            r@ == self.failed(),
    {
        match self {
            TaskKind::Pull => "Pull failed (E: view errors)",
            TaskKind::Push => "Push failed (E: view errors)",
            TaskKind::Sync => "Sync failed (E: view errors)",
            TaskKind::Quicksync => "Quicksync failed (E: view errors)",
            TaskKind::Clone => "Clone failed (E: view errors)",
            TaskKind::Init => "Git init failed (E: view errors)",
            TaskKind::DeleteLocal => "Failed to delete ",
            TaskKind::DeleteRemote => "Failed to delete ",
            TaskKind::Reorganize => "Move failed (E: view errors)",
            TaskKind::Archive => "Archiving failed (E: view errors)",
            TaskKind::Unarchive => "Unarchiving failed (E: view errors)",
            TaskKind::CloneGist => "Clone gist failed (E: view errors)",
            TaskKind::DeleteGist => "Failed to delete gist ",
            TaskKind::PullGist => "Pull gist failed (E: view errors)",
            TaskKind::PushGist => "Push gist failed (E: view errors)",
            TaskKind::SyncGist => "Sync gist failed (E: view errors)",
            TaskKind::CreateRepo => "Create repo failed (E: view errors)",
        }
    }

    fn failed_end_text(self) -> (r: &'static str)
        ensures
            r@ == self.failed_end(),
    {
        match self {
            TaskKind::DeleteRemote => " (E: view errors)",
            TaskKind::DeleteGist => " (E: view errors)",
            _ => "",
        }
    }

    /// Whether the operation changes the data of the hosting service.
    pub fn invalidates_cache(self) -> (r: bool)
        ensures
            r == self.changes_remote(),
    {
        match self {
            TaskKind::DeleteRemote => true,
            TaskKind::Archive => true,
            TaskKind::Unarchive => true,
            TaskKind::DeleteGist => true,
            TaskKind::CreateRepo => true,
            _ => false,
        }
    }

    /// The message of the status line while the operation runs on `name`.
    pub fn status_text(self, name: &str) -> (r: String)
        ensures
            r@ == self.start_message(name@),
    {
        concat3(self.starting_text(), name, "...")
    }

    /// The label of the operation on `name` in the error log.
    pub fn operation_label(self, name: &str) -> (r: String)
        ensures
            r@ == self.operation(name@),
    {
        concat2(self.label_text(), name)
    }

    /// The result that the operation on `name` reports for the outcome
    /// given by `success` and the diagnostic text `stderr`.
    pub fn result(self, name: &str, success: bool, stderr: String) -> (r: TaskResult)
        ensures
            r@ == self.report(name@, success, stderr@),
    {
        let names = self == TaskKind::DeleteLocal || self == TaskKind::DeleteRemote || self
            == TaskKind::DeleteGist;
        let always = self == TaskKind::DeleteRemote || self == TaskKind::DeleteGist;
        let message = if success {
            concat3(self.done_text(), name, self.done_end_text())
        } else if names {
            concat3(self.failed_text(), name, self.failed_end_text())
        } else {
            self.failed_text().to_owned()
        };
        TaskResult {
            success,
            message,
            stderr: if success && !always {
                None
            } else {
                Some(stderr)
            },
            operation: self.operation_label(name),
            invalidates_github_cache: self.invalidates_cache(),
        }
    }

    /// The result of an operation of the version-control client.
    pub fn git_result(self, name: &str, outcome: GitOpResult) -> (r: TaskResult)
        ensures
            r@ == self.report(name@, outcome.success, outcome.stderr@),
    {
        self.result(name, outcome.success, outcome.stderr)
    }

    /// The result of an operation of the hosting service.
    pub fn github_result(self, name: &str, outcome: GhOpResult) -> (r: TaskResult)
        ensures
            r@ == self.report(name@, outcome.success, outcome.stderr@),
    {
        self.result(name, outcome.success, outcome.stderr)
    }

    /// The operation that archives a repository, or takes it out of the
    /// archive.
    pub open spec fn archiving(archive: bool) -> TaskKind {
        if archive {
            TaskKind::Archive
        } else {
            TaskKind::Unarchive
        }
    }

    /// The result of archiving `name`, or of taking it out of the archive.
    pub fn archive_result(name: &str, archive: bool, outcome: GhOpResult) -> (r: TaskResult)
        ensures
            r@ == TaskKind::archiving(archive).report(name@, outcome.success, outcome.stderr@),
    {
        let kind = if archive {
            TaskKind::Archive
        } else {
            TaskKind::Unarchive
        };
        kind.github_result(name, outcome)
    }
}

/// The texts of `parts` that are not empty, joined by line feeds.
pub open spec fn joined_errors(parts: Seq<Seq<char>>) -> Seq<char>
    decreases parts.len(),
{
    if parts.len() == 0 {
        Seq::empty()
    } else if parts.last().len() == 0 {
        joined_errors(parts.drop_last())
    } else if !has_text(parts.drop_last()) {
        parts.last()
    } else {
        joined_errors(parts.drop_last()) + "\n"@ + parts.last()
    }
}

/// Whether one of `parts` is not empty.
pub open spec fn has_text(parts: Seq<Seq<char>>) -> bool {
    exists|i: int| 0 <= i < parts.len() && (#[trigger] parts[i]).len() > 0
}

/// What a sync reports: it succeeds if fetch, pull and push all succeeded;
/// after a failure the diagnostic texts that are not empty are reported, one
/// per line.
pub open spec fn sync_report(
    kind: TaskKind,
    name: Seq<char>,
    fetch: (bool, Seq<char>),
    pull: (bool, Seq<char>),
    push: (bool, Seq<char>),
) -> TaskResultModel {
    let success = fetch.0 && pull.0 && push.0;
    TaskResultModel {
        success,
        message: if success {
            kind.done_message(name)
        } else {
            kind.failed_message(name)
        },
        stderr: if success {
            None
        } else {
            Some(joined_errors(seq![fetch.1, pull.1, push.1]))
        },
        operation: kind.operation(name),
        invalidates_github_cache: false,
    }
}

/// The result of a sync of a repository (`kind` is `Sync`) or of a gist
/// (`SyncGist`), from the outcomes of its three steps.
pub fn sync_result(
    kind: TaskKind,
    name: &str,
    fetch: GitOpResult,
    pull: GitOpResult,
    push: GitOpResult,
) -> (r: TaskResult)
    requires
        kind == TaskKind::Sync || kind == TaskKind::SyncGist,
    ensures
        r@ == sync_report(
            kind,
            name@,
            (fetch.success, fetch.stderr@),
            (pull.success, pull.stderr@),
            (push.success, push.stderr@),
        ),
{
    let success = fetch.success && pull.success && push.success;
    let ghost parts = seq![fetch.stderr@, pull.stderr@, push.stderr@];
    let stderr = if !success {
        let mut out: Vec<char> = Vec::new();
        let mut any = false;
        let a = chars_of(fetch.stderr.as_str());
        let b = chars_of(pull.stderr.as_str());
        let c = chars_of(push.stderr.as_str());
        let ghost one = seq![fetch.stderr@];
        let ghost two = seq![fetch.stderr@, pull.stderr@];
        proof {
            assert(one.drop_last() =~= Seq::<Seq<char>>::empty());
            assert(two.drop_last() =~= one);
            assert(parts.drop_last() =~= two);
            assert(joined_errors(Seq::<Seq<char>>::empty()) =~= Seq::<char>::empty());
            assert(!has_text(Seq::<Seq<char>>::empty()));
            reveal_strlit("\n");
        }
        if a.len() > 0 {
            push_all(&mut out, &a);
            any = true;
            proof {
                assert(one[0].len() > 0);
                assert(Seq::<char>::empty() + a@ =~= a@);
            }
        }
        assert(out@ == joined_errors(one));
        assert(any == has_text(one));
        if b.len() > 0 {
            if any {
                out.push('\n');
            }
            push_all(&mut out, &b);
            any = true;
            proof {
                assert(two[1].len() > 0);
                assert("\n"@ =~= seq!['\n']);
                if has_text(one) {
                    assert(joined_errors(one) + "\n"@ + b@ =~= joined_errors(one).push('\n') + b@);
                } else {
                    assert(joined_errors(one).len() == 0);
                    assert(joined_errors(one) + b@ =~= b@);
                }
            }
        } else {
            proof {
                if has_text(two) {
                    let i = choose|i: int| 0 <= i < two.len() && (#[trigger] two[i]).len() > 0;
                    assert(one[i].len() > 0);
                }
            }
        }
        assert(out@ == joined_errors(two));
        assert(any == has_text(two)) by {
            if has_text(one) {
                assert(two[0].len() > 0);
            }
        }
        if c.len() > 0 {
            if any {
                out.push('\n');
            }
            push_all(&mut out, &c);
            proof {
                assert("\n"@ =~= seq!['\n']);
                if has_text(two) {
                    assert(joined_errors(two) + "\n"@ + c@ =~= joined_errors(two).push('\n') + c@);
                } else {
                    assert(joined_errors(two).len() == 0);
                    assert(joined_errors(two) + c@ =~= c@);
                }
            }
        }
        assert(out@ == joined_errors(parts));
        Some(string_of(&out))
    } else {
        None
    };
    let report = kind.result(name, success, String::new());
    TaskResult {
        success,
        message: report.message,
        stderr,
        operation: report.operation,
        invalidates_github_cache: false,
    }
}

/// What a change of visibility reports. An archived repository is
/// unarchived first and archived again afterwards, whatever became of the
/// change itself; `rearchive` is the outcome of that last step, absent for
/// a repository that was not archived.
pub open spec fn visibility_report(
    name: Seq<char>,
    visibility: Seq<char>,
    change: (bool, Seq<char>),
    rearchive: Option<(bool, Seq<char>)>,
) -> TaskResultModel {
    let set = "Set "@ + name + " to "@ + visibility;
    let (success, message, stderr) = match (change.0, rearchive) {
        (true, None) => (true, set, None),
        (true, Some(r)) => if r.0 {
            (true, set + " (re-archived)"@, None)
        } else {
            (false, set + " but re-archive failed (E: view errors)"@, Some(r.1))
        },
        (false, Some(r)) => if r.0 {
            (
                false,
                "Visibility change failed, repo re-archived (E: view errors)"@,
                Some(change.1),
            )
        } else {
            (
                false,
                "Visibility change failed, re-archive also failed (E: view errors)"@,
                Some(change.1 + "\n\nRe-archive error:\n"@ + r.1),
            )
        },
        (false, None) => (false, "Visibility change failed (E: view errors)"@, Some(change.1)),
    };
    TaskResultModel {
        success,
        message,
        stderr,
        operation: "set visibility "@ + name,
        invalidates_github_cache: true,
    }
}

/// The result of a change of visibility, from the outcome of the change
/// and of archiving the repository again.
pub fn visibility_result(
    name: &str,
    visibility: &str,
    change: GhOpResult,
    rearchive: Option<GhOpResult>,
) -> (r: TaskResult)
    ensures
        r@ == visibility_report(
            name@,
            visibility@,
            (change.success, change.stderr@),
            match rearchive {
                Some(x) => Some((x.success, x.stderr@)),
                None => None,
            },
        ),
{
    let head = concat3("Set ", name, " to ");
    let set = concat2(head.as_str(), visibility);
    let operation = concat2("set visibility ", name);
    let (success, message, stderr) = match rearchive {
        None => if change.success {
            (true, set, None)
        } else {
            (false, "Visibility change failed (E: view errors)".to_owned(), Some(change.stderr))
        },
        Some(r) => if change.success {
            if r.success {
                (true, concat2(set.as_str(), " (re-archived)"), None)
            } else {
                (
                    false,
                    concat2(set.as_str(), " but re-archive failed (E: view errors)"),
                    Some(r.stderr),
                )
            }
        } else if r.success {
            (
                false,
                "Visibility change failed, repo re-archived (E: view errors)".to_owned(),
                Some(change.stderr),
            )
        } else {
            (
                false,
                "Visibility change failed, re-archive also failed (E: view errors)".to_owned(),
                Some(
                    concat3(change.stderr.as_str(), "\n\nRe-archive error:\n", r.stderr.as_str()),
                ),
            )
        },
    };
    TaskResult { success, message, stderr, operation, invalidates_github_cache: true }
}

/// What is reported when an archived repository could not be unarchived
/// before a change of visibility.
pub fn unarchive_failed_result(name: &str, outcome: GhOpResult) -> (r: TaskResult)
    ensures
        r@ == unarchive_failed_report(name@, outcome.stderr@),
{
    TaskResult {
        success: false,
        message: "Failed to unarchive before visibility change (E: view errors)".to_owned(),
        stderr: Some(outcome.stderr),
        operation: concat2("set visibility ", name),
        invalidates_github_cache: true,
    }
}

/// The calls that a change of visibility makes on the hosting service.
#[derive(Clone, Copy, Debug, PartialEq, Eq, Structural)]
pub enum VisibilityCall {
    Unarchive,
    SetVisibility,
    Archive,
}

/// How far a change of visibility has come. An archived repository is
/// unarchived first and archived again afterwards.
#[derive(Debug)]
pub enum VisibilityStep {
    Unarchive,
    Change,
    /// Archive again; `change` is what became of the change itself.
    Rearchive { change: GhOpResult },
    /// Nothing is left to do but to report `result`.
    Done { result: TaskResult },
}

/// The mathematical content of a [`VisibilityStep`].
pub enum VisibilityStepModel {
    Unarchive,
    Change,
    Rearchive { change: (bool, Seq<char>) },
    Done { result: TaskResultModel },
}

impl DeepView for VisibilityStep {
    type V = VisibilityStepModel;

    open spec fn deep_view(&self) -> VisibilityStepModel {
        match self {
            VisibilityStep::Unarchive => VisibilityStepModel::Unarchive,
            VisibilityStep::Change => VisibilityStepModel::Change,
            VisibilityStep::Rearchive { change } => VisibilityStepModel::Rearchive {
                change: (change.success, change.stderr@),
            },
            VisibilityStep::Done { result } => VisibilityStepModel::Done { result: result@ },
        }
    }
}

impl View for VisibilityStep {
    type V = VisibilityStepModel;

    open spec fn view(&self) -> VisibilityStepModel {
        self.deep_view()
    }
}

/// The step with which a change of visibility starts.
pub open spec fn visibility_first(archived: bool) -> VisibilityStepModel {
    if archived {
        VisibilityStepModel::Unarchive
    } else {
        VisibilityStepModel::Change
    }
}

/// The call that a step makes; none once the change is done.
pub open spec fn visibility_call(step: VisibilityStepModel) -> Option<VisibilityCall> {
    match step {
        VisibilityStepModel::Unarchive => Some(VisibilityCall::Unarchive),
        VisibilityStepModel::Change => Some(VisibilityCall::SetVisibility),
        VisibilityStepModel::Rearchive { change } => Some(VisibilityCall::Archive),
        VisibilityStepModel::Done { result } => None,
    }
}

/// What is reported when an archived repository could not be unarchived.
pub open spec fn unarchive_failed_report(name: Seq<char>, stderr: Seq<char>) -> TaskResultModel {
    TaskResultModel {
        success: false,
        message: "Failed to unarchive before visibility change (E: view errors)"@,
        stderr: Some(stderr),
        operation: "set visibility "@ + name,
        invalidates_github_cache: true,
    }
}

/// The step that follows `step` once its call has ended with `outcome`.
/// Where unarchiving fails the change is not attempted. A repository that
/// was archived is archived again whatever became of the change.
pub open spec fn visibility_after(
    step: VisibilityStepModel,
    name: Seq<char>,
    visibility: Seq<char>,
    archived: bool,
    outcome: (bool, Seq<char>),
) -> VisibilityStepModel {
    match step {
        VisibilityStepModel::Unarchive => if outcome.0 {
            VisibilityStepModel::Change
        } else {
            VisibilityStepModel::Done { result: unarchive_failed_report(name, outcome.1) }
        },
        VisibilityStepModel::Change => if archived {
            VisibilityStepModel::Rearchive { change: outcome }
        } else {
            VisibilityStepModel::Done {
                result: visibility_report(name, visibility, outcome, None),
            }
        },
        VisibilityStepModel::Rearchive { change } => VisibilityStepModel::Done {
            result: visibility_report(name, visibility, change, Some(outcome)),
        },
        VisibilityStepModel::Done { result } => step,
    }
}

/// How many calls a change of visibility may still make from `step` on.
pub open spec fn visibility_calls_left(step: VisibilityStepModel) -> nat {
    match step {
        VisibilityStepModel::Unarchive => 3,
        VisibilityStepModel::Change => 2,
        VisibilityStepModel::Rearchive { change } => 1,
        VisibilityStepModel::Done { result } => 0,
    }
}

impl VisibilityStep {
    /// The step with which a change of visibility starts.
    pub fn start(archived: bool) -> (r: Self)
        ensures
            r@ == visibility_first(archived),
    {
        if archived {
            VisibilityStep::Unarchive
        } else {
            VisibilityStep::Change
        }
    }

    /// The call that the step makes.
    pub fn call(&self) -> (r: Option<VisibilityCall>)
        ensures
            r == visibility_call(self@),
    {
        match self {
            VisibilityStep::Unarchive => Some(VisibilityCall::Unarchive),
            VisibilityStep::Change => Some(VisibilityCall::SetVisibility),
            VisibilityStep::Rearchive { change } => Some(VisibilityCall::Archive),
            VisibilityStep::Done { result } => None,
        }
    }
}

/// Decides how a change of visibility goes on after the call of `step`
/// has ended with `outcome`.
pub fn visibility_next(
    step: VisibilityStep,
    name: &str,
    visibility: &str,
    archived: bool,
    outcome: GhOpResult,
) -> (next: VisibilityStep)
    ensures
        next@ == visibility_after(
            step@,
            name@,
            visibility@,
            archived,
            (outcome.success, outcome.stderr@),
        ),
{
    match step {
        VisibilityStep::Unarchive => if outcome.success {
            VisibilityStep::Change
        } else {
            VisibilityStep::Done { result: unarchive_failed_result(name, outcome) }
        },
        VisibilityStep::Change => if archived {
            VisibilityStep::Rearchive { change: outcome }
        } else {
            VisibilityStep::Done { result: visibility_result(name, visibility, outcome, None) }
        },
        VisibilityStep::Rearchive { change } => VisibilityStep::Done {
            result: visibility_result(name, visibility, change, Some(outcome)),
        },
        VisibilityStep::Done { result } => VisibilityStep::Done { result },
    }
}

/// A change of visibility comes to an end: every call brings it closer,
/// and after at most three calls one result is left to report.
pub proof fn visibility_change_ends(
    step: VisibilityStepModel,
    name: Seq<char>,
    visibility: Seq<char>,
    archived: bool,
    outcome: (bool, Seq<char>),
)
    requires
        !(step is Done),
    ensures
        visibility_calls_left(visibility_after(step, name, visibility, archived, outcome))
            < visibility_calls_left(step),
        visibility_calls_left(step) <= 3,
{
}

/// Where an archived repository cannot be unarchived, the change is not
/// attempted: the failure is reported at once, and the data of the hosting
/// service counts as changed.
pub proof fn failed_unarchive_ends_the_change(
    name: Seq<char>,
    visibility: Seq<char>,
    stderr: Seq<char>,
)
    ensures
        ({
            let next = visibility_after(
                visibility_first(true),
                name,
                visibility,
                true,
                (false, stderr),
            );
            &&& next is Done
            &&& visibility_call(next) is None
            &&& !next->result.success
            &&& next->result.invalidates_github_cache
            &&& next->result.stderr == Some(stderr)
        }),
{
}

/// A change of visibility reports success only if every call that it made
/// succeeded, and always counts the data of the hosting service as changed.
pub proof fn visibility_change_succeeds_only_if_all_calls_do(
    name: Seq<char>,
    visibility: Seq<char>,
    unarchive: (bool, Seq<char>),
    change: (bool, Seq<char>),
    rearchive: (bool, Seq<char>),
)
    ensures
        ({
            let plain = visibility_after(visibility_first(false), name, visibility, false, change);
            &&& plain is Done
            &&& plain->result.success == change.0
            &&& plain->result.invalidates_github_cache
        }),
        unarchive.0 ==> ({
            let a = visibility_after(visibility_first(true), name, visibility, true, unarchive);
            let b = visibility_after(a, name, visibility, true, change);
            let c = visibility_after(b, name, visibility, true, rearchive);
            &&& visibility_call(a) == Some(VisibilityCall::SetVisibility)
            &&& visibility_call(b) == Some(VisibilityCall::Archive)
            &&& c is Done
            &&& c->result.success == (change.0 && rearchive.0)
            &&& c->result.invalidates_github_cache
        }),
{
}

/// Whether a folder that could not be renamed is copied instead: after an
/// error of no particular kind, where the target exists, across devices
/// (error 18 of the system) and onto a folder that is not empty (error 39).
pub fn rename_needs_copy(other_kind: bool, already_exists: bool, os_error: Option<i32>) -> (r: bool)
    ensures
        r == (other_kind || already_exists || os_error == Some(18i32) || os_error == Some(39i32)),
{
    other_kind || already_exists || os_error == Some(18) || os_error == Some(39)
}

/// The marker in front of a message that carries the organizations of the user.
pub open spec fn orgs_marker() -> Seq<char> {
    "__ORGS__:"@
}

/// `names` joined by commas.
pub open spec fn comma_joined(names: Seq<Seq<char>>) -> Seq<char>
    decreases names.len(),
{
    if names.len() == 0 {
        Seq::empty()
    } else if names.len() == 1 {
        names[0]
    } else {
        comma_joined(names.drop_last()) + ","@ + names.last()
    }
}

/// The result that carries the organizations of the user to the upload
/// form: a message made of the marker and the names joined by commas.
pub fn orgs_result(orgs: &Vec<String>) -> (r: TaskResult)
    ensures
        r@ == (TaskResultModel {
            success: true,
            message: orgs_marker() + comma_joined(orgs.deep_view()),
            stderr: None,
            operation: Seq::empty(),
            invalidates_github_cache: false,
        }),
{
    let mut joined = String::new();
    let mut i: usize = 0;
    proof {
        assert(orgs.deep_view().take(0) =~= Seq::<Seq<char>>::empty());
    }
    while i < orgs.len()
        invariant
            i <= orgs.len(),
            joined@ == comma_joined(orgs.deep_view().take(i as int)),
        decreases orgs.len() - i,
    {
        proof {
            let now = orgs.deep_view().take(i + 1);
            assert(now.drop_last() =~= orgs.deep_view().take(i as int));
            assert(now.last() == orgs@[i as int]@);
            if i == 0 {
                assert(Seq::<char>::empty() + orgs@[i as int]@ =~= orgs@[i as int]@);
            }
        }
        if i > 0 {
            joined = concat3(joined.as_str(), ",", orgs[i].as_str());
        } else {
            joined = concat2(joined.as_str(), orgs[i].as_str());
        }
        i += 1;
    }
    proof {
        assert(orgs.deep_view().take(orgs.len() as int) =~= orgs.deep_view());
    }
    TaskResult {
        success: true,
        message: concat2("__ORGS__:", joined.as_str()),
        stderr: None,
        operation: String::new(),
        invalidates_github_cache: false,
    }
}

/// The first eight characters of a gist id, by which it is shown.
pub open spec fn short_id(id: Seq<char>) -> Seq<char> {
    if id.len() <= 8 {
        id
    } else {
        id.take(8)
    }
}

/// The short form under which a gist is shown.
pub fn display_id(id: &str) -> (r: String)
    ensures
        r@ == short_id(id@),
{
    let chars = chars_of(id);
    if chars.len() <= 8 {
        id.to_owned()
    } else {
        let head = subvec(&chars, 0, 8);
        proof {
            assert(chars@.subrange(0, 8) =~= chars@.take(8));
        }
        string_of(&head)
    }
}

/// A background operation for the runner to perform. The runner reports
/// one [`TaskResult`] when the operation completes.
#[derive(Debug)]
pub enum BackgroundTask {
    /// An operation of the version-control client on the folder `path`
    /// (`kind` is one of `Pull`, `Push`, `Sync`, `Quicksync`, `Init`,
    /// `PullGist`, `PushGist`, `SyncGist`), or its removal (`DeleteLocal`).
    OnPath { kind: TaskKind, name: String, path: String },
    /// Clone `url` to `path`.
    Clone { name: String, url: String, path: String },
    /// Move the folder `from` to `to`.
    Reorganize { name: String, from: String, to: String },
    /// Delete the repository `name` (owner and name) on the hosting service.
    DeleteRemote { name: String },
    /// Change the visibility of `name`; `archived` tells that it has to be
    /// unarchived first and archived again afterwards.
    SetVisibility { name: String, visibility: String, archived: bool },
    /// Archive (`archive` set) or unarchive `name`.
    SetArchived { name: String, archive: bool },
    /// Clone the gist `id` to `path`.
    CloneGist { id: String, name: String, path: String },
    /// Delete the gist `id` on the hosting service.
    DeleteGist { id: String, name: String },
    /// Create a repository from a local folder.
    CreateRepo { options: CreateRepoOptions },
    /// Fetch the organizations of the user for the upload form.
    FetchOrgs,
    /// Fetch everything anew.
    Refresh,
    /// Scan the local disk again and merge with the data held in `cache`.
    LocalRefresh { cache: GitHubCache },
}


/// The mathematical content of a [`BackgroundTask`].
pub enum BackgroundTaskModel {
    OnPath { kind: TaskKind, name: Seq<char>, path: Seq<char> },
    Clone { name: Seq<char>, url: Seq<char>, path: Seq<char> },
    Reorganize { name: Seq<char>, from: Seq<char>, to: Seq<char> },
    DeleteRemote { name: Seq<char> },
    SetVisibility { name: Seq<char>, visibility: Seq<char>, archived: bool },
    SetArchived { name: Seq<char>, archive: bool },
    CloneGist { id: Seq<char>, name: Seq<char>, path: Seq<char> },
    DeleteGist { id: Seq<char>, name: Seq<char> },
    CreateRepo { options: CreateRepoModel },
    FetchOrgs,
    Refresh,
    LocalRefresh { cache: GitHubCacheModel },
}

impl BackgroundTaskModel {
    /// What the status line shows when the task is started, for a task
    /// that is announced.
    pub open spec fn announcement(self) -> Option<Seq<char>> {
        match self {
            BackgroundTaskModel::OnPath { kind, name, path } => Some(kind.start_message(name)),
            BackgroundTaskModel::Clone { name, url, path } => Some(
                TaskKind::Clone.start_message(name),
            ),
            BackgroundTaskModel::Reorganize { name, from, to } => Some(
                TaskKind::Reorganize.start_message(name),
            ),
            BackgroundTaskModel::DeleteRemote { name } => Some(
                TaskKind::DeleteRemote.start_message(name),
            ),
            BackgroundTaskModel::SetVisibility { name, visibility, archived } => Some(
                if archived {
                    "Unarchiving, setting "@ + name + " to "@ + visibility
                        + ", then re-archiving..."@
                } else {
                    "Setting "@ + name + " to "@ + visibility + "..."@
                },
            ),
            BackgroundTaskModel::SetArchived { name, archive } => Some(
                if archive {
                    TaskKind::Archive.start_message(name)
                } else {
                    TaskKind::Unarchive.start_message(name)
                },
            ),
            BackgroundTaskModel::CloneGist { id, name, path } => Some(
                TaskKind::CloneGist.start_message(name),
            ),
            BackgroundTaskModel::DeleteGist { id, name } => Some(
                TaskKind::DeleteGist.start_message(name),
            ),
            BackgroundTaskModel::CreateRepo { options } => Some(
                TaskKind::CreateRepo.start_message(options.name),
            ),
            BackgroundTaskModel::FetchOrgs => None,
            BackgroundTaskModel::Refresh => Some("Refreshing..."@),
            BackgroundTaskModel::LocalRefresh { cache } => Some("Updating..."@),
        }
    }
}

impl BackgroundTask {
    /// The message for the status line when the task is started.
    pub fn announcement(&self) -> (r: Option<String>)
        ensures
            r.deep_view() == self@.announcement(),
    {
        match self {
            BackgroundTask::OnPath { kind, name, path } => Some(kind.status_text(name.as_str())),
            BackgroundTask::Clone { name, url, path } => Some(
                TaskKind::Clone.status_text(name.as_str()),
            ),
            BackgroundTask::Reorganize { name, from, to } => Some(
                TaskKind::Reorganize.status_text(name.as_str()),
            ),
            BackgroundTask::DeleteRemote { name } => Some(
                TaskKind::DeleteRemote.status_text(name.as_str()),
            ),
            BackgroundTask::SetVisibility { name, visibility, archived } => {
                if *archived {
                    let head = concat3("Unarchiving, setting ", name.as_str(), " to ");
                    Some(concat3(head.as_str(), visibility.as_str(), ", then re-archiving..."))
                } else {
                    let head = concat3("Setting ", name.as_str(), " to ");
                    Some(concat3(head.as_str(), visibility.as_str(), "..."))
                }
            },
            BackgroundTask::SetArchived { name, archive } => {
                if *archive {
                    Some(TaskKind::Archive.status_text(name.as_str()))
                } else {
                    Some(TaskKind::Unarchive.status_text(name.as_str()))
                }
            },
            BackgroundTask::CloneGist { id, name, path } => Some(
                TaskKind::CloneGist.status_text(name.as_str()),
            ),
            BackgroundTask::DeleteGist { id, name } => Some(
                TaskKind::DeleteGist.status_text(name.as_str()),
            ),
            BackgroundTask::CreateRepo { options } => Some(
                TaskKind::CreateRepo.status_text(options.name.as_str()),
            ),
            BackgroundTask::FetchOrgs => None,
            BackgroundTask::Refresh => Some("Refreshing...".to_owned()),
            BackgroundTask::LocalRefresh { cache } => Some("Updating...".to_owned()),
        }
    }
}

impl DeepView for BackgroundTask {
    type V = BackgroundTaskModel;

    open spec fn deep_view(&self) -> BackgroundTaskModel {
        match self {
            BackgroundTask::OnPath { kind, name, path } => BackgroundTaskModel::OnPath {
                kind: *kind,
                name: name@,
                path: path@,
            },
            BackgroundTask::Clone { name, url, path } => BackgroundTaskModel::Clone {
                name: name@,
                url: url@,
                path: path@,
            },
            BackgroundTask::Reorganize { name, from, to } => BackgroundTaskModel::Reorganize {
                name: name@,
                from: from@,
                to: to@,
            },
            BackgroundTask::DeleteRemote { name } => BackgroundTaskModel::DeleteRemote {
                name: name@,
            },
            BackgroundTask::SetVisibility {
                name,
                visibility,
                archived,
            } => BackgroundTaskModel::SetVisibility {
                name: name@,
                visibility: visibility@,
                archived: *archived,
            },
            BackgroundTask::SetArchived { name, archive } => BackgroundTaskModel::SetArchived {
                name: name@,
                archive: *archive,
            },
            BackgroundTask::CloneGist { id, name, path } => BackgroundTaskModel::CloneGist {
                id: id@,
                name: name@,
                path: path@,
            },
            BackgroundTask::DeleteGist { id, name } => BackgroundTaskModel::DeleteGist {
                id: id@,
                name: name@,
            },
            BackgroundTask::CreateRepo { options } => BackgroundTaskModel::CreateRepo {
                options: options@,
            },
            BackgroundTask::FetchOrgs => BackgroundTaskModel::FetchOrgs,
            BackgroundTask::Refresh => BackgroundTaskModel::Refresh,
            BackgroundTask::LocalRefresh { cache } => BackgroundTaskModel::LocalRefresh {
                cache: cache@,
            },
        }
    }
}

impl View for BackgroundTask {
    type V = BackgroundTaskModel;

    open spec fn view(&self) -> BackgroundTaskModel {
        self.deep_view()
    }
}

} // verus!
