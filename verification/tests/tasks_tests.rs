use ghall::git::GitOpResult;
use ghall::github::GhOpResult;
use ghall::tasks::{
    display_id, orgs_result, sync_result, unarchive_failed_result, visibility_next,
    visibility_result, BackgroundTask, ErrorLogEntry, TaskKind, TaskResult, VisibilityCall,
    VisibilityStep,
};

fn change_visibility(archived: bool, outcomes: Vec<GhOpResult>) -> (Vec<VisibilityCall>, TaskResult) {
    let mut calls = Vec::new();
    let mut outcomes = outcomes.into_iter();
    let mut step = VisibilityStep::start(archived);
    while let Some(call) = step.call() {
        calls.push(call);
        let outcome = outcomes.next().expect("a call more than outcomes were given");
        step = visibility_next(step, "a/b", "private", archived, outcome);
    }
    match step {
        VisibilityStep::Done { result } => (calls, result),
        other => panic!("not done: {:?}", other),
    }
}

#[test]
fn pull_reports() {
    let ok = TaskKind::Pull.git_result("foo", GitOpResult::ok());
    assert!(ok.success);
    assert_eq!(ok.message, "Pulled foo");
    assert_eq!(ok.stderr, None);
    assert_eq!(ok.operation, "pull foo");
    assert!(!ok.invalidates_github_cache);
    let bad = TaskKind::Pull.git_result("foo", GitOpResult::err("boom".to_string()));
    assert!(!bad.success);
    assert_eq!(bad.message, "Pull failed (E: view errors)");
    assert_eq!(bad.stderr.as_deref(), Some("boom"));
    assert_eq!(bad.operation, "pull foo");
}

#[test]
fn messages_of_every_kind() {
    let cases = [
        (TaskKind::Push, "Pushing x...", "push x", "Pushed x", "Push failed (E: view errors)", false),
        (TaskKind::Sync, "Syncing x...", "sync x", "Synced x", "Sync failed (E: view errors)", false),
        (TaskKind::Quicksync, "Quicksyncing x...", "quicksync x", "Quicksynced x", "Quicksync failed (E: view errors)", false),
        (TaskKind::Clone, "Cloning x...", "clone x", "Cloned x", "Clone failed (E: view errors)", false),
        (TaskKind::Init, "Initializing git repo in x...", "init x", "Initialized git repo in x", "Git init failed (E: view errors)", false),
        (TaskKind::DeleteLocal, "Deleting x...", "delete local x", "Deleted x", "Failed to delete x", false),
        (TaskKind::DeleteRemote, "Deleting remote x...", "delete remote x", "Deleted remote x", "Failed to delete x (E: view errors)", true),
        (TaskKind::Reorganize, "Reorganizing x...", "reorganize x", "Moved x to ghq path", "Move failed (E: view errors)", false),
        (TaskKind::Archive, "Archiving x...", "archiving x", "Archived x", "Archiving failed (E: view errors)", true),
        (TaskKind::Unarchive, "Unarchiving x...", "unarchiving x", "Unarchived x", "Unarchiving failed (E: view errors)", true),
        (TaskKind::CloneGist, "Cloning gist x...", "clone gist x", "Cloned gist x", "Clone gist failed (E: view errors)", false),
        (TaskKind::DeleteGist, "Deleting gist x...", "delete gist x", "Deleted gist x", "Failed to delete gist x (E: view errors)", true),
        (TaskKind::PullGist, "Pulling gist x...", "pull gist x", "Pulled gist x", "Pull gist failed (E: view errors)", false),
        (TaskKind::PushGist, "Pushing gist x...", "push gist x", "Pushed gist x", "Push gist failed (E: view errors)", false),
        (TaskKind::SyncGist, "Syncing gist x...", "sync gist x", "Synced gist x", "Sync gist failed (E: view errors)", false),
        (TaskKind::CreateRepo, "Creating GitHub repo x...", "create repo x", "Created x", "Create repo failed (E: view errors)", true),
    ];
    for (kind, start, label, done, failed, invalidates) in cases {
        assert_eq!(kind.status_text("x"), start);
        assert_eq!(kind.operation_label("x"), label);
        let ok = kind.result("x", true, "e".to_string());
        assert_eq!(ok.message, done);
        assert_eq!(ok.operation, label);
        assert_eq!(ok.invalidates_github_cache, invalidates);
        assert_eq!(kind.invalidates_cache(), invalidates);
        let bad = kind.result("x", false, "e".to_string());
        assert_eq!(bad.message, failed);
        assert_eq!(bad.stderr.as_deref(), Some("e"));
        assert!(!bad.success);
    }
}

#[test]
fn remote_deletions_report_text_after_success() {
    let r = TaskKind::DeleteRemote.github_result("a/b", GhOpResult::ok());
    assert!(r.success);
    assert_eq!(r.stderr.as_deref(), Some(""));
    let g = TaskKind::DeleteGist.result("abc", true, "warn".to_string());
    assert_eq!(g.stderr.as_deref(), Some("warn"));
    let l = TaskKind::DeleteLocal.result("abc", true, "warn".to_string());
    assert_eq!(l.stderr, None);
}

#[test]
fn sync_succeeds_if_all_steps_do() {
    let r = sync_result(TaskKind::Sync, "x", GitOpResult::ok(), GitOpResult::ok(), GitOpResult::ok());
    assert!(r.success);
    assert_eq!(r.message, "Synced x");
    assert_eq!(r.stderr, None);
    assert_eq!(r.operation, "sync x");
    assert!(!r.invalidates_github_cache);
}

#[test]
fn sync_joins_the_texts_of_failures() {
    let r = sync_result(
        TaskKind::Sync,
        "x",
        GitOpResult::err("f".to_string()),
        GitOpResult::ok(),
        GitOpResult::err("p".to_string()),
    );
    assert!(!r.success);
    assert_eq!(r.message, "Sync failed (E: view errors)");
    assert_eq!(r.stderr.as_deref(), Some("f\np"));
    let all = sync_result(
        TaskKind::SyncGist,
        "x",
        GitOpResult::err("a".to_string()),
        GitOpResult::err("b".to_string()),
        GitOpResult::err("c".to_string()),
    );
    assert_eq!(all.stderr.as_deref(), Some("a\nb\nc"));
    assert_eq!(all.message, "Sync gist failed (E: view errors)");
    assert_eq!(all.operation, "sync gist x");
    let silent = sync_result(
        TaskKind::Sync,
        "x",
        GitOpResult::ok(),
        GitOpResult::err(String::new()),
        GitOpResult::ok(),
    );
    assert_eq!(silent.stderr.as_deref(), Some(""));
    let middle = sync_result(
        TaskKind::Sync,
        "x",
        GitOpResult::ok(),
        GitOpResult::err("m".to_string()),
        GitOpResult::ok(),
    );
    assert_eq!(middle.stderr.as_deref(), Some("m"));
}

#[test]
fn visibility_outcomes() {
    let r = visibility_result("a/b", "public", GhOpResult::ok(), None);
    assert!(r.success);
    assert_eq!(r.message, "Set a/b to public");
    assert_eq!(r.stderr, None);
    assert_eq!(r.operation, "set visibility a/b");
    assert!(r.invalidates_github_cache);

    let r = visibility_result("a/b", "private", GhOpResult::ok(), Some(GhOpResult::ok()));
    assert!(r.success);
    assert_eq!(r.message, "Set a/b to private (re-archived)");

    let r = visibility_result("a/b", "private", GhOpResult::ok(), Some(GhOpResult::err("x".to_string())));
    assert!(!r.success);
    assert_eq!(r.message, "Set a/b to private but re-archive failed (E: view errors)");
    assert_eq!(r.stderr.as_deref(), Some("x"));

    let r = visibility_result("a/b", "private", GhOpResult::err("v".to_string()), Some(GhOpResult::ok()));
    assert!(!r.success);
    assert_eq!(r.message, "Visibility change failed, repo re-archived (E: view errors)");
    assert_eq!(r.stderr.as_deref(), Some("v"));

    let r = visibility_result(
        "a/b",
        "private",
        GhOpResult::err("v".to_string()),
        Some(GhOpResult::err("x".to_string())),
    );
    assert_eq!(r.message, "Visibility change failed, re-archive also failed (E: view errors)");
    assert_eq!(r.stderr.as_deref(), Some("v\n\nRe-archive error:\nx"));

    let r = visibility_result("a/b", "private", GhOpResult::err("v".to_string()), None);
    assert_eq!(r.message, "Visibility change failed (E: view errors)");
    assert_eq!(r.stderr.as_deref(), Some("v"));
}

#[test]
fn unarchive_failure() {
    let r = unarchive_failed_result("a/b", GhOpResult::err("no".to_string()));
    assert!(!r.success);
    assert_eq!(r.message, "Failed to unarchive before visibility change (E: view errors)");
    assert_eq!(r.stderr.as_deref(), Some("no"));
    assert_eq!(r.operation, "set visibility a/b");
    assert!(r.invalidates_github_cache);
}

#[test]
fn orgs_are_carried_in_the_message() {
    let r = orgs_result(&vec!["one".to_string(), "two".to_string()]);
    assert!(r.success);
    assert_eq!(r.message, "__ORGS__:one,two");
    assert_eq!(r.operation, "");
    assert!(!r.invalidates_github_cache);
    assert_eq!(orgs_result(&vec![]).message, "__ORGS__:");
    assert_eq!(orgs_result(&vec!["x".to_string()]).message, "__ORGS__:x");
}

#[test]
fn display_id_is_first_eight_characters() {
    assert_eq!(display_id("0123456789abcdef"), "01234567");
    assert_eq!(display_id("abc"), "abc");
    assert_eq!(display_id("12345678"), "12345678");
    assert_eq!(display_id(""), "");
}

#[test]
fn error_log_entry_keeps_its_parts() {
    let e = ErrorLogEntry::at("12:00:01", "pull x", "boom");
    assert_eq!(e.timestamp, "12:00:01");
    assert_eq!(e.operation, "pull x");
    assert_eq!(e.error, "boom");
    let c = e.clone();
    assert_eq!(c.error, "boom");
}

#[test]
fn error_log_entry_is_stamped_with_time_of_day() {
    let e = ErrorLogEntry::new("op", "err");
    assert_eq!(e.operation, "op");
    assert_eq!(e.error, "err");
    let t: Vec<char> = e.timestamp.chars().collect();
    assert_eq!(t.len(), 8);
    assert_eq!(t[2], ':');
    assert_eq!(t[5], ':');
    for i in [0, 1, 3, 4, 6, 7] {
        assert!(t[i].is_ascii_digit());
    }
}

#[test]
fn announcements() {
    let t = BackgroundTask::SetVisibility { name: "a/b".to_string(), visibility: "public".to_string(), archived: false };
    assert_eq!(t.announcement().as_deref(), Some("Setting a/b to public..."));
    let t = BackgroundTask::SetVisibility { name: "a/b".to_string(), visibility: "public".to_string(), archived: true };
    assert_eq!(t.announcement().as_deref(), Some("Unarchiving, setting a/b to public, then re-archiving..."));
    let t = BackgroundTask::SetArchived { name: "a/b".to_string(), archive: true };
    assert_eq!(t.announcement().as_deref(), Some("Archiving a/b..."));
    let t = BackgroundTask::SetArchived { name: "a/b".to_string(), archive: false };
    assert_eq!(t.announcement().as_deref(), Some("Unarchiving a/b..."));
    assert_eq!(BackgroundTask::FetchOrgs.announcement(), None);
    assert_eq!(BackgroundTask::Refresh.announcement().as_deref(), Some("Refreshing..."));
}

#[test]
fn failed_rename_is_made_up_for_by_copying() {
    use_rename(true, false, None, true);
    use_rename(false, true, None, true);
    use_rename(false, false, Some(18), true);
    use_rename(false, false, Some(39), true);
    use_rename(false, false, Some(2), false);
    use_rename(false, false, None, false);
}

fn use_rename(other: bool, exists: bool, code: Option<i32>, expected: bool) {
    assert_eq!(ghall::tasks::rename_needs_copy(other, exists, code), expected);
}

#[test]
fn failed_unarchive_stops_the_visibility_change() {
    let (calls, r) = change_visibility(true, vec![GhOpResult::err("locked".to_string())]);
    assert_eq!(calls, vec![VisibilityCall::Unarchive]);
    assert!(!r.success);
    assert_eq!(r.message, "Failed to unarchive before visibility change (E: view errors)");
    assert_eq!(r.stderr.as_deref(), Some("locked"));
    assert_eq!(r.operation, "set visibility a/b");
    assert!(r.invalidates_github_cache);
}

#[test]
fn archived_repository_is_archived_again_after_the_change() {
    let (calls, r) = change_visibility(true, vec![GhOpResult::ok(), GhOpResult::ok(), GhOpResult::ok()]);
    assert_eq!(
        calls,
        vec![VisibilityCall::Unarchive, VisibilityCall::SetVisibility, VisibilityCall::Archive]
    );
    assert!(r.success);
    assert_eq!(r.message, "Set a/b to private (re-archived)");
    assert_eq!(r.stderr, None);
    assert!(r.invalidates_github_cache);
}

#[test]
fn archived_repository_is_archived_again_after_a_failed_change() {
    let (calls, r) = change_visibility(
        true,
        vec![GhOpResult::ok(), GhOpResult::err("denied".to_string()), GhOpResult::ok()],
    );
    assert_eq!(
        calls,
        vec![VisibilityCall::Unarchive, VisibilityCall::SetVisibility, VisibilityCall::Archive]
    );
    assert!(!r.success);
    assert_eq!(r.message, "Visibility change failed, repo re-archived (E: view errors)");
    assert_eq!(r.stderr.as_deref(), Some("denied"));
    assert!(r.invalidates_github_cache);

    let (_, r) = change_visibility(
        true,
        vec![GhOpResult::ok(), GhOpResult::err("denied".to_string()), GhOpResult::err("again".to_string())],
    );
    assert!(!r.success);
    assert_eq!(r.message, "Visibility change failed, re-archive also failed (E: view errors)");
    assert_eq!(r.stderr.as_deref(), Some("denied\n\nRe-archive error:\nagain"));

    let (_, r) = change_visibility(
        true,
        vec![GhOpResult::ok(), GhOpResult::ok(), GhOpResult::err("again".to_string())],
    );
    assert!(!r.success);
    assert_eq!(r.message, "Set a/b to private but re-archive failed (E: view errors)");
    assert_eq!(r.stderr.as_deref(), Some("again"));
    assert!(r.invalidates_github_cache);
}

#[test]
fn plain_visibility_change_makes_one_call() {
    let (calls, r) = change_visibility(false, vec![GhOpResult::ok()]);
    assert_eq!(calls, vec![VisibilityCall::SetVisibility]);
    assert!(r.success);
    assert_eq!(r.message, "Set a/b to private");
    assert!(r.invalidates_github_cache);

    let (calls, r) = change_visibility(false, vec![GhOpResult::err("denied".to_string())]);
    assert_eq!(calls, vec![VisibilityCall::SetVisibility]);
    assert!(!r.success);
    assert_eq!(r.message, "Visibility change failed (E: view errors)");
    assert_eq!(r.stderr.as_deref(), Some("denied"));
    assert!(r.invalidates_github_cache);
}

#[test]
fn finished_visibility_change_stays_finished() {
    let done = visibility_next(VisibilityStep::start(false), "a/b", "public", false, GhOpResult::ok());
    assert_eq!(done.call(), None);
    let still = visibility_next(done, "a/b", "public", false, GhOpResult::err("late".to_string()));
    match still {
        VisibilityStep::Done { result } => {
            assert!(result.success);
            assert_eq!(result.message, "Set a/b to public");
        }
        other => panic!("not done: {:?}", other),
    }
}

#[test]
fn archive_result_names_the_direction() {
    let r = TaskKind::archive_result("a/b", true, GhOpResult::ok());
    assert!(r.success);
    assert_eq!(r.message, "Archived a/b");
    assert_eq!(r.operation, "archiving a/b");
    assert!(r.invalidates_github_cache);
    let r = TaskKind::archive_result("a/b", false, GhOpResult::err("no".to_string()));
    assert!(!r.success);
    assert_eq!(r.operation, "unarchiving a/b");
    assert_eq!(r.stderr.as_deref(), Some("no"));
    assert!(r.invalidates_github_cache);
}
