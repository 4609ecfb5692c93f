use ghall::git::{
    ahead_behind_probe, branch_name, count_changes, has_any_remote, parse_ahead_behind,
    parse_commit_time, parse_remote_url, quicksync_next, repo_status, AheadBehindProbe,
    CommandOutcome, GitOpResult, QuicksyncStep, RepoStatus,
};

fn ran(success: bool, text: &str) -> CommandOutcome {
    CommandOutcome { launched: true, success, text: text.to_string() }
}

fn not_started(text: &str) -> CommandOutcome {
    CommandOutcome { launched: false, success: false, text: text.to_string() }
}

#[test]
fn git_op_results() {
    let ok = GitOpResult::ok();
    assert!(ok.success);
    assert_eq!(ok.stderr, "");
    let e = GitOpResult::err("x".to_string());
    assert!(!e.success);
    assert_eq!(e.stderr, "x");
    assert_eq!(e.clone().stderr, "x");
    assert!(GitOpResult::from_outcome(ran(true, "warn")).success);
    assert_eq!(GitOpResult::from_outcome(ran(true, "warn")).stderr, "");
    assert_eq!(GitOpResult::from_outcome(ran(false, "bad")).stderr, "bad");
    assert!(!GitOpResult::from_outcome(not_started("no git")).success);
    assert_eq!(GitOpResult::failed_in("Fetch failed: ", "x").stderr, "Fetch failed: x");
}

#[test]
fn status_is_dirty_on_any_change() {
    let mut s = RepoStatus::default();
    assert!(!s.is_dirty());
    assert_eq!(s.branch, "");
    assert!(!s.has_remote);
    s.untracked = 1;
    assert!(s.is_dirty());
    s.untracked = 0;
    s.staged = 2;
    assert!(s.is_dirty());
    s.staged = 0;
    s.dirty = true;
    assert!(s.is_dirty());
}

#[test]
fn branch_name_falls_back_to_head() {
    assert_eq!(branch_name("main\n"), "main");
    assert_eq!(branch_name("  \n"), "HEAD");
    assert_eq!(branch_name(""), "HEAD");
}

#[test]
fn remote_is_there_if_git_lists_one() {
    assert!(has_any_remote(true, "origin\n"));
    assert!(!has_any_remote(true, "\n"));
    assert!(!has_any_remote(false, "origin\n"));
}

#[test]
fn probe_prefers_upstream() {
    assert!(matches!(ahead_behind_probe(true, true, "main\n"), AheadBehindProbe::Upstream));
    assert!(matches!(ahead_behind_probe(true, false, ""), AheadBehindProbe::Upstream));
    match ahead_behind_probe(false, true, " dev\n") {
        AheadBehindProbe::Origin { branch } => assert_eq!(branch, "dev"),
        _ => panic!("expected origin"),
    }
    assert!(matches!(ahead_behind_probe(false, true, "\n"), AheadBehindProbe::Skip));
    assert!(matches!(ahead_behind_probe(false, false, "main"), AheadBehindProbe::Skip));
}

#[test]
fn ahead_behind_are_two_numbers() {
    assert_eq!(parse_ahead_behind("3\t5\n"), (3, 5));
    assert_eq!(parse_ahead_behind("0\t0"), (0, 0));
    assert_eq!(parse_ahead_behind("x\t5"), (0, 5));
    assert_eq!(parse_ahead_behind("3 5"), (0, 0));
    assert_eq!(parse_ahead_behind("1\t2\t3"), (0, 0));
    assert_eq!(parse_ahead_behind(""), (0, 0));
    assert_eq!(parse_ahead_behind("4294967296\t1"), (0, 1));
}

#[test]
fn changes_are_counted_by_line() {
    assert_eq!(count_changes(""), (0, 0, false));
    assert_eq!(count_changes("?? new.txt\n"), (1, 0, false));
    assert_eq!(count_changes(" M a.rs\n"), (0, 0, true));
    assert_eq!(count_changes("M  a.rs\n"), (0, 1, false));
    assert_eq!(count_changes("MM a.rs\nA  b.rs\n?? c\n?? d\n D e\n"), (2, 2, true));
    assert_eq!(count_changes("M\n"), (0, 0, false));
    assert_eq!(count_changes("é\n"), (0, 1, false));
}

#[test]
fn status_is_assembled_from_outputs() {
    let s = repo_status("main\n", true, Some("2\t1\n"), Some(" M a\n?? b\nA  c\n"));
    assert_eq!(s.branch, "main");
    assert_eq!((s.ahead, s.behind), (2, 1));
    assert!(s.dirty);
    assert_eq!(s.untracked, 1);
    assert_eq!(s.staged, 1);
    assert!(s.has_remote);
    let s = repo_status("", false, None, None);
    assert_eq!(s.branch, "HEAD");
    assert_eq!((s.ahead, s.behind, s.untracked, s.staged), (0, 0, 0, 0));
    assert!(!s.dirty && !s.has_remote);
}

#[test]
fn remote_url_and_commit_time() {
    assert_eq!(parse_remote_url(true, "git@github.com:a/b.git\n"), Some("git@github.com:a/b.git".to_string()));
    assert_eq!(parse_remote_url(false, "x"), None);
    assert_eq!(parse_commit_time(true, "1700000000\n"), Some(1700000000));
    assert_eq!(parse_commit_time(true, "\n"), None);
    assert_eq!(parse_commit_time(false, "1700000000\n"), None);
}

fn done(step: &QuicksyncStep) -> Option<(bool, String)> {
    match step {
        QuicksyncStep::Done { result } => Some((result.success, result.stderr.clone())),
        _ => None,
    }
}

#[test]
fn quicksync_goes_through_all_steps() {
    let s = quicksync_next(QuicksyncStep::Fetch, ran(true, ""));
    assert!(matches!(s, QuicksyncStep::Rebase));
    let s = quicksync_next(s, ran(true, ""));
    assert!(matches!(s, QuicksyncStep::Add));
    let s = quicksync_next(s, ran(true, ""));
    assert!(matches!(s, QuicksyncStep::CheckStaged));
    // `diff --cached --quiet` fails when something is staged
    let s = quicksync_next(s, ran(false, ""));
    assert!(matches!(s, QuicksyncStep::Commit));
    let s = quicksync_next(s, ran(true, ""));
    assert!(matches!(s, QuicksyncStep::Push));
    let s = quicksync_next(s, ran(true, ""));
    assert_eq!(done(&s), Some((true, String::new())));
    let s = quicksync_next(s, ran(false, "late"));
    assert_eq!(done(&s), Some((true, String::new())));
}

#[test]
fn quicksync_skips_commit_when_nothing_is_staged() {
    let s = quicksync_next(QuicksyncStep::CheckStaged, ran(true, ""));
    assert!(matches!(s, QuicksyncStep::Push));
    let s = quicksync_next(QuicksyncStep::CheckStaged, not_started("x"));
    assert!(matches!(s, QuicksyncStep::Push));
}

#[test]
fn quicksync_failures() {
    assert_eq!(done(&quicksync_next(QuicksyncStep::Fetch, ran(false, "f"))), Some((false, "Fetch failed: f".to_string())));
    assert_eq!(done(&quicksync_next(QuicksyncStep::Fetch, not_started("e"))), Some((false, "Fetch failed: e".to_string())));
    let s = quicksync_next(QuicksyncStep::Rebase, ran(false, "conflict"));
    match &s {
        QuicksyncStep::AbortRebase { failure } => assert_eq!(failure, "Rebase failed: conflict"),
        _ => panic!("expected abort"),
    }
    assert_eq!(done(&quicksync_next(s, ran(true, ""))), Some((false, "Rebase failed: conflict".to_string())));
    assert_eq!(done(&quicksync_next(QuicksyncStep::Rebase, not_started("e"))), Some((false, "Rebase failed: e".to_string())));
    assert_eq!(done(&quicksync_next(QuicksyncStep::Add, not_started("e"))), Some((false, "Add failed: e".to_string())));
    assert!(matches!(quicksync_next(QuicksyncStep::Add, ran(false, "x")), QuicksyncStep::CheckStaged));
    assert_eq!(done(&quicksync_next(QuicksyncStep::Commit, ran(false, "c"))), Some((false, "Commit failed: c".to_string())));
    assert_eq!(done(&quicksync_next(QuicksyncStep::Push, ran(false, "p"))), Some((false, "Push failed: p".to_string())));
    assert_eq!(done(&quicksync_next(QuicksyncStep::Push, not_started("p"))), Some((false, "Push failed: p".to_string())));
}
