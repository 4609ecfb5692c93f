use ghall::app::{
    describe_gist, describe_repo, is_yes, App, DeleteType, InputMode, Popup, PopupType, RefreshKind,
    StatusKind, UploadField, ViewMode,
};
use ghall::config::{Column, Config};
use ghall::git::RepoStatus;
use ghall::input::{Key, Request};
use ghall::order::SortColumn;
use ghall::refresh::RefreshData;
use ghall::repo::{GistRow, GitHubCache, PathTable, RepoRow};
use ghall::tasks::{BackgroundTask, TaskKind, TaskResult};
use ghall::ui::repo_actions;

fn row(id: &str, owner: Option<&str>, path: Option<&str>) -> RepoRow {
    RepoRow {
        id: id.to_string(),
        owner: owner.map(|o| o.to_string()),
        name: id.to_string(),
        github_url: owner.map(|o| format!("https://github.com/{}/{}", o, id)),
        ssh_url: None,
        is_fork: false,
        fork_parent: None,
        is_private: false,
        is_archived: false,
        is_member: owner.is_some(),
        local_path: path.map(|p| p.to_string()),
        git_status: path.map(|_| RepoStatus::default()),
        last_commit_time: None,
        is_subrepo: false,
        parent_repo: None,
        fork_ahead: None,
        fork_behind: None,
        has_git: true,
    }
}

fn gist(id: &str, path: Option<&str>) -> GistRow {
    GistRow {
        id: id.to_string(),
        description: format!("gist {}", id),
        is_public: true,
        file_names: vec!["a.txt".to_string(), "b.txt".to_string()],
        html_url: format!("https://gist.github.com/{}", id),
        local_path: path.map(|p| p.to_string()),
        git_status: None,
        created_at: None,
        updated_at: None,
    }
}

fn snapshot(repos: Vec<RepoRow>, gists: Vec<GistRow>) -> RefreshData {
    RefreshData {
        github_username: Some("me".to_string()),
        repos,
        gists,
        error: None,
        github_cache: Some(GitHubCache { repos: vec![], gists: vec![] }),
        paths: PathTable::new(),
    }
}

fn app_with(repos: Vec<RepoRow>, gists: Vec<GistRow>) -> App {
    let mut config = Config::default();
    config.sort_column = "name".to_string();
    config.sort_ascending = true;
    let mut app = App::new("/root".to_string(), config, 1000);
    app.poll_refresh(snapshot(repos, gists));
    app
}

fn result(success: bool, invalidates: bool, stderr: Option<&str>) -> TaskResult {
    TaskResult {
        success,
        message: "done".to_string(),
        stderr: stderr.map(|s| s.to_string()),
        operation: "op x".to_string(),
        invalidates_github_cache: invalidates,
    }
}

#[test]
fn new_app_announces_loading() {
    let mut config = Config::default();
    config.sort_column = "Status".to_string();
    config.sort_ascending = true;
    config.show_private = false;
    let app = App::new("/root".to_string(), config, 42);
    assert_eq!(app.local_root, "/root");
    assert!(app.view_mode == ViewMode::Repos);
    assert!(app.sort_column == SortColumn::Status);
    assert!(app.sort_ascending);
    assert!(app.show_archived);
    assert!(!app.show_private);
    assert_eq!(app.status_message.as_deref(), Some("Loading..."));
    assert_eq!(app.status_time, Some(42));
    assert!(app.status_kind() == StatusKind::Loading);
    assert!(app.input_mode == InputMode::Normal);
    assert!(app.popup.is_none());
    assert_eq!(app.repos.len(), 0);
    assert!(!app.pending_refresh && !app.pending_local_refresh && !app.config_unsaved);
    assert_eq!(app.error_count(), 0);
    assert!(app.refresh_due().is_none());
}

#[test]
fn refresh_replaces_everything_together() {
    let mut app = app_with(vec![row("b", Some("o"), None), row("a", Some("o"), None)], vec![gist("g", None)]);
    assert_eq!(app.github_username.as_deref(), Some("me"));
    assert_eq!(app.repos.len(), 2);
    // sorted by name ascending
    assert_eq!(app.repos[0].id, "a");
    assert_eq!(app.gists.len(), 1);
    assert!(app.github_cache.is_some());
    assert_eq!(app.status_message.as_deref(), Some("Loaded 2 repos"));
    assert!(app.status_kind() == StatusKind::Completed);
    // a snapshot without user name and cache keeps both
    let mut data = snapshot(vec![row("z", None, Some("/z"))], vec![]);
    data.github_username = None;
    data.github_cache = None;
    data.paths.record("/z".to_string(), "/real/z".to_string());
    app.poll_refresh(data);
    assert_eq!(app.github_username.as_deref(), Some("me"));
    assert!(app.github_cache.is_some());
    assert_eq!(app.repos.len(), 1);
    assert_eq!(app.gists.len(), 0);
    assert_eq!(app.paths.canonical("/z"), Some("/real/z".to_string()));
    assert_eq!(app.status_message.as_deref(), Some("Loaded 1 repos"));
}

#[test]
fn refresh_error_is_shown_and_data_still_loads() {
    let mut app = app_with(vec![], vec![]);
    let mut data = snapshot(vec![row("x", None, Some("/x"))], vec![]);
    data.error = Some("not logged in".to_string());
    app.poll_refresh(data);
    assert_eq!(app.repos.len(), 1);
    assert_eq!(app.status_message.as_deref(), Some("not logged in"));
    assert!(app.status_kind() == StatusKind::Error);
    // an error stays
    app.tick_spinner(1_000_000);
    assert!(app.status_kind() == StatusKind::Error);
}

#[test]
fn refresh_clamps_selection() {
    let mut app = app_with(vec![row("a", None, Some("/a")), row("b", None, Some("/b")), row("c", None, Some("/c"))], vec![]);
    app.next();
    app.next();
    assert_eq!(app.selected, 2);
    app.poll_refresh(snapshot(vec![row("a", None, Some("/a"))], vec![]));
    assert_eq!(app.selected, 0);
    app.poll_refresh(snapshot(vec![], vec![]));
    assert_eq!(app.selected, 0);
}

#[test]
fn navigation_stays_in_the_list() {
    let mut app = app_with(vec![row("a", None, Some("/a")), row("b", None, Some("/b"))], vec![gist("g", None)]);
    app.previous();
    assert_eq!(app.selected, 0);
    app.next();
    assert_eq!(app.selected, 1);
    app.next();
    assert_eq!(app.selected, 1);
    app.select_row(0);
    assert_eq!(app.selected, 0);
    app.select_row(7);
    assert_eq!(app.selected, 0);
    app.select_row(1);
    app.toggle_view_mode();
    assert!(app.view_mode == ViewMode::Gists);
    assert_eq!(app.selected, 0);
    assert_eq!(app.visible_list_len(), 1);
    app.next();
    assert_eq!(app.selected, 0);
    assert!(app.get_selected_repo().is_none());
    assert_eq!(app.get_selected_gist().unwrap().id, "g");
    app.toggle_view_mode();
    assert!(app.view_mode == ViewMode::Repos);
}

#[test]
fn empty_list_ignores_navigation() {
    let mut app = app_with(vec![], vec![]);
    app.next();
    assert_eq!(app.selected, 0);
    assert!(app.get_selected_repo().is_none());
    assert!(app.pull_selected().is_none());
}

#[test]
fn filters_hide_rows_and_reset_selection() {
    let mut private = row("p", Some("o"), None);
    private.is_private = true;
    let mut archived = row("r", Some("o"), None);
    archived.is_archived = true;
    let mut app = app_with(vec![row("a", Some("o"), None), private, archived], vec![]);
    assert_eq!(app.visible_repos().len(), 3);
    app.next();
    app.toggle_show_private();
    assert!(!app.show_private && !app.config.show_private);
    assert!(app.config_unsaved);
    assert_eq!(app.selected, 0);
    let ids: Vec<String> = app.visible_repos().iter().map(|r| r.id.clone()).collect();
    assert_eq!(ids, vec!["a", "r"]);
    app.toggle_show_archived();
    assert_eq!(app.visible_list_len(), 1);
    app.toggle_show_archived();
    app.toggle_show_private();
    assert_eq!(app.visible_list_len(), 3);
}

#[test]
fn ignoring_hides_the_selected_row_and_keeps_selection_valid() {
    let mut app = app_with(vec![row("a", None, Some("/a")), row("b", None, Some("/b"))], vec![]);
    app.next();
    assert_eq!(app.get_selected_repo().unwrap().id, "b");
    app.toggle_ignore();
    assert!(app.config.ignored_repos.contains("b"));
    assert!(app.config_unsaved);
    assert_eq!(app.visible_list_len(), 1);
    assert_eq!(app.selected, 0);
    app.toggle_ignore();
    assert_eq!(app.visible_list_len(), 0);
    assert_eq!(app.selected, 0);
    app.toggle_ignore();
    assert_eq!(app.config.ignored_repos.len(), 2);
}

#[test]
fn ignored_popup_lists_sorted_and_unhides_the_selected() {
    let mut app = app_with(vec![row("b", None, Some("/b")), row("a", None, Some("/a")), row("c", None, Some("/c"))], vec![]);
    app.show_ignored_popup();
    assert_eq!(app.popup.as_ref().unwrap().content, vec!["No ignored repositories."]);
    app.select_row(1);
    app.toggle_ignore();
    app.select_row(0);
    app.toggle_ignore();
    // ignored in the order b, a; listed in the order a, b
    app.show_ignored_popup();
    {
        let p = app.popup.as_ref().unwrap();
        assert!(p.popup_type == PopupType::Ignored);
        assert_eq!(p.content, vec!["Ignored Repositories (press Enter to unhide):", "", "a", "b"]);
        assert_eq!(p.selected, 0);
    }
    // heading lines cannot be unhidden
    app.unhide_selected_in_popup();
    assert_eq!(app.config.ignored_repos.len(), 2);
    app.popup_prev();
    assert_eq!(app.popup.as_ref().unwrap().selected, 2);
    app.popup_next();
    assert_eq!(app.popup.as_ref().unwrap().selected, 3);
    app.popup_next();
    assert_eq!(app.popup.as_ref().unwrap().selected, 3);
    app.unhide_selected_in_popup();
    assert!(!app.config.ignored_repos.contains("b"));
    assert!(app.config.ignored_repos.contains("a"));
    let p = app.popup.as_ref().unwrap();
    assert_eq!(p.content, vec!["Ignored Repositories (press Enter to unhide):", "", "a"]);
    assert_eq!(p.selected, 0);
}

#[test]
fn sort_column_changes_are_noted_in_config() {
    let mut a = row("a", None, Some("/a"));
    a.git_status = Some(RepoStatus::default());
    let mut b = row("b", None, Some("/b"));
    let mut s = RepoStatus::default();
    s.dirty = true;
    b.git_status = Some(s);
    let mut app = app_with(vec![a, b], vec![]);
    assert!(app.sort_column == SortColumn::Name);
    app.config_unsaved = false;
    // Repository is followed by Type in the default order
    app.next_sort_column();
    assert!(app.sort_column == SortColumn::Type);
    assert_eq!(app.config.sort_column, "type");
    assert!(app.config_unsaved);
    app.prev_sort_column();
    app.prev_sort_column();
    assert!(app.sort_column == SortColumn::Origin);
    app.prev_sort_column();
    assert!(app.sort_column == SortColumn::Path);
    app.sort_column = SortColumn::Status;
    app.sort_repos();
    assert_eq!(app.repos[0].id, "b");
    app.toggle_sort_direction();
    assert!(!app.sort_ascending && !app.config.sort_ascending);
    assert_eq!(app.repos[0].id, "a");
}

#[test]
fn columns_are_moved_and_selected() {
    let mut app = app_with(vec![], vec![]);
    assert_eq!(app.visible_columns().len(), 10);
    assert_eq!(app.selected_column_index(), 0);
    app.move_column_left();
    assert!(app.visible_columns()[0] == Column::Origin);
    assert_eq!(app.selected_column_index(), 0);
    app.move_column_right();
    assert!(app.visible_columns()[0] == Column::Repository);
    assert!(app.visible_columns()[1] == Column::Origin);
    assert_eq!(app.selected_column_index(), 1);
    app.select_prev_column();
    app.select_prev_column();
    assert_eq!(app.selected_column_index(), 9);
    app.move_column_right();
    assert_eq!(app.selected_column_index(), 9);
    app.select_next_column();
    assert_eq!(app.selected_column_index(), 0);
    app.config.columns = vec![];
    app.select_next_column();
    app.select_prev_column();
    app.move_column_left();
    assert_eq!(app.selected_column_index(), 0);
}

#[test]
fn status_line_is_one_of_four() {
    let mut app = app_with(vec![], vec![]);
    app.set_status("working".to_string());
    assert!(app.status_kind() == StatusKind::Loading);
    app.set_status_error("bad".to_string());
    assert!(app.status_kind() == StatusKind::Error);
    // a new action replaces the error
    app.set_status("again".to_string());
    assert!(app.status_kind() == StatusKind::Loading);
    app.set_status_completed("ok".to_string());
    assert!(app.status_kind() == StatusKind::Completed);
    app.clear_status();
    assert!(app.status_kind() == StatusKind::Absent);
    assert!(app.status_message.is_none() && app.status_time.is_none());
}

#[test]
fn completed_message_clears_after_two_seconds() {
    let mut app = app_with(vec![], vec![]);
    app.tick_spinner(5000);
    app.set_status_completed("ok".to_string());
    assert_eq!(app.status_time, Some(5000));
    app.tick_spinner(6999);
    assert!(app.status_kind() == StatusKind::Completed);
    app.tick_spinner(7000);
    assert!(app.status_kind() == StatusKind::Absent);
}

#[test]
fn spinner_advances_only_while_loading() {
    let mut app = app_with(vec![], vec![]);
    let frame = app.spinner_frame;
    app.tick_spinner(1);
    assert_eq!(app.spinner_frame, frame);
    app.set_status("working".to_string());
    assert_eq!(app.spinner_char(), '⠋');
    app.tick_spinner(2);
    assert_eq!(app.spinner_char(), '⠙');
    for t in 0..9 {
        app.tick_spinner(3 + t);
    }
    assert_eq!(app.spinner_frame, 0);
    // loading stays however long it takes
    app.tick_spinner(1_000_000);
    assert!(app.status_kind() == StatusKind::Loading);
}

#[test]
fn each_result_is_taken_in_once() {
    let mut app = app_with(vec![], vec![]);
    let results = vec![
        result(false, false, Some("e1")),
        result(true, false, None),
        result(false, true, Some("")),
        result(false, false, None),
        result(false, true, Some("e2")),
        result(true, true, Some("ignored on success")),
    ];
    app.apply_task_results(&results, "10:00:00");
    assert_eq!(app.error_count(), 2);
    assert_eq!(app.error_log[0].error, "e1");
    assert_eq!(app.error_log[0].operation, "op x");
    assert_eq!(app.error_log[0].timestamp, "10:00:00");
    assert_eq!(app.error_log[1].error, "e2");
    assert!(app.pending_refresh && app.pending_local_refresh);
    assert_eq!(app.status_message.as_deref(), Some("done"));
    assert!(app.status_kind() == StatusKind::Completed);
}

#[test]
fn arrival_order_does_not_matter_for_what_is_pending() {
    let make = |order: &[usize]| {
        let all = [
            (false, false, Some("a")),
            (false, true, Some("b")),
            (true, false, None),
        ];
        let mut app = app_with(vec![], vec![]);
        let batch: Vec<TaskResult> = order.iter().map(|&i| result(all[i].0, all[i].1, all[i].2)).collect();
        app.poll_tasks(&batch);
        let mut errors: Vec<String> = app.error_log.iter().map(|e| e.error.clone()).collect();
        errors.sort();
        (app.pending_refresh, app.pending_local_refresh, errors)
    };
    let first = make(&[0, 1, 2]);
    assert_eq!(first, (true, true, vec!["a".to_string(), "b".to_string()]));
    for order in [[0, 2, 1], [1, 0, 2], [1, 2, 0], [2, 0, 1], [2, 1, 0]] {
        assert_eq!(make(&order), first);
    }
}

#[test]
fn full_refresh_wins_over_local_refresh() {
    let mut app = app_with(vec![], vec![]);
    app.apply_task_results(&vec![result(true, false, None), result(true, true, None)], "t");
    assert!(app.refresh_due() == Some(RefreshKind::Full));
    let task = app.start_pending_refresh();
    assert!(matches!(task, Some(BackgroundTask::Refresh)));
    assert!(!app.pending_refresh && !app.pending_local_refresh);
    assert!(app.github_cache.is_none());
    assert_eq!(app.status_message.as_deref(), Some("Refreshing..."));
    // several completions give one refresh
    assert!(app.start_pending_refresh().is_none());
}

#[test]
fn local_refresh_uses_the_kept_data() {
    let mut app = app_with(vec![], vec![gist("g", None)]);
    app.github_cache = Some(GitHubCache { repos: vec![], gists: vec![gist("g", None)] });
    app.apply_task_results(&vec![result(true, false, None), result(true, false, None)], "t");
    assert!(app.refresh_due() == Some(RefreshKind::LocalOnly));
    match app.start_pending_refresh() {
        Some(BackgroundTask::LocalRefresh { cache }) => assert_eq!(cache.gists.len(), 1),
        _ => panic!("expected a local refresh"),
    }
    assert_eq!(app.status_message.as_deref(), Some("Updating..."));
    assert!(app.github_cache.is_none());
    assert!(app.start_pending_refresh().is_none());
    // without kept data a local refresh becomes a full one
    app.apply_task_results(&vec![result(true, false, None)], "t");
    assert!(matches!(app.start_pending_refresh(), Some(BackgroundTask::Refresh)));
    assert_eq!(app.status_message.as_deref(), Some("Refreshing..."));
}

#[test]
fn orgs_message_fills_the_form_and_nothing_else() {
    let mut app = app_with(vec![row("x", None, Some("/x"))], vec![]);
    let task = app.show_upload_form();
    assert!(matches!(task, Some(BackgroundTask::FetchOrgs)));
    assert!(app.input_mode == InputMode::UploadForm);
    assert!(app.popup.as_ref().unwrap().popup_type == PopupType::Upload);
    let status_before = app.status_message.clone();
    let orgs = TaskResult {
        success: true,
        message: "__ORGS__:one,,two".to_string(),
        stderr: None,
        operation: String::new(),
        invalidates_github_cache: false,
    };
    app.apply_task_results(&vec![orgs], "t");
    assert_eq!(app.upload_form.as_ref().unwrap().orgs, vec!["one", "two"]);
    assert_eq!(app.status_message, status_before);
    assert!(!app.pending_refresh && !app.pending_local_refresh);
}

#[test]
fn upload_form_is_edited_and_submitted() {
    let mut app = app_with(vec![row("proj", None, Some("/r/proj"))], vec![]);
    app.show_upload_form();
    {
        let f = app.upload_form.as_ref().unwrap();
        assert_eq!(f.name, "proj");
        assert_eq!(f.local_path, "/r/proj");
        assert!(f.private);
        assert_eq!(f.selected_org, 0);
        assert!(f.active_field == UploadField::Name);
    }
    app.upload_form.as_mut().unwrap().orgs = vec!["org1".to_string(), "org2".to_string()];
    app.handle_char('2');
    app.handle_backspace();
    app.handle_char('s');
    app.upload_form_next_field();
    app.handle_char('h');
    app.handle_char('i');
    app.upload_form_next_field();
    app.handle_char('x');
    assert!(app.upload_form.as_ref().unwrap().private);
    app.handle_char(' ');
    assert!(!app.upload_form.as_ref().unwrap().private);
    app.upload_form_toggle_private();
    app.upload_form_next_field();
    app.handle_char(' ');
    assert_eq!(app.upload_form.as_ref().unwrap().selected_org, 1);
    app.upload_form_next_org();
    app.upload_form_next_org();
    assert_eq!(app.upload_form.as_ref().unwrap().selected_org, 0);
    app.upload_form_prev_org();
    assert_eq!(app.upload_form.as_ref().unwrap().selected_org, 2);
    app.upload_form_next_field();
    assert!(app.upload_form.as_ref().unwrap().active_field == UploadField::Name);
    app.upload_form_prev_field();
    assert!(app.upload_form.as_ref().unwrap().active_field == UploadField::Org);
    match app.submit_upload_form() {
        Some(BackgroundTask::CreateRepo { options }) => {
            assert_eq!(options.name, "projs");
            assert_eq!(options.path, "/r/proj");
            assert_eq!(options.description.as_deref(), Some("hi"));
            assert!(options.private);
            assert_eq!(options.org.as_deref(), Some("org2"));
        }
        _ => panic!("expected creation"),
    }
    assert!(app.upload_form.is_none());
    assert!(app.popup.is_none());
    assert!(app.input_mode == InputMode::Normal);
    assert_eq!(app.status_message.as_deref(), Some("Creating GitHub repo projs..."));
    assert!(app.submit_upload_form().is_none());
}

#[test]
fn upload_form_only_for_local_only_repositories() {
    let mut app = app_with(vec![row("x", Some("o"), Some("/x"))], vec![]);
    assert!(app.show_upload_form().is_none());
    assert!(app.upload_form.is_none());
    let mut app = app_with(vec![row("x", None, Some("/x"))], vec![]);
    app.show_upload_form();
    app.cancel_upload_form();
    assert!(app.upload_form.is_none() && app.popup.is_none());
    assert!(app.input_mode == InputMode::Normal);
}

#[test]
fn operations_on_the_selected_repository() {
    let mut app = app_with(vec![row("x", Some("o"), Some("/r/x"))], vec![]);
    match app.pull_selected() {
        Some(BackgroundTask::OnPath { kind, name, path }) => {
            assert!(kind == TaskKind::Pull);
            assert_eq!(name, "x");
            assert_eq!(path, "/r/x");
        }
        _ => panic!("expected pull"),
    }
    assert_eq!(app.status_message.as_deref(), Some("Pulling x..."));
    assert!(app.status_kind() == StatusKind::Loading);
    assert!(matches!(app.push_selected(), Some(BackgroundTask::OnPath { kind: TaskKind::Push, .. })));
    assert!(matches!(app.sync_selected(), Some(BackgroundTask::OnPath { kind: TaskKind::Sync, .. })));
    assert!(matches!(app.quicksync_selected(), Some(BackgroundTask::OnPath { kind: TaskKind::Quicksync, .. })));
    assert_eq!(app.status_message.as_deref(), Some("Quicksyncing x..."));
    // it is a git repository already, and it has a local copy
    assert!(app.init_repo().is_none());
    assert!(app.clone_selected().is_none());
    assert_eq!(app.status_message.as_deref(), Some("Quicksyncing x..."));
}

#[test]
fn init_only_for_folders_without_git() {
    let mut folder = row("notes", None, Some("/r/local/notes"));
    folder.has_git = false;
    let mut app = app_with(vec![folder], vec![]);
    assert!(matches!(app.init_repo(), Some(BackgroundTask::OnPath { kind: TaskKind::Init, .. })));
    assert_eq!(app.status_message.as_deref(), Some("Initializing git repo in notes..."));
}

#[test]
fn clone_goes_to_the_place_in_the_layout() {
    let mut app = app_with(vec![row("Foo", Some("Alice"), None)], vec![]);
    assert!(app.pull_selected().is_none());
    match app.clone_selected() {
        Some(BackgroundTask::Clone { name, url, path }) => {
            assert_eq!(name, "Foo");
            assert_eq!(url, "https://github.com/Alice/Foo");
            assert_eq!(path, "/root/github.com/alice/foo");
        }
        _ => panic!("expected clone"),
    }
    assert_eq!(app.status_message.as_deref(), Some("Cloning Foo..."));
}

#[test]
fn visibility_and_archive() {
    let mut r = row("x", Some("o"), None);
    r.is_private = true;
    r.is_archived = true;
    let mut app = app_with(vec![r], vec![]);
    assert!(app.can_change_visibility(&app.repos[0]));
    match app.toggle_private() {
        Some(BackgroundTask::SetVisibility { name, visibility, archived }) => {
            assert_eq!(name, "o/x");
            assert_eq!(visibility, "public");
            assert!(archived);
        }
        _ => panic!("expected visibility change"),
    }
    assert_eq!(app.status_message.as_deref(), Some("Unarchiving, setting o/x to public, then re-archiving..."));
    match app.toggle_archived() {
        Some(BackgroundTask::SetArchived { name, archive }) => {
            assert_eq!(name, "o/x");
            assert!(!archive);
        }
        _ => panic!("expected unarchive"),
    }
    assert_eq!(app.status_message.as_deref(), Some("Unarchiving o/x..."));
    // not a member: no archiving
    let mut r = row("x", Some("o"), None);
    r.is_member = false;
    let mut app = app_with(vec![r], vec![]);
    assert!(app.toggle_archived().is_none());
    assert!(!app.can_change_visibility(&app.repos[0]));
    assert!(matches!(app.toggle_private(), Some(BackgroundTask::SetVisibility { archived: false, .. })));
    assert_eq!(app.status_message.as_deref(), Some("Setting o/x to private..."));
    // no owner: nothing
    let mut app = app_with(vec![row("x", None, Some("/x"))], vec![]);
    assert!(app.toggle_private().is_none());
}

#[test]
fn local_delete_needs_confirmation() {
    let mut app = app_with(vec![row("x", Some("o"), Some("/r/x"))], vec![]);
    app.start_delete_confirm();
    assert!(app.input_mode == InputMode::ConfirmDelete);
    assert!(app.pending_delete == Some(DeleteType::LocalRepo));
    app.handle_char('n');
    assert_eq!(app.confirm_buffer, "n");
    assert!(!app.is_confirmed());
    assert!(app.delete_local_repo().is_none());
    assert!(app.input_mode == InputMode::Normal);
    assert!(app.pending_delete.is_none());
    assert_eq!(app.confirm_buffer, "");

    app.start_delete_confirm();
    app.handle_char('Y');
    app.handle_char('e');
    app.handle_char('x');
    app.handle_backspace();
    app.handle_char('S');
    assert!(app.is_confirmed());
    match app.delete_local_repo() {
        Some(BackgroundTask::OnPath { kind, name, path }) => {
            assert!(kind == TaskKind::DeleteLocal);
            assert_eq!(name, "x");
            assert_eq!(path, "/r/x");
        }
        _ => panic!("expected deletion"),
    }
    assert_eq!(app.status_message.as_deref(), Some("Deleting x..."));
    assert!(app.input_mode == InputMode::Normal);
    assert!(app.pending_delete.is_none());
}

#[test]
fn delete_confirm_only_where_there_is_something_to_delete() {
    let mut app = app_with(vec![row("x", Some("o"), None)], vec![]);
    app.start_delete_confirm();
    assert!(app.input_mode == InputMode::Normal);
    app.start_delete_remote_confirm();
    assert!(app.input_mode == InputMode::ConfirmDelete);
    assert!(app.pending_delete == Some(DeleteType::RemoteRepo));
    app.handle_char('y');
    match app.delete_remote_repo() {
        Some(BackgroundTask::DeleteRemote { name }) => assert_eq!(name, "o/x"),
        _ => panic!("expected remote deletion"),
    }
    assert_eq!(app.status_message.as_deref(), Some("Deleting remote o/x..."));
    let mut app = app_with(vec![row("x", None, Some("/x"))], vec![]);
    app.start_delete_remote_confirm();
    assert!(app.input_mode == InputMode::Normal);
}

#[test]
fn gist_operations() {
    let mut app = app_with(vec![], vec![gist("0123456789abcdef", None), gist("short", Some("/r/gists/short"))]);
    app.toggle_view_mode();
    assert!(app.pull_gist().is_none());
    match app.clone_gist() {
        Some(BackgroundTask::CloneGist { id, name, path }) => {
            assert_eq!(id, "0123456789abcdef");
            assert_eq!(name, "01234567");
            assert_eq!(path, "/root/gists/0123456789abcdef");
        }
        _ => panic!("expected gist clone"),
    }
    assert_eq!(app.status_message.as_deref(), Some("Cloning gist 01234567..."));
    app.next();
    assert!(app.clone_gist().is_none());
    match app.pull_gist() {
        Some(BackgroundTask::OnPath { kind, name, path }) => {
            assert!(kind == TaskKind::PullGist);
            assert_eq!(name, "short");
            assert_eq!(path, "/r/gists/short");
        }
        _ => panic!("expected gist pull"),
    }
    assert!(matches!(app.push_gist(), Some(BackgroundTask::OnPath { kind: TaskKind::PushGist, .. })));
    assert!(matches!(app.sync_gist(), Some(BackgroundTask::OnPath { kind: TaskKind::SyncGist, .. })));
    app.start_gist_delete_confirm();
    assert!(app.pending_delete == Some(DeleteType::Gist));
    app.handle_char('y');
    match app.delete_gist() {
        Some(BackgroundTask::DeleteGist { id, name }) => {
            assert_eq!(id, "short");
            assert_eq!(name, "short");
        }
        _ => panic!("expected gist deletion"),
    }
    assert_eq!(app.status_message.as_deref(), Some("Deleting gist short..."));
}

#[test]
fn reorganize_moves_to_the_layout() {
    let mut app = app_with(vec![row("x", Some("o"), Some("/root/x"))], vec![]);
    assert_eq!(
        app.reorganize_candidate(),
        Some(("x".to_string(), "/root/x".to_string(), "/root/github.com/o/x".to_string()))
    );
    match app.reorganize_to_ghq(Some("/root/x"), None) {
        Some(BackgroundTask::Reorganize { name, from, to }) => {
            assert_eq!(name, "x");
            assert_eq!(from, "/root/x");
            assert_eq!(to, "/root/github.com/o/x");
        }
        _ => panic!("expected move"),
    }
    assert_eq!(app.status_message.as_deref(), Some("Reorganizing x..."));
    assert!(app.reorganize_to_ghq(Some("/same"), Some("/same")).is_none());
    assert_eq!(app.status_message.as_deref(), Some("x is already in ghq path"));
    assert!(app.reorganize_to_ghq(Some("/a"), Some("/b")).is_none());
    assert_eq!(app.status_message.as_deref(), Some("Destination already exists for x"));
    assert!(app.reorganize_to_ghq(None, Some("/b")).is_none());
    assert_eq!(app.status_message.as_deref(), Some("Destination already exists for x"));
    // a repository that is in place is not moved
    let mut app = app_with(vec![row("x", Some("o"), Some("/root/github.com/o/x"))], vec![]);
    assert_eq!(app.reorganize_candidate(), None);
    assert!(app.reorganize_to_ghq(None, None).is_none());
}

#[test]
fn help_and_popups() {
    let mut app = app_with(vec![], vec![]);
    app.toggle_help();
    {
        let p = app.popup.as_ref().unwrap();
        assert!(p.popup_type == PopupType::Help);
        assert_eq!(p.content.len(), 51);
        assert_eq!(p.scroll, 0);
    }
    app.scroll_up();
    assert_eq!(app.popup.as_ref().unwrap().scroll, 0);
    for _ in 0..40 {
        app.scroll_down();
    }
    assert_eq!(app.popup.as_ref().unwrap().scroll, 31);
    app.scroll_up();
    assert_eq!(app.popup.as_ref().unwrap().scroll, 30);
    assert!(app.popup_text().unwrap().starts_with("HEADER|Navigation\n"));
    app.copy_popup_to_clipboard(true);
    assert_eq!(app.status_message.as_deref(), Some("Copied to clipboard"));
    app.copy_popup_to_clipboard(false);
    assert_eq!(app.status_message.as_deref(), Some("Failed to copy (install wl-copy or xclip)"));
    app.toggle_help();
    assert!(app.popup.is_none());
    assert!(app.popup_text().is_none());
    app.clear_status();
    app.copy_popup_to_clipboard(true);
    assert!(app.status_message.is_none());
    app.scroll_down();
    app.popup_next();
    assert!(app.popup.is_none());
    app.toggle_view_mode();
    app.toggle_help();
    assert_eq!(app.popup.as_ref().unwrap().content.len(), 16);
    app.close_popup();
    assert!(app.popup.is_none());
}

#[test]
fn popup_scrolls_within_its_content() {
    let mut p = Popup::new(PopupType::Details, vec!["a".to_string(), "b".to_string(), "c".to_string()]);
    assert_eq!((p.scroll, p.selected), (0, 0));
    p.scroll_down(2);
    assert_eq!(p.scroll, 1);
    p.scroll_down(2);
    assert_eq!(p.scroll, 1);
    p.scroll_down(5);
    assert_eq!(p.scroll, 0);
    p.scroll_up();
    assert_eq!(p.scroll, 0);
}

#[test]
fn error_log_popup() {
    let mut app = app_with(vec![], vec![]);
    app.show_error_log();
    assert!(app.popup.is_none());
    assert_eq!(app.status_message.as_deref(), Some("No errors logged"));
    app.apply_task_results(&vec![result(false, false, Some("boom")), result(false, false, Some("bang"))], "09:08:07");
    app.show_error_log();
    let p = app.popup.as_ref().unwrap();
    assert!(p.popup_type == PopupType::Errors);
    assert_eq!(p.content, vec!["[09:08:07] op x", "boom", "", "[09:08:07] op x", "bang", ""]);
}

#[test]
fn details_of_a_repository() {
    let mut r = row("x", Some("o"), Some("/r/x"));
    r.is_fork = true;
    r.fork_parent = Some("up/x".to_string());
    r.is_private = true;
    let mut s = RepoStatus::default();
    s.branch = "main".to_string();
    s.has_remote = true;
    s.ahead = 2;
    s.behind = 10;
    s.staged = 3;
    s.untracked = 4;
    r.git_status = Some(s);
    assert_eq!(
        describe_repo(&r),
        vec![
            "Name: x",
            "Owner: o",
            "",
            "GitHub: https://github.com/o/x",
            "Local: /r/x",
            "",
            "Fork of: up/x",
            "Private: yes",
            "",
            "Git Status:",
            "  Branch: main",
            "  Ahead: 2, Behind: 10",
            "  Dirty: 3 staged, 4 untracked",
        ]
    );
    let mut l = row("y", None, Some("/y"));
    l.is_subrepo = true;
    l.git_status = Some(RepoStatus::default());
    assert_eq!(
        describe_repo(&l),
        vec![
            "Name: y",
            "Owner: (local)",
            "",
            "Local: /y",
            "",
            "Subrepo of: unknown",
            "Private: no",
            "",
            "Git Status:",
            "  Branch: ",
            "  No upstream configured",
        ]
    );
    assert_eq!(describe_repo(&row("z", Some("o"), None)).len(), 6);
}

#[test]
fn details_of_a_gist() {
    assert_eq!(
        describe_gist(&gist("abc", Some("/g/abc"))),
        vec![
            "Description: gist abc",
            "ID: abc",
            "Public: yes",
            "",
            "URL: https://gist.github.com/abc",
            "Local: /g/abc",
            "",
            "Files (2):",
            "  a.txt",
            "  b.txt",
        ]
    );
    let mut app = app_with(vec![row("x", Some("o"), None)], vec![gist("abc", None)]);
    app.show_details();
    assert!(app.popup.as_ref().unwrap().popup_type == PopupType::Details);
    assert_eq!(app.popup.as_ref().unwrap().content[0], "Name: x");
    app.toggle_view_mode();
    app.show_details();
    assert_eq!(app.popup.as_ref().unwrap().content[1], "ID: abc");
    let mut empty = app_with(vec![], vec![]);
    empty.show_details();
    assert!(empty.popup.is_none());
}

#[test]
fn mouse_click_selects_a_row() {
    let mut app = app_with(vec![row("a", None, Some("/a")), row("b", None, Some("/b"))], vec![]);
    assert!(!app.handle_mouse_click(5, 0));
    app.table_area = Some((3, 10));
    assert!(!app.handle_mouse_click(4, 0));
    assert!(app.handle_mouse_click(6, 0));
    assert_eq!(app.selected, 1);
    assert!(app.handle_mouse_click(5, 0));
    assert_eq!(app.selected, 0);
    // inside the table, below the last row
    assert!(app.handle_mouse_click(12, 0));
    assert_eq!(app.selected, 0);
    assert!(!app.handle_mouse_click(13, 0));
    app.table_area = Some((u16::MAX, u16::MAX));
    assert!(!app.handle_mouse_click(u16::MAX, 0));
}

#[test]
fn upload_fields_cycle() {
    let mut f = UploadField::Name;
    for expected in [UploadField::Description, UploadField::Private, UploadField::Org, UploadField::Name] {
        f = f.next();
        assert!(f == expected);
    }
    for expected in [UploadField::Org, UploadField::Private, UploadField::Description, UploadField::Name] {
        f = f.prev();
        assert!(f == expected);
    }
}

#[test]
fn actions_follow_the_selection() {
    let app = app_with(vec![row("x", Some("o"), Some("/root/x"))], vec![]);
    let a = repo_actions(&app);
    assert!(a.has_local && a.has_github && a.can_change_visibility && a.needs_ghq);
    assert!(!a.is_remote_only && !a.is_local_only && !a.is_dirty);
    let none = repo_actions(&app_with(vec![], vec![]));
    assert!(!none.has_local && !none.has_github && !none.needs_ghq);
}

#[test]
fn input_modes_take_keys_as_text() {
    let mut app = app_with(vec![row("a", Some("o"), Some("/r/a")), row("b", Some("o"), Some("/r/b"))], vec![]);
    assert!(matches!(app.handle_key(Key::Char('d')), Request::Nothing));
    assert!(app.input_mode == InputMode::ConfirmDelete);
    // `j` and `q` are letters of the answer now
    assert!(matches!(app.handle_key(Key::Char('j')), Request::Nothing));
    assert!(matches!(app.handle_key(Key::Char('q')), Request::Nothing));
    assert_eq!(app.selected, 0);
    assert_eq!(app.confirm_buffer, "jq");
    assert!(matches!(app.handle_key(Key::Down), Request::Nothing));
    assert_eq!(app.selected, 0);
    app.handle_key(Key::Backspace);
    app.handle_key(Key::Backspace);
    app.handle_key(Key::Char('y'));
    match app.handle_key(Key::Enter) {
        Request::Run(BackgroundTask::OnPath { kind, path, .. }) => {
            assert!(kind == TaskKind::DeleteLocal);
            assert_eq!(path, "/r/a");
        }
        _ => panic!("expected deletion"),
    }
    assert!(app.input_mode == InputMode::Normal);
    app.handle_key(Key::Char('D'));
    assert!(app.pending_delete == Some(DeleteType::RemoteRepo));
    assert!(matches!(app.handle_key(Key::Esc), Request::Nothing));
    assert!(app.input_mode == InputMode::Normal && app.pending_delete.is_none());
}

#[test]
fn keys_of_the_list() {
    let mut folder = row("n", None, Some("/r/n"));
    folder.has_git = false;
    let mut app = app_with(vec![row("a", Some("o"), Some("/r/a")), folder, row("z", Some("o"), None)], vec![gist("g", None)]);
    assert!(matches!(app.handle_key(Key::Char('l')), Request::Run(BackgroundTask::OnPath { kind: TaskKind::Pull, .. })));
    match app.handle_key(Key::Char('o')) {
        Request::OpenUrl(url) => assert_eq!(url, "https://github.com/o/a"),
        _ => panic!("expected url"),
    }
    match app.handle_key(Key::Char('g')) {
        Request::OpenGitClient(path) => assert_eq!(path, "/r/a"),
        _ => panic!("expected git client"),
    }
    match app.handle_key(Key::Char('O')) {
        Request::OpenFolder(path) => assert_eq!(path, "/r/a"),
        _ => panic!("expected folder"),
    }
    match app.handle_key(Key::Char('z')) {
        Request::Reorganize { current, expected } => {
            assert_eq!(current, "/r/a");
            assert_eq!(expected, "/root/github.com/o/a");
        }
        _ => panic!("expected reorganize"),
    }
    assert!(matches!(app.handle_key(Key::Char('j')), Request::Nothing));
    assert_eq!(app.selected, 1);
    // a folder without git is initialised, not hidden
    assert!(matches!(app.handle_key(Key::Char('i')), Request::Run(BackgroundTask::OnPath { kind: TaskKind::Init, .. })));
    assert!(app.config.ignored_repos.is_empty());
    assert!(matches!(app.handle_key(Key::Char('u')), Request::Run(BackgroundTask::FetchOrgs)));
    assert!(app.input_mode == InputMode::UploadForm);
    assert!(matches!(app.handle_key(Key::Esc), Request::Nothing));
    app.handle_key(Key::Down);
    assert_eq!(app.selected, 2);
    assert!(matches!(app.handle_key(Key::Char('n')), Request::Run(BackgroundTask::Clone { .. })));
    assert!(matches!(app.handle_key(Key::Char('g')), Request::Nothing));
    app.handle_key(Key::Char('i'));
    assert!(app.config.ignored_repos.contains("z"));
    app.handle_key(Key::Char('v'));
    assert!(!app.sort_ascending);
    app.handle_key(Key::Right);
    assert!(app.sort_column == SortColumn::Type);
    assert!(matches!(app.handle_key(Key::Char('r')), Request::Run(BackgroundTask::Refresh)));
    assert!(matches!(app.handle_key(Key::Other), Request::Nothing));
    app.handle_key(Key::Tab);
    assert!(app.view_mode == ViewMode::Gists);
    assert!(matches!(app.handle_key(Key::Char('n')), Request::Run(BackgroundTask::CloneGist { .. })));
    assert!(matches!(app.handle_key(Key::Char('l')), Request::Nothing));
    app.handle_key(Key::Char('d'));
    assert!(app.pending_delete == Some(DeleteType::Gist));
    app.handle_key(Key::Esc);
    assert!(matches!(app.handle_key(Key::Char('q')), Request::Quit));
    assert!(matches!(app.handle_key(Key::Esc), Request::Quit));
}

#[test]
fn keys_of_popups() {
    let mut app = app_with(vec![row("a", None, Some("/a")), row("b", None, Some("/b"))], vec![]);
    app.handle_key(Key::Char('?'));
    assert!(app.popup.is_some());
    // the list does not move below a popup
    app.handle_key(Key::Char('j'));
    assert_eq!(app.selected, 0);
    assert_eq!(app.popup.as_ref().unwrap().scroll, 1);
    app.handle_key(Key::Up);
    assert_eq!(app.popup.as_ref().unwrap().scroll, 0);
    match app.handle_key(Key::Char('y')) {
        Request::CopyPopup(text) => assert!(text.starts_with("HEADER|Navigation")),
        _ => panic!("expected copy"),
    }
    assert!(matches!(app.handle_key(Key::Char('q')), Request::Nothing));
    assert!(app.popup.is_none());
    app.handle_key(Key::Char('i'));
    app.handle_key(Key::Char('I'));
    assert!(app.popup.as_ref().unwrap().popup_type == PopupType::Ignored);
    app.handle_key(Key::Char('k'));
    assert_eq!(app.popup.as_ref().unwrap().selected, 2);
    app.handle_key(Key::Enter);
    assert!(app.config.ignored_repos.is_empty());
    app.handle_key(Key::Esc);
    assert!(app.popup.is_none());
    app.handle_key(Key::Enter);
    assert!(app.popup.as_ref().unwrap().popup_type == PopupType::Details);
    app.handle_key(Key::Enter);
    assert!(app.popup.is_none());
}

#[test]
fn keys_of_the_upload_form() {
    let mut app = app_with(vec![row("x", None, Some("/x"))], vec![]);
    app.handle_key(Key::Char('u'));
    app.upload_form.as_mut().unwrap().orgs = vec!["org".to_string()];
    app.handle_key(Key::Char('q'));
    assert_eq!(app.upload_form.as_ref().unwrap().name, "xq");
    app.handle_key(Key::Tab);
    app.handle_key(Key::Down);
    assert!(app.upload_form.as_ref().unwrap().active_field == UploadField::Private);
    app.handle_key(Key::Left);
    assert!(!app.upload_form.as_ref().unwrap().private);
    app.handle_key(Key::Right);
    assert!(app.upload_form.as_ref().unwrap().private);
    app.handle_key(Key::Tab);
    app.handle_key(Key::Right);
    assert_eq!(app.upload_form.as_ref().unwrap().selected_org, 1);
    app.handle_key(Key::Left);
    assert_eq!(app.upload_form.as_ref().unwrap().selected_org, 0);
    app.handle_key(Key::BackTab);
    app.handle_key(Key::Up);
    assert!(app.upload_form.as_ref().unwrap().active_field == UploadField::Description);
    match app.handle_key(Key::Enter) {
        Request::Run(BackgroundTask::CreateRepo { options }) => {
            assert_eq!(options.name, "xq");
            assert_eq!(options.description, None);
            assert_eq!(options.org, None);
        }
        _ => panic!("expected creation"),
    }
}

#[test]
fn only_y_and_yes_confirm() {
    assert!(is_yes("y"));
    assert!(is_yes("yes"));
    for other in ["", "Y", "YES", "Yes", "ye", "yess", " y", "y ", "n", "no"] {
        assert!(!is_yes(other));
    }
}

#[test]
fn new_operation_leaves_nothing_of_an_error() {
    let mut app = app_with(vec![], vec![]);
    app.set_status_error("bad".to_string());
    assert!(app.status_is_error && !app.status_is_loading);
    app.set_status("again".to_string());
    assert_eq!(app.status_message.as_deref(), Some("again"));
    assert!(app.status_is_loading);
    assert!(!app.status_is_error);

    app.set_status_error("bad".to_string());
    app.trigger_refresh();
    assert!(app.status_is_loading);
    assert!(!app.status_is_error);
    assert!(app.status_kind() == StatusKind::Loading);

    app.set_status_error("bad".to_string());
    app.set_status_completed("ok".to_string());
    assert!(!app.status_is_loading && !app.status_is_error);
    app.set_status_error("bad".to_string());
    app.clear_status();
    assert!(!app.status_is_loading && !app.status_is_error);
}
