//! What a key does, by the mode that the application is in.
//!
//! While the user is asked to confirm a deletion or fills in the upload
//! form, keys edit the answer or the form and nothing else. While a popup
//! is open, keys scroll or close it. Only otherwise do keys move through
//! the list and start operations.

use crate::app::{App, AppModel, DeleteType, InputMode, PopupType, UploadField, ViewMode};
use crate::tasks::{BackgroundTask, BackgroundTaskModel, TaskKind};
use vstd::prelude::*;

verus! {

/// A key as far as the application tells keys apart.
#[derive(Clone, Copy, Debug, PartialEq, Eq, Structural)]
pub enum Key {
    Char(char),
    Enter,
    Esc,
    Backspace,
    Tab,
    BackTab,
    Up,
    Down,
    Left,
    Right,
    Other,
}

/// What is left for the caller to do after a key.
#[derive(Debug)]
pub enum Request {
    Nothing,
    /// End the application.
    Quit,
    /// Run the operation in the background.
    Run(BackgroundTask),
    /// Copy the text to the clipboard and tell the application how it went.
    CopyPopup(String),
    /// Show the address in the browser.
    OpenUrl(String),
    /// Show the folder in the file manager.
    OpenFolder(String),
    /// Run the git client in the folder, then refresh the local data.
    OpenGitClient(String),
    /// Find the canonical forms of where the repository is and of where
    /// it is wanted, and ask the application to move it.
    Reorganize { current: String, expected: String },
}

/// The mathematical content of a [`Request`].
pub enum RequestModel {
    Nothing,
    Quit,
    Run(BackgroundTaskModel),
    CopyPopup(Seq<char>),
    OpenUrl(Seq<char>),
    OpenFolder(Seq<char>),
    OpenGitClient(Seq<char>),
    Reorganize { current: Seq<char>, expected: Seq<char> },
}

impl DeepView for Request {
    type V = RequestModel;

    open spec fn deep_view(&self) -> RequestModel {
        match self {
            Request::Nothing => RequestModel::Nothing,
            Request::Quit => RequestModel::Quit,
            Request::Run(task) => RequestModel::Run(task@),
            Request::CopyPopup(text) => RequestModel::CopyPopup(text@),
            Request::OpenUrl(url) => RequestModel::OpenUrl(url@),
            Request::OpenFolder(path) => RequestModel::OpenFolder(path@),
            Request::OpenGitClient(path) => RequestModel::OpenGitClient(path@),
            Request::Reorganize { current, expected } => RequestModel::Reorganize {
                current: current@,
                expected: expected@,
            },
        }
    }
}

impl View for Request {
    type V = RequestModel;

    open spec fn view(&self) -> RequestModel {
        self.deep_view()
    }
}

/// The request to run `task`, if there is one.
pub open spec fn run(task: Option<BackgroundTaskModel>) -> RequestModel {
    match task {
        Some(t) => RequestModel::Run(t),
        None => RequestModel::Nothing,
    }
}

fn run_task(task: Option<BackgroundTask>) -> (r: Request)
    ensures
        r@ == run(task.deep_view()),
{
    match task {
        Some(t) => Request::Run(t),
        None => Request::Nothing,
    }
}

impl AppModel {
    /// What is deleted when the user confirms: what the request for
    /// confirmation was about.
    pub open spec fn pending_delete_task(self) -> Option<BackgroundTaskModel> {
        match self.pending_delete {
            Some(DeleteType::RemoteRepo) => self.delete_remote_task(),
            Some(DeleteType::Gist) => self.delete_gist_task(),
            _ => match self.view_mode {
                ViewMode::Repos => self.path_task(TaskKind::DeleteLocal),
                ViewMode::Gists => self.delete_gist_task(),
            },
        }
    }

    /// The effect of a key while the user is asked to confirm a deletion:
    /// Enter answers, Esc gives up, and any other key edits the answer.
    pub open spec fn confirm_key(self, key: Key) -> (AppModel, RequestModel) {
        match key {
            Key::Esc => (
                AppModel { pending_delete: None, ..self.with_popup_closed() },
                RequestModel::Nothing,
            ),
            Key::Enter => (
                self.after_delete_answer(self.pending_delete_task()),
                run(self.delete_task(self.pending_delete_task())),
            ),
            Key::Char(c) => (self.with_char(c), RequestModel::Nothing),
            Key::Backspace => (self.without_last_char(), RequestModel::Nothing),
            _ => (self, RequestModel::Nothing),
        }
    }

    /// With the visibility or the owner of the upload form changed, where
    /// one of these fields is edited: to the other visibility, and to the
    /// next owner (`forward`) or the previous one.
    pub open spec fn with_choice_changed(self, forward: bool) -> AppModel {
        match self.upload_form {
            Some(f) => match f.active_field {
                UploadField::Private => self.with_form(
                    crate::app::UploadFormModel { private: !f.private, ..f },
                ),
                UploadField::Org => if forward {
                    self.with_form(f.with_next_org())
                } else {
                    self.with_form(f.with_prev_org())
                },
                _ => self,
            },
            None => self,
        }
    }

    /// With the field of the upload form after (`forward`) or before the
    /// current one edited.
    pub open spec fn with_field_changed(self, forward: bool) -> AppModel {
        match self.upload_form {
            Some(f) => self.with_form(
                crate::app::UploadFormModel {
                    active_field: if forward {
                        f.active_field.following()
                    } else {
                        f.active_field.preceding()
                    },
                    ..f
                },
            ),
            None => self,
        }
    }

    /// The effect of a key while the upload form is open: Enter submits,
    /// Esc gives up, Tab and the arrows move between the fields and change
    /// the choices, and any other key edits the field.
    pub open spec fn form_key(self, key: Key) -> (AppModel, RequestModel) {
        match key {
            Key::Esc => (
                (AppModel { upload_form: None, ..self }).with_popup_closed(),
                RequestModel::Nothing,
            ),
            Key::Enter => (self.with_form_submitted(), run(self.submit_task())),
            Key::Tab => (self.with_field_changed(true), RequestModel::Nothing),
            Key::Down => (self.with_field_changed(true), RequestModel::Nothing),
            Key::BackTab => (self.with_field_changed(false), RequestModel::Nothing),
            Key::Up => (self.with_field_changed(false), RequestModel::Nothing),
            Key::Left => (self.with_choice_changed(false), RequestModel::Nothing),
            Key::Right => (self.with_choice_changed(true), RequestModel::Nothing),
            Key::Char(c) => (self.with_char(c), RequestModel::Nothing),
            Key::Backspace => (self.without_last_char(), RequestModel::Nothing),
            _ => (self, RequestModel::Nothing),
        }
    }

    /// With the open popup changed by `change`.
    pub open spec fn with_popup_changed(
        self,
        change: spec_fn(crate::app::PopupModel) -> crate::app::PopupModel,
    ) -> AppModel {
        AppModel {
            popup: match self.popup {
                Some(p) => Some(change(p)),
                None => None,
            },
            ..self
        }
    }

    /// The effect of a key while the list of ignored repositories is
    /// open: the arrows select, Enter shows the selected one again, Esc closes.
    pub open spec fn ignored_popup_key(self, key: Key) -> AppModel {
        match key {
            Key::Esc => self.with_popup_closed(),
            Key::Char(c) => if c == 'q' {
                self.with_popup_closed()
            } else if c == 'j' {
                self.with_popup_changed(|p: crate::app::PopupModel| p.with_next_selected())
            } else if c == 'k' {
                self.with_popup_changed(|p: crate::app::PopupModel| p.with_prev_selected())
            } else {
                self
            },
            Key::Down => self.with_popup_changed(
                |p: crate::app::PopupModel| p.with_next_selected(),
            ),
            Key::Up => self.with_popup_changed(|p: crate::app::PopupModel| p.with_prev_selected()),
            Key::Enter => self.with_selected_unhidden(),
            _ => self,
        }
    }

    /// With the open popup scrolled down.
    pub open spec fn with_popup_scrolled_down(self) -> AppModel {
        self.with_popup_changed(
            |p: crate::app::PopupModel| p.scrolled_down(crate::app::POPUP_VISIBLE_LINES),
        )
    }

    /// With the open popup scrolled up.
    pub open spec fn with_popup_scrolled_up(self) -> AppModel {
        self.with_popup_changed(|p: crate::app::PopupModel| p.scrolled_up())
    }

    /// The effect of a key while a popup of text is open: the arrows
    /// scroll, `y` asks for a copy, Esc and Enter close.
    pub open spec fn text_popup_key(self, key: Key) -> (AppModel, RequestModel) {
        match key {
            Key::Esc => (self.with_popup_closed(), RequestModel::Nothing),
            Key::Enter => (self.with_popup_closed(), RequestModel::Nothing),
            Key::Char(c) => if c == 'q' || c == '?' {
                (self.with_popup_closed(), RequestModel::Nothing)
            } else if c == 'j' || c == 'd' {
                (self.with_popup_scrolled_down(), RequestModel::Nothing)
            } else if c == 'k' || c == 'u' {
                (self.with_popup_scrolled_up(), RequestModel::Nothing)
            } else if c == 'y' {
                (
                    self,
                    match self.popup_text() {
                        Some(text) => RequestModel::CopyPopup(text),
                        None => RequestModel::Nothing,
                    },
                )
            } else {
                (self, RequestModel::Nothing)
            },
            Key::Down => (self.with_popup_scrolled_down(), RequestModel::Nothing),
            Key::Up => (self.with_popup_scrolled_up(), RequestModel::Nothing),
            _ => (self, RequestModel::Nothing),
        }
    }

    /// The effect of a key while a popup is open.
    pub open spec fn popup_key(self, key: Key) -> (AppModel, RequestModel) {
        match self.popup {
            Some(p) => if p.popup_type == PopupType::Ignored {
                (self.ignored_popup_key(key), RequestModel::Nothing)
            } else {
                self.text_popup_key(key)
            },
            None => (self, RequestModel::Nothing),
        }
    }

    /// The local path of the selected repository.
    pub open spec fn selected_path(self) -> Option<Seq<char>> {
        match self.selected_repo() {
            Some(row) => row.local_path,
            None => None,
        }
    }

    /// The effect of a key that sorts the list or arranges its columns.
    pub open spec fn arrange_key(self, key: Key) -> Option<AppModel> {
        match key {
            Key::Right => Some(
                self.with_sort_column(self.sort_column.after(self.config.columns)),
            ),
            Key::Left => Some(self.with_sort_column(self.sort_column.before(self.config.columns))),
            Key::Char(c) => if c == 'v' {
                Some(self.with_direction_toggled())
            } else if c == '.' {
                Some(self.with_next_column())
            } else if c == ',' {
                Some(self.with_prev_column())
            } else if c == '<' {
                Some(self.with_column_moved_left())
            } else if c == '>' {
                Some(self.with_column_moved_right())
            } else if c == 'P' {
                Some(self.with_private_toggled())
            } else if c == 'A' {
                Some(self.with_archived_toggled())
            } else {
                None
            },
            _ => None,
        }
    }

    /// The operation that a key starts on the selected repository.
    pub open spec fn repo_task_key(self, c: char) -> Option<Option<BackgroundTaskModel>> {
        if c == 'n' {
            Some(self.clone_task())
        } else if c == 'l' {
            Some(self.path_task(TaskKind::Pull))
        } else if c == 'h' {
            Some(self.path_task(TaskKind::Push))
        } else if c == 's' {
            Some(self.path_task(TaskKind::Sync))
        } else if c == 'y' {
            Some(self.path_task(TaskKind::Quicksync))
        } else if c == 'p' {
            Some(self.visibility_task())
        } else if c == 'a' {
            Some(self.archive_task())
        } else {
            None
        }
    }

    /// What a key asks of the caller for the selected repository, without
    /// changing anything.
    pub open spec fn repo_outside_key(self, c: char) -> Option<RequestModel> {
        if c == 'g' {
            Some(
                match self.selected_path() {
                    Some(path) => RequestModel::OpenGitClient(path),
                    None => RequestModel::Nothing,
                },
            )
        } else if c == 'o' {
            Some(
                match self.selected_repo() {
                    Some(row) => match row.github_url {
                        Some(url) => RequestModel::OpenUrl(url),
                        None => RequestModel::Nothing,
                    },
                    None => RequestModel::Nothing,
                },
            )
        } else if c == 'O' {
            Some(
                match self.selected_path() {
                    Some(path) => RequestModel::OpenFolder(path),
                    None => RequestModel::Nothing,
                },
            )
        } else if c == 'z' {
            Some(
                match self.reorganize_candidate() {
                    Some((name, current, expected)) => RequestModel::Reorganize {
                        current,
                        expected,
                    },
                    None => RequestModel::Nothing,
                },
            )
        } else {
            None
        }
    }

    /// The state after `d` or `D`: waiting for the deletion to be confirmed.
    pub open spec fn with_delete_asked(self, remote: bool) -> AppModel {
        match self.selected_repo() {
            Some(row) => if remote {
                if row.github_url is Some && row.is_member {
                    self.asking_to_delete(DeleteType::RemoteRepo)
                } else {
                    self
                }
            } else if row.local_path is Some {
                self.asking_to_delete(DeleteType::LocalRepo)
            } else {
                self
            },
            None => self,
        }
    }

    /// The effect of the other keys on the list of repositories.
    pub open spec fn repo_key(self, c: char) -> (AppModel, RequestModel) {
        if c == 'u' {
            (
                self.with_form_opened(),
                if self.fresh_form() is Some {
                    RequestModel::Run(BackgroundTaskModel::FetchOrgs)
                } else {
                    RequestModel::Nothing
                },
            )
        } else if c == 'd' {
            (self.with_delete_asked(false), RequestModel::Nothing)
        } else if c == 'D' {
            (self.with_delete_asked(true), RequestModel::Nothing)
        } else if c == 'i' {
            match self.selected_repo() {
                Some(row) => if !row.has_git {
                    (
                        self.announcing(self.path_task(TaskKind::Init)),
                        run(self.path_task(TaskKind::Init)),
                    )
                } else {
                    (self.with_selected_ignored(), RequestModel::Nothing)
                },
                None => (self, RequestModel::Nothing),
            }
        } else if c == 'I' {
            (self.with_ignored_shown(), RequestModel::Nothing)
        } else {
            (self, RequestModel::Nothing)
        }
    }

    /// The effect of a key on the list of repositories.
    pub open spec fn repos_key(self, key: Key) -> (AppModel, RequestModel) {
        match self.arrange_key(key) {
            Some(next) => (next, RequestModel::Nothing),
            None => match key {
                Key::Char(c) => match self.repo_task_key(c) {
                    Some(task) => (self.announcing(task), run(task)),
                    None => match self.repo_outside_key(c) {
                        Some(request) => (self, request),
                        None => self.repo_key(c),
                    },
                },
                _ => (self, RequestModel::Nothing),
            },
        }
    }

    /// The effect of a key on the list of gists.
    pub open spec fn gists_key(self, key: Key) -> (AppModel, RequestModel) {
        match key {
            Key::Char(c) => if c == 'n' {
                (self.announcing(self.clone_gist_task()), run(self.clone_gist_task()))
            } else if c == 'l' {
                (
                    self.announcing(self.gist_task(TaskKind::PullGist)),
                    run(self.gist_task(TaskKind::PullGist)),
                )
            } else if c == 'h' {
                (
                    self.announcing(self.gist_task(TaskKind::PushGist)),
                    run(self.gist_task(TaskKind::PushGist)),
                )
            } else if c == 's' {
                (
                    self.announcing(self.gist_task(TaskKind::SyncGist)),
                    run(self.gist_task(TaskKind::SyncGist)),
                )
            } else if c == 'd' {
                (
                    if self.selected_gist() is Some {
                        self.asking_to_delete(DeleteType::Gist)
                    } else {
                        self
                    },
                    RequestModel::Nothing,
                )
            } else {
                (self, RequestModel::Nothing)
            },
            _ => (self, RequestModel::Nothing),
        }
    }

    /// The effect of a key that means the same in both lists, if `key` is one.
    pub open spec fn common_key(self, key: Key) -> Option<(AppModel, RequestModel)> {
        match key {
            Key::Esc => Some((self, RequestModel::Quit)),
            Key::Down => Some((self.with_next_selected(), RequestModel::Nothing)),
            Key::Up => Some((self.with_previous_selected(), RequestModel::Nothing)),
            Key::Tab => Some((self.with_view_toggled(), RequestModel::Nothing)),
            Key::Enter => Some((self.with_details_shown(), RequestModel::Nothing)),
            Key::Char(c) => if c == 'q' {
                Some((self, RequestModel::Quit))
            } else if c == 'j' {
                Some((self.with_next_selected(), RequestModel::Nothing))
            } else if c == 'k' {
                Some((self.with_previous_selected(), RequestModel::Nothing))
            } else if c == '?' {
                Some((self.with_help_toggled(), RequestModel::Nothing))
            } else if c == 'E' {
                Some((self.with_error_log_shown(), RequestModel::Nothing))
            } else if c == 'r' {
                Some(
                    (
                        AppModel { github_cache: None, ..self.with_status("Refreshing..."@) },
                        RequestModel::Run(BackgroundTaskModel::Refresh),
                    ),
                )
            } else {
                None
            },
            _ => None,
        }
    }

    /// The effect of a key while no popup is open and nothing is asked.
    pub open spec fn list_key(self, key: Key) -> (AppModel, RequestModel) {
        match self.common_key(key) {
            Some(effect) => effect,
            None => match self.view_mode {
                ViewMode::Repos => self.repos_key(key),
                ViewMode::Gists => self.gists_key(key),
            },
        }
    }

    /// The effect of a key: the state after it, and what is left for the
    /// caller to do.
    pub open spec fn key_effect(self, key: Key) -> (AppModel, RequestModel) {
        match self.input_mode {
            InputMode::ConfirmDelete => self.confirm_key(key),
            InputMode::UploadForm => self.form_key(key),
            InputMode::Normal => if self.popup is Some {
                self.popup_key(key)
            } else {
                self.list_key(key)
            },
        }
    }
}

impl App {
    fn take_pending_delete_task(&mut self) -> (task: Option<BackgroundTask>)
        ensures
            task.deep_view() == old(self)@.delete_task(old(self)@.pending_delete_task()),
            final(self)@ == old(self)@.after_delete_answer(old(self)@.pending_delete_task()),
    {
        match self.pending_delete {
            Some(DeleteType::RemoteRepo) => self.delete_remote_repo(),
            Some(DeleteType::Gist) => self.delete_gist(),
            _ => match self.view_mode {
                ViewMode::Repos => self.delete_local_repo(),
                ViewMode::Gists => self.delete_gist(),
            },
        }
    }

    fn give_up_delete(&mut self)
        ensures
            final(self)@ == (AppModel { pending_delete: None, ..old(self)@.with_popup_closed() }),
    {
        self.close_popup();
        self.pending_delete = None;
    }

    /// Handles a key while the user is asked to confirm a deletion.
    pub fn handle_confirm_key(&mut self, key: Key) -> (request: Request)
        ensures
            final(self)@ == old(self)@.confirm_key(key).0,
            request@ == old(self)@.confirm_key(key).1,
    {
        match key {
            Key::Esc => {
                self.give_up_delete();
                Request::Nothing
            },
            Key::Enter => run_task(self.take_pending_delete_task()),
            Key::Char(c) => {
                self.handle_char(c);
                Request::Nothing
            },
            Key::Backspace => {
                self.handle_backspace();
                Request::Nothing
            },
            _ => Request::Nothing,
        }
    }

    fn change_choice(&mut self, forward: bool)
        ensures
            final(self)@ == old(self)@.with_choice_changed(forward),
    {
        let field = match &self.upload_form {
            Some(f) => Some(f.active_field),
            None => None,
        };
        match field {
            Some(UploadField::Private) => self.upload_form_toggle_private(),
            Some(UploadField::Org) => if forward {
                self.upload_form_next_org()
            } else {
                self.upload_form_prev_org()
            },
            _ => {},
        }
    }

    fn change_field(&mut self, forward: bool)
        ensures
            final(self)@ == old(self)@.with_field_changed(forward),
    {
        if forward {
            self.upload_form_next_field();
        } else {
            self.upload_form_prev_field();
        }
    }

    /// Handles a key while the upload form is open.
    pub fn handle_form_key(&mut self, key: Key) -> (request: Request)
        ensures
            final(self)@ == old(self)@.form_key(key).0,
            request@ == old(self)@.form_key(key).1,
    {
        match key {
            Key::Esc => {
                self.cancel_upload_form();
                Request::Nothing
            },
            Key::Enter => run_task(self.submit_upload_form()),
            Key::Tab | Key::Down => {
                self.change_field(true);
                Request::Nothing
            },
            Key::BackTab | Key::Up => {
                self.change_field(false);
                Request::Nothing
            },
            Key::Left => {
                self.change_choice(false);
                Request::Nothing
            },
            Key::Right => {
                self.change_choice(true);
                Request::Nothing
            },
            Key::Char(c) => {
                self.handle_char(c);
                Request::Nothing
            },
            Key::Backspace => {
                self.handle_backspace();
                Request::Nothing
            },
            _ => Request::Nothing,
        }
    }

    fn handle_ignored_popup_key(&mut self, key: Key)
        ensures
            final(self)@ == old(self)@.ignored_popup_key(key),
    {
        match key {
            Key::Esc => self.close_popup(),
            Key::Char(c) => {
                if c == 'q' {
                    self.close_popup();
                } else if c == 'j' {
                    self.popup_next();
                } else if c == 'k' {
                    self.popup_prev();
                }
            },
            Key::Down => self.popup_next(),
            Key::Up => self.popup_prev(),
            Key::Enter => self.unhide_selected_in_popup(),
            _ => {},
        }
    }

    fn handle_text_popup_key(&mut self, key: Key) -> (request: Request)
        ensures
            final(self)@ == old(self)@.text_popup_key(key).0,
            request@ == old(self)@.text_popup_key(key).1,
    {
        match key {
            Key::Esc | Key::Enter => {
                self.close_popup();
                Request::Nothing
            },
            Key::Char(c) => {
                if c == 'q' || c == '?' {
                    self.close_popup();
                    Request::Nothing
                } else if c == 'j' || c == 'd' {
                    self.scroll_down();
                    Request::Nothing
                } else if c == 'k' || c == 'u' {
                    self.scroll_up();
                    Request::Nothing
                } else if c == 'y' {
                    match self.popup_text() {
                        Some(text) => Request::CopyPopup(text),
                        None => Request::Nothing,
                    }
                } else {
                    Request::Nothing
                }
            },
            Key::Down => {
                self.scroll_down();
                Request::Nothing
            },
            Key::Up => {
                self.scroll_up();
                Request::Nothing
            },
            _ => Request::Nothing,
        }
    }

    /// Handles a key while a popup is open.
    pub fn handle_popup_key(&mut self, key: Key) -> (request: Request)
        ensures
            final(self)@ == old(self)@.popup_key(key).0,
            request@ == old(self)@.popup_key(key).1,
    {
        let popup_type = match &self.popup {
            Some(p) => Some(p.popup_type),
            None => None,
        };
        match popup_type {
            Some(PopupType::Ignored) => {
                self.handle_ignored_popup_key(key);
                Request::Nothing
            },
            Some(_) => self.handle_text_popup_key(key),
            None => Request::Nothing,
        }
    }

    fn handle_arrange_key(&mut self, key: Key) -> (handled: bool)
        ensures
            handled == (old(self)@.arrange_key(key) is Some),
            final(self)@ == match old(self)@.arrange_key(key) {
                Some(next) => next,
                None => old(self)@,
            },
    {
        match key {
            Key::Right => {
                self.next_sort_column();
                true
            },
            Key::Left => {
                self.prev_sort_column();
                true
            },
            Key::Char(c) => {
                if c == 'v' {
                    self.toggle_sort_direction();
                    true
                } else if c == '.' {
                    self.select_next_column();
                    true
                } else if c == ',' {
                    self.select_prev_column();
                    true
                } else if c == '<' {
                    self.move_column_left();
                    true
                } else if c == '>' {
                    self.move_column_right();
                    true
                } else if c == 'P' {
                    self.toggle_show_private();
                    true
                } else if c == 'A' {
                    self.toggle_show_archived();
                    true
                } else {
                    false
                }
            },
            _ => false,
        }
    }

    fn handle_repo_task_key(&mut self, c: char) -> (r: Option<Request>)
        ensures
            match old(self)@.repo_task_key(c) {
                Some(task) => r.deep_view() == Some(run(task)) && final(self)@ == old(
                    self,
                )@.announcing(task),
                None => r is None && final(self)@ == old(self)@,
            },
    {
        if c == 'n' {
            Some(run_task(self.clone_selected()))
        } else if c == 'l' {
            Some(run_task(self.pull_selected()))
        } else if c == 'h' {
            Some(run_task(self.push_selected()))
        } else if c == 's' {
            Some(run_task(self.sync_selected()))
        } else if c == 'y' {
            Some(run_task(self.quicksync_selected()))
        } else if c == 'p' {
            Some(run_task(self.toggle_private()))
        } else if c == 'a' {
            Some(run_task(self.toggle_archived()))
        } else {
            None
        }
    }

    fn selected_path(&self) -> (r: Option<String>)
        ensures
            r.deep_view() == self@.selected_path(),
    {
        match self.get_selected_repo() {
            Some(row) => row.local_path.clone(),
            None => None,
        }
    }

    fn repo_outside_request(&self, c: char) -> (r: Option<Request>)
        ensures
            r.deep_view() == self@.repo_outside_key(c),
    {
        if c == 'g' {
            Some(
                match self.selected_path() {
                    Some(path) => Request::OpenGitClient(path),
                    None => Request::Nothing,
                },
            )
        } else if c == 'o' {
            Some(
                match self.get_selected_repo() {
                    Some(row) => match &row.github_url {
                        Some(url) => Request::OpenUrl(url.clone()),
                        None => Request::Nothing,
                    },
                    None => Request::Nothing,
                },
            )
        } else if c == 'O' {
            Some(
                match self.selected_path() {
                    Some(path) => Request::OpenFolder(path),
                    None => Request::Nothing,
                },
            )
        } else if c == 'z' {
            Some(
                match self.reorganize_candidate() {
                    Some((name, current, expected)) => Request::Reorganize { current, expected },
                    None => Request::Nothing,
                },
            )
        } else {
            None
        }
    }

    fn ask_delete(&mut self, remote: bool)
        ensures
            final(self)@ == old(self)@.with_delete_asked(remote),
    {
        if remote {
            self.start_delete_remote_confirm();
        } else {
            self.start_delete_confirm();
        }
    }

    fn init_or_ignore(&mut self) -> (request: Request)
        ensures
            final(self)@ == old(self)@.repo_key('i').0,
            request@ == old(self)@.repo_key('i').1,
    {
        let without_git = match self.get_selected_repo() {
            Some(row) => Some(!row.has_git),
            None => None,
        };
        match without_git {
            Some(true) => run_task(self.init_repo()),
            Some(false) => {
                self.toggle_ignore();
                Request::Nothing
            },
            None => Request::Nothing,
        }
    }

    fn handle_repo_key(&mut self, c: char) -> (request: Request)
        ensures
            final(self)@ == old(self)@.repo_key(c).0,
            request@ == old(self)@.repo_key(c).1,
    {
        if c == 'u' {
            run_task(self.show_upload_form())
        } else if c == 'd' {
            self.ask_delete(false);
            Request::Nothing
        } else if c == 'D' {
            self.ask_delete(true);
            Request::Nothing
        } else if c == 'i' {
            self.init_or_ignore()
        } else if c == 'I' {
            self.show_ignored_popup();
            Request::Nothing
        } else {
            Request::Nothing
        }
    }

    /// Handles a key on the list of repositories.
    pub fn handle_repos_key(&mut self, key: Key) -> (request: Request)
        ensures
            final(self)@ == old(self)@.repos_key(key).0,
            request@ == old(self)@.repos_key(key).1,
    {
        if self.handle_arrange_key(key) {
            return Request::Nothing;
        }
        match key {
            Key::Char(c) => {
                match self.handle_repo_task_key(c) {
                    Some(request) => request,
                    None => match self.repo_outside_request(c) {
                        Some(request) => request,
                        None => self.handle_repo_key(c),
                    },
                }
            },
            _ => Request::Nothing,
        }
    }

    /// Handles a key on the list of gists.
    pub fn handle_gists_key(&mut self, key: Key) -> (request: Request)
        ensures
            final(self)@ == old(self)@.gists_key(key).0,
            request@ == old(self)@.gists_key(key).1,
    {
        match key {
            Key::Char(c) => {
                if c == 'n' {
                    run_task(self.clone_gist())
                } else if c == 'l' {
                    run_task(self.pull_gist())
                } else if c == 'h' {
                    run_task(self.push_gist())
                } else if c == 's' {
                    run_task(self.sync_gist())
                } else if c == 'd' {
                    self.start_gist_delete_confirm();
                    Request::Nothing
                } else {
                    Request::Nothing
                }
            },
            _ => Request::Nothing,
        }
    }

    fn handle_common_key(&mut self, key: Key) -> (r: Option<Request>)
        ensures
            match old(self)@.common_key(key) {
                Some(effect) => r.deep_view() == Some(effect.1) && final(self)@ == effect.0,
                None => r is None && final(self)@ == old(self)@,
            },
    {
        match key {
            Key::Esc => Some(Request::Quit),
            Key::Down => {
                self.next();
                Some(Request::Nothing)
            },
            Key::Up => {
                self.previous();
                Some(Request::Nothing)
            },
            Key::Tab => {
                self.toggle_view_mode();
                Some(Request::Nothing)
            },
            Key::Enter => {
                self.show_details();
                Some(Request::Nothing)
            },
            Key::Char(c) => {
                if c == 'q' {
                    Some(Request::Quit)
                } else if c == 'j' {
                    self.next();
                    Some(Request::Nothing)
                } else if c == 'k' {
                    self.previous();
                    Some(Request::Nothing)
                } else if c == '?' {
                    self.toggle_help();
                    Some(Request::Nothing)
                } else if c == 'E' {
                    self.show_error_log();
                    Some(Request::Nothing)
                } else if c == 'r' {
                    Some(Request::Run(self.trigger_refresh()))
                } else {
                    None
                }
            },
            _ => None,
        }
    }

    /// Handles a key while no popup is open and nothing is asked.
    pub fn handle_list_key(&mut self, key: Key) -> (request: Request)
        ensures
            final(self)@ == old(self)@.list_key(key).0,
            request@ == old(self)@.list_key(key).1,
    {
        match self.handle_common_key(key) {
            Some(request) => request,
            None => match self.view_mode {
                ViewMode::Repos => self.handle_repos_key(key),
                ViewMode::Gists => self.handle_gists_key(key),
            },
        }
    }

    /// Handles a key. Returns what is left for the caller to do.
    pub fn handle_key(&mut self, key: Key) -> (request: Request)
        ensures
            final(self)@ == old(self)@.key_effect(key).0,
            request@ == old(self)@.key_effect(key).1,
    {
        match self.input_mode {
            InputMode::ConfirmDelete => self.handle_confirm_key(key),
            InputMode::UploadForm => self.handle_form_key(key),
            InputMode::Normal => {
                if self.popup.is_some() {
                    self.handle_popup_key(key)
                } else {
                    self.handle_list_key(key)
                }
            },
        }
    }
}

/// What no key changes while the user is asked to confirm or fills in the
/// upload form, and while a popup of text is open: the lists, the
/// selection, the view, the sort settings and the configuration.
pub open spec fn same_lists(a: AppModel, b: AppModel) -> bool {
    &&& a.repos == b.repos
    &&& a.gists == b.gists
    &&& a.selected == b.selected
    &&& a.view_mode == b.view_mode
    &&& a.sort_column == b.sort_column
    &&& a.sort_ascending == b.sort_ascending
    &&& a.show_archived == b.show_archived
    &&& a.show_private == b.show_private
    &&& a.selected_column == b.selected_column
    &&& a.config == b.config
    &&& a.github_cache == b.github_cache
}

/// Announcing a task and closing the popup leave the lists as they are.
pub proof fn lemma_announcing_keeps_lists(app: AppModel, task: Option<BackgroundTaskModel>)
    ensures
        same_lists(app.announcing(task), app),
        same_lists(app.with_popup_closed(), app),
        same_lists(app.announcing(task).with_popup_closed(), app),
{
}

/// No key changes the lists while the user is asked to confirm a deletion.
pub proof fn lemma_confirm_keys_keep_lists(app: AppModel, key: Key)
    requires
        app.input_mode == InputMode::ConfirmDelete,
    ensures
        same_lists(app.confirm_key(key).0, app),
        !(app.confirm_key(key).1 is Quit),
{
    lemma_announcing_keeps_lists(app, app.pending_delete_task());
    match key {
        Key::Enter => {
            let task = app.pending_delete_task();
            assert(same_lists(app.after_delete_answer(task), app));
        },
        Key::Char(c) => {
            assert(same_lists(app.with_char(c), app));
        },
        Key::Backspace => {
            assert(same_lists(app.without_last_char(), app));
        },
        _ => {},
    }
}

/// No key changes the lists while the upload form is open.
pub proof fn lemma_form_keys_keep_lists(app: AppModel, key: Key)
    requires
        app.input_mode == InputMode::UploadForm,
    ensures
        same_lists(app.form_key(key).0, app),
        !(app.form_key(key).1 is Quit),
{
    match key {
        Key::Esc => {
            lemma_announcing_keeps_lists(AppModel { upload_form: None, ..app }, None);
        },
        Key::Enter => {
            lemma_announcing_keeps_lists(AppModel { upload_form: None, ..app }, app.submit_task());
            assert(same_lists(app.with_form_submitted(), app));
        },
        Key::Tab => {
            assert(same_lists(app.with_field_changed(true), app));
        },
        Key::Down => {
            assert(same_lists(app.with_field_changed(true), app));
        },
        Key::BackTab => {
            assert(same_lists(app.with_field_changed(false), app));
        },
        Key::Up => {
            assert(same_lists(app.with_field_changed(false), app));
        },
        Key::Left => {
            assert(same_lists(app.with_choice_changed(false), app));
        },
        Key::Right => {
            assert(same_lists(app.with_choice_changed(true), app));
        },
        Key::Char(c) => {
            assert(same_lists(app.with_char(c), app));
        },
        Key::Backspace => {
            assert(same_lists(app.without_last_char(), app));
        },
        _ => {},
    }
}

/// While the user is asked to confirm a deletion or fills in the upload
/// form, keys edit the answer or the form: no key moves through the list,
/// sorts it, filters it or refreshes it, and none ends the application.
pub proof fn input_modes_only_edit(app: AppModel, key: Key)
    requires
        app.input_mode != InputMode::Normal,
    ensures
        same_lists(app.key_effect(key).0, app),
        !(app.key_effect(key).1 is Quit),
{
    if app.input_mode == InputMode::ConfirmDelete {
        lemma_confirm_keys_keep_lists(app, key);
    } else {
        lemma_form_keys_keep_lists(app, key);
    }
}

/// While a popup of text is open, keys scroll or close it and change
/// nothing of the lists.
pub proof fn text_popup_keys_keep_lists(app: AppModel, key: Key)
    requires
        app.input_mode == InputMode::Normal,
        app.popup is Some,
        app.popup->0.popup_type != PopupType::Ignored,
    ensures
        same_lists(app.key_effect(key).0, app),
        !(app.key_effect(key).1 is Quit),
        !(app.key_effect(key).1 is Run),
{
}

} // verus!
