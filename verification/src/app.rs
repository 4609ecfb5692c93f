//! The state of the application and the transitions on it.
//!
//! The state has one owner. User events and the results of background work
//! are applied to it one at a time, each by one method. A method never
//! waits: where an event calls for outside work, the method returns a
//! [`BackgroundTask`] for the caller to run, and the outcome comes back
//! later through [`App::poll_tasks`] or [`App::poll_refresh`].

use crate::config::{without, Column, Config, ConfigModel};
use crate::git::{RepoStatus, RepoStatusModel};
use crate::help::{get_help_content, help_content};
use crate::order::{sort_rows, ColumnOrder, ColumnOrderModel, SortColumn};
use crate::repo::{
    ghq_compliance, layout_path, layout_root, GistRow, GistRowModel, GitHubCache,
    GitHubCacheModel, PathTable, RepoRow, RepoRowModel,
};
use crate::refresh::{RefreshData, RefreshDataModel};
use crate::sort::{sorted_strings, stable_sorted, ByteOrder};
use crate::github::{CreateRepoModel, CreateRepoOptions};
use crate::tasks::{
    display_id, local_time_of_day, orgs_marker, short_id, BackgroundTask, BackgroundTaskModel,
    ErrorLogEntry, ErrorLogEntryModel, TaskKind, TaskResult, TaskResultModel,
};
use crate::url::{get_ghq_path, ghq_path};
use crate::text::{
    concat2, concat3, decimal, decimal_string, join, joined, lowercase, non_empty, pop_char,
    push_char, split_non_empty, split_on, starts_with, str_eq, str_starts_with,
    str_trim_start_matches, strip_prefix_all, unicode_lowercase,
};
use vstd::prelude::*;

verus! {

/// Which list is shown.
#[derive(Clone, Copy, Debug, PartialEq, Eq, Structural)]
pub enum ViewMode {
    Repos,
    Gists,
}

/// How keys are handled: as commands, as the answer to a request for
/// confirmation, or as input to the upload form.
#[derive(Clone, Copy, Debug, PartialEq, Eq, Structural)]
pub enum InputMode {
    Normal,
    ConfirmDelete,
    UploadForm,
}

/// What is about to be deleted.
#[derive(Clone, Copy, Debug, PartialEq, Eq, Structural)]
pub enum DeleteType {
    LocalRepo,
    RemoteRepo,
    Gist,
}

/// The kinds of popup.
#[derive(Clone, Copy, Debug, PartialEq, Eq, Structural)]
pub enum PopupType {
    Help,
    Details,
    Ignored,
    Upload,
    Errors,
}

/// The fields of the upload form.
#[derive(Clone, Copy, Debug, PartialEq, Eq, Structural)]
pub enum UploadField {
    Name,
    Description,
    Private,
    Org,
}

impl UploadField {
    /// The field after this one, the first after the last.
    pub open spec fn following(self) -> UploadField {
        match self {
            UploadField::Name => UploadField::Description,
            UploadField::Description => UploadField::Private,
            UploadField::Private => UploadField::Org,
            UploadField::Org => UploadField::Name,
        }
    }

    /// The field before this one, the last before the first.
    pub open spec fn preceding(self) -> UploadField {
        match self {
            UploadField::Name => UploadField::Org,
            UploadField::Description => UploadField::Name,
            UploadField::Private => UploadField::Description,
            UploadField::Org => UploadField::Private,
        }
    }

    /// The next field of the form.
    pub fn next(self) -> (r: Self)
        ensures
            r == self.following(),
    {
        match self {
            UploadField::Name => UploadField::Description,
            UploadField::Description => UploadField::Private,
            UploadField::Private => UploadField::Org,
            UploadField::Org => UploadField::Name,
        }
    }

    /// The previous field of the form.
    pub fn prev(self) -> (r: Self)
        ensures
            r == self.preceding(),
    {
        match self {
            UploadField::Name => UploadField::Org,
            UploadField::Description => UploadField::Name,
            UploadField::Private => UploadField::Description,
            UploadField::Org => UploadField::Private,
        }
    }
}

/// Going to the next field and back returns to where one was.
pub proof fn upload_fields_cycle(f: UploadField)
    ensures
        f.following().preceding() == f,
        f.preceding().following() == f,
        f.following().following().following().following() == f,
{
}

/// What the user has entered into the upload form.
#[derive(Debug)]
pub struct UploadFormState {
    pub name: String,
    pub description: String,
    pub private: bool,
    /// The organizations that the user may create the repository in.
    pub orgs: Vec<String>,
    /// 0 for the personal account, else the position in `orgs` plus one.
    pub selected_org: usize,
    pub active_field: UploadField,
    /// The folder to upload.
    pub local_path: String,
}

/// The mathematical content of an [`UploadFormState`].
pub struct UploadFormModel {
    pub name: Seq<char>,
    pub description: Seq<char>,
    pub private: bool,
    pub orgs: Seq<Seq<char>>,
    pub selected_org: usize,
    pub active_field: UploadField,
    pub local_path: Seq<char>,
}

impl DeepView for UploadFormState {
    type V = UploadFormModel;

    open spec fn deep_view(&self) -> UploadFormModel {
        UploadFormModel {
            name: self.name@,
            description: self.description@,
            private: self.private,
            orgs: self.orgs.deep_view(),
            selected_org: self.selected_org,
            active_field: self.active_field,
            local_path: self.local_path@,
        }
    }
}

impl View for UploadFormState {
    type V = UploadFormModel;

    open spec fn view(&self) -> UploadFormModel {
        self.deep_view()
    }
}

/// A popup: lines of text with a scroll position and a selected line.
#[derive(Debug)]
pub struct Popup {
    pub popup_type: PopupType,
    pub scroll: usize,
    pub content: Vec<String>,
    pub selected: usize,
}

/// The mathematical content of a [`Popup`].
pub struct PopupModel {
    pub popup_type: PopupType,
    pub scroll: usize,
    pub content: Seq<Seq<char>>,
    pub selected: usize,
}

impl DeepView for Popup {
    type V = PopupModel;

    open spec fn deep_view(&self) -> PopupModel {
        PopupModel {
            popup_type: self.popup_type,
            scroll: self.scroll,
            content: self.content.deep_view(),
            selected: self.selected,
        }
    }
}

impl View for Popup {
    type V = PopupModel;

    open spec fn view(&self) -> PopupModel {
        self.deep_view()
    }
}

impl PopupModel {
    /// The furthest that the popup scrolls when `visible_lines` lines fit.
    pub open spec fn max_scroll(self, visible_lines: usize) -> int {
        if self.content.len() > visible_lines {
            self.content.len() - visible_lines
        } else {
            0
        }
    }

    /// Scrolled down by one line, as far as `max_scroll` allows. A popup
    /// that is scrolled too far comes back to the furthest position.
    pub open spec fn scrolled_down(self, visible_lines: usize) -> PopupModel {
        PopupModel {
            scroll: if self.scroll + 1 <= self.max_scroll(visible_lines) {
                (self.scroll + 1) as usize
            } else {
                self.max_scroll(visible_lines) as usize
            },
            ..self
        }
    }

    /// Scrolled up by one line, if not at the top.
    pub open spec fn scrolled_up(self) -> PopupModel {
        PopupModel {
            scroll: if self.scroll > 0 {
                (self.scroll - 1) as usize
            } else {
                0
            },
            ..self
        }
    }

    /// With the line below the selected one selected, if there is one, in
    /// a popup that lists the ignored repositories; unchanged otherwise.
    pub open spec fn with_next_selected(self) -> PopupModel {
        if self.popup_type == PopupType::Ignored {
            let max = if self.content.len() > 0 {
                self.content.len() - 1
            } else {
                0
            };
            PopupModel {
                selected: if self.selected + 1 <= max {
                    (self.selected + 1) as usize
                } else {
                    max as usize
                },
                ..self
            }
        } else {
            self
        }
    }

    /// With the line above the selected one selected, but none of the two
    /// heading lines, in a popup that lists the ignored repositories;
    /// unchanged otherwise.
    pub open spec fn with_prev_selected(self) -> PopupModel {
        if self.popup_type == PopupType::Ignored {
            PopupModel {
                selected: if self.selected > 3 {
                    (self.selected - 1) as usize
                } else {
                    2
                },
                ..self
            }
        } else {
            self
        }
    }
}

impl Popup {
    /// A popup of the given kind and content, at the top, its first line selected.
    pub fn new(popup_type: PopupType, content: Vec<String>) -> (r: Self)
        ensures
            r@ == (PopupModel {
                popup_type,
                scroll: 0,
                content: content.deep_view(),
                selected: 0,
            }),
    {
        Self { popup_type, scroll: 0, content, selected: 0 }
    }

    /// Scrolls down by one line, no further than the last screenful.
    pub fn scroll_down(&mut self, visible_lines: usize)
        ensures
            final(self)@ == old(self)@.scrolled_down(visible_lines),
    {
        let max_scroll = if self.content.len() > visible_lines {
            self.content.len() - visible_lines
        } else {
            0
        };
        if self.scroll < max_scroll {
            self.scroll = self.scroll + 1;
        } else {
            self.scroll = max_scroll;
        }
    }

    /// Scrolls up by one line.
    pub fn scroll_up(&mut self)
        ensures
            final(self)@ == old(self)@.scrolled_up(),
    {
        if self.scroll > 0 {
            self.scroll = self.scroll - 1;
        }
    }
}

/// What the status line shows.
#[derive(Clone, Copy, Debug, PartialEq, Eq, Structural)]
pub enum StatusKind {
    /// Nothing.
    Absent,
    /// An operation is running; the message stays until it is replaced.
    Loading,
    /// An operation has completed; the message clears by itself.
    Completed,
    /// An operation has failed; the message stays until a new action starts.
    Error,
}

/// How long a message about a completed operation stays, in milliseconds.
pub const STATUS_DWELL_MS: u64 = 2000;

/// The number of frames of the spinner.
pub const SPINNER_FRAME_COUNT: usize = 10;

/// How many lines a popup scrolls over.
pub const POPUP_VISIBLE_LINES: usize = 20;

/// The state of the application.
#[derive(Debug)]
pub struct App {
    /// The folder below which local repositories are looked for.
    pub local_root: String,
    pub view_mode: ViewMode,
    /// The user's login on the hosting service, once known.
    pub github_username: Option<String>,
    pub repos: Vec<RepoRow>,
    pub gists: Vec<GistRow>,
    pub config: Config,
    /// What the file system said, at the last refresh, of the paths that
    /// the layout check looks at.
    pub paths: PathTable,
    /// The selected line of the visible list.
    pub selected: usize,
    pub scroll_offset: usize,
    pub sort_column: SortColumn,
    pub sort_ascending: bool,
    pub show_archived: bool,
    pub show_private: bool,
    /// The column selected for moving, as a position among the visible columns.
    pub selected_column: usize,
    pub status_message: Option<String>,
    /// When the status message was set, on the clock of `now_ms`.
    pub status_time: Option<u64>,
    pub status_is_loading: bool,
    pub status_is_error: bool,
    pub input_mode: InputMode,
    pub popup: Option<Popup>,
    pub input_buffer: String,
    pub confirm_buffer: String,
    pub pending_delete: Option<DeleteType>,
    /// Top and height of the table on screen, for mouse clicks.
    pub table_area: Option<(u16, u16)>,
    pub spinner_frame: usize,
    /// The time of the last tick, in milliseconds on a clock that does not
    /// go back.
    pub now_ms: u64,
    /// A completed operation has changed the data of the hosting service:
    /// everything has to be fetched anew.
    pub pending_refresh: bool,
    /// A completed operation has changed local data only: a local refresh
    /// will do.
    pub pending_local_refresh: bool,
    /// The configuration has changed since it was last written.
    pub config_unsaved: bool,
    pub github_cache: Option<GitHubCache>,
    pub upload_form: Option<UploadFormState>,
    pub error_log: Vec<ErrorLogEntry>,
}

/// The mathematical content of an [`App`].
pub struct AppModel {
    pub local_root: Seq<char>,
    pub view_mode: ViewMode,
    pub github_username: Option<Seq<char>>,
    pub repos: Seq<RepoRowModel>,
    pub gists: Seq<GistRowModel>,
    pub config: ConfigModel,
    pub paths: Seq<(Seq<char>, Seq<char>)>,
    pub selected: usize,
    pub scroll_offset: usize,
    pub sort_column: SortColumn,
    pub sort_ascending: bool,
    pub show_archived: bool,
    pub show_private: bool,
    pub selected_column: usize,
    pub status_message: Option<Seq<char>>,
    pub status_time: Option<u64>,
    pub status_is_loading: bool,
    pub status_is_error: bool,
    pub input_mode: InputMode,
    pub popup: Option<PopupModel>,
    pub input_buffer: Seq<char>,
    pub confirm_buffer: Seq<char>,
    pub pending_delete: Option<DeleteType>,
    pub table_area: Option<(u16, u16)>,
    pub spinner_frame: usize,
    pub now_ms: u64,
    pub pending_refresh: bool,
    pub pending_local_refresh: bool,
    pub config_unsaved: bool,
    pub github_cache: Option<GitHubCacheModel>,
    pub upload_form: Option<UploadFormModel>,
    pub error_log: Seq<ErrorLogEntryModel>,
}

impl DeepView for App {
    type V = AppModel;

    open spec fn deep_view(&self) -> AppModel {
        AppModel {
            local_root: self.local_root@,
            view_mode: self.view_mode,
            github_username: self.github_username.deep_view(),
            repos: self.repos.deep_view(),
            gists: self.gists.deep_view(),
            config: self.config@,
            paths: self.paths@,
            selected: self.selected,
            scroll_offset: self.scroll_offset,
            sort_column: self.sort_column,
            sort_ascending: self.sort_ascending,
            show_archived: self.show_archived,
            show_private: self.show_private,
            selected_column: self.selected_column,
            status_message: self.status_message.deep_view(),
            status_time: self.status_time,
            status_is_loading: self.status_is_loading,
            status_is_error: self.status_is_error,
            input_mode: self.input_mode,
            popup: self.popup.deep_view(),
            input_buffer: self.input_buffer@,
            confirm_buffer: self.confirm_buffer@,
            pending_delete: self.pending_delete,
            table_area: self.table_area,
            spinner_frame: self.spinner_frame,
            now_ms: self.now_ms,
            pending_refresh: self.pending_refresh,
            pending_local_refresh: self.pending_local_refresh,
            config_unsaved: self.config_unsaved,
            github_cache: self.github_cache.deep_view(),
            upload_form: self.upload_form.deep_view(),
            error_log: self.error_log.deep_view(),
        }
    }
}

impl View for App {
    type V = AppModel;

    open spec fn view(&self) -> AppModel {
        self.deep_view()
    }
}

/// Whether a row is shown: it is not ignored, and not filtered out as
/// archived or private.
pub open spec fn is_visible(
    row: RepoRowModel,
    ignored: Seq<Seq<char>>,
    show_archived: bool,
    show_private: bool,
) -> bool {
    &&& !ignored.contains(row.id)
    &&& show_archived || !row.is_archived
    &&& show_private || !row.is_private
}

/// Those of the first `n` rows that are shown, in order.
pub open spec fn visible_rows(
    rows: Seq<RepoRowModel>,
    n: int,
    ignored: Seq<Seq<char>>,
    show_archived: bool,
    show_private: bool,
) -> Seq<RepoRowModel>
    decreases n,
{
    if n <= 0 {
        Seq::empty()
    } else if is_visible(rows[n - 1], ignored, show_archived, show_private) {
        visible_rows(rows, n - 1, ignored, show_archived, show_private).push(rows[n - 1])
    } else {
        visible_rows(rows, n - 1, ignored, show_archived, show_private)
    }
}

impl AppModel {
    /// The repositories that are shown, in order.
    pub open spec fn visible(self) -> Seq<RepoRowModel> {
        visible_rows(
            self.repos,
            self.repos.len() as int,
            self.config.ignored_repos,
            self.show_archived,
            self.show_private,
        )
    }

    /// The length of the list that is shown.
    pub open spec fn visible_len(self) -> int {
        match self.view_mode {
            ViewMode::Repos => self.visible().len() as int,
            ViewMode::Gists => self.gists.len() as int,
        }
    }

    /// The selection points at a line of the list that is shown, or at the
    /// top of an empty list.
    pub open spec fn selection_valid(self) -> bool {
        self.selected == 0 || self.selected < self.visible_len()
    }

    /// The selected repository, in the repository view.
    pub open spec fn selected_repo(self) -> Option<RepoRowModel> {
        if self.view_mode == ViewMode::Repos && self.selected < self.visible().len() {
            Some(self.visible()[self.selected as int])
        } else {
            None
        }
    }

    /// The selected gist, in the gist view.
    pub open spec fn selected_gist(self) -> Option<GistRowModel> {
        if self.view_mode == ViewMode::Gists && self.selected < self.gists.len() {
            Some(self.gists[self.selected as int])
        } else {
            None
        }
    }

    /// What the status line shows.
    pub open spec fn status_kind(self) -> StatusKind {
        if self.status_message is None {
            StatusKind::Absent
        } else if self.status_is_loading {
            StatusKind::Loading
        } else if self.status_is_error {
            StatusKind::Error
        } else {
            StatusKind::Completed
        }
    }

    /// With `msg` shown as the message of a running operation.
    pub open spec fn with_status(self, msg: Seq<char>) -> AppModel {
        AppModel {
            status_message: Some(msg),
            status_time: Some(self.now_ms),
            status_is_loading: true,
            status_is_error: false,
            ..self
        }
    }

    /// With `msg` shown as the message of a completed operation.
    pub open spec fn with_completed(self, msg: Seq<char>) -> AppModel {
        AppModel {
            status_message: Some(msg),
            status_time: Some(self.now_ms),
            status_is_loading: false,
            status_is_error: false,
            ..self
        }
    }

    /// With `msg` shown as the message of a failed operation.
    pub open spec fn with_error(self, msg: Seq<char>) -> AppModel {
        AppModel {
            status_message: Some(msg),
            status_time: Some(self.now_ms),
            status_is_loading: false,
            status_is_error: true,
            ..self
        }
    }

    /// With no status message.
    pub open spec fn without_status(self) -> AppModel {
        AppModel {
            status_message: None,
            status_time: None,
            status_is_loading: false,
            status_is_error: false,
            ..self
        }
    }

    /// With the popup closed and the input buffers emptied.
    pub open spec fn with_popup_closed(self) -> AppModel {
        AppModel {
            popup: None,
            input_mode: InputMode::Normal,
            input_buffer: Seq::empty(),
            confirm_buffer: Seq::empty(),
            ..self
        }
    }

    /// The settings by which the list is sorted.
    pub open spec fn order(self) -> ColumnOrderModel {
        ColumnOrderModel {
            key: self.sort_column,
            ascending: self.sort_ascending,
            username: self.github_username,
            local_root: self.local_root,
            paths: self.paths,
        }
    }

    /// With the repositories put in order by the current settings.
    pub open spec fn sorted(self) -> AppModel {
        AppModel { repos: stable_sorted(self.repos, self.order()), ..self }
    }
}


impl AppModel {
    /// The state in which the application starts: nothing loaded, the
    /// settings taken from the configuration, and the first refresh announced.
    pub open spec fn initial(local_root: Seq<char>, config: ConfigModel, now_ms: u64) -> AppModel {
        AppModel {
            local_root,
            view_mode: ViewMode::Repos,
            github_username: None,
            repos: Seq::empty(),
            gists: Seq::empty(),
            config,
            paths: Seq::empty(),
            selected: 0,
            scroll_offset: 0,
            sort_column: SortColumn::named(config.sort_column),
            sort_ascending: config.sort_ascending,
            show_archived: config.show_archived,
            show_private: config.show_private,
            selected_column: 0,
            status_message: Some("Loading..."@),
            status_time: Some(now_ms),
            status_is_loading: true,
            status_is_error: false,
            input_mode: InputMode::Normal,
            popup: None,
            input_buffer: Seq::empty(),
            confirm_buffer: Seq::empty(),
            pending_delete: None,
            table_area: None,
            spinner_frame: 0,
            now_ms,
            pending_refresh: false,
            pending_local_refresh: false,
            config_unsaved: false,
            github_cache: None,
            upload_form: None,
            error_log: Seq::empty(),
        }
    }

    /// With the other list shown, its first line selected.
    pub open spec fn with_view_toggled(self) -> AppModel {
        AppModel {
            view_mode: match self.view_mode {
                ViewMode::Repos => ViewMode::Gists,
                ViewMode::Gists => ViewMode::Repos,
            },
            selected: 0,
            scroll_offset: 0,
            ..self
        }
    }

    /// With `column` as the sort column, noted in the configuration, and
    /// the repositories put in order by it.
    pub open spec fn with_sort_column(self, column: SortColumn) -> AppModel {
        (AppModel {
            sort_column: column,
            config: ConfigModel { sort_column: column.config_name(), ..self.config },
            config_unsaved: true,
            ..self
        }).sorted()
    }

    /// With the sort direction turned round, noted in the configuration,
    /// and the repositories put in order by it.
    pub open spec fn with_direction_toggled(self) -> AppModel {
        (AppModel {
            sort_ascending: !self.sort_ascending,
            config: ConfigModel { sort_ascending: !self.sort_ascending, ..self.config },
            config_unsaved: true,
            ..self
        }).sorted()
    }

    /// With archived repositories shown if they were hidden and hidden if
    /// they were shown, and the first line selected.
    pub open spec fn with_archived_toggled(self) -> AppModel {
        AppModel {
            show_archived: !self.show_archived,
            config: ConfigModel { show_archived: !self.show_archived, ..self.config },
            config_unsaved: true,
            selected: 0,
            ..self
        }
    }

    /// With private repositories shown if they were hidden and hidden if
    /// they were shown, and the first line selected.
    pub open spec fn with_private_toggled(self) -> AppModel {
        AppModel {
            show_private: !self.show_private,
            config: ConfigModel { show_private: !self.show_private, ..self.config },
            config_unsaved: true,
            selected: 0,
            ..self
        }
    }

    /// With the line below the selected one selected, if there is one.
    pub open spec fn with_next_selected(self) -> AppModel {
        if self.visible_len() > 0 {
            AppModel {
                selected: if self.selected + 1 <= self.visible_len() - 1 {
                    (self.selected + 1) as usize
                } else {
                    (self.visible_len() - 1) as usize
                },
                ..self
            }
        } else {
            self
        }
    }

    /// With the line above the selected one selected, if there is one.
    pub open spec fn with_previous_selected(self) -> AppModel {
        AppModel {
            selected: if self.selected > 0 {
                (self.selected - 1) as usize
            } else {
                0
            },
            ..self
        }
    }

    /// With line `row` selected, if the list has such a line.
    pub open spec fn with_row_selected(self, row: usize) -> AppModel {
        if row < self.visible_len() {
            AppModel { selected: row, ..self }
        } else {
            self
        }
    }

    /// The line of the list that a click on screen row `row` hits: the
    /// table starts two rows below its top, with border and heading.
    pub open spec fn clicked_row(self, row: u16) -> Option<int> {
        match self.table_area {
            Some((top, height)) => if row >= top + 2 && row < top + height {
                Some(row - top - 2)
            } else {
                None
            },
            None => None,
        }
    }

    /// After a tick at `now_ms`: the spinner advanced while an operation
    /// runs, and the message of a completed operation cleared once it has
    /// been shown for the dwell time.
    pub open spec fn after_tick(self, now_ms: u64) -> AppModel {
        let ticked = AppModel { now_ms, ..self };
        if self.status_message is Some {
            let spun = if self.status_is_loading {
                AppModel {
                    spinner_frame: ((self.spinner_frame % SPINNER_FRAME_COUNT + 1)
                        % SPINNER_FRAME_COUNT as int) as usize,
                    ..ticked
                }
            } else {
                ticked
            };
            if !self.status_is_loading && !self.status_is_error && self.status_time is Some
                && now_ms - self.status_time->0 >= STATUS_DWELL_MS {
                AppModel { status_message: None, status_time: None, ..spun }
            } else {
                spun
            }
        } else {
            ticked
        }
    }

    /// With the selected column moved one place to the left, the selection
    /// following it.
    pub open spec fn with_column_moved_left(self) -> AppModel {
        if self.selected_column < self.config.columns.len() {
            AppModel {
                config: ConfigModel {
                    columns: Config::columns_moved_left(
                        self.config.columns,
                        self.config.columns[self.selected_column as int],
                    ),
                    ..self.config
                },
                selected_column: if self.selected_column > 0 {
                    (self.selected_column - 1) as usize
                } else {
                    0
                },
                config_unsaved: true,
                ..self
            }
        } else {
            self
        }
    }

    /// With the selected column moved one place to the right, the
    /// selection following it.
    pub open spec fn with_column_moved_right(self) -> AppModel {
        if self.selected_column < self.config.columns.len() {
            AppModel {
                config: ConfigModel {
                    columns: Config::columns_moved_right(
                        self.config.columns,
                        self.config.columns[self.selected_column as int],
                    ),
                    ..self.config
                },
                selected_column: if self.selected_column + 1 < self.config.columns.len() {
                    (self.selected_column + 1) as usize
                } else {
                    self.selected_column
                },
                config_unsaved: true,
                ..self
            }
        } else {
            self
        }
    }

    /// With the next column selected, the first after the last.
    pub open spec fn with_next_column(self) -> AppModel {
        if self.config.columns.len() > 0 {
            AppModel {
                selected_column: ((self.selected_column + 1) % (self.config.columns.len()
                    as int)) as usize,
                ..self
            }
        } else {
            self
        }
    }

    /// With the previous column selected, the last before the first.
    pub open spec fn with_prev_column(self) -> AppModel {
        if self.config.columns.len() > 0 {
            AppModel {
                selected_column: if self.selected_column == 0 {
                    (self.config.columns.len() - 1) as usize
                } else {
                    (self.selected_column - 1) as usize
                },
                ..self
            }
        } else {
            self
        }
    }
}

impl App {
    /// The application at its start, with nothing loaded yet. The caller
    /// starts the first refresh.
    pub fn new(local_root: String, config: Config, now_ms: u64) -> (app: Self)
        ensures
            app@ == AppModel::initial(local_root@, config@, now_ms),
    {
        let sort_column = SortColumn::from_string(config.sort_column.as_str());
        let sort_ascending = config.sort_ascending;
        let show_archived = config.show_archived;
        let show_private = config.show_private;
        let app = Self {
            local_root,
            view_mode: ViewMode::Repos,
            github_username: None,
            repos: Vec::new(),
            gists: Vec::new(),
            config,
            paths: PathTable::new(),
            selected: 0,
            scroll_offset: 0,
            sort_column,
            sort_ascending,
            show_archived,
            show_private,
            selected_column: 0,
            status_message: Some("Loading...".to_owned()),
            status_time: Some(now_ms),
            status_is_loading: true,
            status_is_error: false,
            input_mode: InputMode::Normal,
            popup: None,
            input_buffer: String::new(),
            confirm_buffer: String::new(),
            pending_delete: None,
            table_area: None,
            spinner_frame: 0,
            now_ms,
            pending_refresh: false,
            pending_local_refresh: false,
            config_unsaved: false,
            github_cache: None,
            upload_form: None,
            error_log: Vec::new(),
        };
        proof {
            assert(app@.repos =~= Seq::<RepoRowModel>::empty());
            assert(app@.gists =~= Seq::<GistRowModel>::empty());
            assert(app@.error_log =~= Seq::<ErrorLogEntryModel>::empty());
        }
        app
    }

    /// Whether the user may change the visibility of `repo`: it is on the
    /// hosting service, and the user owns it or is a member of its organization.
    pub fn can_change_visibility(&self, repo: &RepoRow) -> (r: bool)
        ensures
            r == (repo@.github_url is Some && repo@.is_member),
    {
        repo.github_url.is_some() && repo.is_member
    }

    /// Switches between the repository view and the gist view.
    pub fn toggle_view_mode(&mut self)
        ensures
            final(self)@ == old(self)@.with_view_toggled(),
            final(self)@.selection_valid(),
    {
        self.view_mode = match self.view_mode {
            ViewMode::Repos => ViewMode::Gists,
            ViewMode::Gists => ViewMode::Repos,
        };
        self.selected = 0;
        self.scroll_offset = 0;
    }

    /// Puts the repositories in order by the current sort column and direction.
    pub fn sort_repos(&mut self)
        ensures
            final(self)@ == old(self)@.sorted(),
            final(self).repos.len() == old(self).repos.len(),
    {
        let by = ColumnOrder {
            key: self.sort_column,
            ascending: self.sort_ascending,
            username: self.github_username.clone(),
            local_root: self.local_root.clone(),
            paths: self.paths.clone(),
        };
        sort_rows(&mut self.repos, &by);
    }

    /// Sorts by the next visible column.
    pub fn next_sort_column(&mut self)
        ensures
            final(self)@ == old(self)@.with_sort_column(
                old(self)@.sort_column.after(old(self)@.config.columns),
            ),
    {
        self.sort_column = self.sort_column.next(self.config.columns.as_slice());
        self.config.sort_column = self.sort_column.as_str().to_owned();
        self.config_unsaved = true;
        self.sort_repos();
    }

    /// Sorts by the previous visible column.
    pub fn prev_sort_column(&mut self)
        ensures
            final(self)@ == old(self)@.with_sort_column(
                old(self)@.sort_column.before(old(self)@.config.columns),
            ),
    {
        self.sort_column = self.sort_column.prev(self.config.columns.as_slice());
        self.config.sort_column = self.sort_column.as_str().to_owned();
        self.config_unsaved = true;
        self.sort_repos();
    }

    /// Turns the sort direction round.
    pub fn toggle_sort_direction(&mut self)
        ensures
            final(self)@ == old(self)@.with_direction_toggled(),
    {
        self.sort_ascending = !self.sort_ascending;
        self.config.sort_ascending = self.sort_ascending;
        self.config_unsaved = true;
        self.sort_repos();
    }

    /// Shows or hides archived repositories.
    pub fn toggle_show_archived(&mut self)
        ensures
            final(self)@ == old(self)@.with_archived_toggled(),
            final(self)@.selection_valid(),
    {
        self.show_archived = !self.show_archived;
        self.config.show_archived = self.show_archived;
        self.config_unsaved = true;
        self.selected = 0;
    }

    /// Shows or hides private repositories.
    pub fn toggle_show_private(&mut self)
        ensures
            final(self)@ == old(self)@.with_private_toggled(),
            final(self)@.selection_valid(),
    {
        self.show_private = !self.show_private;
        self.config.show_private = self.show_private;
        self.config_unsaved = true;
        self.selected = 0;
    }

    /// Whether `row` is shown.
    pub fn shows(&self, row: &RepoRow) -> (r: bool)
        ensures
            r == is_visible(
                row@,
                self@.config.ignored_repos,
                self@.show_archived,
                self@.show_private,
            ),
    {
        !self.config.ignored_repos.contains(row.id.as_str()) && (self.show_archived
            || !row.is_archived) && (self.show_private || !row.is_private)
    }

    /// The repositories that are shown, in order.
    pub fn visible_repos(&self) -> (r: Vec<&RepoRow>)
        ensures
            r.deep_view() == self@.visible(),
    {
        let mut out: Vec<&RepoRow> = Vec::new();
        let mut i: usize = 0;
        while i < self.repos.len()
            invariant
                i <= self.repos.len(),
                out.deep_view() == visible_rows(
                    self@.repos,
                    i as int,
                    self@.config.ignored_repos,
                    self@.show_archived,
                    self@.show_private,
                ),
            decreases self.repos.len() - i,
        {
            let ghost before = out.deep_view();
            proof {
                assert(self@.repos[i as int] == self.repos@[i as int]@);
            }
            if self.shows(&self.repos[i]) {
                out.push(&self.repos[i]);
                proof {
                    assert(out.deep_view() =~= before.push(self.repos@[i as int]@));
                }
            }
            i += 1;
        }
        out
    }

    /// The length of the list that is shown.
    pub fn visible_list_len(&self) -> (r: usize)
        ensures
            r == self@.visible_len(),
    {
        match self.view_mode {
            ViewMode::Repos => {
                let mut count: usize = 0;
                let mut i: usize = 0;
                while i < self.repos.len()
                    invariant
                        i <= self.repos.len(),
                        count <= i,
                        count == visible_rows(
                            self@.repos,
                            i as int,
                            self@.config.ignored_repos,
                            self@.show_archived,
                            self@.show_private,
                        ).len(),
                    decreases self.repos.len() - i,
                {
                    proof {
                        assert(self@.repos[i as int] == self.repos@[i as int]@);
                    }
                    if self.shows(&self.repos[i]) {
                        count += 1;
                    }
                    i += 1;
                }
                count
            },
            ViewMode::Gists => self.gists.len(),
        }
    }

    /// Selects the line below the selected one.
    pub fn next(&mut self)
        ensures
            final(self)@ == old(self)@.with_next_selected(),
            old(self)@.visible_len() > 0 ==> final(self)@.selection_valid(),
    {
        let count = self.visible_list_len();
        if count > 0 {
            if self.selected < count - 1 {
                self.selected = self.selected + 1;
            } else {
                self.selected = count - 1;
            }
        }
    }

    /// Selects the line above the selected one.
    pub fn previous(&mut self)
        ensures
            final(self)@ == old(self)@.with_previous_selected(),
            old(self)@.selection_valid() ==> final(self)@.selection_valid(),
    {
        if self.selected > 0 {
            self.selected = self.selected - 1;
        }
    }

    /// Takes note of the time, advances the spinner and clears a message
    /// that has been shown long enough.
    pub fn tick_spinner(&mut self, now_ms: u64)
        ensures
            final(self)@ == old(self)@.after_tick(now_ms),
    {
        self.now_ms = now_ms;
        if self.status_message.is_some() {
            if self.status_is_loading {
                self.spinner_frame = (self.spinner_frame % SPINNER_FRAME_COUNT + 1)
                    % SPINNER_FRAME_COUNT;
            }
            if !self.status_is_loading && !self.status_is_error {
                match self.status_time {
                    Some(time) => {
                        if now_ms >= time && now_ms - time >= STATUS_DWELL_MS {
                            self.status_message = None;
                            self.status_time = None;
                        }
                    },
                    None => {},
                }
            }
        }
    }

    /// The number of failures in the error log.
    pub fn error_count(&self) -> (r: usize)
        ensures
            r == self@.error_log.len(),
    {
        self.error_log.len()
    }

    /// The frame of the spinner to draw.
    pub fn spinner_char(&self) -> (c: char)
        ensures
            c == spinner_frame_char(self.spinner_frame),
    {
        match self.spinner_frame % SPINNER_FRAME_COUNT {
            0 => '⠋',
            1 => '⠙',
            2 => '⠹',
            3 => '⠸',
            4 => '⠼',
            5 => '⠴',
            6 => '⠦',
            7 => '⠧',
            8 => '⠇',
            _ => '⠏',
        }
    }

    /// Shows `msg` as the message of a running operation.
    pub fn set_status(&mut self, msg: String)
        ensures
            final(self)@ == old(self)@.with_status(msg@),
            final(self)@.status_kind() == StatusKind::Loading,
            !final(self)@.status_is_error,
    {
        self.status_message = Some(msg);
        self.status_time = Some(self.now_ms);
        self.status_is_loading = true;
        self.status_is_error = false;
    }

    /// Shows `msg` as the message of a completed operation.
    pub fn set_status_completed(&mut self, msg: String)
        ensures
            final(self)@ == old(self)@.with_completed(msg@),
            final(self)@.status_kind() == StatusKind::Completed,
    {
        self.status_message = Some(msg);
        self.status_time = Some(self.now_ms);
        self.status_is_loading = false;
        self.status_is_error = false;
    }

    /// Shows `msg` as the message of a failed operation.
    pub fn set_status_error(&mut self, msg: String)
        ensures
            final(self)@ == old(self)@.with_error(msg@),
            final(self)@.status_kind() == StatusKind::Error,
    {
        self.status_message = Some(msg);
        self.status_time = Some(self.now_ms);
        self.status_is_loading = false;
        self.status_is_error = true;
    }

    /// Clears the status line.
    pub fn clear_status(&mut self)
        ensures
            final(self)@ == old(self)@.without_status(),
            final(self)@.status_kind() == StatusKind::Absent,
    {
        self.status_message = None;
        self.status_time = None;
        self.status_is_loading = false;
        self.status_is_error = false;
    }

    /// What the status line shows.
    pub fn status_kind(&self) -> (k: StatusKind)
        ensures
            k == self@.status_kind(),
    {
        if self.status_message.is_none() {
            StatusKind::Absent
        } else if self.status_is_loading {
            StatusKind::Loading
        } else if self.status_is_error {
            StatusKind::Error
        } else {
            StatusKind::Completed
        }
    }

    /// Moves the selected column one place to the left.
    pub fn move_column_left(&mut self)
        ensures
            final(self)@ == old(self)@.with_column_moved_left(),
    {
        if self.selected_column < self.config.columns.len() {
            let col = self.config.columns[self.selected_column];
            self.config.move_column_left(col);
            if self.selected_column > 0 {
                self.selected_column -= 1;
            }
            self.config_unsaved = true;
        }
    }

    /// Moves the selected column one place to the right.
    pub fn move_column_right(&mut self)
        ensures
            final(self)@ == old(self)@.with_column_moved_right(),
    {
        if self.selected_column < self.config.columns.len() {
            let col = self.config.columns[self.selected_column];
            let count = self.config.columns.len();
            self.config.move_column_right(col);
            if self.selected_column + 1 < count {
                self.selected_column += 1;
            }
            self.config_unsaved = true;
        }
    }

    /// Selects the next column, the first after the last.
    pub fn select_next_column(&mut self)
        ensures
            final(self)@ == old(self)@.with_next_column(),
    {
        let n = self.config.columns.len();
        if n > 0 {
            self.selected_column = ((self.selected_column as u128 + 1) % (n as u128)) as usize;
        }
    }

    /// Selects the previous column, the last before the first.
    pub fn select_prev_column(&mut self)
        ensures
            final(self)@ == old(self)@.with_prev_column(),
    {
        let n = self.config.columns.len();
        if n > 0 {
            if self.selected_column == 0 {
                self.selected_column = n - 1;
            } else {
                self.selected_column -= 1;
            }
        }
    }

    /// The visible columns, in display order.
    pub fn visible_columns(&self) -> (r: &[Column])
        ensures
            r@ == self@.config.columns,
    {
        self.config.columns.as_slice()
    }

    /// The position of the column selected for moving.
    pub fn selected_column_index(&self) -> (r: usize)
        ensures
            r == self@.selected_column,
    {
        self.selected_column
    }

    /// Selects line `row` of the list, if it has such a line.
    pub fn select_row(&mut self, row: usize)
        ensures
            final(self)@ == old(self)@.with_row_selected(row),
            old(self)@.selection_valid() ==> final(self)@.selection_valid(),
    {
        let count = self.visible_list_len();
        if count > 0 && row < count {
            self.selected = row;
        }
    }

    /// Handles a click on screen row `row`. Returns whether it hit the
    /// table, and selects the line hit.
    pub fn handle_mouse_click(&mut self, row: u16, _col: u16) -> (hit: bool)
        ensures
            hit == (old(self)@.clicked_row(row) is Some),
            final(self)@ == match old(self)@.clicked_row(row) {
                Some(line) => old(self)@.with_row_selected(line as usize),
                None => old(self)@,
            },
    {
        match self.table_area {
            Some((table_y, table_height)) => {
                let top = table_y as u32;
                let height = table_height as u32;
                let at = row as u32;
                if at >= top + 2 && at < top + height {
                    let clicked_row = (at - top - 2) as usize;
                    self.select_row(clicked_row);
                    return true;
                }
                false
            },
            None => false,
        }
    }

    /// Scrolls the popup down, if one is open.
    pub fn scroll_down(&mut self)
        ensures
            final(self)@ == (AppModel {
                popup: match old(self)@.popup {
                    Some(p) => Some(p.scrolled_down(POPUP_VISIBLE_LINES)),
                    None => None,
                },
                ..old(self)@
            }),
    {
        let taken = self.popup.take();
        match taken {
            Some(mut popup) => {
                popup.scroll_down(POPUP_VISIBLE_LINES);
                self.popup = Some(popup);
            },
            None => {},
        }
    }

    /// Scrolls the popup up, if one is open.
    pub fn scroll_up(&mut self)
        ensures
            final(self)@ == (AppModel {
                popup: match old(self)@.popup {
                    Some(p) => Some(p.scrolled_up()),
                    None => None,
                },
                ..old(self)@
            }),
    {
        let taken = self.popup.take();
        match taken {
            Some(mut popup) => {
                popup.scroll_up();
                self.popup = Some(popup);
            },
            None => {},
        }
    }

    /// Selects the next line of the popup that lists the ignored repositories.
    pub fn popup_next(&mut self)
        ensures
            final(self)@ == (AppModel {
                popup: match old(self)@.popup {
                    Some(p) => Some(p.with_next_selected()),
                    None => None,
                },
                ..old(self)@
            }),
    {
        let taken = self.popup.take();
        match taken {
            Some(mut popup) => {
                if popup.popup_type == PopupType::Ignored {
                    let max = if popup.content.len() > 0 {
                        popup.content.len() - 1
                    } else {
                        0
                    };
                    if popup.selected < max {
                        popup.selected = popup.selected + 1;
                    } else {
                        popup.selected = max;
                    }
                }
                self.popup = Some(popup);
            },
            None => {},
        }
    }

    /// Selects the previous line of the popup that lists the ignored repositories.
    pub fn popup_prev(&mut self)
        ensures
            final(self)@ == (AppModel {
                popup: match old(self)@.popup {
                    Some(p) => Some(p.with_prev_selected()),
                    None => None,
                },
                ..old(self)@
            }),
    {
        let taken = self.popup.take();
        match taken {
            Some(mut popup) => {
                if popup.popup_type == PopupType::Ignored {
                    if popup.selected > 3 {
                        popup.selected = popup.selected - 1;
                    } else {
                        popup.selected = 2;
                    }
                }
                self.popup = Some(popup);
            },
            None => {},
        }
    }

    /// Closes the popup and leaves any input mode.
    pub fn close_popup(&mut self)
        ensures
            final(self)@ == old(self)@.with_popup_closed(),
    {
        self.popup = None;
        self.input_mode = InputMode::Normal;
        self.input_buffer = String::new();
        self.confirm_buffer = String::new();
    }
}

/// The frames of the spinner, in the order in which they are shown.
pub open spec fn spinner_frame_char(frame: usize) -> char {
    let i = frame % SPINNER_FRAME_COUNT;
    if i == 0 {
        '⠋'
    } else if i == 1 {
        '⠙'
    } else if i == 2 {
        '⠹'
    } else if i == 3 {
        '⠸'
    } else if i == 4 {
        '⠼'
    } else if i == 5 {
        '⠴'
    } else if i == 6 {
        '⠦'
    } else if i == 7 {
        '⠧'
    } else if i == 8 {
        '⠇'
    } else {
        '⠏'
    }
}


impl AppModel {
    /// With the start of `task` announced in the status line, if it is one
    /// that is announced.
    pub open spec fn announcing(self, task: Option<BackgroundTaskModel>) -> AppModel {
        match task {
            Some(t) => match t.announcement() {
                Some(m) => self.with_status(m),
                None => self,
            },
            None => self,
        }
    }

    /// The operation of kind `kind` on the local copy of the selected
    /// repository, if it has one; for `Init`, if it is not a git repository yet.
    pub open spec fn path_task(self, kind: TaskKind) -> Option<BackgroundTaskModel> {
        match self.selected_repo() {
            Some(row) => if row.local_path is Some && (kind == TaskKind::Init ==> !row.has_git) {
                Some(
                    BackgroundTaskModel::OnPath { kind, name: row.name, path: row.local_path->0 },
                )
            } else {
                None
            },
            None => None,
        }
    }

    /// The clone of the selected repository to the place that the layout
    /// gives it, if it exists on the hosting service only.
    pub open spec fn clone_task(self) -> Option<BackgroundTaskModel> {
        match self.selected_repo() {
            Some(row) => if row.github_url is Some && row.local_path is None {
                Some(
                    BackgroundTaskModel::Clone {
                        name: row.name,
                        url: row.github_url->0,
                        path: ghq_path(self.local_root, row.github_url->0),
                    },
                )
            } else {
                None
            },
            None => None,
        }
    }

    /// The operation of kind `kind` on the local clone of the selected
    /// gist, if it has one.
    pub open spec fn gist_task(self, kind: TaskKind) -> Option<BackgroundTaskModel> {
        match self.selected_gist() {
            Some(g) => if g.local_path is Some {
                Some(
                    BackgroundTaskModel::OnPath {
                        kind,
                        name: short_id(g.id),
                        path: g.local_path->0,
                    },
                )
            } else {
                None
            },
            None => None,
        }
    }

    /// The clone of the selected gist below `gists` in the local root, if
    /// it has no local clone.
    pub open spec fn clone_gist_task(self) -> Option<BackgroundTaskModel> {
        match self.selected_gist() {
            Some(g) => if g.local_path is None {
                Some(
                    BackgroundTaskModel::CloneGist {
                        id: g.id,
                        name: short_id(g.id),
                        path: self.local_root + "/gists/"@ + g.id,
                    },
                )
            } else {
                None
            },
            None => None,
        }
    }

    /// The selected repository by owner and name, if it has an owner.
    pub open spec fn selected_full_name(self) -> Option<Seq<char>> {
        match self.selected_repo() {
            Some(row) => match row.owner {
                Some(o) => Some(o + "/"@ + row.name),
                None => None,
            },
            None => None,
        }
    }

    /// The change of visibility of the selected repository: to public if
    /// it is private, to private if it is not.
    pub open spec fn visibility_task(self) -> Option<BackgroundTaskModel> {
        match self.selected_full_name() {
            Some(name) => Some(
                BackgroundTaskModel::SetVisibility {
                    name,
                    visibility: if self.selected_repo()->0.is_private {
                        "public"@
                    } else {
                        "private"@
                    },
                    archived: self.selected_repo()->0.is_archived,
                },
            ),
            None => None,
        }
    }

    /// Archiving the selected repository, or unarchiving it if it is
    /// archived, for a repository of which the user is a member.
    pub open spec fn archive_task(self) -> Option<BackgroundTaskModel> {
        match self.selected_full_name() {
            Some(name) => if self.selected_repo()->0.is_member {
                Some(
                    BackgroundTaskModel::SetArchived {
                        name,
                        archive: !self.selected_repo()->0.is_archived,
                    },
                )
            } else {
                None
            },
            None => None,
        }
    }

    /// The user has typed `y` or `yes`, in any case, to confirm.
    pub open spec fn confirmed(self) -> bool {
        affirms(unicode_lowercase(self.confirm_buffer))
    }

    /// Waiting for the user to confirm the deletion of `what`.
    pub open spec fn asking_to_delete(self, what: DeleteType) -> AppModel {
        AppModel {
            input_mode: InputMode::ConfirmDelete,
            pending_delete: Some(what),
            confirm_buffer: Seq::empty(),
            ..self
        }
    }

    /// What is deleted once the user has answered the request for
    /// confirmation, where `task` is what the deletion takes.
    pub open spec fn delete_task(self, task: Option<BackgroundTaskModel>) -> Option<
        BackgroundTaskModel,
    > {
        if self.confirmed() {
            task
        } else {
            None
        }
    }

    /// The state after the user has answered the request for confirmation:
    /// the deletion announced and the popup closed if it goes ahead, the
    /// popup closed if the user has declined, and nothing pending either way.
    pub open spec fn after_delete_answer(self, task: Option<BackgroundTaskModel>) -> AppModel {
        let next = if !self.confirmed() {
            self.with_popup_closed()
        } else if task is Some {
            self.announcing(task).with_popup_closed()
        } else {
            self
        };
        AppModel { pending_delete: None, ..next }
    }

    /// Deleting the selected repository on the hosting service.
    pub open spec fn delete_remote_task(self) -> Option<BackgroundTaskModel> {
        match self.selected_full_name() {
            Some(name) => Some(BackgroundTaskModel::DeleteRemote { name }),
            None => None,
        }
    }

    /// Deleting the selected gist on the hosting service.
    pub open spec fn delete_gist_task(self) -> Option<BackgroundTaskModel> {
        match self.selected_gist() {
            Some(g) => Some(BackgroundTaskModel::DeleteGist { id: g.id, name: short_id(g.id) }),
            None => None,
        }
    }
}

/// The answer `answer`, already in lower case, confirms: it is `y` or `yes`.
pub open spec fn affirms(answer: Seq<char>) -> bool {
    answer == "y"@ || answer == "yes"@
}

/// Whether an answer in lower case confirms.
pub fn is_yes(answer: &str) -> (r: bool)
    ensures
        r == affirms(answer@),
{
    str_eq(answer, "y") || str_eq(answer, "yes")
}

impl App {
    /// The selected repository, in the repository view.
    pub fn get_selected_repo(&self) -> (r: Option<&RepoRow>)
        ensures
            r.deep_view() == self@.selected_repo(),
    {
        if self.view_mode == ViewMode::Repos {
            let visible = self.visible_repos();
            if self.selected < visible.len() {
                proof {
                    assert(visible.deep_view()[self.selected as int] == visible@[self.selected as int]@);
                }
                Some(visible[self.selected])
            } else {
                None
            }
        } else {
            None
        }
    }

    /// The selected gist, in the gist view.
    pub fn get_selected_gist(&self) -> (r: Option<&GistRow>)
        ensures
            r.deep_view() == self@.selected_gist(),
    {
        if self.view_mode == ViewMode::Gists && self.selected < self.gists.len() {
            proof {
                assert(self@.gists[self.selected as int] == self.gists@[self.selected as int]@);
            }
            Some(&self.gists[self.selected])
        } else {
            None
        }
    }

    /// Announces the start of `task` in the status line.
    pub fn announce(&mut self, task: &BackgroundTask)
        ensures
            final(self)@ == old(self)@.announcing(Some(task@)),
    {
        match task.announcement() {
            Some(m) => self.set_status(m),
            None => {},
        }
    }

    /// Starts a full refresh: what was kept of the hosting service is dropped.
    pub fn trigger_refresh(&mut self) -> (task: BackgroundTask)
        ensures
            task@ == BackgroundTaskModel::Refresh,
            final(self)@ == (AppModel { github_cache: None, ..old(self)@.with_status("Refreshing..."@) }),
    {
        self.set_status("Refreshing...".to_owned());
        self.github_cache = None;
        BackgroundTask::Refresh
    }

    /// Starts a local refresh with the data kept of the hosting service,
    /// or a full refresh where nothing is kept.
    pub fn trigger_local_refresh(&mut self) -> (task: BackgroundTask)
        ensures
            task@ == match old(self)@.github_cache {
                Some(cache) => BackgroundTaskModel::LocalRefresh { cache },
                None => BackgroundTaskModel::Refresh,
            },
            final(self)@ == (AppModel {
                github_cache: None,
                ..old(self)@.with_status(
                    if old(self)@.github_cache is Some {
                        "Updating..."@
                    } else {
                        "Refreshing..."@
                    },
                )
            }),
    {
        let kept = self.github_cache.take();
        match kept {
            Some(cache) => {
                self.set_status("Updating...".to_owned());
                BackgroundTask::LocalRefresh { cache }
            },
            None => self.trigger_refresh(),
        }
    }

    fn start_on_path(&mut self, kind: TaskKind) -> (task: Option<BackgroundTask>)
        ensures
            task.deep_view() == old(self)@.path_task(kind),
            final(self)@ == old(self)@.announcing(old(self)@.path_task(kind)),
    {
        let found = match self.get_selected_repo() {
            Some(row) => match &row.local_path {
                Some(path) => if kind == TaskKind::Init && row.has_git {
                    None
                } else {
                    Some(BackgroundTask::OnPath { kind, name: row.name.clone(), path: path.clone() })
                },
                None => None,
            },
            None => None,
        };
        match found {
            Some(task) => {
                self.announce(&task);
                Some(task)
            },
            None => None,
        }
    }

    fn start_on_gist(&mut self, kind: TaskKind) -> (task: Option<BackgroundTask>)
        ensures
            task.deep_view() == old(self)@.gist_task(kind),
            final(self)@ == old(self)@.announcing(old(self)@.gist_task(kind)),
    {
        let found = match self.get_selected_gist() {
            Some(g) => match &g.local_path {
                Some(path) => Some(
                    BackgroundTask::OnPath {
                        kind,
                        name: display_id(g.id.as_str()),
                        path: path.clone(),
                    },
                ),
                None => None,
            },
            None => None,
        };
        match found {
            Some(task) => {
                self.announce(&task);
                Some(task)
            },
            None => None,
        }
    }

    /// Pulls the selected repository.
    pub fn pull_selected(&mut self) -> (task: Option<BackgroundTask>)
        ensures
            task.deep_view() == old(self)@.path_task(TaskKind::Pull),
            final(self)@ == old(self)@.announcing(old(self)@.path_task(TaskKind::Pull)),
    {
        self.start_on_path(TaskKind::Pull)
    }

    /// Pushes the selected repository.
    pub fn push_selected(&mut self) -> (task: Option<BackgroundTask>)
        ensures
            task.deep_view() == old(self)@.path_task(TaskKind::Push),
            final(self)@ == old(self)@.announcing(old(self)@.path_task(TaskKind::Push)),
    {
        self.start_on_path(TaskKind::Push)
    }

    /// Fetches, pulls and pushes the selected repository.
    pub fn sync_selected(&mut self) -> (task: Option<BackgroundTask>)
        ensures
            task.deep_view() == old(self)@.path_task(TaskKind::Sync),
            final(self)@ == old(self)@.announcing(old(self)@.path_task(TaskKind::Sync)),
    {
        self.start_on_path(TaskKind::Sync)
    }

    /// Fetches, rebases, commits everything and pushes the selected repository.
    pub fn quicksync_selected(&mut self) -> (task: Option<BackgroundTask>)
        ensures
            task.deep_view() == old(self)@.path_task(TaskKind::Quicksync),
            final(self)@ == old(self)@.announcing(old(self)@.path_task(TaskKind::Quicksync)),
    {
        self.start_on_path(TaskKind::Quicksync)
    }

    /// Makes the selected folder a git repository, if it is none yet.
    pub fn init_repo(&mut self) -> (task: Option<BackgroundTask>)
        ensures
            task.deep_view() == old(self)@.path_task(TaskKind::Init),
            final(self)@ == old(self)@.announcing(old(self)@.path_task(TaskKind::Init)),
    {
        self.start_on_path(TaskKind::Init)
    }

    /// Clones the selected repository, if it has no local copy.
    pub fn clone_selected(&mut self) -> (task: Option<BackgroundTask>)
        ensures
            task.deep_view() == old(self)@.clone_task(),
            final(self)@ == old(self)@.announcing(old(self)@.clone_task()),
    {
        let found = match self.get_selected_repo() {
            Some(row) => match &row.github_url {
                Some(url) => if row.local_path.is_none() {
                    Some(
                        BackgroundTask::Clone {
                            name: row.name.clone(),
                            url: url.clone(),
                            path: get_ghq_path(self.local_root.as_str(), url.as_str()),
                        },
                    )
                } else {
                    None
                },
                None => None,
            },
            None => None,
        };
        match found {
            Some(task) => {
                self.announce(&task);
                Some(task)
            },
            None => None,
        }
    }

    /// Pulls the local clone of the selected gist.
    pub fn pull_gist(&mut self) -> (task: Option<BackgroundTask>)
        ensures
            task.deep_view() == old(self)@.gist_task(TaskKind::PullGist),
            final(self)@ == old(self)@.announcing(old(self)@.gist_task(TaskKind::PullGist)),
    {
        self.start_on_gist(TaskKind::PullGist)
    }

    /// Pushes the local clone of the selected gist.
    pub fn push_gist(&mut self) -> (task: Option<BackgroundTask>)
        ensures
            task.deep_view() == old(self)@.gist_task(TaskKind::PushGist),
            final(self)@ == old(self)@.announcing(old(self)@.gist_task(TaskKind::PushGist)),
    {
        self.start_on_gist(TaskKind::PushGist)
    }

    /// Fetches, pulls and pushes the local clone of the selected gist.
    pub fn sync_gist(&mut self) -> (task: Option<BackgroundTask>)
        ensures
            task.deep_view() == old(self)@.gist_task(TaskKind::SyncGist),
            final(self)@ == old(self)@.announcing(old(self)@.gist_task(TaskKind::SyncGist)),
    {
        self.start_on_gist(TaskKind::SyncGist)
    }

    /// Clones the selected gist, if it has no local clone.
    pub fn clone_gist(&mut self) -> (task: Option<BackgroundTask>)
        ensures
            task.deep_view() == old(self)@.clone_gist_task(),
            final(self)@ == old(self)@.announcing(old(self)@.clone_gist_task()),
    {
        let found = match self.get_selected_gist() {
            Some(g) => if g.local_path.is_none() {
                Some(
                    BackgroundTask::CloneGist {
                        id: g.id.clone(),
                        name: display_id(g.id.as_str()),
                        path: concat3(self.local_root.as_str(), "/gists/", g.id.as_str()),
                    },
                )
            } else {
                None
            },
            None => None,
        };
        match found {
            Some(task) => {
                self.announce(&task);
                Some(task)
            },
            None => None,
        }
    }

    fn selected_full_name(&self) -> (r: Option<String>)
        ensures
            r.deep_view() == self@.selected_full_name(),
    {
        match self.get_selected_repo() {
            Some(row) => match &row.owner {
                Some(o) => Some(concat3(o.as_str(), "/", row.name.as_str())),
                None => None,
            },
            None => None,
        }
    }

    /// Makes the selected repository public if it is private, and private
    /// if it is public.
    pub fn toggle_private(&mut self) -> (task: Option<BackgroundTask>)
        ensures
            task.deep_view() == old(self)@.visibility_task(),
            final(self)@ == old(self)@.announcing(old(self)@.visibility_task()),
    {
        let found = match self.selected_full_name() {
            Some(name) => {
                let row = self.get_selected_repo().unwrap();
                let visibility = if row.is_private {
                    "public".to_owned()
                } else {
                    "private".to_owned()
                };
                Some(BackgroundTask::SetVisibility { name, visibility, archived: row.is_archived })
            },
            None => None,
        };
        match found {
            Some(task) => {
                self.announce(&task);
                Some(task)
            },
            None => None,
        }
    }

    /// Archives the selected repository, or unarchives it if it is archived.
    pub fn toggle_archived(&mut self) -> (task: Option<BackgroundTask>)
        ensures
            task.deep_view() == old(self)@.archive_task(),
            final(self)@ == old(self)@.announcing(old(self)@.archive_task()),
    {
        let found = match self.selected_full_name() {
            Some(name) => {
                let row = self.get_selected_repo().unwrap();
                if row.is_member {
                    Some(BackgroundTask::SetArchived { name, archive: !row.is_archived })
                } else {
                    None
                }
            },
            None => None,
        };
        match found {
            Some(task) => {
                self.announce(&task);
                Some(task)
            },
            None => None,
        }
    }

    /// Asks for confirmation before the local copy of the selected
    /// repository is deleted, if it has one.
    pub fn start_delete_confirm(&mut self)
        ensures
            final(self)@ == match old(self)@.selected_repo() {
                Some(row) => if row.local_path is Some {
                    old(self)@.asking_to_delete(DeleteType::LocalRepo)
                } else {
                    old(self)@
                },
                None => old(self)@,
            },
    {
        let has_local = match self.get_selected_repo() {
            Some(row) => row.has_local(),
            None => false,
        };
        if has_local {
            self.input_mode = InputMode::ConfirmDelete;
            self.pending_delete = Some(DeleteType::LocalRepo);
            self.confirm_buffer = String::new();
        }
    }

    /// Asks for confirmation before the selected repository is deleted on
    /// the hosting service, if the user may delete it.
    pub fn start_delete_remote_confirm(&mut self)
        ensures
            final(self)@ == match old(self)@.selected_repo() {
                Some(row) => if row.github_url is Some && row.is_member {
                    old(self)@.asking_to_delete(DeleteType::RemoteRepo)
                } else {
                    old(self)@
                },
                None => old(self)@,
            },
    {
        let can_delete = match self.get_selected_repo() {
            Some(row) => row.github_url.is_some() && row.is_member,
            None => false,
        };
        if can_delete {
            self.input_mode = InputMode::ConfirmDelete;
            self.pending_delete = Some(DeleteType::RemoteRepo);
            self.confirm_buffer = String::new();
        }
    }

    /// Asks for confirmation before the selected gist is deleted.
    pub fn start_gist_delete_confirm(&mut self)
        ensures
            final(self)@ == if old(self)@.selected_gist() is Some {
                old(self)@.asking_to_delete(DeleteType::Gist)
            } else {
                old(self)@
            },
    {
        if self.get_selected_gist().is_some() {
            self.input_mode = InputMode::ConfirmDelete;
            self.pending_delete = Some(DeleteType::Gist);
            self.confirm_buffer = String::new();
        }
    }

    /// Whether the user has confirmed.
    pub fn is_confirmed(&self) -> (r: bool)
        ensures
            r == self@.confirmed(),
    {
        let answer = lowercase(self.confirm_buffer.as_str());
        is_yes(answer.as_str())
    }

    fn decline_delete(&mut self)
        ensures
            final(self)@ == (AppModel { pending_delete: None, ..old(self)@.with_popup_closed() }),
    {
        self.close_popup();
        self.pending_delete = None;
    }

    fn proceed_with_delete(&mut self, task: &BackgroundTask)
        ensures
            final(self)@ == (AppModel {
                pending_delete: None,
                ..old(self)@.announcing(Some(task@)).with_popup_closed()
            }),
    {
        self.announce(task);
        self.close_popup();
        self.pending_delete = None;
    }

    fn finish_delete(&mut self, found: Option<BackgroundTask>) -> (task: Option<BackgroundTask>)
        ensures
            task.deep_view() == old(self)@.delete_task(found.deep_view()),
            final(self)@ == old(self)@.after_delete_answer(found.deep_view()),
    {
        if !self.is_confirmed() {
            self.decline_delete();
            return None;
        }
        match found {
            Some(task) => {
                self.proceed_with_delete(&task);
                Some(task)
            },
            None => {
                self.pending_delete = None;
                None
            },
        }
    }

    /// Deletes the local copy of the selected repository, if the user has
    /// confirmed.
    pub fn delete_local_repo(&mut self) -> (task: Option<BackgroundTask>)
        ensures
            task.deep_view() == old(self)@.delete_task(
                old(self)@.path_task(TaskKind::DeleteLocal),
            ),
            final(self)@ == old(self)@.after_delete_answer(
                old(self)@.path_task(TaskKind::DeleteLocal),
            ),
    {
        let found = match self.get_selected_repo() {
            Some(row) => match &row.local_path {
                Some(path) => Some(
                    BackgroundTask::OnPath {
                        kind: TaskKind::DeleteLocal,
                        name: row.name.clone(),
                        path: path.clone(),
                    },
                ),
                None => None,
            },
            None => None,
        };
        self.finish_delete(found)
    }

    /// Deletes the selected repository on the hosting service, if the user
    /// has confirmed.
    pub fn delete_remote_repo(&mut self) -> (task: Option<BackgroundTask>)
        ensures
            task.deep_view() == old(self)@.delete_task(old(self)@.delete_remote_task()),
            final(self)@ == old(self)@.after_delete_answer(old(self)@.delete_remote_task()),
    {
        let found = match self.selected_full_name() {
            Some(name) => Some(BackgroundTask::DeleteRemote { name }),
            None => None,
        };
        self.finish_delete(found)
    }

    /// Deletes the selected gist on the hosting service, if the user has
    /// confirmed.
    pub fn delete_gist(&mut self) -> (task: Option<BackgroundTask>)
        ensures
            task.deep_view() == old(self)@.delete_task(old(self)@.delete_gist_task()),
            final(self)@ == old(self)@.after_delete_answer(old(self)@.delete_gist_task()),
    {
        let found = match self.get_selected_gist() {
            Some(g) => Some(
                BackgroundTask::DeleteGist { id: g.id.clone(), name: display_id(g.id.as_str()) },
            ),
            None => None,
        };
        self.finish_delete(found)
    }
}


impl UploadFormModel {
    /// With the next owner selected: the personal account after the last
    /// organization.
    pub open spec fn with_next_org(self) -> UploadFormModel {
        UploadFormModel {
            selected_org: ((self.selected_org + 1) % ((self.orgs.len() + 1) as int)) as usize,
            ..self
        }
    }

    /// With the previous owner selected: the last organization before the
    /// personal account.
    pub open spec fn with_prev_org(self) -> UploadFormModel {
        UploadFormModel {
            selected_org: if self.selected_org == 0 {
                self.orgs.len() as usize
            } else {
                (self.selected_org - 1) as usize
            },
            ..self
        }
    }

    /// After the user has typed `c`: appended to the name or the
    /// description; a space in the other two fields changes the visibility
    /// or goes to the next owner.
    pub open spec fn with_char(self, c: char) -> UploadFormModel {
        match self.active_field {
            UploadField::Name => UploadFormModel { name: self.name.push(c), ..self },
            UploadField::Description => UploadFormModel {
                description: self.description.push(c),
                ..self
            },
            UploadField::Private => if c == ' ' {
                UploadFormModel { private: !self.private, ..self }
            } else {
                self
            },
            UploadField::Org => if c == ' ' {
                self.with_next_org()
            } else {
                self
            },
        }
    }

    /// After the user has deleted a character of the name or the description.
    pub open spec fn without_last_char(self) -> UploadFormModel {
        match self.active_field {
            UploadField::Name => UploadFormModel {
                name: if self.name.len() > 0 {
                    self.name.drop_last()
                } else {
                    self.name
                },
                ..self
            },
            UploadField::Description => UploadFormModel {
                description: if self.description.len() > 0 {
                    self.description.drop_last()
                } else {
                    self.description
                },
                ..self
            },
            _ => self,
        }
    }

    /// What the form asks to create. The owner is the personal account
    /// where no organization is selected; an empty description is none.
    pub open spec fn options(self) -> CreateRepoModel {
        CreateRepoModel {
            name: self.name,
            path: self.local_path,
            description: if self.description.len() == 0 {
                None
            } else {
                Some(self.description)
            },
            private: self.private,
            org: if self.selected_org == 0 || self.selected_org - 1 >= self.orgs.len() {
                None
            } else {
                Some(self.orgs[self.selected_org - 1])
            },
        }
    }
}

impl UploadFormState {
    /// Selects the next owner.
    pub fn next_org(&mut self)
        ensures
            final(self)@ == old(self)@.with_next_org(),
    {
        let count: u128 = self.orgs.len() as u128 + 1;
        self.selected_org = ((self.selected_org as u128 + 1) % count) as usize;
    }

    /// Selects the previous owner.
    pub fn prev_org(&mut self)
        ensures
            final(self)@ == old(self)@.with_prev_org(),
    {
        if self.selected_org == 0 {
            self.selected_org = self.orgs.len();
        } else {
            self.selected_org -= 1;
        }
    }

    /// Takes a typed character.
    pub fn type_char(&mut self, c: char)
        ensures
            final(self)@ == old(self)@.with_char(c),
    {
        match self.active_field {
            UploadField::Name => push_char(&mut self.name, c),
            UploadField::Description => push_char(&mut self.description, c),
            UploadField::Private => {
                if c == ' ' {
                    self.private = !self.private;
                }
            },
            UploadField::Org => {
                if c == ' ' {
                    self.next_org();
                }
            },
        }
    }

    /// Deletes the last character of the field that is edited.
    pub fn delete_char(&mut self)
        ensures
            final(self)@ == old(self)@.without_last_char(),
    {
        match self.active_field {
            UploadField::Name => pop_char(&mut self.name),
            UploadField::Description => pop_char(&mut self.description),
            _ => {},
        }
    }

    /// What the form asks to create.
    pub fn to_options(&self) -> (r: CreateRepoOptions)
        ensures
            r@ == self@.options(),
    {
        let org = if self.selected_org == 0 || self.selected_org - 1 >= self.orgs.len() {
            None
        } else {
            proof {
                assert(self@.orgs[self.selected_org - 1] == self.orgs@[self.selected_org - 1]@);
            }
            Some(self.orgs[self.selected_org - 1].clone())
        };
        let description = if self.description.as_str().unicode_len() == 0 {
            None
        } else {
            Some(self.description.clone())
        };
        CreateRepoOptions {
            name: self.name.clone(),
            path: self.local_path.clone(),
            description,
            private: self.private,
            org,
        }
    }
}

impl AppModel {
    /// With `form` as the upload form.
    pub open spec fn with_form(self, form: UploadFormModel) -> AppModel {
        AppModel { upload_form: Some(form), ..self }
    }

    /// The upload form for the selected repository, if it exists on the
    /// local disk only: named after it, private, owned by the user.
    pub open spec fn fresh_form(self) -> Option<UploadFormModel> {
        match self.selected_repo() {
            Some(row) => if row.local_path is Some && row.github_url is None {
                Some(
                    UploadFormModel {
                        name: row.name,
                        description: Seq::empty(),
                        private: true,
                        orgs: Seq::empty(),
                        selected_org: 0,
                        active_field: UploadField::Name,
                        local_path: row.local_path->0,
                    },
                )
            } else {
                None
            },
            None => None,
        }
    }

    /// With the upload form opened, if there is one to open.
    pub open spec fn with_form_opened(self) -> AppModel {
        match self.fresh_form() {
            Some(form) => AppModel {
                upload_form: Some(form),
                input_mode: InputMode::UploadForm,
                popup: Some(
                    PopupModel {
                        popup_type: PopupType::Upload,
                        scroll: 0,
                        content: Seq::empty(),
                        selected: 0,
                    },
                ),
                ..self
            },
            None => self,
        }
    }

    /// What submitting the upload form asks for.
    pub open spec fn submit_task(self) -> Option<BackgroundTaskModel> {
        match self.upload_form {
            Some(form) => Some(BackgroundTaskModel::CreateRepo { options: form.options() }),
            None => None,
        }
    }

    /// With the upload form submitted: the form gone, the creation
    /// announced, the popup closed.
    pub open spec fn with_form_submitted(self) -> AppModel {
        match self.upload_form {
            Some(form) => (AppModel { upload_form: None, ..self }).announcing(
                self.submit_task(),
            ).with_popup_closed(),
            None => self,
        }
    }

    /// After the user has typed `c`.
    pub open spec fn with_char(self, c: char) -> AppModel {
        match self.input_mode {
            InputMode::ConfirmDelete => AppModel {
                confirm_buffer: self.confirm_buffer.push(c),
                ..self
            },
            InputMode::UploadForm => match self.upload_form {
                Some(form) => self.with_form(form.with_char(c)),
                None => self,
            },
            InputMode::Normal => self,
        }
    }

    /// After the user has deleted a character.
    pub open spec fn without_last_char(self) -> AppModel {
        match self.input_mode {
            InputMode::ConfirmDelete => AppModel {
                confirm_buffer: if self.confirm_buffer.len() > 0 {
                    self.confirm_buffer.drop_last()
                } else {
                    self.confirm_buffer
                },
                ..self
            },
            InputMode::UploadForm => match self.upload_form {
                Some(form) => self.with_form(form.without_last_char()),
                None => self,
            },
            InputMode::Normal => self,
        }
    }
}

impl App {
    /// Opens the upload form for the selected repository, if it exists on
    /// the local disk only, and asks for the organizations of the user.
    pub fn show_upload_form(&mut self) -> (task: Option<BackgroundTask>)
        ensures
            task.deep_view() == if old(self)@.fresh_form() is Some {
                Some(BackgroundTaskModel::FetchOrgs)
            } else {
                None
            },
            final(self)@ == old(self)@.with_form_opened(),
    {
        let form = match self.get_selected_repo() {
            Some(row) => match &row.local_path {
                Some(path) => if row.github_url.is_none() {
                    let orgs: Vec<String> = Vec::new();
                    proof {
                        assert(orgs.deep_view() =~= Seq::<Seq<char>>::empty());
                    }
                    Some(
                        UploadFormState {
                            name: row.name.clone(),
                            description: String::new(),
                            private: true,
                            orgs,
                            selected_org: 0,
                            active_field: UploadField::Name,
                            local_path: path.clone(),
                        },
                    )
                } else {
                    None
                },
                None => None,
            },
            None => None,
        };
        match form {
            Some(form) => {
                self.upload_form = Some(form);
                self.input_mode = InputMode::UploadForm;
                let content: Vec<String> = Vec::new();
                proof {
                    assert(content.deep_view() =~= Seq::<Seq<char>>::empty());
                }
                self.popup = Some(Popup::new(PopupType::Upload, content));
                Some(BackgroundTask::FetchOrgs)
            },
            None => None,
        }
    }

    /// Submits the upload form.
    pub fn submit_upload_form(&mut self) -> (task: Option<BackgroundTask>)
        ensures
            task.deep_view() == old(self)@.submit_task(),
            final(self)@ == old(self)@.with_form_submitted(),
    {
        let taken = self.upload_form.take();
        match taken {
            Some(form) => {
                let task = BackgroundTask::CreateRepo { options: form.to_options() };
                self.announce(&task);
                self.close_popup();
                Some(task)
            },
            None => None,
        }
    }

    /// Gives up the upload form.
    pub fn cancel_upload_form(&mut self)
        ensures
            final(self)@ == (AppModel { upload_form: None, ..old(self)@ }).with_popup_closed(),
    {
        self.upload_form = None;
        self.close_popup();
    }

    /// Goes to the next field of the upload form.
    pub fn upload_form_next_field(&mut self)
        ensures
            final(self)@ == match old(self)@.upload_form {
                Some(f) => old(self)@.with_form(
                    UploadFormModel { active_field: f.active_field.following(), ..f },
                ),
                None => old(self)@,
            },
    {
        let taken = self.upload_form.take();
        match taken {
            Some(mut form) => {
                form.active_field = form.active_field.next();
                self.upload_form = Some(form);
            },
            None => {},
        }
    }

    /// Goes to the previous field of the upload form.
    pub fn upload_form_prev_field(&mut self)
        ensures
            final(self)@ == match old(self)@.upload_form {
                Some(f) => old(self)@.with_form(
                    UploadFormModel { active_field: f.active_field.preceding(), ..f },
                ),
                None => old(self)@,
            },
    {
        let taken = self.upload_form.take();
        match taken {
            Some(mut form) => {
                form.active_field = form.active_field.prev();
                self.upload_form = Some(form);
            },
            None => {},
        }
    }

    /// Changes the visibility chosen in the upload form.
    pub fn upload_form_toggle_private(&mut self)
        ensures
            final(self)@ == match old(self)@.upload_form {
                Some(f) => old(self)@.with_form(UploadFormModel { private: !f.private, ..f }),
                None => old(self)@,
            },
    {
        let taken = self.upload_form.take();
        match taken {
            Some(mut form) => {
                form.private = !form.private;
                self.upload_form = Some(form);
            },
            None => {},
        }
    }

    /// Selects the next owner in the upload form.
    pub fn upload_form_next_org(&mut self)
        ensures
            final(self)@ == match old(self)@.upload_form {
                Some(f) => old(self)@.with_form(f.with_next_org()),
                None => old(self)@,
            },
    {
        let taken = self.upload_form.take();
        match taken {
            Some(mut form) => {
                form.next_org();
                self.upload_form = Some(form);
            },
            None => {},
        }
    }

    /// Selects the previous owner in the upload form.
    pub fn upload_form_prev_org(&mut self)
        ensures
            final(self)@ == match old(self)@.upload_form {
                Some(f) => old(self)@.with_form(f.with_prev_org()),
                None => old(self)@,
            },
    {
        let taken = self.upload_form.take();
        match taken {
            Some(mut form) => {
                form.prev_org();
                self.upload_form = Some(form);
            },
            None => {},
        }
    }

    /// Takes a typed character, in the input modes.
    pub fn handle_char(&mut self, c: char)
        ensures
            final(self)@ == old(self)@.with_char(c),
    {
        match self.input_mode {
            InputMode::ConfirmDelete => {
                push_char(&mut self.confirm_buffer, c);
            },
            InputMode::UploadForm => {
                let taken = self.upload_form.take();
                match taken {
                    Some(mut form) => {
                        form.type_char(c);
                        self.upload_form = Some(form);
                    },
                    None => {},
                }
            },
            InputMode::Normal => {},
        }
    }

    /// Deletes the last typed character, in the input modes.
    pub fn handle_backspace(&mut self)
        ensures
            final(self)@ == old(self)@.without_last_char(),
    {
        match self.input_mode {
            InputMode::ConfirmDelete => {
                pop_char(&mut self.confirm_buffer);
            },
            InputMode::UploadForm => {
                let taken = self.upload_form.take();
                match taken {
                    Some(mut form) => {
                        form.delete_char();
                        self.upload_form = Some(form);
                    },
                    None => {},
                }
            },
            InputMode::Normal => {},
        }
    }
}


/// Appends a line to a list of lines.
pub fn push_line(lines: &mut Vec<String>, line: String)
    ensures
        final(lines).deep_view() == old(lines).deep_view().push(line@),
{
    let ghost before = lines.deep_view();
    lines.push(line);
    proof {
        assert(lines.deep_view() =~= before.push(line@));
    }
}

/// `yes` or `no`.
pub open spec fn yes_no(flag: bool) -> Seq<char> {
    if flag {
        "yes"@
    } else {
        "no"@
    }
}

fn yes_or_no(flag: bool) -> (r: &'static str)
    ensures
        r@ == yes_no(flag),
{
    if flag {
        "yes"
    } else {
        "no"
    }
}

/// The lines that describe the state of a working tree.
pub open spec fn status_details(s: RepoStatusModel) -> Seq<Seq<char>> {
    let head = seq![
        ""@,
        "Git Status:"@,
        "  Branch: "@ + s.branch,
        if s.has_remote {
            "  Ahead: "@ + decimal(s.ahead as nat) + ", Behind: "@ + decimal(s.behind as nat)
        } else {
            "  No upstream configured"@
        },
    ];
    if s.is_dirty() {
        head.push(
            "  Dirty: "@ + decimal(s.staged as nat) + " staged, "@ + decimal(s.untracked as nat)
                + " untracked"@,
        )
    } else {
        head
    }
}

/// The lines that name a repository and say where it is.
pub open spec fn place_details(row: RepoRowModel) -> Seq<Seq<char>> {
    let named = seq![
        "Name: "@ + row.name,
        "Owner: "@ + (match row.owner {
            Some(o) => o,
            None => "(local)"@,
        }),
        ""@,
    ];
    let with_url = if row.github_url is Some {
        named.push("GitHub: "@ + row.github_url->0)
    } else {
        named
    };
    let with_path = if row.local_path is Some {
        with_url.push("Local: "@ + row.local_path->0)
    } else {
        with_url
    };
    with_path.push(""@)
}

/// The lines that say what kind of repository it is.
pub open spec fn kind_details(row: RepoRowModel) -> Seq<Seq<char>> {
    let fork = if row.is_fork {
        seq![
            "Fork of: "@ + (match row.fork_parent {
                Some(p) => p,
                None => "unknown"@,
            }),
        ]
    } else {
        Seq::empty()
    };
    let nested = if row.is_subrepo {
        fork.push(
            "Subrepo of: "@ + (match row.parent_repo {
                Some(p) => p,
                None => "unknown"@,
            }),
        )
    } else {
        fork
    };
    nested.push("Private: "@ + yes_no(row.is_private))
}

/// The lines of the details popup for a repository.
pub open spec fn repo_details(row: RepoRowModel) -> Seq<Seq<char>> {
    place_details(row) + kind_details(row) + (match row.git_status {
        Some(s) => status_details(s),
        None => Seq::empty(),
    })
}

/// The lines that list the first `n` files of a gist.
pub open spec fn file_lines(files: Seq<Seq<char>>, n: int) -> Seq<Seq<char>>
    decreases n,
{
    if n <= 0 {
        Seq::empty()
    } else {
        file_lines(files, n - 1).push("  "@ + files[n - 1])
    }
}

/// The lines of the details popup for a gist.
pub open spec fn gist_details(g: GistRowModel) -> Seq<Seq<char>> {
    let head = seq![
        "Description: "@ + g.description,
        "ID: "@ + g.id,
        "Public: "@ + yes_no(g.is_public),
        ""@,
        "URL: "@ + g.html_url,
    ];
    let with_path = if g.local_path is Some {
        head.push("Local: "@ + g.local_path->0)
    } else {
        head
    };
    with_path.push(""@).push("Files ("@ + decimal(g.file_names.len()) + "):"@) + file_lines(
        g.file_names,
        g.file_names.len() as int,
    )
}

fn describe_place(repo: &RepoRow) -> (r: Vec<String>)
    ensures
        r.deep_view() == place_details(repo@),
{
    let mut content: Vec<String> = Vec::new();
    proof {
        assert(content.deep_view() =~= Seq::<Seq<char>>::empty());
    }
    push_line(&mut content, concat2("Name: ", repo.name.as_str()));
    let owner = match &repo.owner {
        Some(o) => o.as_str(),
        None => "(local)",
    };
    push_line(&mut content, concat2("Owner: ", owner));
    push_line(&mut content, "".to_owned());
    proof {
        assert(content.deep_view() =~= seq![
            "Name: "@ + repo@.name,
            "Owner: "@ + (match repo@.owner {
                Some(o) => o,
                None => "(local)"@,
            }),
            ""@,
        ]);
    }
    match &repo.github_url {
        Some(url) => push_line(&mut content, concat2("GitHub: ", url.as_str())),
        None => {},
    }
    match &repo.local_path {
        Some(path) => push_line(&mut content, concat2("Local: ", path.as_str())),
        None => {},
    }
    push_line(&mut content, "".to_owned());
    content
}

fn describe_kind(repo: &RepoRow) -> (r: Vec<String>)
    ensures
        r.deep_view() == kind_details(repo@),
{
    let mut content: Vec<String> = Vec::new();
    proof {
        assert(content.deep_view() =~= Seq::<Seq<char>>::empty());
    }
    if repo.is_fork {
        let parent = match &repo.fork_parent {
            Some(p) => p.as_str(),
            None => "unknown",
        };
        push_line(&mut content, concat2("Fork of: ", parent));
        proof {
            assert(content.deep_view() =~= seq![
                "Fork of: "@ + (match repo@.fork_parent {
                    Some(p) => p,
                    None => "unknown"@,
                }),
            ]);
        }
    }
    if repo.is_subrepo {
        let parent = match &repo.parent_repo {
            Some(p) => p.as_str(),
            None => "unknown",
        };
        push_line(&mut content, concat2("Subrepo of: ", parent));
    }
    push_line(&mut content, concat2("Private: ", yes_or_no(repo.is_private)));
    content
}

fn describe_status(status: &RepoStatus) -> (r: Vec<String>)
    ensures
        r.deep_view() == status_details(status@),
{
    let mut content: Vec<String> = Vec::new();
    proof {
        assert(content.deep_view() =~= Seq::<Seq<char>>::empty());
    }
    push_line(&mut content, "".to_owned());
    push_line(&mut content, "Git Status:".to_owned());
    push_line(&mut content, concat2("  Branch: ", status.branch.as_str()));
    if status.has_remote {
        let ahead = decimal_string(status.ahead as u64);
        let behind = decimal_string(status.behind as u64);
        let head = concat3("  Ahead: ", ahead.as_str(), ", Behind: ");
        push_line(&mut content, concat2(head.as_str(), behind.as_str()));
    } else {
        push_line(&mut content, "  No upstream configured".to_owned());
    }
    proof {
        assert(content.deep_view() =~= seq![
            ""@,
            "Git Status:"@,
            "  Branch: "@ + status@.branch,
            if status@.has_remote {
                "  Ahead: "@ + decimal(status@.ahead as nat) + ", Behind: "@ + decimal(
                    status@.behind as nat,
                )
            } else {
                "  No upstream configured"@
            },
        ]);
    }
    if status.is_dirty() {
        let staged = decimal_string(status.staged as u64);
        let untracked = decimal_string(status.untracked as u64);
        let head = concat3("  Dirty: ", staged.as_str(), " staged, ");
        push_line(&mut content, concat3(head.as_str(), untracked.as_str(), " untracked"));
    }
    content
}

/// Appends the lines of `tail` to `lines`.
pub fn push_lines(lines: &mut Vec<String>, tail: Vec<String>)
    ensures
        final(lines).deep_view() == old(lines).deep_view() + tail.deep_view(),
{
    let ghost head = lines.deep_view();
    let ghost added = tail.deep_view();
    let mut tail = tail;
    lines.append(&mut tail);
    proof {
        assert(lines.deep_view() =~= head + added);
    }
}

/// Builds the lines of the details popup for a repository.
pub fn describe_repo(repo: &RepoRow) -> (r: Vec<String>)
    ensures
        r.deep_view() == repo_details(repo@),
{
    let mut content = describe_place(repo);
    push_lines(&mut content, describe_kind(repo));
    match &repo.git_status {
        Some(status) => push_lines(&mut content, describe_status(status)),
        None => {
            proof {
                assert(content.deep_view() + Seq::<Seq<char>>::empty() =~= content.deep_view());
            }
        },
    }
    content
}

/// Builds the lines of the details popup for a gist.
pub fn describe_gist(gist: &GistRow) -> (r: Vec<String>)
    ensures
        r.deep_view() == gist_details(gist@),
{
    let mut content: Vec<String> = Vec::new();
    proof {
        assert(content.deep_view() =~= Seq::<Seq<char>>::empty());
    }
    push_line(&mut content, concat2("Description: ", gist.description.as_str()));
    push_line(&mut content, concat2("ID: ", gist.id.as_str()));
    push_line(&mut content, concat2("Public: ", yes_or_no(gist.is_public)));
    push_line(&mut content, "".to_owned());
    push_line(&mut content, concat2("URL: ", gist.html_url.as_str()));
    proof {
        assert(content.deep_view() =~= seq![
            "Description: "@ + gist@.description,
            "ID: "@ + gist@.id,
            "Public: "@ + yes_no(gist@.is_public),
            ""@,
            "URL: "@ + gist@.html_url,
        ]);
    }
    match &gist.local_path {
        Some(path) => push_line(&mut content, concat2("Local: ", path.as_str())),
        None => {},
    }
    push_line(&mut content, "".to_owned());
    let count = decimal_string(gist.file_names.len() as u64);
    push_line(&mut content, concat3("Files (", count.as_str(), "):"));
    let ghost head = content.deep_view();
    let mut i: usize = 0;
    proof {
        assert(head + file_lines(gist@.file_names, 0) =~= head);
    }
    while i < gist.file_names.len()
        invariant
            i <= gist.file_names.len(),
            content.deep_view() == head + file_lines(gist@.file_names, i as int),
        decreases gist.file_names.len() - i,
    {
        let ghost before = content.deep_view();
        proof {
            assert(gist@.file_names[i as int] == gist.file_names@[i as int]@);
        }
        push_line(&mut content, concat2("  ", gist.file_names[i].as_str()));
        proof {
            assert(before.push("  "@ + gist@.file_names[i as int]) =~= head + file_lines(
                gist@.file_names,
                i + 1,
            ));
        }
        i += 1;
    }
    content
}

/// The lines of the error log popup: for every failure its time and
/// operation, its diagnostic text, and an empty line.
pub open spec fn error_lines(log: Seq<ErrorLogEntryModel>, n: int) -> Seq<Seq<char>>
    decreases n,
{
    if n <= 0 {
        Seq::empty()
    } else {
        error_lines(log, n - 1).push("["@ + log[n - 1].timestamp + "] "@ + log[n - 1].operation).push(
            log[n - 1].error,
        ).push(""@)
    }
}

/// The lines of the popup that lists the ignored repositories: a heading
/// and the identities in the order of their bytes, or a note that there
/// are none.
pub open spec fn ignored_lines(ignored: Seq<Seq<char>>) -> Seq<Seq<char>> {
    if ignored.len() == 0 {
        seq!["No ignored repositories."@]
    } else {
        seq!["Ignored Repositories (press Enter to unhide):"@, ""@] + stable_sorted(
            ignored,
            ByteOrder,
        )
    }
}

impl AppModel {
    /// With `popup` open.
    pub open spec fn with_popup(self, popup_type: PopupType, content: Seq<Seq<char>>) -> AppModel {
        AppModel {
            popup: Some(PopupModel { popup_type, scroll: 0, content, selected: 0 }),
            ..self
        }
    }

    /// With the open popup closed, or the help opened where none is open.
    pub open spec fn with_help_toggled(self) -> AppModel {
        if self.popup is Some {
            AppModel { popup: None, ..self }
        } else {
            self.with_popup(PopupType::Help, help_content(self.view_mode))
        }
    }

    /// With the details of the selected repository or gist shown.
    pub open spec fn with_details_shown(self) -> AppModel {
        match self.view_mode {
            ViewMode::Repos => match self.selected_repo() {
                Some(row) => self.with_popup(PopupType::Details, repo_details(row)),
                None => self,
            },
            ViewMode::Gists => match self.selected_gist() {
                Some(g) => self.with_popup(PopupType::Details, gist_details(g)),
                None => self,
            },
        }
    }

    /// With the error log shown, or a note in the status line that it is empty.
    pub open spec fn with_error_log_shown(self) -> AppModel {
        if self.error_log.len() == 0 {
            self.with_status("No errors logged"@)
        } else {
            self.with_popup(
                PopupType::Errors,
                error_lines(self.error_log, self.error_log.len() as int),
            )
        }
    }

    /// With the ignored repositories listed.
    pub open spec fn with_ignored_shown(self) -> AppModel {
        self.with_popup(PopupType::Ignored, ignored_lines(self.config.ignored_repos))
    }

    /// With `ignored` as the set of ignored repositories, to be saved.
    pub open spec fn with_ignored(self, ignored: Seq<Seq<char>>) -> AppModel {
        AppModel {
            config: ConfigModel { ignored_repos: ignored, ..self.config },
            config_unsaved: true,
            ..self
        }
    }

    /// With the selection brought back into the list, where it has run out
    /// of it.
    pub open spec fn with_selection_clamped(self) -> AppModel {
        let max = if self.visible_len() > 0 {
            self.visible_len() - 1
        } else {
            0
        };
        AppModel {
            selected: if self.selected > max {
                max as usize
            } else {
                self.selected
            },
            ..self
        }
    }

    /// With the selected repository hidden, the selection kept in the list.
    pub open spec fn with_selected_ignored(self) -> AppModel {
        match self.selected_repo() {
            Some(row) => if self.config.ignored_repos.contains(row.id) {
                self.with_ignored(without(self.config.ignored_repos, row.id))
            } else {
                self.with_ignored(self.config.ignored_repos.push(row.id)).with_selection_clamped()
            },
            None => self,
        }
    }

    /// With the repository that is selected in the list of ignored
    /// repositories shown again, and the list made anew.
    pub open spec fn with_selected_unhidden(self) -> AppModel {
        match self.popup {
            Some(p) => if p.popup_type == PopupType::Ignored && p.selected >= 2 {
                let listed = stable_sorted(self.config.ignored_repos, ByteOrder);
                let next = if p.selected - 2 < listed.len() {
                    self.with_ignored(without(self.config.ignored_repos, listed[p.selected - 2]))
                } else {
                    self
                };
                next.with_ignored_shown()
            } else {
                self
            },
            None => self,
        }
    }

    /// The text of the open popup, its lines joined by line feeds.
    pub open spec fn popup_text(self) -> Option<Seq<char>> {
        match self.popup {
            Some(p) => Some(joined(p.content, "\n"@)),
            None => None,
        }
    }
}

impl App {
    /// Closes the open popup, or opens the help.
    pub fn toggle_help(&mut self)
        ensures
            final(self)@ == old(self)@.with_help_toggled(),
    {
        if self.popup.is_some() {
            self.popup = None;
        } else {
            self.popup = Some(Popup::new(PopupType::Help, get_help_content(&self.view_mode)));
        }
    }

    /// Shows the details of the selected repository or gist.
    pub fn show_details(&mut self)
        ensures
            final(self)@ == old(self)@.with_details_shown(),
    {
        let content = match self.view_mode {
            ViewMode::Repos => match self.get_selected_repo() {
                Some(repo) => Some(describe_repo(repo)),
                None => None,
            },
            ViewMode::Gists => match self.get_selected_gist() {
                Some(gist) => Some(describe_gist(gist)),
                None => None,
            },
        };
        match content {
            Some(lines) => {
                self.popup = Some(Popup::new(PopupType::Details, lines));
            },
            None => {},
        }
    }

    /// Shows the error log.
    pub fn show_error_log(&mut self)
        ensures
            final(self)@ == old(self)@.with_error_log_shown(),
    {
        if self.error_log.len() == 0 {
            self.set_status("No errors logged".to_owned());
            return ;
        }
        let mut content: Vec<String> = Vec::new();
        let mut i: usize = 0;
        proof {
            assert(content.deep_view() =~= Seq::<Seq<char>>::empty());
        }
        while i < self.error_log.len()
            invariant
                i <= self.error_log.len(),
                *self == *old(self),
                content.deep_view() == error_lines(self@.error_log, i as int),
            decreases self.error_log.len() - i,
        {
            let e = &self.error_log[i];
            proof {
                assert(self@.error_log[i as int] == self.error_log@[i as int]@);
            }
            let head = concat3("[", e.timestamp.as_str(), "] ");
            push_line(&mut content, concat2(head.as_str(), e.operation.as_str()));
            push_line(&mut content, e.error.clone());
            push_line(&mut content, "".to_owned());
            i += 1;
        }
        self.popup = Some(Popup::new(PopupType::Errors, content));
    }

    /// Lists the ignored repositories in a popup.
    pub fn show_ignored_popup(&mut self)
        ensures
            final(self)@ == old(self)@.with_ignored_shown(),
    {
        let mut content: Vec<String> = Vec::new();
        proof {
            assert(content.deep_view() =~= Seq::<Seq<char>>::empty());
        }
        if self.config.ignored_repos.is_empty() {
            push_line(&mut content, "No ignored repositories.".to_owned());
            proof {
                assert(content.deep_view() =~= seq!["No ignored repositories."@]);
            }
        } else {
            push_line(&mut content, "Ignored Repositories (press Enter to unhide):".to_owned());
            push_line(&mut content, "".to_owned());
            let ghost head = content.deep_view();
            let mut listed = sorted_strings(self.config.ignored_repos.items());
            let ghost tail = listed.deep_view();
            content.append(&mut listed);
            proof {
                assert(head =~= seq!["Ignored Repositories (press Enter to unhide):"@, ""@]);
                assert(content.deep_view() =~= head + tail);
            }
        }
        self.popup = Some(Popup::new(PopupType::Ignored, content));
    }

    /// Brings the selection back into the list that is shown.
    pub fn clamp_selection(&mut self)
        ensures
            final(self)@ == old(self)@.with_selection_clamped(),
            final(self)@.selection_valid(),
    {
        let count = self.visible_list_len();
        let max = if count > 0 {
            count - 1
        } else {
            0
        };
        if self.selected > max {
            self.selected = max;
        }
    }

    /// Hides the selected repository.
    pub fn toggle_ignore(&mut self)
        ensures
            final(self)@ == old(self)@.with_selected_ignored(),
            old(self)@.selection_valid() ==> final(self)@.selection_valid(),
    {
        let id = match self.get_selected_repo() {
            Some(repo) => Some(repo.id.clone()),
            None => None,
        };
        match id {
            Some(id) => {
                if self.config.ignored_repos.contains(id.as_str()) {
                    self.config.ignored_repos.remove(id.as_str());
                    self.config_unsaved = true;
                    proof {
                        lemma_selected_is_visible(old(self)@);
                    }
                } else {
                    self.config.ignored_repos.insert(id);
                    self.config_unsaved = true;
                    self.clamp_selection();
                }
            },
            None => {},
        }
    }

    /// Shows again the repository that is selected in the list of ignored
    /// repositories.
    pub fn unhide_selected_in_popup(&mut self)
        ensures
            final(self)@ == old(self)@.with_selected_unhidden(),
    {
        let selected = match &self.popup {
            Some(popup) => if popup.popup_type == PopupType::Ignored && popup.selected >= 2 {
                Some(popup.selected - 2)
            } else {
                None
            },
            None => None,
        };
        match selected {
            Some(idx) => {
                let listed = sorted_strings(self.config.ignored_repos.items());
                if idx < listed.len() {
                    proof {
                        assert(listed.deep_view()[idx as int] == listed@[idx as int]@);
                    }
                    self.config.ignored_repos.remove(listed[idx].as_str());
                    self.config_unsaved = true;
                }
                self.show_ignored_popup();
            },
            None => {},
        }
    }

    /// The text of the open popup, for the clipboard.
    pub fn popup_text(&self) -> (r: Option<String>)
        ensures
            r.deep_view() == self@.popup_text(),
    {
        match &self.popup {
            Some(popup) => Some(join(&popup.content, "\n")),
            None => None,
        }
    }

    /// Tells the user what became of copying the popup to the clipboard.
    pub fn copy_popup_to_clipboard(&mut self, copied: bool)
        ensures
            final(self)@ == if old(self)@.popup is Some {
                old(self)@.with_status(
                    if copied {
                        "Copied to clipboard"@
                    } else {
                        "Failed to copy (install wl-copy or xclip)"@
                    },
                )
            } else {
                old(self)@
            },
    {
        if self.popup.is_some() {
            if copied {
                self.set_status("Copied to clipboard".to_owned());
            } else {
                self.set_status("Failed to copy (install wl-copy or xclip)".to_owned());
            }
        }
    }
}

/// The selected repository is one that is shown, so it is not ignored.
pub proof fn lemma_selected_is_visible(app: AppModel)
    ensures
        match app.selected_repo() {
            Some(row) => !app.config.ignored_repos.contains(row.id),
            None => true,
        },
{
    if app.selected_repo() is Some {
        lemma_visible_rows_are_visible(
            app.repos,
            app.repos.len() as int,
            app.config.ignored_repos,
            app.show_archived,
            app.show_private,
            app.selected as int,
        );
    }
}

/// Every row of the visible list is visible.
pub proof fn lemma_visible_rows_are_visible(
    rows: Seq<RepoRowModel>,
    n: int,
    ignored: Seq<Seq<char>>,
    show_archived: bool,
    show_private: bool,
    k: int,
)
    requires
        0 <= k < visible_rows(rows, n, ignored, show_archived, show_private).len(),
    ensures
        is_visible(
            visible_rows(rows, n, ignored, show_archived, show_private)[k],
            ignored,
            show_archived,
            show_private,
        ),
    decreases n,
{
    if n > 0 {
        let rest = visible_rows(rows, n - 1, ignored, show_archived, show_private);
        if k < rest.len() {
            lemma_visible_rows_are_visible(rows, n - 1, ignored, show_archived, show_private, k);
        }
    }
}


/// Whether a result carries the organizations of the user rather than the
/// outcome of an operation.
pub open spec fn carries_orgs(r: TaskResultModel) -> bool {
    starts_with(r.message, orgs_marker())
}

/// The organizations that a result carries: what follows the marker, split
/// at commas, without empty names.
pub open spec fn carried_orgs(r: TaskResultModel) -> Seq<Seq<char>> {
    non_empty(split_on(strip_prefix_all(r.message, orgs_marker()), ','))
}

/// Whether a result is entered into the error log: it reports a failure
/// with diagnostic text.
pub open spec fn is_logged(r: TaskResultModel) -> bool {
    !carries_orgs(r) && !r.success && r.stderr is Some && r.stderr->0.len() > 0
}

/// Whether a result asks for a full refresh.
pub open spec fn asks_full_refresh(r: TaskResultModel) -> bool {
    !carries_orgs(r) && r.invalidates_github_cache
}

/// Whether a result asks for a local refresh.
pub open spec fn asks_local_refresh(r: TaskResultModel) -> bool {
    !carries_orgs(r) && !r.invalidates_github_cache
}

/// The refresh that is due.
#[derive(Clone, Copy, Debug, PartialEq, Eq, Structural)]
pub enum RefreshKind {
    /// Everything is fetched anew.
    Full,
    /// The local disk is scanned again.
    LocalOnly,
}

impl AppModel {
    /// After one result of a background operation, logged at `timestamp`
    /// if it is a failure. A result that carries organizations fills the
    /// upload form and changes nothing else. Any other result is shown as
    /// completed and latches the refresh that it asks for.
    pub open spec fn after_result(self, r: TaskResultModel, timestamp: Seq<char>) -> AppModel {
        if carries_orgs(r) {
            match self.upload_form {
                Some(form) => self.with_form(UploadFormModel { orgs: carried_orgs(r), ..form }),
                None => self,
            }
        } else {
            let logged = if is_logged(r) {
                AppModel {
                    error_log: self.error_log.push(
                        ErrorLogEntryModel {
                            timestamp,
                            operation: r.operation,
                            error: r.stderr->0,
                        },
                    ),
                    ..self
                }
            } else {
                self
            };
            let shown = logged.with_completed(r.message);
            if r.invalidates_github_cache {
                AppModel { pending_refresh: true, ..shown }
            } else {
                AppModel { pending_local_refresh: true, ..shown }
            }
        }
    }

    /// After the results `results`, applied one after the other.
    pub open spec fn after_results(
        self,
        results: Seq<TaskResultModel>,
        timestamp: Seq<char>,
    ) -> AppModel
        decreases results.len(),
    {
        if results.len() == 0 {
            self
        } else {
            self.after_results(results.drop_last(), timestamp).after_result(
                results.last(),
                timestamp,
            )
        }
    }

    /// With the data of a snapshot in place of what was there. A snapshot
    /// without user name or without remote data to keep leaves those as
    /// they were.
    pub open spec fn with_data(self, data: RefreshDataModel) -> AppModel {
        AppModel {
            github_username: if data.github_username is Some {
                data.github_username
            } else {
                self.github_username
            },
            repos: data.repos,
            gists: data.gists,
            github_cache: if data.github_cache is Some {
                data.github_cache
            } else {
                self.github_cache
            },
            paths: data.paths,
            ..self
        }
    }

    /// With the outcome of a refresh shown: the failure that it reports,
    /// or the number of repositories loaded.
    pub open spec fn with_refresh_outcome(self, error: Option<Seq<char>>, count: nat) -> AppModel {
        match error {
            Some(e) => self.with_error(e),
            None => self.with_completed("Loaded "@ + decimal(count) + " repos"@),
        }
    }

    /// After a snapshot has arrived: user name, repositories, gists, kept
    /// remote data and known paths replaced together, the repositories put
    /// in order, the selection brought back into the list, and the outcome
    /// shown.
    pub open spec fn after_refresh(self, data: RefreshDataModel) -> AppModel {
        self.with_data(data).sorted().with_selection_clamped().with_refresh_outcome(
            data.error,
            data.repos.len(),
        )
    }

    /// The refresh that is due: a full one wins over a local one.
    pub open spec fn refresh_due(self) -> Option<RefreshKind> {
        if self.pending_refresh {
            Some(RefreshKind::Full)
        } else if self.pending_local_refresh {
            Some(RefreshKind::LocalOnly)
        } else {
            None
        }
    }

    /// With the refresh that is due started: both latches released for a
    /// full refresh, the local one for a local refresh.
    pub open spec fn with_due_refresh_started(self) -> AppModel {
        match self.refresh_due() {
            Some(RefreshKind::Full) => AppModel {
                github_cache: None,
                ..(AppModel {
                    pending_refresh: false,
                    pending_local_refresh: false,
                    ..self
                }).with_status("Refreshing..."@)
            },
            Some(RefreshKind::LocalOnly) => AppModel {
                github_cache: None,
                ..(AppModel { pending_local_refresh: false, ..self }).with_status(
                    if self.github_cache is Some {
                        "Updating..."@
                    } else {
                        "Refreshing..."@
                    },
                )
            },
            None => self,
        }
    }

    /// The task of the refresh that is due. A local refresh needs the kept
    /// remote data; without it everything is fetched anew.
    pub open spec fn due_refresh_task(self) -> Option<BackgroundTaskModel> {
        match self.refresh_due() {
            Some(RefreshKind::Full) => Some(BackgroundTaskModel::Refresh),
            Some(RefreshKind::LocalOnly) => match self.github_cache {
                Some(cache) => Some(BackgroundTaskModel::LocalRefresh { cache }),
                None => Some(BackgroundTaskModel::Refresh),
            },
            None => None,
        }
    }

    /// The selected repository with the place where the layout wants it,
    /// if it is not there: name, current path, wanted path.
    pub open spec fn reorganize_candidate(self) -> Option<(Seq<char>, Seq<char>, Seq<char>)> {
        match self.selected_repo() {
            Some(row) => if row.local_path is Some && row.owner is Some && ghq_compliance(
                row,
                self.local_root,
                self.paths,
            ) == Some(false) {
                Some(
                    (
                        row.name,
                        row.local_path->0,
                        layout_path(layout_root(self.paths, self.local_root), row.owner->0, row.name),
                    ),
                )
            } else {
                None
            },
            None => None,
        }
    }

    /// Moving the selected repository to where the layout wants it, given
    /// the canonical forms of where it is (`source`) and of where it is
    /// wanted (`target`), as far as they exist. Nothing is moved onto itself
    /// or onto something that exists.
    pub open spec fn reorganize_task(
        self,
        source: Option<Seq<char>>,
        target: Option<Seq<char>>,
    ) -> Option<BackgroundTaskModel> {
        match self.reorganize_candidate() {
            Some((name, from, to)) => if target is Some {
                None
            } else {
                Some(BackgroundTaskModel::Reorganize { name, from, to })
            },
            None => None,
        }
    }

    /// The state after the user has asked to move the selected repository.
    pub open spec fn after_reorganize(
        self,
        source: Option<Seq<char>>,
        target: Option<Seq<char>>,
    ) -> AppModel {
        match self.reorganize_candidate() {
            Some((name, from, to)) => if source is Some && target is Some && source == target {
                self.with_status(name + " is already in ghq path"@)
            } else if target is Some {
                self.with_status("Destination already exists for "@ + name)
            } else {
                self.announcing(self.reorganize_task(source, target))
            },
            None => self,
        }
    }
}

impl App {
    /// Applies one result of a background operation.
    pub fn apply_task_result(&mut self, result: &TaskResult, timestamp: &str)
        ensures
            final(self)@ == old(self)@.after_result(result@, timestamp@),
    {
        if str_starts_with(result.message.as_str(), "__ORGS__:") {
            let taken = self.upload_form.take();
            match taken {
                Some(mut form) => {
                    let rest = str_trim_start_matches(result.message.as_str(), "__ORGS__:");
                    form.orgs = split_non_empty(rest.as_str(), ',');
                    self.upload_form = Some(form);
                },
                None => {},
            }
            return ;
        }
        if !result.success {
            match &result.stderr {
                Some(stderr) => {
                    if stderr.as_str().unicode_len() > 0 {
                        let ghost before = self.error_log.deep_view();
                        let entry = ErrorLogEntry::at(
                            timestamp,
                            result.operation.as_str(),
                            stderr.as_str(),
                        );
                        self.error_log.push(entry);
                        proof {
                            assert(self.error_log.deep_view() =~= before.push(entry@));
                        }
                    }
                },
                None => {},
            }
        }
        self.set_status_completed(result.message.clone());
        if result.invalidates_github_cache {
            self.pending_refresh = true;
        } else {
            self.pending_local_refresh = true;
        }
    }

    /// Applies the results of completed background operations, in the
    /// order given, each once.
    pub fn apply_task_results(&mut self, results: &Vec<TaskResult>, timestamp: &str)
        ensures
            final(self)@ == old(self)@.after_results(results.deep_view(), timestamp@),
    {
        let ghost all = results.deep_view();
        let mut i: usize = 0;
        proof {
            assert(all.take(0) =~= Seq::<TaskResultModel>::empty());
        }
        while i < results.len()
            invariant
                i <= results.len(),
                all == results.deep_view(),
                self@ == old(self)@.after_results(all.take(i as int), timestamp@),
            decreases results.len() - i,
        {
            proof {
                assert(all.take(i + 1).drop_last() =~= all.take(i as int));
                assert(all.take(i + 1).last() == results@[i as int]@);
            }
            self.apply_task_result(&results[i], timestamp);
            i += 1;
        }
        proof {
            assert(all.take(results.len() as int) =~= all);
        }
    }

    /// Takes in the results of the background operations that have
    /// completed since the last call. Failures are logged with the current
    /// time of day.
    pub fn poll_tasks(&mut self, results: &Vec<TaskResult>)
        ensures
            exists|timestamp: Seq<char>|
                final(self)@ == #[trigger] old(self)@.after_results(results.deep_view(), timestamp),
    {
        let now = local_time_of_day();
        self.apply_task_results(results, now.as_str());
    }

    fn replace_data(&mut self, data: RefreshData) -> (error: Option<String>)
        ensures
            final(self)@ == old(self)@.with_data(data@),
            error.deep_view() == data@.error,
    {
        if data.github_username.is_some() {
            self.github_username = data.github_username;
        }
        self.repos = data.repos;
        self.gists = data.gists;
        if data.github_cache.is_some() {
            self.github_cache = data.github_cache;
        }
        self.paths = data.paths;
        data.error
    }

    fn show_refresh_outcome(&mut self, error: Option<String>, count: usize)
        ensures
            final(self)@ == old(self)@.with_refresh_outcome(error.deep_view(), count as nat),
            final(self)@.visible_len() == old(self)@.visible_len(),
            final(self)@.selected == old(self)@.selected,
    {
        match error {
            Some(error) => self.set_status_error(error),
            None => {
                let n = decimal_string(count as u64);
                self.set_status_completed(concat3("Loaded ", n.as_str(), " repos"));
            },
        }
    }

    /// Takes in a snapshot that a refresh has delivered.
    pub fn poll_refresh(&mut self, data: RefreshData)
        ensures
            final(self)@ == old(self)@.after_refresh(data@),
            final(self)@.selection_valid(),
    {
        let count = data.repos.len();
        let error = self.replace_data(data);
        self.sort_repos();
        self.clamp_selection();
        self.show_refresh_outcome(error, count);
    }

    /// The refresh that is due, if any.
    pub fn refresh_due(&self) -> (r: Option<RefreshKind>)
        ensures
            r == self@.refresh_due(),
    {
        if self.pending_refresh {
            Some(RefreshKind::Full)
        } else if self.pending_local_refresh {
            Some(RefreshKind::LocalOnly)
        } else {
            None
        }
    }

    /// Starts the refresh that is due, if any, and releases its latch.
    /// However many operations have completed since the last refresh, one
    /// refresh follows; it is a full one if any of them asked for it.
    pub fn start_pending_refresh(&mut self) -> (task: Option<BackgroundTask>)
        ensures
            task.deep_view() == old(self)@.due_refresh_task(),
            final(self)@ == old(self)@.with_due_refresh_started(),
            final(self)@.refresh_due() is None,
    {
        if self.pending_refresh {
            self.pending_refresh = false;
            self.pending_local_refresh = false;
            Some(self.trigger_refresh())
        } else if self.pending_local_refresh {
            self.pending_local_refresh = false;
            Some(self.trigger_local_refresh())
        } else {
            None
        }
    }

    /// The selected repository with the place where the layout wants it,
    /// if it is not there: name, current path, wanted path.
    pub fn reorganize_candidate(&self) -> (r: Option<(String, String, String)>)
        ensures
            match (r, self@.reorganize_candidate()) {
                (Some(x), Some(y)) => x.0@ == y.0 && x.1@ == y.1 && x.2@ == y.2,
                (None, None) => true,
                _ => false,
            },
    {
        match self.get_selected_repo() {
            Some(row) => {
                let follows = row.follows_ghq(self.local_root.as_str(), &self.paths);
                match (&row.local_path, row.expected_ghq_path(self.local_root.as_str(), &self.paths)) {
                    (Some(current), Some(expected)) => {
                        if follows == Some(false) {
                            Some((row.name.clone(), current.clone(), expected))
                        } else {
                            None
                        }
                    },
                    _ => None,
                }
            },
            None => None,
        }
    }

    /// Moves the selected repository to where the layout wants it.
    /// `source` and `target` are the canonical forms of where it is and of
    /// where it is wanted, as far as they exist.
    pub fn reorganize_to_ghq(&mut self, source: Option<&str>, target: Option<&str>) -> (task:
        Option<BackgroundTask>)
        ensures
            task.deep_view() == old(self)@.reorganize_task(
                match source {
                    Some(s) => Some(s@),
                    None => None,
                },
                match target {
                    Some(s) => Some(s@),
                    None => None,
                },
            ),
            final(self)@ == old(self)@.after_reorganize(
                match source {
                    Some(s) => Some(s@),
                    None => None,
                },
                match target {
                    Some(s) => Some(s@),
                    None => None,
                },
            ),
    {
        match self.reorganize_candidate() {
            Some((name, from, to)) => {
                match target {
                    Some(t) => {
                        let same = match source {
                            Some(s) => str_eq(s, t),
                            None => false,
                        };
                        if same {
                            self.set_status(concat2(name.as_str(), " is already in ghq path"));
                        } else {
                            self.set_status(
                                concat2("Destination already exists for ", name.as_str()),
                            );
                        }
                        None
                    },
                    None => {
                        let task = BackgroundTask::Reorganize { name, from, to };
                        self.announce(&task);
                        Some(task)
                    },
                }
            },
            None => None,
        }
    }
}

/// Whether some result of `results` satisfies `asks`.
pub open spec fn some_result(
    results: Seq<TaskResultModel>,
    asks: spec_fn(TaskResultModel) -> bool,
) -> bool {
    exists|i: int| 0 <= i < results.len() && asks(#[trigger] results[i])
}

/// The number of results of `results` that are entered into the error log.
pub open spec fn logged_count(results: Seq<TaskResultModel>) -> nat
    decreases results.len(),
{
    if results.len() == 0 {
        0
    } else if is_logged(results.last()) {
        logged_count(results.drop_last()) + 1
    } else {
        logged_count(results.drop_last())
    }
}

/// Every result of a batch is taken in once: the error log grows by one
/// entry for each failure among them, and a refresh is pending afterwards
/// exactly if it was pending before or some result asked for it. None of
/// this depends on the order in which the results arrived.
pub proof fn results_are_each_taken_in(
    app: AppModel,
    results: Seq<TaskResultModel>,
    timestamp: Seq<char>,
)
    ensures
        app.after_results(results, timestamp).error_log.len() == app.error_log.len()
            + logged_count(results),
        app.after_results(results, timestamp).pending_refresh == (app.pending_refresh
            || some_result(results, |r: TaskResultModel| asks_full_refresh(r))),
        app.after_results(results, timestamp).pending_local_refresh == (app.pending_local_refresh
            || some_result(results, |r: TaskResultModel| asks_local_refresh(r))),
    decreases results.len(),
{
    let full = |r: TaskResultModel| asks_full_refresh(r);
    let local = |r: TaskResultModel| asks_local_refresh(r);
    if results.len() > 0 {
        let rest = results.drop_last();
        results_are_each_taken_in(app, rest, timestamp);
        if some_result(rest, full) {
            let i = choose|i: int| 0 <= i < rest.len() && full(#[trigger] rest[i]);
            assert(full(results[i]));
        }
        if some_result(rest, local) {
            let i = choose|i: int| 0 <= i < rest.len() && local(#[trigger] rest[i]);
            assert(local(results[i]));
        }
        if some_result(results, full) {
            let i = choose|i: int| 0 <= i < results.len() && full(#[trigger] results[i]);
            if i < rest.len() {
                assert(full(rest[i]));
            }
        }
        if some_result(results, local) {
            let i = choose|i: int| 0 <= i < results.len() && local(#[trigger] results[i]);
            if i < rest.len() {
                assert(local(rest[i]));
            }
        }
        if full(results.last()) {
            assert(full(results[results.len() - 1]));
        }
        if local(results.last()) {
            assert(local(results[results.len() - 1]));
        }
    }
}

/// Taking one result out of a batch takes it out of the count of logged
/// results, if it is one.
pub proof fn lemma_logged_count_remove(results: Seq<TaskResultModel>, t: int)
    requires
        0 <= t < results.len(),
    ensures
        logged_count(results) == logged_count(results.remove(t)) + if is_logged(results[t]) {
            1nat
        } else {
            0nat
        },
    decreases results.len(),
{
    if t == results.len() - 1 {
        assert(results.remove(t) =~= results.drop_last());
    } else {
        lemma_logged_count_remove(results.drop_last(), t);
        assert(results.remove(t).drop_last() =~= results.drop_last().remove(t));
        assert(results.remove(t).last() == results.last());
    }
}

/// Two batches that hold the same results, each as often, hold as many
/// logged results.
pub proof fn lemma_logged_count_rearranged(a: Seq<TaskResultModel>, b: Seq<TaskResultModel>)
    requires
        a.to_multiset() == b.to_multiset(),
    ensures
        logged_count(a) == logged_count(b),
    decreases a.len(),
{
    broadcast use vstd::seq_lib::group_to_multiset_ensures;

    if a.len() == 0 {
        vstd::seq_lib::to_multiset_len(a);
        vstd::seq_lib::to_multiset_len(b);
        assert(b.len() == 0);
    } else {
        let x = a.last();
        assert(a[a.len() - 1] == x);
        assert(a.contains(x));
        vstd::seq_lib::to_multiset_contains(a, x);
        vstd::seq_lib::to_multiset_contains(b, x);
        assert(b.contains(x));
        let t = choose|t: int| 0 <= t < b.len() && b[t] == x;
        assert(a.remove(a.len() - 1) =~= a.drop_last());
        assert(a.drop_last().to_multiset() == b.remove(t).to_multiset());
        lemma_logged_count_rearranged(a.drop_last(), b.remove(t));
        lemma_logged_count_remove(b, t);
    }
}

/// A result that occurs in one of two batches holding the same results
/// occurs in the other.
pub proof fn lemma_some_result_rearranged(
    a: Seq<TaskResultModel>,
    b: Seq<TaskResultModel>,
    asks: spec_fn(TaskResultModel) -> bool,
)
    requires
        a.to_multiset() == b.to_multiset(),
        some_result(a, asks),
    ensures
        some_result(b, asks),
{
    broadcast use vstd::seq_lib::group_to_multiset_ensures;

    let i = choose|i: int| 0 <= i < a.len() && asks(#[trigger] a[i]);
    assert(a.contains(a[i]));
    vstd::seq_lib::to_multiset_contains(a, a[i]);
    vstd::seq_lib::to_multiset_contains(b, a[i]);
    assert(b.contains(a[i]));
    let t = choose|t: int| 0 <= t < b.len() && b[t] == a[i];
    assert(asks(b[t]));
}

/// The order in which the results of a batch arrive does not matter for
/// how many failures are logged nor for the refresh that is pending
/// afterwards.
pub proof fn arrival_order_is_immaterial(
    app: AppModel,
    a: Seq<TaskResultModel>,
    b: Seq<TaskResultModel>,
    timestamp: Seq<char>,
)
    requires
        a.to_multiset() == b.to_multiset(),
    ensures
        app.after_results(a, timestamp).error_log.len() == app.after_results(
            b,
            timestamp,
        ).error_log.len(),
        app.after_results(a, timestamp).pending_refresh == app.after_results(
            b,
            timestamp,
        ).pending_refresh,
        app.after_results(a, timestamp).pending_local_refresh == app.after_results(
            b,
            timestamp,
        ).pending_local_refresh,
        app.after_results(a, timestamp).refresh_due() == app.after_results(
            b,
            timestamp,
        ).refresh_due(),
{
    results_are_each_taken_in(app, a, timestamp);
    results_are_each_taken_in(app, b, timestamp);
    lemma_logged_count_rearranged(a, b);
    let full = |r: TaskResultModel| asks_full_refresh(r);
    let local = |r: TaskResultModel| asks_local_refresh(r);
    if some_result(a, full) {
        lemma_some_result_rearranged(a, b, full);
    }
    if some_result(b, full) {
        lemma_some_result_rearranged(b, a, full);
    }
    if some_result(a, local) {
        lemma_some_result_rearranged(a, b, local);
    }
    if some_result(b, local) {
        lemma_some_result_rearranged(b, a, local);
    }
}

/// Where a result that asks for a full refresh and one that asks for a
/// local refresh have both been taken in, the refresh that follows is a
/// full one.
pub proof fn full_refresh_wins(
    app: AppModel,
    results: Seq<TaskResultModel>,
    timestamp: Seq<char>,
    i: int,
    j: int,
)
    requires
        0 <= i < results.len(),
        0 <= j < results.len(),
        asks_full_refresh(results[i]),
        asks_local_refresh(results[j]),
    ensures
        app.after_results(results, timestamp).refresh_due() == Some(RefreshKind::Full),
        app.after_results(results, timestamp).due_refresh_task() == Some(
            BackgroundTaskModel::Refresh,
        ),
        app.after_results(results, timestamp).with_due_refresh_started().refresh_due() is None,
{
    results_are_each_taken_in(app, results, timestamp);
    let full = |r: TaskResultModel| asks_full_refresh(r);
    assert(full(results[i]));
}

/// A task that is announced shows as running from the moment it is started.
pub proof fn started_task_shows_loading(app: AppModel, task: BackgroundTaskModel)
    requires
        task.announcement() is Some,
    ensures
        app.announcing(Some(task)).status_kind() == StatusKind::Loading,
        app.announcing(Some(task)).status_message == task.announcement(),
{
}

/// The status line shows exactly one of four things, and each way of
/// setting it leads to the one it names, whatever was shown before: of
/// the two flags at most one is set afterwards.
pub proof fn status_line_is_one_of_four(app: AppModel, msg: Seq<char>)
    ensures
        app.with_status(msg).status_kind() == StatusKind::Loading,
        app.with_status(msg).status_is_loading && !app.with_status(msg).status_is_error,
        app.with_completed(msg).status_kind() == StatusKind::Completed,
        !app.with_completed(msg).status_is_loading && !app.with_completed(msg).status_is_error,
        app.with_error(msg).status_kind() == StatusKind::Error,
        !app.with_error(msg).status_is_loading && app.with_error(msg).status_is_error,
        app.without_status().status_kind() == StatusKind::Absent,
        !app.without_status().status_is_loading && !app.without_status().status_is_error,
{
}

/// An error is shown only until a new operation starts: the message of
/// the operation takes its place, and nothing of the error is left.
pub proof fn new_operation_clears_error(app: AppModel, error: Seq<char>, msg: Seq<char>)
    ensures
        app.with_error(error).with_status(msg) == app.with_status(msg),
        !app.with_error(error).with_status(msg).status_is_error,
        app.with_error(error).with_status(msg).status_message == Some(msg),
{
}

/// The message of a completed operation clears once it has been shown for
/// the dwell time; the message of a running or a failed operation stays.
pub proof fn completed_message_clears(app: AppModel, now_ms: u64)
    requires
        app.status_time is Some,
        now_ms >= app.status_time->0,
    ensures
        app.status_kind() == StatusKind::Completed ==> (app.after_tick(now_ms).status_kind()
            == StatusKind::Absent <==> now_ms - app.status_time->0 >= STATUS_DWELL_MS),
        app.status_kind() == StatusKind::Loading ==> app.after_tick(now_ms).status_kind()
            == StatusKind::Loading,
        app.status_kind() == StatusKind::Error ==> app.after_tick(now_ms).status_kind()
            == StatusKind::Error,
{
}

} // verus!
