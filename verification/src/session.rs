//! The versioned data model of a captured session.

use vstd::prelude::*;

use crate::clock::unix_seconds;

verus! {

/// Schema version written by this build.
pub const SCHEMA_VERSION: u32 = 1;

/// Age in days past which a session is no longer restored.
pub const MAX_SESSION_AGE_DAYS: i64 = 7;

/// Seconds in one day.
pub const SECONDS_PER_DAY: i64 = 86_400;

/// Position and size of a window.
#[derive(Debug, Clone, Copy, PartialEq, Eq, Structural)]
pub struct WindowGeometry {
    pub x: i32,
    pub y: i32,
    pub width: u32,
    pub height: u32,
}

/// Layout and visibility flags of a window.
#[derive(Debug)]
pub struct UiState {
    pub sidebar_visible: bool,
    pub sidebar_width: u32,
    pub outline_visible: bool,
    pub sidebar_view_mode: String,
    pub status_bar_visible: bool,
    pub source_mode_enabled: bool,
    pub focus_mode_enabled: bool,
    pub typewriter_mode_enabled: bool,
}

/// Mathematical model of [`UiState`].
pub struct UiStateView {
    pub sidebar_visible: bool,
    pub sidebar_width: u32,
    pub outline_visible: bool,
    pub sidebar_view_mode: Seq<char>,
    pub status_bar_visible: bool,
    pub source_mode_enabled: bool,
    pub focus_mode_enabled: bool,
    pub typewriter_mode_enabled: bool,
}

impl View for UiState {
    type V = UiStateView;

    open spec fn view(&self) -> UiStateView {
        UiStateView {
            sidebar_visible: self.sidebar_visible,
            sidebar_width: self.sidebar_width,
            outline_visible: self.outline_visible,
            sidebar_view_mode: self.sidebar_view_mode@,
            status_bar_visible: self.status_bar_visible,
            source_mode_enabled: self.source_mode_enabled,
            focus_mode_enabled: self.focus_mode_enabled,
            typewriter_mode_enabled: self.typewriter_mode_enabled,
        }
    }
}

impl DeepView for UiState {
    type V = UiStateView;

    open spec fn deep_view(&self) -> UiStateView {
        self@
    }
}

impl Clone for UiState {
    fn clone(&self) -> (r: Self)
        ensures
            r@ == self@,
    {
        UiState {
            sidebar_visible: self.sidebar_visible,
            sidebar_width: self.sidebar_width,
            outline_visible: self.outline_visible,
            sidebar_view_mode: self.sidebar_view_mode.clone(),
            status_bar_visible: self.status_bar_visible,
            source_mode_enabled: self.source_mode_enabled,
            focus_mode_enabled: self.focus_mode_enabled,
            typewriter_mode_enabled: self.typewriter_mode_enabled,
        }
    }
}

/// Workspace-level metadata. Reserved: a capture leaves it unset.
#[derive(Debug)]
pub struct WorkspaceState {
    pub root_path: Option<String>,
    pub is_workspace_mode: bool,
    pub show_hidden_files: bool,
}

/// Mathematical model of [`WorkspaceState`].
pub struct WorkspaceStateView {
    pub root_path: Option<Seq<char>>,
    pub is_workspace_mode: bool,
    pub show_hidden_files: bool,
}

impl View for WorkspaceState {
    type V = WorkspaceStateView;

    open spec fn view(&self) -> WorkspaceStateView {
        WorkspaceStateView {
            root_path: self.root_path.deep_view(),
            is_workspace_mode: self.is_workspace_mode,
            show_hidden_files: self.show_hidden_files,
        }
    }
}

impl DeepView for WorkspaceState {
    type V = WorkspaceStateView;

    open spec fn deep_view(&self) -> WorkspaceStateView {
        self@
    }
}

impl Clone for WorkspaceState {
    fn clone(&self) -> (r: Self)
        ensures
            r@ == self@,
    {
        WorkspaceState {
            root_path: self.root_path.clone(),
            is_workspace_mode: self.is_workspace_mode,
            show_hidden_files: self.show_hidden_files,
        }
    }
}

/// Where the caret stood in a document.
///
/// `percent_in_line_bits` holds the IEEE 754 bit pattern of the caret's
/// horizontal position as a 32-bit float, and `block_anchor` holds the
/// anchor of the enclosing table or code block as JSON text. Both are
/// carried unchanged and never interpreted here.
#[derive(Debug)]
pub struct CursorInfo {
    pub source_line: u32,
    pub word_at_cursor: String,
    pub offset_in_word: u32,
    pub node_type: String,
    pub percent_in_line_bits: u32,
    pub context_before: String,
    pub context_after: String,
    pub block_anchor: Option<String>,
}

/// Mathematical model of [`CursorInfo`].
pub struct CursorInfoView {
    pub source_line: u32,
    pub word_at_cursor: Seq<char>,
    pub offset_in_word: u32,
    pub node_type: Seq<char>,
    pub percent_in_line_bits: u32,
    pub context_before: Seq<char>,
    pub context_after: Seq<char>,
    pub block_anchor: Option<Seq<char>>,
}

impl View for CursorInfo {
    type V = CursorInfoView;

    open spec fn view(&self) -> CursorInfoView {
        CursorInfoView {
            source_line: self.source_line,
            word_at_cursor: self.word_at_cursor@,
            offset_in_word: self.offset_in_word,
            node_type: self.node_type@,
            percent_in_line_bits: self.percent_in_line_bits,
            context_before: self.context_before@,
            context_after: self.context_after@,
            block_anchor: self.block_anchor.deep_view(),
        }
    }
}

impl DeepView for CursorInfo {
    type V = CursorInfoView;

    open spec fn deep_view(&self) -> CursorInfoView {
        self@
    }
}

impl Clone for CursorInfo {
    fn clone(&self) -> (r: Self)
        ensures
            r@ == self@,
    {
        CursorInfo {
            source_line: self.source_line,
            word_at_cursor: self.word_at_cursor.clone(),
            offset_in_word: self.offset_in_word,
            node_type: self.node_type.clone(),
            percent_in_line_bits: self.percent_in_line_bits,
            context_before: self.context_before.clone(),
            context_after: self.context_after.clone(),
            block_anchor: self.block_anchor.clone(),
        }
    }
}

/// Snapshot of one document buffer. The coordinator moves it and never
/// looks inside.
#[derive(Debug)]
pub struct DocumentState {
    pub content: String,
    pub saved_content: String,
    pub is_dirty: bool,
    pub is_missing: bool,
    pub is_divergent: bool,
    pub line_ending: String,
    pub cursor_info: Option<CursorInfo>,
    pub last_modified_timestamp: Option<i64>,
    pub is_untitled: bool,
    pub untitled_number: Option<u32>,
}

/// Mathematical model of [`DocumentState`].
pub struct DocumentStateView {
    pub content: Seq<char>,
    pub saved_content: Seq<char>,
    pub is_dirty: bool,
    pub is_missing: bool,
    pub is_divergent: bool,
    pub line_ending: Seq<char>,
    pub cursor_info: Option<CursorInfoView>,
    pub last_modified_timestamp: Option<i64>,
    pub is_untitled: bool,
    pub untitled_number: Option<u32>,
}

impl View for DocumentState {
    type V = DocumentStateView;

    open spec fn view(&self) -> DocumentStateView {
        DocumentStateView {
            content: self.content@,
            saved_content: self.saved_content@,
            is_dirty: self.is_dirty,
            is_missing: self.is_missing,
            is_divergent: self.is_divergent,
            line_ending: self.line_ending@,
            cursor_info: self.cursor_info.deep_view(),
            last_modified_timestamp: self.last_modified_timestamp,
            is_untitled: self.is_untitled,
            untitled_number: self.untitled_number,
        }
    }
}

impl DeepView for DocumentState {
    type V = DocumentStateView;

    open spec fn deep_view(&self) -> DocumentStateView {
        self@
    }
}

impl Clone for DocumentState {
    fn clone(&self) -> (r: Self)
        ensures
            r@ == self@,
    {
        DocumentState {
            content: self.content.clone(),
            saved_content: self.saved_content.clone(),
            is_dirty: self.is_dirty,
            is_missing: self.is_missing,
            is_divergent: self.is_divergent,
            line_ending: self.line_ending.clone(),
            cursor_info: self.cursor_info.clone(),
            last_modified_timestamp: self.last_modified_timestamp,
            is_untitled: self.is_untitled,
            untitled_number: self.untitled_number,
        }
    }
}

/// One tab of a window.
#[derive(Debug)]
pub struct TabState {
    pub id: String,
    pub file_path: Option<String>,
    pub title: String,
    pub is_pinned: bool,
    pub document: DocumentState,
}

/// Mathematical model of [`TabState`].
pub struct TabStateView {
    pub id: Seq<char>,
    pub file_path: Option<Seq<char>>,
    pub title: Seq<char>,
    pub is_pinned: bool,
    pub document: DocumentStateView,
}

impl View for TabState {
    type V = TabStateView;

    open spec fn view(&self) -> TabStateView {
        TabStateView {
            id: self.id@,
            file_path: self.file_path.deep_view(),
            title: self.title@,
            is_pinned: self.is_pinned,
            document: self.document@,
        }
    }
}

impl DeepView for TabState {
    type V = TabStateView;

    open spec fn deep_view(&self) -> TabStateView {
        self@
    }
}

impl Clone for TabState {
    fn clone(&self) -> (r: Self)
        ensures
            r@ == self@,
    {
        TabState {
            id: self.id.clone(),
            file_path: self.file_path.clone(),
            title: self.title.clone(),
            is_pinned: self.is_pinned,
            document: self.document.clone(),
        }
    }
}

/// Everything one window shows: its tabs, layout and geometry.
///
/// `window_label` is the key under which a captured state is found again.
#[derive(Debug)]
pub struct WindowState {
    pub window_label: String,
    pub is_main_window: bool,
    pub active_tab_id: Option<String>,
    pub tabs: Vec<TabState>,
    pub ui_state: UiState,
    pub geometry: Option<WindowGeometry>,
}

/// Mathematical model of [`WindowState`].
pub struct WindowStateView {
    pub window_label: Seq<char>,
    pub is_main_window: bool,
    pub active_tab_id: Option<Seq<char>>,
    pub tabs: Seq<TabStateView>,
    pub ui_state: UiStateView,
    pub geometry: Option<WindowGeometry>,
}

impl WindowStateView {
    /// The same state under another label.
    pub open spec fn with_label(self, label: Seq<char>) -> WindowStateView {
        WindowStateView { window_label: label, ..self }
    }

    /// The same state under another label and with the main flag set as given.
    pub open spec fn rekeyed(self, label: Seq<char>, is_main: bool) -> WindowStateView {
        WindowStateView { window_label: label, is_main_window: is_main, ..self }
    }
}

impl View for WindowState {
    type V = WindowStateView;

    open spec fn view(&self) -> WindowStateView {
        WindowStateView {
            window_label: self.window_label@,
            is_main_window: self.is_main_window,
            active_tab_id: self.active_tab_id.deep_view(),
            tabs: self.tabs.deep_view(),
            ui_state: self.ui_state@,
            geometry: self.geometry,
        }
    }
}

impl DeepView for WindowState {
    type V = WindowStateView;

    open spec fn deep_view(&self) -> WindowStateView {
        self@
    }
}

impl Clone for WindowState {
    fn clone(&self) -> (r: Self)
        ensures
            r@ == self@,
    {
        let tabs = self.tabs.clone();
        assert(tabs.deep_view() =~= self.tabs.deep_view());
        WindowState {
            window_label: self.window_label.clone(),
            is_main_window: self.is_main_window,
            active_tab_id: self.active_tab_id.clone(),
            tabs,
            ui_state: self.ui_state.clone(),
            geometry: self.geometry,
        }
    }
}

/// The root document that is persisted and handed back on restore.
///
/// Version 0 is reserved: no session carries it.
#[derive(Debug)]
pub struct SessionData {
    pub version: u32,
    pub timestamp: i64,
    pub vmark_version: String,
    pub windows: Vec<WindowState>,
    pub workspace: Option<WorkspaceState>,
}

/// Mathematical model of [`SessionData`].
pub struct SessionDataView {
    pub version: u32,
    pub timestamp: i64,
    pub vmark_version: Seq<char>,
    pub windows: Seq<WindowStateView>,
    pub workspace: Option<WorkspaceStateView>,
}

impl View for SessionData {
    type V = SessionDataView;

    open spec fn view(&self) -> SessionDataView {
        SessionDataView {
            version: self.version,
            timestamp: self.timestamp,
            vmark_version: self.vmark_version@,
            windows: self.windows.deep_view(),
            workspace: self.workspace.deep_view(),
        }
    }
}

impl DeepView for SessionData {
    type V = SessionDataView;

    open spec fn deep_view(&self) -> SessionDataView {
        self@
    }
}

impl Clone for SessionData {
    fn clone(&self) -> (r: Self)
        ensures
            r@ == self@,
    {
        let windows = self.windows.clone();
        assert(windows.deep_view() =~= self.windows.deep_view());
        SessionData {
            version: self.version,
            timestamp: self.timestamp,
            vmark_version: self.vmark_version.clone(),
            windows,
            workspace: self.workspace.clone(),
        }
    }
}

/// Whether a session stamped `timestamp` is stale at time `now`, both in
/// seconds since the epoch.
///
/// It is stale when the allowed age is not positive, when the stamp lies in
/// the future, when the allowed age in seconds does not fit in 64 bits, or
/// when the session is older than the allowed age.
pub open spec fn stale_at(timestamp: int, now: int, max_age_days: int) -> bool {
    ||| max_age_days <= 0
    ||| timestamp > now
    ||| max_age_days * SECONDS_PER_DAY > i64::MAX
    ||| now - timestamp > max_age_days * SECONDS_PER_DAY
}

impl SessionData {
    /// An empty session of the current schema, stamped with the current time.
    pub fn new(vmark_version: String) -> (session: Self)
        ensures
            session.version == SCHEMA_VERSION,
            session.vmark_version@ == vmark_version@,
            session.windows@.len() == 0,
            session.workspace is None,
    {
        let timestamp: i64 = unix_seconds();
        SessionData {
            version: SCHEMA_VERSION,
            timestamp,
            vmark_version,
            windows: Vec::new(),
            workspace: None,
        }
    }

    /// Whether the session was written under exactly the current schema.
    ///
    /// A diagnostic: restore goes by [`crate::migration::can_migrate`], which
    /// also admits older versions.
    pub fn is_compatible(&self) -> (r: bool)
        ensures
            r == (self.version == SCHEMA_VERSION),
    {
        self.version == SCHEMA_VERSION
    }

    /// Whether the session is stale at time `now`.
    pub fn is_stale_at(&self, now: i64, max_age_days: i64) -> (r: bool)
        ensures
            r == stale_at(self.timestamp as int, now as int, max_age_days as int),
            max_age_days <= 0 ==> r,
            self.timestamp > now ==> r,
    {
        if max_age_days <= 0 {
            return true;
        }
        if self.timestamp > now {
            return true;
        }
        match max_age_days.checked_mul(SECONDS_PER_DAY) {
            None => true,
            Some(max_age_seconds) => match now.checked_sub(self.timestamp) {
                // The age itself exceeds 64 bits, and so every allowed age.
                None => true,
                Some(age_seconds) => age_seconds > max_age_seconds,
            },
        }
    }

    /// Whether the session is stale by the wall clock.
    ///
    /// The clock is read once; the answer is that of [`Self::is_stale_at`]
    /// for the instant read. An allowed age that is not positive makes every
    /// session stale, whatever the clock says.
    pub fn is_stale(&self, max_age_days: i64) -> (r: bool)
        ensures
            max_age_days <= 0 ==> r,
            exists|now: i64|
                r == #[trigger] stale_at(self.timestamp as int, now as int, max_age_days as int),
    {
        let now: i64 = unix_seconds();
        self.is_stale_at(now, max_age_days)
    }
}


} // verus!
