//! The application state and its transitions: every user, widget and
//! file-system event is a [`Message`]; [`AppModel::update`] decides the next
//! state and the [`Effect`]s the surrounding application must carry out.
use vstd::prelude::*;

use crate::document::{
    Dialog, DialogView, Document, DocumentView, Mode, PendingAction,
};
use crate::line_ending::LineEnding;
use crate::search::{find_matches, Match};
use crate::text::{normalized, replace_all_exec};
use crate::document;
use crate::search;
use crate::text;

verus! {

/// Maximum number of undo snapshots retained.
pub const UNDO_LIMIT: usize = 256;

/// Base text size of the Source editor, in pixels (before zoom).
pub const EDITOR_TEXT_SIZE: i32 = 14;

/// Base body text size of the rendered View, in pixels (before zoom).
pub const VIEW_TEXT_SIZE: i32 = 16;

/// Pixels added/removed per zoom step.
pub const ZOOM_STEP: i32 = 2;

/// Lowest zoom delta, in pixels.
pub const ZOOM_MIN: i32 = -6;

/// Highest zoom delta, in pixels.
pub const ZOOM_MAX: i32 = 32;

/// The kind of the current run of edits, used to coalesce undo steps.
#[derive(Clone, Copy, Debug, PartialEq, Eq, Structural)]
pub enum EditRun {
    /// No run in progress.
    Idle,
    /// Typing of non-whitespace characters.
    Insert,
    /// Repeated backspace.
    Backspace,
}

/// What an edit made in the source editor was.
#[derive(Clone, Copy, Debug, PartialEq, Eq, Structural)]
pub enum EditKind {
    /// A character was typed.
    Insert(char),
    /// The character before the cursor was deleted.
    Backspace,
    /// Any other change of the buffer (paste, delete, enter, ...).
    Other,
}

/// The context page to display in the context drawer.
#[derive(Clone, Copy, Debug, PartialEq, Eq, Structural)]
pub enum ContextPage {
    /// The about page.
    About,
}

/// The actions reachable from the menus and key bindings.
#[derive(Clone, Copy, Debug, PartialEq, Eq, Structural)]
pub enum MenuAction {
    About,
    New,
    Open,
    Save,
    SaveAs,
    Undo,
    Redo,
    Cut,
    Copy,
    Paste,
    SelectAll,
    Find,
    Replace,
    ToggleMode,
    ToggleHeaderBar,
    ZoomIn,
    ZoomOut,
    ZoomReset,
}

/// Find/replace state.
pub struct Search {
    /// Whether the find bar is shown.
    pub active: bool,
    /// Whether the replace row is shown.
    pub show_replace: bool,
    /// The current search query.
    pub query: Vec<u8>,
    /// The replacement text.
    pub replacement: Vec<u8>,
    /// Matches of `query` in the buffer, as of the last search.
    pub matches: Vec<Match>,
    /// Index of the active match within `matches`.
    pub current: usize,
}

/// Find/replace state as a mathematical value.
#[verifier::ext_equal]
pub struct SearchView {
    pub active: bool,
    pub show_replace: bool,
    pub query: Seq<u8>,
    pub replacement: Seq<u8>,
    pub matches: Seq<Match>,
    pub current: int,
}

impl View for Search {
    type V = SearchView;

    open spec fn view(&self) -> SearchView {
        SearchView {
            active: self.active,
            show_replace: self.show_replace,
            query: self.query@,
            replacement: self.replacement@,
            matches: self.matches@,
            current: self.current as int,
        }
    }
}

/// Messages emitted by the user, the editor widget and the file system.
#[derive(Debug)]
pub enum Message {
    /// Open a link in the browser.
    LaunchUrl(String),
    /// Show or hide a context page.
    ToggleContextPage(ContextPage),
    /// The editor moved its cursor or selection without changing the buffer.
    Moved,
    /// The editor applied an edit; carries the buffer after it.
    Edited(EditKind, Vec<u8>),
    /// A requested delete or paste was applied; carries the buffer after it.
    Changed(Vec<u8>),
    /// The replacement of the current match was pasted; carries the buffer after it.
    ReplacedCurrent(Vec<u8>),
    /// Toggle between Source and View modes.
    ToggleMode,
    /// Show or hide the window header bar (decorations).
    ToggleHeaderBar,
    /// Start a new, empty document.
    New,
    /// Prompt for a file to open.
    OpenFile,
    /// A file was read from disk: its path and contents.
    FileOpened(Vec<u8>, Vec<u8>),
    /// Save the current document (prompting for a path if it has none).
    SaveFile,
    /// Save the current document under a newly chosen path.
    SaveFileAs,
    /// The document was written to disk at the given path.
    FileSaved(Vec<u8>),
    /// A file dialog was cancelled.
    DialogCancelled,
    /// A file operation failed; show the message.
    DialogError(String),
    /// Dismiss the current error banner.
    DismissError,
    /// The window was asked to close while there are unsaved changes.
    RequestQuit,
    /// Confirm dialog: save, then continue the pending action.
    DialogSave,
    /// Confirm dialog: discard changes and continue the pending action.
    DialogDiscard,
    /// Confirm dialog: cancel the pending action.
    DialogCancel,
    /// The open file changed on disk.
    FileChangedOnDisk,
    /// The on-disk contents were re-read after an external change.
    ExternalContent(Result<Vec<u8>, String>),
    /// Conflict dialog: keep the in-memory edits.
    KeepLocal,
    /// Conflict dialog: discard local edits and load the disk version.
    ReloadFromDisk,
    /// Cut the editor selection (the selected text, if any).
    Cut(Option<String>),
    /// Copy the editor selection (the selected text, if any).
    Copy(Option<String>),
    /// Paste clipboard contents into the editor.
    Paste,
    /// Clipboard contents to paste.
    Pasted(Option<String>),
    /// Select all text in the editor.
    SelectAll,
    /// Open the find bar.
    FindOpen,
    /// Open the find bar with the replace row.
    ReplaceOpen,
    /// Close the find/replace bar.
    FindClose,
    /// The find query changed.
    FindQueryChanged(Vec<u8>),
    /// The replacement text changed.
    ReplacementChanged(Vec<u8>),
    /// Move to the next match.
    FindNext,
    /// Move to the previous match.
    FindPrev,
    /// Replace the current match.
    ReplaceCurrent,
    /// Replace all matches.
    ReplaceAll,
    /// Undo the last edit.
    Undo,
    /// Redo the last undone edit.
    Redo,
    /// Increase the content text size.
    ZoomIn,
    /// Decrease the content text size.
    ZoomOut,
    /// Reset the content text size.
    ZoomReset,
}

/// Work the application must carry out after an update, in order.
#[derive(Clone, Debug, PartialEq, Eq)]
pub enum Effect {
    /// Open a link with the desktop's default handler.
    OpenUrl(String),
    /// Focus the source editor.
    FocusEditor,
    /// Focus the find query input.
    FocusFind,
    /// Set the window title from the document's path.
    SetTitle,
    /// Rebuild the rendered view from the document's content.
    RenderMarkdown,
    /// Replace the editor's buffer with the document's content.
    SetBuffer,
    /// Delete the editor's selection, then report [`Message::Changed`].
    DeleteSelection,
    /// Paste this text at the editor's cursor, then report [`Message::Changed`].
    PasteText(String),
    /// Paste the search replacement over the selection, then report
    /// [`Message::ReplacedCurrent`].
    PasteReplacement,
    /// Select this match in the editor.
    Select(Match),
    /// Select all text in the editor.
    SelectAll,
    /// Write this text to the clipboard.
    WriteClipboard(String),
    /// Read the clipboard, then report [`Message::Pasted`].
    ReadClipboard,
    /// Prompt for a file, read it, then report [`Message::FileOpened`].
    OpenFileDialog,
    /// Prompt for a path, write [`AppModel::save_contents`] there, then report
    /// [`Message::FileSaved`].
    SaveAsDialog,
    /// Write [`AppModel::save_contents`] to the document's path, then report
    /// [`Message::FileSaved`].
    WriteFile,
    /// Re-read the document's path, then report [`Message::ExternalContent`].
    ReadExternal,
    /// Close the main window.
    CloseWindow,
}

/// The application state: everything the application decides on.
pub struct AppModel {
    /// The page shown in the context drawer.
    pub context_page: ContextPage,
    /// Whether the context drawer is shown.
    pub show_context: bool,
    /// Whether the window header bar is shown.
    pub show_headerbar: bool,
    /// The currently open document.
    pub document: Document,
    /// A user-facing error message, shown as a dismissible banner.
    pub error: Option<String>,
    /// Find/replace state.
    pub search: Search,
    /// Buffer snapshots for undo (oldest first).
    pub undo_stack: Vec<Vec<u8>>,
    /// Buffer snapshots for redo.
    pub redo_stack: Vec<Vec<u8>>,
    /// The kind of the in-progress edit run, for coalescing undo steps.
    pub undo_run: EditRun,
    /// Zoom delta (pixels) added to the content text sizes.
    pub zoom: i32,
    /// The active modal dialog, if any.
    pub dialog: Option<Dialog>,
    /// An action to run once unsaved changes are resolved (e.g. after saving).
    pub pending: Option<PendingAction>,
    /// Set while the application is closing, to allow the window to close.
    pub quitting: bool,
}

/// The application state as a mathematical value.
#[verifier::ext_equal]
pub struct ModelView {
    pub context_page: ContextPage,
    pub show_context: bool,
    pub show_headerbar: bool,
    pub document: DocumentView,
    pub error: Option<String>,
    pub search: SearchView,
    pub undo: Seq<Seq<u8>>,
    pub redo: Seq<Seq<u8>>,
    pub undo_run: EditRun,
    pub zoom: int,
    pub dialog: Option<DialogView>,
    pub pending: Option<PendingAction>,
    pub quitting: bool,
}

/// A stack of byte buffers as a sequence of sequences.
pub open spec fn stack_view(v: Seq<Vec<u8>>) -> Seq<Seq<u8>> {
    v.map_values(|b: Vec<u8>| b@)
}

/// An optional dialog as its mathematical value.
pub open spec fn dialog_view(d: Option<Dialog>) -> Option<DialogView> {
    match d {
        Some(x) => Some(x@),
        None => None,
    }
}

impl View for AppModel {
    type V = ModelView;

    open spec fn view(&self) -> ModelView {
        ModelView {
            context_page: self.context_page,
            show_context: self.show_context,
            show_headerbar: self.show_headerbar,
            document: self.document@,
            error: self.error,
            search: self.search@,
            undo: stack_view(self.undo_stack@),
            redo: stack_view(self.redo_stack@),
            undo_run: self.undo_run,
            zoom: self.zoom as int,
            dialog: dialog_view(self.dialog),
            pending: self.pending,
            quitting: self.quitting,
        }
    }
}

/// Whether `c` has the Unicode White_Space property (as `char::is_whitespace`).
pub open spec fn is_whitespace(c: char) -> bool {
    let u = c as u32;
    ||| 0x09 <= u <= 0x0D
    ||| u == 0x20
    ||| u == 0x85
    ||| u == 0xA0
    ||| u == 0x1680
    ||| 0x2000 <= u <= 0x200A
    ||| u == 0x2028
    ||| u == 0x2029
    ||| u == 0x202F
    ||| u == 0x205F
    ||| u == 0x3000
}

/// The run an edit belongs to: typing of a non-whitespace character, a
/// backspace, or neither.
pub open spec fn run_of(kind: EditKind) -> EditRun {
    match kind {
        EditKind::Insert(c) => if is_whitespace(c) {
            EditRun::Idle
        } else {
            EditRun::Insert
        },
        EditKind::Backspace => EditRun::Backspace,
        EditKind::Other => EditRun::Idle,
    }
}

/// Matches as exec values, from mathematical triples.
pub open spec fn to_matches(t: Seq<(int, int, int)>) -> Seq<Match> {
    t.map_values(|x: (int, int, int)| Match { line: x.0 as usize, start: x.1 as usize, end: x.2 as usize })
}

/// Refreshing the window title when the unsaved-changes marker flips.
pub open spec fn title_if_changed(dirty_before: bool, dirty_after: bool) -> Seq<Effect> {
    if dirty_before != dirty_after {
        seq![Effect::SetTitle]
    } else {
        seq![]
    }
}

/// The mode a toggle switches to.
pub open spec fn toggled(m: Mode) -> Mode {
    match m {
        Mode::Source => Mode::View,
        Mode::View => Mode::Source,
    }
}

impl ModelView {
    /// The invariant every reachable state keeps.
    pub open spec fn wf(self) -> bool {
        &&& self.undo.len() + self.redo.len() <= UNDO_LIMIT
        &&& ZOOM_MIN <= self.zoom <= ZOOM_MAX
        &&& (0 <= self.search.current < self.search.matches.len() || (self.search.matches.len()
            == 0 && self.search.current == 0))
        &&& (self.search.query.len() == 0 ==> self.search.matches.len() == 0)
    }

    /// The bytes a save writes: the buffer under the document's convention.
    pub open spec fn save_bytes(self) -> Seq<u8> {
        self.document.line_ending.applied(self.document.content)
    }

    /// The undo stack after recording the current buffer: the oldest
    /// snapshot is dropped beyond the limit.
    pub open spec fn pushed_undo(self) -> Seq<Seq<u8>> {
        let u = self.undo.push(self.document.content);
        if u.len() > UNDO_LIMIT {
            u.skip(1)
        } else {
            u
        }
    }

    /// Records the buffer for undo and forgets the redo history.
    pub open spec fn snapshot(self) -> ModelView {
        ModelView { undo: self.pushed_undo(), redo: seq![], ..self }
    }

    /// Clears the undo/redo history.
    pub open spec fn cleared_history(self) -> ModelView {
        ModelView { undo: seq![], redo: seq![], undo_run: EditRun::Idle, ..self }
    }

    /// Recording the buffer for undo at the start of a programmatic change,
    /// which also ends any run of typing.
    pub open spec fn begun_edit(self) -> ModelView {
        ModelView { undo_run: EditRun::Idle, ..self.snapshot() }
    }

    /// The buffer replaced by `c` after a programmatic change: recorded for
    /// undo, ending any run, and marked dirty.
    pub open spec fn changed_to(self, c: Seq<u8>) -> ModelView {
        let s = self.begun_edit();
        ModelView { document: DocumentView { content: c, dirty: true, ..s.document }, ..s }
    }

    /// Loads file contents: adopts their line-ending convention, marks the
    /// document clean and clears the history.
    pub open spec fn loaded(self, c: Seq<u8>) -> ModelView {
        ModelView {
            document: DocumentView {
                line_ending: LineEnding::detected(c),
                content: c,
                dirty: false,
                ..self.document
            },
            ..self
        }.cleared_history()
    }

    /// Recomputes the matches of the query over the buffer, keeping the
    /// active index when it is still in range.
    pub open spec fn recomputed(self) -> ModelView {
        let ms = to_matches(search::all_matches(self.document.content, self.search.query));
        ModelView {
            search: SearchView {
                matches: ms,
                current: if self.search.current >= ms.len() {
                    0
                } else {
                    self.search.current
                },
                ..self.search
            },
            ..self
        }
    }

    /// Selecting the active match, if there is one.
    pub open spec fn select_current(self) -> Seq<Effect> {
        if 0 <= self.search.current < self.search.matches.len() {
            seq![Effect::Select(self.search.matches[self.search.current])]
        } else {
            seq![]
        }
    }

    /// Opens (or re-targets) the find bar, optionally with the replace row.
    pub open spec fn searching(self, show_replace: bool) -> ModelView {
        ModelView {
            document: DocumentView { mode: Mode::Source, ..self.document },
            search: SearchView { active: true, show_replace, ..self.search },
            ..self
        }.recomputed()
    }

    /// Saving: to the known path, or through a dialog for an untitled document.
    pub open spec fn save_effects(self) -> Seq<Effect> {
        if self.document.path is Some {
            seq![Effect::WriteFile]
        } else {
            seq![Effect::SaveAsDialog]
        }
    }

    /// Carries out a previously deferred action.
    pub open spec fn performed(self, a: PendingAction) -> (ModelView, Seq<Effect>) {
        match a {
            PendingAction::New => (
                ModelView {
                    document: document::fresh_document(),
                    error: None,
                    ..self
                }.cleared_history(),
                seq![Effect::SetBuffer, Effect::RenderMarkdown, Effect::SetTitle],
            ),
            PendingAction::Open => (self, seq![Effect::OpenFileDialog]),
            PendingAction::Quit => (ModelView { quitting: true, ..self }, seq![Effect::CloseWindow]),
        }
    }

    /// Performs `a` at once, or asks first when there are unsaved changes.
    pub open spec fn guarded(self, a: PendingAction) -> (ModelView, Seq<Effect>) {
        if self.document.dirty {
            (ModelView { dialog: Some(DialogView::ConfirmDiscard(a)), ..self }, seq![])
        } else {
            self.performed(a)
        }
    }

    /// The state and effects after handling `m`.
    pub open spec fn next(self, m: Message) -> (ModelView, Seq<Effect>) {
        match m {
            Message::LaunchUrl(url) => (self, seq![Effect::OpenUrl(url)]),
            Message::ToggleContextPage(p) => if self.context_page == p {
                (ModelView { show_context: !self.show_context, ..self }, seq![])
            } else {
                (ModelView { context_page: p, show_context: true, ..self }, seq![])
            },
            Message::Moved => (ModelView { undo_run: EditRun::Idle, ..self }, seq![]),
            Message::Edited(kind, after) => {
                let run = run_of(kind);
                let s = if run == EditRun::Idle || run != self.undo_run {
                    self.snapshot()
                } else {
                    self
                };
                (
                    ModelView {
                        undo_run: run,
                        document: DocumentView { content: after@, dirty: true, ..s.document },
                        ..s
                    },
                    seq![Effect::RenderMarkdown] + title_if_changed(self.document.dirty, true),
                )
            },
            Message::Changed(after) => (
                self.changed_to(after@),
                seq![Effect::RenderMarkdown] + title_if_changed(self.document.dirty, true),
            ),
            Message::ReplacedCurrent(after) => {
                let s = self.changed_to(after@).recomputed();
                (
                    s,
                    seq![Effect::RenderMarkdown] + title_if_changed(self.document.dirty, true)
                        + s.select_current(),
                )
            },
            Message::ToggleMode => {
                let mode = toggled(self.document.mode);
                (
                    ModelView { document: DocumentView { mode, ..self.document }, ..self },
                    if mode == Mode::View {
                        seq![Effect::RenderMarkdown]
                    } else {
                        seq![Effect::FocusEditor]
                    },
                )
            },
            Message::ToggleHeaderBar => (
                ModelView { show_headerbar: !self.show_headerbar, ..self },
                seq![],
            ),
            Message::New => self.guarded(PendingAction::New),
            Message::OpenFile => self.guarded(PendingAction::Open),
            Message::FileOpened(path, contents) => (
                ModelView {
                    document: DocumentView {
                        path: Some(path@),
                        mode: Mode::View,
                        ..self.document
                    },
                    error: None,
                    ..self
                }.loaded(contents@),
                seq![Effect::SetBuffer, Effect::RenderMarkdown, Effect::SetTitle],
            ),
            Message::SaveFile => (self, self.save_effects()),
            Message::SaveFileAs => (self, seq![Effect::SaveAsDialog]),
            Message::FileSaved(path) => {
                let s = ModelView {
                    document: DocumentView { path: Some(path@), dirty: false, ..self.document },
                    error: None,
                    pending: None,
                    ..self
                };
                match self.pending {
                    // Starting a new document sets the title itself.
                    Some(PendingAction::New) => s.performed(PendingAction::New),
                    Some(a) => (s.performed(a).0, seq![Effect::SetTitle] + s.performed(a).1),
                    None => (s, seq![Effect::SetTitle]),
                }
            },
            Message::DialogCancelled => (ModelView { pending: None, ..self }, seq![]),
            Message::DialogError(why) => (
                ModelView { pending: None, error: Some(why), ..self },
                seq![],
            ),
            Message::DismissError => (ModelView { error: None, ..self }, seq![]),
            Message::RequestQuit => (
                ModelView {
                    dialog: Some(DialogView::ConfirmDiscard(PendingAction::Quit)),
                    ..self
                },
                seq![],
            ),
            Message::DialogSave => {
                let s = ModelView { dialog: None, ..self };
                match self.dialog {
                    Some(DialogView::ConfirmDiscard(a)) => (
                        ModelView { pending: Some(a), ..s },
                        s.save_effects(),
                    ),
                    _ => (s, seq![]),
                }
            },
            Message::DialogDiscard => {
                let s = ModelView { dialog: None, ..self };
                match self.dialog {
                    Some(DialogView::ConfirmDiscard(a)) => s.performed(a),
                    _ => (s, seq![]),
                }
            },
            Message::DialogCancel => (ModelView { dialog: None, ..self }, seq![]),
            Message::KeepLocal => (ModelView { dialog: None, ..self }, seq![]),
            Message::FileChangedOnDisk => if self.dialog is None && self.document.path is Some {
                (self, seq![Effect::ReadExternal])
            } else {
                (self, seq![])
            },
            Message::ExternalContent(r) => match r {
                Ok(disk) => if text::normalize_newlines(disk@) == text::normalize_newlines(
                    self.document.content,
                ) {
                    (self, seq![])
                } else if self.document.dirty {
                    (
                        ModelView { dialog: Some(DialogView::ConflictReload(disk@)), ..self },
                        seq![],
                    )
                } else {
                    (self.loaded(disk@), seq![Effect::SetBuffer, Effect::RenderMarkdown])
                },
                Err(_) => (self, seq![]),
            },
            Message::ReloadFromDisk => {
                let s = ModelView { dialog: None, ..self };
                match self.dialog {
                    Some(DialogView::ConflictReload(c)) => (
                        s.loaded(c),
                        seq![Effect::SetBuffer, Effect::RenderMarkdown] + title_if_changed(
                            self.document.dirty,
                            false,
                        ),
                    ),
                    _ => (s, seq![]),
                }
            },
            Message::Copy(sel) => match sel {
                Some(t) => (self, seq![Effect::WriteClipboard(t)]),
                None => (self, seq![]),
            },
            Message::Cut(sel) => match sel {
                Some(t) => (self, seq![Effect::DeleteSelection, Effect::WriteClipboard(t)]),
                None => (self, seq![]),
            },
            Message::Paste => (self, seq![Effect::ReadClipboard]),
            Message::Pasted(p) => match p {
                Some(t) => (self, seq![Effect::PasteText(t)]),
                None => (self, seq![]),
            },
            Message::SelectAll => (self, seq![Effect::SelectAll]),
            Message::FindOpen => if self.search.active && !self.search.show_replace {
                (ModelView { search: SearchView { active: false, ..self.search }, ..self }, seq![])
            } else {
                let s = self.searching(false);
                (s, s.select_current() + seq![Effect::FocusFind])
            },
            Message::ReplaceOpen => if self.search.active && self.search.show_replace {
                (ModelView { search: SearchView { active: false, ..self.search }, ..self }, seq![])
            } else {
                let s = self.searching(true);
                (s, s.select_current() + seq![Effect::FocusFind])
            },
            Message::FindClose => (
                ModelView { search: SearchView { active: false, ..self.search }, ..self },
                seq![],
            ),
            Message::FindQueryChanged(q) => {
                let s = ModelView {
                    search: SearchView { query: q@, current: 0, ..self.search },
                    ..self
                }.recomputed();
                (s, s.select_current())
            },
            Message::ReplacementChanged(r) => (
                ModelView { search: SearchView { replacement: r@, ..self.search }, ..self },
                seq![],
            ),
            Message::FindNext => if self.search.matches.len() > 0 {
                let s = ModelView {
                    search: SearchView {
                        current: (self.search.current + 1) % (self.search.matches.len() as int),
                        ..self.search
                    },
                    ..self
                };
                (s, s.select_current())
            } else {
                (self, seq![])
            },
            Message::FindPrev => if self.search.matches.len() > 0 {
                let len = self.search.matches.len() as int;
                let s = ModelView {
                    search: SearchView {
                        current: (self.search.current + len - 1) % len,
                        ..self.search
                    },
                    ..self
                };
                (s, s.select_current())
            } else {
                (self, seq![])
            },
            Message::ReplaceCurrent => if self.search.matches.len() > 0 {
                (self, self.select_current() + seq![Effect::PasteReplacement])
            } else {
                (self, seq![])
            },
            Message::ReplaceAll => if self.search.matches.len() > 0 {
                let replaced = text::replace_all(
                    self.document.content,
                    self.search.query,
                    self.search.replacement,
                );
                let s = ModelView {
                    search: SearchView { current: 0, ..self.search },
                    ..self.changed_to(replaced)
                }.recomputed();
                (
                    s,
                    seq![Effect::SetBuffer, Effect::RenderMarkdown] + title_if_changed(
                        self.document.dirty,
                        true,
                    ),
                )
            } else {
                (self, seq![])
            },
            Message::Undo => if self.undo.len() > 0 {
                let previous = self.undo.last();
                (
                    ModelView {
                        undo: self.undo.drop_last(),
                        redo: self.redo.push(self.document.content),
                        undo_run: EditRun::Idle,
                        document: DocumentView { content: previous, dirty: true, ..self.document },
                        ..self
                    }.recomputed(),
                    seq![Effect::SetBuffer, Effect::RenderMarkdown] + title_if_changed(
                        self.document.dirty,
                        true,
                    ),
                )
            } else {
                (self, seq![])
            },
            Message::Redo => if self.redo.len() > 0 {
                let next = self.redo.last();
                (
                    ModelView {
                        redo: self.redo.drop_last(),
                        undo: self.undo.push(self.document.content),
                        undo_run: EditRun::Idle,
                        document: DocumentView { content: next, dirty: true, ..self.document },
                        ..self
                    }.recomputed(),
                    seq![Effect::SetBuffer, Effect::RenderMarkdown] + title_if_changed(
                        self.document.dirty,
                        true,
                    ),
                )
            } else {
                (self, seq![])
            },
            Message::ZoomIn => (
                ModelView {
                    zoom: if self.zoom + ZOOM_STEP > ZOOM_MAX {
                        ZOOM_MAX as int
                    } else {
                        self.zoom + ZOOM_STEP
                    },
                    ..self
                },
                seq![],
            ),
            Message::ZoomOut => (
                ModelView {
                    zoom: if self.zoom - ZOOM_STEP < ZOOM_MIN {
                        ZOOM_MIN as int
                    } else {
                        self.zoom - ZOOM_STEP
                    },
                    ..self
                },
                seq![],
            ),
            Message::ZoomReset => (ModelView { zoom: 0, ..self }, seq![]),
        }
    }
}

/// The state a session starts in, before any file is opened.
pub open spec fn initial_view() -> ModelView {
    ModelView {
        context_page: ContextPage::About,
        show_context: false,
        show_headerbar: true,
        document: document::fresh_document(),
        error: None,
        search: SearchView {
            active: false,
            show_replace: false,
            query: seq![],
            replacement: seq![],
            matches: seq![],
            current: 0,
        },
        undo: seq![],
        redo: seq![],
        undo_run: EditRun::Idle,
        zoom: 0,
        dialog: None,
        pending: None,
        quitting: false,
    }
}

/// The state and effects at startup, given the file named on the command
/// line (its path, and its contents or the reason it could not be read).
pub open spec fn started(opened: Option<(Vec<u8>, Result<Vec<u8>, String>)>) -> (
    ModelView,
    Seq<Effect>,
) {
    match opened {
        Some((path, Ok(contents))) => {
            let v = initial_view();
            (
                ModelView {
                    document: DocumentView { mode: Mode::View, ..v.document },
                    ..v
                }.loaded(contents@).with_path(path@),
                seq![Effect::SetBuffer, Effect::RenderMarkdown, Effect::SetTitle],
            )
        },
        Some((_, Err(why))) => (ModelView { error: Some(why), ..initial_view() }, seq![Effect::SetTitle]),
        None => (initial_view(), seq![Effect::SetTitle]),
    }
}

impl ModelView {
    /// The same state with the document located at `p`.
    pub open spec fn with_path(self, p: Seq<u8>) -> ModelView {
        ModelView { document: DocumentView { path: Some(p), ..self.document }, ..self }
    }
}

/// Returns whether `c` has the Unicode White_Space property.
pub fn is_whitespace_char(c: char) -> (r: bool)
    ensures
        r == is_whitespace(c),
{
    let u = c as u32;
    (0x09 <= u && u <= 0x0D) || u == 0x20 || u == 0x85 || u == 0xA0 || u == 0x1680 || (0x2000
        <= u && u <= 0x200A) || u == 0x2028 || u == 0x2029 || u == 0x202F || u == 0x205F || u
        == 0x3000
}

/// The run an edit belongs to.
pub fn edit_run(kind: EditKind) -> (r: EditRun)
    ensures
        r == run_of(kind),
{
    match kind {
        EditKind::Insert(c) => if is_whitespace_char(c) {
            EditRun::Idle
        } else {
            EditRun::Insert
        },
        EditKind::Backspace => EditRun::Backspace,
        EditKind::Other => EditRun::Idle,
    }
}

/// Copies a byte buffer.
fn copy_bytes(v: &Vec<u8>) -> (r: Vec<u8>)
    ensures
        r@ == v@,
{
    let mut out: Vec<u8> = Vec::new();
    let mut i: usize = 0;
    while i < v.len()
        invariant
            i <= v@.len(),
            out@ == v@.take(i as int),
        decreases v@.len() - i,
    {
        out.push(v[i]);
        i = i + 1;
        assert(out@ =~= v@.take(i as int));
    }
    assert(v@.take(v@.len() as int) =~= v@);
    out
}

/// Whether two byte buffers are equal.
fn bytes_equal(a: &Vec<u8>, b: &Vec<u8>) -> (r: bool)
    ensures
        r == (a@ == b@),
{
    if a.len() != b.len() {
        return false;
    }
    let mut i: usize = 0;
    while i < a.len()
        invariant
            a@.len() == b@.len(),
            i <= a@.len(),
            forall|j: int| 0 <= j < i ==> a@[j] == b@[j],
        decreases a@.len() - i,
    {
        if a[i] != b[i] {
            return false;
        }
        i = i + 1;
    }
    assert(a@ =~= b@);
    true
}

impl AppModel {
    /// The invariant every reachable state keeps.
    pub open spec fn wf(&self) -> bool {
        self@.wf()
    }

    /// The bytes a save writes: the buffer under the document's line-ending
    /// convention.
    pub fn save_contents(&self) -> (r: Vec<u8>)
        ensures
            r@ == self@.save_bytes(),
    {
        self.document.line_ending.apply(copy_bytes(&self.document.content))
    }

    /// Pushes the current buffer onto the undo stack and clears the redo stack.
    fn push_undo_snapshot(&mut self)
        requires
            old(self).wf(),
        ensures
            final(self)@ == old(self)@.snapshot(),
    {
        let ghost before = self.undo_stack@;
        let snap = copy_bytes(&self.document.content);
        self.undo_stack.push(snap);
        assert(stack_view(self.undo_stack@) =~= stack_view(before).push(self.document.content@));
        if self.undo_stack.len() > UNDO_LIMIT {
            let ghost full = self.undo_stack@;
            self.undo_stack.remove(0);
            assert(stack_view(self.undo_stack@) =~= stack_view(full).skip(1));
        }
        self.redo_stack.clear();
        assert(stack_view(self.redo_stack@) =~= Seq::<Seq<u8>>::empty());
    }

    /// Records an undo snapshot for a programmatic (non-typing) edit.
    fn begin_edit(&mut self)
        requires
            old(self).wf(),
        ensures
            final(self)@ == old(self)@.begun_edit(),
    {
        self.push_undo_snapshot();
        self.undo_run = EditRun::Idle;
    }

    /// Clears the undo/redo history (e.g. when a new document is loaded).
    fn reset_history(&mut self)
        ensures
            final(self)@ == old(self)@.cleared_history(),
    {
        self.undo_stack.clear();
        self.redo_stack.clear();
        self.undo_run = EditRun::Idle;
        assert(stack_view(self.undo_stack@) =~= Seq::<Seq<u8>>::empty());
        assert(stack_view(self.redo_stack@) =~= Seq::<Seq<u8>>::empty());
    }

    /// Replaces the buffer after a programmatic change, recording undo.
    fn change_to(&mut self, after: Vec<u8>)
        requires
            old(self).wf(),
        ensures
            final(self)@ == old(self)@.changed_to(after@),
    {
        self.begin_edit();
        self.document.content = after;
        self.document.dirty = true;
    }

    /// Replaces the document's buffer with `contents`, marking it clean and
    /// adopting the contents' line-ending convention.
    fn load_contents(&mut self, contents: Vec<u8>)
        ensures
            final(self)@ == old(self)@.loaded(contents@),
    {
        self.document.line_ending = LineEnding::detect(contents.as_slice());
        self.document.content = contents;
        self.document.dirty = false;
        self.reset_history();
    }

    /// Recomputes search matches for the current query over the buffer.
    fn recompute_matches(&mut self)
        ensures
            final(self)@ == old(self)@.recomputed(),
    {
        let found = find_matches(self.document.content.as_slice(), self.search.query.as_slice());
        let ghost t = search::all_matches(self.document.content@, self.search.query@);
        assert(found@ =~= to_matches(t)) by {
            assert forall|i: int| 0 <= i < found@.len() implies found@[i] == to_matches(t)[i] by {
                assert(search::match_triples(found@)[i] == t[i]);
            }
        }
        self.search.matches = found;
        if self.search.current >= self.search.matches.len() {
            self.search.current = 0;
        }
    }

    /// Selecting the active match in the editor, if any.
    fn select_current_match(&self) -> (r: Vec<Effect>)
        ensures
            r@ == self@.select_current(),
    {
        if self.search.current < self.search.matches.len() {
            let m = self.search.matches[self.search.current];
            let r = vec![Effect::Select(m)];
            assert(r@ =~= self@.select_current());
            r
        } else {
            let r: Vec<Effect> = Vec::new();
            assert(r@ =~= self@.select_current());
            r
        }
    }

    /// Opens (or re-targets) the find bar, optionally with the replace row.
    fn open_search(&mut self, show_replace: bool) -> (r: Vec<Effect>)
        ensures
            final(self)@ == old(self)@.searching(show_replace),
            r@ == final(self)@.select_current(),
    {
        self.document.mode = Mode::Source;
        self.search.active = true;
        self.search.show_replace = show_replace;
        self.recompute_matches();
        self.select_current_match()
    }

    /// Saves the current document, prompting for a path if it has none.
    fn start_save(&self) -> (r: Vec<Effect>)
        ensures
            r@ == self@.save_effects(),
    {
        let r = if self.document.path.is_some() {
            vec![Effect::WriteFile]
        } else {
            vec![Effect::SaveAsDialog]
        };
        assert(r@ =~= self@.save_effects());
        r
    }

    /// Carries out a previously deferred action.
    fn perform_pending(&mut self, action: PendingAction) -> (r: Vec<Effect>)
        ensures
            (final(self)@, r@) == old(self)@.performed(action),
    {
        match action {
            PendingAction::New => {
                self.document = Document::new();
                self.error = None;
                self.reset_history();
                let r = vec![Effect::SetBuffer, Effect::RenderMarkdown, Effect::SetTitle];
                assert(r@ =~= seq![Effect::SetBuffer, Effect::RenderMarkdown, Effect::SetTitle]);
                r
            },
            PendingAction::Open => {
                let r = vec![Effect::OpenFileDialog];
                assert(r@ =~= seq![Effect::OpenFileDialog]);
                r
            },
            PendingAction::Quit => {
                self.quitting = true;
                let r = vec![Effect::CloseWindow];
                assert(r@ =~= seq![Effect::CloseWindow]);
                r
            },
        }
    }

    /// Performs `action` immediately, or prompts to save first when the
    /// document has unsaved changes.
    fn guard_or_perform(&mut self, action: PendingAction) -> (r: Vec<Effect>)
        ensures
            (final(self)@, r@) == old(self)@.guarded(action),
    {
        if self.document.dirty {
            self.dialog = Some(Dialog::ConfirmDiscard(action));
            let r: Vec<Effect> = Vec::new();
            assert(r@ =~= Seq::<Effect>::empty());
            r
        } else {
            self.perform_pending(action)
        }
    }
}


/// Reading an empty query over any lines finds nothing.
proof fn lemma_no_matches_for_empty_query(ls: Seq<Seq<u8>>, q: Seq<u8>)
    requires
        q.len() == 0,
    ensures
        search::matches_in(ls, q).len() == 0,
    decreases ls.len(),
{
    if ls.len() > 0 {
        lemma_no_matches_for_empty_query(ls.drop_last(), q);
    }
}

/// Recomputing matches keeps the search part of the invariant.
proof fn lemma_recomputed_wf(v: ModelView)
    requires
        v.undo.len() + v.redo.len() <= UNDO_LIMIT,
        ZOOM_MIN <= v.zoom <= ZOOM_MAX,
        v.search.current >= 0,
    ensures
        v.recomputed().wf(),
{
    if v.search.query.len() == 0 {
        lemma_no_matches_for_empty_query(search::lines(v.document.content), v.search.query);
    }
}

/// Every transition keeps the invariant: the history never holds more than
/// [`UNDO_LIMIT`] snapshots, the zoom stays within its bounds, and the active
/// match index is always valid.
#[verifier::spinoff_prover]
#[verifier::rlimit(60)]
pub proof fn law_update_keeps_invariant(v: ModelView, m: Message)
    requires
        v.wf(),
    ensures
        v.next(m).0.wf(),
{
    match m {
        Message::ReplacedCurrent(after) => {
            lemma_recomputed_wf(v.changed_to(after@));
        },
        Message::FindOpen => {
            lemma_recomputed_wf(ModelView {
                document: DocumentView { mode: Mode::Source, ..v.document },
                search: SearchView { active: true, show_replace: false, ..v.search },
                ..v
            });
        },
        Message::ReplaceOpen => {
            lemma_recomputed_wf(ModelView {
                document: DocumentView { mode: Mode::Source, ..v.document },
                search: SearchView { active: true, show_replace: true, ..v.search },
                ..v
            });
        },
        Message::FindQueryChanged(q) => {
            lemma_recomputed_wf(ModelView {
                search: SearchView { query: q@, current: 0, ..v.search },
                ..v
            });
        },
        Message::FindNext => {
            if v.search.matches.len() > 0 {
                let len = v.search.matches.len() as int;
                assert(0 <= (v.search.current + 1) % len < len) by (nonlinear_arith)
                    requires
                        len > 0,
                ;
            }
        },
        Message::FindPrev => {
            if v.search.matches.len() > 0 {
                let len = v.search.matches.len() as int;
                assert(0 <= (v.search.current + len - 1) % len < len) by (nonlinear_arith)
                    requires
                        len > 0,
                ;
            }
        },
        Message::ReplaceAll => {
            if v.search.matches.len() > 0 {
                let replaced = text::replace_all(
                    v.document.content,
                    v.search.query,
                    v.search.replacement,
                );
                lemma_recomputed_wf(ModelView {
                    search: SearchView { current: 0, ..v.search },
                    ..v.changed_to(replaced)
                });
            }
        },
        Message::Undo => {
            if v.undo.len() > 0 {
                lemma_recomputed_wf(ModelView {
                    undo: v.undo.drop_last(),
                    redo: v.redo.push(v.document.content),
                    undo_run: EditRun::Idle,
                    document: DocumentView { content: v.undo.last(), dirty: true, ..v.document },
                    ..v
                });
            }
        },
        Message::Redo => {
            if v.redo.len() > 0 {
                lemma_recomputed_wf(ModelView {
                    redo: v.redo.drop_last(),
                    undo: v.undo.push(v.document.content),
                    undo_run: EditRun::Idle,
                    document: DocumentView { content: v.redo.last(), dirty: true, ..v.document },
                    ..v
                });
            }
        },
        Message::LaunchUrl(_) => {},
        Message::ToggleContextPage(_) => {},
        Message::Moved => {},
        Message::Edited(_, _) => {},
        Message::Changed(_) => {},
        Message::ToggleMode => {},
        Message::ToggleHeaderBar => {},
        Message::New => {},
        Message::OpenFile => {},
        Message::FileOpened(_, _) => {},
        Message::SaveFile => {},
        Message::SaveFileAs => {},
        Message::FileSaved(_) => {},
        Message::DialogCancelled => {},
        Message::DialogError(_) => {},
        Message::DismissError => {},
        Message::RequestQuit => {},
        Message::DialogSave => {},
        Message::DialogDiscard => {},
        Message::DialogCancel => {},
        Message::KeepLocal => {},
        Message::FileChangedOnDisk => {},
        Message::ExternalContent(_) => {},
        Message::ReloadFromDisk => {},
        Message::Copy(_) => {},
        Message::Cut(_) => {},
        Message::Paste => {},
        Message::Pasted(_) => {},
        Message::SelectAll => {},
        Message::FindClose => {},
        Message::ReplacementChanged(_) => {},
        Message::ZoomIn => {},
        Message::ZoomOut => {},
        Message::ZoomReset => {},
        Message::ReplaceCurrent => {},
    }
}


/// A sequence of effects with no element.
fn no_effects() -> (r: Vec<Effect>)
    ensures
        r@ == Seq::<Effect>::empty(),
{
    Vec::new()
}

/// A sequence of one effect.
fn one_effect(e: Effect) -> (r: Vec<Effect>)
    ensures
        r@ == seq![e],
{
    let r = vec![e];
    assert(r@ =~= seq![e]);
    r
}

/// Appends `b` after `a`.
fn then_effects(a: Vec<Effect>, b: Vec<Effect>) -> (r: Vec<Effect>)
    ensures
        r@ == a@ + b@,
{
    let mut a = a;
    let mut b = b;
    a.append(&mut b);
    a
}

/// Refreshing the window title when the unsaved-changes marker flips.
fn title_effects(dirty_before: bool, dirty_after: bool) -> (r: Vec<Effect>)
    ensures
        r@ == title_if_changed(dirty_before, dirty_after),
{
    if dirty_before != dirty_after {
        one_effect(Effect::SetTitle)
    } else {
        no_effects()
    }
}

/// Rebuilding the editor and the rendered view after the buffer was replaced.
fn buffer_replaced() -> (r: Vec<Effect>)
    ensures
        r@ == seq![Effect::SetBuffer, Effect::RenderMarkdown],
{
    let r = vec![Effect::SetBuffer, Effect::RenderMarkdown];
    assert(r@ =~= seq![Effect::SetBuffer, Effect::RenderMarkdown]);
    r
}

impl AppModel {
    /// The state a session starts in: the file named on the command line is
    /// loaded in View mode when it could be read, else its error is shown.
    pub fn new(opened: Option<(Vec<u8>, Result<Vec<u8>, String>)>) -> (r: (AppModel, Vec<Effect>))
        ensures
            (r.0@, r.1@) == started(opened),
            r.0.wf(),
    {
        let mut app = AppModel {
            context_page: ContextPage::About,
            show_context: false,
            show_headerbar: true,
            document: Document::new(),
            error: None,
            search: Search {
                active: false,
                show_replace: false,
                query: Vec::new(),
                replacement: Vec::new(),
                matches: Vec::new(),
                current: 0,
            },
            undo_stack: Vec::new(),
            redo_stack: Vec::new(),
            undo_run: EditRun::Idle,
            zoom: 0,
            dialog: None,
            pending: None,
            quitting: false,
        };
        assert(stack_view(app.undo_stack@) =~= Seq::<Seq<u8>>::empty());
        assert(stack_view(app.redo_stack@) =~= Seq::<Seq<u8>>::empty());
        assert(app@ =~= initial_view());
        match opened {
            Some((path, Ok(contents))) => {
                app.document.mode = Mode::View;
                app.load_contents(contents);
                app.document.path = Some(path);
                let r = vec![Effect::SetBuffer, Effect::RenderMarkdown, Effect::SetTitle];
                assert(r@ =~= seq![Effect::SetBuffer, Effect::RenderMarkdown, Effect::SetTitle]);
                (app, r)
            },
            Some((_, Err(why))) => {
                app.error = Some(why);
                (app, one_effect(Effect::SetTitle))
            },
            None => (app, one_effect(Effect::SetTitle)),
        }
    }

    /// Whether closing the window must first be confirmed: yes when there
    /// are unsaved changes and the application is not already quitting.
    pub fn on_close_requested(&self) -> (r: Option<Message>)
        ensures
            r is Some <==> (self.document.dirty && !self.quitting),
            r matches Some(m) ==> m is RequestQuit,
    {
        if self.quitting || !self.document.dirty {
            None
        } else {
            Some(Message::RequestQuit)
        }
    }

    /// Closes the find/replace bar (on Escape).
    pub fn on_escape(&mut self)
        ensures
            final(self)@ == (ModelView {
                search: SearchView { active: false, ..old(self)@.search },
                ..old(self)@
            }),
    {
        self.search.active = false;
    }

    /// Handles a typed edit: starts a new undo step at run boundaries and
    /// coalesces edits within a run.
    fn edited(&mut self, kind: EditKind, after: Vec<u8>) -> (r: Vec<Effect>)
        requires
            old(self).wf(),
        ensures
            (final(self)@, r@) == old(self)@.next(Message::Edited(kind, after)),
    {
        let run = edit_run(kind);
        let was_dirty = self.document.dirty;
        if run == EditRun::Idle || run != self.undo_run {
            self.push_undo_snapshot();
        }
        self.undo_run = run;
        self.document.content = after;
        self.document.dirty = true;
        then_effects(one_effect(Effect::RenderMarkdown), title_effects(was_dirty, true))
    }

    /// Handles a re-read of the file after it changed on disk.
    fn external_content(&mut self, disk: Vec<u8>) -> (r: Vec<Effect>)
        ensures
            (final(self)@, r@) == old(self)@.next(Message::ExternalContent(Ok(disk))),
    {
        let a = normalized(disk.as_slice());
        let b = normalized(self.document.content.as_slice());
        if bytes_equal(&a, &b) {
            // No real change (e.g. our own save): ignore.
            no_effects()
        } else if self.document.dirty {
            self.dialog = Some(Dialog::ConflictReload(disk));
            no_effects()
        } else {
            self.load_contents(disk);
            buffer_replaced()
        }
    }

    /// Handles the pasted replacement of the current match.
    fn replaced_current(&mut self, after: Vec<u8>) -> (r: Vec<Effect>)
        requires
            old(self).wf(),
        ensures
            (final(self)@, r@) == old(self)@.next(Message::ReplacedCurrent(after)),
    {
        let was_dirty = self.document.dirty;
        self.change_to(after);
        self.recompute_matches();
        let first = then_effects(one_effect(Effect::RenderMarkdown), title_effects(was_dirty, true));
        then_effects(first, self.select_current_match())
    }

    /// Replaces every match of the query by the replacement text.
    fn replace_all(&mut self) -> (r: Vec<Effect>)
        requires
            old(self).wf(),
        ensures
            (final(self)@, r@) == old(self)@.next(Message::ReplaceAll),
    {
        if self.search.matches.len() == 0 {
            return no_effects();
        }
        let replaced = replace_all_exec(
            self.document.content.as_slice(),
            self.search.query.as_slice(),
            self.search.replacement.as_slice(),
        );
        let was_dirty = self.document.dirty;
        self.change_to(replaced);
        self.search.current = 0;
        self.recompute_matches();
        then_effects(buffer_replaced(), title_effects(was_dirty, true))
    }

    /// Restores the previous buffer snapshot.
    fn undo(&mut self) -> (r: Vec<Effect>)
        requires
            old(self).wf(),
        ensures
            (final(self)@, r@) == old(self)@.next(Message::Undo),
    {
        let ghost u = self.undo_stack@;
        match self.undo_stack.pop() {
            Some(previous) => {
                assert(stack_view(self.undo_stack@) =~= stack_view(u).drop_last());
                let ghost r0 = self.redo_stack@;
                let current = copy_bytes(&self.document.content);
                self.redo_stack.push(current);
                assert(stack_view(self.redo_stack@) =~= stack_view(r0).push(
                    self.document.content@,
                ));
                let was_dirty = self.document.dirty;
                self.document.content = previous;
                self.document.dirty = true;
                self.recompute_matches();
                self.undo_run = EditRun::Idle;
                then_effects(buffer_replaced(), title_effects(was_dirty, true))
            },
            None => no_effects(),
        }
    }

    /// Restores the next buffer snapshot after an undo.
    fn redo(&mut self) -> (r: Vec<Effect>)
        requires
            old(self).wf(),
        ensures
            (final(self)@, r@) == old(self)@.next(Message::Redo),
    {
        let ghost rs = self.redo_stack@;
        match self.redo_stack.pop() {
            Some(next) => {
                assert(stack_view(self.redo_stack@) =~= stack_view(rs).drop_last());
                let ghost u0 = self.undo_stack@;
                let current = copy_bytes(&self.document.content);
                self.undo_stack.push(current);
                assert(stack_view(self.undo_stack@) =~= stack_view(u0).push(
                    self.document.content@,
                ));
                let was_dirty = self.document.dirty;
                self.document.content = next;
                self.document.dirty = true;
                self.recompute_matches();
                self.undo_run = EditRun::Idle;
                then_effects(buffer_replaced(), title_effects(was_dirty, true))
            },
            None => no_effects(),
        }
    }

    /// Moves to the next match, wrapping around.
    fn find_next(&mut self) -> (r: Vec<Effect>)
        requires
            old(self).wf(),
        ensures
            (final(self)@, r@) == old(self)@.next(Message::FindNext),
    {
        let len = self.search.matches.len();
        if len > 0 {
            self.search.current = (self.search.current + 1) % len;
            self.select_current_match()
        } else {
            no_effects()
        }
    }

    /// Moves to the previous match, wrapping around.
    fn find_prev(&mut self) -> (r: Vec<Effect>)
        requires
            old(self).wf(),
        ensures
            (final(self)@, r@) == old(self)@.next(Message::FindPrev),
    {
        let len = self.search.matches.len();
        if len > 0 {
            let c = self.search.current;
            let ghost lenv = len as int;
            if c == 0 {
                assert((c + lenv - 1) % lenv == lenv - 1) by (nonlinear_arith)
                    requires
                        c == 0,
                        lenv > 0,
                ;
                self.search.current = len - 1;
            } else {
                assert((c + lenv - 1) % lenv == c - 1) by (nonlinear_arith)
                    requires
                        0 < c < lenv,
                ;
                self.search.current = c - 1;
            }
            self.select_current_match()
        } else {
            no_effects()
        }
    }
}


impl AppModel {
    /// Handles a message: updates the state and returns the effects the
    /// application must carry out, in order.
    #[verifier::spinoff_prover]
    #[verifier::rlimit(60)]
    pub fn update(&mut self, message: Message) -> (r: Vec<Effect>)
        requires
            old(self).wf(),
        ensures
            (final(self)@, r@) == old(self)@.next(message),
            final(self).wf(),
    {
        proof {
            law_update_keeps_invariant(self@, message);
        }
        match message {
            Message::LaunchUrl(url) => one_effect(Effect::OpenUrl(url)),
            Message::ToggleContextPage(page) => {
                if self.context_page == page {
                    // Close the context drawer if the toggled context page is the same.
                    self.show_context = !self.show_context;
                } else {
                    // Open the context drawer to display the requested context page.
                    self.context_page = page;
                    self.show_context = true;
                }
                no_effects()
            },
            Message::Moved => {
                self.undo_run = EditRun::Idle;
                no_effects()
            },
            Message::Edited(kind, after) => self.edited(kind, after),
            Message::Changed(after) => {
                let was_dirty = self.document.dirty;
                self.change_to(after);
                then_effects(one_effect(Effect::RenderMarkdown), title_effects(was_dirty, true))
            },
            Message::ReplacedCurrent(after) => self.replaced_current(after),
            Message::ToggleMode => {
                let mode = match self.document.mode {
                    Mode::Source => Mode::View,
                    Mode::View => Mode::Source,
                };
                self.document.mode = mode;
                match mode {
                    // Ensure the rendered View reflects the latest source buffer.
                    Mode::View => one_effect(Effect::RenderMarkdown),
                    // Focus the editor when entering Source so the user can type.
                    Mode::Source => one_effect(Effect::FocusEditor),
                }
            },
            Message::ToggleHeaderBar => {
                self.show_headerbar = !self.show_headerbar;
                no_effects()
            },
            Message::New => self.guard_or_perform(PendingAction::New),
            Message::OpenFile => self.guard_or_perform(PendingAction::Open),
            Message::FileOpened(path, contents) => {
                self.document.path = Some(path);
                self.document.mode = Mode::View;
                self.load_contents(contents);
                self.error = None;
                let r = vec![Effect::SetBuffer, Effect::RenderMarkdown, Effect::SetTitle];
                assert(r@ =~= seq![Effect::SetBuffer, Effect::RenderMarkdown, Effect::SetTitle]);
                r
            },
            Message::SaveFile => self.start_save(),
            Message::SaveFileAs => one_effect(Effect::SaveAsDialog),
            Message::FileSaved(path) => {
                self.document.path = Some(path);
                self.document.dirty = false;
                self.error = None;
                // If a save was requested as part of a pending action, continue it.
                match self.pending.take() {
                    // Starting a new document sets the title itself.
                    Some(PendingAction::New) => self.perform_pending(PendingAction::New),
                    Some(action) => {
                        let then = self.perform_pending(action);
                        then_effects(one_effect(Effect::SetTitle), then)
                    },
                    None => one_effect(Effect::SetTitle),
                }
            },
            Message::DialogCancelled => {
                // A pending save was cancelled; abort the deferred action.
                self.pending = None;
                no_effects()
            },
            Message::DialogError(why) => {
                self.pending = None;
                self.error = Some(why);
                no_effects()
            },
            Message::DismissError => {
                self.error = None;
                no_effects()
            },
            Message::RequestQuit => {
                self.dialog = Some(Dialog::ConfirmDiscard(PendingAction::Quit));
                no_effects()
            },
            Message::DialogSave => match self.dialog.take() {
                Some(Dialog::ConfirmDiscard(action)) => {
                    self.pending = Some(action);
                    self.start_save()
                },
                _ => no_effects(),
            },
            Message::DialogDiscard => match self.dialog.take() {
                Some(Dialog::ConfirmDiscard(action)) => self.perform_pending(action),
                _ => no_effects(),
            },
            // Dismiss the active dialog without taking action.
            Message::DialogCancel => {
                self.dialog = None;
                no_effects()
            },
            Message::KeepLocal => {
                self.dialog = None;
                no_effects()
            },
            Message::FileChangedOnDisk => {
                // Don't interrupt an open dialog; re-read the file otherwise.
                if self.dialog.is_none() && self.document.path.is_some() {
                    one_effect(Effect::ReadExternal)
                } else {
                    no_effects()
                }
            },
            Message::ExternalContent(result) => match result {
                Ok(disk) => self.external_content(disk),
                // A transient read failure (e.g. the file was momentarily
                // removed during an atomic save) is ignored.
                Err(_) => no_effects(),
            },
            Message::ReloadFromDisk => match self.dialog.take() {
                Some(Dialog::ConflictReload(contents)) => {
                    let was_dirty = self.document.dirty;
                    self.load_contents(contents);
                    then_effects(buffer_replaced(), title_effects(was_dirty, false))
                },
                _ => no_effects(),
            },
            Message::Copy(selection) => match selection {
                Some(t) => one_effect(Effect::WriteClipboard(t)),
                None => no_effects(),
            },
            Message::Cut(selection) => match selection {
                Some(t) => {
                    let r = vec![Effect::DeleteSelection, Effect::WriteClipboard(t)];
                    assert(r@ =~= seq![Effect::DeleteSelection, Effect::WriteClipboard(t)]);
                    r
                },
                None => no_effects(),
            },
            Message::Paste => one_effect(Effect::ReadClipboard),
            Message::Pasted(contents) => match contents {
                Some(t) => one_effect(Effect::PasteText(t)),
                None => no_effects(),
            },
            Message::SelectAll => one_effect(Effect::SelectAll),
            Message::FindOpen => {
                // Toggle off when already showing the find-only bar; otherwise
                // open/switch to find (collapsing the replace row).
                if self.search.active && !self.search.show_replace {
                    self.search.active = false;
                    no_effects()
                } else {
                    let sel = self.open_search(false);
                    then_effects(sel, one_effect(Effect::FocusFind))
                }
            },
            Message::ReplaceOpen => {
                // Toggle off when already showing replace; otherwise open/switch
                // to the replace bar.
                if self.search.active && self.search.show_replace {
                    self.search.active = false;
                    no_effects()
                } else {
                    let sel = self.open_search(true);
                    then_effects(sel, one_effect(Effect::FocusFind))
                }
            },
            Message::FindClose => {
                self.search.active = false;
                no_effects()
            },
            Message::FindQueryChanged(query) => {
                self.search.query = query;
                self.search.current = 0;
                self.recompute_matches();
                self.select_current_match()
            },
            Message::ReplacementChanged(replacement) => {
                self.search.replacement = replacement;
                no_effects()
            },
            Message::FindNext => self.find_next(),
            Message::FindPrev => self.find_prev(),
            Message::ReplaceCurrent => {
                if self.search.matches.len() > 0 {
                    then_effects(self.select_current_match(), one_effect(Effect::PasteReplacement))
                } else {
                    no_effects()
                }
            },
            Message::ReplaceAll => self.replace_all(),
            Message::Undo => self.undo(),
            Message::Redo => self.redo(),
            Message::ZoomIn => {
                self.zoom = if self.zoom + ZOOM_STEP > ZOOM_MAX {
                    ZOOM_MAX
                } else {
                    self.zoom + ZOOM_STEP
                };
                no_effects()
            },
            Message::ZoomOut => {
                self.zoom = if self.zoom - ZOOM_STEP < ZOOM_MIN {
                    ZOOM_MIN
                } else {
                    self.zoom - ZOOM_STEP
                };
                no_effects()
            },
            Message::ZoomReset => {
                self.zoom = 0;
                no_effects()
            },
        }
    }
}


/// What the find bar shows next to the query.
#[derive(Clone, Copy, Debug, PartialEq, Eq, Structural)]
pub enum MatchCount {
    /// Nothing: the query is empty.
    Blank,
    /// The query occurs nowhere.
    NoMatches,
    /// The active match's 1-based position among all matches.
    Position { current: usize, total: usize },
}

/// The message a menu action sends, given the editor's current selection.
pub open spec fn action_message(a: MenuAction, selection: Option<String>) -> Message {
    match a {
        MenuAction::About => Message::ToggleContextPage(ContextPage::About),
        MenuAction::New => Message::New,
        MenuAction::Open => Message::OpenFile,
        MenuAction::Save => Message::SaveFile,
        MenuAction::SaveAs => Message::SaveFileAs,
        MenuAction::Undo => Message::Undo,
        MenuAction::Redo => Message::Redo,
        MenuAction::Cut => Message::Cut(selection),
        MenuAction::Copy => Message::Copy(selection),
        MenuAction::Paste => Message::Paste,
        MenuAction::SelectAll => Message::SelectAll,
        MenuAction::Find => Message::FindOpen,
        MenuAction::Replace => Message::ReplaceOpen,
        MenuAction::ToggleMode => Message::ToggleMode,
        MenuAction::ToggleHeaderBar => Message::ToggleHeaderBar,
        MenuAction::ZoomIn => Message::ZoomIn,
        MenuAction::ZoomOut => Message::ZoomOut,
        MenuAction::ZoomReset => Message::ZoomReset,
    }
}

impl MenuAction {
    /// The message this action sends. Cut and Copy act on the editor's
    /// selection, which the editor holds and passes in.
    pub fn message(&self, selection: Option<String>) -> (r: Message)
        ensures
            r == action_message(*self, selection),
    {
        match self {
            MenuAction::About => Message::ToggleContextPage(ContextPage::About),
            MenuAction::New => Message::New,
            MenuAction::Open => Message::OpenFile,
            MenuAction::Save => Message::SaveFile,
            MenuAction::SaveAs => Message::SaveFileAs,
            MenuAction::Undo => Message::Undo,
            MenuAction::Redo => Message::Redo,
            MenuAction::Cut => Message::Cut(selection),
            MenuAction::Copy => Message::Copy(selection),
            MenuAction::Paste => Message::Paste,
            MenuAction::SelectAll => Message::SelectAll,
            MenuAction::Find => Message::FindOpen,
            MenuAction::Replace => Message::ReplaceOpen,
            MenuAction::ToggleMode => Message::ToggleMode,
            MenuAction::ToggleHeaderBar => Message::ToggleHeaderBar,
            MenuAction::ZoomIn => Message::ZoomIn,
            MenuAction::ZoomOut => Message::ZoomOut,
            MenuAction::ZoomReset => Message::ZoomReset,
        }
    }
}

impl AppModel {
    /// Edit-menu actions operate on the Source editor: enabled only there.
    pub fn edit_actions_enabled(&self) -> (r: bool)
        ensures
            r == (self.document.mode == Mode::Source),
    {
        self.document.mode == Mode::Source
    }

    /// Undo is offered in Source mode when there is history to undo.
    pub fn undo_enabled(&self) -> (r: bool)
        ensures
            r == (self.document.mode == Mode::Source && self.undo_stack@.len() > 0),
    {
        self.document.mode == Mode::Source && self.undo_stack.len() > 0
    }

    /// Redo is offered in Source mode when there is undone history.
    pub fn redo_enabled(&self) -> (r: bool)
        ensures
            r == (self.document.mode == Mode::Source && self.redo_stack@.len() > 0),
    {
        self.document.mode == Mode::Source && self.redo_stack.len() > 0
    }

    /// The find bar is shown while searching in Source mode.
    pub fn find_bar_visible(&self) -> (r: bool)
        ensures
            r == (self.search.active && self.document.mode == Mode::Source),
    {
        self.search.active && self.document.mode == Mode::Source
    }

    /// The text highlighted in the editor: the query while the find bar is
    /// open, nothing otherwise.
    pub fn highlight_query(&self) -> (r: Vec<u8>)
        ensures
            r@ == (if self.search.active {
                self.search.query@
            } else {
                Seq::<u8>::empty()
            }),
    {
        if self.search.active {
            copy_bytes(&self.search.query)
        } else {
            Vec::new()
        }
    }

    /// What the find bar shows next to the query.
    pub fn match_count(&self) -> (r: MatchCount)
        requires
            self.wf(),
        ensures
            self.search.query@.len() == 0 ==> r == MatchCount::Blank,
            self.search.query@.len() > 0 && self.search.matches@.len() == 0 ==> r
                == MatchCount::NoMatches,
            self.search.query@.len() > 0 && self.search.matches@.len() > 0 ==> r
                == (MatchCount::Position {
                current: (self.search.current + 1) as usize,
                total: self.search.matches@.len() as usize,
            }),
    {
        if self.search.query.len() == 0 {
            MatchCount::Blank
        } else if self.search.matches.len() > 0 {
            MatchCount::Position {
                current: self.search.current + 1,
                total: self.search.matches.len(),
            }
        } else {
            MatchCount::NoMatches
        }
    }

    /// Previous/Next are offered when there are matches.
    pub fn can_navigate_matches(&self) -> (r: bool)
        ensures
            r == (self.search.matches@.len() > 0),
    {
        self.search.matches.len() > 0
    }

    /// Replace and Replace All are offered when a non-empty query has matches.
    pub fn can_replace(&self) -> (r: bool)
        ensures
            r == (self.search.matches@.len() > 0 && self.search.query@.len() > 0),
    {
        self.search.matches.len() > 0 && self.search.query.len() > 0
    }

    /// The Source editor's text size in pixels, zoom included.
    pub fn editor_text_size(&self) -> (r: i32)
        requires
            self.wf(),
        ensures
            r == EDITOR_TEXT_SIZE + self.zoom,
    {
        EDITOR_TEXT_SIZE + self.zoom
    }

    /// The rendered View's body text size in pixels, zoom included.
    pub fn view_text_size(&self) -> (r: i32)
        requires
            self.wf(),
        ensures
            r == VIEW_TEXT_SIZE + self.zoom,
    {
        VIEW_TEXT_SIZE + self.zoom
    }
}


/// The separator between the application's name and the file name: " — ".
pub open spec fn title_separator() -> Seq<u8> {
    seq![0x20u8, 0xE2u8, 0x80u8, 0x94u8, 0x20u8]
}

/// The marker shown before the file name while there are unsaved changes.
pub open spec fn dirty_marker(dirty: bool) -> Seq<u8> {
    if dirty {
        seq![0x2Au8]
    } else {
        seq![]
    }
}

/// The window title: the application's (localized) name, then the open
/// file's name when the document has one; an unsaved-changes marker "*"
/// stands before the file name (`*name.md`), or before the application's name
/// for an untitled document.
pub open spec fn title_text(app_title: Seq<u8>, file_name: Option<Seq<u8>>, dirty: bool) -> Seq<
    u8,
> {
    match file_name {
        Some(name) => app_title + title_separator() + dirty_marker(dirty) + name,
        None => dirty_marker(dirty) + app_title,
    }
}

/// An optional byte slice as an optional sequence.
pub open spec fn opt_slice(o: Option<&[u8]>) -> Option<Seq<u8>> {
    match o {
        Some(s) => Some(s@),
        None => None,
    }
}

/// Appends `bytes` to `out`.
fn append_bytes(out: &mut Vec<u8>, bytes: &[u8])
    ensures
        final(out)@ == old(out)@ + bytes@,
{
    let ghost start = out@;
    let mut i: usize = 0;
    while i < bytes.len()
        invariant
            i <= bytes@.len(),
            out@ == start + bytes@.take(i as int),
        decreases bytes@.len() - i,
    {
        out.push(bytes[i]);
        i = i + 1;
        assert(out@ =~= start + bytes@.take(i as int));
    }
    assert(bytes@.take(bytes@.len() as int) =~= bytes@);
}

/// The window title for the application's name, the open file's name (if
/// the document has a path) and whether there are unsaved changes.
pub fn window_title(app_title: &[u8], file_name: Option<&[u8]>, dirty: bool) -> (r: Vec<u8>)
    ensures
        r@ == title_text(app_title@, opt_slice(file_name), dirty),
{
    let mut out: Vec<u8> = Vec::new();
    let marker: [u8; 1] = [0x2Au8];
    match file_name {
        Some(name) => {
            let separator: [u8; 5] = [0x20u8, 0xE2u8, 0x80u8, 0x94u8, 0x20u8];
            append_bytes(&mut out, app_title);
            append_bytes(&mut out, &separator);
            assert(separator@ =~= title_separator());
            if dirty {
                append_bytes(&mut out, &marker);
                assert(marker@ =~= dirty_marker(dirty));
            } else {
                assert(out@ + dirty_marker(dirty) =~= out@);
            }
            append_bytes(&mut out, name);
            assert(out@ =~= Seq::<u8>::empty() + app_title@ + title_separator() + dirty_marker(dirty)
                + name@);
            assert(Seq::<u8>::empty() + app_title@ =~= app_title@);
        },
        None => {
            if dirty {
                append_bytes(&mut out, &marker);
                assert(marker@ =~= dirty_marker(dirty));
            }
            append_bytes(&mut out, app_title);
            assert(out@ =~= dirty_marker(dirty) + app_title@);
        },
    }
    out
}

impl AppModel {
    /// The window title for this state, given the application's (localized)
    /// name and the file name of the document's path: marked with "*" while
    /// there are unsaved changes.
    pub fn update_title(&self, app_title: &[u8], file_name: Option<&[u8]>) -> (r: Vec<u8>)
        ensures
            r@ == title_text(app_title@, opt_slice(file_name), self.document.dirty),
    {
        window_title(app_title, file_name, self.document.dirty)
    }
}
} // verus!
