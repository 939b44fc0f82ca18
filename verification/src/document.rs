//! The open document and the modal state around it.
use vstd::prelude::*;

use crate::line_ending::LineEnding;

verus! {

/// Which representation of the document is currently shown.
#[derive(Clone, Copy, Debug, PartialEq, Eq, Structural)]
pub enum Mode {
    /// Raw Markdown source, edited in a text editor.
    Source,
    /// Read-only rendered output.
    View,
}

/// An action deferred until the user resolves unsaved changes.
#[derive(Clone, Copy, Debug, PartialEq, Eq, Structural)]
pub enum PendingAction {
    /// Start a new, empty document.
    New,
    /// Prompt for a file to open.
    Open,
    /// Close the application.
    Quit,
}

/// A modal dialog shown over the application.
#[derive(Debug, PartialEq, Eq)]
pub enum Dialog {
    /// Confirm discarding unsaved changes before performing the pending action.
    ConfirmDiscard(PendingAction),
    /// The open file changed on disk while there are unsaved local edits;
    /// holds the on-disk contents to load if the user chooses to.
    ConflictReload(Vec<u8>),
}

/// A dialog as a mathematical value.
#[verifier::ext_equal]
pub enum DialogView {
    /// See [`Dialog::ConfirmDiscard`].
    ConfirmDiscard(PendingAction),
    /// See [`Dialog::ConflictReload`].
    ConflictReload(Seq<u8>),
}

impl View for Dialog {
    type V = DialogView;

    open spec fn view(&self) -> DialogView {
        match self {
            Dialog::ConfirmDiscard(a) => DialogView::ConfirmDiscard(*a),
            Dialog::ConflictReload(c) => DialogView::ConflictReload(c@),
        }
    }
}

/// The currently open document.
#[derive(Debug)]
pub struct Document {
    /// On-disk location (its bytes), or `None` for a new unsaved document.
    pub path: Option<Vec<u8>>,
    /// The Markdown source buffer, as UTF-8 bytes.
    pub content: Vec<u8>,
    /// Whether the buffer has unsaved changes.
    pub dirty: bool,
    /// The active view mode.
    pub mode: Mode,
    /// The line-ending convention to write back on save.
    pub line_ending: LineEnding,
}

/// A document as a mathematical value.
#[verifier::ext_equal]
pub struct DocumentView {
    /// See [`Document::path`].
    pub path: Option<Seq<u8>>,
    /// See [`Document::content`].
    pub content: Seq<u8>,
    /// See [`Document::dirty`].
    pub dirty: bool,
    /// See [`Document::mode`].
    pub mode: Mode,
    /// See [`Document::line_ending`].
    pub line_ending: LineEnding,
}

/// An optional byte vector as an optional sequence.
pub open spec fn opt_bytes(o: Option<Vec<u8>>) -> Option<Seq<u8>> {
    match o {
        Some(v) => Some(v@),
        None => None,
    }
}

impl View for Document {
    type V = DocumentView;

    open spec fn view(&self) -> DocumentView {
        DocumentView {
            path: opt_bytes(self.path),
            content: self.content@,
            dirty: self.dirty,
            mode: self.mode,
            line_ending: self.line_ending,
        }
    }
}

/// The document a new session starts with: untitled, empty, clean, in Source
/// mode, with `\n` line endings.
pub open spec fn fresh_document() -> DocumentView {
    DocumentView {
        path: None,
        content: seq![],
        dirty: false,
        mode: Mode::Source,
        line_ending: LineEnding::Lf,
    }
}

impl Document {
    /// A new untitled, empty document.
    pub fn new() -> (d: Document)
        ensures
            d@ == fresh_document(),
    {
        Document {
            path: None,
            content: Vec::new(),
            dirty: false,
            mode: Mode::Source,
            line_ending: LineEnding::Lf,
        }
    }
}

impl Default for Document {
    fn default() -> (d: Document)
        ensures
            d@ == fresh_document(),
    {
        Document::new()
    }
}

} // verus!
