//! Properties of the application's transitions that span several messages.
use vstd::prelude::*;

use crate::document::{DialogView, DocumentView, Mode, PendingAction};
use crate::model::{Effect, EditKind, Message, ModelView};
use crate::document;
use crate::line_ending;
use crate::model;
use crate::search;
use crate::text;
use crate::utf8_text;

verus! {

/// The application's own save is not an external change: reading back
/// exactly the bytes a save wrote leaves the state untouched and does nothing.
pub proof fn law_own_save_is_not_an_external_change(v: ModelView, written: Vec<u8>)
    requires
        written@ == v.save_bytes(),
    ensures
        v.next(Message::ExternalContent(Ok(written))) == (v, Seq::<Effect>::empty()),
{
    line_ending::law_apply_preserves_content(v.document.line_ending, v.document.content);
}

/// An external change to a document without unsaved edits reloads it: the
/// buffer becomes the disk contents, clean, with their line-ending convention.
pub proof fn law_clean_document_reloads_external_change(v: ModelView, disk: Vec<u8>)
    requires
        !v.document.dirty,
        text::normalize_newlines(disk@) != text::normalize_newlines(v.document.content),
    ensures
        ({
            let (s, e) = v.next(Message::ExternalContent(Ok(disk)));
            &&& s.document.content == disk@
            &&& !s.document.dirty
            &&& s.document.line_ending == line_ending::LineEnding::detected(disk@)
            &&& s.document.path == v.document.path
            &&& e == seq![Effect::SetBuffer, Effect::RenderMarkdown]
        }),
{
}

/// An external change to a document with unsaved edits never touches the
/// edits: the user is asked whether to keep them or load the disk version.
pub proof fn law_dirty_document_prompts_on_external_change(v: ModelView, disk: Vec<u8>)
    requires
        v.document.dirty,
        text::normalize_newlines(disk@) != text::normalize_newlines(v.document.content),
    ensures
        ({
            let (s, e) = v.next(Message::ExternalContent(Ok(disk)));
            &&& s.document == v.document
            &&& s.dialog == Some(DialogView::ConflictReload(disk@))
            &&& e.len() == 0
        }),
{
}

/// Keeping local edits in the conflict prompt leaves the buffer as it was;
/// loading from disk replaces it with the disk version, clean.
pub proof fn law_conflict_choices(v: ModelView, disk: Seq<u8>)
    requires
        v.dialog == Some(DialogView::ConflictReload(disk)),
    ensures
        v.next(Message::KeepLocal).0.document == v.document,
        v.next(Message::KeepLocal).0.dialog is None,
        v.next(Message::ReloadFromDisk).0.document.content == disk,
        !v.next(Message::ReloadFromDisk).0.document.dirty,
        v.next(Message::ReloadFromDisk).0.dialog is None,
{
}

/// With unsaved changes, New, Open and Quit never discard them: the document
/// stays as it is and the user is asked to save, discard or cancel.
pub proof fn law_unsaved_changes_are_guarded(v: ModelView)
    requires
        v.document.dirty,
    ensures
        v.next(Message::New) == (ModelView {
            dialog: Some(DialogView::ConfirmDiscard(PendingAction::New)),
            ..v
        }, Seq::<Effect>::empty()),
        v.next(Message::OpenFile) == (ModelView {
            dialog: Some(DialogView::ConfirmDiscard(PendingAction::Open)),
            ..v
        }, Seq::<Effect>::empty()),
        v.next(Message::RequestQuit) == (ModelView {
            dialog: Some(DialogView::ConfirmDiscard(PendingAction::Quit)),
            ..v
        }, Seq::<Effect>::empty()),
{
}

/// Without unsaved changes, New starts an untitled, empty, clean document in
/// Source mode at once, and Open goes straight to the file dialog.
pub proof fn law_clean_document_is_replaced_at_once(v: ModelView)
    requires
        !v.document.dirty,
    ensures
        v.next(Message::New).0.document == document::fresh_document(),
        v.next(Message::New).0.document.mode == Mode::Source,
        v.next(Message::New).0.undo.len() == 0,
        v.next(Message::OpenFile) == (v, seq![Effect::OpenFileDialog]),
{
}

/// Choosing Save in the unsaved-changes prompt saves first and carries out
/// the deferred action once the save completes; Cancel does neither.
pub proof fn law_save_then_continue(v: ModelView, a: PendingAction, path: Vec<u8>)
    requires
        v.dialog == Some(DialogView::ConfirmDiscard(a)),
    ensures
        ({
            let (s1, e1) = v.next(Message::DialogSave);
            let (s2, e2) = s1.next(Message::FileSaved(path));
            let saved = ModelView {
                document: DocumentView { path: Some(path@), dirty: false, ..s1.document },
                error: None,
                pending: None,
                ..s1
            };
            &&& s1.pending == Some(a)
            &&& s1.dialog is None
            &&& e1 == v.save_effects()
            &&& s2.pending is None
            &&& s2 == saved.performed(a).0
            &&& e2 == (if a == PendingAction::New {
                saved.performed(a).1
            } else {
                seq![Effect::SetTitle] + saved.performed(a).1
            })
        }),
        v.next(Message::DialogCancel).0.document == v.document,
        v.next(Message::DialogCancel).1.len() == 0,
{
}

/// Choosing Discard carries out the deferred action at once.
pub proof fn law_discard_then_continue(v: ModelView, a: PendingAction)
    requires
        v.dialog == Some(DialogView::ConfirmDiscard(a)),
    ensures
        v.next(Message::DialogDiscard) == (ModelView { dialog: None, ..v }).performed(a),
        a == PendingAction::New ==> v.next(Message::DialogDiscard).0.document
            == document::fresh_document(),
        a == PendingAction::Quit ==> v.next(Message::DialogDiscard).0.quitting,
{
}

/// Undo restores the buffer from before an edit, and Redo brings the edit back.
pub proof fn law_undo_redo_round_trip(v: ModelView, after: Vec<u8>)
    requires
        v.wf(),
    ensures
        ({
            let s1 = v.next(Message::Changed(after)).0;
            let s2 = s1.next(Message::Undo).0;
            let s3 = s2.next(Message::Redo).0;
            &&& s1.document.content == after@
            &&& s2.document.content == v.document.content
            &&& s3.document.content == after@
        }),
{
    let s1 = v.next(Message::Changed(after)).0;
    assert(s1.undo.len() > 0);
    assert(s1.undo.last() == v.document.content);
}

/// Undo restores the buffer from before a typed edit that starts a new step.
pub proof fn law_undo_after_typing(v: ModelView, kind: EditKind, after: Vec<u8>)
    requires
        v.wf(),
        model::run_of(kind) != v.undo_run || model::run_of(kind) == model::EditRun::Idle,
    ensures
        v.next(Message::Edited(kind, after)).0.next(Message::Undo).0.document.content
            == v.document.content,
{
    let s1 = v.next(Message::Edited(kind, after)).0;
    assert(s1.undo.len() > 0);
    assert(s1.undo.last() == v.document.content);
}

/// Moving to the next match and back returns to the same match.
pub proof fn law_find_next_then_prev(v: ModelView)
    requires
        v.wf(),
        v.search.matches.len() > 0,
    ensures
        v.next(Message::FindNext).0.next(Message::FindPrev).0.search.current == v.search.current,
{
    let len = v.search.matches.len() as int;
    let c = v.search.current;
    let n = (c + 1) % len;
    assert(0 <= n < len && (n + len - 1) % len == c) by (nonlinear_arith)
        requires
            0 <= c < len,
            n == (c + 1) % len,
    ;
}

/// Every match found for a query is an occurrence of the query on its line.
pub proof fn law_matches_are_occurrences(v: ModelView, q: Vec<u8>)
    ensures
        ({
            let s = v.next(Message::FindQueryChanged(q)).0;
            let ls = search::lines(v.document.content);
            forall|k: int|
                0 <= k < s.search.matches.len() ==> {
                    let m = #[trigger] search::all_matches(v.document.content, q@)[k];
                    &&& 0 <= m.0 < ls.len()
                    &&& text::occurs_at(ls[m.0], q@, m.1)
                    &&& m.2 == m.1 + q@.len()
                }
        }),
{
    lemma_matches_in_are_occurrences(search::lines(v.document.content), q@);
}

/// The triples of a line's matches are occurrences at or after `from`.
proof fn lemma_line_matches_are_occurrences(line: Seq<u8>, q: Seq<u8>, from: int)
    ensures
        forall|k: int|
            0 <= k < search::line_matches(line, q, from).len() ==> {
                let m = #[trigger] search::line_matches(line, q, from)[k];
                &&& text::occurs_at(line, q, m.0)
                &&& m.1 == m.0 + q.len()
            },
    decreases line.len() - from,
{
    if q.len() == 0 || from < 0 || from + q.len() > line.len() {
    } else if text::occurs_at(line, q, from) {
        lemma_line_matches_are_occurrences(line, q, from + q.len());
        let rest = search::line_matches(line, q, from + q.len());
        assert forall|k: int| 0 <= k < search::line_matches(line, q, from).len() implies {
            let m = #[trigger] search::line_matches(line, q, from)[k];
            &&& text::occurs_at(line, q, m.0)
            &&& m.1 == m.0 + q.len()
        } by {
            if k > 0 {
                assert(search::line_matches(line, q, from)[k] == rest[k - 1]);
            } else {
                assert(search::line_matches(line, q, from)[0] == (from, from + q.len()));
            }
        }
    } else {
        lemma_line_matches_are_occurrences(line, q, from + 1);
        assert(search::line_matches(line, q, from) == search::line_matches(line, q, from + 1));
    }
}

/// The matches of a sequence of lines are occurrences on their lines.
proof fn lemma_matches_in_are_occurrences(ls: Seq<Seq<u8>>, q: Seq<u8>)
    ensures
        forall|k: int|
            0 <= k < search::matches_in(ls, q).len() ==> {
                let m = #[trigger] search::matches_in(ls, q)[k];
                &&& 0 <= m.0 < ls.len()
                &&& text::occurs_at(ls[m.0], q, m.1)
                &&& m.2 == m.1 + q.len()
            },
    decreases ls.len(),
{
    if ls.len() > 0 {
        let init = ls.drop_last();
        lemma_matches_in_are_occurrences(init, q);
        let last = search::line_matches(ls.last(), q, 0);
        lemma_line_matches_are_occurrences(ls.last(), q, 0);
        let head = search::matches_in(init, q);
        let tail = search::tagged(ls.len() - 1, last);
        assert forall|k: int| 0 <= k < search::matches_in(ls, q).len() implies {
            let m = #[trigger] search::matches_in(ls, q)[k];
            &&& 0 <= m.0 < ls.len()
            &&& text::occurs_at(ls[m.0], q, m.1)
            &&& m.2 == m.1 + q.len()
        } by {
            if k < head.len() {
                assert(search::matches_in(ls, q)[k] == head[k]);
                assert(ls[head[k].0] == init[head[k].0]);
            } else {
                assert(search::matches_in(ls, q)[k] == tail[k - head.len()]);
                assert(last[k - head.len()] == last[k - head.len()]);
            }
        }
    }
}

/// Replacing every match by the query itself leaves the buffer's text as it was.
pub proof fn law_replace_all_with_query_keeps_text(v: ModelView)
    requires
        v.search.replacement == v.search.query,
    ensures
        v.next(Message::ReplaceAll).0.document.content == v.document.content,
{
    text::lemma_replace_with_itself(v.document.content, v.search.query);
}

/// Replace All leaves the text as it was when the query no longer occurs in
/// it (the matches were found before the buffer changed).
pub proof fn law_replace_all_absent_query_keeps_text(v: ModelView)
    requires
        forall|i: int| !text::occurs_at(v.document.content, v.search.query, i),
    ensures
        v.next(Message::ReplaceAll).0.document.content == v.document.content,
{
    text::lemma_replace_absent(v.document.content, v.search.query, v.search.replacement);
}

/// Toggling the mode twice returns to the starting mode; entering Source
/// focuses the editor and entering View renders the buffer.
pub proof fn law_toggle_mode_twice(v: ModelView)
    ensures
        v.next(Message::ToggleMode).0.next(Message::ToggleMode).0.document.mode == v.document.mode,
        v.document.mode == Mode::Source ==> v.next(Message::ToggleMode).1 == seq![
            Effect::RenderMarkdown,
        ],
        v.document.mode == Mode::View ==> v.next(Message::ToggleMode).1 == seq![
            Effect::FocusEditor,
        ],
{
}

/// An opened file is shown rendered (View mode), clean, with its contents
/// and line-ending convention.
pub proof fn law_opened_file_is_shown_rendered(v: ModelView, path: Vec<u8>, contents: Vec<u8>)
    ensures
        ({
            let s = v.next(Message::FileOpened(path, contents)).0;
            &&& s.document.mode == Mode::View
            &&& s.document.content == contents@
            &&& s.document.path == Some(path@)
            &&& !s.document.dirty
            &&& s.document.line_ending == line_ending::LineEnding::detected(contents@)
            &&& s.undo.len() == 0 && s.redo.len() == 0
        }),
{
}

/// Zooming in then out returns to the same size away from the upper bound,
/// and a reset always returns to the base size.
pub proof fn law_zoom_in_then_out(v: ModelView)
    requires
        v.wf(),
        v.zoom + model::ZOOM_STEP <= model::ZOOM_MAX,
    ensures
        v.next(Message::ZoomIn).0.next(Message::ZoomOut).0.zoom == v.zoom,
        v.next(Message::ZoomReset).0.zoom == 0,
{
}


/// The rendered View always follows the buffer: every transition that
/// changes the buffer also re-renders it.
#[verifier::spinoff_prover]
#[verifier::rlimit(60)]
pub proof fn law_view_follows_buffer(v: ModelView, m: Message)
    ensures
        v.next(m).0.document.content != v.document.content ==> v.next(m).1.contains(
            Effect::RenderMarkdown,
        ),
{
    match m {
        Message::LaunchUrl(_) => {},
        Message::ToggleContextPage(_) => {},
        Message::Moved => {},
        Message::Edited(_, _) => {
            assert(v.next(m).1[0] == Effect::RenderMarkdown);
        },
        Message::Changed(_) => {
            assert(v.next(m).1.len() > 0 ==> v.next(m).1[0] == Effect::RenderMarkdown || v.next(m).1[1] == Effect::RenderMarkdown);
        },
        Message::ReplacedCurrent(_) => {
            assert(v.next(m).1.len() > 0 ==> v.next(m).1[0] == Effect::RenderMarkdown || v.next(m).1[1] == Effect::RenderMarkdown);
        },
        Message::ToggleMode => {},
        Message::ToggleHeaderBar => {},
        Message::New => {},
        Message::OpenFile => {},
        Message::FileOpened(_, _) => {},
        Message::SaveFile => {},
        Message::SaveFileAs => {},
        Message::FileSaved(_) => {},
        Message::DialogCancelled => {},
        Message::DialogError(_) => {},
        Message::DismissError => {},
        Message::RequestQuit => {},
        Message::DialogSave => {},
        Message::DialogDiscard => {},
        Message::DialogCancel => {},
        Message::KeepLocal => {},
        Message::FileChangedOnDisk => {},
        Message::ExternalContent(_) => {},
        Message::ReloadFromDisk => {
            assert(v.next(m).1.len() > 0 ==> v.next(m).1[0] == Effect::RenderMarkdown || v.next(m).1[1] == Effect::RenderMarkdown);
        },
        Message::Copy(_) => {},
        Message::Cut(_) => {},
        Message::Paste => {},
        Message::Pasted(_) => {},
        Message::SelectAll => {},
        Message::FindOpen => {},
        Message::ReplaceOpen => {},
        Message::FindClose => {},
        Message::FindQueryChanged(_) => {},
        Message::ReplacementChanged(_) => {},
        Message::FindNext => {},
        Message::FindPrev => {},
        Message::ReplaceCurrent => {},
        Message::ReplaceAll => {
            assert(v.next(m).1.len() > 0 ==> v.next(m).1[0] == Effect::RenderMarkdown || v.next(m).1[1] == Effect::RenderMarkdown);
        },
        Message::Undo => {
            assert(v.next(m).1.len() > 0 ==> v.next(m).1[0] == Effect::RenderMarkdown || v.next(m).1[1] == Effect::RenderMarkdown);
        },
        Message::Redo => {
            assert(v.next(m).1.len() > 0 ==> v.next(m).1[0] == Effect::RenderMarkdown || v.next(m).1[1] == Effect::RenderMarkdown);
        },
        Message::ZoomIn => {},
        Message::ZoomOut => {},
        Message::ZoomReset => {},
    }
}

/// The editor always shows the buffer: every transition that changes the
/// buffer other than by reporting the editor's own edit tells the editor to
/// take the new buffer.
#[verifier::spinoff_prover]
#[verifier::rlimit(60)]
pub proof fn law_editor_follows_buffer(v: ModelView, m: Message)
    ensures
        v.next(m).0.document.content != v.document.content ==> (m is Edited || m is Changed
            || m is ReplacedCurrent || v.next(m).1.contains(Effect::SetBuffer)),
{
    match m {
        Message::LaunchUrl(_) => {},
        Message::ToggleContextPage(_) => {},
        Message::Moved => {},
        Message::Edited(_, _) => {},
        Message::Changed(_) => {},
        Message::ReplacedCurrent(_) => {},
        Message::ToggleMode => {},
        Message::ToggleHeaderBar => {},
        Message::New => {},
        Message::OpenFile => {},
        Message::FileOpened(_, _) => {},
        Message::SaveFile => {},
        Message::SaveFileAs => {},
        Message::FileSaved(_) => {},
        Message::DialogCancelled => {},
        Message::DialogError(_) => {},
        Message::DismissError => {},
        Message::RequestQuit => {},
        Message::DialogSave => {},
        Message::DialogDiscard => {},
        Message::DialogCancel => {},
        Message::KeepLocal => {},
        Message::FileChangedOnDisk => {},
        Message::ExternalContent(_) => {},
        Message::ReloadFromDisk => {
            assert(v.next(m).1.len() > 0 ==> v.next(m).1[0] == Effect::SetBuffer);
        },
        Message::Copy(_) => {},
        Message::Cut(_) => {},
        Message::Paste => {},
        Message::Pasted(_) => {},
        Message::SelectAll => {},
        Message::FindOpen => {},
        Message::ReplaceOpen => {},
        Message::FindClose => {},
        Message::FindQueryChanged(_) => {},
        Message::ReplacementChanged(_) => {},
        Message::FindNext => {},
        Message::FindPrev => {},
        Message::ReplaceCurrent => {},
        Message::ReplaceAll => {
            assert(v.next(m).1.len() > 0 ==> v.next(m).1[0] == Effect::SetBuffer);
        },
        Message::Undo => {
            assert(v.next(m).1.len() > 0 ==> v.next(m).1[0] == Effect::SetBuffer);
        },
        Message::Redo => {
            assert(v.next(m).1.len() > 0 ==> v.next(m).1[0] == Effect::SetBuffer);
        },
        Message::ZoomIn => {},
        Message::ZoomOut => {},
        Message::ZoomReset => {},
    }
}

/// Runs of typing coalesce: a non-whitespace character typed while a run of
/// typing is in progress records no new undo step.
pub proof fn law_typing_run_coalesces(v: ModelView, c: char, after: Vec<u8>)
    requires
        !model::is_whitespace(c),
        v.undo_run == model::EditRun::Insert,
    ensures
        v.next(Message::Edited(EditKind::Insert(c), after)).0.undo == v.undo,
        v.next(Message::Edited(EditKind::Insert(c), after)).0.redo == v.redo,
{
}

/// Ctrl+F and Ctrl+H close the bar when it already shows that mode, and
/// otherwise open it in that mode, in Source mode.
pub proof fn law_find_bar_toggles(v: ModelView)
    ensures
        v.search.active && !v.search.show_replace ==> !v.next(Message::FindOpen).0.search.active,
        v.search.active && v.search.show_replace ==> !v.next(Message::ReplaceOpen).0.search.active,
        !(v.search.active && !v.search.show_replace) ==> {
            let s = v.next(Message::FindOpen).0;
            s.search.active && !s.search.show_replace && s.document.mode == Mode::Source
        },
        !(v.search.active && v.search.show_replace) ==> {
            let s = v.next(Message::ReplaceOpen).0;
            s.search.active && s.search.show_replace && s.document.mode == Mode::Source
        },
{
}


/// A line holding the query at or after `from` has a match from there on.
proof fn lemma_occurrence_yields_match(line: Seq<u8>, q: Seq<u8>, from: int, p: int)
    requires
        q.len() > 0,
        0 <= from <= p,
        text::occurs_at(line, q, p),
    ensures
        search::line_matches(line, q, from).len() > 0,
    decreases p - from,
{
    if !text::occurs_at(line, q, from) {
        lemma_occurrence_yields_match(line, q, from + 1, p);
    }
}

/// Lines without any match hold no occurrence of a non-empty query.
proof fn lemma_no_match_no_occurrence(ls: Seq<Seq<u8>>, q: Seq<u8>)
    requires
        q.len() > 0,
        search::matches_in(ls, q).len() == 0,
    ensures
        forall|l: int, p: int| 0 <= l < ls.len() ==> !(#[trigger] text::occurs_at(ls[l], q, p)),
    decreases ls.len(),
{
    if ls.len() > 0 {
        let init = ls.drop_last();
        lemma_no_match_no_occurrence(init, q);
        let last = search::line_matches(ls.last(), q, 0);
        assert(search::tagged(ls.len() - 1, last).len() == last.len());
        assert forall|l: int, p: int| 0 <= l < ls.len() implies !(#[trigger] text::occurs_at(ls[l], q, p)) by {
            if l < ls.len() - 1 {
                assert(ls[l] == init[l]);
            } else if text::occurs_at(ls[l], q, p) {
                lemma_occurrence_yields_match(ls.last(), q, 0, p);
            }
        }
    }
}

/// "No matches" is only reported when the query occurs on no line of the
/// buffer.
pub proof fn law_no_matches_means_query_absent(v: ModelView, q: Vec<u8>)
    requires
        q@.len() > 0,
    ensures
        ({
            let s = v.next(Message::FindQueryChanged(q)).0;
            let ls = search::lines(v.document.content);
            s.search.matches.len() == 0 ==> forall|l: int, p: int|
                0 <= l < ls.len() ==> !(#[trigger] text::occurs_at(ls[l], q@, p))
        }),
{
    let ls = search::lines(v.document.content);
    if search::matches_in(ls, q@).len() == 0 {
        lemma_no_match_no_occurrence(ls, q@);
    }
}


/// A title refresh among the first three effects is among the effects.
proof fn lemma_title_within_first_three(e: Seq<Effect>)
    ensures
        (e.len() > 0 && e[0] == Effect::SetTitle) || (e.len() > 1 && e[1] == Effect::SetTitle) || (
        e.len() > 2 && e[2] == Effect::SetTitle) ==> e.contains(Effect::SetTitle),
{
}

/// The window title follows the document: every transition that changes
/// whether there are unsaved changes, or where the document is stored,
/// refreshes the title.
#[verifier::spinoff_prover]
#[verifier::rlimit(60)]
pub proof fn law_title_follows_document(v: ModelView, m: Message)
    ensures
        ({
            let (s, e) = v.next(m);
            s.document.dirty != v.document.dirty || s.document.path != v.document.path
                ==> e.contains(Effect::SetTitle)
        }),
{
    match m {
        Message::LaunchUrl(_) => {
            lemma_title_within_first_three(v.next(m).1);
        },
        Message::ToggleContextPage(_) => {
            lemma_title_within_first_three(v.next(m).1);
        },
        Message::Moved => {
            lemma_title_within_first_three(v.next(m).1);
        },
        Message::Edited(_, _) => {
            lemma_title_within_first_three(v.next(m).1);
        },
        Message::Changed(_) => {
            lemma_title_within_first_three(v.next(m).1);
        },
        Message::ReplacedCurrent(_) => {
            lemma_title_within_first_three(v.next(m).1);
        },
        Message::ToggleMode => {
            lemma_title_within_first_three(v.next(m).1);
        },
        Message::ToggleHeaderBar => {
            lemma_title_within_first_three(v.next(m).1);
        },
        Message::New => {
            lemma_title_within_first_three(v.next(m).1);
        },
        Message::OpenFile => {
            lemma_title_within_first_three(v.next(m).1);
        },
        Message::FileOpened(_, _) => {
            lemma_title_within_first_three(v.next(m).1);
        },
        Message::SaveFile => {
            lemma_title_within_first_three(v.next(m).1);
        },
        Message::SaveFileAs => {
            lemma_title_within_first_three(v.next(m).1);
        },
        Message::FileSaved(_) => {
            lemma_title_within_first_three(v.next(m).1);
        },
        Message::DialogCancelled => {
            lemma_title_within_first_three(v.next(m).1);
        },
        Message::DialogError(_) => {
            lemma_title_within_first_three(v.next(m).1);
        },
        Message::DismissError => {
            lemma_title_within_first_three(v.next(m).1);
        },
        Message::RequestQuit => {
            lemma_title_within_first_three(v.next(m).1);
        },
        Message::DialogSave => {
            lemma_title_within_first_three(v.next(m).1);
        },
        Message::DialogDiscard => {
            lemma_title_within_first_three(v.next(m).1);
        },
        Message::DialogCancel => {
            lemma_title_within_first_three(v.next(m).1);
        },
        Message::KeepLocal => {
            lemma_title_within_first_three(v.next(m).1);
        },
        Message::FileChangedOnDisk => {
            lemma_title_within_first_three(v.next(m).1);
        },
        Message::ExternalContent(_) => {
            lemma_title_within_first_three(v.next(m).1);
        },
        Message::ReloadFromDisk => {
            lemma_title_within_first_three(v.next(m).1);
        },
        Message::Copy(_) => {
            lemma_title_within_first_three(v.next(m).1);
        },
        Message::Cut(_) => {
            lemma_title_within_first_three(v.next(m).1);
        },
        Message::Paste => {
            lemma_title_within_first_three(v.next(m).1);
        },
        Message::Pasted(_) => {
            lemma_title_within_first_three(v.next(m).1);
        },
        Message::SelectAll => {
            lemma_title_within_first_three(v.next(m).1);
        },
        Message::FindOpen => {
            lemma_title_within_first_three(v.next(m).1);
        },
        Message::ReplaceOpen => {
            lemma_title_within_first_three(v.next(m).1);
        },
        Message::FindClose => {
            lemma_title_within_first_three(v.next(m).1);
        },
        Message::FindQueryChanged(_) => {
            lemma_title_within_first_three(v.next(m).1);
        },
        Message::ReplacementChanged(_) => {
            lemma_title_within_first_three(v.next(m).1);
        },
        Message::FindNext => {
            lemma_title_within_first_three(v.next(m).1);
        },
        Message::FindPrev => {
            lemma_title_within_first_three(v.next(m).1);
        },
        Message::ReplaceCurrent => {
            lemma_title_within_first_three(v.next(m).1);
        },
        Message::ReplaceAll => {
            lemma_title_within_first_three(v.next(m).1);
        },
        Message::Undo => {
            lemma_title_within_first_three(v.next(m).1);
        },
        Message::Redo => {
            lemma_title_within_first_three(v.next(m).1);
        },
        Message::ZoomIn => {
            lemma_title_within_first_three(v.next(m).1);
        },
        Message::ZoomOut => {
            lemma_title_within_first_three(v.next(m).1);
        },
        Message::ZoomReset => {
            lemma_title_within_first_three(v.next(m).1);
        },
    }
}


/// The line ranges of a line's matches, found from `from` on, start at or
/// after `from`, are occurrences of `q`, and come in increasing order without
/// overlap.
proof fn lemma_line_matches_ordered(line: Seq<u8>, q: Seq<u8>, from: int)
    ensures
        ({
            let ms = search::line_matches(line, q, from);
            &&& forall|k: int| 0 <= k < ms.len() ==> from <= #[trigger] ms[k].0
            &&& forall|k: int, j: int| 0 <= k < j < ms.len() ==> #[trigger] ms[k].1 <= #[trigger] ms[j].0
        }),
    decreases line.len() - from,
{
    if q.len() == 0 || from < 0 || from + q.len() > line.len() {
    } else if text::occurs_at(line, q, from) {
        let rest = search::line_matches(line, q, from + q.len());
        lemma_line_matches_ordered(line, q, from + q.len());
        let ms = search::line_matches(line, q, from);
        assert(ms == seq![(from, from + q.len())] + rest);
        assert forall|k: int| 0 <= k < ms.len() implies from <= #[trigger] ms[k].0 by {
            if k > 0 {
                assert(ms[k] == rest[k - 1]);
            }
        }
        assert forall|k: int, j: int| 0 <= k < j < ms.len() implies #[trigger] ms[k].1
            <= #[trigger] ms[j].0 by {
            assert(ms[j] == rest[j - 1]);
            if k > 0 {
                assert(ms[k] == rest[k - 1]);
            }
        }
    } else {
        lemma_line_matches_ordered(line, q, from + 1);
        assert(search::line_matches(line, q, from) == search::line_matches(line, q, from + 1));
    }
}

/// What the editor highlights on a line (`line_match_ranges`) are
/// occurrences of the query, in increasing order and pairwise disjoint, each
/// as long as the query; an empty query highlights nothing.
pub proof fn law_highlight_ranges_are_disjoint_occurrences(line: Seq<u8>, q: Seq<u8>)
    ensures
        ({
            let ms = search::line_matches(line, q, 0);
            &&& q.len() == 0 ==> ms.len() == 0
            &&& forall|k: int|
                0 <= k < ms.len() ==> {
                    &&& 0 <= (#[trigger] ms[k]).0
                    &&& text::occurs_at(line, q, ms[k].0)
                    &&& ms[k].1 == ms[k].0 + q.len()
                }
            &&& forall|k: int, j: int| 0 <= k < j < ms.len() ==> #[trigger] ms[k].1 <= #[trigger] ms[j].0
        }),
{
    lemma_line_matches_ordered(line, q, 0);
    lemma_line_matches_are_occurrences(line, q, 0);
    let ms = search::line_matches(line, q, 0);
    assert forall|k: int| 0 <= k < ms.len() implies {
        &&& 0 <= (#[trigger] ms[k]).0
        &&& text::occurs_at(line, q, ms[k].0)
        &&& ms[k].1 == ms[k].0 + q.len()
    } by {
        assert(0 <= ms[k].0);
    }
}

/// The ranges of the matches tagged with line `i`, in order.
pub open spec fn on_line(ms: Seq<(int, int, int)>, i: int) -> Seq<(int, int)>
    decreases ms.len(),
{
    if ms.len() == 0 {
        seq![]
    } else {
        on_line(ms.drop_last(), i) + if ms.last().0 == i {
            seq![(ms.last().1, ms.last().2)]
        } else {
            seq![]
        }
    }
}

proof fn lemma_on_line_add(a: Seq<(int, int, int)>, b: Seq<(int, int, int)>, i: int)
    ensures
        on_line(a + b, i) == on_line(a, i) + on_line(b, i),
    decreases b.len(),
{
    if b.len() == 0 {
        assert(a + b =~= a);
        assert(on_line(a, i) + on_line(b, i) =~= on_line(a, i));
    } else {
        lemma_on_line_add(a, b.drop_last(), i);
        assert((a + b).drop_last() =~= a + b.drop_last());
        assert((a + b).last() == b.last());
        let tail = if b.last().0 == i {
            seq![(b.last().1, b.last().2)]
        } else {
            seq![]
        };
        assert(on_line(a, i) + on_line(b.drop_last(), i) + tail =~= on_line(a, i) + (on_line(
            b.drop_last(),
            i,
        ) + tail));
    }
}

proof fn lemma_on_line_tagged(l: int, ms: Seq<(int, int)>, i: int)
    ensures
        on_line(search::tagged(l, ms), i) == if l == i {
            ms
        } else {
            seq![]
        },
    decreases ms.len(),
{
    let t = search::tagged(l, ms);
    if ms.len() > 0 {
        lemma_on_line_tagged(l, ms.drop_last(), i);
        assert(t.drop_last() =~= search::tagged(l, ms.drop_last()));
        assert(t.last() == (l, ms.last().0, ms.last().1));
        if l == i {
            assert(ms.drop_last() + seq![(ms.last().0, ms.last().1)] =~= ms);
        } else {
            assert(Seq::<(int, int)>::empty() + Seq::<(int, int)>::empty() =~= Seq::<
                (int, int),
            >::empty());
        }
    } else {
        assert(t.len() == 0);
    }
}

proof fn lemma_on_line_absent(ms: Seq<(int, int, int)>, i: int)
    requires
        forall|k: int| 0 <= k < ms.len() ==> (#[trigger] ms[k]).0 != i,
    ensures
        on_line(ms, i) == Seq::<(int, int)>::empty(),
    decreases ms.len(),
{
    if ms.len() > 0 {
        lemma_on_line_absent(ms.drop_last(), i);
        assert(ms.last() == ms[ms.len() - 1]);
        assert(Seq::<(int, int)>::empty() + Seq::<(int, int)>::empty() =~= Seq::<(int, int)>::empty());
    }
}

proof fn lemma_on_line_matches_in(ls: Seq<Seq<u8>>, q: Seq<u8>, i: int)
    requires
        0 <= i < ls.len(),
    ensures
        on_line(search::matches_in(ls, q), i) == search::line_matches(ls[i], q, 0),
    decreases ls.len(),
{
    let init = ls.drop_last();
    let head = search::matches_in(init, q);
    let lm = search::line_matches(ls.last(), q, 0);
    let tail = search::tagged(ls.len() - 1, lm);
    assert(search::matches_in(ls, q) == head + tail);
    lemma_on_line_add(head, tail, i);
    lemma_on_line_tagged(ls.len() - 1, lm, i);
    if i < ls.len() - 1 {
        lemma_on_line_matches_in(init, q, i);
        assert(init[i] == ls[i]);
        assert(on_line(head, i) + Seq::<(int, int)>::empty() =~= on_line(head, i));
    } else {
        lemma_matches_in_are_occurrences(init, q);
        assert forall|k: int| 0 <= k < head.len() implies (#[trigger] head[k]).0 != i by {
            assert(head[k].0 < init.len());
        }
        lemma_on_line_absent(head, i);
        assert(Seq::<(int, int)>::empty() + lm =~= lm);
    }
}

/// What the editor highlights on line `i` is exactly what Find counts and
/// navigates there: the ranges of the matches tagged with line `i`, in order,
/// are the highlighter's ranges for that line.
pub proof fn law_highlight_equals_find_matches(t: Seq<u8>, q: Seq<u8>, i: int)
    requires
        0 <= i < search::lines(t).len(),
    ensures
        on_line(search::all_matches(t, q), i) == search::line_matches(search::lines(t)[i], q, 0),
{
    lemma_on_line_matches_in(search::lines(t), q, i);
}


/// `m` is an edit reported by the editor that belongs to the run `r`.
pub open spec fn edit_in_run(m: Message, r: model::EditRun) -> bool {
    match m {
        Message::Edited(k, _) => model::run_of(k) == r,
        _ => false,
    }
}

/// The state after handling the messages `ms` in order.
pub open spec fn after_all(v: ModelView, ms: Seq<Message>) -> ModelView
    decreases ms.len(),
{
    if ms.len() == 0 {
        v
    } else {
        after_all(v.next(ms[0]).0, ms.skip(1))
    }
}

/// Edits that continue the run in progress leave the history alone.
proof fn lemma_run_continues(w: ModelView, ms: Seq<Message>, r: model::EditRun)
    requires
        r != model::EditRun::Idle,
        w.undo_run == r,
        forall|k: int| 0 <= k < ms.len() ==> edit_in_run(#[trigger] ms[k], r),
    ensures
        after_all(w, ms).undo == w.undo,
        after_all(w, ms).redo == w.redo,
        after_all(w, ms).undo_run == r,
    decreases ms.len(),
{
    if ms.len() > 0 {
        assert(edit_in_run(ms[0], r));
        let w1 = w.next(ms[0]).0;
        assert(w1.undo == w.undo && w1.redo == w.redo && w1.undo_run == r);
        assert forall|k: int| 0 <= k < ms.skip(1).len() implies edit_in_run(
            #[trigger] ms.skip(1)[k],
            r,
        ) by {
            assert(ms.skip(1)[k] == ms[k + 1]);
        }
        lemma_run_continues(w1, ms.skip(1), r);
    }
}

/// A whole run of typing (non-whitespace characters) or of backspaces is one
/// undo step: it records the buffer from before the run once, forgets the
/// redo history, and a single Undo brings back the buffer from before the run.
pub proof fn law_edit_run_is_one_undo_step(v: ModelView, ms: Seq<Message>, r: model::EditRun)
    requires
        v.wf(),
        ms.len() > 0,
        r != model::EditRun::Idle,
        r != v.undo_run,
        forall|k: int| 0 <= k < ms.len() ==> edit_in_run(#[trigger] ms[k], r),
    ensures
        after_all(v, ms).undo == v.pushed_undo(),
        after_all(v, ms).redo.len() == 0,
        after_all(v, ms).undo_run == r,
        after_all(v, ms).next(Message::Undo).0.document.content == v.document.content,
{
    assert(edit_in_run(ms[0], r));
    let w = v.next(ms[0]).0;
    assert(w.undo == v.pushed_undo() && w.redo.len() == 0 && w.undo_run == r);
    assert forall|k: int| 0 <= k < ms.skip(1).len() implies edit_in_run(
        #[trigger] ms.skip(1)[k],
        r,
    ) by {
        assert(ms.skip(1)[k] == ms[k + 1]);
    }
    lemma_run_continues(w, ms.skip(1), r);
    let s = after_all(v, ms);
    assert(s == after_all(w, ms.skip(1)));
    assert(s.undo.len() > 0);
    assert(s.undo.last() == v.document.content);
}


/// Every highlighted range of a valid line for a valid query starts and ends
/// on a character boundary, so slicing the line there never splits a
/// character.
pub proof fn law_highlight_ranges_on_char_boundaries(line: Seq<u8>, q: Seq<u8>)
    requires
        utf8_text::is_utf8(line),
        utf8_text::is_utf8(q),
    ensures
        forall|k: int|
            0 <= k < search::line_matches(line, q, 0).len() ==> {
                let m = #[trigger] search::line_matches(line, q, 0)[k];
                vstd::utf8::is_char_boundary(line, m.0) && vstd::utf8::is_char_boundary(line, m.1)
            },
{
    lemma_line_matches_are_occurrences(line, q, 0);
    let ms = search::line_matches(line, q, 0);
    assert forall|k: int| 0 <= k < ms.len() implies {
        let m = #[trigger] ms[k];
        vstd::utf8::is_char_boundary(line, m.0) && vstd::utf8::is_char_boundary(line, m.1)
    } by {
        let m = ms[k];
        if q.len() > 0 {
            utf8_text::lemma_occurrence_on_char_boundaries(line, q, m.0);
        }
    }
}

/// Every text the state holds is valid UTF-8: the buffer, the query, the
/// replacement, the undo and redo snapshots and a pending disk version.
pub open spec fn text_is_utf8(v: ModelView) -> bool {
    &&& utf8_text::is_utf8(v.document.content)
    &&& utf8_text::is_utf8(v.search.query)
    &&& utf8_text::is_utf8(v.search.replacement)
    &&& forall|i: int| 0 <= i < v.undo.len() ==> utf8_text::is_utf8(#[trigger] v.undo[i])
    &&& forall|i: int| 0 <= i < v.redo.len() ==> utf8_text::is_utf8(#[trigger] v.redo[i])
    &&& (v.dialog matches Some(DialogView::ConflictReload(c)) ==> utf8_text::is_utf8(c))
}

/// Every text a message carries is valid UTF-8 (as text from the editor,
/// the find bar and files read as UTF-8 is).
pub open spec fn message_is_utf8(m: Message) -> bool {
    match m {
        Message::Edited(_, a) => utf8_text::is_utf8(a@),
        Message::Changed(a) => utf8_text::is_utf8(a@),
        Message::ReplacedCurrent(a) => utf8_text::is_utf8(a@),
        Message::FileOpened(_, c) => utf8_text::is_utf8(c@),
        Message::ExternalContent(Ok(d)) => utf8_text::is_utf8(d@),
        Message::FindQueryChanged(q) => utf8_text::is_utf8(q@),
        Message::ReplacementChanged(r) => utf8_text::is_utf8(r@),
        _ => true,
    }
}

proof fn lemma_snapshot_keeps_utf8(v: ModelView)
    requires
        text_is_utf8(v),
    ensures
        forall|i: int| 0 <= i < v.pushed_undo().len() ==> utf8_text::is_utf8(#[trigger] v.pushed_undo()[i]),
{
    let u = v.undo.push(v.document.content);
    assert forall|i: int| 0 <= i < u.len() implies utf8_text::is_utf8(#[trigger] u[i]) by {
        if i < v.undo.len() {
            assert(u[i] == v.undo[i]);
        }
    }
    if u.len() > model::UNDO_LIMIT {
        assert forall|i: int| 0 <= i < u.skip(1).len() implies utf8_text::is_utf8(
            #[trigger] u.skip(1)[i],
        ) by {
            assert(u.skip(1)[i] == u[i + 1]);
        }
    }
}

proof fn lemma_stack_moves_keep_utf8(v: ModelView)
    requires
        text_is_utf8(v),
    ensures
        v.undo.len() > 0 ==> forall|i: int| 0 <= i < v.undo.drop_last().len() ==> utf8_text::is_utf8(#[trigger] v.undo.drop_last()[i]),
        v.redo.len() > 0 ==> forall|i: int| 0 <= i < v.redo.drop_last().len() ==> utf8_text::is_utf8(#[trigger] v.redo.drop_last()[i]),
        forall|i: int| 0 <= i < v.undo.push(v.document.content).len() ==> utf8_text::is_utf8(#[trigger] v.undo.push(v.document.content)[i]),
        forall|i: int| 0 <= i < v.redo.push(v.document.content).len() ==> utf8_text::is_utf8(#[trigger] v.redo.push(v.document.content)[i]),
        v.undo.len() > 0 ==> utf8_text::is_utf8(v.undo.last()),
        v.redo.len() > 0 ==> utf8_text::is_utf8(v.redo.last()),
{
    if v.undo.len() > 0 {
        assert forall|i: int| 0 <= i < v.undo.drop_last().len() implies utf8_text::is_utf8(
            #[trigger] v.undo.drop_last()[i],
        ) by {
            assert(v.undo.drop_last()[i] == v.undo[i]);
        }
    }
    if v.redo.len() > 0 {
        assert forall|i: int| 0 <= i < v.redo.drop_last().len() implies utf8_text::is_utf8(
            #[trigger] v.redo.drop_last()[i],
        ) by {
            assert(v.redo.drop_last()[i] == v.redo[i]);
        }
    }
    assert forall|i: int| 0 <= i < v.undo.push(v.document.content).len() implies utf8_text::is_utf8(#[trigger] v.undo.push(v.document.content)[i]) by {
        if i < v.undo.len() {
            assert(v.undo.push(v.document.content)[i] == v.undo[i]);
        }
    }
    assert forall|i: int| 0 <= i < v.redo.push(v.document.content).len() implies utf8_text::is_utf8(#[trigger] v.redo.push(v.document.content)[i]) by {
        if i < v.redo.len() {
            assert(v.redo.push(v.document.content)[i] == v.redo[i]);
        }
    }
    if v.undo.len() > 0 {
        assert(v.undo.last() == v.undo[v.undo.len() - 1]);
    }
    if v.redo.len() > 0 {
        assert(v.redo.last() == v.redo[v.redo.len() - 1]);
    }
}

/// The text stays UTF-8: from a state whose texts are valid UTF-8, a message
/// whose texts are valid UTF-8 leads to a state whose texts are valid UTF-8
/// (Replace All included).
#[verifier::spinoff_prover]
#[verifier::rlimit(80)]
pub proof fn law_text_stays_utf8(v: ModelView, m: Message)
    requires
        v.wf(),
        text_is_utf8(v),
        message_is_utf8(m),
    ensures
        text_is_utf8(v.next(m).0),
{
    match m {
        Message::LaunchUrl(_) => {},
        Message::ToggleContextPage(_) => {},
        Message::Moved => {},
        Message::Edited(_, _) => {
            lemma_snapshot_keeps_utf8(v);
        },
        Message::Changed(_) => {
            lemma_snapshot_keeps_utf8(v);
        },
        Message::ReplacedCurrent(_) => {
            lemma_snapshot_keeps_utf8(v);
        },
        Message::ToggleMode => {},
        Message::ToggleHeaderBar => {},
        Message::New => {},
        Message::OpenFile => {},
        Message::FileOpened(_, _) => {},
        Message::SaveFile => {},
        Message::SaveFileAs => {},
        Message::FileSaved(_) => {},
        Message::DialogCancelled => {},
        Message::DialogError(_) => {},
        Message::DismissError => {},
        Message::RequestQuit => {},
        Message::DialogSave => {},
        Message::DialogDiscard => {},
        Message::DialogCancel => {},
        Message::KeepLocal => {},
        Message::FileChangedOnDisk => {},
        Message::ExternalContent(_) => {},
        Message::ReloadFromDisk => {},
        Message::Copy(_) => {},
        Message::Cut(_) => {},
        Message::Paste => {},
        Message::Pasted(_) => {},
        Message::SelectAll => {},
        Message::FindOpen => {},
        Message::ReplaceOpen => {},
        Message::FindClose => {},
        Message::FindQueryChanged(_) => {},
        Message::ReplacementChanged(_) => {},
        Message::FindNext => {},
        Message::FindPrev => {},
        Message::ReplaceCurrent => {},
        Message::ReplaceAll => {
            lemma_snapshot_keeps_utf8(v);
            if v.search.matches.len() > 0 {
                utf8_text::lemma_replace_all_keeps_utf8(
                    v.document.content,
                    v.search.query,
                    v.search.replacement,
                );
            }
        },
        Message::Undo => {
            lemma_stack_moves_keep_utf8(v);
        },
        Message::Redo => {
            lemma_stack_moves_keep_utf8(v);
        },
        Message::ZoomIn => {},
        Message::ZoomOut => {},
        Message::ZoomReset => {},
    }
}

/// The bytes a save writes are valid UTF-8 when the buffer is.
pub proof fn law_saved_bytes_are_utf8(v: ModelView)
    requires
        utf8_text::is_utf8(v.document.content),
    ensures
        utf8_text::is_utf8(v.save_bytes()),
{
    if v.document.line_ending == line_ending::LineEnding::Crlf {
        utf8_text::lemma_normalize_keeps_utf8(v.document.content);
        utf8_text::lemma_crlf_keeps_utf8(text::normalize_newlines(v.document.content));
    }
}


/// A session starts with valid UTF-8 text when the opened file's contents
/// are valid UTF-8.
pub proof fn law_startup_text_is_utf8(opened: Option<(Vec<u8>, Result<Vec<u8>, String>)>)
    requires
        opened matches Some((_, Ok(c))) ==> utf8_text::is_utf8(c@),
    ensures
        text_is_utf8(model::started(opened).0),
{
}


/// Opening the find bar (Ctrl+F) or the replace bar (Ctrl+H) searches the
/// current buffer again: the matches are those of the query over the buffer as
/// it is now, the active match is kept when still in range, and the active
/// match is selected before the query input is focused.
pub proof fn law_opening_search_searches_buffer(v: ModelView)
    requires
        0 <= v.search.current,
    ensures
        !(v.search.active && !v.search.show_replace) ==> ({
            let (s, e) = v.next(Message::FindOpen);
            &&& s.search.active && !s.search.show_replace
            &&& s.search.matches == model::to_matches(
                search::all_matches(v.document.content, v.search.query),
            )
            &&& s.search.current == (if v.search.current < s.search.matches.len() {
                v.search.current
            } else {
                0
            })
            &&& s.search.matches.len() > 0 ==> e == seq![
                Effect::Select(s.search.matches[s.search.current]),
                Effect::FocusFind,
            ]
            &&& s.search.matches.len() == 0 ==> e == seq![Effect::FocusFind]
        }),
        !(v.search.active && v.search.show_replace) ==> ({
            let (s, e) = v.next(Message::ReplaceOpen);
            &&& s.search.active && s.search.show_replace
            &&& s.search.matches == model::to_matches(
                search::all_matches(v.document.content, v.search.query),
            )
            &&& s.search.current == (if v.search.current < s.search.matches.len() {
                v.search.current
            } else {
                0
            })
            &&& s.search.matches.len() > 0 ==> e == seq![
                Effect::Select(s.search.matches[s.search.current]),
                Effect::FocusFind,
            ]
            &&& s.search.matches.len() == 0 ==> e == seq![Effect::FocusFind]
        }),
{
    if !(v.search.active && !v.search.show_replace) {
        lemma_opened_bar(v, false);
    }
    if !(v.search.active && v.search.show_replace) {
        lemma_opened_bar(v, true);
    }
}

proof fn lemma_opened_bar(v: ModelView, show_replace: bool)
    requires
        0 <= v.search.current,
    ensures
        ({
            let s = v.searching(show_replace);
            &&& s.search.active && s.search.show_replace == show_replace
            &&& s.search.matches == model::to_matches(
                search::all_matches(v.document.content, v.search.query),
            )
            &&& s.search.current == (if v.search.current < s.search.matches.len() {
                v.search.current
            } else {
                0
            })
            &&& s.search.matches.len() > 0 ==> s.select_current() + seq![Effect::FocusFind]
                == seq![Effect::Select(s.search.matches[s.search.current]), Effect::FocusFind]
            &&& s.search.matches.len() == 0 ==> s.select_current() + seq![Effect::FocusFind]
                == seq![Effect::FocusFind]
        }),
{
    let s = v.searching(show_replace);
    if s.search.matches.len() > 0 {
        assert(0 <= s.search.current < s.search.matches.len());
        assert(s.select_current() + seq![Effect::FocusFind] =~= seq![
            Effect::Select(s.search.matches[s.search.current]),
            Effect::FocusFind,
        ]);
    } else {
        assert(s.select_current() + seq![Effect::FocusFind] =~= seq![Effect::FocusFind]);
    }
}

/// Replace All, whenever there are matches, turns the buffer into the text
/// with every occurrence of the query (leftmost first, without overlap)
/// replaced by the replacement, whatever the replacement (the empty one
/// included); it records the previous buffer for undo, marks the document
/// dirty, refreshes the editor and the view, and searches the new buffer.
pub proof fn law_replace_all_substitutes_every_occurrence(v: ModelView)
    requires
        v.wf(),
        v.search.matches.len() > 0,
    ensures
        ({
            let (s, e) = v.next(Message::ReplaceAll);
            &&& s.document.content == text::replace_all(
                v.document.content,
                v.search.query,
                v.search.replacement,
            )
            &&& s.document.dirty
            &&& s.undo.len() > 0 && s.undo.last() == v.document.content
            &&& s.redo.len() == 0
            &&& s.search.matches == model::to_matches(
                search::all_matches(s.document.content, s.search.query),
            )
            &&& e.len() >= 2 && e[0] == Effect::SetBuffer && e[1] == Effect::RenderMarkdown
        }),
{
}

/// When the query occurs in the buffer and the replacement differs from it,
/// Replace All changes the buffer.
pub proof fn law_replace_all_changes_buffer(v: ModelView, i: int)
    requires
        v.wf(),
        v.search.matches.len() > 0,
        text::occurs_at(v.document.content, v.search.query, i),
        v.search.replacement != v.search.query,
    ensures
        v.next(Message::ReplaceAll).0.document.content != v.document.content,
{
    text::lemma_replace_all_changes_text(
        v.document.content,
        v.search.query,
        v.search.replacement,
        i,
    );
}

/// Undo and Redo are inverse steps: Undo after Redo undoes exactly the redone
/// step, and Redo after Undo redoes exactly the undone step; Redo brings back
/// the most recently undone buffer.
pub proof fn law_undo_and_redo_are_inverse(v: ModelView)
    requires
        v.wf(),
    ensures
        v.redo.len() > 0 ==> v.next(Message::Redo).0.document.content == v.redo.last(),
        v.redo.len() > 0 ==> v.next(Message::Redo).0.next(Message::Undo).0.document.content
            == v.document.content,
        v.redo.len() > 0 ==> v.next(Message::Redo).0.next(Message::Undo).0.redo == v.redo,
        v.undo.len() > 0 ==> v.next(Message::Undo).0.document.content == v.undo.last(),
        v.undo.len() > 0 ==> v.next(Message::Undo).0.next(Message::Redo).0.document.content
            == v.document.content,
        v.undo.len() > 0 ==> v.next(Message::Undo).0.next(Message::Redo).0.undo == v.undo,
{
    if v.redo.len() > 0 {
        let s1 = v.next(Message::Redo).0;
        assert(s1.undo.len() > 0);
        assert(s1.undo.last() == v.document.content);
        assert(s1.redo.push(s1.document.content) =~= v.redo);
        assert(s1.undo.drop_last() =~= v.undo);
    }
    if v.undo.len() > 0 {
        let s1 = v.next(Message::Undo).0;
        assert(s1.redo.len() > 0);
        assert(s1.redo.last() == v.document.content);
        assert(s1.undo.push(s1.document.content) =~= v.undo);
    }
}

/// Replacing the current match keeps the user's place: after the editor
/// reports the pasted replacement, the matches are those of the query over
/// the new buffer, the active index stays where it was whenever it is still
/// in range (so the next remaining match is selected), and that match is
/// selected. Undo, Redo and reopening the search keep the index the same way.
pub proof fn law_active_match_is_kept(v: ModelView, after: Vec<u8>)
    requires
        v.wf(),
    ensures
        ({
            let (s, e) = v.next(Message::ReplacedCurrent(after));
            &&& s.document.content == after@
            &&& s.search.matches == model::to_matches(search::all_matches(after@, v.search.query))
            &&& s.search.current == (if v.search.current < s.search.matches.len() {
                v.search.current
            } else {
                0
            })
            &&& s.search.matches.len() > 0 ==> e.last() == Effect::Select(
                s.search.matches[s.search.current],
            )
        }),
        v.undo.len() > 0 ==> ({
            let s = v.next(Message::Undo).0;
            s.search.current == (if v.search.current < s.search.matches.len() {
                v.search.current
            } else {
                0
            })
        }),
        v.redo.len() > 0 ==> ({
            let s = v.next(Message::Redo).0;
            s.search.current == (if v.search.current < s.search.matches.len() {
                v.search.current
            } else {
                0
            })
        }),
{
    let (s, e) = v.next(Message::ReplacedCurrent(after));
    if s.search.matches.len() > 0 {
        assert(e.last() == Effect::Select(s.search.matches[s.search.current]));
    }
}

/// The menu entries and their shortcuts do what they name: Save writes a
/// document that has a path without asking and asks for a path otherwise;
/// Save As always asks; Open, New, Undo, Redo, Find, Replace, the mode toggle,
/// zoom and the clipboard entries act as their messages do.
pub proof fn law_menu_actions_do_what_they_name(v: ModelView, sel: Option<String>)
    ensures
        v.document.path is Some ==> v.next(model::action_message(model::MenuAction::Save, sel))
            == (v, seq![Effect::WriteFile]),
        v.document.path is None ==> v.next(model::action_message(model::MenuAction::Save, sel))
            == (v, seq![Effect::SaveAsDialog]),
        v.next(model::action_message(model::MenuAction::SaveAs, sel)) == (v, seq![
            Effect::SaveAsDialog,
        ]),
        !v.document.dirty ==> v.next(model::action_message(model::MenuAction::Open, sel)) == (v, seq![
            Effect::OpenFileDialog,
        ]),
        !v.document.dirty ==> v.next(model::action_message(model::MenuAction::New, sel)).0.document
            == document::fresh_document(),
        v.next(model::action_message(model::MenuAction::Undo, sel)) == v.next(Message::Undo),
        v.next(model::action_message(model::MenuAction::Redo, sel)) == v.next(Message::Redo),
        v.next(model::action_message(model::MenuAction::Find, sel)) == v.next(Message::FindOpen),
        v.next(model::action_message(model::MenuAction::Replace, sel)) == v.next(
            Message::ReplaceOpen,
        ),
        v.next(model::action_message(model::MenuAction::ToggleMode, sel)).0.document.mode
            == model::toggled(v.document.mode),
        v.zoom <= model::ZOOM_MAX ==> v.next(model::action_message(model::MenuAction::ZoomIn, sel)).0.zoom
            >= v.zoom,
        v.zoom >= model::ZOOM_MIN ==> v.next(model::action_message(model::MenuAction::ZoomOut, sel)).0.zoom
            <= v.zoom,
        v.next(model::action_message(model::MenuAction::ZoomReset, sel)).0.zoom == 0,
        v.next(model::action_message(model::MenuAction::Paste, sel)) == (v, seq![
            Effect::ReadClipboard,
        ]),
        v.next(model::action_message(model::MenuAction::SelectAll, sel)) == (v, seq![
            Effect::SelectAll,
        ]),
        sel matches Some(t) ==> v.next(model::action_message(model::MenuAction::Copy, sel)) == (v, seq![
            Effect::WriteClipboard(t),
        ]),
        sel matches Some(t) ==> v.next(model::action_message(model::MenuAction::Cut, sel)) == (v, seq![
            Effect::DeleteSelection,
            Effect::WriteClipboard(t),
        ]),
{
    lemma_file_menu(v, sel);
    lemma_edit_menu(v, sel);
    lemma_view_menu(v, sel);
    lemma_clipboard_menu(v, sel);
}

proof fn lemma_file_menu(v: ModelView, sel: Option<String>)
    ensures
        v.document.path is Some ==> v.next(model::action_message(model::MenuAction::Save, sel))
            == (v, seq![Effect::WriteFile]),
        v.document.path is None ==> v.next(model::action_message(model::MenuAction::Save, sel))
            == (v, seq![Effect::SaveAsDialog]),
        v.next(model::action_message(model::MenuAction::SaveAs, sel)) == (v, seq![
            Effect::SaveAsDialog,
        ]),
        !v.document.dirty ==> v.next(model::action_message(model::MenuAction::Open, sel)) == (v, seq![
            Effect::OpenFileDialog,
        ]),
        !v.document.dirty ==> v.next(model::action_message(model::MenuAction::New, sel)).0.document
            == document::fresh_document(),
{
    assert(model::action_message(model::MenuAction::Save, sel) == Message::SaveFile);
    assert(model::action_message(model::MenuAction::SaveAs, sel) == Message::SaveFileAs);
    assert(model::action_message(model::MenuAction::Open, sel) == Message::OpenFile);
    assert(model::action_message(model::MenuAction::New, sel) == Message::New);
}

proof fn lemma_edit_menu(v: ModelView, sel: Option<String>)
    ensures
        v.next(model::action_message(model::MenuAction::Undo, sel)) == v.next(Message::Undo),
        v.next(model::action_message(model::MenuAction::Redo, sel)) == v.next(Message::Redo),
        v.next(model::action_message(model::MenuAction::Find, sel)) == v.next(Message::FindOpen),
        v.next(model::action_message(model::MenuAction::Replace, sel)) == v.next(
            Message::ReplaceOpen,
        ),
{
    assert(model::action_message(model::MenuAction::Undo, sel) == Message::Undo);
    assert(model::action_message(model::MenuAction::Redo, sel) == Message::Redo);
    assert(model::action_message(model::MenuAction::Find, sel) == Message::FindOpen);
    assert(model::action_message(model::MenuAction::Replace, sel) == Message::ReplaceOpen);
}

proof fn lemma_view_menu(v: ModelView, sel: Option<String>)
    ensures
        v.next(model::action_message(model::MenuAction::ToggleMode, sel)).0.document.mode
            == model::toggled(v.document.mode),
        v.zoom <= model::ZOOM_MAX ==> v.next(model::action_message(model::MenuAction::ZoomIn, sel)).0.zoom
            >= v.zoom,
        v.zoom >= model::ZOOM_MIN ==> v.next(model::action_message(model::MenuAction::ZoomOut, sel)).0.zoom
            <= v.zoom,
        v.next(model::action_message(model::MenuAction::ZoomReset, sel)).0.zoom == 0,
{
    assert(model::action_message(model::MenuAction::ToggleMode, sel) == Message::ToggleMode);
    assert(model::action_message(model::MenuAction::ZoomIn, sel) == Message::ZoomIn);
    assert(model::action_message(model::MenuAction::ZoomOut, sel) == Message::ZoomOut);
    assert(model::action_message(model::MenuAction::ZoomReset, sel) == Message::ZoomReset);
}

proof fn lemma_clipboard_menu(v: ModelView, sel: Option<String>)
    ensures
        v.next(model::action_message(model::MenuAction::Paste, sel)) == (v, seq![
            Effect::ReadClipboard,
        ]),
        v.next(model::action_message(model::MenuAction::SelectAll, sel)) == (v, seq![
            Effect::SelectAll,
        ]),
        sel matches Some(t) ==> v.next(model::action_message(model::MenuAction::Copy, sel)) == (v, seq![
            Effect::WriteClipboard(t),
        ]),
        sel matches Some(t) ==> v.next(model::action_message(model::MenuAction::Cut, sel)) == (v, seq![
            Effect::DeleteSelection,
            Effect::WriteClipboard(t),
        ]),
{
    assert(model::action_message(model::MenuAction::Paste, sel) == Message::Paste);
    assert(model::action_message(model::MenuAction::SelectAll, sel) == Message::SelectAll);
    assert(model::action_message(model::MenuAction::Copy, sel) == Message::Copy(sel));
    assert(model::action_message(model::MenuAction::Cut, sel) == Message::Cut(sel));
}

} // verus!
