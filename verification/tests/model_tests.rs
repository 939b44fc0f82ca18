use cosmic_markdown::document::{Dialog, Mode, PendingAction};
use cosmic_markdown::keys::key_binds;
use cosmic_markdown::line_ending::LineEnding;
use cosmic_markdown::model::{
    is_whitespace_char, window_title, AppModel, ContextPage, Effect, EditKind, EditRun, MatchCount, MenuAction,
    Message, UNDO_LIMIT,
};
use cosmic_markdown::search::Match;

fn b(s: &str) -> Vec<u8> {
    s.as_bytes().to_vec()
}

fn fresh() -> AppModel {
    AppModel::new(None).0
}

/// A model with `text` typed into a new document (dirty).
fn typed(text: &str) -> AppModel {
    let mut app = fresh();
    app.update(Message::Edited(EditKind::Other, b(text)));
    app
}

/// A model showing a clean opened file.
fn opened(path: &str, contents: &str) -> AppModel {
    let mut app = fresh();
    app.update(Message::FileOpened(b(path), b(contents)));
    app
}

#[test]
fn startup_without_file() {
    let (app, effects) = AppModel::new(None);
    assert_eq!(effects, vec![Effect::SetTitle]);
    assert_eq!(app.document.mode, Mode::Source);
    assert!(app.document.content.is_empty());
    assert!(!app.document.dirty);
    assert_eq!(app.document.path, None);
    assert_eq!(app.zoom, 0);
}

#[test]
fn startup_with_readable_file_shows_view() {
    let (app, effects) = AppModel::new(Some((b("/tmp/a.md"), Ok(b("# T\r\n")))));
    assert_eq!(effects, vec![Effect::SetBuffer, Effect::RenderMarkdown, Effect::SetTitle]);
    assert_eq!(app.document.mode, Mode::View);
    assert_eq!(app.document.content, b("# T\r\n"));
    assert_eq!(app.document.path, Some(b("/tmp/a.md")));
    assert_eq!(app.document.line_ending, LineEnding::Crlf);
    assert!(!app.document.dirty);
}

#[test]
fn startup_with_unreadable_file_shows_error() {
    let (app, effects) =
        AppModel::new(Some((b("/nope"), Err("failed to open /nope: missing".to_string()))));
    assert_eq!(effects, vec![Effect::SetTitle]);
    assert_eq!(app.error, Some("failed to open /nope: missing".to_string()));
    assert_eq!(app.document.path, None);
    assert_eq!(app.document.mode, Mode::Source);
}

#[test]
fn typing_marks_dirty_and_renders() {
    let mut app = fresh();
    let effects = app.update(Message::Edited(EditKind::Insert('a'), b("a")));
    assert_eq!(effects, vec![Effect::RenderMarkdown, Effect::SetTitle]);
    assert!(app.document.dirty);
    assert_eq!(app.document.content, b("a"));
    assert_eq!(app.undo_stack, vec![b("")]);
    assert_eq!(app.undo_run, EditRun::Insert);
}

#[test]
fn typing_run_coalesces_into_one_undo_step() {
    let mut app = fresh();
    app.update(Message::Edited(EditKind::Insert('a'), b("a")));
    app.update(Message::Edited(EditKind::Insert('b'), b("ab")));
    app.update(Message::Edited(EditKind::Insert('c'), b("abc")));
    assert_eq!(app.undo_stack, vec![b("")]);
    // Whitespace ends the run and starts a step.
    app.update(Message::Edited(EditKind::Insert(' '), b("abc ")));
    assert_eq!(app.undo_stack, vec![b(""), b("abc")]);
    assert_eq!(app.undo_run, EditRun::Idle);
}

#[test]
fn backspace_run_is_separate_from_typing() {
    let mut app = fresh();
    app.update(Message::Edited(EditKind::Insert('a'), b("a")));
    app.update(Message::Edited(EditKind::Insert('b'), b("ab")));
    app.update(Message::Edited(EditKind::Backspace, b("a")));
    app.update(Message::Edited(EditKind::Backspace, b("")));
    assert_eq!(app.undo_stack, vec![b(""), b("ab")]);
}

#[test]
fn cursor_motion_ends_run() {
    let mut app = fresh();
    app.update(Message::Edited(EditKind::Insert('a'), b("a")));
    assert!(app.update(Message::Moved).is_empty());
    assert_eq!(app.undo_run, EditRun::Idle);
    app.update(Message::Edited(EditKind::Insert('b'), b("ab")));
    assert_eq!(app.undo_stack, vec![b(""), b("a")]);
}

#[test]
fn undo_redo_round_trip() {
    let mut app = typed("first");
    app.update(Message::Changed(b("second")));
    assert_eq!(app.update(Message::Undo), vec![Effect::SetBuffer, Effect::RenderMarkdown]);
    assert_eq!(app.document.content, b("first"));
    assert_eq!(app.redo_stack, vec![b("second")]);
    app.update(Message::Redo);
    assert_eq!(app.document.content, b("second"));
    assert!(app.redo_stack.is_empty());
}

#[test]
fn undo_with_empty_history_does_nothing() {
    let mut app = fresh();
    assert!(app.update(Message::Undo).is_empty());
    assert!(app.update(Message::Redo).is_empty());
    assert!(!app.document.dirty);
}

#[test]
fn edit_clears_redo() {
    let mut app = typed("a");
    app.update(Message::Changed(b("b")));
    app.update(Message::Undo);
    assert_eq!(app.redo_stack.len(), 1);
    app.update(Message::Changed(b("c")));
    assert!(app.redo_stack.is_empty());
}

#[test]
fn undo_history_is_bounded() {
    let mut app = fresh();
    for i in 0..(UNDO_LIMIT + 20) {
        app.update(Message::Changed(b(&i.to_string())));
    }
    assert_eq!(app.undo_stack.len(), UNDO_LIMIT);
    // The oldest snapshots were dropped.
    assert_eq!(app.undo_stack[0], b("19"));
}

#[test]
fn toggle_mode_renders_or_focuses() {
    let mut app = fresh();
    assert_eq!(app.update(Message::ToggleMode), vec![Effect::RenderMarkdown]);
    assert_eq!(app.document.mode, Mode::View);
    assert_eq!(app.update(Message::ToggleMode), vec![Effect::FocusEditor]);
    assert_eq!(app.document.mode, Mode::Source);
}

#[test]
fn new_on_clean_document_starts_fresh() {
    let mut app = opened("/a.md", "text");
    app.zoom = 4;
    let effects = app.update(Message::New);
    assert_eq!(effects, vec![Effect::SetBuffer, Effect::RenderMarkdown, Effect::SetTitle]);
    assert_eq!(app.document.path, None);
    assert!(app.document.content.is_empty());
    assert_eq!(app.document.mode, Mode::Source);
    assert_eq!(app.zoom, 4);
}

#[test]
fn new_on_dirty_document_asks_first() {
    let mut app = typed("unsaved");
    assert!(app.update(Message::New).is_empty());
    assert_eq!(app.dialog, Some(Dialog::ConfirmDiscard(PendingAction::New)));
    assert_eq!(app.document.content, b("unsaved"));
}

#[test]
fn open_on_clean_document_shows_dialog() {
    let mut app = fresh();
    assert_eq!(app.update(Message::OpenFile), vec![Effect::OpenFileDialog]);
}

#[test]
fn open_on_dirty_document_asks_first() {
    let mut app = typed("x");
    assert!(app.update(Message::OpenFile).is_empty());
    assert_eq!(app.dialog, Some(Dialog::ConfirmDiscard(PendingAction::Open)));
}

#[test]
fn discard_continues_pending_action() {
    let mut app = typed("x");
    app.update(Message::New);
    let effects = app.update(Message::DialogDiscard);
    assert_eq!(effects, vec![Effect::SetBuffer, Effect::RenderMarkdown, Effect::SetTitle]);
    assert_eq!(app.dialog, None);
    assert!(app.document.content.is_empty());
}

#[test]
fn cancel_keeps_document() {
    let mut app = typed("x");
    app.update(Message::OpenFile);
    assert!(app.update(Message::DialogCancel).is_empty());
    assert_eq!(app.dialog, None);
    assert_eq!(app.document.content, b("x"));
    assert!(app.document.dirty);
}

#[test]
fn save_then_continue_untitled() {
    let mut app = typed("x");
    app.update(Message::New);
    assert_eq!(app.update(Message::DialogSave), vec![Effect::SaveAsDialog]);
    assert_eq!(app.pending, Some(PendingAction::New));
    let effects = app.update(Message::FileSaved(b("/saved.md")));
    assert_eq!(effects, vec![Effect::SetBuffer, Effect::RenderMarkdown, Effect::SetTitle]);
    assert_eq!(app.pending, None);
    assert!(app.document.content.is_empty());
    assert_eq!(app.document.path, None);
}

#[test]
fn save_then_continue_with_path_writes_file() {
    let mut app = opened("/a.md", "a");
    app.update(Message::Edited(EditKind::Other, b("ab")));
    app.update(Message::OpenFile);
    assert_eq!(app.update(Message::DialogSave), vec![Effect::WriteFile]);
    assert_eq!(
        app.update(Message::FileSaved(b("/a.md"))),
        vec![Effect::SetTitle, Effect::OpenFileDialog]
    );
}

#[test]
fn cancelled_save_drops_pending_action() {
    let mut app = typed("x");
    app.update(Message::New);
    app.update(Message::DialogSave);
    app.update(Message::DialogCancelled);
    assert_eq!(app.pending, None);
    assert_eq!(app.document.content, b("x"));
}

#[test]
fn failed_save_shows_error() {
    let mut app = typed("x");
    app.update(Message::RequestQuit);
    app.update(Message::DialogSave);
    assert!(app.update(Message::DialogError("disk full".to_string())).is_empty());
    assert_eq!(app.error, Some("disk full".to_string()));
    assert_eq!(app.pending, None);
    app.update(Message::DismissError);
    assert_eq!(app.error, None);
}

#[test]
fn plain_save_clears_dirty_and_sets_title() {
    let mut app = opened("/a.md", "a");
    app.update(Message::Edited(EditKind::Other, b("ab")));
    assert_eq!(app.update(Message::SaveFile), vec![Effect::WriteFile]);
    assert_eq!(app.update(Message::FileSaved(b("/a.md"))), vec![Effect::SetTitle]);
    assert!(!app.document.dirty);
}

#[test]
fn save_as_always_prompts() {
    let mut app = opened("/a.md", "a");
    assert_eq!(app.update(Message::SaveFileAs), vec![Effect::SaveAsDialog]);
}

#[test]
fn untitled_save_prompts_for_path() {
    let mut app = typed("x");
    assert_eq!(app.update(Message::SaveFile), vec![Effect::SaveAsDialog]);
}

#[test]
fn save_contents_use_document_convention() {
    let mut app = opened("/w.md", "a\r\nb");
    app.update(Message::Edited(EditKind::Other, b("a\nb\nc")));
    assert_eq!(app.save_contents(), b("a\r\nb\r\nc"));
}

#[test]
fn quit_flow() {
    let mut app = typed("x");
    assert!(matches!(app.on_close_requested(), Some(Message::RequestQuit)));
    app.update(Message::RequestQuit);
    assert_eq!(app.dialog, Some(Dialog::ConfirmDiscard(PendingAction::Quit)));
    assert_eq!(app.update(Message::DialogDiscard), vec![Effect::CloseWindow]);
    assert!(app.quitting);
    assert!(app.on_close_requested().is_none());
}

#[test]
fn clean_document_closes_without_prompt() {
    let app = fresh();
    assert!(app.on_close_requested().is_none());
}

#[test]
fn own_save_is_ignored() {
    let mut app = opened("/w.md", "a\r\nb");
    app.update(Message::Edited(EditKind::Other, b("a\nb\nc")));
    let written = app.save_contents();
    app.update(Message::FileSaved(b("/w.md")));
    let before = app.document.content.clone();
    assert!(app.update(Message::ExternalContent(Ok(written))).is_empty());
    assert_eq!(app.document.content, before);
    assert_eq!(app.dialog, None);
}

#[test]
fn external_change_reloads_clean_document() {
    let mut app = opened("/w.md", "old");
    let effects = app.update(Message::ExternalContent(Ok(b("new\r\n"))));
    assert_eq!(effects, vec![Effect::SetBuffer, Effect::RenderMarkdown]);
    assert_eq!(app.document.content, b("new\r\n"));
    assert_eq!(app.document.line_ending, LineEnding::Crlf);
    assert!(!app.document.dirty);
}

#[test]
fn external_change_on_dirty_document_prompts() {
    let mut app = opened("/w.md", "old");
    app.update(Message::Edited(EditKind::Other, b("mine")));
    assert!(app.update(Message::ExternalContent(Ok(b("theirs")))).is_empty());
    assert_eq!(app.dialog, Some(Dialog::ConflictReload(b("theirs"))));
    assert_eq!(app.document.content, b("mine"));
    // Keep mine.
    app.update(Message::KeepLocal);
    assert_eq!(app.dialog, None);
    assert_eq!(app.document.content, b("mine"));
}

#[test]
fn conflict_reload_from_disk() {
    let mut app = opened("/w.md", "old");
    app.update(Message::Edited(EditKind::Other, b("mine")));
    app.update(Message::ExternalContent(Ok(b("theirs"))));
    let effects = app.update(Message::ReloadFromDisk);
    assert_eq!(effects, vec![Effect::SetBuffer, Effect::RenderMarkdown, Effect::SetTitle]);
    assert_eq!(app.document.content, b("theirs"));
    assert!(!app.document.dirty);
    assert!(app.undo_stack.is_empty());
}

#[test]
fn external_read_failure_is_ignored() {
    let mut app = opened("/w.md", "old");
    assert!(app.update(Message::ExternalContent(Err("gone".to_string()))).is_empty());
    assert_eq!(app.document.content, b("old"));
}

#[test]
fn file_change_is_read_only_without_dialog() {
    let mut app = opened("/w.md", "old");
    assert_eq!(app.update(Message::FileChangedOnDisk), vec![Effect::ReadExternal]);
    app.update(Message::Edited(EditKind::Other, b("x")));
    app.update(Message::New);
    assert!(app.update(Message::FileChangedOnDisk).is_empty());
    let mut untitled = fresh();
    assert!(untitled.update(Message::FileChangedOnDisk).is_empty());
}

#[test]
fn clipboard_flows() {
    let mut app = typed("hello");
    assert_eq!(
        app.update(Message::Copy(Some("he".to_string()))),
        vec![Effect::WriteClipboard("he".to_string())]
    );
    assert!(app.update(Message::Copy(None)).is_empty());
    assert_eq!(
        app.update(Message::Cut(Some("he".to_string()))),
        vec![Effect::DeleteSelection, Effect::WriteClipboard("he".to_string())]
    );
    assert!(app.update(Message::Cut(None)).is_empty());
    assert_eq!(app.update(Message::Changed(b("llo"))), vec![Effect::RenderMarkdown]);
    assert_eq!(app.undo_stack.last(), Some(&b("hello")));
    assert_eq!(app.update(Message::Paste), vec![Effect::ReadClipboard]);
    assert_eq!(
        app.update(Message::Pasted(Some("x".to_string()))),
        vec![Effect::PasteText("x".to_string())]
    );
    assert!(app.update(Message::Pasted(None)).is_empty());
    assert_eq!(app.update(Message::SelectAll), vec![Effect::SelectAll]);
}

#[test]
fn find_selects_first_match_and_focuses() {
    let mut app = typed("ab ab\nab");
    app.update(Message::ToggleMode);
    let effects = app.update(Message::FindOpen);
    assert_eq!(effects, vec![Effect::FocusFind]);
    assert_eq!(app.document.mode, Mode::Source);
    let effects = app.update(Message::FindQueryChanged(b("ab")));
    assert_eq!(effects, vec![Effect::Select(Match { line: 0, start: 0, end: 2 })]);
    assert_eq!(app.search.matches.len(), 3);
    assert_eq!(
        app.match_count(),
        MatchCount::Position { current: 1, total: 3 }
    );
}

#[test]
fn find_next_and_prev_wrap() {
    let mut app = typed("ab ab\nab");
    app.update(Message::FindOpen);
    app.update(Message::FindQueryChanged(b("ab")));
    assert_eq!(
        app.update(Message::FindPrev),
        vec![Effect::Select(Match { line: 1, start: 0, end: 2 })]
    );
    assert_eq!(app.search.current, 2);
    assert_eq!(
        app.update(Message::FindNext),
        vec![Effect::Select(Match { line: 0, start: 0, end: 2 })]
    );
    app.update(Message::FindNext);
    assert_eq!(app.search.current, 1);
    app.update(Message::FindPrev);
    assert_eq!(app.search.current, 0);
}

#[test]
fn find_without_matches() {
    let mut app = typed("abc");
    app.update(Message::FindOpen);
    assert!(app.update(Message::FindQueryChanged(b("zz"))).is_empty());
    assert_eq!(app.match_count(), MatchCount::NoMatches);
    assert!(!app.can_navigate_matches());
    assert!(!app.can_replace());
    assert!(app.update(Message::FindNext).is_empty());
    assert!(app.update(Message::ReplaceCurrent).is_empty());
    assert!(app.update(Message::ReplaceAll).is_empty());
    app.update(Message::FindQueryChanged(b("")));
    assert_eq!(app.match_count(), MatchCount::Blank);
}

#[test]
fn find_and_replace_toggle() {
    let mut app = fresh();
    app.update(Message::FindOpen);
    assert!(app.search.active && !app.search.show_replace);
    app.update(Message::ReplaceOpen);
    assert!(app.search.active && app.search.show_replace);
    app.update(Message::ReplaceOpen);
    assert!(!app.search.active);
    app.update(Message::ReplaceOpen);
    app.update(Message::FindOpen);
    assert!(app.search.active && !app.search.show_replace);
    app.update(Message::FindOpen);
    assert!(!app.search.active);
    app.update(Message::FindOpen);
    app.on_escape();
    assert!(!app.search.active);
    app.update(Message::FindOpen);
    assert!(app.update(Message::FindClose).is_empty());
    assert!(!app.search.active);
}

#[test]
fn replace_current_flow() {
    let mut app = typed("cat cat");
    app.update(Message::ReplaceOpen);
    app.update(Message::FindQueryChanged(b("cat")));
    app.update(Message::ReplacementChanged(b("dog")));
    app.update(Message::FindNext);
    let effects = app.update(Message::ReplaceCurrent);
    assert_eq!(
        effects,
        vec![Effect::Select(Match { line: 0, start: 4, end: 7 }), Effect::PasteReplacement]
    );
    let effects = app.update(Message::ReplacedCurrent(b("cat dog")));
    assert_eq!(
        effects,
        vec![Effect::RenderMarkdown, Effect::Select(Match { line: 0, start: 0, end: 3 })]
    );
    assert_eq!(app.search.matches.len(), 1);
    assert_eq!(app.search.current, 0);
    assert_eq!(app.undo_stack.last(), Some(&b("cat cat")));
}

#[test]
fn replace_all_flow() {
    let mut app = typed("a-b-c");
    app.update(Message::ReplaceOpen);
    app.update(Message::FindQueryChanged(b("-")));
    app.update(Message::ReplacementChanged(b("+")));
    assert!(app.can_replace());
    let effects = app.update(Message::ReplaceAll);
    assert_eq!(effects, vec![Effect::SetBuffer, Effect::RenderMarkdown]);
    assert_eq!(app.document.content, b("a+b+c"));
    assert!(app.search.matches.is_empty());
    app.update(Message::Undo);
    assert_eq!(app.document.content, b("a-b-c"));
    // After an undo the matches are found again.
    assert_eq!(app.search.matches.len(), 2);
}

#[test]
fn replace_all_with_query_keeps_text() {
    let mut app = typed("xyx");
    app.update(Message::FindQueryChanged(b("x")));
    app.update(Message::ReplacementChanged(b("x")));
    app.update(Message::ReplaceAll);
    assert_eq!(app.document.content, b("xyx"));
}

#[test]
fn highlight_only_while_searching() {
    let mut app = typed("abc");
    app.update(Message::FindQueryChanged(b("b")));
    assert!(app.highlight_query().is_empty());
    app.update(Message::FindOpen);
    assert_eq!(app.highlight_query(), b("b"));
    assert!(app.find_bar_visible());
    app.update(Message::ToggleMode);
    assert!(!app.find_bar_visible());
}

#[test]
fn menu_items_follow_mode_and_history() {
    let mut app = fresh();
    assert!(app.edit_actions_enabled());
    assert!(!app.undo_enabled());
    app.update(Message::Changed(b("x")));
    assert!(app.undo_enabled());
    assert!(!app.redo_enabled());
    app.update(Message::Undo);
    assert!(app.redo_enabled());
    app.update(Message::ToggleMode);
    assert!(!app.edit_actions_enabled());
    assert!(!app.redo_enabled());
}

#[test]
fn zoom_is_bounded() {
    let mut app = fresh();
    for _ in 0..30 {
        app.update(Message::ZoomIn);
    }
    assert_eq!(app.zoom, 32);
    assert_eq!(app.editor_text_size(), 46);
    assert_eq!(app.view_text_size(), 48);
    for _ in 0..30 {
        app.update(Message::ZoomOut);
    }
    assert_eq!(app.zoom, -6);
    app.update(Message::ZoomReset);
    assert_eq!(app.zoom, 0);
    app.update(Message::ZoomIn);
    app.update(Message::ZoomOut);
    assert_eq!(app.zoom, 0);
}

#[test]
fn context_page_toggles() {
    let mut app = fresh();
    app.update(Message::ToggleContextPage(ContextPage::About));
    assert!(app.show_context);
    app.update(Message::ToggleContextPage(ContextPage::About));
    assert!(!app.show_context);
}

#[test]
fn header_bar_toggles() {
    let mut app = fresh();
    assert!(app.show_headerbar);
    app.update(Message::ToggleHeaderBar);
    assert!(!app.show_headerbar);
}

#[test]
fn launch_url_is_an_effect() {
    let mut app = fresh();
    assert_eq!(
        app.update(Message::LaunchUrl("https://example.org".to_string())),
        vec![Effect::OpenUrl("https://example.org".to_string())]
    );
}

#[test]
fn menu_action_messages() {
    assert!(matches!(MenuAction::New.message(None), Message::New));
    assert!(matches!(MenuAction::Open.message(None), Message::OpenFile));
    assert!(matches!(MenuAction::SaveAs.message(None), Message::SaveFileAs));
    assert!(matches!(MenuAction::Find.message(None), Message::FindOpen));
    assert!(matches!(MenuAction::Replace.message(None), Message::ReplaceOpen));
    assert!(matches!(
        MenuAction::About.message(None),
        Message::ToggleContextPage(ContextPage::About)
    ));
    assert!(matches!(
        MenuAction::Cut.message(Some("s".to_string())),
        Message::Cut(Some(ref s)) if s == "s"
    ));
}

#[test]
fn key_bindings_table() {
    let binds = key_binds();
    assert_eq!(binds.len(), 17);
    for (i, a) in binds.iter().enumerate() {
        for c in binds.iter().skip(i + 1) {
            assert!(!(a.ctrl == c.ctrl && a.shift == c.shift && a.key == c.key));
        }
    }
    let save_as = binds.iter().find(|k| k.shift && k.key == 's').unwrap();
    assert_eq!(save_as.action, MenuAction::SaveAs);
    let redo: Vec<_> = binds.iter().filter(|k| k.action == MenuAction::Redo).collect();
    assert_eq!(redo.len(), 2);
}

#[test]
fn whitespace_classification_matches_std() {
    for c in ['a', ' ', '\t', '\n', '\u{85}', '\u{a0}', '\u{2003}', '\u{3000}', 'é', '\u{200b}'] {
        assert_eq!(is_whitespace_char(c), c.is_whitespace(), "{c:?}");
    }
    for u in 0u32..0x3100 {
        if let Some(c) = char::from_u32(u) {
            assert_eq!(is_whitespace_char(c), c.is_whitespace());
        }
    }
}

#[test]
fn window_title_with_and_without_file() {
    assert_eq!(
        window_title(b"Cosmic Markdown", Some(&b"notes.md"[..]), false),
        "Cosmic Markdown \u{2014} notes.md".as_bytes().to_vec()
    );
    assert_eq!(
        window_title(b"Cosmic Markdown", Some(&b"notes.md"[..]), true),
        "Cosmic Markdown \u{2014} *notes.md".as_bytes().to_vec()
    );
    assert_eq!(window_title(b"Cosmic Markdown", None, false), b("Cosmic Markdown"));
    assert_eq!(window_title(b"Cosmic Markdown", None, true), b("*Cosmic Markdown"));
}

#[test]
fn title_marks_unsaved_changes() {
    let mut app = opened("/n/notes.md", "a");
    let name = &b"notes.md"[..];
    assert_eq!(
        app.update_title(b"App", Some(name)),
        "App \u{2014} notes.md".as_bytes().to_vec()
    );
    // The first edit dirties the document and refreshes the title.
    let effects = app.update(Message::Edited(EditKind::Insert('b'), b("ab")));
    assert_eq!(effects, vec![Effect::RenderMarkdown, Effect::SetTitle]);
    assert_eq!(
        app.update_title(b"App", Some(name)),
        "App \u{2014} *notes.md".as_bytes().to_vec()
    );
    // Further edits keep it dirty: no refresh needed.
    let effects = app.update(Message::Edited(EditKind::Insert('c'), b("abc")));
    assert_eq!(effects, vec![Effect::RenderMarkdown]);
    // Saving clears the marker.
    assert_eq!(app.update(Message::FileSaved(b("/n/notes.md"))), vec![Effect::SetTitle]);
    assert_eq!(
        app.update_title(b"App", Some(name)),
        "App \u{2014} notes.md".as_bytes().to_vec()
    );
}

#[test]
fn title_refreshes_on_undo_replace_and_reload() {
    let mut app = opened("/w.md", "abc");
    assert_eq!(
        app.update(Message::Changed(b("ab"))),
        vec![Effect::RenderMarkdown, Effect::SetTitle]
    );
    app.update(Message::FileSaved(b("/w.md")));
    assert_eq!(
        app.update(Message::Undo),
        vec![Effect::SetBuffer, Effect::RenderMarkdown, Effect::SetTitle]
    );
    app.update(Message::FileSaved(b("/w.md")));
    app.update(Message::FindQueryChanged(b("b")));
    app.update(Message::ReplacementChanged(b("x")));
    assert_eq!(
        app.update(Message::ReplaceAll),
        vec![Effect::SetBuffer, Effect::RenderMarkdown, Effect::SetTitle]
    );
    app.update(Message::ExternalContent(Ok(b("disk"))));
    assert_eq!(
        app.update(Message::ReloadFromDisk),
        vec![Effect::SetBuffer, Effect::RenderMarkdown, Effect::SetTitle]
    );
    assert!(!app.document.dirty);
}

#[test]
fn replace_all_with_stale_matches_keeps_text() {
    let mut app = typed("abc");
    app.update(Message::FindQueryChanged(b("b")));
    app.update(Message::ReplacementChanged(b("x")));
    assert_eq!(app.search.matches.len(), 1);
    // Typing does not re-run the search, so the match is stale.
    app.update(Message::Edited(EditKind::Backspace, b("ac")));
    assert_eq!(app.search.matches.len(), 1);
    app.update(Message::ReplaceAll);
    assert_eq!(app.document.content, b("ac"));
    assert!(app.search.matches.is_empty());
}

#[test]
fn whole_typing_run_is_one_undo_step() {
    let mut app = typed("x ");
    let before_undo = app.undo_stack.clone();
    for (k, c) in "word".chars().enumerate() {
        let text = format!("x {}", &"word"[..=k]);
        app.update(Message::Edited(EditKind::Insert(c), b(&text)));
    }
    let mut expected = before_undo.clone();
    expected.push(b("x "));
    assert_eq!(app.undo_stack, expected);
    assert!(app.redo_stack.is_empty());
    app.update(Message::Undo);
    assert_eq!(app.document.content, b("x "));
}

#[test]
fn whole_backspace_run_is_one_undo_step() {
    let mut app = typed("abcd");
    let mut expected = app.undo_stack.clone();
    expected.push(b("abcd"));
    for text in ["abc", "ab", "a"] {
        app.update(Message::Edited(EditKind::Backspace, b(text)));
    }
    assert_eq!(app.undo_stack, expected);
    app.update(Message::Undo);
    assert_eq!(app.document.content, b("abcd"));
}
