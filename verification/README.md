# cosmic-markdown

The document logic of a Markdown viewer/editor for the COSMIC desktop,
verified with Verus, and the COSMIC application around it.

- `src/` — the verified library.
  - `text` — byte-level text operations: newline normalization, CRLF
    conversion, literal replacement.
  - `utf8_text` — the buffer operations keep text valid UTF-8, and matches
    of a valid query fall on character boundaries.
  - `line_ending` — the LF/CRLF convention detected on open and applied on save.
  - `search` — splitting a buffer into lines and finding every occurrence of a
    query (byte offsets, leftmost first, without overlap).
  - `document` — the open document, view modes, pending actions and dialogs.
  - `model` — the application state and its state machine:
    `AppModel::update` takes a `Message` and returns the `Effect`s to carry out;
    its contract is the transition function `ModelView::next`.
  - `keys` — the keyboard shortcut table.
  - `laws` — properties spanning several transitions (unsaved changes are
    guarded, the app's own saves are not external changes, undo/redo round
    trips, the view and the window title follow the buffer, the text stays
    UTF-8, ...).
- `tests/` — tests of the library on concrete values.
- `app/` — the COSMIC application: widgets, menus, dialogs, clipboard, file I/O
  and the file watch. It turns widget events into `Message`s and performs the
  returned `Effect`s; the editor widget reports the buffer after each edit it
  applies (`Edited`, `Changed`, `ReplacedCurrent`).
