//! A Markdown viewer and editor's document logic: line-ending handling,
//! find/replace, undo history and the application state machine that decides
//! what happens on each user or file-system event.
pub mod text;
pub mod line_ending;
pub mod search;
pub mod document;
pub mod model;
pub mod keys;
pub mod laws;
pub mod utf8_text;
