//! The navigation core of a small terminal text viewer: rows of text, a
//! document made of rows, and an editor state machine that moves a cursor,
//! keeps a viewport around it, and computes the frame to draw.
//!
//! Everything here is pure: the terminal itself (raw mode, key reading,
//! writing escape sequences) lives with the program that drives the editor.

mod document;
mod editor;
mod lemmas;
mod row;

pub use document::{document_fits, lines_of, split_at_newlines, strip_cr, Document};
pub use editor::{
    cursor_in_bounds, cursor_in_view, is_navigation, is_quit, moved, row_len, scroll_axis, scrolled,
    state_at, step, Editor, EditorView, Key, Position, Size, Frame, FrameView, frame_of, screen_line,
    screen_lines, screen_cursor, welcome_line, welcome_prefix, farewell_text,
};
pub use lemmas::{
    lemma_down_at_end_is_no_op, lemma_home_then_end, lemma_keys_keep_cursor_in_bounds,
    lemma_keys_keep_cursor_in_view, lemma_keys_keep_size_and_document, lemma_page_down_from_top,
    lemma_quit_ends_session, lemma_step_brings_cursor_into_view, lemma_step_keeps_cursor_in_bounds,
    lemma_up_at_top_is_no_op,
};
pub use row::{lemma_window_size, window, Row};
