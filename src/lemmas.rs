use vstd::prelude::*;
use crate::document::document_fits;
use crate::editor::{
    cursor_in_bounds, cursor_in_view, farewell_text, frame_of, is_quit, row_len, state_at, step,
    EditorView, FrameView, Key, Position,
};

verus! {

/// A key never takes the cursor off the document: it stays on a row or
/// just past the last one, and no further right than the end of its row.
pub proof fn lemma_step_keeps_cursor_in_bounds(v: EditorView, k: Key)
    requires
        document_fits(v.document),
        cursor_in_bounds(v),
    ensures
        cursor_in_bounds(step(v, k)),
{
}

/// Keys change neither the terminal size nor the document.
pub proof fn lemma_keys_keep_size_and_document(v: EditorView, keys: Seq<Key>, i: int)
    requires
        0 <= i <= keys.len(),
    ensures
        state_at(v, keys, i).size == v.size,
        state_at(v, keys, i).document == v.document,
    decreases i,
{
    if i > 0 {
        lemma_keys_keep_size_and_document(v, keys, i - 1);
    }
}

/// Every cursor position reached by a sequence of keys lies on the
/// document, starting from one that does (such as the origin).
pub proof fn lemma_keys_keep_cursor_in_bounds(v: EditorView, keys: Seq<Key>, i: int)
    requires
        document_fits(v.document),
        cursor_in_bounds(v),
        0 <= i <= keys.len(),
    ensures
        cursor_in_bounds(state_at(v, keys, i)),
    decreases i,
{
    if i > 0 {
        lemma_keys_keep_size_and_document(v, keys, i - 1);
        lemma_keys_keep_cursor_in_bounds(v, keys, i - 1);
        lemma_step_keeps_cursor_in_bounds(state_at(v, keys, i - 1), keys[i - 1]);
    }
}

/// Down on the line just past the last row leaves the cursor where it is,
/// and the whole editor when the viewport already shows the cursor.
pub proof fn lemma_down_at_end_is_no_op(v: EditorView)
    requires
        document_fits(v.document),
        cursor_in_bounds(v),
        v.cursor.y == v.document.len(),
    ensures
        step(v, Key::Down).cursor == v.cursor,
        cursor_in_view(v) ==> step(v, Key::Down) == v,
{
}

/// Up on the first row leaves the cursor where it is, and the whole editor
/// when the viewport already shows the cursor.
pub proof fn lemma_up_at_top_is_no_op(v: EditorView)
    requires
        document_fits(v.document),
        cursor_in_bounds(v),
        v.cursor.y == 0,
    ensures
        step(v, Key::Up).cursor == v.cursor,
        cursor_in_view(v) ==> step(v, Key::Up) == v,
{
}

/// On a terminal of at least one row and one column, the cursor is inside
/// the viewport after every key.
pub proof fn lemma_step_brings_cursor_into_view(v: EditorView, k: Key)
    requires
        v.size.width > 0,
        v.size.height > 0,
    ensures
        cursor_in_view(step(v, k)),
{
}

/// On a terminal of at least one row and one column, the cursor is inside
/// the viewport after any sequence of keys, starting from a state where it
/// is (such as the origin).
pub proof fn lemma_keys_keep_cursor_in_view(v: EditorView, keys: Seq<Key>, i: int)
    requires
        v.size.width > 0,
        v.size.height > 0,
        cursor_in_view(v),
        0 <= i <= keys.len(),
    ensures
        cursor_in_view(state_at(v, keys, i)),
{
    if i > 0 {
        lemma_keys_keep_size_and_document(v, keys, i - 1);
        lemma_step_brings_cursor_into_view(state_at(v, keys, i - 1), keys[i - 1]);
    }
}

/// Home then End on a row of length `L` puts the cursor at column 0, then
/// at column `L`, on the same row.
pub proof fn lemma_home_then_end(v: EditorView)
    requires
        document_fits(v.document),
        cursor_in_bounds(v),
    ensures
        step(v, Key::Home).cursor == (Position { x: 0, y: v.cursor.y }),
        step(step(v, Key::Home), Key::End).cursor == (Position {
            x: row_len(v.document, v.cursor.y as int) as usize,
            y: v.cursor.y,
        }),
{
}

/// Page down from the first row goes one terminal height down, or to the
/// line past the last row when the document is shorter than that.
pub proof fn lemma_page_down_from_top(v: EditorView)
    requires
        document_fits(v.document),
        v.cursor.y == 0,
    ensures
        step(v, Key::PageDown).cursor.y == (if v.size.height <= v.document.len() {
            v.size.height as int
        } else {
            v.document.len() as int
        }),
{
}

/// The quit key ends the session from any state: every later state has
/// ended, and the next redraw is the farewell frame.
pub proof fn lemma_quit_ends_session(v: EditorView, keys: Seq<Key>, j: int)
    requires
        0 <= j < keys.len(),
        is_quit(keys[j]),
    ensures
        forall|n: int|
            j < n <= keys.len() ==> (#[trigger] state_at(v, keys, n)).should_quit,
        frame_of(state_at(v, keys, j + 1)) == (FrameView::Farewell { message: farewell_text() }),
{
    assert forall|n: int| j < n <= keys.len() implies (#[trigger] state_at(v, keys, n)).should_quit by {
        lemma_ended_stays_ended(v, keys, j + 1, n);
    }
}

proof fn lemma_ended_stays_ended(v: EditorView, keys: Seq<Key>, m: int, n: int)
    requires
        0 < m <= n <= keys.len(),
        is_quit(keys[m - 1]),
    ensures
        state_at(v, keys, n).should_quit,
    decreases n,
{
    if n > m {
        lemma_ended_stays_ended(v, keys, m, n - 1);
    }
}

} // verus!
