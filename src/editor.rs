use vstd::prelude::*;
use crate::document::{document_fits, Document};
use crate::row::{window, Row};

verus! {

/// A zero-based (column, row) pair.
#[derive(Clone, Copy, Debug, PartialEq, Eq, Structural)]
pub struct Position {
    pub x: usize,
    pub y: usize,
}

impl Default for Position {
    /// The origin.
    fn default() -> (p: Position)
        ensures
            p == (Position { x: 0, y: 0 }),
    {
        Position { x: 0, y: 0 }
    }
}

/// Terminal size in character cells.
#[derive(Clone, Copy, Debug, PartialEq, Eq, Structural)]
pub struct Size {
    pub width: u16,
    pub height: u16,
}

/// A key event, as far as the editor tells keys apart.
#[derive(Clone, Copy, Debug, PartialEq, Eq, Structural)]
pub enum Key {
    Up,
    Down,
    Left,
    Right,
    PageUp,
    PageDown,
    Home,
    End,
    Char(char),
    Ctrl(char),
    Other,
}

/// What the editor holds, as plain values.
pub struct EditorView {
    pub should_quit: bool,
    pub size: Size,
    pub cursor: Position,
    pub offset: Position,
    pub document: Seq<Seq<char>>,
    pub version: Seq<char>,
}

/// The read-only navigation core: a document, the cursor in it, and the
/// viewport offset (the document position of the screen's top-left cell).
pub struct Editor {
    should_quit: bool,
    size: Size,
    cursor_position: Position,
    offset: Position,
    document: Document,
    version: Vec<char>,
}

impl View for Editor {
    type V = EditorView;

    closed spec fn view(&self) -> EditorView {
        EditorView {
            should_quit: self.should_quit,
            size: self.size,
            cursor: self.cursor_position,
            offset: self.offset,
            document: self.document@,
            version: self.version@,
        }
    }
}

/// Length of row `y`, or 0 when the document has no such row.
pub open spec fn row_len(doc: Seq<Seq<char>>, y: int) -> int {
    if 0 <= y < doc.len() {
        doc[y].len() as int
    } else {
        0
    }
}

/// The keystroke that ends the session.
pub open spec fn is_quit(k: Key) -> bool {
    k == Key::Ctrl('q')
}

pub open spec fn is_navigation(k: Key) -> bool {
    matches!(k, Key::Up | Key::Down | Key::Left | Key::Right | Key::PageUp | Key::PageDown | Key::Home | Key::End)
}

/// The cursor after navigation key `k`. Vertical moves stay within
/// `0..=row count` (one past the last row is allowed), horizontal ones within
/// the current row, and after any move the column is clamped to the length
/// of the row the cursor ends on.
pub open spec fn moved(v: EditorView, k: Key) -> Position {
    let x = v.cursor.x as int;
    let y = v.cursor.y as int;
    let h = v.document.len() as int;
    let th = v.size.height as int;
    let w = row_len(v.document, y);
    let (nx, ny) = match k {
        Key::Up => (x, if y > 0 { y - 1 } else { 0 }),
        Key::Down => (x, if y < h { y + 1 } else { y }),
        Key::Left => (if x > 0 { x - 1 } else { 0 }, y),
        Key::Right => (if x < w { x + 1 } else { x }, y),
        Key::Home => (0, y),
        Key::End => (w, y),
        Key::PageUp => (x, if y > th { y - th } else { 0 }),
        Key::PageDown => (x, if y + th < h { y + th } else { h }),
        _ => (x, y),
    };
    let w2 = row_len(v.document, ny);
    Position { x: (if nx > w2 { w2 } else { nx }) as usize, y: ny as usize }
}

/// New offset along one axis: unchanged while `c` is inside
/// `[off, off + size)`, otherwise the least move that brings it inside.
pub open spec fn scroll_axis(c: int, off: int, size: int) -> int {
    if c < off {
        c
    } else if c >= off + size {
        if size == 0 {
            c
        } else {
            c - size + 1
        }
    } else {
        off
    }
}

pub open spec fn scrolled(v: EditorView) -> Position {
    Position {
        x: scroll_axis(v.cursor.x as int, v.offset.x as int, v.size.width as int) as usize,
        y: scroll_axis(v.cursor.y as int, v.offset.y as int, v.size.height as int) as usize,
    }
}

/// The editor after one key: the quit key ends the session, a navigation key
/// moves the cursor, any other key changes nothing; then the viewport follows
/// the cursor.
pub open spec fn step(v: EditorView, k: Key) -> EditorView {
    let v1 = if is_quit(k) {
        EditorView { should_quit: true, ..v }
    } else if is_navigation(k) {
        EditorView { cursor: moved(v, k), ..v }
    } else {
        v
    };
    EditorView { offset: scrolled(v1), ..v1 }
}

/// The editor after the first `i` keys of `keys`.
pub open spec fn state_at(v: EditorView, keys: Seq<Key>, i: int) -> EditorView
    decreases i,
{
    if i <= 0 {
        v
    } else {
        step(state_at(v, keys, i - 1), keys[i - 1])
    }
}

/// The cursor is on a row of the document or just past the last one, and
/// no further right than the end of its row.
pub open spec fn cursor_in_bounds(v: EditorView) -> bool {
    &&& v.cursor.y <= v.document.len()
    &&& v.cursor.x <= row_len(v.document, v.cursor.y as int)
}

/// The cursor lies inside the visible window.
pub open spec fn cursor_in_view(v: EditorView) -> bool {
    &&& v.offset.y <= v.cursor.y < v.offset.y + v.size.height
    &&& v.offset.x <= v.cursor.x < v.offset.x + v.size.width
}


/// What one redraw shows.
pub enum Frame {
    /// The screen while the editor runs: one line per drawn screen row, and
    /// where the terminal cursor goes.
    Screen { lines: Vec<Vec<char>>, cursor: Position },
    /// The last frame: the screen is cleared and `message` printed.
    Farewell { message: Vec<char> },
}

pub enum FrameView {
    Screen { lines: Seq<Seq<char>>, cursor: Position },
    Farewell { message: Seq<char> },
}

impl View for Frame {
    type V = FrameView;

    open spec fn view(&self) -> FrameView {
        match self {
            Frame::Screen { lines, cursor } => FrameView::Screen {
                lines: lines@.map_values(|l: Vec<char>| l@),
                cursor: *cursor,
            },
            Frame::Farewell { message } => FrameView::Farewell { message: message@ },
        }
    }
}

pub open spec fn welcome_prefix() -> Seq<char> {
    seq![
        'E', 'z', 'h', 'u', 't', 'h', 'u', ' ', 'e', 'd', 'i', 't', 'o', 'r', ' ', '-', '-', ' ',
        'v', 'e', 'r', 's', 'i', 'o', 'n', ' ',
    ]
}

pub open spec fn farewell_text() -> Seq<char> {
    seq!['G', 'o', 'o', 'd', 'b', 'y', 'e', ' ', 'M', 'o', 'o', 'n', ' ', 'm', 'a', 'n', '!']
}

/// The welcome banner: a `~` marker, then the message centred in `width`
/// columns, cut at `width`.
pub open spec fn welcome_line(width: int, version: Seq<char>) -> Seq<char> {
    let msg = welcome_prefix() + version;
    let pad = if width > msg.len() { (width - msg.len()) / 2 } else { 0 };
    let spaces = if pad > 0 { pad - 1 } else { 0 };
    let full = seq!['~'] + Seq::new(spaces as nat, |i: int| ' ') + msg;
    if full.len() > width {
        full.subrange(0, width)
    } else {
        full
    }
}

/// Screen row `r`: document row `r + offset.y` cut to the horizontal window
/// `[offset.x, offset.x + width)`; past the document, the welcome banner on
/// the row a third of the way down when the document is empty, else `~`.
pub open spec fn screen_line(v: EditorView, r: int) -> Seq<char> {
    let d = r + v.offset.y;
    if d < v.document.len() {
        window(v.document[d], v.offset.x as int, v.offset.x + v.size.width)
    } else if v.document.len() == 0 && r == v.size.height / 3 {
        welcome_line(v.size.width as int, v.version)
    } else {
        seq!['~']
    }
}

/// All drawn rows: every screen row but the bottom one.
pub open spec fn screen_lines(v: EditorView) -> Seq<Seq<char>> {
    let n: nat = if v.size.height > 0 { (v.size.height - 1) as nat } else { 0 };
    Seq::new(n, |r: int| screen_line(v, r))
}

/// The cursor in screen coordinates: document cursor minus offset,
/// never below zero.
pub open spec fn screen_cursor(v: EditorView) -> Position {
    Position {
        x: (if v.cursor.x >= v.offset.x { v.cursor.x - v.offset.x } else { 0 }) as usize,
        y: (if v.cursor.y >= v.offset.y { v.cursor.y - v.offset.y } else { 0 }) as usize,
    }
}

pub open spec fn frame_of(v: EditorView) -> FrameView {
    if v.should_quit {
        FrameView::Farewell { message: farewell_text() }
    } else {
        FrameView::Screen { lines: screen_lines(v), cursor: screen_cursor(v) }
    }
}

impl Editor {
    /// A running editor over `document` on a terminal of `size`, cursor and
    /// viewport at the origin; `version` is shown in the welcome banner.
    pub fn new(document: Document, size: Size, version: Vec<char>) -> (e: Editor)
        ensures
            e@ == (EditorView {
                should_quit: false,
                size,
                cursor: Position { x: 0, y: 0 },
                offset: Position { x: 0, y: 0 },
                document: document@,
                version: version@,
            }),
            cursor_in_bounds(e@),
            document_fits(e@.document),
    {
        proof {
            document.lemma_fits();
        }
        Editor {
            should_quit: false,
            size,
            cursor_position: Position { x: 0, y: 0 },
            offset: Position { x: 0, y: 0 },
            document,
            version,
        }
    }

    pub fn cursor_position(&self) -> (p: Position)
        ensures
            p == self@.cursor,
    {
        self.cursor_position
    }

    pub fn offset(&self) -> (p: Position)
        ensures
            p == self@.offset,
    {
        self.offset
    }

    pub fn should_quit(&self) -> (r: bool)
        ensures
            r == self@.should_quit,
    {
        self.should_quit
    }

    pub fn size(&self) -> (s: Size)
        ensures
            s == self@.size,
    {
        self.size
    }

    pub fn document(&self) -> (d: &Document)
        ensures
            d@ == self@.document,
    {
        &self.document
    }

    fn row_len(&self, y: usize) -> (r: usize)
        ensures
            r == row_len(self@.document, y as int),
    {
        match self.document.row(y) {
            Some(row) => row.len(),
            None => 0,
        }
    }

    /// Moves the cursor for navigation key `key` (other keys leave it).
    pub fn move_cursor(&mut self, key: Key)
        ensures
            final(self)@ == (EditorView {
                cursor: if is_navigation(key) { moved(old(self)@, key) } else { old(self)@.cursor },
                ..old(self)@
            }),
    {
        if !is_navigation_key(key) {
            return;
        }
        let terminal_h = self.size.height as usize;
        let x = self.cursor_position.x;
        let y = self.cursor_position.y;
        let h = self.document.len();
        let w = self.row_len(y);
        let (nx, ny): (usize, usize) = match key {
            Key::Up => (x, if y > 0 { y - 1 } else { 0 }),
            Key::Down => (x, if y < h { y + 1 } else { y }),
            Key::Left => (if x > 0 { x - 1 } else { 0 }, y),
            Key::Right => (if x < w { x + 1 } else { x }, y),
            Key::Home => (0, y),
            Key::End => (w, y),
            Key::PageUp => (x, if y > terminal_h { y - terminal_h } else { 0 }),
            Key::PageDown => (x, if y < h && terminal_h < h - y { y + terminal_h } else { h }),
            _ => (x, y),
        };
        let w2 = self.row_len(ny);
        let nx = if nx > w2 { w2 } else { nx };
        self.cursor_position = Position { x: nx, y: ny };
    }

    /// Moves the viewport the least amount that keeps the cursor visible.
    pub fn scroll(&mut self)
        ensures
            final(self)@ == (EditorView { offset: scrolled(old(self)@), ..old(self)@ }),
    {
        let x = self.cursor_position.x;
        let y = self.cursor_position.y;
        let width = self.size.width as usize;
        let height = self.size.height as usize;
        self.offset = Position {
            x: scroll_axis_exec(x, self.offset.x, width),
            y: scroll_axis_exec(y, self.offset.y, height),
        };
    }

    /// Handles one key: the quit key ends the session, navigation keys move
    /// the cursor, others are ignored; the viewport then follows the cursor.
    pub fn process_key_press(&mut self, key: Key)
        ensures
            final(self)@ == step(old(self)@, key),
    {
        if is_quit_key(key) {
            self.should_quit = true;
        } else {
            self.move_cursor(key);
        }
        self.scroll();
    }

    /// Document row `row` as drawn: the columns of the horizontal window.
    pub fn draw_row(&self, row: &Row) -> (r: Vec<char>)
        ensures
            r@ == window(row@, self@.offset.x as int, self@.offset.x + self@.size.width),
    {
        proof {
            row.lemma_len_fits();
        }
        let width = self.size.width as usize;
        let start = self.offset.x;
        let end = start.saturating_add(width);
        row.render(start, end)
    }

    /// The welcome banner line.
    pub fn draw_msg(&self) -> (r: Vec<char>)
        ensures
            r@ == welcome_line(self@.size.width as int, self@.version),
    {
        let mut msg = welcome_prefix_chars();
        let mut i: usize = 0;
        while i < self.version.len()
            invariant
                i <= self.version@.len(),
                msg@ == welcome_prefix() + self.version@.subrange(0, i as int),
            decreases self.version@.len() - i,
        {
            msg.push(self.version[i]);
            assert(self.version@.subrange(0, i + 1) =~= self.version@.subrange(0, i as int).push(
                self.version@[i as int],
            ));
            i = i + 1;
        }
        assert(self.version@.subrange(0, i as int) =~= self.version@);
        let width = self.size.width as usize;
        let len = msg.len();
        let pad = if width > len { (width - len) / 2 } else { 0 };
        let spaces = if pad > 0 { pad - 1 } else { 0 };
        let mut line: Vec<char> = vec!['~'];
        let mut j: usize = 0;
        while j < spaces
            invariant
                j <= spaces,
                spaces <= width,
                line@ == seq!['~'] + Seq::new(j as nat, |k: int| ' '),
            decreases spaces - j,
        {
            line.push(' ');
            assert(seq!['~'] + Seq::new((j + 1) as nat, |k: int| ' ') =~= (seq!['~'] + Seq::new(
                j as nat,
                |k: int| ' ',
            )).push(' '));
            j = j + 1;
        }
        let ghost pre = line@;
        let mut k: usize = 0;
        while k < msg.len()
            invariant
                k <= msg@.len(),
                line@.len() == pre.len() + k,
                line@ == pre + msg@.subrange(0, k as int),
            decreases msg@.len() - k,
        {
            line.push(msg[k]);
            assert(msg@.subrange(0, k + 1) =~= msg@.subrange(0, k as int).push(msg@[k as int]));
            k = k + 1;
        }
        assert(msg@.subrange(0, k as int) =~= msg@);
        if line.len() > width {
            line.truncate(width);
        }
        assert(line@ =~= welcome_line(self@.size.width as int, self@.version));
        line
    }

    /// Screen row `r` as drawn.
    fn draw_line(&self, r: usize) -> (l: Vec<char>)
        ensures
            l@ == screen_line(self@, r as int),
    {
        let h = self.document.len();
        if self.offset.y <= h && r < h - self.offset.y {
            match self.document.row(self.offset.y + r) {
                Some(row) => self.draw_row(row),
                None => vec!['~'],
            }
        } else if h == 0 && r == (self.size.height / 3) as usize {
            self.draw_msg()
        } else {
            vec!['~']
        }
    }

    /// Every drawn screen row, top to bottom.
    pub fn draw_rows(&self) -> (r: Vec<Vec<char>>)
        ensures
            r@.map_values(|l: Vec<char>| l@) == screen_lines(self@),
    {
        let height = self.size.height as usize;
        let n: usize = if height > 0 { height - 1 } else { 0 };
        let mut lines: Vec<Vec<char>> = Vec::new();
        let mut r: usize = 0;
        while r < n
            invariant
                r <= n,
                n == (if self@.size.height > 0 { self@.size.height - 1 } else { 0 }),
                lines@.len() == r,
                lines@.map_values(|l: Vec<char>| l@) == Seq::new(r as nat, |i: int| screen_line(self@, i)),
            decreases n - r,
        {
            let l = self.draw_line(r);
            let ghost prev = lines@;
            let ghost pv = lines@.map_values(|l: Vec<char>| l@);
            lines.push(l);
            assert forall|i: int| 0 <= i < r + 1 implies lines@.map_values(|l: Vec<char>| l@)[i]
                == screen_line(self@, i) by {
                if i < r {
                    assert(pv[i] == screen_line(self@, i));
                    assert(lines@[i] == prev[i]);
                }
            }
            assert(lines@.map_values(|l: Vec<char>| l@) =~= Seq::new((r + 1) as nat, |i: int| screen_line(self@, i)));
            r = r + 1;
        }
        assert(lines@.map_values(|l: Vec<char>| l@) =~= screen_lines(self@));
        lines
    }

    /// One redraw: the farewell frame once the session ends, otherwise the
    /// drawn rows and the cursor in screen coordinates.
    pub fn refresh_screen(&self) -> (f: Frame)
        ensures
            f@ == frame_of(self@),
    {
        if self.should_quit {
            Frame::Farewell { message: farewell_chars() }
        } else {
            let lines = self.draw_rows();
            let cursor = Position {
                x: self.cursor_position.x.saturating_sub(self.offset.x),
                y: self.cursor_position.y.saturating_sub(self.offset.y),
            };
            Frame::Screen { lines, cursor }
        }
    }

    /// Runs the session over the keys `keys`, in order: redraw, stop once the
    /// session has ended or the keys are used up, else handle the next key.
    /// Returns every frame drawn; the keys handled are the first
    /// `frames.len() - 1`.
    pub fn run(&mut self, keys: &Vec<Key>) -> (frames: Vec<Frame>)
        ensures
            1 <= frames@.len() <= keys@.len() + 1,
            final(self)@ == state_at(old(self)@, keys@, frames@.len() - 1),
            forall|j: int|
                0 <= j < frames@.len() ==> #[trigger] frames@[j]@ == frame_of(
                    state_at(old(self)@, keys@, j),
                ),
            forall|j: int|
                0 <= j < frames@.len() - 1 ==> !(#[trigger] state_at(old(self)@, keys@, j)).should_quit,
            state_at(old(self)@, keys@, frames@.len() - 1).should_quit || frames@.len() - 1
                == keys@.len(),
    {
        let ghost start = self@;
        let mut frames: Vec<Frame> = Vec::new();
        frames.push(self.refresh_screen());
        let mut i: usize = 0;
        while !self.should_quit && i < keys.len()
            invariant
                i <= keys@.len(),
                self@ == state_at(start, keys@, i as int),
                frames@.len() == i + 1,
                forall|j: int|
                    0 <= j <= i ==> #[trigger] frames@[j]@ == frame_of(state_at(start, keys@, j)),
                forall|j: int| 0 <= j < i ==> !(#[trigger] state_at(start, keys@, j)).should_quit,
            decreases keys@.len() - i,
        {
            self.process_key_press(keys[i]);
            i = i + 1;
            frames.push(self.refresh_screen());
        }
        frames
    }
}

fn welcome_prefix_chars() -> (r: Vec<char>)
    ensures
        r@ == welcome_prefix(),
{
    let r = vec![
        'E', 'z', 'h', 'u', 't', 'h', 'u', ' ', 'e', 'd', 'i', 't', 'o', 'r', ' ', '-', '-', ' ',
        'v', 'e', 'r', 's', 'i', 'o', 'n', ' ',
    ];
    assert(r@ =~= welcome_prefix());
    r
}

fn farewell_chars() -> (r: Vec<char>)
    ensures
        r@ == farewell_text(),
{
    let r = vec!['G', 'o', 'o', 'd', 'b', 'y', 'e', ' ', 'M', 'o', 'o', 'n', ' ', 'm', 'a', 'n', '!'];
    assert(r@ =~= farewell_text());
    r
}

fn is_quit_key(k: Key) -> (r: bool)
    ensures
        r == is_quit(k),
{
    match k {
        Key::Ctrl(c) => c == 'q',
        _ => false,
    }
}

fn is_navigation_key(k: Key) -> (r: bool)
    ensures
        r == is_navigation(k),
{
    match k {
        Key::Up | Key::Down | Key::Left | Key::Right | Key::PageUp | Key::PageDown | Key::Home
        | Key::End => true,
        _ => false,
    }
}

fn scroll_axis_exec(c: usize, off: usize, size: usize) -> (r: usize)
    ensures
        r == scroll_axis(c as int, off as int, size as int),
{
    if c < off {
        c
    } else if c - off >= size {
        if size == 0 {
            c
        } else {
            c - (size - 1)
        }
    } else {
        off
    }
}

} // verus!
