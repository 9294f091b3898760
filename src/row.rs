use vstd::prelude::*;

verus! {

/// The part of `s` that falls inside the column window `[start, end)`:
/// `end` is clamped to the length of `s`, and `start` to that clamped end.
pub open spec fn window(s: Seq<char>, start: int, end: int) -> Seq<char> {
    let hi = if end < s.len() { end } else { s.len() as int };
    let lo = if start < hi { start } else { hi };
    s.subrange(lo, hi)
}

/// A rendered window never holds more than the columns of the window that
/// lie inside the row, `min(end, len) - min(start, len)`, and is empty when
/// the window starts at or past the end of the row.
pub proof fn lemma_window_size(s: Seq<char>, start: int, end: int)
    requires
        0 <= start <= end,
    ensures
        window(s, start, end).len() <= (if end < s.len() { end } else { s.len() as int }) - (
        if start < s.len() { start } else { s.len() as int }),
        start >= s.len() ==> window(s, start, end).len() == 0,
{
}

/// One line of text.
pub struct Row {
    chars: Vec<char>,
}

impl View for Row {
    type V = Seq<char>;

    closed spec fn view(&self) -> Seq<char> {
        self.chars@
    }
}

impl Row {
    /// A row holding exactly `content`.
    pub fn new(content: Vec<char>) -> (r: Row)
        ensures
            r@ == content@,
    {
        Row { chars: content }
    }

    pub proof fn lemma_len_fits(&self)
        ensures
            self@.len() <= usize::MAX,
    {
        assert(self.chars.len() == self.chars@.len());
    }

    /// Number of characters in the row.
    pub fn len(&self) -> (r: usize)
        ensures
            r == self@.len(),
    {
        self.chars.len()
    }

    pub fn is_empty(&self) -> (r: bool)
        ensures
            r == (self@.len() == 0),
    {
        self.chars.len() == 0
    }

    /// The characters of columns `[start, end)`, clamped to the row: out of
    /// range windows give fewer characters (or none), never an error.
    pub fn render(&self, start: usize, end: usize) -> (r: Vec<char>)
        ensures
            r@ == window(self@, start as int, end as int),
    {
        let len = self.chars.len();
        let hi = if end < len { end } else { len };
        let lo = if start < hi { start } else { hi };
        let mut out: Vec<char> = Vec::new();
        let mut i: usize = lo;
        while i < hi
            invariant
                lo <= i <= hi,
                hi <= self.chars@.len(),
                out@ == self.chars@.subrange(lo as int, i as int),
            decreases hi - i,
        {
            out.push(self.chars[i]);
            assert(self.chars@.subrange(lo as int, i + 1) =~= self.chars@.subrange(lo as int, i as int).push(self.chars@[i as int]));
            i = i + 1;
        }
        out
    }
}

} // verus!
