use vstd::prelude::*;
use crate::row::Row;

verus! {

/// A line as it was ended by a newline: a carriage return just before the
/// newline belongs to the line ending, not to the line.
pub open spec fn strip_cr(line: Seq<char>) -> Seq<char> {
    if line.len() > 0 && line.last() == '\r' {
        line.drop_last()
    } else {
        line
    }
}

/// Splitting `t` at its newlines: the lines already ended by a newline,
/// and the characters after the last newline.
pub open spec fn split_at_newlines(t: Seq<char>) -> (Seq<Seq<char>>, Seq<char>)
    decreases t.len(),
{
    if t.len() == 0 {
        (Seq::empty(), Seq::empty())
    } else {
        let (done, rest) = split_at_newlines(t.drop_last());
        if t.last() == '\n' {
            (done.push(strip_cr(rest)), Seq::empty())
        } else {
            (done, rest.push(t.last()))
        }
    }
}

/// The lines of a text: each ends at a newline (`\n` or `\r\n`), and the
/// last newline is optional, so a text that ends with one has no empty last
/// line.
pub open spec fn lines_of(t: Seq<char>) -> Seq<Seq<char>> {
    let (done, rest) = split_at_newlines(t);
    if rest.len() == 0 {
        done
    } else {
        done.push(rest)
    }
}

/// Row count and row lengths that a document in memory can have.
pub open spec fn document_fits(doc: Seq<Seq<char>>) -> bool {
    &&& doc.len() <= usize::MAX
    &&& forall|i: int| 0 <= i < doc.len() ==> (#[trigger] doc[i]).len() <= usize::MAX
}

/// An ordered sequence of rows; row `i` is line `i` of the text.
pub struct Document {
    rows: Vec<Row>,
}

impl View for Document {
    type V = Seq<Seq<char>>;

    closed spec fn view(&self) -> Seq<Seq<char>> {
        self.rows@.map_values(|r: Row| r@)
    }
}

impl Default for Document {
    /// The empty document.
    fn default() -> (d: Document)
        ensures
            d@ == Seq::<Seq<char>>::empty(),
    {
        let d = Document { rows: Vec::new() };
        assert(d@ =~= Seq::<Seq<char>>::empty());
        d
    }
}

impl Document {
    /// A document made of `rows`, in that order.
    pub fn from_rows(rows: Vec<Row>) -> (d: Document)
        ensures
            d@ == rows@.map_values(|r: Row| r@),
    {
        Document { rows }
    }

    /// The document whose rows are the lines of `text`.
    pub fn from_text(text: &Vec<char>) -> (d: Document)
        ensures
            d@ == lines_of(text@),
    {
        let mut rows: Vec<Row> = Vec::new();
        let mut cur: Vec<char> = Vec::new();
        let mut i: usize = 0;
        while i < text.len()
            invariant
                i <= text@.len(),
                rows@.map_values(|r: Row| r@) == split_at_newlines(text@.subrange(0, i as int)).0,
                cur@ == split_at_newlines(text@.subrange(0, i as int)).1,
            decreases text@.len() - i,
        {
            let c = text[i];
            assert(text@.subrange(0, i + 1).drop_last() =~= text@.subrange(0, i as int));
            if c == '\n' {
                let n = cur.len();
                if n > 0 && cur[n - 1] == '\r' {
                    cur.pop();
                }
                rows.push(Row::new(cur));
                cur = Vec::new();
                assert(rows@.map_values(|r: Row| r@) =~= split_at_newlines(
                    text@.subrange(0, i + 1),
                ).0);
            } else {
                cur.push(c);
            }
            i = i + 1;
        }
        assert(text@.subrange(0, i as int) =~= text@);
        if cur.len() > 0 {
            rows.push(Row::new(cur));
        }
        let d = Document { rows };
        assert(d@ =~= lines_of(text@));
        d
    }

    /// The row at `index`, or nothing when the document has no such row.
    pub fn row(&self, index: usize) -> (r: Option<&Row>)
        ensures
            index < self@.len() ==> r.is_some() && r.unwrap()@ == self@[index as int],
            index >= self@.len() ==> r.is_none(),
    {
        if index < self.rows.len() {
            Some(&self.rows[index])
        } else {
            None
        }
    }

    /// Every document's rows fit in memory.
    pub proof fn lemma_fits(&self)
        ensures
            document_fits(self@),
    {
        assert(self.rows.len() == self.rows@.len());
        assert forall|i: int| 0 <= i < self@.len() implies (#[trigger] self@[i]).len()
            <= usize::MAX by {
            self.rows@[i].lemma_len_fits();
        }
    }

    /// Number of rows.
    pub fn len(&self) -> (r: usize)
        ensures
            r == self@.len(),
    {
        self.rows.len()
    }

    pub fn is_empty(&self) -> (r: bool)
        ensures
            r == (self@.len() == 0),
    {
        self.rows.len() == 0
    }
}

} // verus!
