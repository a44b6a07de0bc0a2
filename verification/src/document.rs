use vstd::prelude::*;

verus! {

/// An immutable, ordered sequence of text lines, loaded once at startup and
/// never changed afterwards.
pub struct Document {
    pub lines: Vec<String>,
}

impl View for Document {
    type V = Seq<Seq<char>>;

    open spec fn view(&self) -> Seq<Seq<char>> {
        Seq::new(self.lines@.len(), |i: int| self.lines@[i]@)
    }
}

impl Document {
    /// Wraps an already-loaded sequence of lines (terminators stripped).
    pub fn new(lines: Vec<String>) -> (d: Document)
        ensures
            d@ == Seq::new(lines@.len(), |i: int| lines@[i]@),
    {
        Document { lines }
    }

    /// Total number of lines in the document.
    pub fn len(&self) -> (n: usize)
        ensures
            n == self@.len(),
    {
        self.lines.len()
    }

    /// The line at document index `i`.
    pub fn line(&self, i: usize) -> (s: &String)
        requires
            i < self@.len(),
        ensures
            s@ == self@[i as int],
    {
        &self.lines[i]
    }
}

} // verus!
