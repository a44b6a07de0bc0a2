use vstd::prelude::*;

verus! {

/// The on-screen cursor: a one-based (column, row) position on the terminal's
/// visible grid, relative to the viewport and independent of absolute
/// document coordinates.
#[derive(Clone, Copy, Debug, PartialEq, Eq, Structural)]
pub struct Cursor {
    pub column: usize,
    pub row: usize,
}

impl Cursor {
    /// The cursor never leaves the visible area: columns run `1..=width`,
    /// rows run `1..=row_limit`.
    pub open spec fn wf(self, width: int, row_limit: int) -> bool {
        &&& 1 <= self.column <= width
        &&& 1 <= self.row <= row_limit
    }

    /// The top-left position, where a fresh session starts.
    pub fn origin() -> (c: Cursor)
        ensures
            c == (Cursor { column: 1, row: 1 }),
    {
        Cursor { column: 1, row: 1 }
    }
}

} // verus!
