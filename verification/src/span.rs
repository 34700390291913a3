//! The source span of a single matched declaration.

use vstd::prelude::*;

verus! {

/// The lexical extent of one export-boundary function: from the first token
/// of its outermost element (its earliest attribute, or the visibility
/// keyword) through the closing delimiter of its body. Lines are 1-based and
/// columns 0-based, in the parser's native column unit.
#[derive(Clone, Copy, Debug, PartialEq, Eq, Structural)]
pub struct LineColumnEnds {
    pub start_line: usize,
    pub start_column: usize,
    pub end_line: usize,
    pub end_column: usize,
}

impl LineColumnEnds {
    /// The end position does not come before the start position.
    pub open spec fn ordered(self) -> bool {
        self.start_line < self.end_line || (self.start_line == self.end_line
            && self.start_column <= self.end_column)
    }

    /// Builds a span from its four coordinates.
    pub fn new(
        start_line: usize,
        start_column: usize,
        end_line: usize,
        end_column: usize,
    ) -> (r: Self)
        ensures
            r == (LineColumnEnds { start_line, start_column, end_line, end_column }),
    {
        Self { start_line, start_column, end_line, end_column }
    }
}

} // verus!
