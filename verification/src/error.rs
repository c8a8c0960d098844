//! The one way in which reading or writing a cell can fail.

use vstd::prelude::*;

verus! {

/// Why a cell could not be read or written.
#[derive(Copy, Clone, Debug, PartialEq, Eq, Structural)]
pub enum TileError {
    /// The column or the row lies outside the grid.
    OutOfBounds,
}

impl TileError {
    /// The error in words.
    pub open spec fn spec_message(self) -> Seq<char> {
        match self {
            TileError::OutOfBounds => "Tile position out of bounds!"@,
        }
    }

    /// The error in words.
    pub fn message(&self) -> (text: &'static str)
        ensures
            text@ == self.spec_message(),
    {
        match self {
            TileError::OutOfBounds => "Tile position out of bounds!",
        }
    }
}

} // verus!
