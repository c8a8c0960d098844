//! The states a grid cell can be in, and the colour each is painted with.

use vstd::prelude::*;

verus! {

/// The state of one grid cell.
#[derive(Copy, Clone, Debug, PartialEq, Eq, Structural)]
pub enum Tile {
    Empty,
    Ground,
    Player,
}

/// One cell of a painted frame: its column, its row and its colour as red,
/// green and blue bytes.
#[derive(Copy, Clone, Debug, PartialEq, Eq)]
pub struct Swatch {
    pub x: usize,
    pub y: usize,
    pub rgb: (u8, u8, u8),
}

impl Tile {
    /// The colour a tile is painted with, as red, green and blue bytes.
    pub open spec fn spec_rgb(self) -> (u8, u8, u8) {
        match self {
            Tile::Empty => (255u8, 255u8, 255u8),
            Tile::Ground => (0x6Cu8, 0x28u8, 0x16u8),
            Tile::Player => (255u8, 0u8, 0u8),
        }
    }

    /// Empty cells are white, ground is brown, and the player is red.
    pub fn rgb(self) -> (c: (u8, u8, u8))
        ensures
            c == self.spec_rgb(),
    {
        match self {
            Tile::Empty => (255, 255, 255),
            Tile::Ground => (0x6C, 0x28, 0x16),
            Tile::Player => (255, 0, 0),
        }
    }

    /// The name a tile is written with.
    pub open spec fn spec_name(self) -> Seq<char> {
        match self {
            Tile::Empty => "Empty"@,
            Tile::Ground => "Ground"@,
            Tile::Player => "Player"@,
        }
    }

    /// The name a tile is written with.
    pub fn name(self) -> (text: &'static str)
        ensures
            text@ == self.spec_name(),
    {
        match self {
            Tile::Empty => "Empty",
            Tile::Ground => "Ground",
            Tile::Player => "Player",
        }
    }
}

} // verus!
