//! Keys as the game sees them, and the heading each one asks for.

use vstd::prelude::*;

verus! {

/// A pressed key: one of the four arrows, or any other key.
#[derive(Copy, Clone, Debug, PartialEq, Eq, Structural)]
pub enum Key {
    Up,
    Down,
    Left,
    Right,
    Other,
}

/// Where the player moves on the next tick.
#[derive(Copy, Clone, Debug, PartialEq, Eq, Structural)]
pub enum Direction {
    Stationary,
    Up,
    Down,
    Left,
    Right,
}

impl Key {
    /// Whether the key is one of the four arrows.
    pub open spec fn is_arrow(self) -> bool {
        self == Key::Up || self == Key::Down || self == Key::Left || self == Key::Right
    }

    /// The heading a key press asks for: an arrow asks for its own
    /// direction, every other key for standing still.
    pub open spec fn heading(self) -> Direction {
        match self {
            Key::Up => Direction::Up,
            Key::Down => Direction::Down,
            Key::Left => Direction::Left,
            Key::Right => Direction::Right,
            Key::Other => Direction::Stationary,
        }
    }
}

impl Direction {
    /// Maps a key press to the heading it asks for.
    pub fn from_keycode(key: Key) -> (dir: Direction)
        ensures
            dir == key.heading(),
            !key.is_arrow() ==> dir == Direction::Stationary,
    {
        match key {
            Key::Up => Direction::Up,
            Key::Down => Direction::Down,
            Key::Left => Direction::Left,
            Key::Right => Direction::Right,
            _ => Direction::Stationary,
        }
    }
}

} // verus!
