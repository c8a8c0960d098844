//! A fixed-size tile grid with a single movable player tile.
//!
//! The grid is a square of cells, each empty, ground or the player. The
//! player stands on one cell and heads in one of four directions or nowhere;
//! every tick moves it one cell along its heading. [`model`] holds the
//! mathematical picture of a game and the lemmas proved of it, [`state`] the
//! executable game whose contracts are stated over that picture.

pub mod direction;
pub mod error;
pub mod model;
pub mod state;
pub mod tile;

pub use direction::{Direction, Key};
pub use model::{GameView, GRID_HEIGHT, GRID_WIDTH};
pub use error::TileError;
pub use state::GameState;
pub use tile::{Swatch, Tile};
