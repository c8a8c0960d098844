//! The executable game.

use crate::direction::Direction;
use crate::error::TileError;
use crate::model::{
    in_grid, lemma_advance_one_player, row_items, row_text, rows_text, GameView, GRID_HEIGHT,
    GRID_WIDTH,
};
use crate::tile::{Swatch, Tile};
use vstd::prelude::*;

verus! {

/// A game: the grid, where the player stands and where it is heading.
pub struct GameState {
    grid: [[Tile; GRID_WIDTH]; GRID_HEIGHT],
    player_position: (usize, usize),
    player_direction: Direction,
}

impl View for GameState {
    type V = GameView;

    closed spec fn view(&self) -> GameView {
        GameView {
            grid: Seq::new(GRID_HEIGHT as nat, |y: int| self.grid[y]@),
            position: (self.player_position.0 as int, self.player_position.1 as int),
            direction: self.player_direction,
        }
    }
}

impl GameState {
    /// The grid has its fixed size and the player stands inside it.
    pub open spec fn wf(&self) -> bool {
        self@.wf()
    }

    /// A new game: every cell empty, the player in the fifth column, one
    /// row above the bottom row, standing still.
    pub fn new() -> (state: GameState)
        ensures
            state.wf(),
            state@ == GameView::initial(),
    {
        let state = GameState {
            grid: [[Tile::Empty; GRID_WIDTH]; GRID_HEIGHT],
            player_position: (4, GRID_HEIGHT - 2),
            player_direction: Direction::Stationary,
        };
        assert(state@.grid =~~= GameView::initial().grid);
        state
    }

    /// Writes `tile` at column `x`, row `y`. A position outside the grid is
    /// rejected, never moved to the nearest cell, and leaves the game as it
    /// was.
    pub fn set_tile(&mut self, x: usize, y: usize, tile: Tile) -> (res: Result<(), TileError>)
        ensures
            res is Ok <==> in_grid(x as int, y as int),
            res is Ok ==> final(self)@ == old(self)@.put(x as int, y as int, tile),
            res matches Err(e) ==> e == TileError::OutOfBounds && *final(self) == *old(self),
            old(self).wf() ==> final(self).wf(),
    {
        if x >= GRID_WIDTH || y >= GRID_HEIGHT {
            return Err(TileError::OutOfBounds);
        }
        self.grid[y][x] = tile;
        assert(self@.grid =~~= old(self)@.put(x as int, y as int, tile).grid);
        Ok(())
    }

    /// Reads the tile at column `x`, row `y`. A position outside the grid is
    /// rejected.
    pub fn get_tile(&self, x: usize, y: usize) -> (res: Result<Tile, TileError>)
        ensures
            res is Ok <==> in_grid(x as int, y as int),
            res matches Ok(tile) ==> tile == self@.tile(x as int, y as int),
            res matches Err(e) ==> e == TileError::OutOfBounds,
    {
        if x >= GRID_WIDTH || y >= GRID_HEIGHT {
            return Err(TileError::OutOfBounds);
        }
        Ok(self.grid[y][x])
    }

    /// Column and row of the player.
    pub fn player_position(&self) -> (pos: (usize, usize))
        ensures
            (pos.0 as int, pos.1 as int) == self@.position,
    {
        self.player_position
    }

    /// Where the player moves on the next tick.
    pub fn player_direction(&self) -> (dir: Direction)
        ensures
            dir == self@.direction,
    {
        self.player_direction
    }

    /// Turns every cell of the bottom row to ground, writing them one by one
    /// from the left. Every one of these cells lies inside the grid, so no
    /// write is rejected.
    pub fn create_flat_ground(&mut self) -> (res: Result<(), TileError>)
        ensures
            res is Ok,
            final(self)@ == old(self)@.flat_ground(),
            forall|x: int, y: int|
                in_grid(x, y) ==> #[trigger] final(self)@.tile(x, y) == (if y == GRID_HEIGHT - 1 {
                    Tile::Ground
                } else {
                    old(self)@.tile(x, y)
                }),
            old(self).wf() ==> final(self).wf(),
    {
        let bottom: usize = GRID_HEIGHT - 1;
        for i in 0..GRID_WIDTH
            invariant
                bottom == GRID_HEIGHT - 1,
                self@.position == old(self)@.position,
                self@.direction == old(self)@.direction,
                self@.grid.len() == GRID_HEIGHT,
                forall|y: int|
                    0 <= y < GRID_HEIGHT && y != bottom ==> self@.grid[y] == old(self)@.grid[y],
                self@.grid[bottom as int].len() == GRID_WIDTH,
                forall|x: int| 0 <= x < i ==> self@.grid[bottom as int][x] == Tile::Ground,
                old(self).wf() ==> self.wf(),
        {
            match self.set_tile(i, bottom, Tile::Ground) {
                Ok(()) => {},
                Err(e) => {
                    return Err(e);
                },
            }
        }
        assert(self@.grid =~~= old(self)@.flat_ground().grid);
        Ok(())
    }

    /// Sets where the player moves on the next tick.
    pub fn change_player_direction(&mut self, dir: Direction)
        ensures
            final(self)@ == old(self)@.turned(dir),
            old(self).wf() ==> final(self).wf(),
    {
        self.player_direction = dir;
    }

    /// Whether a tick can be taken: the player stands inside the grid and
    /// the next step keeps it there.
    pub fn can_update(&self) -> (ok: bool)
        ensures
            ok == self@.can_advance(),
    {
        let (x, y) = self.player_position;
        if x >= GRID_WIDTH || y >= GRID_HEIGHT {
            return false;
        }
        match self.player_direction {
            Direction::Stationary => true,
            Direction::Up => y >= 1,
            Direction::Down => y < GRID_HEIGHT - 1,
            Direction::Left => x >= 1,
            Direction::Right => x < GRID_WIDTH - 1,
        }
    }

    /// One tick: the cell the player stands on becomes empty, the player
    /// moves one step along its heading, and the cell it arrives at becomes
    /// the player's. Nothing stops the player at ground. The step must keep
    /// the player inside the grid.
    pub fn update(&mut self)
        requires
            old(self)@.can_advance(),
        ensures
            final(self).wf(),
            final(self)@ == old(self)@.advance(),
            old(self)@.player_confined() ==> final(self)@.player_confined()
                && final(self)@.player_cells() == set![final(self)@.position],
    {
        let (x, y) = self.player_position;
        self.grid[y][x] = Tile::Empty;

        match self.player_direction {
            Direction::Up => self.player_position.1 -= 1,
            Direction::Down => self.player_position.1 += 1,
            Direction::Left => self.player_position.0 -= 1,
            Direction::Right => self.player_position.0 += 1,
            Direction::Stationary => (),
        }

        let (x, y) = self.player_position;
        self.grid[y][x] = Tile::Player;
        proof {
            assert(self@.grid =~~= old(self)@.advance().grid);
            if old(self)@.player_confined() {
                lemma_advance_one_player(old(self)@);
            }
        }
    }

    /// What a frame paints: every cell once, row by row from the top and
    /// each row from the left, in the colour of its tile.
    pub fn draw_list(&self) -> (list: Vec<Swatch>)
        ensures
            list@ == self@.picture(),
    {
        let mut list: Vec<Swatch> = Vec::new();
        for y in 0..GRID_HEIGHT
            invariant
                list@.len() == y * GRID_WIDTH,
                forall|i: int| 0 <= i < list@.len() ==> list@[i] == self@.picture()[i],
        {
            for x in 0..GRID_WIDTH
                invariant
                    y < GRID_HEIGHT,
                    list@.len() == y * GRID_WIDTH + x,
                    forall|i: int| 0 <= i < list@.len() ==> list@[i] == self@.picture()[i],
            {
                list.push(Swatch { x, y, rgb: self.grid[y][x].rgb() });
            }
        }
        list
    }

    /// The grid as text: one line for each row, from the top, each holding
    /// the names of the row's tiles in square brackets.
    pub fn to_text(&self) -> (text: String)
        ensures
            text@ == self@.text(),
    {
        let mut text = String::new();
        for y in 0..GRID_HEIGHT
            invariant
                self@.grid.len() == GRID_HEIGHT,
                text@ == rows_text(self@.grid, y as nat),
        {
            let ghost done = text@;
            let ghost row = self@.grid[y as int];
            text.append("[");
            for x in 0..GRID_WIDTH
                invariant
                    y < GRID_HEIGHT,
                    row == self.grid[y as int]@,
                    text@ == done + "["@ + row_items(row, x as nat),
            {
                if x > 0 {
                    text.append(", ");
                }
                text.append(self.grid[y][x].name());
                assert(text@ == done + "["@ + row_items(row, (x + 1) as nat)) by {
                    if x > 0 {
                        assert(text@ =~= done + "["@ + (row_items(row, x as nat) + ", "@
                            + row[x as int].spec_name()));
                    }
                }
            }
            text.append("]\n");
            assert(text@ == rows_text(self@.grid, (y + 1) as nat)) by {
                assert(text@ =~= done + row_text(row));
            }
        }
        text
    }
}

} // verus!
