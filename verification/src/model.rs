//! The mathematical picture of a game, the steps that change it, and what
//! is proved of those steps.

use crate::direction::Direction;
use crate::tile::{Swatch, Tile};
use vstd::prelude::*;

verus! {

/// Number of columns of the grid.
pub const GRID_WIDTH: usize = 32;

/// Number of rows of the grid.
pub const GRID_HEIGHT: usize = 32;

/// Whether column `x` and row `y` name a cell of the grid.
pub open spec fn in_grid(x: int, y: int) -> bool {
    0 <= x < GRID_WIDTH && 0 <= y < GRID_HEIGHT
}

/// A game as a mathematical value.
pub struct GameView {
    /// The cells by row, then by column: `grid[y][x]`.
    pub grid: Seq<Seq<Tile>>,
    /// Column and row of the player.
    pub position: (int, int),
    /// Where the player moves on the next tick.
    pub direction: Direction,
}

impl GameView {
    /// The grid has its fixed size and the player stands inside it.
    pub open spec fn wf(self) -> bool {
        &&& self.grid.len() == GRID_HEIGHT
        &&& forall|y: int| 0 <= y < GRID_HEIGHT ==> (#[trigger] self.grid[y]).len() == GRID_WIDTH
        &&& in_grid(self.position.0, self.position.1)
    }

    /// The tile at column `x`, row `y`.
    pub open spec fn tile(self, x: int, y: int) -> Tile
        recommends
            in_grid(x, y),
    {
        self.grid[y][x]
    }

    /// A new game: every cell empty, the player in the fifth column, one
    /// row above the bottom row, standing still.
    pub open spec fn initial() -> GameView {
        GameView {
            grid: Seq::new(
                GRID_HEIGHT as nat,
                |y: int| Seq::new(GRID_WIDTH as nat, |x: int| Tile::Empty),
            ),
            position: (4, GRID_HEIGHT - 2),
            direction: Direction::Stationary,
        }
    }

    /// The game with `tile` written at column `x`, row `y`.
    pub open spec fn put(self, x: int, y: int, tile: Tile) -> GameView
        recommends
            in_grid(x, y),
    {
        GameView { grid: self.grid.update(y, self.grid[y].update(x, tile)), ..self }
    }

    /// The game with every cell of the bottom row turned to ground.
    pub open spec fn flat_ground(self) -> GameView {
        GameView {
            grid: self.grid.update(
                GRID_HEIGHT - 1,
                Seq::new(GRID_WIDTH as nat, |x: int| Tile::Ground),
            ),
            ..self
        }
    }

    /// The game with the player heading in `dir`.
    pub open spec fn turned(self, dir: Direction) -> GameView {
        GameView { direction: dir, ..self }
    }

    /// The cell one step from the player along its heading. Rows are
    /// counted from the top, so up is towards row zero.
    pub open spec fn target(self) -> (int, int) {
        let (x, y) = self.position;
        match self.direction {
            Direction::Stationary => (x, y),
            Direction::Up => (x, y - 1),
            Direction::Down => (x, y + 1),
            Direction::Left => (x - 1, y),
            Direction::Right => (x + 1, y),
        }
    }

    /// Whether a tick can be taken: the game is well formed and the next
    /// step keeps the player inside the grid.
    pub open spec fn can_advance(self) -> bool {
        self.wf() && in_grid(self.target().0, self.target().1)
    }

    /// The game after one tick: the cell the player leaves becomes empty,
    /// the player moves one step along its heading, and the cell it arrives
    /// at becomes the player's.
    pub open spec fn advance(self) -> GameView
        recommends
            self.can_advance(),
    {
        let (x, y) = self.position;
        let (tx, ty) = self.target();
        GameView { position: (tx, ty), ..self.put(x, y, Tile::Empty).put(tx, ty, Tile::Player) }
    }

    /// The cells of the grid that hold the player tile.
    pub open spec fn player_cells(self) -> Set<(int, int)> {
        Set::new(|c: (int, int)| in_grid(c.0, c.1) && self.tile(c.0, c.1) == Tile::Player)
    }

    /// No cell but the one the player stands on holds the player tile.
    pub open spec fn player_confined(self) -> bool {
        forall|x: int, y: int|
            in_grid(x, y) && #[trigger] self.tile(x, y) == Tile::Player ==> (x, y) == self.position
    }

    /// What a frame paints: every cell once, row by row from the top and
    /// each row from the left, in the colour of its tile.
    pub open spec fn picture(self) -> Seq<Swatch> {
        Seq::new(
            (GRID_WIDTH * GRID_HEIGHT) as nat,
            |i: int|
                Swatch {
                    x: (i % GRID_WIDTH as int) as usize,
                    y: (i / GRID_WIDTH as int) as usize,
                    rgb: self.tile(i % GRID_WIDTH as int, i / GRID_WIDTH as int).spec_rgb(),
                },
        )
    }

    /// The grid as text: one line for each row, from the top.
    pub open spec fn text(self) -> Seq<char> {
        rows_text(self.grid, self.grid.len())
    }
}

/// The names of the first `n` tiles of `row`, with a comma and a space
/// between neighbours.
pub open spec fn row_items(row: Seq<Tile>, n: nat) -> Seq<char>
    decreases n,
{
    if n == 0 {
        Seq::empty()
    } else if n == 1 {
        row[0].spec_name()
    } else {
        row_items(row, (n - 1) as nat) + ", "@ + row[n - 1].spec_name()
    }
}

/// A row as one line of text: its tiles' names in square brackets, then a
/// line break.
pub open spec fn row_text(row: Seq<Tile>) -> Seq<char> {
    "["@ + row_items(row, row.len()) + "]\n"@
}

/// The first `n` rows of `grid` as text, one line each.
pub open spec fn rows_text(grid: Seq<Seq<Tile>>, n: nat) -> Seq<char>
    decreases n,
{
    if n == 0 {
        Seq::empty()
    } else {
        rows_text(grid, (n - 1) as nat) + row_text(grid[n - 1])
    }
}

/// Writing a tile changes the cell written and no other, and keeps the
/// game well formed.
pub proof fn lemma_put_tile(s: GameView, x: int, y: int, tile: Tile)
    requires
        s.wf(),
        in_grid(x, y),
    ensures
        s.put(x, y, tile).wf(),
        s.put(x, y, tile).tile(x, y) == tile,
        forall|i: int, j: int|
            in_grid(i, j) && (i, j) != (x, y) ==> #[trigger] s.put(x, y, tile).tile(i, j)
                == s.tile(i, j),
{
}

/// Laying the ground turns every cell of the bottom row to ground and
/// leaves every other cell as it was.
pub proof fn lemma_flat_ground_cells(s: GameView)
    requires
        s.wf(),
    ensures
        s.flat_ground().wf(),
        forall|x: int, y: int|
            in_grid(x, y) ==> #[trigger] s.flat_ground().tile(x, y) == (if y == GRID_HEIGHT - 1 {
                Tile::Ground
            } else {
                s.tile(x, y)
            }),
{
}

/// On a new game, laying the ground leaves every cell of the bottom row
/// ground and every other cell empty.
pub proof fn lemma_flat_ground_on_new_game()
    ensures
        forall|x: int, y: int|
            in_grid(x, y) ==> #[trigger] GameView::initial().flat_ground().tile(x, y) == (if y
                == GRID_HEIGHT - 1 {
                Tile::Ground
            } else {
                Tile::Empty
            }),
{
}

/// A new game is well formed and holds no player tile, before and after the
/// ground is laid.
pub proof fn lemma_new_game_confined()
    ensures
        GameView::initial().wf(),
        GameView::initial().player_cells() == Set::<(int, int)>::empty(),
        GameView::initial().player_confined(),
        GameView::initial().flat_ground().wf(),
        GameView::initial().flat_ground().player_cells() == Set::<(int, int)>::empty(),
        GameView::initial().flat_ground().player_confined(),
{
}

/// After a tick exactly one cell holds the player tile, and it is the cell
/// the player stands on, provided that before the tick no cell but the
/// player's held it.
pub proof fn lemma_advance_one_player(s: GameView)
    requires
        s.can_advance(),
        s.player_confined(),
    ensures
        s.advance().wf(),
        s.advance().player_cells() == set![s.advance().position],
        s.advance().player_cells().len() == 1,
        s.advance().player_confined(),
{
    let (x, y) = s.position;
    let (tx, ty) = s.target();
    let cleared = s.put(x, y, Tile::Empty);
    let next = s.advance();
    lemma_put_tile(s, x, y, Tile::Empty);
    lemma_put_tile(cleared, tx, ty, Tile::Player);
    assert forall|i: int, j: int| in_grid(i, j) implies (#[trigger] next.tile(i, j) == Tile::Player
        <==> (i, j) == next.position) by {
        if (i, j) != (tx, ty) {
            assert(next.tile(i, j) == cleared.tile(i, j));
            if (i, j) != (x, y) {
                assert(cleared.tile(i, j) == s.tile(i, j));
            }
        }
    }
    assert(next.player_cells() =~= set![next.position]);
}

} // verus!
