use tilegrid::{GameState, Swatch, Tile, TileError, GRID_HEIGHT, GRID_WIDTH};

fn count_tiles(state: &GameState, wanted: Tile) -> usize {
    let mut n = 0;
    for y in 0..GRID_HEIGHT {
        for x in 0..GRID_WIDTH {
            if state.get_tile(x, y) == Ok(wanted) {
                n += 1;
            }
        }
    }
    n
}

#[test]
fn grid_is_thirty_two_square() {
    assert_eq!(GRID_WIDTH, 32);
    assert_eq!(GRID_HEIGHT, 32);
}

#[test]
fn new_game_is_all_empty() {
    let state = GameState::new();
    for y in 0..GRID_HEIGHT {
        for x in 0..GRID_WIDTH {
            assert_eq!(state.get_tile(x, y), Ok(Tile::Empty), "cell ({x}, {y})");
        }
    }
}

#[test]
fn set_tile_writes_the_cell_and_no_other() {
    let mut state = GameState::new();
    assert_eq!(state.set_tile(3, 7, Tile::Ground), Ok(()));
    assert_eq!(state.get_tile(3, 7), Ok(Tile::Ground));
    assert_eq!(state.get_tile(7, 3), Ok(Tile::Empty));
    assert_eq!(count_tiles(&state, Tile::Ground), 1);
    assert_eq!(count_tiles(&state, Tile::Empty), 32 * 32 - 1);
}

#[test]
fn set_tile_reaches_all_four_corners() {
    let mut state = GameState::new();
    assert_eq!(state.set_tile(0, 0, Tile::Ground), Ok(()));
    assert_eq!(state.set_tile(31, 0, Tile::Player), Ok(()));
    assert_eq!(state.set_tile(0, 31, Tile::Player), Ok(()));
    assert_eq!(state.set_tile(31, 31, Tile::Ground), Ok(()));
    assert_eq!(state.get_tile(0, 0), Ok(Tile::Ground));
    assert_eq!(state.get_tile(31, 0), Ok(Tile::Player));
    assert_eq!(state.get_tile(0, 31), Ok(Tile::Player));
    assert_eq!(state.get_tile(31, 31), Ok(Tile::Ground));
}

#[test]
fn set_tile_overwrites() {
    let mut state = GameState::new();
    assert_eq!(state.set_tile(5, 5, Tile::Ground), Ok(()));
    assert_eq!(state.set_tile(5, 5, Tile::Empty), Ok(()));
    assert_eq!(state.get_tile(5, 5), Ok(Tile::Empty));
}

#[test]
fn set_tile_rejects_a_column_outside_the_grid() {
    let mut state = GameState::new();
    assert_eq!(state.set_tile(32, 0, Tile::Ground), Err(TileError::OutOfBounds));
    assert_eq!(state.set_tile(33, 31, Tile::Ground), Err(TileError::OutOfBounds));
    assert_eq!(state.set_tile(usize::MAX, 5, Tile::Ground), Err(TileError::OutOfBounds));
}

#[test]
fn set_tile_rejects_a_row_outside_the_grid() {
    let mut state = GameState::new();
    assert_eq!(state.set_tile(0, 32, Tile::Ground), Err(TileError::OutOfBounds));
    assert_eq!(state.set_tile(31, 1000, Tile::Ground), Err(TileError::OutOfBounds));
    assert_eq!(state.set_tile(5, usize::MAX, Tile::Ground), Err(TileError::OutOfBounds));
}

#[test]
fn set_tile_rejects_both_coordinates_outside_the_grid() {
    let mut state = GameState::new();
    assert_eq!(state.set_tile(32, 32, Tile::Player), Err(TileError::OutOfBounds));
    assert_eq!(state.set_tile(usize::MAX, usize::MAX, Tile::Player), Err(TileError::OutOfBounds));
}

#[test]
fn set_tile_rejects_every_position_just_outside() {
    let mut state = GameState::new();
    for i in 0..40 {
        assert_eq!(state.set_tile(32, i, Tile::Ground), Err(TileError::OutOfBounds));
        assert_eq!(state.set_tile(i, 32, Tile::Ground), Err(TileError::OutOfBounds));
    }
    assert_eq!(count_tiles(&state, Tile::Empty), 32 * 32);
}

#[test]
fn rejected_write_leaves_the_game_unchanged() {
    let mut state = GameState::new();
    assert_eq!(state.set_tile(2, 2, Tile::Ground), Ok(()));
    let before = state.to_text();
    assert!(state.set_tile(2, 32, Tile::Player).is_err());
    assert_eq!(state.to_text(), before);
    assert_eq!(state.player_position(), (4, 30));
}

#[test]
fn get_tile_rejects_positions_outside_the_grid() {
    let state = GameState::new();
    assert_eq!(state.get_tile(32, 0), Err(TileError::OutOfBounds));
    assert_eq!(state.get_tile(0, 32), Err(TileError::OutOfBounds));
    assert_eq!(state.get_tile(usize::MAX, usize::MAX), Err(TileError::OutOfBounds));
}

#[test]
fn out_of_bounds_message() {
    assert_eq!(TileError::OutOfBounds.message(), "Tile position out of bounds!");
}

#[test]
fn flat_ground_on_a_new_game() {
    let mut state = GameState::new();
    assert_eq!(state.create_flat_ground(), Ok(()));
    for y in 0..GRID_HEIGHT {
        for x in 0..GRID_WIDTH {
            let expected = if y == 31 { Tile::Ground } else { Tile::Empty };
            assert_eq!(state.get_tile(x, y), Ok(expected), "cell ({x}, {y})");
        }
    }
    assert_eq!(count_tiles(&state, Tile::Ground), 32);
}

#[test]
fn flat_ground_leaves_other_rows_as_they_were() {
    let mut state = GameState::new();
    assert_eq!(state.set_tile(1, 0, Tile::Ground), Ok(()));
    assert_eq!(state.set_tile(9, 30, Tile::Player), Ok(()));
    assert_eq!(state.set_tile(9, 31, Tile::Player), Ok(()));
    assert_eq!(state.create_flat_ground(), Ok(()));
    assert_eq!(state.get_tile(1, 0), Ok(Tile::Ground));
    assert_eq!(state.get_tile(9, 30), Ok(Tile::Player));
    assert_eq!(state.get_tile(9, 31), Ok(Tile::Ground));
    assert_eq!(count_tiles(&state, Tile::Ground), 33);
    assert_eq!(count_tiles(&state, Tile::Player), 1);
}

#[test]
fn flat_ground_keeps_the_player_where_it_is() {
    let mut state = GameState::new();
    assert_eq!(state.create_flat_ground(), Ok(()));
    assert_eq!(state.player_position(), (4, 30));
}

#[test]
fn flat_ground_twice_is_flat_ground_once() {
    let mut once = GameState::new();
    assert_eq!(once.create_flat_ground(), Ok(()));
    let mut twice = GameState::new();
    assert_eq!(twice.create_flat_ground(), Ok(()));
    assert_eq!(twice.create_flat_ground(), Ok(()));
    assert_eq!(once.to_text(), twice.to_text());
}

#[test]
fn tile_colours() {
    assert_eq!(Tile::Empty.rgb(), (255, 255, 255));
    assert_eq!(Tile::Ground.rgb(), (0x6C, 0x28, 0x16));
    assert_eq!(Tile::Player.rgb(), (255, 0, 0));
}

#[test]
fn tile_names() {
    assert_eq!(Tile::Empty.name(), "Empty");
    assert_eq!(Tile::Ground.name(), "Ground");
    assert_eq!(Tile::Player.name(), "Player");
    assert_eq!(Tile::Empty.name(), format!("{:?}", Tile::Empty));
    assert_eq!(Tile::Ground.name(), format!("{:?}", Tile::Ground));
    assert_eq!(Tile::Player.name(), format!("{:?}", Tile::Player));
}

#[test]
fn text_of_a_new_game() {
    let state = GameState::new();
    let line = format!("{:?}\n", [Tile::Empty; 32]);
    assert_eq!(state.to_text(), line.repeat(32));
}

#[test]
fn text_shows_each_row_on_its_own_line() {
    let mut state = GameState::new();
    assert_eq!(state.create_flat_ground(), Ok(()));
    assert_eq!(state.set_tile(0, 0, Tile::Player), Ok(()));
    assert_eq!(state.set_tile(31, 1, Tile::Ground), Ok(()));
    let text = state.to_text();
    let lines: Vec<&str> = text.lines().collect();
    assert_eq!(lines.len(), 32);
    assert!(text.ends_with("]\n"));

    let mut top = [Tile::Empty; 32];
    top[0] = Tile::Player;
    assert_eq!(lines[0], format!("{:?}", top));
    let mut second = [Tile::Empty; 32];
    second[31] = Tile::Ground;
    assert_eq!(lines[1], format!("{:?}", second));
    assert_eq!(lines[2], format!("{:?}", [Tile::Empty; 32]));
    assert_eq!(lines[31], format!("{:?}", [Tile::Ground; 32]));
    assert!(lines[0].starts_with("[Player, Empty, Empty, "));
    assert!(lines[1].ends_with(", Empty, Ground]"));
}

#[test]
fn draw_list_paints_every_cell_once_in_row_order() {
    let state = GameState::new();
    let list = state.draw_list();
    assert_eq!(list.len(), 32 * 32);
    for (i, cell) in list.iter().enumerate() {
        assert_eq!((cell.x, cell.y), (i % 32, i / 32));
        assert_eq!(cell.rgb, (255, 255, 255));
    }
}

#[test]
fn draw_list_colours_each_cell_by_its_tile() {
    let mut state = GameState::new();
    assert_eq!(state.create_flat_ground(), Ok(()));
    state.update();
    let list = state.draw_list();
    assert_eq!(list[0], Swatch { x: 0, y: 0, rgb: (255, 255, 255) });
    assert_eq!(list[1], Swatch { x: 1, y: 0, rgb: (255, 255, 255) });
    assert_eq!(list[32], Swatch { x: 0, y: 1, rgb: (255, 255, 255) });
    assert_eq!(list[30 * 32 + 4], Swatch { x: 4, y: 30, rgb: (255, 0, 0) });
    assert_eq!(list[31 * 32], Swatch { x: 0, y: 31, rgb: (0x6C, 0x28, 0x16) });
    assert_eq!(list[1023], Swatch { x: 31, y: 31, rgb: (0x6C, 0x28, 0x16) });
    for cell in &list {
        assert_eq!(Ok(cell.rgb), state.get_tile(cell.x, cell.y).map(Tile::rgb));
    }
}
