use ratrix::get_piece_height;
use ratrix::get_piece_width;
use ratrix::engine::piece_from_index;
use ratrix::get_positioned_piece_row;
use ratrix::get_tetromino_representation;
use ratrix::Orientation;
use ratrix::Tetromino;
use ratrix::TetrisEngine;

#[test]
fn overlap_matches_direct_bit_construction() {
    // An L piece at (3, 9) occupies row 9 columns {3,4,5} and row 10
    // column {3}; a single locked cell at (5, 10) touches none of them.
    let mut tetris = TetrisEngine::new(1000);
    tetris.lock_tile(5, 10);
    assert_eq!(tetris.overlaps_locked_pieces(&3, &9), false);
    // Anchored at (5, 9), the piece's lower cell lands exactly on (5, 10).
    assert_eq!(tetris.overlaps_locked_pieces(&5, &9), true);
    // Anchored at (3, 10), the piece's top row crosses the locked cell.
    assert_eq!(tetris.overlaps_locked_pieces(&3, &10), true);
    // One row lower still, nothing coincides any more.
    assert_eq!(tetris.overlaps_locked_pieces(&3, &11), false);
}

#[test]
fn full_rows_read_full_before_clearing() {
    // Rows 18 and 19 are filled at columns 0..=7; the O piece locked at
    // (8, 18) tops both up, so before any clearing both rows read full.
    let mut tetris = TetrisEngine::new(1000);
    for x in 0..8 {
        tetris.lock_tile(x, 18);
        tetris.lock_tile(x, 19);
    }
    tetris.set_active_piece(Tetromino::O);
    tetris.set_piece_position(8, 18);
    tetris.lock_active_piece();
    assert_eq!(tetris.get_state().playfield[18], 0b1111111111);
    assert_eq!(tetris.get_state().playfield[19], 0b1111111111);
}

#[test]
fn clearing_drops_rows_above_by_the_number_cleared() {
    // Same board as above, but driven through a tick: the O piece locks,
    // rows 18 and 19 fill and are cleared, and the marker two rows above
    // drops by exactly two.
    let mut tetris = TetrisEngine::new(1000);
    for x in 0..8 {
        tetris.lock_tile(x, 18);
        tetris.lock_tile(x, 19);
    }
    tetris.lock_tile(0, 17);
    tetris.set_active_piece(Tetromino::O);
    tetris.set_piece_position(8, 18);
    tetris.update(2000);
    assert_eq!(tetris.get_state().playfield[19], 0b1000000000);
    assert_eq!(tetris.get_state().playfield[18], 0b0000000000);
    assert_eq!(tetris.get_state().playfield[17], 0b0000000000);
}

#[test]
fn rotation_is_a_four_cycle() {
    // Starting from the spawned L facing north, four rotations bring the
    // shape matrix back to the original; the position never moves.
    let mut tetris = TetrisEngine::new(1000);
    let original = tetris.get_state().active_piece;
    assert_eq!(original, get_tetromino_representation(&Tetromino::L, &Orientation::N));
    for _ in 0..4 {
        tetris.rotate();
        assert_eq!(tetris.get_state().piece_position, [4, 0]);
    }
    assert_eq!(tetris.get_state().active_piece, original);
}

#[test]
fn tick_is_gated_by_the_interval() {
    // Two updates less than the tick interval after the last effective
    // tick leave the piece where it is; one at the interval drops it by
    // exactly one row.
    let mut tetris = TetrisEngine::new(1000);
    tetris.update(1100);
    assert_eq!(tetris.get_state().piece_position[1], 0);
    tetris.update(1400);
    assert_eq!(tetris.get_state().piece_position[1], 0);
    tetris.update(1500);
    assert_eq!(tetris.get_state().piece_position[1], 1);
}

#[test]
fn rotation_against_the_wall_keeps_the_position() {
    // The east-facing L is two columns wide, so it may stand at x = 8,
    // flush against the right wall. Rotating there is neither rejected
    // nor kicked: the orientation advances and the position stays, even
    // though the south-facing shape is three columns wide.
    let mut tetris = TetrisEngine::new(1000);
    tetris.rotate();
    tetris.set_piece_position(8, 0);
    tetris.rotate();
    assert_eq!(tetris.get_state().piece_position, [8, 0]);
    assert_eq!(
        tetris.get_state().active_piece,
        get_tetromino_representation(&Tetromino::L, &Orientation::S)
    );
}

#[test]
fn clearing_a_board_without_full_rows_changes_nothing() {
    // One clearing pass removes the full bottom row and drops the marker
    // above it; a second pass finds no full row and is a no-op, and a
    // tick on which the piece merely falls leaves the playfield alone.
    let mut tetris = TetrisEngine::new(1000);
    for x in 0..10 {
        tetris.lock_tile(x, 19);
    }
    tetris.lock_tile(0, 18);
    tetris.apply_gravity();
    assert_eq!(tetris.get_state().playfield[19], 0b1000000000);
    assert_eq!(tetris.get_state().playfield[18], 0b0000000000);
    let before = tetris.get_state().playfield;
    tetris.apply_gravity();
    assert_eq!(tetris.get_state().playfield, before);
    tetris.update(2000);
    assert_eq!(tetris.get_state().piece_position[1], 1);
    assert_eq!(tetris.get_state().playfield, before);
}

#[test]
fn generated_piece_is_one_of_the_seven_kinds() {
    // The random draw may pick any kind, but the resulting shape must be
    // one of the seven north-facing catalog entries, and nothing else
    // about the state may change.
    let mut tetris = TetrisEngine::new(1000);
    tetris.generate_random_piece();
    let shape = tetris.get_state().active_piece;
    let kinds = [
        Tetromino::T,
        Tetromino::I,
        Tetromino::O,
        Tetromino::L,
        Tetromino::J,
        Tetromino::S,
        Tetromino::Z,
    ];
    assert!(kinds
        .iter()
        .any(|k| get_tetromino_representation(k, &Orientation::N) == shape));
    assert_eq!(tetris.get_state().piece_position, [4, 0]);
}

#[test]
fn geometry_of_the_i_piece() {
    let north_i = get_tetromino_representation(&Tetromino::I, &Orientation::N);
    let east_i = get_tetromino_representation(&Tetromino::I, &Orientation::E);
    assert_eq!(get_piece_height(&north_i), 4);
    assert_eq!(get_piece_width(&north_i), 1);
    assert_eq!(get_piece_height(&east_i), 1);
    assert_eq!(get_piece_width(&east_i), 4);
}

#[test]
fn cells_pushed_past_the_right_wall_are_dropped() {
    // The S piece spans three box columns but its widest single row
    // spans only two, so the width bound admits x = 8. There its top
    // row's rightmost cell would land on column 10, off the board, and
    // the alignment drops it.
    let north_s = get_tetromino_representation(&Tetromino::S, &Orientation::N);
    assert_eq!(get_positioned_piece_row(&north_s, &0, &8), 0b0000000001);
    assert_eq!(get_positioned_piece_row(&north_s, &0, &7), 0b0000000011);
}

#[test]
fn j_piece_is_flush_and_locks_whole_at_the_wall() {
    // The J piece is authored flush to the top-left of its box, the
    // mirror image of the L piece: no orientation has an empty top row
    // or an unused leftmost column, so at the right wall every cell of
    // a locked J stays on the board.
    let north_j = get_tetromino_representation(&Tetromino::J, &Orientation::N);
    assert_eq!(north_j, 0b0000_0000_0010_1110);
    assert_eq!(get_piece_width(&north_j), 3);
    assert_eq!(get_piece_height(&north_j), 2);
    let east_j = get_tetromino_representation(&Tetromino::J, &Orientation::E);
    assert_eq!(get_piece_width(&east_j), 2);
    assert_eq!(get_piece_height(&east_j), 3);

    let mut tetris = TetrisEngine::new(1000);
    tetris.set_active_piece(Tetromino::J);
    tetris.set_piece_position(7, 18);
    tetris.lock_active_piece();
    assert_eq!(tetris.get_state().playfield[18], 0b0000000111); // ░░░░░░░███
    assert_eq!(tetris.get_state().playfield[19], 0b0000000001); // ░░░░░░░░░█
}

#[test]
fn drawn_index_maps_to_the_documented_kind() {
    assert_eq!(piece_from_index(0), Tetromino::I);
    assert_eq!(piece_from_index(1), Tetromino::J);
    assert_eq!(piece_from_index(2), Tetromino::L);
    assert_eq!(piece_from_index(3), Tetromino::O);
    assert_eq!(piece_from_index(4), Tetromino::S);
    assert_eq!(piece_from_index(5), Tetromino::T);
    assert_eq!(piece_from_index(6), Tetromino::Z);
}

#[test]
fn moves_at_the_left_wall_are_rejected() {
    let mut tetris = TetrisEngine::new(1000);
    tetris.set_piece_position(0, 5);
    tetris.move_current_shape(-1, 0);
    assert_eq!(tetris.get_state().piece_position, [0, 5]);
    tetris.move_current_shape(1, 0);
    assert_eq!(tetris.get_state().piece_position, [1, 5]);
}
