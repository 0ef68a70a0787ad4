use ratrix::get_tetromino_representation;
use ratrix::GameState;
use ratrix::Orientation;
use ratrix::Renderer;
use ratrix::Tetromino;
use ratrix::TetrisEngine;

const FILLED: char = '\u{1F7E7}';
const EMPTY: char = '\u{2B1C}';

fn line_of(pattern: &str) -> String {
    pattern
        .chars()
        .map(|c| if c == '#' { FILLED } else { EMPTY })
        .collect()
}

#[test]
fn a_row_renders_to_ten_glyphs() {
    let renderer = Renderer::new();
    let text = renderer.render_line(&0b1000000001);
    assert_eq!(text, line_of("#........#"));
    assert_eq!(renderer.render_line(&0), line_of(".........."));
    assert_eq!(renderer.render_line(&0b1111111111), line_of("##########"));
}

#[test]
fn a_piece_renders_cropped_to_its_bounding_box() {
    let renderer = Renderer::new();
    let north_l = get_tetromino_representation(&Tetromino::L, &Orientation::N);
    let lines = renderer.render_piece(&north_l);
    assert_eq!(lines, vec![line_of("###"), line_of("#..")]);
    let east_l = get_tetromino_representation(&Tetromino::L, &Orientation::E);
    let lines = renderer.render_piece(&east_l);
    assert_eq!(lines, vec![line_of("#."), line_of("#."), line_of("##")]);
}

#[test]
fn an_empty_shape_renders_to_nothing() {
    let renderer = Renderer::new();
    let lines = renderer.render_piece(&0);
    assert!(lines.is_empty());
}

#[test]
fn playfield_lines_merge_the_piece_over_locked_cells() {
    // A T piece at (2, 5): its top row holds only the stem at column 3,
    // its bottom row spans columns 2..=4. A locked cell sits at (6, 5).
    let renderer = Renderer::new();
    let state = GameState {
        playfield: {
            let mut rows = [0u16; 20];
            rows[5] = 0b0001000000; // a locked cell at column 3
            rows
        },
        piece_position: [2, 5],
        active_piece: get_tetromino_representation(&Tetromino::T, &Orientation::N),
        score: 0,
    };
    let lines = renderer.get_playfield_lines(&state);
    assert_eq!(lines.len(), 20);
    // Row 5 shows the piece's stem at column 3 and the locked cell at the
    // same spot; row 6 shows the piece's full bar at columns 2..=4.
    assert_eq!(lines[5], line_of("...#......"));
    assert_eq!(lines[6], line_of("..###....."));
    for (i, line) in lines.iter().enumerate() {
        if i != 5 && i != 6 {
            assert_eq!(*line, line_of(".........."));
        }
    }
}

#[test]
fn an_empty_piece_cell_does_not_blank_a_locked_cell() {
    // The T piece's top row is empty at columns 2 and 4; locked cells
    // beneath those empty piece cells must still show as filled.
    let renderer = Renderer::new();
    let state = GameState {
        playfield: {
            let mut rows = [0u16; 20];
            rows[5] = 0b0010100000; // locked cells at columns 2 and 4
            rows
        },
        piece_position: [2, 5],
        active_piece: get_tetromino_representation(&Tetromino::T, &Orientation::N),
        score: 0,
    };
    let lines = renderer.get_playfield_lines(&state);
    assert_eq!(lines[5], line_of("..###....."));
    assert_eq!(lines[6], line_of("..###....."));
}

#[test]
fn snapshot_feeds_the_renderer() {
    let renderer = Renderer::new();
    let mut tetris = TetrisEngine::new(1000);
    tetris.lock_tile(0, 19);
    let lines = renderer.get_playfield_lines(&tetris.get_state());
    // The spawned L piece sits at (4, 0).
    assert_eq!(lines[0], line_of("....###..."));
    assert_eq!(lines[1], line_of("....#....."));
    assert_eq!(lines[19], line_of("#........."));
}
