//! Pure rendering: turns a snapshot into lines of two-glyph cells.
//! Writing those lines to a terminal is the caller's concern; nothing
//! here does any output.

use vstd::prelude::*;

use crate::engine::GameState;
use crate::shape::row_bit;
use crate::shape::shape_bit;
use crate::shape::shape_row;

verus! {

/// The glyph drawn for one cell.
pub open spec fn glyph(filled: bool) -> char {
    if filled {
        '\u{1F7E7}'
    } else {
        '\u{2B1C}'
    }
}

/// Whether box column `c` holds a cell in any of the shape's four rows.
pub open spec fn col_used(shape: u16, c: u16) -> bool {
    ||| shape_bit(shape, 0, c)
    ||| shape_bit(shape, 1, c)
    ||| shape_bit(shape, 2, c)
    ||| shape_bit(shape, 3, c)
}

/// Topmost non-empty box row; 4 when the shape is empty.
pub open spec fn min_row_spec(shape: u16) -> int {
    if shape_row(shape, 0) != 0 {
        0
    } else if shape_row(shape, 1) != 0 {
        1
    } else if shape_row(shape, 2) != 0 {
        2
    } else if shape_row(shape, 3) != 0 {
        3
    } else {
        4
    }
}

/// Bottommost non-empty box row; 0 when the shape is empty.
pub open spec fn max_row_spec(shape: u16) -> int {
    if shape_row(shape, 3) != 0 {
        3
    } else if shape_row(shape, 2) != 0 {
        2
    } else if shape_row(shape, 1) != 0 {
        1
    } else {
        0
    }
}

/// Leftmost used box column; 4 when the shape is empty.
pub open spec fn min_col_spec(shape: u16) -> int {
    if col_used(shape, 0) {
        0
    } else if col_used(shape, 1) {
        1
    } else if col_used(shape, 2) {
        2
    } else if col_used(shape, 3) {
        3
    } else {
        4
    }
}

/// Rightmost used box column; 0 when the shape is empty.
pub open spec fn max_col_spec(shape: u16) -> int {
    if col_used(shape, 3) {
        3
    } else if col_used(shape, 2) {
        2
    } else if col_used(shape, 1) {
        1
    } else {
        0
    }
}

/// An empty shape has only empty rows.
proof fn lemma_empty_shape_rows(shape: u16, r: u16)
    by (bit_vector)
    ensures
        shape == 0 ==> shape_row(shape, r) == 0,
{
}

/// An empty shape has no cell in any box column.
proof fn lemma_empty_shape_cols(shape: u16, c: u16)
    by (bit_vector)
    ensures
        shape == 0 ==> !shape_bit(shape, 0, c) && !shape_bit(shape, 1, c) && !shape_bit(shape, 2, c)
            && !shape_bit(shape, 3, c),
{
}

/// A non-empty row holds a cell in one of the four box columns.
proof fn lemma_row_has_cell(shape: u16, r: u16)
    by (bit_vector)
    requires
        r < 4,
    ensures
        shape_row(shape, r) != 0 ==> (shape_bit(shape, r, 0) || shape_bit(shape, r, 1)
            || shape_bit(shape, r, 2) || shape_bit(shape, r, 3)),
{
}

/// Whether the piece, drawn cropped to its bounding box with the box's
/// top-left cell at the anchor `(px, py)`, fills the playfield cell
/// `(row, col)`. The crop means a shape that is not flush with the
/// box's top-left corner is drawn shifted up to the anchor.
pub open spec fn rendered_piece_cell(shape: u16, px: int, py: int, row: int, col: int) -> bool {
    &&& py <= row <= py + (max_row_spec(shape) - min_row_spec(shape))
    &&& px <= col <= px + (max_col_spec(shape) - min_col_spec(shape))
    &&& shape_bit(
        shape,
        (min_row_spec(shape) + row - py) as u16,
        (min_col_spec(shape) + col - px) as u16,
    )
}

/// Relies on `String::push`, which appends exactly the given character.
#[verifier::external_body]
fn push_char(s: &mut String, c: char)
    ensures
        final(s)@ == old(s)@.push(c),
{
    s.push(c);
}

/// Whether the cell at box row `r`, box column `c` of `shape` is occupied.
fn piece_cell(shape: u16, r: u16, c: u16) -> (filled: bool)
    requires
        r < 4,
        c < 4,
    ensures
        filled == shape_bit(shape, r, c),
{
    (shape >> (r * 4 + 3 - c)) & 1 == 1
}

/// Whether box column `c` holds a cell in any of the shape's four rows.
fn column_used(shape: u16, c: u16) -> (used: bool)
    requires
        c < 4,
    ensures
        used == col_used(shape, c),
{
    piece_cell(shape, 0, c) || piece_cell(shape, 1, c) || piece_cell(shape, 2, c) || piece_cell(
        shape,
        3,
        c,
    )
}

/// The bounding box of a shape: (top row, bottom row, left column,
/// right column). For a non-empty shape each minimum is at most the
/// matching maximum and everything is below 4.
fn shape_bounds(shape: u16) -> (bounds: (u8, u8, u8, u8))
    ensures
        bounds.0 as int == min_row_spec(shape),
        bounds.1 as int == max_row_spec(shape),
        bounds.2 as int == min_col_spec(shape),
        bounds.3 as int == max_col_spec(shape),
        bounds.1 < 4 && bounds.3 < 4,
        shape != 0 ==> bounds.0 <= bounds.1 && bounds.2 <= bounds.3,
{
    proof {
        assert(shape != 0 ==> (shape_row(shape, 0) != 0 || shape_row(shape, 1) != 0 || shape_row(
            shape,
            2,
        ) != 0 || shape_row(shape, 3) != 0)) by (bit_vector);
        lemma_row_has_cell(shape, 0);
        lemma_row_has_cell(shape, 1);
        lemma_row_has_cell(shape, 2);
        lemma_row_has_cell(shape, 3);
    }
    let r0 = (shape >> (0u16 * 4)) & 0xf;
    let r1 = (shape >> (1u16 * 4)) & 0xf;
    let r2 = (shape >> (2u16 * 4)) & 0xf;
    let r3 = (shape >> (3u16 * 4)) & 0xf;
    let min_row: u8 = if r0 != 0 {
        0
    } else if r1 != 0 {
        1
    } else if r2 != 0 {
        2
    } else if r3 != 0 {
        3
    } else {
        4
    };
    let max_row: u8 = if r3 != 0 {
        3
    } else if r2 != 0 {
        2
    } else if r1 != 0 {
        1
    } else {
        0
    };
    let min_col: u8 = if column_used(shape, 0) {
        0
    } else if column_used(shape, 1) {
        1
    } else if column_used(shape, 2) {
        2
    } else if column_used(shape, 3) {
        3
    } else {
        4
    };
    let max_col: u8 = if column_used(shape, 3) {
        3
    } else if column_used(shape, 2) {
        2
    } else if column_used(shape, 1) {
        1
    } else {
        0
    };
    (min_row, max_row, min_col, max_col)
}

/// Renders snapshots into rows of glyphs.
pub struct Renderer {}

impl Renderer {
    /// A renderer; it holds no state of its own.
    pub fn new() -> Renderer {
        Renderer {}
    }

    /// One playfield row as ten glyphs, leftmost column first.
    pub fn render_line(&self, line: &u16) -> (text: String)
        ensures
            text@.len() == 10,
            forall|c: int| 0 <= c < 10 ==> text@[c] == glyph(row_bit(*line, c as u16)),
    {
        let mut text = String::new();
        let mut c: u16 = 0;
        while c < 10
            invariant
                c <= 10,
                text@.len() == c as int,
                forall|k: int| 0 <= k < c ==> text@[k] == glyph(row_bit(*line, k as u16)),
            decreases 10 - c,
        {
            if (*line >> (9 - c)) & 1 == 1 {
                push_char(&mut text, '\u{1F7E7}');
            } else {
                push_char(&mut text, '\u{2B1C}');
            }
            c = c + 1;
        }
        text
    }

    /// The piece cropped to its bounding box, one string per box row.
    /// An empty shape yields no lines.
    pub fn render_piece(&self, piece: &u16) -> (lines: Vec<String>)
        ensures
            *piece == 0 ==> lines@.len() == 0,
            *piece != 0 ==> lines@.len() == max_row_spec(*piece) - min_row_spec(*piece) + 1,
            forall|i: int|
                0 <= i < lines@.len() ==> #[trigger] lines@[i]@.len() == max_col_spec(*piece)
                    - min_col_spec(*piece) + 1,
            forall|i: int, j: int|
                0 <= i < lines@.len() && 0 <= j < lines@[i]@.len() ==> #[trigger] lines@[i]@[j]
                    == glyph(
                    shape_bit(
                        *piece,
                        (min_row_spec(*piece) + i) as u16,
                        (min_col_spec(*piece) + j) as u16,
                    ),
                ),
    {
        let p = *piece;
        let (min_row, max_row, min_col, max_col) = shape_bounds(p);
        let mut lines: Vec<String> = Vec::new();
        if p == 0 {
            return lines;
        }
        let mut row: u8 = min_row;
        while row <= max_row
            invariant
                p != 0,
                min_row as int == min_row_spec(p),
                max_row as int == max_row_spec(p),
                min_col as int == min_col_spec(p),
                max_col as int == max_col_spec(p),
                min_row <= row,
                row <= max_row + 1,
                max_row < 4,
                min_col <= max_col,
                max_col < 4,
                lines@.len() == row - min_row,
                forall|i: int|
                    0 <= i < lines@.len() ==> #[trigger] lines@[i]@.len() == max_col_spec(p)
                        - min_col_spec(p) + 1,
                forall|i: int, j: int|
                    0 <= i < lines@.len() && 0 <= j < lines@[i]@.len() ==> #[trigger] lines@[i]@[j]
                        == glyph(
                        shape_bit(p, (min_row_spec(p) + i) as u16, (min_col_spec(p) + j) as u16),
                    ),
            decreases max_row + 1 - row,
        {
            let mut line = String::new();
            let mut col: u8 = min_col;
            while col <= max_col
                invariant
                    min_row <= row <= max_row < 4,
                    min_col <= col,
                    col <= max_col + 1,
                    max_col < 4,
                    line@.len() == col - min_col,
                    forall|k: int|
                        0 <= k < line@.len() ==> #[trigger] line@[k] == glyph(
                            shape_bit(p, row as u16, (min_col + k) as u16),
                        ),
                decreases max_col + 1 - col,
            {
                if piece_cell(p, row as u16, col as u16) {
                    push_char(&mut line, '\u{1F7E7}');
                } else {
                    push_char(&mut line, '\u{2B1C}');
                }
                col = col + 1;
            }
            lines.push(line);
            row = row + 1;
        }
        lines
    }

    /// The whole frame: the 20 playfield rows with the active piece
    /// drawn over them. The piece wins only where it is filled — an
    /// empty piece cell never blanks a locked cell under it — and
    /// whatever sticks out past the board's edges is simply not drawn.
    pub fn get_playfield_lines(&self, state: &GameState) -> (lines: Vec<String>)
        ensures
            lines@.len() == 20,
            forall|row: int| 0 <= row < 20 ==> #[trigger] lines@[row]@.len() == 10,
            forall|row: int, col: int|
                0 <= row < 20 && 0 <= col < 10 ==> #[trigger] lines@[row]@[col] == glyph(
                    row_bit(state.playfield@[row], col as u16) || rendered_piece_cell(
                        state.active_piece,
                        state.piece_position@[0] as int,
                        state.piece_position@[1] as int,
                        row,
                        col,
                    ),
                ),
    {
        let shape = state.active_piece;
        let px = state.piece_position[0] as usize;
        let py = state.piece_position[1] as usize;
        let (min_row, max_row, min_col, max_col) = shape_bounds(shape);
        proof {
            lemma_empty_shape_rows(shape, 0);
            lemma_empty_shape_rows(shape, 1);
            lemma_empty_shape_rows(shape, 2);
            lemma_empty_shape_rows(shape, 3);
            lemma_empty_shape_cols(shape, 0);
            lemma_empty_shape_cols(shape, 1);
            lemma_empty_shape_cols(shape, 2);
            lemma_empty_shape_cols(shape, 3);
        }
        let mut lines: Vec<String> = Vec::new();
        let mut row: usize = 0;
        while row < 20
            invariant
                row <= 20,
                min_row as int == min_row_spec(shape),
                max_row as int == max_row_spec(shape),
                min_col as int == min_col_spec(shape),
                max_col as int == max_col_spec(shape),
                max_row < 4 && max_col < 4,
                shape != 0 ==> min_row <= max_row && min_col <= max_col,
                shape == 0 ==> min_row == 4 && min_col == 4,
                px == state.piece_position@[0] as int,
                py == state.piece_position@[1] as int,
                shape == state.active_piece,
                lines@.len() == row as int,
                forall|r: int| 0 <= r < lines@.len() ==> #[trigger] lines@[r]@.len() == 10,
                forall|r: int, c: int|
                    0 <= r < lines@.len() && 0 <= c < 10 ==> #[trigger] lines@[r]@[c] == glyph(
                        row_bit(state.playfield@[r], c as u16) || rendered_piece_cell(
                            shape,
                            px as int,
                            py as int,
                            r,
                            c,
                        ),
                    ),
            decreases 20 - row,
        {
            let base_row = state.playfield[row];
            let mut line = String::new();
            let mut col: usize = 0;
            while col < 10
                invariant
                    row < 20,
                    col <= 10,
                    min_row as int == min_row_spec(shape),
                    max_row as int == max_row_spec(shape),
                    min_col as int == min_col_spec(shape),
                    max_col as int == max_col_spec(shape),
                    max_row < 4 && max_col < 4,
                    shape != 0 ==> min_row <= max_row && min_col <= max_col,
                    shape == 0 ==> min_row == 4 && min_col == 4,
                    px == state.piece_position@[0] as int,
                    py == state.piece_position@[1] as int,
                    shape == state.active_piece,
                    base_row == state.playfield@[row as int],
                    line@.len() == col as int,
                    forall|c: int|
                        0 <= c < line@.len() ==> #[trigger] line@[c] == glyph(
                            row_bit(state.playfield@[row as int], c as u16) || rendered_piece_cell(
                                shape,
                                px as int,
                                py as int,
                                row as int,
                                c,
                            ),
                        ),
                decreases 10 - col,
            {
                let base = (base_row >> ((9 - col) as u16)) & 1 == 1;
                let mut filled = base;
                if shape != 0 && row >= py && row - py <= (max_row - min_row) as usize && col >= px
                    && col - px <= (max_col - min_col) as usize {
                    let box_row = min_row + (row - py) as u8;
                    let box_col = min_col + (col - px) as u8;
                    if piece_cell(shape, box_row as u16, box_col as u16) {
                        filled = true;
                    }
                }
                proof {
                    if shape == 0 {
                        assert(!rendered_piece_cell(shape, px as int, py as int, row as int,
                        col as int));
                    }
                }
                if filled {
                    push_char(&mut line, '\u{1F7E7}');
                } else {
                    push_char(&mut line, '\u{2B1C}');
                }
                col = col + 1;
            }
            lines.push(line);
            row = row + 1;
        }
        lines
    }
}

} // verus!
