//! Piece catalog and shape geometry.
//!
//! A shape is a `u16` encoding a 4x4 bounding box. Row `r` (0 = topmost
//! visual row) occupies bits `[4r, 4r+3]`; within a row, bit `3-c` is
//! column `c`, so bit 3 is the leftmost column of the box.

use vstd::prelude::*;

verus! {

/// The seven tetromino kinds.
#[derive(Clone, Copy, PartialEq, Eq, Structural, Debug)]
pub enum Tetromino {
    T,
    I,
    O,
    L,
    J,
    S,
    Z,
}

/// The four rotational states, advanced clockwise one step at a time.
#[derive(Clone, Copy, PartialEq, Eq, Structural, Debug)]
pub enum Orientation {
    N,
    E,
    S,
    W,
}

/// The orientation one clockwise step after `o`.
pub open spec fn next_orientation(o: Orientation) -> Orientation {
    match o {
        Orientation::N => Orientation::E,
        Orientation::E => Orientation::S,
        Orientation::S => Orientation::W,
        Orientation::W => Orientation::N,
    }
}

/// The fixed, hand-authored catalog of the 7 x 4 shape matrices
/// (the O piece looks the same in all four orientations). Every entry
/// is authored flush to the top-left of its box: row 0 is non-empty
/// and some row occupies box column 0.
pub open spec fn shape_matrix(piece: Tetromino, orientation: Orientation) -> u16 {
    match (piece, orientation) {
        (Tetromino::T, Orientation::N) => 0b_0000_0000_1110_0100,
        (Tetromino::T, Orientation::E) => 0b_0000_1000_1100_1000,
        (Tetromino::T, Orientation::S) => 0b_0000_0000_0100_1110,
        (Tetromino::T, Orientation::W) => 0b_0000_0100_1100_0100,
        (Tetromino::I, Orientation::N) => 0b_1000_1000_1000_1000,
        (Tetromino::I, Orientation::E) => 0b_0000_0000_0000_1111,
        (Tetromino::I, Orientation::S) => 0b_1000_1000_1000_1000,
        (Tetromino::I, Orientation::W) => 0b_0000_0000_0000_1111,
        (Tetromino::O, _) => 0b_0000_0000_1100_1100,
        (Tetromino::L, Orientation::N) => 0b_0000_0000_1000_1110,
        (Tetromino::L, Orientation::E) => 0b_0000_1100_1000_1000,
        (Tetromino::L, Orientation::S) => 0b_0000_0000_1110_0010,
        (Tetromino::L, Orientation::W) => 0b_0000_0100_0100_1100,
        (Tetromino::J, Orientation::N) => 0b_0000_0000_0010_1110,
        (Tetromino::J, Orientation::E) => 0b_0000_1100_0100_0100,
        (Tetromino::J, Orientation::S) => 0b_0000_0000_1110_1000,
        (Tetromino::J, Orientation::W) => 0b_0000_1000_1000_1100,
        (Tetromino::S, Orientation::N) => 0b_0000_0000_1100_0110,
        (Tetromino::S, Orientation::E) => 0b_0000_0100_1100_1000,
        (Tetromino::S, Orientation::S) => 0b_0000_0000_1100_0110,
        (Tetromino::S, Orientation::W) => 0b_0000_0100_1100_1000,
        (Tetromino::Z, Orientation::N) => 0b_0000_0000_0110_1100,
        (Tetromino::Z, Orientation::E) => 0b_0000_1000_1100_0100,
        (Tetromino::Z, Orientation::S) => 0b_0000_0000_0110_1100,
        (Tetromino::Z, Orientation::W) => 0b_0000_1000_1100_0100,
    }
}

/// Row `r` of a shape, as a 4-bit value (bit 3 = leftmost column of the box).
pub open spec fn shape_row(shape: u16, r: u16) -> u16 {
    (shape >> (r * 4)) & 0xf
}

/// Whether the cell at box row `r`, box column `c` of `shape` is occupied.
pub open spec fn shape_bit(shape: u16, r: u16, c: u16) -> bool
    recommends
        r < 4,
        c < 4,
{
    (shape >> ((r * 4 + 3 - c) as u16)) & 1 == 1
}

/// Whether playfield column `c` (0 = leftmost) is set in a 10-bit row.
pub open spec fn row_bit(row: u16, c: u16) -> bool
    recommends
        c < 10,
{
    (row >> ((9 - c) as u16)) & 1 == 1
}

/// Row `r` of `shape`, aligned into a 10-bit playfield row so that box
/// column 0 lands at playfield column `x`.
pub open spec fn positioned_row(shape: u16, r: u16, x: u16) -> u16 {
    (((shape >> (r * 4)) & 0xf) << 6) >> x
}

/// Index of the lowest set bit of a 4-bit value (4-bit column `3 - index`).
pub open spec fn nib_low(nib: u16) -> int {
    if nib & 1 != 0 {
        0
    } else if nib & 2 != 0 {
        1
    } else if nib & 4 != 0 {
        2
    } else {
        3
    }
}

/// Index of the highest set bit of a 4-bit value.
pub open spec fn nib_high(nib: u16) -> int {
    if nib & 8 != 0 {
        3
    } else if nib & 4 != 0 {
        2
    } else if nib & 2 != 0 {
        1
    } else {
        0
    }
}

/// The span from leftmost to rightmost set bit of a 4-bit row; 0 when empty.
pub open spec fn nib_span(nib: u16) -> int {
    if nib == 0 {
        0
    } else {
        nib_high(nib) - nib_low(nib) + 1
    }
}

/// Bounding-box width of a shape: the widest row span.
pub open spec fn shape_width(shape: u16) -> int {
    let s0 = nib_span(shape_row(shape, 0));
    let s1 = nib_span(shape_row(shape, 1));
    let s2 = nib_span(shape_row(shape, 2));
    let s3 = nib_span(shape_row(shape, 3));
    let m01 = if s0 >= s1 { s0 } else { s1 };
    let m23 = if s2 >= s3 { s2 } else { s3 };
    if m01 >= m23 { m01 } else { m23 }
}

/// Bounding-box height of a shape: the count of non-empty rows.
pub open spec fn shape_height(shape: u16) -> int {
    (if shape_row(shape, 0) != 0 { 1int } else { 0int })
    + (if shape_row(shape, 1) != 0 { 1int } else { 0int })
    + (if shape_row(shape, 2) != 0 { 1int } else { 0int })
    + (if shape_row(shape, 3) != 0 { 1int } else { 0int })
}

/// A positioned shape row only ever occupies the 10 playfield bits.
pub proof fn lemma_positioned_row_bound(shape: u16, r: u16, x: u16)
    by (bit_vector)
    ensures
        positioned_row(shape, r, x) < 1024,
{
}

/// Relates the bits of a positioned row to the cells of the shape: playfield
/// column `col` is set exactly when the shape occupies box column `col - x`
/// of row `r`. Cells pushed beyond column 9 are dropped by the alignment.
pub proof fn lemma_positioned_row_bit(shape: u16, r: u16, x: u16, col: u16)
    by (bit_vector)
    requires
        r < 4,
        x < 10,
        col < 10,
    ensures
        row_bit(positioned_row(shape, r, x), col) <==> (x <= col < x + 4
            && shape_bit(shape, r, (col - x) as u16)),
{
}

/// Bitwise OR of two rows sets exactly the union of their columns.
pub proof fn lemma_or_bit(a: u16, b: u16, c: u16)
    by (bit_vector)
    requires
        c < 10,
    ensures
        row_bit(a | b, c) <==> row_bit(a, c) || row_bit(b, c),
{
}

/// OR of two 10-bit rows stays a 10-bit row, and OR with 0 is the identity.
pub proof fn lemma_or_row_bound(a: u16, b: u16)
    by (bit_vector)
    requires
        a < 1024,
        b < 1024,
    ensures
        (a | b) < 1024,
        a | 0 == a,
{
}

/// An empty row has no set column.
pub proof fn lemma_zero_row_bit(c: u16)
    by (bit_vector)
    ensures
        !row_bit(0, c),
{
}

/// Two 10-bit rows intersect as bit masks exactly when some playfield
/// column is set in both.
pub proof fn lemma_rows_intersect(a: u16, b: u16)
    requires
        a < 1024,
        b < 1024,
    ensures
        (a & b) != 0 <==> exists|c: u16| c < 10 && row_bit(a, c) && row_bit(b, c),
{
    if a & b != 0 {
        assert((row_bit(a, 0) && row_bit(b, 0)) || (row_bit(a, 1) && row_bit(b, 1)) || (row_bit(
            a,
            2,
        ) && row_bit(b, 2)) || (row_bit(a, 3) && row_bit(b, 3)) || (row_bit(a, 4) && row_bit(b, 4))
            || (row_bit(a, 5) && row_bit(b, 5)) || (row_bit(a, 6) && row_bit(b, 6)) || (row_bit(
            a,
            7,
        ) && row_bit(b, 7)) || (row_bit(a, 8) && row_bit(b, 8)) || (row_bit(a, 9) && row_bit(
            b,
            9,
        ))) by (bit_vector)
            requires
                a & b != 0,
                a < 1024,
                b < 1024,
        ;
        assert(exists|c: u16| c < 10 && row_bit(a, c) && row_bit(b, c));
    }
    if exists|c: u16| c < 10 && row_bit(a, c) && row_bit(b, c) {
        let c = choose|c: u16| c < 10 && row_bit(a, c) && row_bit(b, c);
        assert(a & b != 0) by (bit_vector)
            requires
                c < 10,
                row_bit(a, c),
                row_bit(b, c),
        ;
    }
}

/// A non-empty 4-bit row has a set bit, so its span is at least 1.
pub proof fn lemma_nib_span_bounds(nib: u16)
    by (bit_vector)
    requires
        nib <= 0xf,
    ensures
        0 <= nib_span(nib) <= 4,
        nib != 0 ==> nib_span(nib) >= 1,
        nib != 0 ==> (nib & 1 != 0 || nib & 2 != 0 || nib & 4 != 0 || nib & 8 != 0),
{
}

/// A non-empty shape has a non-empty row, hence width and height at least 1;
/// both are at most 4.
pub proof fn lemma_shape_extent(shape: u16)
    ensures
        0 <= shape_height(shape) <= 4,
        0 <= shape_width(shape) <= 4,
        shape != 0 ==> shape_height(shape) >= 1,
        shape != 0 ==> shape_width(shape) >= 1,
{
    assert(shape != 0 ==> (shape_row(shape, 0) != 0 || shape_row(shape, 1) != 0 || shape_row(
        shape,
        2,
    ) != 0 || shape_row(shape, 3) != 0)) by (bit_vector);
    assert(shape_row(shape, 0) <= 0xf && shape_row(shape, 1) <= 0xf && shape_row(shape, 2) <= 0xf
        && shape_row(shape, 3) <= 0xf) by (bit_vector);
    lemma_nib_span_bounds(shape_row(shape, 0));
    lemma_nib_span_bounds(shape_row(shape, 1));
    lemma_nib_span_bounds(shape_row(shape, 2));
    lemma_nib_span_bounds(shape_row(shape, 3));
}

/// Every catalog entry is a non-empty shape.
pub proof fn lemma_shape_matrix_nonzero(piece: Tetromino, orientation: Orientation)
    ensures
        shape_matrix(piece, orientation) != 0,
{
}

/// Looks up the 16-bit shape matrix for a (kind, orientation) pair.
/// Total and pure over all 28 combinations.
pub fn get_tetromino_representation(piece: &Tetromino, orientation: &Orientation) -> (shape: u16)
    ensures
        shape == shape_matrix(*piece, *orientation),
{
    match (piece, orientation) {
        (Tetromino::T, Orientation::N) => 0b_0000_0000_1110_0100,
        (Tetromino::T, Orientation::E) => 0b_0000_1000_1100_1000,
        (Tetromino::T, Orientation::S) => 0b_0000_0000_0100_1110,
        (Tetromino::T, Orientation::W) => 0b_0000_0100_1100_0100,
        (Tetromino::I, Orientation::N) => 0b_1000_1000_1000_1000,
        (Tetromino::I, Orientation::E) => 0b_0000_0000_0000_1111,
        (Tetromino::I, Orientation::S) => 0b_1000_1000_1000_1000,
        (Tetromino::I, Orientation::W) => 0b_0000_0000_0000_1111,
        (Tetromino::O, _) => 0b_0000_0000_1100_1100,
        (Tetromino::L, Orientation::N) => 0b_0000_0000_1000_1110,
        (Tetromino::L, Orientation::E) => 0b_0000_1100_1000_1000,
        (Tetromino::L, Orientation::S) => 0b_0000_0000_1110_0010,
        (Tetromino::L, Orientation::W) => 0b_0000_0100_0100_1100,
        (Tetromino::J, Orientation::N) => 0b_0000_0000_0010_1110,
        (Tetromino::J, Orientation::E) => 0b_0000_1100_0100_0100,
        (Tetromino::J, Orientation::S) => 0b_0000_0000_1110_1000,
        (Tetromino::J, Orientation::W) => 0b_0000_1000_1000_1100,
        (Tetromino::S, Orientation::N) => 0b_0000_0000_1100_0110,
        (Tetromino::S, Orientation::E) => 0b_0000_0100_1100_1000,
        (Tetromino::S, Orientation::S) => 0b_0000_0000_1100_0110,
        (Tetromino::S, Orientation::W) => 0b_0000_0100_1100_1000,
        (Tetromino::Z, Orientation::N) => 0b_0000_0000_0110_1100,
        (Tetromino::Z, Orientation::E) => 0b_0000_1000_1100_0100,
        (Tetromino::Z, Orientation::S) => 0b_0000_0000_0110_1100,
        (Tetromino::Z, Orientation::W) => 0b_0000_1000_1100_0100,
    }
}

/// Counts the non-empty rows of a shape's 4x4 bounding box.
pub fn get_piece_height(piece: &u16) -> (h: u8)
    ensures
        h as int == shape_height(*piece),
        h <= 4,
{
    let p = *piece;
    let mut h: u8 = 0;
    if (p >> (0u16 * 4)) & 0xf != 0 {
        h = h + 1;
    }
    if (p >> (1u16 * 4)) & 0xf != 0 {
        h = h + 1;
    }
    if (p >> (2u16 * 4)) & 0xf != 0 {
        h = h + 1;
    }
    if (p >> (3u16 * 4)) & 0xf != 0 {
        h = h + 1;
    }
    h
}

/// Span of a single 4-bit row from its leftmost to its rightmost set bit.
fn nibble_span(nib: u16) -> (s: u8)
    requires
        nib <= 0xf,
    ensures
        s as int == nib_span(nib),
        s <= 4,
{
    proof {
        lemma_nib_span_bounds(nib);
    }
    if nib == 0 {
        0
    } else {
        let low: u8 = if nib & 1 != 0 {
            0
        } else if nib & 2 != 0 {
            1
        } else if nib & 4 != 0 {
            2
        } else {
            3
        };
        let high: u8 = if nib & 8 != 0 {
            3
        } else if nib & 4 != 0 {
            2
        } else if nib & 2 != 0 {
            1
        } else {
            0
        };
        high - low + 1
    }
}

/// The widest row span of a shape's 4x4 bounding box.
pub fn get_piece_width(piece: &u16) -> (w: u8)
    ensures
        w as int == shape_width(*piece),
        w <= 4,
{
    let p = *piece;
    proof {
        assert((p >> (0u16 * 4)) & 0xf <= 0xf && (p >> (1u16 * 4)) & 0xf <= 0xf && (p >> (2u16 * 4))
            & 0xf <= 0xf && (p >> (3u16 * 4)) & 0xf <= 0xf) by (bit_vector);
    }
    let s0 = nibble_span((p >> (0u16 * 4)) & 0xf);
    let s1 = nibble_span((p >> (1u16 * 4)) & 0xf);
    let s2 = nibble_span((p >> (2u16 * 4)) & 0xf);
    let s3 = nibble_span((p >> (3u16 * 4)) & 0xf);
    let m01 = if s0 >= s1 {
        s0
    } else {
        s1
    };
    let m23 = if s2 >= s3 {
        s2
    } else {
        s3
    };
    if m01 >= m23 {
        m01
    } else {
        m23
    }
}

/// Extracts row `i` of a shape and aligns it into a 10-bit playfield row
/// so that box column 0 lands at playfield column `x`. This is the one
/// primitive both collision checking and locking use, so the two always
/// agree on where a piece's cells fall.
pub fn get_positioned_piece_row(piece: &u16, i: &u8, x: &u8) -> (row: u16)
    requires
        *i < 4,
        *x < 10,
    ensures
        row == positioned_row(*piece, *i as u16, *x as u16),
        row < 1024,
{
    proof {
        lemma_positioned_row_bound(*piece, *i as u16, *x as u16);
    }
    let r = *i as u16;
    let xx = *x as u16;
    (((*piece >> (r * 4)) & 0xf) << 6) >> xx
}

} // verus!
