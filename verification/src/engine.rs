//! The game-state engine: a 20-row bit-packed playfield, the falling
//! piece, collision checking, movement, rotation, and the time-gated
//! tick that lets the piece fall, locks it, and clears full rows.

use vstd::prelude::*;

use crate::shape::get_piece_height;
use crate::shape::get_piece_width;
use crate::shape::get_positioned_piece_row;
use crate::shape::get_tetromino_representation;
use crate::shape::lemma_or_bit;
use crate::shape::lemma_or_row_bound;
use crate::shape::lemma_positioned_row_bit;
use crate::shape::lemma_rows_intersect;
use crate::shape::lemma_shape_extent;
use crate::shape::lemma_shape_matrix_nonzero;
use crate::shape::lemma_zero_row_bit;
use crate::shape::next_orientation;
use crate::shape::positioned_row;
use crate::shape::row_bit;
use crate::shape::shape_bit;
use crate::shape::shape_height;
use crate::shape::shape_matrix;
use crate::shape::shape_width;
use crate::shape::Orientation;
use crate::shape::Tetromino;

verus! {

broadcast use vstd::seq_lib::group_filter_ensures, vstd::array::group_array_axioms;

/// A full playfield row: all 10 columns occupied.
pub const FULL_ROW: u16 = 0b11_1111_1111;

/// Minimum time between two effective ticks, in milliseconds.
pub const TICK_INTERVAL_MS: u64 = 500;

/// Whether enough time has elapsed since the last effective tick.
pub open spec fn tick_due(now: u64, last_update: u64) -> bool {
    now >= last_update + TICK_INTERVAL_MS
}

/// Whether the positioned shape occupies the playfield cell `(row, col)`.
/// Cells outside the 20x10 board do not count: alignment drops anything
/// pushed past column 9, and rows below the floor are never stored.
pub open spec fn piece_covers(shape: u16, x: int, y: int, row: int, col: int) -> bool {
    &&& 0 <= row < 20
    &&& 0 <= col < 10
    &&& y <= row < y + 4
    &&& x <= col < x + 4
    &&& shape_bit(shape, (row - y) as u16, (col - x) as u16)
}

/// Whether some cell of the positioned shape coincides with a locked cell.
pub open spec fn overlaps_spec(pf: Seq<u16>, shape: u16, x: int, y: int) -> bool {
    exists|row: int, col: int|
        #[trigger] piece_covers(shape, x, y, row, col) && row_bit(pf[row], col as u16)
}

/// The 10-bit mask the positioned shape contributes to playfield row `r`.
pub open spec fn placed_row(shape: u16, x: int, y: int, r: int) -> u16 {
    if y <= r < y + 4 {
        positioned_row(shape, (r - y) as u16, x as u16)
    } else {
        0
    }
}

/// The playfield after the positioned shape's cells are ORed in.
pub open spec fn merged(pf: Seq<u16>, shape: u16, x: int, y: int) -> Seq<u16> {
    Seq::new(pf.len(), |r: int| pf[r] | placed_row(shape, x, y, r))
}

/// The rows that survive a clearing pass: everything but the full ones.
pub open spec fn kept_rows(s: Seq<u16>) -> Seq<u16> {
    s.filter(|r: u16| r != FULL_ROW)
}

/// The playfield after every full row is removed: each surviving row keeps
/// its relative order and drops by the number of full rows below it, and
/// as many fresh empty rows enter at the top.
pub open spec fn cleared_rows(s: Seq<u16>) -> Seq<u16> {
    Seq::new((s.len() - kept_rows(s).len()) as nat, |i: int| 0u16) + kept_rows(s)
}

/// Mathematical model of the engine state.
#[verifier::ext_equal]
pub ghost struct GameView {
    pub playfield: Seq<u16>,
    pub x: int,
    pub y: int,
    pub piece: Tetromino,
    pub orientation: Orientation,
    pub changed: bool,
    pub last_update: u64,
    pub score: int,
}

impl GameView {
    /// The shape matrix of the falling piece.
    pub open spec fn shape(self) -> u16 {
        shape_matrix(self.piece, self.orientation)
    }

    /// Well-formedness: 20 rows of 10 bits, piece anchor on the board.
    pub open spec fn wf(self) -> bool {
        &&& self.playfield.len() == 20
        &&& forall|r: int| 0 <= r < 20 ==> self.playfield[r] < 1024
        &&& 0 <= self.x < 10
        &&& 0 <= self.y < 20
    }

    /// The x move the engine accepts from here, if any.
    pub open spec fn accepts_x_move(self, dx: int) -> bool {
        &&& 0 <= self.x + dx
        &&& self.x + dx + shape_width(self.shape()) <= 10
        &&& !overlaps_spec(self.playfield, self.shape(), self.x + dx, self.y)
    }

    /// Whether the piece can fall one row: its box must not rest on the
    /// floor, and the row below must be free of locked cells.
    pub open spec fn can_fall(self) -> bool {
        &&& self.y + shape_height(self.shape()) <= 19
        &&& !overlaps_spec(self.playfield, self.shape(), self.x, self.y + 1)
    }
}

/// The state after `move(dx, dy)`: the x shift is accepted only if the
/// shifted piece stays inside the width bound and off the locked cells.
/// A downward step of exactly 1 (the soft drop) is accepted only if the
/// piece can fall from the (possibly x-shifted) position; any other `dy`
/// leaves the row alone, so a move never lifts the piece. The dirty flag
/// is set either way.
pub open spec fn move_result(v: GameView, dx: int, dy: int) -> GameView {
    let x1 = if v.accepts_x_move(dx) {
        v.x + dx
    } else {
        v.x
    };
    let v1 = GameView { x: x1, ..v };
    let y1 = if dy == 1 && v1.can_fall() {
        v.y + 1
    } else {
        v.y
    };
    GameView { x: x1, y: y1, changed: true, ..v }
}

/// The state after `rotate`: one clockwise step, unconditionally.
pub open spec fn rotate_result(v: GameView) -> GameView {
    GameView { orientation: next_orientation(v.orientation), changed: true, ..v }
}

/// The state after a tick on which the piece falls one row: the locked
/// playfield is untouched, only the clock stamp, the dirty flag and the
/// piece's row change.
pub open spec fn fall_result(v: GameView, now: u64) -> GameView {
    GameView { y: v.y + 1, last_update: now, changed: true, ..v }
}

/// The state after a tick on which the piece locks: its cells merge into
/// the playfield, full rows are cleared, and a fresh piece `k` spawns at
/// (4, 0) facing north.
pub open spec fn lock_result(v: GameView, now: u64, k: Tetromino) -> GameView {
    GameView {
        playfield: cleared_rows(merged(v.playfield, v.shape(), v.x, v.y)),
        x: 4,
        y: 0,
        piece: k,
        orientation: Orientation::N,
        last_update: now,
        changed: true,
        ..v
    }
}

/// Whether the piece, where it stands, respects the width bound and sits
/// clear of every locked cell.
pub open spec fn piece_fits(v: GameView) -> bool {
    &&& v.x + shape_width(v.shape()) <= 10
    &&& !overlaps_spec(v.playfield, v.shape(), v.x, v.y)
}

/// Splitting off the last row of a prefix commutes with keeping the
/// non-full rows: the row is appended to the kept rows exactly when it
/// is not full.
proof fn lemma_kept_take_step(s: Seq<u16>, i: int)
    requires
        0 <= i < s.len(),
    ensures
        kept_rows(s.take(i + 1)) == (if s[i] != FULL_ROW {
            kept_rows(s.take(i)).push(s[i])
        } else {
            kept_rows(s.take(i))
        }),
{
    reveal(Seq::filter);
    assert(s.take(i + 1).drop_last() =~= s.take(i));
    assert(s.take(i + 1).last() == s[i]);
}

/// A board without full rows keeps all its rows.
proof fn lemma_kept_all(s: Seq<u16>)
    requires
        forall|i: int| 0 <= i < s.len() ==> s[i] != FULL_ROW,
    ensures
        kept_rows(s) == s,
    decreases s.len(),
{
    reveal(Seq::filter);
    if s.len() == 0 {
        assert(kept_rows(s) =~= s);
    } else {
        lemma_kept_all(s.drop_last());
        assert(kept_rows(s) =~= s);
    }
}

/// Clearing a board with no full rows changes nothing.
pub proof fn lemma_clear_preserves_when_no_full(s: Seq<u16>)
    requires
        forall|i: int| 0 <= i < s.len() ==> s[i] != FULL_ROW,
    ensures
        cleared_rows(s) == s,
{
    lemma_kept_all(s);
    assert(cleared_rows(s) =~= s);
}

/// A clearing pass leaves no full row behind, so a second pass changes
/// nothing: clearing is idempotent.
pub proof fn lemma_clear_idempotent(s: Seq<u16>)
    ensures
        cleared_rows(s).len() == s.len(),
        forall|i: int| 0 <= i < cleared_rows(s).len() ==> cleared_rows(s)[i] != FULL_ROW,
        cleared_rows(cleared_rows(s)) == cleared_rows(s),
{
    let c = cleared_rows(s);
    assert(kept_rows(s).len() <= s.len());
    assert forall|i: int| 0 <= i < c.len() implies c[i] != FULL_ROW by {
        let zeros = c.len() - kept_rows(s).len();
        if i < zeros {
            assert(c[i] == 0);
        } else {
            assert(c[i] == kept_rows(s)[i - zeros]);
        }
    }
    lemma_clear_preserves_when_no_full(c);
}

/// Keeping the non-full rows splits at any point after which no row is
/// full: the suffix passes through whole.
proof fn lemma_kept_split_at(s: Seq<u16>, j: int)
    requires
        0 <= j <= s.len(),
        forall|i: int| j <= i < s.len() ==> s[i] != FULL_ROW,
    ensures
        kept_rows(s) == kept_rows(s.take(j)) + s.skip(j),
    decreases s.len() - j,
{
    reveal(Seq::filter);
    if j == s.len() {
        assert(s.take(j) =~= s);
        assert(kept_rows(s) =~= kept_rows(s.take(j)) + s.skip(j));
    } else {
        lemma_kept_split_at(s.drop_last(), j);
        assert(s.drop_last().take(j) =~= s.take(j));
        assert(s.skip(j) =~= s.drop_last().skip(j).push(s.last()));
        assert(kept_rows(s) =~= kept_rows(s.take(j)) + s.skip(j));
    }
}

/// A row with no full row at or beyond its index stays exactly where it
/// is: clearing only moves rows that stand above some full row.
pub proof fn lemma_clear_keeps_rows_below(s: Seq<u16>, j: int)
    requires
        0 <= j <= s.len(),
        forall|i: int| j <= i < s.len() ==> s[i] != FULL_ROW,
    ensures
        forall|i: int| j <= i < s.len() ==> cleared_rows(s)[i] == s[i],
{
    lemma_kept_split_at(s, j);
    assert(kept_rows(s.take(j)).len() <= s.take(j).len());
    assert(kept_rows(s).len() <= s.len());
    let zeros = s.len() - kept_rows(s).len();
    assert forall|i: int| j <= i < s.len() implies cleared_rows(s)[i] == s[i] by {
        assert(zeros + kept_rows(s.take(j)).len() == j);
        assert(cleared_rows(s)[i] == (kept_rows(s.take(j)) + s.skip(j))[i - zeros]);
        assert(cleared_rows(s)[i] == s.skip(j)[i - j]);
    }
}

/// One cell of the merge: a board cell of the merged playfield is
/// occupied exactly when it was already locked or the piece covers it.
pub open spec fn merge_conserves_cell(
    pf: Seq<u16>,
    shape: u16,
    x: int,
    y: int,
    row: int,
    col: int,
) -> bool {
    row_bit(merged(pf, shape, x, y)[row], col as u16) <==> (row_bit(pf[row], col as u16)
        || piece_covers(shape, x, y, row, col))
}

/// Locking conserves cells: after the merge, a board cell is occupied
/// exactly when it was already locked or the positioned piece covers it.
/// No locked cell is dropped and none is duplicated or invented.
pub proof fn lemma_merge_cells(pf: Seq<u16>, shape: u16, x: int, y: int)
    requires
        pf.len() == 20,
        forall|r: int| 0 <= r < 20 ==> pf[r] < 1024,
        0 <= x < 10,
        0 <= y < 20,
    ensures
        forall|row: int, col: int|
            0 <= row < 20 && 0 <= col < 10 ==> #[trigger] merge_conserves_cell(
                pf,
                shape,
                x,
                y,
                row,
                col,
            ),
{
    assert forall|row: int, col: int|
        0 <= row < 20 && 0 <= col < 10 implies #[trigger] merge_conserves_cell(
        pf,
        shape,
        x,
        y,
        row,
        col,
    ) by {
        let placed = placed_row(shape, x, y, row);
        assert(merged(pf, shape, x, y)[row] == (pf[row] | placed));
        lemma_or_bit(pf[row], placed, col as u16);
        if y <= row < y + 4 {
            lemma_positioned_row_bit(shape, (row - y) as u16, x as u16, col as u16);
        } else {
            crate::shape::lemma_zero_row_bit(col as u16);
        }
    }
}

/// A tick on which the piece falls keeps it clear of the walls and the
/// locked cells: the playfield is untouched and the row below was free.
pub proof fn lemma_fall_tick_preserves_fit(v: GameView, now: u64)
    requires
        v.wf(),
        piece_fits(v),
        v.can_fall(),
    ensures
        piece_fits(fall_result(v, now)),
{
}

/// Rotation is a 4-cycle: four clockwise steps return the piece to its
/// starting orientation, and so to its starting shape; nothing but the
/// dirty flag differs.
pub proof fn lemma_rotate_four_cycle(v: GameView)
    ensures
        rotate_result(rotate_result(rotate_result(rotate_result(v)))) == (GameView {
            changed: true,
            ..v
        }),
        rotate_result(rotate_result(rotate_result(rotate_result(v)))).shape() == v.shape(),
{
    assert(rotate_result(rotate_result(rotate_result(rotate_result(v)))) =~= (GameView {
        changed: true,
        ..v
    }));
}

/// The kind a drawn index stands for, in the fixed order of the draw.
pub open spec fn kind_of_index(idx: int) -> Tetromino {
    if idx == 0 {
        Tetromino::I
    } else if idx == 1 {
        Tetromino::J
    } else if idx == 2 {
        Tetromino::L
    } else if idx == 3 {
        Tetromino::O
    } else if idx == 4 {
        Tetromino::S
    } else if idx == 5 {
        Tetromino::T
    } else {
        Tetromino::Z
    }
}

/// Maps a drawn index to its kind, exactly as `kind_of_index` fixes it.
pub fn piece_from_index(idx: u8) -> (kind: Tetromino)
    requires
        idx < 7,
    ensures
        kind == kind_of_index(idx as int),
{
    match idx {
        0 => Tetromino::I,
        1 => Tetromino::J,
        2 => Tetromino::L,
        3 => Tetromino::O,
        4 => Tetromino::S,
        5 => Tetromino::T,
        _ => Tetromino::Z,
    }
}

/// Relies on `rand::random_range` over `0..7`, which returns a value of
/// that non-empty range drawn from the thread-local generator.
#[verifier::external_body]
fn draw_piece_index() -> (idx: u8)
    ensures
        idx < 7,
{
    rand::random_range(0..7u8)
}

/// Snapshot handed to the renderer: a read-only copy of the playfield,
/// the active piece's shape and position, and the score.
pub struct GameState {
    pub playfield: [u16; 20],
    pub piece_position: [u8; 2],
    pub active_piece: u16,
    pub score: usize,
}

/// The engine. It owns the locked playfield and the falling piece and is
/// mutated only through the command methods.
pub struct TetrisEngine {
    playfield: [u16; 20],
    piece_x: u8,
    piece_y: u8,
    piece_orientation: Orientation,
    active_piece: Tetromino,
    /// Set by every command; the renderer clears it after drawing.
    pub changed: bool,
    last_update: u64,
    score: usize,
}

impl View for TetrisEngine {
    type V = GameView;

    closed spec fn view(&self) -> GameView {
        GameView {
            playfield: self.playfield@,
            x: self.piece_x as int,
            y: self.piece_y as int,
            piece: self.active_piece,
            orientation: self.piece_orientation,
            changed: self.changed,
            last_update: self.last_update,
            score: self.score as int,
        }
    }
}

impl TetrisEngine {
    /// A fresh game: empty playfield, an L piece at the spawn position,
    /// dirty flag raised so the first frame is drawn.
    pub fn new(now: u64) -> (engine: TetrisEngine)
        ensures
            engine@ == (GameView {
                playfield: Seq::new(20, |r: int| 0u16),
                x: 4,
                y: 0,
                piece: Tetromino::L,
                orientation: Orientation::N,
                changed: true,
                last_update: now,
                score: 0,
            }),
            engine@.wf(),
            piece_fits(engine@),
    {
        let engine = TetrisEngine {
            playfield: [0u16; 20],
            piece_x: 4,
            piece_y: 0,
            piece_orientation: Orientation::N,
            active_piece: Tetromino::L,
            changed: true,
            last_update: now,
            score: 0,
        };
        proof {
            assert(engine@.playfield =~= Seq::new(20, |r: int| 0u16));
            assert(engine@ =~= (GameView {
                playfield: Seq::new(20, |r: int| 0u16),
                x: 4,
                y: 0,
                piece: Tetromino::L,
                orientation: Orientation::N,
                changed: true,
                last_update: now,
                score: 0,
            }));
            lemma_shape_extent(engine@.shape());
            if overlaps_spec(engine@.playfield, engine@.shape(), 4, 0) {
                let (row, col) = choose|row: int, col: int|
                    #[trigger] piece_covers(engine@.shape(), 4, 0, row, col) && row_bit(
                        engine@.playfield[row],
                        col as u16,
                    );
                lemma_zero_row_bit(col as u16);
            }
        }
        engine
    }

    /// Rotates the piece one clockwise step. No collision or kick check
    /// is made: the position never changes, even against a wall.
    pub fn rotate(&mut self)
        requires
            old(self)@.wf(),
        ensures
            final(self)@ == rotate_result(old(self)@),
            final(self)@.wf(),
    {
        match self.piece_orientation {
            Orientation::N => self.piece_orientation = Orientation::E,
            Orientation::E => self.piece_orientation = Orientation::S,
            Orientation::S => self.piece_orientation = Orientation::W,
            Orientation::W => self.piece_orientation = Orientation::N,
        }
        self.changed = true;
        proof {
            assert(self@ =~= rotate_result(old(self)@));
        }
    }

    /// Places the piece anchor, for setting up positions directly.
    pub fn set_piece_position(&mut self, x: u8, y: u8)
        requires
            old(self)@.wf(),
            x < 10,
            y < 20,
        ensures
            final(self)@ == (GameView { x: x as int, y: y as int, ..old(self)@ }),
            final(self)@.wf(),
    {
        self.piece_x = x;
        self.piece_y = y;
        proof {
            assert(self@ =~= (GameView { x: x as int, y: y as int, ..old(self)@ }));
        }
    }

    /// Replaces the falling piece's kind, keeping everything else.
    pub fn set_active_piece(&mut self, piece: Tetromino)
        requires
            old(self)@.wf(),
        ensures
            final(self)@ == (GameView { piece: piece, ..old(self)@ }),
            final(self)@.wf(),
    {
        self.active_piece = piece;
        proof {
            assert(self@ =~= (GameView { piece: piece, ..old(self)@ }));
        }
    }

    /// Sets the single locked cell `(x, y)` and raises the dirty flag.
    pub fn lock_tile(&mut self, x: usize, y: usize)
        requires
            old(self)@.wf(),
            x < 10,
            y < 20,
        ensures
            final(self)@ == (GameView {
                playfield: old(self)@.playfield.update(
                    y as int,
                    (1u16 << ((9 - x) as u16)) | old(self)@.playfield[y as int],
                ),
                changed: true,
                ..old(self)@
            }),
            final(self)@.wf(),
    {
        let shift: u16 = (9 - x) as u16;
        let mask: u16 = 1u16 << shift;
        proof {
            assert(1u16 << shift < 1024) by (bit_vector)
                requires
                    shift < 10,
            ;
            lemma_or_row_bound(mask, old(self)@.playfield[y as int]);
        }
        self.playfield[y] = mask | self.playfield[y];
        self.changed = true;
        proof {
            assert(self@ =~= (GameView {
                playfield: old(self)@.playfield.update(
                    y as int,
                    (1u16 << ((9 - x) as u16)) | old(self)@.playfield[y as int],
                ),
                changed: true,
                ..old(self)@
            }));
        }
    }

    /// Whether some command changed the state since the last redraw.
    pub fn is_changed(&self) -> (changed: bool)
        ensures
            changed == self@.changed,
    {
        self.changed
    }

    /// Sets the dirty flag; the renderer lowers it once it has drawn.
    pub fn set_changed(&mut self, changed: bool)
        requires
            old(self)@.wf(),
        ensures
            final(self)@ == (GameView { changed: changed, ..old(self)@ }),
            final(self)@.wf(),
    {
        self.changed = changed;
        proof {
            assert(self@ =~= (GameView { changed: changed, ..old(self)@ }));
        }
    }

    /// Builds the renderer's snapshot.
    pub fn get_state(&self) -> (state: GameState)
        ensures
            state.playfield@ == self@.playfield,
            state.piece_position@ == seq![self@.x as u8, self@.y as u8],
            state.active_piece == self@.shape(),
            state.score as int == self@.score,
    {
        let state = GameState {
            playfield: self.playfield,
            piece_position: [self.piece_x, self.piece_y],
            active_piece: get_tetromino_representation(&self.active_piece, &self.piece_orientation),
            score: self.score,
        };
        proof {
            assert(state.piece_position@ =~= seq![self@.x as u8, self@.y as u8]);
        }
        state
    }

    /// Checks the positioned shape against the locked cells, row by row.
    /// True exactly when some cell of the piece coincides with a locked
    /// cell (rows below the board hold no locked cells and never hit).
    pub fn overlaps_locked_pieces(&self, x: &u8, y: &u8) -> (hit: bool)
        requires
            self@.wf(),
            *x < 10,
            *y <= 20,
        ensures
            hit == overlaps_spec(self@.playfield, self@.shape(), *x as int, *y as int),
    {
        let piece = get_tetromino_representation(&self.active_piece, &self.piece_orientation);
        let mut i: u8 = 0;
        while i < 4
            invariant
                i <= 4,
                self@.wf(),
                *x < 10,
                *y <= 20,
                piece == self@.shape(),
                forall|row: int, col: int|
                    #[trigger] piece_covers(piece, *x as int, *y as int, row, col) && row < *y + i
                        ==> !row_bit(self@.playfield[row], col as u16),
            decreases 4 - i,
        {
            let piece_row = get_positioned_piece_row(&piece, &i, x);
            let target_y = (*y + i) as usize;
            if target_y > 19 {
                proof {
                    assert forall|row: int, col: int|
                        #[trigger] piece_covers(piece, *x as int, *y as int, row, col)
                            && row_bit(self@.playfield[row], col as u16) implies false by {
                        assert(row < *y + i || row >= 20);
                    }
                }
                return false;
            }
            let playfield_row = self.playfield[target_y];
            if piece_row & playfield_row != 0 {
                proof {
                    lemma_rows_intersect(piece_row, playfield_row);
                    let c = choose|c: u16| c < 10 && row_bit(piece_row, c) && row_bit(
                        playfield_row,
                        c,
                    );
                    lemma_positioned_row_bit(piece, i as u16, *x as u16, c);
                    assert(piece_covers(
                        piece,
                        *x as int,
                        *y as int,
                        *y + i,
                        c as int,
                    ));
                    assert(overlaps_spec(self@.playfield, self@.shape(), *x as int, *y as int));
                }
                return true;
            }
            proof {
                assert forall|row: int, col: int|
                    #[trigger] piece_covers(piece, *x as int, *y as int, row, col) && row < *y + i
                        + 1 implies !row_bit(self@.playfield[row], col as u16) by {
                    if row == *y + i {
                        if 0 <= col < 10 {
                            lemma_positioned_row_bit(piece, i as u16, *x as u16, col as u16);
                            lemma_rows_intersect(piece_row, playfield_row);
                        }
                    }
                }
            }
            i = i + 1;
        }
        proof {
            assert forall|row: int, col: int|
                #[trigger] piece_covers(piece, *x as int, *y as int, row, col) && row_bit(
                    self@.playfield[row],
                    col as u16,
                ) implies false by {
                assert(row < *y + 4);
            }
        }
        false
    }

    /// Applies a one-step move command. The horizontal shift is accepted
    /// only if the shifted piece stays inside the right wall and off the
    /// locked cells; the soft drop (`dy` of 1) only if the piece can
    /// fall. An upward delta is never applied, and a rejected shift is
    /// silently ignored; the dirty flag is raised either way.
    pub fn move_current_shape(&mut self, dx: isize, dy: isize)
        requires
            old(self)@.wf(),
            -1 <= dx <= 1,
            -1 <= dy <= 1,
        ensures
            final(self)@ == move_result(old(self)@, dx as int, dy as int),
            final(self)@.wf(),
            piece_fits(old(self)@) ==> piece_fits(final(self)@),
    {
        proof {
            lemma_shape_matrix_nonzero(self.active_piece, self.piece_orientation);
            lemma_shape_extent(self@.shape());
        }
        let piece = get_tetromino_representation(&self.active_piece, &self.piece_orientation);
        let nx = self.piece_x as isize + dx;
        if nx >= 0 {
            let new_x = nx as u8;
            if get_piece_width(&piece) + new_x <= 10 {
                if !self.overlaps_locked_pieces(&new_x, &self.piece_y) {
                    self.piece_x = new_x;
                }
            }
        }
        if dy == 1 {
            if self.can_move_down() {
                self.piece_y = self.piece_y + 1;
            }
        }
        self.changed = true;
        proof {
            assert(self@ =~= move_result(old(self)@, dx as int, dy as int));
        }
    }

    /// Merges the piece's cells into the playfield by ORing each non-empty
    /// positioned row into the row it stands on. Rows of the piece's box
    /// that fall below the board are dropped. No cell is lost or invented:
    /// every board row becomes the union of its old cells and the piece's.
    pub fn lock_active_piece(&mut self)
        requires
            old(self)@.wf(),
        ensures
            final(self)@ == (GameView {
                playfield: merged(
                    old(self)@.playfield,
                    old(self)@.shape(),
                    old(self)@.x,
                    old(self)@.y,
                ),
                ..old(self)@
            }),
            final(self)@.wf(),
    {
        let ghost v0 = self@;
        let piece = get_tetromino_representation(&self.active_piece, &self.piece_orientation);
        let mut i: u8 = 0;
        while i < 4
            invariant
                i <= 4,
                v0.wf(),
                piece == v0.shape(),
                self@ == (GameView { playfield: self@.playfield, ..v0 }),
                self@.playfield.len() == 20,
                forall|r: int| 0 <= r < 20 ==> self@.playfield[r] < 1024,
                forall|r: int|
                    0 <= r < 20 && v0.y <= r < v0.y + i ==> self@.playfield[r] == (
                    v0.playfield[r] | placed_row(piece, v0.x, v0.y, r)),
                forall|r: int|
                    0 <= r < 20 && !(v0.y <= r < v0.y + i) ==> self@.playfield[r]
                        == v0.playfield[r],
            decreases 4 - i,
        {
            let piece_row = get_positioned_piece_row(&piece, &i, &self.piece_x);
            if piece_row != 0 {
                let target_y = (self.piece_y + i) as usize;
                if target_y <= 19 {
                    proof {
                        lemma_or_row_bound(self@.playfield[target_y as int], piece_row);
                    }
                    self.playfield[target_y] = self.playfield[target_y] | piece_row;
                }
            }
            proof {
                let r = v0.y + i;
                if 0 <= r < 20 {
                    lemma_or_row_bound(v0.playfield[r], 0);
                }
            }
            i = i + 1;
        }
        proof {
            assert forall|r: int| 0 <= r < 20 implies self@.playfield[r] == (
                v0.playfield[r] | placed_row(piece, v0.x, v0.y, r)) by {
                if !(v0.y <= r < v0.y + 4) {
                    lemma_or_row_bound(v0.playfield[r], 0);
                }
            }
            assert(self@.playfield =~= merged(v0.playfield, v0.shape(), v0.x, v0.y));
            assert(self@ =~= (GameView {
                playfield: merged(v0.playfield, v0.shape(), v0.x, v0.y),
                ..v0
            }));
        }
    }

    /// Removes row `i`: every row above it drops one step and a fresh
    /// empty row enters at the top.
    fn clear_line(&mut self, i: usize)
        requires
            old(self)@.wf(),
            i < 20,
        ensures
            final(self)@ == (GameView {
                playfield: seq![0u16] + old(self)@.playfield.take(i as int) + old(
                    self,
                )@.playfield.skip(i as int + 1),
                ..old(self)@
            }),
            final(self)@.wf(),
    {
        let ghost v0 = self@;
        let mut j: usize = i;
        while j >= 1
            invariant
                j <= i,
                i < 20,
                v0.wf(),
                self@ == (GameView { playfield: self@.playfield, ..v0 }),
                self@.playfield.len() == 20,
                forall|r: int| 0 <= r < 20 ==> self@.playfield[r] < 1024,
                self@.playfield == v0.playfield.take(j + 1) + v0.playfield.subrange(
                    j as int,
                    i as int,
                ) + v0.playfield.skip(i as int + 1),
            decreases j,
        {
            self.playfield[j] = self.playfield[j - 1];
            proof {
                assert(self@.playfield =~= v0.playfield.take(j as int) + v0.playfield.subrange(
                    j - 1,
                    i as int,
                ) + v0.playfield.skip(i as int + 1));
            }
            j = j - 1;
        }
        self.playfield[0] = 0;
        proof {
            assert(self@.playfield =~= seq![0u16] + v0.playfield.take(i as int)
                + v0.playfield.skip(i as int + 1));
            assert(self@ =~= (GameView {
                playfield: seq![0u16] + v0.playfield.take(i as int) + v0.playfield.skip(
                    i as int + 1,
                ),
                ..v0
            }));
        }
    }

    /// One clearing pass, top to bottom: each full row is removed and
    /// everything above it drops. Because dropped rows were already seen
    /// and were not full, a single pass removes every full row; the
    /// resulting playfield is exactly `cleared_rows` of the old one, so
    /// a second pass right after a first never changes anything.
    pub fn apply_gravity(&mut self)
        requires
            old(self)@.wf(),
        ensures
            final(self)@ == (GameView {
                playfield: cleared_rows(old(self)@.playfield),
                ..old(self)@
            }),
            final(self)@.wf(),
    {
        let ghost v0 = self@;
        let mut i: usize = 0;
        while i < 20
            invariant
                i <= 20,
                v0.wf(),
                self@ == (GameView { playfield: self@.playfield, ..v0 }),
                self@.playfield.len() == 20,
                forall|r: int| 0 <= r < 20 ==> self@.playfield[r] < 1024,
                kept_rows(v0.playfield.take(i as int)).len() <= i,
                self@.playfield == Seq::new(
                    (i - kept_rows(v0.playfield.take(i as int)).len()) as nat,
                    |j: int| 0u16,
                ) + kept_rows(v0.playfield.take(i as int)) + v0.playfield.skip(i as int),
            decreases 20 - i,
        {
            let ghost taken = v0.playfield.take(i as int);
            let ghost kept = kept_rows(taken);
            let ghost zeros = Seq::new((i - kept.len()) as nat, |j: int| 0u16);
            proof {
                assert(self@.playfield[i as int] == v0.playfield[i as int]);
                lemma_kept_take_step(v0.playfield, i as int);
            }
            if self.playfield[i] == FULL_ROW {
                self.clear_line(i);
                proof {
                    let cur = zeros + kept + v0.playfield.skip(i as int);
                    assert(cur.take(i as int) =~= zeros + kept);
                    assert(cur.skip(i as int + 1) =~= v0.playfield.skip(i as int + 1));
                    assert(kept_rows(v0.playfield.take(i as int + 1)) == kept);
                    assert(self@.playfield =~= Seq::new(
                        (i + 1 - kept.len()) as nat,
                        |j: int| 0u16,
                    ) + kept + v0.playfield.skip(i as int + 1));
                }
            } else {
                proof {
                    assert(kept_rows(v0.playfield.take(i as int + 1)) == kept.push(
                        v0.playfield[i as int],
                    ));
                    assert(self@.playfield =~= zeros + kept.push(v0.playfield[i as int])
                        + v0.playfield.skip(i as int + 1));
                }
            }
            i = i + 1;
        }
        proof {
            assert(v0.playfield.take(20) =~= v0.playfield);
            assert(self@.playfield =~= cleared_rows(v0.playfield));
            assert(self@ =~= (GameView { playfield: cleared_rows(v0.playfield), ..v0 }));
        }
    }

    /// Replaces the falling piece's kind by a fresh draw from the seven
    /// kinds; nothing else changes. Which index comes out of the draw is
    /// left open; what each index stands for is fixed by `kind_of_index`.
    pub fn generate_random_piece(&mut self)
        requires
            old(self)@.wf(),
        ensures
            exists|idx: int|
                0 <= idx < 7 && final(self)@ == (GameView {
                    piece: #[trigger] kind_of_index(idx),
                    ..old(self)@
                }),
            final(self)@.wf(),
    {
        let idx = draw_piece_index();
        self.active_piece = piece_from_index(idx);
        proof {
            assert(self@ =~= (GameView { piece: kind_of_index(idx as int), ..old(self)@ }));
        }
    }

    /// One time-gated advance. Before the tick interval has elapsed this
    /// is a no-op. Otherwise the piece falls one row if it can; if not it
    /// locks where it stands, full rows are cleared, and a fresh random
    /// piece spawns at (4, 0) facing north. Either way the clock is
    /// stamped and the dirty flag raised.
    pub fn update(&mut self, now: u64)
        requires
            old(self)@.wf(),
        ensures
            final(self)@.wf(),
            !tick_due(now, old(self)@.last_update) ==> final(self)@ == old(self)@,
            tick_due(now, old(self)@.last_update) && old(self)@.can_fall() ==> final(self)@
                == fall_result(old(self)@, now),
            tick_due(now, old(self)@.last_update) && !old(self)@.can_fall() ==> exists|k: Tetromino|
                final(self)@ == lock_result(old(self)@, now, k),
    {
        let due = match self.last_update.checked_add(TICK_INTERVAL_MS) {
            Some(threshold) => now >= threshold,
            None => false,
        };
        if !due {
            return;
        }
        if self.can_move_down() {
            proof {
                lemma_shape_matrix_nonzero(self.active_piece, self.piece_orientation);
                lemma_shape_extent(self@.shape());
            }
            self.piece_y = self.piece_y + 1;
        } else {
            self.lock_active_piece();
            self.apply_gravity();
            self.piece_x = 4;
            self.piece_y = 0;
            self.piece_orientation = Orientation::N;
            self.generate_random_piece();
        }
        self.last_update = now;
        self.changed = true;
        proof {
            if old(self)@.can_fall() {
                assert(self@ =~= fall_result(old(self)@, now));
            } else {
                let k = self@.piece;
                assert(self@ =~= lock_result(old(self)@, now, k));
            }
        }
    }

    /// Whether the piece can fall one more row from where it stands.
    pub fn can_move_down(&self) -> (can: bool)
        requires
            self@.wf(),
        ensures
            can == self@.can_fall(),
    {
        let piece = get_tetromino_representation(&self.active_piece, &self.piece_orientation);
        let piece_height = get_piece_height(&piece);
        if self.piece_y + piece_height > 19 {
            return false;
        }
        if self.overlaps_locked_pieces(&self.piece_x, &(self.piece_y + 1)) {
            return false;
        }
        true
    }
}

} // verus!
