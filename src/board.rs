use crate::bricks::{BrickView, Brick, Dot};
use crate::consts::{BOARD_X, BOARD_X_Y, BOARD_Y, BOARD_Y_VALID};
use vstd::prelude::*;

verus! {

/// Whether `(x, y)` names a cell of the board.
pub open spec fn on_board(x: int, y: int) -> bool {
    0 <= x < BOARD_X && 0 <= y < BOARD_Y
}

/// Position of cell `(x, y)` in the row-major grid, bottom row first.
pub open spec fn cell_index(x: int, y: int) -> int {
    y * BOARD_X + x
}

/// Whether cell `(x, y)` of grid `s` is occupied; cells off the board never are.
pub open spec fn cell(s: Seq<bool>, x: int, y: int) -> bool {
    on_board(x, y) && s[cell_index(x, y)]
}

/// Grid `s` with cell `(x, y)` occupied; a cell off the board changes nothing.
pub open spec fn occupy(s: Seq<bool>, x: int, y: int) -> Seq<bool> {
    if on_board(x, y) {
        s.update(cell_index(x, y), true)
    } else {
        s
    }
}

/// A grid of `n` empty cells.
pub open spec fn empty_cells(n: int) -> Seq<bool> {
    Seq::new(n as nat, |i: int| false)
}

/// Column of the `i`-th cell of shape `v` placed at `pos`.
pub open spec fn placed_x(v: BrickView, pos: Dot, i: int) -> int {
    v.dots[i].0 + pos.0
}

/// Row of the `i`-th cell of shape `v` placed at `pos`.
pub open spec fn placed_y(v: BrickView, pos: Dot, i: int) -> int {
    v.dots[i].1 + pos.1
}

/// Grid `s` with the four cells of shape `v` at `pos` occupied.
pub open spec fn occupy_shape(s: Seq<bool>, v: BrickView, pos: Dot) -> Seq<bool> {
    let s1 = occupy(s, placed_x(v, pos, 0), placed_y(v, pos, 0));
    let s2 = occupy(s1, placed_x(v, pos, 1), placed_y(v, pos, 1));
    let s3 = occupy(s2, placed_x(v, pos, 2), placed_y(v, pos, 2));
    occupy(s3, placed_x(v, pos, 3), placed_y(v, pos, 3))
}

/// Whether a piece's cell may stand at `(x, y)`: within the columns and not
/// below the floor. There is no upper limit, so a piece is never out of
/// bounds for standing too high.
pub open spec fn dot_in_board(x: int, y: int) -> bool {
    0 <= x < BOARD_X && 0 <= y
}

/// Whether all four cells of shape `v` at `pos` may stand where they are.
pub open spec fn shape_in_board(v: BrickView, pos: Dot) -> bool {
    forall|i: int| 0 <= i < 4 ==> dot_in_board(#[trigger] placed_x(v, pos, i), placed_y(v, pos, i))
}

/// Whether any of the four cells of shape `v` at `pos` is occupied in `s`.
pub open spec fn shape_conflicts(s: Seq<bool>, v: BrickView, pos: Dot) -> bool {
    exists|i: int| 0 <= i < 4 && cell(s, #[trigger] placed_x(v, pos, i), placed_y(v, pos, i))
}

/// Whether shape `v` may be placed at `pos` on grid `s`.
pub open spec fn shape_valid(s: Seq<bool>, v: BrickView, pos: Dot) -> bool {
    shape_in_board(v, pos) && !shape_conflicts(s, v, pos)
}

/// Whether every cell of row `y` of `s` is occupied.
pub open spec fn row_full(s: Seq<bool>, y: int) -> bool {
    forall|x: int| 0 <= x < BOARD_X ==> #[trigger] s[cell_index(x, y)]
}

/// Whether row `y` of `s` is a playable row that is full.
pub open spec fn clearable(s: Seq<bool>, y: int) -> bool {
    0 <= y < BOARD_Y_VALID && row_full(s, y)
}

/// The cells of row `y` of `s`.
pub open spec fn row(s: Seq<bool>, y: int) -> Seq<bool> {
    s.subrange(y * BOARD_X, (y + 1) * BOARD_X)
}

/// The rows of `s` from `y` up that stay when the clearable rows are taken
/// out, in their order, bottom first.
pub open spec fn kept_from(s: Seq<bool>, y: int) -> Seq<bool>
    decreases BOARD_Y - y,
{
    if y >= BOARD_Y {
        Seq::empty()
    } else if clearable(s, y) {
        kept_from(s, y + 1)
    } else {
        row(s, y) + kept_from(s, y + 1)
    }
}

/// The number of clearable rows of `s` from `y` up.
pub open spec fn cleared_from(s: Seq<bool>, y: int) -> int
    decreases BOARD_Y - y,
{
    if y >= BOARD_Y {
        0
    } else if clearable(s, y) {
        cleared_from(s, y + 1) + 1
    } else {
        cleared_from(s, y + 1)
    }
}

/// Grid `s` once all its clearable rows are removed together and as many
/// empty rows are added on top.
pub open spec fn after_clear(s: Seq<bool>) -> Seq<bool> {
    kept_from(s, 0) + empty_cells(cleared_from(s, 0) * BOARD_X)
}

/// The clearable rows of `s` below row `n`, highest first.
pub open spec fn clearable_rows_below(s: Seq<bool>, n: int) -> Seq<i8>
    decreases n,
{
    if n <= 0 {
        Seq::empty()
    } else if clearable(s, n - 1) {
        seq![(n - 1) as i8] + clearable_rows_below(s, n - 1)
    } else {
        clearable_rows_below(s, n - 1)
    }
}

/// The kept rows and the cleared rows from `y` up account for every cell.
pub proof fn lemma_kept_len(s: Seq<bool>, y: int)
    requires
        0 <= y <= BOARD_Y,
        s.len() == BOARD_X_Y,
    ensures
        kept_from(s, y).len() + cleared_from(s, y) * BOARD_X == (BOARD_Y - y) * BOARD_X,
        0 <= cleared_from(s, y) <= BOARD_Y - y,
    decreases BOARD_Y - y,
{
    if y < BOARD_Y {
        lemma_kept_len(s, y + 1);
    }
}

/// Rows `y..z` of `s`, none of them clearable, stay as they are.
pub proof fn lemma_kept_no_clear(s: Seq<bool>, y: int, z: int)
    requires
        s.len() == BOARD_X_Y,
        0 <= y <= z <= BOARD_Y,
        forall|r: int| y <= r < z ==> !#[trigger] clearable(s, r),
    ensures
        kept_from(s, y) == s.subrange(y * BOARD_X, z * BOARD_X) + kept_from(s, z),
        cleared_from(s, y) == cleared_from(s, z),
    decreases z - y,
{
    if y < z {
        lemma_kept_no_clear(s, y + 1, z);
        assert(kept_from(s, y) =~= s.subrange(y * BOARD_X, z * BOARD_X) + kept_from(s, z));
    } else {
        assert(kept_from(s, y) =~= s.subrange(y * BOARD_X, z * BOARD_X) + kept_from(s, z));
    }
}

/// Rows `y..z` of `s`, all of them clearable, all go.
pub proof fn lemma_kept_all_clear(s: Seq<bool>, y: int, z: int)
    requires
        s.len() == BOARD_X_Y,
        0 <= y <= z <= BOARD_Y,
        forall|r: int| y <= r < z ==> #[trigger] clearable(s, r),
    ensures
        kept_from(s, y) == kept_from(s, z),
        cleared_from(s, y) == cleared_from(s, z) + (z - y),
    decreases z - y,
{
    if y < z {
        lemma_kept_all_clear(s, y + 1, z);
    }
}

/// A cell off the board reads as empty, and occupying it changes nothing.
pub proof fn lemma_off_board(s: Seq<bool>, x: int, y: int)
    requires
        s.len() == BOARD_X_Y,
        !on_board(x, y),
    ensures
        !cell(s, x, y),
        occupy(s, x, y) == s,
{
}

/// Clearing a board whose full playable rows are exactly the `k` contiguous
/// rows from `a` removes those `k` rows, moves the rows above them down in
/// their order, and leaves `k` empty rows at the top.
pub proof fn lemma_clear_contiguous_rows(s: Seq<bool>, a: int, k: int)
    requires
        s.len() == BOARD_X_Y,
        0 <= a,
        0 <= k,
        a + k <= BOARD_Y_VALID,
        forall|r: int| a <= r < a + k ==> #[trigger] row_full(s, r),
        forall|r: int| 0 <= r < BOARD_Y_VALID && !(a <= r < a + k) ==> !#[trigger] row_full(s, r),
    ensures
        after_clear(s) == s.take(a * BOARD_X) + s.subrange((a + k) * BOARD_X, BOARD_X_Y as int)
            + empty_cells(k * BOARD_X),
        cleared_from(s, 0) == k,
{
    lemma_kept_no_clear(s, 0, a);
    lemma_kept_all_clear(s, a, a + k);
    lemma_kept_no_clear(s, a + k, BOARD_Y as int);
    assert(s.subrange(0, a * BOARD_X) =~= s.take(a * BOARD_X));
    assert(after_clear(s) =~= s.take(a * BOARD_X) + s.subrange((a + k) * BOARD_X, BOARD_X_Y as int)
        + empty_cells(k * BOARD_X));
}

/// Clearing an empty board removes nothing and changes nothing.
pub proof fn lemma_clear_empty_board()
    ensures
        after_clear(empty_cells(BOARD_X_Y as int)) == empty_cells(BOARD_X_Y as int),
        cleared_from(empty_cells(BOARD_X_Y as int), 0) == 0,
{
    let s = empty_cells(BOARD_X_Y as int);
    assert forall|r: int| 0 <= r < BOARD_Y implies !#[trigger] clearable(s, r) by {
        assert(!s[cell_index(0, r)]);
    }
    lemma_kept_no_clear(s, 0, BOARD_Y as int);
    assert(after_clear(s) =~= s);
}

/// A shape within the bounds of an empty board may be placed there.
pub proof fn lemma_in_bounds_valid_on_empty_board(v: BrickView, pos: Dot)
    requires
        shape_in_board(v, pos),
    ensures
        shape_valid(empty_cells(BOARD_X_Y as int), v, pos),
{
}

/// A shape with a cell on an occupied cell may not be placed.
pub proof fn lemma_overlap_invalid(s: Seq<bool>, v: BrickView, pos: Dot, i: int)
    requires
        0 <= i < 4,
        cell(s, placed_x(v, pos, i), placed_y(v, pos, i)),
    ensures
        !shape_valid(s, v, pos),
{
}

/// A shape with a cell left or right of the board may not be placed.
pub proof fn lemma_outside_columns_invalid(s: Seq<bool>, v: BrickView, pos: Dot, i: int)
    requires
        0 <= i < 4,
        placed_x(v, pos, i) < 0 || placed_x(v, pos, i) >= BOARD_X,
    ensures
        !shape_valid(s, v, pos),
{
}

/// The occupancy grid: `BOARD_X` columns by `BOARD_Y` rows.
#[derive(Debug)]
pub struct Board(Vec<bool>);

impl View for Board {
    type V = Seq<bool>;

    closed spec fn view(&self) -> Seq<bool> {
        self.0@
    }
}

impl Default for Board {
    /// An empty board.
    fn default() -> (r: Self)
        ensures
            r@ == empty_cells(BOARD_X_Y as int),
    {
        let mut v: Vec<bool> = Vec::new();
        let mut i: usize = 0;
        while i < BOARD_X_Y
            invariant
                i <= BOARD_X_Y,
                v@ == empty_cells(i as int),
            decreases BOARD_X_Y - i,
        {
            v.push(false);
            i = i + 1;
            assert(v@ =~= empty_cells(i as int));
        }
        Board(v)
    }
}

impl Board {
    /// A board holds one flag per cell.
    pub open spec fn wf(&self) -> bool {
        self@.len() == BOARD_X_Y
    }

    /// Whether cell `(x, y)` is occupied.
    pub open spec fn cell(&self, x: int, y: int) -> bool {
        cell(self@, x, y)
    }

    fn index(x: i16, y: i16) -> (r: usize)
        requires
            on_board(x as int, y as int),
        ensures
            r == cell_index(x as int, y as int),
    {
        x as usize + y as usize * BOARD_X as usize
    }

    fn occupy_xy(&mut self, x: i16, y: i16)
        requires
            old(self).wf(),
        ensures
            final(self)@ == occupy(old(self)@, x as int, y as int),
    {
        if 0 <= x && x < BOARD_X as i16 && 0 <= y && y < BOARD_Y as i16 {
            let i = Self::index(x, y);
            self.0.set(i, true);
        }
    }

    fn occupied_xy(&self, x: i16, y: i16) -> (r: bool)
        requires
            self.wf(),
        ensures
            r == cell(self@, x as int, y as int),
    {
        if 0 <= x && x < BOARD_X as i16 && 0 <= y && y < BOARD_Y as i16 {
            self.0[Self::index(x, y)]
        } else {
            false
        }
    }

    /// Marks one cell occupied; a cell off the board is left alone.
    pub fn occupy_dot(&mut self, dot: &Dot) -> (r: &mut Self)
        requires
            old(self).wf(),
        ensures
            r@ == occupy(old(self)@, dot.0 as int, dot.1 as int),
            *final(self) == *final(r),
    {
        self.occupy_xy(dot.0 as i16, dot.1 as i16);
        self
    }

    /// Marks the four cells of a shape placed at `pos` occupied.
    pub fn occupy_brick_view(&mut self, brick: &BrickView, pos: &Dot)
        requires
            old(self).wf(),
        ensures
            final(self)@ == occupy_shape(old(self)@, *brick, *pos),
    {
        let mut i: usize = 0;
        while i < 4
            invariant
                i <= 4,
                self.wf(),
                i == 0 ==> self@ == old(self)@,
                i == 1 ==> self@ == occupy(old(self)@, placed_x(*brick, *pos, 0), placed_y(*brick, *pos, 0)),
                i == 2 ==> self@ == occupy(occupy(old(self)@, placed_x(*brick, *pos, 0), placed_y(*brick, *pos, 0)), placed_x(*brick, *pos, 1), placed_y(*brick, *pos, 1)),
                i == 3 ==> self@ == occupy(occupy(occupy(old(self)@, placed_x(*brick, *pos, 0), placed_y(*brick, *pos, 0)), placed_x(*brick, *pos, 1), placed_y(*brick, *pos, 1)), placed_x(*brick, *pos, 2), placed_y(*brick, *pos, 2)),
                i == 4 ==> self@ == occupy_shape(old(self)@, *brick, *pos),
            decreases 4 - i,
        {
            let d = brick.dots[i];
            self.occupy_xy(d.0 as i16 + pos.0 as i16, d.1 as i16 + pos.1 as i16);
            i = i + 1;
        }
    }

    /// Marks the cells of a piece placed at `pos` occupied.
    pub fn occupy_brick(&mut self, brick: &Brick, pos: &Dot)
        requires
            old(self).wf(),
            brick.wf(),
        ensures
            final(self)@ == occupy_shape(old(self)@, brick.shape(), *pos),
    {
        let view = BrickView::from(*brick);
        self.occupy_brick_view(&view, pos)
    }

    fn placed(brick: &BrickView, pos: &Dot, i: usize) -> (r: (i16, i16))
        requires
            i < 4,
        ensures
            r.0 == placed_x(*brick, *pos, i as int),
            r.1 == placed_y(*brick, *pos, i as int),
    {
        let d = brick.dots[i];
        (d.0 as i16 + pos.0 as i16, d.1 as i16 + pos.1 as i16)
    }

    /// Whether any cell of a shape placed at `pos` is already occupied.
    pub fn conflict_brick(&self, brick: &BrickView, pos: &Dot) -> (r: bool)
        requires
            self.wf(),
        ensures
            r == shape_conflicts(self@, *brick, *pos),
    {
        let (x0, y0) = Self::placed(brick, pos, 0);
        let (x1, y1) = Self::placed(brick, pos, 1);
        let (x2, y2) = Self::placed(brick, pos, 2);
        let (x3, y3) = Self::placed(brick, pos, 3);
        let r = self.occupied_xy(x0, y0) || self.occupied_xy(x1, y1) || self.occupied_xy(x2, y2)
            || self.occupied_xy(x3, y3);
        r
    }

    fn dot_in_board(x: i16, y: i16) -> (r: bool)
        ensures
            r == dot_in_board(x as int, y as int),
    {
        0 <= x && x < BOARD_X as i16 && 0 <= y
    }

    fn brick_in_board(brick: &BrickView, pos: &Dot) -> (r: bool)
        ensures
            r == shape_in_board(*brick, *pos),
    {
        let (x0, y0) = Self::placed(brick, pos, 0);
        let (x1, y1) = Self::placed(brick, pos, 1);
        let (x2, y2) = Self::placed(brick, pos, 2);
        let (x3, y3) = Self::placed(brick, pos, 3);
        let r = Self::dot_in_board(x0, y0) && Self::dot_in_board(x1, y1) && Self::dot_in_board(x2, y2)
            && Self::dot_in_board(x3, y3);
        r
    }

    /// Whether a shape may stand at `pos`: in bounds and on free cells only.
    pub fn valid_brick_view(&self, brick: &BrickView, pos: &Dot) -> (r: bool)
        requires
            self.wf(),
        ensures
            r == shape_valid(self@, *brick, *pos),
    {
        Self::brick_in_board(brick, pos) && !self.conflict_brick(brick, pos)
    }

    /// Whether a piece may stand at `pos`.
    pub fn valid_brick(&self, brick: &Brick, pos: &Dot) -> (r: bool)
        requires
            self.wf(),
            brick.wf(),
        ensures
            r == shape_valid(self@, brick.shape(), *pos),
    {
        self.valid_brick_view(&BrickView::from(*brick), pos)
    }

    /// Empties every cell.
    pub fn clear(&mut self)
        requires
            old(self).wf(),
        ensures
            final(self)@ == empty_cells(BOARD_X_Y as int),
    {
        let mut i: usize = 0;
        while i < BOARD_X_Y
            invariant
                self.wf(),
                i <= BOARD_X_Y,
                forall|j: int| 0 <= j < i ==> !self@[j],
            decreases BOARD_X_Y - i,
        {
            self.0.set(i, false);
            i = i + 1;
        }
        assert(self@ =~= empty_cells(BOARD_X_Y as int));
    }

    /// Whether every cell of playable row `y` is occupied.
    pub fn can_clean_line(&self, y: i8) -> (r: bool)
        requires
            self.wf(),
            0 <= y < BOARD_Y_VALID,
        ensures
            r == row_full(self@, y as int),
    {
        let start = Self::index(0, y as i16);
        let mut x: usize = 0;
        while x < BOARD_X as usize
            invariant
                self.wf(),
                0 <= y < BOARD_Y_VALID,
                start == cell_index(0, y as int),
                x <= BOARD_X,
                forall|k: int| 0 <= k < x ==> #[trigger] self@[cell_index(k, y as int)],
            decreases BOARD_X - x,
        {
            if !self.0[start + x] {
                assert(!self@[cell_index(x as int, y as int)]);
                return false;
            }
            x = x + 1;
        }
        true
    }

    /// The full playable rows, from the top down.
    pub fn get_clean_lines(&self) -> (r: Vec<i8>)
        requires
            self.wf(),
        ensures
            r@ == clearable_rows_below(self@, BOARD_Y_VALID as int),
    {
        let mut v: Vec<i8> = Vec::with_capacity(4);
        let mut i: i8 = BOARD_Y_VALID;
        while i > 0
            invariant
                self.wf(),
                0 <= i <= BOARD_Y_VALID,
                v@ + clearable_rows_below(self@, i as int) == clearable_rows_below(self@, BOARD_Y_VALID as int),
            decreases i,
        {
            i = i - 1;
            if self.can_clean_line(i) {
                v.push(i);
                assert(v@ + clearable_rows_below(self@, i as int) =~= v@.drop_last() + clearable_rows_below(self@, i + 1));
            }
        }
        assert(v@ + clearable_rows_below(self@, 0) =~= v@);
        v
    }

    /// Removes playable row `y`: every row above it moves down by one and
    /// the top row becomes empty.
    pub fn clean_line(&mut self, y: i8)
        requires
            old(self).wf(),
            0 <= y < BOARD_Y_VALID,
        ensures
            final(self)@ == old(self)@.take(y * BOARD_X) + old(self)@.subrange(
                (y + 1) * BOARD_X,
                BOARD_X_Y as int,
            ) + empty_cells(BOARD_X as int),
    {
        let w = BOARD_X as usize;
        let dst_below = Self::index(0, y as i16);
        let top = BOARD_X_Y - w;
        let mut i: usize = dst_below;
        while i < top
            invariant
                self.wf(),
                0 <= y < BOARD_Y_VALID,
                w == BOARD_X,
                top == BOARD_X_Y - BOARD_X,
                dst_below == cell_index(0, y as int),
                dst_below <= i <= top,
                forall|j: int| 0 <= j < dst_below ==> self@[j] == old(self)@[j],
                forall|j: int| dst_below <= j < i ==> self@[j] == old(self)@[j + BOARD_X],
                forall|j: int| i <= j < BOARD_X_Y ==> self@[j] == old(self)@[j],
            decreases top - i,
        {
            let v = self.0[i + w];
            self.0.set(i, v);
            i = i + 1;
        }
        while i < BOARD_X_Y
            invariant
                self.wf(),
                w == BOARD_X,
                top == BOARD_X_Y - BOARD_X,
                top <= i <= BOARD_X_Y,
                dst_below <= top,
                dst_below == cell_index(0, y as int),
                forall|j: int| 0 <= j < dst_below ==> self@[j] == old(self)@[j],
                forall|j: int| dst_below <= j < top ==> self@[j] == old(self)@[j + BOARD_X],
                forall|j: int| top <= j < i ==> !self@[j],
            decreases BOARD_X_Y - i,
        {
            self.0.set(i, false);
            i = i + 1;
        }
        assert(self@ =~= old(self)@.take(y * BOARD_X) + old(self)@.subrange(
            (y + 1) * BOARD_X,
            BOARD_X_Y as int,
        ) + empty_cells(BOARD_X as int));
    }

    /// Removes every full playable row, moving the rows above down and
    /// filling in empty rows at the top; returns how many were removed.
    pub fn clean_lines(&mut self) -> (r: u32)
        requires
            old(self).wf(),
        ensures
            final(self).wf(),
            final(self)@ == after_clear(old(self)@),
            r == cleared_from(old(self)@, 0),
    {
        let ghost s0 = self@;
        let mut count: u32 = 0;
        let mut y: i8 = BOARD_Y;
        proof {
            assert(s0.take(BOARD_Y * BOARD_X) + kept_from(s0, BOARD_Y as int) + empty_cells(0) =~= s0);
        }
        while y > 0
            invariant
                self.wf(),
                s0.len() == BOARD_X_Y,
                0 <= y <= BOARD_Y,
                count == cleared_from(s0, y as int),
                self@ == s0.take(y * BOARD_X) + kept_from(s0, y as int) + empty_cells(count * BOARD_X),
            decreases y,
        {
            y = y - 1;
            proof {
                lemma_kept_len(s0, y + 1);
                assert(forall|k: int| 0 <= k < (y + 1) * BOARD_X ==> self@[k] == s0[k]);
                assert(row_full(self@, y as int) == row_full(s0, y as int));
            }
            let ghost cur = self@;
            let ghost k1 = kept_from(s0, y + 1);
            let ghost e1 = empty_cells(count * BOARD_X);
            if y < BOARD_Y_VALID && self.can_clean_line(y) {
                self.clean_line(y);
                count = count + 1;
                proof {
                    assert(cur.take(y * BOARD_X) =~= s0.take(y * BOARD_X));
                    assert(cur.subrange((y + 1) * BOARD_X, BOARD_X_Y as int) =~= k1 + e1);
                    assert(e1 + empty_cells(BOARD_X as int) =~= empty_cells(count * BOARD_X));
                    assert(self@ =~= s0.take(y * BOARD_X) + kept_from(s0, y as int) + empty_cells(count * BOARD_X));
                }
            } else {
                proof {
                    assert(s0.take((y + 1) * BOARD_X) =~= s0.take(y * BOARD_X) + row(s0, y as int));
                    assert(self@ =~= s0.take(y * BOARD_X) + kept_from(s0, y as int) + empty_cells(count * BOARD_X));
                }
            }
        }
        proof {
            assert(self@ =~= after_clear(s0));
        }
        count
    }

    /// The occupied cells, column by column from the left, each column
    /// bottom up.
    pub fn occupied_dots(&self) -> (r: Vec<Dot>)
        requires
            self.wf(),
        ensures
            forall|i: int| 0 <= i < r.len() ==> #[trigger] cell(self@, r[i].0 as int, r[i].1 as int),
            forall|x: i8, y: i8| #[trigger] cell(self@, x as int, y as int) ==> r@.contains(Dot(x, y)),
    {
        let mut v: Vec<Dot> = Vec::new();
        let mut x: i8 = 0;
        while x < BOARD_X
            invariant
                self.wf(),
                0 <= x <= BOARD_X,
                forall|i: int| 0 <= i < v.len() ==> #[trigger] cell(self@, v[i].0 as int, v[i].1 as int),
                forall|a: i8, b: i8| a < x && #[trigger] cell(self@, a as int, b as int) ==> v@.contains(Dot(a, b)),
            decreases BOARD_X - x,
        {
            let mut y: i8 = 0;
            while y < BOARD_Y
                invariant
                    self.wf(),
                    0 <= x < BOARD_X,
                    0 <= y <= BOARD_Y,
                    forall|i: int| 0 <= i < v.len() ==> #[trigger] cell(self@, v[i].0 as int, v[i].1 as int),
                    forall|a: i8, b: i8|
                        (a < x || (a == x && b < y)) && #[trigger] cell(self@, a as int, b as int) ==> v@.contains(Dot(a, b)),
                decreases BOARD_Y - y,
            {
                let d = Dot(x, y);
                if self.occupied_dot(&d) {
                    let ghost before = v@;
                    v.push(d);
                    proof {
                        assert forall|a: i8, b: i8|
                            (a < x || (a == x && b <= y)) && #[trigger] cell(self@, a as int, b as int) implies v@.contains(Dot(a, b)) by {
                            if a == x && b == y {
                                assert(v@[v.len() - 1] == Dot(a, b));
                            } else {
                                let i = choose|i: int| 0 <= i < before.len() && before[i] == Dot(a, b);
                                assert(v@[i] == Dot(a, b));
                            }
                        }
                    }
                }
                y = y + 1;
            }
            x = x + 1;
        }
        v
    }

    /// Whether a cell is occupied; a cell off the board never is.
    pub fn occupied_dot(&self, dot: &Dot) -> (r: bool)
        requires
            self.wf(),
        ensures
            r == cell(self@, dot.0 as int, dot.1 as int),
    {
        self.occupied_xy(dot.0 as i16, dot.1 as i16)
    }
}

} // verus!
