use crate::consts::BRICKS_TYPES;
use vstd::prelude::*;

verus! {

/// A cell coordinate: `x` grows to the right, `y` grows upwards.
#[derive(Copy, Clone, Default, Debug, PartialEq, Eq, Structural)]
pub struct Dot(pub i8, pub i8);

/// Whether `v` is representable as an `i8`.
pub open spec fn fits_i8(v: int) -> bool {
    i8::MIN <= v <= i8::MAX
}

impl Dot {
    /// This offset moved to an origin.
    pub fn with_original_dot(&self, pos: &Dot) -> (r: Self)
        requires
            fits_i8(self.0 + pos.0),
            fits_i8(self.1 + pos.1),
        ensures
            r.0 == self.0 + pos.0,
            r.1 == self.1 + pos.1,
    {
        Dot(self.0 + pos.0, self.1 + pos.1)
    }

    pub fn move_left(&mut self)
        requires
            old(self).0 > i8::MIN,
        ensures
            final(self).0 == old(self).0 - 1,
            final(self).1 == old(self).1,
    {
        self.0 = self.0 - 1;
    }

    pub fn move_right(&mut self)
        requires
            old(self).0 < i8::MAX,
        ensures
            final(self).0 == old(self).0 + 1,
            final(self).1 == old(self).1,
    {
        self.0 = self.0 + 1;
    }

    pub fn move_down(&mut self)
        requires
            old(self).1 > i8::MIN,
        ensures
            final(self).0 == old(self).0,
            final(self).1 == old(self).1 - 1,
    {
        self.1 = self.1 - 1;
    }

    pub fn left(&self) -> (r: Self)
        requires
            self.0 > i8::MIN,
        ensures
            r.0 == self.0 - 1,
            r.1 == self.1,
    {
        Dot(self.0 - 1, self.1)
    }

    pub fn right(&self) -> (r: Self)
        requires
            self.0 < i8::MAX,
        ensures
            r.0 == self.0 + 1,
            r.1 == self.1,
    {
        Dot(self.0 + 1, self.1)
    }

    pub fn down(&self) -> (r: Self)
        requires
            self.1 > i8::MIN,
        ensures
            r.0 == self.0,
            r.1 == self.1 - 1,
    {
        Dot(self.0, self.1 - 1)
    }
}

/// The four cells of one rotation state of one piece type, as offsets from
/// the piece's origin.
#[derive(Copy, Clone, Debug)]
pub struct BrickView {
    pub dots: [Dot; 4],
}

/// Number of rotation states of piece type `ty`.
pub open spec fn rotations(ty: usize) -> nat {
    match ty {
        0 => 2,
        1 => 1,
        2 => 4,
        3 => 2,
        4 => 2,
        _ => 4,
    }
}

/// The shape of piece type `ty` in rotation state `rot`: the catalog.
pub open spec fn catalog(ty: usize, rot: usize) -> BrickView {
    match (ty, rot) {
        (0, 0) => BrickView { dots: [Dot(-1i8, 0i8), Dot(0i8, 0i8), Dot(1i8, 0i8), Dot(2i8, 0i8)] },
        (0, 1) => BrickView { dots: [Dot(0i8, -1i8), Dot(0i8, 0i8), Dot(0i8, 1i8), Dot(0i8, 2i8)] },
        (1, 0) => BrickView { dots: [Dot(0i8, 0i8), Dot(1i8, 0i8), Dot(0i8, 1i8), Dot(1i8, 1i8)] },
        (2, 0) => BrickView { dots: [Dot(-1i8, 0i8), Dot(0i8, 0i8), Dot(1i8, 0i8), Dot(0i8, 1i8)] },
        (2, 1) => BrickView { dots: [Dot(0i8, -1i8), Dot(0i8, 0i8), Dot(0i8, 1i8), Dot(1i8, 0i8)] },
        (2, 2) => BrickView { dots: [Dot(-1i8, 0i8), Dot(0i8, 0i8), Dot(1i8, 0i8), Dot(0i8, -1i8)] },
        (2, 3) => BrickView { dots: [Dot(0i8, -1i8), Dot(0i8, 0i8), Dot(0i8, 1i8), Dot(-1i8, 0i8)] },
        (3, 0) => BrickView { dots: [Dot(-1i8, 0i8), Dot(0i8, 0i8), Dot(0i8, 1i8), Dot(1i8, 1i8)] },
        (3, 1) => BrickView { dots: [Dot(0i8, 1i8), Dot(0i8, 0i8), Dot(1i8, 0i8), Dot(1i8, -1i8)] },
        (4, 0) => BrickView { dots: [Dot(-1i8, 1i8), Dot(0i8, 1i8), Dot(0i8, 0i8), Dot(1i8, 0i8)] },
        (4, 1) => BrickView { dots: [Dot(1i8, 1i8), Dot(1i8, 0i8), Dot(0i8, 0i8), Dot(0i8, -1i8)] },
        (5, 0) => BrickView { dots: [Dot(-1i8, 1i8), Dot(-1i8, 0i8), Dot(0i8, 0i8), Dot(1i8, 0i8)] },
        (5, 1) => BrickView { dots: [Dot(1i8, 1i8), Dot(0i8, 1i8), Dot(0i8, 0i8), Dot(0i8, -1i8)] },
        (5, 2) => BrickView { dots: [Dot(-1i8, 0i8), Dot(0i8, 0i8), Dot(1i8, 0i8), Dot(1i8, -1i8)] },
        (5, 3) => BrickView { dots: [Dot(0i8, 1i8), Dot(0i8, 0i8), Dot(0i8, -1i8), Dot(-1i8, -1i8)] },
        (6, 0) => BrickView { dots: [Dot(-1i8, 0i8), Dot(0i8, 0i8), Dot(1i8, 0i8), Dot(1i8, 1i8)] },
        (6, 1) => BrickView { dots: [Dot(0i8, 1i8), Dot(0i8, 0i8), Dot(0i8, -1i8), Dot(1i8, -1i8)] },
        (6, 2) => BrickView { dots: [Dot(-1i8, -1i8), Dot(-1i8, 0i8), Dot(0i8, 0i8), Dot(1i8, 0i8)] },
        _ => BrickView { dots: [Dot(-1i8, 1i8), Dot(0i8, 1i8), Dot(0i8, 0i8), Dot(0i8, -1i8)] },
    }
}

/// Every offset of the catalog lies in `[-1, 2]` on both axes.
pub proof fn lemma_catalog_offsets(ty: usize, rot: usize, i: int)
    requires
        0 <= i < 4,
    ensures
        -1 <= catalog(ty, rot).dots[i].0 <= 2,
        -1 <= catalog(ty, rot).dots[i].1 <= 2,
{
}

/// A piece: its type and its rotation state.
#[derive(Copy, Clone, Debug, PartialEq, Eq, Structural)]
pub struct Brick {
    pub ty: usize,
    pub rotation: usize,
}

/// Relies on rand's `thread_rng` and `Rng::gen_range`: a number drawn from
/// `0..n`; `gen_range` panics on an empty range.
#[verifier::external_body]
fn random_below(n: usize) -> (r: usize)
    requires
        n > 0,
    ensures
        r < n,
{
    rand::Rng::gen_range(&mut rand::thread_rng(), 0..n)
}

/// Number of rotation states of piece type `ty`.
pub fn rotation_count(ty: usize) -> (r: usize)
    requires
        ty < BRICKS_TYPES,
    ensures
        r == rotations(ty),
{
    match ty {
        0 => 2,
        1 => 1,
        2 => 4,
        3 => 2,
        4 => 2,
        _ => 4,
    }
}

impl Brick {
    /// A piece of the catalog.
    pub open spec fn wf(&self) -> bool {
        self.ty < BRICKS_TYPES && self.rotation < rotations(self.ty)
    }

    /// The shape of this piece.
    pub open spec fn shape(&self) -> BrickView {
        catalog(self.ty, self.rotation)
    }

    /// The same piece in its next rotation state, wrapping around.
    pub open spec fn rotated(&self) -> Brick {
        Brick { ty: self.ty, rotation: ((self.rotation + 1) % (rotations(self.ty) as int)) as usize }
    }

    /// A piece of a random type, in its first rotation state.
    pub fn rand() -> (r: Self)
        ensures
            r.wf(),
            r.rotation == 0,
    {
        let ty = random_below(BRICKS_TYPES);
        Brick { ty, rotation: 0 }
    }

    /// The same piece turned to its next rotation state, wrapping around.
    pub fn rotate(&self) -> (r: Self)
        requires
            self.wf(),
        ensures
            r.wf(),
            r == self.rotated(),
    {
        Brick { ty: self.ty, rotation: (self.rotation + 1) % rotation_count(self.ty) }
    }
}

/// Turning a piece with four rotation states four times brings it back to
/// where it started.
pub proof fn lemma_rotate_four_times(b: Brick)
    requires
        b.wf(),
        rotations(b.ty) == 4,
    ensures
        b.rotated().rotated().rotated().rotated() == b,
{
    let r1 = b.rotated();
    let r2 = r1.rotated();
    let r3 = r2.rotated();
    assert(r1.ty == b.ty && r2.ty == b.ty && r3.ty == b.ty);
    assert(1int % 4 == 1 && 2int % 4 == 2 && 3int % 4 == 3 && 4int % 4 == 0);
    if b.rotation == 0 {
        assert(r1.rotation == 1);
        assert(r2.rotation == 2);
        assert(r3.rotation == 3);
    } else if b.rotation == 1 {
        assert(r1.rotation == 2);
        assert(r2.rotation == 3);
        assert(r3.rotation == 0);
    } else if b.rotation == 2 {
        assert(r1.rotation == 3);
        assert(r2.rotation == 0);
        assert(r3.rotation == 1);
    } else {
        assert(r1.rotation == 0);
        assert(r2.rotation == 1);
        assert(r3.rotation == 2);
    }
}

/// Turning a piece with a single rotation state leaves it unchanged.
pub proof fn lemma_rotate_single_state(b: Brick)
    requires
        b.wf(),
        rotations(b.ty) == 1,
    ensures
        b.rotated() == b,
{
}

impl BrickView {
    /// The shape of a piece, looked up in the catalog.
    pub fn from(bs: Brick) -> (r: BrickView)
        requires
            bs.wf(),
        ensures
            r == bs.shape(),
    {
        match (bs.ty, bs.rotation) {
            (0, 0) => BrickView { dots: [Dot(-1, 0), Dot(0, 0), Dot(1, 0), Dot(2, 0)] },
            (0, 1) => BrickView { dots: [Dot(0, -1), Dot(0, 0), Dot(0, 1), Dot(0, 2)] },
            (1, 0) => BrickView { dots: [Dot(0, 0), Dot(1, 0), Dot(0, 1), Dot(1, 1)] },
            (2, 0) => BrickView { dots: [Dot(-1, 0), Dot(0, 0), Dot(1, 0), Dot(0, 1)] },
            (2, 1) => BrickView { dots: [Dot(0, -1), Dot(0, 0), Dot(0, 1), Dot(1, 0)] },
            (2, 2) => BrickView { dots: [Dot(-1, 0), Dot(0, 0), Dot(1, 0), Dot(0, -1)] },
            (2, 3) => BrickView { dots: [Dot(0, -1), Dot(0, 0), Dot(0, 1), Dot(-1, 0)] },
            (3, 0) => BrickView { dots: [Dot(-1, 0), Dot(0, 0), Dot(0, 1), Dot(1, 1)] },
            (3, 1) => BrickView { dots: [Dot(0, 1), Dot(0, 0), Dot(1, 0), Dot(1, -1)] },
            (4, 0) => BrickView { dots: [Dot(-1, 1), Dot(0, 1), Dot(0, 0), Dot(1, 0)] },
            (4, 1) => BrickView { dots: [Dot(1, 1), Dot(1, 0), Dot(0, 0), Dot(0, -1)] },
            (5, 0) => BrickView { dots: [Dot(-1, 1), Dot(-1, 0), Dot(0, 0), Dot(1, 0)] },
            (5, 1) => BrickView { dots: [Dot(1, 1), Dot(0, 1), Dot(0, 0), Dot(0, -1)] },
            (5, 2) => BrickView { dots: [Dot(-1, 0), Dot(0, 0), Dot(1, 0), Dot(1, -1)] },
            (5, 3) => BrickView { dots: [Dot(0, 1), Dot(0, 0), Dot(0, -1), Dot(-1, -1)] },
            (6, 0) => BrickView { dots: [Dot(-1, 0), Dot(0, 0), Dot(1, 0), Dot(1, 1)] },
            (6, 1) => BrickView { dots: [Dot(0, 1), Dot(0, 0), Dot(0, -1), Dot(1, -1)] },
            (6, 2) => BrickView { dots: [Dot(-1, -1), Dot(-1, 0), Dot(0, 0), Dot(1, 0)] },
            _ => BrickView { dots: [Dot(-1, 1), Dot(0, 1), Dot(0, 0), Dot(0, -1)] },
        }
    }
}

} // verus!
