use vstd::prelude::*;
use crate::geometry::{GridCoord, Perspective};

verus! {

/// The largest magnitude of an integer screen component that a cube accepts,
/// leaving room in `i64` for its width, height and perspective offset.
pub const SCREEN_LIMIT: i64 = 0x4000_0001_0000_0000;

/// An exact point of the screen:
/// (`x + dx / sqrt(len_sq)`, `y + dy / sqrt(len_sq)`).
/// Depth is projected along a unit vector whose length is irrational in
/// general, so the two parts are kept apart and only evaluated when drawn.
#[derive(Clone, Copy, Debug, PartialEq, Eq, Structural)]
pub struct ScreenPoint {
    pub x: i64,
    pub y: i64,
    pub dx: i64,
    pub dy: i64,
    pub len_sq: u64,
}

/// A whole pixel offset, such as the margin of the play area.
#[derive(Clone, Copy, Debug, PartialEq, Eq, Structural)]
pub struct ScreenOffset {
    pub x: i32,
    pub y: i32,
}

/// An axis-aligned rectangle whose top-left corner is `origin`.
#[derive(Clone, Copy, Debug, PartialEq, Eq, Structural)]
pub struct ScreenRect {
    pub origin: ScreenPoint,
    pub w: u32,
    pub h: u32,
}

impl ScreenPoint {
    /// A denominator to divide by, and integer parts with room to move.
    pub open spec fn wf(self) -> bool {
        &&& self.len_sq > 0
        &&& -SCREEN_LIMIT <= self.x <= SCREEN_LIMIT
        &&& -SCREEN_LIMIT <= self.y <= SCREEN_LIMIT
    }

    /// The same point moved by whole pixels.
    pub open spec fn shifted(self, ax: int, ay: int) -> ScreenPoint {
        ScreenPoint { x: (self.x + ax) as i64, y: (self.y + ay) as i64, ..self }
    }

    pub fn shift(self, ax: i64, ay: i64) -> (r: ScreenPoint)
        requires
            i64::MIN <= self.x + ax <= i64::MAX,
            i64::MIN <= self.y + ay <= i64::MAX,
        ensures
            r == self.shifted(ax as int, ay as int),
    {
        ScreenPoint { x: self.x + ax, y: self.y + ay, ..self }
    }
}

/// The exact screen position of a cell: `x * step + offset.x` and
/// `y * step + offset.y`, plus `z` units along the direction of `p`.
pub open spec fn project_spec(
    cell: GridCoord,
    step: i32,
    p: Perspective,
    offset: ScreenOffset,
) -> ScreenPoint {
    ScreenPoint {
        x: (cell.x * step + offset.x) as i64,
        y: (cell.y * step + offset.y) as i64,
        dx: (p.x * cell.z) as i64,
        dy: (p.y * cell.z) as i64,
        len_sq: p.len_sq() as u64,
    }
}

/// The product of two `i32` values, which `i64` always holds.
pub(crate) fn wide_mul(a: i32, b: i32) -> (r: i64)
    ensures
        r == a * b,
        -0x4000_0000_0000_0000 <= r <= 0x4000_0000_0000_0000,
{
    let a: i64 = a as i64;
    let b: i64 = b as i64;
    assert(-0x4000_0000_0000_0000 <= a * b <= 0x4000_0000_0000_0000) by (nonlinear_arith)
        requires
            i32::MIN <= a <= i32::MAX,
            i32::MIN <= b <= i32::MAX,
    ;
    a * b
}

/// Projects a cell onto the screen. A cell's column and row are spaced
/// `step` pixels apart; its depth moves it along the unit direction of the
/// perspective vector, one pixel per unit of depth.
pub fn project(cell: GridCoord, step: i32, p: Perspective, offset: ScreenOffset) -> (r: ScreenPoint)
    requires
        p.wf(),
    ensures
        r == project_spec(cell, step, p, offset),
        r.wf(),
{
    let x: i64 = wide_mul(cell.x, step) + offset.x as i64;
    let y: i64 = wide_mul(cell.y, step) + offset.y as i64;
    ScreenPoint {
        x,
        y,
        dx: wide_mul(p.x, cell.z),
        dy: wide_mul(p.y, cell.z),
        len_sq: p.length_squared(),
    }
}

/// Moving a cell in depth moves its projection along the perspective
/// direction, in proportion to the change of depth: from depth `z1` to depth
/// `z2` the integer parts stay, and the depth parts grow by
/// `(z2 - z1) * p`, over the same length.
pub proof fn lemma_projection_linear_in_depth(
    x: i32,
    y: i32,
    z1: i32,
    z2: i32,
    step: i32,
    p: Perspective,
    offset: ScreenOffset,
)
    requires
        p.wf(),
    ensures
        ({
            let a = project_spec(GridCoord { x, y, z: z1 }, step, p, offset);
            let b = project_spec(GridCoord { x, y, z: z2 }, step, p, offset);
            &&& b.x == a.x
            &&& b.y == a.y
            &&& b.len_sq == a.len_sq
            &&& b.dx - a.dx == p.x * (z2 - z1)
            &&& b.dy - a.dy == p.y * (z2 - z1)
        }),
{
    assert(-0x4000_0000_0000_0000 <= p.x * z1 <= 0x4000_0000_0000_0000
        && -0x4000_0000_0000_0000 <= p.x * z2 <= 0x4000_0000_0000_0000
        && -0x4000_0000_0000_0000 <= p.y * z1 <= 0x4000_0000_0000_0000
        && -0x4000_0000_0000_0000 <= p.y * z2 <= 0x4000_0000_0000_0000) by (nonlinear_arith)
        requires
            i32::MIN <= p.x <= i32::MAX,
            i32::MIN <= p.y <= i32::MAX,
            i32::MIN <= z1 <= i32::MAX,
            i32::MIN <= z2 <= i32::MAX,
    ;
    assert(p.x * z2 - p.x * z1 == p.x * (z2 - z1) && p.y * z2 - p.y * z1 == p.y * (z2 - z1))
        by (nonlinear_arith);
}

} // verus!
