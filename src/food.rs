use vstd::prelude::*;
use crate::geometry::GridCoord;

verus! {

/// The cells whose every axis lies in `0..bound`.
pub open spec fn in_bounds(c: GridCoord, bound: i32) -> bool {
    &&& 0 <= c.x < bound
    &&& 0 <= c.y < bound
    &&& 0 <= c.z < bound
}

/// Relies on rand's `Rng::random_range` over `rand::rng()`, the thread-local
/// generator: it returns a value of the half-open range `0..bound`, and
/// panics when the range is empty, which `requires` rules out.
#[verifier::external_body]
fn random_below(bound: i32) -> (r: i32)
    requires
        bound > 0,
    ensures
        0 <= r < bound,
{
    rand::Rng::random_range(&mut rand::rng(), 0..bound)
}

/// A cell for the food, each axis drawn on its own from `0..bound`. It may
/// lie on the snake: nothing here keeps the two apart.
pub fn random_food(bound: i32) -> (r: GridCoord)
    requires
        bound > 0,
    ensures
        in_bounds(r, bound),
{
    let x = random_below(bound);
    let y = random_below(bound);
    let z = random_below(bound);
    GridCoord { x, y, z }
}

} // verus!
