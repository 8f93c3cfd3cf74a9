//! The one place the library meets the random number generator.

use vstd::prelude::*;

use crate::grid::{in_grid, Point, SCREEN_HEIGHT, SCREEN_WIDTH};

verus! {

/// Relies on rand::random_range: a sample from the thread-local generator,
/// uniform over `0..bound`. The range must be non-empty, else the call
/// panics.
#[verifier::external_body]
fn random_below(bound: i32) -> (r: i32)
    requires
        1 <= bound,
    ensures
        0 <= r < bound,
{
    rand::random_range(0..bound)
}

/// A uniformly random point of the playing field.
pub(crate) fn random_point() -> (p: Point)
    ensures
        in_grid(p),
{
    Point { x: random_below(SCREEN_WIDTH), y: random_below(SCREEN_HEIGHT) }
}

} // verus!
