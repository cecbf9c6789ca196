//! Arena housekeeping: anything that strays past the arena edge by more
//! than the margin is removed.

use vstd::prelude::*;
use crate::geom::Vec2i;

verus! {

/// How far past the arena edge an entity may stray before removal.
pub const OUT_OF_BOUNDS_MARGIN: i64 = 32000;

/// Whether a position lies outside the arena expanded by the removal
/// margin.
pub open spec fn spec_out_of_bounds(p: Vec2i) -> bool {
    ||| p.x < -672000
    ||| p.x > 672000
    ||| p.y < -512000
    ||| p.y > 512000
}

/// True when an entity at `p` has left the arena (with its margin) and
/// should be removed.
pub fn out_of_bounds(p: Vec2i) -> (r: bool)
    ensures
        r == spec_out_of_bounds(p),
{
    p.x < -672000 || p.x > 672000 || p.y < -512000 || p.y > 512000
}

} // verus!
