//! Angles measured in thousandths of a degree, with normalization into one
//! full turn and clamping of an angle into a circular sector. Weapons orbit
//! the player inside a sector; the aim direction is clamped into it.

use vstd::prelude::*;
use vstd::arithmetic::div_mod::{
    lemma_mod_add_multiples_vanish, lemma_mod_bound, lemma_mod_sub_multiples_vanish,
};

verus! {

/// One full turn, in thousandths of a degree.
pub const FULL_TURN: i64 = 360000;

/// An angle reduced into `[0, FULL_TURN)`. Spec `%` is Euclidean, so this is
/// well defined for negative angles too.
pub open spec fn spec_norm(a: int) -> int {
    a % (FULL_TURN as int)
}

/// Membership of a normalized angle in the circular sector from `mn` to `mx`
/// (all three in `[0, FULL_TURN)`). When `mx < mn` the sector wraps through
/// zero.
pub open spec fn in_sector(a: int, mn: int, mx: int) -> bool {
    if mn <= mx {
        mn <= a <= mx
    } else {
        a >= mn || a <= mx
    }
}

/// The clamped aim angle: `angle` if it already lies in the sector from `min`
/// to `max`, otherwise whichever boundary is nearer along the circle, with
/// distances measured as the wraparound-aware differences below.
pub open spec fn spec_clamp_angle(angle: int, min: int, max: int) -> int {
    let a = spec_norm(angle);
    let mn = spec_norm(min);
    let mx = spec_norm(max);
    if mx < mn {
        if a >= mn || a <= mx {
            a
        } else {
            let dist_min = if mn - a <= a + FULL_TURN - mn {
                mn - a
            } else {
                a + FULL_TURN - mn
            };
            let dist_max = a - mx;
            if dist_min < dist_max {
                mn
            } else {
                mx
            }
        }
    } else {
        if a < mn {
            mn
        } else if a > mx {
            mx
        } else {
            a
        }
    }
}

/// Reduces an angle into `[0, FULL_TURN)`.
pub fn normalize_angle(angle: i64) -> (r: i64)
    ensures
        r == spec_norm(angle as int),
        0 <= r < FULL_TURN,
{
    proof {
        lemma_mod_bound(angle as int, FULL_TURN as int);
    }
    let mut r: i64 = angle;
    while r < 0
        invariant
            r as int % (FULL_TURN as int) == spec_norm(angle as int),
        decreases (if r < 0 { -(r as int) } else { 0int }),
    {
        proof {
            lemma_mod_add_multiples_vanish(r as int, FULL_TURN as int);
        }
        r = r + FULL_TURN;
    }
    while r >= FULL_TURN
        invariant
            r as int % (FULL_TURN as int) == spec_norm(angle as int),
            r >= 0,
        decreases r,
    {
        proof {
            lemma_mod_sub_multiples_vanish(r as int, FULL_TURN as int);
        }
        r = r - FULL_TURN;
    }
    proof {
        lemma_mod_bound(r as int, FULL_TURN as int);
        assert(r as int % (FULL_TURN as int) == r as int) by {
            assert(0 <= r < FULL_TURN);
        }
    }
    r
}

/// Clamps an angle to the nearest point within a circular sector. All three
/// arguments are normalized first; the sector runs from `min` to `max`
/// counterclockwise and may wrap through zero.
pub fn clamp_angle_to_range(angle: i64, min: i64, max: i64) -> (r: i64)
    ensures
        r == spec_clamp_angle(angle as int, min as int, max as int),
        0 <= r < FULL_TURN,
        in_sector(r as int, spec_norm(min as int), spec_norm(max as int)),
        in_sector(spec_norm(angle as int), spec_norm(min as int), spec_norm(max as int))
            ==> r == spec_norm(angle as int),
{
    let a = normalize_angle(angle);
    let mn = normalize_angle(min);
    let mx = normalize_angle(max);

    if mx < mn {
        // The sector wraps through zero.
        if a >= mn || a <= mx {
            a
        } else {
            // Pick the nearer boundary.
            let dist_min = if mn - a <= a + FULL_TURN - mn {
                mn - a
            } else {
                a + FULL_TURN - mn
            };
            let dist_max = a - mx;
            if dist_min < dist_max {
                mn
            } else {
                mx
            }
        }
    } else {
        if a < mn {
            mn
        } else if a > mx {
            mx
        } else {
            a
        }
    }
}

} // verus!
