//! Enemy spawn placement. A new enemy is announced somewhere in the arena
//! (shrunk by an edge margin), but never inside the safe square around the
//! player. The band around that square is split into four side regions and
//! one of them is drawn with probability proportional to its area; the spawn
//! point is then drawn uniformly inside the chosen region.

use vstd::prelude::*;
use crate::geom::{rect_wf, spec_area, spec_intersect, Recti, Vec2i};
use crate::rng::{
    lemma_sum_ge_elem, lemma_sum_push, random_range_i64, sum_of, weighted_index_sample,
};
use crate::spec_game_area;

verus! {

/// Closest a spawn may be announced to the player, per axis.
pub const MIN_SPAWN_DISTANCE: i64 = 192000;

/// Margin kept clear along the arena edge.
pub const EDGE_MARGIN: i64 = 32000;

/// The arena shrunk by the edge margin: where spawns may land.
pub open spec fn spec_spawning_rect() -> Recti {
    Recti {
        min: Vec2i { x: -608000i64, y: -448000i64 },
        max: Vec2i { x: 608000i64, y: 448000i64 },
    }
}

/// The square around the player where spawns are forbidden.
pub open spec fn spec_safe_rect(p: Vec2i) -> Recti {
    Recti {
        min: Vec2i {
            x: (p.x - MIN_SPAWN_DISTANCE) as i64,
            y: (p.y - MIN_SPAWN_DISTANCE) as i64,
        },
        max: Vec2i {
            x: (p.x + MIN_SPAWN_DISTANCE) as i64,
            y: (p.y + MIN_SPAWN_DISTANCE) as i64,
        },
    }
}

/// Where `generate_spawn_position` may place a spawn: inside the shrunk
/// arena (half-open at the top edges), but not inside the overlap of the
/// arena with the player's safe square.
pub open spec fn valid_spawn_pos(player_pos: Vec2i, r: Vec2i) -> bool {
    let sp = spec_spawning_rect();
    let inter = spec_intersect(sp, spec_safe_rect(player_pos));
    &&& sp.min.x <= r.x < sp.max.x
    &&& sp.min.y <= r.y < sp.max.y
    &&& !(inter.min.x <= r.x < inter.max.x && inter.min.y <= r.y < inter.max.y)
}

fn spawning_rect() -> (r: Recti)
    ensures
        r == spec_spawning_rect(),
        rect_wf(r),
{
    Recti {
        min: Vec2i { x: -608000, y: -448000 },
        max: Vec2i { x: 608000, y: 448000 },
    }
}

/// Positive sides give a positive area.
proof fn lemma_area_pos(r: Recti)
    by (nonlinear_arith)
    requires
        r.max.x - r.min.x > 0,
        r.max.y - r.min.y > 0,
    ensures
        spec_area(r) > 0,
{
}

/// A positive area forces both sides positive.
proof fn lemma_area_sides(r: Recti)
    by (nonlinear_arith)
    requires
        rect_wf(r),
        spec_area(r) > 0,
    ensures
        r.max.x - r.min.x > 0,
        r.max.y - r.min.y > 0,
{
}

/// Picks a spawn point for a new enemy: inside the margin-shrunk arena and
/// outside the safe square around the player. The four regions beside the
/// safe square are weighted by area, so larger regions are drawn more often.
pub fn generate_spawn_position(player_pos: Vec2i) -> (r: Vec2i)
    requires
        crate::geom::rect_contains(spec_game_area(), player_pos),
    ensures
        valid_spawn_pos(player_pos, r),
{
    let spawning = spawning_rect();
    let safe = Recti::from_corners(
        Vec2i { x: player_pos.x - MIN_SPAWN_DISTANCE, y: player_pos.y - MIN_SPAWN_DISTANCE },
        Vec2i { x: player_pos.x + MIN_SPAWN_DISTANCE, y: player_pos.y + MIN_SPAWN_DISTANCE },
    );
    proof {
        assert(safe == spec_safe_rect(player_pos));
    }
    let inter = spawning.intersect(&safe);

    // The four side regions around the forbidden overlap.
    let mut regions: Vec<Recti> = Vec::new();
    regions.push(Recti::from_corners(
        spawning.min,
        Vec2i { x: inter.min.x, y: spawning.max.y },
    ));
    regions.push(Recti::from_corners(
        Vec2i { x: inter.max.x, y: spawning.min.y },
        spawning.max,
    ));
    regions.push(Recti::from_corners(
        Vec2i { x: inter.min.x, y: inter.max.y },
        Vec2i { x: inter.max.x, y: spawning.max.y },
    ));
    regions.push(Recti::from_corners(
        spawning.min,
        Vec2i { x: inter.max.x, y: inter.min.y },
    ));

    let mut weights: Vec<u64> = Vec::new();
    let mut k: usize = 0;
    while k < regions.len()
        invariant
            weights@.len() == k,
            k <= regions@.len(),
            forall|j: int| 0 <= j < regions@.len() ==> rect_wf(#[trigger] regions@[j]),
            forall|j: int| 0 <= j < k ==> weights@[j] == spec_area(#[trigger] regions@[j]),
            sum_of(weights@) <= k * 4000000000000000000,
        decreases regions@.len() - k,
    {
        let a: i64 = regions[k].area();
        proof {
            lemma_sum_push(weights@, a as u64);
        }
        weights.push(a as u64);
        k += 1;
    }

    proof {
        // At least one of the side regions has positive area: the safe
        // square is narrower than the arena, so the left and right regions
        // cannot both be empty.
        if spec_area(regions@[0]) <= 0 && spec_area(regions@[1]) <= 0 {
            assert(regions@[0].max.x - regions@[0].min.x == 0
                || regions@[0].max.y - regions@[0].min.y == 0) by {
                lemma_area_pos_contra(regions@[0]);
            }
            assert(regions@[1].max.x - regions@[1].min.x == 0
                || regions@[1].max.y - regions@[1].min.y == 0) by {
                lemma_area_pos_contra(regions@[1]);
            }
            assert(false);
        }
        if spec_area(regions@[0]) > 0 {
            lemma_sum_ge_elem(weights@, 0);
        } else {
            lemma_sum_ge_elem(weights@, 1);
        }
    }

    let idx: usize = match weighted_index_sample(&weights) {
        Some(i) => i,
        None => {
            proof {
                assert(false);
            }
            0
        },
    };
    let region = regions[idx];
    proof {
        lemma_area_sides(region);
    }
    let x = random_range_i64(region.min.x, region.max.x);
    let y = random_range_i64(region.min.y, region.max.y);
    Vec2i { x, y }
}

/// Contrapositive of `lemma_area_pos` for well-formed rectangles.
proof fn lemma_area_pos_contra(r: Recti)
    requires
        rect_wf(r),
        spec_area(r) <= 0,
    ensures
        r.max.x - r.min.x == 0 || r.max.y - r.min.y == 0,
{
    if r.max.x - r.min.x > 0 && r.max.y - r.min.y > 0 {
        lemma_area_pos(r);
    }
}

} // verus!
