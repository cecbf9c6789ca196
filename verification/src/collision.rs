//! Collision resolution. Each bullet strikes the first enemy (in listing
//! order) standing within the collision radius and is consumed by the hit;
//! an enemy's health saturates at zero. Enemies in contact range of the
//! player grind its health down in proportion to the frame time.

use vstd::prelude::*;
use crate::components::{Enemy, Health};
use crate::geom::{in_coord_range, max_spec, spec_dist_sq, Vec2i};

verus! {

/// Bullets strike enemies closer than this, in coordinate units.
pub const COLLISION_RADIUS: i64 = 20000;

/// Enemies hurt the player when closer than this, in coordinate units.
pub const PLAYER_COLLISION_RADIUS: i64 = 35000;

/// Health values and single damages handled here stay within this bound,
/// so that sums over a bounded list fit an `i64`.
pub const DAMAGE_LIMIT: i64 = 1000000000;

/// Whether a bullet at `b` strikes an enemy at `e`.
pub open spec fn bullet_hits(b: Vec2i, e: Vec2i) -> bool {
    spec_dist_sq(b, e) < COLLISION_RADIUS * COLLISION_RADIUS
}

/// Index of the first enemy at or past `j` struck by a bullet at `b`, or -1.
pub open spec fn first_hit_from(b: Vec2i, enemies: Seq<Vec2i>, j: int) -> int
    decreases enemies.len() - j,
{
    if j < 0 || j >= enemies.len() {
        -1
    } else if bullet_hits(b, enemies[j]) {
        j
    } else {
        first_hit_from(b, enemies, j + 1)
    }
}

/// Index of the first enemy struck by a bullet at `b`, or -1 when it
/// strikes none.
pub open spec fn first_hit(b: Vec2i, enemies: Seq<Vec2i>) -> int {
    first_hit_from(b, enemies, 0)
}

/// Total damage enemy `i` takes from the bullets: each bullet deals its
/// damage to the first enemy it strikes.
pub open spec fn spec_damage_to(
    i: int,
    enemy_pos: Seq<Vec2i>,
    bullet_pos: Seq<Vec2i>,
    bullet_damage: Seq<u64>,
) -> int
    decreases bullet_pos.len(),
{
    if bullet_pos.len() == 0 || bullet_pos.len() != bullet_damage.len() {
        0
    } else {
        spec_damage_to(i, enemy_pos, bullet_pos.drop_last(), bullet_damage.drop_last()) + (
        if first_hit(bullet_pos.last(), enemy_pos) == i {
            bullet_damage.last() as int
        } else {
            0
        })
    }
}

/// Finds the first enemy a bullet strikes, scanning in listing order.
fn find_first_hit(b: Vec2i, enemy_pos: &Vec<Vec2i>) -> (r: Option<usize>)
    requires
        in_coord_range(b),
        forall|i: int| 0 <= i < enemy_pos@.len() ==> in_coord_range(#[trigger] enemy_pos@[i]),
    ensures
        r matches Some(i) ==> first_hit(b, enemy_pos@) == i && i < enemy_pos@.len(),
        r is None ==> first_hit(b, enemy_pos@) == -1,
{
    let mut j: usize = 0;
    while j < enemy_pos.len()
        invariant
            0 <= j <= enemy_pos@.len(),
            in_coord_range(b),
            forall|i: int| 0 <= i < enemy_pos@.len() ==> in_coord_range(#[trigger] enemy_pos@[i]),
            first_hit(b, enemy_pos@) == first_hit_from(b, enemy_pos@, j as int),
        decreases enemy_pos@.len() - j,
    {
        let d = b.dist_sq(&enemy_pos[j]);
        if d < COLLISION_RADIUS * COLLISION_RADIUS {
            return Some(j);
        }
        j += 1;
    }
    None
}

/// Resolves every bullet against the enemies. A bullet is consumed by the
/// first enemy (in listing order) within the collision radius; that enemy
/// loses the bullet's damage, never dropping below zero health. The flags
/// say which bullets were consumed; maxima and enemy order are untouched.
pub fn check_bullet_enemy_collision(
    bullet_pos: &Vec<Vec2i>,
    bullet_damage: &Vec<u64>,
    enemy_pos: &Vec<Vec2i>,
    healths: &mut Vec<Health>,
) -> (consumed: Vec<bool>)
    requires
        bullet_pos@.len() == bullet_damage@.len(),
        enemy_pos@.len() == old(healths)@.len(),
        forall|i: int| 0 <= i < bullet_pos@.len() ==> in_coord_range(#[trigger] bullet_pos@[i]),
        forall|i: int| 0 <= i < enemy_pos@.len() ==> in_coord_range(#[trigger] enemy_pos@[i]),
        forall|i: int|
            0 <= i < bullet_damage@.len() ==> #[trigger] bullet_damage@[i] <= DAMAGE_LIMIT,
        forall|i: int|
            0 <= i < old(healths)@.len() ==> 0 <= (#[trigger] old(healths)@[i].value)
                <= DAMAGE_LIMIT,
        bullet_pos@.len() <= 1000000,
    ensures
        consumed@.len() == bullet_pos@.len(),
        final(healths)@.len() == old(healths)@.len(),
        forall|k: int|
            0 <= k < bullet_pos@.len() ==> consumed@[k] == (first_hit(
                #[trigger] bullet_pos@[k],
                enemy_pos@,
            ) >= 0),
        forall|i: int|
            0 <= i < old(healths)@.len() ==> (#[trigger] final(healths)@[i]).max
                == old(healths)@[i].max,
        forall|i: int|
            0 <= i < old(healths)@.len() ==> (#[trigger] final(healths)@[i]).value == max_spec(
                old(healths)@[i].value - spec_damage_to(i, enemy_pos@, bullet_pos@, bullet_damage@),
                0,
            ),
{
    let ghost old_healths = healths@;
    let mut consumed: Vec<bool> = Vec::new();
    let mut k: usize = 0;
    while k < bullet_pos.len()
        invariant
            0 <= k <= bullet_pos@.len(),
            bullet_pos@.len() == bullet_damage@.len(),
            bullet_pos@.len() <= 1000000,
            enemy_pos@.len() == healths@.len() == old_healths.len(),
            consumed@.len() == k,
            forall|i: int|
                0 <= i < bullet_pos@.len() ==> in_coord_range(#[trigger] bullet_pos@[i]),
            forall|i: int| 0 <= i < enemy_pos@.len() ==> in_coord_range(#[trigger] enemy_pos@[i]),
            forall|i: int|
                0 <= i < bullet_damage@.len() ==> #[trigger] bullet_damage@[i] <= DAMAGE_LIMIT,
            forall|i: int| 0 <= i < old_healths.len() ==> 0 <= (#[trigger] old_healths[i].value) <= DAMAGE_LIMIT,
            forall|j: int|
                0 <= j < k ==> consumed@[j] == (first_hit(#[trigger] bullet_pos@[j], enemy_pos@)
                    >= 0),
            forall|i: int|
                0 <= i < old_healths.len() ==> (#[trigger] healths@[i]).max == old_healths[i].max,
            forall|i: int|
                0 <= i < old_healths.len() ==> (#[trigger] healths@[i]).value == max_spec(
                    old_healths[i].value - spec_damage_to(
                        i,
                        enemy_pos@,
                        bullet_pos@.take(k as int),
                        bullet_damage@.take(k as int),
                    ),
                    0,
                ),
        decreases bullet_pos@.len() - k,
    {
        let b = bullet_pos[k];
        let hit = find_first_hit(b, enemy_pos);
        proof {
            lemma_damage_to_take_step(enemy_pos@, bullet_pos@, bullet_damage@, k as int);
            lemma_damage_bound(enemy_pos@, bullet_pos@.take(k as int), bullet_damage@.take(k as int));
        }
        match hit {
            Some(j) => {
                let dmg: u64 = bullet_damage[k];
                let hv: i64 = healths[j].value;
                let nv: i64 = if hv > dmg as i64 {
                    hv - dmg as i64
                } else {
                    0
                };
                let hm: i64 = healths[j].max;
                healths.set(j, Health { value: nv, max: hm });
                consumed.push(true);
            },
            None => {
                consumed.push(false);
            },
        }
        k += 1;
    }
    proof {
        assert(bullet_pos@.take(bullet_pos@.len() as int) =~= bullet_pos@);
        assert(bullet_damage@.take(bullet_damage@.len() as int) =~= bullet_damage@);
    }
    consumed
}

/// Damage to one enemy from one more bullet: the prefix sum grows by that
/// bullet's damage exactly when the bullet's first hit is this enemy.
proof fn lemma_damage_to_take_step(
    enemy_pos: Seq<Vec2i>,
    bullet_pos: Seq<Vec2i>,
    bullet_damage: Seq<u64>,
    k: int,
)
    requires
        bullet_pos.len() == bullet_damage.len(),
        0 <= k < bullet_pos.len(),
    ensures
        forall|i: int|
            #[trigger] spec_damage_to(
                i,
                enemy_pos,
                bullet_pos.take(k + 1),
                bullet_damage.take(k + 1),
            ) == spec_damage_to(i, enemy_pos, bullet_pos.take(k), bullet_damage.take(k)) + (
            if first_hit(bullet_pos[k], enemy_pos) == i {
                bullet_damage[k] as int
            } else {
                0
            }),
{
    assert(bullet_pos.take(k + 1).drop_last() =~= bullet_pos.take(k));
    assert(bullet_damage.take(k + 1).drop_last() =~= bullet_damage.take(k));
    assert(bullet_pos.take(k + 1).last() == bullet_pos[k]);
    assert(bullet_damage.take(k + 1).last() == bullet_damage[k]);
}

/// The damage any one enemy takes is bounded by the number of bullets times
/// the damage bound.
proof fn lemma_damage_bound(enemy_pos: Seq<Vec2i>, bullet_pos: Seq<Vec2i>, bullet_damage: Seq<u64>)
    requires
        bullet_pos.len() == bullet_damage.len(),
        forall|i: int| 0 <= i < bullet_damage.len() ==> #[trigger] bullet_damage[i] <= DAMAGE_LIMIT,
    ensures
        forall|i: int|
            0 <= #[trigger] spec_damage_to(i, enemy_pos, bullet_pos, bullet_damage)
                <= bullet_pos.len() * DAMAGE_LIMIT,
    decreases bullet_pos.len(),
{
    if bullet_pos.len() > 0 {
        lemma_damage_bound(enemy_pos, bullet_pos.drop_last(), bullet_damage.drop_last());
        assert forall|i: int|
            0 <= #[trigger] spec_damage_to(i, enemy_pos, bullet_pos, bullet_damage)
                <= bullet_pos.len() * DAMAGE_LIMIT by {
            assert(0 <= spec_damage_to(
                i,
                enemy_pos,
                bullet_pos.drop_last(),
                bullet_damage.drop_last(),
            ) <= bullet_pos.drop_last().len() * DAMAGE_LIMIT);
            assert((bullet_pos.len() - 1) * DAMAGE_LIMIT + DAMAGE_LIMIT == bullet_pos.len()
                * DAMAGE_LIMIT) by (nonlinear_arith);
        }
    }
}

/// Total contact damage the player takes in one frame: every enemy within
/// the player collision radius contributes its damage scaled by the frame
/// time.
pub open spec fn spec_contact_damage(
    player_pos: Vec2i,
    enemy_pos: Seq<Vec2i>,
    enemies: Seq<Enemy>,
    delta: int,
) -> int
    decreases enemy_pos.len(),
{
    if enemy_pos.len() == 0 || enemy_pos.len() != enemies.len() {
        0
    } else {
        spec_contact_damage(player_pos, enemy_pos.drop_last(), enemies.drop_last(), delta) + (
        if spec_dist_sq(player_pos, enemy_pos.last()) < PLAYER_COLLISION_RADIUS
            * PLAYER_COLLISION_RADIUS {
            enemies.last().damage * delta / 1000
        } else {
            0
        })
    }
}

/// Applies one frame of contact damage to the player: each enemy within
/// the contact radius takes off its per-second damage scaled by the frame
/// time. The player's health may fall below zero; its maximum stands.
pub fn check_player_enemy_collision(
    player_pos: Vec2i,
    enemy_pos: &Vec<Vec2i>,
    enemies: &Vec<Enemy>,
    health: &mut Health,
    delta_ms: u64,
) -> (damage: i64)
    requires
        in_coord_range(player_pos),
        enemy_pos@.len() == enemies@.len(),
        enemy_pos@.len() <= 1000000,
        forall|i: int| 0 <= i < enemy_pos@.len() ==> in_coord_range(#[trigger] enemy_pos@[i]),
        forall|i: int|
            0 <= i < enemies@.len() ==> 0 <= (#[trigger] enemies@[i]).damage <= DAMAGE_LIMIT,
        delta_ms <= 1000,
        -1000000000000000 <= old(health).value <= 1000000000000000,
    ensures
        damage == spec_contact_damage(player_pos, enemy_pos@, enemies@, delta_ms as int),
        final(health).value == old(health).value - damage,
        final(health).max == old(health).max,
{
    let mut total: i64 = 0;
    let mut i: usize = 0;
    while i < enemy_pos.len()
        invariant
            0 <= i <= enemy_pos@.len(),
            enemy_pos@.len() == enemies@.len(),
            enemy_pos@.len() <= 1000000,
            in_coord_range(player_pos),
            forall|j: int| 0 <= j < enemy_pos@.len() ==> in_coord_range(#[trigger] enemy_pos@[j]),
            forall|j: int|
                0 <= j < enemies@.len() ==> 0 <= (#[trigger] enemies@[j]).damage <= DAMAGE_LIMIT,
            delta_ms <= 1000,
            total == spec_contact_damage(
                player_pos,
                enemy_pos@.take(i as int),
                enemies@.take(i as int),
                delta_ms as int,
            ),
            0 <= total <= i * DAMAGE_LIMIT,
        decreases enemy_pos@.len() - i,
    {
        proof {
            assert(enemy_pos@.take(i + 1).drop_last() =~= enemy_pos@.take(i as int));
            assert(enemies@.take(i + 1).drop_last() =~= enemies@.take(i as int));
            assert((i + 1) * DAMAGE_LIMIT == i * DAMAGE_LIMIT + DAMAGE_LIMIT)
                by (nonlinear_arith);
        }
        let d = player_pos.dist_sq(&enemy_pos[i]);
        if d < PLAYER_COLLISION_RADIUS * PLAYER_COLLISION_RADIUS {
            proof {
                assert((enemies@[i as int].damage as int) * delta_ms <= 1000000000000)
                    by (nonlinear_arith)
                    requires
                        0 <= enemies@[i as int].damage <= DAMAGE_LIMIT,
                        delta_ms <= 1000,
                        DAMAGE_LIMIT == 1000000000,
                ;
            }
            let dmg_ms: u64 = (enemies[i].damage as u64) * delta_ms;
            let step: u64 = dmg_ms / 1000;
            proof {
                assert(step <= DAMAGE_LIMIT) by (nonlinear_arith)
                    requires
                        step == ((enemies@[i as int].damage as u64) * delta_ms) / 1000,
                        0 <= enemies@[i as int].damage <= DAMAGE_LIMIT,
                        delta_ms <= 1000,
                ;
            }
            total = total + step as i64;
        }
        i += 1;
    }
    proof {
        assert(enemy_pos@.take(enemy_pos@.len() as int) =~= enemy_pos@);
        assert(enemies@.take(enemies@.len() as int) =~= enemies@);
    }
    health.value = health.value - total;
    total
}

} // verus!
