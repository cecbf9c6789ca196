//! Firing logic: each weapon ticks its cooldown, picks the nearest enemy in
//! range when ready, and emits a bullet aimed at it; bullets then fly in a
//! straight line at a fixed speed.

use vstd::prelude::*;
use crate::geom::{in_coord_range, spec_dist_sq, spec_scaled_vec, Vec2i};
use crate::timer::{spec_tick, Timer, TIME_LIMIT_MS};
use crate::weapons::{within_range, Weapon, WeaponCooldown, WeaponKind};

verus! {

/// Bullet speed, in coordinate units per second.
pub const BULLET_SPEED: i64 = 500000;

/// Positions fed to the motion and combat steps stay within this bound, so
/// that differences of two positions are still valid coordinates.
pub const MOTION_LIMIT: i64 = 500000000;

/// Bound on one frame's delta so per-tick steps stay small.
pub const FRAME_LIMIT_MS: u64 = 1000;

/// True when both coordinates of `v` are within the motion bound.
pub open spec fn in_motion_range(v: Vec2i) -> bool {
    -MOTION_LIMIT <= v.x <= MOTION_LIMIT && -MOTION_LIMIT <= v.y <= MOTION_LIMIT
}

/// A bullet in flight: where it aims (the raw offset toward its target when
/// it was fired), what it deals, and which weapon fired it.
#[derive(Clone, Copy, Debug, PartialEq, Eq, Structural)]
pub struct Bullet {
    pub direction: Vec2i,
    pub damage: u64,
    pub kind: WeaponKind,
}

/// The target `t` is an enemy within `max_range` of `pos` and no enemy is
/// strictly nearer.
pub open spec fn is_nearest(pos: Vec2i, enemies: Seq<Vec2i>, max_range: int, t: Vec2i) -> bool {
    &&& exists|i: int| 0 <= i < enemies.len() && #[trigger] enemies[i] == t
    &&& within_range(pos, t, max_range)
    &&& forall|j: int|
        0 <= j < enemies.len() ==> spec_dist_sq(pos, #[trigger] enemies[j]) >= spec_dist_sq(
            pos,
            t,
        )
}

/// One firing step of a weapon. The cooldown advances by the frame delta;
/// when it completes and an enemy stands within range, a bullet spawns at
/// the weapon, aimed at the nearest enemy, and the cooldown restarts. When
/// no enemy is in range the completed cooldown is left as the tick put it.
pub fn auto_shoot(
    weapon: &Weapon,
    cooldown: &mut WeaponCooldown,
    weapon_pos: Vec2i,
    enemies: &Vec<Vec2i>,
    delta_ms: u64,
) -> (r: Option<(Vec2i, Bullet)>)
    requires
        weapon.wf(),
        old(cooldown).timer.wf(),
        delta_ms <= TIME_LIMIT_MS,
        in_coord_range(weapon_pos),
        forall|i: int| 0 <= i < enemies@.len() ==> in_coord_range(#[trigger] enemies@[i]),
    ensures
        final(cooldown).timer.wf(),
        ({
            let ticked = spec_tick(old(cooldown).timer, delta_ms as int);
            let range = weapon.spec_range();
            let any_in_range = exists|i: int|
                0 <= i < enemies@.len() && within_range(
                    weapon_pos,
                    #[trigger] enemies@[i],
                    range,
                );
            if ticked.finished && any_in_range {
                &&& r matches Some((p, b)) ==> {
                    &&& p == weapon_pos
                    &&& b.damage == weapon.base_damage * weapon.damage_multiplier / 1000
                    &&& b.kind == weapon.kind
                    &&& exists|t: Vec2i|
                        #[trigger] is_nearest(weapon_pos, enemies@, range, t)
                            && b.direction == (Vec2i {
                            x: (t.x - weapon_pos.x) as i64,
                            y: (t.y - weapon_pos.y) as i64,
                        })
                }
                &&& r is Some
                &&& final(cooldown).timer == (Timer {
                    elapsed_ms: 0,
                    finished: false,
                    ..ticked
                })
            } else {
                &&& r is None
                &&& final(cooldown).timer == ticked
            }
        }),
{
    cooldown.timer.tick(delta_ms);
    if !cooldown.timer.is_finished() {
        return None;
    }
    let range = weapon.range();
    let nearest = crate::weapons::get_nearest_enemy(weapon_pos, enemies, range);
    match nearest {
        None => None,
        Some(target) => {
            let direction = Vec2i { x: target.x - weapon_pos.x, y: target.y - weapon_pos.y };
            proof {
                assert(is_nearest(weapon_pos, enemies@, weapon.spec_range(), target));
            }
            cooldown.timer.reset();
            Some(
                (
                    weapon_pos,
                    Bullet { direction, damage: weapon.damage(), kind: weapon.kind },
                ),
            )
        },
    }
}

/// One flight step of a bullet: its position advances along its direction
/// by the distance the bullet covers in `delta_ms`.
pub fn move_bullet(pos: Vec2i, bullet: &Bullet, delta_ms: u64) -> (r: Vec2i)
    requires
        in_motion_range(pos),
        in_coord_range(bullet.direction),
        delta_ms <= FRAME_LIMIT_MS,
    ensures
        ({
            let step = BULLET_SPEED * delta_ms / 1000;
            let v = spec_scaled_vec(bullet.direction, step);
            if delta_ms == 0 {
                r == pos
            } else {
                r == (Vec2i { x: (pos.x + v.x) as i64, y: (pos.y + v.y) as i64 })
            }
        }),
        in_coord_range(r),
{
    if delta_ms == 0 {
        return pos;
    }
    let step: i64 = BULLET_SPEED * (delta_ms as i64) / 1000;
    proof {
        assert(500 <= step <= 500000) by (nonlinear_arith)
            requires
                step == BULLET_SPEED * delta_ms / 1000,
                BULLET_SPEED == 500000,
                1 <= delta_ms <= 1000,
        ;
    }
    let v = bullet.direction.scaled_to(step);
    Vec2i { x: pos.x + v.x, y: pos.y + v.y }
}

} // verus!
