//! Weapons: the three weapon kinds with their base stats, the circular
//! sector each weapon may orbit in, and nearest-enemy target selection.

use vstd::prelude::*;
use crate::angle::{clamp_angle_to_range, in_sector, spec_clamp_angle, spec_norm};
use crate::geom::{in_coord_range, spec_dist_sq, Vec2i};
use crate::timer::Timer;

verus! {

/// Effective ranges are capped here so that their squares stay in `i64`.
pub const RANGE_LIMIT: i64 = 2000000000;

#[derive(Clone, Copy, Debug, PartialEq, Eq, Structural)]
pub enum WeaponKind {
    MachineGun,
    Pistol,
    Shotgun,
}

/// A weapon's stats: base values in fixed-point units (damage in
/// thousandths of a hit point, range in coordinate units, cooldown in
/// milliseconds) and the player's current multipliers in thousandths.
#[derive(Clone, Copy, Debug, PartialEq, Eq, Structural)]
pub struct Weapon {
    pub kind: WeaponKind,
    pub base_cooldown_ms: u64,
    pub base_damage: u64,
    pub base_range: u64,
    pub damage_multiplier: u64,
    pub fire_rate_multiplier: u64,
    pub range_multiplier: u64,
}

impl Weapon {
    /// Stat bounds under which every derived quantity fits its type.
    pub open spec fn wf(&self) -> bool {
        &&& 0 < self.base_cooldown_ms <= 1000000
        &&& self.base_damage <= 1000000000
        &&& self.base_range <= 1000000000
        &&& 0 < self.damage_multiplier <= 1000000
        &&& 0 < self.fire_rate_multiplier <= 1000000
        &&& 0 < self.range_multiplier <= 1000000
    }

    /// Damage dealt by one bullet: the base scaled by the multiplier.
    pub fn damage(&self) -> (r: u64)
        requires
            self.wf(),
        ensures
            r == self.base_damage * self.damage_multiplier / 1000,
    {
        proof {
            lemma_mul_le(self.base_damage as int, self.damage_multiplier as int, 1000000000, 1000000);
        }
        self.base_damage * self.damage_multiplier / 1000
    }

    /// Reach of the weapon, as `range` computes it.
    pub open spec fn spec_range(&self) -> int {
        crate::geom::min_spec(
            self.base_range * self.range_multiplier / 1000,
            RANGE_LIMIT as int,
        )
    }

    /// Reach of the weapon: the base range scaled by the multiplier, capped
    /// so that its square still fits an `i64`.
    pub fn range(&self) -> (r: i64)
        requires
            self.wf(),
        ensures
            r == self.spec_range(),
            0 <= r <= RANGE_LIMIT,
    {
        proof {
            lemma_mul_le(self.base_range as int, self.range_multiplier as int, 1000000000, 1000000);
        }
        let scaled: u64 = self.base_range * self.range_multiplier / 1000;
        if scaled >= RANGE_LIMIT as u64 {
            RANGE_LIMIT
        } else {
            scaled as i64
        }
    }

    /// Delay between two shots: the base cooldown divided by the fire-rate
    /// multiplier, never below one millisecond.
    pub fn cooldown_ms(&self) -> (r: u64)
        requires
            self.wf(),
        ensures
            r == crate::geom::max_spec(
                (self.base_cooldown_ms * 1000) / (self.fire_rate_multiplier as int),
                1,
            ),
            0 < r <= 1000000000,
    {
        let c: u64 = self.base_cooldown_ms * 1000 / self.fire_rate_multiplier;
        proof {
            assert(c <= 1000000000) by (nonlinear_arith)
                requires
                    c == (self.base_cooldown_ms * 1000) / (self.fire_rate_multiplier as int),
                    0 < self.fire_rate_multiplier,
                    self.base_cooldown_ms * 1000 <= 1000000000,
            ;
        }
        if c < 1 {
            1
        } else {
            c
        }
    }
}

/// a <= ma and b <= mb imply a * b <= ma * mb, for nonnegative values.
proof fn lemma_mul_le(a: int, b: int, ma: int, mb: int)
    by (nonlinear_arith)
    requires
        0 <= a <= ma,
        0 <= b <= mb,
    ensures
        0 <= a * b <= ma * mb,
{
}

/// The countdown until a weapon may fire again.
#[derive(Clone, Copy, Debug, PartialEq, Eq, Structural)]
pub struct WeaponCooldown {
    pub timer: Timer,
}

/// The circular sector a weapon orbits in: a radius from the player and an
/// arc (in thousandths of a degree) around a center direction.
#[derive(Clone, Copy, Debug, PartialEq, Eq, Structural)]
pub struct WeaponArea {
    pub orbit_radius: i64,
    pub sector_arc: i64,
    pub center_arc: i64,
}

impl WeaponArea {
    pub open spec fn wf(&self) -> bool {
        &&& 0 <= self.orbit_radius <= 1000000000
        &&& 0 <= self.sector_arc <= 360000
        &&& -360000 <= self.center_arc <= 360000
    }

    /// The sector's two boundary angles: half the arc on either side of the
    /// center.
    pub fn angle_range(&self) -> (r: (i64, i64))
        requires
            self.wf(),
        ensures
            r.0 == self.center_arc - self.sector_arc / 2,
            r.1 == self.center_arc + self.sector_arc / 2,
    {
        let half_arc: i64 = ((self.sector_arc as u64) / 2) as i64;
        proof {
            assert(half_arc == self.sector_arc as int / 2);
        }
        (self.center_arc - half_arc, self.center_arc + half_arc)
    }

    /// The angle a weapon should move to: the direction toward the enemy,
    /// clamped into this sector.
    pub fn target_angle(&self, enemy_angle: i64) -> (r: i64)
        requires
            self.wf(),
        ensures
            r == spec_clamp_angle(
                enemy_angle as int,
                self.center_arc - self.sector_arc / 2,
                self.center_arc + self.sector_arc / 2,
            ),
            in_sector(
                r as int,
                spec_norm(self.center_arc - self.sector_arc / 2),
                spec_norm(self.center_arc + self.sector_arc / 2),
            ),
    {
        let (min_angle, max_angle) = self.angle_range();
        clamp_angle_to_range(enemy_angle, min_angle, max_angle)
    }
}

/// Where a weapon should sit: on its orbit around the player, in the
/// direction of the aim unit vector (the cosine and sine of the clamped
/// aim angle, in thousandths).
pub open spec fn spec_orbit_target(player_pos: Vec2i, unit: Vec2i, orbit_radius: int) -> Vec2i {
    Vec2i {
        x: (player_pos.x + crate::geom::spec_trunc_div(unit.x * orbit_radius, 1000)) as i64,
        y: (player_pos.y + crate::geom::spec_trunc_div(unit.y * orbit_radius, 1000)) as i64,
    }
}

/// One positioning step of a weapon: it glides toward its spot on the
/// orbit around the player, covering eight thousandths of the remaining
/// way per millisecond of the frame. The aim unit vector (cosine and sine
/// of the clamped aim angle, in thousandths) comes from the caller, which
/// owns the trigonometry.
pub fn update_weapon_positioning(
    current: Vec2i,
    player_pos: Vec2i,
    unit: Vec2i,
    orbit_radius: i64,
    delta_ms: u64,
) -> (r: Vec2i)
    requires
        crate::combat::in_motion_range(current),
        crate::combat::in_motion_range(player_pos),
        -1000 <= unit.x <= 1000,
        -1000 <= unit.y <= 1000,
        0 <= orbit_radius <= 1000000,
        delta_ms <= crate::combat::FRAME_LIMIT_MS,
    ensures
        ({
            let target = spec_orbit_target(player_pos, unit, orbit_radius as int);
            &&& r.x == crate::geom::spec_lerp(current.x as int, target.x as int, 8 * delta_ms)
            &&& r.y == crate::geom::spec_lerp(current.y as int, target.y as int, 8 * delta_ms)
        }),
{
    let tx: i64 = player_pos.x + scaled_offset(unit.x, orbit_radius);
    let ty: i64 = player_pos.y + scaled_offset(unit.y, orbit_radius);
    let t: i64 = 8 * (delta_ms as i64);
    Vec2i {
        x: crate::geom::lerp_milli(current.x, tx, t),
        y: crate::geom::lerp_milli(current.y, ty, t),
    }
}

/// `u * radius / 1000`, truncated toward zero.
fn scaled_offset(u: i64, orbit_radius: i64) -> (r: i64)
    requires
        -1000 <= u <= 1000,
        0 <= orbit_radius <= 1000000,
    ensures
        r == crate::geom::spec_trunc_div(u * orbit_radius, 1000),
        -1000000 <= r <= 1000000,
{
    if u >= 0 {
        proof {
            lemma_mul_le(u as int, orbit_radius as int, 1000, 1000000);
            crate::geom::lemma_div_le(u * orbit_radius, 1000);
        }
        (((u as u64) * (orbit_radius as u64)) / 1000) as i64
    } else {
        proof {
            lemma_mul_le(-u as int, orbit_radius as int, 1000, 1000000);
            crate::geom::lemma_div_le(-u * orbit_radius, 1000);
            assert((-u) * orbit_radius == -(u * orbit_radius)) by (nonlinear_arith);
        }
        -((((-u) as u64) * (orbit_radius as u64) / 1000) as i64)
    }
}

/// The set of weapons the player fights with.
pub struct WeaponsLibrary {
    pub weapons: Vec<Weapon>,
}

/// The three weapons and their base stats: a fast weak machine gun, a
/// middling pistol, and a slow devastating shotgun.
pub fn init() -> (r: WeaponsLibrary)
    ensures
        r.weapons@.len() == 3,
        forall|i: int| 0 <= i < 3 ==> (#[trigger] r.weapons@[i]).wf(),
        r.weapons@[0] == (Weapon {
            kind: WeaponKind::MachineGun,
            base_cooldown_ms: 100u64,
            base_damage: 100u64,
            base_range: 640000u64,
            damage_multiplier: 1000u64,
            fire_rate_multiplier: 1000u64,
            range_multiplier: 1000u64,
        }),
        r.weapons@[1] == (Weapon {
            kind: WeaponKind::Pistol,
            base_cooldown_ms: 1000u64,
            base_damage: 5000u64,
            base_range: 768000u64,
            damage_multiplier: 1000u64,
            fire_rate_multiplier: 1000u64,
            range_multiplier: 1000u64,
        }),
        r.weapons@[2] == (Weapon {
            kind: WeaponKind::Shotgun,
            base_cooldown_ms: 1000u64,
            base_damage: 100000u64,
            base_range: 512000u64,
            damage_multiplier: 1000u64,
            fire_rate_multiplier: 1000u64,
            range_multiplier: 1000u64,
        }),
{
    let mut weapons: Vec<Weapon> = Vec::new();
    weapons.push(
        Weapon {
            kind: WeaponKind::MachineGun,
            base_cooldown_ms: 100,
            base_damage: 100,
            base_range: 640000,
            damage_multiplier: 1000,
            fire_rate_multiplier: 1000,
            range_multiplier: 1000,
        },
    );
    weapons.push(
        Weapon {
            kind: WeaponKind::Pistol,
            base_cooldown_ms: 1000,
            base_damage: 5000,
            base_range: 768000,
            damage_multiplier: 1000,
            fire_rate_multiplier: 1000,
            range_multiplier: 1000,
        },
    );
    weapons.push(
        Weapon {
            kind: WeaponKind::Shotgun,
            base_cooldown_ms: 1000,
            base_damage: 100000,
            base_range: 512000,
            damage_multiplier: 1000,
            fire_rate_multiplier: 1000,
            range_multiplier: 1000,
        },
    );
    WeaponsLibrary { weapons }
}

/// Whether an enemy position lies within `max_range` of `pos`.
pub open spec fn within_range(pos: Vec2i, e: Vec2i, max_range: int) -> bool {
    spec_dist_sq(pos, e) <= max_range * max_range
}

/// Finds the position of the nearest enemy within `max_range` of `pos`:
/// none when no enemy is that close, otherwise an enemy at the globally
/// minimal distance.
pub fn get_nearest_enemy(pos: Vec2i, enemies: &Vec<Vec2i>, max_range: i64) -> (r: Option<Vec2i>)
    requires
        in_coord_range(pos),
        forall|i: int| 0 <= i < enemies@.len() ==> in_coord_range(#[trigger] enemies@[i]),
        0 <= max_range <= RANGE_LIMIT,
    ensures
        (r is Some) <==> exists|i: int|
            0 <= i < enemies@.len() && within_range(pos, #[trigger] enemies@[i], max_range as int),
        r matches Some(p) ==> {
            &&& exists|i: int| 0 <= i < enemies@.len() && #[trigger] enemies@[i] == p
            &&& within_range(pos, p, max_range as int)
            &&& forall|j: int|
                0 <= j < enemies@.len() ==> spec_dist_sq(pos, #[trigger] enemies@[j])
                    >= spec_dist_sq(pos, p)
        },
{
    proof {
        lemma_mul_le(max_range as int, max_range as int, RANGE_LIMIT as int, RANGE_LIMIT as int);
    }
    let range_sq: i64 = max_range * max_range;
    let mut best: Option<Vec2i> = None;
    let mut best_dist: i64 = 0;
    let mut i: usize = 0;
    while i < enemies.len()
        invariant
            i <= enemies@.len(),
            in_coord_range(pos),
            forall|k: int| 0 <= k < enemies@.len() ==> in_coord_range(#[trigger] enemies@[k]),
            range_sq == (max_range as int) * (max_range as int),
            (best is Some) <==> exists|k: int|
                0 <= k < i && within_range(pos, #[trigger] enemies@[k], max_range as int),
            best matches Some(p) ==> {
                &&& exists|k: int| 0 <= k < i && #[trigger] enemies@[k] == p
                &&& best_dist == spec_dist_sq(pos, p)
                &&& within_range(pos, p, max_range as int)
                &&& forall|k: int|
                    0 <= k < i ==> spec_dist_sq(pos, #[trigger] enemies@[k]) >= best_dist
            },
        decreases enemies@.len() - i,
    {
        let e = enemies[i];
        let d = pos.dist_sq(&e);
        if d <= range_sq {
            match best {
                Some(_) => {
                    if d <= best_dist {
                        best = Some(e);
                        best_dist = d;
                    }
                },
                None => {
                    best = Some(e);
                    best_dist = d;
                },
            }
        }
        i += 1;
    }
    best
}

} // verus!
