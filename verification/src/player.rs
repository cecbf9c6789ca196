//! The player: movement from key and stick input (clamped to the arena),
//! facing direction, experience and leveling, and the sprite-sheet rows the
//! animation runs on.

use vstd::prelude::*;
use crate::geom::{
    clamp_i64, in_coord_range, max_spec, min_spec, rect_contains, spec_dist_sq, spec_scaled_vec,
    Vec2i,
};
use crate::combat::FRAME_LIMIT_MS;
use crate::spec_game_area;
use crate::upgrades::{PlayerStats, STAT_LIMIT};

verus! {

/// Walking speed of the player, in coordinate units per second.
pub const PLAYER_SPEED: i64 = 200000;

/// Experience granted per enemy killed.
pub const ENEMY_BASE_XP: u32 = 1;

/// Experience needed for the next level, per current level.
pub const NEXT_LEVEL_RATIO: u32 = 10;

/// How much the health maximum grows on level-up, in thousandths.
pub const LEVEL_UP_HEALTH_BONUS: i64 = 10000;

/// Marks the player-controlled character.
#[derive(Clone, Copy, Debug, PartialEq, Eq, Structural)]
pub struct Player;

/// What the player is currently doing, for animation.
#[derive(Clone, Copy, Debug, PartialEq, Eq, Structural)]
pub enum PlayerAction {
    IDLE,
    WALKING,
    DASHING,
    DYING,
}

/// The eight facing directions of the player sprite.
#[derive(Clone, Copy, Debug, PartialEq, Eq, Structural)]
pub enum Direction {
    EAST,
    NORTH,
    NORTHEAST,
    NORTHWEST,
    SOUTH,
    SOUTHEAST,
    SOUTHWEST,
    WEST,
}

/// Experience gathered by the player: total points, current level, and how
/// many levels were gained since the last upgrade screen.
#[derive(Clone, Copy, Debug, PartialEq, Eq, Structural)]
pub struct PlayerExperience {
    pub value: u32,
    pub level: u32,
    pub new_levels: u32,
}

impl Default for PlayerExperience {
    /// No experience, level one, nothing to claim.
    fn default() -> (r: PlayerExperience)
        ensures
            r.value == 0,
            r.level == 1,
            r.new_levels == 0,
    {
        PlayerExperience { value: 0, level: 1, new_levels: 0 }
    }
}

/// Books one enemy kill: the player gains the kill's experience, and when
/// the total reaches the next level's threshold, the level and the pending
/// level-up count rise and the health maximum grows by the level-up bonus.
pub fn handle_enemy_death(xp: &mut PlayerExperience, stats: &mut PlayerStats) -> (leveled: bool)
    requires
        old(xp).value < u32::MAX,
        old(xp).level < u32::MAX,
        old(xp).new_levels < u32::MAX,
        old(stats).wf(),
        old(stats).max_health + LEVEL_UP_HEALTH_BONUS <= 1000000000,
    ensures
        final(xp).value == old(xp).value + ENEMY_BASE_XP,
        leveled == (old(xp).value + ENEMY_BASE_XP >= old(xp).level * NEXT_LEVEL_RATIO),
        leveled ==> {
            &&& final(xp).level == old(xp).level + 1
            &&& final(xp).new_levels == old(xp).new_levels + 1
            &&& final(stats).max_health == old(stats).max_health + LEVEL_UP_HEALTH_BONUS
            &&& final(stats).damage_multiplier == old(stats).damage_multiplier
            &&& final(stats).fire_rate_multiplier == old(stats).fire_rate_multiplier
            &&& final(stats).range_multiplier == old(stats).range_multiplier
            &&& final(stats).speed_multiplier == old(stats).speed_multiplier
        },
        !leveled ==> final(xp).level == old(xp).level && final(xp).new_levels == old(
            xp,
        ).new_levels && *final(stats) == *old(stats),
        final(stats).wf(),
{
    xp.value = xp.value + ENEMY_BASE_XP;
    if xp.value as u64 >= (xp.level as u64) * (NEXT_LEVEL_RATIO as u64) {
        xp.level = xp.level + 1;
        xp.new_levels = xp.new_levels + 1;
        stats.max_health = stats.max_health + LEVEL_UP_HEALTH_BONUS;
        true
    } else {
        false
    }
}

/// The facing direction a movement vector maps to, with a dead band of half
/// a unit on each axis; `None` for vectors inside the band.
pub open spec fn spec_direction(v: Vec2i) -> Option<Direction> {
    if v.x == 0 && v.y == 0 {
        Option::None
    } else if v.y < -500 && -500 <= v.x <= 500 {
        Option::Some(Direction::SOUTH)
    } else if v.y < -500 && v.x > 500 {
        Option::Some(Direction::SOUTHEAST)
    } else if v.x > 500 && -500 <= v.y <= 500 {
        Option::Some(Direction::EAST)
    } else if v.y > 500 && v.x > 500 {
        Option::Some(Direction::NORTHEAST)
    } else if v.y > 500 && -500 <= v.x <= 500 {
        Option::Some(Direction::NORTH)
    } else if v.y > 500 && v.x < -500 {
        Option::Some(Direction::NORTHWEST)
    } else if v.x < -500 && -500 <= v.y <= 500 {
        Option::Some(Direction::WEST)
    } else if v.y < -500 && v.x < -500 {
        Option::Some(Direction::SOUTHWEST)
    } else {
        Option::None
    }
}

/// Maps a movement vector (in thousandths of a unit step) to the facing
/// direction it points at.
pub fn get_direction(v: Vec2i) -> (r: Option<Direction>)
    ensures
        r == spec_direction(v),
{
    if v.x == 0 && v.y == 0 {
        None
    } else if v.y < -500 && -500 <= v.x && v.x <= 500 {
        Some(Direction::SOUTH)
    } else if v.y < -500 && v.x > 500 {
        Some(Direction::SOUTHEAST)
    } else if v.x > 500 && -500 <= v.y && v.y <= 500 {
        Some(Direction::EAST)
    } else if v.y > 500 && v.x > 500 {
        Some(Direction::NORTHEAST)
    } else if v.y > 500 && -500 <= v.x && v.x <= 500 {
        Some(Direction::NORTH)
    } else if v.y > 500 && v.x < -500 {
        Some(Direction::NORTHWEST)
    } else if v.x < -500 && -500 <= v.y && v.y <= 500 {
        Some(Direction::WEST)
    } else if v.y < -500 && v.x < -500 {
        Some(Direction::SOUTHWEST)
    } else {
        None
    }
}

/// Stick input wins over the directional pad: the stick counts when it
/// leaves its dead zone, else a pressed pad direction is used at full tilt,
/// else the input is still. All vectors are in thousandths (a full tilt is
/// 1000).
pub fn get_gamepad_movement(stick: Vec2i, dpad: Vec2i) -> (r: Vec2i)
    requires
        -1000 <= stick.x <= 1000,
        -1000 <= stick.y <= 1000,
        -1000 <= dpad.x <= 1000,
        -1000 <= dpad.y <= 1000,
    ensures
        spec_dist_sq(stick, Vec2i { x: 0i64, y: 0i64 }) > 22500 ==> r == stick,
        spec_dist_sq(stick, Vec2i { x: 0i64, y: 0i64 }) <= 22500 && !(dpad.x == 0 && dpad.y == 0)
            ==> r == spec_scaled_vec(dpad, 1000),
        spec_dist_sq(stick, Vec2i { x: 0i64, y: 0i64 }) <= 22500 && dpad.x == 0 && dpad.y == 0
            ==> r == (Vec2i { x: 0i64, y: 0i64 }),
{
    let len_sq = stick.dist_sq(&Vec2i { x: 0, y: 0 });
    if len_sq > 150 * 150 {
        return stick;
    }
    if dpad.x != 0 || dpad.y != 0 {
        return dpad.scaled_to(1000);
    }
    Vec2i { x: 0, y: 0 }
}

/// The input vector for one frame, in thousandths: each held key pulls one
/// full unit on its axis, and the gamepad vector is added on top.
pub open spec fn spec_input_vector(
    up: bool,
    down: bool,
    left: bool,
    right: bool,
    gamepad: Vec2i,
) -> Vec2i {
    Vec2i {
        x: ((if right { 1000int } else { 0int }) - (if left { 1000int } else { 0int })
            + gamepad.x) as i64,
        y: ((if up { 1000int } else { 0int }) - (if down { 1000int } else { 0int })
            + gamepad.y) as i64,
    }
}

/// One movement step of the player. Key and stick input form a direction;
/// the player walks along it at its speed (scaled by the speed stat) for
/// the frame, and is clamped into the arena. Returns the new position, the
/// action for the animation (walking or idle), and the new facing
/// direction, if the input names one.
pub fn update_position(
    up: bool,
    down: bool,
    left: bool,
    right: bool,
    gamepad: Vec2i,
    pos: Vec2i,
    stats: &PlayerStats,
    delta_ms: u64,
) -> (r: (Vec2i, PlayerAction, Option<Direction>))
    requires
        rect_contains(spec_game_area(), pos),
        stats.wf(),
        -2000 <= gamepad.x <= 2000,
        -2000 <= gamepad.y <= 2000,
        delta_ms <= FRAME_LIMIT_MS,
    ensures
        ({
            let d = spec_input_vector(up, down, left, right, gamepad);
            let step = PLAYER_SPEED * stats.speed_multiplier * delta_ms / 1000000;
            let v = spec_scaled_vec(d, step);
            let moved = if d.x == 0 && d.y == 0 || step == 0 {
                pos
            } else {
                Vec2i { x: (pos.x + v.x) as i64, y: (pos.y + v.y) as i64 }
            };
            &&& r.0.x == min_spec(max_spec(moved.x as int, -640000), 640000)
            &&& r.0.y == min_spec(max_spec(moved.y as int, -480000), 480000)
            &&& r.1 == (if d.x == 0 && d.y == 0 {
                PlayerAction::IDLE
            } else {
                PlayerAction::WALKING
            })
            &&& r.2 == spec_direction(d)
        }),
        rect_contains(spec_game_area(), r.0),
{
    let dx: i64 = (if right { 1000 } else { 0 }) - (if left { 1000 } else { 0 }) + gamepad.x;
    let dy: i64 = (if up { 1000 } else { 0 }) - (if down { 1000 } else { 0 }) + gamepad.y;
    let d = Vec2i { x: dx, y: dy };
    let new_direction = get_direction(d);

    let moved: Vec2i = if dx == 0 && dy == 0 {
        pos
    } else {
        proof {
            assert(0 <= PLAYER_SPEED * stats.speed_multiplier * delta_ms
                <= 200000000000000) by (nonlinear_arith)
                requires
                    0 < stats.speed_multiplier <= STAT_LIMIT,
                    delta_ms <= 1000,
                    STAT_LIMIT == 1000000,
                    PLAYER_SPEED == 200000,
            ;
        }
        let step: i64 = ((PLAYER_SPEED as u64) * stats.speed_multiplier * (delta_ms as u64)
            / 1000000) as i64;
        if step == 0 {
            pos
        } else {
            let v = d.scaled_to(step);
            Vec2i { x: pos.x + v.x, y: pos.y + v.y }
        }
    };

    let clamped = Vec2i {
        x: clamp_i64(moved.x, -640000, 640000),
        y: clamp_i64(moved.y, -480000, 480000),
    };
    let action = if dx == 0 && dy == 0 {
        PlayerAction::IDLE
    } else {
        PlayerAction::WALKING
    };
    (clamped, action, new_direction)
}

/// The inclusive frame range of a sprite-sheet row.
#[derive(Clone, Copy, Debug, PartialEq, Eq, Structural)]
pub struct AnimationIndices {
    pub first: usize,
    pub last: usize,
}

/// The sprite-sheet row a facing direction is drawn from.
pub open spec fn spec_animation_row(direction: Direction) -> int {
    match direction {
        Direction::SOUTH => 0,
        Direction::SOUTHWEST => 1,
        Direction::WEST => 1,
        Direction::NORTHWEST => 2,
        Direction::NORTH => 3,
        Direction::NORTHEAST => 4,
        Direction::SOUTHEAST => 5,
        Direction::EAST => 5,
    }
}

/// The frame range for a state and facing direction: each row holds eight
/// frames, and every action currently animates over the full row.
pub fn get_animation_indices(state: &PlayerAction, direction: &Direction) -> (r: AnimationIndices)
    ensures
        r.first == spec_animation_row(*direction) * 8,
        r.last == spec_animation_row(*direction) * 8 + 7,
{
    let row: usize = match direction {
        Direction::SOUTH => 0,
        Direction::SOUTHWEST => 1,
        Direction::WEST => 1,
        Direction::NORTHWEST => 2,
        Direction::NORTH => 3,
        Direction::NORTHEAST => 4,
        Direction::SOUTHEAST => 5,
        Direction::EAST => 5,
    };
    let frame_count: usize = match state {
        PlayerAction::IDLE => 8,
        PlayerAction::WALKING => 8,
        PlayerAction::DASHING => 8,
        PlayerAction::DYING => 8,
    };
    AnimationIndices { first: row * frame_count, last: row * frame_count + frame_count - 1 }
}

} // verus!
