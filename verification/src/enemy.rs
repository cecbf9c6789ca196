//! The enemy lifecycle: the spawn clock announces a new enemy at a weighted
//! random spot, the warning marker counts down and turns into an enemy, live
//! enemies walk straight toward the player, and enemies whose health is
//! exhausted are reported dead.

use vstd::prelude::*;
use crate::components::{Enemy, Health, Spawning, ENEMY_DAMAGE, ENEMY_HEALTH};
use crate::combat::{in_motion_range, FRAME_LIMIT_MS};
use crate::geom::{in_coord_range, rect_contains, spec_scaled_vec, Vec2i};
use crate::spawn::{generate_spawn_position, valid_spawn_pos};
use crate::spec_game_area;
use crate::timer::{min_elapsed, spec_tick, Timer, TIME_LIMIT_MS};
use crate::wave::{WaveManager, ENEMY_SPAWN_TIME_MS};

verus! {

/// Enemy walking speed, in coordinate units per second.
pub const ENEMY_SPEED: i64 = 80000;

/// One step of the spawn clock. When the repeating timer completes, a spawn
/// position is drawn (inside the shrunk arena, outside the player's safe
/// square) and the clock's period is retuned to the current wave: the base
/// rate divided by the wave number, floored. Nothing else of the wave
/// manager moves.
pub fn update_spawning(wm: &mut WaveManager, player_pos: Vec2i, delta_ms: u64) -> (r: Option<
    Vec2i,
>)
    requires
        old(wm).wf(),
        delta_ms <= TIME_LIMIT_MS,
        rect_contains(spec_game_area(), player_pos),
    ensures
        final(wm).wf(),
        final(wm).wave == old(wm).wave,
        final(wm).wave_state == old(wm).wave_state,
        final(wm).wave_timer == old(wm).wave_timer,
        ({
            let ticked = spec_tick(old(wm).enemy_spawn_timer, delta_ms as int);
            let period = WaveManager::spec_spawn_period(old(wm).wave as int);
            if ticked.finished {
                &&& r matches Some(p) && valid_spawn_pos(player_pos, p)
                &&& final(wm).enemy_spawn_timer == (Timer {
                    duration_ms: period as u64,
                    elapsed_ms: min_elapsed(ticked.elapsed_ms as int, period, true) as u64,
                    ..ticked
                })
            } else {
                &&& r is None
                &&& final(wm).enemy_spawn_timer == ticked
            }
        }),
{
    wm.enemy_spawn_timer.tick(delta_ms);
    if !wm.enemy_spawn_timer.is_finished() {
        return None;
    }
    let pos = generate_spawn_position(player_pos);
    let period = WaveManager::spawn_period_ms(wm.wave);
    wm.enemy_spawn_timer.set_duration(period);
    Some(pos)
}

/// A fresh warning marker, set to stand for the spawn delay.
pub fn new_spawning() -> (r: Spawning)
    ensures
        r.timer.wf(),
        r.timer.duration_ms == ENEMY_SPAWN_TIME_MS,
        r.timer.elapsed_ms == 0,
        !r.timer.repeating,
        !r.timer.finished,
{
    Spawning { timer: Timer::new(ENEMY_SPAWN_TIME_MS, false) }
}

/// One step of a warning marker's countdown; reports whether the marker
/// just expired, so that the enemy takes its place.
pub fn update_spawned(spawning: &mut Spawning, delta_ms: u64) -> (spawned: bool)
    requires
        old(spawning).timer.wf(),
        delta_ms <= TIME_LIMIT_MS,
    ensures
        final(spawning).timer == spec_tick(old(spawning).timer, delta_ms as int),
        spawned == final(spawning).timer.finished,
{
    spawning.timer.tick(delta_ms);
    spawning.timer.is_finished()
}

/// The enemy that replaces an expired warning marker, with its fixed
/// contact damage and starting health.
pub fn spawned_enemy() -> (r: (Enemy, Health))
    ensures
        r.0.damage == ENEMY_DAMAGE,
        r.1.value == ENEMY_HEALTH,
        r.1.max == ENEMY_HEALTH,
{
    (Enemy { damage: ENEMY_DAMAGE }, Health { value: ENEMY_HEALTH, max: ENEMY_HEALTH })
}

/// One walking step of an enemy: straight toward the player, covering the
/// distance its speed allows in `delta_ms`, rounded toward zero.
pub fn update_move(enemy_pos: Vec2i, player_pos: Vec2i, delta_ms: u64) -> (r: Vec2i)
    requires
        in_motion_range(enemy_pos),
        in_motion_range(player_pos),
        delta_ms <= FRAME_LIMIT_MS,
    ensures
        ({
            let step = ENEMY_SPEED * delta_ms / 1000;
            let d = Vec2i {
                x: (player_pos.x - enemy_pos.x) as i64,
                y: (player_pos.y - enemy_pos.y) as i64,
            };
            let v = spec_scaled_vec(d, step);
            if delta_ms == 0 {
                r == enemy_pos
            } else {
                r == (Vec2i { x: (enemy_pos.x + v.x) as i64, y: (enemy_pos.y + v.y) as i64 })
            }
        }),
        in_coord_range(r),
{
    if delta_ms == 0 {
        return enemy_pos;
    }
    let step: i64 = ENEMY_SPEED * (delta_ms as i64) / 1000;
    proof {
        assert(80 <= step <= 80000) by (nonlinear_arith)
            requires
                step == ENEMY_SPEED * delta_ms / 1000,
                ENEMY_SPEED == 80000,
                1 <= delta_ms <= 1000,
        ;
    }
    let d = Vec2i { x: player_pos.x - enemy_pos.x, y: player_pos.y - enemy_pos.y };
    let v = d.scaled_to(step);
    Vec2i { x: enemy_pos.x + v.x, y: enemy_pos.y + v.y }
}

/// One walking step for every enemy at once.
pub fn move_enemies(enemy_pos: &mut Vec<Vec2i>, player_pos: Vec2i, delta_ms: u64)
    requires
        forall|i: int| 0 <= i < old(enemy_pos)@.len() ==> in_motion_range(#[trigger] old(enemy_pos)@[i]),
        in_motion_range(player_pos),
        delta_ms <= FRAME_LIMIT_MS,
    ensures
        final(enemy_pos)@.len() == old(enemy_pos)@.len(),
        forall|i: int|
            0 <= i < old(enemy_pos)@.len() ==> #[trigger] final(enemy_pos)@[i] == spec_moved(
                old(enemy_pos)@[i],
                player_pos,
                delta_ms as int,
            ),
{
    let mut i: usize = 0;
    while i < enemy_pos.len()
        invariant
            0 <= i <= enemy_pos@.len(),
            enemy_pos@.len() == old(enemy_pos)@.len(),
            in_motion_range(player_pos),
            delta_ms <= FRAME_LIMIT_MS,
            forall|k: int|
                i <= k < enemy_pos@.len() ==> #[trigger] enemy_pos@[k] == old(enemy_pos)@[k],
            forall|k: int|
                0 <= k < enemy_pos@.len() ==> in_motion_range(#[trigger] old(enemy_pos)@[k]),
            forall|k: int|
                0 <= k < i ==> #[trigger] enemy_pos@[k] == spec_moved(
                    old(enemy_pos)@[k],
                    player_pos,
                    delta_ms as int,
                ),
        decreases enemy_pos@.len() - i,
    {
        let p = update_move(enemy_pos[i], player_pos, delta_ms);
        enemy_pos.set(i, p);
        i += 1;
    }
}

/// Where one walking step leaves an enemy, as `update_move` computes it.
pub open spec fn spec_moved(enemy_pos: Vec2i, player_pos: Vec2i, delta: int) -> Vec2i {
    let step = ENEMY_SPEED * delta / 1000;
    let d = Vec2i {
        x: (player_pos.x - enemy_pos.x) as i64,
        y: (player_pos.y - enemy_pos.y) as i64,
    };
    let v = spec_scaled_vec(d, step);
    if delta == 0 {
        enemy_pos
    } else {
        Vec2i { x: (enemy_pos.x + v.x) as i64, y: (enemy_pos.y + v.y) as i64 }
    }
}

/// Flags the enemies whose health is exhausted: one flag per enemy, true
/// exactly where the current health is at or below zero.
pub fn check_if_dead(healths: &Vec<Health>) -> (flags: Vec<bool>)
    ensures
        flags@.len() == healths@.len(),
        forall|i: int|
            0 <= i < healths@.len() ==> flags@[i] == (#[trigger] healths@[i].value <= 0),
{
    let mut flags: Vec<bool> = Vec::new();
    let mut i: usize = 0;
    while i < healths.len()
        invariant
            i <= healths@.len(),
            flags@.len() == i,
            forall|j: int|
                0 <= j < i ==> flags@[j] == (#[trigger] healths@[j].value <= 0),
        decreases healths@.len() - i,
    {
        flags.push(healths[i].value <= 0);
        i += 1;
    }
    flags
}

} // verus!
