//! The run state machine: a wave runs on a one-shot timer, ends when the
//! timer finishes, and the next wave starts on the player's input, with both
//! timers reset and the spawn period tightened as the wave count grows.

use vstd::prelude::*;
use crate::timer::Timer;

verus! {

/// Length of one wave, in milliseconds.
pub const WAVE_DURATION_MS: u64 = 30000;

/// Base period between enemy spawns, in milliseconds.
pub const SPAWN_RATE_MS: u64 = 500;

/// Lower bound for the spawn period as waves accelerate it.
pub const MIN_SPAWN_PERIOD_MS: u64 = 10;

/// How long a spawn warning marker stands before the enemy appears.
pub const ENEMY_SPAWN_TIME_MS: u64 = 2000;

#[derive(Clone, Copy, Debug, PartialEq, Eq, Structural)]
pub enum WaveState {
    Running,
    Ended,
}

/// Wave counter, the two wave clocks, and the run state.
#[derive(Clone, Copy, Debug, PartialEq, Eq, Structural)]
pub struct WaveManager {
    pub wave: u32,
    pub wave_timer: Timer,
    pub enemy_spawn_timer: Timer,
    pub wave_state: WaveState,
}

impl WaveManager {
    pub open spec fn wf(&self) -> bool {
        &&& self.wave_timer.wf()
        &&& self.enemy_spawn_timer.wf()
        &&& !self.wave_timer.repeating
        &&& self.enemy_spawn_timer.repeating
        &&& self.wave >= 1
    }

    /// The spawn period for a given wave: the base rate divided by the wave
    /// number, but never below the floor.
    pub open spec fn spec_spawn_period(wave: int) -> int {
        let p = SPAWN_RATE_MS as int / wave;
        if p >= MIN_SPAWN_PERIOD_MS as int {
            p
        } else {
            MIN_SPAWN_PERIOD_MS as int
        }
    }

    pub fn spawn_period_ms(wave: u32) -> (r: u64)
        requires
            wave >= 1,
        ensures
            r == Self::spec_spawn_period(wave as int),
            MIN_SPAWN_PERIOD_MS <= r <= SPAWN_RATE_MS,
    {
        let p: u64 = SPAWN_RATE_MS / (wave as u64);
        if p >= MIN_SPAWN_PERIOD_MS {
            p
        } else {
            MIN_SPAWN_PERIOD_MS
        }
    }

    /// Advances the wave clock while a wave runs; the wave ends on the tick
    /// that exhausts the timer. Between waves nothing moves. Returns whether
    /// the wave ended on this call.
    pub fn update_wave_timer(&mut self, delta_ms: u64) -> (ended_now: bool)
        requires
            old(self).wf(),
            delta_ms <= crate::timer::TIME_LIMIT_MS,
        ensures
            final(self).wf(),
            final(self).wave == old(self).wave,
            final(self).enemy_spawn_timer == old(self).enemy_spawn_timer,
            old(self).wave_state == WaveState::Ended ==> *final(self) == *old(self) && !ended_now,
            old(self).wave_state == WaveState::Running ==> {
                &&& ended_now == (old(self).wave_timer.elapsed_ms + delta_ms
                    >= old(self).wave_timer.duration_ms)
                &&& final(self).wave_state == (if ended_now {
                    WaveState::Ended
                } else {
                    WaveState::Running
                })
                &&& final(self).wave_timer == crate::timer::spec_tick(
                    old(self).wave_timer,
                    delta_ms as int,
                )
            },
    {
        match self.wave_state {
            WaveState::Running => {
                self.wave_timer.tick(delta_ms);
                if self.wave_timer.is_finished() {
                    self.wave_state = WaveState::Ended;
                    true
                } else {
                    false
                }
            },
            WaveState::Ended => false,
        }
    }

    /// Starts the next wave: bumps the counter, restarts the wave clock at
    /// the full duration, and restores the spawn clock to its base rate.
    pub fn start_next_wave(&mut self)
        requires
            old(self).wf(),
            old(self).wave < u32::MAX,
        ensures
            final(self).wf(),
            final(self).wave == old(self).wave + 1,
            final(self).wave_state == WaveState::Running,
            final(self).wave_timer.duration_ms == WAVE_DURATION_MS,
            final(self).wave_timer.elapsed_ms == 0,
            !final(self).wave_timer.finished,
            final(self).enemy_spawn_timer.duration_ms == SPAWN_RATE_MS,
            final(self).enemy_spawn_timer.elapsed_ms == 0,
            !final(self).enemy_spawn_timer.finished,
    {
        self.wave += 1;
        self.wave_state = WaveState::Running;
        self.wave_timer.set_duration(WAVE_DURATION_MS);
        self.wave_timer.reset();
        self.enemy_spawn_timer.set_duration(SPAWN_RATE_MS);
        self.enemy_spawn_timer.reset();
    }

    /// The input handler between waves: a confirm press starts the next
    /// wave; anything else leaves the state alone. Returns whether a new
    /// wave started.
    pub fn handle_wave_input(&mut self, confirm_pressed: bool) -> (started: bool)
        requires
            old(self).wf(),
            old(self).wave < u32::MAX,
        ensures
            final(self).wf(),
            started == (old(self).wave_state == WaveState::Ended && confirm_pressed),
            !started ==> *final(self) == *old(self),
            started ==> {
                &&& final(self).wave == old(self).wave + 1
                &&& final(self).wave_state == WaveState::Running
                &&& final(self).wave_timer.duration_ms == WAVE_DURATION_MS
                &&& final(self).wave_timer.elapsed_ms == 0
                &&& !final(self).wave_timer.finished
                &&& final(self).enemy_spawn_timer.duration_ms == SPAWN_RATE_MS
                &&& final(self).enemy_spawn_timer.elapsed_ms == 0
                &&& !final(self).enemy_spawn_timer.finished
            },
    {
        match self.wave_state {
            WaveState::Ended => {
                if confirm_pressed {
                    self.start_next_wave();
                    true
                } else {
                    false
                }
            },
            WaveState::Running => false,
        }
    }
}

impl Default for WaveManager {
    /// The first wave, ready to run: full wave clock, base spawn rate.
    fn default() -> (r: WaveManager)
        ensures
            r.wf(),
            r.wave == 1,
            r.wave_state == WaveState::Running,
            r.wave_timer.duration_ms == WAVE_DURATION_MS,
            r.wave_timer.elapsed_ms == 0,
            r.enemy_spawn_timer.duration_ms == SPAWN_RATE_MS,
            r.enemy_spawn_timer.elapsed_ms == 0,
    {
        WaveManager {
            wave: 1,
            wave_timer: Timer::new(WAVE_DURATION_MS, false),
            enemy_spawn_timer: Timer::new(SPAWN_RATE_MS, true),
            wave_state: WaveState::Running,
        }
    }
}

} // verus!
