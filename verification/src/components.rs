//! Shared gameplay components: hit points, the enemy tag, and the warning
//! marker that precedes an enemy spawn. Hit points are measured in
//! thousandths of a hit point.

use vstd::prelude::*;
use crate::timer::Timer;

verus! {

/// Hit points a freshly spawned enemy carries.
pub const ENEMY_HEALTH: i64 = 4000;

/// Contact damage an enemy deals, per second of contact.
pub const ENEMY_DAMAGE: i64 = 10000;

/// Hit points the player starts with.
pub const PLAYER_HEALTH: i64 = 100000;

/// Current and maximum hit points. The current value may fall below zero
/// under contact damage; the maximum may grow through upgrades.
#[derive(Clone, Copy, Debug, PartialEq, Eq, Structural)]
pub struct Health {
    pub value: i64,
    pub max: i64,
}

impl Default for Health {
    /// Full health at the starting maximum.
    fn default() -> (r: Health)
        ensures
            r.value == PLAYER_HEALTH,
            r.max == PLAYER_HEALTH,
    {
        Health { value: PLAYER_HEALTH, max: PLAYER_HEALTH }
    }
}

/// A live enemy: its contact damage per second.
#[derive(Clone, Copy, Debug, PartialEq, Eq, Structural)]
pub struct Enemy {
    pub damage: i64,
}

/// A spawn warning marker: when its one-shot timer runs out, the enemy
/// appears in its place.
#[derive(Clone, Copy, Debug, PartialEq, Eq, Structural)]
pub struct Spawning {
    pub timer: Timer,
}

} // verus!
