//! Core logic of a top-down wave shooter: a single player fights timed waves
//! of enemies with auto-aiming orbit weapons, gains experience, and picks stat
//! upgrades between waves.
//!
//! All quantities are fixed-point integers: positions and lengths are measured
//! in thousandths of a pixel, angles in thousandths of a degree, durations in
//! milliseconds, and stat multipliers in thousandths. The shell that renders
//! the game converts to and from these units at its edge.

pub mod angle;
pub mod collision;
pub mod combat;
pub mod components;
pub mod enemy;
pub mod game;
pub mod geom;
pub mod hud;
pub mod input;
pub mod player;
pub mod rng;
pub mod spawn;
pub mod timer;
pub mod upgrades;
pub mod wave;
pub mod weapons;

use vstd::prelude::*;
use crate::geom::{rect_wf, Recti, Vec2i};

verus! {

/// Fixed-point scale: coordinate units per pixel.
pub const UNITS_PER_PIXEL: i64 = 1000;

/// Side of one background tile, in coordinate units.
pub const TILE_SIZE: i64 = 64000;

/// Arena width, in tiles.
pub const TILES_X: i64 = 20;

/// Arena height, in tiles.
pub const TILES_Y: i64 = 15;

/// The playable arena, centered on the origin: `TILES_X` by `TILES_Y` tiles.
pub open spec fn spec_game_area() -> Recti {
    Recti {
        min: Vec2i { x: -640000i64, y: -480000i64 },
        max: Vec2i { x: 640000i64, y: 480000i64 },
    }
}

pub fn game_area() -> (r: Recti)
    ensures
        r == spec_game_area(),
        rect_wf(r),
{
    Recti {
        min: Vec2i { x: -640000, y: -480000 },
        max: Vec2i { x: 640000, y: 480000 },
    }
}

/// Converts a length given in thousandths of a tile to coordinate units.
pub fn tiles_to_units(milli_tiles: i64) -> (r: i64)
    requires
        -1000000 <= milli_tiles <= 1000000,
    ensures
        r == milli_tiles * 64,
{
    milli_tiles * 64
}

} // verus!
