//! Device-independent input state: which device spoke last, and the
//! frame's snapshot of abstract game actions. The shell reads the physical
//! devices and fills this in; the game logic reads only these values.

use vstd::prelude::*;
use crate::geom::Vec2i;

verus! {

/// Which physical input device was most recently used. The last device to
/// produce any input keeps precedence until the other one is used.
#[derive(Clone, Copy, Debug, PartialEq, Eq, Structural)]
pub enum ActiveInputDevice {
    Keyboard,
    Gamepad,
}

impl Default for ActiveInputDevice {
    fn default() -> (r: ActiveInputDevice)
        ensures
            r == ActiveInputDevice::Keyboard,
    {
        ActiveInputDevice::Keyboard
    }
}

/// A frame's snapshot of abstract game actions: the movement vector in
/// thousandths of a full tilt, HUD toggles, the four card-select buttons,
/// and the wave-start confirm.
#[derive(Clone, Copy, Debug)]
pub struct ActionState {
    pub movement: Vec2i,
    pub toggle_show_stats: bool,
    pub toggle_show_debug: bool,
    pub card_select: [bool; 4],
    pub start_next_wave: bool,
}

impl ActionState {
    /// Drops the frame-scoped actions: movement, card selection, and the
    /// wave confirm. The HUD toggles persist across frames.
    pub fn clear(&mut self)
        ensures
            final(self).movement == (Vec2i { x: 0i64, y: 0i64 }),
            final(self).card_select@ =~= seq![false, false, false, false],
            final(self).start_next_wave == false,
            final(self).toggle_show_stats == old(self).toggle_show_stats,
            final(self).toggle_show_debug == old(self).toggle_show_debug,
    {
        self.movement = Vec2i { x: 0, y: 0 };
        self.card_select = [false, false, false, false];
        self.start_next_wave = false;
    }
}

} // verus!
