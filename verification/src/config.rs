//! The resolved configuration record the engine runs from.
//!
//! Acquisition and validation of these values (command line, config file,
//! path expansion) belong to the caller; the engine only reads them.

use vstd::prelude::*;

verus! {

/// Everything the engine needs to know about one character instance.
#[derive(Clone, Debug)]
pub struct Config {
    /// Side of the character's square, in pixels.
    pub character_size: u16,
    /// Animation ticks per second.
    pub fps: u32,
    /// Movement ticks per second.
    pub movement_speed: u32,
    /// Chance, in percent, that a click from `Idle` starts the click
    /// animation instead of toggling walking.
    pub onclick_event_chance: u8,
    /// Starting horizontal offset.
    pub x: i32,
    /// Fixed vertical offset.
    pub y: i32,
    /// Root directory of the sprite categories, if resolved.
    pub sprites_path: Option<String>,
    /// Walk left instead of right.
    pub left: bool,
    /// Mirror every frame on the horizontal axis at load time.
    pub flip_horizontal: bool,
    /// Mirror every frame on the vertical axis at load time.
    pub flip_vertical: bool,
    /// Skip the one-time startup bounds gate.
    pub debug: bool,
    /// Reload-supervisor ticks per second.
    pub signal_frequency: u32,
    /// Reload sprites on every supervisor tick, without waiting for an
    /// external request.
    pub automatic_reload: bool,
}

impl Config {
    /// The record is usable: the probability is a percentage and size and
    /// frequencies are positive.
    pub open spec fn wf(self) -> bool {
        &&& self.onclick_event_chance <= 100
        &&& self.character_size > 0
        &&& self.fps > 0
        &&& self.movement_speed > 0
        &&& self.signal_frequency > 0
    }
}

impl Default for Config {
    /// The stock character: 75 px, 4 animation frames and 20 movement
    /// steps per second, a 15 % click chance, starting at (100, 0),
    /// walking right, no flips, reload checks once per second.
    fn default() -> (c: Self)
        ensures
            c.wf(),
            c.character_size == 75,
            c.fps == 4,
            c.movement_speed == 20,
            c.onclick_event_chance == 15,
            c.x == 100,
            c.y == 0,
            c.sprites_path is None,
            !c.left,
            !c.flip_horizontal,
            !c.flip_vertical,
            !c.debug,
            c.signal_frequency == 1,
            !c.automatic_reload,
    {
        Config {
            character_size: 75,
            fps: 4,
            movement_speed: 20,
            onclick_event_chance: 15,
            x: 100,
            y: 0,
            sprites_path: None,
            left: false,
            flip_horizontal: false,
            flip_vertical: false,
            debug: false,
            signal_frequency: 1,
            automatic_reload: false,
        }
    }
}

/// Milliseconds between two firings of a clock that ticks `frequency`
/// times per second, as the timers are armed with.
pub fn tick_interval_ms(frequency: u32) -> (ms: u64)
    requires
        frequency >= 1,
    ensures
        ms == 1000 as int / frequency as int,
{
    1000u64 / (frequency as u64)
}

} // verus!
