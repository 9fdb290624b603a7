//! Failure taxonomy of the engine.
//!
//! Everything here is fatal before the event loop starts; once the loop
//! runs, the only recoverable failure is a sprite reload, which keeps the
//! previous sprite set and is retried on the next supervisor tick.

use vstd::prelude::*;
use crate::sprites::SpriteCategory;

verus! {

/// Why a sprite-set load attempt was discarded.  A failed attempt never
/// produces a partially populated set.
#[derive(Copy, Clone, Debug, PartialEq, Eq, Structural)]
pub enum LoadError {
    /// An image file could not be decoded into a frame.
    Decode,
    /// A decoded frame could not be flipped; `true` means the horizontal
    /// axis, `false` the vertical one.
    Flip(bool),
    /// After scanning all category directories, this category ended up with
    /// no frames; the character could not play that animation.
    MissingCategory(SpriteCategory),
}

/// A fatal startup failure.
#[derive(Copy, Clone, Debug, PartialEq, Eq, Structural)]
pub enum BuddyError {
    /// The windowing layer could not report a screen resolution.
    NoScreenResolution,
    /// The starting position fails the one-time bounds gate; carries
    /// x, y, screen width, screen height and character size for diagnostics.
    CoordinatesOutOfBounds(i32, i32, i32, i32, u16),
    /// The initial sprite-set load failed; without it the character cannot
    /// render at all.
    SpriteLoad(LoadError),
}

} // verus!
