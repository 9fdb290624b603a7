//! The one-time gates passed before the event loop starts.
//!
//! The starting position is validated once against the screen resolution;
//! after that the character may leave these bounds freely (movement
//! wrapping is the only later bounds control).  The initial sprite load
//! must succeed, or the character cannot render at all.

use vstd::prelude::*;
use crate::error::{BuddyError, LoadError};
use crate::sprites::SpriteSet;

verus! {

/// Validates the starting coordinates against the screen resolution.
///
/// With no resolution the startup fails outright.  Otherwise, unless the
/// debug option skips the validation, the character's square must lie
/// fully on screen: `0 <= x`, `0 <= y`, `x + character_size < width`,
/// `y + character_size < height`; a violation reports all five values.
pub fn validate_startup(
    resolution: Option<(i32, i32)>,
    x: i32,
    y: i32,
    character_size: u16,
    debug: bool,
) -> (r: Result<(i32, i32), BuddyError>)
    ensures
        resolution is None ==> r == Err::<(i32, i32), BuddyError>(BuddyError::NoScreenResolution),
        resolution matches Some((width, height)) ==> {
            if debug || (0 <= x && 0 <= y && x + character_size < width && y + character_size
                < height) {
                r == Ok::<(i32, i32), BuddyError>((width, height))
            } else {
                r == Err::<(i32, i32), BuddyError>(
                    BuddyError::CoordinatesOutOfBounds(x, y, width, height, character_size),
                )
            }
        },
{
    match resolution {
        None => Err(BuddyError::NoScreenResolution),
        Some((width, height)) => {
            let size = character_size as i64;
            if !debug && (x < 0 || y < 0 || (x as i64) + size >= (width as i64) || (y as i64)
                + size >= (height as i64)) {
                Err(BuddyError::CoordinatesOutOfBounds(x, y, width, height, character_size))
            } else {
                Ok((width, height))
            }
        },
    }
}

/// Passes a usable initial sprite set through and turns a load failure
/// into the fatal startup error.
pub fn initial_sprite_set<F>(outcome: Result<SpriteSet<F>, LoadError>) -> (r: Result<
    SpriteSet<F>,
    BuddyError,
>)
    ensures
        outcome matches Ok(s) ==> r matches Ok(t) && t == s,
        outcome matches Err(e) ==> r == Err::<SpriteSet<F>, BuddyError>(BuddyError::SpriteLoad(e)),
{
    match outcome {
        Ok(set) => Ok(set),
        Err(e) => Err(BuddyError::SpriteLoad(e)),
    }
}

} // verus!
