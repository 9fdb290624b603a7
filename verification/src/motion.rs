//! Horizontal movement of the character.
//!
//! While the character runs, each movement tick steps its horizontal
//! position by a fixed increment.  Moving right, the position wraps
//! modulo `screen_width + STEP` back to the left edge; moving left, it
//! decrements until it would reach `-(2 * character_size)`, then re-enters
//! from the right edge at `screen_width + STEP`.

use vstd::prelude::*;
use vstd::arithmetic::div_mod::lemma_fundamental_div_mod_converse;

verus! {

/// Pixels the character advances per movement tick.
pub const STEP: i32 = 10;

/// One rightward step: advance by `STEP` and wrap at `screen_width + STEP`
/// back to the left edge.
pub open spec fn spec_step_right(position: int, screen_width: int) -> int {
    if position >= screen_width {
        position - screen_width
    } else {
        position + STEP
    }
}

/// One leftward step: retreat by `STEP`; at or past `-(2 * character_size)`
/// the character has fully left the screen and re-enters from the right
/// edge at `screen_width + STEP`.
pub open spec fn spec_step_left(position: int, character_size: int, screen_width: int) -> int {
    if position - STEP <= -2 * character_size {
        screen_width + STEP
    } else {
        position - STEP
    }
}

/// Executable rightward step.
pub fn step_right(position: i32, screen_width: i32) -> (next: i32)
    requires
        0 <= screen_width,
        position <= i32::MAX - STEP,
    ensures
        next == spec_step_right(position as int, screen_width as int),
{
    if position >= screen_width {
        position - screen_width
    } else {
        position + STEP
    }
}

/// Executable leftward step.
pub fn step_left(position: i32, character_size: u16, screen_width: i32) -> (next: i32)
    requires
        position >= i32::MIN + STEP,
        screen_width <= i32::MAX - STEP,
    ensures
        next == spec_step_left(position as int, character_size as int, screen_width as int),
{
    let retreated = position - STEP;
    let doubled_size: i32 = 2 * (character_size as i32);
    if retreated <= -doubled_size {
        screen_width + STEP
    } else {
        retreated
    }
}

/// Law: within the wrap range, the rightward step is exactly addition of
/// `STEP` modulo `screen_width + STEP`, and it keeps the position within
/// `[0, screen_width + STEP)`.
pub proof fn lemma_step_right_is_mod(position: int, screen_width: int)
    requires
        0 < screen_width,
        0 <= position < screen_width + STEP,
    ensures
        spec_step_right(position, screen_width) == (position + STEP) % (screen_width + STEP),
        0 <= spec_step_right(position, screen_width) < screen_width + STEP,
{
    let base = screen_width + STEP;
    if position >= screen_width {
        lemma_fundamental_div_mod_converse(position + STEP, base, 1, position - screen_width);
    } else {
        lemma_fundamental_div_mod_converse(position + STEP, base, 0, position + STEP);
    }
}

/// The rightward position after some number of ticks.
pub open spec fn spec_iter_right(position: int, screen_width: int, ticks: nat) -> int
    decreases ticks,
{
    if ticks == 0 {
        position
    } else {
        spec_step_right(spec_iter_right(position, screen_width, (ticks - 1) as nat), screen_width)
    }
}

/// Law: starting anywhere within `[0, screen_width + STEP)`, the position
/// still lies within that range after any number of rightward ticks.
pub proof fn lemma_iter_right_in_range(position: int, screen_width: int, ticks: nat)
    requires
        0 < screen_width,
        0 <= position < screen_width + STEP,
    ensures
        0 <= spec_iter_right(position, screen_width, ticks) < screen_width + STEP,
    decreases ticks,
{
    if ticks > 0 {
        lemma_iter_right_in_range(position, screen_width, (ticks - 1) as nat);
        lemma_step_right_is_mod(spec_iter_right(position, screen_width, (ticks - 1) as nat), screen_width);
    }
}

/// Law: a leftward step never leaves the position at or past
/// `-(2 * character_size)`; instead of crossing that line the character
/// re-enters from the right edge.
pub proof fn lemma_step_left_bounded(position: int, character_size: int, screen_width: int)
    requires
        0 <= character_size,
        0 <= screen_width,
    ensures
        spec_step_left(position, character_size, screen_width) > -2 * character_size,
        spec_step_left(position, character_size, screen_width) == screen_width + STEP
            || spec_step_left(position, character_size, screen_width) == position - STEP,
{
}

} // verus!
