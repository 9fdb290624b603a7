//! The character's behavioural states and the user-click half of the
//! transition table.
//!
//! A click toggles the character between resting and walking, or - with a
//! configured probability - starts a one-shot "click" animation.  The two
//! `Initiating` states buffer a transition for exactly one animation tick,
//! so that the sprite sequence has switched before movement begins.

use vstd::prelude::*;

verus! {

/// The five behavioural states of the character.
#[derive(Copy, Clone, Debug, PartialEq, Eq, Structural)]
pub enum CharacterState {
    /// Resting; plays the idle animation in place.
    Idle,
    /// A click asked for walking; waits one animation tick before `Running`.
    InitiatingRun,
    /// Walking; the movement clock advances the position.
    Running,
    /// A click won the probability roll; waits one animation tick before `Click`.
    InitiatingClick,
    /// Playing the one-shot click animation to completion.
    Click,
}

/// Where a user click leads, given the roll of a uniform integer in
/// `[1, 100]` and the configured chance in percent.
///
/// From `Idle` the roll decides between the click animation and walking;
/// from the two motion states the click unconditionally toggles back to
/// `Idle`; during `InitiatingClick` and `Click` it is ignored, so a started
/// click animation always plays to completion.
pub open spec fn spec_click_transition(s: CharacterState, roll: int, chance: int) -> CharacterState {
    match s {
        CharacterState::Idle => if roll <= chance {
            CharacterState::InitiatingClick
        } else {
            CharacterState::InitiatingRun
        },
        CharacterState::InitiatingRun => CharacterState::Idle,
        CharacterState::Running => CharacterState::Idle,
        CharacterState::InitiatingClick => CharacterState::InitiatingClick,
        CharacterState::Click => CharacterState::Click,
    }
}

/// Executable user-click transition; the roll is handed in so the decision
/// itself is deterministic.
pub fn click_transition(s: CharacterState, roll: u8, chance: u8) -> (next: CharacterState)
    requires
        1 <= roll <= 100,
    ensures
        next == spec_click_transition(s, roll as int, chance as int),
{
    match s {
        CharacterState::Idle => if roll <= chance {
            CharacterState::InitiatingClick
        } else {
            CharacterState::InitiatingRun
        },
        CharacterState::InitiatingRun => CharacterState::Idle,
        CharacterState::Running => CharacterState::Idle,
        CharacterState::InitiatingClick => CharacterState::InitiatingClick,
        CharacterState::Click => CharacterState::Click,
    }
}

/// Law: the user-click column of the transition table, row by row, for
/// every state and every admissible roll; a click during `Click` or
/// `InitiatingClick` is a strict no-op.
pub proof fn lemma_click_transition_table(s: CharacterState, roll: int, chance: int)
    requires
        1 <= roll <= 100,
    ensures
        s is Idle && roll <= chance ==> spec_click_transition(s, roll, chance) is InitiatingClick,
        s is Idle && roll > chance ==> spec_click_transition(s, roll, chance) is InitiatingRun,
        s is Running ==> spec_click_transition(s, roll, chance) is Idle,
        s is InitiatingRun ==> spec_click_transition(s, roll, chance) is Idle,
        s is Click || s is InitiatingClick ==> spec_click_transition(s, roll, chance) == s,
{
}

/// Law: the probability gate at its boundaries.  With a chance of zero the
/// roll, at least 1, never passes, so a click from `Idle` never starts the
/// click animation; with a chance of 100 it always does.
pub proof fn lemma_click_chance_boundary(roll: int)
    requires
        1 <= roll <= 100,
    ensures
        spec_click_transition(CharacterState::Idle, roll, 0) is InitiatingRun,
        spec_click_transition(CharacterState::Idle, roll, 100) is InitiatingClick,
{
}

} // verus!
