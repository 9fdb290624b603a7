//! The engine context: the character's state, frame cursor, sprite store
//! and position, advanced by the three clocks and the click handler.
//!
//! The caller owns the timers and the window; on every firing it calls one
//! of the tick methods and performs the returned display or placement
//! action.  All shared state lives in this one object, mutated only from
//! the event loop's thread.

use vstd::prelude::*;
use rand::Rng;
use crate::error::LoadError;
use crate::motion::{spec_step_left, spec_step_right, step_left, step_right, STEP};
use crate::sprites::{SpriteCategory, SpriteSet};
use crate::state::{click_transition, spec_click_transition, CharacterState};

verus! {

/// Which frame the animation tick asks the caller to display.
#[derive(Copy, Clone, Debug, PartialEq, Eq, Structural)]
pub struct FrameChoice {
    pub category: SpriteCategory,
    pub index: usize,
}

/// The square of the screen that stays clickable: only the character's
/// bounding box receives input, the rest of the overlay is click-through.
#[derive(Copy, Clone, Debug, PartialEq, Eq, Structural)]
pub struct InputRegion {
    pub x: i32,
    pub y: i32,
    pub size: u16,
}

/// The state an animation tick leaves the character in.
///
/// The two `Initiating` states commit to their steady state on the very
/// first tick; `Click` returns to `Idle` on the tick that shows the last
/// frame of the click sequence.
pub open spec fn spec_anim_next_state(s: CharacterState, frame: int, click_len: int) -> CharacterState {
    match s {
        CharacterState::Idle => CharacterState::Idle,
        CharacterState::InitiatingRun => CharacterState::Running,
        CharacterState::Running => CharacterState::Running,
        CharacterState::InitiatingClick => CharacterState::Click,
        CharacterState::Click => if frame + 1 >= click_len {
            CharacterState::Idle
        } else {
            CharacterState::Click
        },
    }
}

/// The frame cursor an animation tick leaves behind: advanced cyclically
/// in the steady looping states, reset on every transition out of an
/// `Initiating` state and at the end of the click sequence.
pub open spec fn spec_anim_next_frame(
    s: CharacterState,
    frame: int,
    idle_len: int,
    run_len: int,
    click_len: int,
) -> int {
    match s {
        CharacterState::Idle => (frame + 1) % idle_len,
        CharacterState::InitiatingRun => 0,
        CharacterState::Running => (frame + 1) % run_len,
        CharacterState::InitiatingClick => 0,
        CharacterState::Click => if frame + 1 >= click_len {
            0
        } else {
            frame + 1
        },
    }
}

/// What an animation tick displays: the advanced idle or run frame, the
/// first run frame when a run begins, the current click frame while the
/// click sequence plays, and nothing on the buffer tick into `Click`.
pub open spec fn spec_anim_display(
    s: CharacterState,
    frame: int,
    idle_len: int,
    run_len: int,
    click_len: int,
) -> Option<(SpriteCategory, int)> {
    match s {
        CharacterState::Idle => Some((SpriteCategory::Idle, (frame + 1) % idle_len)),
        CharacterState::InitiatingRun => Some((SpriteCategory::Run, 0)),
        CharacterState::Running => Some((SpriteCategory::Run, (frame + 1) % run_len)),
        CharacterState::InitiatingClick => None,
        CharacterState::Click => if frame < click_len {
            Some((SpriteCategory::Click, frame))
        } else {
            None
        },
    }
}

/// Relies on rand's `Rng::gen_range`: the sample lies within the given
/// half-open range, here `[0, 100)`, uniformly.
#[verifier::external_body]
fn sample_below_100() -> (r: u8)
    ensures
        r < 100,
{
    rand::thread_rng().gen_range(0..100u8)
}

/// The engine context, one per character.
pub struct Engine<F> {
    /// The behavioural state, written by clicks and animation ticks.
    pub state: CharacterState,
    /// Cursor into the currently playing frame sequence.
    pub frame: usize,
    /// The live sprite store, replaced wholesale by a successful reload.
    pub sprites: SpriteSet<F>,
    /// Horizontal offset from the screen edge; the vertical offset is
    /// fixed at startup.
    pub position: i32,
}

impl<F> Engine<F> {
    /// The engine is usable: every sprite category has a frame, and the
    /// cursor can still be advanced.
    pub open spec fn wf(self) -> bool {
        &&& self.sprites.wf()
        &&& self.frame < usize::MAX
    }

    /// Starts a character resting at its configured horizontal offset.
    pub fn new(sprites: SpriteSet<F>, x: i32) -> (e: Engine<F>)
        requires
            sprites.wf(),
        ensures
            e.wf(),
            e.state is Idle,
            e.frame == 0,
            e.position == x,
            e.sprites == sprites,
    {
        Engine { state: CharacterState::Idle, frame: 0, sprites, position: x }
    }

    /// A user click: rolls the probability gate and takes the user-click
    /// column of the transition table.  The roll is uniform in `[1, 100]`,
    /// so a chance of 0 never starts the click animation and a chance of
    /// 100 always does; during `Click` and `InitiatingClick` the click is
    /// a strict no-op.
    pub fn handle_click(&mut self, click_chance: u8)
        ensures
            final(self).frame == old(self).frame,
            final(self).sprites == old(self).sprites,
            final(self).position == old(self).position,
            old(self).wf() ==> final(self).wf(),
            exists|roll: int|
                1 <= roll <= 100 && final(self).state == spec_click_transition(
                    old(self).state,
                    roll,
                    click_chance as int,
                ),
            old(self).state is Click || old(self).state is InitiatingClick ==> final(self).state
                == old(self).state,
            old(self).state is Running || old(self).state is InitiatingRun ==> final(self).state
                is Idle,
            old(self).state is Idle ==> (final(self).state is InitiatingClick || final(self).state
                is InitiatingRun),
            old(self).state is Idle && click_chance == 0 ==> final(self).state is InitiatingRun,
            old(self).state is Idle && click_chance >= 100 ==> final(self).state
                is InitiatingClick,
    {
        let below = sample_below_100();
        let roll = below + 1;
        let next = click_transition(self.state, roll, click_chance);
        proof {
            assert(1 <= roll as int <= 100 && next == spec_click_transition(
                old(self).state,
                roll as int,
                click_chance as int,
            ));
        }
        self.state = next;
    }

    /// One animation tick: takes the animation-tick column of the
    /// transition table and returns the frame to display, if any.
    pub fn animation_tick(&mut self) -> (shown: Option<FrameChoice>)
        requires
            old(self).wf(),
        ensures
            final(self).wf(),
            final(self).sprites == old(self).sprites,
            final(self).position == old(self).position,
            final(self).state == spec_anim_next_state(
                old(self).state,
                old(self).frame as int,
                old(self).sprites.click@.len() as int,
            ),
            final(self).frame as int == spec_anim_next_frame(
                old(self).state,
                old(self).frame as int,
                old(self).sprites.idle@.len() as int,
                old(self).sprites.run@.len() as int,
                old(self).sprites.click@.len() as int,
            ),
            shown is Some <==> spec_anim_display(
                old(self).state,
                old(self).frame as int,
                old(self).sprites.idle@.len() as int,
                old(self).sprites.run@.len() as int,
                old(self).sprites.click@.len() as int,
            ) is Some,
            shown matches Some(fc) ==> spec_anim_display(
                old(self).state,
                old(self).frame as int,
                old(self).sprites.idle@.len() as int,
                old(self).sprites.run@.len() as int,
                old(self).sprites.click@.len() as int,
            ) == Some((fc.category, fc.index as int)),
            shown matches Some(fc) ==> (fc.index as int) < final(self).sprites.seq_of(
                fc.category,
            ).len(),
    {
        match self.state {
            CharacterState::Idle => {
                let len = self.sprites.idle.len();
                let f = (self.frame + 1) % len;
                self.frame = f;
                Some(FrameChoice { category: SpriteCategory::Idle, index: f })
            },
            CharacterState::InitiatingRun => {
                self.frame = 0;
                self.state = CharacterState::Running;
                Some(FrameChoice { category: SpriteCategory::Run, index: 0 })
            },
            CharacterState::Running => {
                let len = self.sprites.run.len();
                let f = (self.frame + 1) % len;
                self.frame = f;
                Some(FrameChoice { category: SpriteCategory::Run, index: f })
            },
            CharacterState::InitiatingClick => {
                self.frame = 0;
                self.state = CharacterState::Click;
                None
            },
            CharacterState::Click => {
                let len = self.sprites.click.len();
                if self.frame >= len {
                    self.state = CharacterState::Idle;
                    self.frame = 0;
                    None
                } else {
                    let shown = FrameChoice { category: SpriteCategory::Click, index: self.frame };
                    if self.frame + 1 == len {
                        self.state = CharacterState::Idle;
                        self.frame = 0;
                    } else {
                        self.frame = self.frame + 1;
                    }
                    Some(shown)
                }
            },
        }
    }

    /// One movement tick: only while `Running` the position advances one
    /// step - wrapping rightward, bouncing leftward - and the caller is
    /// handed the matching input region, the character's new bounding
    /// square, to push to the windowing layer.  In every other state the
    /// tick changes nothing.
    pub fn movement_tick(&mut self, left: bool, screen_width: i32, character_size: u16) -> (region:
        Option<InputRegion>)
        requires
            0 < screen_width,
            screen_width <= i32::MAX - STEP,
            old(self).position >= i32::MIN + STEP,
            old(self).position <= i32::MAX - STEP,
        ensures
            final(self).state == old(self).state,
            final(self).frame == old(self).frame,
            final(self).sprites == old(self).sprites,
            old(self).wf() ==> final(self).wf(),
            !(old(self).state is Running) ==> final(self).position == old(self).position && region
                is None,
            old(self).state is Running && left ==> final(self).position == spec_step_left(
                old(self).position as int,
                character_size as int,
                screen_width as int,
            ),
            old(self).state is Running && !left ==> final(self).position == spec_step_right(
                old(self).position as int,
                screen_width as int,
            ),
            old(self).state is Running ==> region == Some(
                (InputRegion { x: final(self).position, y: 0, size: character_size }),
            ),
    {
        match self.state {
            CharacterState::Running => {
                let next = if left {
                    step_left(self.position, character_size, screen_width)
                } else {
                    step_right(self.position, screen_width)
                };
                self.position = next;
                Some(InputRegion { x: next, y: 0, size: character_size })
            },
            _ => None,
        }
    }

    /// Applies the outcome of a reload attempt: a fresh usable set
    /// replaces the store in one assignment, a failed attempt leaves the
    /// previous set fully intact and in use.  An in-flight animation is
    /// not disturbed either way.
    pub fn apply_reload(&mut self, outcome: Result<SpriteSet<F>, LoadError>) -> (replaced: bool)
        requires
            old(self).wf(),
            outcome matches Ok(s) ==> s.wf(),
        ensures
            final(self).wf(),
            final(self).state == old(self).state,
            final(self).frame == old(self).frame,
            final(self).position == old(self).position,
            outcome matches Ok(s) ==> replaced && final(self).sprites == s,
            outcome is Err ==> !replaced && final(self).sprites == old(self).sprites,
    {
        match outcome {
            Ok(set) => {
                self.sprites = set;
                true
            },
            Err(_) => false,
        }
    }
}

/// Whether a supervisor tick attempts a reload: either automatic reload
/// is configured, or an external request flag was observed (and consumed
/// by the caller when reading it).
pub fn reload_due(automatic_reload: bool, reload_requested: bool) -> (due: bool)
    ensures
        due == (automatic_reload || reload_requested),
{
    automatic_reload || reload_requested
}

/// The character state and frame cursor after some number of animation
/// ticks, with no click in between.
pub open spec fn spec_anim_iter(
    s: CharacterState,
    frame: int,
    idle_len: int,
    run_len: int,
    click_len: int,
    ticks: nat,
) -> (CharacterState, int)
    decreases ticks,
{
    if ticks == 0 {
        (s, frame)
    } else {
        let prev = spec_anim_iter(s, frame, idle_len, run_len, click_len, (ticks - 1) as nat);
        (
            spec_anim_next_state(prev.0, prev.1, click_len),
            spec_anim_next_frame(prev.0, prev.1, idle_len, run_len, click_len),
        )
    }
}

/// Law: the animation-tick column of the transition table, row by row:
/// the looping states advance their frame cyclically and display it, the
/// two `Initiating` states commit and reset the cursor, and the click
/// sequence returns to `Idle` on the tick that shows its last frame.
pub proof fn lemma_animation_tick_table(
    s: CharacterState,
    frame: int,
    idle_len: int,
    run_len: int,
    click_len: int,
)
    requires
        0 < idle_len,
        0 < run_len,
        0 < click_len,
        0 <= frame,
    ensures
        s is Idle ==> spec_anim_next_state(s, frame, click_len) is Idle && spec_anim_next_frame(
            s,
            frame,
            idle_len,
            run_len,
            click_len,
        ) == (frame + 1) % idle_len && spec_anim_display(s, frame, idle_len, run_len, click_len)
            == Some((SpriteCategory::Idle, (frame + 1) % idle_len)),
        s is InitiatingRun ==> spec_anim_next_state(s, frame, click_len) is Running
            && spec_anim_next_frame(s, frame, idle_len, run_len, click_len) == 0,
        s is Running ==> spec_anim_next_state(s, frame, click_len) is Running
            && spec_anim_next_frame(s, frame, idle_len, run_len, click_len) == (frame + 1)
            % run_len && spec_anim_display(s, frame, idle_len, run_len, click_len) == Some(
            (SpriteCategory::Run, (frame + 1) % run_len),
        ),
        s is InitiatingClick ==> spec_anim_next_state(s, frame, click_len) is Click
            && spec_anim_next_frame(s, frame, idle_len, run_len, click_len) == 0
            && spec_anim_display(s, frame, idle_len, run_len, click_len) is None,
        s is Click && frame < click_len ==> spec_anim_display(
            s,
            frame,
            idle_len,
            run_len,
            click_len,
        ) == Some((SpriteCategory::Click, frame)),
        s is Click && frame + 1 < click_len ==> spec_anim_next_state(s, frame, click_len) is Click
            && spec_anim_next_frame(s, frame, idle_len, run_len, click_len) == frame + 1,
        s is Click && frame + 1 >= click_len ==> spec_anim_next_state(s, frame, click_len) is Idle
            && spec_anim_next_frame(s, frame, idle_len, run_len, click_len) == 0,
{
}

/// Law: an `Initiating` state is left on exactly the first animation tick
/// it receives, whatever the frame cursor holds: `InitiatingRun` commits
/// to `Running`, `InitiatingClick` commits to `Click`.
pub proof fn lemma_initiating_single_tick(frame: int, click_len: int)
    ensures
        spec_anim_next_state(CharacterState::InitiatingRun, frame, click_len) is Running,
        spec_anim_next_state(CharacterState::InitiatingClick, frame, click_len) is Click,
{
}

/// Law: starting in `Click` at the first frame of a click sequence of
/// length `click_len`, tick number `k + 1` displays frame `k`, so the
/// frames appear once each, in order, and exactly `click_len` ticks
/// return the character to `Idle` with the cursor reset.
pub proof fn lemma_click_completion(idle_len: int, run_len: int, click_len: int, k: nat)
    requires
        0 < idle_len,
        0 < run_len,
        0 < click_len,
        k <= click_len,
    ensures
        k < click_len ==> spec_anim_iter(CharacterState::Click, 0, idle_len, run_len, click_len, k)
            == (CharacterState::Click, k as int),
        k < click_len ==> spec_anim_display(
            CharacterState::Click,
            k as int,
            idle_len,
            run_len,
            click_len,
        ) == Some((SpriteCategory::Click, k as int)),
        k == click_len ==> spec_anim_iter(
            CharacterState::Click,
            0,
            idle_len,
            run_len,
            click_len,
            k,
        ) == (CharacterState::Idle, 0int),
    decreases k,
{
    if k > 0 {
        lemma_click_completion(idle_len, run_len, click_len, (k - 1) as nat);
    }
}

} // verus!
