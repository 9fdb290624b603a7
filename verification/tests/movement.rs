use buddy::engine::{Engine, InputRegion};
use buddy::motion::{step_left, step_right, STEP};
use buddy::sprites::SpriteSet;
use buddy::state::CharacterState;

fn tiny_set() -> SpriteSet<u32> {
    SpriteSet { idle: vec![1], run: vec![2], click: vec![3] }
}

#[test]
fn rightward_position_wraps_at_width_plus_step() {
    assert_eq!(step_right(500, 500), 0);
    assert_eq!(step_right(495, 500), 505);
    assert_eq!(step_right(505, 500), 5);
    assert_eq!(step_right(0, 500), 10);
}

#[test]
fn rightward_positions_stay_within_wrap_range() {
    let mut position = 450;
    let mut wrapped = false;
    for _ in 0..200 {
        position = step_right(position, 500);
        assert!((0..=509).contains(&position));
        if position == 0 {
            wrapped = true;
        }
    }
    assert!(wrapped);
}

#[test]
fn leftward_movement_bounces_instead_of_leaving() {
    let mut position = 0;
    let mut bounced = false;
    for _ in 0..200 {
        position = step_left(position, 75, 500);
        assert!(position > -(2 * 75));
        if position == 500 + STEP {
            bounced = true;
        }
    }
    assert!(bounced);
}

#[test]
fn leftward_steps_reach_the_bounce_exactly() {
    // From 0, moving left: -10, -20, ... -140; the next step would reach
    // -150 == -(2 * 75), so the character re-enters at 510 instead.
    let mut position = 0;
    for expected in (1..=14).map(|k| -10 * k) {
        position = step_left(position, 75, 500);
        assert_eq!(position, expected);
    }
    position = step_left(position, 75, 500);
    assert_eq!(position, 510);
}

#[test]
fn movement_tick_only_acts_while_running() {
    let mut engine = Engine::new(tiny_set(), 100);
    for state in [
        CharacterState::Idle,
        CharacterState::InitiatingRun,
        CharacterState::InitiatingClick,
        CharacterState::Click,
    ] {
        engine.state = state;
        let region = engine.movement_tick(false, 500, 75);
        assert_eq!(region, None);
        assert_eq!(engine.position, 100);
    }
}

#[test]
fn movement_tick_steps_and_returns_matching_region() {
    let mut engine = Engine::new(tiny_set(), 100);
    engine.state = CharacterState::Running;
    let region = engine.movement_tick(false, 500, 75);
    assert_eq!(engine.position, 110);
    assert_eq!(region, Some(InputRegion { x: 110, y: 0, size: 75 }));

    let mut engine = Engine::new(tiny_set(), 100);
    engine.state = CharacterState::Running;
    let region = engine.movement_tick(true, 500, 75);
    assert_eq!(engine.position, 90);
    assert_eq!(region, Some(InputRegion { x: 90, y: 0, size: 75 }));
}
