use buddy::engine::{Engine, FrameChoice};
use buddy::sprites::{SpriteCategory, SpriteSet};
use buddy::state::CharacterState;

fn set_with_click_len(click_len: u32) -> SpriteSet<u32> {
    SpriteSet {
        idle: vec![10, 11, 12],
        run: vec![20, 21],
        click: (0..click_len).map(|i| 30 + i).collect(),
    }
}

#[test]
fn idle_tick_advances_idle_frame_cyclically() {
    let mut engine = Engine::new(set_with_click_len(3), 0);
    let mut seen = Vec::new();
    for _ in 0..4 {
        let shown = engine.animation_tick().unwrap();
        assert_eq!(shown.category, SpriteCategory::Idle);
        assert_eq!(engine.state, CharacterState::Idle);
        seen.push(shown.index);
    }
    assert_eq!(seen, vec![1, 2, 0, 1]);
}

#[test]
fn initiating_run_commits_on_its_first_tick() {
    let mut engine = Engine::new(set_with_click_len(3), 0);
    engine.state = CharacterState::InitiatingRun;
    engine.frame = 2;
    let shown = engine.animation_tick();
    assert_eq!(engine.state, CharacterState::Running);
    assert_eq!(engine.frame, 0);
    assert_eq!(shown, Some(FrameChoice { category: SpriteCategory::Run, index: 0 }));
}

#[test]
fn initiating_click_commits_on_its_first_tick() {
    let mut engine = Engine::new(set_with_click_len(3), 0);
    engine.state = CharacterState::InitiatingClick;
    engine.frame = 2;
    let shown = engine.animation_tick();
    assert_eq!(engine.state, CharacterState::Click);
    assert_eq!(engine.frame, 0);
    assert_eq!(shown, None);
}

#[test]
fn running_tick_advances_run_frame_and_keeps_running() {
    let mut engine = Engine::new(set_with_click_len(3), 0);
    engine.state = CharacterState::Running;
    let shown = engine.animation_tick().unwrap();
    assert_eq!(engine.state, CharacterState::Running);
    assert_eq!(shown.category, SpriteCategory::Run);
    assert_eq!(shown.index, 1);
}

#[test]
fn click_sequence_of_length_n_takes_exactly_n_ticks() {
    let n: u32 = 5;
    let mut engine = Engine::new(set_with_click_len(n), 0);
    engine.state = CharacterState::InitiatingClick;
    engine.animation_tick();
    assert_eq!(engine.state, CharacterState::Click);
    assert_eq!(engine.frame, 0);
    for k in 0..n as usize {
        let shown = engine.animation_tick().unwrap();
        assert_eq!(shown.category, SpriteCategory::Click);
        assert_eq!(shown.index, k);
        if k + 1 < n as usize {
            assert_eq!(engine.state, CharacterState::Click);
        }
    }
    assert_eq!(engine.state, CharacterState::Idle);
    assert_eq!(engine.frame, 0);
}

#[test]
fn exhausted_click_cursor_falls_back_to_idle() {
    let mut engine = Engine::new(set_with_click_len(2), 0);
    engine.state = CharacterState::Click;
    engine.frame = 7;
    let shown = engine.animation_tick();
    assert_eq!(shown, None);
    assert_eq!(engine.state, CharacterState::Idle);
    assert_eq!(engine.frame, 0);
}

#[test]
fn displayed_index_is_always_in_range() {
    let mut engine = Engine::new(set_with_click_len(2), 0);
    engine.state = CharacterState::InitiatingClick;
    for _ in 0..20 {
        if let Some(FrameChoice { category, index }) = engine.animation_tick() {
            let len = match category {
                SpriteCategory::Idle => engine.sprites.idle.len(),
                SpriteCategory::Run => engine.sprites.run.len(),
                SpriteCategory::Click => engine.sprites.click.len(),
            };
            assert!(index < len);
        }
    }
}
