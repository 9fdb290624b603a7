use buddy::config::{tick_interval_ms, Config};
use buddy::engine::reload_due;
use buddy::error::{BuddyError, LoadError};
use buddy::sprites::SpriteSet;
use buddy::startup::{initial_sprite_set, validate_startup};

#[test]
fn out_of_bounds_start_reports_all_five_values() {
    let result = validate_startup(Some((500, 500)), 450, 0, 75, false);
    assert_eq!(result, Err(BuddyError::CoordinatesOutOfBounds(450, 0, 500, 500, 75)));
}

#[test]
fn debug_flag_bypasses_the_bounds_gate() {
    let result = validate_startup(Some((500, 500)), 450, 0, 75, true);
    assert_eq!(result, Ok((500, 500)));
    let result = validate_startup(Some((500, 500)), -4000, -4000, 75, true);
    assert_eq!(result, Ok((500, 500)));
}

#[test]
fn start_square_must_lie_strictly_inside_the_screen() {
    // 425 + 75 == 500 is already out; one pixel less fits.
    assert!(validate_startup(Some((500, 500)), 425, 0, 75, false).is_err());
    assert_eq!(validate_startup(Some((500, 500)), 424, 0, 75, false), Ok((500, 500)));
    assert!(validate_startup(Some((500, 500)), 0, -1, 75, false).is_err());
    assert_eq!(validate_startup(Some((500, 500)), 0, 0, 75, false), Ok((500, 500)));
}

#[test]
fn missing_resolution_is_fatal() {
    let result = validate_startup(None, 0, 0, 75, false);
    assert_eq!(result, Err(BuddyError::NoScreenResolution));
    let result = validate_startup(None, 0, 0, 75, true);
    assert_eq!(result, Err(BuddyError::NoScreenResolution));
}

#[test]
fn initial_load_failure_is_fatal() {
    let outcome: Result<SpriteSet<u32>, LoadError> = Err(LoadError::Decode);
    let result = initial_sprite_set(outcome);
    assert_eq!(result.err(), Some(BuddyError::SpriteLoad(LoadError::Decode)));
}

#[test]
fn initial_load_success_passes_through() {
    let outcome: Result<SpriteSet<u32>, LoadError> =
        Ok(SpriteSet { idle: vec![1], run: vec![2], click: vec![3] });
    let set = initial_sprite_set(outcome).ok().unwrap();
    assert_eq!(set.idle, vec![1]);
}

#[test]
fn stock_configuration_matches_the_documented_defaults() {
    let config = Config::default();
    assert_eq!(config.character_size, 75);
    assert_eq!(config.fps, 4);
    assert_eq!(config.movement_speed, 20);
    assert_eq!(config.onclick_event_chance, 15);
    assert_eq!(config.x, 100);
    assert_eq!(config.y, 0);
    assert!(config.sprites_path.is_none());
    assert!(!config.left);
    assert!(!config.flip_horizontal);
    assert!(!config.flip_vertical);
    assert!(!config.debug);
    assert_eq!(config.signal_frequency, 1);
    assert!(!config.automatic_reload);
}

#[test]
fn tick_intervals_divide_one_second() {
    assert_eq!(tick_interval_ms(4), 250);
    assert_eq!(tick_interval_ms(20), 50);
    assert_eq!(tick_interval_ms(1), 1000);
    assert_eq!(tick_interval_ms(3), 333);
    assert_eq!(tick_interval_ms(2000), 0);
}

#[test]
fn reload_runs_when_automatic_or_requested() {
    assert!(!reload_due(false, false));
    assert!(reload_due(true, false));
    assert!(reload_due(false, true));
    assert!(reload_due(true, true));
}
