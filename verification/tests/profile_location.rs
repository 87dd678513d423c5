//! Tests of the Machine-profile location choice and the processing stubs.

use sans_core::binary_link::{get_response, Command, Response};
use sans_core::config::{profile_location, ProfileLocation, CONFIG_HOME_PROFILE, HOME_PROFILE};
use sans_core::processing::{ColorCorrect, Scheduler, Type, Work};

#[test]
fn an_explicit_path_wins_then_config_home_then_home() {
    assert_eq!(profile_location(true, true, true), Some(ProfileLocation::Explicit));
    assert_eq!(profile_location(false, true, true), Some(ProfileLocation::ConfigHome));
    assert_eq!(profile_location(false, false, true), Some(ProfileLocation::Home));
    assert_eq!(profile_location(false, false, false), None);
    assert_eq!(CONFIG_HOME_PROFILE, "sans/sans.toml");
    assert_eq!(HOME_PROFILE, ".config/sans/sans.toml");
}

#[test]
fn colour_correction_always_succeeds() {
    let mut work = ColorCorrect {};
    work.add_workload();
    assert_eq!(work.work(), Ok(0));
    let mut scheduler = Scheduler::new(Type::REMOTE);
    scheduler.dispatch(Box::new(ColorCorrect {}));
}

#[test]
fn binary_frames_read_state_then_length() {
    assert_eq!(get_response(vec![7, 2, 9]), Response { state: 7, length: 2 });
    assert_eq!(Command::MoveBox.code(), 0b0000_0010);
    assert_eq!(Command::Lighting.code(), 0b0000_0100);
    assert_eq!(Command::FlipPage.code(), 0b0000_1000);
}
