//! Tests of the touchscreen shell's exit decisions.

use std::time::{Duration, Instant};

use sans_core::touchscreen::{
    exit_fallback_due, exit_fallback_elapsed, exit_step, ExitStep, EXIT_FALLBACK_TIMEOUT_SECS,
};

const EXIT_FALLBACK_TIMEOUT: Duration = Duration::from_secs(EXIT_FALLBACK_TIMEOUT_SECS);

#[test]
fn exit_fallback_closes_after_controller_deadline() {
    let requested_at = Instant::now();

    assert!(!exit_fallback_elapsed(
        requested_at,
        requested_at + EXIT_FALLBACK_TIMEOUT - Duration::from_millis(1)
    ));
    assert!(exit_fallback_elapsed(
        requested_at,
        requested_at + EXIT_FALLBACK_TIMEOUT
    ));
}

#[test]
fn a_clock_reading_before_the_request_has_not_elapsed() {
    let requested_at = Instant::now() + Duration::from_secs(10);
    assert!(!exit_fallback_elapsed(requested_at, Instant::now()));
}

#[test]
fn the_fallback_deadline_is_three_seconds() {
    assert!(!exit_fallback_due(2_999_999_999));
    assert!(exit_fallback_due(3_000_000_000));
}

#[test]
fn exit_control_steps() {
    assert_eq!(exit_step(true, false, false, false, false), ExitStep::Close);
    assert_eq!(exit_step(false, true, true, false, false), ExitStep::Close);
    assert_eq!(exit_step(false, true, false, true, true), ExitStep::Waiting);
    assert_eq!(exit_step(false, false, false, true, true), ExitStep::Requested);
    assert_eq!(exit_step(false, false, false, true, false), ExitStep::Close);
    assert_eq!(exit_step(false, false, false, false, false), ExitStep::Idle);
}
