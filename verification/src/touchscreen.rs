//! Decisions of the native touchscreen shell around the controller: when a
//! requested `Exit` is confirmed, and when the window closes without it.
use std::time::Instant;
use vstd::prelude::*;

verus! {

/// `std::time::Instant`, a monotonic clock reading.
#[verifier::external_type_specification]
#[verifier::external_body]
pub struct ExInstant(Instant);

/// Seconds the shell waits for the controller to confirm `Exit`.
pub const EXIT_FALLBACK_TIMEOUT_SECS: u64 = 3;

/// Nanoseconds in [`EXIT_FALLBACK_TIMEOUT_SECS`].
pub const EXIT_FALLBACK_TIMEOUT_NANOS: u128 = 3_000_000_000;

/// The nanoseconds from the reading `earlier` to the reading `later`, or
/// zero where `later` is not after `earlier`.
pub uninterp spec fn nanos_between(earlier: Instant, later: Instant) -> u128;

/// `Instant::saturating_duration_since`, then `Duration::as_nanos`: the time
/// from `earlier` to `later` in nanoseconds, zero where `later` is not after
/// `earlier`. It reads no clock: the two readings alone decide it, so the
/// result is named by [`nanos_between`]; how it relates to the clock is not
/// stated.
#[verifier::external_body]
fn saturating_elapsed_nanos(earlier: Instant, later: Instant) -> (r: u128)
    ensures
        r == nanos_between(earlier, later),
{
    later.saturating_duration_since(earlier).as_nanos()
}

/// Whether the fallback deadline has passed after `elapsed_nanos`.
pub fn exit_fallback_due(elapsed_nanos: u128) -> (b: bool)
    ensures
        b == (elapsed_nanos >= EXIT_FALLBACK_TIMEOUT_NANOS),
{
    elapsed_nanos >= EXIT_FALLBACK_TIMEOUT_NANOS
}

/// Whether the controller failed to confirm `Exit` within the fallback
/// deadline counted from `requested_at`: whether at least
/// [`EXIT_FALLBACK_TIMEOUT_NANOS`] passed between the two readings.
pub fn exit_fallback_elapsed(requested_at: Instant, now: Instant) -> (b: bool)
    ensures
        b == (nanos_between(requested_at, now) >= EXIT_FALLBACK_TIMEOUT_NANOS),
{
    exit_fallback_due(saturating_elapsed_nanos(requested_at, now))
}

/// What the shell does with the exit control on one frame.
#[derive(Clone, Copy, Debug, PartialEq, Eq, Structural)]
pub enum ExitStep {
    /// Close the window now.
    Close,
    /// `Exit` was requested; keep waiting for the controller.
    Waiting,
    /// `Exit` was just accepted; remember when.
    Requested,
    /// Nothing to do.
    Idle,
}

/// The exit control's step: a controller that has exited, or a request
/// whose fallback deadline passed, closes the window; a click sends `Exit`,
/// and a controller that refuses it closes the window too.
pub open spec fn spec_exit_step(
    exited: bool,
    exit_requested: bool,
    fallback_elapsed: bool,
    exit_clicked: bool,
    intent_accepted: bool,
) -> ExitStep {
    if exited {
        ExitStep::Close
    } else if exit_requested {
        if fallback_elapsed {
            ExitStep::Close
        } else {
            ExitStep::Waiting
        }
    } else if exit_clicked {
        if intent_accepted {
            ExitStep::Requested
        } else {
            ExitStep::Close
        }
    } else {
        ExitStep::Idle
    }
}

/// Decides the exit control's step for one frame.
pub fn exit_step(
    exited: bool,
    exit_requested: bool,
    fallback_elapsed: bool,
    exit_clicked: bool,
    intent_accepted: bool,
) -> (s: ExitStep)
    ensures
        s == spec_exit_step(exited, exit_requested, fallback_elapsed, exit_clicked, intent_accepted),
{
    if exited {
        ExitStep::Close
    } else if exit_requested {
        if fallback_elapsed {
            ExitStep::Close
        } else {
            ExitStep::Waiting
        }
    } else if exit_clicked {
        if intent_accepted {
            ExitStep::Requested
        } else {
            ExitStep::Close
        }
    } else {
        ExitStep::Idle
    }
}

} // verus!
