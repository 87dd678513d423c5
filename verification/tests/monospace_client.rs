//! Tests of the Monospace client and reader decisions.

use sans_core::monospace::client::{
    begin_step, check_command, end_of_stream_step, interpret_ok_reply, interpret_press_reply,
    led_command, next_readiness_timeout, read_failure_step, reader_step, retired_error,
    settle_reply, switch_command, urgent_step, BeginStep, ConnectionEpoch, HwError, OkReply,
    Output, PressReply, ReadFailureAction, ReaderAction, ReaderReply, ReplyCleanup, ReplyReceipt,
    UrgentStep,
};
use sans_core::monospace::connection::{ConnectionState, ConnectionStatus};
use sans_core::monospace::protocol::{EventKind, LineKind};
use sans_core::FiniteNumbers;

fn active() -> ConnectionState {
    ConnectionState::active()
}

fn awaiting() -> ConnectionState {
    ConnectionState { status: ConnectionStatus::Active, pending_response: true }
}

#[test]
fn an_unsolicited_reply_poisons_an_idle_connection() {
    let mut state = active();
    assert_eq!(reader_step(&mut state, &LineKind::Okay), ReaderAction::PoisonUnexpected);
    assert_eq!(state.status, ConnectionStatus::Poisoned);
    assert_eq!(
        reader_step(&mut state, &LineKind::Okay),
        ReaderAction::IgnoreStale
    );
}

#[test]
fn the_awaited_reply_is_delivered_once() {
    let mut state = awaiting();
    assert_eq!(
        reader_step(&mut state, &LineKind::Error("RELAY_FAULT".to_string())),
        ReaderAction::Deliver
    );
    assert_eq!(state, active());
    assert_eq!(reader_step(&mut state, &LineKind::Okay), ReaderAction::PoisonUnexpected);
}

#[test]
fn telemetry_and_events_bypass_correlation() {
    let mut state = awaiting();
    assert_eq!(
        reader_step(&mut state, &LineKind::Telemetry("1000".to_string())),
        ReaderAction::StorePressure
    );
    assert_eq!(
        reader_step(&mut state, &LineKind::Event(EventKind::ButtonPressed)),
        ReaderAction::ForwardButton
    );
    assert_eq!(
        reader_step(&mut state, &LineKind::Event(EventKind::Unknown("X".to_string()))),
        ReaderAction::ForwardUnknownEvent
    );
    assert_eq!(state, awaiting());
    assert_eq!(
        reader_step(&mut state, &LineKind::Malformed("garbage".to_string())),
        ReaderAction::PoisonMalformed
    );
    assert_eq!(state.status, ConnectionStatus::Poisoned);
    assert!(!state.pending_response);
}

#[test]
fn lines_after_retirement_are_ignored() {
    let mut state = active();
    state.retire();
    assert_eq!(
        reader_step(&mut state, &LineKind::Event(EventKind::ButtonPressed)),
        ReaderAction::IgnoreStale
    );
    assert_eq!(read_failure_step(&mut state), ReadFailureAction::IgnoreStale);
    assert!(!end_of_stream_step(&mut state));
    assert_eq!(state.status, ConnectionStatus::Retired);
}

#[test]
fn read_failures_report_a_fault_only_once() {
    let mut state = active();
    assert_eq!(read_failure_step(&mut state), ReadFailureAction::ReportFaultAndDisconnect);
    assert_eq!(read_failure_step(&mut state), ReadFailureAction::ReportDisconnect);
    assert!(end_of_stream_step(&mut state));
}

#[test]
fn a_second_command_while_one_is_pending_is_ambiguous() {
    let mut state = active();
    assert_eq!(begin_step(&mut state), BeginStep::Proceed);
    assert_eq!(state, awaiting());
    assert_eq!(begin_step(&mut state), BeginStep::Ambiguous { reported: true });
    assert_eq!(state.status, ConnectionStatus::Poisoned);
    assert_eq!(begin_step(&mut state), BeginStep::Retired);
}

#[test]
fn a_retired_connection_reports_what_the_reader_left() {
    assert!(matches!(
        retired_error(Some(ReaderReply::Line("OK".to_string())), ConnectionEpoch(3)),
        HwError::UnexpectedReply(ref r) if r == "OK"
    ));
    assert!(matches!(
        retired_error(None, ConnectionEpoch(3)),
        HwError::Poisoned(3)
    ));
    assert_eq!(
        retired_error(None, ConnectionEpoch(3)).message(),
        "Monospace connection epoch 3 is poisoned"
    );
}

#[test]
fn reply_waits_end_in_one_result() {
    let (cleanup, result) = settle_reply(ReplyReceipt::Received(ReaderReply::Line("OK".to_string())));
    assert_eq!(cleanup, ReplyCleanup::Keep);
    assert_eq!(result.unwrap(), "OK");
    let (cleanup, result) = settle_reply(ReplyReceipt::TimedOut);
    assert_eq!(cleanup, ReplyCleanup::PoisonOnTimeout);
    assert!(matches!(result, Err(HwError::ReplyTimeout)));
    let (cleanup, result) = settle_reply(ReplyReceipt::ChannelClosed);
    assert_eq!(cleanup, ReplyCleanup::PoisonAndClose);
    assert!(matches!(result, Err(HwError::Disconnected)));
    let (cleanup, result) =
        settle_reply(ReplyReceipt::Received(ReaderReply::Malformed("bad".to_string())));
    assert_eq!(cleanup, ReplyCleanup::AllOffAndClose);
    assert!(matches!(result, Err(HwError::MalformedFrame(ref f)) if f == "bad"));
}

#[test]
fn firmware_errors_are_reported_without_poisoning() {
    assert!(matches!(interpret_ok_reply("OK"), OkReply::Acknowledged));
    assert!(matches!(
        interpret_ok_reply("ERR RELAY_FAULT"),
        OkReply::Firmware(ref r) if r == "RELAY_FAULT"
    ));
    assert!(matches!(
        interpret_ok_reply("OK 1013.25"),
        OkReply::Unexpected(ref r) if r == "OK 1013.25"
    ));
    assert!(matches!(
        interpret_ok_reply("ERR"),
        OkReply::Unexpected(ref r) if r == "ERR"
    ));
}

#[test]
fn pressure_replies_carry_a_finite_reading() {
    let numbers = FiniteNumbers { values: vec!["1013.25".to_string()] };
    assert!(matches!(
        interpret_press_reply("OK 1013.25", &numbers),
        PressReply::Pressure(ref p) if p == "1013.25"
    ));
    assert!(matches!(
        interpret_press_reply("ERR SENSOR", &numbers),
        PressReply::Firmware(ref r) if r == "SENSOR"
    ));
    assert!(matches!(
        interpret_press_reply("OK", &numbers),
        PressReply::Unexpected(ref r) if r == "OK"
    ));
}

#[test]
fn commands_are_spelled_for_the_firmware() {
    assert_eq!(switch_command(Output::Vacuum, true), "VACUUM ON");
    assert_eq!(switch_command(Output::Fan, false), "FAN OFF");
    assert_eq!(switch_command(Output::Blower, true), "BLOWER ON");
    assert_eq!(switch_command(Output::Light, false), "LIGHT OFF");
    assert_eq!(led_command(1, 20, 255), "LED SET 1 20 255");
    assert!(check_command(&led_command(1, 20, 255)).is_ok());
    assert!(matches!(
        check_command("vacuum on"),
        Err(HwError::InvalidCommand(ref r)) if r == "lowercase wire data"
    ));
    assert!(matches!(
        check_command(&"X".repeat(40)),
        Err(HwError::InvalidCommand(ref r)) if r == "more than 39 bytes"
    ));
    assert!(matches!(
        check_command("A\nB"),
        Err(HwError::InvalidCommand(ref r)) if r == "embedded CR, LF, or NUL"
    ));
}

#[test]
fn readiness_commands_share_the_open_deadline() {
    assert_eq!(next_readiness_timeout(Some(50), 100).unwrap(), 50);
    assert_eq!(next_readiness_timeout(Some(500), 100).unwrap(), 100);
    assert!(matches!(next_readiness_timeout(Some(0), 100), Err(HwError::DeviceOpenTimeout)));
    assert!(matches!(next_readiness_timeout(None, 100), Err(HwError::DeviceOpenTimeout)));
}

#[test]
fn the_urgent_writer_poisons_before_writing() {
    let mut state = awaiting();
    assert_eq!(urgent_step(&mut state), UrgentStep::WriteAndReport);
    assert_eq!(state.status, ConnectionStatus::Poisoned);
    assert_eq!(urgent_step(&mut state), UrgentStep::Refuse);
}
