//! Tests of the Monospace line classifier and outbound command validation.

use sans_core::monospace::protocol::{
    classify_line, validate_command_line, EventKind, InvalidCommandLine, LineKind,
};
use sans_core::FiniteNumbers;

/// The texts of a line that read as finite real numbers: every word and the
/// remainder after the first word, with trailing carriage returns removed.
fn finite_numbers(line: &str) -> FiniteNumbers {
    let line = line.trim_end_matches('\r');
    let mut texts: Vec<&str> = line.split_whitespace().collect();
    if let Some((_, rest)) = line.split_once(' ') {
        texts.push(rest);
    }
    FiniteNumbers {
        values: texts
            .into_iter()
            .filter(|text| text.parse::<f32>().map(f32::is_finite).unwrap_or(false))
            .map(str::to_string)
            .collect(),
    }
}

fn classify(line: &str) -> LineKind {
    classify_line(line, &finite_numbers(line))
}

fn pressure(kind: &LineKind) -> Option<f32> {
    match kind {
        LineKind::OkPress(text) | LineKind::Telemetry(text) => text.parse::<f32>().ok(),
        _ => None,
    }
}

#[test]
fn accepts_one_uppercase_command_without_control_bytes() {
    assert_eq!(validate_command_line("LED SET 1 20 255"), Ok(()));
    assert_eq!(validate_command_line("PRESS?"), Ok(()));
}

#[test]
fn rejects_command_injection_and_lowercase_wire_data() {
    assert_eq!(
        validate_command_line("VACUUM ON\nBLOWER ON"),
        Err(InvalidCommandLine::ControlByte)
    );
    assert_eq!(
        validate_command_line("VACUUM ON\0BLOWER ON"),
        Err(InvalidCommandLine::ControlByte)
    );
    assert_eq!(
        validate_command_line("vacuum on"),
        Err(InvalidCommandLine::Lowercase)
    );
}

#[test]
fn rejects_commands_that_exceed_the_firmware_buffer() {
    assert_eq!(validate_command_line(&"X".repeat(39)), Ok(()));
    assert_eq!(
        validate_command_line(&format!("{}VACUUM ON", "X".repeat(31))),
        Err(InvalidCommandLine::TooLong)
    );
    assert_eq!(
        validate_command_line(&"Ä".repeat(20)),
        Err(InvalidCommandLine::TooLong)
    );
}

#[test]
fn control_bytes_are_reported_before_lowercase_and_length() {
    assert_eq!(
        validate_command_line(&format!("{}\r", "x".repeat(50))),
        Err(InvalidCommandLine::ControlByte)
    );
    assert_eq!(
        validate_command_line(&"x".repeat(50)),
        Err(InvalidCommandLine::Lowercase)
    );
    assert_eq!(validate_command_line(""), Ok(()));
}

#[test]
fn classifies_ok() {
    assert_eq!(classify("OK"), LineKind::Okay);
    assert_eq!(classify("OK\r"), LineKind::Okay);
}

#[test]
fn classifies_ok_press() {
    let kind = classify("OK 1013.25");
    assert!(matches!(kind, LineKind::OkPress(_)));
    assert_eq!(pressure(&kind), Some(1013.25));
}

#[test]
fn classifies_telemetry() {
    let kind = classify("PRESS 1013.25");
    assert!(matches!(kind, LineKind::Telemetry(_)));
    assert_eq!(pressure(&kind), Some(1013.25));
}

#[test]
fn classifies_event() {
    assert_eq!(
        classify("EVENT BUTTON PRESSED"),
        LineKind::Event(EventKind::ButtonPressed)
    );
    assert_eq!(
        classify("EVENT BUTTON PRESSED\r"),
        LineKind::Event(EventKind::ButtonPressed)
    );
    assert_eq!(
        classify("EVENT BUTTON RELEASED"),
        LineKind::Event(EventKind::Unknown("BUTTON RELEASED".to_string()))
    );
}

#[test]
fn classifies_err() {
    assert_eq!(
        classify("ERR UNKNOWN_COMMAND"),
        LineKind::Error("UNKNOWN_COMMAND".to_string())
    );
}

#[test]
fn classifies_malformed() {
    assert_eq!(
        classify("PRESS not_a_number"),
        LineKind::Malformed("PRESS not_a_number".to_string())
    );
    assert_eq!(classify(""), LineKind::Malformed("".to_string()));
    assert_eq!(
        classify("garbage"),
        LineKind::Malformed("garbage".to_string())
    );
    assert_eq!(
        classify("PRESS NaN"),
        LineKind::Malformed("PRESS NaN".to_string())
    );
    assert_eq!(
        classify("OK inf"),
        LineKind::Malformed("OK inf".to_string())
    );
}

#[test]
fn every_trailing_carriage_return_is_tolerated() {
    assert_eq!(classify("OK\r\r"), LineKind::Okay);
    assert_eq!(
        classify("ERR BUSY\r"),
        LineKind::Error("BUSY".to_string())
    );
}
