//! Tests of the diagnostic console's reading of typed lines.

use sans_core::monospace::client::Output;
use sans_core::monospace::console::{console_command, read_command, ConsoleCommand};

#[test]
fn typed_lines_are_trimmed_and_uppercased() {
    assert_eq!(console_command("  vacuum on \n"), ConsoleCommand::Switch(Output::Vacuum, true));
    assert_eq!(console_command("fan off"), ConsoleCommand::Switch(Output::Fan, false));
    assert_eq!(console_command("BLOWER ON"), ConsoleCommand::Switch(Output::Blower, true));
    assert_eq!(console_command("light off"), ConsoleCommand::Switch(Output::Light, false));
    assert_eq!(console_command("all off"), ConsoleCommand::AllOff);
    assert_eq!(console_command("press?"), ConsoleCommand::PressOnce);
    assert_eq!(console_command("press start"), ConsoleCommand::PressStart);
    assert_eq!(console_command("Press Stop"), ConsoleCommand::PressStop);
}

#[test]
fn blank_lines_do_nothing() {
    assert_eq!(console_command(""), ConsoleCommand::Nothing);
    assert_eq!(console_command("   \t\n"), ConsoleCommand::Nothing);
}

#[test]
fn led_alias_takes_three_byte_values() {
    assert_eq!(console_command("led 255 0 0"), ConsoleCommand::Led(255, 0, 0));
    assert_eq!(console_command("led 256 0 0"), ConsoleCommand::LedUsage);
    assert_eq!(console_command("led red 0 0"), ConsoleCommand::LedUsage);
    assert_eq!(
        console_command("led set 1 2"),
        ConsoleCommand::Raw("LED SET 1 2".to_string())
    );
}

#[test]
fn anything_else_goes_to_the_wire_raw() {
    assert_eq!(console_command("frobnicate"), ConsoleCommand::Raw("FROBNICATE".to_string()));
    assert_eq!(console_command("straße"), ConsoleCommand::Raw("STRASSE".to_string()));
}

#[test]
fn uppercased_lines_are_read_without_further_changes() {
    assert_eq!(read_command("VACUUM ON".to_string()), ConsoleCommand::Switch(Output::Vacuum, true));
    assert_eq!(read_command("LED 1 2 3".to_string()), ConsoleCommand::Led(1, 2, 3));
    assert_eq!(read_command(String::new()), ConsoleCommand::Nothing);
    assert_eq!(read_command("PING".to_string()), ConsoleCommand::Raw("PING".to_string()));
}
