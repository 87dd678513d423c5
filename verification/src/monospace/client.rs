//! Decisions of the Monospace command client and its reader thread.
//!
//! The serial I/O, the reader thread and the channels stay with the caller;
//! each function here takes what that I/O produced and the shared
//! [`ConnectionState`], and says what happens next.
use vstd::prelude::*;
use vstd::string::StringExecFns;
use crate::text::{decimal, push_decimal};
use super::connection::{BeginCommandError, ConnectionState, ConnectionStatus, ResponseDisposition};
use super::protocol::{
    classify_line, spec_classify_line, validate_command_line, spec_validate_command_line,
    EventKind, InvalidCommandLine, LineKind, LineKindView, MAX_COMMAND_BYTES,
};
use crate::ligature::protocol::FiniteNumbers;

verus! {

broadcast use vstd::string::group_string_axioms;

/// The fixed baud rate implemented by the Monospace text protocol.
pub const MONOSPACE_BAUD_RATE: u32 = 115_200;

/// Switches off vacuum, flutter fan and turn blower; the first readiness command.
pub const ALL_OFF_COMMAND: &'static str = "ALL OFF";

/// Stops pressure streaming; the second readiness command.
pub const PRESS_STOP_COMMAND: &'static str = "PRESS STOP";

/// `std::io::Error`, a host-side I/O failure carried through unchanged.
#[verifier::external_type_specification]
#[verifier::external_body]
pub struct ExIoError(std::io::Error);

/// Identity assigned to one Monospace serial connection.
#[derive(Clone, Copy, Debug, PartialEq, Eq, Hash, Structural)]
pub struct ConnectionEpoch(pub u64);

impl ConnectionEpoch {
    /// Numeric epoch value for diagnostics and logs.
    pub fn get(self) -> (n: u64)
        ensures
            n == self.0,
    {
        self.0
    }
}

/// Fault details suitable for controller diagnostics.
#[derive(Clone, Debug, PartialEq, Eq)]
pub enum MonospaceFault {
    /// The reader received a line outside the public protocol grammar.
    MalformedFrame(String),
    /// An ordinary command did not receive a response before its deadline.
    ReplyTimeout,
    /// A response was valid protocol data but wrong for the pending command.
    UnexpectedReply(String),
    /// A separate urgent write made the untagged reply order unknowable.
    AmbiguousUrgentWrite,
    /// Reading from or writing to the serial device failed.
    SerialIo(String),
}

/// Monospace events forwarded to the Machine controller.
#[derive(Clone, Debug, PartialEq, Eq)]
pub enum MonospaceEventKind {
    /// Latest streamed pressure sample in millibar, as its finite wire text.
    /// Samples may be coalesced.
    Pressure(String),
    /// The debounced physical button was pressed.
    ButtonPressed,
    /// A future firmware event that is not a button intent.
    UnknownEvent(String),
    /// The serial connection ended.
    Disconnected,
    /// A protocol or correlation failure retired the connection.
    Fault(MonospaceFault),
}

/// Typed event emitted by the Monospace reader thread.
#[derive(Clone, Debug, PartialEq, Eq)]
pub struct MonospaceEvent {
    /// Connection that produced the event.
    pub epoch: ConnectionEpoch,
    /// Classified event payload.
    pub kind: MonospaceEventKind,
}

/// A failure of the Monospace client.
#[derive(Debug)]
pub enum HwError {
    /// Host-side serial I/O failed.
    Io(std::io::Error),
    /// The serial device or its reader thread could not be opened.
    Device(String),
    /// The configured live-device opening deadline elapsed before readiness.
    DeviceOpenTimeout,
    /// Outbound data was not one uppercase command line.
    InvalidCommand(String),
    /// Firmware rejected a well-correlated command.
    Firmware(String),
    /// No response arrived before the configured deadline.
    ReplyTimeout,
    /// An inbound line did not match the public protocol grammar.
    MalformedFrame(String),
    /// A valid response did not match the pending typed command.
    UnexpectedReply(String),
    /// The reader observed EOF or lost its response channel.
    Disconnected,
    /// The caller tried to reuse a retired response FIFO.
    Poisoned(u64),
    /// A separate urgent write made the untagged reply order unknowable.
    AmbiguousUrgentWrite,
}

/// `<std::io::Error as Display>::to_string`: the platform's description of
/// an I/O failure, which depends on the operating system, so nothing is
/// stated of it.
#[verifier::external_body]
fn io_error_text(e: &std::io::Error) -> String {
    e.to_string()
}

/// The operator-facing text of a client failure other than host I/O.
pub open spec fn hw_error_message(e: HwError) -> Seq<char> {
    match e {
        HwError::Io(_) => Seq::empty(),
        HwError::Device(s) => "Monospace device error: "@ + s@,
        HwError::DeviceOpenTimeout => "Monospace did not become ready before the device-open deadline"@,
        HwError::InvalidCommand(s) => "invalid Monospace command: "@ + s@,
        HwError::Firmware(s) => "Monospace firmware error: "@ + s@,
        HwError::ReplyTimeout => "Monospace did not reply before the deadline"@,
        HwError::MalformedFrame(s) => "malformed Monospace frame: "@ + s@,
        HwError::UnexpectedReply(s) => "unexpected Monospace reply: "@ + s@,
        HwError::Disconnected => "Monospace disconnected"@,
        HwError::Poisoned(n) => "Monospace connection epoch "@ + decimal(n as nat) + " is poisoned"@,
        HwError::AmbiguousUrgentWrite => "urgent Monospace writing made response correlation ambiguous"@,
    }
}

impl HwError {
    /// The operator-facing text of the failure; host I/O failures read as
    /// the platform describes them.
    pub fn message(&self) -> (s: String)
        ensures
            !(self is Io) ==> s@ == hw_error_message(*self),
    {
        let mut s = String::new();
        match self {
            HwError::Io(e) => {
                s = io_error_text(e);
            },
            HwError::Device(d) => {
                s.append("Monospace device error: ");
                s.append(d.as_str());
            },
            HwError::DeviceOpenTimeout => {
                s.append("Monospace did not become ready before the device-open deadline");
            },
            HwError::InvalidCommand(d) => {
                s.append("invalid Monospace command: ");
                s.append(d.as_str());
            },
            HwError::Firmware(d) => {
                s.append("Monospace firmware error: ");
                s.append(d.as_str());
            },
            HwError::ReplyTimeout => {
                s.append("Monospace did not reply before the deadline");
            },
            HwError::MalformedFrame(d) => {
                s.append("malformed Monospace frame: ");
                s.append(d.as_str());
            },
            HwError::UnexpectedReply(d) => {
                s.append("unexpected Monospace reply: ");
                s.append(d.as_str());
            },
            HwError::Disconnected => {
                s.append("Monospace disconnected");
            },
            HwError::Poisoned(n) => {
                s.append("Monospace connection epoch ");
                push_decimal(&mut s, *n);
                s.append(" is poisoned");
            },
            HwError::AmbiguousUrgentWrite => {
                s.append("urgent Monospace writing made response correlation ambiguous");
            },
        }
        assert(!(*self is Io) ==> s@ =~= hw_error_message(*self));
        s
    }
}

/// Why an outbound line was refused, as the client reports it.
pub open spec fn invalid_command_text(reason: InvalidCommandLine) -> Seq<char> {
    match reason {
        InvalidCommandLine::ControlByte => "embedded CR, LF, or NUL"@,
        InvalidCommandLine::Lowercase => "lowercase wire data"@,
        InvalidCommandLine::TooLong => "more than "@ + decimal(MAX_COMMAND_BYTES as nat) + " bytes"@,
    }
}

/// Checks an outbound line before anything is written: one uppercase
/// command without control bytes that fits the firmware buffer.
pub fn check_command(line: &str) -> (r: Result<(), HwError>)
    ensures
        match spec_validate_command_line(line@, line.len() as nat) {
            Ok(()) => r is Ok,
            Err(reason) => r matches Err(HwError::InvalidCommand(t)) && t@ == invalid_command_text(
                reason,
            ),
        },
{
    match validate_command_line(line) {
        Ok(()) => Ok(()),
        Err(reason) => {
            let text = match reason {
                InvalidCommandLine::ControlByte => "embedded CR, LF, or NUL".to_owned(),
                InvalidCommandLine::Lowercase => "lowercase wire data".to_owned(),
                InvalidCommandLine::TooLong => {
                    let mut t = "more than ".to_owned();
                    push_decimal(&mut t, MAX_COMMAND_BYTES as u64);
                    t.append(" bytes");
                    t
                },
            };
            Err(HwError::InvalidCommand(text))
        },
    }
}

/// What the reader does with one received line.
#[derive(Clone, Copy, Debug, PartialEq, Eq, Structural)]
pub enum ReaderAction {
    /// The connection no longer correlates replies: the line is dropped and
    /// reading stops.
    IgnoreStale,
    /// Keep the line's pressure as the newest sample.
    StorePressure,
    /// Forward a button press; stop reading if nobody listens.
    ForwardButton,
    /// Forward an unknown event; stop reading if nobody listens.
    ForwardUnknownEvent,
    /// The line broke the grammar: report the fault, switch everything off,
    /// answer the pending command with it, and stop.
    PoisonMalformed,
    /// A reply nobody awaited: report it, switch everything off, answer with
    /// it, and stop.
    PoisonUnexpected,
    /// Deliver the reply to the pending command.
    Deliver,
}

/// The reader's step for one classified line: the state after it and the action.
pub open spec fn spec_reader_step(s: ConnectionState, kind: LineKindView) -> (ConnectionState, ReaderAction) {
    if s.status != ConnectionStatus::Active {
        (s, ReaderAction::IgnoreStale)
    } else {
        match kind {
            LineKindView::Telemetry(_) => (s, ReaderAction::StorePressure),
            LineKindView::ButtonPressed => (s, ReaderAction::ForwardButton),
            LineKindView::UnknownEvent(_) => (s, ReaderAction::ForwardUnknownEvent),
            LineKindView::Malformed(_) => (
                ConnectionState { status: ConnectionStatus::Poisoned, pending_response: false },
                ReaderAction::PoisonMalformed,
            ),
            _ => if s.pending_response {
                (ConnectionState { pending_response: false, ..s }, ReaderAction::Deliver)
            } else {
                (
                    ConnectionState { status: ConnectionStatus::Poisoned, ..s },
                    ReaderAction::PoisonUnexpected,
                )
            },
        }
    }
}

/// Decides what the reader does with one classified line.
pub fn reader_step(state: &mut ConnectionState, kind: &LineKind) -> (a: ReaderAction)
    ensures
        (*final(state), a) == spec_reader_step(*old(state), kind@),
{
    if !state.is_active() {
        return ReaderAction::IgnoreStale;
    }
    match kind {
        LineKind::Telemetry(_) => ReaderAction::StorePressure,
        LineKind::Event(EventKind::ButtonPressed) => ReaderAction::ForwardButton,
        LineKind::Event(EventKind::Unknown(_)) => ReaderAction::ForwardUnknownEvent,
        LineKind::Malformed(_) => {
            state.poison();
            ReaderAction::PoisonMalformed
        },
        _ => match state.route_response() {
            ResponseDisposition::Accepted => ReaderAction::Deliver,
            ResponseDisposition::Unsolicited => ReaderAction::PoisonUnexpected,
            ResponseDisposition::Retired => ReaderAction::IgnoreStale,
        },
    }
}

/// What the reader reports after a failed read.
#[derive(Clone, Copy, Debug, PartialEq, Eq, Structural)]
pub enum ReadFailureAction {
    /// The client already retired the connection: log and stop.
    IgnoreStale,
    /// Report the serial fault and switch everything off, then report the
    /// disconnect.
    ReportFaultAndDisconnect,
    /// The connection was already poisoned: report only the disconnect.
    ReportDisconnect,
}

/// Decides the reader's report after a failed read; the connection is poisoned.
pub fn read_failure_step(state: &mut ConnectionState) -> (a: ReadFailureAction)
    ensures
        old(state).status == ConnectionStatus::Retired ==> a == ReadFailureAction::IgnoreStale,
        old(state).status == ConnectionStatus::Active ==> a
            == ReadFailureAction::ReportFaultAndDisconnect,
        old(state).status == ConnectionStatus::Poisoned ==> a == ReadFailureAction::ReportDisconnect,
        old(state).status == ConnectionStatus::Active ==> *final(state) == (ConnectionState {
            status: ConnectionStatus::Poisoned,
            pending_response: false,
        }),
        old(state).status != ConnectionStatus::Active ==> *final(state) == *old(state),
{
    match state.poison_and_get_previous() {
        ConnectionStatus::Retired => ReadFailureAction::IgnoreStale,
        ConnectionStatus::Active => ReadFailureAction::ReportFaultAndDisconnect,
        ConnectionStatus::Poisoned => ReadFailureAction::ReportDisconnect,
    }
}

/// Decides whether the end of the stream is forwarded as a disconnect: it is
/// unless the client already retired the connection. The connection is poisoned.
pub fn end_of_stream_step(state: &mut ConnectionState) -> (forward: bool)
    ensures
        forward == (old(state).status != ConnectionStatus::Retired),
        old(state).status == ConnectionStatus::Active ==> *final(state) == (ConnectionState {
            status: ConnectionStatus::Poisoned,
            pending_response: false,
        }),
        old(state).status != ConnectionStatus::Active ==> *final(state) == *old(state),
{
    state.poison_and_get_previous() != ConnectionStatus::Retired
}

/// What the reader handed the client for its pending command.
pub enum ReaderReply {
    /// The reply line.
    Line(String),
    /// The reader poisoned the connection on this malformed frame.
    Malformed(String),
    /// The reader poisoned the connection on this unsolicited reply.
    Unexpected(String),
    /// The stream ended.
    Disconnected,
}

/// The error for a command on a connection that no longer correlates: what
/// the reader left behind, else that the epoch is poisoned.
pub fn retired_error(left_behind: Option<ReaderReply>, epoch: ConnectionEpoch) -> (e: HwError)
    ensures
        match left_behind {
            Some(ReaderReply::Malformed(f)) => e matches HwError::MalformedFrame(x) && x@ == f@,
            Some(ReaderReply::Unexpected(r)) => e matches HwError::UnexpectedReply(x) && x@ == r@,
            Some(ReaderReply::Disconnected) => e is Disconnected,
            Some(ReaderReply::Line(r)) => e matches HwError::UnexpectedReply(x) && x@ == r@,
            None => e matches HwError::Poisoned(n) && n == epoch.0,
        },
{
    match left_behind {
        Some(ReaderReply::Malformed(frame)) => HwError::MalformedFrame(frame),
        Some(ReaderReply::Unexpected(reply)) => HwError::UnexpectedReply(reply),
        Some(ReaderReply::Disconnected) => HwError::Disconnected,
        Some(ReaderReply::Line(reply)) => HwError::UnexpectedReply(reply),
        None => HwError::Poisoned(epoch.0),
    }
}

/// How a command may proceed on the shared connection.
#[derive(Clone, Copy, Debug, PartialEq, Eq, Structural)]
pub enum BeginStep {
    /// The command may be written; its reply is now awaited.
    Proceed,
    /// The connection no longer correlates; report [`retired_error`].
    Retired,
    /// A reply was already awaited: correlation is ambiguous, the connection
    /// is poisoned and everything is switched off. `reported` says whether
    /// this call poisoned it, so the fault is forwarded.
    Ambiguous { reported: bool },
}

/// Starts one ordinary command on the shared connection.
pub fn begin_step(state: &mut ConnectionState) -> (b: BeginStep)
    ensures
        old(state).status != ConnectionStatus::Active ==> b == BeginStep::Retired && *final(state)
            == *old(state),
        old(state).status == ConnectionStatus::Active && old(state).pending_response ==> b
            == (BeginStep::Ambiguous { reported: true }) && *final(state) == (ConnectionState {
            status: ConnectionStatus::Poisoned,
            pending_response: false,
        }),
        old(state).status == ConnectionStatus::Active && !old(state).pending_response ==> b
            == BeginStep::Proceed && *final(state) == (ConnectionState {
            status: ConnectionStatus::Active,
            pending_response: true,
        }),
{
    match state.begin_command() {
        Ok(()) => BeginStep::Proceed,
        Err(BeginCommandError::NotActive) => BeginStep::Retired,
        Err(BeginCommandError::AlreadyPending) => {
            let reported = state.poison();
            BeginStep::Ambiguous { reported }
        },
    }
}

/// How the wait for a reply ended.
pub enum ReplyReceipt {
    /// The reader handed over this reply.
    Received(ReaderReply),
    /// The deadline passed.
    TimedOut,
    /// The reader's channel closed.
    ChannelClosed,
}

/// What the client does to the connection after the wait for a reply.
#[derive(Clone, Copy, Debug, PartialEq, Eq, Structural)]
pub enum ReplyCleanup {
    /// Nothing: the reply is returned.
    Keep,
    /// Switch everything off and close the writer; the reader already
    /// poisoned the connection.
    AllOffAndClose,
    /// Poison the connection and close the writer.
    PoisonAndClose,
    /// Poison the connection with a reply timeout, reporting it, and close
    /// the writer without writing anything more.
    PoisonOnTimeout,
}

/// The result of the wait for a reply and the cleanup it calls for.
pub fn settle_reply(receipt: ReplyReceipt) -> (r: (ReplyCleanup, Result<String, HwError>))
    ensures
        match receipt {
            ReplyReceipt::Received(ReaderReply::Line(l)) => r.0 == ReplyCleanup::Keep && (r.1 matches Ok(x) && x@ == l@),
            ReplyReceipt::Received(ReaderReply::Malformed(f)) => r.0 == ReplyCleanup::AllOffAndClose
                && (r.1 matches Err(HwError::MalformedFrame(x)) && x@ == f@),
            ReplyReceipt::Received(ReaderReply::Unexpected(u)) => r.0 == ReplyCleanup::AllOffAndClose
                && (r.1 matches Err(HwError::UnexpectedReply(x)) && x@ == u@),
            ReplyReceipt::Received(ReaderReply::Disconnected) => r.0 == ReplyCleanup::PoisonAndClose
                && (r.1 matches Err(HwError::Disconnected)),
            ReplyReceipt::TimedOut => r.0 == ReplyCleanup::PoisonOnTimeout && (r.1 matches Err(
                HwError::ReplyTimeout,
            )),
            ReplyReceipt::ChannelClosed => r.0 == ReplyCleanup::PoisonAndClose && (r.1 matches Err(
                HwError::Disconnected,
            )),
        },
{
    match receipt {
        ReplyReceipt::Received(ReaderReply::Line(reply)) => (ReplyCleanup::Keep, Ok(reply)),
        ReplyReceipt::Received(ReaderReply::Malformed(frame)) => (
            ReplyCleanup::AllOffAndClose,
            Err(HwError::MalformedFrame(frame)),
        ),
        ReplyReceipt::Received(ReaderReply::Unexpected(reply)) => (
            ReplyCleanup::AllOffAndClose,
            Err(HwError::UnexpectedReply(reply)),
        ),
        ReplyReceipt::Received(ReaderReply::Disconnected) => (
            ReplyCleanup::PoisonAndClose,
            Err(HwError::Disconnected),
        ),
        ReplyReceipt::TimedOut => (ReplyCleanup::PoisonOnTimeout, Err(HwError::ReplyTimeout)),
        ReplyReceipt::ChannelClosed => (ReplyCleanup::PoisonAndClose, Err(HwError::Disconnected)),
    }
}

/// The meaning of the reply to a command that expects a bare `OK`.
pub enum OkReply {
    /// Exactly `OK`.
    Acknowledged,
    /// `ERR <reason>`: the firmware refused a well-correlated command.
    Firmware(String),
    /// Anything else: the connection is poisoned with it.
    Unexpected(String),
}

/// Interprets the reply to a command that expects a bare `OK`.
pub fn interpret_ok_reply(reply: &str) -> (r: OkReply)
    ensures
        reply@ == "OK"@ ==> r is Acknowledged,
        reply@ != "OK"@ && reply@.len() >= 4 && reply@.take(4) == "ERR "@ ==> (r matches OkReply::Firmware(x) && x@ == reply@.skip(4)),
        reply@ != "OK"@ && !(reply@.len() >= 4 && reply@.take(4) == "ERR "@) ==> (r matches OkReply::Unexpected(x) && x@ == reply@),
{
    proof {
        reveal_strlit("OK");
        reveal_strlit("ERR ");
    }
    let chars = crate::text::chars_of(reply);
    if crate::text::chars_are(chars.as_slice(), "OK") {
        return OkReply::Acknowledged;
    }
    if chars.len() >= 4 && chars[0] == 'E' && chars[1] == 'R' && chars[2] == 'R' && chars[3] == ' ' {
        assert(chars@.take(4) =~= "ERR "@);
        let mut rest: Vec<char> = Vec::new();
        let mut i: usize = 4;
        while i < chars.len()
            invariant
                4 <= i <= chars@.len(),
                rest@ == chars@.subrange(4, i as int),
            decreases chars@.len() - i,
        {
            rest.push(chars[i]);
            i = i + 1;
            assert(rest@ =~= chars@.subrange(4, i as int));
        }
        assert(rest@ =~= chars@.skip(4));
        return OkReply::Firmware(crate::text::string_of(rest.as_slice()));
    }
    assert(!(chars@.len() >= 4 && chars@.take(4) == "ERR "@)) by {
        if chars@.len() >= 4 && chars@.take(4) == "ERR "@ {
            assert(chars@.take(4)[0] == 'E');
            assert(chars@.take(4)[1] == 'R');
            assert(chars@.take(4)[2] == 'R');
            assert(chars@.take(4)[3] == ' ');
        }
    }
    OkReply::Unexpected(reply.to_owned())
}

/// The meaning of the reply to `PRESS?`.
pub enum PressReply {
    /// `OK <mbar>` with a finite pressure, as its wire text.
    Pressure(String),
    /// `ERR <reason>`.
    Firmware(String),
    /// Anything else: the connection is poisoned with it.
    Unexpected(String),
}

/// Interprets the reply to `PRESS?`; `numbers` lists the texts that read as
/// finite numbers.
pub fn interpret_press_reply(reply: &str, numbers: &FiniteNumbers) -> (r: PressReply)
    ensures
        match spec_classify_line(reply@, numbers@) {
            LineKindView::OkPress(t) => r matches PressReply::Pressure(x) && x@ == t,
            LineKindView::Error(t) => r matches PressReply::Firmware(x) && x@ == t,
            _ => r matches PressReply::Unexpected(x) && x@ == reply@,
        },
{
    match classify_line(reply, numbers) {
        LineKind::OkPress(t) => PressReply::Pressure(t),
        LineKind::Error(reason) => PressReply::Firmware(reason),
        _ => PressReply::Unexpected(reply.to_owned()),
    }
}

/// An on/off output of the relay board.
#[derive(Clone, Copy, Debug, PartialEq, Eq, Structural)]
pub enum Output {
    /// The vacuum pump.
    Vacuum,
    /// The flutter fan.
    Fan,
    /// The turn blower.
    Blower,
    /// The capture light.
    Light,
}

/// The command that switches an output on or off.
pub open spec fn spec_switch_command(output: Output, on: bool) -> Seq<char> {
    match (output, on) {
        (Output::Vacuum, true) => "VACUUM ON"@,
        (Output::Vacuum, false) => "VACUUM OFF"@,
        (Output::Fan, true) => "FAN ON"@,
        (Output::Fan, false) => "FAN OFF"@,
        (Output::Blower, true) => "BLOWER ON"@,
        (Output::Blower, false) => "BLOWER OFF"@,
        (Output::Light, true) => "LIGHT ON"@,
        (Output::Light, false) => "LIGHT OFF"@,
    }
}

/// The command that switches an output on or off.
pub fn switch_command(output: Output, on: bool) -> (c: &'static str)
    ensures
        c@ == spec_switch_command(output, on),
{
    match (output, on) {
        (Output::Vacuum, true) => "VACUUM ON",
        (Output::Vacuum, false) => "VACUUM OFF",
        (Output::Fan, true) => "FAN ON",
        (Output::Fan, false) => "FAN OFF",
        (Output::Blower, true) => "BLOWER ON",
        (Output::Blower, false) => "BLOWER OFF",
        (Output::Light, true) => "LIGHT ON",
        (Output::Light, false) => "LIGHT OFF",
    }
}

/// The status-LED command for host-facing RGB channel values.
pub fn led_command(red: u8, green: u8, blue: u8) -> (c: String)
    ensures
        c@ == "LED SET "@ + decimal(red as nat) + " "@ + decimal(green as nat) + " "@ + decimal(
            blue as nat,
        ),
{
    let mut c = "LED SET ".to_owned();
    push_decimal(&mut c, red as u64);
    c.append(" ");
    push_decimal(&mut c, green as u64);
    c.append(" ");
    push_decimal(&mut c, blue as u64);
    c
}

/// The wait allowed for the next readiness command: what remains before the
/// device-open deadline, at most `per_command_nanos`; none once the deadline
/// has passed.
pub fn next_readiness_timeout(remaining_nanos: Option<u128>, per_command_nanos: u128) -> (r: Result<
    u128,
    HwError,
>)
    ensures
        match remaining_nanos {
            Some(n) if n > 0 => r matches Ok(t) && t == (if n < per_command_nanos {
                n
            } else {
                per_command_nanos
            }),
            _ => r matches Err(HwError::DeviceOpenTimeout),
        },
{
    match remaining_nanos {
        Some(n) => if n > 0 {
            if n < per_command_nanos {
                Ok(n)
            } else {
                Ok(per_command_nanos)
            }
        } else {
            Err(HwError::DeviceOpenTimeout)
        },
        None => Err(HwError::DeviceOpenTimeout),
    }
}

/// Whether the board's boot delay fits before the device-open deadline;
/// where it does not, opening times out after the remaining time.
pub fn boot_fits(remaining_nanos: u128, boot_delay_nanos: u128) -> (b: bool)
    ensures
        b == (remaining_nanos > boot_delay_nanos),
{
    remaining_nanos > boot_delay_nanos
}

/// What the emergency `ALL OFF` writer does.
#[derive(Clone, Copy, Debug, PartialEq, Eq, Structural)]
pub enum UrgentStep {
    /// The connection no longer correlates: refuse with `Poisoned`.
    Refuse,
    /// Write `ALL OFF`, then close the writer; this call poisoned the
    /// connection, so the ambiguity is reported.
    WriteAndReport,
}

/// Decides the emergency write: refused on a retired or poisoned
/// connection, else the connection is poisoned before `ALL OFF` is written.
pub fn urgent_step(state: &mut ConnectionState) -> (u: UrgentStep)
    ensures
        old(state).status != ConnectionStatus::Active ==> u == UrgentStep::Refuse && *final(state)
            == *old(state),
        old(state).status == ConnectionStatus::Active ==> u == UrgentStep::WriteAndReport
            && *final(state) == (ConnectionState {
            status: ConnectionStatus::Poisoned,
            pending_response: false,
        }),
{
    if !state.is_active() {
        return UrgentStep::Refuse;
    }
    state.poison();
    UrgentStep::WriteAndReport
}

/// A reply nobody awaited poisons an idle connection, and once a connection
/// stops correlating, no later line is ever delivered.
pub proof fn law_reader_never_delivers_uncorrelated_replies(s: ConnectionState, kind: LineKindView)
    requires
        s.wf(),
    ensures
        spec_reader_step(s, kind).1 == ReaderAction::Deliver ==> s.status == ConnectionStatus::Active
            && s.pending_response,
        s.status != ConnectionStatus::Active ==> spec_reader_step(s, kind) == (
            s,
            ReaderAction::IgnoreStale,
        ),
        spec_reader_step(s, kind).0.wf(),
        spec_reader_step(s, kind).0.status == ConnectionStatus::Active ==> s.status
            == ConnectionStatus::Active,
{
}

} // verus!
