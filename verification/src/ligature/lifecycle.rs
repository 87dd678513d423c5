//! Current-connection operation correlation for Ligature.
//!
//! A [`LigatureSession`] owns one connection epoch and the command lifecycles
//! started on it: at most one ordinary (exclusive) operation, any number of
//! urgent commands with distinct tokens, and urgent commands that a hard fault
//! retired but whose late terminal may still arrive once.
use vstd::prelude::*;
use crate::text::{chars_of, decimal, join2, lookup, owned, push_decimal};
use vstd::string::StringExecFns;
use super::protocol::{
    is_token, opt_token, result_view, spec_optional_token, spec_parse_line, spec_state,
    spec_trust, z_marker, CaptureView, ErrorTerminalView, FaultView, FiniteNumbers,
    LigatureCaptureSample, LigatureCommandToken, LigatureFault, LigatureLine, LigatureProtocolError,
    LigatureState, LigatureStatus, LineView, PositionTrust, ProtocolErrorTerminal,
    ProtocolErrorView, ProtocolTerminal, StatusView, TerminalView, parse_ligature_line,
    protocol_error_message,
};

verus! {

broadcast use vstd::string::group_string_axioms;

/// Identity of one physical Ligature connection.
#[derive(Clone, Copy, Debug, PartialEq, Eq, PartialOrd, Ord, Structural)]
pub struct ConnectionEpoch(pub u64);

/// Host identity for one command lifecycle.
#[derive(Clone, Copy, Debug, PartialEq, Eq, PartialOrd, Ord, Structural)]
pub struct OperationId(pub u64);

/// Whether a request uses the ordinary serialized writer or urgent writer.
#[derive(Clone, Copy, Debug, PartialEq, Eq, Structural)]
pub enum RequestPriority {
    /// Serialized production command path.
    Ordinary,
    /// Priority path reserved for routine cancellation and Stop.
    Urgent,
}

/// Typed commands needed to cross and control Ligature's readiness gate.
#[derive(Clone, Copy, Debug, PartialEq, Eq, Structural)]
pub enum LigatureCommand {
    /// Arm the commissioned motion board without moving it.
    Arm,
    /// Disable motor PWM.
    Disarm,
    /// Run the exclusive homing operation.
    Home,
    /// Run the exclusive supervised alignment operation.
    Align,
    /// Release a completed Touchdown hold.
    ReleaseHold,
    /// Clear a latched firmware fault without arming.
    ClearFault,
    /// Stop routine motion with `M53` while preserving the production fault gate.
    Cancel,
    /// Issue the software Stop command `M112`.
    Stop,
}

/// The firmware command text of a typed command.
pub open spec fn spec_wire(c: LigatureCommand) -> &'static str {
    match c {
        LigatureCommand::Arm => "M3",
        LigatureCommand::Disarm => "M5",
        LigatureCommand::Home => "G28",
        LigatureCommand::Align => "M40",
        LigatureCommand::ReleaseHold => "M24",
        LigatureCommand::ClearFault => "M999",
        LigatureCommand::Cancel => "M53",
        LigatureCommand::Stop => "M112",
    }
}

/// The writer path of a typed command: cancellation and Stop are urgent.
pub open spec fn spec_priority(c: LigatureCommand) -> RequestPriority {
    match c {
        LigatureCommand::Cancel | LigatureCommand::Stop => RequestPriority::Urgent,
        _ => RequestPriority::Ordinary,
    }
}

/// Whether a command may only be sent to a commissioned, unfaulted board.
pub open spec fn spec_requires_commissioning(c: LigatureCommand) -> bool {
    !(c is Align || c is ClearFault || c is Cancel || c is Stop || c is Disarm)
}

/// Whether a command is an asynchronous operation acknowledged with `ok` first.
pub open spec fn spec_expects_acceptance(c: LigatureCommand) -> bool {
    c is Home || c is Align
}

/// How a required terminal field is checked.
#[derive(Clone, Copy, Debug, PartialEq, Eq, Structural)]
pub enum FieldCheck {
    /// Presence only.
    Present,
    /// A public state name.
    State,
    /// A `TRUST` value.
    Trust,
    /// `KNOWN`, `?` or a finite number.
    Position,
    /// `NONE` or a command token.
    Cancelled,
}

/// Sequencing of two checks: the first error wins.
pub open spec fn and_then(a: Result<(), ProtocolErrorView>, b: Result<(), ProtocolErrorView>) -> Result<
    (),
    ProtocolErrorView,
> {
    match a {
        Err(e) => Err(e),
        Ok(_) => b,
    }
}

/// One required terminal field.
pub open spec fn spec_check_field(
    fs: Seq<(Seq<char>, Seq<char>)>,
    name: &'static str,
    kind: FieldCheck,
    nums: Set<Seq<char>>,
) -> Result<(), ProtocolErrorView> {
    match lookup(fs, name@) {
        None => Err(ProtocolErrorView::MissingField(name)),
        Some(v) => match kind {
            FieldCheck::Present => Ok(()),
            FieldCheck::State => match spec_state(v) {
                Ok(_) => Ok(()),
                Err(e) => Err(e),
            },
            FieldCheck::Trust => match spec_trust(v) {
                Ok(_) => Ok(()),
                Err(e) => Err(e),
            },
            FieldCheck::Position => if v == "KNOWN"@ || v == "?"@ || nums.contains(v) {
                Ok(())
            } else {
                Err(ProtocolErrorView::InvalidField { field: name, value: v })
            },
            FieldCheck::Cancelled => match spec_optional_token(name, v) {
                Ok(_) => Ok(()),
                Err(e) => Err(e),
            },
        },
    }
}

/// The fields a successful terminal of each command must carry, checked in order.
pub open spec fn spec_check_required(
    c: LigatureCommand,
    fs: Seq<(Seq<char>, Seq<char>)>,
    nums: Set<Seq<char>>,
) -> Result<(), ProtocolErrorView> {
    let state = spec_check_field(fs, "STATE", FieldCheck::State, nums);
    let trust = spec_check_field(fs, "TRUST", FieldCheck::Trust, nums);
    let z = spec_check_field(fs, "Z", FieldCheck::Position, nums);
    match c {
        LigatureCommand::Arm | LigatureCommand::Disarm | LigatureCommand::ClearFault => and_then(
            state,
            trust,
        ),
        LigatureCommand::Home | LigatureCommand::ReleaseHold => and_then(z, and_then(state, trust)),
        LigatureCommand::Align => and_then(
            spec_check_field(fs, "ZERO_ELECTRICAL", FieldCheck::Present, nums),
            and_then(
                spec_check_field(fs, "SENSOR_DIRECTION", FieldCheck::Present, nums),
                and_then(
                    spec_check_field(fs, "VOLATILE", FieldCheck::Present, nums),
                    and_then(state, trust),
                ),
            ),
        ),
        LigatureCommand::Cancel | LigatureCommand::Stop => and_then(
            spec_check_field(fs, "CANCELLED", FieldCheck::Cancelled, nums),
            and_then(z, and_then(state, trust)),
        ),
    }
}

/// Whether a state and a Position trust may be reported together.
pub open spec fn spec_state_and_trust_are_consistent(state: LigatureState, trust: PositionTrust) -> bool {
    match state {
        LigatureState::Ready
        | LigatureState::Moving
        | LigatureState::TouchingDown
        | LigatureState::Holding => trust == PositionTrust::Trusted,
        LigatureState::CommissioningOnly
        | LigatureState::Armed
        | LigatureState::OverridePending
        | LigatureState::Aligning
        | LigatureState::Homing
        | LigatureState::Calibrating => trust == PositionTrust::Untrusted,
        LigatureState::Idle | LigatureState::Fault => true,
    }
}

/// The states and trusts in which each command may complete successfully.
pub open spec fn spec_valid_projection(c: LigatureCommand, state: LigatureState, trust: PositionTrust) -> bool {
    match c {
        LigatureCommand::Arm => (state == LigatureState::Armed && trust == PositionTrust::Untrusted)
            || (state == LigatureState::Ready && trust == PositionTrust::Trusted),
        LigatureCommand::Disarm => state == LigatureState::Idle,
        LigatureCommand::Home | LigatureCommand::ReleaseHold => state == LigatureState::Ready && trust
            == PositionTrust::Trusted,
        LigatureCommand::Align => (state == LigatureState::CommissioningOnly || state
            == LigatureState::Idle) && trust == PositionTrust::Untrusted,
        LigatureCommand::ClearFault => state != LigatureState::Fault
            && spec_state_and_trust_are_consistent(state, trust),
        LigatureCommand::Cancel => (state == LigatureState::CommissioningOnly && trust
            == PositionTrust::Untrusted) || (state == LigatureState::Idle && trust
            == PositionTrust::Untrusted) || (state == LigatureState::Armed && trust
            == PositionTrust::Untrusted) || (state == LigatureState::Ready && trust
            == PositionTrust::Trusted),
        LigatureCommand::Stop => state == LigatureState::Fault,
    }
}

/// The `Debug` name of a state.
pub open spec fn state_name(s: LigatureState) -> &'static str {
    match s {
        LigatureState::CommissioningOnly => "CommissioningOnly",
        LigatureState::Idle => "Idle",
        LigatureState::Armed => "Armed",
        LigatureState::OverridePending => "OverridePending",
        LigatureState::Ready => "Ready",
        LigatureState::Aligning => "Aligning",
        LigatureState::Homing => "Homing",
        LigatureState::Calibrating => "Calibrating",
        LigatureState::Moving => "Moving",
        LigatureState::TouchingDown => "TouchingDown",
        LigatureState::Holding => "Holding",
        LigatureState::Fault => "Fault",
    }
}

/// The `Debug` name of a Position trust.
pub open spec fn trust_name(t: PositionTrust) -> &'static str {
    match t {
        PositionTrust::Trusted => "Trusted",
        PositionTrust::Untrusted => "Untrusted",
    }
}

/// The diagnostic `STATE:<state> TRUST:<trust>` of a rejected terminal projection.
pub open spec fn projection_text(state: LigatureState, trust: PositionTrust) -> Seq<char> {
    "STATE:"@ + state_name(state)@ + " TRUST:"@ + trust_name(trust)@
}

/// The checked state of a terminal whose required fields are valid.
pub open spec fn terminal_state(fs: Seq<(Seq<char>, Seq<char>)>) -> LigatureState {
    spec_state(lookup(fs, "STATE"@)->Some_0)->Ok_0
}

/// The checked Position trust of a terminal whose required fields are valid.
pub open spec fn terminal_trust(fs: Seq<(Seq<char>, Seq<char>)>) -> PositionTrust {
    spec_trust(lookup(fs, "TRUST"@)->Some_0)->Ok_0
}

/// Whether a `done` terminal is a valid successful completion of a command.
pub open spec fn spec_validate_done(c: LigatureCommand, t: TerminalView, nums: Set<Seq<char>>) -> Result<
    (),
    ProtocolErrorView,
> {
    match spec_check_required(c, t.fields, nums) {
        Err(e) => Err(e),
        Ok(_) => {
            let state = terminal_state(t.fields);
            let trust = terminal_trust(t.fields);
            let z = lookup(t.fields, "Z"@);
            if !spec_valid_projection(c, state, trust) {
                Err(
                    ProtocolErrorView::InvalidField {
                        field: "terminal state",
                        value: projection_text(state, trust),
                    },
                )
            } else if (c is Home || c is ReleaseHold) && (z == Some("KNOWN"@) || z == Some("?"@)) {
                Err(ProtocolErrorView::InvalidField { field: "Z", value: z->Some_0 })
            } else if (c is Cancel || c is Stop) && z != Some(z_marker(trust)) {
                Err(
                    ProtocolErrorView::InvalidField {
                        field: "Z",
                        value: match z {
                            Some(v) => v,
                            None => Seq::empty(),
                        },
                    },
                )
            } else {
                Ok(())
            }
        },
    }
}

/// The `CANCELLED` token of a validated urgent terminal.
pub open spec fn terminal_cancelled(fs: Seq<(Seq<char>, Seq<char>)>) -> Option<Seq<char>> {
    spec_optional_token("CANCELLED", lookup(fs, "CANCELLED"@)->Some_0)->Ok_0
}

/// Commissioning evidence carried by a reported state alone.
pub open spec fn spec_commissioning_from_state(state: LigatureState) -> Option<bool> {
    match state {
        LigatureState::CommissioningOnly => Some(false),
        LigatureState::Aligning | LigatureState::Fault => None,
        _ => Some(true),
    }
}

/// Commissioning after new evidence: explicit configuration wins, otherwise
/// the first state that carries evidence settles an unknown marker.
pub open spec fn spec_update_commissioning(
    current: Option<bool>,
    state: LigatureState,
    config: Option<bool>,
) -> Option<bool> {
    match config {
        Some(b) => Some(b),
        None => if current is None {
            spec_commissioning_from_state(state)
        } else {
            current
        },
    }
}

impl LigatureCommand {
    fn wire(self) -> (w: &'static str)
        ensures
            w == spec_wire(self),
    {
        match self {
            LigatureCommand::Arm => "M3",
            LigatureCommand::Disarm => "M5",
            LigatureCommand::Home => "G28",
            LigatureCommand::Align => "M40",
            LigatureCommand::ReleaseHold => "M24",
            LigatureCommand::ClearFault => "M999",
            LigatureCommand::Cancel => "M53",
            LigatureCommand::Stop => "M112",
        }
    }

    fn priority(self) -> (p: RequestPriority)
        ensures
            p == spec_priority(self),
    {
        match self {
            LigatureCommand::Cancel | LigatureCommand::Stop => RequestPriority::Urgent,
            _ => RequestPriority::Ordinary,
        }
    }

    fn requires_commissioning(self) -> (b: bool)
        ensures
            b == spec_requires_commissioning(self),
    {
        !matches!(
            self,
            LigatureCommand::Align | LigatureCommand::ClearFault | LigatureCommand::Cancel
                | LigatureCommand::Stop | LigatureCommand::Disarm
        )
    }

    fn expects_acceptance(self) -> (b: bool)
        ensures
            b == spec_expects_acceptance(self),
    {
        matches!(self, LigatureCommand::Home | LigatureCommand::Align)
    }

    fn token(self) -> (t: LigatureCommandToken)
        ensures
            t@ == spec_wire(self)@,
    {
        LigatureCommandToken::from_text(self.wire())
    }

    fn validate_done(self, terminal: &ProtocolTerminal, nums: &FiniteNumbers) -> (r: Result<
        (),
        LigatureProtocolError,
    >)
        ensures
            result_view(r) == spec_validate_done(self, terminal@, nums@),
    {
        check_required(self, terminal, nums)?;
        let state = terminal_state_exec(terminal);
        let trust = terminal_trust_exec(terminal);
        let z = terminal.field("Z");
        if !valid_projection(self, state, trust) {
            let text = join2(
                &join2(&join2("STATE:", state_name_exec(state)), " TRUST:"),
                trust_name_exec(trust),
            );
            return Err(LigatureProtocolError::InvalidField { field: "terminal state", value: text });
        }
        if matches!(self, LigatureCommand::Home | LigatureCommand::ReleaseHold) {
            match z {
                Some(v) => {
                    let vc = chars_of(v);
                    if crate::text::chars_are(vc.as_slice(), "KNOWN") || crate::text::chars_are(
                        vc.as_slice(),
                        "?",
                    ) {
                        return Err(LigatureProtocolError::InvalidField { field: "Z", value: owned(v) });
                    }
                },
                None => {},
            }
        }
        if matches!(self, LigatureCommand::Cancel | LigatureCommand::Stop) {
            let expected = match trust {
                PositionTrust::Trusted => "KNOWN",
                PositionTrust::Untrusted => "?",
            };
            match z {
                Some(v) => {
                    let vc = chars_of(v);
                    if !crate::text::chars_are(vc.as_slice(), expected) {
                        return Err(LigatureProtocolError::InvalidField { field: "Z", value: owned(v) });
                    }
                },
                None => {
                    return Err(LigatureProtocolError::InvalidField { field: "Z", value: String::new() });
                },
            }
        }
        Ok(())
    }
}

fn check_field(
    t: &ProtocolTerminal,
    name: &'static str,
    kind: FieldCheck,
    nums: &FiniteNumbers,
) -> (r: Result<(), LigatureProtocolError>)
    ensures
        result_view(r) == spec_check_field(t@.fields, name, kind, nums@),
{
    let v = match t.field(name) {
        None => {
            return Err(LigatureProtocolError::MissingField(name));
        },
        Some(v) => chars_of(v),
    };
    match kind {
        FieldCheck::Present => Ok(()),
        FieldCheck::State => match LigatureState::parse(v.as_slice()) {
            Ok(_) => Ok(()),
            Err(e) => Err(e),
        },
        FieldCheck::Trust => match PositionTrust::parse(v.as_slice()) {
            Ok(_) => Ok(()),
            Err(e) => Err(e),
        },
        FieldCheck::Position => if crate::text::chars_are(v.as_slice(), "KNOWN")
            || crate::text::chars_are(v.as_slice(), "?") || nums.holds(v.as_slice()) {
            Ok(())
        } else {
            Err(
                LigatureProtocolError::InvalidField {
                    field: name,
                    value: crate::text::string_of(v.as_slice()),
                },
            )
        },
        FieldCheck::Cancelled => match super::protocol::parse_optional_token(name, v.as_slice()) {
            Ok(_) => Ok(()),
            Err(e) => Err(e),
        },
    }
}

fn check_required(c: LigatureCommand, t: &ProtocolTerminal, nums: &FiniteNumbers) -> (r: Result<
    (),
    LigatureProtocolError,
>)
    ensures
        result_view(r) == spec_check_required(c, t@.fields, nums@),
{
    match c {
        LigatureCommand::Arm | LigatureCommand::Disarm | LigatureCommand::ClearFault => {
            check_field(t, "STATE", FieldCheck::State, nums)?;
            check_field(t, "TRUST", FieldCheck::Trust, nums)
        },
        LigatureCommand::Home | LigatureCommand::ReleaseHold => {
            check_field(t, "Z", FieldCheck::Position, nums)?;
            check_field(t, "STATE", FieldCheck::State, nums)?;
            check_field(t, "TRUST", FieldCheck::Trust, nums)
        },
        LigatureCommand::Align => {
            check_field(t, "ZERO_ELECTRICAL", FieldCheck::Present, nums)?;
            check_field(t, "SENSOR_DIRECTION", FieldCheck::Present, nums)?;
            check_field(t, "VOLATILE", FieldCheck::Present, nums)?;
            check_field(t, "STATE", FieldCheck::State, nums)?;
            check_field(t, "TRUST", FieldCheck::Trust, nums)
        },
        LigatureCommand::Cancel | LigatureCommand::Stop => {
            check_field(t, "CANCELLED", FieldCheck::Cancelled, nums)?;
            check_field(t, "Z", FieldCheck::Position, nums)?;
            check_field(t, "STATE", FieldCheck::State, nums)?;
            check_field(t, "TRUST", FieldCheck::Trust, nums)
        },
    }
}

fn terminal_state_exec(t: &ProtocolTerminal) -> (s: LigatureState)
    requires
        lookup(t@.fields, "STATE"@) is Some,
        spec_state(lookup(t@.fields, "STATE"@)->Some_0) is Ok,
    ensures
        s == terminal_state(t@.fields),
{
    let v = chars_of(t.field("STATE").unwrap());
    match LigatureState::parse(v.as_slice()) {
        Ok(s) => s,
        Err(_) => LigatureState::Fault,
    }
}

fn terminal_trust_exec(t: &ProtocolTerminal) -> (s: PositionTrust)
    requires
        lookup(t@.fields, "TRUST"@) is Some,
        spec_trust(lookup(t@.fields, "TRUST"@)->Some_0) is Ok,
    ensures
        s == terminal_trust(t@.fields),
{
    let v = chars_of(t.field("TRUST").unwrap());
    match PositionTrust::parse(v.as_slice()) {
        Ok(s) => s,
        Err(_) => PositionTrust::Untrusted,
    }
}

fn state_and_trust_are_consistent(state: LigatureState, trust: PositionTrust) -> (b: bool)
    ensures
        b == spec_state_and_trust_are_consistent(state, trust),
{
    match state {
        LigatureState::Ready
        | LigatureState::Moving
        | LigatureState::TouchingDown
        | LigatureState::Holding => trust == PositionTrust::Trusted,
        LigatureState::CommissioningOnly
        | LigatureState::Armed
        | LigatureState::OverridePending
        | LigatureState::Aligning
        | LigatureState::Homing
        | LigatureState::Calibrating => trust == PositionTrust::Untrusted,
        LigatureState::Idle | LigatureState::Fault => true,
    }
}

fn valid_projection(c: LigatureCommand, state: LigatureState, trust: PositionTrust) -> (b: bool)
    ensures
        b == spec_valid_projection(c, state, trust),
{
    match c {
        LigatureCommand::Arm => (state == LigatureState::Armed && trust == PositionTrust::Untrusted)
            || (state == LigatureState::Ready && trust == PositionTrust::Trusted),
        LigatureCommand::Disarm => state == LigatureState::Idle,
        LigatureCommand::Home | LigatureCommand::ReleaseHold => state == LigatureState::Ready && trust
            == PositionTrust::Trusted,
        LigatureCommand::Align => (state == LigatureState::CommissioningOnly || state
            == LigatureState::Idle) && trust == PositionTrust::Untrusted,
        LigatureCommand::ClearFault => state != LigatureState::Fault
            && state_and_trust_are_consistent(state, trust),
        LigatureCommand::Cancel => (state == LigatureState::CommissioningOnly && trust
            == PositionTrust::Untrusted) || (state == LigatureState::Idle && trust
            == PositionTrust::Untrusted) || (state == LigatureState::Armed && trust
            == PositionTrust::Untrusted) || (state == LigatureState::Ready && trust
            == PositionTrust::Trusted),
        LigatureCommand::Stop => state == LigatureState::Fault,
    }
}

fn state_name_exec(s: LigatureState) -> (n: &'static str)
    ensures
        n == state_name(s),
{
    match s {
        LigatureState::CommissioningOnly => "CommissioningOnly",
        LigatureState::Idle => "Idle",
        LigatureState::Armed => "Armed",
        LigatureState::OverridePending => "OverridePending",
        LigatureState::Ready => "Ready",
        LigatureState::Aligning => "Aligning",
        LigatureState::Homing => "Homing",
        LigatureState::Calibrating => "Calibrating",
        LigatureState::Moving => "Moving",
        LigatureState::TouchingDown => "TouchingDown",
        LigatureState::Holding => "Holding",
        LigatureState::Fault => "Fault",
    }
}

fn trust_name_exec(t: PositionTrust) -> (n: &'static str)
    ensures
        n == trust_name(t),
{
    match t {
        PositionTrust::Trusted => "Trusted",
        PositionTrust::Untrusted => "Untrusted",
    }
}


/// A correlated command ready for the selected serial writer.
#[derive(Clone, Debug, PartialEq, Eq)]
pub struct LigatureRequest {
    /// Host-local identity for this lifecycle.
    pub operation_id: OperationId,
    /// Physical connection that owns this lifecycle.
    pub epoch: ConnectionEpoch,
    /// Typed identity used to correlate response frames.
    pub command: LigatureCommandToken,
    /// Validated firmware command without the line terminator.
    pub line: String,
    /// Writer path selected for the command.
    pub priority: RequestPriority,
}

/// Model of [`LigatureRequest`].
pub struct RequestView {
    pub operation_id: u64,
    pub epoch: u64,
    pub command: Seq<char>,
    pub line: Seq<char>,
    pub priority: RequestPriority,
}

impl View for LigatureRequest {
    type V = RequestView;

    open spec fn view(&self) -> RequestView {
        RequestView {
            operation_id: self.operation_id.0,
            epoch: self.epoch.0,
            command: self.command@,
            line: self.line@,
            priority: self.priority,
        }
    }
}

impl LigatureRequest {
    /// A copy of this request.
    pub fn duplicate(&self) -> (r: Self)
        ensures
            r@ == self@,
    {
        LigatureRequest {
            operation_id: self.operation_id,
            epoch: self.epoch,
            command: self.command.duplicate(),
            line: self.line.clone(),
            priority: self.priority,
        }
    }
}

#[derive(Clone, Debug)]
struct PendingRequest {
    request: LigatureRequest,
    command_type: LigatureCommand,
    expects_acceptance: bool,
    accepted: bool,
}

/// Model of one outstanding command lifecycle.
pub struct PendingView {
    pub request: RequestView,
    pub command_type: LigatureCommand,
    pub expects_acceptance: bool,
    pub accepted: bool,
}

impl View for PendingRequest {
    type V = PendingView;

    closed spec fn view(&self) -> PendingView {
        PendingView {
            request: self.request@,
            command_type: self.command_type,
            expects_acceptance: self.expects_acceptance,
            accepted: self.accepted,
        }
    }
}

/// The models of a list of outstanding lifecycles.
spec fn pendings_view(v: Seq<PendingRequest>) -> Seq<PendingView> {
    v.map_values(|p: PendingRequest| p@)
}

/// A reconnect result, including all work retired with the old link.
#[derive(Clone, Debug, PartialEq, Eq)]
pub struct LigatureReconnect {
    /// Fresh connection identity installed by the query.
    pub epoch: ConnectionEpoch,
    /// Requests that can no longer complete after the connection changed.
    pub retired: Vec<OperationId>,
}

/// Model of [`LigatureReconnect`].
pub struct ReconnectView {
    pub epoch: u64,
    pub retired: Seq<u64>,
}

/// The identities of a list of operations.
pub open spec fn ids_view(v: Seq<OperationId>) -> Seq<u64> {
    v.map_values(|o: OperationId| o.0)
}

impl View for LigatureReconnect {
    type V = ReconnectView;

    open spec fn view(&self) -> ReconnectView {
        ReconnectView { epoch: self.epoch.0, retired: ids_view(self.retired@) }
    }
}

/// Routed lifecycle or unsolicited traffic from Ligature.
#[derive(Clone, Debug, PartialEq, Eq)]
pub enum LigatureEvent {
    /// Current public state or heartbeat data.
    Status(LigatureStatus),
    /// Immediate `ok` for an asynchronous exclusive operation.
    Accepted(OperationId),
    /// Successful terminal for an ordinary or urgent request.
    Completed {
        /// Request completed by this terminal.
        operation_id: OperationId,
        /// Parsed firmware terminal and its diagnostic fields.
        terminal: ProtocolTerminal,
    },
    /// Error terminal for an ordinary or urgent request.
    Failed {
        /// Request completed by this error.
        operation_id: OperationId,
        /// Parsed firmware error and its reason.
        terminal: ProtocolErrorTerminal,
    },
    /// Urgent command that retired the active ordinary operation.
    Cancelled {
        /// Ordinary operation retired by the urgent result.
        operation_id: OperationId,
        /// Urgent request that performed the cancellation.
        by: OperationId,
        /// Parsed urgent-command terminal.
        terminal: ProtocolTerminal,
    },
    /// Unsolicited firmware fault and all work it retired.
    HardFault {
        /// Parsed public hard-fault data.
        fault: LigatureFault,
        /// Current-epoch requests retired by the fault.
        retired: Vec<OperationId>,
    },
    /// Control-rate diagnostic sample routed around command correlation.
    Capture(LigatureCaptureSample),
    /// Response from an older physical connection, ignored by design.
    StaleIgnored(ConnectionEpoch),
    /// Late terminal for an urgent request already retired by a current-epoch fault.
    RetiredIgnored(OperationId),
}

/// Model of [`LigatureEvent`].
pub enum EventView {
    Status(StatusView),
    Accepted(u64),
    Completed { operation_id: u64, terminal: TerminalView },
    Failed { operation_id: u64, terminal: ErrorTerminalView },
    Cancelled { operation_id: u64, by: u64, terminal: TerminalView },
    HardFault { fault: FaultView, retired: Seq<u64> },
    Capture(CaptureView),
    StaleIgnored(u64),
    RetiredIgnored(u64),
}

impl View for LigatureEvent {
    type V = EventView;

    open spec fn view(&self) -> EventView {
        match self {
            LigatureEvent::Status(s) => EventView::Status(s@),
            LigatureEvent::Accepted(o) => EventView::Accepted(o.0),
            LigatureEvent::Completed { operation_id, terminal } => EventView::Completed {
                operation_id: operation_id.0,
                terminal: terminal@,
            },
            LigatureEvent::Failed { operation_id, terminal } => EventView::Failed {
                operation_id: operation_id.0,
                terminal: terminal@,
            },
            LigatureEvent::Cancelled { operation_id, by, terminal } => EventView::Cancelled {
                operation_id: operation_id.0,
                by: by.0,
                terminal: terminal@,
            },
            LigatureEvent::HardFault { fault, retired } => EventView::HardFault {
                fault: fault@,
                retired: ids_view(retired@),
            },
            LigatureEvent::Capture(c) => EventView::Capture(c@),
            LigatureEvent::StaleIgnored(e) => EventView::StaleIgnored(e.0),
            LigatureEvent::RetiredIgnored(o) => EventView::RetiredIgnored(o.0),
        }
    }
}

/// A lifecycle violation that poisons the current transport correlation.
#[derive(Clone, Debug, PartialEq, Eq)]
pub enum LigatureSessionError {
    /// The wire frame itself was malformed or unsupported.
    Protocol(LigatureProtocolError),
    /// A second request attempted to use an occupied command lifecycle.
    Busy,
    /// Production motion was requested from an uncommissioned board.
    CommissioningOnly,
    /// A reader supplied a response tagged with an epoch not opened yet.
    FutureEpoch {
        /// Epoch attached to the response.
        received: ConnectionEpoch,
        /// Session epoch currently accepting responses.
        current: ConnectionEpoch,
    },
    /// No pending request owns an acceptance frame.
    UnmatchedAcceptance {
        /// Firmware command token in the unmatched frame.
        command: String,
    },
    /// No pending request owns a terminal frame.
    UnmatchedTerminal {
        /// Firmware command token in the unmatched frame.
        command: String,
    },
    /// A frame conflicts with the pending command or its expected phase.
    ContradictoryTerminal {
        /// Lifecycle evidence required at this point.
        expected: String,
        /// Conflicting evidence supplied by the firmware.
        received: String,
    },
    /// Opening or reconnect did not yield the required `state` frame.
    QueryDidNotReturnState,
}

/// Model of [`LigatureSessionError`].
pub enum SessionErrorView {
    Protocol(ProtocolErrorView),
    Busy,
    CommissioningOnly,
    FutureEpoch { received: u64, current: u64 },
    UnmatchedAcceptance(Seq<char>),
    UnmatchedTerminal(Seq<char>),
    ContradictoryTerminal { expected: Seq<char>, received: Seq<char> },
    QueryDidNotReturnState,
}

impl View for LigatureSessionError {
    type V = SessionErrorView;

    open spec fn view(&self) -> SessionErrorView {
        match self {
            LigatureSessionError::Protocol(e) => SessionErrorView::Protocol(e@),
            LigatureSessionError::Busy => SessionErrorView::Busy,
            LigatureSessionError::CommissioningOnly => SessionErrorView::CommissioningOnly,
            LigatureSessionError::FutureEpoch { received, current } => SessionErrorView::FutureEpoch {
                received: received.0,
                current: current.0,
            },
            LigatureSessionError::UnmatchedAcceptance { command } => SessionErrorView::UnmatchedAcceptance(
                command@,
            ),
            LigatureSessionError::UnmatchedTerminal { command } => SessionErrorView::UnmatchedTerminal(
                command@,
            ),
            LigatureSessionError::ContradictoryTerminal { expected, received } =>
                SessionErrorView::ContradictoryTerminal { expected: expected@, received: received@ },
            LigatureSessionError::QueryDidNotReturnState => SessionErrorView::QueryDidNotReturnState,
        }
    }
}

/// The model of a session result.
pub open spec fn session_result<T: View>(r: Result<T, LigatureSessionError>) -> Result<
    T::V,
    SessionErrorView,
> {
    match r {
        Ok(t) => Ok(t@),
        Err(e) => Err(e@),
    }
}

/// One connection epoch and its active operation lifecycles.
pub struct LigatureSession {
    epoch: ConnectionEpoch,
    next_operation_id: u64,
    status: LigatureStatus,
    commissioned: Option<bool>,
    active: Option<PendingRequest>,
    orphaned_active: Option<LigatureCommandToken>,
    urgent: Vec<PendingRequest>,
    retired_urgent: Vec<PendingRequest>,
}

/// Model of [`LigatureSession`].
pub struct SessionView {
    /// Connection epoch accepting responses.
    pub epoch: u64,
    /// Identity the next request receives.
    pub next_operation_id: u64,
    /// Latest public status.
    pub status: StatusView,
    /// Commissioning evidence: unknown, uncommissioned or commissioned.
    pub commissioned: Option<bool>,
    /// The outstanding ordinary operation.
    pub active: Option<PendingView>,
    /// An exclusive operation that was running when this epoch's query arrived.
    pub orphaned_active: Option<Seq<char>>,
    /// Outstanding urgent commands, oldest first.
    pub urgent: Seq<PendingView>,
    /// Urgent commands retired by a hard fault whose late terminal may arrive once.
    pub retired_urgent: Seq<PendingView>,
}

/// The model of an optional outstanding lifecycle.
spec fn opt_pending(o: Option<PendingRequest>) -> Option<PendingView> {
    match o {
        Some(p) => Some(p@),
        None => None,
    }
}

impl View for LigatureSession {
    type V = SessionView;

    closed spec fn view(&self) -> SessionView {
        SessionView {
            epoch: self.epoch.0,
            next_operation_id: self.next_operation_id,
            status: self.status@,
            commissioned: self.commissioned,
            active: opt_pending(self.active),
            orphaned_active: opt_token(self.orphaned_active),
            urgent: pendings_view(self.urgent@),
            retired_urgent: pendings_view(self.retired_urgent@),
        }
    }
}

// ---------------------------------------------------------------------------
// Specification of the session.
// ---------------------------------------------------------------------------

/// Whether production motion may pass the commissioning gate.
pub open spec fn spec_scan_enabled(s: SessionView) -> bool {
    s.commissioned == Some(true) && !(s.status.state == LigatureState::CommissioningOnly
        || s.status.state == LigatureState::Fault)
}

/// Whether the lifecycle permits stationary Camera acquisition.
pub open spec fn spec_capture_ready(s: SessionView) -> bool {
    &&& spec_scan_enabled(s)
    &&& s.active is None
    &&& s.orphaned_active is None
    &&& s.urgent.len() == 0
    &&& (s.status.state == LigatureState::Idle || s.status.state == LigatureState::Armed
        || s.status.state == LigatureState::OverridePending || s.status.state == LigatureState::Ready
        || s.status.state == LigatureState::Holding)
}

/// Index of the first lifecycle whose command token is `c`.
pub open spec fn token_index(ps: Seq<PendingView>, c: Seq<char>) -> Option<int>
    decreases ps.len(),
{
    if ps.len() == 0 {
        None
    } else if ps[0].request.command == c {
        Some(0)
    } else {
        match token_index(ps.drop_first(), c) {
            Some(i) => Some(i + 1),
            None => None,
        }
    }
}

/// A lifecycle consistent with the command that started it on epoch `epoch`.
pub open spec fn pending_wf(p: PendingView, epoch: u64, next: u64) -> bool {
    &&& p.request.operation_id < next
    &&& p.request.epoch == epoch
    &&& p.request.command == spec_wire(p.command_type)@
    &&& p.request.line == spec_wire(p.command_type)@
    &&& p.request.priority == spec_priority(p.command_type)
    &&& p.expects_acceptance == spec_expects_acceptance(p.command_type)
}

/// Lifecycles with pairwise distinct identities.
pub open spec fn distinct_ops(ps: Seq<PendingView>) -> bool {
    forall|i: int, j: int|
        0 <= i < j < ps.len() ==> (#[trigger] ps[i]).request.operation_id != (#[trigger] ps[j]).request.operation_id
}

/// Lifecycles with pairwise distinct command tokens.
pub open spec fn distinct_tokens(ps: Seq<PendingView>) -> bool {
    forall|i: int, j: int|
        0 <= i < j < ps.len() ==> (#[trigger] ps[i]).request.command != (#[trigger] ps[j]).request.command
}

/// Two lists of lifecycles share no identity and no command token.
pub open spec fn disjoint(a: Seq<PendingView>, b: Seq<PendingView>) -> bool {
    forall|i: int, j: int|
        0 <= i < a.len() && 0 <= j < b.len() ==> (#[trigger] a[i]).request.operation_id != (
        #[trigger] b[j]).request.operation_id && a[i].request.command != b[j].request.command
}

/// Every lifecycle of a list is well-formed and uses the given writer path.
pub open spec fn all_pending_wf(ps: Seq<PendingView>, epoch: u64, next: u64, priority: RequestPriority) -> bool {
    forall|i: int| 0 <= i < ps.len() ==> pending_wf(#[trigger] ps[i], epoch, next) && ps[i].request.priority == priority
}

/// Session well-formedness: every outstanding lifecycle belongs to the current
/// epoch and has a distinct identity below the next one; there is at most one
/// ordinary operation; every urgent command token is outstanding at most once.
pub open spec fn spec_wf(s: SessionView) -> bool {
    &&& s.epoch >= 1
    &&& s.next_operation_id >= 1
    &&& (s.active matches Some(p) ==> {
        &&& pending_wf(p, s.epoch, s.next_operation_id)
        &&& p.request.priority == RequestPriority::Ordinary
        &&& forall|i: int| 0 <= i < s.urgent.len() ==> (#[trigger] s.urgent[i]).request.operation_id != p.request.operation_id
        &&& forall|i: int| 0 <= i < s.retired_urgent.len() ==> (#[trigger] s.retired_urgent[i]).request.operation_id != p.request.operation_id
    })
    &&& all_pending_wf(s.urgent, s.epoch, s.next_operation_id, RequestPriority::Urgent)
    &&& all_pending_wf(s.retired_urgent, s.epoch, s.next_operation_id, RequestPriority::Urgent)
    &&& distinct_ops(s.urgent)
    &&& distinct_ops(s.retired_urgent)
    &&& distinct_tokens(s.urgent)
    &&& distinct_tokens(s.retired_urgent)
    &&& disjoint(s.urgent, s.retired_urgent)
}

/// The request a command receives when it is begun.
pub open spec fn spec_new_request(s: SessionView, c: LigatureCommand) -> RequestView {
    RequestView {
        operation_id: s.next_operation_id,
        epoch: s.epoch,
        command: spec_wire(c)@,
        line: spec_wire(c)@,
        priority: spec_priority(c),
    }
}

/// Beginning one command: the commissioning gate, then the single ordinary
/// slot or the one-per-token urgent slots, then a fresh identity.
pub open spec fn spec_begin(s: SessionView, c: LigatureCommand) -> (SessionView, Result<
    RequestView,
    SessionErrorView,
>) {
    if spec_requires_commissioning(c) && !spec_scan_enabled(s) {
        (s, Err(SessionErrorView::CommissioningOnly))
    } else if spec_priority(c) == RequestPriority::Ordinary && (s.active is Some
        || s.orphaned_active is Some) {
        (s, Err(SessionErrorView::Busy))
    } else if spec_priority(c) == RequestPriority::Urgent && (token_index(s.urgent, spec_wire(c)@) is Some
        || token_index(s.retired_urgent, spec_wire(c)@) is Some) {
        (s, Err(SessionErrorView::Busy))
    } else {
        let request = spec_new_request(s, c);
        let pending = PendingView {
            request,
            command_type: c,
            expects_acceptance: spec_expects_acceptance(c),
            accepted: false,
        };
        let s1 = SessionView { next_operation_id: (s.next_operation_id + 1) as u64, ..s };
        if spec_priority(c) == RequestPriority::Ordinary {
            (SessionView { active: Some(pending), ..s1 }, Ok(request))
        } else {
            (SessionView { urgent: s.urgent.push(pending), ..s1 }, Ok(request))
        }
    }
}


/// The identities of a list of lifecycles.
pub open spec fn ops_of(ps: Seq<PendingView>) -> Seq<u64> {
    ps.map_values(|p: PendingView| p.request.operation_id)
}

/// The identity of the active operation, if any.
pub open spec fn active_ids(s: SessionView) -> Seq<u64> {
    match s.active {
        Some(p) => seq![p.request.operation_id],
        None => seq![],
    }
}

/// A status frame updates commissioning evidence and the public status.
pub open spec fn spec_status_update(s: SessionView, st: StatusView) -> SessionView {
    SessionView {
        commissioned: spec_update_commissioning(s.commissioned, st.state, None),
        status: st,
        ..s
    }
}

/// Routing of an `ok` acceptance: the first urgent lifecycle with the token,
/// otherwise the active operation; each asynchronous operation is accepted once.
pub open spec fn spec_accept(s: SessionView, c: Seq<char>) -> (SessionView, Result<
    EventView,
    SessionErrorView,
>) {
    let owner: Option<PendingView> = match token_index(s.urgent, c) {
        Some(i) => Some(s.urgent[i]),
        None => match s.active {
            Some(a) => if a.request.command == c {
                Some(a)
            } else {
                None
            },
            None => None,
        },
    };
    match owner {
        None => (s, Err(SessionErrorView::UnmatchedAcceptance(c))),
        Some(p) => if !p.expects_acceptance {
            (
                s,
                Err(
                    SessionErrorView::ContradictoryTerminal {
                        expected: "immediate terminal for "@ + c,
                        received: "ok "@ + c,
                    },
                ),
            )
        } else if p.accepted {
            (
                s,
                Err(
                    SessionErrorView::ContradictoryTerminal {
                        expected: "one acceptance for "@ + c,
                        received: "second acceptance for "@ + c,
                    },
                ),
            )
        } else {
            let p2 = PendingView { accepted: true, ..p };
            let s2 = match token_index(s.urgent, c) {
                Some(i) => SessionView { urgent: s.urgent.update(i, p2), ..s },
                None => SessionView { active: Some(p2), ..s },
            };
            (s2, Ok(EventView::Accepted(p.request.operation_id)))
        },
    }
}

/// Which lifecycle a terminal belongs to.
pub enum OwnerView {
    Urgent(int),
    RetiredUrgent(int),
    Active,
}

/// Terminal ownership: urgent lifecycles first, then retired urgent ones, then
/// the active operation, whose token must match.
pub open spec fn spec_terminal_owner(s: SessionView, c: Seq<char>) -> Result<OwnerView, SessionErrorView> {
    match token_index(s.urgent, c) {
        Some(i) => Ok(OwnerView::Urgent(i)),
        None => match token_index(s.retired_urgent, c) {
            Some(i) => Ok(OwnerView::RetiredUrgent(i)),
            None => match s.active {
                None => Err(SessionErrorView::UnmatchedTerminal(c)),
                Some(a) => if a.request.command != c {
                    Err(
                        SessionErrorView::ContradictoryTerminal {
                            expected: a.request.command,
                            received: c,
                        },
                    )
                } else {
                    Ok(OwnerView::Active)
                },
            },
        },
    }
}

/// `NONE` or the token text.
pub open spec fn token_or_none(t: Option<Seq<char>>) -> Seq<char> {
    match t {
        Some(c) => c,
        None => "NONE"@,
    }
}

/// The `CANCELLED` evidence must name the expected operation; when only an
/// orphaned operation could be cancelled, `NONE` is also accepted.
pub open spec fn spec_validate_cancelled(
    received: Option<Seq<char>>,
    expected: Option<Seq<char>>,
    allow_completed_orphan: bool,
) -> Result<(), SessionErrorView> {
    if received == expected || (allow_completed_orphan && received is None) {
        Ok(())
    } else {
        Err(
            SessionErrorView::ContradictoryTerminal {
                expected: "CANCELLED:"@ + token_or_none(expected),
                received: "CANCELLED:"@ + token_or_none(received),
            },
        )
    }
}

/// A successful urgent terminal: it retires the active operation, or settles
/// an orphaned one.
pub open spec fn spec_complete_urgent(s: SessionView, i: int, t: TerminalView, nums: Set<Seq<char>>) -> (
    SessionView,
    Result<EventView, SessionErrorView>,
) {
    let u = s.urgent[i];
    match spec_validate_done(u.command_type, t, nums) {
        Err(e) => (s, Err(SessionErrorView::Protocol(e))),
        Ok(_) => {
            let expected = match s.active {
                Some(a) => Some(a.request.command),
                None => s.orphaned_active,
            };
            let allow = s.active is None && s.orphaned_active is Some;
            match spec_validate_cancelled(terminal_cancelled(t.fields), expected, allow) {
                Err(e) => (s, Err(e)),
                Ok(_) => {
                    let s1 = SessionView { urgent: s.urgent.remove(i), ..s };
                    match s.active {
                        Some(a) => (
                            SessionView { active: None, ..s1 },
                            Ok(
                                EventView::Cancelled {
                                    operation_id: a.request.operation_id,
                                    by: u.request.operation_id,
                                    terminal: t,
                                },
                            ),
                        ),
                        None => (
                            SessionView { orphaned_active: None, ..s1 },
                            Ok(
                                EventView::Completed {
                                    operation_id: u.request.operation_id,
                                    terminal: t,
                                },
                            ),
                        ),
                    }
                },
            }
        },
    }
}

/// A `done` terminal.
pub open spec fn spec_complete_done(s: SessionView, t: TerminalView, nums: Set<Seq<char>>) -> (
    SessionView,
    Result<EventView, SessionErrorView>,
) {
    match spec_terminal_owner(s, t.command) {
        Err(e) => (s, Err(e)),
        Ok(OwnerView::Urgent(i)) => spec_complete_urgent(s, i, t, nums),
        Ok(OwnerView::RetiredUrgent(i)) => match spec_validate_done(
            s.retired_urgent[i].command_type,
            t,
            nums,
        ) {
            Err(e) => (s, Err(SessionErrorView::Protocol(e))),
            Ok(_) => (
                SessionView { retired_urgent: s.retired_urgent.remove(i), ..s },
                Ok(EventView::RetiredIgnored(s.retired_urgent[i].request.operation_id)),
            ),
        },
        Ok(OwnerView::Active) => {
            let a = s.active->Some_0;
            match spec_validate_done(a.command_type, t, nums) {
                Err(e) => (s, Err(SessionErrorView::Protocol(e))),
                Ok(_) => if a.expects_acceptance && !a.accepted {
                    (
                        s,
                        Err(
                            SessionErrorView::ContradictoryTerminal {
                                expected: "ok "@ + a.request.line,
                                received: "done "@ + t.command,
                            },
                        ),
                    )
                } else {
                    (
                        SessionView { active: None, ..s },
                        Ok(
                            EventView::Completed {
                                operation_id: a.request.operation_id,
                                terminal: t,
                            },
                        ),
                    )
                },
            }
        },
    }
}

/// An `error` terminal.
pub open spec fn spec_complete_error(s: SessionView, t: ErrorTerminalView) -> (
    SessionView,
    Result<EventView, SessionErrorView>,
) {
    match spec_terminal_owner(s, t.command) {
        Err(e) => (s, Err(e)),
        Ok(OwnerView::Urgent(i)) => (
            SessionView { urgent: s.urgent.remove(i), ..s },
            Ok(
                EventView::Failed {
                    operation_id: s.urgent[i].request.operation_id,
                    terminal: t,
                },
            ),
        ),
        Ok(OwnerView::RetiredUrgent(i)) => (
            SessionView { retired_urgent: s.retired_urgent.remove(i), ..s },
            Ok(EventView::RetiredIgnored(s.retired_urgent[i].request.operation_id)),
        ),
        Ok(OwnerView::Active) => (
            SessionView { active: None, ..s },
            Ok(
                EventView::Failed {
                    operation_id: (s.active->Some_0).request.operation_id,
                    terminal: t,
                },
            ),
        ),
    }
}

/// An unsolicited hard fault: it retires the active operation and every urgent
/// command; late urgent terminals are remembered so they can be ignored once.
pub open spec fn spec_hard_fault(s: SessionView, f: FaultView) -> (SessionView, Result<
    EventView,
    SessionErrorView,
>) {
    let expected = match s.active {
        Some(a) => if a.expects_acceptance {
            Some(a.request.command)
        } else {
            s.orphaned_active
        },
        None => s.orphaned_active,
    };
    let allow = (s.active is None || !(s.active->Some_0).expects_acceptance) && s.orphaned_active is Some;
    match spec_validate_cancelled(f.cancelled, expected, allow) {
        Err(e) => (s, Err(e)),
        Ok(_) => (
            SessionView {
                active: None,
                orphaned_active: None,
                urgent: seq![],
                retired_urgent: s.retired_urgent + s.urgent,
                ..s
            },
            Ok(EventView::HardFault { fault: f, retired: active_ids(s) + ops_of(s.urgent) }),
        ),
    }
}

/// Routing of one line tagged with the reader's connection epoch.
pub open spec fn spec_receive(s: SessionView, epoch: u64, line: Seq<char>, nums: Set<Seq<char>>) -> (
    SessionView,
    Result<EventView, SessionErrorView>,
) {
    if epoch < s.epoch {
        (s, Ok(EventView::StaleIgnored(epoch)))
    } else if epoch > s.epoch {
        (s, Err(SessionErrorView::FutureEpoch { received: epoch, current: s.epoch }))
    } else {
        match spec_parse_line(line, nums) {
            Err(e) => (s, Err(SessionErrorView::Protocol(e))),
            Ok(LineView::State(st)) => (spec_status_update(s, st), Ok(EventView::Status(st))),
            Ok(LineView::Status(st)) => (spec_status_update(s, st), Ok(EventView::Status(st))),
            Ok(LineView::Accepted(c)) => spec_accept(s, c),
            Ok(LineView::Done(t)) => spec_complete_done(s, t, nums),
            Ok(LineView::Error(t)) => spec_complete_error(s, t),
            Ok(LineView::Fault(f)) => spec_hard_fault(s, f),
            Ok(LineView::Capture(c)) => (s, Ok(EventView::Capture(c))),
        }
    }
}

/// A session opened from the `?` query of a fresh connection.
pub open spec fn spec_from_query(query: Seq<char>, config: Option<bool>, nums: Set<Seq<char>>) -> Result<
    SessionView,
    SessionErrorView,
> {
    match spec_parse_line(query, nums) {
        Err(e) => Err(SessionErrorView::Protocol(e)),
        Ok(LineView::State(st)) => Ok(
            SessionView {
                epoch: 1,
                next_operation_id: 1,
                status: st,
                commissioned: match config {
                    Some(b) => Some(b),
                    None => spec_commissioning_from_state(st.state),
                },
                active: None,
                orphaned_active: st.active,
                urgent: seq![],
                retired_urgent: seq![],
            },
        ),
        Ok(_) => Err(SessionErrorView::QueryDidNotReturnState),
    }
}

/// Installing a new connection: every outstanding lifecycle of the old one is
/// retired and the epoch advances.
pub open spec fn spec_reconnect(s: SessionView, query: Seq<char>, config: Option<bool>, nums: Set<Seq<char>>) -> (
    SessionView,
    Result<ReconnectView, SessionErrorView>,
) {
    match spec_parse_line(query, nums) {
        Err(e) => (s, Err(SessionErrorView::Protocol(e))),
        Ok(LineView::State(st)) => {
            let epoch = (s.epoch + 1) as u64;
            (
                SessionView {
                    epoch,
                    commissioned: spec_update_commissioning(s.commissioned, st.state, config),
                    orphaned_active: st.active,
                    status: st,
                    active: None,
                    urgent: seq![],
                    retired_urgent: seq![],
                    ..s
                },
                Ok(ReconnectView { epoch, retired: active_ids(s) + ops_of(s.urgent) }),
            )
        },
        Ok(_) => (s, Err(SessionErrorView::QueryDidNotReturnState)),
    }
}


// ---------------------------------------------------------------------------
// Executable session.
// ---------------------------------------------------------------------------

proof fn lemma_token_index(ps: Seq<PendingView>, c: Seq<char>, k: int)
    requires
        0 <= k <= ps.len(),
        forall|j: int| 0 <= j < k ==> (#[trigger] ps[j]).request.command != c,
    ensures
        k == ps.len() ==> token_index(ps, c) is None,
        k < ps.len() && ps[k].request.command == c ==> token_index(ps, c) == Some(k),
    decreases k,
{
    if k > 0 {
        let d = ps.drop_first();
        assert forall|j: int| 0 <= j < k - 1 implies (#[trigger] d[j]).request.command != c by {
            assert(d[j] == ps[j + 1]);
        }
        if k < ps.len() {
            assert(d[k - 1] == ps[k]);
        }
        lemma_token_index(d, c, k - 1);
    }
}

fn find_token(ps: &Vec<PendingRequest>, c: &LigatureCommandToken) -> (r: Option<usize>)
    ensures
        match r {
            Some(i) => token_index(pendings_view(ps@), c@) == Some(i as int) && i < ps@.len(),
            None => token_index(pendings_view(ps@), c@) is None,
        },
{
    let ghost v = pendings_view(ps@);
    let mut i: usize = 0;
    while i < ps.len()
        invariant
            i <= ps@.len(),
            v == pendings_view(ps@),
            forall|j: int| 0 <= j < i ==> (#[trigger] v[j]).request.command != c@,
        decreases ps@.len() - i,
    {
        if ps[i].request.command.same(c) {
            proof {
                lemma_token_index(v, c@, i as int);
            }
            return Some(i);
        }
        i = i + 1;
    }
    proof {
        lemma_token_index(v, c@, i as int);
    }
    None
}

enum TerminalOwner {
    Active,
    Urgent(usize),
    RetiredUrgent(usize),
}

spec fn owner_view(o: TerminalOwner) -> OwnerView {
    match o {
        TerminalOwner::Active => OwnerView::Active,
        TerminalOwner::Urgent(i) => OwnerView::Urgent(i as int),
        TerminalOwner::RetiredUrgent(i) => OwnerView::RetiredUrgent(i as int),
    }
}

fn cancelled_command(t: &ProtocolTerminal) -> (r: Option<LigatureCommandToken>)
    requires
        lookup(t@.fields, "CANCELLED"@) is Some,
        spec_optional_token("CANCELLED", lookup(t@.fields, "CANCELLED"@)->Some_0) is Ok,
    ensures
        opt_token(r) == terminal_cancelled(t@.fields),
{
    let v = chars_of(t.field("CANCELLED").unwrap());
    match super::protocol::parse_optional_token("CANCELLED", v.as_slice()) {
        Ok(r) => r,
        Err(_) => None,
    }
}

fn token_or_none_exec(t: &Option<LigatureCommandToken>) -> (s: &str)
    ensures
        s@ == token_or_none(opt_token(*t)),
{
    match t {
        Some(c) => c.as_str(),
        None => "NONE",
    }
}

fn same_optional_token(a: &Option<LigatureCommandToken>, b: &Option<LigatureCommandToken>) -> (eq: bool)
    ensures
        eq == (opt_token(*a) == opt_token(*b)),
{
    match (a, b) {
        (Some(x), Some(y)) => x.same(y),
        (None, None) => true,
        _ => false,
    }
}

fn validate_cancelled(
    received: &Option<LigatureCommandToken>,
    expected: &Option<LigatureCommandToken>,
    allow_completed_orphan: bool,
) -> (r: Result<(), LigatureSessionError>)
    ensures
        session_result(r) == spec_validate_cancelled(
            opt_token(*received),
            opt_token(*expected),
            allow_completed_orphan,
        ),
{
    if same_optional_token(received, expected) || (allow_completed_orphan && received.is_none()) {
        return Ok(());
    }
    Err(
        LigatureSessionError::ContradictoryTerminal {
            expected: join2("CANCELLED:", token_or_none_exec(expected)),
            received: join2("CANCELLED:", token_or_none_exec(received)),
        },
    )
}

fn duplicate_token(t: &Option<LigatureCommandToken>) -> (r: Option<LigatureCommandToken>)
    ensures
        opt_token(r) == opt_token(*t),
{
    match t {
        Some(c) => Some(c.duplicate()),
        None => None,
    }
}

fn commissioning_from_state(state: LigatureState) -> (r: Option<bool>)
    ensures
        r == spec_commissioning_from_state(state),
{
    match state {
        LigatureState::CommissioningOnly => Some(false),
        LigatureState::Aligning | LigatureState::Fault => None,
        _ => Some(true),
    }
}

impl LigatureSession {
    /// Start a session from the required parseable `?` response.
    pub fn from_query(line: &str, numbers: &FiniteNumbers) -> (r: Result<Self, LigatureSessionError>)
        ensures
            session_result(r) == spec_from_query(line@, None, numbers@),
            r matches Ok(s) ==> spec_wf(s@),
    {
        Self::from_query_with_commissioning(line, None, numbers)
    }

    /// Start a session whose commissioning is also known from the configuration.
    pub fn from_query_with_commissioning(
        line: &str,
        commissioned_configuration: Option<bool>,
        numbers: &FiniteNumbers,
    ) -> (r: Result<Self, LigatureSessionError>)
        ensures
            session_result(r) == spec_from_query(line@, commissioned_configuration, numbers@),
            r matches Ok(s) ==> spec_wf(s@),
    {
        let status = match parse_ligature_line(line, numbers) {
            Err(e) => {
                return Err(LigatureSessionError::Protocol(e));
            },
            Ok(LigatureLine::State(status)) => status,
            Ok(_) => {
                return Err(LigatureSessionError::QueryDidNotReturnState);
            },
        };
        let commissioned = match commissioned_configuration {
            Some(b) => Some(b),
            None => commissioning_from_state(status.state),
        };
        let orphaned_active = duplicate_token(&status.active);
        let s = LigatureSession {
            epoch: ConnectionEpoch(1),
            next_operation_id: 1,
            status,
            commissioned,
            active: None,
            orphaned_active,
            urgent: Vec::new(),
            retired_urgent: Vec::new(),
        };
        assert(pendings_view(s.urgent@) =~= Seq::<PendingView>::empty());
        assert(pendings_view(s.retired_urgent@) =~= Seq::<PendingView>::empty());
        Ok(s)
    }

    /// A successfully queried session is connected even when uncommissioned.
    pub fn is_connected(&self) -> (b: bool)
        ensures
            b,
    {
        true
    }

    /// Connection epoch accepting responses.
    pub fn epoch(&self) -> (e: ConnectionEpoch)
        ensures
            e.0 == self@.epoch,
    {
        self.epoch
    }

    /// Identity the next begun request receives.
    pub fn next_operation_id(&self) -> (n: u64)
        ensures
            n == self@.next_operation_id,
    {
        self.next_operation_id
    }

    /// Whether production motion may pass the commissioning gate.
    pub fn scan_enabled(&self) -> (b: bool)
        ensures
            b == spec_scan_enabled(self@),
    {
        self.commissioned == Some(true) && !matches!(
            self.status.state,
            LigatureState::CommissioningOnly | LigatureState::Fault
        )
    }

    /// Whether the current lifecycle permits stationary Camera acquisition.
    pub fn capture_ready(&self) -> (b: bool)
        ensures
            b == spec_capture_ready(self@),
    {
        self.scan_enabled() && self.active.is_none() && self.orphaned_active.is_none()
            && self.urgent.len() == 0 && matches!(
            self.status.state,
            LigatureState::Idle | LigatureState::Armed | LigatureState::OverridePending
                | LigatureState::Ready | LigatureState::Holding
        )
    }

    /// Current public status from the query or latest heartbeat.
    pub fn status(&self) -> (s: &LigatureStatus)
        ensures
            s@ == self@.status,
    {
        &self.status
    }

    /// Whether the query reported an exclusive operation this session did not start.
    pub fn has_orphaned_active(&self) -> (b: bool)
        ensures
            b == self@.orphaned_active is Some,
    {
        self.orphaned_active.is_some()
    }

    /// Begin one command without adding a host-side queue.
    pub fn begin(&mut self, command: LigatureCommand) -> (r: Result<
        LigatureRequest,
        LigatureSessionError,
    >)
        requires
            spec_wf(old(self)@),
            old(self)@.next_operation_id < u64::MAX,
        ensures
            (final(self)@, session_result(r)) == spec_begin(old(self)@, command),
            spec_wf(final(self)@),
    {
        if command.requires_commissioning() && !self.scan_enabled() {
            return Err(LigatureSessionError::CommissioningOnly);
        }
        let priority = command.priority();
        let token = command.token();
        match priority {
            RequestPriority::Ordinary => {
                if self.active.is_some() || self.orphaned_active.is_some() {
                    return Err(LigatureSessionError::Busy);
                }
            },
            RequestPriority::Urgent => {
                if find_token(&self.urgent, &token).is_some() || find_token(
                    &self.retired_urgent,
                    &token,
                ).is_some() {
                    return Err(LigatureSessionError::Busy);
                }
            },
        }
        let ghost old_view = self@;
        let request = LigatureRequest {
            operation_id: OperationId(self.next_operation_id),
            epoch: self.epoch,
            command: token,
            line: owned(command.wire()),
            priority,
        };
        self.next_operation_id = self.next_operation_id + 1;
        let pending = PendingRequest {
            request: request.duplicate(),
            command_type: command,
            expects_acceptance: command.expects_acceptance(),
            accepted: false,
        };
        match priority {
            RequestPriority::Ordinary => {
                self.active = Some(pending);
            },
            RequestPriority::Urgent => {
                self.urgent.push(pending);
                assert(pendings_view(self.urgent@) =~= old_view.urgent.push(pending@));
            },
        }
        proof {
            lemma_begin_preserves_wf(old_view, command);
        }
        Ok(request)
    }

    fn update_commissioning(&mut self, state: LigatureState, config: Option<bool>)
        ensures
            final(self)@ == (SessionView {
                commissioned: spec_update_commissioning(old(self)@.commissioned, state, config),
                ..old(self)@
            }),
    {
        match config {
            Some(c) => {
                self.commissioned = Some(c);
            },
            None => {
                if self.commissioned.is_none() {
                    self.commissioned = commissioning_from_state(state);
                }
            },
        }
    }
}

impl LigatureSession {
    fn accept(&mut self, command: LigatureCommandToken) -> (r: Result<LigatureEvent, LigatureSessionError>)
        ensures
            (final(self)@, session_result(r)) == spec_accept(old(self)@, command@),
    {
        let ghost s = self@;
        match find_token(&self.urgent, &command) {
            Some(i) => {
                assert(pendings_view(self.urgent@)[i as int] == self.urgent@[i as int]@);
                if !self.urgent[i].expects_acceptance {
                    return Err(
                        LigatureSessionError::ContradictoryTerminal {
                            expected: join2("immediate terminal for ", command.as_str()),
                            received: join2("ok ", command.as_str()),
                        },
                    );
                }
                if self.urgent[i].accepted {
                    return Err(
                        LigatureSessionError::ContradictoryTerminal {
                            expected: join2("one acceptance for ", command.as_str()),
                            received: join2("second acceptance for ", command.as_str()),
                        },
                    );
                }
                let mut q = self.urgent.remove(i);
                q.accepted = true;
                let operation_id = q.request.operation_id;
                self.urgent.insert(i, q);
                assert(pendings_view(self.urgent@) =~= s.urgent.update(
                    i as int,
                    PendingView { accepted: true, ..s.urgent[i as int] },
                ));
                Ok(LigatureEvent::Accepted(operation_id))
            },
            None => {
                let matches_active = match &self.active {
                    Some(a) => a.request.command.same(&command),
                    None => false,
                };
                if !matches_active {
                    return Err(
                        LigatureSessionError::UnmatchedAcceptance { command: owned(command.as_str()) },
                    );
                }
                let mut a = self.active.take().unwrap();
                if !a.expects_acceptance {
                    self.active = Some(a);
                    return Err(
                        LigatureSessionError::ContradictoryTerminal {
                            expected: join2("immediate terminal for ", command.as_str()),
                            received: join2("ok ", command.as_str()),
                        },
                    );
                }
                if a.accepted {
                    self.active = Some(a);
                    return Err(
                        LigatureSessionError::ContradictoryTerminal {
                            expected: join2("one acceptance for ", command.as_str()),
                            received: join2("second acceptance for ", command.as_str()),
                        },
                    );
                }
                a.accepted = true;
                let operation_id = a.request.operation_id;
                self.active = Some(a);
                Ok(LigatureEvent::Accepted(operation_id))
            },
        }
    }

    fn terminal_owner(&self, command: &LigatureCommandToken) -> (r: Result<
        TerminalOwner,
        LigatureSessionError,
    >)
        ensures
            match r {
                Ok(o) => spec_terminal_owner(self@, command@) == Ok::<OwnerView, SessionErrorView>(
                    owner_view(o),
                ) && (o matches TerminalOwner::Urgent(i) ==> i < self.urgent@.len()) && (
                o matches TerminalOwner::RetiredUrgent(i) ==> i < self.retired_urgent@.len()),
                Err(e) => spec_terminal_owner(self@, command@) == Err::<OwnerView, SessionErrorView>(
                    e@,
                ),
            },
    {
        if let Some(i) = find_token(&self.urgent, command) {
            return Ok(TerminalOwner::Urgent(i));
        }
        if let Some(i) = find_token(&self.retired_urgent, command) {
            return Ok(TerminalOwner::RetiredUrgent(i));
        }
        match &self.active {
            None => Err(LigatureSessionError::UnmatchedTerminal { command: owned(command.as_str()) }),
            Some(a) => {
                if !a.request.command.same(command) {
                    return Err(
                        LigatureSessionError::ContradictoryTerminal {
                            expected: owned(a.request.command.as_str()),
                            received: owned(command.as_str()),
                        },
                    );
                }
                Ok(TerminalOwner::Active)
            },
        }
    }

    fn complete_urgent(&mut self, index: usize, terminal: ProtocolTerminal, nums: &FiniteNumbers) -> (r: Result<
        LigatureEvent,
        LigatureSessionError,
    >)
        requires
            index < old(self).urgent@.len(),
            spec_wf(old(self)@),
        ensures
            (final(self)@, session_result(r)) == spec_complete_urgent(
                old(self)@,
                index as int,
                terminal@,
                nums@,
            ),
    {
        let ghost s = self@;
        assert(pendings_view(self.urgent@)[index as int] == self.urgent@[index as int]@);
        let command_type = self.urgent[index].command_type;
        match command_type.validate_done(&terminal, nums) {
            Err(e) => {
                return Err(LigatureSessionError::Protocol(e));
            },
            Ok(()) => {},
        }
        assert(s.urgent[index as int].request.priority == RequestPriority::Urgent);
        assert(command_type is Cancel || command_type is Stop);
        assert(spec_check_field(terminal@.fields, "CANCELLED", FieldCheck::Cancelled, nums@) is Ok);
        let cancelled = cancelled_command(&terminal);
        let expected = match &self.active {
            Some(a) => Some(a.request.command.duplicate()),
            None => duplicate_token(&self.orphaned_active),
        };
        let allow = self.active.is_none() && self.orphaned_active.is_some();
        validate_cancelled(&cancelled, &expected, allow)?;
        let u = self.urgent.remove(index);
        assert(pendings_view(self.urgent@) =~= s.urgent.remove(index as int));
        let by = u.request.operation_id;
        match self.active.take() {
            Some(a) => Ok(
                LigatureEvent::Cancelled { operation_id: a.request.operation_id, by, terminal },
            ),
            None => {
                self.orphaned_active = None;
                Ok(LigatureEvent::Completed { operation_id: by, terminal })
            },
        }
    }

    fn complete_done(&mut self, terminal: ProtocolTerminal, nums: &FiniteNumbers) -> (r: Result<
        LigatureEvent,
        LigatureSessionError,
    >)
        requires
            spec_wf(old(self)@),
        ensures
            (final(self)@, session_result(r)) == spec_complete_done(old(self)@, terminal@, nums@),
    {
        let ghost s = self@;
        let owner = self.terminal_owner(terminal.command_token())?;
        match owner {
            TerminalOwner::Urgent(i) => self.complete_urgent(i, terminal, nums),
            TerminalOwner::RetiredUrgent(i) => {
                assert(pendings_view(self.retired_urgent@)[i as int] == self.retired_urgent@[i as int]@);
                let command_type = self.retired_urgent[i].command_type;
                match command_type.validate_done(&terminal, nums) {
                    Err(e) => {
                        return Err(LigatureSessionError::Protocol(e));
                    },
                    Ok(()) => {},
                }
                let p = self.retired_urgent.remove(i);
                assert(pendings_view(self.retired_urgent@) =~= s.retired_urgent.remove(i as int));
                Ok(LigatureEvent::RetiredIgnored(p.request.operation_id))
            },
            TerminalOwner::Active => {
                let a = self.active.take().unwrap();
                match a.command_type.validate_done(&terminal, nums) {
                    Err(e) => {
                        self.active = Some(a);
                        return Err(LigatureSessionError::Protocol(e));
                    },
                    Ok(()) => {},
                }
                if a.expects_acceptance && !a.accepted {
                    let expected = join2("ok ", a.request.line.as_str());
                    let received = join2("done ", terminal.command_token().as_str());
                    self.active = Some(a);
                    return Err(LigatureSessionError::ContradictoryTerminal { expected, received });
                }
                Ok(LigatureEvent::Completed { operation_id: a.request.operation_id, terminal })
            },
        }
    }

    fn complete_error(&mut self, terminal: ProtocolErrorTerminal) -> (r: Result<
        LigatureEvent,
        LigatureSessionError,
    >)
        ensures
            (final(self)@, session_result(r)) == spec_complete_error(old(self)@, terminal@),
    {
        let ghost s = self@;
        let owner = self.terminal_owner(terminal.command_token())?;
        match owner {
            TerminalOwner::Urgent(i) => {
                assert(pendings_view(self.urgent@)[i as int] == self.urgent@[i as int]@);
                let p = self.urgent.remove(i);
                assert(pendings_view(self.urgent@) =~= s.urgent.remove(i as int));
                Ok(LigatureEvent::Failed { operation_id: p.request.operation_id, terminal })
            },
            TerminalOwner::RetiredUrgent(i) => {
                assert(pendings_view(self.retired_urgent@)[i as int] == self.retired_urgent@[i as int]@);
                let p = self.retired_urgent.remove(i);
                assert(pendings_view(self.retired_urgent@) =~= s.retired_urgent.remove(i as int));
                Ok(LigatureEvent::RetiredIgnored(p.request.operation_id))
            },
            TerminalOwner::Active => {
                let a = self.active.take().unwrap();
                Ok(LigatureEvent::Failed { operation_id: a.request.operation_id, terminal })
            },
        }
    }

    fn hard_fault(&mut self, fault: LigatureFault) -> (r: Result<LigatureEvent, LigatureSessionError>)
        ensures
            (final(self)@, session_result(r)) == spec_hard_fault(old(self)@, fault@),
    {
        let ghost s = self@;
        let expected = match &self.active {
            Some(a) => if a.expects_acceptance {
                Some(a.request.command.duplicate())
            } else {
                duplicate_token(&self.orphaned_active)
            },
            None => duplicate_token(&self.orphaned_active),
        };
        let allow = (match &self.active {
            None => true,
            Some(a) => !a.expects_acceptance,
        }) && self.orphaned_active.is_some();
        validate_cancelled(&fault.cancelled, &expected, allow)?;
        let mut retired: Vec<OperationId> = Vec::new();
        match self.active.take() {
            Some(a) => {
                retired.push(a.request.operation_id);
            },
            None => {},
        }
        assert(ids_view(retired@) =~= active_ids(s));
        self.orphaned_active = None;
        let mut urgent: Vec<PendingRequest> = Vec::new();
        std::mem::swap(&mut urgent, &mut self.urgent);
        let mut i: usize = 0;
        while i < urgent.len()
            invariant
                i <= urgent@.len(),
                pendings_view(urgent@) == s.urgent,
                ids_view(retired@) == active_ids(s) + ops_of(s.urgent).take(i as int),
            decreases urgent@.len() - i,
        {
            let ghost before = ids_view(retired@);
            retired.push(urgent[i].request.operation_id);
            assert(ops_of(s.urgent)[i as int] == urgent@[i as int]@.request.operation_id);
            assert(ids_view(retired@) =~= before.push(urgent@[i as int].request.operation_id.0));
            assert(ops_of(s.urgent).take(i + 1) =~= ops_of(s.urgent).take(i as int).push(
                ops_of(s.urgent)[i as int],
            ));
            i = i + 1;
        }
        assert(ops_of(s.urgent).take(i as int) =~= ops_of(s.urgent));
        self.retired_urgent.append(&mut urgent);
        assert(pendings_view(self.retired_urgent@) =~= s.retired_urgent + s.urgent);
        assert(pendings_view(self.urgent@) =~= Seq::<PendingView>::empty());
        Ok(LigatureEvent::HardFault { fault, retired })
    }

    /// Route a line tagged by the reader's connection epoch.
    pub fn receive(&mut self, epoch: ConnectionEpoch, line: &str, numbers: &FiniteNumbers) -> (r: Result<
        LigatureEvent,
        LigatureSessionError,
    >)
        requires
            spec_wf(old(self)@),
        ensures
            (final(self)@, session_result(r)) == spec_receive(old(self)@, epoch.0, line@, numbers@),
            spec_wf(final(self)@),
    {
        proof {
            lemma_receive_preserves_wf(self@, epoch.0, line@, numbers@);
        }
        if epoch.0 < self.epoch.0 {
            return Ok(LigatureEvent::StaleIgnored(epoch));
        }
        if epoch.0 > self.epoch.0 {
            return Err(LigatureSessionError::FutureEpoch { received: epoch, current: self.epoch });
        }
        let parsed = match parse_ligature_line(line, numbers) {
            Ok(l) => l,
            Err(e) => {
                return Err(LigatureSessionError::Protocol(e));
            },
        };
        match parsed {
            LigatureLine::State(status) => {
                self.update_commissioning(status.state, None);
                self.status = status.duplicate();
                Ok(LigatureEvent::Status(status))
            },
            LigatureLine::Status(status) => {
                self.update_commissioning(status.state, None);
                self.status = status.duplicate();
                Ok(LigatureEvent::Status(status))
            },
            LigatureLine::Accepted { command } => self.accept(command),
            LigatureLine::Done(terminal) => self.complete_done(terminal, numbers),
            LigatureLine::Error(terminal) => self.complete_error(terminal),
            LigatureLine::Fault(fault) => self.hard_fault(fault),
            LigatureLine::Capture(sample) => Ok(LigatureEvent::Capture(sample)),
        }
    }

    /// Retire the old epoch and install the new connection's query response.
    pub fn reconnect(&mut self, query: &str, numbers: &FiniteNumbers) -> (r: Result<
        LigatureReconnect,
        LigatureSessionError,
    >)
        requires
            spec_wf(old(self)@),
            old(self)@.epoch < u64::MAX,
        ensures
            (final(self)@, session_result(r)) == spec_reconnect(old(self)@, query@, None, numbers@),
            spec_wf(final(self)@),
    {
        self.reconnect_with_commissioning(query, None, numbers)
    }

    /// Reconnect with commissioning evidence from the configuration.
    pub fn reconnect_with_commissioning(
        &mut self,
        query: &str,
        commissioned_configuration: Option<bool>,
        numbers: &FiniteNumbers,
    ) -> (r: Result<LigatureReconnect, LigatureSessionError>)
        requires
            spec_wf(old(self)@),
            old(self)@.epoch < u64::MAX,
        ensures
            (final(self)@, session_result(r)) == spec_reconnect(
                old(self)@,
                query@,
                commissioned_configuration,
                numbers@,
            ),
            spec_wf(final(self)@),
    {
        let ghost s = self@;
        let status = match parse_ligature_line(query, numbers) {
            Err(e) => {
                return Err(LigatureSessionError::Protocol(e));
            },
            Ok(LigatureLine::State(status)) => status,
            Ok(_) => {
                return Err(LigatureSessionError::QueryDidNotReturnState);
            },
        };
        let mut retired: Vec<OperationId> = Vec::new();
        match self.active.take() {
            Some(a) => {
                retired.push(a.request.operation_id);
            },
            None => {},
        }
        assert(ids_view(retired@) =~= active_ids(s));
        let mut i: usize = 0;
        while i < self.urgent.len()
            invariant
                i <= self.urgent@.len(),
                pendings_view(self.urgent@) == s.urgent,
                ids_view(retired@) == active_ids(s) + ops_of(s.urgent).take(i as int),
            decreases self.urgent@.len() - i,
        {
            let ghost before = ids_view(retired@);
            retired.push(self.urgent[i].request.operation_id);
            assert(ops_of(s.urgent)[i as int] == self.urgent@[i as int]@.request.operation_id);
            assert(ids_view(retired@) =~= before.push(self.urgent@[i as int].request.operation_id.0));
            assert(ops_of(s.urgent).take(i + 1) =~= ops_of(s.urgent).take(i as int).push(
                ops_of(s.urgent)[i as int],
            ));
            i = i + 1;
        }
        assert(ops_of(s.urgent).take(i as int) =~= ops_of(s.urgent));
        self.urgent.clear();
        self.retired_urgent.clear();
        self.epoch = ConnectionEpoch(self.epoch.0 + 1);
        self.update_commissioning(status.state, commissioned_configuration);
        self.orphaned_active = duplicate_token(&status.active);
        self.status = status;
        assert(pendings_view(self.urgent@) =~= Seq::<PendingView>::empty());
        assert(pendings_view(self.retired_urgent@) =~= Seq::<PendingView>::empty());
        Ok(LigatureReconnect { epoch: self.epoch, retired })
    }
}

/// Routing a line keeps the session well-formed.
pub proof fn lemma_receive_preserves_wf(s: SessionView, epoch: u64, line: Seq<char>, nums: Set<Seq<char>>)
    requires
        spec_wf(s),
    ensures
        spec_wf(spec_receive(s, epoch, line, nums).0),
{
    if epoch == s.epoch {
        match spec_parse_line(line, nums) {
            Ok(LineView::Accepted(c)) => {
                lemma_token_index_none(s.urgent, c);
                let s2 = spec_receive(s, epoch, line, nums).0;
                if let Some(i) = token_index(s.urgent, c) {
                    assert forall|j: int| 0 <= j < s2.urgent.len() implies (#[trigger] s2.urgent[j]).request
                        == s.urgent[j].request && s2.urgent[j].command_type == s.urgent[j].command_type by {}
                }
            },
            Ok(LineView::Done(t)) => {
                lemma_token_index_none(s.urgent, t.command);
                lemma_token_index_none(s.retired_urgent, t.command);
                match spec_terminal_owner(s, t.command) {
                    Ok(OwnerView::Urgent(i)) => {
                        lemma_urgent_remove_wf(s, i);
                    },
                    Ok(OwnerView::RetiredUrgent(i)) => {
                        lemma_retired_remove_wf(s, i);
                    },
                    _ => {},
                }
            },
            Ok(LineView::Error(t)) => {
                lemma_token_index_none(s.urgent, t.command);
                lemma_token_index_none(s.retired_urgent, t.command);
                match spec_terminal_owner(s, t.command) {
                    Ok(OwnerView::Urgent(i)) => {
                        lemma_urgent_remove_wf(s, i);
                    },
                    Ok(OwnerView::RetiredUrgent(i)) => {
                        lemma_retired_remove_wf(s, i);
                    },
                    _ => {},
                }
            },
            Ok(LineView::Fault(f)) => {
                lemma_fault_wf(s);
            },
            _ => {},
        }
    }
}

proof fn lemma_urgent_remove_wf(s: SessionView, i: int)
    requires
        spec_wf(s),
        0 <= i < s.urgent.len(),
    ensures
        spec_wf(SessionView { urgent: s.urgent.remove(i), ..s }),
        spec_wf(SessionView { urgent: s.urgent.remove(i), active: None, ..s }),
        spec_wf(SessionView { urgent: s.urgent.remove(i), orphaned_active: None, ..s }),
{
    let u = s.urgent.remove(i);
    assert forall|k: int| 0 <= k < u.len() implies #[trigger] u[k] == s.urgent[if k < i { k } else { k + 1 }] by {}
    assert(distinct_ops(u));
    assert(distinct_tokens(u));
    assert(disjoint(u, s.retired_urgent));
    assert(all_pending_wf(u, s.epoch, s.next_operation_id, RequestPriority::Urgent));
}

proof fn lemma_retired_remove_wf(s: SessionView, i: int)
    requires
        spec_wf(s),
        0 <= i < s.retired_urgent.len(),
    ensures
        spec_wf(SessionView { retired_urgent: s.retired_urgent.remove(i), ..s }),
{
    let u = s.retired_urgent.remove(i);
    assert forall|k: int| 0 <= k < u.len() implies #[trigger] u[k] == s.retired_urgent[if k < i { k } else { k + 1 }] by {}
    assert(distinct_ops(u));
    assert(distinct_tokens(u));
    assert(disjoint(s.urgent, u));
    assert(all_pending_wf(u, s.epoch, s.next_operation_id, RequestPriority::Urgent));
}

proof fn lemma_fault_wf(s: SessionView)
    requires
        spec_wf(s),
    ensures
        spec_wf(
            SessionView {
                active: None,
                orphaned_active: None,
                urgent: seq![],
                retired_urgent: s.retired_urgent + s.urgent,
                ..s
            },
        ),
{
    let r = s.retired_urgent + s.urgent;
    let n = s.retired_urgent.len();
    assert forall|k: int| 0 <= k < r.len() implies #[trigger] r[k] == if k < n { s.retired_urgent[k] } else { s.urgent[k - n] } by {}
    assert(distinct_ops(r));
    assert(distinct_tokens(r));
    assert(all_pending_wf(r, s.epoch, s.next_operation_id, RequestPriority::Urgent));
    let e: Seq<PendingView> = seq![];
    assert(disjoint(e, r));
}

/// Beginning a command keeps the session well-formed.
pub proof fn lemma_begin_preserves_wf(s: SessionView, c: LigatureCommand)
    requires
        spec_wf(s),
        s.next_operation_id < u64::MAX,
    ensures
        spec_wf(spec_begin(s, c).0),
{
    let s2 = spec_begin(s, c).0;
    if spec_begin(s, c).1 is Ok {
        let w = spec_wire(c)@;
        if spec_priority(c) == RequestPriority::Urgent {
            lemma_token_index_none(s.urgent, w);
            lemma_token_index_none(s.retired_urgent, w);
            assert(s2.urgent == s.urgent.push(s2.urgent.last()));
            assert(all_pending_wf(s2.urgent, s2.epoch, s2.next_operation_id, RequestPriority::Urgent));
            assert(distinct_ops(s2.urgent));
            assert(distinct_tokens(s2.urgent));
            assert(disjoint(s2.urgent, s2.retired_urgent));
        }
    }
}

proof fn lemma_token_index_none(ps: Seq<PendingView>, c: Seq<char>)
    ensures
        token_index(ps, c) is None ==> forall|j: int| 0 <= j < ps.len() ==> (#[trigger] ps[j]).request.command != c,
        token_index(ps, c) matches Some(i) ==> 0 <= i < ps.len() && ps[i].request.command == c,
    decreases ps.len(),
{
    if ps.len() > 0 {
        let d = ps.drop_first();
        lemma_token_index_none(d, c);
        if token_index(ps, c) is None {
            assert forall|j: int| 0 <= j < ps.len() implies (#[trigger] ps[j]).request.command != c by {
                if j > 0 {
                    assert(ps[j] == d[j - 1]);
                }
            }
        }
    }
}


// ---------------------------------------------------------------------------
// Laws of the session.
// ---------------------------------------------------------------------------

/// A response tagged with an older connection epoch is ignored and changes nothing.
pub proof fn law_stale_response_is_ignored(s: SessionView, epoch: u64, line: Seq<char>, nums: Set<Seq<char>>)
    requires
        epoch < s.epoch,
    ensures
        spec_receive(s, epoch, line, nums) == (s, Ok::<EventView, SessionErrorView>(
            EventView::StaleIgnored(epoch),
        )),
{
}

/// A rejected line, and a rejected command, leave the session unchanged.
pub proof fn law_rejection_changes_nothing(
    s: SessionView,
    epoch: u64,
    line: Seq<char>,
    nums: Set<Seq<char>>,
    c: LigatureCommand,
)
    ensures
        spec_receive(s, epoch, line, nums).1 is Err ==> spec_receive(s, epoch, line, nums).0 == s,
        spec_begin(s, c).1 is Err ==> spec_begin(s, c).0 == s,
        spec_reconnect(s, line, None, nums).1 is Err ==> spec_reconnect(s, line, None, nums).0 == s,
{
}

/// Routing a line never changes the connection epoch nor the identity counter,
/// and never forgets commissioning evidence once it is known.
pub proof fn law_receive_keeps_epoch_and_evidence(
    s: SessionView,
    epoch: u64,
    line: Seq<char>,
    nums: Set<Seq<char>>,
)
    ensures
        spec_receive(s, epoch, line, nums).0.epoch == s.epoch,
        spec_receive(s, epoch, line, nums).0.next_operation_id == s.next_operation_id,
        s.commissioned is Some ==> spec_receive(s, epoch, line, nums).0.commissioned == s.commissioned,
{
}

/// A begun command receives a fresh identity on the current epoch, distinct
/// from every outstanding lifecycle, and the counter advances by one.
pub proof fn law_begin_uses_fresh_identity(s: SessionView, c: LigatureCommand)
    requires
        spec_wf(s),
        s.next_operation_id < u64::MAX,
    ensures
        spec_begin(s, c).1 matches Ok(r) ==> {
            &&& r.operation_id == s.next_operation_id
            &&& r.epoch == s.epoch
            &&& !is_outstanding(s, r.operation_id)
            &&& is_outstanding(spec_begin(s, c).0, r.operation_id)
            &&& spec_begin(s, c).0.next_operation_id == s.next_operation_id + 1
        },
{
    if spec_begin(s, c).1 is Ok && spec_priority(c) == RequestPriority::Urgent {
        let s2 = spec_begin(s, c).0;
        assert(s2.urgent[s2.urgent.len() - 1].request.operation_id == s.next_operation_id);
    }
}

/// At most one ordinary operation is outstanding: a second one is refused while
/// one is active or orphaned, and an urgent token is never outstanding twice.
pub proof fn law_no_host_side_queue(s: SessionView, c: LigatureCommand)
    ensures
        spec_priority(c) == RequestPriority::Ordinary && (s.active is Some || s.orphaned_active is Some)
            ==> spec_begin(s, c).1 is Err,
        spec_priority(c) == RequestPriority::Urgent && token_index(s.urgent, spec_wire(c)@) is Some
            ==> spec_begin(s, c).1 is Err,
{
}

/// A hard fault retires the active operation and every urgent command.
pub proof fn law_hard_fault_retires_all_work(
    s: SessionView,
    epoch: u64,
    line: Seq<char>,
    nums: Set<Seq<char>>,
)
    requires
        epoch == s.epoch,
        spec_parse_line(line, nums) is Ok,
        spec_parse_line(line, nums)->Ok_0 is Fault,
        spec_receive(s, epoch, line, nums).1 is Ok,
    ensures
        spec_receive(s, epoch, line, nums).0.active is None,
        spec_receive(s, epoch, line, nums).0.orphaned_active is None,
        spec_receive(s, epoch, line, nums).0.urgent.len() == 0,
        spec_receive(s, epoch, line, nums).1->Ok_0 matches EventView::HardFault { retired, .. }
            && retired == active_ids(s) + ops_of(s.urgent),
{
}

/// Reconnecting installs the next epoch and retires every outstanding lifecycle.
pub proof fn law_reconnect_retires_all_work(
    s: SessionView,
    query: Seq<char>,
    config: Option<bool>,
    nums: Set<Seq<char>>,
)
    requires
        s.epoch < u64::MAX,
        spec_reconnect(s, query, config, nums).1 is Ok,
    ensures
        spec_reconnect(s, query, config, nums).0.epoch == s.epoch + 1,
        spec_reconnect(s, query, config, nums).0.active is None,
        spec_reconnect(s, query, config, nums).0.urgent.len() == 0,
        spec_reconnect(s, query, config, nums).0.retired_urgent.len() == 0,
        spec_reconnect(s, query, config, nums).1->Ok_0.retired == active_ids(s) + ops_of(s.urgent),
{
}

/// Capture readiness implies a commissioned, stationary lifecycle without
/// outstanding motion commands.
pub proof fn law_capture_ready_is_stationary(s: SessionView)
    requires
        spec_capture_ready(s),
    ensures
        spec_scan_enabled(s),
        s.active is None,
        s.orphaned_active is None,
        s.urgent.len() == 0,
        s.status.state != LigatureState::Moving,
        s.status.state != LigatureState::Homing,
        s.status.state != LigatureState::TouchingDown,
{
}

/// Whether an identity belongs to an outstanding lifecycle: the active
/// operation, an urgent command, or a retired urgent command.
pub open spec fn is_outstanding(s: SessionView, x: u64) -> bool {
    ||| (s.active matches Some(a) && a.request.operation_id == x)
    ||| (exists|i: int| 0 <= i < s.urgent.len() && (#[trigger] s.urgent[i]).request.operation_id == x)
    ||| (exists|i: int| 0 <= i < s.retired_urgent.len() && (#[trigger] s.retired_urgent[i]).request.operation_id == x)
}

/// What a routed event says about the lifecycles it settles.
pub open spec fn settles_once(s: SessionView, s2: SessionView, r: Result<EventView, SessionErrorView>) -> bool {
    match r {
        Ok(EventView::Completed { operation_id, .. }) => is_outstanding(s, operation_id)
            && !is_outstanding(s2, operation_id),
        Ok(EventView::Failed { operation_id, .. }) => is_outstanding(s, operation_id)
            && !is_outstanding(s2, operation_id),
        Ok(EventView::Cancelled { operation_id, by, .. }) => is_outstanding(s, operation_id)
            && !is_outstanding(s2, operation_id) && is_outstanding(s, by) && !is_outstanding(s2, by),
        Ok(EventView::RetiredIgnored(operation_id)) => is_outstanding(s, operation_id)
            && !is_outstanding(s2, operation_id),
        _ => true,
    }
}

/// A terminal settles only a lifecycle that was outstanding, and that
/// lifecycle is no longer outstanding afterwards: no request is completed twice.
pub proof fn law_terminal_settles_once(s: SessionView, epoch: u64, line: Seq<char>, nums: Set<Seq<char>>)
    requires
        spec_wf(s),
    ensures
        settles_once(s, spec_receive(s, epoch, line, nums).0, spec_receive(s, epoch, line, nums).1),
{
    if epoch == s.epoch {
        match spec_parse_line(line, nums) {
            Ok(LineView::Done(t)) => {
                lemma_token_index_none(s.urgent, t.command);
                lemma_token_index_none(s.retired_urgent, t.command);
                match spec_terminal_owner(s, t.command) {
                    Ok(OwnerView::Urgent(i)) => lemma_settle_urgent(s, i),
                    Ok(OwnerView::RetiredUrgent(i)) => lemma_settle_retired(s, i),
                    Ok(OwnerView::Active) => lemma_settle_active(s),
                    _ => {},
                }
            },
            Ok(LineView::Error(t)) => {
                lemma_token_index_none(s.urgent, t.command);
                lemma_token_index_none(s.retired_urgent, t.command);
                match spec_terminal_owner(s, t.command) {
                    Ok(OwnerView::Urgent(i)) => lemma_settle_urgent(s, i),
                    Ok(OwnerView::RetiredUrgent(i)) => lemma_settle_retired(s, i),
                    Ok(OwnerView::Active) => lemma_settle_active(s),
                    _ => {},
                }
            },
            _ => {},
        }
    }
}

proof fn lemma_settle_urgent(s: SessionView, i: int)
    requires
        spec_wf(s),
        0 <= i < s.urgent.len(),
    ensures
        is_outstanding(s, s.urgent[i].request.operation_id),
        !is_outstanding(SessionView { urgent: s.urgent.remove(i), ..s }, s.urgent[i].request.operation_id),
        !is_outstanding(SessionView { urgent: s.urgent.remove(i), active: None, ..s }, s.urgent[i].request.operation_id),
        !is_outstanding(SessionView { urgent: s.urgent.remove(i), orphaned_active: None, ..s }, s.urgent[i].request.operation_id),
        s.active matches Some(a) ==> is_outstanding(s, a.request.operation_id) && !is_outstanding(
            SessionView { urgent: s.urgent.remove(i), active: None, ..s },
            a.request.operation_id,
        ),
{
    let x = s.urgent[i].request.operation_id;
    let u = s.urgent.remove(i);
    assert forall|k: int| 0 <= k < u.len() implies #[trigger] u[k] == s.urgent[if k < i { k } else { k + 1 }] by {}
    assert forall|k: int| 0 <= k < u.len() implies (#[trigger] u[k]).request.operation_id != x by {
        if k < i {
            assert(s.urgent[k].request.operation_id != s.urgent[i].request.operation_id);
        } else {
            assert(s.urgent[i].request.operation_id != s.urgent[k + 1].request.operation_id);
        }
    }
    assert forall|k: int| 0 <= k < s.retired_urgent.len() implies (#[trigger] s.retired_urgent[k]).request.operation_id != x by {
        assert(s.urgent[i].request.operation_id != s.retired_urgent[k].request.operation_id);
    }
}

proof fn lemma_settle_retired(s: SessionView, i: int)
    requires
        spec_wf(s),
        0 <= i < s.retired_urgent.len(),
    ensures
        is_outstanding(s, s.retired_urgent[i].request.operation_id),
        !is_outstanding(SessionView { retired_urgent: s.retired_urgent.remove(i), ..s }, s.retired_urgent[i].request.operation_id),
{
    let x = s.retired_urgent[i].request.operation_id;
    let u = s.retired_urgent.remove(i);
    assert forall|k: int| 0 <= k < u.len() implies #[trigger] u[k] == s.retired_urgent[if k < i { k } else { k + 1 }] by {}
    assert forall|k: int| 0 <= k < u.len() implies (#[trigger] u[k]).request.operation_id != x by {
        if k < i {
            assert(s.retired_urgent[k].request.operation_id != s.retired_urgent[i].request.operation_id);
        } else {
            assert(s.retired_urgent[i].request.operation_id != s.retired_urgent[k + 1].request.operation_id);
        }
    }
    assert forall|k: int| 0 <= k < s.urgent.len() implies (#[trigger] s.urgent[k]).request.operation_id != x by {
        assert(s.urgent[k].request.operation_id != s.retired_urgent[i].request.operation_id);
    }
}

proof fn lemma_settle_active(s: SessionView)
    requires
        spec_wf(s),
        s.active is Some,
    ensures
        is_outstanding(s, (s.active->Some_0).request.operation_id),
        !is_outstanding(SessionView { active: None, ..s }, (s.active->Some_0).request.operation_id),
{
}

/// The operator-facing text of a session error.
pub open spec fn session_error_message(e: SessionErrorView) -> Seq<char> {
    match e {
        SessionErrorView::Protocol(p) => protocol_error_message(p),
        SessionErrorView::Busy => "Ligature already has an outstanding ordinary operation"@,
        SessionErrorView::CommissioningOnly => "Ligature is connected for diagnostics but is not commissioned"@,
        SessionErrorView::FutureEpoch { received, current } =>
            "Ligature response belongs to future epoch ConnectionEpoch("@ + decimal(received as nat)
            + "), current epoch is ConnectionEpoch("@ + decimal(current as nat) + ")"@,
        SessionErrorView::UnmatchedAcceptance(c) => "unmatched Ligature acceptance for "@ + c,
        SessionErrorView::UnmatchedTerminal(c) => "unmatched Ligature terminal for "@ + c,
        SessionErrorView::ContradictoryTerminal { expected, received } =>
            "contradictory Ligature terminal: expected "@ + expected + ", received "@ + received,
        SessionErrorView::QueryDidNotReturnState => "Ligature query did not return a state frame"@,
    }
}

impl LigatureSessionError {
    /// The operator-facing text of the error.
    pub fn message(&self) -> (s: String)
        ensures
            s@ == session_error_message(self@),
    {
        let mut s = String::new();
        match self {
            LigatureSessionError::Protocol(p) => {
                s = p.message();
            },
            LigatureSessionError::Busy => {
                s.append("Ligature already has an outstanding ordinary operation");
            },
            LigatureSessionError::CommissioningOnly => {
                s.append("Ligature is connected for diagnostics but is not commissioned");
            },
            LigatureSessionError::FutureEpoch { received, current } => {
                s.append("Ligature response belongs to future epoch ConnectionEpoch(");
                push_decimal(&mut s, received.0);
                s.append("), current epoch is ConnectionEpoch(");
                push_decimal(&mut s, current.0);
                s.append(")");
            },
            LigatureSessionError::UnmatchedAcceptance { command } => {
                s.append("unmatched Ligature acceptance for ");
                s.append(command.as_str());
            },
            LigatureSessionError::UnmatchedTerminal { command } => {
                s.append("unmatched Ligature terminal for ");
                s.append(command.as_str());
            },
            LigatureSessionError::ContradictoryTerminal { expected, received } => {
                s.append("contradictory Ligature terminal: expected ");
                s.append(expected.as_str());
                s.append(", received ");
                s.append(received.as_str());
            },
            LigatureSessionError::QueryDidNotReturnState => {
                s.append("Ligature query did not return a state frame");
            },
        }
        assert(s@ =~= session_error_message(self@));
        s
    }
}

/// Production motion never passes the commissioning gate of a board that
/// is not enabled for scanning: the command is refused and nothing changes.
pub proof fn law_commissioning_gates_motion(s: SessionView, c: LigatureCommand)
    requires
        spec_requires_commissioning(c),
        !spec_scan_enabled(s),
    ensures
        spec_begin(s, c) == (s, Err::<RequestView, SessionErrorView>(SessionErrorView::CommissioningOnly)),
{
}


/// One call on a session: routing a line tagged with its epoch, installing a
/// new connection from its `?` reply, or beginning a command.
pub enum SessionInput {
    /// [`LigatureSession::receive`] of a line with its finite real-number texts.
    Line(u64, Seq<char>, Set<Seq<char>>),
    /// [`LigatureSession::reconnect`] with a query reply and its finite texts.
    Reconnect(Seq<char>, Set<Seq<char>>),
    /// [`LigatureSession::begin`] of a command.
    Begin(LigatureCommand),
}

/// The session after one call.
pub open spec fn spec_apply(s: SessionView, input: SessionInput) -> SessionView {
    match input {
        SessionInput::Line(epoch, line, nums) => spec_receive(s, epoch, line, nums).0,
        SessionInput::Reconnect(query, nums) => spec_reconnect(s, query, None, nums).0,
        SessionInput::Begin(c) => spec_begin(s, c).0,
    }
}

/// The session after a sequence of calls.
pub open spec fn spec_session_run(s: SessionView, inputs: Seq<SessionInput>) -> SessionView
    decreases inputs.len(),
{
    if inputs.len() == 0 {
        s
    } else {
        spec_apply(spec_session_run(s, inputs.drop_last()), inputs.last())
    }
}

/// The public state a call reports to the session, if it reports one: a
/// current-epoch `state` or `status` frame, or the `state` reply of a new
/// connection.
pub open spec fn reported_state(s: SessionView, input: SessionInput) -> Option<LigatureState> {
    match input {
        SessionInput::Line(epoch, line, nums) => if epoch == s.epoch {
            match spec_parse_line(line, nums) {
                Ok(LineView::State(st)) => Some(st.state),
                Ok(LineView::Status(st)) => Some(st.state),
                _ => None,
            }
        } else {
            None
        },
        SessionInput::Reconnect(query, nums) => match spec_parse_line(query, nums) {
            Ok(LineView::State(st)) => Some(st.state),
            _ => None,
        },
        SessionInput::Begin(_) => None,
    }
}

/// The states reported along a sequence of calls, in order.
pub open spec fn reported_states(s: SessionView, inputs: Seq<SessionInput>) -> Seq<LigatureState>
    decreases inputs.len(),
{
    if inputs.len() == 0 {
        seq![]
    } else {
        reported_states(s, inputs.drop_last()) + match reported_state(
            spec_session_run(s, inputs.drop_last()),
            inputs.last(),
        ) {
            Some(st) => seq![st],
            None => seq![],
        }
    }
}

/// Commissioning evidence of a history of states: fixed by the first state
/// that carries evidence, unknown before it.
pub open spec fn first_evidence(states: Seq<LigatureState>) -> Option<bool>
    decreases states.len(),
{
    if states.len() == 0 {
        None
    } else if first_evidence(states.drop_last()) is Some {
        first_evidence(states.drop_last())
    } else {
        spec_commissioning_from_state(states.last())
    }
}

/// The identities of the commands begun successfully along a sequence of calls.
pub open spec fn granted_ids(s: SessionView, inputs: Seq<SessionInput>) -> Seq<u64>
    decreases inputs.len(),
{
    if inputs.len() == 0 {
        seq![]
    } else {
        let before = spec_session_run(s, inputs.drop_last());
        granted_ids(s, inputs.drop_last()) + match inputs.last() {
            SessionInput::Begin(c) => match spec_begin(before, c).1 {
                Ok(r) => seq![r.operation_id],
                Err(_) => seq![],
            },
            _ => seq![],
        }
    }
}

/// One call moves commissioning and the public state only by the state it reports.
proof fn lemma_apply_evidence(s: SessionView, input: SessionInput)
    ensures
        match reported_state(s, input) {
            Some(st) => spec_apply(s, input).commissioned == spec_update_commissioning(
                s.commissioned,
                st,
                None,
            ) && spec_apply(s, input).status.state == st,
            None => spec_apply(s, input).commissioned == s.commissioned && spec_apply(
                s,
                input,
            ).status.state == s.status.state,
        },
        spec_apply(s, input).next_operation_id == match input {
            SessionInput::Begin(c) => spec_begin(s, c).0.next_operation_id,
            _ => s.next_operation_id,
        },
{
    if let SessionInput::Line(epoch, line, nums) = input {
        if epoch == s.epoch {
            if let Ok(LineView::Done(t)) = spec_parse_line(line, nums) {
                if let Ok(OwnerView::Urgent(i)) = spec_terminal_owner(s, t.command) {
                    assert(spec_receive(s, epoch, line, nums) == spec_complete_urgent(s, i, t, nums));
                }
            }
        }
    }
}

proof fn lemma_history_extends(h: Seq<LigatureState>, st: LigatureState)
    ensures
        first_evidence(h.push(st)) == spec_update_commissioning(first_evidence(h), st, None),
        h.push(st).last() == st,
{
    assert(h.push(st).drop_last() =~= h);
}

proof fn lemma_run_evidence(s0: SessionView, inputs: Seq<SessionInput>)
    requires
        s0.commissioned == spec_commissioning_from_state(s0.status.state),
    ensures
        spec_session_run(s0, inputs).commissioned == first_evidence(
            seq![s0.status.state] + reported_states(s0, inputs),
        ),
        spec_session_run(s0, inputs).status.state == (seq![s0.status.state] + reported_states(
            s0,
            inputs,
        )).last(),
    decreases inputs.len(),
{
    let h0 = seq![s0.status.state];
    if inputs.len() == 0 {
        assert(h0 + reported_states(s0, inputs) =~= h0);
        assert(h0.drop_last() =~= Seq::<LigatureState>::empty());
        assert(first_evidence(h0.drop_last()) is None);
        assert(first_evidence(h0) == spec_commissioning_from_state(s0.status.state));
    } else {
        let prev = inputs.drop_last();
        lemma_run_evidence(s0, prev);
        let before = spec_session_run(s0, prev);
        let hp = h0 + reported_states(s0, prev);
        lemma_apply_evidence(before, inputs.last());
        match reported_state(before, inputs.last()) {
            Some(st) => {
                assert(h0 + reported_states(s0, inputs) =~= hp.push(st));
                lemma_history_extends(hp, st);
            },
            None => {
                assert(h0 + reported_states(s0, inputs) =~= hp);
            },
        }
    }
}

/// Commissioning over any sequence of calls: a session opened by
/// [`LigatureSession::from_query`] and then given any mix of
/// [`LigatureSession::receive`], [`LigatureSession::reconnect`] and
/// [`LigatureSession::begin`] calls knows whether the board is commissioned
/// from the first reported state that carries evidence (a state other than
/// `ALIGNING` and `FAULT`: `COMMISSIONING_ONLY` means not commissioned, any
/// other means commissioned), never from later ones; its public state is the
/// last one reported; and [`LigatureSession::scan_enabled`] holds exactly
/// when that evidence says commissioned and the last state is neither
/// `COMMISSIONING_ONLY` nor `FAULT`. So `READY` then a reconnect in `FAULT`
/// disables scanning until an `IDLE` frame, while `COMMISSIONING_ONLY` stays
/// disabled through any later fault, clear and `IDLE`.
pub proof fn law_commissioning_follows_first_evidence(
    query: Seq<char>,
    nums: Set<Seq<char>>,
    inputs: Seq<SessionInput>,
)
    requires
        spec_from_query(query, None, nums) is Ok,
    ensures
        ({
            let s0 = spec_from_query(query, None, nums)->Ok_0;
            let h = seq![s0.status.state] + reported_states(s0, inputs);
            let s = spec_session_run(s0, inputs);
            &&& s.commissioned == first_evidence(h)
            &&& s.status.state == h.last()
            &&& spec_scan_enabled(s) == (first_evidence(h) == Some(true) && h.last()
                != LigatureState::CommissioningOnly && h.last() != LigatureState::Fault)
        }),
{
    let s0 = spec_from_query(query, None, nums)->Ok_0;
    lemma_run_evidence(s0, inputs);
}

proof fn lemma_run_ids(s0: SessionView, inputs: Seq<SessionInput>)
    requires
        s0.next_operation_id == 1,
        inputs.len() < u64::MAX - 1,
    ensures
        granted_ids(s0, inputs).len() <= inputs.len(),
        spec_session_run(s0, inputs).next_operation_id == granted_ids(s0, inputs).len() + 1,
        forall|k: int| 0 <= k < granted_ids(s0, inputs).len() ==> #[trigger] granted_ids(s0, inputs)[k]
            == k + 1,
    decreases inputs.len(),
{
    if inputs.len() > 0 {
        let prev = inputs.drop_last();
        lemma_run_ids(s0, prev);
        let before = spec_session_run(s0, prev);
        lemma_apply_evidence(before, inputs.last());
        let g = granted_ids(s0, prev);
        match inputs.last() {
            SessionInput::Begin(c) => {
                match spec_begin(before, c).1 {
                    Ok(r) => {
                        assert(granted_ids(s0, inputs) =~= g.push(r.operation_id));
                    },
                    Err(_) => {
                        assert(granted_ids(s0, inputs) =~= g);
                    },
                }
            },
            _ => {
                assert(granted_ids(s0, inputs) =~= g);
            },
        }
    }
}

/// Identities count up across every sequence of calls: the commands begun
/// successfully after a session opened receive 1, 2, 3, ... in order, across
/// reconnects, and the next identity is one more than the last granted.
pub proof fn law_granted_identities_count_up(
    query: Seq<char>,
    nums: Set<Seq<char>>,
    inputs: Seq<SessionInput>,
    k: int,
)
    requires
        spec_from_query(query, None, nums) is Ok,
        inputs.len() < u64::MAX - 1,
        0 <= k < granted_ids(spec_from_query(query, None, nums)->Ok_0, inputs).len(),
    ensures
        granted_ids(spec_from_query(query, None, nums)->Ok_0, inputs)[k] == k + 1,
        spec_session_run(spec_from_query(query, None, nums)->Ok_0, inputs).next_operation_id
            == granted_ids(spec_from_query(query, None, nums)->Ok_0, inputs).len() + 1,
{
    lemma_run_ids(spec_from_query(query, None, nums)->Ok_0, inputs);
}

/// Admission of a command that passes the commissioning gate: an ordinary
/// command is refused as busy exactly while an ordinary operation is active
/// or one the query reported is still outstanding; Cancel and Stop are
/// refused exactly while a request with the same token is outstanding or
/// retired awaiting its terminal, whatever else is pending; any other
/// command is granted on the current epoch with the next identity.
pub proof fn law_begin_admission(s: SessionView, c: LigatureCommand)
    requires
        !(spec_requires_commissioning(c) && !spec_scan_enabled(s)),
    ensures
        spec_priority(c) == RequestPriority::Ordinary ==> (spec_begin(s, c).1 == Err::<
            RequestView,
            SessionErrorView,
        >(SessionErrorView::Busy) <==> (s.active is Some || s.orphaned_active is Some)),
        spec_priority(c) == RequestPriority::Urgent ==> (spec_begin(s, c).1 == Err::<
            RequestView,
            SessionErrorView,
        >(SessionErrorView::Busy) <==> (token_index(s.urgent, spec_wire(c)@) is Some
            || token_index(s.retired_urgent, spec_wire(c)@) is Some)),
        spec_begin(s, c).1 is Err ==> spec_begin(s, c).1 == Err::<RequestView, SessionErrorView>(
            SessionErrorView::Busy,
        ),
        spec_begin(s, c).1 is Ok ==> spec_begin(s, c).1 == Ok::<RequestView, SessionErrorView>(
            spec_new_request(s, c),
        ),
{
}


/// Which well-formed `done` terminals complete each command, by the state
/// and Position trust they report: Arm in `ARMED` untrusted or `READY`
/// trusted; Disarm in `IDLE`, whatever the trust; Home and Release hold in
/// `READY` trusted with a numeric `Z`; Align in `COMMISSIONING_ONLY` or
/// `IDLE` untrusted; Clear fault in any state but `FAULT` whose trust agrees
/// with it; Cancel in `COMMISSIONING_ONLY`, `IDLE` or `ARMED` untrusted or
/// `READY` trusted, and Stop in `FAULT`, each with the `Z` marker of its
/// trust (`KNOWN` or `?`). Every other terminal is refused.
pub proof fn law_done_terminal_completes_in_its_states(
    c: LigatureCommand,
    t: TerminalView,
    nums: Set<Seq<char>>,
)
    requires
        spec_check_required(c, t.fields, nums) is Ok,
    ensures
        ({
            let ok = spec_validate_done(c, t, nums) is Ok;
            let st = terminal_state(t.fields);
            let tr = terminal_trust(t.fields);
            let z = lookup(t.fields, "Z"@);
            let marker = if tr == PositionTrust::Trusted {
                "KNOWN"@
            } else {
                "?"@
            };
            &&& c is Arm ==> (ok <==> ((st == LigatureState::Armed && tr == PositionTrust::Untrusted)
                || (st == LigatureState::Ready && tr == PositionTrust::Trusted)))
            &&& c is Disarm ==> (ok <==> st == LigatureState::Idle)
            &&& (c is Home || c is ReleaseHold) ==> (ok <==> (st == LigatureState::Ready && tr
                == PositionTrust::Trusted && z != Some("KNOWN"@) && z != Some("?"@)))
            &&& c is Align ==> (ok <==> ((st == LigatureState::CommissioningOnly || st
                == LigatureState::Idle) && tr == PositionTrust::Untrusted))
            &&& c is ClearFault ==> (ok <==> (st != LigatureState::Fault && ((st
                == LigatureState::Ready || st == LigatureState::Moving || st
                == LigatureState::TouchingDown || st == LigatureState::Holding) ==> tr
                == PositionTrust::Trusted) && ((st == LigatureState::CommissioningOnly || st
                == LigatureState::Armed || st == LigatureState::OverridePending || st
                == LigatureState::Aligning || st == LigatureState::Homing || st
                == LigatureState::Calibrating) ==> tr == PositionTrust::Untrusted)))
            &&& c is Cancel ==> (ok <==> (((st == LigatureState::CommissioningOnly || st
                == LigatureState::Idle || st == LigatureState::Armed) && tr
                == PositionTrust::Untrusted) || (st == LigatureState::Ready && tr
                == PositionTrust::Trusted)) && z == Some(marker))
            &&& c is Stop ==> (ok <==> st == LigatureState::Fault && z == Some(marker))
        }),
{
}

} // verus!
