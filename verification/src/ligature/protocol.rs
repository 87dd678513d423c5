//! Parser for Ligature's production response frames.
//!
//! A frame is one line of whitespace-separated words. The first word names the
//! frame kind; most of the rest are `NAME:VALUE` fields. Numeric fields whose
//! values are real numbers are kept as their wire text: whether such a text
//! reads as a finite number is supplied by the caller in [`FiniteNumbers`].
use vstd::prelude::*;
use vstd::string::StringExecFns;
use crate::text::{
    chars_are, chars_eq, chars_of, is_space, lookup, lookup_exec, lookup_lit, owned, pairs_view,
    parse_unsigned, parse_unsigned_exec, seqs_view, split_colon, split_colon_exec, split_words,
    string_of, words, colon_index,
};

verus! {

broadcast use vstd::string::group_string_axioms;

/// Public state names emitted by Ligature production firmware.
#[derive(Clone, Copy, Debug, PartialEq, Eq, Structural)]
pub enum LigatureState {
    /// Transport and non-production diagnostics only.
    CommissioningOnly,
    /// PWM is off and no operation is active.
    Idle,
    /// PWM is enabled but Position trust is unavailable.
    Armed,
    /// One supervised relative move has been authorized.
    OverridePending,
    /// PWM is enabled and Position trust permits absolute motion.
    Ready,
    /// Sensor and phase alignment is active.
    Aligning,
    /// Endstop-based homing is active.
    Homing,
    /// Motion calibration is active.
    Calibrating,
    /// An absolute or supervised relative move is active.
    Moving,
    /// Contact-seeking downward motion is active.
    TouchingDown,
    /// Touchdown has detected contact and holds position.
    Holding,
    /// A hard fault is latched.
    Fault,
}

/// Whether Ligature permits its current position to be used for absolute motion.
#[derive(Clone, Copy, Debug, PartialEq, Eq, Structural)]
pub enum PositionTrust {
    /// Current position can be used for absolute motion.
    Trusted,
    /// Home is required before absolute motion.
    Untrusted,
}

impl View for LigatureState {
    type V = LigatureState;

    open spec fn view(&self) -> LigatureState {
        *self
    }
}

impl View for PositionTrust {
    type V = PositionTrust;

    open spec fn view(&self) -> PositionTrust {
        *self
    }
}

/// The field values of one line that read as finite single-precision numbers
/// (`str::parse::<f32>` succeeds and the value is finite), as found by the caller.
#[derive(Clone, Debug)]
pub struct FiniteNumbers {
    /// Wire texts that read as finite numbers.
    pub values: Vec<String>,
}

impl View for FiniteNumbers {
    type V = Set<Seq<char>>;

    open spec fn view(&self) -> Set<Seq<char>> {
        Set::new(|t: Seq<char>| exists|i: int| 0 <= i < self.values@.len() && #[trigger] self.values@[i]@ == t)
    }
}

impl FiniteNumbers {
    /// Whether the caller reported `text` as a finite number.
    pub fn holds(&self, text: &[char]) -> (b: bool)
        ensures
            b == self@.contains(text@),
    {
        let mut i: usize = 0;
        while i < self.values.len()
            invariant
                i <= self.values@.len(),
                forall|j: int| 0 <= j < i ==> self.values@[j]@ != text@,
            decreases self.values@.len() - i,
        {
            let v = chars_of(self.values[i].as_str());
            if chars_eq(v.as_slice(), text) {
                return true;
            }
            i = i + 1;
        }
        false
    }
}

/// A validated firmware command token: one to four ASCII uppercase letters,
/// digits or `?`.
#[derive(Clone, Debug, PartialEq, Eq)]
pub struct LigatureCommandToken {
    text: String,
}

impl View for LigatureCommandToken {
    type V = Seq<char>;

    closed spec fn view(&self) -> Seq<char> {
        self.text@
    }
}

/// Whether a character may appear in a command token.
pub open spec fn token_char(c: char) -> bool {
    ('A' <= c && c <= 'Z') || ('0' <= c && c <= '9') || c == '?'
}

/// Whether a text is a valid command token.
pub open spec fn is_token(t: Seq<char>) -> bool {
    1 <= t.len() <= 4 && forall|i: int| 0 <= i < t.len() ==> token_char(#[trigger] t[i])
}

impl LigatureCommandToken {
    /// The token text.
    pub fn as_str(&self) -> (s: &str)
        ensures
            s@ == self@,
    {
        self.text.as_str()
    }

    /// A token holding the given text.
    pub(crate) fn from_text(text: &str) -> (t: Self)
        ensures
            t@ == text@,
    {
        LigatureCommandToken { text: owned(text) }
    }

    fn from_chars(text: &[char]) -> (t: Self)
        ensures
            t@ == text@,
    {
        LigatureCommandToken { text: string_of(text) }
    }

    /// Whether two tokens spell the same command.
    pub fn same(&self, other: &Self) -> (b: bool)
        ensures
            b == (self@ == other@),
    {
        self.text == other.text
    }

    /// A copy of this token.
    pub fn duplicate(&self) -> (t: Self)
        ensures
            t@ == self@,
    {
        LigatureCommandToken { text: self.text.clone() }
    }
}

/// Position reported by Ligature, separate from Position trust.
#[derive(Clone, Debug, PartialEq, Eq)]
pub enum LigaturePosition {
    /// Position in millimetres in the homed frame, as the finite wire number.
    Known(String),
    /// Firmware deliberately reported `?` because position is untrusted.
    Unknown,
}

/// Current public status projected by either a query or heartbeat frame.
#[derive(Clone, Debug, PartialEq, Eq)]
pub struct LigatureStatus {
    /// Public production state.
    pub state: LigatureState,
    /// Position trust reported separately from state.
    pub position_trust: PositionTrust,
    /// Known position or the explicit unknown marker.
    pub position: LigaturePosition,
    /// Measured linear velocity in millimetres per second (finite wire number).
    pub velocity_mm_s: String,
    /// Measured q-axis current in amps (finite wire number).
    pub q_current_a: String,
    /// Whether Touchdown press is set, or unavailable outside that state.
    pub press_is_set: Option<bool>,
    /// Active exclusive command token, if any.
    pub active: Option<LigatureCommandToken>,
    /// Latched firmware fault reason, if any.
    pub fault: Option<String>,
    /// Endstop input from a full query; absent from heartbeat frames.
    pub endstop_active: Option<bool>,
    /// PWM state from a full query; absent from heartbeat frames.
    pub pwm_active: Option<bool>,
    /// Whether runtime configuration differs from the commissioned image.
    pub runtime_modified: Option<bool>,
}

/// Fields carried by a `done` terminal.
#[derive(Clone, Debug, PartialEq, Eq)]
pub struct ProtocolTerminal {
    /// Command completed by this terminal.
    pub command: LigatureCommandToken,
    fields: Vec<(String, String)>,
}

/// A command error terminal with its required firmware reason.
#[derive(Clone, Debug, PartialEq, Eq)]
pub struct ProtocolErrorTerminal {
    /// Command completed by this error.
    pub command: LigatureCommandToken,
    /// Firmware reason code.
    pub reason: String,
    fields: Vec<(String, String)>,
}

/// An unsolicited hard-fault frame.
#[derive(Clone, Debug, PartialEq, Eq)]
pub struct LigatureFault {
    /// Firmware hard-fault reason.
    pub reason: String,
    /// Exclusive command retired by the fault, if any.
    pub cancelled: Option<LigatureCommandToken>,
    /// Position trust remaining after the fault.
    pub position_trust: PositionTrust,
}

/// One control-rate diagnostic sample without exposing private firmware states.
#[derive(Clone, Debug, PartialEq, Eq)]
pub struct LigatureCaptureSample {
    /// Zero-based sample index within the diagnostic capture.
    pub index: u16,
    /// Firmware monotonic timestamp in milliseconds.
    pub timestamp_ms: u64,
    /// Position in millimetres (finite wire number).
    pub position_mm: String,
    /// Motor shaft angle in radians (finite wire number).
    pub shaft_angle_rad: String,
    /// Motor shaft velocity in radians per second (finite wire number).
    pub velocity_rad_s: String,
    /// Active control target in the firmware mode's units (finite wire number).
    pub target: String,
    /// Measured q-axis current in amps (finite wire number).
    pub q_current_a: String,
    /// Endstop input at sample time.
    pub endstop_active: bool,
}

/// One classified Ligature response line.
#[derive(Clone, Debug, PartialEq, Eq)]
pub enum LigatureLine {
    /// Full response to the `?` query.
    State(LigatureStatus),
    /// Unsolicited public-status heartbeat.
    Status(LigatureStatus),
    /// Immediate acceptance of an asynchronous exclusive operation.
    Accepted {
        /// Accepted firmware command token.
        command: LigatureCommandToken,
    },
    /// Successful command terminal.
    Done(ProtocolTerminal),
    /// Command error terminal.
    Error(ProtocolErrorTerminal),
    /// Unsolicited hard fault.
    Fault(LigatureFault),
    /// Control-rate diagnostic sample.
    Capture(LigatureCaptureSample),
}

/// Why a Ligature response could not be classified safely.
#[derive(Clone, Debug, PartialEq, Eq)]
pub enum LigatureProtocolError {
    /// No response content was supplied.
    Empty,
    /// The first word does not name a production response kind.
    UnknownKind(String),
    /// A required field is absent.
    MissingField(&'static str),
    /// A named field has a malformed or unsupported value.
    InvalidField {
        /// Protocol field name or frame context.
        field: &'static str,
        /// Rejected wire value.
        value: String,
    },
    /// A state is not one of the twelve public production states.
    UnknownState(String),
    /// A command token violates production framing rules.
    InvalidCommand(String),
}

// ---------------------------------------------------------------------------
// Mathematical models of the frame types.
// ---------------------------------------------------------------------------

/// Model of [`LigaturePosition`].
pub enum PositionView {
    Known(Seq<char>),
    Unknown,
}

/// Model of [`LigatureStatus`].
pub struct StatusView {
    pub state: LigatureState,
    pub position_trust: PositionTrust,
    pub position: PositionView,
    pub velocity_mm_s: Seq<char>,
    pub q_current_a: Seq<char>,
    pub press_is_set: Option<bool>,
    pub active: Option<Seq<char>>,
    pub fault: Option<Seq<char>>,
    pub endstop_active: Option<bool>,
    pub pwm_active: Option<bool>,
    pub runtime_modified: Option<bool>,
}

/// Model of [`ProtocolTerminal`].
pub struct TerminalView {
    pub command: Seq<char>,
    pub fields: Seq<(Seq<char>, Seq<char>)>,
}

/// Model of [`ProtocolErrorTerminal`].
pub struct ErrorTerminalView {
    pub command: Seq<char>,
    pub reason: Seq<char>,
    pub fields: Seq<(Seq<char>, Seq<char>)>,
}

/// Model of [`LigatureFault`].
pub struct FaultView {
    pub reason: Seq<char>,
    pub cancelled: Option<Seq<char>>,
    pub position_trust: PositionTrust,
}

/// Model of [`LigatureCaptureSample`].
pub struct CaptureView {
    pub index: u16,
    pub timestamp_ms: u64,
    pub position_mm: Seq<char>,
    pub shaft_angle_rad: Seq<char>,
    pub velocity_rad_s: Seq<char>,
    pub target: Seq<char>,
    pub q_current_a: Seq<char>,
    pub endstop_active: bool,
}

/// Model of [`LigatureLine`].
pub enum LineView {
    State(StatusView),
    Status(StatusView),
    Accepted(Seq<char>),
    Done(TerminalView),
    Error(ErrorTerminalView),
    Fault(FaultView),
    Capture(CaptureView),
}

/// Model of [`LigatureProtocolError`].
pub enum ProtocolErrorView {
    Empty,
    UnknownKind(Seq<char>),
    MissingField(&'static str),
    InvalidField { field: &'static str, value: Seq<char> },
    UnknownState(Seq<char>),
    InvalidCommand(Seq<char>),
}

/// The model of a list of named string fields.
pub open spec fn string_pairs_view(fs: Seq<(String, String)>) -> Seq<(Seq<char>, Seq<char>)> {
    fs.map_values(|p: (String, String)| (p.0@, p.1@))
}

/// The model of an optional text.
pub open spec fn opt_text(o: Option<String>) -> Option<Seq<char>> {
    match o {
        Some(s) => Some(s@),
        None => None,
    }
}

/// The model of an optional token.
pub open spec fn opt_token(o: Option<LigatureCommandToken>) -> Option<Seq<char>> {
    match o {
        Some(t) => Some(t@),
        None => None,
    }
}

impl View for LigaturePosition {
    type V = PositionView;

    open spec fn view(&self) -> PositionView {
        match self {
            LigaturePosition::Known(s) => PositionView::Known(s@),
            LigaturePosition::Unknown => PositionView::Unknown,
        }
    }
}

impl View for LigatureStatus {
    type V = StatusView;

    open spec fn view(&self) -> StatusView {
        StatusView {
            state: self.state,
            position_trust: self.position_trust,
            position: self.position@,
            velocity_mm_s: self.velocity_mm_s@,
            q_current_a: self.q_current_a@,
            press_is_set: self.press_is_set,
            active: opt_token(self.active),
            fault: opt_text(self.fault),
            endstop_active: self.endstop_active,
            pwm_active: self.pwm_active,
            runtime_modified: self.runtime_modified,
        }
    }
}

impl View for ProtocolTerminal {
    type V = TerminalView;

    closed spec fn view(&self) -> TerminalView {
        TerminalView { command: self.command@, fields: string_pairs_view(self.fields@) }
    }
}

impl View for ProtocolErrorTerminal {
    type V = ErrorTerminalView;

    closed spec fn view(&self) -> ErrorTerminalView {
        ErrorTerminalView {
            command: self.command@,
            reason: self.reason@,
            fields: string_pairs_view(self.fields@),
        }
    }
}

impl View for LigatureFault {
    type V = FaultView;

    open spec fn view(&self) -> FaultView {
        FaultView {
            reason: self.reason@,
            cancelled: opt_token(self.cancelled),
            position_trust: self.position_trust,
        }
    }
}

impl View for LigatureCaptureSample {
    type V = CaptureView;

    open spec fn view(&self) -> CaptureView {
        CaptureView {
            index: self.index,
            timestamp_ms: self.timestamp_ms,
            position_mm: self.position_mm@,
            shaft_angle_rad: self.shaft_angle_rad@,
            velocity_rad_s: self.velocity_rad_s@,
            target: self.target@,
            q_current_a: self.q_current_a@,
            endstop_active: self.endstop_active,
        }
    }
}

impl View for LigatureLine {
    type V = LineView;

    open spec fn view(&self) -> LineView {
        match self {
            LigatureLine::State(s) => LineView::State(s@),
            LigatureLine::Status(s) => LineView::Status(s@),
            LigatureLine::Accepted { command } => LineView::Accepted(command@),
            LigatureLine::Done(t) => LineView::Done(t@),
            LigatureLine::Error(t) => LineView::Error(t@),
            LigatureLine::Fault(f) => LineView::Fault(f@),
            LigatureLine::Capture(c) => LineView::Capture(c@),
        }
    }
}

impl View for LigatureProtocolError {
    type V = ProtocolErrorView;

    open spec fn view(&self) -> ProtocolErrorView {
        match self {
            LigatureProtocolError::Empty => ProtocolErrorView::Empty,
            LigatureProtocolError::UnknownKind(s) => ProtocolErrorView::UnknownKind(s@),
            LigatureProtocolError::MissingField(f) => ProtocolErrorView::MissingField(*f),
            LigatureProtocolError::InvalidField { field, value } => ProtocolErrorView::InvalidField {
                field: *field,
                value: value@,
            },
            LigatureProtocolError::UnknownState(s) => ProtocolErrorView::UnknownState(s@),
            LigatureProtocolError::InvalidCommand(s) => ProtocolErrorView::InvalidCommand(s@),
        }
    }
}

/// The model of a parse result.
pub open spec fn result_view<T: View>(r: Result<T, LigatureProtocolError>) -> Result<
    T::V,
    ProtocolErrorView,
> {
    match r {
        Ok(t) => Ok(t@),
        Err(e) => Err(e@),
    }
}

// ---------------------------------------------------------------------------
// Specification of the grammar.
// ---------------------------------------------------------------------------

/// The error for a word that is not a well-formed field.
pub open spec fn frame_error(w: Seq<char>) -> ProtocolErrorView {
    ProtocolErrorView::InvalidField { field: "frame", value: w }
}

/// Fields of a frame: every word is `NAME:VALUE` with a nonempty name and value,
/// and no name occurs twice. The first offending word is reported.
pub open spec fn spec_fields(ws: Seq<Seq<char>>) -> Result<
    Seq<(Seq<char>, Seq<char>)>,
    ProtocolErrorView,
>
    decreases ws.len(),
{
    if ws.len() == 0 {
        Ok(seq![])
    } else {
        match spec_fields(ws.drop_last()) {
            Err(e) => Err(e),
            Ok(fs) => {
                let w = ws.last();
                match split_colon(w) {
                    None => Err(frame_error(w)),
                    Some((n, v)) => if n.len() == 0 || v.len() == 0 || lookup(fs, n) is Some {
                        Err(frame_error(w))
                    } else {
                        Ok(fs.push((n, v)))
                    },
                }
            },
        }
    }
}

/// A field that must be present.
pub open spec fn spec_required(fs: Seq<(Seq<char>, Seq<char>)>, name: &'static str) -> Result<
    Seq<char>,
    ProtocolErrorView,
> {
    match lookup(fs, name@) {
        Some(v) => Ok(v),
        None => Err(ProtocolErrorView::MissingField(name)),
    }
}

/// The public state named by a wire value.
pub open spec fn spec_state(v: Seq<char>) -> Result<LigatureState, ProtocolErrorView> {
    if v == "COMMISSIONING_ONLY"@ {
        Ok(LigatureState::CommissioningOnly)
    } else if v == "IDLE"@ {
        Ok(LigatureState::Idle)
    } else if v == "ARMED"@ {
        Ok(LigatureState::Armed)
    } else if v == "OVERRIDE_PENDING"@ {
        Ok(LigatureState::OverridePending)
    } else if v == "READY"@ {
        Ok(LigatureState::Ready)
    } else if v == "ALIGNING"@ {
        Ok(LigatureState::Aligning)
    } else if v == "HOMING"@ {
        Ok(LigatureState::Homing)
    } else if v == "CALIBRATING"@ {
        Ok(LigatureState::Calibrating)
    } else if v == "MOVING"@ {
        Ok(LigatureState::Moving)
    } else if v == "TOUCHING_DOWN"@ {
        Ok(LigatureState::TouchingDown)
    } else if v == "HOLDING"@ {
        Ok(LigatureState::Holding)
    } else if v == "FAULT"@ {
        Ok(LigatureState::Fault)
    } else {
        Err(ProtocolErrorView::UnknownState(v))
    }
}

/// The Position trust named by a `TRUST` value.
pub open spec fn spec_trust(v: Seq<char>) -> Result<PositionTrust, ProtocolErrorView> {
    if v == "1"@ {
        Ok(PositionTrust::Trusted)
    } else if v == "0"@ {
        Ok(PositionTrust::Untrusted)
    } else {
        Err(ProtocolErrorView::InvalidField { field: "TRUST", value: v })
    }
}

/// A numeric field value that must be a finite number.
pub open spec fn spec_number(field: &'static str, v: Seq<char>, nums: Set<Seq<char>>) -> Result<
    Seq<char>,
    ProtocolErrorView,
> {
    if nums.contains(v) {
        Ok(v)
    } else {
        Err(ProtocolErrorView::InvalidField { field, value: v })
    }
}

/// A `Z` value: `?` or a finite number.
pub open spec fn spec_position(v: Seq<char>, nums: Set<Seq<char>>) -> Result<
    PositionView,
    ProtocolErrorView,
> {
    if v == "?"@ {
        Ok(PositionView::Unknown)
    } else if nums.contains(v) {
        Ok(PositionView::Known(v))
    } else {
        Err(ProtocolErrorView::InvalidField { field: "Z", value: v })
    }
}

/// A required command token; an absent token is a missing `command` field.
pub open spec fn spec_command(v: Option<Seq<char>>) -> Result<Seq<char>, ProtocolErrorView> {
    match v {
        None => Err(ProtocolErrorView::MissingField("command")),
        Some(t) => if is_token(t) {
            Ok(t)
        } else {
            Err(ProtocolErrorView::InvalidCommand(t))
        },
    }
}

/// An optional token field: `NONE` or a command token.
pub open spec fn spec_optional_token(field: &'static str, v: Seq<char>) -> Result<
    Option<Seq<char>>,
    ProtocolErrorView,
> {
    if v == "NONE"@ {
        Ok(None)
    } else if is_token(v) {
        Ok(Some(v))
    } else {
        Err(ProtocolErrorView::InvalidField { field, value: v })
    }
}

/// Rust's `u8::is_ascii_whitespace`.
pub open spec fn is_ascii_space(c: char) -> bool {
    c == ' ' || c == '\t' || c == '\n' || c == '\x0C' || c == '\r'
}

/// An optional free-text field: `NONE`, or a nonempty text without ASCII whitespace.
pub open spec fn spec_optional_text(field: &'static str, v: Seq<char>) -> Result<
    Option<Seq<char>>,
    ProtocolErrorView,
> {
    if v == "NONE"@ {
        Ok(None)
    } else if v.len() == 0 || exists|i: int| 0 <= i < v.len() && is_ascii_space(#[trigger] v[i]) {
        Err(ProtocolErrorView::InvalidField { field, value: v })
    } else {
        Ok(Some(v))
    }
}

/// An optional `0`/`1` field.
pub open spec fn spec_optional_bool(fs: Seq<(Seq<char>, Seq<char>)>, name: &'static str) -> Result<
    Option<bool>,
    ProtocolErrorView,
> {
    match lookup(fs, name@) {
        Some(v) => if v == "1"@ {
            Ok(Some(true))
        } else if v == "0"@ {
            Ok(Some(false))
        } else {
            Err(ProtocolErrorView::InvalidField { field: name, value: v })
        },
        None => Ok(None),
    }
}

/// A required `0`/`1` value.
pub open spec fn spec_bool(field: &'static str, v: Seq<char>) -> Result<bool, ProtocolErrorView> {
    if v == "1"@ {
        Ok(true)
    } else if v == "0"@ {
        Ok(false)
    } else {
        Err(ProtocolErrorView::InvalidField { field, value: v })
    }
}

/// A required `PRESS` value: `SET` or `?`.
pub open spec fn spec_press(v: Seq<char>) -> Result<Option<bool>, ProtocolErrorView> {
    if v == "SET"@ {
        Ok(Some(true))
    } else if v == "?"@ {
        Ok(None)
    } else {
        Err(ProtocolErrorView::InvalidField { field: "PRESS", value: v })
    }
}

/// An optional `PWM` field: `ACTIVE` or `OFF`.
pub open spec fn spec_pwm(fs: Seq<(Seq<char>, Seq<char>)>) -> Result<Option<bool>, ProtocolErrorView> {
    match lookup(fs, "PWM"@) {
        Some(v) => if v == "ACTIVE"@ {
            Ok(Some(true))
        } else if v == "OFF"@ {
            Ok(Some(false))
        } else {
            Err(ProtocolErrorView::InvalidField { field: "PWM", value: v })
        },
        None => Ok(None),
    }
}

/// An unsigned integer field bounded by `max`.
pub open spec fn spec_integer(field: &'static str, v: Seq<char>, max: nat) -> Result<
    nat,
    ProtocolErrorView,
> {
    match parse_unsigned(v, max) {
        Some(n) => Ok(n),
        None => Err(ProtocolErrorView::InvalidField { field, value: v }),
    }
}

/// The part of a status frame that every status carries: state, trust and position.
pub open spec fn spec_status_head(fs: Seq<(Seq<char>, Seq<char>)>, nums: Set<Seq<char>>) -> Result<
    (LigatureState, PositionTrust, PositionView),
    ProtocolErrorView,
> {
    match spec_required(fs, "STATE") {
        Err(e) => Err(e),
        Ok(sv) => match spec_state(sv) {
            Err(e) => Err(e),
            Ok(state) => match spec_required(fs, "TRUST") {
                Err(e) => Err(e),
                Ok(tv) => match spec_trust(tv) {
                    Err(e) => Err(e),
                    Ok(trust) => match spec_required(fs, "Z") {
                        Err(e) => Err(e),
                        Ok(zv) => match spec_position(zv, nums) {
                            Err(e) => Err(e),
                            Ok(pos) => Ok((state, trust, pos)),
                        },
                    },
                },
            },
        },
    }
}

/// Velocity, current and press of a status frame.
pub open spec fn spec_status_motion(fs: Seq<(Seq<char>, Seq<char>)>, nums: Set<Seq<char>>) -> Result<
    (Seq<char>, Seq<char>, Option<bool>),
    ProtocolErrorView,
> {
    match spec_required(fs, "VEL") {
        Err(e) => Err(e),
        Ok(vv) => match spec_number("VEL", vv, nums) {
            Err(e) => Err(e),
            Ok(vel) => match spec_required(fs, "IQ") {
                Err(e) => Err(e),
                Ok(iv) => match spec_number("IQ", iv, nums) {
                    Err(e) => Err(e),
                    Ok(iq) => match spec_required(fs, "PRESS") {
                        Err(e) => Err(e),
                        Ok(pv) => match spec_press(pv) {
                            Err(e) => Err(e),
                            Ok(press) => Ok((vel, iq, press)),
                        },
                    },
                },
            },
        },
    }
}

/// Active command and fault reason of a status frame.
pub open spec fn spec_status_activity(fs: Seq<(Seq<char>, Seq<char>)>) -> Result<
    (Option<Seq<char>>, Option<Seq<char>>),
    ProtocolErrorView,
> {
    match spec_required(fs, "ACTIVE") {
        Err(e) => Err(e),
        Ok(av) => match spec_optional_token("ACTIVE", av) {
            Err(e) => Err(e),
            Ok(active) => match spec_required(fs, "FAULT") {
                Err(e) => Err(e),
                Ok(fv) => match spec_optional_text("FAULT", fv) {
                    Err(e) => Err(e),
                    Ok(fault) => Ok((active, fault)),
                },
            },
        },
    }
}

/// The query-only fields of a status frame, and their presence in a `state` frame.
pub open spec fn spec_status_extras(fs: Seq<(Seq<char>, Seq<char>)>, is_query: bool) -> Result<
    (Option<bool>, Option<bool>, Option<bool>),
    ProtocolErrorView,
> {
    match spec_optional_bool(fs, "ENDSTOP") {
        Err(e) => Err(e),
        Ok(endstop) => match spec_pwm(fs) {
            Err(e) => Err(e),
            Ok(pwm) => match spec_optional_bool(fs, "RUNTIME_MODIFIED") {
                Err(e) => Err(e),
                Ok(modified) => if is_query && lookup(fs, "ENDSTOP"@) is None {
                    Err(ProtocolErrorView::MissingField("ENDSTOP"))
                } else if is_query && lookup(fs, "PWM"@) is None {
                    Err(ProtocolErrorView::MissingField("PWM"))
                } else if is_query && lookup(fs, "RUNTIME_MODIFIED"@) is None {
                    Err(ProtocolErrorView::MissingField("RUNTIME_MODIFIED"))
                } else {
                    Ok((endstop, pwm, modified))
                },
            },
        },
    }
}

/// A `state` (query) or `status` (heartbeat) frame after its kind word.
pub open spec fn spec_status(ws: Seq<Seq<char>>, is_query: bool, nums: Set<Seq<char>>) -> Result<
    StatusView,
    ProtocolErrorView,
> {
    match spec_fields(ws) {
        Err(e) => Err(e),
        Ok(fs) => match spec_status_head(fs, nums) {
            Err(e) => Err(e),
            Ok((state, trust, position)) => match spec_status_motion(fs, nums) {
                Err(e) => Err(e),
                Ok((vel, iq, press)) => match spec_status_activity(fs) {
                    Err(e) => Err(e),
                    Ok((active, fault)) => match spec_status_extras(fs, is_query) {
                        Err(e) => Err(e),
                        Ok((endstop, pwm, modified)) => Ok(
                            StatusView {
                                state,
                                position_trust: trust,
                                position,
                                velocity_mm_s: vel,
                                q_current_a: iq,
                                press_is_set: press,
                                active,
                                fault,
                                endstop_active: endstop,
                                pwm_active: pwm,
                                runtime_modified: modified,
                            },
                        ),
                    },
                },
            },
        },
    }
}

/// The first word, if any.
pub open spec fn first_word(ws: Seq<Seq<char>>) -> Option<Seq<char>> {
    if ws.len() > 0 {
        Some(ws[0])
    } else {
        None
    }
}

/// The words after the first one.
pub open spec fn rest_words(ws: Seq<Seq<char>>) -> Seq<Seq<char>> {
    if ws.len() > 0 {
        ws.drop_first()
    } else {
        ws
    }
}

/// A `done` terminal after its kind word.
pub open spec fn spec_done(ws: Seq<Seq<char>>) -> Result<TerminalView, ProtocolErrorView> {
    match spec_command(first_word(ws)) {
        Err(e) => Err(e),
        Ok(command) => match spec_fields(rest_words(ws)) {
            Err(e) => Err(e),
            Ok(fields) => Ok(TerminalView { command, fields }),
        },
    }
}

/// An `error` terminal after its kind word.
pub open spec fn spec_error(ws: Seq<Seq<char>>) -> Result<ErrorTerminalView, ProtocolErrorView> {
    match spec_command(first_word(ws)) {
        Err(e) => Err(e),
        Ok(command) => match spec_fields(rest_words(ws)) {
            Err(e) => Err(e),
            Ok(fields) => match spec_required(fields, "REASON") {
                Err(e) => Err(e),
                Ok(reason) => Ok(ErrorTerminalView { command, reason, fields }),
            },
        },
    }
}

/// The `Z` marker that a terminal or fault must carry for a Position trust.
pub open spec fn z_marker(trust: PositionTrust) -> Seq<char> {
    match trust {
        PositionTrust::Trusted => "KNOWN"@,
        PositionTrust::Untrusted => "?"@,
    }
}

/// A `fault` frame after its kind word.
pub open spec fn spec_fault(ws: Seq<Seq<char>>) -> Result<FaultView, ProtocolErrorView> {
    match first_word(ws) {
        None => Err(ProtocolErrorView::MissingField("fault reason")),
        Some(reason) => match spec_fields(rest_words(ws)) {
            Err(e) => Err(e),
            Ok(fs) => match spec_required(fs, "CANCELLED") {
                Err(e) => Err(e),
                Ok(cv) => match spec_optional_token("CANCELLED", cv) {
                    Err(e) => Err(e),
                    Ok(cancelled) => match spec_required(fs, "TRUST") {
                        Err(e) => Err(e),
                        Ok(tv) => match spec_trust(tv) {
                            Err(e) => Err(e),
                            Ok(trust) => if lookup(fs, "STATE"@) != Some("FAULT"@) {
                                Err(
                                    ProtocolErrorView::InvalidField {
                                        field: "STATE",
                                        value: match lookup(fs, "STATE"@) {
                                            Some(s) => s,
                                            None => Seq::empty(),
                                        },
                                    },
                                )
                            } else {
                                match lookup(fs, "Z"@) {
                                    None => Err(ProtocolErrorView::MissingField("Z")),
                                    Some(z) => if z != z_marker(trust) {
                                        Err(ProtocolErrorView::InvalidField { field: "Z", value: z })
                                    } else {
                                        Ok(FaultView { reason, cancelled, position_trust: trust })
                                    },
                                }
                            },
                        },
                    },
                },
            },
        },
    }
}

/// The index, timestamp and state identifier of a capture sample.
pub open spec fn spec_capture_head(fs: Seq<(Seq<char>, Seq<char>)>) -> Result<
    (nat, nat),
    ProtocolErrorView,
> {
    match spec_required(fs, "I") {
        Err(e) => Err(e),
        Ok(iv) => match spec_integer("I", iv, u16::MAX as nat) {
            Err(e) => Err(e),
            Ok(index) => match spec_required(fs, "T_MS") {
                Err(e) => Err(e),
                Ok(tv) => match spec_integer("T_MS", tv, u64::MAX as nat) {
                    Err(e) => Err(e),
                    Ok(ts) => match spec_required(fs, "STATE_ID") {
                        Err(e) => Err(e),
                        Ok(sv) => match spec_integer("STATE_ID", sv, u16::MAX as nat) {
                            Err(e) => Err(e),
                            Ok(_) => Ok((index, ts)),
                        },
                    },
                },
            },
        },
    }
}

/// A required finite-number field.
pub open spec fn spec_required_number(
    fs: Seq<(Seq<char>, Seq<char>)>,
    name: &'static str,
    nums: Set<Seq<char>>,
) -> Result<Seq<char>, ProtocolErrorView> {
    match spec_required(fs, name) {
        Err(e) => Err(e),
        Ok(v) => spec_number(name, v, nums),
    }
}

/// A `capture` sample after its kind word.
pub open spec fn spec_capture(ws: Seq<Seq<char>>, nums: Set<Seq<char>>) -> Result<
    CaptureView,
    ProtocolErrorView,
> {
    match spec_fields(ws) {
        Err(e) => Err(e),
        Ok(fs) => match spec_capture_head(fs) {
            Err(e) => Err(e),
            Ok((index, ts)) => match spec_required_number(fs, "Z", nums) {
                Err(e) => Err(e),
                Ok(z) => match spec_required_number(fs, "ANGLE", nums) {
                    Err(e) => Err(e),
                    Ok(angle) => match spec_required_number(fs, "VEL_RAD_S", nums) {
                        Err(e) => Err(e),
                        Ok(vel) => match spec_required_number(fs, "TARGET", nums) {
                            Err(e) => Err(e),
                            Ok(target) => match spec_required_number(fs, "IQ", nums) {
                                Err(e) => Err(e),
                                Ok(iq) => match spec_required(fs, "ENDSTOP") {
                                    Err(e) => Err(e),
                                    Ok(ev) => match spec_bool("ENDSTOP", ev) {
                                        Err(e) => Err(e),
                                        Ok(endstop) => Ok(
                                            CaptureView {
                                                index: index as u16,
                                                timestamp_ms: ts as u64,
                                                position_mm: z,
                                                shaft_angle_rad: angle,
                                                velocity_rad_s: vel,
                                                target,
                                                q_current_a: iq,
                                                endstop_active: endstop,
                                            },
                                        ),
                                    },
                                },
                            },
                        },
                    },
                },
            },
        },
    }
}

/// An `ok` acceptance after its kind word: exactly one command token.
pub open spec fn spec_accepted(ws: Seq<Seq<char>>) -> Result<Seq<char>, ProtocolErrorView> {
    match spec_command(first_word(ws)) {
        Err(e) => Err(e),
        Ok(command) => if ws.len() > 1 {
            Err(frame_error(ws[1]))
        } else {
            Ok(command)
        },
    }
}

/// The classification of one production response line.
pub open spec fn spec_parse_line(line: Seq<char>, nums: Set<Seq<char>>) -> Result<
    LineView,
    ProtocolErrorView,
> {
    let ws = words(line);
    if ws.len() == 0 {
        Err(ProtocolErrorView::Empty)
    } else {
        let kind = ws[0];
        let rest = ws.drop_first();
        if kind == "state"@ {
            match spec_status(rest, true, nums) {
                Ok(s) => Ok(LineView::State(s)),
                Err(e) => Err(e),
            }
        } else if kind == "status"@ {
            match spec_status(rest, false, nums) {
                Ok(s) => Ok(LineView::Status(s)),
                Err(e) => Err(e),
            }
        } else if kind == "ok"@ {
            match spec_accepted(rest) {
                Ok(c) => Ok(LineView::Accepted(c)),
                Err(e) => Err(e),
            }
        } else if kind == "done"@ {
            match spec_done(rest) {
                Ok(t) => Ok(LineView::Done(t)),
                Err(e) => Err(e),
            }
        } else if kind == "error"@ {
            match spec_error(rest) {
                Ok(t) => Ok(LineView::Error(t)),
                Err(e) => Err(e),
            }
        } else if kind == "fault"@ {
            match spec_fault(rest) {
                Ok(f) => Ok(LineView::Fault(f)),
                Err(e) => Err(e),
            }
        } else if kind == "capture"@ {
            match spec_capture(rest, nums) {
                Ok(c) => Ok(LineView::Capture(c)),
                Err(e) => Err(e),
            }
        } else {
            Err(ProtocolErrorView::UnknownKind(kind))
        }
    }
}


// ---------------------------------------------------------------------------
// Executable parser.
// ---------------------------------------------------------------------------

/// The model of an optional character vector.
pub open spec fn opt_chars(o: Option<Vec<char>>) -> Option<Seq<char>> {
    match o {
        Some(v) => Some(v@),
        None => None,
    }
}

fn invalid(field: &'static str, value: &[char]) -> (e: LigatureProtocolError)
    ensures
        e@ == (ProtocolErrorView::InvalidField { field, value: value@ }),
{
    LigatureProtocolError::InvalidField { field, value: string_of(value) }
}

proof fn lemma_fields_error_extends(ws: Seq<Seq<char>>, k: int, e: ProtocolErrorView)
    requires
        0 <= k <= ws.len(),
        spec_fields(ws.take(k)) == Err::<Seq<(Seq<char>, Seq<char>)>, ProtocolErrorView>(e),
    ensures
        spec_fields(ws) == Err::<Seq<(Seq<char>, Seq<char>)>, ProtocolErrorView>(e),
    decreases ws.len() - k,
{
    if k < ws.len() {
        assert(ws.take(k + 1).drop_last() =~= ws.take(k));
        lemma_fields_error_extends(ws, k + 1, e);
    } else {
        assert(ws.take(k) =~= ws);
    }
}

/// Parses the `NAME:VALUE` fields among the words from index `from` on.
fn parse_fields(ws: &Vec<Vec<char>>, from: usize) -> (r: Result<
    Vec<(Vec<char>, Vec<char>)>,
    LigatureProtocolError,
>)
    requires
        from <= ws@.len(),
    ensures
        match r {
            Ok(fs) => spec_fields(seqs_view(ws@).skip(from as int)) == Ok::<
                Seq<(Seq<char>, Seq<char>)>,
                ProtocolErrorView,
            >(pairs_view(fs@)),
            Err(e) => spec_fields(seqs_view(ws@).skip(from as int)) == Err::<
                Seq<(Seq<char>, Seq<char>)>,
                ProtocolErrorView,
            >(e@),
        },
{
    let ghost all = seqs_view(ws@).skip(from as int);
    let mut fs: Vec<(Vec<char>, Vec<char>)> = Vec::new();
    let mut i: usize = from;
    assert(all.take(0) =~= Seq::<Seq<char>>::empty());
    assert(pairs_view(fs@) =~= Seq::<(Seq<char>, Seq<char>)>::empty());
    while i < ws.len()
        invariant
            from <= i <= ws@.len(),
            all == seqs_view(ws@).skip(from as int),
            spec_fields(all.take(i - from)) == Ok::<
                Seq<(Seq<char>, Seq<char>)>,
                ProtocolErrorView,
            >(pairs_view(fs@)),
        decreases ws@.len() - i,
    {
        let ghost pre = all.take(i + 1 - from);
        assert(pre.drop_last() =~= all.take(i - from));
        assert(pre.last() == ws@[i as int]@);
        let w = &ws[i];
        match split_colon_exec(w.as_slice()) {
            None => {
                proof {
                    lemma_fields_error_extends(all, i + 1 - from, frame_error(w@));
                }
                return Err(invalid("frame", w.as_slice()));
            },
            Some((name, value)) => {
                let dup = lookup_exec(&fs, name.as_slice());
                if name.len() == 0 || value.len() == 0 || dup.is_some() {
                    proof {
                        lemma_fields_error_extends(all, i + 1 - from, frame_error(w@));
                    }
                    return Err(invalid("frame", w.as_slice()));
                }
                let ghost before = pairs_view(fs@);
                fs.push((name, value));
                assert(pairs_view(fs@) =~= before.push((name@, value@)));
            },
        }
        i = i + 1;
    }
    assert(all.take(i - from) =~= all);
    Ok(fs)
}

fn to_string_pairs(fs: &Vec<(Vec<char>, Vec<char>)>) -> (r: Vec<(String, String)>)
    ensures
        string_pairs_view(r@) == pairs_view(fs@),
{
    let mut r: Vec<(String, String)> = Vec::new();
    let mut i: usize = 0;
    while i < fs.len()
        invariant
            i <= fs@.len(),
            string_pairs_view(r@) == pairs_view(fs@).take(i as int),
        decreases fs@.len() - i,
    {
        let ghost before = string_pairs_view(r@);
        r.push((string_of(fs[i].0.as_slice()), string_of(fs[i].1.as_slice())));
        assert(string_pairs_view(r@) =~= before.push((fs@[i as int].0@, fs@[i as int].1@)));
        assert(pairs_view(fs@).take(i + 1) =~= pairs_view(fs@).take(i as int).push(
            (fs@[i as int].0@, fs@[i as int].1@),
        ));
        i = i + 1;
    }
    assert(pairs_view(fs@).take(i as int) =~= pairs_view(fs@));
    r
}

fn lookup_strings<'a>(fs: &'a Vec<(String, String)>, name: &[char]) -> (r: Option<&'a String>)
    ensures
        match r {
            Some(v) => lookup(string_pairs_view(fs@), name@) == Some(v@),
            None => lookup(string_pairs_view(fs@), name@) is None,
        },
{
    let mut i: usize = fs.len();
    assert(string_pairs_view(fs@).take(i as int) =~= string_pairs_view(fs@));
    while i > 0
        invariant
            i <= fs@.len(),
            lookup(string_pairs_view(fs@), name@) == lookup(
                string_pairs_view(fs@).take(i as int),
                name@,
            ),
        decreases i,
    {
        let ghost pre = string_pairs_view(fs@).take(i as int);
        assert(pre.last() == (fs@[i - 1].0@, fs@[i - 1].1@));
        let key = chars_of(fs[i - 1].0.as_str());
        if chars_eq(key.as_slice(), name) {
            return Some(&fs[i - 1].1);
        }
        assert(pre.drop_last() =~= string_pairs_view(fs@).take(i - 1));
        i = i - 1;
    }
    None
}

fn copy_string_pairs(fs: &Vec<(String, String)>) -> (r: Vec<(String, String)>)
    ensures
        string_pairs_view(r@) == string_pairs_view(fs@),
{
    let mut r: Vec<(String, String)> = Vec::new();
    let mut i: usize = 0;
    while i < fs.len()
        invariant
            i <= fs@.len(),
            string_pairs_view(r@) == string_pairs_view(fs@).take(i as int),
        decreases fs@.len() - i,
    {
        let ghost before = string_pairs_view(r@);
        r.push((fs[i].0.clone(), fs[i].1.clone()));
        assert(string_pairs_view(r@) =~= before.push((fs@[i as int].0@, fs@[i as int].1@)));
        assert(string_pairs_view(fs@).take(i + 1) =~= string_pairs_view(fs@).take(i as int).push(
            (fs@[i as int].0@, fs@[i as int].1@),
        ));
        i = i + 1;
    }
    assert(string_pairs_view(fs@).take(i as int) =~= string_pairs_view(fs@));
    r
}

impl ProtocolTerminal {
    /// The command this terminal completes.
    pub fn command_token(&self) -> (t: &LigatureCommandToken)
        ensures
            t@ == self@.command,
    {
        &self.command
    }

    /// One firmware terminal field, without discarding unrecognized diagnostics.
    pub fn field(&self, name: &str) -> (r: Option<&str>)
        ensures
            match r {
                Some(v) => lookup(self@.fields, name@) == Some(v@),
                None => lookup(self@.fields, name@) is None,
            },
    {
        let n = chars_of(name);
        match lookup_strings(&self.fields, n.as_slice()) {
            Some(v) => Some(v.as_str()),
            None => None,
        }
    }

    /// A copy of this terminal.
    pub fn duplicate(&self) -> (t: Self)
        ensures
            t@ == self@,
    {
        ProtocolTerminal { command: self.command.duplicate(), fields: copy_string_pairs(&self.fields) }
    }
}

impl ProtocolErrorTerminal {
    /// The command this error completes.
    pub fn command_token(&self) -> (t: &LigatureCommandToken)
        ensures
            t@ == self@.command,
    {
        &self.command
    }

    /// One additional firmware error field.
    pub fn field(&self, name: &str) -> (r: Option<&str>)
        ensures
            match r {
                Some(v) => lookup(self@.fields, name@) == Some(v@),
                None => lookup(self@.fields, name@) is None,
            },
    {
        let n = chars_of(name);
        match lookup_strings(&self.fields, n.as_slice()) {
            Some(v) => Some(v.as_str()),
            None => None,
        }
    }
}

/// A field that must be present.
fn required(fs: &Vec<(Vec<char>, Vec<char>)>, name: &'static str) -> (r: Result<
    Vec<char>,
    LigatureProtocolError,
>)
    ensures
        result_view(r) == spec_required(pairs_view(fs@), name),
{
    match lookup_lit(fs, name) {
        Some(v) => Ok(v),
        None => Err(LigatureProtocolError::MissingField(name)),
    }
}

impl LigatureState {
    /// The public state named by a wire value.
    pub fn parse(value: &[char]) -> (r: Result<Self, LigatureProtocolError>)
        ensures
            result_view(r) == spec_state(value@),
    {
        if chars_are(value, "COMMISSIONING_ONLY") {
            Ok(LigatureState::CommissioningOnly)
        } else if chars_are(value, "IDLE") {
            Ok(LigatureState::Idle)
        } else if chars_are(value, "ARMED") {
            Ok(LigatureState::Armed)
        } else if chars_are(value, "OVERRIDE_PENDING") {
            Ok(LigatureState::OverridePending)
        } else if chars_are(value, "READY") {
            Ok(LigatureState::Ready)
        } else if chars_are(value, "ALIGNING") {
            Ok(LigatureState::Aligning)
        } else if chars_are(value, "HOMING") {
            Ok(LigatureState::Homing)
        } else if chars_are(value, "CALIBRATING") {
            Ok(LigatureState::Calibrating)
        } else if chars_are(value, "MOVING") {
            Ok(LigatureState::Moving)
        } else if chars_are(value, "TOUCHING_DOWN") {
            Ok(LigatureState::TouchingDown)
        } else if chars_are(value, "HOLDING") {
            Ok(LigatureState::Holding)
        } else if chars_are(value, "FAULT") {
            Ok(LigatureState::Fault)
        } else {
            Err(LigatureProtocolError::UnknownState(string_of(value)))
        }
    }
}

impl PositionTrust {
    /// The Position trust named by a `TRUST` value.
    pub fn parse(value: &[char]) -> (r: Result<Self, LigatureProtocolError>)
        ensures
            result_view(r) == spec_trust(value@),
    {
        if chars_are(value, "1") {
            Ok(PositionTrust::Trusted)
        } else if chars_are(value, "0") {
            Ok(PositionTrust::Untrusted)
        } else {
            Err(invalid("TRUST", value))
        }
    }
}

fn parse_number(field: &'static str, value: &[char], nums: &FiniteNumbers) -> (r: Result<
    String,
    LigatureProtocolError,
>)
    ensures
        result_view(r) == spec_number(field, value@, nums@),
{
    if nums.holds(value) {
        Ok(string_of(value))
    } else {
        Err(invalid(field, value))
    }
}

impl LigaturePosition {
    /// A `Z` value: `?` or a finite number.
    pub fn parse(value: &[char], nums: &FiniteNumbers) -> (r: Result<Self, LigatureProtocolError>)
        ensures
            result_view(r) == spec_position(value@, nums@),
    {
        if chars_are(value, "?") {
            return Ok(LigaturePosition::Unknown);
        }
        if nums.holds(value) {
            Ok(LigaturePosition::Known(string_of(value)))
        } else {
            Err(invalid("Z", value))
        }
    }
}

fn token_char_exec(c: char) -> (b: bool)
    ensures
        b == token_char(c),
{
    ('A' <= c && c <= 'Z') || ('0' <= c && c <= '9') || c == '?'
}

fn is_token_exec(t: &[char]) -> (b: bool)
    ensures
        b == is_token(t@),
{
    if t.len() < 1 || t.len() > 4 {
        return false;
    }
    let mut i: usize = 0;
    while i < t.len()
        invariant
            i <= t@.len(),
            forall|j: int| 0 <= j < i ==> token_char(#[trigger] t@[j]),
        decreases t@.len() - i,
    {
        if !token_char_exec(t[i]) {
            return false;
        }
        i = i + 1;
    }
    true
}

fn parse_command(value: Option<&Vec<char>>) -> (r: Result<
    LigatureCommandToken,
    LigatureProtocolError,
>)
    ensures
        result_view(r) == spec_command(
            match value {
                Some(v) => Some(v@),
                None => None,
            },
        ),
{
    match value {
        None => Err(LigatureProtocolError::MissingField("command")),
        Some(v) => if is_token_exec(v.as_slice()) {
            Ok(LigatureCommandToken::from_chars(v.as_slice()))
        } else {
            Err(LigatureProtocolError::InvalidCommand(string_of(v.as_slice())))
        },
    }
}

pub(crate) fn parse_optional_token(field: &'static str, value: &[char]) -> (r: Result<
    Option<LigatureCommandToken>,
    LigatureProtocolError,
>)
    ensures
        match r {
            Ok(t) => spec_optional_token(field, value@) == Ok::<
                Option<Seq<char>>,
                ProtocolErrorView,
            >(opt_token(t)),
            Err(e) => spec_optional_token(field, value@) == Err::<
                Option<Seq<char>>,
                ProtocolErrorView,
            >(e@),
        },
{
    if chars_are(value, "NONE") {
        Ok(None)
    } else if is_token_exec(value) {
        Ok(Some(LigatureCommandToken::from_chars(value)))
    } else {
        Err(invalid(field, value))
    }
}

fn parse_optional_text(field: &'static str, value: &[char]) -> (r: Result<
    Option<String>,
    LigatureProtocolError,
>)
    ensures
        match r {
            Ok(t) => spec_optional_text(field, value@) == Ok::<
                Option<Seq<char>>,
                ProtocolErrorView,
            >(opt_text(t)),
            Err(e) => spec_optional_text(field, value@) == Err::<
                Option<Seq<char>>,
                ProtocolErrorView,
            >(e@),
        },
{
    if chars_are(value, "NONE") {
        return Ok(None);
    }
    if value.len() == 0 {
        return Err(invalid(field, value));
    }
    let mut i: usize = 0;
    while i < value.len()
        invariant
            i <= value@.len(),
            value@ != "NONE"@,
            forall|j: int| 0 <= j < i ==> !is_ascii_space(#[trigger] value@[j]),
        decreases value@.len() - i,
    {
        let c = value[i];
        if c == ' ' || c == '\t' || c == '\n' || c == '\x0C' || c == '\r' {
            assert(is_ascii_space(value@[i as int]));
            assert(exists|k: int| 0 <= k < value@.len() && is_ascii_space(#[trigger] value@[k]));
            assert(value@ != "NONE"@);
            return Err(invalid(field, value));
        }
        i = i + 1;
    }
    Ok(Some(string_of(value)))
}

fn parse_optional_bool(fs: &Vec<(Vec<char>, Vec<char>)>, name: &'static str) -> (r: Result<
    Option<bool>,
    LigatureProtocolError,
>)
    ensures
        result_view(r) == spec_optional_bool(pairs_view(fs@), name),
{
    match lookup_lit(fs, name) {
        Some(v) => if chars_are(v.as_slice(), "1") {
            Ok(Some(true))
        } else if chars_are(v.as_slice(), "0") {
            Ok(Some(false))
        } else {
            Err(invalid(name, v.as_slice()))
        },
        None => Ok(None),
    }
}

fn parse_bool(field: &'static str, value: &[char]) -> (r: Result<bool, LigatureProtocolError>)
    ensures
        result_view(r) == spec_bool(field, value@),
{
    if chars_are(value, "1") {
        Ok(true)
    } else if chars_are(value, "0") {
        Ok(false)
    } else {
        Err(invalid(field, value))
    }
}

fn parse_integer(field: &'static str, value: &[char], max: u64) -> (r: Result<
    u64,
    LigatureProtocolError,
>)
    requires
        max >= 9,
    ensures
        match r {
            Ok(n) => spec_integer(field, value@, max as nat) == Ok::<nat, ProtocolErrorView>(
                n as nat,
            ),
            Err(e) => spec_integer(field, value@, max as nat) == Err::<nat, ProtocolErrorView>(
                e@,
            ),
        },
{
    match parse_unsigned_exec(value, max) {
        Some(n) => Ok(n),
        None => Err(invalid(field, value)),
    }
}

fn parse_status_head(fs: &Vec<(Vec<char>, Vec<char>)>, nums: &FiniteNumbers) -> (r: Result<
    (LigatureState, PositionTrust, LigaturePosition),
    LigatureProtocolError,
>)
    ensures
        result_view(r) == spec_status_head(pairs_view(fs@), nums@),
{
    let sv = required(fs, "STATE")?;
    let state = LigatureState::parse(sv.as_slice())?;
    let tv = required(fs, "TRUST")?;
    let trust = PositionTrust::parse(tv.as_slice())?;
    let zv = required(fs, "Z")?;
    let position = LigaturePosition::parse(zv.as_slice(), nums)?;
    Ok((state, trust, position))
}

fn parse_status_motion(fs: &Vec<(Vec<char>, Vec<char>)>, nums: &FiniteNumbers) -> (r: Result<
    (String, String, Option<bool>),
    LigatureProtocolError,
>)
    ensures
        result_view(r) == spec_status_motion(pairs_view(fs@), nums@),
{
    let vv = required(fs, "VEL")?;
    let vel = parse_number("VEL", vv.as_slice(), nums)?;
    let iv = required(fs, "IQ")?;
    let iq = parse_number("IQ", iv.as_slice(), nums)?;
    let pv = required(fs, "PRESS")?;
    let press = if chars_are(pv.as_slice(), "SET") {
        Some(true)
    } else if chars_are(pv.as_slice(), "?") {
        None
    } else {
        return Err(invalid("PRESS", pv.as_slice()));
    };
    Ok((vel, iq, press))
}

fn parse_status_activity(fs: &Vec<(Vec<char>, Vec<char>)>) -> (r: Result<
    (Option<LigatureCommandToken>, Option<String>),
    LigatureProtocolError,
>)
    ensures
        match r {
            Ok((a, f)) => spec_status_activity(pairs_view(fs@)) == Ok::<
                (Option<Seq<char>>, Option<Seq<char>>),
                ProtocolErrorView,
            >((opt_token(a), opt_text(f))),
            Err(e) => spec_status_activity(pairs_view(fs@)) == Err::<
                (Option<Seq<char>>, Option<Seq<char>>),
                ProtocolErrorView,
            >(e@),
        },
{
    let av = required(fs, "ACTIVE")?;
    let active = parse_optional_token("ACTIVE", av.as_slice())?;
    let fv = required(fs, "FAULT")?;
    let fault = parse_optional_text("FAULT", fv.as_slice())?;
    Ok((active, fault))
}

fn parse_status_extras(fs: &Vec<(Vec<char>, Vec<char>)>, is_query: bool) -> (r: Result<
    (Option<bool>, Option<bool>, Option<bool>),
    LigatureProtocolError,
>)
    ensures
        result_view(r) == spec_status_extras(pairs_view(fs@), is_query),
{
    let endstop = parse_optional_bool(fs, "ENDSTOP")?;
    let pwm = match lookup_lit(fs, "PWM") {
        Some(v) => if chars_are(v.as_slice(), "ACTIVE") {
            Some(true)
        } else if chars_are(v.as_slice(), "OFF") {
            Some(false)
        } else {
            return Err(invalid("PWM", v.as_slice()));
        },
        None => None,
    };
    let modified = parse_optional_bool(fs, "RUNTIME_MODIFIED")?;
    if is_query {
        if lookup_lit(fs, "ENDSTOP").is_none() {
            return Err(LigatureProtocolError::MissingField("ENDSTOP"));
        }
        if lookup_lit(fs, "PWM").is_none() {
            return Err(LigatureProtocolError::MissingField("PWM"));
        }
        if lookup_lit(fs, "RUNTIME_MODIFIED").is_none() {
            return Err(LigatureProtocolError::MissingField("RUNTIME_MODIFIED"));
        }
    }
    Ok((endstop, pwm, modified))
}

fn parse_status(ws: &Vec<Vec<char>>, is_query: bool, nums: &FiniteNumbers) -> (r: Result<
    LigatureStatus,
    LigatureProtocolError,
>)
    requires
        ws@.len() >= 1,
    ensures
        result_view(r) == spec_status(seqs_view(ws@).skip(1), is_query, nums@),
{
    let fs = parse_fields(ws, 1)?;
    let (state, position_trust, position) = parse_status_head(&fs, nums)?;
    let (velocity_mm_s, q_current_a, press_is_set) = parse_status_motion(&fs, nums)?;
    let (active, fault) = parse_status_activity(&fs)?;
    let (endstop_active, pwm_active, runtime_modified) = parse_status_extras(&fs, is_query)?;
    Ok(
        LigatureStatus {
            state,
            position_trust,
            position,
            velocity_mm_s,
            q_current_a,
            press_is_set,
            active,
            fault,
            endstop_active,
            pwm_active,
            runtime_modified,
        },
    )
}

proof fn lemma_rest_words(ws: Seq<Seq<char>>)
    requires
        ws.len() >= 1,
    ensures
        ws.len() >= 2 ==> rest_words(ws.drop_first()) =~= ws.skip(2),
        ws.len() == 1 ==> rest_words(ws.drop_first()) =~= ws.skip(1),
        ws.len() >= 2 ==> first_word(ws.drop_first()) == Some(ws[1]),
        ws.len() < 2 ==> first_word(ws.drop_first()) is None,
{
}

fn parse_done(ws: &Vec<Vec<char>>) -> (r: Result<ProtocolTerminal, LigatureProtocolError>)
    requires
        ws@.len() >= 1,
    ensures
        result_view(r) == spec_done(seqs_view(ws@).skip(1)),
{
    proof {
        lemma_rest_words(seqs_view(ws@));
        assert(seqs_view(ws@).skip(1) =~= seqs_view(ws@).drop_first());
    }
    let command = parse_command(if ws.len() > 1 { Some(&ws[1]) } else { None })?;
    let fields = if ws.len() > 1 {
        parse_fields(ws, 2)?
    } else {
        parse_fields(ws, 1)?
    };
    Ok(ProtocolTerminal { command, fields: to_string_pairs(&fields) })
}

fn parse_error(ws: &Vec<Vec<char>>) -> (r: Result<ProtocolErrorTerminal, LigatureProtocolError>)
    requires
        ws@.len() >= 1,
    ensures
        result_view(r) == spec_error(seqs_view(ws@).skip(1)),
{
    proof {
        lemma_rest_words(seqs_view(ws@));
        assert(seqs_view(ws@).skip(1) =~= seqs_view(ws@).drop_first());
    }
    let command = parse_command(if ws.len() > 1 { Some(&ws[1]) } else { None })?;
    let fields = if ws.len() > 1 {
        parse_fields(ws, 2)?
    } else {
        parse_fields(ws, 1)?
    };
    let reason = required(&fields, "REASON")?;
    Ok(
        ProtocolErrorTerminal {
            command,
            reason: string_of(reason.as_slice()),
            fields: to_string_pairs(&fields),
        },
    )
}

fn z_marker_exec(trust: PositionTrust) -> (m: &'static str)
    ensures
        m@ == z_marker(trust),
{
    match trust {
        PositionTrust::Trusted => "KNOWN",
        PositionTrust::Untrusted => "?",
    }
}

fn parse_fault(ws: &Vec<Vec<char>>) -> (r: Result<LigatureFault, LigatureProtocolError>)
    requires
        ws@.len() >= 1,
    ensures
        result_view(r) == spec_fault(seqs_view(ws@).skip(1)),
{
    proof {
        lemma_rest_words(seqs_view(ws@));
        assert(seqs_view(ws@).skip(1) =~= seqs_view(ws@).drop_first());
    }
    if ws.len() < 2 {
        return Err(LigatureProtocolError::MissingField("fault reason"));
    }
    let reason = string_of(ws[1].as_slice());
    let fs = parse_fields(ws, 2)?;
    let cv = match lookup_lit(&fs, "CANCELLED") {
        Some(v) => v,
        None => {
            return Err(LigatureProtocolError::MissingField("CANCELLED"));
        },
    };
    let cancelled = parse_optional_token("CANCELLED", cv.as_slice())?;
    let tv = match lookup_lit(&fs, "TRUST") {
        Some(v) => v,
        None => {
            return Err(LigatureProtocolError::MissingField("TRUST"));
        },
    };
    let position_trust = PositionTrust::parse(tv.as_slice())?;
    match lookup_lit(&fs, "STATE") {
        Some(v) => {
            if !chars_are(v.as_slice(), "FAULT") {
                return Err(invalid("STATE", v.as_slice()));
            }
        },
        None => {
            let empty: Vec<char> = Vec::new();
            proof {
                reveal_strlit("FAULT");
            }
            return Err(invalid("STATE", empty.as_slice()));
        },
    }
    match lookup_lit(&fs, "Z") {
        Some(z) => {
            if !chars_are(z.as_slice(), z_marker_exec(position_trust)) {
                return Err(invalid("Z", z.as_slice()));
            }
        },
        None => {
            return Err(LigatureProtocolError::MissingField("Z"));
        },
    }
    Ok(LigatureFault { reason, cancelled, position_trust })
}

fn required_number(
    fs: &Vec<(Vec<char>, Vec<char>)>,
    name: &'static str,
    nums: &FiniteNumbers,
) -> (r: Result<String, LigatureProtocolError>)
    ensures
        result_view(r) == spec_required_number(pairs_view(fs@), name, nums@),
{
    let v = required(fs, name)?;
    parse_number(name, v.as_slice(), nums)
}

fn parse_capture_head(fs: &Vec<(Vec<char>, Vec<char>)>) -> (r: Result<
    (u16, u64),
    LigatureProtocolError,
>)
    ensures
        match r {
            Ok((i, t)) => spec_capture_head(pairs_view(fs@)) == Ok::<(nat, nat), ProtocolErrorView>(
                (i as nat, t as nat),
            ),
            Err(e) => spec_capture_head(pairs_view(fs@)) == Err::<(nat, nat), ProtocolErrorView>(
                e@,
            ),
        },
{
    let iv = required(fs, "I")?;
    let index = parse_integer("I", iv.as_slice(), 65535)?;
    let tv = required(fs, "T_MS")?;
    let ts = parse_integer("T_MS", tv.as_slice(), 18446744073709551615)?;
    let sv = required(fs, "STATE_ID")?;
    let _state_id = parse_integer("STATE_ID", sv.as_slice(), 65535)?;
    Ok((index as u16, ts))
}

fn parse_capture(ws: &Vec<Vec<char>>, nums: &FiniteNumbers) -> (r: Result<
    LigatureCaptureSample,
    LigatureProtocolError,
>)
    requires
        ws@.len() >= 1,
    ensures
        result_view(r) == spec_capture(seqs_view(ws@).skip(1), nums@),
{
    let fs = parse_fields(ws, 1)?;
    let (index, timestamp_ms) = parse_capture_head(&fs)?;
    let position_mm = required_number(&fs, "Z", nums)?;
    let shaft_angle_rad = required_number(&fs, "ANGLE", nums)?;
    let velocity_rad_s = required_number(&fs, "VEL_RAD_S", nums)?;
    let target = required_number(&fs, "TARGET", nums)?;
    let q_current_a = required_number(&fs, "IQ", nums)?;
    let ev = required(&fs, "ENDSTOP")?;
    let endstop_active = parse_bool("ENDSTOP", ev.as_slice())?;
    Ok(
        LigatureCaptureSample {
            index,
            timestamp_ms,
            position_mm,
            shaft_angle_rad,
            velocity_rad_s,
            target,
            q_current_a,
            endstop_active,
        },
    )
}

fn parse_accepted(ws: &Vec<Vec<char>>) -> (r: Result<LigatureCommandToken, LigatureProtocolError>)
    requires
        ws@.len() >= 1,
    ensures
        result_view(r) == spec_accepted(seqs_view(ws@).skip(1)),
{
    proof {
        lemma_rest_words(seqs_view(ws@));
        assert(seqs_view(ws@).skip(1) =~= seqs_view(ws@).drop_first());
    }
    let command = parse_command(if ws.len() > 1 { Some(&ws[1]) } else { None })?;
    if ws.len() > 2 {
        return Err(invalid("frame", ws[2].as_slice()));
    }
    Ok(command)
}

/// Parses one newline-stripped production response.
///
/// The line is split into whitespace-separated words (a trailing carriage
/// return is whitespace and so never part of a word). Real-number fields are
/// accepted exactly when `numbers` lists their text.
pub fn parse_ligature_line(line: &str, numbers: &FiniteNumbers) -> (r: Result<
    LigatureLine,
    LigatureProtocolError,
>)
    ensures
        result_view(r) == spec_parse_line(line@, numbers@),
{
    let chars = chars_of(line);
    let ws = split_words(chars.as_slice());
    if ws.len() == 0 {
        return Err(LigatureProtocolError::Empty);
    }
    let ghost rest = seqs_view(ws@).drop_first();
    assert(seqs_view(ws@).skip(1) =~= rest);
    let kind = &ws[0];
    if chars_are(kind.as_slice(), "state") {
        Ok(LigatureLine::State(parse_status(&ws, true, numbers)?))
    } else if chars_are(kind.as_slice(), "status") {
        Ok(LigatureLine::Status(parse_status(&ws, false, numbers)?))
    } else if chars_are(kind.as_slice(), "ok") {
        Ok(LigatureLine::Accepted { command: parse_accepted(&ws)? })
    } else if chars_are(kind.as_slice(), "done") {
        Ok(LigatureLine::Done(parse_done(&ws)?))
    } else if chars_are(kind.as_slice(), "error") {
        Ok(LigatureLine::Error(parse_error(&ws)?))
    } else if chars_are(kind.as_slice(), "fault") {
        Ok(LigatureLine::Fault(parse_fault(&ws)?))
    } else if chars_are(kind.as_slice(), "capture") {
        Ok(LigatureLine::Capture(parse_capture(&ws, numbers)?))
    } else {
        Err(LigatureProtocolError::UnknownKind(string_of(kind.as_slice())))
    }
}


impl LigatureStatus {
    /// A copy of this status.
    pub fn duplicate(&self) -> (r: Self)
        ensures
            r@ == self@,
    {
        LigatureStatus {
            state: self.state,
            position_trust: self.position_trust,
            position: match &self.position {
                LigaturePosition::Known(z) => LigaturePosition::Known(z.clone()),
                LigaturePosition::Unknown => LigaturePosition::Unknown,
            },
            velocity_mm_s: self.velocity_mm_s.clone(),
            q_current_a: self.q_current_a.clone(),
            press_is_set: self.press_is_set,
            active: match &self.active {
                Some(t) => Some(t.duplicate()),
                None => None,
            },
            fault: match &self.fault {
                Some(f) => Some(f.clone()),
                None => None,
            },
            endstop_active: self.endstop_active,
            pwm_active: self.pwm_active,
            runtime_modified: self.runtime_modified,
        }
    }
}

/// The operator-facing text of a protocol error.
pub open spec fn protocol_error_message(e: ProtocolErrorView) -> Seq<char> {
    match e {
        ProtocolErrorView::Empty => "empty Ligature response"@,
        ProtocolErrorView::UnknownKind(k) => "unknown Ligature response kind: "@ + k,
        ProtocolErrorView::MissingField(f) => "missing Ligature field "@ + f@,
        ProtocolErrorView::InvalidField { field, value } => "invalid Ligature field "@ + field@
            + ": "@ + value,
        ProtocolErrorView::UnknownState(s) => "unknown public Ligature state: "@ + s,
        ProtocolErrorView::InvalidCommand(c) => "invalid Ligature command token: "@ + c,
    }
}

impl LigatureProtocolError {
    /// The operator-facing text of the error.
    pub fn message(&self) -> (s: String)
        ensures
            s@ == protocol_error_message(self@),
    {
        match self {
            LigatureProtocolError::Empty => "empty Ligature response".to_owned(),
            LigatureProtocolError::UnknownKind(k) => {
                let mut s = "unknown Ligature response kind: ".to_owned();
                s.append(k.as_str());
                s
            },
            LigatureProtocolError::MissingField(f) => {
                let mut s = "missing Ligature field ".to_owned();
                s.append(f);
                s
            },
            LigatureProtocolError::InvalidField { field, value } => {
                let mut s = "invalid Ligature field ".to_owned();
                s.append(field);
                s.append(": ");
                s.append(value.as_str());
                s
            },
            LigatureProtocolError::UnknownState(st) => {
                let mut s = "unknown public Ligature state: ".to_owned();
                s.append(st.as_str());
                s
            },
            LigatureProtocolError::InvalidCommand(c) => {
                let mut s = "invalid Ligature command token: ".to_owned();
                s.append(c.as_str());
                s
            },
        }
    }
}


proof fn lemma_colon_after_name(n: Seq<char>, v: Seq<char>)
    requires
        !n.contains(':'),
    ensures
        colon_index(n + seq![':'] + v) == Some(n.len() as int),
    decreases n.len(),
{
    let w = n + seq![':'] + v;
    if n.len() == 0 {
        assert(w[0] == ':');
    } else {
        assert(w[0] == n[0]);
        assert(n.contains(n[0]));
        let m = n.drop_first();
        assert(!m.contains(':')) by {
            if m.contains(':') {
                let j = choose|j: int| 0 <= j < m.len() && m[j] == ':';
                assert(n[j + 1] == ':');
                assert(n.contains(':'));
            }
        }
        assert(w.drop_first() =~= m + seq![':'] + v);
        lemma_colon_after_name(m, v);
    }
}

proof fn lemma_split_named(n: Seq<char>, v: Seq<char>)
    requires
        !n.contains(':'),
    ensures
        split_colon(n + seq![':'] + v) == Some((n, v)),
{
    let w = n + seq![':'] + v;
    lemma_colon_after_name(n, v);
    assert(w.take(n.len() as int) =~= n);
    assert(w.skip(n.len() as int + 1) =~= v);
}

/// A word `NAME:VALUE` of a well-formed frame is found under its name.
proof fn lemma_fields_has(ws: Seq<Seq<char>>, i: int, n: Seq<char>, v: Seq<char>)
    requires
        spec_fields(ws) is Ok,
        0 <= i < ws.len(),
        split_colon(ws[i]) == Some((n, v)),
    ensures
        lookup(spec_fields(ws)->Ok_0, n) == Some(v),
    decreases ws.len(),
{
    let pre = ws.drop_last();
    let fs = spec_fields(ws)->Ok_0;
    let pfs = spec_fields(pre)->Ok_0;
    assert(fs.drop_last() =~= pfs);
    if i < ws.len() - 1 {
        assert(pre[i] == ws[i]);
        lemma_fields_has(pre, i, n, v);
    }
}

/// A name that no word of a well-formed frame carries is not found.
proof fn lemma_fields_absent(ws: Seq<Seq<char>>, n: Seq<char>)
    requires
        spec_fields(ws) is Ok,
        forall|i: int|
            0 <= i < ws.len() ==> !(#[trigger] split_colon(ws[i]) matches Some((m, _)) && m == n),
    ensures
        lookup(spec_fields(ws)->Ok_0, n) is None,
    decreases ws.len(),
{
    if ws.len() > 0 {
        let pre = ws.drop_last();
        let fs = spec_fields(ws)->Ok_0;
        assert(fs.drop_last() =~= spec_fields(pre)->Ok_0);
        assert forall|i: int| 0 <= i < pre.len() implies !(#[trigger] split_colon(pre[i]) matches Some((
            m,
            _,
        )) && m == n) by {
            assert(pre[i] == ws[i]);
        }
        lemma_fields_absent(pre, n);
        assert(split_colon(ws[ws.len() - 1]) == split_colon(ws.last()));
    }
}

/// The PWM, endstop and runtime-modification reports of a `state` or
/// `status` frame follow their words: `PWM:ACTIVE` means PWM is on and
/// `PWM:OFF` off; `ENDSTOP:1` and `RUNTIME_MODIFIED:1` mean set and `:0`
/// clear; and a frame without such a field reports nothing for it.
#[verifier::rlimit(40)]
pub proof fn law_status_extras_follow_their_fields(line: Seq<char>, nums: Set<Seq<char>>)
    ensures
        ({
            let rest = words(line).drop_first();
            let st = match spec_parse_line(line, nums) {
                Ok(LineView::State(st)) => Some(st),
                Ok(LineView::Status(st)) => Some(st),
                _ => None,
            };
            &&& st is Some && rest.contains("PWM:ACTIVE"@) ==> st->Some_0.pwm_active == Some(true)
            &&& st is Some && rest.contains("PWM:OFF"@) ==> st->Some_0.pwm_active == Some(false)
            &&& st is Some && (forall|i: int|
                0 <= i < rest.len() ==> !(#[trigger] split_colon(rest[i]) matches Some((m, _)) && m
                    == "PWM"@)) ==> st->Some_0.pwm_active is None
            &&& st is Some && rest.contains("ENDSTOP:1"@) ==> st->Some_0.endstop_active == Some(true)
            &&& st is Some && rest.contains("ENDSTOP:0"@) ==> st->Some_0.endstop_active == Some(false)
            &&& st is Some && rest.contains("RUNTIME_MODIFIED:1"@) ==> st->Some_0.runtime_modified
                == Some(true)
            &&& st is Some && rest.contains("RUNTIME_MODIFIED:0"@) ==> st->Some_0.runtime_modified
                == Some(false)
        }),
{
    let ws = words(line);
    let rest = ws.drop_first();
    reveal_strlit("PWM:ACTIVE");
    reveal_strlit("PWM:OFF");
    reveal_strlit("PWM");
    reveal_strlit("ACTIVE");
    reveal_strlit("OFF");
    reveal_strlit("ENDSTOP:1");
    reveal_strlit("ENDSTOP:0");
    reveal_strlit("ENDSTOP");
    reveal_strlit("RUNTIME_MODIFIED:1");
    reveal_strlit("RUNTIME_MODIFIED:0");
    reveal_strlit("RUNTIME_MODIFIED");
    reveal_strlit("1");
    reveal_strlit("0");
    reveal_strlit("state");
    reveal_strlit("status");
    assert("0"@[0] != "1"@[0]);
    assert("0"@ != "1"@);
    let pwm = "PWM"@;
    let endstop = "ENDSTOP"@;
    let modified = "RUNTIME_MODIFIED"@;
    assert(!pwm.contains(':')) by {
        if pwm.contains(':') {
            let j = choose|j: int| 0 <= j < pwm.len() && pwm[j] == ':';
        }
    }
    assert(!endstop.contains(':')) by {
        if endstop.contains(':') {
            let j = choose|j: int| 0 <= j < endstop.len() && endstop[j] == ':';
        }
    }
    assert(!modified.contains(':')) by {
        if modified.contains(':') {
            let j = choose|j: int| 0 <= j < modified.len() && modified[j] == ':';
        }
    }
    assert("PWM:ACTIVE"@ =~= pwm + seq![':'] + "ACTIVE"@);
    assert("PWM:OFF"@ =~= pwm + seq![':'] + "OFF"@);
    assert("ENDSTOP:1"@ =~= endstop + seq![':'] + "1"@);
    assert("ENDSTOP:0"@ =~= endstop + seq![':'] + "0"@);
    assert("RUNTIME_MODIFIED:1"@ =~= modified + seq![':'] + "1"@);
    assert("RUNTIME_MODIFIED:0"@ =~= modified + seq![':'] + "0"@);
    lemma_split_named(pwm, "ACTIVE"@);
    lemma_split_named(pwm, "OFF"@);
    lemma_split_named(endstop, "1"@);
    lemma_split_named(endstop, "0"@);
    lemma_split_named(modified, "1"@);
    lemma_split_named(modified, "0"@);
    if ws.len() > 0 && (ws[0] == "state"@ || ws[0] == "status"@) && spec_status(
        rest,
        ws[0] == "state"@,
        nums,
    ) is Ok {
        let q = ws[0] == "state"@;
        let fs = spec_fields(rest)->Ok_0;
        let st = spec_status(rest, q, nums)->Ok_0;
        let extras = spec_status_extras(fs, q)->Ok_0;
        assert(st.endstop_active == extras.0 && st.pwm_active == extras.1 && st.runtime_modified
            == extras.2);
        assert(extras.0 == spec_optional_bool(fs, "ENDSTOP")->Ok_0);
        assert(extras.1 == spec_pwm(fs)->Ok_0);
        assert(extras.2 == spec_optional_bool(fs, "RUNTIME_MODIFIED")->Ok_0);
        if rest.contains("PWM:ACTIVE"@) {
            let i = choose|i: int| 0 <= i < rest.len() && rest[i] == "PWM:ACTIVE"@;
            lemma_fields_has(rest, i, pwm, "ACTIVE"@);
        }
        if rest.contains("PWM:OFF"@) {
            let i = choose|i: int| 0 <= i < rest.len() && rest[i] == "PWM:OFF"@;
            lemma_fields_has(rest, i, pwm, "OFF"@);
        }
        if forall|i: int|
            0 <= i < rest.len() ==> !(#[trigger] split_colon(rest[i]) matches Some((m, _)) && m
                == "PWM"@) {
            lemma_fields_absent(rest, pwm);
        }
        if rest.contains("ENDSTOP:1"@) {
            let i = choose|i: int| 0 <= i < rest.len() && rest[i] == "ENDSTOP:1"@;
            lemma_fields_has(rest, i, endstop, "1"@);
        }
        if rest.contains("ENDSTOP:0"@) {
            let i = choose|i: int| 0 <= i < rest.len() && rest[i] == "ENDSTOP:0"@;
            lemma_fields_has(rest, i, endstop, "0"@);
        }
        if rest.contains("RUNTIME_MODIFIED:1"@) {
            let i = choose|i: int| 0 <= i < rest.len() && rest[i] == "RUNTIME_MODIFIED:1"@;
            lemma_fields_has(rest, i, modified, "1"@);
        }
        if rest.contains("RUNTIME_MODIFIED:0"@) {
            let i = choose|i: int| 0 <= i < rest.len() && rest[i] == "RUNTIME_MODIFIED:0"@;
            lemma_fields_has(rest, i, modified, "0"@);
        }
    }
}
} // verus!
