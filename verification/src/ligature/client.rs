//! Ligature session wiring over an injected wire.
//!
//! The client owns the authoritative [`LigatureSession`] and writes each
//! correlated request immediately: no request is queued on the host.
use vstd::prelude::*;
use vstd::string::StringExecFns;
use super::lifecycle::{
    session_error_message, spec_begin, spec_from_query, spec_receive, spec_reconnect, spec_wf,
    ConnectionEpoch, EventView, LigatureCommand, LigatureEvent, LigatureReconnect,
    LigatureRequest, LigatureSession, LigatureSessionError, SessionErrorView, session_result,
};
use super::protocol::{
    parse_ligature_line, protocol_error_message, spec_parse_line, FiniteNumbers, LigatureLine,
    LineView,
};

verus! {

/// Transport failure that invalidates the current Ligature connection.
#[derive(Clone, Debug, PartialEq, Eq)]
pub enum LigatureTransportError {
    /// The configured serial device could not be opened or cloned.
    Device(String),
    /// An established serial device failed while reading or writing.
    Io(String),
    /// No complete state query arrived within the configured timeout.
    QueryTimeout,
    /// The query returned a frame that cannot establish current state.
    QueryInvalid(String),
    /// A serial worker or its channel stopped.
    Closed,
    /// The response violated the current operation lifecycle.
    Session(LigatureSessionError),
}

/// The operator-facing text of a transport failure.
pub open spec fn transport_error_message(e: LigatureTransportError) -> Seq<char> {
    match e {
        LigatureTransportError::Device(d) => "cannot open Ligature device: "@ + d@,
        LigatureTransportError::Io(d) => "Ligature serial I/O failed: "@ + d@,
        LigatureTransportError::QueryTimeout => "Ligature did not return a parseable state before the deadline"@,
        LigatureTransportError::QueryInvalid(d) => "Ligature readiness query returned an invalid frame: "@ + d@,
        LigatureTransportError::Closed => "Ligature serial worker closed"@,
        LigatureTransportError::Session(s) => session_error_message(s@),
    }
}

impl LigatureTransportError {
    /// The operator-facing text of the failure.
    pub fn message(&self) -> (s: String)
        ensures
            s@ == transport_error_message(*self),
    {
        match self {
            LigatureTransportError::Device(d) => {
                let mut s = "cannot open Ligature device: ".to_owned();
                s.append(d.as_str());
                s
            },
            LigatureTransportError::Io(d) => {
                let mut s = "Ligature serial I/O failed: ".to_owned();
                s.append(d.as_str());
                s
            },
            LigatureTransportError::QueryTimeout => {
                "Ligature did not return a parseable state before the deadline".to_owned()
            },
            LigatureTransportError::QueryInvalid(d) => {
                let mut s = "Ligature readiness query returned an invalid frame: ".to_owned();
                s.append(d.as_str());
                s
            },
            LigatureTransportError::Closed => "Ligature serial worker closed".to_owned(),
            LigatureTransportError::Session(e) => e.message(),
        }
    }
}

/// Minimal wire boundary used by the controller and deterministic fakes.
pub trait LigatureWire: 'static {
    /// Tag subsequent responses with the connection epoch that opened this wire.
    fn set_epoch(&mut self, epoch: ConnectionEpoch);

    /// Write one already-correlated request through its selected priority path.
    fn send(&mut self, request: &LigatureRequest) -> Result<(), LigatureTransportError>;

    /// Request a fresh public-state frame after an asynchronous lifecycle change.
    fn query_current_state(&mut self) -> Result<(), LigatureTransportError>;

    /// Poll one epoch-tagged response without blocking.
    fn try_line(&mut self) -> Result<Option<(ConnectionEpoch, String)>, LigatureTransportError>;
}

/// Reports which real-number texts of a received line read as finite numbers.
pub trait FiniteNumberReader {
    /// The finite real-number texts of `line`.
    fn finite_numbers(&self, line: &str) -> FiniteNumbers;
}

/// Whether an event ends a request, after which the public state is queried anew.
pub open spec fn ends_request(e: EventView) -> bool {
    e is Completed || e is Failed || e is Cancelled || e is HardFault
}

/// Correlated Ligature lifecycle over an injected wire.
pub struct LigatureClient<W> {
    session: LigatureSession,
    wire: W,
}

impl<W: LigatureWire> LigatureClient<W> {
    /// Well-formedness: the owned session is well formed.
    pub closed spec fn wf(&self) -> bool {
        spec_wf(self.session@)
    }

    /// The owned session.
    pub closed spec fn session_view(&self) -> LigatureSession {
        self.session
    }

    /// Create a client from a wire whose open query already returned `query`.
    pub fn from_query(wire: W, query: &str, numbers: &FiniteNumbers) -> (r: Result<
        Self,
        LigatureTransportError,
    >)
        ensures
            match spec_from_query(query@, None, numbers@) {
                Ok(s) => r matches Ok(c) && c.wf() && c.session_view()@ == s,
                Err(e) => r matches Err(LigatureTransportError::Session(x)) && x@ == e,
            },
    {
        let mut wire = wire;
        match LigatureSession::from_query(query, numbers) {
            Ok(session) => {
                wire.set_epoch(ConnectionEpoch(1));
                Ok(LigatureClient { session, wire })
            },
            Err(e) => Err(LigatureTransportError::Session(e)),
        }
    }

    /// Inspect the authoritative lifecycle and latest public status.
    pub fn session(&self) -> (s: &LigatureSession)
        ensures
            *s == self.session_view(),
    {
        &self.session
    }

    /// Correlate and write one command immediately. No request is queued in the client.
    pub fn begin(&mut self, command: LigatureCommand) -> (r: Result<
        LigatureRequest,
        LigatureTransportError,
    >)
        requires
            old(self).wf(),
            old(self).session_view()@.next_operation_id < u64::MAX,
        ensures
            final(self).wf(),
            final(self).session_view()@ == spec_begin(old(self).session_view()@, command).0,
            spec_begin(old(self).session_view()@, command).1 matches Err(e) ==> (r matches Err(
                LigatureTransportError::Session(x),
            ) && x@ == e),
            r matches Ok(q) ==> spec_begin(old(self).session_view()@, command).1 == Ok::<
                _,
                SessionErrorView,
            >(q@),
    {
        let request = match self.session.begin(command) {
            Ok(q) => q,
            Err(e) => {
                return Err(LigatureTransportError::Session(e));
            },
        };
        match self.wire.send(&request) {
            Ok(()) => Ok(request),
            Err(e) => Err(e),
        }
    }

    /// Install a freshly opened wire and query result, retiring all old-epoch work.
    pub fn reconnect(&mut self, wire: W, query: &str, numbers: &FiniteNumbers) -> (r: Result<
        LigatureReconnect,
        LigatureTransportError,
    >)
        requires
            old(self).wf(),
            old(self).session_view()@.epoch < u64::MAX,
        ensures
            final(self).wf(),
            final(self).session_view()@ == spec_reconnect(
                old(self).session_view()@,
                query@,
                None,
                numbers@,
            ).0,
            match spec_reconnect(old(self).session_view()@, query@, None, numbers@).1 {
                Ok(v) => r matches Ok(x) && x@ == v,
                Err(e) => r matches Err(LigatureTransportError::Session(x)) && x@ == e,
            },
    {
        let reconnect = match self.session.reconnect(query, numbers) {
            Ok(x) => x,
            Err(e) => {
                return Err(LigatureTransportError::Session(e));
            },
        };
        let mut wire = wire;
        wire.set_epoch(reconnect.epoch);
        self.wire = wire;
        Ok(reconnect)
    }

    /// Routes one line the wire delivered; after a line that ends a request,
    /// asks the board for its public state anew.
    pub fn receive_line(&mut self, epoch: ConnectionEpoch, line: &str, numbers: &FiniteNumbers) -> (r:
        Result<LigatureEvent, LigatureTransportError>)
        requires
            old(self).wf(),
        ensures
            final(self).wf(),
            final(self).session_view()@ == spec_receive(
                old(self).session_view()@,
                epoch.0,
                line@,
                numbers@,
            ).0,
            match spec_receive(old(self).session_view()@, epoch.0, line@, numbers@).1 {
                Err(e) => r matches Err(LigatureTransportError::Session(x)) && x@ == e,
                Ok(ev) => if ends_request(ev) {
                    r matches Ok(x) ==> x@ == ev
                } else {
                    r matches Ok(x) && x@ == ev
                },
            },
    {
        let event = match self.session.receive(epoch, line, numbers) {
            Ok(event) => event,
            Err(e) => {
                return Err(LigatureTransportError::Session(e));
            },
        };
        let ends = match &event {
            LigatureEvent::Completed { .. } | LigatureEvent::Failed { .. }
            | LigatureEvent::Cancelled { .. } | LigatureEvent::HardFault { .. } => true,
            _ => false,
        };
        if ends {
            match self.wire.query_current_state() {
                Ok(()) => {},
                Err(e) => {
                    return Err(e);
                },
            }
        }
        Ok(event)
    }

    /// Routes at most one currently available wire line.
    pub fn try_event<N: FiniteNumberReader>(&mut self, numbers: &N) -> (r: Result<
        Option<LigatureEvent>,
        LigatureTransportError,
    >)
        requires
            old(self).wf(),
        ensures
            final(self).wf(),
            match r {
                Ok(Some(event)) => exists|epoch: u64, line: Seq<char>, nums: Set<Seq<char>>|
                    #[trigger] spec_receive(old(self).session_view()@, epoch, line, nums) == (
                        final(self).session_view()@,
                        Ok::<EventView, SessionErrorView>(event@),
                    ),
                Ok(None) => final(self).session_view() == old(self).session_view(),
                Err(e) => final(self).session_view() == old(self).session_view() || exists|
                    epoch: u64,
                    line: Seq<char>,
                    nums: Set<Seq<char>>,
                |
                    #[trigger] spec_receive(old(self).session_view()@, epoch, line, nums).0
                        == final(self).session_view()@ && match spec_receive(
                        old(self).session_view()@,
                        epoch,
                        line,
                        nums,
                    ).1 {
                        Err(x) => e matches LigatureTransportError::Session(y) && y@ == x,
                        Ok(ev) => ends_request(ev),
                    },
            },
    {
        let (epoch, line) = match self.wire.try_line() {
            Ok(Some(t)) => t,
            Ok(None) => {
                return Ok(None);
            },
            Err(e) => {
                return Err(e);
            },
        };
        let nums = numbers.finite_numbers(line.as_str());
        let ghost before = self.session@;
        let event = match self.receive_line(epoch, line.as_str(), &nums) {
            Ok(event) => event,
            Err(e) => {
                assert(before == old(self).session_view()@);
                assert(spec_receive(before, epoch.0, line@, nums@).0 == self.session_view()@);
                return Err(e);
            },
        };
        assert(before == old(self).session_view()@);
        assert(spec_receive(before, epoch.0, line@, nums@).1 == Ok::<EventView, SessionErrorView>(
            event@,
        ));
        assert(spec_receive(old(self).session_view()@, epoch.0, line@, nums@) == (
            self.session_view()@,
            Ok::<EventView, SessionErrorView>(event@),
        ));
        assert(exists|e: u64, l: Seq<char>, n: Set<Seq<char>>|
            #[trigger] spec_receive(old(self).session_view()@, e, l, n) == (
                self.session_view()@,
                Ok::<EventView, SessionErrorView>(event@),
            ));
        Ok(Some(event))
    }
}

/// What one line received while opening a wire means for the readiness query.
pub enum QueryReply {
    /// The `state` response that establishes the session.
    Ready,
    /// A heartbeat arrived first; keep waiting for the `state` response.
    KeepWaiting,
    /// The reply cannot establish current state.
    Invalid(LigatureTransportError),
}

/// Classifies a line received while waiting for the `?` response: only a
/// `state` frame completes the query, a heartbeat is skipped, and anything
/// else is an invalid query reply.
pub fn classify_query_reply(line: &str, numbers: &FiniteNumbers) -> (r: QueryReply)
    ensures
        match spec_parse_line(line@, numbers@) {
            Ok(LineView::State(_)) => r is Ready,
            Ok(LineView::Status(_)) => r is KeepWaiting,
            Ok(_) => r matches QueryReply::Invalid(LigatureTransportError::QueryInvalid(t))
                && t@ == line@,
            Err(e) => r matches QueryReply::Invalid(LigatureTransportError::QueryInvalid(t))
                && t@ == protocol_error_message(e),
        },
{
    match parse_ligature_line(line, numbers) {
        Ok(LigatureLine::State(_)) => QueryReply::Ready,
        Ok(LigatureLine::Status(_)) => QueryReply::KeepWaiting,
        Ok(_) => QueryReply::Invalid(LigatureTransportError::QueryInvalid(line.to_owned())),
        Err(e) => QueryReply::Invalid(LigatureTransportError::QueryInvalid(e.message())),
    }
}

} // verus!
