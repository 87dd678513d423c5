//! Tests of the Ligature client over a scripted wire.

use std::collections::VecDeque;

use sans_core::ligature::client::{classify_query_reply, FiniteNumberReader, QueryReply};
use sans_core::{
    ConnectionEpoch, FiniteNumbers, LigatureClient, LigatureCommand, LigatureEvent,
    LigatureRequest, LigatureSessionError, LigatureTransportError, LigatureWire, OperationId,
};

const READY: &str = "state STATE:READY TRUST:1 Z:-2.000 VEL:0.000 IQ:0.000 \
                    PRESS:? ENDSTOP:0 PWM:ACTIVE ACTIVE:NONE FAULT:NONE \
                    RUNTIME_MODIFIED:0";

fn finite_numbers(line: &str) -> FiniteNumbers {
    let mut texts: Vec<&str> = Vec::new();
    for word in line.split_whitespace() {
        texts.push(word);
        if let Some((_, value)) = word.split_once(':') {
            texts.push(value);
        }
    }
    FiniteNumbers {
        values: texts
            .into_iter()
            .filter(|text| text.parse::<f32>().map(f32::is_finite).unwrap_or(false))
            .map(str::to_string)
            .collect(),
    }
}

struct Reals;

impl FiniteNumberReader for Reals {
    fn finite_numbers(&self, line: &str) -> FiniteNumbers {
        finite_numbers(line)
    }
}

#[derive(Default)]
struct ScriptedWire {
    epoch: Option<ConnectionEpoch>,
    sent: Vec<String>,
    queries: usize,
    lines: VecDeque<String>,
}

impl LigatureWire for ScriptedWire {
    fn set_epoch(&mut self, epoch: ConnectionEpoch) {
        self.epoch = Some(epoch);
    }

    fn send(&mut self, request: &LigatureRequest) -> Result<(), LigatureTransportError> {
        self.sent.push(request.line.clone());
        Ok(())
    }

    fn query_current_state(&mut self) -> Result<(), LigatureTransportError> {
        self.queries += 1;
        Ok(())
    }

    fn try_line(&mut self) -> Result<Option<(ConnectionEpoch, String)>, LigatureTransportError> {
        Ok(self
            .lines
            .pop_front()
            .map(|line| (self.epoch.unwrap(), line)))
    }
}

#[test]
fn terminals_ask_the_board_for_its_state_again() {
    let mut wire = ScriptedWire::default();
    wire.lines.push_back("ok G28".to_string());
    wire.lines.push_back("done G28 Z:-2.000 STATE:READY TRUST:1".to_string());
    let mut client = LigatureClient::from_query(wire, READY, &finite_numbers(READY)).unwrap();

    let request = client.begin(LigatureCommand::Home).unwrap();
    assert_eq!(request.line, "G28");
    assert_eq!(
        client.try_event(&Reals).unwrap(),
        Some(LigatureEvent::Accepted(OperationId(1)))
    );
    assert!(matches!(
        client.try_event(&Reals).unwrap(),
        Some(LigatureEvent::Completed { operation_id: OperationId(1), .. })
    ));
    assert_eq!(client.try_event(&Reals).unwrap(), None);
    assert_eq!(client.session().epoch(), ConnectionEpoch(1));
}

#[test]
fn a_busy_session_writes_nothing() {
    let wire = ScriptedWire::default();
    let mut client = LigatureClient::from_query(wire, READY, &finite_numbers(READY)).unwrap();
    client.begin(LigatureCommand::Home).unwrap();
    assert_eq!(
        client.begin(LigatureCommand::Home),
        Err(LigatureTransportError::Session(LigatureSessionError::Busy))
    );
}

#[test]
fn reconnect_installs_a_new_epoch() {
    let wire = ScriptedWire::default();
    let mut client = LigatureClient::from_query(wire, READY, &finite_numbers(READY)).unwrap();
    let reconnect = client
        .reconnect(ScriptedWire::default(), READY, &finite_numbers(READY))
        .unwrap();
    assert_eq!(reconnect.epoch, ConnectionEpoch(2));
    assert_eq!(client.session().epoch(), ConnectionEpoch(2));
}

#[test]
fn only_a_state_frame_answers_the_readiness_query() {
    assert!(matches!(
        classify_query_reply(READY, &finite_numbers(READY)),
        QueryReply::Ready
    ));
    let heartbeat = "status STATE:READY TRUST:1 Z:-2.000 VEL:0.000 IQ:0.000 PRESS:? ACTIVE:NONE FAULT:NONE";
    assert!(matches!(
        classify_query_reply(heartbeat, &finite_numbers(heartbeat)),
        QueryReply::KeepWaiting
    ));
    assert!(matches!(
        classify_query_reply("ok G28", &finite_numbers("ok G28")),
        QueryReply::Invalid(LigatureTransportError::QueryInvalid(ref l)) if l == "ok G28"
    ));
    assert!(matches!(
        classify_query_reply("wat", &finite_numbers("wat")),
        QueryReply::Invalid(LigatureTransportError::QueryInvalid(ref l))
            if l == "unknown Ligature response kind: wat"
    ));
}

#[test]
fn a_delivered_line_is_routed_and_terminals_trigger_a_query() {
    let wire = ScriptedWire::default();
    let mut client = LigatureClient::from_query(wire, READY, &finite_numbers(READY)).unwrap();
    client.begin(LigatureCommand::Arm).unwrap();
    let line = "done M3 STATE:READY TRUST:1";
    assert!(matches!(
        client.receive_line(ConnectionEpoch(1), line, &finite_numbers(line)).unwrap(),
        LigatureEvent::Completed { operation_id: OperationId(1), .. }
    ));
    assert_eq!(
        client.receive_line(ConnectionEpoch(3), "ok G28", &finite_numbers("ok G28")),
        Err(LigatureTransportError::Session(LigatureSessionError::FutureEpoch {
            received: ConnectionEpoch(3),
            current: ConnectionEpoch(1),
        }))
    );
}
