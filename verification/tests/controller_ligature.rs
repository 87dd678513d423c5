//! Ligature traffic routed through the controller core, as the controller
//! thread routes it for a Ligature-only Machine.

use std::sync::{mpsc, Arc, Mutex};

use sans_core::controller::{
    ligature_setup_state, route_ligature_failure, ControllerCore, LigatureFailureRoute,
    MachineFacts,
};
use sans_core::ligature::client::FiniteNumberReader;
use sans_core::{
    ConnectionEpoch, ControllerEvent, ControllerSnapshot, FiniteNumbers, LigatureClient,
    LigatureCommand, LigatureEvent, LigaturePosition, LigatureRequest, LigatureSessionError,
    LigatureState, LigatureTransportError, LigatureWire, MachineScreen, PositionTrust,
    RequestPriority, SetupState,
};

const READY: &str = "state STATE:READY TRUST:1 Z:-2.000 VEL:0.000 IQ:0.000 \
                    PRESS:? ENDSTOP:0 PWM:ACTIVE ACTIVE:NONE FAULT:NONE \
                    RUNTIME_MODIFIED:0";
const UNCOMMISSIONED: &str = "state STATE:COMMISSIONING_ONLY TRUST:0 Z:? VEL:0.000 \
                             IQ:0.000 PRESS:? ENDSTOP:0 PWM:OFF ACTIVE:NONE \
                             FAULT:NONE RUNTIME_MODIFIED:0";

fn finite_numbers(line: &str) -> FiniteNumbers {
    let mut texts: Vec<&str> = Vec::new();
    for word in line.split_whitespace() {
        texts.push(word);
        if let Some((_, value)) = word.split_once(':') {
            texts.push(value);
        }
    }
    FiniteNumbers {
        values: texts
            .into_iter()
            .filter(|text| text.parse::<f32>().map(f32::is_finite).unwrap_or(false))
            .map(str::to_string)
            .collect(),
    }
}

struct Reals;

impl FiniteNumberReader for Reals {
    fn finite_numbers(&self, line: &str) -> FiniteNumbers {
        finite_numbers(line)
    }
}

#[derive(Clone, Debug, Eq, PartialEq)]
struct Write {
    priority: RequestPriority,
    line: String,
}

struct FakeWire {
    writes: Arc<Mutex<Vec<Write>>>,
    incoming: mpsc::Receiver<String>,
}

impl LigatureWire for FakeWire {
    fn set_epoch(&mut self, _epoch: ConnectionEpoch) {}

    fn send(&mut self, request: &LigatureRequest) -> Result<(), LigatureTransportError> {
        self.writes.lock().unwrap().push(Write {
            priority: request.priority,
            line: request.line.clone(),
        });
        Ok(())
    }

    fn query_current_state(&mut self) -> Result<(), LigatureTransportError> {
        Ok(())
    }

    fn try_line(&mut self) -> Result<Option<(ConnectionEpoch, String)>, LigatureTransportError> {
        match self.incoming.try_recv() {
            Ok(line) => Ok(Some((ConnectionEpoch(1), line))),
            Err(mpsc::TryRecvError::Empty) => Ok(None),
            Err(mpsc::TryRecvError::Disconnected) => Err(LigatureTransportError::Closed),
        }
    }
}

/// A Ligature-only Machine under the controller core.
struct Controller {
    client: LigatureClient<FakeWire>,
    core: ControllerCore,
    events: Vec<ControllerEvent>,
    snapshots: Vec<ControllerSnapshot>,
}

impl Controller {
    fn facts(&self) -> MachineFacts {
        MachineFacts {
            setup: ligature_setup_state(self.client.session().scan_enabled()),
            capture_available: false,
            ligature: Some(self.client.session().status().clone()),
        }
    }

    fn fault(&mut self, summary: &str) {
        let (event, snapshot) = self.core.transport_fault(summary);
        self.events.push(event);
        self.snapshots.push(snapshot);
    }

    /// One `Ligature` intent.
    fn command(&mut self, command: LigatureCommand) {
        if let Err(error) = self.client.begin(command) {
            match route_ligature_failure(error) {
                LigatureFailureRoute::Rejected(reason) => {
                    self.events.push(ControllerEvent::LigatureRejected(reason))
                }
                LigatureFailureRoute::TransportFault(summary) => self.fault(&summary),
            }
        }
    }

    /// One poll of the wire.
    fn poll(&mut self) {
        match self.client.try_event(&Reals) {
            Ok(Some(event)) => self.events.push(ControllerEvent::Ligature(event)),
            Ok(None) => {}
            Err(error) => self.fault(&error.message()),
        }
    }

    fn next_event(&mut self) -> ControllerEvent {
        self.poll();
        self.events.remove(0)
    }
}

fn controller(
    query: &'static str,
) -> (Controller, ControllerSnapshot, mpsc::Sender<String>, Arc<Mutex<Vec<Write>>>) {
    let (incoming_sender, incoming_receiver) = mpsc::channel();
    let writes = Arc::new(Mutex::new(Vec::new()));
    let wire = FakeWire { writes: Arc::clone(&writes), incoming: incoming_receiver };
    let client = LigatureClient::from_query(wire, query, &finite_numbers(query)).unwrap();
    let facts = MachineFacts {
        setup: ligature_setup_state(client.session().scan_enabled()),
        capture_available: false,
        ligature: Some(client.session().status().clone()),
    };
    let (core, setup) = ControllerCore::open(Ok(facts));
    let controller = Controller { client, core, events: Vec::new(), snapshots: Vec::new() };
    (controller, setup, incoming_sender, writes)
}

#[test]
fn controller_routes_operation_lifecycle_and_priority_cancel() {
    let (mut controller, setup, incoming, writes) = controller(READY);
    assert_eq!(setup.screen, MachineScreen::Setup(SetupState::Ready));
    let status = setup.ligature.unwrap();
    assert_eq!(status.state, LigatureState::Ready);
    assert_eq!(status.position_trust, PositionTrust::Trusted);
    assert!(matches!(
        status.position,
        LigaturePosition::Known(ref z) if z.parse::<f64>().unwrap() == -2.0
    ));

    controller.command(LigatureCommand::Home);
    incoming.send("ok G28".into()).unwrap();
    assert!(matches!(
        controller.next_event(),
        ControllerEvent::Ligature(LigatureEvent::Accepted(_))
    ));

    controller.command(LigatureCommand::Cancel);
    incoming
        .send("done M53 CANCELLED:G28 Z:KNOWN STATE:READY TRUST:1".into())
        .unwrap();
    assert!(matches!(
        controller.next_event(),
        ControllerEvent::Ligature(LigatureEvent::Cancelled { .. })
    ));

    assert_eq!(
        *writes.lock().unwrap(),
        vec![
            Write { priority: RequestPriority::Ordinary, line: "G28".into() },
            Write { priority: RequestPriority::Urgent, line: "M53".into() },
        ]
    );
    let exited = controller.core.exit();
    assert_eq!(exited.screen, MachineScreen::Exited);
}

#[test]
fn controller_exposes_uncommissioned_as_connected_and_scan_disabled() {
    let (mut controller, setup, _incoming, _writes) = controller(UNCOMMISSIONED);
    assert_eq!(setup.screen, MachineScreen::Setup(SetupState::Uncommissioned));
    assert_eq!(setup.ligature.unwrap().state, LigatureState::CommissioningOnly);

    controller.command(LigatureCommand::Home);
    assert_eq!(
        controller.next_event(),
        ControllerEvent::LigatureRejected(LigatureSessionError::CommissioningOnly)
    );
    assert!(controller.core.ligature_live());
    let projected = controller.core.status_changed(controller.facts());
    assert_eq!(projected.screen, MachineScreen::Setup(SetupState::Uncommissioned));
}

#[test]
fn malformed_completion_changes_setup_to_transport_fault() {
    let (mut controller, _setup, incoming, _writes) = controller(READY);
    controller.command(LigatureCommand::Home);
    incoming.send("done G0 Z:-2.000 STATE:READY TRUST:1".into()).unwrap();

    assert!(matches!(
        controller.next_event(),
        ControllerEvent::LigatureTransportFault(_)
    ));
    let fault = controller.snapshots.remove(0);
    assert!(matches!(
        fault.screen,
        MachineScreen::Setup(SetupState::TransportFault { .. })
    ));
    assert!(fault.ligature.is_none());
    assert!(!controller.core.ligature_live());
}
