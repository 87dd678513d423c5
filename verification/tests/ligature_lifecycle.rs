//! Pure tests for Ligature operation correlation, cancellation, and connection epochs.

use sans_core::{
    ConnectionEpoch, FiniteNumbers, LigatureCommand, LigatureEvent, LigatureReconnect,
    LigatureSession, LigatureSessionError, OperationId, RequestPriority,
};

/// The texts of a line that read as finite real numbers: every word, every
/// field value, and the remainder after the first word.
fn finite_numbers(line: &str) -> FiniteNumbers {
    let mut texts: Vec<&str> = Vec::new();
    for word in line.split_whitespace() {
        texts.push(word);
        if let Some((_, value)) = word.split_once(':') {
            texts.push(value);
        }
    }
    if let Some((_, rest)) = line.split_once(' ') {
        texts.push(rest);
    }
    FiniteNumbers {
        values: texts
            .into_iter()
            .filter(|text| text.parse::<f32>().map(f32::is_finite).unwrap_or(false))
            .map(str::to_string)
            .collect(),
    }
}

fn open(query: &str) -> Result<LigatureSession, LigatureSessionError> {
    LigatureSession::from_query(query, &finite_numbers(query))
}

fn open_with(query: &str, commissioned: Option<bool>) -> Result<LigatureSession, LigatureSessionError> {
    LigatureSession::from_query_with_commissioning(query, commissioned, &finite_numbers(query))
}

fn receive(
    session: &mut LigatureSession,
    epoch: ConnectionEpoch,
    line: &str,
) -> Result<LigatureEvent, LigatureSessionError> {
    session.receive(epoch, line, &finite_numbers(line))
}

fn reconnect(
    session: &mut LigatureSession,
    query: &str,
) -> Result<LigatureReconnect, LigatureSessionError> {
    session.reconnect(query, &finite_numbers(query))
}

const READY: &str = "state STATE:READY TRUST:1 Z:-2.000 VEL:0.000 IQ:0.000 \
                    PRESS:? ENDSTOP:0 PWM:ACTIVE ACTIVE:NONE FAULT:NONE \
                    RUNTIME_MODIFIED:0";
const FAULT: &str = "state STATE:FAULT TRUST:0 Z:? VEL:0.000 IQ:0.000 \
                    PRESS:? ENDSTOP:0 PWM:OFF ACTIVE:NONE FAULT:CURRENT_LIMIT \
                    RUNTIME_MODIFIED:0";
const IDLE: &str = "state STATE:IDLE TRUST:0 Z:? VEL:0.000 IQ:0.000 \
                   PRESS:? ENDSTOP:0 PWM:OFF ACTIVE:NONE FAULT:NONE \
                   RUNTIME_MODIFIED:0";
const UNCOMMISSIONED: &str = "state STATE:COMMISSIONING_ONLY TRUST:0 Z:? VEL:0.000 \
                             IQ:0.000 PRESS:? ENDSTOP:0 PWM:OFF ACTIVE:NONE \
                             FAULT:NONE RUNTIME_MODIFIED:0";
const HOMING: &str = "state STATE:HOMING TRUST:0 Z:? VEL:-1.000 IQ:0.400 \
                     PRESS:? ENDSTOP:0 PWM:ACTIVE ACTIVE:G28 FAULT:NONE \
                     RUNTIME_MODIFIED:0";
const ALIGNING: &str = "state STATE:ALIGNING TRUST:0 Z:? VEL:0.000 IQ:0.400 \
                       PRESS:? ENDSTOP:0 PWM:ACTIVE ACTIVE:M40 FAULT:NONE \
                       RUNTIME_MODIFIED:0";

#[test]
fn exclusive_operation_routes_status_between_acceptance_and_one_terminal() {
    let mut session = open(READY).unwrap();
    let request = session.begin(LigatureCommand::Home).unwrap();
    assert_eq!(request.operation_id, OperationId(1));
    assert_eq!(request.epoch, ConnectionEpoch(1));
    assert_eq!(request.line, "G28");
    assert_eq!(request.priority, RequestPriority::Ordinary);

    let status = receive(&mut session, 
            ConnectionEpoch(1),
            "status STATE:HOMING TRUST:0 Z:? VEL:-5.000 IQ:0.500 PRESS:? ACTIVE:G28 FAULT:NONE",
        )
        .unwrap();
    assert!(matches!(status, LigatureEvent::Status(_)));
    assert_eq!(
        receive(&mut session, ConnectionEpoch(1), "ok G28").unwrap(),
        LigatureEvent::Accepted(OperationId(1))
    );
    assert!(matches!(
        receive(&mut session, ConnectionEpoch(1), "done G28 Z:-2.000 STATE:READY TRUST:1")
            .unwrap(),
        LigatureEvent::Completed {
            operation_id: OperationId(1),
            ..
        }
    ));

    assert!(matches!(
        receive(&mut session, ConnectionEpoch(1), "done G28 Z:-2.000 STATE:READY TRUST:1"),
        Err(LigatureSessionError::UnmatchedTerminal { .. })
    ));
}

#[test]
fn urgent_cancel_retires_active_operation_without_host_queueing() {
    let mut session = open(READY).unwrap();
    session.begin(LigatureCommand::Home).unwrap();
    assert_eq!(
        session.begin(LigatureCommand::Home),
        Err(LigatureSessionError::Busy)
    );

    let cancel = session.begin(LigatureCommand::Cancel).unwrap();
    assert_eq!(cancel.operation_id, OperationId(2));
    assert_eq!(cancel.line, "M53");
    assert_eq!(cancel.priority, RequestPriority::Urgent);
    assert!(matches!(
        receive(&mut session, 
            ConnectionEpoch(1),
            "done M53 CANCELLED:G28 Z:garbage STATE:PRIVATE TRUST:9"
        ),
        Err(LigatureSessionError::Protocol(
            sans_core::LigatureProtocolError::InvalidField { .. }
        ))
    ));
    assert!(matches!(
        receive(&mut session, 
                ConnectionEpoch(1),
                "done M53 CANCELLED:G28 Z:KNOWN STATE:READY TRUST:1"
            )
            .unwrap(),
        LigatureEvent::Cancelled {
            operation_id: OperationId(1),
            by: OperationId(2),
            ..
        }
    ));

    assert_eq!(
        session.begin(LigatureCommand::Home).unwrap().operation_id,
        OperationId(3)
    );
}

#[test]
fn hard_fault_and_reconnect_retire_work_without_reusing_old_terminals() {
    let mut session = open(READY).unwrap();
    session.begin(LigatureCommand::Home).unwrap();
    assert!(matches!(
        receive(&mut session, 
                ConnectionEpoch(1),
                "fault ENDSTOP_UNEXPECTED CANCELLED:G28 STATE:FAULT TRUST:0 Z:?"
            )
            .unwrap(),
        LigatureEvent::HardFault {
            ref retired,
            ..
        } if retired == &vec![OperationId(1)]
    ));

    session.begin(LigatureCommand::Stop).unwrap();
    let reconnect = reconnect(&mut session, READY).unwrap();
    assert_eq!(reconnect.epoch, ConnectionEpoch(2));
    assert_eq!(reconnect.retired, vec![OperationId(2)]);
    assert_eq!(
        receive(&mut session, 
                ConnectionEpoch(1),
                "done M112 CANCELLED:NONE Z:? STATE:FAULT TRUST:0"
            )
            .unwrap(),
        LigatureEvent::StaleIgnored(ConnectionEpoch(1))
    );

    let current = session.begin(LigatureCommand::Home).unwrap();
    assert_eq!(current.epoch, ConnectionEpoch(2));
    assert!(matches!(
        receive(&mut session, ConnectionEpoch(2), "done G0 Z:-2.000 STATE:READY TRUST:1"),
        Err(LigatureSessionError::ContradictoryTerminal { .. })
    ));
}

#[test]
fn late_urgent_terminal_after_hard_fault_is_ignored_once() {
    let mut session = open(READY).unwrap();
    session.begin(LigatureCommand::Home).unwrap();
    let stop = session.begin(LigatureCommand::Stop).unwrap();

    assert!(matches!(
        receive(&mut session, 
                ConnectionEpoch(1),
                "fault ENDSTOP_UNEXPECTED CANCELLED:G28 STATE:FAULT TRUST:0 Z:?"
            )
            .unwrap(),
        LigatureEvent::HardFault {
            ref retired,
            ..
        } if retired == &vec![OperationId(1), stop.operation_id]
    ));
    assert_eq!(
        session.begin(LigatureCommand::Stop),
        Err(LigatureSessionError::Busy)
    );
    assert_eq!(
        receive(&mut session, 
                ConnectionEpoch(1),
                "done M112 CANCELLED:NONE Z:? STATE:FAULT TRUST:0"
            )
            .unwrap(),
        LigatureEvent::RetiredIgnored(stop.operation_id)
    );
    assert!(matches!(
        receive(&mut session, 
            ConnectionEpoch(1),
            "done M112 CANCELLED:NONE Z:? STATE:FAULT TRUST:0"
        ),
        Err(LigatureSessionError::UnmatchedTerminal { .. })
    ));
    assert!(session.begin(LigatureCommand::Stop).is_ok());
}

#[test]
fn orphan_stop_accepts_none_when_the_queried_operation_finished_first() {
    let mut session = open(HOMING).unwrap();
    let stop = session.begin(LigatureCommand::Stop).unwrap();

    assert!(matches!(
        receive(&mut session, 
                ConnectionEpoch(1),
                "done M112 CANCELLED:NONE Z:? STATE:FAULT TRUST:0"
            )
            .unwrap(),
        LigatureEvent::Completed { operation_id, .. } if operation_id == stop.operation_id
    ));
}

#[test]
fn hard_fault_with_none_retires_an_immediate_command() {
    let mut session = open(READY).unwrap();
    let arm = session.begin(LigatureCommand::Arm).unwrap();

    assert!(matches!(
        receive(&mut session, 
                ConnectionEpoch(1),
                "fault CURRENT_LIMIT CANCELLED:NONE STATE:FAULT TRUST:0 Z:?"
            )
            .unwrap(),
        LigatureEvent::HardFault { ref retired, .. } if retired == &vec![arm.operation_id]
    ));
}

#[test]
fn stop_is_not_blocked_by_an_outstanding_routine_cancel() {
    let mut session = open(READY).unwrap();
    session.begin(LigatureCommand::Home).unwrap();
    let cancel = session.begin(LigatureCommand::Cancel).unwrap();
    let stop = session.begin(LigatureCommand::Stop).unwrap();

    assert_eq!(cancel.priority, RequestPriority::Urgent);
    assert_eq!(stop.priority, RequestPriority::Urgent);
    assert!(matches!(
        receive(&mut session, 
            ConnectionEpoch(1),
            "done M112 CANCELLED:G28 Z:KNOWN STATE:READY TRUST:1"
        ),
        Err(LigatureSessionError::Protocol(_))
    ));
    assert!(matches!(
        receive(&mut session, 
                ConnectionEpoch(1),
                "done M53 CANCELLED:G28 Z:KNOWN STATE:READY TRUST:1"
            )
            .unwrap(),
        LigatureEvent::Cancelled { .. }
    ));
    assert!(matches!(
        receive(&mut session, 
                ConnectionEpoch(1),
                "done M112 CANCELLED:NONE Z:KNOWN STATE:FAULT TRUST:1"
            )
            .unwrap(),
        LigatureEvent::Completed { operation_id, .. } if operation_id == stop.operation_id
    ));
}

#[test]
fn commissioning_only_is_connected_but_rejects_scan_motion() {
    let mut session = open(UNCOMMISSIONED).unwrap();

    assert!(session.is_connected());
    assert!(!session.scan_enabled());
    assert_eq!(
        session.begin(LigatureCommand::Home),
        Err(LigatureSessionError::CommissioningOnly)
    );
}

#[test]
fn fault_state_does_not_claim_that_the_board_is_commissioned() {
    let mut session = open(FAULT).unwrap();

    assert!(session.is_connected());
    assert!(!session.scan_enabled());
    assert_eq!(
        session.begin(LigatureCommand::Home),
        Err(LigatureSessionError::CommissioningOnly)
    );
}

#[test]
fn ambiguous_alignment_state_does_not_establish_commissioning() {
    let mut session = open(ALIGNING).unwrap();

    assert!(!session.scan_enabled());
    assert_eq!(
        session.begin(LigatureCommand::Home),
        Err(LigatureSessionError::CommissioningOnly)
    );
}

#[test]
fn reconnect_in_fault_state_remains_fail_closed() {
    let mut session = open(READY).unwrap();

    reconnect(&mut session, FAULT).unwrap();

    assert!(!session.scan_enabled());
    receive(&mut session, ConnectionEpoch(2), IDLE).unwrap();
    assert!(session.scan_enabled());
}

#[test]
fn uncommissioned_marker_survives_fault_clear_to_idle() {
    let mut session = open(UNCOMMISSIONED).unwrap();

    reconnect(&mut session, FAULT).unwrap();
    let clear = session.begin(LigatureCommand::ClearFault).unwrap();
    assert!(matches!(
        receive(&mut session, ConnectionEpoch(2), "done M999 STATE:IDLE TRUST:0")
            .unwrap(),
        LigatureEvent::Completed { operation_id, .. } if operation_id == clear.operation_id
    ));
    receive(&mut session, ConnectionEpoch(2), IDLE).unwrap();

    assert!(!session.scan_enabled());
    assert_eq!(
        session.begin(LigatureCommand::Home),
        Err(LigatureSessionError::CommissioningOnly)
    );
}

#[test]
fn clear_fault_must_leave_the_fault_state() {
    let mut session = open(READY).unwrap();
    receive(&mut session, 
            ConnectionEpoch(1),
            "fault CURRENT_LIMIT CANCELLED:NONE STATE:FAULT TRUST:0 Z:?",
        )
        .unwrap();
    let clear = session.begin(LigatureCommand::ClearFault).unwrap();

    assert!(matches!(
        receive(&mut session, ConnectionEpoch(1), "done M999 STATE:FAULT TRUST:0"),
        Err(LigatureSessionError::Protocol(_))
    ));
    assert_eq!(clear.operation_id, OperationId(1));
}

#[test]
fn capture_readiness_requires_a_stationary_lifecycle() {
    let mut session = open(READY).unwrap();
    assert!(session.capture_ready());

    session.begin(LigatureCommand::Home).unwrap();
    assert!(!session.capture_ready());

    let moving = open(HOMING).unwrap();
    assert!(!moving.capture_ready());
}

#[test]
fn capture_traffic_remains_routable_during_an_operation() {
    let mut session = open(READY).unwrap();
    session.begin(LigatureCommand::Home).unwrap();

    assert!(matches!(
        receive(&mut session, 
                ConnectionEpoch(1),
                "capture I:0 T_MS:20 STATE_ID:6 Z:-3.000 ANGLE:-3.769911 \
                 VEL_RAD_S:-1.000 TARGET:-5.000000 IQ:0.300 ENDSTOP:0"
            )
            .unwrap(),
        LigatureEvent::Capture(_)
    ));
}

#[test]
fn rejected_cancel_does_not_complete_the_active_operation() {
    let mut session = open(READY).unwrap();
    session.begin(LigatureCommand::Home).unwrap();
    receive(&mut session, ConnectionEpoch(1), "ok G28").unwrap();
    session.begin(LigatureCommand::Cancel).unwrap();

    assert!(matches!(
        receive(&mut session, ConnectionEpoch(1), "error M53 REASON:FAULTED")
            .unwrap(),
        LigatureEvent::Failed {
            operation_id: OperationId(2),
            ..
        }
    ));
    assert!(matches!(
        receive(&mut session, ConnectionEpoch(1), "done G28 Z:-2.000 STATE:READY TRUST:1")
            .unwrap(),
        LigatureEvent::Completed {
            operation_id: OperationId(1),
            ..
        }
    ));
}

#[test]
fn immediate_ordinary_command_serializes_without_an_acceptance_frame() {
    let mut session = open(READY).unwrap();
    let arm = session.begin(LigatureCommand::Arm).unwrap();

    assert!(matches!(
        receive(&mut session, ConnectionEpoch(1), "done M3 STATE:READY TRUST:1")
            .unwrap(),
        LigatureEvent::Completed { operation_id, .. } if operation_id == arm.operation_id
    ));
}

#[test]
fn terminal_missing_required_operation_fields_is_malformed() {
    let mut session = open(READY).unwrap();
    session.begin(LigatureCommand::Home).unwrap();
    receive(&mut session, ConnectionEpoch(1), "ok G28").unwrap();

    assert!(matches!(
        receive(&mut session, ConnectionEpoch(1), "done G28"),
        Err(LigatureSessionError::Protocol(
            sans_core::LigatureProtocolError::MissingField("Z")
        ))
    ));

    for terminal in [
        "done G28 Z:garbage STATE:READY TRUST:1",
        "done G28 Z:-2.000 STATE:PRIVATE TRUST:1",
        "done G28 Z:-2.000 STATE:READY TRUST:9",
        "done G28 Z:? STATE:FAULT TRUST:1",
    ] {
        assert!(matches!(
            receive(&mut session, ConnectionEpoch(1), terminal),
            Err(LigatureSessionError::Protocol(_))
        ));
    }
    assert!(matches!(
        receive(&mut session, ConnectionEpoch(1), "done G28 Z:-2.000 STATE:READY TRUST:1")
            .unwrap(),
        LigatureEvent::Completed { .. }
    ));
}

const FAULT_BARE: &str = "state STATE:FAULT TRUST:0 Z:? VEL:0 IQ:0 PRESS:? ENDSTOP:0 \
                          PWM:OFF ACTIVE:NONE FAULT:CURRENT_LIMIT RUNTIME_MODIFIED:0";
const IDLE_BARE: &str = "state STATE:IDLE TRUST:0 Z:? VEL:0 IQ:0 PRESS:? ENDSTOP:0 \
                         PWM:OFF ACTIVE:NONE FAULT:NONE RUNTIME_MODIFIED:0";
const COMMISSIONING_ONLY_BARE: &str = "state STATE:COMMISSIONING_ONLY TRUST:0 Z:? VEL:0 \
                                       IQ:0 PRESS:? ENDSTOP:0 PWM:OFF ACTIVE:NONE \
                                       FAULT:NONE RUNTIME_MODIFIED:0";

#[test]
fn explicit_commissioning_evidence_survives_fault_recovery() {
    let mut session = open_with(FAULT_BARE, Some(true)).unwrap();
    assert!(!session.scan_enabled());

    session.begin(LigatureCommand::ClearFault).unwrap();
    receive(&mut session, ConnectionEpoch(1), "done M999 STATE:IDLE TRUST:0").unwrap();
    receive(&mut session, ConnectionEpoch(1), IDLE_BARE).unwrap();

    assert!(session.scan_enabled());
    assert!(session.begin(LigatureCommand::Home).is_ok());
}

#[test]
fn commissioned_configuration_still_cannot_scan_in_commissioning_only() {
    let mut session = open_with(COMMISSIONING_ONLY_BARE, Some(true)).unwrap();

    assert!(!session.scan_enabled());
    assert_eq!(
        session.begin(LigatureCommand::Home),
        Err(LigatureSessionError::CommissioningOnly)
    );
}

#[test]
fn a_response_from_a_future_epoch_is_refused() {
    let mut session = open(READY).unwrap();
    assert_eq!(
        receive(&mut session, ConnectionEpoch(2), "ok G28"),
        Err(LigatureSessionError::FutureEpoch {
            received: ConnectionEpoch(2),
            current: ConnectionEpoch(1),
        })
    );
    assert_eq!(
        LigatureSessionError::FutureEpoch {
            received: ConnectionEpoch(2),
            current: ConnectionEpoch(1),
        }
        .message(),
        "Ligature response belongs to future epoch ConnectionEpoch(2), current epoch is ConnectionEpoch(1)"
    );
}

#[test]
fn an_unmatched_acceptance_is_refused() {
    let mut session = open(READY).unwrap();
    assert!(matches!(
        receive(&mut session, ConnectionEpoch(1), "ok G28"),
        Err(LigatureSessionError::UnmatchedAcceptance { ref command }) if command == "G28"
    ));
}

#[test]
fn a_query_that_is_not_a_state_frame_opens_no_session() {
    assert_eq!(
        open("ok G28").err().unwrap(),
        LigatureSessionError::QueryDidNotReturnState
    );
    assert_eq!(
        LigatureSessionError::QueryDidNotReturnState.message(),
        "Ligature query did not return a state frame"
    );
}

#[test]
fn granted_identities_count_up_across_reconnects() {
    let mut session = open(READY).unwrap();
    let first = session.begin(LigatureCommand::Home).unwrap();
    assert_eq!((first.operation_id, first.epoch), (OperationId(1), ConnectionEpoch(1)));
    assert_eq!(session.begin(LigatureCommand::Home), Err(LigatureSessionError::Busy));
    let stop = session.begin(LigatureCommand::Stop).unwrap();
    assert_eq!(stop.operation_id, OperationId(2));
    reconnect(&mut session, READY).unwrap();
    let after = session.begin(LigatureCommand::Home).unwrap();
    assert_eq!((after.operation_id, after.epoch), (OperationId(3), ConnectionEpoch(2)));
}
