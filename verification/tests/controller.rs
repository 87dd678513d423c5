//! Tests of the controller's workflow decisions.

use std::sync::Arc;
use std::time::{Duration, SystemTime};

use sans_core::controller::{
    capture_preview, combine_openings, ligature_connection_failed, ligature_setup_state,
    native_detail_preview_warning, project_screen, reopen_failure, route_ligature_failure,
    setup_failure, ControllerCore, LigatureFailureRoute, MachineFacts,
};
use sans_core::{
    CameraCaptureError, CameraRole, CapturePair, CapturePairError, CaptureStatus, CapturedFrame,
    ControllerClosed, ControllerEvent, CropGeometry, LigatureSessionError, LigatureTransportError,
    MachineScreen, SetupBlocker, SetupState,
};

fn frame(role: CameraRole, value: u8) -> CapturedFrame {
    CapturedFrame::from_rgb8(
        role,
        4,
        3,
        vec![value; 36],
        SystemTime::UNIX_EPOCH + Duration::from_secs(value.into()),
        CropGeometry { x: 1, y: 0, width: 3, height: 3 },
    )
    .unwrap()
}

fn pair(value: u8) -> CapturePair {
    CapturePair {
        left: frame(CameraRole::Left, value),
        right: frame(CameraRole::Right, value + 1),
    }
}

fn ready_facts() -> MachineFacts {
    MachineFacts { setup: SetupState::Ready, capture_available: true, ligature: None }
}

fn preview(screen: &MachineScreen) -> &sans_core::CapturePreview {
    match screen {
        MachineScreen::CapturePreview(p) => p,
        other => panic!("expected a Capture preview, got {other:?}"),
    }
}

#[test]
fn a_ready_machine_opens_on_the_ready_setup_screen() {
    let (mut core, first) = ControllerCore::open(Ok(ready_facts()));
    assert_eq!(first.revision, 0);
    assert_eq!(first.screen, MachineScreen::Setup(SetupState::Ready));
    assert!(core.ligature_live());
    assert!(core.may_capture(&ready_facts()));
    let projected = core.status_changed(ready_facts());
    assert_eq!(projected.revision, 1);
    let p = preview(&projected.screen);
    assert_eq!(p.status, CaptureStatus::Ready);
    assert!(p.latest_complete_pair.is_none());
}

#[test]
fn a_failed_open_shows_its_blockers_and_suspends_ligature() {
    let (core, first) = ControllerCore::open(Err(vec![
        SetupBlocker::new("camera missing"),
        SetupBlocker::ligature_transport("Ligature connection failed: gone"),
    ]));
    assert!(matches!(
        first.screen,
        MachineScreen::Setup(SetupState::TransportFault { ref reasons }) if reasons.len() == 2
    ));
    assert!(!core.ligature_live());
    assert!(!core.may_capture(&ready_facts()));

    let (_, first) = ControllerCore::open(Err(vec![SetupBlocker::new("camera missing")]));
    assert!(matches!(first.screen, MachineScreen::Setup(SetupState::Blocked { .. })));
}

#[test]
fn capture_keeps_the_previous_pair_until_a_complete_one_arrives() {
    let (mut core, _) = ControllerCore::open(Ok(ready_facts()));

    let capturing = core.begin_capture(None);
    assert_eq!(capturing.revision, 1);
    assert_eq!(preview(&capturing.screen).status, CaptureStatus::Capturing);

    let first = pair(10);
    let captured = core.finish_capture(Ok(first.clone()), None);
    assert_eq!(captured.revision, 2);
    let p = preview(&captured.screen);
    assert_eq!(p.status, CaptureStatus::Ready);
    assert_eq!(p.latest_complete_pair.as_deref(), Some(&first));
    assert!(p.preview_warning.is_none());

    let capturing = core.begin_capture(None);
    assert_eq!(preview(&capturing.screen).latest_complete_pair.as_deref(), Some(&first));

    let failure = CapturePairError::Camera(CameraCaptureError::decode(CameraRole::Right, "truncated"));
    let blocked = core.finish_capture(Err(failure), None);
    assert_eq!(blocked.revision, 4);
    let p = preview(&blocked.screen);
    assert_eq!(
        p.status,
        CaptureStatus::Blocked {
            reason: "complete Capture pair rejected: Right Camera decode failed: truncated"
                .to_string()
        }
    );
    assert_eq!(p.latest_complete_pair.as_deref(), Some(&first));
}

#[test]
fn a_missing_detail_preview_warns_without_rejecting_the_pair() {
    let mut degraded = pair(10);
    degraded.left = degraded.left.without_native_detail_preview("fixture detail allocation failed");
    let warning = native_detail_preview_warning(&degraded).unwrap();
    assert_eq!(
        warning,
        "Left 100% preview is unavailable: fixture detail allocation failed"
    );
    degraded.right = degraded.right.without_native_detail_preview("no memory");
    assert_eq!(
        native_detail_preview_warning(&degraded).unwrap(),
        "Left 100% preview is unavailable: fixture detail allocation failed; Right 100% preview is unavailable: no memory"
    );
    let screen = capture_preview(CaptureStatus::Ready, Some(Arc::new(degraded)));
    assert!(preview(&screen)
        .preview_warning
        .as_deref()
        .is_some_and(|w| w.contains("Left 100% preview is unavailable")));
    assert!(native_detail_preview_warning(&pair(3)).is_none());
}

#[test]
fn transport_faults_suspend_ligature_until_reconnect() {
    let (mut core, _) = ControllerCore::open(Ok(ready_facts()));
    let (event, snapshot) = core.transport_fault("Ligature serial worker closed");
    assert!(matches!(
        event,
        ControllerEvent::LigatureTransportFault(ref b) if b.summary == "Ligature serial worker closed"
    ));
    assert_eq!(snapshot.revision, 1);
    assert!(matches!(
        snapshot.screen,
        MachineScreen::Setup(SetupState::TransportFault { ref reasons }) if reasons.len() == 1
    ));
    assert!(snapshot.ligature.is_none());
    assert!(!core.ligature_live());
    assert!(!core.may_capture(&ready_facts()));

    let projected = core.status_changed(ready_facts());
    assert_eq!(projected.revision, 2);
    assert!(!core.ligature_live());

    let reconnected = core.reconnected(ready_facts());
    assert_eq!(reconnected.revision, 3);
    assert!(core.ligature_live());
    assert!(core.may_capture(&ready_facts()));
}

#[test]
fn exit_publishes_a_final_snapshot() {
    let (mut core, _) = ControllerCore::open(Ok(ready_facts()));
    let last = core.exit();
    assert_eq!(last.revision, 1);
    assert_eq!(last.screen, MachineScreen::Exited);
    assert!(last.ligature.is_none());
    assert_eq!(ControllerClosed.message(), "the Machine controller is closed");
}

#[test]
fn only_busy_and_commissioning_rejections_keep_the_connection() {
    assert!(matches!(
        route_ligature_failure(LigatureTransportError::Session(LigatureSessionError::Busy)),
        LigatureFailureRoute::Rejected(LigatureSessionError::Busy)
    ));
    assert!(matches!(
        route_ligature_failure(LigatureTransportError::Session(
            LigatureSessionError::CommissioningOnly
        )),
        LigatureFailureRoute::Rejected(LigatureSessionError::CommissioningOnly)
    ));
    assert!(matches!(
        route_ligature_failure(LigatureTransportError::Closed),
        LigatureFailureRoute::TransportFault(ref s) if s == "Ligature serial worker closed"
    ));
    assert!(matches!(
        route_ligature_failure(LigatureTransportError::Session(
            LigatureSessionError::QueryDidNotReturnState
        )),
        LigatureFailureRoute::TransportFault(ref s) if s == "Ligature query did not return a state frame"
    ));
}

#[test]
fn setup_projection_follows_readiness() {
    let screen = project_screen(SetupState::Uncommissioned, true, &CaptureStatus::Ready, None);
    assert_eq!(screen, MachineScreen::Setup(SetupState::Uncommissioned));
    let screen = project_screen(SetupState::Ready, false, &CaptureStatus::Ready, None);
    assert_eq!(screen, MachineScreen::Setup(SetupState::Ready));
    assert_eq!(ligature_setup_state(true), SetupState::Ready);
    assert_eq!(ligature_setup_state(false), SetupState::Uncommissioned);
    assert!(matches!(
        setup_failure(vec![SetupBlocker::new("a")]),
        SetupState::Blocked { .. }
    ));
}

#[test]
fn opening_failures_are_combined_and_reported() {
    let both = combine_openings::<(), ()>(
        Err(vec![SetupBlocker::new("camera")]),
        Err(vec![SetupBlocker::new("ligature")]),
    )
    .unwrap_err();
    assert_eq!(both.len(), 2);
    assert_eq!(both[0].summary, "camera");
    assert_eq!(both[1].summary, "ligature");
    let blocker = ligature_connection_failed(&LigatureTransportError::Device("busy".to_string()));
    assert_eq!(blocker.summary, "Ligature connection failed: cannot open Ligature device: busy");
    assert!(blocker.is_ligature_transport());
    assert_eq!(
        reopen_failure(&vec![SetupBlocker::new("a"), SetupBlocker::new("b")]),
        LigatureTransportError::Device("a; b".to_string())
    );
}
