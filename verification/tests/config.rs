//! Tests of structural Machine-profile validation.

use sans_core::config::{
    validate_profile, MotionChecks, ProfileFacts, RealCheck, RealChecks,
};
use sans_core::{BoardProfile, CameraProfiles, CameraRoleProfile, CropGeometry, TimeoutProfile};

const OK: RealCheck = RealCheck { positive_finite: true, above_ceiling: false };

fn camera(identity: &str) -> CameraRoleProfile {
    CameraRoleProfile {
        identity: identity.to_string(),
        rotation_degrees: 90,
        crop: CropGeometry { x: 0, y: 0, width: 2000, height: 3000 },
    }
}

fn valid() -> ProfileFacts {
    ProfileFacts {
        schema_version: 1,
        data_root_empty: false,
        boards: BoardProfile {
            ligature_path: "/dev/serial/by-id/ligature".to_string(),
            monospace_path: "/dev/serial/by-id/monospace".to_string(),
        },
        cameras: CameraProfiles {
            left: camera("/dev/v4l/by-id/left"),
            right: camera("/dev/v4l/by-path/right"),
        },
        timeouts: TimeoutProfile {
            device_open_ms: 5000,
            command_ms: 500,
            camera_capture_ms: 2000,
            stop_terminal_ms: 500,
        },
        confirmation_samples: 3,
        reals: RealChecks {
            page_width_minimum: OK,
            page_width_maximum: OK,
            page_width_inverted: false,
            vacuum_working_drop: OK,
            pickup_drop: OK,
            pickup_inverted: false,
            motion: MotionChecks {
                touchdown_press: OK,
                classification_start: OK,
                wiggle_start: OK,
                wiggle_retreat: OK,
                blower_on: OK,
                vacuum_off: OK,
                final_lift: OK,
                blower_off_descent: OK,
                anchors_safely_ordered: true,
            },
        },
    }
}

#[test]
fn a_commissioned_profile_has_no_problems() {
    assert!(validate_profile(&valid()).is_empty());
}

#[test]
fn structural_mistakes_are_all_reported_in_order() {
    let mut p = valid();
    p.schema_version = 2;
    p.boards.ligature_path = "  ".to_string();
    p.boards.monospace_path = "  ".to_string();
    p.cameras.left.identity = "<left camera>".to_string();
    p.cameras.left.rotation_degrees = 45;
    p.cameras.right.identity = "<left camera>".to_string();
    p.cameras.right.crop = CropGeometry { x: u32::MAX, y: 0, width: 0, height: 1 };
    p.data_root_empty = true;
    p.timeouts.command_ms = 0;
    p.timeouts.stop_terminal_ms = 501;
    p.confirmation_samples = 0;
    p.reals.page_width_inverted = true;
    p.reals.motion.final_lift = RealCheck { positive_finite: true, above_ceiling: true };
    p.reals.motion.touchdown_press = RealCheck { positive_finite: false, above_ceiling: false };
    p.reals.motion.anchors_safely_ordered = false;

    assert_eq!(
        validate_profile(&p),
        vec![
            "schema_version must be 1",
            "boards.ligature_path must be commissioned and nonempty",
            "boards.monospace_path must be commissioned and nonempty",
            "board paths must be distinct",
            "cameras.left.identity must be commissioned and nonempty",
            "cameras.left.identity must use a stable /dev/v4l/by-id or /dev/v4l/by-path identity",
            "cameras.left.rotation_degrees must be a quarter turn",
            "cameras.right.identity must be commissioned and nonempty",
            "cameras.right.identity must use a stable /dev/v4l/by-id or /dev/v4l/by-path identity",
            "cameras.right.crop dimensions must be nonzero",
            "Camera-role identities must be distinct",
            "data_root must not be empty",
            "page-width bounds must be ordered",
            "timeouts.command_ms must be positive",
            "timeouts.stop_terminal_ms exceeds immutable 500 ms ceiling",
            "pickup.confirmation_samples must be positive",
            "motion.final_lift_percent exceeds immutable 105% ceiling",
            "motion.touchdown_press_percent must be positive and finite",
            "motion Lift-percentage anchors must be safely ordered",
        ]
    );
}

#[test]
fn crop_geometry_that_overflows_is_reported() {
    let mut p = valid();
    p.cameras.left.crop = CropGeometry { x: u32::MAX, y: 0, width: 1, height: 1 };
    assert_eq!(validate_profile(&p), vec!["cameras.left.crop geometry overflows"]);
}

#[test]
fn zero_stop_deadline_is_not_positive() {
    let mut p = valid();
    p.timeouts.stop_terminal_ms = 0;
    p.reals.pickup_drop = RealCheck { positive_finite: false, above_ceiling: false };
    p.reals.pickup_inverted = true;
    assert_eq!(
        validate_profile(&p),
        vec![
            "timeouts.stop_terminal_ms must be positive",
            "pickup.pickup_drop_mbar must be positive and finite",
            "pickup thresholds must be ordered",
        ]
    );
}
