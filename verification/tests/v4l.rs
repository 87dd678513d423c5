//! Tests of the V4L2 adapter decisions for the fixed Camera profile.

use std::time::SystemTime;

use sans_core::camera::v4l::{
    both_roles, check_encoded_frame, check_fixed_profile, check_video_node, distinct_devices,
    frame_from_decoded, is_video_node_name, resolution_supported, select_interval, step_matches,
    unresolved_identity, IntervalInfo, ResolutionInfo, FRAME_HEIGHT, FRAME_WIDTH, MJPEG,
};
use sans_core::{CameraCaptureError, CameraRole, CropGeometry, SetupBlocker};

#[test]
fn fixed_resolution_must_be_explicitly_supported() {
    assert!(resolution_supported(
        &ResolutionInfo::Discretes(vec![(1920, 1080), (3840, 2160)]),
        (3840, 2160)
    ));
    assert!(!resolution_supported(
        &ResolutionInfo::Discretes(vec![(1920, 1080)]),
        (3840, 2160)
    ));
    assert!(resolution_supported(
        &ResolutionInfo::Stepwise {
            min: (640, 480),
            max: (3840, 2160),
            step: (16, 16),
        },
        (3840, 2160)
    ));
}

#[test]
fn stepwise_sizes_must_lie_on_the_grid() {
    assert!(!resolution_supported(
        &ResolutionInfo::Stepwise {
            min: (640, 480),
            max: (3840, 2160),
            step: (300, 16),
        },
        (3840, 2160)
    ));
    assert!(step_matches(7, 7, 0));
    assert!(step_matches(25, 5, 10));
    assert!(!step_matches(26, 5, 10));
}

#[test]
fn profile_checks_name_the_device() {
    let none = ResolutionInfo::Discretes(Vec::new());
    let blocker = check_fixed_profile(CameraRole::Left, "/dev/video2", false, &none).unwrap_err();
    assert_eq!(blocker.summary, "Left Camera device /dev/video2 does not expose MJPEG");
    let blocker = check_fixed_profile(CameraRole::Right, "/dev/video3", true, &none).unwrap_err();
    assert_eq!(
        blocker.summary,
        "Right Camera device /dev/video3 does not expose 3840x2160 MJPEG"
    );
}

#[test]
fn the_first_listed_interval_is_used() {
    assert_eq!(
        select_interval(
            CameraRole::Left,
            "/dev/video0",
            &IntervalInfo::Discretes(vec![(1, 30), (1, 15)])
        ),
        Ok((1, 30))
    );
    assert_eq!(
        select_interval(
            CameraRole::Left,
            "/dev/video0",
            &IntervalInfo::Stepwise { min: (1, 60), max: (1, 5), step: (1, 1) }
        ),
        Ok((1, 60))
    );
    let blocker: SetupBlocker =
        select_interval(CameraRole::Right, "/dev/video1", &IntervalInfo::Discretes(Vec::new()))
            .unwrap_err();
    assert_eq!(
        blocker.summary,
        "Right Camera device /dev/video1 exposes no 3840x2160 MJPEG frame interval"
    );
}

#[test]
fn encoded_frames_must_match_the_fixed_profile() {
    assert!(check_encoded_frame(CameraRole::Left, (FRAME_WIDTH, FRAME_HEIGHT), MJPEG).is_ok());
    assert_eq!(
        check_encoded_frame(CameraRole::Left, (1920, 1080), *b"YUYV"),
        Err(CameraCaptureError::Profile {
            role: CameraRole::Left,
            detail: "expected 3840x2160 MJPEG, received 1920x1080 [89, 85, 89, 86]".to_string(),
        })
    );
}

#[test]
fn decoded_frames_are_checked_and_rotated() {
    let crop = CropGeometry { x: 0, y: 0, width: 1, height: 1 };
    assert_eq!(
        frame_from_decoded(
            CameraRole::Right,
            Err("bad huffman table".to_string()),
            SystemTime::UNIX_EPOCH,
            0,
            crop
        ),
        Err(CameraCaptureError::Decode {
            role: CameraRole::Right,
            detail: "bad huffman table".to_string(),
        })
    );
    assert_eq!(
        frame_from_decoded(
            CameraRole::Right,
            Ok((2, 3, vec![0; 18])),
            SystemTime::UNIX_EPOCH,
            0,
            crop
        ),
        Err(CameraCaptureError::Profile {
            role: CameraRole::Right,
            detail: "decoded MJPEG dimensions are 2x3, expected 3840x2160".to_string(),
        })
    );
    let bytes = vec![9; (FRAME_WIDTH * FRAME_HEIGHT * 3) as usize];
    let frame = frame_from_decoded(
        CameraRole::Left,
        Ok((FRAME_WIDTH, FRAME_HEIGHT, bytes)),
        SystemTime::UNIX_EPOCH,
        0,
        CropGeometry { x: 0, y: 0, width: 4, height: 2 },
    )
    .unwrap();
    assert_eq!((frame.width, frame.height), (FRAME_WIDTH, FRAME_HEIGHT));
    assert_eq!(frame.full_page_preview().rgb8(), &[9; 24]);
}

#[test]
fn device_nodes_are_video_followed_by_digits() {
    assert!(is_video_node_name("video0"));
    assert!(is_video_node_name("video12"));
    assert!(!is_video_node_name("video"));
    assert!(!is_video_node_name("videoX"));
    assert!(!is_video_node_name("ttyACM0"));
    assert!(check_video_node(CameraRole::Left, "/dev/v4l/by-id/a", "/dev/video0", Some("video0")).is_ok());
    let blocker = check_video_node(
        CameraRole::Right,
        "/dev/v4l/by-id/b",
        "/dev/ttyACM0",
        Some("ttyACM0"),
    )
    .unwrap_err();
    assert_eq!(
        blocker.summary,
        "Right Camera identity /dev/v4l/by-id/b resolves to /dev/ttyACM0, not a videoN device node"
    );
}

#[test]
fn missing_identities_report_both_roles_and_shared_devices_are_refused() {
    let left = unresolved_identity(CameraRole::Left, "/missing-left", "No such file or directory");
    assert_eq!(
        left.summary,
        "Left Camera identity /missing-left cannot be resolved: No such file or directory"
    );
    let right = SetupBlocker::new("Right Camera identity /x resolves to /y, not a videoN device node");
    let blockers = both_roles::<String>(Err(left), Err(right)).unwrap_err();
    assert_eq!(blockers.len(), 2);
    assert!(blockers[0].summary.contains("Left Camera identity"));
    assert!(blockers[1].summary.contains("Right Camera identity"));

    let same = distinct_devices("/dev/video0".to_string(), "/dev/video0".to_string()).unwrap_err();
    assert_eq!(same.len(), 1);
    assert!(same[0].summary.contains("same live device"));
    assert!(distinct_devices("/dev/video0".to_string(), "/dev/video1".to_string()).is_ok());
}
