//! Tests of owned frames, their rotation, crops and previews, and of
//! complete-pair acquisition.

use std::collections::VecDeque;
use std::sync::{Arc, Mutex};
use std::time::{Duration, SystemTime};

use sans_core::{
    CameraCaptureError, CameraPairSetupError, CameraRole, CapturePairError, CapturePairMachine,
    CapturedFrame, CropGeometry, FrameBuildError, RoleCamera,
};

fn six_pixels() -> Vec<u8> {
    [1_u8, 2, 3, 4, 5, 6]
        .into_iter()
        .flat_map(|value| [value, value, value])
        .collect()
}

fn red_channel(frame: &CapturedFrame) -> Vec<u8> {
    frame.rgb8().iter().step_by(3).copied().collect()
}

#[test]
fn half_turn_rotation_returns_owned_post_rotation_pixels() {
    let pixels = [1_u8, 2, 3, 4, 5, 6]
        .into_iter()
        .flat_map(|value| [value, value, value])
        .collect();

    let frame = CapturedFrame::from_unrotated_rgb8(
        CameraRole::Left,
        2,
        3,
        pixels,
        SystemTime::UNIX_EPOCH,
        180,
        CropGeometry {
            x: 0,
            y: 0,
            width: 2,
            height: 3,
        },
    )
    .unwrap();

    assert_eq!((frame.width, frame.height), (2, 3));
    assert_eq!(
        frame.rgb8().iter().step_by(3).copied().collect::<Vec<_>>(),
        vec![6, 5, 4, 3, 2, 1]
    );
}

#[test]
fn quarter_turns_swap_the_axes_and_clamp_each_crop() {
    let left = CapturedFrame::from_unrotated_rgb8(
        CameraRole::Left,
        2,
        3,
        six_pixels(),
        SystemTime::UNIX_EPOCH,
        90,
        CropGeometry {
            x: 2,
            y: 0,
            width: 10,
            height: 10,
        },
    )
    .unwrap();
    assert_eq!((left.width, left.height), (3, 2));
    assert_eq!((left.crop.width, left.crop.height), (1, 2));
    assert_eq!(red_channel(&left), vec![5, 3, 1, 6, 4, 2]);
    let preview = left.full_page_preview();
    assert_eq!((preview.width, preview.height), (1, 2));
    assert_eq!(preview.rgb8(), &[1, 1, 1, 2, 2, 2]);

    let right = CapturedFrame::from_unrotated_rgb8(
        CameraRole::Right,
        2,
        3,
        six_pixels(),
        SystemTime::UNIX_EPOCH,
        270,
        CropGeometry {
            x: 0,
            y: 1,
            width: 10,
            height: 10,
        },
    )
    .unwrap();
    assert_eq!((right.width, right.height), (3, 2));
    assert_eq!((right.crop.width, right.crop.height), (3, 1));
    assert_eq!(red_channel(&right), vec![2, 4, 6, 1, 3, 5]);
    assert_eq!(right.full_page_preview().rgb8(), &[1, 1, 1, 3, 3, 3, 5, 5, 5]);
}

#[test]
fn no_rotation_keeps_the_pixels() {
    let frame = CapturedFrame::from_unrotated_rgb8(
        CameraRole::Right,
        2,
        3,
        six_pixels(),
        SystemTime::UNIX_EPOCH,
        0,
        CropGeometry {
            x: 1,
            y: 1,
            width: 1,
            height: 2,
        },
    )
    .unwrap();
    assert_eq!(red_channel(&frame), vec![1, 2, 3, 4, 5, 6]);
    assert_eq!(frame.full_page_preview().rgb8(), &[4, 4, 4, 6, 6, 6]);
    assert_eq!(
        frame.native_detail_preview().unwrap().rgb8(),
        frame.full_page_preview().rgb8()
    );
}

#[test]
fn frame_errors_are_reported_in_order() {
    assert_eq!(
        CapturedFrame::from_rgb8(
            CameraRole::Left,
            4,
            3,
            vec![0; 35],
            SystemTime::UNIX_EPOCH,
            CropGeometry { x: 0, y: 0, width: 1, height: 1 },
        )
        .unwrap_err(),
        FrameBuildError::PixelLength { width: 4, height: 3, expected: 36, actual: 35 }
    );
    let empty = CapturedFrame::from_rgb8(
        CameraRole::Left,
        4,
        3,
        vec![0; 36],
        SystemTime::UNIX_EPOCH,
        CropGeometry { x: 4, y: 0, width: 1, height: 1 },
    )
    .unwrap_err();
    assert_eq!(
        empty,
        FrameBuildError::EmptyCrop {
            x: 4,
            y: 0,
            width: 1,
            height: 1,
            frame_width: 4,
            frame_height: 3,
        }
    );
    assert_eq!(
        empty.message(),
        "crop at (4, 0) with size 1x1 is empty in a 4x3 frame"
    );
    assert_eq!(
        CapturedFrame::from_unrotated_rgb8(
            CameraRole::Left,
            2,
            3,
            six_pixels(),
            SystemTime::UNIX_EPOCH,
            45,
            CropGeometry { x: 0, y: 0, width: 1, height: 1 },
        )
        .unwrap_err(),
        FrameBuildError::UnsupportedRotation(45)
    );
    assert_eq!(
        FrameBuildError::UnsupportedRotation(45).message(),
        "rotation must be 0, 90, 180, or 270 degrees, got 45"
    );
    assert_eq!(
        FrameBuildError::PixelLength { width: 4, height: 3, expected: 36, actual: 35 }.message(),
        "4x3 RGB frame needs 36 bytes but the adapter returned 35"
    );
}

#[test]
fn a_missing_native_detail_preview_keeps_the_frame() {
    let frame = CapturedFrame::from_rgb8(
        CameraRole::Left,
        4,
        3,
        vec![7; 36],
        SystemTime::UNIX_EPOCH,
        CropGeometry { x: 1, y: 0, width: 3, height: 3 },
    )
    .unwrap();
    let degraded = frame.clone().without_native_detail_preview("fixture detail failed");
    assert_eq!(degraded.rgb8(), frame.rgb8());
    assert_eq!(degraded.full_page_preview(), frame.full_page_preview());
    assert_eq!(
        degraded.native_detail_preview().unwrap_err().message(),
        "fixture detail failed"
    );
}

#[derive(Clone)]
struct ScriptedCamera {
    role: CameraRole,
    captures: Arc<Mutex<VecDeque<Result<CapturedFrame, CameraCaptureError>>>>,
    calls: Arc<Mutex<usize>>,
}

impl RoleCamera for ScriptedCamera {
    fn role(&self) -> CameraRole {
        self.role
    }

    fn capture(&mut self) -> Result<CapturedFrame, CameraCaptureError> {
        *self.calls.lock().unwrap() += 1;
        self.captures.lock().unwrap().pop_front().unwrap()
    }
}

fn scripted(
    role: CameraRole,
    captures: Vec<Result<CapturedFrame, CameraCaptureError>>,
) -> (ScriptedCamera, Arc<Mutex<usize>>) {
    let calls = Arc::new(Mutex::new(0));
    (
        ScriptedCamera {
            role,
            captures: Arc::new(Mutex::new(captures.into())),
            calls: Arc::clone(&calls),
        },
        calls,
    )
}

fn captured_frame(role: CameraRole, value: u8) -> CapturedFrame {
    CapturedFrame::from_rgb8(
        role,
        4,
        3,
        vec![value; 4 * 3 * 3],
        SystemTime::UNIX_EPOCH + Duration::from_secs(value.into()),
        CropGeometry { x: 1, y: 0, width: 3, height: 3 },
    )
    .unwrap()
}

#[test]
fn pair_machine_retries_only_the_failed_camera() {
    let left_frame = captured_frame(CameraRole::Left, 10);
    let right_frame = captured_frame(CameraRole::Right, 20);
    let (left, left_calls) = scripted(CameraRole::Left, vec![Ok(left_frame.clone())]);
    let (right, right_calls) = scripted(
        CameraRole::Right,
        vec![
            Err(CameraCaptureError::decode(CameraRole::Right, "truncated fixture")),
            Ok(right_frame.clone()),
        ],
    );
    let mut machine = CapturePairMachine::new(Box::new(left), Box::new(right)).unwrap();

    let pair = machine.capture_pair().unwrap();

    assert_eq!(pair.left, left_frame);
    assert_eq!(pair.right, right_frame);
    assert_eq!(*left_calls.lock().unwrap(), 1);
    assert_eq!(*right_calls.lock().unwrap(), 2);
}

#[test]
fn pair_machine_rejects_after_one_retry() {
    let (left, left_calls) = scripted(CameraRole::Left, vec![Ok(captured_frame(CameraRole::Left, 11))]);
    let (right, right_calls) = scripted(
        CameraRole::Right,
        vec![
            Err(CameraCaptureError::acquisition(CameraRole::Right, "fixture timeout")),
            Err(CameraCaptureError::decode(CameraRole::Right, "truncated fixture")),
        ],
    );
    let mut machine = CapturePairMachine::new(Box::new(left), Box::new(right)).unwrap();

    let error = machine.capture_pair().unwrap_err();

    assert_eq!(
        error.message(),
        "complete Capture pair rejected: Right Camera decode failed: truncated fixture"
    );
    assert_eq!(*left_calls.lock().unwrap(), 1);
    assert_eq!(*right_calls.lock().unwrap(), 2);
}

#[test]
fn a_frame_in_the_wrong_role_blocks_the_pair_without_retry() {
    let (left, left_calls) = scripted(CameraRole::Left, vec![Ok(captured_frame(CameraRole::Right, 10))]);
    let (right, right_calls) = scripted(CameraRole::Right, vec![Ok(captured_frame(CameraRole::Right, 20))]);
    let mut machine = CapturePairMachine::new(Box::new(left), Box::new(right)).unwrap();

    let error = machine.capture_pair().unwrap_err();

    assert!(error
        .message()
        .contains("Left Camera profile mismatch: adapter returned a Right frame"));
    assert_eq!(*left_calls.lock().unwrap(), 1);
    assert_eq!(*right_calls.lock().unwrap(), 1);
}

#[test]
fn both_failures_are_reported_together() {
    let (left, _) = scripted(
        CameraRole::Left,
        vec![Err(CameraCaptureError::acquisition(CameraRole::Left, "gone"))],
    );
    let (right, _) = scripted(
        CameraRole::Right,
        vec![Err(CameraCaptureError::decode(CameraRole::Right, "bad"))],
    );
    let mut machine = CapturePairMachine::new(Box::new(left), Box::new(right)).unwrap();

    let error = machine.capture_pair().unwrap_err();

    assert!(matches!(error, CapturePairError::Both { .. }));
    assert_eq!(
        error.message(),
        "complete Capture pair rejected: Left Camera acquisition failed: gone; Right Camera decode failed: bad"
    );
}

#[test]
fn adapters_must_be_placed_in_their_roles() {
    let (left, _) = scripted(CameraRole::Right, Vec::new());
    let (right, _) = scripted(CameraRole::Right, Vec::new());
    let error = CapturePairMachine::new(Box::new(left), Box::new(right))
        .err()
        .unwrap();
    assert_eq!(
        error,
        CameraPairSetupError::WrongRole { expected: CameraRole::Left, actual: CameraRole::Right }
    );
    assert_eq!(
        error.message(),
        "expected the Left Camera adapter but received Right"
    );
}

fn rotate_whole(width: u32, height: u32, pixels: Vec<u8>, rotation: u16) -> CapturedFrame {
    let (w, h) = if rotation == 90 || rotation == 270 { (height, width) } else { (width, height) };
    CapturedFrame::from_unrotated_rgb8(
        CameraRole::Left,
        width,
        height,
        pixels,
        SystemTime::UNIX_EPOCH,
        rotation,
        CropGeometry { x: 0, y: 0, width: w, height: h },
    )
    .unwrap()
}

#[test]
fn rotating_back_by_the_inverse_quarter_turn_restores_the_frame() {
    let pixels: Vec<u8> = (0..18).collect();
    assert_eq!(rotate_whole(2, 3, pixels.clone(), 0).rgb8(), &pixels[..]);
    for (turn, back) in [(90_u16, 270_u16), (270, 90), (180, 180)] {
        let once = rotate_whole(2, 3, pixels.clone(), turn);
        assert_ne!(once.rgb8(), &pixels[..]);
        let again = rotate_whole(once.width, once.height, once.rgb8().to_vec(), back);
        assert_eq!((again.width, again.height), (2, 3));
        assert_eq!(again.rgb8(), &pixels[..]);
    }
}

#[test]
fn quarter_turn_rotation_is_undone_by_its_inverse() {
    let pixels: Vec<u8> = (0..18).collect();
    assert_eq!(
        sans_core::camera::rotate_rgb8(2, 3, pixels.clone(), 0),
        Ok((2, 3, pixels.clone()))
    );
    let (w, h, quarter) = sans_core::camera::rotate_rgb8(2, 3, pixels.clone(), 90).unwrap();
    assert_eq!((w, h), (3, 2));
    assert_eq!(
        sans_core::camera::rotate_rgb8(w, h, quarter, 270),
        Ok((2, 3, pixels.clone()))
    );
    let (w, h, half) = sans_core::camera::rotate_rgb8(2, 3, pixels.clone(), 180).unwrap();
    assert_eq!(sans_core::camera::rotate_rgb8(w, h, half, 180), Ok((2, 3, pixels.clone())));
    assert_eq!(
        sans_core::camera::rotate_rgb8(2, 3, pixels, 45),
        Err(FrameBuildError::UnsupportedRotation(45))
    );
}
