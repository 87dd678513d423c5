//! Decisions of the V4L2 Camera adapters for the fixed Sans Camera profile:
//! which devices qualify, which frame interval is used, and how one encoded
//! frame becomes an owned post-rotation frame.
use std::time::SystemTime;
use vstd::prelude::*;
use vstd::string::StringExecFns;
use crate::config::CropGeometry;
use crate::controller::{BlockerView, SetupBlocker};
use crate::text::{chars_of, decimal, is_digit, push_decimal, string_of};
use super::{
    frame_build_message, is_built_frame, rotated_height, rotated_pixels, rotated_width, role_label,
    unrotated_shape_error, frame_shape_error, clamped_crop, CameraCaptureError, CameraRole,
    CapturedFrame, FrameBuildError,
};

verus! {

broadcast use vstd::string::group_string_axioms;

/// Width of every frame in the fixed Camera profile.
pub const FRAME_WIDTH: u32 = 3840;

/// Height of every frame in the fixed Camera profile.
pub const FRAME_HEIGHT: u32 = 2160;

/// The V4L2 four-character code of Motion-JPEG.
pub const MJPEG: [u8; 4] = [77u8, 74u8, 80u8, 71u8];

/// Frame sizes a device offers for one pixel format.
#[derive(Debug, PartialEq, Eq)]
pub enum ResolutionInfo {
    /// An explicit list of sizes.
    Discretes(Vec<(u32, u32)>),
    /// Every size from `min` to `max` in `step` increments.
    Stepwise { min: (u32, u32), max: (u32, u32), step: (u32, u32) },
}

/// Frame intervals a device offers for one format and size.
#[derive(Debug, PartialEq, Eq)]
pub enum IntervalInfo {
    /// An explicit list of intervals, as fractions of a second.
    Discretes(Vec<(u32, u32)>),
    /// Every interval from `min` to `max` in `step` increments.
    Stepwise { min: (u32, u32), max: (u32, u32), step: (u32, u32) },
}

/// Whether `value` lies on the grid that starts at `minimum` with spacing
/// `step`; a zero step admits every value.
pub open spec fn spec_step_matches(value: u32, minimum: u32, step: u32) -> bool {
    step == 0 || (value - minimum) % (step as int) == 0
}

/// Whether `value` lies on the step grid from `minimum`.
pub fn step_matches(value: u32, minimum: u32, step: u32) -> (b: bool)
    requires
        value >= minimum,
    ensures
        b == spec_step_matches(value, minimum, step),
{
    step == 0 || (value - minimum) % step == 0
}

/// Whether a device explicitly offers the requested size.
pub open spec fn spec_resolution_supported(info: ResolutionInfo, requested: (u32, u32)) -> bool {
    match info {
        ResolutionInfo::Discretes(v) => v@.contains(requested),
        ResolutionInfo::Stepwise { min, max, step } => min.0 <= requested.0 <= max.0 && min.1
            <= requested.1 <= max.1 && spec_step_matches(requested.0, min.0, step.0)
            && spec_step_matches(requested.1, min.1, step.1),
    }
}

/// Whether a device explicitly offers the requested size.
pub fn resolution_supported(info: &ResolutionInfo, requested: (u32, u32)) -> (b: bool)
    ensures
        b == spec_resolution_supported(*info, requested),
{
    match info {
        ResolutionInfo::Discretes(resolutions) => {
            let mut i: usize = 0;
            while i < resolutions.len()
                invariant
                    *info == ResolutionInfo::Discretes(*resolutions),
                    i <= resolutions@.len(),
                    forall|j: int| 0 <= j < i ==> resolutions@[j] != requested,
                decreases resolutions@.len() - i,
            {
                let r = resolutions[i];
                if r.0 == requested.0 && r.1 == requested.1 {
                    assert(resolutions@[i as int] == requested);
                    assert(resolutions@.contains(requested));
                    return true;
                }
                i = i + 1;
            }
            false
        },
        ResolutionInfo::Stepwise { min, max, step } => {
            requested.0 >= min.0 && requested.0 <= max.0 && requested.1 >= min.1 && requested.1
                <= max.1 && step_matches(requested.0, min.0, step.0) && step_matches(
                requested.1,
                min.1,
                step.1,
            )
        },
    }
}

/// `"<role> Camera device <path>"`, the start of every device diagnostic.
pub open spec fn device_prefix(role: CameraRole, path: Seq<char>) -> Seq<char> {
    role_label(role) + " Camera device "@ + path
}

fn device_text(role: CameraRole, path: &str, rest: &str) -> (s: String)
    ensures
        s@ == device_prefix(role, path@) + rest@,
{
    let mut s = role.label().to_owned();
    s.append(" Camera device ");
    s.append(path);
    s.append(rest);
    s
}

/// Checks what a device offers against the fixed profile: MJPEG must be
/// listed, and the fixed size must be offered explicitly for it.
pub fn check_fixed_profile(
    role: CameraRole,
    path: &str,
    exposes_mjpeg: bool,
    resolutions: &ResolutionInfo,
) -> (r: Result<(), SetupBlocker>)
    ensures
        !exposes_mjpeg ==> (r matches Err(b) && b@ == (BlockerView {
            summary: device_prefix(role, path@) + " does not expose MJPEG"@,
            transport: false,
        })),
        exposes_mjpeg && !spec_resolution_supported(*resolutions, (FRAME_WIDTH, FRAME_HEIGHT)) ==> (
        r matches Err(b) && b@ == (BlockerView {
            summary: device_prefix(role, path@) + " does not expose 3840x2160 MJPEG"@,
            transport: false,
        })),
        exposes_mjpeg && spec_resolution_supported(*resolutions, (FRAME_WIDTH, FRAME_HEIGHT)) ==> r
            is Ok,
{
    if !exposes_mjpeg {
        let s = device_text(role, path, " does not expose MJPEG");
        return Err(SetupBlocker::new(s.as_str()));
    }
    if !resolution_supported(resolutions, (FRAME_WIDTH, FRAME_HEIGHT)) {
        let s = device_text(role, path, " does not expose 3840x2160 MJPEG");
        return Err(SetupBlocker::new(s.as_str()));
    }
    Ok(())
}

/// Picks the frame interval for the fixed profile: the first listed one, or
/// the shortest of a stepwise range.
pub fn select_interval(role: CameraRole, path: &str, intervals: &IntervalInfo) -> (r: Result<
    (u32, u32),
    SetupBlocker,
>)
    ensures
        match *intervals {
            IntervalInfo::Discretes(v) => if v@.len() > 0 {
                r == Ok::<(u32, u32), SetupBlocker>(v@[0])
            } else {
                r matches Err(b) && b@ == (BlockerView {
                    summary: device_prefix(role, path@)
                        + " exposes no 3840x2160 MJPEG frame interval"@,
                    transport: false,
                })
            },
            IntervalInfo::Stepwise { min, .. } => r == Ok::<(u32, u32), SetupBlocker>(min),
        },
{
    match intervals {
        IntervalInfo::Discretes(v) => if v.len() > 0 {
            Ok(v[0])
        } else {
            let s = device_text(role, path, " exposes no 3840x2160 MJPEG frame interval");
            Err(SetupBlocker::new(s.as_str()))
        },
        IntervalInfo::Stepwise { min, .. } => Ok(*min),
    }
}

/// `"[a, b, c, d]"`, how a four-character code is shown in diagnostics.
pub open spec fn fourcc_text(code: [u8; 4]) -> Seq<char> {
    "["@ + decimal(code[0] as nat) + ", "@ + decimal(code[1] as nat) + ", "@ + decimal(
        code[2] as nat,
    ) + ", "@ + decimal(code[3] as nat) + "]"@
}

/// Checks an encoded frame's reported size and format against the fixed profile.
pub fn check_encoded_frame(role: CameraRole, resolution: (u32, u32), format: [u8; 4]) -> (r: Result<
    (),
    CameraCaptureError,
>)
    ensures
        (resolution == (FRAME_WIDTH, FRAME_HEIGHT) && format@ == MJPEG@) ==> r is Ok,
        !(resolution == (FRAME_WIDTH, FRAME_HEIGHT) && format@ == MJPEG@) ==> (r matches Err(
            CameraCaptureError::Profile { role: r_role, detail },
        ) && r_role == role && detail@ == "expected 3840x2160 MJPEG, received "@ + decimal(
            resolution.0 as nat,
        ) + "x"@ + decimal(resolution.1 as nat) + " "@ + fourcc_text(format)),
{
    if resolution.0 == FRAME_WIDTH && resolution.1 == FRAME_HEIGHT && format[0] == MJPEG[0]
        && format[1] == MJPEG[1] && format[2] == MJPEG[2] && format[3] == MJPEG[3] {
        assert(format@ =~= MJPEG@);
        return Ok(());
    }
    assert(!(resolution == (FRAME_WIDTH, FRAME_HEIGHT) && format@ == MJPEG@)) by {
        if resolution == (FRAME_WIDTH, FRAME_HEIGHT) && format@ == MJPEG@ {
            assert(format@[0] == MJPEG@[0]);
            assert(format@[1] == MJPEG@[1]);
            assert(format@[2] == MJPEG@[2]);
            assert(format@[3] == MJPEG@[3]);
        }
    }
    let mut detail = "expected 3840x2160 MJPEG, received ".to_owned();
    push_decimal(&mut detail, resolution.0 as u64);
    detail.append("x");
    push_decimal(&mut detail, resolution.1 as u64);
    detail.append(" ");
    detail.append("[");
    push_decimal(&mut detail, format[0] as u64);
    detail.append(", ");
    push_decimal(&mut detail, format[1] as u64);
    detail.append(", ");
    push_decimal(&mut detail, format[2] as u64);
    detail.append(", ");
    push_decimal(&mut detail, format[3] as u64);
    detail.append("]");
    assert(detail@ =~= "expected 3840x2160 MJPEG, received "@ + decimal(resolution.0 as nat) + "x"@
        + decimal(resolution.1 as nat) + " "@ + fourcc_text(format));
    Err(CameraCaptureError::Profile { role, detail })
}

/// What decoding a JPEG image into packed RGB gives: its width, height and
/// bytes, or the decoder's diagnostic.
pub uninterp spec fn jpeg_rgb8(bytes: Seq<u8>) -> Result<(u32, u32, Seq<u8>), Seq<char>>;

/// `image::load_from_memory_with_format(.., ImageFormat::Jpeg)` followed by
/// `DynamicImage::to_rgb8`: the decoded width, height and packed RGB bytes,
/// or the decoder error's text. The result is a function of the bytes; the
/// decoder itself is not restated here.
#[verifier::external_body]
fn decode_jpeg(bytes: &[u8]) -> (r: Result<(u32, u32, Vec<u8>), String>)
    ensures
        match r {
            Ok((w, h, px)) => jpeg_rgb8(bytes@) == Ok::<(u32, u32, Seq<u8>), Seq<char>>(
                (w, h, px@),
            ),
            Err(e) => jpeg_rgb8(bytes@) == Err::<(u32, u32, Seq<u8>), Seq<char>>(e@),
        },
{
    match image::load_from_memory_with_format(bytes, image::ImageFormat::Jpeg) {
        Ok(decoded) => {
            let rgb = decoded.to_rgb8();
            let (w, h) = rgb.dimensions();
            Ok((w, h, rgb.into_raw()))
        },
        Err(error) => Err(error.to_string()),
    }
}

/// The model of a decoded frame.
pub open spec fn decoded_view(d: Result<(u32, u32, Vec<u8>), String>) -> Result<
    (u32, u32, Seq<u8>),
    Seq<char>,
> {
    match d {
        Ok((w, h, px)) => Ok((w, h, px@)),
        Err(e) => Err(e@),
    }
}

/// Whether `r` is the outcome of turning a decoded frame into an owned frame.
pub open spec fn is_frame_from_decoded(
    r: Result<CapturedFrame, CameraCaptureError>,
    role: CameraRole,
    decoded: Result<(u32, u32, Seq<u8>), Seq<char>>,
    captured_at: SystemTime,
    rotation_degrees: u16,
    crop: CropGeometry,
) -> bool {
    match decoded {
        Err(e) => r matches Err(CameraCaptureError::Decode { role: r_role, detail }) && r_role
            == role && detail@ == e,
        Ok((w, h, px)) => if w != FRAME_WIDTH || h != FRAME_HEIGHT {
            r matches Err(CameraCaptureError::Profile { role: r_role, detail }) && r_role == role
                && detail@ == "decoded MJPEG dimensions are "@ + decimal(w as nat) + "x"@
                + decimal(h as nat) + ", expected 3840x2160"@
        } else {
            let rw = rotated_width(w, h, rotation_degrees);
            let rh = rotated_height(w, h, rotation_degrees);
            let pixels = rotated_pixels(px, w, h, rotation_degrees);
            match unrotated_shape_error(w, h, px.len(), rotation_degrees) {
                Some(e) => r matches Err(CameraCaptureError::Geometry { role: r_role, detail })
                    && r_role == role && detail@ == frame_build_message(e),
                None => match frame_shape_error(rw, rh, pixels.len(), crop) {
                    Some(e) => r matches Err(CameraCaptureError::Geometry { role: r_role, detail })
                        && r_role == role && detail@ == frame_build_message(e),
                    None => match r {
                        Ok(f) => is_built_frame(
                            f@,
                            role,
                            rw,
                            rh,
                            pixels,
                            captured_at,
                            clamped_crop(crop, rw, rh),
                        ),
                        Err(CameraCaptureError::Geometry { role: r_role, detail }) => r_role == role
                            && detail@ == frame_build_message(
                            FrameBuildError::FullPagePreviewAllocation {
                                width: clamped_crop(crop, rw, rh).width,
                                height: clamped_crop(crop, rw, rh).height,
                            },
                        ),
                        Err(_) => false,
                    },
                },
            }
        },
    }
}

/// Turns a decoded frame into an owned post-rotation frame: a decoder
/// failure is retryable, a size off the fixed profile is a profile
/// mismatch, and a rotation or crop problem is a geometry failure.
pub fn frame_from_decoded(
    role: CameraRole,
    decoded: Result<(u32, u32, Vec<u8>), String>,
    captured_at: SystemTime,
    rotation_degrees: u16,
    crop: CropGeometry,
) -> (r: Result<CapturedFrame, CameraCaptureError>)
    ensures
        is_frame_from_decoded(r, role, decoded_view(decoded), captured_at, rotation_degrees, crop),
{
    let (width, height, pixels) = match decoded {
        Ok(t) => t,
        Err(detail) => {
            return Err(CameraCaptureError::Decode { role, detail });
        },
    };
    if width != FRAME_WIDTH || height != FRAME_HEIGHT {
        let mut detail = "decoded MJPEG dimensions are ".to_owned();
        push_decimal(&mut detail, width as u64);
        detail.append("x");
        push_decimal(&mut detail, height as u64);
        detail.append(", expected 3840x2160");
        return Err(CameraCaptureError::Profile { role, detail });
    }
    match CapturedFrame::from_unrotated_rgb8(
        role,
        width,
        height,
        pixels,
        captured_at,
        rotation_degrees,
        crop,
    ) {
        Ok(frame) => Ok(frame),
        Err(e) => Err(CameraCaptureError::Geometry { role, detail: e.message() }),
    }
}

/// Turns one encoded frame from a device into an owned post-rotation frame.
pub fn frame_from_mjpeg(
    role: CameraRole,
    resolution: (u32, u32),
    format: [u8; 4],
    jpeg: &[u8],
    captured_at: SystemTime,
    rotation_degrees: u16,
    crop: CropGeometry,
) -> (r: Result<CapturedFrame, CameraCaptureError>)
    ensures
        !(resolution == (FRAME_WIDTH, FRAME_HEIGHT) && format@ == MJPEG@) ==> (r matches Err(
            CameraCaptureError::Profile { role: r_role, .. },
        ) && r_role == role),
        (resolution == (FRAME_WIDTH, FRAME_HEIGHT) && format@ == MJPEG@) ==> is_frame_from_decoded(
            r,
            role,
            jpeg_rgb8(jpeg@),
            captured_at,
            rotation_degrees,
            crop,
        ),
{
    match check_encoded_frame(role, resolution, format) {
        Ok(()) => {},
        Err(e) => {
            return Err(e);
        },
    }
    let decoded = decode_jpeg(jpeg);
    frame_from_decoded(role, decoded, captured_at, rotation_degrees, crop)
}

/// Whether a device file name is `video` followed by one or more ASCII digits.
pub open spec fn is_video_node(name: Seq<char>) -> bool {
    name.len() > 5 && name.take(5) == "video"@ && forall|i: int|
        5 <= i < name.len() ==> is_digit(#[trigger] name[i])
}

/// Whether a device file name is `video` followed by one or more ASCII digits.
pub fn is_video_node_name(name: &str) -> (b: bool)
    ensures
        b == is_video_node(name@),
{
    proof {
        reveal_strlit("video");
    }
    let c = chars_of(name);
    if c.len() <= 5 {
        return false;
    }
    if !(c[0] == 'v' && c[1] == 'i' && c[2] == 'd' && c[3] == 'e' && c[4] == 'o') {
        assert(c@.take(5) != "video"@) by {
            if c@.take(5) == "video"@ {
                assert(c@.take(5)[0] == 'v');
                assert(c@.take(5)[1] == 'i');
                assert(c@.take(5)[2] == 'd');
                assert(c@.take(5)[3] == 'e');
                assert(c@.take(5)[4] == 'o');
            }
        }
        return false;
    }
    assert(c@.take(5) =~= "video"@);
    let mut i: usize = 5;
    while i < c.len()
        invariant
            5 <= i <= c@.len(),
            c@ == name@,
            forall|j: int| 5 <= j < i ==> is_digit(#[trigger] c@[j]),
        decreases c@.len() - i,
    {
        if !('0' <= c[i] && c[i] <= '9') {
            assert(!is_digit(c@[i as int]));
            return false;
        }
        i = i + 1;
    }
    true
}

/// `"<role> Camera identity <identity>"`, the start of every identity diagnostic.
pub open spec fn identity_prefix(role: CameraRole, identity: Seq<char>) -> Seq<char> {
    role_label(role) + " Camera identity "@ + identity
}

fn identity_text(role: CameraRole, identity: &str) -> (s: String)
    ensures
        s@ == identity_prefix(role, identity@),
{
    let mut s = role.label().to_owned();
    s.append(" Camera identity ");
    s.append(identity);
    s
}

/// The blocker for a Camera identity that cannot be resolved.
pub fn unresolved_identity(role: CameraRole, identity: &str, error: &str) -> (b: SetupBlocker)
    ensures
        b@ == (BlockerView {
            summary: identity_prefix(role, identity@) + " cannot be resolved: "@ + error@,
            transport: false,
        }),
{
    let mut s = identity_text(role, identity);
    s.append(" cannot be resolved: ");
    s.append(error);
    SetupBlocker::new(s.as_str())
}

/// Accepts a resolved Camera identity only where it names a `videoN` device
/// node; `file_name` is the resolved path's last component, where it has
/// one that is text.
pub fn check_video_node(role: CameraRole, identity: &str, resolved: &str, file_name: Option<&str>) -> (r:
    Result<(), SetupBlocker>)
    ensures
        match file_name {
            Some(n) => is_video_node(n@),
            None => false,
        } ==> r is Ok,
        !(match file_name {
            Some(n) => is_video_node(n@),
            None => false,
        }) ==> (r matches Err(b) && b@ == (BlockerView {
            summary: identity_prefix(role, identity@) + " resolves to "@ + resolved@
                + ", not a videoN device node"@,
            transport: false,
        })),
{
    let ok = match file_name {
        Some(n) => is_video_node_name(n),
        None => false,
    };
    if ok {
        return Ok(());
    }
    let mut s = identity_text(role, identity);
    s.append(" resolves to ");
    s.append(resolved);
    s.append(", not a videoN device node");
    Err(SetupBlocker::new(s.as_str()))
}

/// Both roles' results, or every blocker in role order: Left, then Right.
pub fn both_roles<T>(left: Result<T, SetupBlocker>, right: Result<T, SetupBlocker>) -> (r: Result<
    (T, T),
    Vec<SetupBlocker>,
>)
    ensures
        match (left, right) {
            (Ok(l), Ok(rr)) => r == Ok::<(T, T), Vec<SetupBlocker>>((l, rr)),
            (Err(a), Ok(_)) => r matches Err(v) && v@ == seq![a],
            (Ok(_), Err(b)) => r matches Err(v) && v@ == seq![b],
            (Err(a), Err(b)) => r matches Err(v) && v@ == seq![a, b],
        },
{
    match (left, right) {
        (Ok(l), Ok(r)) => Ok((l, r)),
        (Err(a), Ok(_)) => {
            let mut v: Vec<SetupBlocker> = Vec::new();
            v.push(a);
            Err(v)
        },
        (Ok(_), Err(b)) => {
            let mut v: Vec<SetupBlocker> = Vec::new();
            v.push(b);
            Err(v)
        },
        (Err(a), Err(b)) => {
            let mut v: Vec<SetupBlocker> = Vec::new();
            v.push(a);
            v.push(b);
            assert(v@ =~= seq![a, b]);
            Err(v)
        },
    }
}

/// The two roles' resolved device paths, which must name different devices.
pub fn distinct_devices(left: String, right: String) -> (r: Result<(String, String), Vec<SetupBlocker>>)
    ensures
        left@ != right@ ==> r == Ok::<(String, String), Vec<SetupBlocker>>((left, right)),
        left@ == right@ ==> (r matches Err(v) && v@.len() == 1 && v@[0]@ == (BlockerView {
            summary: "Left and Right Camera identities resolve to the same live device "@
                + left@,
            transport: false,
        })),
{
    if left != right {
        return Ok((left, right));
    }
    let mut s = "Left and Right Camera identities resolve to the same live device ".to_owned();
    s.append(left.as_str());
    let mut v: Vec<SetupBlocker> = Vec::new();
    v.push(SetupBlocker::new(s.as_str()));
    Err(v)
}

/// Opens the two commissioned V4L2 Camera identities on the controller thread.
#[derive(Clone, Copy, Debug, Default, PartialEq, Eq, Structural)]
pub struct V4lCameraMachineFactory;

/// Failure from the non-persistent single-role Camera diagnostic path.
#[derive(Clone, Debug, PartialEq, Eq)]
pub enum CameraDiagnosticError {
    /// The configured Camera identity or fixed profile is not ready.
    Setup(String),
    /// Acquisition, decode, rotation, or crop processing failed.
    Capture(CameraCaptureError),
}

impl CameraDiagnosticError {
    /// The diagnostic for a Setup blocker: its summary.
    pub fn from_blocker(blocker: SetupBlocker) -> (e: Self)
        ensures
            e matches CameraDiagnosticError::Setup(s) && s@ == blocker@.summary,
    {
        CameraDiagnosticError::Setup(blocker.into_summary())
    }

    /// The operator-facing text of the failure.
    pub fn message(&self) -> (s: String)
        ensures
            match *self {
                CameraDiagnosticError::Setup(d) => s@ == d@,
                CameraDiagnosticError::Capture(c) => s@ == super::capture_error_message(c),
            },
    {
        match self {
            CameraDiagnosticError::Setup(d) => d.clone(),
            CameraDiagnosticError::Capture(c) => c.message(),
        }
    }
}

} // verus!
