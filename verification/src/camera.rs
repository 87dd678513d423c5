//! Complete Camera-pair acquisition behind role-specific adapters.
//!
//! A frame is owned, decoded and already rotated when it leaves a role
//! adapter: its packed sRGB bytes, the commissioned crop clamped to the
//! rotated frame, and the Full-page preview cut from that crop.
pub mod v4l;

use std::time::SystemTime;
use vstd::prelude::*;
use vstd::arithmetic::div_mod::lemma_fundamental_div_mod_converse;
use crate::config::CropGeometry;
use crate::text::{decimal, push_decimal};
use vstd::string::StringExecFns;

verus! {

/// `std::time::SystemTime`, carried through unchanged as a frame's timestamp.
#[verifier::external_type_specification]
#[verifier::external_body]
pub struct ExSystemTime(SystemTime);

/// The stable physical position assigned to one Camera.
#[derive(Clone, Copy, Debug, PartialEq, Eq, Hash, Structural)]
pub enum CameraRole {
    /// Camera assigned to the Left page.
    Left,
    /// Camera assigned to the Right page.
    Right,
}

/// The operator-facing name of a role.
pub open spec fn role_label(role: CameraRole) -> Seq<char> {
    match role {
        CameraRole::Left => "Left"@,
        CameraRole::Right => "Right"@,
    }
}

impl CameraRole {
    /// The operator-facing name of the role, `Left` or `Right`.
    pub fn label(&self) -> (s: &'static str)
        ensures
            s@ == role_label(*self),
    {
        match self {
            CameraRole::Left => "Left",
            CameraRole::Right => "Right",
        }
    }
}

/// A crop clamped to the owned post-rotation frame.
#[derive(Clone, Copy, Debug, PartialEq, Eq, Structural)]
pub struct FrameCrop {
    /// Horizontal origin from the left edge.
    pub x: u32,
    /// Vertical origin from the top edge.
    pub y: u32,
    /// Clamped nonzero width.
    pub width: u32,
    /// Clamped nonzero height.
    pub height: u32,
}

/// Owned sRGB pixels prepared for one preview view.
#[derive(Clone, Debug, PartialEq, Eq)]
pub struct PreviewImage {
    /// Preview pixel width.
    pub width: u32,
    /// Preview pixel height.
    pub height: u32,
    rgb8: Vec<u8>,
}

/// Model of a [`PreviewImage`]: its size and packed row-major bytes.
pub struct PreviewView {
    pub width: u32,
    pub height: u32,
    pub pixels: Seq<u8>,
}

impl View for PreviewImage {
    type V = PreviewView;

    closed spec fn view(&self) -> PreviewView {
        PreviewView { width: self.width, height: self.height, pixels: self.rgb8@ }
    }
}

impl PreviewImage {
    /// Packed sRGB preview pixels in row-major order.
    pub fn rgb8(&self) -> (r: &[u8])
        ensures
            r@ == self@.pixels,
    {
        self.rgb8.as_slice()
    }

    /// An owned copy with the same size and pixels.
    pub fn duplicate(&self) -> (r: PreviewImage)
        ensures
            r@ == self@,
    {
        let mut pixels: Vec<u8> = Vec::new();
        let mut i: usize = 0;
        while i < self.rgb8.len()
            invariant
                i <= self.rgb8@.len(),
                pixels@ == self.rgb8@.take(i as int),
            decreases self.rgb8@.len() - i,
        {
            pixels.push(self.rgb8[i]);
            i = i + 1;
            assert(pixels@ =~= self.rgb8@.take(i as int));
        }
        assert(self.rgb8@.take(i as int) =~= self.rgb8@);
        PreviewImage { width: self.width, height: self.height, rgb8: pixels }
    }
}

/// An optional 100% preview could not be prepared.
#[derive(Clone, Debug, PartialEq, Eq)]
pub struct NativeDetailPreviewError {
    summary: String,
}

impl View for NativeDetailPreviewError {
    type V = Seq<char>;

    closed spec fn view(&self) -> Seq<char> {
        self.summary@
    }
}

impl NativeDetailPreviewError {
    /// The diagnostic that explains the missing preview.
    pub fn message(&self) -> (s: String)
        ensures
            s@ == self@,
    {
        self.summary.clone()
    }
}

/// An invalid owned frame or post-rotation crop.
#[derive(Clone, Copy, Debug, PartialEq, Eq, Structural)]
pub enum FrameBuildError {
    /// The pixel count cannot be represented on this host.
    DimensionsOverflow { width: u32, height: u32 },
    /// Packed RGB data does not match the declared dimensions.
    PixelLength { width: u32, height: u32, expected: usize, actual: usize },
    /// The commissioned crop has no pixels inside the frame.
    EmptyCrop { x: u32, y: u32, width: u32, height: u32, frame_width: u32, frame_height: u32 },
    /// The configured rotation is not a clockwise quarter turn.
    UnsupportedRotation(u16),
    /// Memory for a validated Full-page preview could not be reserved.
    FullPagePreviewAllocation { width: u32, height: u32 },
}

/// Bytes of a packed RGB frame of the given size.
pub open spec fn rgb8_size(width: u32, height: u32) -> int {
    width as int * height as int * 3
}

/// The packed RGB length of a frame, or `DimensionsOverflow` where it does
/// not fit in `usize`.
fn rgb8_len(width: u32, height: u32) -> (r: Result<usize, FrameBuildError>)
    ensures
        rgb8_size(width, height) <= usize::MAX ==> r == Ok::<usize, FrameBuildError>(
            rgb8_size(width, height) as usize,
        ),
        rgb8_size(width, height) > usize::MAX ==> r == Err::<usize, FrameBuildError>(
            FrameBuildError::DimensionsOverflow { width, height },
        ),
{
    let w = width as usize;
    let h = height as usize;
    match w.checked_mul(h) {
        Some(pixels) => match pixels.checked_mul(3) {
            Some(bytes) => Ok(bytes),
            None => Err(FrameBuildError::DimensionsOverflow { width, height }),
        },
        None => {
            assert(w * h * 3 > usize::MAX) by (nonlinear_arith)
                requires
                    w * h > usize::MAX,
            ;
            Err(FrameBuildError::DimensionsOverflow { width, height })
        },
    }
}

/// Whether a rotation is a clockwise quarter turn.
pub open spec fn is_quarter_turn(rotation: u16) -> bool {
    rotation == 0 || rotation == 90 || rotation == 180 || rotation == 270
}

/// Whether a rotation exchanges width and height.
pub open spec fn swaps_axes(rotation: u16) -> bool {
    rotation == 90 || rotation == 270
}

/// Width of a frame after a clockwise rotation.
pub open spec fn rotated_width(width: u32, height: u32, rotation: u16) -> u32 {
    if swaps_axes(rotation) {
        height
    } else {
        width
    }
}

/// Height of a frame after a clockwise rotation.
pub open spec fn rotated_height(width: u32, height: u32, rotation: u16) -> u32 {
    if swaps_axes(rotation) {
        width
    } else {
        height
    }
}

/// The source pixel `(x, y)` that lands at `(rx, ry)` after a clockwise
/// rotation of a `width` by `height` frame.
pub open spec fn rotation_source(width: int, height: int, rotation: u16, rx: int, ry: int) -> (
    int,
    int,
) {
    if rotation == 90 {
        (ry, height - 1 - rx)
    } else if rotation == 180 {
        (width - 1 - rx, height - 1 - ry)
    } else if rotation == 270 {
        (width - 1 - ry, rx)
    } else {
        (rx, ry)
    }
}

/// The source byte of rotated byte `k`: same channel, source pixel by
/// [`rotation_source`].
pub open spec fn rotated_source_byte(width: int, height: int, rotation: u16, k: int) -> int {
    let row = if swaps_axes(rotation) {
        height
    } else {
        width
    };
    let p = k / 3;
    let s = rotation_source(width, height, rotation, p % row, p / row);
    (s.1 * width + s.0) * 3 + k % 3
}

/// Packed RGB bytes of a frame rotated clockwise.
pub open spec fn rotated_pixels(rgb8: Seq<u8>, width: u32, height: u32, rotation: u16) -> Seq<u8> {
    Seq::new(
        rgb8.len(),
        |k: int| rgb8[rotated_source_byte(width as int, height as int, rotation, k)],
    )
}

proof fn lemma_pixel_index_bound(x: int, y: int, c: int, width: int, height: int)
    requires
        0 <= x < width,
        0 <= y < height,
        0 <= c < 3,
    ensures
        0 <= (y * width + x) * 3 + c < width * height * 3,
        0 <= y * width + x < width * height,
{
    assert(0 <= y * width) by (nonlinear_arith)
        requires
            0 <= y,
            0 <= x < width,
    ;
    assert(y * width + x < width * height) by (nonlinear_arith)
        requires
            0 <= x < width,
            0 <= y < height,
    ;
}

proof fn lemma_row_of(p: int, row: int, rows: int)
    requires
        0 <= p < row * rows,
        row > 0,
    ensures
        0 <= p / row < rows,
        0 <= p % row < row,
{
    assert(0 <= p / row < rows) by (nonlinear_arith)
        requires
            0 <= p < row * rows,
            row > 0,
    ;
}

proof fn lemma_rotated_source_in_bounds(width: int, height: int, rotation: u16, k: int)
    requires
        is_quarter_turn(rotation),
        width >= 0,
        height >= 0,
        0 <= k < width * height * 3,
    ensures
        0 <= rotated_source_byte(width, height, rotation, k) < width * height * 3,
{
    let row = if swaps_axes(rotation) {
        height
    } else {
        width
    };
    let rows = if swaps_axes(rotation) {
        width
    } else {
        height
    };
    let p = k / 3;
    assert(0 <= p < width * height);
    assert(row * rows == width * height) by (nonlinear_arith)
        requires
            (row == height && rows == width) || (row == width && rows == height),
    ;
    assert(width > 0 && height > 0) by (nonlinear_arith)
        requires
            0 <= k < width * height * 3,
            width >= 0,
            height >= 0,
    ;
    assert(row > 0);
    lemma_row_of(p, row, rows);
    let s = rotation_source(width, height, rotation, p % row, p / row);
    assert(0 <= s.0 < width && 0 <= s.1 < height);
    lemma_pixel_index_bound(s.0, s.1, k % 3, width, height);
}

proof fn lemma_unrotated_is_identity(rgb8: Seq<u8>, width: u32, height: u32)
    requires
        rgb8.len() == rgb8_size(width, height),
    ensures
        rotated_pixels(rgb8, width, height, 0) == rgb8,
{
    assert forall|k: int| 0 <= k < rgb8.len() implies rotated_source_byte(
        width as int,
        height as int,
        0,
        k,
    ) == k by {
        assert(width > 0) by (nonlinear_arith)
            requires
                0 <= k < width * height * 3,
        ;
        let p = k / 3;
        assert(p == (p / width as int) * width + p % width as int) by (nonlinear_arith)
            requires
                width > 0,
        ;
    }
    assert(rotated_pixels(rgb8, width, height, 0) =~= rgb8);
}

/// Rotates packed RGB bytes clockwise by a quarter turn: 0 returns the
/// input, and rotating the output by the inverse quarter turn restores it.
pub fn rotate_rgb8(width: u32, height: u32, rgb8: Vec<u8>, rotation_degrees: u16) -> (r: Result<
    (u32, u32, Vec<u8>),
    FrameBuildError,
>)
    requires
        rgb8@.len() == rgb8_size(width, height),
    ensures
        rotation_degrees == 0 ==> (r matches Ok((w, h, out)) && w == width && h == height && out@
            == rgb8@),
        is_quarter_turn(rotation_degrees) ==> (r matches Ok((w, h, out)) && out@.len()
            == rgb8@.len() && rotated_pixels(out@, w, h, inverse_rotation(rotation_degrees))
            == rgb8@),
        !is_quarter_turn(rotation_degrees) ==> r == Err::<(u32, u32, Vec<u8>), FrameBuildError>(
            FrameBuildError::UnsupportedRotation(rotation_degrees),
        ),
        is_quarter_turn(rotation_degrees) ==> match r {
            Ok((w, h, out)) => w == rotated_width(width, height, rotation_degrees) && h
                == rotated_height(width, height, rotation_degrees) && out@ == rotated_pixels(
                rgb8@,
                width,
                height,
                rotation_degrees,
            ),
            Err(_) => false,
        },
{
    if !(rotation_degrees == 0 || rotation_degrees == 90 || rotation_degrees == 180
        || rotation_degrees == 270) {
        return Err(FrameBuildError::UnsupportedRotation(rotation_degrees));
    }
    proof {
        law_rotation_round_trip(rgb8@, width, height, rotation_degrees);
    }
    if rotation_degrees == 0 {
        proof {
            lemma_unrotated_is_identity(rgb8@, width, height);
        }
        return Ok((width, height, rgb8));
    }
    let (rotated_width, rotated_height) = if rotation_degrees == 90 || rotation_degrees == 270 {
        (height, width)
    } else {
        (width, height)
    };
    let w = width as usize;
    let h = height as usize;
    let row = rotated_width as usize;
    let total = rgb8.len();
    let mut out: Vec<u8> = Vec::new();
    let mut k: usize = 0;
    while k < total
        invariant
            total == rgb8@.len(),
            total == rgb8_size(width, height),
            w == width,
            h == height,
            row == (if swaps_axes(rotation_degrees) { height } else { width }),
            is_quarter_turn(rotation_degrees),
            k <= total,
            out@.len() == k,
            forall|j: int|
                0 <= j < k ==> out@[j] == rgb8@[rotated_source_byte(
                    width as int,
                    height as int,
                    rotation_degrees,
                    j,
                )],
        decreases total - k,
    {
        proof {
            lemma_rotated_source_in_bounds(width as int, height as int, rotation_degrees, k as int);
            assert(w > 0 && h > 0) by (nonlinear_arith)
                requires
                    k < w * h * 3,
            ;
        }
        let p = k / 3;
        let c = k % 3;
        let rx = p % row;
        let ry = p / row;
        proof {
            let rows = if swaps_axes(rotation_degrees) {
                width as int
            } else {
                height as int
            };
            assert(row * rows == w * h) by (nonlinear_arith)
                requires
                    (row == h && rows == w) || (row == w && rows == h),
            ;
            lemma_row_of(p as int, row as int, rows);
        }
        let (sx, sy): (usize, usize) = if rotation_degrees == 90 {
            (ry, h - 1 - rx)
        } else if rotation_degrees == 180 {
            (w - 1 - rx, h - 1 - ry)
        } else if rotation_degrees == 270 {
            (w - 1 - ry, rx)
        } else {
            (rx, ry)
        };
        proof {
            lemma_pixel_index_bound(sx as int, sy as int, c as int, w as int, h as int);
        }
        let source = (sy * w + sx) * 3 + c;
        out.push(rgb8[source]);
        k = k + 1;
    }
    assert(out@ =~= rotated_pixels(rgb8@, width, height, rotation_degrees));
    Ok((rotated_width, rotated_height, out))
}

/// The part of `[start, start + length)` that lies inside `[0, limit)`,
/// measured from `start`.
pub open spec fn clamped_extent(start: u32, length: u32, limit: u32) -> u32 {
    let room: u32 = if start < limit {
        (limit - start) as u32
    } else {
        0
    };
    if room < length {
        room
    } else {
        length
    }
}

/// The commissioned crop clamped to a `frame_width` by `frame_height` frame,
/// or `EmptyCrop` where nothing of it lies inside.
pub open spec fn spec_clamp_crop(crop: CropGeometry, frame_width: u32, frame_height: u32) -> Result<
    FrameCrop,
    FrameBuildError,
> {
    let width = clamped_extent(crop.x, crop.width, frame_width);
    let height = clamped_extent(crop.y, crop.height, frame_height);
    if width == 0 || height == 0 {
        Err(
            FrameBuildError::EmptyCrop {
                x: crop.x,
                y: crop.y,
                width: crop.width,
                height: crop.height,
                frame_width,
                frame_height,
            },
        )
    } else {
        Ok(FrameCrop { x: crop.x, y: crop.y, width, height })
    }
}

fn clamp_crop(crop: CropGeometry, frame_width: u32, frame_height: u32) -> (r: Result<
    FrameCrop,
    FrameBuildError,
>)
    ensures
        r == spec_clamp_crop(crop, frame_width, frame_height),
{
    let room_x = frame_width.saturating_sub(crop.x);
    let width = if room_x < crop.width {
        room_x
    } else {
        crop.width
    };
    let room_y = frame_height.saturating_sub(crop.y);
    let height = if room_y < crop.height {
        room_y
    } else {
        crop.height
    };
    if width == 0 || height == 0 {
        return Err(
            FrameBuildError::EmptyCrop {
                x: crop.x,
                y: crop.y,
                width: crop.width,
                height: crop.height,
                frame_width,
                frame_height,
            },
        );
    }
    Ok(FrameCrop { x: crop.x, y: crop.y, width, height })
}

/// The frame byte shown at byte `k` of a crop's preview.
pub open spec fn cropped_source_byte(frame_width: int, crop: FrameCrop, k: int) -> int {
    let p = k / 3;
    ((crop.y + p / (crop.width as int)) * frame_width + crop.x + p % (crop.width as int)) * 3 + k
        % 3
}

/// Packed RGB bytes of the crop rectangle of a frame, row by row.
pub open spec fn cropped_pixels(frame: Seq<u8>, frame_width: u32, crop: FrameCrop) -> Seq<u8> {
    Seq::new(
        rgb8_size(crop.width, crop.height) as nat,
        |k: int| frame[cropped_source_byte(frame_width as int, crop, k)],
    )
}

/// `Vec::try_reserve_exact`: asks the allocator for room for `additional`
/// more bytes. Whether the allocator grants it is not known in advance; the
/// contents are unchanged either way.
#[verifier::external_body]
fn try_reserve_bytes(v: &mut Vec<u8>, additional: usize) -> (reserved: bool)
    ensures
        final(v)@ == old(v)@,
{
    v.try_reserve_exact(additional).is_ok()
}

/// Cuts the crop rectangle out of a frame into an owned preview. The only
/// failure is an allocator refusal.
fn crop_preview(frame: &[u8], frame_width: u32, crop: FrameCrop) -> (r: Result<
    PreviewImage,
    FrameBuildError,
>)
    requires
        crop.width > 0,
        crop.x + crop.width <= frame_width,
        (crop.y + crop.height) * frame_width * 3 <= frame@.len(),
    ensures
        match r {
            Ok(p) => p@ == (PreviewView {
                width: crop.width,
                height: crop.height,
                pixels: cropped_pixels(frame@, frame_width, crop),
            }),
            Err(e) => e == (FrameBuildError::FullPagePreviewAllocation {
                width: crop.width,
                height: crop.height,
            }),
        },
{
    let frame_len = frame.len();
    proof {
        assert(rgb8_size(crop.width, crop.height) <= (crop.y + crop.height) * frame_width * 3)
            by (nonlinear_arith)
            requires
                crop.x + crop.width <= frame_width,
                crop.width >= 0,
                crop.height >= 0,
                crop.x >= 0,
                crop.y >= 0,
        ;
    }
    let preview_len = match rgb8_len(crop.width, crop.height) {
        Ok(n) => n,
        Err(e) => {
            return Err(e);
        },
    };
    let mut rgb8: Vec<u8> = Vec::new();
    if !try_reserve_bytes(&mut rgb8, preview_len) {
        return Err(
            FrameBuildError::FullPagePreviewAllocation { width: crop.width, height: crop.height },
        );
    }
    let fw = frame_width as usize;
    let cx = crop.x as usize;
    let cy = crop.y as usize;
    let cw = crop.width as usize;
    let mut k: usize = 0;
    while k < preview_len
        invariant
            preview_len == rgb8_size(crop.width, crop.height),
            crop.width > 0,
            crop.x + crop.width <= frame_width,
            (crop.y + crop.height) * frame_width * 3 <= frame@.len(),
            frame@.len() <= usize::MAX,
            fw == frame_width,
            cx == crop.x,
            cy == crop.y,
            cw == crop.width,
            k <= preview_len,
            rgb8@.len() == k,
            forall|j: int|
                0 <= j < k ==> rgb8@[j] == frame@[cropped_source_byte(frame_width as int, crop, j)],
        decreases preview_len - k,
    {
        let p = k / 3;
        proof {
            assert(p < crop.width * crop.height);
            lemma_row_of(p as int, cw as int, crop.height as int);
            assert(crop.y + crop.height <= frame@.len()) by (nonlinear_arith)
                requires
                    (crop.y + crop.height) * frame_width * 3 <= frame@.len(),
                    frame_width >= 1,
            ;
        }
        let x = cx + p % cw;
        let y = cy + p / cw;
        proof {
            lemma_pixel_index_bound(
                x as int,
                y as int,
                (k % 3) as int,
                fw as int,
                crop.y + crop.height,
            );
            assert(fw * (crop.y + crop.height) * 3 == (crop.y + crop.height) * fw * 3)
                by (nonlinear_arith);
        }
        let source = (y * fw + x) * 3 + k % 3;
        rgb8.push(frame[source]);
        k = k + 1;
    }
    assert(rgb8@ =~= cropped_pixels(frame@, frame_width, crop));
    Ok(PreviewImage { width: crop.width, height: crop.height, rgb8 })
}

/// The crop rectangle that [`spec_clamp_crop`] keeps; meaningful where it is not empty.
pub open spec fn clamped_crop(crop: CropGeometry, frame_width: u32, frame_height: u32) -> FrameCrop {
    FrameCrop {
        x: crop.x,
        y: crop.y,
        width: clamped_extent(crop.x, crop.width, frame_width),
        height: clamped_extent(crop.y, crop.height, frame_height),
    }
}

/// The first structural problem of a post-rotation frame, if any: an
/// unrepresentable size, a byte count that does not match it, or an empty crop.
pub open spec fn frame_shape_error(width: u32, height: u32, len: nat, crop: CropGeometry) -> Option<
    FrameBuildError,
> {
    if rgb8_size(width, height) > usize::MAX {
        Some(FrameBuildError::DimensionsOverflow { width, height })
    } else if len != rgb8_size(width, height) {
        Some(
            FrameBuildError::PixelLength {
                width,
                height,
                expected: rgb8_size(width, height) as usize,
                actual: len as usize,
            },
        )
    } else {
        match spec_clamp_crop(crop, width, height) {
            Err(e) => Some(e),
            Ok(_) => None,
        }
    }
}

/// The first problem of an unrotated frame found before rotating it.
pub open spec fn unrotated_shape_error(width: u32, height: u32, len: nat, rotation: u16) -> Option<
    FrameBuildError,
> {
    if rgb8_size(width, height) > usize::MAX {
        Some(FrameBuildError::DimensionsOverflow { width, height })
    } else if len != rgb8_size(width, height) {
        Some(
            FrameBuildError::PixelLength {
                width,
                height,
                expected: rgb8_size(width, height) as usize,
                actual: len as usize,
            },
        )
    } else if !is_quarter_turn(rotation) {
        Some(FrameBuildError::UnsupportedRotation(rotation))
    } else {
        None
    }
}

/// One owned, decoded, post-rotation frame.
#[derive(Debug, PartialEq, Eq)]
pub struct CapturedFrame {
    /// Stable Camera role that produced the frame.
    pub role: CameraRole,
    /// Post-rotation pixel width.
    pub width: u32,
    /// Post-rotation pixel height.
    pub height: u32,
    /// Time at which the adapter acquired the frame.
    pub captured_at: SystemTime,
    /// Full-page preview crop, clamped to this frame.
    pub crop: FrameCrop,
    rgb8: Vec<u8>,
    full_page_preview: PreviewImage,
    native_detail_preview: Result<PreviewImage, NativeDetailPreviewError>,
}

/// Model of a [`CapturedFrame`].
pub struct FrameView {
    pub role: CameraRole,
    pub width: u32,
    pub height: u32,
    pub captured_at: SystemTime,
    pub crop: FrameCrop,
    /// Packed sRGB bytes of the frame, row-major.
    pub pixels: Seq<u8>,
    /// The Full-page preview.
    pub full_page: PreviewView,
    /// The 100% preview, or the diagnostic that explains its absence.
    pub native_detail: Result<PreviewView, Seq<char>>,
}

impl View for CapturedFrame {
    type V = FrameView;

    closed spec fn view(&self) -> FrameView {
        FrameView {
            role: self.role,
            width: self.width,
            height: self.height,
            captured_at: self.captured_at,
            crop: self.crop,
            pixels: self.rgb8@,
            full_page: self.full_page_preview@,
            native_detail: match self.native_detail_preview {
                Ok(p) => Ok(p@),
                Err(e) => Err(e@),
            },
        }
    }
}

/// Whether `f` is the frame built from these parts: its bytes, its clamped
/// crop, and a Full-page preview, also offered as the 100% preview, cut from it.
pub open spec fn is_built_frame(
    f: FrameView,
    role: CameraRole,
    width: u32,
    height: u32,
    rgb8: Seq<u8>,
    captured_at: SystemTime,
    crop: FrameCrop,
) -> bool {
    &&& f.role == role
    &&& f.width == width
    &&& f.height == height
    &&& f.captured_at == captured_at
    &&& f.crop == crop
    &&& f.pixels == rgb8
    &&& f.full_page == (PreviewView {
        width: crop.width,
        height: crop.height,
        pixels: cropped_pixels(rgb8, width, crop),
    })
    &&& f.native_detail == Ok::<PreviewView, Seq<char>>(f.full_page)
}

impl CapturedFrame {
    /// Rotate packed sRGB pixels clockwise, then build an owned frame.
    ///
    /// Camera adapters use this constructor so unrotated pixels do not cross
    /// the role-adapter seam.
    pub fn from_unrotated_rgb8(
        role: CameraRole,
        width: u32,
        height: u32,
        rgb8: Vec<u8>,
        captured_at: SystemTime,
        rotation_degrees: u16,
        crop: CropGeometry,
    ) -> (r: Result<Self, FrameBuildError>)
        ensures
            ({
                let rw = rotated_width(width, height, rotation_degrees);
                let rh = rotated_height(width, height, rotation_degrees);
                let pixels = rotated_pixels(rgb8@, width, height, rotation_degrees);
                match unrotated_shape_error(width, height, rgb8@.len(), rotation_degrees) {
                    Some(e) => r == Err::<Self, FrameBuildError>(e),
                    None => match frame_shape_error(rw, rh, pixels.len(), crop) {
                        Some(e) => r == Err::<Self, FrameBuildError>(e),
                        None => match r {
                            Ok(f) => is_built_frame(
                                f@,
                                role,
                                rw,
                                rh,
                                pixels,
                                captured_at,
                                clamped_crop(crop, rw, rh),
                            ),
                            Err(e) => e == (FrameBuildError::FullPagePreviewAllocation {
                                width: clamped_crop(crop, rw, rh).width,
                                height: clamped_crop(crop, rw, rh).height,
                            }),
                        },
                    },
                }
            }),
    {
        let expected_len = match rgb8_len(width, height) {
            Ok(n) => n,
            Err(e) => {
                return Err(e);
            },
        };
        if rgb8.len() != expected_len {
            return Err(
                FrameBuildError::PixelLength {
                    width,
                    height,
                    expected: expected_len,
                    actual: rgb8.len(),
                },
            );
        }
        let ghost unrotated = rgb8@;
        let (rotated_w, rotated_h, rotated) = match rotate_rgb8(
            width,
            height,
            rgb8,
            rotation_degrees,
        ) {
            Ok(t) => t,
            Err(e) => {
                return Err(e);
            },
        };
        proof {
            assert(rgb8_size(rotated_w, rotated_h) == rgb8_size(width, height)) by (nonlinear_arith)
                requires
                    (rotated_w == width && rotated_h == height) || (rotated_w == height
                        && rotated_h == width),
            ;
        }
        Self::from_rgb8(role, rotated_w, rotated_h, rotated, captured_at, crop)
    }

    /// Build an owned post-rotation frame from packed sRGB pixels.
    pub fn from_rgb8(
        role: CameraRole,
        width: u32,
        height: u32,
        rgb8: Vec<u8>,
        captured_at: SystemTime,
        crop: CropGeometry,
    ) -> (r: Result<Self, FrameBuildError>)
        ensures
            match frame_shape_error(width, height, rgb8@.len(), crop) {
                Some(e) => r == Err::<Self, FrameBuildError>(e),
                None => match r {
                    Ok(f) => is_built_frame(
                        f@,
                        role,
                        width,
                        height,
                        rgb8@,
                        captured_at,
                        clamped_crop(crop, width, height),
                    ),
                    Err(e) => e == (FrameBuildError::FullPagePreviewAllocation {
                        width: clamped_crop(crop, width, height).width,
                        height: clamped_crop(crop, width, height).height,
                    }),
                },
            },
    {
        let expected_len = match rgb8_len(width, height) {
            Ok(n) => n,
            Err(e) => {
                return Err(e);
            },
        };
        if rgb8.len() != expected_len {
            return Err(
                FrameBuildError::PixelLength {
                    width,
                    height,
                    expected: expected_len,
                    actual: rgb8.len(),
                },
            );
        }
        let crop = match clamp_crop(crop, width, height) {
            Ok(c) => c,
            Err(e) => {
                return Err(e);
            },
        };
        proof {
            assert((crop.y + crop.height) * width * 3 <= rgb8@.len()) by (nonlinear_arith)
                requires
                    crop.y + crop.height <= height,
                    rgb8@.len() == width * height * 3,
            ;
        }
        let full_page_preview = match crop_preview(rgb8.as_slice(), width, crop) {
            Ok(p) => p,
            Err(e) => {
                return Err(e);
            },
        };
        let native = full_page_preview.duplicate();
        Ok(
            CapturedFrame {
                role,
                width,
                height,
                captured_at,
                crop,
                rgb8,
                full_page_preview,
                native_detail_preview: Ok(native),
            },
        )
    }

    /// Packed sRGB pixels in row-major order.
    pub fn rgb8(&self) -> (r: &[u8])
        ensures
            r@ == self@.pixels,
    {
        self.rgb8.as_slice()
    }

    /// Validated Full-page preview pixels.
    pub fn full_page_preview(&self) -> (r: &PreviewImage)
        ensures
            r@ == self@.full_page,
    {
        &self.full_page_preview
    }

    /// Optional native-resolution source for the centered 100% view.
    pub fn native_detail_preview(&self) -> (r: Result<&PreviewImage, &NativeDetailPreviewError>)
        ensures
            match r {
                Ok(p) => self@.native_detail == Ok::<PreviewView, Seq<char>>(p@),
                Err(e) => self@.native_detail == Err::<PreviewView, Seq<char>>(e@),
            },
    {
        match &self.native_detail_preview {
            Ok(p) => Ok(p),
            Err(e) => Err(e),
        }
    }

    /// Mark only the optional 100% preview unavailable.
    ///
    /// Adapters use this after an optional detail-processing failure. The
    /// archival frame and Full-page preview remain valid.
    pub fn without_native_detail_preview(self, summary: &str) -> (r: Self)
        ensures
            r@ == (FrameView { native_detail: Err::<PreviewView, Seq<char>>(summary@), ..self@ }),
    {
        let mut frame = self;
        frame.native_detail_preview = Err(NativeDetailPreviewError { summary: summary.to_owned() });
        frame
    }
}

impl Clone for CapturedFrame {
    /// An owned copy of the frame, its previews and its timestamp.
    fn clone(&self) -> (r: Self)
        ensures
            r@ == self@,
    {
        let native_detail_preview = match &self.native_detail_preview {
            Ok(p) => Ok(p.duplicate()),
            Err(e) => Err(NativeDetailPreviewError { summary: e.summary.clone() }),
        };
        let pixels = self.rgb8.clone();
        assert(pixels@ =~= self.rgb8@);
        CapturedFrame {
            role: self.role,
            width: self.width,
            height: self.height,
            captured_at: self.captured_at,
            crop: self.crop,
            rgb8: pixels,
            full_page_preview: self.full_page_preview.duplicate(),
            native_detail_preview,
        }
    }
}

/// A complete stationary acquisition step.
#[derive(Debug, PartialEq, Eq)]
pub struct CapturePair {
    /// Owned Left Captured frame.
    pub left: CapturedFrame,
    /// Owned Right Captured frame.
    pub right: CapturedFrame,
}

impl Clone for CapturePair {
    /// An owned copy of both frames.
    fn clone(&self) -> (r: Self)
        ensures
            r.left@ == self.left@,
            r.right@ == self.right@,
    {
        CapturePair { left: self.left.clone(), right: self.right.clone() }
    }
}

/// A role adapter that never exposes source MJPEG or unrotated pixels.
pub trait RoleCamera: 'static {
    /// Stable role assigned when this adapter was opened.
    fn role(&self) -> CameraRole;

    /// Acquire, decode, rotate, and validate one owned frame.
    fn capture(&mut self) -> Result<CapturedFrame, CameraCaptureError>;
}

/// One Camera-role acquisition failure.
#[derive(Clone, Debug, PartialEq, Eq)]
pub enum CameraCaptureError {
    /// The device could not return an encoded frame. One retry is allowed.
    Acquisition {
        /// Failed role.
        role: CameraRole,
        /// Device diagnostic.
        detail: String,
    },
    /// The returned MJPEG frame could not be decoded. One retry is allowed.
    Decode {
        /// Failed role.
        role: CameraRole,
        /// Decoder diagnostic.
        detail: String,
    },
    /// The live frame did not match the fixed Camera profile.
    Profile {
        /// Failed role.
        role: CameraRole,
        /// Mismatch diagnostic.
        detail: String,
    },
    /// Rotation or crop processing could not produce a valid frame.
    Geometry {
        /// Failed role.
        role: CameraRole,
        /// Geometry diagnostic.
        detail: String,
    },
}

/// The operator-facing text of a Camera failure.
pub open spec fn capture_error_message(e: CameraCaptureError) -> Seq<char> {
    match e {
        CameraCaptureError::Acquisition { role, detail } => role_label(role)
            + " Camera acquisition failed: "@ + detail@,
        CameraCaptureError::Decode { role, detail } => role_label(role)
            + " Camera decode failed: "@ + detail@,
        CameraCaptureError::Profile { role, detail } => role_label(role)
            + " Camera profile mismatch: "@ + detail@,
        CameraCaptureError::Geometry { role, detail } => role_label(role)
            + " Camera geometry failed: "@ + detail@,
    }
}

/// Whether a failure allows the one retry of its role.
pub open spec fn is_retryable_failure(e: CameraCaptureError) -> bool {
    e is Acquisition || e is Decode
}

impl CameraCaptureError {
    /// Construct a retryable acquisition failure.
    pub fn acquisition(role: CameraRole, detail: &str) -> (e: Self)
        ensures
            e matches CameraCaptureError::Acquisition { role: r, detail: d } && r == role && d@
                == detail@,
    {
        CameraCaptureError::Acquisition { role, detail: detail.to_owned() }
    }

    /// Construct a retryable decode failure.
    pub fn decode(role: CameraRole, detail: &str) -> (e: Self)
        ensures
            e matches CameraCaptureError::Decode { role: r, detail: d } && r == role && d@
                == detail@,
    {
        CameraCaptureError::Decode { role, detail: detail.to_owned() }
    }

    /// Whether this failure allows the one retry of its role.
    pub fn is_retryable(&self) -> (b: bool)
        ensures
            b == is_retryable_failure(*self),
    {
        match self {
            CameraCaptureError::Acquisition { .. } | CameraCaptureError::Decode { .. } => true,
            _ => false,
        }
    }

    /// The operator-facing text of the failure.
    pub fn message(&self) -> (s: String)
        ensures
            s@ == capture_error_message(*self),
    {
        let (role, what, detail) = match self {
            CameraCaptureError::Acquisition { role, detail } => (
                role,
                " Camera acquisition failed: ",
                detail,
            ),
            CameraCaptureError::Decode { role, detail } => (role, " Camera decode failed: ", detail),
            CameraCaptureError::Profile { role, detail } => (
                role,
                " Camera profile mismatch: ",
                detail,
            ),
            CameraCaptureError::Geometry { role, detail } => (
                role,
                " Camera geometry failed: ",
                detail,
            ),
        };
        let mut s = role.label().to_owned();
        s.append(what);
        s.append(detail.as_str());
        s
    }
}

/// Invalid Camera-role adapters supplied to a pair Machine.
#[derive(Clone, Copy, Debug, PartialEq, Eq, Structural)]
pub enum CameraPairSetupError {
    /// An adapter was placed in the wrong stable role.
    WrongRole {
        /// Required role for the slot.
        expected: CameraRole,
        /// Role reported by the adapter.
        actual: CameraRole,
    },
}

impl CameraPairSetupError {
    /// The operator-facing text of the failure.
    pub fn message(&self) -> (s: String)
        ensures
            s@ == (match *self {
                CameraPairSetupError::WrongRole { expected, actual } => "expected the "@
                    + role_label(expected) + " Camera adapter but received "@ + role_label(actual),
            }),
    {
        match self {
            CameraPairSetupError::WrongRole { expected, actual } => {
                let mut s = "expected the ".to_owned();
                s.append(expected.label());
                s.append(" Camera adapter but received ");
                s.append(actual.label());
                s
            },
        }
    }
}

/// A complete-pair acquisition failure.
#[derive(Clone, Debug, PartialEq, Eq)]
pub enum CapturePairError {
    /// The selected Machine adapter does not provide Camera capture.
    Unavailable,
    /// One role failed, including its permitted retry when applicable.
    Camera(CameraCaptureError),
    /// Both roles failed during the same stationary acquisition step.
    Both {
        /// Left Camera failure.
        left: CameraCaptureError,
        /// Right Camera failure.
        right: CameraCaptureError,
    },
}

/// The operator-facing text of a pair failure.
pub open spec fn pair_error_message(e: CapturePairError) -> Seq<char> {
    match e {
        CapturePairError::Unavailable => "complete Capture pair is unavailable"@,
        CapturePairError::Camera(c) => "complete Capture pair rejected: "@ + capture_error_message(
            c,
        ),
        CapturePairError::Both { left, right } => "complete Capture pair rejected: "@
            + capture_error_message(left) + "; "@ + capture_error_message(right),
    }
}

impl CapturePairError {
    /// The operator-facing text of the failure.
    pub fn message(&self) -> (s: String)
        ensures
            s@ == pair_error_message(*self),
    {
        match self {
            CapturePairError::Unavailable => "complete Capture pair is unavailable".to_owned(),
            CapturePairError::Camera(c) => {
                let mut s = "complete Capture pair rejected: ".to_owned();
                let m = c.message();
                s.append(m.as_str());
                s
            },
            CapturePairError::Both { left, right } => {
                let mut s = "complete Capture pair rejected: ".to_owned();
                let l = left.message();
                s.append(l.as_str());
                s.append("; ");
                let r = right.message();
                s.append(r.as_str());
                s
            },
        }
    }
}

/// The operator-facing text of a frame-building failure.
pub open spec fn frame_build_message(e: FrameBuildError) -> Seq<char> {
    match e {
        FrameBuildError::DimensionsOverflow { width, height } => decimal(width as nat) + "x"@
            + decimal(height as nat) + " frame dimensions overflow the pixel buffer size"@,
        FrameBuildError::PixelLength { width, height, expected, actual } => decimal(width as nat)
            + "x"@ + decimal(height as nat) + " RGB frame needs "@ + decimal(expected as nat)
            + " bytes but the adapter returned "@ + decimal(actual as nat),
        FrameBuildError::EmptyCrop { x, y, width, height, frame_width, frame_height } =>
            "crop at ("@ + decimal(x as nat) + ", "@ + decimal(y as nat) + ") with size "@
            + decimal(width as nat) + "x"@ + decimal(height as nat) + " is empty in a "@
            + decimal(frame_width as nat) + "x"@ + decimal(frame_height as nat) + " frame"@,
        FrameBuildError::UnsupportedRotation(r) => "rotation must be 0, 90, 180, or 270 degrees, got "@
            + decimal(r as nat),
        FrameBuildError::FullPagePreviewAllocation { width, height } => "cannot allocate "@
            + decimal(width as nat) + "x"@ + decimal(height as nat) + " Full-page preview"@,
    }
}

impl FrameBuildError {
    /// The operator-facing text of the failure.
    pub fn message(&self) -> (s: String)
        ensures
            s@ == frame_build_message(*self),
    {
        let mut s = String::new();
        match *self {
            FrameBuildError::DimensionsOverflow { width, height } => {
                push_decimal(&mut s, width as u64);
                s.append("x");
                push_decimal(&mut s, height as u64);
                s.append(" frame dimensions overflow the pixel buffer size");
            },
            FrameBuildError::PixelLength { width, height, expected, actual } => {
                push_decimal(&mut s, width as u64);
                s.append("x");
                push_decimal(&mut s, height as u64);
                s.append(" RGB frame needs ");
                push_decimal(&mut s, expected as u64);
                s.append(" bytes but the adapter returned ");
                push_decimal(&mut s, actual as u64);
            },
            FrameBuildError::EmptyCrop { x, y, width, height, frame_width, frame_height } => {
                s.append("crop at (");
                push_decimal(&mut s, x as u64);
                s.append(", ");
                push_decimal(&mut s, y as u64);
                s.append(") with size ");
                push_decimal(&mut s, width as u64);
                s.append("x");
                push_decimal(&mut s, height as u64);
                s.append(" is empty in a ");
                push_decimal(&mut s, frame_width as u64);
                s.append("x");
                push_decimal(&mut s, frame_height as u64);
                s.append(" frame");
            },
            FrameBuildError::UnsupportedRotation(r) => {
                s.append("rotation must be 0, 90, 180, or 270 degrees, got ");
                push_decimal(&mut s, r as u64);
            },
            FrameBuildError::FullPagePreviewAllocation { width, height } => {
                s.append("cannot allocate ");
                push_decimal(&mut s, width as u64);
                s.append("x");
                push_decimal(&mut s, height as u64);
                s.append(" Full-page preview");
            },
        }
        assert(s@ =~= frame_build_message(*self));
        s
    }
}

/// Accepts a frame only in the role it was requested for; any other frame
/// is a profile mismatch of the requested role.
pub fn check_frame_role(frame: CapturedFrame, expected: CameraRole) -> (r: Result<
    CapturedFrame,
    CameraCaptureError,
>)
    ensures
        frame@.role == expected ==> (r matches Ok(f) && f@ == frame@),
        frame@.role != expected ==> (r matches Err(CameraCaptureError::Profile { role, detail })
            && role == expected && detail@ == "adapter returned a "@ + role_label(frame@.role)
            + " frame"@),
{
    if frame.role != expected {
        let mut detail = "adapter returned a ".to_owned();
        detail.append(frame.role.label());
        detail.append(" frame");
        return Err(CameraCaptureError::Profile { role: expected, detail });
    }
    Ok(frame)
}

/// Where the first attempt at both roles leads.
pub enum PairAttempt {
    /// Both roles returned a frame.
    Complete(CapturePair),
    /// Left succeeded and Right failed retryably; Right gets its one retry.
    RetryRight(CapturedFrame),
    /// Right succeeded and Left failed retryably; Left gets its one retry.
    RetryLeft(CapturedFrame),
    /// The pair is rejected without a retry.
    Rejected(CapturePairError),
}

/// Decides a stationary step from the first result of each role: a complete
/// pair, one retry of the single role that failed retryably, or a rejection.
pub fn settle_first_attempt(
    left: Result<CapturedFrame, CameraCaptureError>,
    right: Result<CapturedFrame, CameraCaptureError>,
) -> (a: PairAttempt)
    ensures
        match (left, right) {
            (Ok(l), Ok(r)) => a matches PairAttempt::Complete(p) && p.left@ == l@ && p.right@
                == r@,
            (Ok(l), Err(e)) => if is_retryable_failure(e) {
                a matches PairAttempt::RetryRight(k) && k@ == l@
            } else {
                a == PairAttempt::Rejected(CapturePairError::Camera(e))
            },
            (Err(e), Ok(r)) => if is_retryable_failure(e) {
                a matches PairAttempt::RetryLeft(k) && k@ == r@
            } else {
                a == PairAttempt::Rejected(CapturePairError::Camera(e))
            },
            (Err(le), Err(re)) => a == PairAttempt::Rejected(
                CapturePairError::Both { left: le, right: re },
            ),
        },
{
    match (left, right) {
        (Ok(l), Ok(r)) => PairAttempt::Complete(CapturePair { left: l, right: r }),
        (Ok(l), Err(e)) => if e.is_retryable() {
            PairAttempt::RetryRight(l)
        } else {
            PairAttempt::Rejected(CapturePairError::Camera(e))
        },
        (Err(e), Ok(r)) => if e.is_retryable() {
            PairAttempt::RetryLeft(r)
        } else {
            PairAttempt::Rejected(CapturePairError::Camera(e))
        },
        (Err(le), Err(re)) => PairAttempt::Rejected(CapturePairError::Both { left: le, right: re }),
    }
}

/// Completes a pair from the frame kept in one role and the retried result
/// of the other; a failed retry rejects the pair with that failure.
pub fn settle_retry(kept: CapturedFrame, kept_is_left: bool, retried: Result<
    CapturedFrame,
    CameraCaptureError,
>) -> (r: Result<CapturePair, CapturePairError>)
    ensures
        match retried {
            Ok(f) => r matches Ok(p) && (if kept_is_left {
                p.left@ == kept@ && p.right@ == f@
            } else {
                p.left@ == f@ && p.right@ == kept@
            }),
            Err(e) => r == Err::<CapturePair, CapturePairError>(CapturePairError::Camera(e)),
        },
{
    match retried {
        Ok(f) => if kept_is_left {
            Ok(CapturePair { left: kept, right: f })
        } else {
            Ok(CapturePair { left: f, right: kept })
        },
        Err(e) => Err(CapturePairError::Camera(e)),
    }
}

/// Acquires one frame from a role adapter and accepts it only in the
/// expected role.
pub fn capture_role(camera: &mut Box<dyn RoleCamera>, expected: CameraRole) -> (r: Result<
    CapturedFrame,
    CameraCaptureError,
>)
    ensures
        r matches Ok(f) ==> f@.role == expected,
{
    match camera.capture() {
        Ok(frame) => check_frame_role(frame, expected),
        Err(e) => Err(e),
    }
}

/// The roles an adapter pair must report, in order: Left, then Right.
pub fn check_pair_roles(left: CameraRole, right: CameraRole) -> (r: Result<(), CameraPairSetupError>)
    ensures
        left != CameraRole::Left ==> r == Err::<(), CameraPairSetupError>(
            CameraPairSetupError::WrongRole { expected: CameraRole::Left, actual: left },
        ),
        left == CameraRole::Left && right != CameraRole::Right ==> r == Err::<
            (),
            CameraPairSetupError,
        >(CameraPairSetupError::WrongRole { expected: CameraRole::Right, actual: right }),
        left == CameraRole::Left && right == CameraRole::Right ==> r == Ok::<
            (),
            CameraPairSetupError,
        >(()),
{
    if left != CameraRole::Left {
        return Err(CameraPairSetupError::WrongRole { expected: CameraRole::Left, actual: left });
    }
    if right != CameraRole::Right {
        return Err(CameraPairSetupError::WrongRole { expected: CameraRole::Right, actual: right });
    }
    Ok(())
}

/// What the adapters returned during one pair acquisition, after the role
/// check: the first result of each role and, where one role failed
/// retryably and the other succeeded, the result of that role's retry.
pub struct CaptureAttempts {
    /// The first Left result.
    pub left: Result<CapturedFrame, CameraCaptureError>,
    /// The first Right result.
    pub right: Result<CapturedFrame, CameraCaptureError>,
    /// The result of the one retry, where there was one.
    pub retried: Option<Result<CapturedFrame, CameraCaptureError>>,
}

/// Whether a role-checked result in `role` came back as a frame of that role.
pub open spec fn in_role(a: Result<CapturedFrame, CameraCaptureError>, role: CameraRole) -> bool {
    a matches Ok(f) ==> f@.role == role
}

/// How an acquisition settles its attempts: both frames make the pair; a
/// single retryable failure is retried once and the retry decides; any other
/// failure rejects the pair without a retry.
pub open spec fn settles(a: CaptureAttempts, r: Result<CapturePair, CapturePairError>) -> bool {
    &&& in_role(a.left, CameraRole::Left)
    &&& in_role(a.right, CameraRole::Right)
    &&& match (a.left, a.right) {
        (Ok(l), Ok(rt)) => a.retried is None && (r matches Ok(p) && p.left@ == l@ && p.right@
            == rt@),
        (Ok(l), Err(e)) => if is_retryable_failure(e) {
            a.retried matches Some(t) && in_role(t, CameraRole::Right) && match t {
                Ok(f) => r matches Ok(p) && p.left@ == l@ && p.right@ == f@,
                Err(e2) => r == Err::<CapturePair, CapturePairError>(CapturePairError::Camera(e2)),
            }
        } else {
            a.retried is None && r == Err::<CapturePair, CapturePairError>(
                CapturePairError::Camera(e),
            )
        },
        (Err(e), Ok(rt)) => if is_retryable_failure(e) {
            a.retried matches Some(t) && in_role(t, CameraRole::Left) && match t {
                Ok(f) => r matches Ok(p) && p.left@ == f@ && p.right@ == rt@,
                Err(e2) => r == Err::<CapturePair, CapturePairError>(CapturePairError::Camera(e2)),
            }
        } else {
            a.retried is None && r == Err::<CapturePair, CapturePairError>(
                CapturePairError::Camera(e),
            )
        },
        (Err(le), Err(re)) => a.retried is None && r == Err::<CapturePair, CapturePairError>(
            CapturePairError::Both { left: le, right: re },
        ),
    }
}

/// Controller-owned adapters for the two stable Camera roles.
pub struct CapturePairMachine {
    left: Box<dyn RoleCamera>,
    right: Box<dyn RoleCamera>,
    /// The attempts of the latest acquisition.
    attempts: Ghost<CaptureAttempts>,
}

impl CapturePairMachine {
    /// Build a pair Machine from explicitly assigned role adapters: it
    /// succeeds when they report the Left and Right roles, and else names the
    /// first role that does not match. The adapters report their roles, so
    /// what is stated is what holds whatever they report: a refusal names an
    /// expected role and a different reported one; [`check_pair_roles`]
    /// decides exactly.
    pub fn new(left: Box<dyn RoleCamera>, right: Box<dyn RoleCamera>) -> (r: Result<
        Self,
        CameraPairSetupError,
    >)
        ensures
            r matches Err(CameraPairSetupError::WrongRole { expected, actual }) ==> expected
                != actual,
    {
        let left_role = left.role();
        let right_role = right.role();
        match check_pair_roles(left_role, right_role) {
            Ok(()) => Ok(CapturePairMachine { left, right, attempts: Ghost(arbitrary()) }),
            Err(e) => Err(e),
        }
    }

    /// The attempts of the latest acquisition.
    pub closed spec fn last_attempts(&self) -> CaptureAttempts {
        self.attempts@
    }

    /// Acquire one complete pair: each role once, the single role that failed
    /// retryably once more, and never a frame in the wrong role. The adapters
    /// decide what each attempt returns; the result is the settlement of
    /// those attempts, so a pair is never reported unavailable.
    pub fn capture_pair(&mut self) -> (r: Result<CapturePair, CapturePairError>)
        ensures
            settles(final(self).last_attempts(), r),
            r matches Ok(p) ==> p.left@.role == CameraRole::Left && p.right@.role
                == CameraRole::Right,
            !(r matches Err(CapturePairError::Unavailable)),
    {
        let left = capture_role(&mut self.left, CameraRole::Left);
        let right = capture_role(&mut self.right, CameraRole::Right);
        let ghost gl = left;
        let ghost gr = right;
        match settle_first_attempt(left, right) {
            PairAttempt::Complete(pair) => {
                self.attempts = Ghost(CaptureAttempts { left: gl, right: gr, retried: None });
                Ok(pair)
            },
            PairAttempt::Rejected(e) => {
                self.attempts = Ghost(CaptureAttempts { left: gl, right: gr, retried: None });
                Err(e)
            },
            PairAttempt::RetryRight(kept) => {
                let retried = capture_role(&mut self.right, CameraRole::Right);
                let ghost gt = retried;
                self.attempts = Ghost(CaptureAttempts { left: gl, right: gr, retried: Some(gt) });
                settle_retry(kept, true, retried)
            },
            PairAttempt::RetryLeft(kept) => {
                let retried = capture_role(&mut self.left, CameraRole::Left);
                let ghost gt = retried;
                self.attempts = Ghost(CaptureAttempts { left: gl, right: gr, retried: Some(gt) });
                settle_retry(kept, false, retried)
            },
        }
    }
}

/// An acquisition or decode failure of one role is retried, whatever the
/// role, when the other role succeeded: that role is captured once more and
/// a successful retry completes the pair with the other role's frame. A
/// profile or geometry failure is never retried and rejects the pair.
pub proof fn law_acquisition_and_decode_failures_are_retried(
    a: CaptureAttempts,
    r: Result<CapturePair, CapturePairError>,
)
    requires
        settles(a, r),
    ensures
        (a.left matches Err(e) && (e is Acquisition || e is Decode) && a.right is Ok) ==> (
        a.retried matches Some(t) && (t matches Ok(f) ==> (r matches Ok(p) && p.left@ == f@
            && p.right@ == a.right->Ok_0@))),
        (a.right matches Err(e) && (e is Acquisition || e is Decode) && a.left is Ok) ==> (
        a.retried matches Some(t) && (t matches Ok(f) ==> (r matches Ok(p) && p.right@ == f@
            && p.left@ == a.left->Ok_0@))),
        (a.left matches Err(e) && (e is Profile || e is Geometry) && a.right is Ok) ==> (a.retried
            is None && r == Err::<CapturePair, CapturePairError>(
            CapturePairError::Camera(a.left->Err_0),
        )),
        (a.right matches Err(e) && (e is Profile || e is Geometry) && a.left is Ok) ==> (a.retried
            is None && r == Err::<CapturePair, CapturePairError>(
            CapturePairError::Camera(a.right->Err_0),
        )),
{
}

/// Rotation moves whole pixels: every channel of the rotated pixel at
/// `(x, y)` is the same channel of source pixel [`rotation_source`] of it,
/// and the rotated frame keeps the byte count.
pub proof fn law_rotation_moves_whole_pixels(
    rgb8: Seq<u8>,
    width: u32,
    height: u32,
    rotation: u16,
    x: int,
    y: int,
    c: int,
)
    requires
        is_quarter_turn(rotation),
        rgb8.len() == rgb8_size(width, height),
        0 <= x < rotated_width(width, height, rotation),
        0 <= y < rotated_height(width, height, rotation),
        0 <= c < 3,
    ensures
        rotated_pixels(rgb8, width, height, rotation).len() == rgb8.len(),
        ({
            let s = rotation_source(width as int, height as int, rotation, x, y);
            &&& 0 <= s.0 < width
            &&& 0 <= s.1 < height
            &&& rotated_pixels(rgb8, width, height, rotation)[(y * rotated_width(
                width,
                height,
                rotation,
            ) + x) * 3 + c] == rgb8[(s.1 * width + s.0) * 3 + c]
        }),
{
    let row = rotated_width(width, height, rotation) as int;
    let rows = rotated_height(width, height, rotation) as int;
    assert(row * rows == width * height) by (nonlinear_arith)
        requires
            (row == height && rows == width) || (row == width && rows == height),
    ;
    lemma_pixel_index_bound(x, y, c, row, rows);
    let p = y * row + x;
    let k = p * 3 + c;
    lemma_fundamental_div_mod_converse(k, 3, p, c);
    lemma_fundamental_div_mod_converse(p, row, y, x);
    assert(k < rgb8.len());
}

/// The quarter turn that undoes a clockwise `rotation`.
pub open spec fn inverse_rotation(rotation: u16) -> u16 {
    if rotation == 90 {
        270
    } else if rotation == 270 {
        90
    } else {
        rotation
    }
}

/// The source byte of a rotated byte given by its pixel and channel.
proof fn lemma_source_byte_of_pixel(width: u32, height: u32, rotation: u16, x: int, y: int, c: int)
    requires
        is_quarter_turn(rotation),
        0 <= x < rotated_width(width, height, rotation),
        0 <= y < rotated_height(width, height, rotation),
        0 <= c < 3,
    ensures
        ({
            let s = rotation_source(width as int, height as int, rotation, x, y);
            &&& 0 <= s.0 < width
            &&& 0 <= s.1 < height
            &&& 0 <= (y * rotated_width(width, height, rotation) + x) * 3 + c < rgb8_size(
                width,
                height,
            )
            &&& rotated_source_byte(
                width as int,
                height as int,
                rotation,
                (y * rotated_width(width, height, rotation) + x) * 3 + c,
            ) == (s.1 * width + s.0) * 3 + c
        }),
{
    let row = rotated_width(width, height, rotation) as int;
    let rows = rotated_height(width, height, rotation) as int;
    assert(row * rows == width * height) by (nonlinear_arith)
        requires
            (row == height && rows == width) || (row == width && rows == height),
    ;
    lemma_pixel_index_bound(x, y, c, row, rows);
    let p = y * row + x;
    let k = p * 3 + c;
    lemma_fundamental_div_mod_converse(k, 3, p, c);
    lemma_fundamental_div_mod_converse(p, row, y, x);
}

/// Rotating by 0 changes nothing, and rotating back by the inverse quarter
/// turn restores the frame: 90 then 270, 270 then 90, and 180 twice each
/// return the original bytes.
pub proof fn law_rotation_round_trip(rgb8: Seq<u8>, width: u32, height: u32, rotation: u16)
    requires
        is_quarter_turn(rotation),
        rgb8.len() == rgb8_size(width, height),
    ensures
        rotated_pixels(rgb8, width, height, 0) == rgb8,
        rotated_pixels(
            rotated_pixels(rgb8, width, height, rotation),
            rotated_width(width, height, rotation),
            rotated_height(width, height, rotation),
            inverse_rotation(rotation),
        ) == rgb8,
{
    lemma_unrotated_is_identity(rgb8, width, height);
    let q = rotated_pixels(rgb8, width, height, rotation);
    let rw = rotated_width(width, height, rotation);
    let rh = rotated_height(width, height, rotation);
    let inv = inverse_rotation(rotation);
    let back = rotated_pixels(q, rw, rh, inv);
    assert(rotated_width(rw, rh, inv) == width && rotated_height(rw, rh, inv) == height);
    assert forall|k: int| 0 <= k < rgb8.len() implies back[k] == rgb8[k] by {
        assert(width > 0) by (nonlinear_arith)
            requires
                0 <= k < width * height * 3,
        ;
        let p = k / 3;
        let c = k % 3;
        let x = p % (width as int);
        let y = p / (width as int);
        lemma_row_of(p, width as int, height as int);
        assert(k == (y * width + x) * 3 + c) by (nonlinear_arith)
            requires
                p == k / 3,
                c == k % 3,
                x == p % (width as int),
                y == p / (width as int),
                width > 0,
        ;
        lemma_source_byte_of_pixel(rw, rh, inv, x, y, c);
        let s = rotation_source(rw as int, rh as int, inv, x, y);
        let j = (s.1 * rw + s.0) * 3 + c;
        lemma_source_byte_of_pixel(width, height, rotation, s.0, s.1, c);
        let t = rotation_source(width as int, height as int, rotation, s.0, s.1);
        assert(t == (x, y));
        assert(q.len() == rgb8.len());
        assert(back[k] == q[j]);
        assert(q[j] == rgb8[(t.1 * width + t.0) * 3 + c]);
    }
    assert(back =~= rgb8);
}

/// A clamped crop lies inside the frame, is not empty, and keeps the
/// commissioned origin; an empty crop is refused.
pub proof fn law_clamped_crop_fits_the_frame(crop: CropGeometry, frame_width: u32, frame_height: u32)
    ensures
        match spec_clamp_crop(crop, frame_width, frame_height) {
            Ok(c) => c.x == crop.x && c.y == crop.y && 0 < c.width <= crop.width && 0 < c.height
                <= crop.height && c.x + c.width <= frame_width && c.y + c.height <= frame_height,
            Err(_) => crop.x >= frame_width || crop.y >= frame_height || crop.width == 0
                || crop.height == 0,
        },
{
}

} // verus!
