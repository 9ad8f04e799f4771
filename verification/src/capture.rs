//! Capturing a display: which one, in which size, and what counts as a picture of it.

use vstd::prelude::*;

use crate::capture_surface::DisplaySnapshot;
use crate::scale::{
    finite_and_positive, is_finite_and_positive, scale_length, scaled_length, scales_to_no_number,
};
use crate::screen_stream::{unpremultiplied_byte, unpremultiply};
use crate::text::{concat, contains_ignoring_case, decimal, has_ignoring_case, push_decimal};

verus! {

/// The largest width or height of a picture, in pixels.
pub const MAX_CAPTURE_DIMENSION_PX: u32 = 8_192;

/// How long a capture may take, in nanoseconds.
pub const CAPTURE_DEADLINE: u128 = 500_000_000;

/// Why there is no picture.
pub enum CaptureError {
    PermissionDenied,
    CaptureFailed(String),
    NoDisplay,
    TooLarge { width_px: u32, height_px: u32, max_dimension_px: u32 },
}

impl CaptureError {
    /// The message shown to the user.
    pub open spec fn message(&self) -> Seq<char> {
        match self {
            CaptureError::PermissionDenied => "screen recording permission was denied"@,
            CaptureError::CaptureFailed(reason) => "screen capture failed: "@ + reason@,
            CaptureError::NoDisplay => "no active display is available"@,
            CaptureError::TooLarge { width_px, height_px, max_dimension_px } =>
                "captured image is too large ("@ + decimal(*width_px as nat) + "x"@ + decimal(
                *height_px as nat,
            ) + "); maximum dimension is "@ + decimal(*max_dimension_px as nat) + "px"@,
        }
    }

    /// The message shown to the user.
    pub fn to_message(&self) -> (message: String)
        ensures
            message@ == self.message(),
    {
        match self {
            CaptureError::PermissionDenied => "screen recording permission was denied".to_owned(),
            CaptureError::CaptureFailed(reason) =>
                concat("screen capture failed: ", reason.as_str()),
            CaptureError::NoDisplay => "no active display is available".to_owned(),
            CaptureError::TooLarge { width_px, height_px, max_dimension_px } => {
                let mut message = "captured image is too large (".to_owned();
                push_decimal(&mut message, *width_px as u64);
                message.append("x");
                push_decimal(&mut message, *height_px as u64);
                message.append("); maximum dimension is ");
                push_decimal(&mut message, *max_dimension_px as u64);
                message.append("px");
                message
            },
        }
    }
}

/// Whether `result` failed for the reason `reason`.
pub open spec fn failed_with<T>(result: Result<T, CaptureError>, reason: Seq<char>) -> bool {
    &&& result matches Err(error)
    &&& error matches CaptureError::CaptureFailed(text)
    &&& text@ == reason
}

/// What a capture shows beside the display itself.
#[derive(Clone, Copy, PartialEq, Eq, Structural)]
pub struct CaptureOptions {
    pub include_cursor: bool,
}

impl Default for CaptureOptions {
    fn default() -> (options: Self)
        ensures
            options == (CaptureOptions { include_cursor: false }),
    {
        CaptureOptions { include_cursor: false }
    }
}

/// Whether a picture may have a size.
pub open spec fn allowed_size(width_px: u32, height_px: u32) -> bool {
    0 < width_px <= MAX_CAPTURE_DIMENSION_PX && 0 < height_px <= MAX_CAPTURE_DIMENSION_PX
}

/// Whether `result` is what checking a size gives.
pub open spec fn checks_size<T>(
    result: Result<T, CaptureError>,
    width_px: u32,
    height_px: u32,
) -> bool {
    if width_px == 0 || height_px == 0 {
        failed_with(result, "captured image dimensions must be non-zero"@)
    } else {
        result == Err::<T, CaptureError>(
            CaptureError::TooLarge {
                width_px,
                height_px,
                max_dimension_px: MAX_CAPTURE_DIMENSION_PX,
            },
        )
    }
}

/// Checks that a picture may have a size: width, then height.
pub fn validate_pixel_dimensions(pixel_size: [u32; 2]) -> (checked: Result<(), CaptureError>)
    ensures
        if allowed_size(pixel_size@[0], pixel_size@[1]) {
            checked is Ok
        } else {
            checks_size(checked, pixel_size@[0], pixel_size@[1])
        },
{
    let width_px: u32 = pixel_size[0];
    let height_px: u32 = pixel_size[1];
    if width_px == 0 || height_px == 0 {
        return Err(
            CaptureError::CaptureFailed("captured image dimensions must be non-zero".to_owned()),
        );
    }
    if width_px > MAX_CAPTURE_DIMENSION_PX || height_px > MAX_CAPTURE_DIMENSION_PX {
        return Err(
            CaptureError::TooLarge {
                width_px,
                height_px,
                max_dimension_px: MAX_CAPTURE_DIMENSION_PX,
            },
        );
    }
    Ok(())
}

/// Checks that a scale factor is a finite number above zero.
pub fn validate_scale_factor(scale_factor: u32) -> (checked: Result<(), CaptureError>)
    ensures
        if finite_and_positive(scale_factor) {
            checked is Ok
        } else {
            failed_with(checked, "display scale factor must be finite and positive"@)
        },
{
    if is_finite_and_positive(scale_factor) {
        Ok(())
    } else {
        Err(
            CaptureError::CaptureFailed(
                "display scale factor must be finite and positive".to_owned(),
            ),
        )
    }
}

/// A length in a message about a picture that is too large.
pub open spec fn reported_length(length: u32, scale: u32) -> u32 {
    if scales_to_no_number(length, scale) {
        u32::MAX
    } else {
        scaled_length(length, scale)
    }
}

/// The size in pixels of a display of a size in points with a scale factor: width, then
/// height.
pub fn expected_capture_pixel_size(
    logical_width: u32,
    logical_height: u32,
    scale_factor: u32,
) -> (size: Result<[u32; 2], CaptureError>)
    ensures
        ({
            let width_px = scaled_length(logical_width, scale_factor);
            let height_px = scaled_length(logical_height, scale_factor);
            if allowed_size(width_px, height_px) {
                size matches Ok(size) && size@ == seq![width_px, height_px]
            } else if width_px > MAX_CAPTURE_DIMENSION_PX || height_px > MAX_CAPTURE_DIMENSION_PX {
                size == Err::<[u32; 2], CaptureError>(
                    CaptureError::TooLarge {
                        width_px: reported_length(logical_width, scale_factor),
                        height_px: reported_length(logical_height, scale_factor),
                        max_dimension_px: MAX_CAPTURE_DIMENSION_PX,
                    },
                )
            } else {
                failed_with(size, "captured image dimensions must be non-zero"@)
            }
        }),
{
    let width_px: u32 = scale_length(logical_width, scale_factor);
    let height_px: u32 = scale_length(logical_height, scale_factor);
    if width_px > MAX_CAPTURE_DIMENSION_PX || height_px > MAX_CAPTURE_DIMENSION_PX {
        let infinite = (scale_factor / 0x80_0000) % 0x100 == 0xff;
        let reported_width: u32 = if infinite && logical_width == 0 {
            u32::MAX
        } else {
            width_px
        };
        let reported_height: u32 = if infinite && logical_height == 0 {
            u32::MAX
        } else {
            height_px
        };
        return Err(
            CaptureError::TooLarge {
                width_px: reported_width,
                height_px: reported_height,
                max_dimension_px: MAX_CAPTURE_DIMENSION_PX,
            },
        );
    }
    let pixel_size: [u32; 2] = [width_px, height_px];
    assert(pixel_size@ =~= seq![width_px, height_px]);
    match validate_pixel_dimensions(pixel_size) {
        Ok(()) => Ok(pixel_size),
        Err(error) => Err(error),
    }
}

/// The error that a message of the capture backend stands for.
pub open spec fn backend_error_is(error: CaptureError, message: Seq<char>) -> bool {
    if contains_ignoring_case(message, "permission"@) {
        error is PermissionDenied
    } else {
        error matches CaptureError::CaptureFailed(text) && text@ == message
    }
}

/// The error that a message of the capture backend stands for.
pub fn map_xcap_error(message: String) -> (error: CaptureError)
    ensures
        backend_error_is(error, message@),
{
    if has_ignoring_case(message.as_str(), "permission") {
        CaptureError::PermissionDenied
    } else {
        CaptureError::CaptureFailed(message)
    }
}

/// What is done about the permission to record the screen.
pub enum PermissionStep {
    /// Ask the system, which may ask the user.
    Ask,
    /// Nothing more: this is the answer.
    Answered(Result<(), CaptureError>),
}

/// One step in finding out whether the screen may be recorded, given whether access is
/// granted already and what the system answered where it was asked. It is asked exactly
/// where access is not granted yet, and each time anew: nothing is remembered of an earlier
/// answer.
pub fn request_screen_recording_permission(granted: bool, answer: Option<bool>) -> (step:
    PermissionStep)
    ensures
        step is Ask <==> !granted && answer is None,
        step matches PermissionStep::Answered(allowed) ==> if granted || answer == Some(true) {
            allowed is Ok
        } else {
            allowed matches Err(CaptureError::PermissionDenied)
        },
{
    if granted {
        return PermissionStep::Answered(Ok(()));
    }
    match answer {
        None => PermissionStep::Ask,
        Some(true) => PermissionStep::Answered(Ok(())),
        Some(false) => PermissionStep::Answered(Err(CaptureError::PermissionDenied)),
    }
}

/// Whether a monitor says that it is the primary one; one that cannot tell is not.
pub open spec fn says_primary(monitor: Option<bool>) -> bool {
    monitor == Some(true)
}

/// Whether `index` is the primary monitor: the first that says so, or else the first.
pub open spec fn is_primary_index(monitors: Seq<Option<bool>>, index: int) -> bool {
    &&& 0 <= index < monitors.len()
    &&& forall|i: int| 0 <= i < index ==> !says_primary(#[trigger] monitors[i])
    &&& says_primary(monitors[index]) || (index == 0 && forall|i: int|
        0 <= i < monitors.len() ==> !says_primary(#[trigger] monitors[i]))
}

/// The primary monitor, given what each of them says of itself.
pub fn primary_monitor(monitors: Result<Vec<Option<bool>>, String>) -> (index: Result<
    usize,
    CaptureError,
>)
    ensures
        match monitors {
            Err(message) => index matches Err(error) && backend_error_is(error, message@),
            Ok(monitors) => if monitors@.len() == 0 {
                index matches Err(CaptureError::NoDisplay)
            } else {
                index matches Ok(index) && is_primary_index(monitors@, index as int)
            },
        },
{
    let flags = match monitors {
        Ok(flags) => flags,
        Err(message) => {
            return Err(map_xcap_error(message));
        },
    };
    if flags.len() == 0 {
        return Err(CaptureError::NoDisplay);
    }
    for index in 0..flags.len()
        invariant
            monitors == Ok::<Vec<Option<bool>>, String>(flags),
            forall|i: int| 0 <= i < index ==> !says_primary(#[trigger] flags@[i]),
            flags@.len() > 0,
    {
        if let Some(primary) = flags[index] {
            if primary {
                return Ok(index);
            }
        }
    }
    Ok(0)
}

/// The monitor to capture: the one under the cursor, where there is one, or else the
/// primary one. Without permission there is none.
pub fn monitor_under_cursor(
    permission: Result<(), CaptureError>,
    under_cursor: Option<usize>,
    monitors: Result<Vec<Option<bool>>, String>,
) -> (index: Result<usize, CaptureError>)
    ensures
        match permission {
            Err(error) => index == Err::<usize, CaptureError>(error),
            Ok(_) => match under_cursor {
                Some(found) => index == Ok::<usize, CaptureError>(found),
                None => match monitors {
                    Err(message) => index matches Err(error) && backend_error_is(error, message@),
                    Ok(monitors) => if monitors@.len() == 0 {
                        index matches Err(CaptureError::NoDisplay)
                    } else {
                        index matches Ok(index) && is_primary_index(monitors@, index as int)
                    },
                },
            },
        },
{
    match permission {
        Err(error) => {
            return Err(error);
        },
        Ok(()) => {},
    }
    match under_cursor {
        Some(found) => Ok(found),
        None => primary_monitor(monitors),
    }
}

/// The size in pixels that a capture of a display has to have, or why it cannot be taken.
pub open spec fn planned_size(display: DisplaySnapshot, size: Result<[u32; 2], CaptureError>) -> bool {
    let width = display.bounds_global@[2];
    let height = display.bounds_global@[3];
    if width < 0 {
        failed_with(size, "display width does not fit capture dimensions"@)
    } else if height < 0 {
        failed_with(size, "display height does not fit capture dimensions"@)
    } else if !allowed_size(width as u32, height as u32) {
        checks_size(size, width as u32, height as u32)
    } else if !finite_and_positive(display.scale_factor) {
        failed_with(size, "display scale factor must be finite and positive"@)
    } else {
        let width_px = scaled_length(width as u32, display.scale_factor);
        let height_px = scaled_length(height as u32, display.scale_factor);
        if allowed_size(width_px, height_px) {
            size matches Ok(size) && size@ == seq![width_px, height_px]
        } else if width_px > MAX_CAPTURE_DIMENSION_PX || height_px > MAX_CAPTURE_DIMENSION_PX {
            size == Err::<[u32; 2], CaptureError>(
                CaptureError::TooLarge {
                    width_px,
                    height_px,
                    max_dimension_px: MAX_CAPTURE_DIMENSION_PX,
                },
            )
        } else {
            failed_with(size, "captured image dimensions must be non-zero"@)
        }
    }
}

/// The size in pixels that a capture of a display has to have: its size in points and its
/// scale factor are checked first.
pub fn planned_pixel_size(display: DisplaySnapshot) -> (size: Result<[u32; 2], CaptureError>)
    ensures
        planned_size(display, size),
{
    let width: i32 = display.bounds_global[2];
    let height: i32 = display.bounds_global[3];
    if width < 0 {
        return Err(
            CaptureError::CaptureFailed("display width does not fit capture dimensions".to_owned()),
        );
    }
    if height < 0 {
        return Err(
            CaptureError::CaptureFailed(
                "display height does not fit capture dimensions".to_owned(),
            ),
        );
    }
    let logical_width: u32 = width as u32;
    let logical_height: u32 = height as u32;
    match validate_pixel_dimensions([logical_width, logical_height]) {
        Ok(()) => {},
        Err(error) => {
            return Err(error);
        },
    }
    match validate_scale_factor(display.scale_factor) {
        Ok(()) => {},
        Err(error) => {
            return Err(error);
        },
    }
    expected_capture_pixel_size(logical_width, logical_height, display.scale_factor)
}

/// A picture as the system holds it: its size and its RGBA bytes, row by row, and whether
/// the colours have alpha multiplied into them.
pub struct NativeCaptureImage {
    pub pixel_size: [u32; 2],
    pub pixels: Vec<u8>,
    pub premultiplied: bool,
}

impl NativeCaptureImage {
    /// A picture, where it may have its size.
    pub fn from_rgba(pixel_size: [u32; 2], pixels: Vec<u8>) -> (image: Result<Self, CaptureError>)
        ensures
            if allowed_size(pixel_size@[0], pixel_size@[1]) {
                image == Ok::<Self, CaptureError>(
                    NativeCaptureImage { pixel_size, pixels, premultiplied: false },
                )
            } else {
                checks_size(image, pixel_size@[0], pixel_size@[1])
            },
    {
        match validate_pixel_dimensions(pixel_size) {
            Ok(()) => Ok(NativeCaptureImage { pixel_size, pixels, premultiplied: false }),
            Err(error) => Err(error),
        }
    }

    /// A picture that was drawn into a bitmap whose colours have alpha multiplied into
    /// them, where it may have its size.
    pub fn from_cg_image(width: usize, height: usize, drawn: Vec<u8>) -> (image: Result<
        Self,
        CaptureError,
    >)
        ensures
            if width > u32::MAX {
                failed_with(image, "captured image width is too large"@)
            } else if height > u32::MAX {
                failed_with(image, "captured image height is too large"@)
            } else if allowed_size(width as u32, height as u32) {
                &&& image matches Ok(image)
                &&& image.pixel_size@ == seq![width as u32, height as u32]
                &&& image.pixels == drawn
                &&& image.premultiplied
            } else {
                checks_size(image, width as u32, height as u32)
            },
    {
        let limit: u32 = u32::MAX;
        if width > limit as usize {
            return Err(
                CaptureError::CaptureFailed("captured image width is too large".to_owned()),
            );
        }
        if height > limit as usize {
            return Err(
                CaptureError::CaptureFailed("captured image height is too large".to_owned()),
            );
        }
        let pixel_size: [u32; 2] = [width as u32, height as u32];
        match validate_pixel_dimensions(pixel_size) {
            Ok(()) => {
                assert(pixel_size@ =~= seq![width as u32, height as u32]);
                Ok(NativeCaptureImage { pixel_size, pixels: drawn, premultiplied: true })
            },
            Err(error) => Err(error),
        }
    }

    /// The size of the picture: width, then height.
    pub fn pixel_size(&self) -> (size: [u32; 2])
        ensures
            size == self.pixel_size,
    {
        self.pixel_size
    }

    /// The byte at `i` of the picture, without alpha multiplied into the colours.
    pub open spec fn rgba_byte(&self, i: int) -> u8 {
        if self.premultiplied {
            unpremultiplied_byte(self.pixels@, i)
        } else {
            self.pixels@[i]
        }
    }

    /// The RGBA bytes of the picture, without alpha multiplied into the colours.
    pub fn to_rgba8(&self) -> (pixels: Vec<u8>)
        ensures
            pixels@ == Seq::new(self.pixels@.len(), |i: int| self.rgba_byte(i)),
    {
        let mut pixels = self.pixels.clone();
        assert(pixels@ =~= self.pixels@);
        if self.premultiplied {
            unpremultiply(&mut pixels);
        }
        assert(pixels@ =~= Seq::new(self.pixels@.len(), |i: int| self.rgba_byte(i)));
        pixels
    }
}

/// A picture of a display that is ready for the editor.
pub struct CaptureFrame {
    pub request_id: u128,
    pub capture_sequence: u64,
    pub display_id: u32,
    pub image: NativeCaptureImage,
    pub pixel_size: [u32; 2],
    /// The display's place among all displays, in points: left, top, width, height.
    pub display_bounds_global: [i32; 4],
    pub scale_factor: u32,
    /// The time of the capture, in nanoseconds from the Unix epoch.
    pub captured_at: i128,
}

/// Two numbers as a list in brackets.
pub open spec fn bracketed(pair: Seq<u32>) -> Seq<char> {
    "["@ + decimal(pair[0] as nat) + ", "@ + decimal(pair[1] as nat) + "]"@
}

fn push_bracketed(text: &mut String, pair: [u32; 2])
    ensures
        final(text)@ == old(text)@ + bracketed(pair@),
{
    text.append("[");
    push_decimal(text, pair[0] as u64);
    text.append(", ");
    push_decimal(text, pair[1] as u64);
    text.append("]");
    assert(text@ =~= old(text)@ + bracketed(pair@));
}

impl CaptureFrame {
    /// Whether the picture can be shown: its size is allowed and is the frame's, the
    /// display has an extent, and its scale factor is a finite number above zero.
    pub open spec fn valid(&self) -> bool {
        &&& allowed_size(self.pixel_size@[0], self.pixel_size@[1])
        &&& self.image.pixel_size@ == self.pixel_size@
        &&& self.display_bounds_global@[2] > 0
        &&& self.display_bounds_global@[3] > 0
        &&& finite_and_positive(self.scale_factor)
    }

    /// Whether `checked` is the first of the frame's faults.
    pub open spec fn first_fault<T>(&self, checked: Result<T, CaptureError>) -> bool {
        if !allowed_size(self.pixel_size@[0], self.pixel_size@[1]) {
            checks_size(checked, self.pixel_size@[0], self.pixel_size@[1])
        } else if self.image.pixel_size@ != self.pixel_size@ {
            failed_with(
                checked,
                "native image dimensions "@ + bracketed(self.image.pixel_size@)
                    + " do not match frame dimensions "@ + bracketed(self.pixel_size@),
            )
        } else if self.display_bounds_global@[2] <= 0 || self.display_bounds_global@[3] <= 0 {
            failed_with(checked, "display bounds must have positive width and height"@)
        } else {
            failed_with(checked, "display scale factor must be finite and positive"@)
        }
    }

    /// Checks that the picture can be shown.
    pub fn validate(&self) -> (checked: Result<(), CaptureError>)
        ensures
            if self.valid() {
                checked is Ok
            } else {
                self.first_fault(checked)
            },
    {
        match validate_pixel_dimensions(self.pixel_size) {
            Ok(()) => {},
            Err(error) => {
                return Err(error);
            },
        }
        if self.image.pixel_size[0] != self.pixel_size[0] || self.image.pixel_size[1]
            != self.pixel_size[1] {
            let mut message = "native image dimensions ".to_owned();
            push_bracketed(&mut message, self.image.pixel_size);
            message.append(" do not match frame dimensions ");
            push_bracketed(&mut message, self.pixel_size);
            return Err(CaptureError::CaptureFailed(message));
        }
        assert(self.image.pixel_size@ =~= self.pixel_size@);
        if self.display_bounds_global[2] <= 0 || self.display_bounds_global[3] <= 0 {
            return Err(
                CaptureError::CaptureFailed(
                    "display bounds must have positive width and height".to_owned(),
                ),
            );
        }
        validate_scale_factor(self.scale_factor)
    }

    /// The frame of a picture of a display, where it can be shown.
    pub fn new(
        request_id: u128,
        capture_sequence: u64,
        display: DisplaySnapshot,
        image: NativeCaptureImage,
        captured_at: i128,
    ) -> (frame: Result<Self, CaptureError>)
        ensures
            ({
                let made = CaptureFrame {
                    request_id,
                    capture_sequence,
                    display_id: display.display_id,
                    image,
                    pixel_size: image.pixel_size,
                    display_bounds_global: display.bounds_global,
                    scale_factor: display.scale_factor,
                    captured_at,
                };
                if made.valid() {
                    frame == Ok::<Self, CaptureError>(made)
                } else {
                    made.first_fault(frame)
                }
            }),
    {
        let frame = CaptureFrame {
            request_id,
            capture_sequence,
            display_id: display.display_id,
            pixel_size: image.pixel_size(),
            image,
            display_bounds_global: display.bounds_global,
            scale_factor: display.scale_factor,
            captured_at,
        };
        match frame.validate() {
            Ok(()) => Ok(frame),
            Err(error) => Err(error),
        }
    }
}

/// The moment by which a capture that is prepared now has to be done.
pub fn capture_deadline(now: u128) -> (deadline: u128)
    requires
        now + CAPTURE_DEADLINE <= u128::MAX,
    ensures
        deadline == now + CAPTURE_DEADLINE,
{
    now + CAPTURE_DEADLINE
}

/// A picture of a display that is taken in its planned size can be shown.
pub proof fn law_a_picture_of_the_planned_size_can_be_shown(
    display: DisplaySnapshot,
    size: [u32; 2],
    frame: CaptureFrame,
)
    requires
        planned_size(display, Ok(size)),
        frame.image.pixel_size@ == size@,
        frame.pixel_size@ == size@,
        frame.display_bounds_global == display.bounds_global,
        frame.scale_factor == display.scale_factor,
    ensures
        frame.valid(),
{
}

} // verus!
