//! Taking one picture from a stream of screen pictures: reading its pixels, and what is
//! made of the stream's answers.

use vstd::prelude::*;

use crate::capture::{
    allowed_size, checks_size, failed_with, validate_pixel_dimensions, CaptureError,
};
use crate::text::{
    concat, decimal, push_decimal, push_signed_decimal, push_upper_hex_padded, signed_decimal,
    upper_hex_padded,
};

verus! {

/// How often stopping a stream is tried.
pub const MAX_STOP_ATTEMPTS: u8 = 3;

/// The pixel format of four bytes per pixel: blue, green, red, alpha.
pub const PIXEL_FORMAT_BGRA: u32 = 0x4247_5241;

/// A picture: its size, and four bytes per pixel (red, green, blue, alpha), row by row.
pub struct RgbaPixels {
    pub width: u32,
    pub height: u32,
    pub pixels: Vec<u8>,
}

/// A colour component without the alpha that was multiplied into it: divided by it, rounded
/// to the nearest, and held to what a byte holds. Nothing is done where the alpha is none
/// or full.
pub open spec fn unpremultiplied(component: u8, alpha: u8) -> u8 {
    if alpha == 0 || alpha == 255 {
        component
    } else {
        let value = (component as int * 255 + alpha as int / 2) / alpha as int;
        if value > 255 {
            255
        } else {
            value as u8
        }
    }
}

/// The byte at `i` of a picture whose colours no longer have alpha multiplied into them.
/// What is left over after the last whole pixel stays.
pub open spec fn unpremultiplied_byte(pixels: Seq<u8>, i: int) -> u8 {
    let pixel = i - i % 4;
    if i % 4 == 3 || pixel + 4 > pixels.len() {
        pixels[i]
    } else {
        unpremultiplied(pixels[i], pixels[pixel + 3])
    }
}

fn unpremultiply_component(component: u8, alpha: u8) -> (value: u8)
    ensures
        value == unpremultiplied(component, alpha),
{
    if alpha == 0 || alpha == 255 {
        return component;
    }
    let value: u32 = (component as u32 * 255 + alpha as u32 / 2) / alpha as u32;
    assert(value as int == (component as int * 255 + alpha as int / 2) / alpha as int);
    if value > 255 {
        255
    } else {
        value as u8
    }
}

/// Takes out the alpha that was multiplied into the colours of a picture.
pub fn unpremultiply(pixels: &mut Vec<u8>)
    ensures
        final(pixels)@.len() == old(pixels)@.len(),
        forall|i: int|
            0 <= i < old(pixels)@.len() ==> #[trigger] final(pixels)@[i] == unpremultiplied_byte(
                old(pixels)@,
                i,
            ),
{
    let ghost before = pixels@;
    let count: usize = pixels.len() / 4;
    let mut k: usize = 0;
    while k < count
        invariant
            k <= count,
            count == before.len() / 4,
            before.len() <= usize::MAX,
            pixels@.len() == before.len(),
            before == old(pixels)@,
            forall|i: int|
                0 <= i < 4 * k ==> #[trigger] pixels@[i] == unpremultiplied_byte(before, i),
            forall|i: int| 4 * k <= i < before.len() ==> #[trigger] pixels@[i] == before[i],
        decreases count - k,
    {
        let at: usize = 4 * k;
        let alpha: u8 = pixels[at + 3];
        let red: u8 = unpremultiply_component(pixels[at], alpha);
        let green: u8 = unpremultiply_component(pixels[at + 1], alpha);
        let blue: u8 = unpremultiply_component(pixels[at + 2], alpha);
        pixels.set(at, red);
        pixels.set(at + 1, green);
        pixels.set(at + 2, blue);
        k = k + 1;
    }
}

/// `RgbaImage::from_raw` makes a picture of a width and a height from a buffer of bytes
/// where the buffer has at least four bytes for each pixel; `into_raw` hands the buffer
/// back as it was.
#[verifier::external_body]
pub(crate) fn rgba_image_from_raw(width: u32, height: u32, pixels: Vec<u8>) -> (image: Option<
    RgbaPixels,
>)
    requires
        4 * width <= usize::MAX,
    ensures
        match image {
            Some(image) => 4 * width * height <= pixels@.len() && image.width == width
                && image.height == height && image.pixels@ == pixels@,
            None => 4 * width * height > pixels@.len(),
        },
{
    let image = image::RgbaImage::from_raw(width, height, pixels)?;
    let (width, height) = image.dimensions();
    Some(RgbaPixels { width, height, pixels: image.into_raw() })
}

/// Where the byte `j` of a picture stands in rows of `stride` bytes that hold blue, green,
/// red and alpha.
pub open spec fn bgra_source(width: int, stride: int, j: int) -> int {
    let pixel = j / 4;
    let channel = j % 4;
    (pixel / width) * stride + (pixel % width) * 4 + if channel == 0 {
        2int
    } else if channel == 2 {
        0int
    } else {
        channel
    }
}

/// What is said of rows that are too short.
pub open spec fn short_stride(stride: nat, packed: nat) -> Seq<char> {
    "pixel buffer row stride "@ + decimal(stride) + " is smaller than packed row size "@ + decimal(
        packed,
    )
}

/// What is said of a buffer that is too short.
pub open spec fn short_buffer(len: nat, required: nat) -> Seq<char> {
    "pixel buffer contains "@ + decimal(len) + " bytes; expected at least "@ + decimal(required)
}

/// A picture from rows of `bytes_per_row` bytes that hold blue, green, red and alpha. What
/// follows the pixels of a row is left out.
pub fn bgra_rows_to_rgba(width: u32, height: u32, bytes_per_row: usize, bytes: &Vec<u8>) -> (image:
    Result<RgbaPixels, CaptureError>)
    requires
        width > 0 || bytes_per_row > 0,
    ensures
        if 4 * width > usize::MAX {
            failed_with(image, "captured image row is too wide"@)
        } else if bytes_per_row < 4 * width {
            failed_with(image, short_stride(bytes_per_row as nat, (4 * width) as nat))
        } else if bytes_per_row * height > usize::MAX {
            failed_with(image, "captured image data is too large"@)
        } else if bytes@.len() < bytes_per_row * height {
            failed_with(image, short_buffer(bytes@.len(), (bytes_per_row * height) as nat))
        } else {
            &&& image matches Ok(picture)
            &&& picture.width == width
            &&& picture.height == height
            &&& picture.pixels@.len() == 4 * width * height
            &&& forall|j: int|
                0 <= j < picture.pixels@.len() ==> #[trigger] picture.pixels@[j]
                    == bytes@[bgra_source(width as int, bytes_per_row as int, j)]
        },
{
    if width as u64 * 4 > usize::MAX as u64 {
        return Err(CaptureError::CaptureFailed("captured image row is too wide".to_owned()));
    }
    let columns: usize = width as usize;
    let rows: usize = height as usize;
    let packed_row_len: usize = columns * 4;
    if bytes_per_row < packed_row_len {
        let mut message = "pixel buffer row stride ".to_owned();
        push_decimal(&mut message, bytes_per_row as u64);
        message.append(" is smaller than packed row size ");
        push_decimal(&mut message, packed_row_len as u64);
        return Err(CaptureError::CaptureFailed(message));
    }
    let required_len: usize = match bytes_per_row.checked_mul(rows) {
        Some(required_len) => required_len,
        None => {
            return Err(CaptureError::CaptureFailed("captured image data is too large".to_owned()));
        },
    };
    if bytes.len() < required_len {
        let mut message = "pixel buffer contains ".to_owned();
        push_decimal(&mut message, bytes.len() as u64);
        message.append(" bytes; expected at least ");
        push_decimal(&mut message, required_len as u64);
        return Err(CaptureError::CaptureFailed(message));
    }
    let mut rgba: Vec<u8> = Vec::new();
    let mut y: usize = 0;
    while y < rows
        invariant
            y <= rows,
            columns == width,
            packed_row_len == columns * 4,
            packed_row_len <= bytes_per_row,
            bytes_per_row * rows <= bytes@.len(),
            bytes@.len() <= usize::MAX,
            rgba@.len() == 4 * (y * columns),
            forall|j: int|
                0 <= j < rgba@.len() ==> #[trigger] rgba@[j] == bytes@[bgra_source(
                    width as int,
                    bytes_per_row as int,
                    j,
                )],
        decreases rows - y,
    {
        assert((y + 1) * bytes_per_row <= rows * bytes_per_row) by (nonlinear_arith)
            requires
                y + 1 <= rows,
                0 <= bytes_per_row,
        ;
        assert((y + 1) * bytes_per_row == y * bytes_per_row + bytes_per_row) by (nonlinear_arith);
        assert(rows * bytes_per_row == bytes_per_row * rows) by (nonlinear_arith);
        let start: usize = y * bytes_per_row;
        let mut x: usize = 0;
        while x < columns
            invariant
                x <= columns,
                y < rows,
                columns == width,
                start == y * bytes_per_row,
                start + bytes_per_row <= bytes@.len(),
                bytes@.len() <= usize::MAX,
                columns * 4 <= bytes_per_row,
                rgba@.len() == 4 * (y * columns + x),
                forall|j: int|
                    0 <= j < rgba@.len() ==> #[trigger] rgba@[j] == bytes@[bgra_source(
                        width as int,
                        bytes_per_row as int,
                        j,
                    )],
            decreases columns - x,
        {
            let ghost before = rgba@;
            let ghost pixel = y * columns + x;
            let at: usize = start + x * 4;
            rgba.push(bytes[at + 2]);
            rgba.push(bytes[at + 1]);
            rgba.push(bytes[at]);
            rgba.push(bytes[at + 3]);
            proof {
                assert(pixel / columns as int == y && pixel % columns as int == x) by {
                    vstd::arithmetic::div_mod::lemma_fundamental_div_mod_converse(
                        pixel,
                        columns as int,
                        y as int,
                        x as int,
                    );
                }
                assert forall|j: int| 0 <= j < rgba@.len() implies #[trigger] rgba@[j]
                    == bytes@[bgra_source(width as int, bytes_per_row as int, j)] by {
                    if j < before.len() {
                        assert(rgba@[j] == before[j]);
                    } else {
                        assert(j / 4 == pixel);
                        assert(y as int * bytes_per_row as int == start);
                    }
                }
            }
            x = x + 1;
        }
        assert((y + 1) * columns == y * columns + columns) by (nonlinear_arith);
        y = y + 1;
    }
    assert(4 * width * height == 4 * (rows * columns)) by (nonlinear_arith)
        requires
            columns == width,
            rows == height,
    ;
    match rgba_image_from_raw(width, height, rgba) {
        Some(image) => Ok(image),
        None => Err(
            CaptureError::CaptureFailed(
                "unable to construct RGBA image from pixel buffer".to_owned(),
            ),
        ),
    }
}

/// Checks that pictures come in the format that can be read.
pub fn ensure_bgra_pixel_format(pixel_format: u32) -> (checked: Result<(), CaptureError>)
    ensures
        if pixel_format == PIXEL_FORMAT_BGRA {
            checked is Ok
        } else {
            failed_with(
                checked,
                "ScreenCaptureKit returned unsupported pixel format 0x"@ + upper_hex_padded(
                    pixel_format as nat,
                    8,
                ),
            )
        },
{
    if pixel_format == PIXEL_FORMAT_BGRA {
        Ok(())
    } else {
        let mut message = "ScreenCaptureKit returned unsupported pixel format 0x".to_owned();
        push_upper_hex_padded(&mut message, pixel_format as u64, 8);
        Err(CaptureError::CaptureFailed(message))
    }
}

/// What is known of a pixel buffer before its bytes are read.
#[derive(Clone, Copy, PartialEq, Eq, Structural)]
pub struct PixelBuffer {
    pub width: usize,
    pub height: usize,
    pub bytes_per_row: usize,
    pub data_size: usize,
    pub has_base_address: bool,
}

/// Whether `checked` is the first fault of a pixel buffer.
pub open spec fn buffer_fault<T>(buffer: PixelBuffer, checked: Result<T, CaptureError>) -> bool {
    if buffer.width > u32::MAX {
        failed_with(checked, "captured image width is too large"@)
    } else if buffer.height > u32::MAX {
        failed_with(checked, "captured image height is too large"@)
    } else if !allowed_size(buffer.width as u32, buffer.height as u32) {
        checks_size(checked, buffer.width as u32, buffer.height as u32)
    } else if buffer.bytes_per_row * buffer.height > usize::MAX {
        failed_with(checked, "captured image data is too large"@)
    } else if buffer.data_size < buffer.bytes_per_row * buffer.height {
        failed_with(
            checked,
            "pixel buffer contains "@ + decimal(buffer.data_size as nat)
                + " bytes; its row stride requires "@ + decimal(
                (buffer.bytes_per_row * buffer.height) as nat,
            ),
        )
    } else {
        failed_with(checked, "ScreenCaptureKit pixel buffer has no base address"@)
    }
}

/// Whether the bytes of a pixel buffer can be read.
pub open spec fn readable(buffer: PixelBuffer) -> bool {
    &&& buffer.width <= u32::MAX
    &&& buffer.height <= u32::MAX
    &&& allowed_size(buffer.width as u32, buffer.height as u32)
    &&& buffer.bytes_per_row * buffer.height <= buffer.data_size
    &&& buffer.has_base_address
}

/// Checks that the bytes of a pixel buffer can be read, and says how many there are.
pub fn check_pixel_buffer(buffer: PixelBuffer) -> (required_len: Result<usize, CaptureError>)
    ensures
        if readable(buffer) {
            required_len matches Ok(len) && len == buffer.bytes_per_row * buffer.height
        } else {
            buffer_fault(buffer, required_len)
        },
{
    if buffer.width as u64 > u32::MAX as u64 {
        return Err(CaptureError::CaptureFailed("captured image width is too large".to_owned()));
    }
    if buffer.height as u64 > u32::MAX as u64 {
        return Err(CaptureError::CaptureFailed("captured image height is too large".to_owned()));
    }
    match validate_pixel_dimensions([buffer.width as u32, buffer.height as u32]) {
        Ok(()) => {},
        Err(error) => {
            return Err(error);
        },
    }
    let required_len: usize = match buffer.bytes_per_row.checked_mul(buffer.height) {
        Some(required_len) => required_len,
        None => {
            return Err(CaptureError::CaptureFailed("captured image data is too large".to_owned()));
        },
    };
    if buffer.data_size < required_len {
        let mut message = "pixel buffer contains ".to_owned();
        push_decimal(&mut message, buffer.data_size as u64);
        message.append(" bytes; its row stride requires ");
        push_decimal(&mut message, required_len as u64);
        return Err(CaptureError::CaptureFailed(message));
    }
    if !buffer.has_base_address {
        return Err(
            CaptureError::CaptureFailed(
                "ScreenCaptureKit pixel buffer has no base address".to_owned(),
            ),
        );
    }
    Ok(required_len)
}

/// The picture of a frame, from what came of reading its buffer and of giving the buffer
/// back: a buffer that could not be given back spoils the picture.
pub fn sample_buffer_to_rgba(
    locked: i32,
    copied: Result<RgbaPixels, CaptureError>,
    unlocked: i32,
) -> (image: Result<RgbaPixels, CaptureError>)
    ensures
        if locked != 0 {
            failed_with(
                image,
                "locking ScreenCaptureKit pixel buffer failed with CoreVideo status "@
                    + signed_decimal(locked as int),
            )
        } else {
            match copied {
                Err(_) => image == copied,
                Ok(_) => if unlocked != 0 {
                    failed_with(
                        image,
                        "unlocking ScreenCaptureKit pixel buffer failed with CoreVideo status "@
                            + signed_decimal(unlocked as int),
                    )
                } else {
                    image == copied
                },
            }
        },
{
    if locked != 0 {
        let mut message =
            "locking ScreenCaptureKit pixel buffer failed with CoreVideo status ".to_owned();
        push_signed_decimal(&mut message, locked as i64);
        return Err(CaptureError::CaptureFailed(message));
    }
    match copied {
        Err(error) => Err(error),
        Ok(image) => {
            if unlocked != 0 {
                let mut message =
                    "unlocking ScreenCaptureKit pixel buffer failed with CoreVideo status ".to_owned();
                push_signed_decimal(&mut message, unlocked as i64);
                Err(CaptureError::CaptureFailed(message))
            } else {
                Ok(image)
            }
        },
    }
}

/// The errors of the stream's own domain that mean something of their own.
#[derive(Clone, Copy, PartialEq, Eq, Structural)]
pub enum StreamErrorKind {
    UserDeclined,
    NoDisplayList,
    NoCaptureSource,
    Other,
}

/// An error that the system gave.
pub struct SystemError {
    pub is_stream_error: bool,
    pub kind: StreamErrorKind,
    pub domain: String,
    pub code: i64,
    pub description: String,
}

/// Whether `error` is what an error of the system means: only errors of the stream's own
/// domain are told apart.
pub open spec fn meaning(error: CaptureError, cause: SystemError, operation: Seq<char>) -> bool {
    if cause.is_stream_error && cause.kind == StreamErrorKind::UserDeclined {
        error is PermissionDenied
    } else if cause.is_stream_error && (cause.kind == StreamErrorKind::NoDisplayList || cause.kind
        == StreamErrorKind::NoCaptureSource) {
        error is NoDisplay
    } else {
        error matches CaptureError::CaptureFailed(text) && text@ == "ScreenCaptureKit "@ + operation
            + " failed ("@ + cause.domain@ + " "@ + signed_decimal(cause.code as int) + "): "@
            + cause.description@
    }
}

/// What an error of the system means.
pub fn capture_error_from_ns_error(cause: &SystemError, operation: &str) -> (error: CaptureError)
    ensures
        meaning(error, *cause, operation@),
{
    if cause.is_stream_error && cause.kind == StreamErrorKind::UserDeclined {
        return CaptureError::PermissionDenied;
    }
    if cause.is_stream_error && (cause.kind == StreamErrorKind::NoDisplayList || cause.kind
        == StreamErrorKind::NoCaptureSource) {
        return CaptureError::NoDisplay;
    }
    let mut message = concat("ScreenCaptureKit ", operation);
    message.append(" failed (");
    message.append(cause.domain.as_str());
    message.append(" ");
    push_signed_decimal(&mut message, cause.code);
    message.append("): ");
    message.append(cause.description.as_str());
    CaptureError::CaptureFailed(message)
}

/// What the end of an operation without a result means, given the error that came with it.
pub fn capture_error_from_optional_ns_error(cause: &Option<SystemError>, operation: &str) -> (error:
    CaptureError)
    ensures
        match *cause {
            Some(cause) => meaning(error, cause, operation@),
            None => error matches CaptureError::CaptureFailed(text) && text@
                == "ScreenCaptureKit failed while "@ + operation@,
        },
{
    match cause {
        Some(cause) => capture_error_from_ns_error(cause, operation),
        None => CaptureError::CaptureFailed(concat("ScreenCaptureKit failed while ", operation)),
    }
}

/// The result of an operation, given the error that came with its end.
pub fn completion_result(cause: &Option<SystemError>, operation: &str) -> (result: Result<
    (),
    CaptureError,
>)
    ensures
        match *cause {
            Some(cause) => result matches Err(error) && meaning(error, cause, operation@),
            None => result is Ok,
        },
{
    match cause {
        Some(cause) => Err(capture_error_from_ns_error(cause, operation)),
        None => Ok(()),
    }
}

/// What came of waiting for the end of an operation.
pub enum Waited<T> {
    Result(Result<T, CaptureError>),
    Timeout,
    Disconnected,
}

/// The result of an operation that was waited for.
pub fn receive_result<T>(waited: Waited<T>, operation: &str) -> (result: Result<T, CaptureError>)
    ensures
        match waited {
            Waited::Result(given) => result == given,
            Waited::Timeout => failed_with(
                result,
                "ScreenCaptureKit timed out while "@ + operation@,
            ),
            Waited::Disconnected => failed_with(
                result,
                "ScreenCaptureKit callback disconnected while "@ + operation@,
            ),
        },
{
    match waited {
        Waited::Result(result) => result,
        Waited::Timeout => Err(
            CaptureError::CaptureFailed(concat("ScreenCaptureKit timed out while ", operation)),
        ),
        Waited::Disconnected => Err(
            CaptureError::CaptureFailed(
                concat("ScreenCaptureKit callback disconnected while ", operation),
            ),
        ),
    }
}

/// Who has a stream that is being started: the stream's number while neither side has
/// taken it, and what has happened.
#[derive(Clone, Copy, PartialEq, Eq, Structural)]
pub struct StartState {
    pub session: Option<u64>,
    pub completion_seen: bool,
    pub cancelled: bool,
}

impl StartState {
    /// What follows once the stream has started, or could not: the stream, and which one
    /// has to be stopped.
    pub open spec fn after_completion(self, failed: bool) -> (StartState, Option<u64>) {
        if self.cancelled || failed {
            (StartState { session: None, completion_seen: true, ..self }, self.session)
        } else {
            (StartState { completion_seen: true, ..self }, None)
        }
    }

    /// What follows once nobody waits any more.
    pub open spec fn after_timeout(self) -> (StartState, Option<u64>) {
        (
            StartState {
                cancelled: true,
                session: if self.completion_seen {
                    None
                } else {
                    self.session
                },
                ..self
            },
            self.session,
        )
    }

    /// A stream that is being started.
    pub fn new(session: u64) -> (state: Self)
        ensures
            state == (StartState {
                session: Some(session),
                completion_seen: false,
                cancelled: false,
            }),
    {
        StartState { session: Some(session), completion_seen: false, cancelled: false }
    }

    /// The stream has started, or could not. Where it could not, or nobody waits any more,
    /// the stream to be stopped is returned.
    pub fn completed(&mut self, failed: bool) -> (stop: Option<u64>)
        ensures
            (*final(self), stop) == old(self).after_completion(failed),
    {
        self.completion_seen = true;
        if self.cancelled || failed {
            let session = self.session;
            self.session = None;
            session
        } else {
            None
        }
    }

    /// Takes the stream that has started.
    pub fn started(&mut self) -> (session: Result<u64, CaptureError>)
        ensures
            match old(self).session {
                Some(taken) => session == Ok::<u64, CaptureError>(taken),
                None => failed_with(
                    session,
                    "ScreenCaptureKit start completed without an owned capture session"@,
                ),
            },
            *final(self) == (StartState { session: None, ..*old(self) }),
    {
        let session = self.session;
        self.session = None;
        match session {
            Some(session) => Ok(session),
            None => Err(
                CaptureError::CaptureFailed(
                    "ScreenCaptureKit start completed without an owned capture session".to_owned(),
                ),
            ),
        }
    }

    /// Nobody waits any more: the stream to be stopped is returned. While its start is not
    /// over, it is stopped again then.
    pub fn timed_out(&mut self) -> (stop: Option<u64>)
        ensures
            (*final(self), stop) == old(self).after_timeout(),
    {
        self.cancelled = true;
        let session = self.session;
        if self.completion_seen {
            self.session = None;
        }
        session
    }

    /// No word can come any more: the stream to be stopped is returned.
    pub fn disconnected(&mut self) -> (stop: Option<u64>)
        ensures
            stop == old(self).session,
            *final(self) == (StartState { session: None, ..*old(self) }),
    {
        let session = self.session;
        self.session = None;
        session
    }
}

/// What follows an attempt to stop a stream.
pub enum StopStep {
    /// Let go of the stream and report this.
    Release(Result<(), CaptureError>),
    /// Try again, as this attempt.
    Retry(u8),
    /// Report this, and keep the stream: the system may still call it.
    Keep(Result<(), CaptureError>),
}

/// The first of two results that is an error, or success.
pub open spec fn both(
    first: Result<(), CaptureError>,
    second: Result<(), CaptureError>,
) -> Result<(), CaptureError> {
    match first {
        Err(_) => first,
        Ok(_) => second,
    }
}

/// What follows an attempt to stop a stream, given what came of stopping it and of taking
/// its receiver from it. The stream can be let go of once either has been done.
pub fn finish_stop_attempt(
    stopped: Result<(), CaptureError>,
    removed: Result<(), CaptureError>,
    attempt: u8,
) -> (step: StopStep)
    requires
        attempt < u8::MAX,
    ensures
        step == if stopped is Ok || removed is Ok {
            StopStep::Release(both(stopped, removed))
        } else if attempt + 1 < MAX_STOP_ATTEMPTS {
            StopStep::Retry((attempt + 1) as u8)
        } else {
            StopStep::Keep(stopped)
        },
{
    let can_release = stopped.is_ok() || removed.is_ok();
    let result: Result<(), CaptureError> = match stopped {
        Err(error) => Err(error),
        Ok(()) => removed,
    };
    if can_release {
        StopStep::Release(result)
    } else if attempt + 1 < MAX_STOP_ATTEMPTS {
        StopStep::Retry(attempt + 1)
    } else {
        StopStep::Keep(result)
    }
}

/// What is said of a picture of another size than was asked for.
pub open spec fn wrong_size(actual: RgbaPixels, expected: Seq<u32>) -> Seq<char> {
    "ScreenCaptureKit returned "@ + decimal(actual.width as nat) + "x"@ + decimal(
        actual.height as nat,
    ) + " pixels; expected "@ + decimal(expected[0] as nat) + "x"@ + decimal(expected[1] as nat)
}

/// The picture that was captured, from the frame that came and from what came of stopping
/// the stream: both have to succeed, and the picture has to have the size asked for.
pub fn captured_image(
    frame: Result<RgbaPixels, CaptureError>,
    stopped: Result<(), CaptureError>,
    expected_pixel_size: [u32; 2],
) -> (image: Result<RgbaPixels, CaptureError>)
    ensures
        match frame {
            Err(_) => image == frame,
            Ok(picture) => match stopped {
                Err(error) => image == Err::<RgbaPixels, CaptureError>(error),
                Ok(_) => if picture.width == expected_pixel_size@[0] && picture.height
                    == expected_pixel_size@[1] {
                    image == frame
                } else {
                    failed_with(image, wrong_size(picture, expected_pixel_size@))
                },
            },
        },
{
    let image = match frame {
        Err(error) => {
            return Err(error);
        },
        Ok(image) => image,
    };
    match stopped {
        Err(error) => {
            return Err(error);
        },
        Ok(()) => {},
    }
    if image.width != expected_pixel_size[0] || image.height != expected_pixel_size[1] {
        let mut message = "ScreenCaptureKit returned ".to_owned();
        push_decimal(&mut message, image.width as u64);
        message.append("x");
        push_decimal(&mut message, image.height as u64);
        message.append(" pixels; expected ");
        push_decimal(&mut message, expected_pixel_size[0] as u64);
        message.append("x");
        push_decimal(&mut message, expected_pixel_size[1] as u64);
        return Err(CaptureError::CaptureFailed(message));
    }
    Ok(image)
}

/// The display to be captured among those that can be.
pub fn find_display(display_ids: &Vec<u32>, display_id: u32) -> (index: Result<
    usize,
    CaptureError,
>)
    ensures
        match index {
            Ok(index) => {
                &&& index < display_ids@.len()
                &&& display_ids@[index as int] == display_id
                &&& forall|i: int| 0 <= i < index ==> #[trigger] display_ids@[i] != display_id
            },
            Err(error) => {
                &&& error is NoDisplay
                &&& forall|i: int| 0 <= i < display_ids@.len() ==> #[trigger] display_ids@[i]
                    != display_id
            },
        },
{
    for i in 0..display_ids.len()
        invariant
            forall|j: int| 0 <= j < i ==> #[trigger] display_ids@[j] != display_id,
    {
        if display_ids[i] == display_id {
            return Ok(i);
        }
    }
    Err(CaptureError::NoDisplay)
}

/// Whether a sample holds a whole picture: it is valid, and its status, where it has one, is
/// `complete`.
pub fn is_complete_frame(valid: bool, status: Option<i32>, complete: i32) -> (yes: bool)
    ensures
        yes == (valid && status == Some(complete)),
{
    if !valid {
        return false;
    }
    match status {
        Some(status) => status == complete,
        None => false,
    }
}

/// The applications that are left out of a picture: those of this process.
pub fn excluded_applications(process_ids: &Vec<i32>, current: u32) -> (excluded: Result<
    Vec<usize>,
    CaptureError,
>)
    ensures
        if current > i32::MAX {
            failed_with(excluded, "process id does not fit ScreenCaptureKit metadata"@)
        } else {
            &&& excluded matches Ok(indices)
            &&& forall|i: int|
                0 <= i < process_ids@.len() ==> (#[trigger] process_ids@[i] == current
                    <==> indices@.contains(i as usize))
            &&& forall|k: int|
                0 <= k < indices@.len() ==> (#[trigger] indices@[k]) < process_ids@.len()
            &&& forall|j: int, k: int| 0 <= j < k < indices@.len() ==> indices@[j] < indices@[k]
        },
{
    if current > i32::MAX as u32 {
        return Err(
            CaptureError::CaptureFailed(
                "process id does not fit ScreenCaptureKit metadata".to_owned(),
            ),
        );
    }
    let mut indices: Vec<usize> = Vec::new();
    for i in 0..process_ids.len()
        invariant
            current <= i32::MAX,
            forall|j: int|
                0 <= j < i ==> (#[trigger] process_ids@[j] == current <==> indices@.contains(
                    j as usize,
                )),
            forall|k: int| 0 <= k < indices@.len() ==> (#[trigger] indices@[k]) < i,
            forall|j: int, k: int| 0 <= j < k < indices@.len() ==> indices@[j] < indices@[k],
    {
        let ghost before = indices@;
        if process_ids[i] == current as i32 {
            indices.push(i);
            assert(indices@[before.len() as int] == i);
        }
        assert forall|j: int| 0 <= j < i + 1 implies (#[trigger] process_ids@[j] == current
            <==> indices@.contains(j as usize)) by {
            if before.contains(j as usize) {
                let k = choose|k: int| 0 <= k < before.len() && before[k] == j as usize;
                assert(indices@[k] == j as usize);
            }
            if indices@.contains(j as usize) && j < i {
                let k = choose|k: int| 0 <= k < indices@.len() && indices@[k] == j as usize;
                assert(before[k] == j as usize);
            }
        }
    }
    Ok(indices)
}

/// A stream whose start is no longer waited for is stopped and let go of, whether its start
/// ends before or after; one that could not start is stopped too.
pub proof fn law_a_stream_that_nobody_takes_is_stopped(state: StartState, failed: bool)
    requires
        state.session is Some,
        !state.completion_seen,
        !state.cancelled,
    ensures
        state.after_timeout().1 == state.session,
        state.after_timeout().0.after_completion(failed).1 == state.session,
        state.after_timeout().0.after_completion(failed).0.session is None,
        !failed ==> state.after_completion(failed).0.after_timeout().1 == state.session,
        state.after_completion(failed).0.after_timeout().0.session is None,
        failed ==> state.after_completion(failed).1 == state.session,
{
}

/// Taking the alpha out of an opaque picture, or out of one that cannot be seen, changes
/// nothing.
pub proof fn law_opaque_pictures_stay(component: u8)
    ensures
        unpremultiplied(component, 255) == component,
        unpremultiplied(component, 0) == component,
{
}

} // verus!
