//! Pictures that leave the program: their encodings, their previews, and the steps by which
//! a file is replaced.

use vstd::arithmetic::power2::pow2;
use vstd::prelude::*;

use crate::scale::nearest_multiple;
use crate::screen_stream::RgbaPixels;
use crate::text::concat;

verus! {

/// An error of the `image` crate.
#[verifier::external_type_specification]
#[verifier::external_body]
pub struct ExImageError(image::ImageError);

/// Why a picture could not be handed out.
pub enum ExportError {
    InvalidDestination,
    Image(image::ImageError),
    Io(String),
    Clipboard(String),
    Pasteboard(String),
}

impl ExportError {
    /// Whether `message` is the message shown to the user.
    pub open spec fn says(&self, message: Seq<char>) -> bool {
        match self {
            ExportError::InvalidDestination => message == "导出目标路径无效"@,
            ExportError::Image(error) => exists|text: String| #[trigger]
                vstd::string::to_string_from_display_ensures::<image::ImageError>(error, text)
                    && message == "图片编码失败: "@ + text@,
            ExportError::Io(error) => message == "文件写入失败: "@ + error@,
            ExportError::Clipboard(error) => message == "剪贴板写入失败: "@ + error@,
            ExportError::Pasteboard(error) => message == "剪贴板写入失败: "@ + error@,
        }
    }

    /// The message shown to the user.
    pub fn to_message(&self) -> (message: String)
        ensures
            self.says(message@),
    {
        match self {
            ExportError::InvalidDestination => "导出目标路径无效".to_owned(),
            ExportError::Image(error) => {
                let text = error.to_string();
                concat("图片编码失败: ", text.as_str())
            },
            ExportError::Io(error) => concat("文件写入失败: ", error.as_str()),
            ExportError::Clipboard(error) => concat("剪贴板写入失败: ", error.as_str()),
            ExportError::Pasteboard(error) => concat("剪贴板写入失败: ", error.as_str()),
        }
    }
}

/// What came of putting a picture on the pasteboard in both of its representations: both
/// have to be taken.
pub fn pasteboard_result(wrote_png: bool, wrote_tiff: bool) -> (result: Result<(), ExportError>)
    ensures
        if wrote_png && wrote_tiff {
            result is Ok
        } else {
            &&& result matches Err(error)
            &&& error matches ExportError::Pasteboard(text)
            &&& text@ == "NSPasteboard refused one or more image representations"@
        },
{
    if wrote_png && wrote_tiff {
        Ok(())
    } else {
        Err(
            ExportError::Pasteboard(
                "NSPasteboard refused one or more image representations".to_owned(),
            ),
        )
    }
}

/// The name of the file that is written before it takes the place of `file_name`.
pub fn temporary_name(file_name: &str) -> (name: String)
    ensures
        name@ == "."@ + file_name@ + ".tmp"@,
{
    let mut name = concat(".", file_name);
    name.append(".tmp");
    name
}

/// How far the replacement of a file has come.
#[derive(Clone, Copy, PartialEq, Eq, Structural)]
pub enum WriteStage {
    /// The directory is made.
    CreatingParent,
    /// The temporary file is written.
    Writing,
    /// The temporary file is brought to the disk.
    SyncingFile,
    /// The temporary file takes the place of the file.
    Renaming,
    /// The directory is brought to the disk.
    SyncingParent,
    /// The temporary file is removed.
    Removing,
    Done,
}

/// What comes next in replacing a file.
#[derive(Clone, Copy, PartialEq, Eq, Structural)]
pub enum WriteStep {
    Write,
    SyncFile,
    Rename,
    SyncParent,
    /// Remove the temporary file: the replacement has failed.
    RemoveTemporary,
    /// The replacement is over, well or not.
    Finish(bool),
}

/// The replacement of a file.
#[derive(Clone, Copy, PartialEq, Eq, Structural)]
pub struct AtomicWrite {
    pub stage: WriteStage,
}

impl AtomicWrite {
    /// What follows a step that went well or not: what was begun is undone where it did not.
    pub open spec fn stepped(self, succeeded: bool) -> (AtomicWrite, WriteStep) {
        match self.stage {
            WriteStage::CreatingParent => if succeeded {
                (AtomicWrite { stage: WriteStage::Writing }, WriteStep::Write)
            } else {
                (AtomicWrite { stage: WriteStage::Done }, WriteStep::Finish(false))
            },
            WriteStage::Writing if succeeded => (
                AtomicWrite { stage: WriteStage::SyncingFile },
                WriteStep::SyncFile,
            ),
            WriteStage::SyncingFile if succeeded => (
                AtomicWrite { stage: WriteStage::Renaming },
                WriteStep::Rename,
            ),
            WriteStage::Renaming if succeeded => (
                AtomicWrite { stage: WriteStage::SyncingParent },
                WriteStep::SyncParent,
            ),
            WriteStage::SyncingParent if succeeded => (
                AtomicWrite { stage: WriteStage::Done },
                WriteStep::Finish(true),
            ),
            WriteStage::Removing | WriteStage::Done => (
                AtomicWrite { stage: WriteStage::Done },
                WriteStep::Finish(false),
            ),
            _ => (AtomicWrite { stage: WriteStage::Removing }, WriteStep::RemoveTemporary),
        }
    }

    /// The start: the directory is to be made.
    pub fn new() -> (write: Self)
        ensures
            write.stage == WriteStage::CreatingParent,
    {
        AtomicWrite { stage: WriteStage::CreatingParent }
    }

    /// What follows a step that went well or not.
    pub fn step(&mut self, succeeded: bool) -> (step: WriteStep)
        ensures
            (*final(self), step) == old(self).stepped(succeeded),
    {
        let (stage, step) = match self.stage {
            WriteStage::CreatingParent => {
                if succeeded {
                    (WriteStage::Writing, WriteStep::Write)
                } else {
                    (WriteStage::Done, WriteStep::Finish(false))
                }
            },
            WriteStage::Removing => (WriteStage::Done, WriteStep::Finish(false)),
            WriteStage::Done => (WriteStage::Done, WriteStep::Finish(false)),
            stage => {
                if !succeeded {
                    (WriteStage::Removing, WriteStep::RemoveTemporary)
                } else {
                    match stage {
                        WriteStage::Writing => (WriteStage::SyncingFile, WriteStep::SyncFile),
                        WriteStage::SyncingFile => (WriteStage::Renaming, WriteStep::Rename),
                        WriteStage::Renaming => (WriteStage::SyncingParent, WriteStep::SyncParent),
                        _ => (WriteStage::Done, WriteStep::Finish(true)),
                    }
                }
            },
        };
        self.stage = stage;
        step
    }
}

/// A file is replaced only by a temporary file that was written and brought to the disk,
/// and success is reported only after the replacement was.
pub proof fn law_a_file_is_replaced_only_by_a_finished_one(write: AtomicWrite, succeeded: bool)
    ensures
        write.stepped(succeeded).1 == WriteStep::Rename ==> write.stage == WriteStage::SyncingFile
            && succeeded,
        write.stepped(succeeded).1 == WriteStep::SyncFile ==> write.stage == WriteStage::Writing
            && succeeded,
        write.stepped(succeeded).1 == WriteStep::Finish(true) ==> write.stage
            == WriteStage::SyncingParent && succeeded,
{
}

/// Whether a picture has four bytes for each of its pixels.
pub open spec fn complete(image: RgbaPixels) -> bool {
    4 * image.width * image.height <= image.pixels@.len() && 4 * image.width <= usize::MAX
}

/// Whether a picture has four bytes for each of its pixels and no more.
pub open spec fn exact(image: RgbaPixels) -> bool {
    4 * image.width * image.height == image.pixels@.len() && 4 * image.width <= usize::MAX
}

/// What `DynamicImage::write_to` writes in the PNG format for a picture of a width, a height
/// and RGBA bytes; nothing where it fails.
pub uninterp spec fn png_bytes(width: u32, height: u32, pixels: Seq<u8>) -> Option<Seq<u8>>;

/// What `DynamicImage::write_to` writes in the TIFF format for a picture of a width, a
/// height and RGBA bytes; nothing where it fails.
pub uninterp spec fn tiff_bytes(width: u32, height: u32, pixels: Seq<u8>) -> Option<Seq<u8>>;

/// `DynamicImage::write_to` with `ImageFormat::Png`: what it writes depends on the picture
/// alone. It panics where the buffer has another length than the picture needs.
#[verifier::external_body]
fn write_png(image: &RgbaPixels) -> (bytes: Result<Vec<u8>, image::ImageError>)
    requires
        exact(*image),
    ensures
        match bytes {
            Ok(bytes) => png_bytes(image.width, image.height, image.pixels@) == Some(bytes@),
            Err(_) => png_bytes(image.width, image.height, image.pixels@) is None,
        },
{
    let pixels = image.pixels.clone();
    let picture = image::RgbaImage::from_raw(image.width, image.height, pixels).unwrap_or_default();
    let mut output = std::io::Cursor::new(Vec::new());
    image::DynamicImage::ImageRgba8(picture).write_to(&mut output, image::ImageFormat::Png)?;
    Ok(output.into_inner())
}

/// `DynamicImage::write_to` with `ImageFormat::Tiff`: what it writes depends on the picture
/// alone. It panics where the buffer has another length than the picture needs.
#[verifier::external_body]
fn write_tiff(image: &RgbaPixels) -> (bytes: Result<Vec<u8>, image::ImageError>)
    requires
        exact(*image),
    ensures
        match bytes {
            Ok(bytes) => tiff_bytes(image.width, image.height, image.pixels@) == Some(bytes@),
            Err(_) => tiff_bytes(image.width, image.height, image.pixels@) is None,
        },
{
    let pixels = image.pixels.clone();
    let picture = image::RgbaImage::from_raw(image.width, image.height, pixels).unwrap_or_default();
    let mut output = std::io::Cursor::new(Vec::new());
    image::DynamicImage::ImageRgba8(picture).write_to(&mut output, image::ImageFormat::Tiff)?;
    Ok(output.into_inner())
}

/// `imageops::resize` with the filter `Lanczos3`: a picture of the new size. Which bytes it
/// has is not stated: the filter goes through the sine function of single-precision
/// numbers, whose last digits differ between machines.
#[verifier::external_body]
fn resize_lanczos3(image: &RgbaPixels, width: u32, height: u32) -> (resized: RgbaPixels)
    requires
        complete(*image),
        0 < width <= image.width || image.width == 0,
        0 < height <= image.height || image.height == 0,
        16 * (image.width + 1) * (image.height + 1) <= isize::MAX,
    ensures
        resized.width == width,
        resized.height == height,
        resized.pixels@.len() == 4 * width * height,
{
    let pixels = image.pixels.clone();
    let picture = image::RgbaImage::from_raw(image.width, image.height, pixels).unwrap_or_default();
    let filter = image::imageops::FilterType::Lanczos3;
    let resized = image::imageops::resize(&picture, width, height, filter);
    RgbaPixels { width: resized.width(), height: resized.height(), pixels: resized.into_raw() }
}

/// A picture in the PNG format.
pub fn encode_png(image: &RgbaPixels) -> (bytes: Result<Vec<u8>, ExportError>)
    requires
        exact(*image),
    ensures
        match png_bytes(image.width, image.height, image.pixels@) {
            Some(encoding) => bytes matches Ok(bytes) && bytes@ == encoding,
            None => bytes matches Err(ExportError::Image(_)),
        },
{
    match write_png(image) {
        Ok(bytes) => Ok(bytes),
        Err(error) => Err(ExportError::Image(error)),
    }
}

/// A picture in the TIFF format.
pub fn encode_tiff(image: &RgbaPixels) -> (bytes: Result<Vec<u8>, ExportError>)
    requires
        exact(*image),
    ensures
        match tiff_bytes(image.width, image.height, image.pixels@) {
            Some(encoding) => bytes matches Ok(bytes) && bytes@ == encoding,
            None => bytes matches Err(ExportError::Image(_)),
        },
{
    match write_tiff(image) {
        Ok(bytes) => Ok(bytes),
        Err(error) => Err(ExportError::Image(error)),
    }
}

/// How often `m` has to be doubled to reach two to the power 52 times `d`.
pub open spec fn quotient_shift(m: nat, d: nat) -> nat
    decreases
            (if m < d * 0x10_0000_0000_0000 {
                d * 0x10_0000_0000_0000 - m
            } else {
                0
            }),
{
    if m == 0 || m >= d * 0x10_0000_0000_0000 {
        0
    } else {
        1 + quotient_shift(2 * m, d)
    }
}

/// The whole number nearest to `n` divided by `d`; of two that are as near, the even one.
pub open spec fn nearest_quotient(n: nat, d: nat) -> nat {
    let quotient = n / d;
    let rest = n % d;
    if 2 * rest > d || (2 * rest == d && quotient % 2 == 1) {
        quotient + 1
    } else {
        quotient
    }
}

/// How many binary digits `n` has beyond the 53 of a double-precision number.
pub open spec fn excess_bits(n: nat) -> nat
    decreases n,
{
    if n < 0x20_0000_0000_0000 {
        0
    } else {
        1 + excess_bits(n / 2)
    }
}

/// A length of a preview: the length times the quotient of the preview's long edge and the
/// picture's, quotient and product in double precision, rounded to a whole number, halves
/// upward; at least one.
pub open spec fn preview_length(length: u32, maximum: u32, long_edge: u32) -> u32 {
    let shift = quotient_shift(maximum as nat, long_edge as nat);
    let quotient = nearest_quotient(
        (maximum * pow2(shift)) as nat,
        long_edge as nat,
    );
    let product = length as nat * quotient;
    let rounded = nearest_multiple(product, pow2(excess_bits(product)));
    let whole = (2 * rounded + pow2(shift)) / (2 * pow2(shift));
    if whole > u32::MAX {
        u32::MAX
    } else if whole == 0 {
        1
    } else {
        whole as u32
    }
}

/// The shift that `quotient_shift` counts, and `m` doubled so often.
fn normalize(m: u32, d: u32) -> (normal: (u32, u128))
    requires
        0 < m < d,
    ensures
        normal.0 == quotient_shift(m as nat, d as nat),
        normal.1 == m * pow2(normal.0 as nat),
        normal.0 <= 84,
        normal.1 < d * 0x20_0000_0000_0000,
{
    let bound: u128 = d as u128 * 0x10_0000_0000_0000;
    let mut shift: u32 = 0;
    let mut n: u128 = m as u128;
    proof {
        vstd::arithmetic::power2::lemma2_to64();
        assert(m * pow2(0) == m) by (nonlinear_arith)
            requires
                pow2(0) == 1,
        ;
    }
    while n < bound
        invariant
            bound == d * 0x10_0000_0000_0000,
            0 < m < d,
            n == m * pow2(shift as nat),
            0 < n < 2 * bound,
            n >= pow2(shift as nat),
            shift <= 84,
            shift + quotient_shift(n as nat, d as nat) == quotient_shift(m as nat, d as nat),
        decreases 2 * bound - n,
    {
        proof {
            let before = pow2(shift as nat);
            vstd::arithmetic::power2::lemma_pow2_unfold((shift + 1) as nat);
            assert(m * (2 * before) == 2 * (m * before)) by (nonlinear_arith);
            vstd::arithmetic::power2::lemma2_to64_rest();
            vstd::arithmetic::power2::lemma_pow2_adds(64, 20);
            vstd::arithmetic::power2::lemma2_to64();
            if shift >= 84 {
                assert(n >= pow2(84));
                assert(pow2(84) == pow2(64) * pow2(20));
                assert(bound <= 0xffff_ffff * 0x10_0000_0000_0000);
                assert(false);
            }
        }
        n = n * 2;
        shift = shift + 1;
    }
    (shift, n)
}

/// Two to the power `exponent`.
fn power(exponent: u32) -> (p: u128)
    requires
        exponent <= 84,
    ensures
        p == pow2(exponent as nat),
        1 <= p <= 0x10_0000_0000_0000_0000_0000,
{
    let mut p: u128 = 1;
    proof {
        vstd::arithmetic::power2::lemma2_to64();
        vstd::arithmetic::power2::lemma2_to64_rest();
        vstd::arithmetic::power2::lemma_pow2_adds(64, 20);
    }
    let mut i: u32 = 0;
    while i < exponent
        invariant
            i <= exponent <= 84,
            p == pow2(i as nat),
            1 <= p,
            pow2(84) == 0x10_0000_0000_0000_0000_0000,
        decreases exponent - i,
    {
        proof {
            vstd::arithmetic::power2::lemma_pow2_unfold((i + 1) as nat);
            if i + 1 < 84 {
                vstd::arithmetic::power2::lemma_pow2_strictly_increases((i + 1) as nat, 84);
            }
        }
        p = p * 2;
        i = i + 1;
    }
    proof {
        if exponent < 84 {
            vstd::arithmetic::power2::lemma_pow2_strictly_increases(exponent as nat, 84);
        }
    }
    p
}

/// Two to the power that `excess_bits` counts.
fn rounding_unit(n: u128) -> (unit: u128)
    requires
        n < 0x100_0000_0000_0000_0000_0000,
    ensures
        unit == pow2(excess_bits(n as nat)),
        1 <= unit <= n + 1,
{
    let mut unit: u128 = 1;
    let mut rest: u128 = n;
    let ghost mut counted: nat = 0;
    proof {
        vstd::arithmetic::power2::lemma2_to64();
    }
    while rest >= 0x20_0000_0000_0000
        invariant
            n < 0x100_0000_0000_0000_0000_0000,
            unit == pow2(counted),
            1 <= unit,
            unit * rest <= n,
            unit == 1 || rest >= 0x10_0000_0000_0000,
            counted + excess_bits(rest as nat) == excess_bits(n as nat),
        decreases rest,
    {
        proof {
            vstd::arithmetic::power2::lemma_pow2_unfold((counted + 1) as nat);
            assert(unit * rest <= n ==> (2 * unit) * (rest / 2) <= n && 2 * unit <= n) by (nonlinear_arith)
                requires
                    rest >= 2,
                    unit >= 1,
            ;
            counted = counted + 1;
        }
        unit = unit * 2;
        rest = rest / 2;
    }
    assert(excess_bits(rest as nat) == 0);
    proof {
        if unit != 1 {
            assert(unit <= unit * rest) by (nonlinear_arith)
                requires
                    rest >= 1,
                    unit >= 1,
            ;
        }
    }
    unit
}

/// A length of a preview of a picture whose long edge is too long.
fn scale_to_preview(length: u32, maximum: u32, long_edge: u32) -> (scaled: u32)
    requires
        maximum < long_edge,
    ensures
        scaled == preview_length(length, maximum, long_edge),
{
    proof {
        vstd::arithmetic::power2::lemma2_to64();
    }
    if maximum == 0 {
        proof {
            assert(0 * pow2(0) == 0) by (nonlinear_arith);
            assert(0nat / (long_edge as nat) == 0) by (nonlinear_arith)
                requires
                    long_edge > 0,
            ;
            assert(0nat % (long_edge as nat) == 0) by (nonlinear_arith)
                requires
                    long_edge > 0,
            ;
            assert(length as nat * 0nat == 0) by (nonlinear_arith);
            assert(nearest_multiple(0, 1) == 0);
        }
        return 1;
    }
    let (shift, n) = normalize(maximum, long_edge);
    let d: u128 = long_edge as u128;
    let floor: u128 = n / d;
    let rest: u128 = n % d;
    assert(floor < 0x20_0000_0000_0000) by (nonlinear_arith)
        requires
            floor == n / d,
            n < d * 0x20_0000_0000_0000,
            d > 0,
    ;
    assert(rest < d) by (nonlinear_arith)
        requires
            rest == n % d,
            d > 0,
    ;
    let quotient: u128 = if 2 * rest > d || (2 * rest == d && floor % 2 == 1) {
        floor + 1
    } else {
        floor
    };
    assert(length * quotient <= 0xffff_ffff * 0x20_0000_0000_0000) by (nonlinear_arith)
        requires
            0 <= length <= 0xffff_ffff,
            0 <= quotient <= 0x20_0000_0000_0000,
    ;
    let product: u128 = length as u128 * quotient;
    let unit: u128 = rounding_unit(product);
    let whole_units: u128 = product / unit;
    let left: u128 = product % unit;
    assert(whole_units * unit <= product && left < unit && (whole_units + 1) * unit <= product
        + unit) by (nonlinear_arith)
        requires
            whole_units == product / unit,
            left == product % unit,
            unit > 0,
    ;
    let rounded: u128 = if 2 * left > unit || (2 * left == unit && whole_units % 2 == 1) {
        (whole_units + 1) * unit
    } else {
        whole_units * unit
    };
    assert(rounded == nearest_multiple(product as nat, unit as nat));
    let p: u128 = power(shift);
    let whole: u128 = (2 * rounded + p) / (2 * p);
    if whole > u32::MAX as u128 {
        u32::MAX
    } else if whole == 0 {
        1
    } else {
        whole as u32
    }
}

/// The larger of two lengths.
pub open spec fn longer(width: u32, height: u32) -> u32 {
    if width >= height {
        width
    } else {
        height
    }
}

/// The size of the preview of a picture, with a long edge of at most `maximum`: a picture
/// that is small enough keeps its size.
pub open spec fn preview_size(width: u32, height: u32, maximum: u32) -> (u32, u32) {
    let long_edge = longer(width, height);
    if long_edge <= maximum {
        (width, height)
    } else {
        (
            preview_length(width, maximum, long_edge),
            preview_length(height, maximum, long_edge),
        )
    }
}

/// The preview of a picture, with a long edge of at most `maximum_long_edge`.
pub fn make_preview(image: &RgbaPixels, maximum_long_edge: u32) -> (preview: RgbaPixels)
    requires
        complete(*image),
        16 * (image.width + 1) * (image.height + 1) <= isize::MAX,
    ensures
        (preview.width, preview.height) == preview_size(
            image.width,
            image.height,
            maximum_long_edge,
        ),
        complete(preview),
        longer(image.width, image.height) <= maximum_long_edge ==> preview.pixels@
            == image.pixels@,
        longer(image.width, image.height) > maximum_long_edge ==> exact(preview),
{
    let long_edge: u32 = if image.width >= image.height {
        image.width
    } else {
        image.height
    };
    if long_edge <= maximum_long_edge {
        let pixels = image.pixels.clone();
        assert(pixels@ =~= image.pixels@);
        return RgbaPixels { width: image.width, height: image.height, pixels };
    }
    let width: u32 = scale_to_preview(image.width, maximum_long_edge, long_edge);
    let height: u32 = scale_to_preview(image.height, maximum_long_edge, long_edge);
    proof {
        law_a_preview_is_never_larger(image.width, maximum_long_edge, long_edge);
        law_a_preview_is_never_larger(image.height, maximum_long_edge, long_edge);
        assert(4 * width <= usize::MAX) by {
            assert(16 * (image.width + 1) * (image.height + 1) >= 16 * (image.width + 1)) by (nonlinear_arith);
        }
    }
    resize_lanczos3(image, width, height)
}

proof fn lemma_excess_bits(n: nat, s: nat)
    requires
        n < 0x20_0000_0000_0000 * pow2(s),
    ensures
        excess_bits(n) <= s,
    decreases s,
{
    vstd::arithmetic::power2::lemma2_to64();
    if n >= 0x20_0000_0000_0000 {
        if s == 0 {
            assert(0x20_0000_0000_0000 * pow2(0) == 0x20_0000_0000_0000);
        } else {
            vstd::arithmetic::power2::lemma_pow2_unfold(s);
            let half = pow2((s - 1) as nat);
            assert(0x20_0000_0000_0000 * (2 * half) == 2 * (0x20_0000_0000_0000 * half))
                by (nonlinear_arith);
            lemma_excess_bits(n / 2, (s - 1) as nat);
        }
    }
}

proof fn lemma_quotient_shift(m: nat, d: nat)
    requires
        0 < m,
    ensures
        m < d ==> quotient_shift(m, d) > 52,
        m * pow2(quotient_shift(m, d)) >= d * 0x10_0000_0000_0000,
        m < d * 0x20_0000_0000_0000 ==> m * pow2(quotient_shift(m, d)) < d * 0x20_0000_0000_0000,
    decreases
            (if m < d * 0x10_0000_0000_0000 {
                d * 0x10_0000_0000_0000 - m
            } else {
                0
            }),
{
    vstd::arithmetic::power2::lemma2_to64();
    let s = quotient_shift(m, d);
    if m >= d * 0x10_0000_0000_0000 {
        assert(m * pow2(0) == m) by (nonlinear_arith)
            requires
                pow2(0) == 1,
        ;
    } else {
        lemma_quotient_shift(2 * m, d);
        vstd::arithmetic::power2::lemma_pow2_unfold(s);
        let half = pow2((s - 1) as nat);
        assert(m * (2 * half) == (2 * m) * half) by (nonlinear_arith);
    }
    if m < d && s <= 52 {
        vstd::arithmetic::power2::lemma2_to64_rest();
        if s < 52 {
            vstd::arithmetic::power2::lemma_pow2_strictly_increases(s, 52);
        }
        let power = pow2(s);
        assert(m * power < d * 0x10_0000_0000_0000) by (nonlinear_arith)
            requires
                m < d,
                0 < power <= 0x10_0000_0000_0000,
        ;
    }
}

/// What scaling to a preview comes to: a quotient of at most one, a product that is not
/// above the length, and a small error of both.
proof fn lemma_preview_parts(length: u32, maximum: u32, long_edge: u32)
    requires
        0 < maximum < long_edge,
    ensures
        ({
            let shift = quotient_shift(maximum as nat, long_edge as nat);
            let one = pow2(shift);
            let n = (maximum * one) as nat;
            let quotient = nearest_quotient(n, long_edge as nat);
            let product = length as nat * quotient;
            let unit = pow2(excess_bits(product));
            let rounded = nearest_multiple(product, unit);
            &&& shift > 52
            &&& one >= 0x20_0000_0000_0000
            &&& quotient <= one
            &&& 2 * (long_edge * quotient) <= 2 * n + long_edge
            &&& 2 * (long_edge * quotient) + long_edge >= 2 * n
            &&& rounded <= length * one
            &&& 2 * rounded <= 2 * product + unit
            &&& 2 * rounded + unit >= 2 * product
            &&& 0x20_0000 * unit <= one || unit == 1
        }),
{
    let m = maximum as nat;
    let d = long_edge as nat;
    let shift = quotient_shift(m, d);
    let one = pow2(shift);
    let n = m * one;
    lemma_quotient_shift(m, d);
    vstd::arithmetic::power2::lemma2_to64();
    vstd::arithmetic::power2::lemma2_to64_rest();
    if shift > 53 {
        vstd::arithmetic::power2::lemma_pow2_strictly_increases(53, shift);
    }
    assert(one >= 0x20_0000_0000_0000);
    let floor = n / d;
    let rest = n % d;
    assert(n == d * floor + rest && rest < d) by {
        vstd::arithmetic::div_mod::lemma_fundamental_div_mod(n as int, d as int);
    }
    let quotient = nearest_quotient(n, d);
    assert(floor < one) by (nonlinear_arith)
        requires
            d * floor + rest == m * one,
            m < d,
            0 <= rest,
            one > 0,
            floor >= 0,
            m >= 0,
    ;
    assert(d * (floor + 1) == d * floor + d) by (nonlinear_arith);
    let product = length as nat * quotient;
    assert(length * quotient <= length * one) by (nonlinear_arith)
        requires
            quotient <= one,
            length >= 0,
    ;
    assert(length * one < 0x1_0000_0000 * one) by (nonlinear_arith)
        requires
            length < 0x1_0000_0000,
            one > 0,
    ;
    let e = excess_bits(product);
    let unit = pow2(e);
    // The product has at most 32 bits more than `one`.
    let s = (shift - 21) as nat;
    vstd::arithmetic::power2::lemma_pow2_adds(s, 21);
    assert(0x1_0000_0000 * one == 0x20_0000_0000_0000 * pow2(s)) by {
        assert(one == pow2(s) * pow2(21));
        assert(pow2(21) == 0x20_0000);
        let part = pow2(s);
        assert(0x1_0000_0000 * (part * 0x20_0000) == 0x20_0000_0000_0000 * part)
            by (nonlinear_arith);
    }
    lemma_excess_bits(product, s);
    vstd::arithmetic::power2::lemma_pow2_adds(e, (s - e) as nat);
    let times = pow2((s - e) as nat) * pow2(21);
    let a = pow2((s - e) as nat);
    assert(one == unit * times) by {
        assert((unit * a) * 0x20_0000 == unit * (a * 0x20_0000)) by (nonlinear_arith);
    }
    vstd::arithmetic::power2::lemma_pow2_pos((s - e) as nat);
    vstd::arithmetic::power2::lemma_pow2_pos(e);
    assert(0x20_0000 * unit <= one) by (nonlinear_arith)
        requires
            one == unit * times,
            times == a * 0x20_0000,
            a >= 1,
            unit >= 1,
    ;
    let whole_units = product / unit;
    let left = product % unit;
    assert(product == unit * whole_units + left && left < unit) by {
        vstd::arithmetic::div_mod::lemma_fundamental_div_mod(product as int, unit as int);
    }
    assert(whole_units * unit == unit * whole_units) by (nonlinear_arith);
    assert((whole_units + 1) * unit == unit * whole_units + unit) by (nonlinear_arith);
    let target = length as nat * times;
    assert(length * one == target * unit) by (nonlinear_arith)
        requires
            one == unit * times,
            target == length * times,
    ;
    let rounded = nearest_multiple(product, unit);
    if 2 * left > unit || (2 * left == unit && whole_units % 2 == 1) {
        assert(left > 0);
        assert(whole_units < target) by (nonlinear_arith)
            requires
                unit * whole_units + left <= target * unit,
                left > 0,
                unit > 0,
        ;
        assert((whole_units + 1) * unit <= target * unit) by (nonlinear_arith)
            requires
                whole_units + 1 <= target,
                unit > 0,
        ;
    }
}

/// No edge of a preview is longer than the picture's, or than one pixel.
pub proof fn law_a_preview_is_never_larger(length: u32, maximum: u32, long_edge: u32)
    requires
        maximum < long_edge,
    ensures
        1 <= preview_length(length, maximum, long_edge),
        preview_length(length, maximum, long_edge) <= length || length == 0 && preview_length(
            length,
            maximum,
            long_edge,
        ) == 1,
{
    vstd::arithmetic::power2::lemma2_to64();
    if maximum == 0 {
        assert(0 * pow2(0) == 0) by (nonlinear_arith);
        assert(0nat / (long_edge as nat) == 0) by (nonlinear_arith)
            requires
                long_edge > 0,
        ;
        assert(0nat % (long_edge as nat) == 0) by (nonlinear_arith)
            requires
                long_edge > 0,
        ;
        assert(length as nat * 0nat == 0) by (nonlinear_arith);
        assert(nearest_multiple(0, 1) == 0);
    } else {
        lemma_preview_parts(length, maximum, long_edge);
        let shift = quotient_shift(maximum as nat, long_edge as nat);
        let one = pow2(shift);
        let quotient = nearest_quotient((maximum * one) as nat, long_edge as nat);
        let product = length as nat * quotient;
        let rounded = nearest_multiple(product, pow2(excess_bits(product)));
        let whole = (2 * rounded + one) / (2 * one);
        assert(whole <= length) by (nonlinear_arith)
            requires
                whole == (2 * rounded + one) / (2 * one),
                rounded <= length * one,
                one > 0,
        ;
    }
}

/// A length of a preview is the length times the longest edge allowed divided by the
/// picture's long edge, to within a pixel.
pub proof fn lemma_preview_is_near(length: u32, maximum: u32, long_edge: u32)
    requires
        0 < maximum < long_edge,
        length <= long_edge,
    ensures
        preview_length(length, maximum, long_edge) * long_edge < length * maximum + 2 * long_edge,
        length * maximum < preview_length(length, maximum, long_edge) * long_edge + long_edge,
{
    lemma_preview_parts(length, maximum, long_edge);
    law_a_preview_is_never_larger(length, maximum, long_edge);
    let shift = quotient_shift(maximum as nat, long_edge as nat);
    let one = pow2(shift);
    let n = (maximum * one) as nat;
    let quotient = nearest_quotient(n, long_edge as nat);
    let product = length as nat * quotient;
    let unit = pow2(excess_bits(product));
    let rounded = nearest_multiple(product, unit);
    let whole = (2 * rounded + one) / (2 * one);
    let d = long_edge as nat;
    let exact = length as nat * n;
    assert(whole <= length) by (nonlinear_arith)
        requires
            whole == (2 * rounded + one) / (2 * one),
            rounded <= length * one,
            one > 0,
    ;
    assert(2 * (whole * one) <= 2 * rounded + one && 2 * rounded < 2 * (whole * one) + one)
        by (nonlinear_arith)
        requires
            whole == (2 * rounded + one) / (2 * one),
            one > 0,
    ;
    assert(length + unit < one);
    // `product * d` is within half of `length * d` of the exact product.
    assert(2 * (product * d) <= 2 * exact + length * d && 2 * exact <= 2 * (product * d) + length
        * d) by (nonlinear_arith)
        requires
            product == length * quotient,
            exact == length * n,
            2 * (d * quotient) <= 2 * n + d,
            2 * (d * quotient) + d >= 2 * n,
            length >= 0,
    ;
    assert(2 * ((whole * one) * d) <= 2 * (product * d) + (unit + one) * d && 2 * (product * d) < 2
        * ((whole * one) * d) + (unit + one) * d) by (nonlinear_arith)
        requires
            2 * (whole * one) <= 2 * rounded + one,
            2 * rounded < 2 * (whole * one) + one,
            2 * rounded <= 2 * product + unit,
            2 * rounded + unit >= 2 * product,
            d > 0,
    ;
    assert((length + unit + one) * d < 2 * (one * d)) by (nonlinear_arith)
        requires
            length + unit < one,
            d > 0,
    ;
    assert((length + unit + one) * d == length * d + (unit + one) * d) by (nonlinear_arith);
    assert(exact == (length * maximum) * one) by (nonlinear_arith)
        requires
            exact == length * n,
            n == maximum * one,
    ;
    assert((whole * one) * d == (whole * d) * one) by (nonlinear_arith);
    assert(one * d == d * one) by (nonlinear_arith);
    let target = (length * maximum) as int;
    let got = (whole * d) as int;
    assert(got < target + d && target < got + d) by (nonlinear_arith)
        requires
            2 * (got * one) < 2 * (target * one) + 2 * (d * one),
            2 * (target * one) < 2 * (got * one) + 2 * (d * one),
            one > 0,
    ;
    if whole == 0 {
        assert(got == 0) by (nonlinear_arith)
            requires
                got == whole * d,
                whole == 0,
        ;
        assert(0 <= target) by (nonlinear_arith)
            requires
                target == length * maximum,
                length >= 0,
                maximum >= 0,
        ;
    }
}

/// The long edge of a preview of a picture that is too long is exactly the longest allowed.
pub proof fn law_a_preview_has_the_longest_edge_allowed(maximum: u32, long_edge: u32)
    requires
        0 < maximum < long_edge,
    ensures
        preview_length(long_edge, maximum, long_edge) == maximum,
{
    lemma_preview_parts(long_edge, maximum, long_edge);
    let shift = quotient_shift(maximum as nat, long_edge as nat);
    let one = pow2(shift);
    let n = (maximum * one) as nat;
    let quotient = nearest_quotient(n, long_edge as nat);
    let product = long_edge as nat * quotient;
    let unit = pow2(excess_bits(product));
    let rounded = nearest_multiple(product, unit);
    let whole = (2 * rounded + one) / (2 * one);
    assert(long_edge + unit < one) by {
        assert(0x20_0000 * unit <= one || unit == 1);
    }
    assert(whole == maximum) by (nonlinear_arith)
        requires
            whole == (2 * rounded + one) / (2 * one),
            2 * rounded <= 2 * product + unit,
            2 * rounded + unit >= 2 * product,
            2 * product <= 2 * n + long_edge,
            2 * product + long_edge >= 2 * n,
            n == maximum * one,
            long_edge + unit < one,
            one > 0,
    ;
}

} // verus!
