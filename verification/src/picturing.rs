//! What can be relied on of pictures: how they are read, sized, shrunk, written and shown.

use vstd::arithmetic::power2::pow2;
use vstd::prelude::*;

use crate::capture::{
    allowed_size, is_primary_index, planned_size, CaptureError, CaptureFrame, NativeCaptureImage,
};
use crate::capture_surface::DisplaySnapshot;
use crate::export::{
    nearest_quotient, preview_length, preview_size, AtomicWrite, WriteStage, WriteStep,
};
use crate::overlay_window::{
    pair_is_up, Conceal, OverlayPair, OverlayWindowReadiness, PairAction, PairFacts, PairInput,
    PairStage, WindowChoice,
};
use crate::post_save::{PostSaveActionView, PostSaveView};
use crate::scale::{
    binary_exponent, double_precision, finite_and_positive, nearest_multiple, scaled_length,
    significand,
};
use crate::screen_stream::{
    bgra_source, buffer_fault, meaning, readable, unpremultiplied, unpremultiplied_byte,
    PixelBuffer, StartState, StreamErrorKind, SystemError,
};

verus! {

/// A colour into which alpha was multiplied is restored to the nearest whole value, halves
/// upward, and to full where it would be more than that.
pub proof fn law_colours_are_restored_to_the_nearest(component: u8, alpha: u8)
    requires
        0 < alpha < 255,
    ensures
        component <= alpha ==> {
            let value = unpremultiplied(component, alpha);
            &&& 2 * (value * alpha) <= 2 * (component * 255) + alpha
            &&& 2 * (component * 255) < 2 * (value * alpha) + alpha + 1
        },
        component >= alpha ==> unpremultiplied(component, alpha) == 255,
{
    let c = component as int;
    let a = alpha as int;
    let value = (c * 255 + a / 2) / a;
    assert(value * a <= c * 255 + a / 2 && c * 255 + a / 2 < value * a + a) by (nonlinear_arith)
        requires
            value == (c * 255 + a / 2) / a,
            a > 0,
    ;
    if c <= a {
        assert(value <= 255) by (nonlinear_arith)
            requires
                value * a <= c * 255 + a / 2,
                c <= a,
                a > 0,
        ;
    }
    if c >= a {
        assert(value >= 255) by (nonlinear_arith)
            requires
                c * 255 + a / 2 < value * a + a,
                c >= a,
                a > 0,
        ;
    }
}

/// In a picture the alpha of each pixel stays, and its three colours are restored by that
/// alpha and by no other pixel's.
pub proof fn law_each_pixel_is_restored_by_its_own_alpha(pixels: Seq<u8>, pixel: int)
    requires
        0 <= pixel,
        4 * pixel + 4 <= pixels.len(),
    ensures
        unpremultiplied_byte(pixels, 4 * pixel + 3) == pixels[4 * pixel + 3],
        unpremultiplied_byte(pixels, 4 * pixel) == unpremultiplied(
            pixels[4 * pixel],
            pixels[4 * pixel + 3],
        ),
        unpremultiplied_byte(pixels, 4 * pixel + 1) == unpremultiplied(
            pixels[4 * pixel + 1],
            pixels[4 * pixel + 3],
        ),
        unpremultiplied_byte(pixels, 4 * pixel + 2) == unpremultiplied(
            pixels[4 * pixel + 2],
            pixels[4 * pixel + 3],
        ),
{
}

/// A picture whose colours have no alpha in them is handed out as it is.
pub proof fn law_plain_colours_are_handed_out_as_they_are(image: NativeCaptureImage, i: int)
    requires
        0 <= i < image.pixels@.len(),
    ensures
        !image.premultiplied ==> image.rgba_byte(i) == image.pixels@[i],
        image.premultiplied && i % 4 == 3 ==> image.rgba_byte(i) == image.pixels@[i],
{
}

/// A picture is read from rows of blue, green, red and alpha: each of its pixels from its own
/// row and column, and each of its colours from its own byte.
pub proof fn law_rows_are_read_in_place(width: int, stride: int, x: int, y: int)
    requires
        0 <= x < width,
        0 <= y,
    ensures
        ({
            let pixel = 4 * (y * width + x);
            let source = y * stride + 4 * x;
            &&& bgra_source(width, stride, pixel) == source + 2
            &&& bgra_source(width, stride, pixel + 1) == source + 1
            &&& bgra_source(width, stride, pixel + 2) == source
            &&& bgra_source(width, stride, pixel + 3) == source + 3
        }),
{
    let at = y * width + x;
    vstd::arithmetic::div_mod::lemma_fundamental_div_mod_converse(at, width, y, x);
    assert((4 * at) / 4 == at && (4 * at) % 4 == 0);
    assert((4 * at + 1) / 4 == at && (4 * at + 1) % 4 == 1);
    assert((4 * at + 2) / 4 == at && (4 * at + 2) % 4 == 2);
    assert((4 * at + 3) / 4 == at && (4 * at + 3) % 4 == 3);
}

/// A buffer is read only where all its rows are there; of any other a fault is told.
pub proof fn law_a_buffer_is_read_only_where_it_is_whole(
    buffer: PixelBuffer,
    checked: Result<usize, CaptureError>,
)
    ensures
        readable(buffer) ==> {
            &&& buffer.has_base_address
            &&& buffer.bytes_per_row * buffer.height <= buffer.data_size
            &&& 1 <= buffer.width <= 8192
            &&& 1 <= buffer.height <= 8192
        },
        buffer_fault(buffer, checked) ==> checked is Err,
{
}

/// A size is allowed from one pixel to 8192, each way.
pub proof fn law_sizes_have_limits(width_px: u32, height_px: u32)
    ensures
        allowed_size(width_px, height_px) <==> 1 <= width_px <= 8192 && 1 <= height_px <= 8192,
{
}

/// A frame can be shown only with a picture of its own size, of a display with an extent.
pub proof fn law_a_frame_fits_its_picture(frame: CaptureFrame)
    requires
        frame.valid(),
    ensures
        frame.image.pixel_size@[0] == frame.pixel_size@[0],
        frame.image.pixel_size@[1] == frame.pixel_size@[1],
        1 <= frame.pixel_size@[0] <= 8192,
        1 <= frame.pixel_size@[1] <= 8192,
        frame.display_bounds_global@[2] > 0,
        frame.display_bounds_global@[3] > 0,
{
}

/// A length is scaled to within half a pixel of the exact product, and the rounding of that
/// product to double precision. The scale is a significand divided by a power of two.
pub proof fn law_a_length_is_scaled_to_the_nearest_pixel(length: u32, scale: u32)
    requires
        finite_and_positive(scale),
        binary_exponent(scale) < 0,
        scaled_length(length, scale) < u32::MAX,
    ensures
        ({
            let unit = pow2((-binary_exponent(scale)) as nat);
            let product = length * significand(scale);
            let whole = scaled_length(length, scale);
            &&& 2 * (whole * unit) <= 2 * product + unit + 8
            &&& 2 * product < 2 * (whole * unit) + unit + 8
        }),
{
    let unit = pow2((-binary_exponent(scale)) as nat);
    vstd::arithmetic::power2::lemma_pow2_pos((-binary_exponent(scale)) as nat);
    let product = (length * significand(scale)) as nat;
    assert(product < 0x100_0000_0000_0000) by (nonlinear_arith)
        requires
            product == length * significand(scale),
            length < 0x1_0000_0000,
            significand(scale) < 0x100_0000,
    ;
    let rounded = double_precision(product);
    lemma_rounding(product);
    let whole = (2 * rounded + unit) / (2 * unit);
    assert(2 * (whole * unit) <= 2 * rounded + unit && 2 * rounded + unit < 2 * (whole * unit) + 2
        * unit) by (nonlinear_arith)
        requires
            whole == (2 * rounded + unit) / (2 * unit),
            unit > 0,
    ;
}

proof fn lemma_rounding(n: nat)
    ensures
        double_precision(n) <= n + 4,
        n <= double_precision(n) + 4,
        n % 8 == 0 ==> double_precision(n) == n,
{
    assert(2 * (n / 2) + n % 2 == n);
    assert(4 * (n / 4) + n % 4 == n);
    assert(8 * (n / 8) + n % 8 == n);
    assert((n / 2) * 2 == 2 * (n / 2));
    assert((n / 4) * 4 == 4 * (n / 4));
    assert((n / 8) * 8 == 8 * (n / 8));
    assert(nearest_multiple(n, 2) <= n + 1);
    assert(nearest_multiple(n, 4) <= n + 2);
    assert(nearest_multiple(n, 8) <= n + 4);
}

/// A display whose points are pixels, with a scale of one, is captured in its own size; one
/// with two pixels for each point in twice that.
pub proof fn law_whole_scales_are_exact(length: u32)
    requires
        length < 0x8000_0000,
    ensures
        scaled_length(length, 0x3f80_0000) == length,
        scaled_length(length, 0x4000_0000) == 2 * length,
{
    vstd::arithmetic::power2::lemma2_to64();
    let product = (length * 0x80_0000) as nat;
    lemma_rounding(product);
    assert(product % 8 == 0);
    assert(significand(0x3f80_0000) == 0x80_0000);
    assert(significand(0x4000_0000) == 0x80_0000);
    assert(binary_exponent(0x3f80_0000) == -23);
    assert(binary_exponent(0x4000_0000) == -22);
    vstd::arithmetic::div_mod::lemma_fundamental_div_mod_converse(
        (2 * product + 0x80_0000) as int,
        0x100_0000,
        length as int,
        0x80_0000,
    );
    vstd::arithmetic::div_mod::lemma_fundamental_div_mod_converse(
        (2 * product + 0x40_0000) as int,
        0x80_0000,
        2 * length,
        0x40_0000,
    );
}

/// A capture is planned in the display's size times its scale, width and height alike, and
/// never beyond what is allowed.
pub proof fn law_a_capture_is_planned_in_the_size_of_its_display(
    display: DisplaySnapshot,
    size: [u32; 2],
)
    requires
        planned_size(display, Ok(size)),
    ensures
        display.bounds_global@[2] > 0,
        display.bounds_global@[3] > 0,
        size@[0] == scaled_length(display.bounds_global@[2] as u32, display.scale_factor),
        size@[1] == scaled_length(display.bounds_global@[3] as u32, display.scale_factor),
        1 <= size@[0] <= 8192,
        1 <= size@[1] <= 8192,
{
}

/// There is one primary monitor, and it says so itself wherever any does.
pub proof fn law_there_is_one_primary_monitor(
    monitors: Seq<Option<bool>>,
    first: int,
    second: int,
    i: int,
)
    requires
        is_primary_index(monitors, first),
        is_primary_index(monitors, second),
    ensures
        first == second,
        0 <= i < monitors.len() && monitors[i] == Some(true) ==> monitors[first] == Some(true)
            && first <= i,
{
}

/// What a stream's own errors mean is told; any other error of the system is passed on.
pub proof fn law_errors_of_the_stream_are_told_apart(
    error: CaptureError,
    cause: SystemError,
    operation: Seq<char>,
)
    requires
        meaning(error, cause, operation),
    ensures
        error is PermissionDenied <==> cause.is_stream_error && cause.kind
            == StreamErrorKind::UserDeclined,
        error is NoDisplay <==> cause.is_stream_error && (cause.kind
            == StreamErrorKind::NoDisplayList || cause.kind == StreamErrorKind::NoCaptureSource),
{
}

/// A stream that has started in time is handed over and not stopped.
pub proof fn law_a_stream_that_started_is_handed_over(state: StartState)
    requires
        !state.cancelled,
    ensures
        state.after_completion(false).0.session == state.session,
        state.after_completion(false).1 is None,
        state.after_completion(false).0.completion_seen,
        !state.after_completion(false).0.cancelled,
{
}

/// A file is replaced in order: its directory is made, the new file written, brought to the
/// disk and put in place, and the directory brought to the disk.
pub proof fn law_a_file_is_replaced_in_order(start: AtomicWrite)
    requires
        start.stage == WriteStage::CreatingParent,
    ensures
        ({
            let (written, first) = start.stepped(true);
            let (synced, second) = written.stepped(true);
            let (renamed, third) = synced.stepped(true);
            let (settled, fourth) = renamed.stepped(true);
            let (done, fifth) = settled.stepped(true);
            &&& first == WriteStep::Write
            &&& second == WriteStep::SyncFile
            &&& third == WriteStep::Rename
            &&& fourth == WriteStep::SyncParent
            &&& fifth == WriteStep::Finish(true)
        }),
{
}

/// Whatever fails after the directory was made, the temporary file is removed, and the
/// failure is reported.
pub proof fn law_a_failed_file_leaves_nothing_behind(write: AtomicWrite, removed: bool)
    ensures
        write.stage == WriteStage::CreatingParent ==> write.stepped(false).1 == WriteStep::Finish(
            false,
        ),
        write.stage == WriteStage::Writing || write.stage == WriteStage::SyncingFile || write.stage
            == WriteStage::Renaming || write.stage == WriteStage::SyncingParent
            ==> write.stepped(false).1 == WriteStep::RemoveTemporary && write.stepped(
            false,
        ).0.stepped(removed).1 == WriteStep::Finish(false),
{
}

/// A preview that is too large is shrunk so that its long edge is the longest allowed; a
/// picture lying on its side is shrunk as one that stands.
pub proof fn law_a_preview_fits(width: u32, height: u32, maximum: u32)
    requires
        maximum > 0,
    ensures
        preview_size(height, width, maximum) == (
            preview_size(width, height, maximum).1,
            preview_size(width, height, maximum).0,
        ),
        width <= maximum && height <= maximum ==> preview_size(width, height, maximum) == (
            width,
            height,
        ),
        width > maximum && width >= height ==> preview_size(width, height, maximum).0 == maximum,
        height > maximum && height >= width ==> preview_size(width, height, maximum).1 == maximum,
        preview_size(width, height, maximum).0 <= width || width == 0,
        preview_size(width, height, maximum).1 <= height || height == 0,
{
    let long_edge = crate::export::longer(width, height);
    if long_edge > maximum {
        crate::export::law_a_preview_has_the_longest_edge_allowed(maximum, long_edge);
        crate::export::law_a_preview_is_never_larger(width, maximum, long_edge);
        crate::export::law_a_preview_is_never_larger(height, maximum, long_edge);
    }
}

/// A preview keeps the proportions of its picture, to within a pixel.
pub proof fn law_a_preview_keeps_its_proportions(length: u32, maximum: u32, long_edge: u32)
    requires
        0 < maximum < long_edge,
        length <= long_edge,
    ensures
        preview_length(length, maximum, long_edge) * long_edge < length * maximum + 2 * long_edge,
        length * maximum < preview_length(length, maximum, long_edge) * long_edge + long_edge,
{
    crate::export::lemma_preview_is_near(length, maximum, long_edge);
}

/// What follows a save: the preview is put in place, the picture goes to the clipboard where
/// that is wanted, the draft is deleted where one was saved, and last the user is told. Each
/// is tried once, whatever came of those before.
pub proof fn law_what_follows_a_save_is_done_in_order(
    copy: bool,
    generation_id: u128,
    bytes: Seq<u8>,
    first: Result<(), Seq<char>>,
    second: Result<(), Seq<char>>,
    third: Result<(), Seq<char>>,
)
    ensures
        ({
            let start = PostSaveView::fresh(copy, Some(generation_id));
            let (installing, install) = start.after_preview(Ok(bytes));
            let (copying, copied) = installing.after(first);
            let (deleting, deleted) = copying.after(second);
            let (done, told) = deleting.after(third);
            &&& install == PostSaveActionView::Install(bytes)
            &&& copy ==> copied is CopyImage
            &&& copy ==> deleted == PostSaveActionView::DeleteDraft(generation_id)
            &&& copy ==> told is Tell
            &&& !copy ==> copied == PostSaveActionView::DeleteDraft(generation_id)
            &&& !copy ==> deleted is Tell
            &&& copy && first is Ok && second is Ok && third is Ok ==> (told
                matches PostSaveActionView::Tell(Ok(text)) && text == "讲义已保存"@)
            &&& copy && (first is Err || second is Err || third is Err) ==> (told
                matches PostSaveActionView::Tell(Err(text)))
            &&& !copy && first is Ok && second is Ok ==> (deleted
                matches PostSaveActionView::Tell(Ok(text)) && text == "讲义已保存"@)
            &&& !copy && (first is Err || second is Err) ==> (deleted
                matches PostSaveActionView::Tell(Err(text)))
        }),
{
}

/// A document that was no draft leaves no draft to be deleted, and a preview that could not
/// be made is told and keeps nothing else from being done.
pub proof fn law_a_document_that_was_no_draft_deletes_none(
    copy: bool,
    generation_id: u128,
    bytes: Seq<u8>,
    error: Seq<char>,
    result: Result<(), Seq<char>>,
)
    ensures
        ({
            let plain = PostSaveView::fresh(copy, None).after_preview(Ok(bytes)).0;
            let failed = PostSaveView::fresh(copy, Some(generation_id)).after_preview(Err(error));
            &&& copy ==> plain.after(result).1 is CopyImage
            &&& copy ==> plain.after(result).0.after(result).1 is Tell
            &&& !copy ==> plain.after(result).1 is Tell
            &&& copy ==> failed.1 is CopyImage
            &&& !copy ==> failed.1 == PostSaveActionView::DeleteDraft(generation_id)
            &&& failed.0.warnings.len() == 1
            &&& failed.0.warnings[0] == "预览生成失败: "@ + error
        }),
{
}

/// The windows are up where the application is in front, or was once they were ready, and
/// both windows are seen, at their level and in their frames, with the panel attached.
pub proof fn law_the_windows_are_up(facts: PairFacts, was_ready: bool)
    ensures
        pair_is_up(facts, was_ready) <==> {
            &&& was_ready || facts.application_active && facts.window_key
            &&& facts.panel_visible && facts.panel_at_level && facts.panel_in_frame
            &&& facts.window_visible && facts.window_at_level && facts.window_in_frame
            &&& facts.panel_attached
            &&& !facts.ignores_mouse
        },
{
}

/// Windows are brought up step by step, each after the one before it was seen to be done,
/// and are ready in the end.
pub proof fn law_windows_are_brought_up_step_by_step(
    pair: OverlayPair,
    choice: WindowChoice,
    seen: PairFacts,
    facts: PairFacts,
)
    requires
        choice.has_window(),
        !pair.ready,
        pair_is_up(PairFacts { ignores_mouse: false, ..facts }, false),
        facts.content_view_is_first_responder,
    ensures
        ({
            let (a, acquire) = pair.stepped(PairInput::Began { main_thread: true, screen: true });
            let (b, inspect) = a.stepped(PairInput::Acquired(choice));
            let (c, style) = b.stepped(PairInput::Inspected(seen));
            let (d, activate) = c.stepped(PairInput::Styled(true));
            let (e, focus) = d.stepped(
                PairInput::Activated { active: true, visible: true, key: true },
            );
            let (f, confirm) = e.stepped(PairInput::Focused(true));
            let (g, finish) = f.stepped(PairInput::Confirmed(facts));
            &&& acquire is Acquire && a.stage == PairStage::Acquiring
            &&& inspect is Inspect && b.stage == PairStage::Inspecting
            &&& style is Style && c.stage == PairStage::Styling
            &&& activate is Activate && d.stage == PairStage::Activating
            &&& focus is Focus && e.stage == PairStage::Focusing
            &&& confirm is Confirm && f.stage == PairStage::Confirming
            &&& finish matches PairAction::Finish { conceal, take_mouse, readiness } && conceal
                == Conceal::Nothing && take_mouse && readiness is Ready
            &&& g.ready && g.stage == PairStage::Done
        }),
{
}

/// A step that was not done ends the bringing up: the panel is concealed, the mouse let
/// through, and the windows are tried again later.
pub proof fn law_windows_that_do_not_come_up_are_concealed(
    pair: OverlayPair,
    facts: PairFacts,
    active: bool,
    visible: bool,
    key: bool,
)
    ensures
        given_up(pair.stepped(PairInput::Styled(false)).1),
        !(active && visible && key) ==> given_up(
            pair.stepped(PairInput::Activated { active, visible, key }).1,
        ),
        given_up(pair.stepped(PairInput::Focused(false)).1),
        !facts.content_view_is_first_responder || !facts.window_visible || !facts.panel_visible
            || !facts.application_active || !facts.window_key || !facts.panel_attached ==> given_up(
            pair.stepped(PairInput::Confirmed(facts)).1,
        ),
{
}

/// Whether the bringing up of windows ends with them concealed and not yet ready.
pub open spec fn given_up(action: PairAction) -> bool {
    action matches PairAction::Finish { conceal, take_mouse, readiness } && conceal
        == Conceal::PanelAndMouse && !take_mouse && readiness is Pending
}

/// Windows that were ready and still are need no more than a look.
pub proof fn law_ready_windows_stay_ready(pair: OverlayPair, facts: PairFacts)
    requires
        pair.ready,
        pair_is_up(facts, true),
    ensures
        pair.stepped(PairInput::Acquired(WindowChoice::Keep)).0.ready,
        pair.stepped(PairInput::Inspected(facts)).1 matches PairAction::Finish {
            conceal,
            take_mouse,
            readiness,
        } && conceal == Conceal::Nothing && take_mouse && readiness
            == OverlayWindowReadiness::Ready,
        pair.stepped(PairInput::Inspected(facts)).0.ready,
{
}

/// A quotient is rounded to the nearest whole number, and a number to the nearest multiple;
/// of two that are as near the even one is taken.
pub proof fn law_numbers_are_rounded_to_the_nearest(n: nat, d: nat)
    requires
        d > 0,
    ensures
        2 * (nearest_quotient(n, d) * d) <= 2 * n + d,
        2 * n <= 2 * (nearest_quotient(n, d) * d) + d,
        2 * (nearest_quotient(n, d) * d) == 2 * n + d || 2 * n == 2 * (nearest_quotient(n, d) * d)
            + d ==> nearest_quotient(n, d) % 2 == 0,
        nearest_multiple(n, d) == nearest_quotient(n, d) * d,
{
    vstd::arithmetic::div_mod::lemma_fundamental_div_mod(n as int, d as int);
    let quotient = n / d;
    assert(quotient * d == d * quotient) by (nonlinear_arith);
    assert((quotient + 1) * d == d * quotient + d) by (nonlinear_arith);
}

} // verus!
