//! What can be relied on of what is kept: elements in a document, the sessions of documents
//! and the measurements of work on them.

use vstd::prelude::*;

use crate::board::{
    dragged_corners, element_at, first_style, selects, style_of, Board, ColorRgba, Element,
    ElementPayload, RectangleHandle,
};
use crate::capture_surface::DisplaySnapshot;
use crate::commands::{with_placement, with_placements, DocumentCommand, LabelSolution};
use crate::opening::{background_measured, covers, session_opened, SessionSeed};
use crate::performance::{
    after_finish, chain_codes, elapsed_micros, finished_event, is_error_event, IoErrorKind,
    PerformanceEvent, PerformanceLog, PerformanceOutcome, PerformanceTimer,
};
use crate::persistence::measured;
use crate::scale::finite_and_positive;
use crate::session::{
    capture_context, capture_total, write_total, CapturePresentationTrace, Ending,
    PersistenceUiTrace, SessionOrigin, WorkingSession,
};
use crate::stylus::Point;
use crate::tools::EditorTool;

verus! {

/// An element is found by its identifier at the first place where it stands, and an
/// identifier that no element has is not found.
pub proof fn law_an_element_is_found_by_its_identifier(
    elements: Seq<Element>,
    element_id: u128,
)
    ensures
        element_at(elements, element_id) matches Some(found) ==> {
            &&& 0 <= found < elements.len()
            &&& elements[found].element_id == element_id
            &&& forall|j: int| 0 <= j < found ==> (#[trigger] elements[j]).element_id != element_id
        },
        element_at(elements, element_id) is None ==> forall|j: int|
            0 <= j < elements.len() ==> (#[trigger] elements[j]).element_id != element_id,
    decreases elements.len(),
{
    if elements.len() > 0 {
        let rest = elements.drop_last();
        law_an_element_is_found_by_its_identifier(rest, element_id);
        match element_at(rest, element_id) {
            Some(found) => {
                assert(elements[found] == rest[found]);
                assert forall|j: int| 0 <= j < found implies (#[trigger] elements[j]).element_id
                    != element_id by {
                    assert(rest[j] == elements[j]);
                }
            },
            None => {
                assert forall|j: int| 0 <= j < rest.len() implies (
                #[trigger] elements[j]).element_id != element_id by {
                    assert(rest[j] == elements[j]);
                }
            },
        }
    }
}

/// An element that was found has the identifier that was asked for.
pub proof fn law_the_element_that_was_asked_for_is_given(board: Board, element_id: u128)
    ensures
        board.get(element_id) matches Some(element) ==> element.element_id == element_id
            && board.elements@.contains(element),
        board.get(element_id) is None <==> forall|j: int|
            0 <= j < board.elements@.len() ==> (#[trigger] board.elements@[j]).element_id
                != element_id,
{
    law_an_element_is_found_by_its_identifier(board.elements@, element_id);
}

/// The tool for selecting selects every element, the brush none, and each other tool
/// exactly what it draws.
pub proof fn law_tools_select_what_they_draw(payload: ElementPayload)
    ensures
        selects(EditorTool::Select, payload),
        !selects(EditorTool::Stroke, payload),
        selects(EditorTool::Rectangle, payload) <==> payload is Rectangle,
        selects(EditorTool::Arrow, payload) <==> payload is Arrow,
        selects(EditorTool::Text, payload) <==> payload is Text,
        selects(EditorTool::Sequence, payload) <==> payload is SequenceMarker,
{
}

/// At the start every tool draws in red, eight pixels wide, with letters of 24 pixels, or 36
/// in rectangles and texts, and hard, but for the brush, which is soft. Sizes are given by
/// the bits of their numbers.
pub proof fn law_the_looks_of_the_tools_at_the_start(tool: EditorTool)
    ensures
        first_style(tool).color_rgba == ColorRgba::Red,
        first_style(tool).width_px == 0x4100_0000,
        first_style(tool).font_size_px == if tool == EditorTool::Rectangle || tool
            == EditorTool::Text {
            0x4210_0000u32
        } else {
            0x41c0_0000u32
        },
        first_style(tool).hardness == if tool == EditorTool::Stroke {
            0u32
        } else {
            0x3f80_0000u32
        },
{
}

/// The look of an element is that of its line, and of its letters where it has any; a
/// numbered mark has the colour that it is filled with.
pub proof fn law_the_look_of_an_element(payload: ElementPayload)
    ensures
        payload matches ElementPayload::Stroke { stroke_style, hardness } ==> style_of(
            payload,
        ).color_rgba == stroke_style.color_rgba && style_of(payload).width_px
            == stroke_style.width_px && style_of(payload).hardness == hardness,
        payload matches ElementPayload::Arrow { stroke_style, label, .. } ==> style_of(
            payload,
        ).color_rgba == stroke_style.color_rgba && style_of(payload).width_px
            == stroke_style.width_px && style_of(payload).font_size_px
            == label.text_style.font_size_px,
        payload matches ElementPayload::Rectangle { stroke_style, label, .. } ==> style_of(
            payload,
        ).color_rgba == stroke_style.color_rgba && style_of(payload).width_px
            == stroke_style.width_px && style_of(payload).font_size_px
            == label.text_style.font_size_px,
        payload matches ElementPayload::Text { text_style, .. } ==> style_of(payload).color_rgba
            == text_style.color_rgba && style_of(payload).font_size_px == text_style.font_size_px,
        payload matches ElementPayload::SequenceMarker { fill_rgba, stroke_style, text_style }
            ==> style_of(payload).color_rgba == fill_rgba && style_of(payload).width_px
            == stroke_style.width_px && style_of(payload).font_size_px == text_style.font_size_px,
{
}

/// A handle of a rectangle moves the edges that it stands for to where it was dragged, and
/// leaves the edges on the other side.
pub proof fn law_a_handle_moves_its_edges_alone(
    original: (Point, Point),
    handle: RectangleHandle,
    current: Point,
)
    ensures
        ({
            let (first, second) = dragged_corners(original, handle, current);
            let left = handle == RectangleHandle::TopLeft || handle == RectangleHandle::Left
                || handle == RectangleHandle::BottomLeft;
            let right = handle == RectangleHandle::TopRight || handle == RectangleHandle::Right
                || handle == RectangleHandle::BottomRight;
            let top = handle == RectangleHandle::TopLeft || handle == RectangleHandle::Top
                || handle == RectangleHandle::TopRight;
            let bottom = handle == RectangleHandle::BottomLeft || handle == RectangleHandle::Bottom
                || handle == RectangleHandle::BottomRight;
            &&& left ==> first.x == current.x
            &&& !left ==> first.x == original.0.x
            &&& top ==> first.y == current.y
            &&& !top ==> first.y == original.0.y
            &&& right ==> second.x == current.x
            &&& !right ==> second.x == original.1.x
            &&& bottom ==> second.y == current.y
            &&& !bottom ==> second.y == original.1.y
        }),
{
}

/// What is written of a document is told apart by its session, and names a draft exactly
/// where the document came from one.
pub proof fn law_a_write_names_its_session_and_its_draft(
    session: WorkingSession,
    request_id: u128,
    stash_sequence: Option<u64>,
)
    ensures
        ({
            let context = session.written_as(request_id, stash_sequence);
            let work = session.measured_as(request_id, stash_sequence);
            &&& context.request_id == request_id
            &&& context.session_id == session.session_id
            &&& context.capture_sequence == session.capture_sequence
            &&& context.stash_sequence == stash_sequence
            &&& session.origin matches SessionOrigin::LatestDraft { generation_id }
                ==> context.generation_id == Some(generation_id)
            &&& !(session.origin is LatestDraft) ==> context.generation_id is None
            &&& work.document_id == Some(session.document_id)
            &&& work.revision == Some(session.revision)
            &&& work.request_id == Some(request_id)
            &&& measured(context).request_id == Some(request_id)
            &&& measured(context).session_id == work.session_id
            &&& measured(context).capture_sequence == work.capture_sequence
            &&& measured(context).stash_sequence == work.stash_sequence
            &&& measured(context).generation_id == work.generation_id
            &&& work.session_id == Some(session.session_id)
        }),
{
}

/// A document that was opened has all that it was opened with, nothing of it has changed,
/// and the tool that was in use is in use again, or else the one for rectangles.
pub proof fn law_a_document_opens_as_it_is(seed: SessionSeed, last_tool: Option<EditorTool>)
    ensures
        ({
            let session = session_opened(seed, last_tool);
            &&& session.session_id == seed.session_id
            &&& session.capture_sequence == seed.capture_sequence
            &&& session.origin == seed.origin
            &&& session.document_id == seed.document_id
            &&& session.revision == seed.revision
            &&& session.width_px == seed.width_px
            &&& session.height_px == seed.height_px
            &&& !session.dirty
            &&& last_tool matches Some(tool) ==> session.active_tool == tool
            &&& last_tool is None ==> session.active_tool == EditorTool::Rectangle
        }),
{
}

/// A background fits its document only with four bytes for each pixel, and how the handing
/// over of it ended is measured for the document it was handed over for.
pub proof fn law_a_background_has_four_bytes_for_each_pixel(
    seed: SessionSeed,
    pixels: Seq<u8>,
    started_at: u128,
)
    ensures
        covers(pixels, seed) <==> pixels.len() == 4 * (seed.width_px * seed.height_px),
        background_measured(seed, started_at, true).ending is Success,
        background_measured(seed, started_at, false).ending is Failed,
        background_measured(seed, started_at, true).context.document_id == Some(seed.document_id),
        background_measured(seed, started_at, true).context.revision == Some(seed.revision),
        background_measured(seed, started_at, true).started_at == Some(started_at),
        background_measured(seed, started_at, true).pixel_size == Some(
            (seed.width_px, seed.height_px),
        ),
{
    let n = seed.width_px * seed.height_px;
    assert(n * 4 == 4 * n);
}

/// A whole capture and a whole write are measured from their start, for the request they
/// belong to, with the ending they had.
pub proof fn law_whole_requests_are_measured_from_their_start(
    capture: CapturePresentationTrace,
    write: PersistenceUiTrace,
    request_id: u128,
    capture_sequence: u64,
    ending: Ending,
)
    ensures
        capture_total(capture, ending).started_at == Some(capture.started_at),
        capture_total(capture, ending).context == capture.performance,
        capture_total(capture, ending).trigger == Some(capture.trigger),
        capture_total(capture, ending).ending == ending,
        write_total(write, ending).started_at == Some(write.started_at),
        write_total(write, ending).context == write.performance,
        write_total(write, ending).workflow == Some(write.workflow),
        write_total(write, ending).pixel_size == Some(write.pixel_size),
        write_total(write, ending).ending == ending,
        capture_context(request_id, capture_sequence).request_id == Some(request_id),
        capture_context(request_id, capture_sequence).capture_sequence == Some(capture_sequence),
        capture_context(request_id, capture_sequence).session_id is None,
        capture_context(request_id, capture_sequence).document_id is None,
{
}

/// A duration is told in whole microseconds, rounded down; a moment before the start tells
/// none.
pub proof fn law_durations_are_whole_microseconds(started_at: u128, finished_at: u128)
    requires
        finished_at - started_at < 1000 * u64::MAX,
    ensures
        finished_at <= started_at ==> elapsed_micros(started_at, finished_at) == 0,
        finished_at > started_at ==> {
            let micros = elapsed_micros(started_at, finished_at);
            &&& 1000 * micros <= finished_at - started_at
            &&& finished_at - started_at < 1000 * micros + 1000
        },
{
}

/// A measurement that ends is logged once, under the next number, with its stage, its time
/// and its outcome; one that never began is not.
pub proof fn law_a_measurement_is_logged_with_its_time(
    timer: PerformanceTimer,
    log: PerformanceLog,
    finished_at: u128,
    recorded_at: i128,
    outcome: PerformanceOutcome,
    codes: Option<Vec<&'static str>>,
)
    ensures
        ({
            let logged = finished_event(timer, log, finished_at, recorded_at, outcome, codes);
            &&& timer.started_at is None ==> logged is None && after_finish(timer, log) == log
            &&& timer.started_at matches Some(started_at) ==> {
                &&& logged matches Some(event)
                &&& event.event_sequence == log.event_sequence
                &&& event.recorded_at == recorded_at
                &&& event.stage == timer.stage
                &&& event.outcome == outcome
                &&& event.context == timer.context
                &&& event.duration_us == elapsed_micros(started_at, finished_at)
                &&& event.error_codes == codes
                &&& log.event_sequence < u64::MAX ==> after_finish(timer, log).event_sequence
                    == log.event_sequence + 1
            }
        }),
{
}

/// A measurement that failed is logged as failed, with the codes of its error.
pub proof fn law_a_failure_is_logged_with_its_codes(
    event: Option<PerformanceEvent>,
    timer: PerformanceTimer,
    log: PerformanceLog,
    finished_at: u128,
    recorded_at: i128,
    codes: Seq<&'static str>,
)
    requires
        is_error_event(event, timer, log, finished_at, recorded_at, codes),
    ensures
        event is Some <==> timer.started_at is Some,
        event matches Some(made) ==> {
            &&& made.outcome == PerformanceOutcome::Error
            &&& made.error_codes matches Some(list) && list@ == codes
            &&& made.stage == timer.stage
            &&& made.event_sequence == log.event_sequence
        },
{
}

/// The codes of an error begin with its own, and one more source adds one more code.
pub proof fn law_the_codes_of_an_error_follow_its_sources(
    error: Option<IoErrorKind>,
    error_type: &'static str,
    sources: Seq<Option<IoErrorKind>>,
    source: Option<IoErrorKind>,
)
    ensures
        chain_codes(error, error_type, sources).len() == sources.len() + 1,
        error is None ==> chain_codes(error, error_type, sources)[0] == error_type,
        error == Some(IoErrorKind::NotFound) ==> chain_codes(error, error_type, sources)[0]
            == "io.not_found",
        chain_codes(error, error_type, sources.push(source)).len() == sources.len() + 2,
        source is None ==> chain_codes(error, error_type, sources.push(source)) == chain_codes(
            error,
            error_type,
            sources,
        ).push("source_error"),
{
    assert(source is None ==> chain_codes(error, error_type, sources.push(source)) =~= chain_codes(
        error,
        error_type,
        sources,
    ).push("source_error"));
}

/// A display is known as the same where its number, its place and its scale are the same.
pub proof fn law_a_changed_display_is_another(display: DisplaySnapshot, other: DisplaySnapshot)
    ensures
        display.same(other) ==> display.display_id == other.display_id,
        display.same(other) ==> display.bounds_global@ == other.bounds_global@,
        finite_and_positive(display.scale_factor) && display.same(other) ==> display.scale_factor
            == other.scale_factor,
        finite_and_positive(display.scale_factor) ==> display.same(display),
{
}

/// One more label is put in its place after those before it.
pub proof fn law_labels_are_put_in_place_one_after_another(
    commands: Seq<DocumentCommand>,
    document: Board,
    staged: Board,
    solutions: Seq<LabelSolution>,
    solution: LabelSolution,
)
    ensures
        with_placements(commands, document, staged, Seq::empty()) == commands,
        with_placements(commands, document, staged, solutions.push(solution)) == with_placement(
            with_placements(commands, document, staged, solutions),
            document,
            staged,
            solution,
        ),
{
    assert(solutions.push(solution).drop_last() =~= solutions);
}

} // verus!
