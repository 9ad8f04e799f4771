//! What the mouse does over all frames of a drag, from where its button is pressed to where it
//! is let go.

use vstd::prelude::*;

use crate::board::{
    candidate, element_at, hit_at, hit_id, lemma_hit_is, selects, topmost, Board,
};
use crate::editor::{EditorView, InteractionView};
use crate::pointer::{OutcomeView, PointerFrame, ReleasedView};
use crate::stylus::{frame_start, Point, StrokePoint, StylusEvent, ONE};
use crate::tools::EditorTool;

verus! {

/// The button of the mouse is pressed at a point, and the mouse is dragged to another.
pub open spec fn presses(frame: PointerFrame, origin: Point, to: Point) -> bool {
    &&& frame.drag_started && frame.dragged
    &&& !frame.clicked && !frame.double_clicked && !frame.drag_stopped
    &&& frame.press_origin == Some(origin)
    &&& frame.position == Some(to)
}

/// The mouse is dragged on to a point.
pub open spec fn drags_on(frame: PointerFrame, to: Point) -> bool {
    &&& frame.dragged
    &&& !frame.drag_started && !frame.clicked && !frame.double_clicked && !frame.drag_stopped
    &&& frame.position == Some(to)
}

/// The button of the mouse is let go.
pub open spec fn lets_go(frame: PointerFrame) -> bool {
    &&& frame.drag_stopped
    &&& !frame.drag_started && !frame.dragged && !frame.clicked && !frame.double_clicked
}

/// Whether the frames are those of one drag from a point through places: the button is
/// pressed in the first of them.
pub open spec fn drag_through(frames: Seq<PointerFrame>, origin: Point, places: Seq<Point>) -> bool {
    &&& frames.len() == places.len() > 0
    &&& presses(frames[0], origin, places[0])
    &&& forall|i: int| 0 < i < frames.len() ==> drags_on(#[trigger] frames[i], places[i])
}

/// The places on a way, where places that follow each other and are the same count once.
pub open spec fn route(places: Seq<Point>) -> Seq<Point>
    decreases places.len(),
{
    if places.len() == 0 {
        Seq::empty()
    } else {
        let before = route(places.drop_last());
        if before.len() > 0 && before.last().same(places.last()) {
            before
        } else {
            before.push(places.last())
        }
    }
}

impl EditorView {
    /// Whether no pen has done anything.
    pub open spec fn without_pen_at_work(self) -> bool {
        &&& self.queued_stylus_events.len() == 0
        &&& self.active_stylus_id is None
        &&& self.pending_stroke_points.len() == 0
    }

    /// The state after a frame in which no pen has done anything, and what is asked for.
    pub open spec fn mouse_frame(self, board: Board, frame: PointerFrame) -> (
        EditorView,
        OutcomeView,
    ) {
        let (taken, stage) = self.pen_taken(Seq::empty());
        taken.pointer_handled(board, frame, stage, false)
    }

    /// The state after frames in which no pen has done anything.
    pub open spec fn after_frames(self, board: Board, frames: Seq<PointerFrame>) -> EditorView
        decreases frames.len(),
    {
        if frames.len() == 0 {
            self
        } else {
            self.after_frames(board, frames.drop_last()).mouse_frame(board, frames.last()).0
        }
    }

    /// What a whole drag comes to as the button is let go.
    pub open spec fn drag_result(
        self,
        board: Board,
        frames: Seq<PointerFrame>,
        release: PointerFrame,
    ) -> ReleasedView {
        self.after_frames(board, frames).mouse_frame(board, release).1.released
    }
}

/// A frame in which no pen has done anything changes nothing of the pen.
pub proof fn lemma_no_pen(editor: EditorView)
    requires
        editor.without_pen_at_work(),
    ensures
        editor.pen_taken(Seq::empty()).0 == editor,
        editor.pen_taken(Seq::empty()).1.no_samples,
        !editor.pen_taken(Seq::empty()).1.ended,
        !editor.pen_taken(Seq::empty()).1.cancelled,
{
    assert(editor.queued_stylus_events =~= Seq::<StylusEvent>::empty());
    assert(editor.pending_stroke_points =~= Seq::<StrokePoint>::empty());
    let frame = editor.pen_frame(Seq::empty());
    assert(frame == frame_start(None, editor.last_pen_point()));
    assert(frame.samples.len() == 0);
}

/// The points of a stroke of the mouse along a way.
spec fn along(way: Seq<Point>) -> Seq<StrokePoint> {
    way.map_values(|place: Point| StrokePoint { point: place, pressure: ONE })
}

proof fn lemma_route_ends(places: Seq<Point>)
    requires
        places.len() > 0,
        forall|i: int| 0 <= i < places.len() ==> (#[trigger] places[i]).same(places[i]),
    ensures
        route(places).len() > 0,
        route(places).last().same(places.last()),
{
}

proof fn lemma_stroke_goes_on(
    editor: EditorView,
    board: Board,
    frames: Seq<PointerFrame>,
    origin: Point,
    places: Seq<Point>,
)
    requires
        editor.tool == EditorTool::Stroke,
        editor.without_pen_at_work(),
        editor.interaction is None,
        drag_through(frames, origin, places),
    ensures
        ({
            let after = editor.after_frames(board, frames);
            &&& after.tool == EditorTool::Stroke
            &&& after.without_pen_at_work()
            &&& after.interaction == Some(
                InteractionView::Draw {
                    element_id: frames[0].new_element_id,
                    tool: EditorTool::Stroke,
                    start: origin,
                    current: places.last(),
                    stroke_points: along(route(seq![origin] + places)),
                },
            )
        }),
    decreases frames.len(),
{
    let n = frames.len() as int;
    let before = editor.after_frames(board, frames.drop_last());
    let way = seq![origin] + places;
    assert(way.last() == places.last());
    assert(way.drop_last() =~= seq![origin] + places.drop_last());
    let shorter = route(way.drop_last());
    if n == 1 {
        assert(frames.drop_last() =~= Seq::<PointerFrame>::empty());
        assert(before == editor);
        assert(way.drop_last() =~= seq![origin]);
        reveal_with_fuel(route, 2);
        assert(seq![origin].drop_last() =~= Seq::<Point>::empty());
        assert(shorter =~= seq![origin]);
        assert(editor.pending_stroke_points =~= Seq::<StrokePoint>::empty());
        assert(crate::stylus::stroke_from(Seq::<StrokePoint>::empty(), origin) =~= along(shorter));
    } else {
        assert(frames.drop_last()[0] == frames[0]);
        assert forall|i: int| 0 < i < frames.drop_last().len() implies drags_on(
            #[trigger] frames.drop_last()[i],
            places.drop_last()[i],
        ) by {
            assert(frames.drop_last()[i] == frames[i]);
        }
        lemma_stroke_goes_on(editor, board, frames.drop_last(), origin, places.drop_last());
        assert(drags_on(frames[n - 1], places[n - 1]));
    }
    lemma_no_pen(before);
    assert(route(way) == if shorter.len() > 0 && shorter.last().same(places.last()) {
        shorter
    } else {
        shorter.push(places.last())
    });
    let point = StrokePoint { point: places.last(), pressure: ONE };
    assert(crate::stylus::with_point(along(shorter), point) =~= along(route(way)));
    assert(editor.after_frames(board, frames) == before.mouse_frame(board, frames.last()).0);
}

/// A stroke that is drawn with the mouse goes where the mouse went: from where the button was
/// pressed through every place that the mouse was dragged to, in their order, and nowhere
/// else. Each of its points has full pressure.
pub proof fn law_a_stroke_goes_where_the_mouse_went(
    editor: EditorView,
    board: Board,
    frames: Seq<PointerFrame>,
    release: PointerFrame,
    origin: Point,
    places: Seq<Point>,
)
    requires
        editor.tool == EditorTool::Stroke,
        editor.without_pen_at_work(),
        editor.interaction is None,
        drag_through(frames, origin, places),
        lets_go(release),
        origin.same(origin),
        forall|i: int| 0 <= i < places.len() ==> (#[trigger] places[i]).same(places[i]),
    ensures
        ({
            &&& editor.drag_result(board, frames, release) matches ReleasedView::NewStroke { points }
            &&& points.len() == route(seq![origin] + places).len()
            &&& forall|i: int|
                0 <= i < points.len() ==> (#[trigger] points[i]).point == route(
                    seq![origin] + places,
                )[i] && points[i].pressure == ONE
        }),
{
    lemma_stroke_goes_on(editor, board, frames, origin, places);
    lemma_no_pen(editor.after_frames(board, frames));
    let way = seq![origin] + places;
    assert forall|i: int| 0 <= i < way.len() implies (#[trigger] way[i]).same(way[i]) by {
        if i > 0 {
            assert(way[i] == places[i - 1]);
        }
    }
    lemma_route_ends(way);
    assert(way.last() == places.last());
}

/// Where the mouse never stays at a place, a stroke visits exactly the place where the button
/// was pressed and the places that the mouse was dragged to.
pub proof fn law_a_route_without_halts_is_the_way(places: Seq<Point>)
    requires
        forall|i: int|
            0 < i < places.len() ==> !places[i - 1].same(#[trigger] places[i]),
    ensures
        route(places) == places,
    decreases places.len(),
{
    if places.len() > 0 {
        let before = places.drop_last();
        assert forall|i: int| 0 < i < before.len() implies !before[i - 1].same(
            #[trigger] before[i],
        ) by {
            assert(before[i] == places[i]);
        }
        law_a_route_without_halts_is_the_way(before);
        if before.len() > 0 {
            assert(before.last() == places[places.len() - 2]);
            assert(!places[places.len() - 2].same(places[places.len() - 1]));
        }
        assert(before.push(places.last()) =~= places);
    } else {
        assert(route(places) =~= places);
    }
}

/// What a drag that is under way comes to be as the mouse goes on to a point.
spec fn brought_to(interaction: InteractionView, to: Point) -> InteractionView {
    match interaction {
        InteractionView::Draw { element_id, tool, start, current, stroke_points } => {
            InteractionView::Draw { element_id, tool, start, current: to, stroke_points }
        },
        InteractionView::Move { element_id, start, current } => InteractionView::Move {
            element_id,
            start,
            current: to,
        },
        InteractionView::ResizeRectangle { element_id, handle, original, current } => {
            InteractionView::ResizeRectangle { element_id, handle, original, current: to }
        },
        InteractionView::UpdateArrowEndpoint { element_id, endpoint, current } => {
            InteractionView::UpdateArrowEndpoint { element_id, endpoint, current: to }
        },
        InteractionView::DragRectangleLabel { element_id, current, grab_offset_px } => {
            InteractionView::DragRectangleLabel { element_id, current: to, grab_offset_px }
        },
    }
}

/// What the first frame of a drag begins is what the whole drag does.
proof fn lemma_drag_goes_on(
    editor: EditorView,
    board: Board,
    frames: Seq<PointerFrame>,
    origin: Point,
    places: Seq<Point>,
    begun: InteractionView,
)
    requires
        editor.without_pen_at_work(),
        drag_through(frames, origin, places),
        editor.mouse_frame(board, frames[0]).0.interaction == Some(begun),
        editor.mouse_frame(board, frames[0]).0.without_pen_at_work(),
        begun == brought_to(begun, places[0]),
        begun matches InteractionView::Draw { tool, .. } ==> tool == EditorTool::Rectangle || tool
            == EditorTool::Arrow,
    ensures
        ({
            let first = editor.mouse_frame(board, frames[0]).0;
            editor.after_frames(board, frames) == EditorView {
                interaction: Some(brought_to(begun, places.last())),
                ..first
            }
        }),
    decreases frames.len(),
{
    let n = frames.len() as int;
    let before = editor.after_frames(board, frames.drop_last());
    if n == 1 {
        assert(frames.drop_last() =~= Seq::<PointerFrame>::empty());
    } else {
        assert(frames.drop_last()[0] == frames[0]);
        assert forall|i: int| 0 < i < frames.drop_last().len() implies drags_on(
            #[trigger] frames.drop_last()[i],
            places.drop_last()[i],
        ) by {
            assert(frames.drop_last()[i] == frames[i]);
        }
        lemma_drag_goes_on(editor, board, frames.drop_last(), origin, places.drop_last(), begun);
        assert(drags_on(frames[n - 1], places[n - 1]));
        lemma_no_pen(before);
    }
}

/// A rectangle or an arrow that is drawn reaches from where the button was pressed to the last
/// place of the mouse, wherever the mouse went in between; a rectangle is the new element that
/// the first frame names.
pub proof fn law_a_new_shape_reaches_from_press_to_release(
    editor: EditorView,
    board: Board,
    frames: Seq<PointerFrame>,
    release: PointerFrame,
    origin: Point,
    places: Seq<Point>,
)
    requires
        editor.tool == EditorTool::Rectangle || editor.tool == EditorTool::Arrow,
        editor.without_pen_at_work(),
        editor.interaction is None,
        editor.selected_element_id is None,
        drag_through(frames, origin, places),
        lets_go(release),
        forall|at: int| !#[trigger] candidate(
            board.elements@,
            frames[0].under_start@,
            editor.tool,
            at,
        ),
    ensures
        editor.tool == EditorTool::Rectangle ==> editor.drag_result(board, frames, release) == (
        ReleasedView::NewRectangle {
            element_id: frames[0].new_element_id,
            start: origin,
            end: places.last(),
        }),
        editor.tool == EditorTool::Arrow ==> editor.drag_result(board, frames, release) == (
        ReleasedView::NewArrow { start: origin, end: places.last() }),
{
    lemma_no_pen(editor);
    assert(hit_at(board.elements@, frames[0].under_start@, editor.tool) is None) by {
        if exists|at: int| #[trigger] topmost(board.elements@, frames[0].under_start@, editor.tool, at) {
            let at = choose|at: int| #[trigger]
                topmost(board.elements@, frames[0].under_start@, editor.tool, at);
            assert(candidate(board.elements@, frames[0].under_start@, editor.tool, at));
        }
    }
    let begun = InteractionView::Draw {
        element_id: frames[0].new_element_id,
        tool: editor.tool,
        start: origin,
        current: places[0],
        stroke_points: Seq::empty(),
    };
    lemma_drag_goes_on(editor, board, frames, origin, places, begun);
    lemma_no_pen(editor.after_frames(board, frames));
}

/// Dragging the topmost element under the mouse selects it and moves it: from where the button
/// was pressed to the last place of the mouse. Where it is the label of a rectangle that is
/// dragged, only the label is moved.
pub proof fn law_dragging_an_element_moves_it(
    editor: EditorView,
    board: Board,
    frames: Seq<PointerFrame>,
    release: PointerFrame,
    origin: Point,
    places: Seq<Point>,
    at: int,
)
    requires
        editor.tool != EditorTool::Stroke,
        editor.without_pen_at_work(),
        editor.interaction is None,
        editor.selected_element_id is None,
        drag_through(frames, origin, places),
        lets_go(release),
        topmost(board.elements@, frames[0].under_start@, editor.tool, at),
        element_at(board.elements@, board.elements@[at].element_id) == Some(at),
    ensures
        ({
            let element_id = board.elements@[at].element_id;
            let done = editor.after_frames(board, frames).mouse_frame(board, release).0;
            &&& done.selected_element_id == Some(element_id)
            &&& done.interaction is None
            &&& editor.drag_result(board, frames, release) == if board.elements@[at].payload
                is Rectangle && frames[0].under_start@[at].label {
                ReleasedView::Label {
                    element_id,
                    current: places.last(),
                    grab_offset_px: frames[0].under_start@[at].grab_offset_px,
                }
            } else {
                ReleasedView::Move { element_id, start: origin, current: places.last() }
            }
        }),
{
    lemma_no_pen(editor);
    lemma_hit_is(board.elements@, frames[0].under_start@, editor.tool, at);
    let element_id = board.elements@[at].element_id;
    assert(hit_id(board.elements@, frames[0].under_start@, editor.tool) == Some(element_id));
    let begun = if board.elements@[at].payload is Rectangle && frames[0].under_start@[at].label {
        InteractionView::DragRectangleLabel {
            element_id,
            current: places[0],
            grab_offset_px: frames[0].under_start@[at].grab_offset_px,
        }
    } else {
        InteractionView::Move { element_id, start: origin, current: places[0] }
    };
    lemma_drag_goes_on(editor, board, frames, origin, places, begun);
    lemma_no_pen(editor.after_frames(board, frames));
}

/// Dragging a handle of the selected rectangle resizes it, and dragging an end of the selected
/// arrow moves that end: to the last place of the mouse. What is resized is the body that the
/// rectangle had as the button was pressed.
pub proof fn law_dragging_a_handle_reshapes_the_selected_element(
    editor: EditorView,
    board: Board,
    frames: Seq<PointerFrame>,
    release: PointerFrame,
    origin: Point,
    places: Seq<Point>,
    element_id: u128,
    at: int,
)
    requires
        editor.tool != EditorTool::Stroke,
        editor.without_pen_at_work(),
        editor.interaction is None,
        editor.selected_element_id == Some(element_id),
        drag_through(frames, origin, places),
        lets_go(release),
        element_at(board.elements@, element_id) == Some(at),
        selects(editor.tool, board.elements@[at].payload),
    ensures
        frames[0].under_start@[at].handle matches Some(handle) ==> editor.drag_result(
            board,
            frames,
            release,
        ) == (ReleasedView::Resize {
            element_id,
            handle,
            original: frames[0].under_start@[at].body,
            current: places.last(),
        }),
        frames[0].under_start@[at].handle is None ==> (
        frames[0].under_start@[at].endpoint matches Some(endpoint) ==> editor.drag_result(
            board,
            frames,
            release,
        ) == (ReleasedView::Endpoint { element_id, endpoint, current: places.last() })),
{
    lemma_no_pen(editor);
    let under = frames[0].under_start@[at];
    if let Some(handle) = under.handle {
        let begun = InteractionView::ResizeRectangle {
            element_id,
            handle,
            original: under.body,
            current: places[0],
        };
        lemma_drag_goes_on(editor, board, frames, origin, places, begun);
        lemma_no_pen(editor.after_frames(board, frames));
    } else if let Some(endpoint) = under.endpoint {
        let begun = InteractionView::UpdateArrowEndpoint {
            element_id,
            endpoint,
            current: places[0],
        };
        lemma_drag_goes_on(editor, board, frames, origin, places, begun);
        lemma_no_pen(editor.after_frames(board, frames));
    }
}

} // verus!
