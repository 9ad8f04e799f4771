//! What the pointer does in the editor: it selects, moves and resizes elements, draws new
//! ones, and starts to write texts.

use vstd::prelude::*;

use crate::board::{
    double_click_starts_editing, edits_on_click, edits_on_double_click, element_at, hit_id,
    hit_test_document_for_tool, selects, single_click_starts_editing, tool_selects_element,
    ArrowEndpoint, Board, ElementPayload, ElementUnder, RectangleHandle, TextStyle,
};
use crate::editor::{
    text_begun, EditorController, EditorView, InteractionView, PointerInteraction, TextEditing,
    TextTarget, TextView,
};
use crate::stylus::{
    append_stroke_point, append_stylus_samples, apply_release_taper, frame_start, stroke_from,
    strongest, tapered, with_point, with_samples, PenFrame, Point, StrokePoint, StylusEvent,
    StylusSample, ONE,
};
use crate::tools::EditorTool;

verus! {

/// The text that a new rectangle begins with.
pub const DEFAULT_RECTANGLE_LABEL: &'static str = "标题";

/// What is said where an arrow is too short for a label.
pub const ARROW_LABEL_TOO_SHORT_TOAST: &'static str = "箭头过短无法插入文字";

/// What the pointer did in a frame.
pub struct PointerFrame {
    /// Where it is on the document.
    pub position: Option<Point>,
    /// Where its button was pressed.
    pub press_origin: Option<Point>,
    pub double_clicked: bool,
    pub clicked: bool,
    pub drag_started: bool,
    pub dragged: bool,
    pub drag_stopped: bool,
    /// What of each element is at the pointer.
    pub under: Vec<ElementUnder>,
    /// What of each element is where a drag starts.
    pub under_start: Vec<ElementUnder>,
    /// An identifier that no element has.
    pub new_element_id: u128,
    /// The look of a new text.
    pub new_text_style: TextStyle,
    /// Where a new text stands once it was dragged along with the pointer.
    pub dragged_anchor: Point,
}

impl PointerFrame {
    /// Whether the frame tells of each element of a document.
    pub open spec fn fits(&self, board: Board) -> bool {
        self.under@.len() == board.elements@.len() && self.under_start@.len()
            == board.elements@.len()
    }

    /// Where a drag starts: where the button was pressed, or where the pointer is.
    pub open spec fn start(&self) -> Option<Point> {
        match self.press_origin {
            Some(origin) => Some(origin),
            None => self.position,
        }
    }
}

/// What became of a drag that was let go.
pub enum Released {
    Nothing,
    NewRectangle { element_id: u128, start: Point, end: Point },
    NewArrow { start: Point, end: Point },
    NewStroke { points: Vec<StrokePoint> },
    Move { element_id: u128, start: Point, current: Point },
    Resize { element_id: u128, handle: RectangleHandle, original: (Point, Point), current: Point },
    Endpoint { element_id: u128, endpoint: ArrowEndpoint, current: Point },
    Label { element_id: u128, current: Point, grab_offset_px: Point },
}

/// The same, with the points of a stroke as a sequence.
pub enum ReleasedView {
    Nothing,
    NewRectangle { element_id: u128, start: Point, end: Point },
    NewArrow { start: Point, end: Point },
    NewStroke { points: Seq<StrokePoint> },
    Move { element_id: u128, start: Point, current: Point },
    Resize { element_id: u128, handle: RectangleHandle, original: (Point, Point), current: Point },
    Endpoint { element_id: u128, endpoint: ArrowEndpoint, current: Point },
    Label { element_id: u128, current: Point, grab_offset_px: Point },
}

impl View for Released {
    type V = ReleasedView;

    open spec fn view(&self) -> ReleasedView {
        match self {
            Released::Nothing => ReleasedView::Nothing,
            Released::NewRectangle { element_id, start, end } => ReleasedView::NewRectangle {
                element_id: *element_id,
                start: *start,
                end: *end,
            },
            Released::NewArrow { start, end } => ReleasedView::NewArrow {
                start: *start,
                end: *end,
            },
            Released::NewStroke { points } => ReleasedView::NewStroke { points: points@ },
            Released::Move { element_id, start, current } => ReleasedView::Move {
                element_id: *element_id,
                start: *start,
                current: *current,
            },
            Released::Resize { element_id, handle, original, current } => ReleasedView::Resize {
                element_id: *element_id,
                handle: *handle,
                original: *original,
                current: *current,
            },
            Released::Endpoint { element_id, endpoint, current } => ReleasedView::Endpoint {
                element_id: *element_id,
                endpoint: *endpoint,
                current: *current,
            },
            Released::Label { element_id, current, grab_offset_px } => ReleasedView::Label {
                element_id: *element_id,
                current: *current,
                grab_offset_px: *grab_offset_px,
            },
        }
    }
}

/// What the pen did in a frame, as far as it matters to the pointer.
#[derive(Clone, Copy, PartialEq, Eq, Structural)]
pub struct PenStage {
    /// Whether a stroke was already being drawn.
    pub drawing: bool,
    pub no_samples: bool,
    pub ended: bool,
    pub cancelled: bool,
    /// Whether the pressures of the stroke have yet to be lowered towards its tip.
    pub taper_due: bool,
}

/// What the pointer asks for outside, in this order.
pub struct PointerOutcome {
    /// The notice that an arrow is too short for a label.
    pub toast: bool,
    /// A number is to be inserted here.
    pub sequence: Option<Point>,
    /// A stroke of a single point is to be added.
    pub dot: Option<StrokePoint>,
    pub released: Released,
}

/// What the pointer asks for outside, but for the pressure of a dot.
pub struct OutcomeView {
    pub toast: bool,
    pub sequence: Option<Point>,
    /// Where a stroke of a single point is to be added.
    pub dot: Option<Point>,
    pub released: ReleasedView,
}

impl View for PointerOutcome {
    type V = OutcomeView;

    open spec fn view(&self) -> OutcomeView {
        OutcomeView {
            toast: self.toast,
            sequence: self.sequence,
            dot: match self.dot {
                Some(dot) => Some(dot.point),
                None => None,
            },
            released: self.released@,
        }
    }
}

/// Nothing is asked for.
pub open spec fn nothing_asked() -> OutcomeView {
    OutcomeView { toast: false, sequence: None, dot: None, released: ReleasedView::Nothing }
}

/// The last place of the samples of a frame.
pub open spec fn last_place(samples: Seq<StylusSample>, current: Point) -> Point {
    if samples.len() == 0 {
        current
    } else {
        samples.last().point
    }
}

impl EditorView {
    /// Whether a stroke is being drawn.
    pub open spec fn draws_stroke(self) -> bool {
        self.interaction matches Some(InteractionView::Draw { tool, .. }) && tool
            == EditorTool::Stroke
    }

    /// The last place of the pen on the document.
    pub open spec fn last_pen_point(self) -> Option<Point> {
        let points = match self.interaction {
            Some(InteractionView::Draw { tool: EditorTool::Stroke, stroke_points, .. }) => {
                stroke_points
            },
            _ => self.pending_stroke_points,
        };
        if points.len() == 0 {
            None
        } else {
            Some(points.last().point)
        }
    }

    /// What the pen did since the last frame.
    pub open spec fn pen_frame(self, points: Seq<Option<Point>>) -> PenFrame {
        frame_start(self.active_stylus_id, self.last_pen_point()).after_all(
            self.queued_stylus_events,
            points,
        )
    }

    /// The state once what the pen did was taken in: it continues the stroke that is being
    /// drawn, or waits for the pointer to begin one. Without the tool for strokes a pen does
    /// nothing.
    pub open spec fn pen_taken(self, points: Seq<Option<Point>>) -> (EditorView, PenStage) {
        if self.tool == EditorTool::Stroke || self.draws_stroke() {
            let frame = self.pen_frame(points);
            let taken = EditorView {
                queued_stylus_events: Seq::empty(),
                active_stylus_id: frame.active,
                ..self
            };
            (
                match self.interaction {
                    Some(InteractionView::Draw {
                        element_id,
                        tool: EditorTool::Stroke,
                        start,
                        current,
                        stroke_points,
                    }) => EditorView {
                        interaction: Some(
                            InteractionView::Draw {
                                element_id,
                                tool: EditorTool::Stroke,
                                start,
                                current: last_place(frame.samples, current),
                                stroke_points: with_samples(stroke_points, frame.samples),
                            },
                        ),
                        ..taken
                    },
                    _ => EditorView {
                        pending_stroke_points: with_samples(
                            self.pending_stroke_points,
                            frame.samples,
                        ),
                        ..taken
                    },
                },
                PenStage {
                    drawing: self.draws_stroke(),
                    no_samples: frame.samples.len() == 0,
                    ended: frame.ended,
                    cancelled: frame.cancelled,
                    taper_due: frame.ended,
                },
            )
        } else {
            (
                self.without_pen(),
                PenStage {
                    drawing: false,
                    no_samples: true,
                    ended: false,
                    cancelled: false,
                    taper_due: false,
                },
            )
        }
    }

    /// The state once the pressures of the stroke were lowered towards its tip, where the pen
    /// was lifted: those of the stroke that is being drawn, or of the one that waits for the
    /// pointer.
    pub open spec fn release_tapered(self, stage: PenStage, caps: Seq<u32>) -> EditorView {
        if !stage.ended {
            self
        } else {
            match self.interaction {
                Some(InteractionView::Draw {
                    element_id,
                    tool: EditorTool::Stroke,
                    start,
                    current,
                    stroke_points,
                }) => EditorView {
                    interaction: Some(
                        InteractionView::Draw {
                            element_id,
                            tool: EditorTool::Stroke,
                            start,
                            current,
                            stroke_points: tapered(stroke_points, caps),
                        },
                    ),
                    ..self
                },
                _ => EditorView {
                    pending_stroke_points: tapered(self.pending_stroke_points, caps),
                    ..self
                },
            }
        }
    }

    /// One begins to write the text or the label of an element, and whether it is said that
    /// an arrow is too short for a label. A label that is not shown is only written anew where
    /// that is asked for.
    pub open spec fn editing_existing(self, board: Board, element_id: u128, recreate: bool) -> (
        EditorView,
        bool,
    ) {
        match board.get(element_id) {
            None => (self, false),
            Some(element) => match element.payload {
                ElementPayload::Text { text, text_style, .. } => (
                    EditorView {
                        text_editing: Some(
                            text_begun(
                                TextTarget::ExistingText { element_id },
                                text@,
                                text_style,
                                false,
                                false,
                            ),
                        ),
                        ..self
                    },
                    false,
                ),
                ElementPayload::Arrow { label, can_host_label, .. } => if label.text is None
                    && !recreate {
                    (self, false)
                } else if label.text is None && !can_host_label {
                    (self, true)
                } else {
                    (
                        EditorView {
                            text_editing: Some(
                                text_begun(
                                    TextTarget::ArrowLabel { element_id },
                                    shown_label(label.text),
                                    label.text_style,
                                    false,
                                    false,
                                ),
                            ),
                            ..self
                        },
                        false,
                    )
                },
                ElementPayload::Rectangle { label, .. } => if label.text is None && !recreate {
                    (self, false)
                } else {
                    (
                        EditorView {
                            text_editing: Some(
                                text_begun(
                                    TextTarget::RectangleLabel { element_id },
                                    shown_label(label.text),
                                    label.text_style,
                                    false,
                                    label.text is None,
                                ),
                            ),
                            ..self
                        },
                        false,
                    )
                },
                _ => (self, false),
            },
        }
    }

    /// The element that a double click of a frame is on.
    pub open spec fn double_click_target(self, board: Board, frame: PointerFrame) -> Option<u128> {
        if frame.double_clicked && self.tool != EditorTool::Stroke && frame.position is Some {
            hit_id(board.elements@, frame.under@, self.tool)
        } else {
            None
        }
    }

    /// A double click selects an element, and starts to edit its text where it has one.
    pub open spec fn double_clicked(self, board: Board, frame: PointerFrame, element_id: u128) -> (
        EditorView,
        bool,
    ) {
        let selected = EditorView { selected_element_id: Some(element_id), ..self };
        match element_at(board.elements@, element_id) {
            Some(at) if edits_on_double_click(board.elements@[at].payload, frame.under@[at].label)
                => selected.editing_existing(board, element_id, true),
            _ => (selected, false),
        }
    }

    /// A click selects an element, or does what the tool does where there is none.
    pub open spec fn clicked(self, board: Board, frame: PointerFrame) -> (EditorView, OutcomeView) {
        match frame.position {
            Some(position) if frame.clicked => match hit_id(
                board.elements@,
                frame.under@,
                self.tool,
            ) {
                Some(element_id) => {
                    let selected = EditorView { selected_element_id: Some(element_id), ..self };
                    match element_at(board.elements@, element_id) {
                        Some(at) if edits_on_click(
                            board.elements@[at].payload,
                            frame.under@[at].label,
                        ) => {
                            let (next, toast) = selected.editing_existing(board, element_id, false);
                            (next, OutcomeView { toast, ..nothing_asked() })
                        },
                        _ => (selected, nothing_asked()),
                    }
                },
                None => {
                    let deselected = EditorView { selected_element_id: None, ..self };
                    match self.tool {
                        EditorTool::Text => (
                            EditorView {
                                text_editing: Some(
                                    text_begun(
                                        TextTarget::NewText { anchor_px: position },
                                        Seq::empty(),
                                        frame.new_text_style,
                                        false,
                                        false,
                                    ),
                                ),
                                ..deselected
                            },
                            nothing_asked(),
                        ),
                        EditorTool::Sequence => (
                            deselected,
                            OutcomeView { sequence: Some(position), ..nothing_asked() },
                        ),
                        EditorTool::Stroke => (
                            EditorView { pending_stroke_points: Seq::empty(), ..deselected },
                            OutcomeView { dot: Some(position), ..nothing_asked() },
                        ),
                        _ => (deselected, nothing_asked()),
                    }
                },
            },
            _ => (self, nothing_asked()),
        }
    }

    /// An element is selected, and moved along with the pointer.
    pub open spec fn moving(self, element_id: u128, start: Point) -> EditorView {
        EditorView {
            selected_element_id: Some(element_id),
            interaction: Some(InteractionView::Move { element_id, start, current: start }),
            ..self
        }
    }

    /// A rectangle is selected, and resized with the pointer.
    pub open spec fn resizing(self, element_id: u128, under: ElementUnder, handle: RectangleHandle, start: Point) -> EditorView {
        EditorView {
            selected_element_id: Some(element_id),
            interaction: Some(
                InteractionView::ResizeRectangle {
                    element_id,
                    handle,
                    original: under.body,
                    current: start,
                },
            ),
            ..self
        }
    }

    /// An arrow is selected, and one of its ends is moved along with the pointer.
    pub open spec fn moving_end(self, element_id: u128, endpoint: ArrowEndpoint, start: Point) -> EditorView {
        EditorView {
            selected_element_id: Some(element_id),
            interaction: Some(
                InteractionView::UpdateArrowEndpoint { element_id, endpoint, current: start },
            ),
            ..self
        }
    }

    /// A drag that begins while a text is being written moves or resizes what the text
    /// belongs to. Says whether it does.
    pub open spec fn text_drag(self, board: Board, frame: PointerFrame, start: Point) -> (
        EditorView,
        bool,
    ) {
        match self.text_editing {
            None => (self, false),
            Some(editing) => match editing.target {
                TextTarget::RectangleLabel { element_id } => match element_at(
                    board.elements@,
                    element_id,
                ) {
                    Some(at) if board.elements@[at].payload is Rectangle => (
                        match frame.under_start@[at].handle {
                            Some(handle) => self.resizing(
                                element_id,
                                frame.under_start@[at],
                                handle,
                                start,
                            ),
                            None => self.moving(element_id, start),
                        },
                        true,
                    ),
                    _ => (self, false),
                },
                TextTarget::ArrowLabel { element_id } => match element_at(
                    board.elements@,
                    element_id,
                ) {
                    Some(at) => (
                        match frame.under_start@[at].endpoint {
                            Some(endpoint) => self.moving_end(element_id, endpoint, start),
                            None => self.moving(element_id, start),
                        },
                        true,
                    ),
                    None => (self, false),
                },
                TextTarget::ExistingText { element_id } => (self.moving(element_id, start), true),
                TextTarget::NewText { .. } => (
                    EditorView {
                        interaction: Some(
                            InteractionView::Draw {
                                element_id: frame.new_element_id,
                                tool: EditorTool::Text,
                                start,
                                current: start,
                                stroke_points: Seq::empty(),
                            },
                        ),
                        ..self
                    },
                    true,
                ),
            },
        }
    }

    /// The handle or the end of the selected element that a drag begins at.
    pub open spec fn grabbed(self, board: Board, frame: PointerFrame, start: Point) -> Option<
        EditorView,
    > {
        match self.selected_element_id {
            Some(element_id) => match element_at(board.elements@, element_id) {
                Some(at) if selects(self.tool, board.elements@[at].payload) => {
                    match (frame.under_start@[at].handle, frame.under_start@[at].endpoint) {
                        (Some(handle), _) => Some(
                            self.resizing(element_id, frame.under_start@[at], handle, start),
                        ),
                        (None, Some(endpoint)) => Some(
                            self.moving_end(element_id, endpoint, start),
                        ),
                        (None, None) => None,
                    }
                },
                _ => None,
            },
            None => None,
        }
    }

    /// A drag takes hold of a handle of the selected element, of the label of a rectangle, or
    /// of the element that it begins at. Says whether it takes hold of anything.
    pub open spec fn selection_drag(self, board: Board, frame: PointerFrame, start: Point) -> (
        EditorView,
        bool,
    ) {
        match self.grabbed(board, frame, start) {
            Some(next) => (next, true),
            None => match hit_id(board.elements@, frame.under_start@, self.tool) {
                None => (EditorView { selected_element_id: None, ..self }, false),
                Some(element_id) => (
                    match element_at(board.elements@, element_id) {
                        Some(at) if board.elements@[at].payload is Rectangle
                            && frame.under_start@[at].label => EditorView {
                            selected_element_id: Some(element_id),
                            interaction: Some(
                                InteractionView::DragRectangleLabel {
                                    element_id,
                                    current: start,
                                    grab_offset_px: frame.under_start@[at].grab_offset_px,
                                },
                            ),
                            ..self
                        },
                        _ => self.moving(element_id, start),
                    },
                    true,
                ),
            },
        }
    }

    /// A new element is drawn with the pointer.
    pub open spec fn drawing(self, frame: PointerFrame, start: Point) -> EditorView {
        EditorView {
            selected_element_id: None,
            pending_stroke_points: if self.tool == EditorTool::Stroke {
                Seq::empty()
            } else {
                self.pending_stroke_points
            },
            interaction: Some(
                InteractionView::Draw {
                    element_id: frame.new_element_id,
                    tool: self.tool,
                    start,
                    current: match frame.position {
                        Some(position) => position,
                        None => start,
                    },
                    stroke_points: if self.tool == EditorTool::Stroke {
                        stroke_from(self.pending_stroke_points, start)
                    } else {
                        Seq::empty()
                    },
                },
            ),
            ..self
        }
    }

    /// A drag begins.
    pub open spec fn drag_begun(self, board: Board, frame: PointerFrame, editing_only: bool) -> EditorView {
        match frame.start() {
            Some(start) if frame.drag_started => if editing_only {
                self.text_drag(board, frame, start).0
            } else {
                let (next, held) = if self.tool == EditorTool::Stroke {
                    (self, false)
                } else {
                    self.selection_drag(board, frame, start)
                };
                if !held && (self.tool == EditorTool::Rectangle || self.tool == EditorTool::Arrow
                    || self.tool == EditorTool::Stroke) {
                    next.drawing(frame, start)
                } else {
                    next
                }
            },
            _ => self,
        }
    }

    /// A drag goes on.
    pub open spec fn drag_moved(self, frame: PointerFrame, stage: PenStage) -> EditorView {
        match frame.position {
            Some(position) if frame.dragged => match self.interaction {
                Some(InteractionView::Draw { element_id, tool, start, stroke_points, .. }) => {
                    EditorView {
                        text_editing: match self.text_editing {
                            Some(editing) if tool == EditorTool::Text && editing.target is NewText => {
                                Some(
                                    TextView {
                                        target: TextTarget::NewText {
                                            anchor_px: frame.dragged_anchor,
                                        },
                                        ..editing
                                    },
                                )
                            },
                            other => other,
                        },
                        interaction: Some(
                            InteractionView::Draw {
                                element_id,
                                tool,
                                start,
                                current: position,
                                stroke_points: if tool == EditorTool::Stroke && stage.no_samples
                                    && self.active_stylus_id is None {
                                    with_point(
                                        stroke_points,
                                        StrokePoint { point: position, pressure: ONE },
                                    )
                                } else {
                                    stroke_points
                                },
                            },
                        ),
                        ..self
                    }
                },
                Some(InteractionView::Move { element_id, start, .. }) => EditorView {
                    interaction: Some(
                        InteractionView::Move { element_id, start, current: position },
                    ),
                    ..self
                },
                Some(InteractionView::ResizeRectangle { element_id, handle, original, .. }) => {
                    EditorView {
                        interaction: Some(
                            InteractionView::ResizeRectangle {
                                element_id,
                                handle,
                                original,
                                current: position,
                            },
                        ),
                        ..self
                    }
                },
                Some(InteractionView::UpdateArrowEndpoint { element_id, endpoint, .. }) => {
                    EditorView {
                        interaction: Some(
                            InteractionView::UpdateArrowEndpoint {
                                element_id,
                                endpoint,
                                current: position,
                            },
                        ),
                        ..self
                    }
                },
                Some(InteractionView::DragRectangleLabel { element_id, grab_offset_px, .. }) => {
                    EditorView {
                        interaction: Some(
                            InteractionView::DragRectangleLabel {
                                element_id,
                                current: position,
                                grab_offset_px,
                            },
                        ),
                        ..self
                    }
                },
                None => self,
            },
            _ => self,
        }
    }

    /// What becomes of the drag that is under way as it is let go.
    pub open spec fn let_go(self) -> ReleasedView {
        match self.interaction {
            None => ReleasedView::Nothing,
            Some(InteractionView::Draw { element_id, tool, start, current, stroke_points }) => {
                match tool {
                    EditorTool::Rectangle => ReleasedView::NewRectangle {
                        element_id,
                        start,
                        end: current,
                    },
                    EditorTool::Arrow => ReleasedView::NewArrow { start, end: current },
                    EditorTool::Stroke => ReleasedView::NewStroke {
                        points: if stroke_points.len() > 0 && stroke_points.last().point.same(
                            current,
                        ) {
                            stroke_points
                        } else {
                            with_point(stroke_points, StrokePoint { point: current, pressure: ONE })
                        },
                    },
                    _ => ReleasedView::Nothing,
                }
            },
            Some(InteractionView::Move { element_id, start, current }) => ReleasedView::Move {
                element_id,
                start,
                current,
            },
            Some(InteractionView::ResizeRectangle { element_id, handle, original, current }) => {
                ReleasedView::Resize { element_id, handle, original, current }
            },
            Some(InteractionView::UpdateArrowEndpoint { element_id, endpoint, current }) => {
                ReleasedView::Endpoint { element_id, endpoint, current }
            },
            Some(InteractionView::DragRectangleLabel { element_id, current, grab_offset_px }) => {
                ReleasedView::Label { element_id, current, grab_offset_px }
            },
        }
    }

    /// The drag that is under way is let go.
    pub open spec fn without_drag(self) -> EditorView {
        if self.interaction is Some {
            EditorView { interaction: None, released_preview: Seq::empty(), ..self }
        } else {
            self
        }
    }

    /// A drag ends.
    pub open spec fn drag_ended(self, frame: PointerFrame, stage: PenStage) -> (
        EditorView,
        ReleasedView,
    ) {
        if frame.drag_stopped {
            (
                EditorView { pending_stroke_points: Seq::empty(), ..self.without_drag() },
                self.let_go(),
            )
        } else if stage.ended && !frame.clicked {
            (EditorView { pending_stroke_points: Seq::empty(), ..self }, ReleasedView::Nothing)
        } else {
            (self, ReleasedView::Nothing)
        }
    }

    /// A stroke of the pen was cancelled.
    pub open spec fn pen_cancelled(self, stage: PenStage) -> EditorView {
        EditorView {
            interaction: if stage.drawing {
                None
            } else {
                self.interaction
            },
            pending_stroke_points: Seq::empty(),
            ..self
        }
    }

    /// What the pointer does in a frame, after the pen.
    pub open spec fn pointer_handled(
        self,
        board: Board,
        frame: PointerFrame,
        stage: PenStage,
        editing_only: bool,
    ) -> (EditorView, OutcomeView) {
        if stage.cancelled {
            (self.pen_cancelled(stage), nothing_asked())
        } else {
            match self.double_click_target(board, frame) {
                Some(element_id) if !editing_only => {
                    let (next, toast) = self.double_clicked(board, frame, element_id);
                    (next, OutcomeView { toast, ..nothing_asked() })
                },
                _ => {
                    let (clicked, asked) = if editing_only {
                        (self, nothing_asked())
                    } else {
                        self.clicked(board, frame)
                    };
                    let (next, released) = clicked.drag_begun(
                        board,
                        frame,
                        editing_only,
                    ).drag_moved(frame, stage).drag_ended(frame, stage);
                    (next, OutcomeView { released, ..asked })
                },
            }
        }
    }
}

/// The text of a label, or nothing where it is not shown.
pub open spec fn shown_label(text: Option<String>) -> Seq<char> {
    match text {
        Some(text) => text@,
        None => Seq::empty(),
    }
}

fn copy_shown_label(text: &Option<String>) -> (shown: String)
    ensures
        shown@ == shown_label(*text),
{
    match text {
        Some(text) => text.clone(),
        None => {
            let empty = String::new();
            assert(empty@ =~= Seq::<char>::empty());
            empty
        },
    }
}

impl EditorController {
    /// Takes in what the pen did since the last frame, given where each of its events is on
    /// the document.
    pub fn take_pen(&mut self, points: &Vec<Option<Point>>) -> (stage: PenStage)
        requires
            old(self).well_formed(),
            points@.len() == old(self).stylus.queued@.len(),
        ensures
            final(self).well_formed(),
            (final(self)@, stage) == old(self)@.pen_taken(points@),
            final(self).text_editing == old(self).text_editing,
    {
        let drawing = match &self.interaction {
            Some(PointerInteraction::Draw { element_id: _, tool, start: _, current: _, stroke_points: _ }) => {
                *tool == EditorTool::Stroke
            },
            _ => false,
        };
        if self.tool != EditorTool::Stroke && !drawing {
            self.reset_stylus_input();
            return PenStage {
                drawing: false,
                no_samples: true,
                ended: false,
                cancelled: false,
                taper_due: false,
            };
        }
        let last_point = match &self.interaction {
            Some(PointerInteraction::Draw {
                element_id: _,
                tool: EditorTool::Stroke,
                start: _,
                current: _,
                stroke_points,
            }) => {
                let n: usize = stroke_points.len();
                if n == 0 {
                    None
                } else {
                    Some(stroke_points[n - 1].point)
                }
            },
            _ => {
                let n: usize = self.stylus.pending.len();
                if n == 0 {
                    None
                } else {
                    Some(self.stylus.pending[n - 1].point)
                }
            },
        };
        let frame = self.stylus.take_stylus_frame(points, last_point);
        assert(self@.queued_stylus_events =~= Seq::<StylusEvent>::empty());
        let stage = PenStage {
            drawing,
            no_samples: frame.samples.len() == 0,
            ended: frame.ended,
            cancelled: frame.cancelled,
            taper_due: frame.ended,
        };
        match self.interaction.take() {
            Some(PointerInteraction::Draw {
                element_id,
                tool: EditorTool::Stroke,
                start,
                current,
                stroke_points,
            }) => {
                let mut stroke_points = stroke_points;
                append_stylus_samples(&mut stroke_points, &frame.samples);
                let n: usize = frame.samples.len();
                let current = if n == 0 {
                    current
                } else {
                    frame.samples[n - 1].point
                };
                self.interaction =
                Some(
                    PointerInteraction::Draw {
                        element_id,
                        tool: EditorTool::Stroke,
                        start,
                        current,
                        stroke_points,
                    },
                );
            },
            other => {
                self.interaction = other;
                append_stylus_samples(&mut self.stylus.pending, &frame.samples);
            },
        }
        stage
    }

    /// Lowers the pressures of the stroke towards its tip where the pen was lifted, given how
    /// strong each point may be at most. This comes between the pen and the pointer.
    pub fn taper_released_stroke(&mut self, stage: PenStage, caps: &Vec<u32>) -> (done: PenStage)
        requires
            old(self).well_formed(),
        ensures
            final(self).well_formed(),
            final(self)@ == old(self)@.release_tapered(stage, caps@),
            final(self).text_editing == old(self).text_editing,
            done == (PenStage { taper_due: false, ..stage }),
    {
        let done = PenStage { taper_due: false, ..stage };
        if !stage.ended {
            return done;
        }
        match self.interaction.take() {
            Some(PointerInteraction::Draw {
                element_id,
                tool: EditorTool::Stroke,
                start,
                current,
                stroke_points,
            }) => {
                let mut stroke_points = stroke_points;
                apply_release_taper(&mut stroke_points, caps);
                self.interaction =
                Some(
                    PointerInteraction::Draw {
                        element_id,
                        tool: EditorTool::Stroke,
                        start,
                        current,
                        stroke_points,
                    },
                );
            },
            other => {
                self.interaction = other;
                apply_release_taper(&mut self.stylus.pending, caps);
            },
        }
        done
    }

    /// Begins to write the text or the label of an element. Says whether the notice is due
    /// that an arrow is too short for a label.
    pub fn start_editing_existing(
        &mut self,
        board: &Board,
        element_id: u128,
        recreate_hidden_label: bool,
    ) -> (toast: bool)
        requires
            old(self).well_formed(),
        ensures
            final(self).well_formed(),
            (final(self)@, toast) == old(self)@.editing_existing(
                *board,
                element_id,
                recreate_hidden_label,
            ),
    {
        match board.element(element_id) {
            None => false,
            Some(element) => match &element.payload {
                ElementPayload::Text { anchor_px: _, text, box_width_px: _, text_style } => {
                    self.text_editing =
                    Some(
                        TextEditing::begin(
                            TextTarget::ExistingText { element_id },
                            text.clone(),
                            *text_style,
                            false,
                            false,
                        ),
                    );
                    false
                },
                ElementPayload::Arrow { stroke_style: _, label, can_host_label } => {
                    if label.text.is_none() && !recreate_hidden_label {
                        return false;
                    }
                    if label.text.is_none() && !*can_host_label {
                        return true;
                    }
                    self.text_editing =
                    Some(
                        TextEditing::begin(
                            TextTarget::ArrowLabel { element_id },
                            copy_shown_label(&label.text),
                            label.text_style,
                            false,
                            false,
                        ),
                    );
                    false
                },
                ElementPayload::Rectangle {
                    stroke_style: _,
                    label,
                    label_anchor: _,
                    preferred_label_anchor: _,
                } => {
                    if label.text.is_none() && !recreate_hidden_label {
                        return false;
                    }
                    self.text_editing =
                    Some(
                        TextEditing::begin(
                            TextTarget::RectangleLabel { element_id },
                            copy_shown_label(&label.text),
                            label.text_style,
                            false,
                            label.text.is_none(),
                        ),
                    );
                    false
                },
                _ => false,
            },
        }
    }

    fn click(&mut self, board: &Board, frame: &PointerFrame) -> (asked: PointerOutcome)
        requires
            old(self).well_formed(),
            frame.fits(*board),
        ensures
            final(self).well_formed(),
            (final(self)@, asked@) == old(self)@.clicked(*board, *frame),
            asked.dot matches Some(dot) ==> if old(self).stylus.pending@.len() == 0 {
                dot.pressure == ONE
            } else {
                strongest(old(self).stylus.pending@, dot.pressure)
            },
    {
        let mut asked = PointerOutcome {
            toast: false,
            sequence: None,
            dot: None,
            released: Released::Nothing,
        };
        if !frame.clicked {
            return asked;
        }
        if let Some(position) = frame.position {
            match hit_test_document_for_tool(board, &frame.under, self.tool) {
                Some(element_id) => {
                    self.selected_element_id = Some(element_id);
                    if single_click_starts_editing(board, element_id, &frame.under) {
                        asked.toast = self.start_editing_existing(board, element_id, false);
                    }
                },
                None => {
                    self.selected_element_id = None;
                    match self.tool {
                        EditorTool::Text => {
                            let empty = String::new();
                            assert(empty@ =~= Seq::<char>::empty());
                            self.text_editing =
                            Some(
                                TextEditing::begin(
                                    TextTarget::NewText { anchor_px: position },
                                    empty,
                                    frame.new_text_style,
                                    false,
                                    false,
                                ),
                            );
                        },
                        EditorTool::Sequence => {
                            asked.sequence = Some(position);
                        },
                        EditorTool::Stroke => {
                            let pressure: u32 = self.stylus.dot_pressure();
                            asked.dot = Some(StrokePoint { point: position, pressure });
                            self.stylus.pending = Vec::new();
                            assert(self@.pending_stroke_points =~= Seq::<StrokePoint>::empty());
                        },
                        _ => {},
                    }
                },
            }
        }
        asked
    }

    /// Begins a drag while a text is being written. Says whether it takes hold of what the
    /// text belongs to.
    pub fn begin_text_editing_transform_drag(
        &mut self,
        board: &Board,
        frame: &PointerFrame,
        start: Point,
    ) -> (held: bool)
        requires
            old(self).well_formed(),
            frame.fits(*board),
        ensures
            final(self).well_formed(),
            (final(self)@, held) == old(self)@.text_drag(*board, *frame, start),
    {
        let target = match &self.text_editing {
            Some(editing) => editing.target,
            None => {
                return false;
            },
        };
        match target {
            TextTarget::RectangleLabel { element_id } => {
                let at: usize = match board.find(element_id) {
                    Some(at) => at,
                    None => {
                        return false;
                    },
                };
                match board.elements[at].payload {
                    ElementPayload::Rectangle { .. } => {},
                    _ => {
                        return false;
                    },
                }
                self.selected_element_id = Some(element_id);
                self.interaction =
                Some(
                    match frame.under_start[at].handle {
                        Some(handle) => PointerInteraction::ResizeRectangle {
                            element_id,
                            handle,
                            original: frame.under_start[at].body,
                            current: start,
                        },
                        None => PointerInteraction::Move { element_id, start, current: start },
                    },
                );
                true
            },
            TextTarget::ArrowLabel { element_id } => {
                let at: usize = match board.find(element_id) {
                    Some(at) => at,
                    None => {
                        return false;
                    },
                };
                self.selected_element_id = Some(element_id);
                self.interaction =
                Some(
                    match frame.under_start[at].endpoint {
                        Some(endpoint) => PointerInteraction::UpdateArrowEndpoint {
                            element_id,
                            endpoint,
                            current: start,
                        },
                        None => PointerInteraction::Move { element_id, start, current: start },
                    },
                );
                true
            },
            TextTarget::ExistingText { element_id } => {
                self.selected_element_id = Some(element_id);
                self.interaction =
                Some(PointerInteraction::Move { element_id, start, current: start });
                true
            },
            TextTarget::NewText { anchor_px: _ } => {
                let stroke_points: Vec<StrokePoint> = Vec::new();
                assert(stroke_points@ =~= Seq::<StrokePoint>::empty());
                self.interaction =
                Some(
                    PointerInteraction::Draw {
                        element_id: frame.new_element_id,
                        tool: EditorTool::Text,
                        start,
                        current: start,
                        stroke_points,
                    },
                );
                true
            },
        }
    }

    /// Begins a drag on an element. Says whether it takes hold of one.
    pub fn begin_selection_drag(&mut self, board: &Board, frame: &PointerFrame, start: Point) -> (held:
        bool)
        requires
            old(self).well_formed(),
            frame.fits(*board),
        ensures
            final(self).well_formed(),
            (final(self)@, held) == old(self)@.selection_drag(*board, *frame, start),
    {
        if let Some(element_id) = self.selected_element_id {
            if let Some(at) = board.find(element_id) {
                if tool_selects_element(self.tool, &board.elements[at]) {
                    if let Some(handle) = frame.under_start[at].handle {
                        self.interaction =
                        Some(
                            PointerInteraction::ResizeRectangle {
                                element_id,
                                handle,
                                original: frame.under_start[at].body,
                                current: start,
                            },
                        );
                        return true;
                    }
                    if let Some(endpoint) = frame.under_start[at].endpoint {
                        self.interaction =
                        Some(
                            PointerInteraction::UpdateArrowEndpoint {
                                element_id,
                                endpoint,
                                current: start,
                            },
                        );
                        return true;
                    }
                }
            }
        }
        match hit_test_document_for_tool(board, &frame.under_start, self.tool) {
            None => {
                self.selected_element_id = None;
                false
            },
            Some(element_id) => {
                self.selected_element_id = Some(element_id);
                let label = match board.find(element_id) {
                    Some(at) => match board.elements[at].payload {
                        ElementPayload::Rectangle { .. } => {
                            if frame.under_start[at].label {
                                Some(frame.under_start[at].grab_offset_px)
                            } else {
                                None
                            }
                        },
                        _ => None,
                    },
                    None => None,
                };
                self.interaction =
                Some(
                    match label {
                        Some(grab_offset_px) => PointerInteraction::DragRectangleLabel {
                            element_id,
                            current: start,
                            grab_offset_px,
                        },
                        None => PointerInteraction::Move { element_id, start, current: start },
                    },
                );
                true
            },
        }
    }

    fn begin_drag(&mut self, board: &Board, frame: &PointerFrame, editing_only: bool)
        requires
            old(self).well_formed(),
            frame.fits(*board),
        ensures
            final(self).well_formed(),
            final(self)@ == old(self)@.drag_begun(*board, *frame, editing_only),
    {
        if !frame.drag_started {
            return ;
        }
        let start = match frame.press_origin {
            Some(origin) => origin,
            None => match frame.position {
                Some(position) => position,
                None => {
                    return ;
                },
            },
        };
        if editing_only {
            self.begin_text_editing_transform_drag(board, frame, start);
            return ;
        }
        let held = self.tool != EditorTool::Stroke && self.begin_selection_drag(
            board,
            frame,
            start,
        );
        if held {
            return ;
        }
        match self.tool {
            EditorTool::Rectangle | EditorTool::Arrow | EditorTool::Stroke => {
                self.selected_element_id = None;
                let stroke_points = if self.tool == EditorTool::Stroke {
                    self.stylus.begin_stroke(start)
                } else {
                    Vec::new()
                };
                proof {
                    if self.tool == EditorTool::Stroke {
                        assert(self@.pending_stroke_points =~= Seq::<StrokePoint>::empty());
                    } else {
                        assert(stroke_points@ =~= Seq::<StrokePoint>::empty());
                    }
                }
                self.interaction =
                Some(
                    PointerInteraction::Draw {
                        element_id: frame.new_element_id,
                        tool: self.tool,
                        start,
                        current: match frame.position {
                            Some(position) => position,
                            None => start,
                        },
                        stroke_points,
                    },
                );
            },
            _ => {},
        }
    }

    fn move_drag(&mut self, frame: &PointerFrame, stage: PenStage)
        requires
            old(self).well_formed(),
        ensures
            final(self).well_formed(),
            final(self)@ == old(self)@.drag_moved(*frame, stage),
    {
        if !frame.dragged {
            return ;
        }
        let position = match frame.position {
            Some(position) => position,
            None => {
                return ;
            },
        };
        match self.interaction.take() {
            Some(PointerInteraction::Draw { element_id, tool, start, current: _, stroke_points }) => {
                if tool == EditorTool::Text {
                    match self.text_editing.take() {
                        Some(editing) => {
                            let mut editing = editing;
                            if let TextTarget::NewText { anchor_px: _ } = editing.target {
                                editing.target =
                                TextTarget::NewText { anchor_px: frame.dragged_anchor };
                            }
                            self.text_editing = Some(editing);
                        },
                        None => {},
                    }
                }
                let mut stroke_points = stroke_points;
                if tool == EditorTool::Stroke && stage.no_samples && self.stylus.active.is_none() {
                    append_stroke_point(
                        &mut stroke_points,
                        StrokePoint { point: position, pressure: ONE },
                    );
                }
                self.interaction =
                Some(
                    PointerInteraction::Draw {
                        element_id,
                        tool,
                        start,
                        current: position,
                        stroke_points,
                    },
                );
            },
            Some(PointerInteraction::Move { element_id, start, current: _ }) => {
                self.interaction =
                Some(PointerInteraction::Move { element_id, start, current: position });
            },
            Some(PointerInteraction::ResizeRectangle { element_id, handle, original, current: _ }) => {
                self.interaction =
                Some(
                    PointerInteraction::ResizeRectangle {
                        element_id,
                        handle,
                        original,
                        current: position,
                    },
                );
            },
            Some(PointerInteraction::UpdateArrowEndpoint { element_id, endpoint, current: _ }) => {
                self.interaction =
                Some(
                    PointerInteraction::UpdateArrowEndpoint {
                        element_id,
                        endpoint,
                        current: position,
                    },
                );
            },
            Some(PointerInteraction::DragRectangleLabel { element_id, current: _, grab_offset_px }) => {
                self.interaction =
                Some(
                    PointerInteraction::DragRectangleLabel {
                        element_id,
                        current: position,
                        grab_offset_px,
                    },
                );
            },
            None => {},
        }
    }

    /// Lets go of the drag that is under way. Says what becomes of it.
    pub fn finish_pointer_interaction(&mut self) -> (released: Released)
        requires
            old(self).well_formed(),
        ensures
            final(self).well_formed(),
            final(self)@ == old(self)@.without_drag(),
            released@ == old(self)@.let_go(),
            final(self).text_editing == old(self).text_editing,
    {
        let interaction = match self.interaction.take() {
            Some(interaction) => interaction,
            None => {
                return Released::Nothing;
            },
        };
        self.released_preview = Vec::new();
        assert(self@.released_preview =~= Seq::<u128>::empty());
        match interaction {
            PointerInteraction::Draw { element_id, tool, start, current, stroke_points } => {
                match tool {
                    EditorTool::Rectangle => Released::NewRectangle {
                        element_id,
                        start,
                        end: current,
                    },
                    EditorTool::Arrow => Released::NewArrow { start, end: current },
                    EditorTool::Stroke => {
                        let mut points = stroke_points;
                        let n: usize = points.len();
                        if n == 0 || !points[n - 1].point.is_same(current) {
                            append_stroke_point(
                                &mut points,
                                StrokePoint { point: current, pressure: ONE },
                            );
                        }
                        Released::NewStroke { points }
                    },
                    _ => Released::Nothing,
                }
            },
            PointerInteraction::Move { element_id, start, current } => Released::Move {
                element_id,
                start,
                current,
            },
            PointerInteraction::ResizeRectangle { element_id, handle, original, current } => {
                Released::Resize { element_id, handle, original, current }
            },
            PointerInteraction::UpdateArrowEndpoint { element_id, endpoint, current } => {
                Released::Endpoint { element_id, endpoint, current }
            },
            PointerInteraction::DragRectangleLabel { element_id, current, grab_offset_px } => {
                Released::Label { element_id, current, grab_offset_px }
            },
        }
    }

    /// Does what the pointer asks for in a frame, after the pen: the stroke of a pen that was
    /// lifted has its pressures lowered by then. With `editing_only` the pointer only moves and
    /// resizes what the text that is being written belongs to.
    #[verifier::rlimit(60)]
    pub fn handle_pointer(
        &mut self,
        board: &Board,
        frame: &PointerFrame,
        stage: PenStage,
        editing_only: bool,
    ) -> (asked: PointerOutcome)
        requires
            old(self).well_formed(),
            frame.fits(*board),
            !stage.taper_due,
        ensures
            final(self).well_formed(),
            (final(self)@, asked@) == old(self)@.pointer_handled(
                *board,
                *frame,
                stage,
                editing_only,
            ),
            asked.dot matches Some(dot) ==> if old(self).stylus.pending@.len() == 0 {
                dot.pressure == ONE
            } else {
                strongest(old(self).stylus.pending@, dot.pressure)
            },
    {
        let mut asked = PointerOutcome {
            toast: false,
            sequence: None,
            dot: None,
            released: Released::Nothing,
        };
        if stage.cancelled {
            if stage.drawing {
                self.interaction = None;
            }
            self.stylus.pending = Vec::new();
            assert(self@.pending_stroke_points =~= Seq::<StrokePoint>::empty());
            return asked;
        }
        if !editing_only && frame.double_clicked && self.tool != EditorTool::Stroke
            && frame.position.is_some() {
            if let Some(element_id) = hit_test_document_for_tool(board, &frame.under, self.tool) {
                self.selected_element_id = Some(element_id);
                if double_click_starts_editing(board, element_id, &frame.under) {
                    asked.toast = self.start_editing_existing(board, element_id, true);
                }
                return asked;
            }
        }
        if !editing_only {
            asked = self.click(board, frame);
        }
        self.begin_drag(board, frame, editing_only);
        self.move_drag(frame, stage);
        if frame.drag_stopped {
            asked.released = self.finish_pointer_interaction();
            self.stylus.pending = Vec::new();
            assert(self@.pending_stroke_points =~= Seq::<StrokePoint>::empty());
        } else if stage.ended && !frame.clicked {
            self.stylus.pending = Vec::new();
            assert(self@.pending_stroke_points =~= Seq::<StrokePoint>::empty());
        }
        asked
    }
}

} // verus!
