//! The document on the screen: what of an element is at a point, what the elements that tools
//! make look like, and what is painted while the editor is in use.

use vstd::prelude::*;

use crate::board::{
    ArrowEndpoint, Board, ColorRgba, Element, ElementLabel, ElementPayload, LabelAnchor, LabelEdge,
    LabelSide, RectangleHandle, StrokeStyle, TextAlign, TextStyle, ToolStyle,
};
use crate::commands::DocumentCommand;
use crate::editor::{EditorController, EditorView, InteractionView, PointerInteraction, TextTarget};
use crate::pointer::DEFAULT_RECTANGLE_LABEL;
use crate::scale::{below, is_below};
use crate::stylus::{Point, ZERO};
use crate::text::{blank, is_blank};

verus! {

/// What stands for a label that is empty while it is being written: a space without width.
pub const EMPTY_LABEL_DRAFT: &'static str = "\u{200b}";

/// What of an element the geometry finds at a point.
#[derive(Clone, Copy)]
pub struct ElementHits {
    /// The point is within the element's bounds.
    pub in_bounds: bool,
    /// The point is on the line of a stroke.
    pub on_line: bool,
    /// The point is on the body of an arrow or a rectangle.
    pub on_body: bool,
    /// The point is on the label of an arrow or a rectangle.
    pub on_label: bool,
}

/// Whether an element is at a point: nothing is outside its bounds, and a stroke only where
/// its line is.
pub fn hit_test_element(element: &Element, hits: ElementHits) -> (hit: bool)
    ensures
        hit == (hits.in_bounds && match element.payload {
            ElementPayload::Stroke { .. } => hits.on_line,
            ElementPayload::Arrow { .. } => hits.on_body || hits.on_label,
            ElementPayload::Rectangle { .. } => hits.on_body || hits.on_label,
            ElementPayload::Text { .. } => true,
            ElementPayload::SequenceMarker { .. } => true,
        }),
{
    if !hits.in_bounds {
        return false;
    }
    match element.payload {
        ElementPayload::Stroke { .. } => hits.on_line,
        ElementPayload::Arrow { .. } => hits.on_body || hits.on_label,
        ElementPayload::Rectangle { .. } => hits.on_body || hits.on_label,
        ElementPayload::Text { .. } => true,
        ElementPayload::SequenceMarker { .. } => true,
    }
}

/// The handles of a rectangle, clockwise from its top left corner.
pub open spec fn handle_order() -> Seq<RectangleHandle> {
    seq![
        RectangleHandle::TopLeft,
        RectangleHandle::Top,
        RectangleHandle::TopRight,
        RectangleHandle::Right,
        RectangleHandle::BottomRight,
        RectangleHandle::Bottom,
        RectangleHandle::BottomLeft,
        RectangleHandle::Left,
    ]
}

/// The first place of a list that holds.
pub open spec fn first_true(list: Seq<bool>) -> Option<int>
    decreases list.len(),
{
    if list.len() == 0 {
        None
    } else {
        match first_true(list.drop_last()) {
            Some(at) => Some(at),
            None => if list.last() {
                Some(list.len() - 1)
            } else {
                None
            },
        }
    }
}

proof fn lemma_first_true_found(list: Seq<bool>, n: int)
    requires
        0 <= n <= list.len(),
        first_true(list.take(n)) is Some,
    ensures
        first_true(list) == first_true(list.take(n)),
    decreases list.len(),
{
    if n == list.len() {
        assert(list.take(n) =~= list);
    } else {
        assert(list.drop_last().take(n) =~= list.take(n));
        lemma_first_true_found(list.drop_last(), n);
    }
}

/// The handle of a rectangle that a point is near to, given for each handle, clockwise from
/// the top left corner, whether it is: the first.
pub fn hit_rectangle_handle(element: &Element, near: &Vec<bool>) -> (handle: Option<RectangleHandle>)
    requires
        near@.len() == 8,
    ensures
        handle == (if element.payload is Rectangle {
            match first_true(near@) {
                Some(at) => Some(handle_order()[at]),
                None => None,
            }
        } else {
            None
        }),
{
    match element.payload {
        ElementPayload::Rectangle { .. } => {},
        _ => {
            return None;
        },
    }
    let order: [RectangleHandle; 8] = [
        RectangleHandle::TopLeft,
        RectangleHandle::Top,
        RectangleHandle::TopRight,
        RectangleHandle::Right,
        RectangleHandle::BottomRight,
        RectangleHandle::Bottom,
        RectangleHandle::BottomLeft,
        RectangleHandle::Left,
    ];
    assert(order@ =~= handle_order());
    for i in 0..near.len()
        invariant
            near@.len() == 8,
            order@ == handle_order(),
            element.payload is Rectangle,
            first_true(near@.take(i as int)) is None,
    {
        assert(near@.take(i + 1).drop_last() =~= near@.take(i as int));
        if near[i] {
            proof {
                lemma_first_true_found(near@, i + 1);
            }
            return Some(order[i]);
        }
    }
    assert(near@.take(near@.len() as int) =~= near@);
    None
}

/// The end of an arrow that a point is near to; its start counts first.
pub fn hit_arrow_handle(element: &Element, near_start: bool, near_end: bool) -> (endpoint: Option<
    ArrowEndpoint,
>)
    ensures
        endpoint == (if !(element.payload is Arrow) {
            None
        } else if near_start {
            Some(ArrowEndpoint::Start)
        } else if near_end {
            Some(ArrowEndpoint::End)
        } else {
            None
        }),
{
    match element.payload {
        ElementPayload::Arrow { .. } => {
            if near_start {
                Some(ArrowEndpoint::Start)
            } else if near_end {
                Some(ArrowEndpoint::End)
            } else {
                None
            }
        },
        _ => None,
    }
}

/// How short an arrow may be: as its label needs it, where it has one for which that is known,
/// and else as its head needs it; and whether its end was dragged nearer than its label
/// allows.
pub fn arrow_length_limit(
    has_label: bool,
    label_minimum: Option<u32>,
    head_minimum: u32,
    distance: u32,
) -> (limit: (u32, bool))
    ensures
        limit == (match label_minimum {
            Some(minimum) if has_label => (minimum, below(distance, minimum)),
            _ => (head_minimum, false),
        }),
{
    if has_label {
        if let Some(minimum) = label_minimum {
            return (minimum, is_below(distance, minimum));
        }
    }
    (head_minimum, false)
}

/// The text of a label as it is shown while it is being written.
pub open spec fn draft_text(buffer: Seq<char>) -> Seq<char> {
    if blank(buffer) {
        EMPTY_LABEL_DRAFT@
    } else {
        buffer
    }
}

/// The text of a label as it is shown while it is being written.
pub fn label_draft(buffer: &str) -> (text: String)
    ensures
        text@ == draft_text(buffer@),
{
    if is_blank(buffer) {
        EMPTY_LABEL_DRAFT.to_owned()
    } else {
        buffer.to_owned()
    }
}

/// The corners of a rectangle on the document.
pub type Corners = (Point, Point);

/// What is in the way of the label of a rectangle: the bodies of the other rectangles, each
/// followed by its label where it has one.
pub open spec fn obstacles(
    elements: Seq<Element>,
    bodies: Seq<Corners>,
    labels: Seq<Option<Corners>>,
    current: Option<u128>,
) -> Seq<Corners>
    decreases elements.len(),
{
    if elements.len() == 0 {
        Seq::empty()
    } else {
        let at = elements.len() - 1;
        let before = obstacles(elements.drop_last(), bodies, labels, current);
        if current == Some(elements[at].element_id) || !(elements[at].payload is Rectangle) {
            before
        } else {
            match labels[at] {
                Some(label) => before.push(bodies[at]).push(label),
                None => before.push(bodies[at]),
            }
        }
    }
}

/// What is in the way of the label of a rectangle, given the bodies of all rectangles and
/// where their labels stand.
pub fn rectangle_label_obstacles(
    board: &Board,
    bodies: &Vec<Corners>,
    labels: &Vec<Option<Corners>>,
    current_element_id: Option<u128>,
) -> (found: Vec<Corners>)
    requires
        bodies@.len() == board.elements@.len(),
        labels@.len() == board.elements@.len(),
    ensures
        found@ == obstacles(board.elements@, bodies@, labels@, current_element_id),
{
    let mut found: Vec<Corners> = Vec::new();
    for i in 0..board.elements.len()
        invariant
            bodies@.len() == board.elements@.len(),
            labels@.len() == board.elements@.len(),
            found@ == obstacles(
                board.elements@.take(i as int),
                bodies@,
                labels@,
                current_element_id,
            ),
    {
        assert(board.elements@.take(i + 1).drop_last() =~= board.elements@.take(i as int));
        let is_current = match current_element_id {
            Some(element_id) => element_id == board.elements[i].element_id,
            None => false,
        };
        if !is_current {
            if let ElementPayload::Rectangle { .. } = board.elements[i].payload {
                found.push(bodies[i]);
                if let Some(label) = labels[i] {
                    found.push(label);
                }
            }
        }
    }
    assert(board.elements@.take(board.elements@.len() as int) =~= board.elements@);
    found
}

/// The place of the label of a new rectangle: outside, at the left end of its top edge.
pub open spec fn first_anchor() -> LabelAnchor {
    LabelAnchor { edge: LabelEdge::Top, side: LabelSide::Outside, position: ZERO }
}

/// A new rectangle, with the look of its tool and the colour that stands out against it: its
/// label is shown.
pub fn rectangle_payload(style: ToolStyle, contrasting: ColorRgba, align: TextAlign) -> (payload:
    ElementPayload)
    ensures
        payload matches ElementPayload::Rectangle {
            stroke_style,
            label,
            label_anchor,
            preferred_label_anchor,
        } && {
            &&& stroke_style == (StrokeStyle {
                color_rgba: style.color_rgba,
                width_px: style.width_px,
            })
            &&& label.text matches Some(text)
            &&& text@ == DEFAULT_RECTANGLE_LABEL@
            &&& label.text_style == (TextStyle {
                color_rgba: contrasting,
                font_size_px: style.font_size_px,
                align,
            })
            &&& label_anchor == first_anchor()
            &&& preferred_label_anchor == first_anchor()
        },
{
    let anchor = LabelAnchor { edge: LabelEdge::Top, side: LabelSide::Outside, position: ZERO };
    ElementPayload::Rectangle {
        stroke_style: StrokeStyle { color_rgba: style.color_rgba, width_px: style.width_px },
        label: ElementLabel {
            text: Some(DEFAULT_RECTANGLE_LABEL.to_owned()),
            text_style: TextStyle {
                color_rgba: contrasting,
                font_size_px: style.font_size_px,
                align,
            },
        },
        label_anchor: anchor,
        preferred_label_anchor: anchor,
    }
}

/// A new arrow, with the look of its tool and the colour that stands out against it: its
/// label is not shown.
pub fn arrow_payload(
    style: ToolStyle,
    contrasting: ColorRgba,
    align: TextAlign,
    can_host_label: bool,
) -> (payload: ElementPayload)
    ensures
        payload == (ElementPayload::Arrow {
            stroke_style: StrokeStyle { color_rgba: style.color_rgba, width_px: style.width_px },
            label: ElementLabel {
                text: None,
                text_style: TextStyle {
                    color_rgba: contrasting,
                    font_size_px: style.font_size_px,
                    align,
                },
            },
            can_host_label,
        }),
{
    ElementPayload::Arrow {
        stroke_style: StrokeStyle { color_rgba: style.color_rgba, width_px: style.width_px },
        label: ElementLabel {
            text: None,
            text_style: TextStyle {
                color_rgba: contrasting,
                font_size_px: style.font_size_px,
                align,
            },
        },
        can_host_label,
    }
}

/// A new stroke, with the look of its tool.
pub fn stroke_payload(style: ToolStyle) -> (payload: ElementPayload)
    ensures
        payload == (ElementPayload::Stroke {
            stroke_style: StrokeStyle { color_rgba: style.color_rgba, width_px: style.width_px },
            hardness: style.hardness,
        }),
{
    ElementPayload::Stroke {
        stroke_style: StrokeStyle { color_rgba: style.color_rgba, width_px: style.width_px },
        hardness: style.hardness,
    }
}

/// A new number, with the look of its tool and the colour that stands out against it.
pub fn sequence_payload(style: ToolStyle, contrasting: ColorRgba, align: TextAlign) -> (payload:
    ElementPayload)
    ensures
        payload == (ElementPayload::SequenceMarker {
            fill_rgba: style.color_rgba,
            stroke_style: StrokeStyle { color_rgba: style.color_rgba, width_px: style.width_px },
            text_style: TextStyle {
                color_rgba: contrasting,
                font_size_px: style.font_size_px,
                align,
            },
        }),
{
    ElementPayload::SequenceMarker {
        fill_rgba: style.color_rgba,
        stroke_style: StrokeStyle { color_rgba: style.color_rgba, width_px: style.width_px },
        text_style: TextStyle { color_rgba: contrasting, font_size_px: style.font_size_px, align },
    }
}

/// What of the element that is dragged is shown other than the document has it.
#[derive(Clone, Copy)]
pub enum PreviewEdit {
    /// It is moved.
    Move { element_id: u128, start: Point, current: Point },
    /// Its corners are others.
    Corners { element_id: u128, handle: RectangleHandle, original: (Point, Point), current: Point },
    /// One of its ends is elsewhere; with a label it stays far enough from the other.
    Endpoint { element_id: u128, endpoint: ArrowEndpoint, current: Point, keeps_distance: bool },
    /// Its label stands elsewhere.
    Label { element_id: u128, current: Point, grab_offset_px: Point },
}

/// What of the element that is dragged is shown other than the document has it.
pub open spec fn preview_edit_of(interaction: InteractionView, board: Board) -> Option<PreviewEdit> {
    match interaction {
        InteractionView::Draw { .. } => None,
        InteractionView::Move { element_id, start, current } => if board.get(element_id) is Some {
            Some(PreviewEdit::Move { element_id, start, current })
        } else {
            None
        },
        InteractionView::ResizeRectangle { element_id, handle, original, current } => match board.get(
            element_id,
        ) {
            Some(element) if element.payload is Rectangle => Some(
                PreviewEdit::Corners { element_id, handle, original, current },
            ),
            _ => None,
        },
        InteractionView::UpdateArrowEndpoint { element_id, endpoint, current } => match board.get(
            element_id,
        ) {
            Some(element) => match element.payload {
                ElementPayload::Arrow { label, .. } => Some(
                    PreviewEdit::Endpoint {
                        element_id,
                        endpoint,
                        current,
                        keeps_distance: label.text is Some,
                    },
                ),
                _ => None,
            },
            None => None,
        },
        InteractionView::DragRectangleLabel { element_id, current, grab_offset_px } => {
            match board.get(element_id) {
                Some(element) if element.payload is Rectangle => Some(
                    PreviewEdit::Label { element_id, current, grab_offset_px },
                ),
                _ => None,
            }
        },
    }
}

/// What of the element that is dragged is shown other than the document has it.
pub fn interaction_preview_element(interaction: &PointerInteraction, board: &Board) -> (edit: Option<
    PreviewEdit,
>)
    ensures
        edit == preview_edit_of(interaction@, *board),
{
    match interaction {
        PointerInteraction::Draw { .. } => None,
        PointerInteraction::Move { element_id, start, current } => match board.element(*element_id) {
            Some(_) => Some(
                PreviewEdit::Move { element_id: *element_id, start: *start, current: *current },
            ),
            None => None,
        },
        PointerInteraction::ResizeRectangle { element_id, handle, original, current } => {
            match board.element(*element_id) {
                Some(element) => match element.payload {
                    ElementPayload::Rectangle { .. } => Some(
                        PreviewEdit::Corners {
                            element_id: *element_id,
                            handle: *handle,
                            original: *original,
                            current: *current,
                        },
                    ),
                    _ => None,
                },
                None => None,
            }
        },
        PointerInteraction::UpdateArrowEndpoint { element_id, endpoint, current } => {
            match board.element(*element_id) {
                Some(element) => match &element.payload {
                    ElementPayload::Arrow { stroke_style: _, label, can_host_label: _ } => Some(
                        PreviewEdit::Endpoint {
                            element_id: *element_id,
                            endpoint: *endpoint,
                            current: *current,
                            keeps_distance: label.text.is_some(),
                        },
                    ),
                    _ => None,
                },
                None => None,
            }
        },
        PointerInteraction::DragRectangleLabel { element_id, current, grab_offset_px } => {
            match board.element(*element_id) {
                Some(element) => match element.payload {
                    ElementPayload::Rectangle { .. } => Some(
                        PreviewEdit::Label {
                            element_id: *element_id,
                            current: *current,
                            grab_offset_px: *grab_offset_px,
                        },
                    ),
                    _ => None,
                },
                None => None,
            }
        },
    }
}

/// How an element is painted.
#[derive(Clone, Copy, PartialEq, Eq, Structural)]
pub enum PaintPart {
    Whole,
    /// Without the text of its label, which is being written.
    WithoutLabelText,
}

/// An element that is painted.
#[derive(Clone, Copy, PartialEq, Eq, Structural)]
pub struct PaintItem {
    pub element_id: u128,
    /// Whether it is painted as a drag or a command leaves it.
    pub from_preview: bool,
    pub part: PaintPart,
}

/// How an element of a document is painted: not at all where it is a text that is being
/// written, and without the text of its label where that is.
pub open spec fn painted(editor: EditorView, previews: Board, element: Element) -> Option<PaintItem> {
    let preview = previews.get(element.element_id);
    let shown = match preview {
        Some(preview) => preview.payload,
        None => element.payload,
    };
    let whole = PaintItem {
        element_id: element.element_id,
        from_preview: preview is Some,
        part: PaintPart::Whole,
    };
    match editor.text_editing {
        Some(editing) => match editing.target {
            TextTarget::ExistingText { element_id } if element_id == element.element_id => None,
            TextTarget::ArrowLabel { element_id } if element_id == element.element_id => {
                if shown is Arrow {
                    Some(PaintItem { part: PaintPart::WithoutLabelText, ..whole })
                } else {
                    None
                }
            },
            TextTarget::RectangleLabel { element_id } if element_id == element.element_id => {
                if shown is Rectangle {
                    Some(PaintItem { part: PaintPart::WithoutLabelText, ..whole })
                } else {
                    None
                }
            },
            _ => Some(whole),
        },
        None => Some(whole),
    }
}

/// How the elements of a document are painted, in their order.
pub open spec fn painted_all(editor: EditorView, previews: Board, elements: Seq<Element>) -> Seq<
    PaintItem,
>
    decreases elements.len(),
{
    if elements.len() == 0 {
        Seq::empty()
    } else {
        let before = painted_all(editor, previews, elements.drop_last());
        match painted(editor, previews, elements.last()) {
            Some(item) => before.push(item),
            None => before,
        }
    }
}

/// The elements that are shown and are not yet in the document, in their order.
pub open spec fn painted_new(board: Board, previews: Seq<Element>) -> Seq<PaintItem>
    decreases previews.len(),
{
    if previews.len() == 0 {
        Seq::empty()
    } else {
        let before = painted_new(board, previews.drop_last());
        if board.get(previews.last().element_id) is None {
            before.push(
                PaintItem {
                    element_id: previews.last().element_id,
                    from_preview: true,
                    part: PaintPart::Whole,
                },
            )
        } else {
            before
        }
    }
}

/// What marks the element that is selected.
#[derive(Clone, Copy, PartialEq, Eq, Structural)]
pub enum SelectionMarks {
    Nothing,
    /// The handles of a rectangle.
    Handles,
    /// The ends of an arrow.
    Ends,
    Outline,
}

/// What marks the element that is selected, as it is shown.
pub open spec fn marks_of(editor: EditorView, previews: Board, board: Board) -> SelectionMarks {
    match editor.selected_element_id {
        None => SelectionMarks::Nothing,
        Some(element_id) => {
            let shown = match previews.get(element_id) {
                Some(element) => Some(element),
                None => board.get(element_id),
            };
            match shown {
                None => SelectionMarks::Nothing,
                Some(element) => match element.payload {
                    ElementPayload::Rectangle { .. } => SelectionMarks::Handles,
                    ElementPayload::Arrow { .. } => SelectionMarks::Ends,
                    _ => SelectionMarks::Outline,
                },
            }
        },
    }
}

impl EditorController {
    fn paint_element(&self, previews: &Board, element: &Element) -> (item: Option<PaintItem>)
        ensures
            item == painted(self@, *previews, *element),
    {
        let preview = previews.element(element.element_id);
        let shown = match preview {
            Some(preview) => &preview.payload,
            None => &element.payload,
        };
        let whole = PaintItem {
            element_id: element.element_id,
            from_preview: preview.is_some(),
            part: PaintPart::Whole,
        };
        let without = PaintItem {
            element_id: element.element_id,
            from_preview: preview.is_some(),
            part: PaintPart::WithoutLabelText,
        };
        match &self.text_editing {
            Some(editing) => match editing.target {
                TextTarget::ExistingText { element_id } => {
                    if element_id == element.element_id {
                        None
                    } else {
                        Some(whole)
                    }
                },
                TextTarget::ArrowLabel { element_id } => {
                    if element_id == element.element_id {
                        match shown {
                            ElementPayload::Arrow { .. } => Some(without),
                            _ => None,
                        }
                    } else {
                        Some(whole)
                    }
                },
                TextTarget::RectangleLabel { element_id } => {
                    if element_id == element.element_id {
                        match shown {
                            ElementPayload::Rectangle { .. } => Some(without),
                            _ => None,
                        }
                    } else {
                        Some(whole)
                    }
                },
                TextTarget::NewText { anchor_px: _ } => Some(whole),
            },
            None => Some(whole),
        }
    }

    /// What is painted of a document, given the elements that a drag or a command leaves
    /// otherwise than the document has them: the document's elements in their order, then
    /// those that are new.
    pub fn paint_document_for_editing(&self, board: &Board, previews: &Board) -> (items: Vec<PaintItem>)
        ensures
            items@ == painted_all(self@, *previews, board.elements@) + painted_new(
                *board,
                previews.elements@,
            ),
    {
        let mut items: Vec<PaintItem> = Vec::new();
        for i in 0..board.elements.len()
            invariant
                items@ == painted_all(self@, *previews, board.elements@.take(i as int)),
        {
            assert(board.elements@.take(i + 1).drop_last() =~= board.elements@.take(i as int));
            if let Some(item) = self.paint_element(previews, &board.elements[i]) {
                items.push(item);
            }
        }
        assert(board.elements@.take(board.elements@.len() as int) =~= board.elements@);
        let ghost old_items = items@;
        assert(old_items + painted_new(*board, previews.elements@.take(0)) =~= old_items);
        for i in 0..previews.elements.len()
            invariant
                items@ == old_items + painted_new(*board, previews.elements@.take(i as int)),
        {
            assert(previews.elements@.take(i + 1).drop_last() =~= previews.elements@.take(
                i as int,
            ));
            let element_id: u128 = previews.elements[i].element_id;
            if board.element(element_id).is_none() {
                items.push(PaintItem { element_id, from_preview: true, part: PaintPart::Whole });
            }
            assert(items@ =~= old_items + painted_new(*board, previews.elements@.take(i + 1)));
        }
        assert(previews.elements@.take(previews.elements@.len() as int) =~= previews.elements@);
        items
    }

    /// What marks the element that is selected.
    pub fn paint_selection(&self, board: &Board, previews: &Board) -> (marks: SelectionMarks)
        ensures
            marks == marks_of(self@, *previews, *board),
    {
        let element_id: u128 = match self.selected_element_id {
            Some(element_id) => element_id,
            None => {
                return SelectionMarks::Nothing;
            },
        };
        let shown = match previews.element(element_id) {
            Some(element) => Some(element),
            None => board.element(element_id),
        };
        match shown {
            None => SelectionMarks::Nothing,
            Some(element) => match element.payload {
                ElementPayload::Rectangle { .. } => SelectionMarks::Handles,
                ElementPayload::Arrow { .. } => SelectionMarks::Ends,
                _ => SelectionMarks::Outline,
            },
        }
    }
}

/// While no text is being written, every element of a document is painted exactly once and
/// whole, in its place in the document's order.
pub proof fn law_every_element_is_painted(
    editor: EditorView,
    previews: Board,
    elements: Seq<Element>,
)
    requires
        editor.text_editing is None,
    ensures
        painted_all(editor, previews, elements).len() == elements.len(),
        forall|i: int|
            0 <= i < elements.len() ==> (#[trigger] painted_all(
                editor,
                previews,
                elements,
            )[i]).element_id == elements[i].element_id && painted_all(
                editor,
                previews,
                elements,
            )[i].part == PaintPart::Whole,
    decreases elements.len(),
{
    if elements.len() > 0 {
        law_every_element_is_painted(editor, previews, elements.drop_last());
        let before = painted_all(editor, previews, elements.drop_last());
        let all = painted_all(editor, previews, elements);
        assert forall|i: int| 0 <= i < elements.len() implies (#[trigger] all[i]).element_id
            == elements[i].element_id && all[i].part == PaintPart::Whole by {
            if i < elements.len() - 1 {
                assert(all[i] == before[i]);
                assert(elements.drop_last()[i] == elements[i]);
            }
        }
    }
}

/// Whether a press ends the writing of a text: it is on the document, and neither on the
/// toolbar nor on the text.
pub fn canvas_primary_pressed(pressed: bool, on_toolbar: bool, on_text: bool, on_canvas: bool) -> (yes:
    bool)
    ensures
        yes == (pressed && on_canvas && !on_toolbar && !on_text),
{
    pressed && !on_toolbar && !on_text && on_canvas
}

/// Where the panel with the options stands: it is shown while its key is held down and no
/// text is being written, and stays where the pointer was as it was opened.
pub fn option_panel_anchor(
    key_down: bool,
    writing: bool,
    anchor: Option<(u32, u32)>,
    hover: Option<(u32, u32)>,
) -> (place: Option<(u32, u32)>)
    ensures
        place == (if !key_down || writing {
            None
        } else if anchor is Some {
            anchor
        } else {
            hover
        }),
{
    if !key_down || writing {
        None
    } else if anchor.is_some() {
        anchor
    } else {
        hover
    }
}

/// How an element is moved among the others.
#[derive(Clone, Copy, PartialEq, Eq, Structural)]
pub enum LayerMove {
    Forward,
    Backward,
    ToFront,
    ToBack,
}

/// The command that moves an element among the others.
pub fn layer_command(layer_move: LayerMove, element_id: u128) -> (command: DocumentCommand)
    ensures
        command == (match layer_move {
            LayerMove::Forward => DocumentCommand::BringForward { element_id },
            LayerMove::Backward => DocumentCommand::SendBackward { element_id },
            LayerMove::ToFront => DocumentCommand::BringToFront { element_id },
            LayerMove::ToBack => DocumentCommand::SendToBack { element_id },
        }),
{
    match layer_move {
        LayerMove::Forward => DocumentCommand::BringForward { element_id },
        LayerMove::Backward => DocumentCommand::SendBackward { element_id },
        LayerMove::ToFront => DocumentCommand::BringToFront { element_id },
        LayerMove::ToBack => DocumentCommand::SendToBack { element_id },
    }
}

} // verus!
