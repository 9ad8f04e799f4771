//! What a drag that was let go does to the document, and what is shown of it before.

use vstd::prelude::*;

use crate::board::{
    dragged_corners, ArrowEndpoint, Board, ElementPayload, LabelAnchor, RectangleHandle, TextStyle,
};
use crate::commands::{is_same_anchor, same_anchor, DocumentCommand};
use crate::editor::{
    target_id, text_begun, text_target_element_id, EditorController, EditorView, InteractionView,
    PointerInteraction, TextEditing, TextTarget,
};
use crate::pointer::{Released, ReleasedView, DEFAULT_RECTANGLE_LABEL};
use crate::stylus::Point;
use crate::tools::EditorTool;

verus! {

/// What the geometry of a drag that was let go comes to.
#[derive(Clone, Copy)]
pub struct ReleaseFacts {
    /// The way that an element is moved.
    pub delta_px: Point,
    /// Whether that way, or the way of the end of an arrow, is long enough to count.
    pub moved: bool,
    /// The corners of a resized rectangle that is not too small, where they can be told.
    pub corners: Option<(Point, Point)>,
    /// Where the end of an arrow comes to stand.
    pub endpoint_px: Point,
    /// Whether the label of the arrow kept its end from where it was dragged to.
    pub constrained_for_label: bool,
    /// Where a label comes to stand, where it can be told.
    pub anchor: Option<LabelAnchor>,
}

/// What a drag that was let go does.
pub struct ReleaseResult {
    /// A command that is to be carried out.
    pub command: Option<DocumentCommand>,
    /// Whether the command counts only where the labels around can move out of the way.
    pub needs_reflow: bool,
    /// The notice that an arrow is too short for its label.
    pub toast: bool,
}

/// Nothing is done.
pub open spec fn no_result() -> ReleaseResult {
    ReleaseResult { command: None, needs_reflow: false, toast: false }
}

/// A command is carried out, and labels move out of its way.
pub open spec fn command_result(command: DocumentCommand) -> ReleaseResult {
    ReleaseResult { command: Some(command), needs_reflow: false, toast: false }
}

/// What a drag that was let go does: a move that is too short to count does nothing, a
/// rectangle is never made too small, the end of an arrow stays far enough from the other for
/// its label, and a label that stands where it stood is left alone.
pub open spec fn release_of(released: ReleasedView, board: Board, facts: ReleaseFacts) -> ReleaseResult {
    match released {
        ReleasedView::Move { element_id, .. } => if facts.moved {
            command_result(DocumentCommand::MoveElement { element_id, delta_px: facts.delta_px })
        } else {
            no_result()
        },
        ReleasedView::Resize { element_id, .. } => match (board.get(element_id), facts.corners) {
            (Some(element), Some((start_px, end_px))) => if element.payload is Rectangle {
                command_result(DocumentCommand::ResizeRectangle { element_id, start_px, end_px })
            } else {
                no_result()
            },
            _ => no_result(),
        },
        ReleasedView::Endpoint { element_id, endpoint, .. } => match board.get(element_id) {
            Some(element) => if element.payload is Arrow {
                ReleaseResult {
                    command: if facts.moved {
                        Some(
                            DocumentCommand::UpdateArrowEndpoint {
                                element_id,
                                endpoint,
                                position_px: facts.endpoint_px,
                            },
                        )
                    } else {
                        None
                    },
                    needs_reflow: false,
                    toast: facts.constrained_for_label,
                }
            } else {
                no_result()
            },
            None => no_result(),
        },
        ReleasedView::Label { element_id, .. } => match (board.get(element_id), facts.anchor) {
            (Some(element), Some(anchor)) => match element.payload {
                ElementPayload::Rectangle { label_anchor, preferred_label_anchor, .. } => {
                    if same_anchor(anchor, label_anchor) && same_anchor(
                        anchor,
                        preferred_label_anchor,
                    ) {
                        no_result()
                    } else {
                        ReleaseResult {
                            command: Some(
                                DocumentCommand::SetRectangleLabelPlacement {
                                    element_id,
                                    preferred_anchor: anchor,
                                    actual_anchor: anchor,
                                },
                            ),
                            needs_reflow: true,
                            toast: false,
                        }
                    }
                },
                _ => no_result(),
            },
            _ => no_result(),
        },
        _ => no_result(),
    }
}

/// What a drag of an element that was let go does.
pub fn release_command(released: &Released, board: &Board, facts: ReleaseFacts) -> (result:
    ReleaseResult)
    ensures
        result == release_of(released@, *board, facts),
{
    let mut result = ReleaseResult { command: None, needs_reflow: false, toast: false };
    match released {
        Released::Move { element_id, start: _, current: _ } => {
            if facts.moved {
                result.command =
                Some(
                    DocumentCommand::MoveElement {
                        element_id: *element_id,
                        delta_px: facts.delta_px,
                    },
                );
            }
        },
        Released::Resize { element_id, handle: _, original: _, current: _ } => {
            if let Some(element) = board.element(*element_id) {
                if let ElementPayload::Rectangle { .. } = element.payload {
                    if let Some((start_px, end_px)) = facts.corners {
                        result.command =
                        Some(
                            DocumentCommand::ResizeRectangle {
                                element_id: *element_id,
                                start_px,
                                end_px,
                            },
                        );
                    }
                }
            }
        },
        Released::Endpoint { element_id, endpoint, current: _ } => {
            if let Some(element) = board.element(*element_id) {
                if let ElementPayload::Arrow { .. } = element.payload {
                    if facts.moved {
                        result.command =
                        Some(
                            DocumentCommand::UpdateArrowEndpoint {
                                element_id: *element_id,
                                endpoint: *endpoint,
                                position_px: facts.endpoint_px,
                            },
                        );
                    }
                    result.toast = facts.constrained_for_label;
                }
            }
        },
        Released::Label { element_id, current: _, grab_offset_px: _ } => {
            if let Some(element) = board.element(*element_id) {
                if let ElementPayload::Rectangle {
                    stroke_style: _,
                    label: _,
                    label_anchor,
                    preferred_label_anchor,
                } = &element.payload {
                    if let Some(anchor) = facts.anchor {
                        if !is_same_anchor(anchor, *label_anchor) || !is_same_anchor(
                            anchor,
                            *preferred_label_anchor,
                        ) {
                            result.command =
                            Some(
                                DocumentCommand::SetRectangleLabelPlacement {
                                    element_id: *element_id,
                                    preferred_anchor: anchor,
                                    actual_anchor: anchor,
                                },
                            );
                            result.needs_reflow = true;
                        }
                    }
                }
            }
        },
        _ => {},
    }
    result
}

/// What is shown of a drag before it is let go.
#[derive(Clone, Copy, PartialEq, Eq, Structural)]
pub enum PreviewChoice {
    /// The document as it is.
    Empty,
    /// The one element that is dragged or drawn.
    Single,
    /// All elements that the command would change.
    Reflowed,
}

/// What the geometry of a drag that is under way comes to.
#[derive(Clone, Copy)]
pub struct PreviewFacts {
    /// Whether the one element can be shown.
    pub element: bool,
    /// Whether a rectangle that is drawn is sound as it stands.
    pub valid: bool,
    /// Whether the way of a move is long enough to count.
    pub moved: bool,
    /// Whether it can be told how large a rectangle must be, and whether a resized one is
    /// large enough.
    pub large_enough: bool,
    /// Where a label comes to stand, where it can be told.
    pub anchor: Option<LabelAnchor>,
    /// Whether the command changes any element, labels that move out of the way included.
    pub reflowed: bool,
}

/// The one element, where it can be shown.
pub open spec fn single(facts: PreviewFacts) -> PreviewChoice {
    if facts.element {
        PreviewChoice::Single
    } else {
        PreviewChoice::Empty
    }
}

/// All elements that a command changes, or another choice where there is none.
pub open spec fn reflowed_or(facts: PreviewFacts, otherwise: PreviewChoice) -> PreviewChoice {
    if facts.reflowed {
        PreviewChoice::Reflowed
    } else {
        otherwise
    }
}

/// What is shown of a drag before it is let go.
pub open spec fn preview_of(interaction: InteractionView, board: Board, facts: PreviewFacts) -> PreviewChoice {
    match interaction {
        InteractionView::Draw { tool, .. } => if tool != EditorTool::Rectangle {
            PreviewChoice::Empty
        } else if !facts.element {
            PreviewChoice::Empty
        } else if !facts.valid {
            PreviewChoice::Single
        } else {
            reflowed_or(facts, PreviewChoice::Single)
        },
        InteractionView::Move { element_id, .. } => match board.get(element_id) {
            None => PreviewChoice::Empty,
            Some(element) => if !(element.payload is Rectangle) {
                single(facts)
            } else if !facts.moved {
                PreviewChoice::Empty
            } else {
                reflowed_or(facts, single(facts))
            },
        },
        InteractionView::ResizeRectangle { .. } => if !facts.element {
            PreviewChoice::Empty
        } else if !facts.large_enough {
            PreviewChoice::Single
        } else {
            reflowed_or(facts, PreviewChoice::Single)
        },
        InteractionView::DragRectangleLabel { element_id, .. } => match (
            board.get(element_id),
            facts.anchor,
        ) {
            (Some(element), Some(anchor)) => match element.payload {
                ElementPayload::Rectangle { label_anchor, preferred_label_anchor, .. } => {
                    if same_anchor(anchor, label_anchor) && same_anchor(
                        anchor,
                        preferred_label_anchor,
                    ) {
                        PreviewChoice::Empty
                    } else {
                        reflowed_or(facts, PreviewChoice::Empty)
                    }
                },
                _ => PreviewChoice::Empty,
            },
            _ => PreviewChoice::Empty,
        },
        InteractionView::UpdateArrowEndpoint { .. } => single(facts),
    }
}

fn choose_single(facts: PreviewFacts) -> (choice: PreviewChoice)
    ensures
        choice == single(facts),
{
    if facts.element {
        PreviewChoice::Single
    } else {
        PreviewChoice::Empty
    }
}

/// What is shown of a drag before it is let go.
pub fn interaction_preview_set(
    interaction: &PointerInteraction,
    board: &Board,
    facts: PreviewFacts,
) -> (choice: PreviewChoice)
    ensures
        choice == preview_of(interaction@, *board, facts),
{
    match interaction {
        PointerInteraction::Draw { element_id: _, tool, start: _, current: _, stroke_points: _ } => {
            if *tool != EditorTool::Rectangle || !facts.element {
                return PreviewChoice::Empty;
            }
            if facts.valid && facts.reflowed {
                PreviewChoice::Reflowed
            } else {
                PreviewChoice::Single
            }
        },
        PointerInteraction::Move { element_id, start: _, current: _ } => {
            let element = match board.element(*element_id) {
                Some(element) => element,
                None => {
                    return PreviewChoice::Empty;
                },
            };
            match element.payload {
                ElementPayload::Rectangle { .. } => {},
                _ => {
                    return choose_single(facts);
                },
            }
            if !facts.moved {
                return PreviewChoice::Empty;
            }
            if facts.reflowed {
                PreviewChoice::Reflowed
            } else {
                choose_single(facts)
            }
        },
        PointerInteraction::ResizeRectangle { element_id: _, handle: _, original: _, current: _ } => {
            if !facts.element {
                return PreviewChoice::Empty;
            }
            if facts.large_enough && facts.reflowed {
                PreviewChoice::Reflowed
            } else {
                PreviewChoice::Single
            }
        },
        PointerInteraction::DragRectangleLabel { element_id, current: _, grab_offset_px: _ } => {
            let element = match board.element(*element_id) {
                Some(element) => element,
                None => {
                    return PreviewChoice::Empty;
                },
            };
            match (&element.payload, facts.anchor) {
                (
                    ElementPayload::Rectangle {
                        stroke_style: _,
                        label: _,
                        label_anchor,
                        preferred_label_anchor,
                    },
                    Some(anchor),
                ) => {
                    if is_same_anchor(anchor, *label_anchor) && is_same_anchor(
                        anchor,
                        *preferred_label_anchor,
                    ) {
                        return PreviewChoice::Empty;
                    }
                    if facts.reflowed {
                        PreviewChoice::Reflowed
                    } else {
                        PreviewChoice::Empty
                    }
                },
                _ => PreviewChoice::Empty,
            }
        },
        PointerInteraction::UpdateArrowEndpoint { element_id: _, endpoint: _, current: _ } => {
            choose_single(facts)
        },
    }
}

/// A resize that was let go gives the rectangle exactly the corners that the geometry came to,
/// the first as its start and the second as its end. Where these are the corners of the drag
/// itself, the edges that the handle does not stand for are those of the rectangle before, and
/// the others are where the handle was let go.
pub proof fn law_a_resize_has_the_corners_of_the_drag(
    board: Board,
    element_id: u128,
    handle: RectangleHandle,
    original: (Point, Point),
    current: Point,
    facts: ReleaseFacts,
    corners: (Point, Point),
)
    requires
        board.get(element_id) matches Some(element) && element.payload is Rectangle,
        facts.corners == Some(corners),
    ensures
        ({
            let result = release_of(
                ReleasedView::Resize { element_id, handle, original, current },
                board,
                facts,
            );
            &&& result.command matches Some(
                DocumentCommand::ResizeRectangle { element_id: resized, start_px, end_px },
            )
            &&& resized == element_id
            &&& start_px == corners.0
            &&& end_px == corners.1
            &&& !result.toast
            &&& corners == dragged_corners(original, handle, current) ==> {
                &&& handle is Top || handle is Bottom || handle is Right || handle is TopRight
                    || handle is BottomRight ==> start_px.x == original.0.x
                &&& handle is Top || handle is Bottom || handle is Left || handle is TopLeft
                    || handle is BottomLeft ==> end_px.x == original.1.x
                &&& handle is Left || handle is Right || handle is Bottom || handle is BottomLeft
                    || handle is BottomRight ==> start_px.y == original.0.y
                &&& handle is Left || handle is Right || handle is Top || handle is TopLeft
                    || handle is TopRight ==> end_px.y == original.1.y
                &&& handle is Left || handle is TopLeft || handle is BottomLeft ==> start_px.x
                    == current.x
                &&& handle is Right || handle is TopRight || handle is BottomRight ==> end_px.x
                    == current.x
                &&& handle is Top || handle is TopLeft || handle is TopRight ==> start_px.y
                    == current.y
                &&& handle is Bottom || handle is BottomLeft || handle is BottomRight ==> end_px.y
                    == current.y
            }
        }),
{
}

/// A move that was let go moves the element that was dragged by exactly the way of the drag,
/// where that is long enough to count, and does nothing otherwise.
pub proof fn law_a_move_goes_the_way_of_the_drag(
    board: Board,
    element_id: u128,
    start: Point,
    current: Point,
    facts: ReleaseFacts,
)
    ensures
        ({
            let result = release_of(
                ReleasedView::Move { element_id, start, current },
                board,
                facts,
            );
            &&& facts.moved ==> (result.command matches Some(
                DocumentCommand::MoveElement { element_id: moved, delta_px },
            ) && moved == element_id && delta_px == facts.delta_px)
            &&& !facts.moved ==> result.command is None
            &&& !result.toast
        }),
{
}

/// The end of an arrow that was let go is put where the geometry lets it stand: that end, and
/// no other. The user is told exactly where the label kept it from where it was dragged to.
pub proof fn law_an_end_is_put_where_it_was_let_go(
    board: Board,
    element_id: u128,
    endpoint: ArrowEndpoint,
    current: Point,
    facts: ReleaseFacts,
)
    requires
        board.get(element_id) matches Some(element) && element.payload is Arrow,
    ensures
        ({
            let result = release_of(
                ReleasedView::Endpoint { element_id, endpoint, current },
                board,
                facts,
            );
            &&& facts.moved ==> (result.command matches Some(
                DocumentCommand::UpdateArrowEndpoint {
                    element_id: changed,
                    endpoint: end,
                    position_px,
                },
            ) && changed == element_id && end == endpoint && position_px == facts.endpoint_px)
            &&& !facts.moved ==> result.command is None
            &&& result.toast == facts.constrained_for_label
        }),
{
}

/// A label that was let go stands where the geometry puts it, and wants to stand there, unless
/// it already does; the labels around have to have room.
pub proof fn law_a_label_is_put_where_it_was_let_go(
    board: Board,
    element_id: u128,
    current: Point,
    grab_offset_px: Point,
    facts: ReleaseFacts,
    anchor: LabelAnchor,
)
    requires
        board.get(element_id) matches Some(element) && element.payload is Rectangle,
        facts.anchor == Some(anchor),
    ensures
        ({
            let result = release_of(
                ReleasedView::Label { element_id, current, grab_offset_px },
                board,
                facts,
            );
            let element = board.get(element_id)->0;
            let stays = same_anchor(anchor, element.payload->label_anchor) && same_anchor(
                anchor,
                element.payload->preferred_label_anchor,
            );
            &&& result.command is None <==> stays
            &&& result.command matches Some(command) ==> {
                &&& command matches DocumentCommand::SetRectangleLabelPlacement {
                    element_id: changed,
                    preferred_anchor,
                    actual_anchor,
                }
                &&& changed == element_id
                &&& preferred_anchor == anchor
                &&& actual_anchor == anchor
                &&& result.needs_reflow
            }
        }),
{
}

/// A drag changes nothing but the element that was dragged, and nothing at all where that is
/// no longer there or is of another kind.
pub proof fn law_a_release_changes_only_what_was_dragged(
    board: Board,
    released: ReleasedView,
    facts: ReleaseFacts,
)
    ensures
        released is Nothing || released is NewRectangle || released is NewArrow || released
            is NewStroke ==> release_of(released, board, facts).command is None && !release_of(
            released,
            board,
            facts,
        ).toast,
        released matches ReleasedView::Resize { element_id, .. } && !(board.get(
            element_id,
        ) matches Some(element) && element.payload is Rectangle) ==> release_of(
            released,
            board,
            facts,
        ).command is None,
        released matches ReleasedView::Endpoint { element_id, .. } && !(board.get(
            element_id,
        ) matches Some(element) && element.payload is Arrow) ==> release_of(
            released,
            board,
            facts,
        ).command is None,
        released matches ReleasedView::Label { element_id, .. } && !(board.get(
            element_id,
        ) matches Some(element) && element.payload is Rectangle) ==> release_of(
            released,
            board,
            facts,
        ).command is None,
{
}

/// An element that was drawn is selected, and its label is what is written next: that of a
/// rectangle with its first text selected, that of an arrow empty, where it has room for one.
pub proof fn law_a_new_shape_is_selected_and_labelled(
    editor: EditorView,
    element_id: u128,
    text_style: TextStyle,
)
    ensures
        ({
            let next = editor.rectangle_drawn(element_id, text_style);
            &&& next.selected_element_id == Some(element_id)
            &&& next.text_editing matches Some(editing)
            &&& editing.target == (TextTarget::RectangleLabel { element_id })
            &&& editing.buffer == "标题"@
            &&& editing.text_style == text_style
            &&& editing.select_all && editing.request_focus
            &&& !editing.auto_place_rectangle
        }),
        ({
            let next = editor.arrow_drawn(element_id, text_style, true);
            &&& next.selected_element_id == Some(element_id)
            &&& next.text_editing matches Some(editing)
            &&& editing.target == (TextTarget::ArrowLabel { element_id })
            &&& editing.buffer.len() == 0
            &&& editing.text_style == text_style
            &&& editing.request_focus
            &&& !editing.select_all && !editing.auto_place_rectangle
        }),
        ({
            let next = editor.arrow_drawn(element_id, text_style, false);
            &&& next.selected_element_id == Some(element_id)
            &&& next.text_editing == editor.text_editing
        }),
{
}

/// What is shown of a drag is never more than can be shown: nothing where the element is gone
/// and the labels have nothing to move for, and all that changes only where something does.
pub proof fn law_a_preview_shows_what_the_drag_changes(
    interaction: InteractionView,
    board: Board,
    facts: PreviewFacts,
)
    ensures
        preview_of(interaction, board, facts) == PreviewChoice::Single ==> facts.element,
        preview_of(interaction, board, facts) == PreviewChoice::Reflowed ==> facts.reflowed,
        interaction is UpdateArrowEndpoint ==> (preview_of(interaction, board, facts)
            == PreviewChoice::Single <==> facts.element),
        interaction is ResizeRectangle && facts.element ==> preview_of(interaction, board, facts)
            != PreviewChoice::Empty,
        interaction is ResizeRectangle && facts.element && facts.large_enough && facts.reflowed
            ==> preview_of(interaction, board, facts) == PreviewChoice::Reflowed,
        interaction matches InteractionView::Draw { tool, .. } && tool == EditorTool::Rectangle
            && facts.element && facts.valid && facts.reflowed ==> preview_of(
            interaction,
            board,
            facts,
        ) == PreviewChoice::Reflowed,
        interaction matches InteractionView::Draw { tool, .. } && tool == EditorTool::Rectangle
            && facts.element ==> preview_of(interaction, board, facts) != PreviewChoice::Empty,
        interaction matches InteractionView::Move { element_id, .. } && (board.get(
            element_id,
        ) matches Some(element) && (!(element.payload is Rectangle) || facts.moved))
            && facts.element ==> preview_of(interaction, board, facts) != PreviewChoice::Empty,
        interaction matches InteractionView::Move { element_id, .. } && (board.get(
            element_id,
        ) matches Some(element) && element.payload is Rectangle) && facts.moved && facts.reflowed
            ==> preview_of(interaction, board, facts) == PreviewChoice::Reflowed,
{
}

/// Where a drag of a label would do nothing once it is let go, nothing is shown of it either.
pub proof fn law_nothing_shown_of_a_label_that_stays(
    board: Board,
    element_id: u128,
    current: Point,
    grab_offset_px: Point,
    release: ReleaseFacts,
    preview: PreviewFacts,
)
    requires
        release.anchor == preview.anchor,
        release_of(
            ReleasedView::Label { element_id, current, grab_offset_px },
            board,
            release,
        ).command is None,
    ensures
        preview_of(
            InteractionView::DragRectangleLabel { element_id, current, grab_offset_px },
            board,
            preview,
        ) == PreviewChoice::Empty,
{
}

/// Whether a list holds a number.
fn holds(list: &Vec<u128>, wanted: u128) -> (yes: bool)
    ensures
        yes == list@.contains(wanted),
{
    for i in 0..list.len()
        invariant
            forall|j: int| 0 <= j < i ==> list@[j] != wanted,
    {
        if list[i] == wanted {
            assert(list@[i as int] == wanted);
            return true;
        }
    }
    false
}

impl EditorView {
    /// A command of the pointer is given: what it changes is shown at once, where the element
    /// that it is about is among that.
    pub open spec fn batch_given(self, preview: Seq<u128>, element_id: u128) -> EditorView {
        EditorView {
            released_preview: if preview.contains(element_id) {
                preview
            } else {
                Seq::empty()
            },
            ..self
        }
    }

    /// A rectangle was drawn: it is selected, and its label is written.
    pub open spec fn rectangle_drawn(self, element_id: u128, text_style: TextStyle) -> EditorView {
        EditorView {
            selected_element_id: Some(element_id),
            text_editing: Some(
                text_begun(
                    TextTarget::RectangleLabel { element_id },
                    DEFAULT_RECTANGLE_LABEL@,
                    text_style,
                    true,
                    false,
                ),
            ),
            ..self
        }
    }

    /// An arrow was drawn: it is selected, and its label is written where it has room for
    /// one.
    pub open spec fn arrow_drawn(
        self,
        element_id: u128,
        text_style: TextStyle,
        can_host_label: bool,
    ) -> EditorView {
        let selected = EditorView { selected_element_id: Some(element_id), ..self };
        if can_host_label {
            EditorView {
                text_editing: Some(
                    text_begun(
                        TextTarget::ArrowLabel { element_id },
                        Seq::empty(),
                        text_style,
                        false,
                        false,
                    ),
                ),
                ..selected
            }
        } else {
            selected
        }
    }

    /// Whether a drag is under way that moves or resizes what the text that is being written
    /// belongs to.
    pub open spec fn drags_text(self) -> bool {
        match (self.text_editing, self.interaction) {
            (Some(editing), Some(interaction)) => match interaction {
                InteractionView::Draw { tool, .. } => editing.target is NewText && tool
                    == EditorTool::Text,
                InteractionView::Move { element_id, .. } => target_id(editing.target) == Some(
                    element_id,
                ),
                InteractionView::ResizeRectangle { element_id, .. } => target_id(editing.target)
                    == Some(element_id),
                InteractionView::UpdateArrowEndpoint { element_id, .. } => target_id(editing.target)
                    == Some(element_id),
                InteractionView::DragRectangleLabel { element_id, .. } => target_id(editing.target)
                    == Some(element_id),
            },
            _ => false,
        }
    }
}

impl EditorController {
    /// Gives a command of the pointer, given the elements that it changes. A command that
    /// changes nothing is not given. Says whether it is.
    pub fn push_pointer_batch(&mut self, preview: Vec<u128>, element_id: u128) -> (given: bool)
        requires
            old(self).well_formed(),
        ensures
            final(self).well_formed(),
            given == (preview@.len() > 0),
            final(self)@ == old(self)@.batch_given(preview@, element_id),
            final(self).text_editing == old(self).text_editing,
    {
        let given = preview.len() > 0;
        if holds(&preview, element_id) {
            self.released_preview = preview;
        } else {
            self.released_preview = Vec::new();
            assert(self@.released_preview =~= Seq::<u128>::empty());
        }
        given
    }

    /// Takes in a rectangle that was drawn.
    pub fn rectangle_drawn(&mut self, element_id: u128, text_style: TextStyle)
        requires
            old(self).well_formed(),
        ensures
            final(self).well_formed(),
            final(self)@ == old(self)@.rectangle_drawn(element_id, text_style),
    {
        self.selected_element_id = Some(element_id);
        self.text_editing =
        Some(
            TextEditing::begin(
                TextTarget::RectangleLabel { element_id },
                DEFAULT_RECTANGLE_LABEL.to_owned(),
                text_style,
                true,
                false,
            ),
        );
    }

    /// Takes in an arrow that was drawn. Says whether the notice is due that it is too short
    /// for a label.
    pub fn arrow_drawn(&mut self, element_id: u128, text_style: TextStyle, can_host_label: bool) -> (toast:
        bool)
        requires
            old(self).well_formed(),
        ensures
            final(self).well_formed(),
            final(self)@ == old(self)@.arrow_drawn(element_id, text_style, can_host_label),
            toast == !can_host_label,
    {
        self.selected_element_id = Some(element_id);
        if can_host_label {
            let empty = String::new();
            assert(empty@ =~= Seq::<char>::empty());
            self.text_editing =
            Some(
                TextEditing::begin(
                    TextTarget::ArrowLabel { element_id },
                    empty,
                    text_style,
                    false,
                    false,
                ),
            );
        }
        !can_host_label
    }

    /// Whether a drag is under way that moves or resizes what the text that is being written
    /// belongs to.
    pub fn text_editing_transform_interaction_active(&self) -> (active: bool)
        ensures
            active == self@.drags_text(),
    {
        let editing = match &self.text_editing {
            Some(editing) => editing,
            None => {
                return false;
            },
        };
        let dragged = match &self.interaction {
            None => {
                return false;
            },
            Some(PointerInteraction::Draw {
                element_id: _,
                tool,
                start: _,
                current: _,
                stroke_points: _,
            }) => {
                return match editing.target {
                    TextTarget::NewText { anchor_px: _ } => *tool == EditorTool::Text,
                    _ => false,
                };
            },
            Some(PointerInteraction::Move { element_id, start: _, current: _ }) => *element_id,
            Some(PointerInteraction::ResizeRectangle {
                element_id,
                handle: _,
                original: _,
                current: _,
            }) => *element_id,
            Some(PointerInteraction::UpdateArrowEndpoint { element_id, endpoint: _, current: _ }) => {
                *element_id
            },
            Some(PointerInteraction::DragRectangleLabel {
                element_id,
                current: _,
                grab_offset_px: _,
            }) => *element_id,
        };
        match text_target_element_id(&editing.target) {
            Some(target) => target == dragged,
            None => false,
        }
    }
}

/// What is at a point that was pressed while a text is being written.
#[derive(Clone, Copy)]
pub struct TextHit {
    /// A handle of the rectangle, or an end of the arrow, that the text is the label of.
    pub handle: bool,
    /// The body of that rectangle or arrow.
    pub body: bool,
    /// The frame round the text.
    pub frame: bool,
    /// The text itself.
    pub inside_editor: bool,
}

/// Whether a press moves or resizes what the text that is being written belongs to.
pub fn text_editing_transform_hit(editing: &TextEditing, board: &Board, hit: TextHit) -> (yes: bool)
    ensures
        yes == match editing.target {
            TextTarget::RectangleLabel { element_id } => board.get(element_id) matches Some(element)
                && element.payload is Rectangle && (hit.handle || (!hit.inside_editor && hit.body)),
            TextTarget::ArrowLabel { element_id } => board.get(element_id) matches Some(element)
                && element.payload is Arrow && (hit.handle || (!hit.inside_editor && hit.body)),
            TextTarget::ExistingText { .. } => hit.frame,
            TextTarget::NewText { .. } => hit.frame,
        },
{
    match editing.target {
        TextTarget::RectangleLabel { element_id } => match board.element(element_id) {
            Some(element) => match element.payload {
                ElementPayload::Rectangle { .. } => hit.handle || (!hit.inside_editor && hit.body),
                _ => false,
            },
            None => false,
        },
        TextTarget::ArrowLabel { element_id } => match board.element(element_id) {
            Some(element) => match element.payload {
                ElementPayload::Arrow { .. } => hit.handle || (!hit.inside_editor && hit.body),
                _ => false,
            },
            None => false,
        },
        TextTarget::ExistingText { element_id: _ } => hit.frame,
        TextTarget::NewText { anchor_px: _ } => hit.frame,
    }
}

} // verus!
