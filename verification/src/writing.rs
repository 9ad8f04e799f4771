//! What can be relied on while a text is being written and a pen draws, and of what is told
//! at the side.

use vstd::prelude::*;

use crate::application::AppView;
use crate::board::{
    element_at, style_of, Board, Element, LabelEdge, LabelSide, RectangleHandle,
};
use crate::canvas::{draft_text, first_anchor, first_true, handle_order, obstacles, Corners};
use crate::capture::{backend_error_is, CaptureError};
use crate::commands::{added_at, same_anchor, with_placement, DocumentCommand, LabelSolution};
use crate::editor::{shown_style, EditorView, InteractionView, TextTarget, TextView};
use crate::input::{without_switches, InputEventView, Key, Modifiers};
use crate::library_index::{DocumentSummary, IndexedDocument};
use crate::library_view::{not_started, told_by_notice, LibraryWork};
use crate::library_worker::{shows_known, writes_index, IndexAction, WorkerView};
use crate::pointer::{PenStage, PointerFrame};
use crate::screen_stream::both;
use crate::seqs::lemma_filter_all;
use crate::stylus::{
    focus_lost, pen_event, pen_events, strongest, without_pen, Point, StrokePoint,
};
use crate::text_editor::{completion, first_selection, same_screen, TextEditorCompletion};
use crate::tools::{tool_index, EditorTool};

verus! {

/// A drag that begins while a text is being written takes hold of what the text belongs to:
/// the end or the handle that is there, and otherwise the element itself. The text goes on.
pub proof fn law_a_drag_takes_hold_of_what_is_being_written(
    editor: EditorView,
    board: Board,
    frame: PointerFrame,
    start: Point,
    at: int,
)
    requires
        frame.drag_started,
        frame.start() == Some(start),
        editor.text_editing is Some,
    ensures
        ({
            let target = editor.text_editing->0.target;
            let next = editor.drag_begun(board, frame, true);
            let under = frame.under_start@[at];
            &&& next.text_editing == editor.text_editing
            &&& next.tool == editor.tool
            &&& target matches TextTarget::ExistingText { element_id } ==> {
                &&& next.selected_element_id == Some(element_id)
                &&& next.interaction == Some(
                    InteractionView::Move { element_id, start, current: start },
                )
            }
            &&& target matches TextTarget::RectangleLabel { element_id } ==> (element_at(
                board.elements@,
                element_id,
            ) == Some(at) && board.elements@[at].payload is Rectangle ==> {
                &&& next.selected_element_id == Some(element_id)
                &&& under.handle is None ==> next.interaction == Some(
                    InteractionView::Move { element_id, start, current: start },
                )
                &&& under.handle matches Some(handle) ==> next.interaction == Some(
                    InteractionView::ResizeRectangle {
                        element_id,
                        handle,
                        original: under.body,
                        current: start,
                    },
                )
            })
            &&& target matches TextTarget::ArrowLabel { element_id } ==> (element_at(
                board.elements@,
                element_id,
            ) == Some(at) ==> {
                &&& next.selected_element_id == Some(element_id)
                &&& under.endpoint is None ==> next.interaction == Some(
                    InteractionView::Move { element_id, start, current: start },
                )
                &&& under.endpoint matches Some(endpoint) ==> next.interaction == Some(
                    InteractionView::UpdateArrowEndpoint { element_id, endpoint, current: start },
                )
            })
        }),
{
}

/// A new text that is being written is dragged along: it stands where the drag has taken it.
pub proof fn law_a_new_text_is_dragged_along(
    editor: EditorView,
    board: Board,
    frame: PointerFrame,
    stage: PenStage,
    start: Point,
    position: Point,
)
    requires
        frame.drag_started,
        frame.dragged,
        frame.start() == Some(start),
        frame.position == Some(position),
        editor.text_editing matches Some(editing) && editing.target is NewText,
    ensures
        ({
            let next = editor.drag_begun(board, frame, true).drag_moved(frame, stage);
            &&& next.text_editing matches Some(editing)
            &&& editing.target == (TextTarget::NewText { anchor_px: frame.dragged_anchor })
            &&& editing.buffer == editor.text_editing->0.buffer
            &&& editing.text_style == editor.text_editing->0.text_style
        }),
{
}

/// While a text is being written the pointer asks for nothing but what comes of a drag.
pub proof fn law_the_pointer_only_drags_while_a_text_is_written(
    editor: EditorView,
    board: Board,
    frame: PointerFrame,
    stage: PenStage,
)
    ensures
        ({
            let (next, asked) = editor.pointer_handled(board, frame, stage, true);
            &&& !asked.toast
            &&& asked.sequence is None
            &&& asked.dot is None
            &&& !frame.drag_stopped ==> asked.released is Nothing
            &&& next.tool == editor.tool
        }),
{
}

/// Whether a drag is under way that concerns the text is told by the element it belongs to.
pub proof fn law_a_drag_concerns_the_text_of_its_element(
    editor: EditorView,
    element_id: u128,
    other: u128,
    start: Point,
    current: Point,
)
    requires
        editor.text_editing matches Some(editing) && (editing.target == (
        TextTarget::RectangleLabel { element_id }) || editing.target == (TextTarget::ArrowLabel {
            element_id,
        }) || editing.target == (TextTarget::ExistingText { element_id })),
        editor.interaction == Some(InteractionView::Move { element_id: other, start, current }),
    ensures
        editor.drags_text() <==> other == element_id,
        !(EditorView { text_editing: None, ..editor }).drags_text(),
        !(EditorView { interaction: None, ..editor }).drags_text(),
{
}

/// What a command changes is shown at once where its own element is among it, and otherwise
/// nothing is.
pub proof fn law_a_command_is_shown_with_its_element(
    editor: EditorView,
    preview: Seq<u128>,
    element_id: u128,
)
    ensures
        preview.contains(element_id) ==> editor.batch_given(preview, element_id).released_preview
            == preview,
        !preview.contains(element_id) ==> editor.batch_given(
            preview,
            element_id,
        ).released_preview.len() == 0,
        editor.batch_given(preview, element_id).selected_element_id == editor.selected_element_id,
{
}

/// A label that is being written is shown as it is, but for one that is blank, which is
/// shown as a text that takes no room.
pub proof fn law_a_label_is_shown_as_it_is_written(buffer: Seq<char>, i: int)
    requires
        0 <= i < buffer.len(),
        !crate::text::white_space(buffer[i]),
    ensures
        draft_text(buffer) == buffer,
        draft_text(Seq::empty()) == "\u{200b}"@,
{
}

/// One more element is in the way of a label where it is another rectangle: its body, and
/// then its label where that is shown.
pub proof fn law_other_rectangles_are_in_the_way(
    elements: Seq<Element>,
    element: Element,
    bodies: Seq<Corners>,
    labels: Seq<Option<Corners>>,
    current: Option<u128>,
)
    requires
        bodies.len() == elements.len() + 1,
        labels.len() == elements.len() + 1,
    ensures
        ({
            let before = obstacles(elements, bodies, labels, current);
            let after = obstacles(elements.push(element), bodies, labels, current);
            let counts = element.payload is Rectangle && current != Some(element.element_id);
            &&& obstacles(Seq::empty(), bodies, labels, current).len() == 0
            &&& !counts ==> after == before
            &&& counts && labels.last() is None ==> after == before.push(bodies.last())
            &&& counts && labels.last() is Some ==> after == before.push(bodies.last()).push(
                labels.last()->0,
            )
        }),
{
    assert(elements.push(element).drop_last() =~= elements);
}

/// The label of a new rectangle stands outside, at the start of its top edge.
pub proof fn law_a_new_label_stands_above_its_rectangle()
    ensures
        first_anchor().edge == LabelEdge::Top,
        first_anchor().side == LabelSide::Outside,
        first_anchor().position == 0,
{
}

/// The handles of a rectangle go round it clockwise from its top left corner, corners in turn
/// with edges, and none comes twice.
pub proof fn law_the_handles_go_round_the_rectangle()
    ensures
        handle_order().len() == 8,
        handle_order().no_duplicates(),
        handle_order()[0] == RectangleHandle::TopLeft,
        handle_order()[2] == RectangleHandle::TopRight,
        handle_order()[4] == RectangleHandle::BottomRight,
        handle_order()[6] == RectangleHandle::BottomLeft,
        handle_order()[1] == RectangleHandle::Top,
        handle_order()[3] == RectangleHandle::Right,
        handle_order()[5] == RectangleHandle::Bottom,
        handle_order()[7] == RectangleHandle::Left,
{
}

/// The first place that holds is found, and none only where no place does.
pub proof fn law_the_first_place_that_holds_is_found(list: Seq<bool>)
    ensures
        first_true(list) matches Some(at) ==> {
            &&& 0 <= at < list.len()
            &&& list[at]
            &&& forall|i: int| 0 <= i < at ==> !#[trigger] list[i]
        },
        first_true(list) is None ==> forall|i: int| 0 <= i < list.len() ==> !#[trigger] list[i],
    decreases list.len(),
{
    if list.len() > 0 {
        let rest = list.drop_last();
        law_the_first_place_that_holds_is_found(rest);
        assert forall|i: int| 0 <= i < rest.len() implies rest[i] == #[trigger] list[i] by {}
    }
}

/// A text that gets the keyboard is selected as a whole where that was asked for, and
/// otherwise the cursor stands behind its end.
pub proof fn law_where_writing_begins(editing: TextView)
    ensures
        editing.select_all ==> first_selection(editing) == (0int, editing.buffer.len() as int),
        !editing.select_all ==> first_selection(editing).0 == editing.buffer.len(),
        first_selection(editing).1 == editing.buffer.len(),
{
}

/// Enter ends a text even as the focus is lost; the loss of the focus alone ends it too.
pub proof fn law_what_ends_a_text(lost_focus: bool)
    ensures
        completion(true, lost_focus) == TextEditorCompletion::Enter,
        completion(false, true) == TextEditorCompletion::FocusLost,
        completion(false, false) == TextEditorCompletion::Pending,
{
}

/// A screen is the same as itself, where all its measures are numbers, and another where one
/// measure is another number above zero.
pub proof fn law_screens_are_told_apart(
    screen: (u32, u32, u32, u32),
    other: (u32, u32, u32, u32),
)
    requires
        crate::scale::finite_and_positive(screen.0),
        crate::scale::finite_and_positive(screen.1),
        crate::scale::finite_and_positive(screen.2),
        crate::scale::finite_and_positive(screen.3),
    ensures
        same_screen(screen, other) <==> screen == other,
{
}

/// Every event is either a pen's or is kept for the mouse, each in the order in which it
/// came.
pub proof fn law_events_are_parted_between_pen_and_mouse(
    events: Seq<InputEventView>,
    event: InputEventView,
)
    ensures
        pen_events(Seq::empty()).len() == 0,
        without_pen(Seq::empty()).len() == 0,
        pen_event(event) matches Some(pen) ==> pen_events(events.push(event)) == pen_events(
            events,
        ).push(pen) && without_pen(events.push(event)) == without_pen(events),
        pen_event(event) is None ==> pen_events(events.push(event)) == pen_events(events)
            && without_pen(events.push(event)) == without_pen(events).push(event),
{
    reveal(Seq::filter);
    assert(events.push(event).drop_last() =~= events);
}

/// The window has lost the focus once an event says so, whatever comes after.
pub proof fn law_a_lost_focus_is_seen(events: Seq<InputEventView>, event: InputEventView)
    ensures
        focus_lost(events.push(InputEventView::WindowFocused(false))),
        focus_lost(events) ==> focus_lost(events.push(event)),
        !focus_lost(events) && event != InputEventView::WindowFocused(false) ==> !focus_lost(
            events.push(event),
        ),
        !focus_lost(Seq::empty()),
{
    let lost = events.push(InputEventView::WindowFocused(false));
    assert(lost[events.len() as int] == InputEventView::WindowFocused(false));
    if focus_lost(events) {
        let i = choose|i: int|
            0 <= i < events.len() && #[trigger] events[i] == InputEventView::WindowFocused(false);
        assert(events.push(event)[i] == InputEventView::WindowFocused(false));
    }
    if focus_lost(events.push(event)) && event != InputEventView::WindowFocused(false) {
        let i = choose|i: int|
            0 <= i < events.len() + 1 && #[trigger] events.push(event)[i]
                == InputEventView::WindowFocused(false);
        assert(events[i] == InputEventView::WindowFocused(false));
    }
}

/// A pressed tab key, alone or with shift, is taken out of the events; all others stay in
/// their order.
pub proof fn law_only_switches_are_taken_out(
    events: Seq<InputEventView>,
    event: InputEventView,
    physical_key: Option<Key>,
    repeat: bool,
    shift: bool,
)
    ensures
        without_switches(Seq::empty()).len() == 0,
        without_switches(
            events.push(
                InputEventView::Key {
                    key: Key::Tab,
                    physical_key,
                    pressed: true,
                    repeat,
                    modifiers: Modifiers { shift, ..crate::input::no_modifiers() },
                },
            ),
        ) == without_switches(events),
        !(event matches InputEventView::Key { key: Key::Tab, .. }) ==> without_switches(
            events.push(event),
        ) == without_switches(events).push(event),
{
    reveal(Seq::filter);
    let tab = InputEventView::Key {
        key: Key::Tab,
        physical_key,
        pressed: true,
        repeat,
        modifiers: Modifiers { shift, ..crate::input::no_modifiers() },
    };
    assert(events.push(tab).drop_last() =~= events);
    assert(events.push(event).drop_last() =~= events);
}

/// A pen that was lifted changes no place of the stroke that it drew, and what it drew stays
/// what is being drawn.
pub proof fn law_a_lifted_pen_keeps_the_places_of_the_stroke(
    editor: EditorView,
    stage: PenStage,
    caps: Seq<u32>,
    i: int,
)
    requires
        editor.interaction matches Some(
            InteractionView::Draw { tool: EditorTool::Stroke, stroke_points, .. },
        ) && 0 <= i < stroke_points.len(),
    ensures
        ({
            let next = editor.release_tapered(stage, caps);
            let before = editor.interaction->0->stroke_points;
            &&& next.interaction matches Some(
                InteractionView::Draw { element_id, tool, start, current, stroke_points },
            )
            &&& element_id == editor.interaction->0->Draw_element_id
            &&& tool == EditorTool::Stroke
            &&& start == editor.interaction->0->Draw_start
            &&& current == editor.interaction->0->Draw_current
            &&& stroke_points.len() == before.len()
            &&& stroke_points[i].point == before[i].point
            &&& i == before.len() - 1 || !stage.ended ==> stroke_points[i] == before[i]
        }),
{
}

/// The strongest pressure is one of those there are, and none is above it.
pub proof fn law_the_strongest_pressure_is_not_exceeded(
    points: Seq<StrokePoint>,
    pressure: u32,
    i: int,
)
    requires
        strongest(points, pressure),
        0 <= i < points.len(),
    ensures
        !crate::scale::below(pressure, points[i].pressure),
        exists|k: int| 0 <= k < points.len() && #[trigger] points[k].pressure == pressure,
{
}

/// The toolbar shows the look of the selected element, or else that of the tool in use with
/// the colour that all tools share.
pub proof fn law_the_toolbar_shows_the_look_in_use(
    editor: EditorView,
    board: Board,
    element: Element,
)
    ensures
        editor.selected_element_id is None ==> {
            let tool = editor.styles[tool_index(editor.tool) as int];
            &&& shown_style(editor, board).color_rgba == editor.global_color
            &&& shown_style(editor, board).width_px == tool.width_px
            &&& shown_style(editor, board).font_size_px == tool.font_size_px
            &&& shown_style(editor, board).hardness == tool.hardness
        },
        editor.selected_element_id is Some && board.get(editor.selected_element_id->0) == Some(
            element,
        ) ==> shown_style(editor, board) == style_of(element.payload),
{
}

/// Work that could not be started leaves the program idle, and the library says why.
pub proof fn law_work_that_could_not_be_started_is_told(app: AppView, message: Seq<char>)
    ensures
        app.start_failed(message).0.phase is Idle,
        app.start_failed(message).0.library_error == Some(message),
        app.start_failed(message).1.len() == 1,
{
}

/// Exports that could not be started are told by a notice, all other work by the library,
/// and both give the reason.
pub proof fn law_what_could_not_be_started_is_told_with_its_reason(
    work: LibraryWork,
    error: Seq<char>,
)
    ensures
        told_by_notice(work) <==> work == LibraryWork::ExportBundle || work
            == LibraryWork::ExportImage,
        exists|start: Seq<char>| not_started(work, error) == #[trigger] (start + error),
{
    let start = match work {
        LibraryWork::Rename => "无法启动讲义重命名任务："@,
        LibraryWork::DeleteDocument => "无法启动讲义删除任务："@,
        LibraryWork::DeleteDraft => "无法启动草稿删除任务："@,
        LibraryWork::Clear => "无法启动内容清理任务："@,
        LibraryWork::ExportBundle => "无法启动讲义导出任务："@,
        LibraryWork::ExportImage => "无法启动图片导出任务："@,
    };
    assert(not_started(work, error) == start + error);
}

/// At the start the library shows what is remembered of each document that was found, in the
/// order in which they were found.
pub proof fn law_known_documents_are_shown_in_their_order(
    summaries: Seq<DocumentSummary>,
    skeletons: Seq<crate::library_index::DocumentSkeleton>,
    indexed: Map<u128, IndexedDocument>,
    i: int,
)
    requires
        shows_known(summaries, skeletons, indexed),
        crate::library_index::keyed(indexed),
        forall|j: int|
            0 <= j < skeletons.len() ==> indexed.contains_key(
                (#[trigger] skeletons[j]).document_id,
            ),
        0 <= i < skeletons.len(),
    ensures
        summaries.len() == skeletons.len(),
        summaries[i].document_id == skeletons[i].document_id,
        summaries[i].title == indexed[skeletons[i].document_id].title,
        summaries[i].revision == indexed[skeletons[i].document_id].revision,
{
    let known = |skeleton: crate::library_index::DocumentSkeleton|
        indexed.contains_key(skeleton.document_id);
    assert forall|j: int| 0 <= j < skeletons.len() implies known(#[trigger] skeletons[j]) by {}
    lemma_filter_all(skeletons, known);
    assert(indexed[skeletons[i].document_id].shown_as(summaries[i]));
}

/// What is written as the index names every document that is remembered, and no other.
pub proof fn law_the_whole_index_is_written(action: IndexAction, worker: WorkerView, id: u128)
    requires
        writes_index(action, worker),
        crate::library_index::keyed(worker.indexed),
    ensures
        action matches IndexAction::Persist(file) ==> {
            &&& file.schema_version == 1
            &&& worker.indexed.contains_key(id) <==> exists|i: int|
                0 <= i < file.documents@.len() && (#[trigger] file.documents@[i]).document_id == id
        },
{
    if let IndexAction::Persist(file) = action {
        if worker.indexed.contains_key(id) {
            let entry = worker.indexed[id];
            assert(file.documents@.contains(entry));
            let i = choose|i: int| 0 <= i < file.documents@.len() && file.documents@[i] == entry;
            assert(file.documents@[i].document_id == id);
        }
    }
}

/// Of two results the first error counts, and both are needed for success.
pub proof fn law_the_first_error_counts(
    first: Result<(), CaptureError>,
    second: Result<(), CaptureError>,
)
    ensures
        both(first, second) is Ok <==> first is Ok && second is Ok,
        first is Err ==> both(first, second) == first,
        first is Ok && second is Err ==> both(first, second) == second,
{
}

/// A message of the system that speaks of a permission means that it is denied, in whatever
/// letters and wherever it does; any other message is passed on.
pub proof fn law_a_missing_permission_is_recognized(
    error: CaptureError,
    before: Seq<char>,
    after: Seq<char>,
)
    ensures
        backend_error_is(error, before + "Permission"@ + after) ==> error is PermissionDenied,
        backend_error_is(error, before + "permission"@ + after) ==> error is PermissionDenied,
        before.len() < 10 && backend_error_is(error, before) ==> error is CaptureFailed,
{
    reveal_strlit("permission");
    reveal_strlit("Permission");
    let word = "permission"@;
    let upper = before + "Permission"@ + after;
    let lower = before + "permission"@ + after;
    let at = before.len() as int;
    assert forall|k: int| 0 <= k < word.len() implies crate::text::ascii_lower(
        #[trigger] upper[at + k],
    ) == crate::text::ascii_lower(word[k]) by {
        assert(upper[at + k] == "Permission"@[k]);
    }
    assert forall|k: int| 0 <= k < word.len() implies crate::text::ascii_lower(
        #[trigger] lower[at + k],
    ) == crate::text::ascii_lower(word[k]) by {
        assert(lower[at + k] == word[k]);
    }
    assert(crate::text::found_at(upper, word, at));
    assert(crate::text::found_at(lower, word, at));
}

/// Where the pen was last is the last place of the stroke that is being drawn, or else of the
/// one that waits to be.
pub proof fn law_where_the_pen_was_last(editor: EditorView)
    ensures
        editor.interaction is None && editor.pending_stroke_points.len() == 0
            ==> editor.last_pen_point() is None,
        editor.interaction is None && editor.pending_stroke_points.len() > 0
            ==> editor.last_pen_point() == Some(editor.pending_stroke_points.last().point),
        editor.interaction matches Some(
            InteractionView::Draw { tool: EditorTool::Stroke, stroke_points, .. },
        ) ==> (stroke_points.len() > 0 ==> editor.last_pen_point() == Some(
            stroke_points.last().point,
        )),
{
}

/// The label of a rectangle that is only now added is put in its place by the command that
/// adds it, and no other command changes; another command follows only where its bounds are
/// not known yet.
pub proof fn law_a_new_label_is_placed_as_its_rectangle_is_added(
    commands: Seq<DocumentCommand>,
    document: Board,
    staged: Board,
    solution: LabelSolution,
    at: int,
)
    requires
        document.get(solution.element_id) is None,
        staged.get(solution.element_id) matches Some(element) && element.payload is Rectangle
            && !(same_anchor(element.payload->preferred_label_anchor, solution.preferred_anchor)
            && same_anchor(element.payload->label_anchor, solution.actual_anchor)),
        0 <= at < commands.len(),
        commands[at] matches DocumentCommand::AddElement { element } && element.element_id
            == solution.element_id && element.payload is Rectangle,
        forall|i: int|
            0 <= i < at ==> !(#[trigger] commands[i] matches DocumentCommand::AddElement { element }
                && element.element_id == solution.element_id),
    ensures
        ({
            let placed = with_placement(commands, document, staged, solution);
            let added = commands[at]->AddElement_element;
            &&& placed.len() == if solution.bounds_known {
                commands.len()
            } else {
                commands.len() + 1
            }
            &&& forall|i: int|
                0 <= i < commands.len() && i != at ==> #[trigger] placed[i] == commands[i]
            &&& placed[at] matches DocumentCommand::AddElement { element }
            &&& element.element_id == added.element_id
            &&& element.z_index == added.z_index
            &&& element.payload is Rectangle
            &&& element.payload->label_anchor == solution.actual_anchor
            &&& element.payload->preferred_label_anchor == solution.preferred_anchor
            &&& element.payload->Rectangle_label == added.payload->Rectangle_label
            &&& !solution.bounds_known ==> placed.last() == (
            DocumentCommand::SetRectangleLabelPlacement {
                element_id: solution.element_id,
                preferred_anchor: solution.preferred_anchor,
                actual_anchor: solution.actual_anchor,
            })
        }),
{
    lemma_added(commands, solution.element_id, at);
}

/// The label of a rectangle that no command adds is put in its place by a command of its
/// own.
pub proof fn law_a_label_without_its_rectangle_gets_a_command(
    commands: Seq<DocumentCommand>,
    document: Board,
    staged: Board,
    solution: LabelSolution,
)
    requires
        staged.get(solution.element_id) matches Some(element) && element.payload is Rectangle
            && !(same_anchor(element.payload->preferred_label_anchor, solution.preferred_anchor)
            && same_anchor(element.payload->label_anchor, solution.actual_anchor)),
        forall|i: int|
            0 <= i < commands.len() ==> !(#[trigger] commands[i]
                matches DocumentCommand::AddElement { element } && element.element_id
                == solution.element_id),
    ensures
        with_placement(commands, document, staged, solution) == commands.push(
            DocumentCommand::SetRectangleLabelPlacement {
                element_id: solution.element_id,
                preferred_anchor: solution.preferred_anchor,
                actual_anchor: solution.actual_anchor,
            },
        ),
{
    lemma_not_added(commands, solution.element_id);
}

proof fn lemma_added(commands: Seq<DocumentCommand>, element_id: u128, at: int)
    requires
        0 <= at < commands.len(),
        commands[at] matches DocumentCommand::AddElement { element } && element.element_id
            == element_id,
        forall|i: int|
            0 <= i < at ==> !(#[trigger] commands[i] matches DocumentCommand::AddElement { element }
                && element.element_id == element_id),
    ensures
        added_at(commands, element_id) == Some(at),
    decreases commands.len(),
{
    let rest = commands.drop_last();
    assert forall|i: int| 0 <= i < rest.len() implies rest[i] == #[trigger] commands[i] by {}
    if at < commands.len() - 1 {
        assert forall|i: int| 0 <= i < at implies !(#[trigger] rest[i]
            matches DocumentCommand::AddElement { element } && element.element_id == element_id) by {
            assert(rest[i] == commands[i]);
        }
        assert(rest[at] == commands[at]);
        lemma_added(rest, element_id, at);
    } else {
        assert forall|i: int| 0 <= i < rest.len() implies !(#[trigger] rest[i]
            matches DocumentCommand::AddElement { element } && element.element_id == element_id) by {
            assert(rest[i] == commands[i]);
        }
        lemma_not_added(rest, element_id);
    }
}

proof fn lemma_not_added(commands: Seq<DocumentCommand>, element_id: u128)
    requires
        forall|i: int|
            0 <= i < commands.len() ==> !(#[trigger] commands[i]
                matches DocumentCommand::AddElement { element } && element.element_id == element_id),
    ensures
        added_at(commands, element_id) is None,
    decreases commands.len(),
{
    if commands.len() > 0 {
        let rest = commands.drop_last();
        assert forall|i: int| 0 <= i < rest.len() implies !(#[trigger] rest[i]
            matches DocumentCommand::AddElement { element } && element.element_id == element_id) by {
            assert(rest[i] == commands[i]);
        }
        assert(commands[commands.len() - 1] == commands.last());
        lemma_not_added(rest, element_id);
    }
}

} // verus!
