//! What clicks, the pen, the texts and the looks do to a document, over all that the user may
//! do with them.

use vstd::prelude::*;

use crate::board::{
    candidate, element_at, hit_at, lemma_hit_is, topmost, Board, ColorRgba, Element,
    ElementPayload, StyleChange,
};
use crate::canvas::{
    marks_of, painted, painted_new, preview_edit_of, PaintPart, PreviewEdit,
    SelectionMarks,
};
use crate::commands::{
    changed_ids, comes_before, in_order, pending_label, same_anchor, with_placement, with_solution,
    DocumentCommand, EditorAction, LabelSolution,
};
use crate::dragging::lemma_no_pen;
use crate::editor::{
    place_in_order, EditorView, InteractionView, TextTarget,
};
use crate::input::{
    last_switch, InputEventView, Key, Modifiers, TextInput, ToolSwitchDirection, TouchPhase,
};
use crate::pointer::PointerFrame;
use crate::stylus::{
    frame_start, stroke_from, with_samples, Point, StrokePoint, StylusEvent, StylusId,
    StylusSample, ZERO,
};
use crate::text_editor::{
    completed, ended_by, ending_at, giving_up_at, style_request, styled, TextEditorCompletion,
};
use crate::tools::{tool_index, EditorTool};

verus! {

/// The mouse is clicked at a point, and not dragged.
pub open spec fn clicks(frame: PointerFrame, at: Point) -> bool {
    &&& frame.clicked
    &&& !frame.double_clicked && !frame.drag_started && !frame.dragged && !frame.drag_stopped
    &&& frame.position == Some(at)
}

/// The mouse is clicked twice at a point.
pub open spec fn double_clicks(frame: PointerFrame, at: Point) -> bool {
    &&& frame.double_clicked
    &&& frame.position == Some(at)
}

/// A click selects the topmost element under the mouse that the tool can select. A text is then
/// written on, and so is a label that is clicked itself; nothing else is asked for.
pub proof fn law_a_click_selects_what_it_hits(
    editor: EditorView,
    board: Board,
    frame: PointerFrame,
    position: Point,
    at: int,
)
    requires
        editor.without_pen_at_work(),
        editor.interaction is None,
        editor.text_editing is None,
        clicks(frame, position),
        topmost(board.elements@, frame.under@, editor.tool, at),
        element_at(board.elements@, board.elements@[at].element_id) == Some(at),
    ensures
        ({
            let element = board.elements@[at];
            let (next, asked) = editor.mouse_frame(board, frame);
            &&& next.selected_element_id == Some(element.element_id)
            &&& next.tool == editor.tool
            &&& next.interaction is None
            &&& asked.sequence is None
            &&& asked.dot is None
            &&& asked.released is Nothing
            &&& element.payload matches ElementPayload::Text { text, text_style, .. } ==> (
            next.text_editing matches Some(editing) && editing.target == (
            TextTarget::ExistingText { element_id: element.element_id }) && editing.buffer == text@
                && editing.text_style == text_style)
            &&& element.payload matches ElementPayload::Rectangle { label, .. } ==> {
                &&& frame.under@[at].label ==> (label.text matches Some(text) ==> (
                next.text_editing matches Some(editing) && editing.target == (
                TextTarget::RectangleLabel { element_id: element.element_id }) && editing.buffer
                    == text@))
                &&& !frame.under@[at].label ==> next.text_editing is None
            }
            &&& element.payload matches ElementPayload::Arrow { label, .. } ==> {
                &&& frame.under@[at].label ==> (label.text matches Some(text) ==> (
                next.text_editing matches Some(editing) && editing.target == (
                TextTarget::ArrowLabel { element_id: element.element_id }) && editing.buffer
                    == text@))
                &&& !frame.under@[at].label ==> next.text_editing is None
            }
            &&& element.payload is Stroke || element.payload is SequenceMarker
                ==> next.text_editing is None
        }),
{
    lemma_no_pen(editor);
    lemma_hit_is(board.elements@, frame.under@, editor.tool, at);
}

/// A click where the tool can select nothing makes what the tool makes with a click: a text is
/// begun there, a number or a dot is asked for there. With any other tool nothing is made. In
/// any case nothing is selected any more.
pub proof fn law_a_click_on_nothing_makes_what_the_tool_makes(
    editor: EditorView,
    board: Board,
    frame: PointerFrame,
    position: Point,
)
    requires
        editor.without_pen_at_work(),
        editor.interaction is None,
        editor.text_editing is None,
        clicks(frame, position),
        forall|at: int| !#[trigger] candidate(board.elements@, frame.under@, editor.tool, at),
    ensures
        ({
            let (next, asked) = editor.mouse_frame(board, frame);
            &&& next.selected_element_id is None
            &&& next.interaction is None
            &&& asked.released is Nothing
            &&& !asked.toast
            &&& editor.tool == EditorTool::Text <==> next.text_editing is Some
            &&& next.text_editing matches Some(editing) ==> {
                &&& editing.target == (TextTarget::NewText { anchor_px: position })
                &&& editing.buffer.len() == 0
                &&& editing.text_style == frame.new_text_style
                &&& editing.request_focus
            }
            &&& asked.sequence == if editor.tool == EditorTool::Sequence {
                Some(position)
            } else {
                None
            }
            &&& asked.dot == if editor.tool == EditorTool::Stroke {
                Some(position)
            } else {
                None
            }
        }),
{
    lemma_no_pen(editor);
    assert(hit_at(board.elements@, frame.under@, editor.tool) is None) by {
        if exists|at: int| #[trigger] topmost(board.elements@, frame.under@, editor.tool, at) {
            let at = choose|at: int| #[trigger]
                topmost(board.elements@, frame.under@, editor.tool, at);
            assert(candidate(board.elements@, frame.under@, editor.tool, at));
        }
    }
}

/// A double click selects what it hits and writes on its text; a label that is not shown is
/// written anew, where an arrow is long enough for one, and the user is told where it is not.
pub proof fn law_a_double_click_writes_a_label(
    editor: EditorView,
    board: Board,
    frame: PointerFrame,
    position: Point,
    at: int,
)
    requires
        editor.without_pen_at_work(),
        editor.interaction is None,
        editor.text_editing is None,
        editor.tool != EditorTool::Stroke,
        double_clicks(frame, position),
        topmost(board.elements@, frame.under@, editor.tool, at),
        element_at(board.elements@, board.elements@[at].element_id) == Some(at),
    ensures
        ({
            let element = board.elements@[at];
            let (next, asked) = editor.mouse_frame(board, frame);
            &&& next.selected_element_id == Some(element.element_id)
            &&& asked.released is Nothing
            &&& asked.sequence is None
            &&& asked.dot is None
            &&& !(element.payload is Arrow) ==> !asked.toast
            &&& element.payload is SequenceMarker ==> next.text_editing is None
            &&& element.payload matches ElementPayload::Rectangle { label, .. } ==> (
            label.text matches Some(text) ==> (frame.under@[at].label ==> (
            next.text_editing matches Some(editing) && editing.target == (
            TextTarget::RectangleLabel { element_id: element.element_id }) && editing.buffer
                == text@ && !editing.select_all && !editing.auto_place_rectangle)))
            &&& element.payload matches ElementPayload::Arrow { label, .. } ==> (
            label.text matches Some(text) ==> (frame.under@[at].label ==> (
            next.text_editing matches Some(editing) && editing.target == (TextTarget::ArrowLabel {
                element_id: element.element_id,
            }) && editing.buffer == text@ && !editing.select_all)))
            &&& element.payload matches ElementPayload::Rectangle { label, .. } ==> (
            label.text is None ==> (next.text_editing matches Some(editing) && editing.target == (
            TextTarget::RectangleLabel { element_id: element.element_id }) && editing.buffer.len()
                == 0 && editing.auto_place_rectangle))
            &&& element.payload matches ElementPayload::Arrow { label, can_host_label, .. } ==> (
            label.text is None ==> {
                &&& can_host_label ==> (next.text_editing matches Some(editing) && editing.target
                    == (TextTarget::ArrowLabel { element_id: element.element_id })
                    && editing.buffer.len() == 0)
                &&& asked.toast == !can_host_label
                &&& !can_host_label ==> next.text_editing is None
            })
            &&& element.payload matches ElementPayload::Text { text, .. } ==> (
            next.text_editing matches Some(editing) && editing.target == (TextTarget::ExistingText {
                element_id: element.element_id,
            }) && editing.buffer == text@)
        }),
{
    lemma_no_pen(editor);
    lemma_hit_is(board.elements@, frame.under@, editor.tool, at);
}

/// Whether events are those of one pen that is set down on the document and moved on it.
pub open spec fn pen_moves(events: Seq<StylusEvent>, id: StylusId) -> bool {
    &&& events.len() > 0
    &&& events[0].phase == TouchPhase::Start
    &&& forall|i: int|
        0 <= i < events.len() ==> (#[trigger] events[i]).id == id && (i > 0 ==> events[i].phase
            == TouchPhase::Move)
}

proof fn lemma_pen_samples(
    events: Seq<StylusEvent>,
    id: StylusId,
    places: Seq<Option<Point>>,
    last_point: Option<Point>,
)
    requires
        pen_moves(events, id),
        places.len() == events.len(),
        forall|i: int| 0 <= i < places.len() ==> (#[trigger] places[i]) is Some,
    ensures
        ({
            let end = frame_start(None, last_point).after_all(events, places);
            &&& end.active == Some(id)
            &&& !end.ended
            &&& !end.cancelled
            &&& end.samples.len() == events.len()
            &&& forall|i: int|
                0 <= i < events.len() ==> (#[trigger] end.samples[i]) == (StylusSample {
                    phase: events[i].phase,
                    point: places[i]->0,
                    pressure: events[i].pressure,
                })
        }),
    decreases events.len(),
{
    let shorter = events.drop_last();
    let fewer = places.drop_last();
    assert(places[places.len() - 1] is Some);
    assert(events[events.len() - 1].id == id);
    if shorter.len() > 0 {
        assert forall|i: int| 0 <= i < shorter.len() implies (#[trigger] shorter[i]).id == id && (i
            > 0 ==> shorter[i].phase == TouchPhase::Move) by {
            assert(shorter[i] == events[i]);
        }
        assert forall|i: int| 0 <= i < fewer.len() implies (#[trigger] fewer[i]) is Some by {
            assert(fewer[i] == places[i]);
        }
        assert(shorter[0] == events[0]);
        lemma_pen_samples(shorter, id, fewer, last_point);
        let before = frame_start(None, last_point).after_all(shorter, fewer);
        let end = frame_start(None, last_point).after_all(events, places);
        assert forall|i: int| 0 <= i < events.len() implies (#[trigger] end.samples[i]) == (
        StylusSample {
            phase: events[i].phase,
            point: places[i]->0,
            pressure: events[i].pressure,
        }) by {
            if i < shorter.len() {
                assert(end.samples[i] == before.samples[i]);
                assert(shorter[i] == events[i]);
                assert(fewer[i] == places[i]);
            }
        }
    } else {
        assert(frame_start(None, last_point).after_all(shorter, fewer) == frame_start(
            None,
            last_point,
        ));
    }
}

proof fn lemma_samples_are_points(points: Seq<StrokePoint>, samples: Seq<StylusSample>)
    requires
        forall|i: int|
            0 <= i < samples.len() ==> (#[trigger] samples[i]).phase == TouchPhase::Start
                || samples[i].phase == TouchPhase::Move,
        forall|i: int, j: int|
            0 <= i && j == i + 1 && j < samples.len() ==> !(#[trigger] samples[i]).point.same(
                (#[trigger] samples[j]).point,
            ),
        points.len() > 0 && samples.len() > 0 ==> !points.last().point.same(samples[0].point),
    ensures
        with_samples(points, samples) == points + samples.map_values(
            |sample: StylusSample| StrokePoint { point: sample.point, pressure: sample.pressure },
        ),
    decreases samples.len(),
{
    let made = samples.map_values(
        |sample: StylusSample| StrokePoint { point: sample.point, pressure: sample.pressure },
    );
    if samples.len() == 0 {
        assert(points + made =~= points);
    } else {
        let shorter = samples.drop_last();
        assert forall|i: int| 0 <= i < shorter.len() implies (#[trigger] shorter[i]).phase
            == TouchPhase::Start || shorter[i].phase == TouchPhase::Move by {
            assert(shorter[i] == samples[i]);
        }
        assert forall|i: int, j: int| 0 <= i && j == i + 1 && j < shorter.len() implies !(
        #[trigger] shorter[i]).point.same((#[trigger] shorter[j]).point) by {
            assert(shorter[i] == samples[i]);
            assert(shorter[j] == samples[j]);
        }
        lemma_samples_are_points(points, shorter);
        let before = with_samples(points, shorter);
        assert(samples[samples.len() - 1] == samples.last());
        if shorter.len() > 0 {
            assert(before.last().point == samples[samples.len() - 2].point);
            assert(!samples[samples.len() - 2].point.same(samples[samples.len() - 1].point));
        } else {
            assert(before =~= points);
        }
        assert(with_samples(points, samples) =~= points + made);
    }
}

/// A pen that is set down and moved draws through every place that it touches, in their order,
/// each with the pressure that it had there.
pub proof fn law_a_pen_draws_where_it_touches(
    editor: EditorView,
    id: StylusId,
    places: Seq<Option<Point>>,
)
    requires
        editor.tool == EditorTool::Stroke,
        editor.interaction is None,
        editor.active_stylus_id is None,
        editor.pending_stroke_points.len() == 0,
        pen_moves(editor.queued_stylus_events, id),
        places.len() == editor.queued_stylus_events.len(),
        forall|i: int| 0 <= i < places.len() ==> (#[trigger] places[i]) is Some,
        forall|i: int, j: int|
            0 <= i && j == i + 1 && j < places.len() ==> !(#[trigger] places[i])->0.same(
                (#[trigger] places[j])->0,
            ),
    ensures
        ({
            let (next, stage) = editor.pen_taken(places);
            &&& next.pending_stroke_points.len() == places.len()
            &&& forall|i: int|
                0 <= i < places.len() ==> (#[trigger] next.pending_stroke_points[i]) == (
                StrokePoint {
                    point: places[i]->0,
                    pressure: editor.queued_stylus_events[i].pressure,
                })
            &&& next.active_stylus_id == Some(id)
            &&& next.queued_stylus_events.len() == 0
            &&& !stage.ended && !stage.cancelled && !stage.no_samples
        }),
{
    let events = editor.queued_stylus_events;
    lemma_pen_samples(events, id, places, editor.last_pen_point());
    let samples = editor.pen_frame(places).samples;
    assert forall|i: int| 0 <= i < samples.len() implies (#[trigger] samples[i]).phase
        == TouchPhase::Start || samples[i].phase == TouchPhase::Move by {
        assert(events[i].id == id);
    }
    assert forall|i: int, j: int| 0 <= i && j == i + 1 && j < samples.len() implies !(
    #[trigger] samples[i]).point.same((#[trigger] samples[j]).point) by {
        assert(samples[i].point == places[i]->0);
        assert(samples[j].point == places[j]->0);
    }
    lemma_samples_are_points(editor.pending_stroke_points, samples);
}

/// A stroke begins where the button was pressed, and goes on through what the pen had drawn
/// until then: nothing of that is lost.
pub proof fn law_a_stroke_begins_where_the_button_was_pressed(pending: Seq<StrokePoint>, start: Point)
    requires
        start.same(start),
    ensures
        ({
            let points = stroke_from(pending, start);
            &&& points.len() > 0
            &&& points[0].point.same(start)
            &&& pending.is_suffix_of(points)
            &&& points.len() <= pending.len() + 1
            &&& pending.len() > 0 ==> points[0].pressure == pending[0].pressure
        }),
{
    let points = stroke_from(pending, start);
    assert(points.subrange(points.len() - pending.len(), points.len() as int) =~= pending);
}

/// A pen that is lifted elsewhere than where it was set down adds its last place to the stroke,
/// without pressure.
pub proof fn law_a_lifted_pen_ends_the_stroke(
    points: Seq<StrokePoint>,
    at: Point,
    pressure: u32,
)
    requires
        points.len() > 0,
        !points.last().point.same(at),
    ensures
        with_samples(points, seq![StylusSample { phase: TouchPhase::End, point: at, pressure }])
            == points.push(StrokePoint { point: at, pressure: ZERO }),
{
    let samples = seq![StylusSample { phase: TouchPhase::End, point: at, pressure }];
    assert(samples.drop_last() =~= Seq::<StylusSample>::empty());
    reveal_with_fuel(with_samples, 2);
    assert(samples.last() == samples[0]);
}

/// The tab key leads to the tool that stands next in its order, and with shift to the one that
/// stands before; at the end it goes round.
pub proof fn law_tab_takes_the_neighbour(editor: EditorView, at: int)
    requires
        editor.tab_order.no_duplicates(),
        0 <= at < editor.tab_order.len(),
        editor.tool == editor.tab_order[at],
    ensures
        ({
            let order = editor.tab_order;
            let n = order.len() as int;
            let next = EditorView {
                queued_tool_switch: Some(ToolSwitchDirection::Next),
                ..editor
            }.queue_done();
            let previous = EditorView {
                queued_tool_switch: Some(ToolSwitchDirection::Previous),
                ..editor
            }.queue_done();
            &&& at + 1 < n ==> next.tool == order[at + 1]
            &&& at + 1 == n ==> next.tool == order[0]
            &&& at > 0 ==> previous.tool == order[at - 1]
            &&& at == 0 ==> previous.tool == order[n - 1]
            &&& next.queued_tool_switch is None
            &&& previous.queued_tool_switch is None
        }),
{
    let order = editor.tab_order;
    let n = order.len() as int;
    lemma_tool_stands_at(order, at);
    if at + 1 < n {
        vstd::arithmetic::div_mod::lemma_small_mod((at + 1) as nat, n as nat);
    } else {
        vstd::arithmetic::div_mod::lemma_mod_self_0(n);
    }
    if at > 0 {
        vstd::arithmetic::div_mod::lemma_mod_add_multiples_vanish(at - 1, n);
        vstd::arithmetic::div_mod::lemma_small_mod((at - 1) as nat, n as nat);
    } else {
        vstd::arithmetic::div_mod::lemma_small_mod((n - 1) as nat, n as nat);
    }
}

proof fn lemma_tool_stands_at(order: Seq<EditorTool>, at: int)
    requires
        order.no_duplicates(),
        0 <= at < order.len(),
    ensures
        place_in_order(order, order[at]) == Some(at),
    decreases order.len(),
{
    let shorter = order.drop_last();
    if at < order.len() - 1 {
        assert(shorter[at] == order[at]);
        assert forall|i: int, j: int|
            0 <= i < shorter.len() && 0 <= j < shorter.len() && i != j implies shorter[i]
            != shorter[j] by {
            assert(shorter[i] == order[i] && shorter[j] == order[j]);
        }
        lemma_tool_stands_at(shorter, at);
    } else {
        assert forall|i: int| 0 <= i < shorter.len() implies shorter[i] != order[at] by {
            assert(shorter[i] == order[i]);
        }
        lemma_tool_is_nowhere(shorter, order[at]);
    }
}

proof fn lemma_tool_is_nowhere(order: Seq<EditorTool>, tool: EditorTool)
    requires
        forall|i: int| 0 <= i < order.len() ==> order[i] != tool,
    ensures
        place_in_order(order, tool) is None,
    decreases order.len(),
{
    if order.len() > 0 {
        let shorter = order.drop_last();
        assert forall|i: int| 0 <= i < shorter.len() implies shorter[i] != tool by {
            assert(shorter[i] == order[i]);
        }
        lemma_tool_is_nowhere(shorter, tool);
    }
}

/// The tab key alone asks for the next tool, with shift for the one before, and with another
/// key for none; the last of them in a frame counts.
pub proof fn law_the_last_tab_counts(
    events: Seq<InputEventView>,
    physical_key: Option<Key>,
    repeat: bool,
    modifiers: Modifiers,
)
    ensures
        ({
            let tab = InputEventView::Key {
                key: Key::Tab,
                physical_key,
                pressed: true,
                repeat,
                modifiers,
            };
            let alone = !modifiers.alt && !modifiers.ctrl && !modifiers.shift && !modifiers.mac_cmd
                && !modifiers.command;
            let shifted = modifiers.shift && !modifiers.alt && !modifiers.command;
            &&& alone ==> last_switch(events.push(tab)) == Some(ToolSwitchDirection::Next)
            &&& shifted ==> last_switch(events.push(tab)) == Some(ToolSwitchDirection::Previous)
            &&& !alone && !shifted ==> last_switch(events.push(tab)) == last_switch(events)
        }),
{
    let tab = InputEventView::Key { key: Key::Tab, physical_key, pressed: true, repeat, modifiers };
    assert(events.push(tab).drop_last() =~= events);
    assert(events.push(tab).last() == tab);
}

/// The Enter key alone submits a text while nothing is being composed, and with shift it breaks
/// a line instead; what is committed and what is composed reach the text as they are.
pub proof fn law_what_a_text_sees(
    now: TextInput,
    physical_key: Option<Key>,
    repeat: bool,
    text: Seq<char>,
    tag: u64,
)
    requires
        now.active is None,
        now.confirmation is None,
        !now.consume,
        text.len() > 0,
        text.last() != '\n' && text.last() != '\r',
    ensures
        ({
            let enter = |shift: bool|
                InputEventView::Key {
                    key: Key::Enter,
                    physical_key,
                    pressed: true,
                    repeat,
                    modifiers: Modifiers {
                        alt: false,
                        ctrl: false,
                        shift,
                        mac_cmd: false,
                        command: false,
                    },
                };
            &&& now.after(enter(false)).submit
            &&& now.after(enter(false)).kept == now.kept
            &&& now.after(enter(true)).submit == now.submit
            &&& now.after(enter(true)).kept == now.kept.push(enter(true))
            &&& now.after(InputEventView::Commit(text)).kept == now.kept.push(
                InputEventView::Commit(text),
            )
            &&& now.after(InputEventView::Commit(text)).submit == now.submit
            &&& now.after(InputEventView::Preedit { text, tag }).kept == now.kept.push(
                InputEventView::Preedit { text, tag },
            )
            &&& now.after(InputEventView::Preedit { text, tag }).active == Some(text)
            &&& now.after(InputEventView::Preedit { text, tag }).submit == now.submit
        }),
{
    assert(!crate::input::line_break(text)) by {
        if crate::input::line_break(text) {
            assert(text.last() == '\n' || text.last() == '\r');
        }
    }
}

/// What an input method composed and then confirms with a line break reaches the text without
/// the line break: the text that was committed, or what was composed where that was all.
pub proof fn law_a_confirmed_composition_reaches_the_text(now: TextInput, preedit: Seq<char>, text: Seq<char>)
    requires
        now.active == Some(preedit),
        preedit.len() > 0,
        text.len() > 0 ==> text.last() != '\n' && text.last() != '\r',
    ensures
        ({
            let after = now.after(InputEventView::Commit(text.push('\n')));
            &&& after.submit == now.submit
            &&& after.active is None
            &&& after.kept == now.kept.push(
                InputEventView::Commit(
                    if text.len() == 0 {
                        preedit
                    } else {
                        text
                    },
                ),
            )
        }),
{
    let committed = text.push('\n');
    assert(committed.take(committed.len() - 1) =~= text);
}

/// A text is given up by the first Escape without a command key that was pressed in a frame,
/// and by nothing else.
pub proof fn law_the_first_escape_gives_a_text_up(events: Seq<InputEventView>)
    ensures
        match giving_up_at(events) {
            Some(at) => {
                &&& 0 <= at < events.len()
                &&& escapes(events[at])
                &&& forall|i: int| 0 <= i < at ==> !escapes(#[trigger] events[i])
            },
            None => forall|i: int| 0 <= i < events.len() ==> !escapes(#[trigger] events[i]),
        },
    decreases events.len(),
{
    if events.len() > 0 {
        let shorter = events.drop_last();
        law_the_first_escape_gives_a_text_up(shorter);
        assert forall|i: int| 0 <= i < shorter.len() implies shorter[i] == events[i] by {}
        match giving_up_at(shorter) {
            Some(at) => {
                assert(events[at] == shorter[at]);
                assert forall|i: int| 0 <= i < at implies !escapes(#[trigger] events[i]) by {
                    assert(events[i] == shorter[i]);
                }
            },
            None => {
                assert forall|i: int| 0 <= i < shorter.len() implies !escapes(
                    #[trigger] events[i],
                ) by {
                    assert(events[i] == shorter[i]);
                }
            },
        }
    }
}

/// Escape is pressed without a key for commands.
pub open spec fn escapes(event: InputEventView) -> bool {
    event matches InputEventView::Key { key, pressed, modifiers, .. } && key == Key::Escape
        && pressed && !modifiers.command && !modifiers.ctrl && !modifiers.mac_cmd
}

/// The writing of a text ends by Enter, by losing the keyboard, or by a press on the document
/// that does not reshape what the text belongs to; after Enter nothing is selected, otherwise
/// what was selected still is. Without any of these it goes on.
pub proof fn law_how_writing_ends(
    editor: EditorView,
    completion: TextEditorCompletion,
    canvas_pressed: bool,
    transforming: bool,
)
    requires
        editor.text_editing is Some,
    ensures
        ({
            let how = ended_by(editor, completion, canvas_pressed, transforming);
            let next = completed(editor, how);
            &&& completion != TextEditorCompletion::Pending ==> how == completion
            &&& completion == TextEditorCompletion::Pending ==> (how
                == TextEditorCompletion::CanvasPress <==> canvas_pressed && !transforming)
            &&& next.text_editing is None <==> how != TextEditorCompletion::Pending
            &&& how == TextEditorCompletion::Pending ==> next == editor
            &&& how == TextEditorCompletion::Enter ==> next.selected_element_id is None
            &&& how != TextEditorCompletion::Enter ==> next.selected_element_id
                == editor.selected_element_id
            &&& next.tool == editor.tool
        }),
{
}

/// A change of a look reaches the element that is selected, in all that the element can take,
/// and no other element; an arrow whose label would no longer fit is left alone, and the user is
/// told.
pub proof fn law_a_look_reaches_the_selected_element(
    editor: EditorView,
    board: Board,
    element_id: u128,
    change: StyleChange,
    label_fits: bool,
    actions: Seq<EditorAction>,
    element: Element,
)
    requires
        editor.selected_element_id == Some(element_id),
        board.get(element_id) == Some(element),
        element.element_id == element_id,
        change.width_px is Some,
        !(element.payload is Text),
    ensures
        ({
            let asked = style_request(editor, board, change, label_fits, actions);
            let labelled = match element.payload {
                ElementPayload::Arrow { label, .. } => match pending_label(actions, element_id) {
                    Some(text) => text is Some,
                    None => label.text is Some,
                },
                _ => false,
            };
            &&& asked.toast <==> labelled && !label_fits
            &&& asked.command is None <==> asked.toast
            &&& asked.command matches Some(command) ==> {
                &&& command matches DocumentCommand::ChangeElementStyle {
                    element_id: changed,
                    change: made,
                }
                &&& changed == element_id
                &&& made.width_px == change.width_px
                &&& made.hardness == if element.payload is Stroke {
                    change.hardness
                } else {
                    None
                }
                &&& made.font_size_px == if element.payload is Stroke {
                    None
                } else {
                    change.font_size_px
                }
                &&& made.color_rgba is Some ==> made.color_rgba == change.color_rgba
            }
        }),
{
}

/// A colour that is chosen reaches the element that is selected, unless it has it already, and
/// a text that is being written; a label is written in the colour that stands out.
pub proof fn law_a_colour_reaches_what_is_selected_and_written(
    editor: EditorView,
    board: Board,
    color: ColorRgba,
    contrasting: ColorRgba,
    label_fits: bool,
    element_id: u128,
    element: Element,
    change: StyleChange,
)
    requires
        editor.selected_element_id == Some(element_id),
        board.get(element_id) == Some(element),
        element.element_id == element_id,
        change == (StyleChange {
            color_rgba: Some(color),
            width_px: None,
            font_size_px: None,
            hardness: None,
        }),
        element.payload matches ElementPayload::Stroke { stroke_style, .. }
            && stroke_style.color_rgba != color,
    ensures
        style_request(editor, board, change, label_fits, Seq::empty()).command == Some(
            DocumentCommand::ChangeElementStyle { element_id, change },
        ),
        ({
            let next = styled(editor, board, change, contrasting);
            &&& next.global_color == color
            &&& next.text_editing is Some <==> editor.text_editing is Some
            &&& next.text_editing matches Some(after) ==> (editor.text_editing matches Some(before)
                && after.buffer == before.buffer && after.target == before.target
                && after.text_style.font_size_px == before.text_style.font_size_px
                && after.text_style.color_rgba == if before.target is ArrowLabel || before.target
                is RectangleLabel {
                contrasting
            } else {
                color
            })
        }),
{
}

/// While nothing is selected, a change of a look becomes that of the tool in use, and the looks
/// of the other tools stay.
pub proof fn law_a_look_becomes_that_of_the_tool(
    editor: EditorView,
    board: Board,
    change: StyleChange,
    contrasting: ColorRgba,
    other: EditorTool,
)
    requires
        editor.selected_element_id is None,
        editor.styles.len() == 6,
        other != editor.tool,
    ensures
        ({
            let next = styled(editor, board, change, contrasting);
            let at = tool_index(editor.tool) as int;
            &&& next.styles.len() == 6
            &&& change.width_px matches Some(width_px) ==> next.styles[at].width_px == width_px
            &&& change.width_px is None ==> next.styles[at].width_px == editor.styles[at].width_px
            &&& change.font_size_px matches Some(size) ==> next.styles[at].font_size_px == size
            &&& change.font_size_px is None ==> next.styles[at].font_size_px
                == editor.styles[at].font_size_px
            &&& change.hardness matches Some(hardness) ==> next.styles[at].hardness == hardness
            &&& change.hardness is None ==> next.styles[at].hardness == editor.styles[at].hardness
            &&& next.styles[tool_index(other) as int] == editor.styles[tool_index(other) as int]
        }),
{
}

/// The actions of a frame are carried out up to the first that saves or closes, and no further.
pub proof fn law_actions_end_with_a_save_or_a_close(actions: Seq<EditorAction>)
    ensures
        match ending_at(actions) {
            Some(at) => {
                &&& 0 <= at < actions.len()
                &&& actions[at] is Save || actions[at] is Close
                &&& forall|i: int|
                    0 <= i < at ==> !((#[trigger] actions[i]) is Save) && !(actions[i] is Close)
            },
            None => forall|i: int|
                0 <= i < actions.len() ==> !((#[trigger] actions[i]) is Save) && !(actions[i]
                    is Close),
        },
    decreases actions.len(),
{
    if actions.len() > 0 {
        let shorter = actions.drop_last();
        law_actions_end_with_a_save_or_a_close(shorter);
        match ending_at(shorter) {
            Some(at) => {
                assert(actions[at] == shorter[at]);
                assert forall|i: int| 0 <= i < at implies !((#[trigger] actions[i]) is Save) && !(
                actions[i] is Close) by {
                    assert(actions[i] == shorter[i]);
                }
            },
            None => {
                assert forall|i: int| 0 <= i < shorter.len() implies !((
                #[trigger] actions[i]) is Save) && !(actions[i] is Close) by {
                    assert(actions[i] == shorter[i]);
                }
            },
        }
    }
}

/// The text that a label is to get is that of the last command that gives it one.
pub proof fn law_the_last_label_counts(
    actions: Seq<EditorAction>,
    batch: Vec<DocumentCommand>,
    element_id: u128,
    text: Option<String>,
)
    requires
        batch@.len() > 0,
        batch@.last() == (DocumentCommand::UpdateElementLabel { element_id, text }),
    ensures
        pending_label(actions.push(EditorAction::Command(batch)), element_id) == Some(text),
        pending_label(actions.push(EditorAction::Undo), element_id) == pending_label(
            actions,
            element_id,
        ),
{
    assert(actions.push(EditorAction::Command(batch)).drop_last() =~= actions);
    assert(actions.push(EditorAction::Undo).drop_last() =~= actions);
}

proof fn lemma_with_solution_keeps(
    staged: Board,
    sorted: Seq<LabelSolution>,
    solution: LabelSolution,
)
    ensures
        with_solution(staged, sorted, solution).to_multiset() == sorted.to_multiset().insert(
            solution,
        ),
        with_solution(staged, sorted, solution).len() == sorted.len() + 1,
    decreases sorted.len(),
{
    broadcast use vstd::seq_lib::group_to_multiset_ensures;
    if sorted.len() > 0 && comes_before(staged, solution, sorted.last()) {
        lemma_with_solution_keeps(staged, sorted.drop_last(), solution);
        assert(sorted.drop_last().push(sorted.last()) =~= sorted);
        assert(with_solution(staged, sorted.drop_last(), solution).push(
            sorted.last(),
        ).to_multiset() =~= sorted.to_multiset().insert(solution));
    }
}

/// The labels that move are put in their places each exactly once: none is lost on the way, and
/// none is put twice.
pub proof fn law_every_label_is_put_in_its_place_once(staged: Board, solutions: Seq<LabelSolution>)
    ensures
        in_order(staged, solutions).to_multiset() == solutions.to_multiset(),
    decreases solutions.len(),
{
    broadcast use vstd::seq_lib::group_to_multiset_ensures;
    if solutions.len() > 0 {
        law_every_label_is_put_in_its_place_once(staged, solutions.drop_last());
        lemma_with_solution_keeps(
            staged,
            in_order(staged, solutions.drop_last()),
            solutions.last(),
        );
        assert(solutions.drop_last().push(solutions.last()) =~= solutions);
    } else {
        assert(in_order(staged, solutions) =~= solutions);
    }
}

/// Whether no place comes before one that stands earlier in a list.
pub open spec fn ordered(staged: Board, list: Seq<LabelSolution>) -> bool {
    forall|i: int, j: int| 0 <= i < j < list.len() ==> !comes_before(staged, list[j], list[i])
}

proof fn lemma_before_is_transitive(
    staged: Board,
    first: LabelSolution,
    second: LabelSolution,
    third: LabelSolution,
)
    requires
        !comes_before(staged, second, first),
        !comes_before(staged, third, second),
    ensures
        !comes_before(staged, third, first),
{
}

proof fn lemma_with_solution_ordered(
    staged: Board,
    sorted: Seq<LabelSolution>,
    solution: LabelSolution,
)
    requires
        ordered(staged, sorted),
    ensures
        ordered(staged, with_solution(staged, sorted, solution)),
        forall|bound: LabelSolution|
            (forall|i: int| 0 <= i < sorted.len() ==> !comes_before(staged, bound, sorted[i]))
                && !comes_before(staged, bound, solution) ==> forall|i: int|
                0 <= i < with_solution(staged, sorted, solution).len() ==> !comes_before(
                    staged,
                    bound,
                    #[trigger] with_solution(staged, sorted, solution)[i],
                ),
    decreases sorted.len(),
{
    let made = with_solution(staged, sorted, solution);
    lemma_with_solution_keeps(staged, sorted, solution);
    if sorted.len() > 0 && comes_before(staged, solution, sorted.last()) {
        let shorter = sorted.drop_last();
        assert forall|i: int, j: int| 0 <= i < j < shorter.len() implies !comes_before(
            staged,
            shorter[j],
            shorter[i],
        ) by {
            assert(shorter[i] == sorted[i] && shorter[j] == sorted[j]);
        }
        lemma_with_solution_ordered(staged, shorter, solution);
        lemma_with_solution_keeps(staged, shorter, solution);
        let before = with_solution(staged, shorter, solution);
        let last = sorted.last();
        assert(!comes_before(staged, last, solution));
        assert forall|i: int| 0 <= i < shorter.len() implies !comes_before(
            staged,
            last,
            shorter[i],
        ) by {
            assert(shorter[i] == sorted[i]);
            assert(!comes_before(staged, sorted[sorted.len() - 1], sorted[i]));
        }
        assert(forall|i: int|
            0 <= i < before.len() ==> !comes_before(staged, last, #[trigger] before[i]));
        assert forall|i: int, j: int| 0 <= i < j < made.len() implies !comes_before(
            staged,
            made[j],
            made[i],
        ) by {
            if j < before.len() {
                assert(made[j] == before[j] && made[i] == before[i]);
            } else {
                assert(made[j] == last && made[i] == before[i]);
            }
        }
        assert forall|bound: LabelSolution|
            (forall|i: int| 0 <= i < sorted.len() ==> !comes_before(staged, bound, sorted[i]))
                && !comes_before(staged, bound, solution) implies forall|i: int|
            0 <= i < made.len() ==> !comes_before(staged, bound, #[trigger] made[i]) by {
            assert forall|i: int| 0 <= i < shorter.len() implies !comes_before(
                staged,
                bound,
                shorter[i],
            ) by {
                assert(shorter[i] == sorted[i]);
            }
            assert(!comes_before(staged, bound, sorted[sorted.len() - 1]));
            assert forall|i: int| 0 <= i < made.len() implies !comes_before(
                staged,
                bound,
                #[trigger] made[i],
            ) by {
                if i < before.len() {
                    assert(made[i] == before[i]);
                }
            }
        }
    } else {
        assert forall|i: int, j: int| 0 <= i < j < made.len() implies !comes_before(
            staged,
            made[j],
            made[i],
        ) by {
            if j < sorted.len() {
                assert(made[j] == sorted[j] && made[i] == sorted[i]);
            } else {
                assert(made[j] == solution && made[i] == sorted[i]);
                if i < sorted.len() - 1 {
                    lemma_before_is_transitive(staged, sorted[i], sorted.last(), solution);
                }
            }
        }
        assert forall|bound: LabelSolution|
            (forall|i: int| 0 <= i < sorted.len() ==> !comes_before(staged, bound, sorted[i]))
                && !comes_before(staged, bound, solution) implies forall|i: int|
            0 <= i < made.len() ==> !comes_before(staged, bound, #[trigger] made[i]) by {
            assert forall|i: int| 0 <= i < made.len() implies !comes_before(
                staged,
                bound,
                #[trigger] made[i],
            ) by {
                if i < sorted.len() {
                    assert(made[i] == sorted[i]);
                }
            }
        }
    }
}

/// The labels of higher rectangles are put in their places before those of lower ones.
pub proof fn law_higher_labels_come_first(
    staged: Board,
    solutions: Seq<LabelSolution>,
    i: int,
    j: int,
    higher: Element,
    lower: Element,
)
    requires
        0 <= i < in_order(staged, solutions).len(),
        0 <= j < in_order(staged, solutions).len(),
        staged.get(in_order(staged, solutions)[i].element_id) == Some(higher),
        staged.get(in_order(staged, solutions)[j].element_id) == Some(lower),
        higher.z_index > lower.z_index,
    ensures
        i < j,
{
    lemma_in_order_ordered(staged, solutions);
    let list = in_order(staged, solutions);
    assert(comes_before(staged, list[i], list[j]));
}

proof fn lemma_in_order_ordered(staged: Board, solutions: Seq<LabelSolution>)
    ensures
        ordered(staged, in_order(staged, solutions)),
    decreases solutions.len(),
{
    if solutions.len() > 0 {
        lemma_in_order_ordered(staged, solutions.drop_last());
        lemma_with_solution_ordered(
            staged,
            in_order(staged, solutions.drop_last()),
            solutions.last(),
        );
    }
}

/// A label of a rectangle of the document that has to move gets a command that puts it exactly
/// where it has to stand; one that stands there already gets none.
pub proof fn law_a_label_that_has_to_move_is_moved(
    commands: Seq<DocumentCommand>,
    document: Board,
    staged: Board,
    solution: LabelSolution,
    element: Element,
)
    requires
        document.get(solution.element_id) is Some,
        staged.get(solution.element_id) == Some(element),
        element.payload is Rectangle,
    ensures
        ({
            let stays = same_anchor(
                element.payload->preferred_label_anchor,
                solution.preferred_anchor,
            ) && same_anchor(element.payload->label_anchor, solution.actual_anchor);
            &&& stays ==> with_placement(commands, document, staged, solution) == commands
            &&& !stays ==> with_placement(commands, document, staged, solution) == commands.push(
                DocumentCommand::SetRectangleLabelPlacement {
                    element_id: solution.element_id,
                    preferred_anchor: solution.preferred_anchor,
                    actual_anchor: solution.actual_anchor,
                },
            )
        }),
{
}

/// What is shown otherwise than the document has it are exactly the elements that are new, and
/// those that look other than before.
pub proof fn law_a_preview_has_what_changes(
    document: Board,
    staged: Seq<Element>,
    same_look: Seq<bool>,
    element_id: u128,
)
    requires
        same_look.len() >= staged.len(),
    ensures
        changed_ids(document, staged, same_look).contains(element_id) <==> exists|i: int|
            0 <= i < staged.len() && (#[trigger] staged[i]).element_id == element_id && (
            element_at(document.elements@, element_id) is None || !same_look[i]),
    decreases staged.len(),
{
    if staged.len() > 0 {
        let shorter = staged.drop_last();
        let at = staged.len() - 1;
        law_a_preview_has_what_changes(document, shorter, same_look, element_id);
        let before = changed_ids(document, shorter, same_look);
        let all = changed_ids(document, staged, same_look);
        if before.contains(element_id) {
            let k = choose|k: int| 0 <= k < before.len() && before[k] == element_id;
            assert(all[k] == element_id);
            let i = choose|i: int|
                0 <= i < shorter.len() && (#[trigger] shorter[i]).element_id == element_id && (
                element_at(document.elements@, element_id) is None || !same_look[i]);
            assert(staged[i] == shorter[i]);
        }
        if staged[at].element_id == element_id && (element_at(document.elements@, element_id)
            is None || !same_look[at]) {
            assert(all[before.len() as int] == element_id);
        }
        if all.contains(element_id) && !before.contains(element_id) {
            let k = choose|k: int| 0 <= k < all.len() && all[k] == element_id;
            if k < before.len() {
                assert(before[k] == element_id);
            }
            assert(staged[at].element_id == element_id);
        }
        if exists|i: int|
            0 <= i < staged.len() && (#[trigger] staged[i]).element_id == element_id && (element_at(
                document.elements@,
                element_id,
            ) is None || !same_look[i]) {
            let i = choose|i: int|
                0 <= i < staged.len() && (#[trigger] staged[i]).element_id == element_id && (
                element_at(document.elements@, element_id) is None || !same_look[i]);
            if i < at {
                assert(shorter[i] == staged[i]);
            }
        }
    }
}

/// An element is painted as a drag leaves it where the drag shows it, and the text that is
/// being written is not painted twice: a text of the document is left out, and an element whose
/// label is being written is painted without it.
pub proof fn law_what_is_being_written_is_not_painted_twice(
    editor: EditorView,
    previews: Board,
    element: Element,
)
    ensures
        painted(editor, previews, element) matches Some(item) ==> {
            &&& item.element_id == element.element_id
            &&& item.from_preview <==> previews.get(element.element_id) is Some
        },
        editor.text_editing matches Some(editing) ==> {
            &&& editing.target == (TextTarget::ExistingText { element_id: element.element_id })
                ==> painted(editor, previews, element) is None
            &&& editing.target == (TextTarget::RectangleLabel { element_id: element.element_id })
                && element.payload is Rectangle && previews.get(element.element_id) is None ==> (
            painted(editor, previews, element) matches Some(item) && item.part
                == PaintPart::WithoutLabelText)
            &&& editing.target == (TextTarget::ArrowLabel { element_id: element.element_id })
                && element.payload is Arrow && previews.get(element.element_id) is None ==> (
            painted(editor, previews, element) matches Some(item) && item.part
                == PaintPart::WithoutLabelText)
            &&& editing.target is NewText ==> (painted(editor, previews, element) matches Some(item)
                && item.part == PaintPart::Whole)
        },
{
}

/// Of the elements that a drag shows, exactly those that the document does not have are painted
/// after the document's own.
pub proof fn law_new_elements_are_painted_last(board: Board, previews: Seq<Element>, element_id: u128)
    ensures
        (exists|i: int|
            0 <= i < painted_new(board, previews).len() && (#[trigger] painted_new(
                board,
                previews,
            )[i]).element_id == element_id) <==> board.get(element_id) is None && exists|i: int|
            0 <= i < previews.len() && (#[trigger] previews[i]).element_id == element_id,
        forall|i: int|
            0 <= i < painted_new(board, previews).len() ==> (#[trigger] painted_new(
                board,
                previews,
            )[i]).from_preview && painted_new(board, previews)[i].part == PaintPart::Whole,
    decreases previews.len(),
{
    if previews.len() > 0 {
        let shorter = previews.drop_last();
        law_new_elements_are_painted_last(board, shorter, element_id);
        let before = painted_new(board, shorter);
        let all = painted_new(board, previews);
        let at = previews.len() - 1;
        assert forall|i: int| 0 <= i < all.len() implies (#[trigger] all[i]).from_preview
            && all[i].part == PaintPart::Whole by {
            if i < before.len() {
                assert(all[i] == before[i]);
            }
        }
        if exists|i: int| 0 <= i < all.len() && (#[trigger] all[i]).element_id == element_id {
            let i = choose|i: int| 0 <= i < all.len() && (#[trigger] all[i]).element_id == element_id;
            if i < before.len() {
                assert(before[i].element_id == element_id);
                let k = choose|k: int|
                    0 <= k < shorter.len() && (#[trigger] shorter[k]).element_id == element_id;
                assert(previews[k].element_id == element_id);
            } else {
                assert(previews[at].element_id == element_id);
            }
        }
        if board.get(element_id) is None && exists|i: int|
            0 <= i < previews.len() && (#[trigger] previews[i]).element_id == element_id {
            let k = choose|k: int|
                0 <= k < previews.len() && (#[trigger] previews[k]).element_id == element_id;
            if k < at {
                assert(shorter[k].element_id == element_id);
                let i = choose|i: int|
                    0 <= i < before.len() && (#[trigger] before[i]).element_id == element_id;
                assert(all[i] == before[i]);
            } else {
                assert(all[before.len() as int].element_id == element_id);
            }
        }
    }
}

/// What is shown of a drag is the element that is dragged, at the place of the mouse: moved from
/// where the button was pressed, with the handle or the end that was grabbed there.
pub proof fn law_a_drag_is_shown_at_the_mouse(
    board: Board,
    element: Element,
    start: Point,
    current: Point,
    handle: crate::board::RectangleHandle,
    original: (Point, Point),
    endpoint: crate::board::ArrowEndpoint,
    grab_offset_px: Point,
)
    requires
        board.get(element.element_id) == Some(element),
    ensures
        preview_edit_of(
            InteractionView::Move { element_id: element.element_id, start, current },
            board,
        ) == Some(PreviewEdit::Move { element_id: element.element_id, start, current }),
        element.payload is Rectangle ==> preview_edit_of(
            InteractionView::ResizeRectangle {
                element_id: element.element_id,
                handle,
                original,
                current,
            },
            board,
        ) == Some(
            PreviewEdit::Corners { element_id: element.element_id, handle, original, current },
        ),
        element.payload matches ElementPayload::Arrow { label, .. } ==> preview_edit_of(
            InteractionView::UpdateArrowEndpoint {
                element_id: element.element_id,
                endpoint,
                current,
            },
            board,
        ) == Some(
            PreviewEdit::Endpoint {
                element_id: element.element_id,
                endpoint,
                current,
                keeps_distance: label.text is Some,
            },
        ),
        element.payload is Rectangle ==> preview_edit_of(
            InteractionView::DragRectangleLabel {
                element_id: element.element_id,
                current,
                grab_offset_px,
            },
            board,
        ) == Some(
            PreviewEdit::Label { element_id: element.element_id, current, grab_offset_px },
        ),
{
}

/// The element that is selected is marked as it is shown: a rectangle by its handles, an arrow
/// by its ends, any other by an outline; nothing is marked where nothing is selected.
pub proof fn law_the_selection_is_marked(
    editor: EditorView,
    previews: Board,
    board: Board,
    element: Element,
)
    requires
        editor.selected_element_id matches Some(element_id) && board.get(element_id) == Some(
            element,
        ) && previews.get(element_id) is None,
    ensures
        marks_of(editor, previews, board) == SelectionMarks::Handles <==> element.payload
            is Rectangle,
        marks_of(editor, previews, board) == SelectionMarks::Ends <==> element.payload is Arrow,
        marks_of(editor, previews, board) != SelectionMarks::Nothing,
        marks_of(EditorView { selected_element_id: None, ..editor }, previews, board)
            == SelectionMarks::Nothing,
{
}

} // verus!
