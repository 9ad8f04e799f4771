//! What the keys do in the editor, from the events of a frame to what is asked for.

use vstd::prelude::*;

use crate::commands::{DocumentCommand, EditorAction};
use crate::editor::{EditorView, KeyRequest};
use crate::input::{
    event_shortcut, shortcut_at, shortcut_in, InputEventView, Key, Modifiers,
};
use crate::stylus::Point;
use crate::tools::EditorTool;

verus! {

/// Whether a key for commands is held down.
pub open spec fn with_command(modifiers: Modifiers) -> bool {
    modifiers.command || modifiers.ctrl || modifiers.mac_cmd
}

/// Whether a key is pressed in a frame, together with others, before anything else that asks
/// for something.
pub open spec fn first_pressed(
    events: Seq<InputEventView>,
    writing: bool,
    at: int,
    key: Key,
    modifiers: Modifiers,
) -> bool {
    &&& 0 <= at < events.len()
    &&& events[at] matches InputEventView::Key { key: pressed_key, pressed, modifiers: held, .. }
    &&& pressed && pressed_key == key && held == modifiers
    &&& forall|i: int| 0 <= i < at ==> event_shortcut(#[trigger] events[i], writing) is None
}

/// The first event that asks for something is the one that is found.
proof fn lemma_first(events: Seq<InputEventView>, writing: bool, at: int)
    requires
        0 <= at < events.len(),
        event_shortcut(events[at], writing) is Some,
        forall|i: int| 0 <= i < at ==> event_shortcut(#[trigger] events[i], writing) is None,
    ensures
        shortcut_at(events, writing) == Some(at),
        shortcut_in(events, writing) == event_shortcut(events[at], writing),
    decreases events.len(),
{
    if at == events.len() - 1 {
        lemma_none(events.drop_last(), writing);
    } else {
        let shorter = events.drop_last();
        assert forall|i: int| 0 <= i < at implies event_shortcut(
            #[trigger] shorter[i],
            writing,
        ) is None by {
            assert(shorter[i] == events[i]);
        }
        lemma_first(shorter, writing, at);
    }
}

proof fn lemma_none(events: Seq<InputEventView>, writing: bool)
    requires
        forall|i: int|
            0 <= i < events.len() ==> event_shortcut(#[trigger] events[i], writing) is None,
    ensures
        shortcut_at(events, writing) is None,
    decreases events.len(),
{
    if events.len() > 0 {
        let shorter = events.drop_last();
        assert forall|i: int| 0 <= i < shorter.len() implies event_shortcut(
            #[trigger] shorter[i],
            writing,
        ) is None by {
            assert(shorter[i] == events[i]);
        }
        lemma_none(shorter, writing);
        assert(event_shortcut(events[events.len() - 1], writing) is None);
    }
}

/// With no text being written, command and Z undo, and with shift they redo: nothing else is
/// asked for. What was under way is given up, and nothing stays selected.
pub proof fn law_command_z_undoes_and_with_shift_redoes(
    editor: EditorView,
    events: Seq<InputEventView>,
    at: int,
    modifiers: Modifiers,
    center: Point,
)
    requires
        editor.text_editing is None,
        first_pressed(events, false, at, Key::Z, modifiers),
        with_command(modifiers),
    ensures
        !modifiers.shift ==> editor.asked_by_keys(events, center) == KeyRequest::Act(
            EditorAction::Undo,
        ),
        modifiers.shift ==> editor.asked_by_keys(events, center) == KeyRequest::Act(
            EditorAction::Redo,
        ),
        !editor.keys_commit(events) || editor.queue_leaves(),
        editor.after_keys(events).interaction is None,
        editor.after_keys(events).selected_element_id is None,
        editor.after_keys(events).text_editing is None,
        editor.after_keys(events).tool == editor.queue_done().tool,
{
    lemma_first(events, false, at);
}

/// Command and S save, whether a text is being written or not; a text that is being written is
/// first brought to its end and kept.
pub proof fn law_command_s_saves(
    editor: EditorView,
    events: Seq<InputEventView>,
    at: int,
    modifiers: Modifiers,
    center: Point,
)
    requires
        editor.queued_tool_switch is None,
        first_pressed(events, editor.text_editing is Some, at, Key::S, modifiers),
        with_command(modifiers),
    ensures
        editor.asked_by_keys(events, center) == KeyRequest::Act(EditorAction::Save),
        editor.keys_commit(events),
        editor.after_keys(events).text_editing is None,
        editor.after_keys(events).selected_element_id == editor.selected_element_id,
        editor.after_keys(events).tool == editor.tool,
{
    lemma_first(events, editor.text_editing is Some, at);
}

/// With no text being written, command and C copy what is selected, and nothing where nothing
/// is.
pub proof fn law_command_c_copies_the_selection(
    editor: EditorView,
    events: Seq<InputEventView>,
    at: int,
    modifiers: Modifiers,
    center: Point,
)
    requires
        editor.text_editing is None,
        editor.queued_tool_switch is None,
        first_pressed(events, false, at, Key::C, modifiers),
        with_command(modifiers),
    ensures
        editor.selected_element_id is Some ==> editor.asked_by_keys(events, center)
            == KeyRequest::Act(EditorAction::Copy),
        editor.selected_element_id is None ==> editor.asked_by_keys(events, center)
            == KeyRequest::Nothing,
        editor.after_keys(events) == editor,
{
    lemma_first(events, false, at);
}

/// With no text being written, command and V paste where the pointer was last on the document,
/// or in its middle.
pub proof fn law_command_v_pastes_at_the_pointer(
    editor: EditorView,
    events: Seq<InputEventView>,
    at: int,
    modifiers: Modifiers,
    center: Point,
)
    requires
        editor.text_editing is None,
        editor.queued_tool_switch is None,
        first_pressed(events, false, at, Key::V, modifiers),
        with_command(modifiers),
    ensures
        editor.last_pointer_document matches Some(position) ==> editor.asked_by_keys(
            events,
            center,
        ) == KeyRequest::Act(EditorAction::Paste { position }),
        editor.last_pointer_document is None ==> editor.asked_by_keys(events, center)
            == KeyRequest::Act(EditorAction::Paste { position: center }),
        editor.after_keys(events) == editor,
{
    lemma_first(events, false, at);
}

/// With no text being written, the keys for deleting delete the element that is selected, and
/// no other; it is no longer selected then.
pub proof fn law_delete_takes_the_selected_element(
    editor: EditorView,
    events: Seq<InputEventView>,
    at: int,
    key: Key,
    modifiers: Modifiers,
    center: Point,
)
    requires
        editor.text_editing is None,
        editor.queued_tool_switch is None,
        key == Key::Delete || key == Key::Backspace,
        first_pressed(events, false, at, key, modifiers),
    ensures
        editor.selected_element_id matches Some(element_id) ==> editor.asked_by_keys(
            events,
            center,
        ) == (KeyRequest::Reflowed {
            command: DocumentCommand::DeleteElement { element_id },
            element_id,
        }),
        editor.selected_element_id is None ==> editor.asked_by_keys(events, center)
            == KeyRequest::Nothing,
        editor.after_keys(events) == (EditorView { selected_element_id: None, ..editor }),
{
    lemma_first(events, false, at);
}

/// With no text being written, Enter alone selects nothing any more, and asks for nothing.
pub proof fn law_enter_deselects(
    editor: EditorView,
    events: Seq<InputEventView>,
    at: int,
    modifiers: Modifiers,
    center: Point,
)
    requires
        editor.text_editing is None,
        editor.queued_tool_switch is None,
        first_pressed(events, false, at, Key::Enter, modifiers),
        !modifiers.alt && !modifiers.ctrl && !modifiers.shift && !modifiers.mac_cmd
            && !modifiers.command,
    ensures
        editor.asked_by_keys(events, center) == KeyRequest::Nothing,
        editor.after_keys(events) == (EditorView { selected_element_id: None, ..editor }),
{
    lemma_first(events, false, at);
}

/// Escape stops the text or the drag that is under way, and keeps nothing of them; only where
/// neither is it closes the editor.
pub proof fn law_escape_cancels_or_closes(
    editor: EditorView,
    events: Seq<InputEventView>,
    at: int,
    modifiers: Modifiers,
    center: Point,
)
    requires
        editor.queued_tool_switch is None,
        first_pressed(events, editor.text_editing is Some, at, Key::Escape, modifiers),
    ensures
        editor.text_editing is Some || editor.interaction is Some ==> {
            &&& editor.asked_by_keys(events, center) == KeyRequest::Nothing
            &&& editor.after_keys(events).text_editing is None
            &&& editor.after_keys(events).interaction is None
            &&& editor.after_keys(events).selected_element_id == editor.selected_element_id
        },
        editor.text_editing is None && editor.interaction is None ==> {
            &&& editor.asked_by_keys(events, center) == KeyRequest::Act(EditorAction::Close)
            &&& editor.after_keys(events) == editor
        },
        !editor.keys_commit(events),
{
    lemma_first(events, editor.text_editing is Some, at);
}

/// The keys for the tools take them in the order of the toolbar; while a text is being written
/// they do so with a command key, and the text is kept. Nothing is asked for.
pub proof fn law_number_keys_take_the_tools(
    editor: EditorView,
    events: Seq<InputEventView>,
    at: int,
    key: Key,
    modifiers: Modifiers,
    center: Point,
)
    requires
        editor.queued_tool_switch is None,
        key == Key::Num1 || key == Key::Num2 || key == Key::Num3 || key == Key::Num4 || key
            == Key::Num5 || key == Key::Num6,
        first_pressed(events, editor.text_editing is Some, at, key, modifiers),
        if editor.text_editing is Some {
            with_command(modifiers)
        } else {
            !modifiers.shift && !modifiers.alt
        },
    ensures
        ({
            let next = editor.after_keys(events);
            &&& key == Key::Num1 ==> next.tool == EditorTool::Select
            &&& key == Key::Num2 ==> next.tool == EditorTool::Rectangle
            &&& key == Key::Num3 ==> next.tool == EditorTool::Arrow
            &&& key == Key::Num4 ==> next.tool == EditorTool::Text
            &&& key == Key::Num5 ==> next.tool == EditorTool::Stroke
            &&& key == Key::Num6 ==> next.tool == EditorTool::Sequence
            &&& next.tool != editor.tool ==> next.text_editing is None && editor.keys_commit(events)
            &&& next.tool == editor.tool ==> next == editor && !editor.keys_commit(events)
        }),
        editor.asked_by_keys(events, center) == KeyRequest::Nothing,
{
    lemma_first(events, editor.text_editing is Some, at);
}

/// While a text is being written, a key without a command key belongs to the text, but for
/// Escape: nothing is asked for, nothing changes, and no event is taken away.
pub proof fn law_keys_belong_to_the_text(
    editor: EditorView,
    events: Seq<InputEventView>,
    center: Point,
)
    requires
        editor.queued_tool_switch is None,
        editor.text_editing is Some,
        forall|i: int|
            0 <= i < events.len() ==> ((#[trigger] events[i]) matches InputEventView::Key {
                key,
                modifiers,
                ..
            } ==> key != Key::Escape && !with_command(modifiers)),
    ensures
        editor.asked_by_keys(events, center) == KeyRequest::Nothing,
        editor.after_keys(events) == editor,
        shortcut_at(events, true) is None,
        !editor.keys_commit(events),
{
    assert forall|i: int| 0 <= i < events.len() implies event_shortcut(
        #[trigger] events[i],
        true,
    ) is None by {
        assert(events[i] matches InputEventView::Key { key, modifiers, .. } ==> key != Key::Escape
            && !with_command(modifiers));
    }
    lemma_none(events, true);
}

/// A key that is let go asks for nothing, and neither does what is no key.
pub proof fn law_only_pressed_keys_ask(
    editor: EditorView,
    events: Seq<InputEventView>,
    center: Point,
)
    requires
        editor.queued_tool_switch is None,
        forall|i: int|
            0 <= i < events.len() ==> !((#[trigger] events[i]) matches InputEventView::Key {
                pressed,
                ..
            } && pressed),
    ensures
        editor.asked_by_keys(events, center) == KeyRequest::Nothing,
        editor.after_keys(events) == editor,
{
    let writing = editor.text_editing is Some;
    assert forall|i: int| 0 <= i < events.len() implies event_shortcut(
        #[trigger] events[i],
        writing,
    ) is None by {
        assert(!(events[i] matches InputEventView::Key { pressed, .. } && pressed));
    }
    lemma_none(events, writing);
}

} // verus!
