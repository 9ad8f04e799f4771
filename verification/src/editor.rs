//! The editor: the tool in use, the element that is selected, the text that is being written,
//! and what the keyboard does.

use vstd::prelude::*;

use crate::application::text_of;
use crate::board::{
    default_tool_styles, first_style, style_for_element, style_of, ArrowEndpoint, Board, ColorRgba,
    ElementPayload, RectangleHandle, TextStyle, ToolStyle,
};
use crate::commands::{DocumentCommand, EditorAction};
use crate::input::{
    events_of, last_switch, shortcut_at, shortcut_in, take_shortcut, take_tab_switches,
    without_switches, InlineImeState, InputEvent, InputEventView, ShortcutAction,
    ToolSwitchDirection,
};
use crate::scale::{equal_numbers, numbers_equal};
use crate::stylus::{
    focus_lost, pen_events, without_pen, Point, StrokePoint, StylusEvent, StylusId, StylusInput,
};
use crate::text::{blank, is_blank};
use crate::tools::{tool_index, EditorTool};

verus! {

/// What the pointer is doing on the document.
pub enum PointerInteraction {
    /// It draws a new element.
    Draw {
        element_id: u128,
        tool: EditorTool,
        start: Point,
        current: Point,
        stroke_points: Vec<StrokePoint>,
    },
    Move { element_id: u128, start: Point, current: Point },
    ResizeRectangle {
        element_id: u128,
        handle: RectangleHandle,
        original: (Point, Point),
        current: Point,
    },
    UpdateArrowEndpoint { element_id: u128, endpoint: ArrowEndpoint, current: Point },
    DragRectangleLabel { element_id: u128, current: Point, grab_offset_px: Point },
}

/// The same, with the points of a stroke as a sequence.
pub enum InteractionView {
    Draw {
        element_id: u128,
        tool: EditorTool,
        start: Point,
        current: Point,
        stroke_points: Seq<StrokePoint>,
    },
    Move { element_id: u128, start: Point, current: Point },
    ResizeRectangle {
        element_id: u128,
        handle: RectangleHandle,
        original: (Point, Point),
        current: Point,
    },
    UpdateArrowEndpoint { element_id: u128, endpoint: ArrowEndpoint, current: Point },
    DragRectangleLabel { element_id: u128, current: Point, grab_offset_px: Point },
}

impl View for PointerInteraction {
    type V = InteractionView;

    open spec fn view(&self) -> InteractionView {
        match self {
            PointerInteraction::Draw { element_id, tool, start, current, stroke_points } => {
                InteractionView::Draw {
                    element_id: *element_id,
                    tool: *tool,
                    start: *start,
                    current: *current,
                    stroke_points: stroke_points@,
                }
            },
            PointerInteraction::Move { element_id, start, current } => InteractionView::Move {
                element_id: *element_id,
                start: *start,
                current: *current,
            },
            PointerInteraction::ResizeRectangle { element_id, handle, original, current } => {
                InteractionView::ResizeRectangle {
                    element_id: *element_id,
                    handle: *handle,
                    original: *original,
                    current: *current,
                }
            },
            PointerInteraction::UpdateArrowEndpoint { element_id, endpoint, current } => {
                InteractionView::UpdateArrowEndpoint {
                    element_id: *element_id,
                    endpoint: *endpoint,
                    current: *current,
                }
            },
            PointerInteraction::DragRectangleLabel { element_id, current, grab_offset_px } => {
                InteractionView::DragRectangleLabel {
                    element_id: *element_id,
                    current: *current,
                    grab_offset_px: *grab_offset_px,
                }
            },
        }
    }
}

/// What a text is being written for.
#[derive(Clone, Copy, PartialEq, Eq, Structural)]
pub enum TextTarget {
    NewText { anchor_px: Point },
    ExistingText { element_id: u128 },
    ArrowLabel { element_id: u128 },
    RectangleLabel { element_id: u128 },
}

/// The element that a text is being written for.
pub open spec fn target_id(target: TextTarget) -> Option<u128> {
    match target {
        TextTarget::NewText { .. } => None,
        TextTarget::ExistingText { element_id } => Some(element_id),
        TextTarget::ArrowLabel { element_id } => Some(element_id),
        TextTarget::RectangleLabel { element_id } => Some(element_id),
    }
}

/// The element that a text is being written for.
pub fn text_target_element_id(target: &TextTarget) -> (element_id: Option<u128>)
    ensures
        element_id == target_id(*target),
{
    match target {
        TextTarget::NewText { anchor_px: _ } => None,
        TextTarget::ExistingText { element_id } => Some(*element_id),
        TextTarget::ArrowLabel { element_id } => Some(*element_id),
        TextTarget::RectangleLabel { element_id } => Some(*element_id),
    }
}

/// A text that is being written.
pub struct TextEditing {
    pub target: TextTarget,
    pub buffer: String,
    pub text_style: TextStyle,
    pub ime: InlineImeState,
    /// Whether the text is yet to get the keyboard.
    pub request_focus: bool,
    /// Whether all of it is then selected.
    pub select_all: bool,
    /// Whether the label of a rectangle looks for a place of its own.
    pub auto_place_rectangle: bool,
}

/// The same, with texts as sequences of characters.
pub struct TextView {
    pub target: TextTarget,
    pub buffer: Seq<char>,
    pub text_style: TextStyle,
    pub preedit: Option<Seq<char>>,
    pub confirming_preedit_with_enter: bool,
    pub request_focus: bool,
    pub select_all: bool,
    pub auto_place_rectangle: bool,
}

impl View for TextEditing {
    type V = TextView;

    open spec fn view(&self) -> TextView {
        TextView {
            target: self.target,
            buffer: self.buffer@,
            text_style: self.text_style,
            preedit: text_of(self.ime.preedit),
            confirming_preedit_with_enter: self.ime.confirming_preedit_with_enter,
            request_focus: self.request_focus,
            select_all: self.select_all,
            auto_place_rectangle: self.auto_place_rectangle,
        }
    }
}

/// A text that one begins to write.
pub open spec fn text_begun(
    target: TextTarget,
    buffer: Seq<char>,
    text_style: TextStyle,
    select_all: bool,
    auto_place_rectangle: bool,
) -> TextView {
    TextView {
        target,
        buffer,
        text_style,
        preedit: None,
        confirming_preedit_with_enter: false,
        request_focus: true,
        select_all,
        auto_place_rectangle,
    }
}

impl TextEditing {
    /// Begins to write a text.
    pub fn begin(
        target: TextTarget,
        buffer: String,
        text_style: TextStyle,
        select_all: bool,
        auto_place_rectangle: bool,
    ) -> (editing: Self)
        ensures
            editing@ == text_begun(target, buffer@, text_style, select_all, auto_place_rectangle),
    {
        TextEditing {
            target,
            buffer,
            text_style,
            ime: InlineImeState { preedit: None, confirming_preedit_with_enter: false },
            request_focus: true,
            select_all,
            auto_place_rectangle,
        }
    }
}

/// The state of the editor.
pub struct EditorController {
    pub tool: EditorTool,
    /// The looks of the tools, in the order of the toolbar.
    pub styles: Vec<ToolStyle>,
    pub global_color: ColorRgba,
    pub selected_element_id: Option<u128>,
    pub interaction: Option<PointerInteraction>,
    /// The elements that are shown as a command that was just given leaves them.
    pub released_preview: Vec<u128>,
    pub text_editing: Option<TextEditing>,
    pub last_pointer_document: Option<Point>,
    pub active_tool_button_press_started: bool,
    pub stylus: StylusInput,
    pub queued_tool_switch: Option<ToolSwitchDirection>,
    pub tab_order: Vec<EditorTool>,
}

/// The state of the editor, with lists as sequences.
pub struct EditorView {
    pub tool: EditorTool,
    pub styles: Seq<ToolStyle>,
    pub global_color: ColorRgba,
    pub selected_element_id: Option<u128>,
    pub interaction: Option<InteractionView>,
    pub released_preview: Seq<u128>,
    pub text_editing: Option<TextView>,
    pub last_pointer_document: Option<Point>,
    pub active_tool_button_press_started: bool,
    pub queued_stylus_events: Seq<StylusEvent>,
    pub active_stylus_id: Option<StylusId>,
    pub pending_stroke_points: Seq<StrokePoint>,
    pub queued_tool_switch: Option<ToolSwitchDirection>,
    pub tab_order: Seq<EditorTool>,
}

impl View for EditorController {
    type V = EditorView;

    open spec fn view(&self) -> EditorView {
        EditorView {
            tool: self.tool,
            styles: self.styles@,
            global_color: self.global_color,
            selected_element_id: self.selected_element_id,
            interaction: match self.interaction {
                Some(interaction) => Some(interaction@),
                None => None,
            },
            released_preview: self.released_preview@,
            text_editing: match self.text_editing {
                Some(editing) => Some(editing@),
                None => None,
            },
            last_pointer_document: self.last_pointer_document,
            active_tool_button_press_started: self.active_tool_button_press_started,
            queued_stylus_events: self.stylus.queued@,
            active_stylus_id: self.stylus.active,
            pending_stroke_points: self.stylus.pending@,
            queued_tool_switch: self.queued_tool_switch,
            tab_order: self.tab_order@,
        }
    }
}

/// The place of the first of some tools that is a given one.
pub open spec fn place_in_order(order: Seq<EditorTool>, tool: EditorTool) -> Option<int>
    decreases order.len(),
{
    if order.len() == 0 {
        None
    } else {
        match place_in_order(order.drop_last(), tool) {
            Some(at) => Some(at),
            None => if order.last() == tool {
                Some(order.len() - 1)
            } else {
                None
            },
        }
    }
}

proof fn lemma_place_found(order: Seq<EditorTool>, tool: EditorTool, n: int)
    requires
        0 <= n <= order.len(),
        place_in_order(order.take(n), tool) is Some,
    ensures
        place_in_order(order, tool) == place_in_order(order.take(n), tool),
    decreases order.len(),
{
    if n == order.len() {
        assert(order.take(n) =~= order);
    } else {
        assert(order.drop_last().take(n) =~= order.take(n));
        lemma_place_found(order.drop_last(), tool, n);
    }
}

proof fn lemma_place_is_in(order: Seq<EditorTool>, tool: EditorTool)
    ensures
        match place_in_order(order, tool) {
            Some(at) => 0 <= at < order.len() && order[at] == tool,
            None => !order.contains(tool),
        },
    decreases order.len(),
{
    if order.len() > 0 {
        lemma_place_is_in(order.drop_last(), tool);
        if place_in_order(order, tool) is None {
            assert forall|i: int| 0 <= i < order.len() implies order[i] != tool by {
                if i < order.len() - 1 {
                    assert(order.drop_last()[i] == order[i]);
                    assert(order.drop_last().contains(order[i]));
                }
            }
        }
    }
}

/// The tool that follows a tool in an order that goes round: the first where the tool is not
/// in the order, and none where the order is empty.
pub open spec fn tool_after(order: Seq<EditorTool>, tool: EditorTool) -> Option<EditorTool> {
    match place_in_order(order, tool) {
        Some(at) => Some(order[(at + 1) % (order.len() as int)]),
        None => if order.len() == 0 {
            None
        } else {
            Some(order[0])
        },
    }
}

/// The tool that stands before a tool in an order that goes round: the last where the tool
/// is not in the order, and none where the order is empty.
pub open spec fn tool_before(order: Seq<EditorTool>, tool: EditorTool) -> Option<EditorTool> {
    match place_in_order(order, tool) {
        Some(at) => Some(order[(at + order.len() - 1) % (order.len() as int)]),
        None => if order.len() == 0 {
            None
        } else {
            Some(order.last())
        },
    }
}

/// What becomes of a text that was written.
pub enum TextCommit {
    Nothing,
    /// A new text is to be added.
    AddText { anchor_px: Point, text: String, box_width_px: u32, text_style: TextStyle },
    /// A command is to be carried out.
    Single(DocumentCommand),
    /// A command is to be carried out, and labels have to move out of the way.
    Reflowed { command: DocumentCommand, element_id: u128 },
}

/// The text of a label: none where nothing but white space was written.
pub open spec fn label_text(text: String) -> Option<String> {
    if blank(text@) {
        None
    } else {
        Some(text)
    }
}

/// The text of a label.
pub fn normalized_label_text(text: String) -> (label: Option<String>)
    ensures
        label == label_text(text),
{
    if is_blank(text.as_str()) {
        None
    } else {
        Some(text)
    }
}

/// Whether two labels say the same.
pub open spec fn same_label(left: Option<String>, right: Option<String>) -> bool {
    text_of(left) == text_of(right)
}

fn is_same_label(left: &Option<String>, right: &Option<String>) -> (yes: bool)
    ensures
        yes == same_label(*left, *right),
{
    match (left, right) {
        (Some(left), Some(right)) => *left == *right,
        (None, None) => true,
        _ => false,
    }
}

/// What becomes of a text that was written, given the width from the text's left edge to the
/// edge of the document: an empty text is dropped, and what was not changed is left alone.
pub open spec fn text_commit(board: Board, editing: TextEditing, edge_width_px: u32) -> TextCommit {
    match editing.target {
        TextTarget::NewText { anchor_px } => if blank(editing.buffer@) {
            TextCommit::Nothing
        } else {
            TextCommit::AddText {
                anchor_px,
                text: editing.buffer,
                box_width_px: edge_width_px,
                text_style: editing.text_style,
            }
        },
        TextTarget::ExistingText { element_id } => match board.get(element_id) {
            Some(element) => match element.payload {
                ElementPayload::Text { text, box_width_px, .. } => if blank(editing.buffer@) || (
                text@ == editing.buffer@ && equal_numbers(box_width_px, edge_width_px)) {
                    TextCommit::Nothing
                } else {
                    TextCommit::Single(
                        DocumentCommand::UpdateText {
                            element_id,
                            text: editing.buffer,
                            box_width_px: edge_width_px,
                            text_style: editing.text_style,
                        },
                    )
                },
                _ => TextCommit::Nothing,
            },
            None => TextCommit::Nothing,
        },
        TextTarget::ArrowLabel { element_id } => match board.get(element_id) {
            Some(element) => match element.payload {
                ElementPayload::Arrow { label, .. } => if same_label(
                    label.text,
                    label_text(editing.buffer),
                ) {
                    TextCommit::Nothing
                } else {
                    TextCommit::Single(
                        DocumentCommand::UpdateElementLabel {
                            element_id,
                            text: label_text(editing.buffer),
                        },
                    )
                },
                _ => TextCommit::Nothing,
            },
            None => TextCommit::Nothing,
        },
        TextTarget::RectangleLabel { element_id } => match board.get(element_id) {
            Some(element) => match element.payload {
                ElementPayload::Rectangle { label, .. } => if same_label(
                    label.text,
                    label_text(editing.buffer),
                ) {
                    TextCommit::Nothing
                } else {
                    TextCommit::Reflowed {
                        command: DocumentCommand::UpdateElementLabel {
                            element_id,
                            text: label_text(editing.buffer),
                        },
                        element_id,
                    }
                },
                _ => TextCommit::Nothing,
            },
            None => TextCommit::Nothing,
        },
    }
}

/// What becomes of the text that is being written, where there is one.
pub open spec fn commit_of(editor: EditorController, board: Board, edge_width_px: u32) -> TextCommit {
    match editor.text_editing {
        Some(editing) => text_commit(board, editing, edge_width_px),
        None => TextCommit::Nothing,
    }
}

impl EditorView {
    /// Nothing is known of a pen.
    pub open spec fn without_pen(self) -> EditorView {
        EditorView {
            queued_stylus_events: Seq::empty(),
            active_stylus_id: None,
            pending_stroke_points: Seq::empty(),
            ..self
        }
    }

    /// Another tool is in use: nothing is selected, and nothing is under way.
    pub open spec fn with_tool(self, tool: EditorTool) -> EditorView {
        if self.tool == tool {
            self
        } else {
            EditorView {
                tool,
                selected_element_id: None,
                interaction: None,
                released_preview: Seq::empty(),
                active_tool_button_press_started: false,
                ..self
            }.without_pen()
        }
    }

    /// No text is being written.
    pub open spec fn without_text(self) -> EditorView {
        EditorView { text_editing: None, ..self }
    }

    /// Another tool is taken: the text that is being written is first brought to its end.
    pub open spec fn switched(self, tool: EditorTool) -> EditorView {
        if self.tool == tool {
            self
        } else {
            self.without_text().with_tool(tool)
        }
    }

    /// The tool that a switch leads to.
    pub open spec fn switch_target(self, direction: ToolSwitchDirection) -> Option<EditorTool> {
        match direction {
            ToolSwitchDirection::Next => tool_after(self.tab_order, self.tool),
            ToolSwitchDirection::Previous => tool_before(self.tab_order, self.tool),
        }
    }

    /// Whether a switch ends the text that is being written.
    pub open spec fn leaves(self, tool: Option<EditorTool>) -> bool {
        tool matches Some(tool) && tool != self.tool
    }

    /// The switch that waits is done.
    pub open spec fn queue_done(self) -> EditorView {
        let taken = EditorView { queued_tool_switch: None, ..self };
        match self.queued_tool_switch {
            Some(direction) => match self.switch_target(direction) {
                Some(tool) => taken.switched(tool),
                None => taken,
            },
            None => taken,
        }
    }

    /// Whether the switch that waits ends the text that is being written.
    pub open spec fn queue_leaves(self) -> bool {
        self.queued_tool_switch matches Some(direction) && self.leaves(
            self.switch_target(direction),
        )
    }

    /// Nothing is under way, and nothing is selected.
    pub open spec fn at_rest(self) -> EditorView {
        EditorView { interaction: None, selected_element_id: None, ..self }.without_pen()
    }

    /// What a shortcut leaves.
    pub open spec fn after_shortcut(self, action: ShortcutAction) -> EditorView {
        match action {
            ShortcutAction::Tool(tool) => self.switched(tool),
            ShortcutAction::Undo | ShortcutAction::Redo => self.at_rest(),
            ShortcutAction::Save => self.without_text(),
            ShortcutAction::Deselect | ShortcutAction::Delete => EditorView {
                selected_element_id: None,
                ..self
            },
            ShortcutAction::CloseOrCancel => if self.text_editing is Some
                || self.interaction is Some {
                EditorView { interaction: None, ..self.without_text() }.without_pen()
            } else {
                self
            },
            ShortcutAction::Copy | ShortcutAction::Paste => self,
        }
    }

    /// Whether a shortcut ends the text that is being written, and keeps what was written.
    pub open spec fn shortcut_commits(self, action: ShortcutAction) -> bool {
        match action {
            ShortcutAction::Tool(tool) => tool != self.tool,
            ShortcutAction::Save => true,
            _ => false,
        }
    }

    /// What a shortcut asks for outside, given the middle of the document.
    pub open spec fn asked_by(self, action: ShortcutAction, center: Point) -> KeyRequest {
        match action {
            ShortcutAction::Undo => KeyRequest::Act(EditorAction::Undo),
            ShortcutAction::Redo => KeyRequest::Act(EditorAction::Redo),
            ShortcutAction::Save => KeyRequest::Act(EditorAction::Save),
            ShortcutAction::CloseOrCancel => if self.text_editing is Some
                || self.interaction is Some {
                KeyRequest::Nothing
            } else {
                KeyRequest::Act(EditorAction::Close)
            },
            ShortcutAction::Delete => match self.selected_element_id {
                Some(element_id) => KeyRequest::Reflowed {
                    command: DocumentCommand::DeleteElement { element_id },
                    element_id,
                },
                None => KeyRequest::Nothing,
            },
            ShortcutAction::Copy => if self.selected_element_id is Some {
                KeyRequest::Act(EditorAction::Copy)
            } else {
                KeyRequest::Nothing
            },
            ShortcutAction::Paste => KeyRequest::Act(
                EditorAction::Paste {
                    position: match self.last_pointer_document {
                        Some(position) => position,
                        None => center,
                    },
                },
            ),
            ShortcutAction::Tool(_) | ShortcutAction::Deselect => KeyRequest::Nothing,
        }
    }
}

impl EditorView {
    /// What the keyboard leaves in a frame: the switch of the tool that waits is done, and then
    /// what the first shortcut asks for.
    pub open spec fn after_keys(self, events: Seq<InputEventView>) -> EditorView {
        let switched = self.queue_done();
        match shortcut_in(events, switched.text_editing is Some) {
            Some(action) => switched.after_shortcut(action),
            None => switched,
        }
    }

    /// What the keyboard asks for outside in a frame, given the middle of the document.
    pub open spec fn asked_by_keys(self, events: Seq<InputEventView>, center: Point) -> KeyRequest {
        let switched = self.queue_done();
        match shortcut_in(events, switched.text_editing is Some) {
            Some(action) => switched.asked_by(action, center),
            None => KeyRequest::Nothing,
        }
    }

    /// Whether the keyboard brings the text that is being written to its end, and keeps what
    /// was written.
    pub open spec fn keys_commit(self, events: Seq<InputEventView>) -> bool {
        let switched = self.queue_done();
        self.queue_leaves() || (shortcut_in(
            events,
            switched.text_editing is Some,
        ) matches Some(action) && switched.shortcut_commits(action))
    }
}

/// What the keyboard asks for outside.
pub enum KeyRequest {
    Nothing,
    Act(EditorAction),
    /// A command is to be carried out, and labels have to move out of the way.
    Reflowed { command: DocumentCommand, element_id: u128 },
}

impl EditorController {
    /// Whether the state is sound: each tool has a look.
    pub open spec fn well_formed(&self) -> bool {
        self.styles@.len() == 6
    }

    /// The editor at its start: with the tool that was in use before, or with the one for
    /// rectangles.
    pub fn new(restored_tool: Option<EditorTool>) -> (editor: Self)
        ensures
            editor.well_formed(),
            editor@ == fresh(
                restored_tool,
                seq![
                    first_style(EditorTool::Select),
                    first_style(EditorTool::Rectangle),
                    first_style(EditorTool::Arrow),
                    first_style(EditorTool::Text),
                    first_style(EditorTool::Stroke),
                    first_style(EditorTool::Sequence),
                ],
                ColorRgba::Red,
            ),
    {
        EditorController::with_styles(restored_tool, default_tool_styles(), ColorRgba::Red)
    }

    /// The editor at its start, with looks of its tools and a colour.
    pub fn with_styles(
        restored_tool: Option<EditorTool>,
        styles: Vec<ToolStyle>,
        global_color: ColorRgba,
    ) -> (editor: Self)
        requires
            styles@.len() == 6,
        ensures
            editor.well_formed(),
            editor@ == fresh(restored_tool, styles@, global_color),
    {
        let mut tab_order: Vec<EditorTool> = Vec::new();
        tab_order.push(EditorTool::Rectangle);
        tab_order.push(EditorTool::Arrow);
        let editor = EditorController {
            tool: match restored_tool {
                Some(tool) => tool,
                None => EditorTool::Rectangle,
            },
            styles,
            global_color,
            selected_element_id: None,
            interaction: None,
            released_preview: Vec::new(),
            text_editing: None,
            last_pointer_document: None,
            active_tool_button_press_started: false,
            stylus: StylusInput::new(),
            queued_tool_switch: None,
            tab_order,
        };
        proof {
            let expected = fresh(restored_tool, editor.styles@, global_color);
            assert(editor@.released_preview =~= expected.released_preview);
            assert(editor@.queued_stylus_events =~= expected.queued_stylus_events);
            assert(editor@.pending_stroke_points =~= expected.pending_stroke_points);
            assert(editor@.tab_order =~= expected.tab_order);
        }
        editor
    }

    /// The tool in use.
    pub fn active_tool(&self) -> (tool: EditorTool)
        ensures
            tool == self.tool,
    {
        self.tool
    }

    /// Sets the order in which the tab key goes through the tools.
    pub fn set_tab_order(&mut self, tab_order: Vec<EditorTool>)
        ensures
            final(self)@ == (EditorView { tab_order: tab_order@, ..old(self)@ }),
            final(self).well_formed() == old(self).well_formed(),
    {
        self.tab_order = tab_order;
    }

    /// The element that is selected.
    pub fn selected_element_id(&self) -> (element_id: Option<u128>)
        ensures
            element_id == self.selected_element_id,
    {
        self.selected_element_id
    }

    /// Selects an element, or none.
    pub fn set_selected_element_id(&mut self, element_id: Option<u128>)
        ensures
            final(self)@ == (EditorView { selected_element_id: element_id, ..old(self)@ }),
            final(self).well_formed() == old(self).well_formed(),
    {
        self.selected_element_id = element_id;
    }

    /// The look of what a tool draws: in the colour that all tools share.
    pub fn tool_style(&self, tool: EditorTool) -> (style: ToolStyle)
        requires
            self.well_formed(),
        ensures
            style == (ToolStyle {
                color_rgba: self.global_color,
                ..self.styles@[tool_index(tool) as int]
            }),
    {
        let style = self.styles[tool.index()];
        ToolStyle { color_rgba: self.global_color, ..style }
    }

    /// The colour that all tools share.
    pub fn global_color(&self) -> (color: ColorRgba)
        ensures
            color == self.global_color,
    {
        self.global_color
    }

    /// Forgets all that is known of a pen.
    pub fn reset_stylus_input(&mut self)
        ensures
            final(self)@ == old(self)@.without_pen(),
            final(self).well_formed() == old(self).well_formed(),
            final(self).text_editing == old(self).text_editing,
            final(self).interaction == old(self).interaction,
    {
        self.stylus.reset_stylus_input();
        assert(self@.queued_stylus_events =~= Seq::<StylusEvent>::empty());
        assert(self@.pending_stroke_points =~= Seq::<StrokePoint>::empty());
    }

    /// Takes another tool into use.
    pub fn set_active_tool(&mut self, tool: EditorTool)
        ensures
            final(self)@ == old(self)@.with_tool(tool),
            final(self).well_formed() == old(self).well_formed(),
            final(self).text_editing == old(self).text_editing,
    {
        if self.tool == tool {
            return ;
        }
        self.tool = tool;
        self.selected_element_id = None;
        self.interaction = None;
        self.released_preview = Vec::new();
        assert(self@.released_preview =~= Seq::<u128>::empty());
        self.active_tool_button_press_started = false;
        self.reset_stylus_input();
    }

    /// Takes the events of a pen out of the events of a frame.
    pub fn capture_stylus_events(&mut self, events: Vec<InputEvent>) -> (left: Vec<InputEvent>)
        ensures
            events_of(left@) == without_pen(events_of(events@)),
            final(self)@ == (if focus_lost(events_of(events@)) {
                EditorView { interaction: None, ..old(self)@ }.without_pen()
            } else {
                EditorView {
                    queued_stylus_events: old(self)@.queued_stylus_events + pen_events(
                        events_of(events@),
                    ),
                    ..old(self)@
                }
            }),
            final(self).well_formed() == old(self).well_formed(),
            final(self).text_editing == old(self).text_editing,
    {
        let (left, lost) = self.stylus.capture_stylus_events(events);
        if lost {
            self.interaction = None;
            assert(self@.queued_stylus_events =~= Seq::<StylusEvent>::empty());
            assert(self@.pending_stroke_points =~= Seq::<StrokePoint>::empty());
        }
        left
    }

    /// Takes the events that ask for another tool out of the events of a frame. Says what is
    /// left, and whether there was one.
    pub fn capture_tab_switch(&mut self, events: Vec<InputEvent>) -> (left: (Vec<InputEvent>, bool))
        ensures
            events_of(left.0@) == without_switches(events_of(events@)),
            left.1 == (last_switch(events_of(events@)) is Some),
            final(self)@ == (EditorView {
                queued_tool_switch: match last_switch(events_of(events@)) {
                    Some(direction) => Some(direction),
                    None => old(self).queued_tool_switch,
                },
                ..old(self)@
            }),
            final(self).well_formed() == old(self).well_formed(),
            final(self).text_editing == old(self).text_editing,
    {
        let (left, direction) = take_tab_switches(events);
        match direction {
            Some(direction) => {
                self.queued_tool_switch = Some(direction);
                (left, true)
            },
            None => (left, false),
        }
    }

    fn place_of_tool(&self) -> (at: Option<usize>)
        ensures
            match at {
                Some(at) => at < self.tab_order@.len() && place_in_order(
                    self.tab_order@,
                    self.tool,
                ) == Some(at as int),
                None => place_in_order(self.tab_order@, self.tool) is None,
            },
    {
        for i in 0..self.tab_order.len()
            invariant
                place_in_order(self.tab_order@.take(i as int), self.tool) is None,
        {
            assert(self.tab_order@.take(i + 1).drop_last() =~= self.tab_order@.take(i as int));
            if self.tab_order[i] == self.tool {
                proof {
                    lemma_place_found(self.tab_order@, self.tool, i + 1);
                }
                return Some(i);
            }
        }
        assert(self.tab_order@.take(self.tab_order@.len() as int) =~= self.tab_order@);
        None
    }

    /// The tool that follows the one in use.
    pub fn tab_order_next(&self) -> (tool: Option<EditorTool>)
        ensures
            tool == tool_after(self.tab_order@, self.tool),
    {
        let n: usize = self.tab_order.len();
        match self.place_of_tool() {
            Some(at) => {
                if at + 1 < n {
                    proof {
                        vstd::arithmetic::div_mod::lemma_small_mod((at + 1) as nat, n as nat);
                    }
                    Some(self.tab_order[at + 1])
                } else {
                    proof {
                        vstd::arithmetic::div_mod::lemma_mod_self_0(n as int);
                    }
                    Some(self.tab_order[0])
                }
            },
            None => {
                if n == 0 {
                    None
                } else {
                    Some(self.tab_order[0])
                }
            },
        }
    }

    /// The tool that stands before the one in use.
    pub fn tab_order_previous(&self) -> (tool: Option<EditorTool>)
        ensures
            tool == tool_before(self.tab_order@, self.tool),
    {
        let n: usize = self.tab_order.len();
        match self.place_of_tool() {
            Some(at) => {
                if at > 0 {
                    proof {
                        vstd::arithmetic::div_mod::lemma_mod_add_multiples_vanish(
                            at - 1,
                            n as int,
                        );
                        vstd::arithmetic::div_mod::lemma_small_mod((at - 1) as nat, n as nat);
                    }
                    Some(self.tab_order[at - 1])
                } else {
                    proof {
                        vstd::arithmetic::div_mod::lemma_small_mod((n - 1) as nat, n as nat);
                    }
                    Some(self.tab_order[n - 1])
                }
            },
            None => {
                if n == 0 {
                    None
                } else {
                    Some(self.tab_order[n - 1])
                }
            },
        }
    }

    /// Brings the text that is being written to its end. The width is that from the text's
    /// left edge to the edge of the document.
    pub fn commit_text(&mut self, board: &Board, edge_width_px: u32) -> (commit: TextCommit)
        ensures
            commit == commit_of(*old(self), *board, edge_width_px),
            final(self)@ == old(self)@.without_text(),
            final(self).text_editing is None,
            final(self).well_formed() == old(self).well_formed(),
            final(self).interaction == old(self).interaction,
    {
        let editing = match self.text_editing.take() {
            Some(editing) => editing,
            None => {
                return TextCommit::Nothing;
            },
        };
        match editing.target {
            TextTarget::NewText { anchor_px } => {
                if is_blank(editing.buffer.as_str()) {
                    return TextCommit::Nothing;
                }
                TextCommit::AddText {
                    anchor_px,
                    text: editing.buffer,
                    box_width_px: edge_width_px,
                    text_style: editing.text_style,
                }
            },
            TextTarget::ExistingText { element_id } => {
                if is_blank(editing.buffer.as_str()) {
                    return TextCommit::Nothing;
                }
                match board.element(element_id) {
                    Some(element) => match &element.payload {
                        ElementPayload::Text { anchor_px: _, text, box_width_px, text_style: _ } => {
                            if *text == editing.buffer && numbers_equal(
                                *box_width_px,
                                edge_width_px,
                            ) {
                                return TextCommit::Nothing;
                            }
                            TextCommit::Single(
                                DocumentCommand::UpdateText {
                                    element_id,
                                    text: editing.buffer,
                                    box_width_px: edge_width_px,
                                    text_style: editing.text_style,
                                },
                            )
                        },
                        _ => TextCommit::Nothing,
                    },
                    None => TextCommit::Nothing,
                }
            },
            TextTarget::ArrowLabel { element_id } => match board.element(element_id) {
                Some(element) => match &element.payload {
                    ElementPayload::Arrow { stroke_style: _, label, can_host_label: _ } => {
                        let text = normalized_label_text(editing.buffer);
                        if is_same_label(&label.text, &text) {
                            return TextCommit::Nothing;
                        }
                        TextCommit::Single(DocumentCommand::UpdateElementLabel { element_id, text })
                    },
                    _ => TextCommit::Nothing,
                },
                None => TextCommit::Nothing,
            },
            TextTarget::RectangleLabel { element_id } => match board.element(element_id) {
                Some(element) => match &element.payload {
                    ElementPayload::Rectangle {
                        stroke_style: _,
                        label,
                        label_anchor: _,
                        preferred_label_anchor: _,
                    } => {
                        let text = normalized_label_text(editing.buffer);
                        if is_same_label(&label.text, &text) {
                            return TextCommit::Nothing;
                        }
                        TextCommit::Reflowed {
                            command: DocumentCommand::UpdateElementLabel { element_id, text },
                            element_id,
                        }
                    },
                    _ => TextCommit::Nothing,
                },
                None => TextCommit::Nothing,
            },
        }
    }

    /// Takes another tool, and brings the text that is being written to its end first.
    pub fn switch_tool(&mut self, tool: EditorTool, board: &Board, edge_width_px: u32) -> (commit:
        TextCommit)
        ensures
            final(self)@ == old(self)@.switched(tool),
            final(self).well_formed() == old(self).well_formed(),
            commit == (if tool == old(self).tool {
                TextCommit::Nothing
            } else {
                commit_of(*old(self), *board, edge_width_px)
            }),
            tool == old(self).tool ==> final(self).text_editing == old(self).text_editing,
            tool != old(self).tool ==> final(self).text_editing is None,
    {
        if self.tool == tool {
            return TextCommit::Nothing;
        }
        let commit = self.commit_text(board, edge_width_px);
        self.set_active_tool(tool);
        commit
    }

    /// Does the switch of the tool that waits.
    pub fn do_queued_switch(&mut self, board: &Board, edge_width_px: u32) -> (commit: TextCommit)
        ensures
            final(self)@ == old(self)@.queue_done(),
            final(self).well_formed() == old(self).well_formed(),
            commit == (if old(self)@.queue_leaves() {
                commit_of(*old(self), *board, edge_width_px)
            } else {
                TextCommit::Nothing
            }),
            old(self)@.queue_leaves() ==> final(self).text_editing is None,
            !old(self)@.queue_leaves() ==> final(self).text_editing == old(self).text_editing,
    {
        let waiting = self.queued_tool_switch;
        self.queued_tool_switch = None;
        match waiting {
            Some(direction) => {
                let tool = match direction {
                    ToolSwitchDirection::Next => self.tab_order_next(),
                    ToolSwitchDirection::Previous => self.tab_order_previous(),
                };
                match tool {
                    Some(tool) => self.switch_tool(tool, board, edge_width_px),
                    None => TextCommit::Nothing,
                }
            },
            None => TextCommit::Nothing,
        }
    }

    /// Does what a shortcut asks for. Says what becomes of the text that was being written,
    /// and what is asked for outside after it.
    pub fn apply_shortcut(
        &mut self,
        action: ShortcutAction,
        board: &Board,
        edge_width_px: u32,
        center: Point,
    ) -> (asked: (TextCommit, KeyRequest))
        ensures
            final(self)@ == old(self)@.after_shortcut(action),
            final(self).well_formed() == old(self).well_formed(),
            asked.0 == (if old(self)@.shortcut_commits(action) {
                commit_of(*old(self), *board, edge_width_px)
            } else {
                TextCommit::Nothing
            }),
            asked.1 == old(self)@.asked_by(action, center),
    {
        match action {
            ShortcutAction::Tool(tool) => {
                let commit = self.switch_tool(tool, board, edge_width_px);
                (commit, KeyRequest::Nothing)
            },
            ShortcutAction::Undo => {
                self.interaction = None;
                self.reset_stylus_input();
                self.selected_element_id = None;
                (TextCommit::Nothing, KeyRequest::Act(EditorAction::Undo))
            },
            ShortcutAction::Redo => {
                self.interaction = None;
                self.reset_stylus_input();
                self.selected_element_id = None;
                (TextCommit::Nothing, KeyRequest::Act(EditorAction::Redo))
            },
            ShortcutAction::Save => {
                let commit = self.commit_text(board, edge_width_px);
                (commit, KeyRequest::Act(EditorAction::Save))
            },
            ShortcutAction::Deselect => {
                self.selected_element_id = None;
                (TextCommit::Nothing, KeyRequest::Nothing)
            },
            ShortcutAction::CloseOrCancel => {
                let cancelled = self.text_editing.is_some() || self.interaction.is_some();
                if cancelled {
                    self.text_editing = None;
                    self.interaction = None;
                    self.reset_stylus_input();
                    (TextCommit::Nothing, KeyRequest::Nothing)
                } else {
                    (TextCommit::Nothing, KeyRequest::Act(EditorAction::Close))
                }
            },
            ShortcutAction::Delete => {
                let selected = self.selected_element_id;
                self.selected_element_id = None;
                match selected {
                    Some(element_id) => (
                        TextCommit::Nothing,
                        KeyRequest::Reflowed {
                            command: DocumentCommand::DeleteElement { element_id },
                            element_id,
                        },
                    ),
                    None => (TextCommit::Nothing, KeyRequest::Nothing),
                }
            },
            ShortcutAction::Copy => {
                if self.selected_element_id.is_some() {
                    (TextCommit::Nothing, KeyRequest::Act(EditorAction::Copy))
                } else {
                    (TextCommit::Nothing, KeyRequest::Nothing)
                }
            },
            ShortcutAction::Paste => {
                let position = match self.last_pointer_document {
                    Some(position) => position,
                    None => center,
                };
                (TextCommit::Nothing, KeyRequest::Act(EditorAction::Paste { position }))
            },
        }
    }

    /// Does what the keyboard asks for: the switch of the tool that waits, and the first
    /// shortcut of a frame, which is taken out of the events. Says what becomes of the text
    /// that was being written, and what is asked for outside after it.
    pub fn handle_keyboard(
        &mut self,
        events: &mut Vec<InputEvent>,
        board: &Board,
        edge_width_px: u32,
        center: Point,
    ) -> (asked: (TextCommit, KeyRequest))
        ensures
            final(self).well_formed() == old(self).well_formed(),
            final(self)@ == old(self)@.after_keys(events_of(old(events)@)),
            asked.1 == old(self)@.asked_by_keys(events_of(old(events)@), center),
            asked.0 == (if old(self)@.keys_commit(events_of(old(events)@)) {
                commit_of(*old(self), *board, edge_width_px)
            } else {
                TextCommit::Nothing
            }),
            ({
                let switched = old(self)@.queue_done();
                let writing = switched.text_editing is Some;
                let found = shortcut_in(events_of(old(events)@), writing);
                &&& final(self)@ == match found {
                    Some(action) => switched.after_shortcut(action),
                    None => switched,
                }
                &&& final(events)@ == match shortcut_at(events_of(old(events)@), writing) {
                    Some(at) => old(events)@.remove(at),
                    None => old(events)@,
                }
                &&& asked.0 == (if old(self)@.queue_leaves() || (found matches Some(action)
                    && switched.shortcut_commits(action)) {
                    commit_of(*old(self), *board, edge_width_px)
                } else {
                    TextCommit::Nothing
                })
                &&& asked.1 == match found {
                    Some(action) => switched.asked_by(action, center),
                    None => KeyRequest::Nothing,
                }
            }),
    {
        let first = self.do_queued_switch(board, edge_width_px);
        let writing = self.text_editing.is_some();
        match take_shortcut(events, writing) {
            Some(action) => {
                let (commit, request) = self.apply_shortcut(action, board, edge_width_px, center);
                match first {
                    TextCommit::Nothing => (commit, request),
                    other => (other, request),
                }
            },
            None => (first, KeyRequest::Nothing),
        }
    }

    /// The look that the toolbar shows: that of the element that is selected, or that of the
    /// tool in use.
    pub fn displayed_style(&self, board: &Board) -> (style: ToolStyle)
        requires
            self.well_formed(),
        ensures
            style == shown_style(self@, *board),
    {
        let selected = match self.selected_element_id {
            Some(element_id) => board.element(element_id),
            None => None,
        };
        match selected {
            Some(element) => style_for_element(element),
            None => self.tool_style(self.tool),
        }
    }

    /// Whether the toolbar offers the hardness of a stroke.
    pub fn shows_brush_hardness(&self, board: &Board) -> (shows: bool)
        ensures
            shows == (match selected_payload(self@, *board) {
                Some(payload) => payload is Stroke,
                None => self.tool == EditorTool::Stroke,
            }),
    {
        let selected = match self.selected_element_id {
            Some(element_id) => board.element(element_id),
            None => None,
        };
        match selected {
            Some(element) => match element.payload {
                ElementPayload::Stroke { .. } => true,
                _ => false,
            },
            None => self.tool == EditorTool::Stroke,
        }
    }

    /// Begins a frame: what was shown of the last drag is forgotten, and nothing is selected
    /// where the element that was selected is no longer there.
    pub fn begin_frame(&mut self, board: &Board)
        ensures
            final(self)@ == (EditorView {
                released_preview: Seq::empty(),
                selected_element_id: match old(self).selected_element_id {
                    Some(element_id) if board.get(element_id) is Some => Some(element_id),
                    _ => None,
                },
                ..old(self)@
            }),
            final(self).well_formed() == old(self).well_formed(),
            final(self).text_editing == old(self).text_editing,
    {
        self.released_preview = Vec::new();
        if let Some(element_id) = self.selected_element_id {
            if board.element(element_id).is_none() {
                self.selected_element_id = None;
            }
        }
        assert(self@.released_preview =~= Seq::<u128>::empty());
    }
}

/// What the element that is selected shows.
pub open spec fn selected_payload(editor: EditorView, board: Board) -> Option<ElementPayload> {
    match editor.selected_element_id {
        Some(element_id) => match board.get(element_id) {
            Some(element) => Some(element.payload),
            None => None,
        },
        None => None,
    }
}

/// The look that the toolbar shows.
pub open spec fn shown_style(editor: EditorView, board: Board) -> ToolStyle {
    match selected_payload(editor, board) {
        Some(payload) => style_of(payload),
        None => ToolStyle {
            color_rgba: editor.global_color,
            ..editor.styles[tool_index(editor.tool) as int]
        },
    }
}

/// The editor at its start.
pub open spec fn fresh(
    restored_tool: Option<EditorTool>,
    styles: Seq<ToolStyle>,
    global_color: ColorRgba,
) -> EditorView {
    EditorView {
        tool: match restored_tool {
            Some(tool) => tool,
            None => EditorTool::Rectangle,
        },
        styles,
        global_color,
        selected_element_id: None,
        interaction: None,
        released_preview: Seq::empty(),
        text_editing: None,
        last_pointer_document: None,
        active_tool_button_press_started: false,
        queued_stylus_events: Seq::empty(),
        active_stylus_id: None,
        pending_stroke_points: Seq::empty(),
        queued_tool_switch: None,
        tab_order: seq![EditorTool::Rectangle, EditorTool::Arrow],
    }
}

proof fn lemma_place_is(order: Seq<EditorTool>, at: int)
    requires
        order.no_duplicates(),
        0 <= at < order.len(),
    ensures
        place_in_order(order, order[at]) == Some(at),
{
    lemma_place_is_in(order, order[at]);
    assert(order.contains(order[at]));
}

/// In an order in which no tool stands twice, the tool before the one that follows a tool is
/// that tool again, and so is the tool that follows the one before it.
pub proof fn law_tab_goes_there_and_back(order: Seq<EditorTool>, tool: EditorTool)
    requires
        order.no_duplicates(),
        order.contains(tool),
    ensures
        tool_after(order, tool) matches Some(next) && tool_before(order, next) == Some(tool),
        tool_before(order, tool) matches Some(last) && tool_after(order, last) == Some(tool),
{
    lemma_place_is_in(order, tool);
    let n = order.len() as int;
    let at = place_in_order(order, tool)->0;
    let next = (at + 1) % n;
    let last = (at + n - 1) % n;
    assert(0 <= next < n && (next + n - 1) % n == at) by {
        if at + 1 < n {
            vstd::arithmetic::div_mod::lemma_small_mod((at + 1) as nat, n as nat);
            vstd::arithmetic::div_mod::lemma_mod_add_multiples_vanish(at, n);
            vstd::arithmetic::div_mod::lemma_small_mod(at as nat, n as nat);
        } else {
            vstd::arithmetic::div_mod::lemma_mod_self_0(n);
            vstd::arithmetic::div_mod::lemma_small_mod((n - 1) as nat, n as nat);
        }
    }
    assert(0 <= last < n && (last + 1) % n == at) by {
        if at > 0 {
            vstd::arithmetic::div_mod::lemma_mod_add_multiples_vanish(at - 1, n);
            vstd::arithmetic::div_mod::lemma_small_mod((at - 1) as nat, n as nat);
            vstd::arithmetic::div_mod::lemma_small_mod(at as nat, n as nat);
        } else {
            vstd::arithmetic::div_mod::lemma_small_mod((n - 1) as nat, n as nat);
            vstd::arithmetic::div_mod::lemma_mod_self_0(n);
        }
    }
    lemma_place_is(order, next);
    lemma_place_is(order, last);
}

/// The tab key leads only to tools of its order.
pub proof fn law_tab_stays_in_its_order(order: Seq<EditorTool>, tool: EditorTool)
    ensures
        tool_after(order, tool) matches Some(next) ==> order.contains(next),
        tool_before(order, tool) matches Some(last) ==> order.contains(last),
        tool_after(order, tool) is None <==> order.len() == 0,
        tool_before(order, tool) is None <==> order.len() == 0,
{
    lemma_place_is_in(order, tool);
    if order.len() > 0 {
        let n = order.len() as int;
        if let Some(at) = place_in_order(order, tool) {
            vstd::arithmetic::div_mod::lemma_mod_bound(at + 1, n);
            vstd::arithmetic::div_mod::lemma_mod_bound(at + n - 1, n);
        }
    }
}

/// To take the tool that is in use changes nothing; to take another twice is to take it once.
pub proof fn law_taking_a_tool_twice(editor: EditorView, tool: EditorTool)
    ensures
        editor.switched(editor.tool) == editor,
        editor.switched(tool).switched(tool) == editor.switched(tool),
        editor.switched(tool).tool == tool,
{
}

/// With another tool nothing is selected, nothing is under way, and no text is being written.
pub proof fn law_another_tool_starts_afresh(editor: EditorView, tool: EditorTool)
    requires
        tool != editor.tool,
    ensures
        ({
            let next = editor.switched(tool);
            &&& next.selected_element_id is None
            &&& next.interaction is None
            &&& next.text_editing is None
            &&& next.pending_stroke_points.len() == 0
            &&& next.queued_stylus_events.len() == 0
            &&& next.active_stylus_id is None
            &&& next.released_preview.len() == 0
            &&& next.tool == tool
            &&& next.styles == editor.styles
            &&& next.global_color == editor.global_color
        }),
{
}

/// Escape first stops what is under way, and only closes the editor where nothing is.
pub proof fn law_escape_stops_before_it_closes(editor: EditorView, center: Point)
    requires
        editor.text_editing is Some || editor.interaction is Some,
    ensures
        editor.asked_by(ShortcutAction::CloseOrCancel, center) == KeyRequest::Nothing,
        editor.after_shortcut(ShortcutAction::CloseOrCancel).asked_by(
            ShortcutAction::CloseOrCancel,
            center,
        ) == KeyRequest::Act(EditorAction::Close),
{
}

/// A text or a label that was not changed asks for no command.
pub proof fn law_unchanged_text_is_left_alone(board: Board, editing: TextEditing, edge_width_px: u32)
    requires
        match editing.target {
            TextTarget::NewText { .. } => blank(editing.buffer@),
            TextTarget::ExistingText { element_id } => board.get(element_id) matches Some(element)
                && (element.payload matches ElementPayload::Text { text, box_width_px, .. } && text@
                == editing.buffer@ && equal_numbers(box_width_px, edge_width_px)),
            TextTarget::ArrowLabel { element_id } => board.get(element_id) matches Some(element) && (
            element.payload matches ElementPayload::Arrow { label, .. } && same_label(
                label.text,
                label_text(editing.buffer),
            )),
            TextTarget::RectangleLabel { element_id } => board.get(element_id) matches Some(element)
                && (element.payload matches ElementPayload::Rectangle { label, .. } && same_label(
                label.text,
                label_text(editing.buffer),
            )),
        },
    ensures
        text_commit(board, editing, edge_width_px) == TextCommit::Nothing,
{
}

/// A text that was written is kept as it was written: a new one where it was begun and in the
/// look that it was given, a text of the document in place of what it was, and a label in place
/// of what it was, or none where nothing but white space was written.
pub proof fn law_a_written_text_is_kept(board: Board, editing: TextEditing, edge_width_px: u32)
    ensures
        editing.target is NewText && !blank(editing.buffer@) ==> (
        text_commit(board, editing, edge_width_px) matches TextCommit::AddText {
            anchor_px: at,
            text,
            box_width_px,
            text_style,
        } && at == editing.target->anchor_px && text@ == editing.buffer@ && box_width_px == edge_width_px
            && text_style == editing.text_style),
        editing.target matches TextTarget::ExistingText { element_id } && (board.get(
            element_id,
        ) matches Some(element) && (element.payload matches ElementPayload::Text { text, .. } && !(
        text@ == editing.buffer@))) && !blank(editing.buffer@) ==> (text_commit(
            board,
            editing,
            edge_width_px,
        ) matches TextCommit::Single(
            DocumentCommand::UpdateText { element_id: changed, text, box_width_px, text_style },
        ) && changed == editing.target->ExistingText_element_id && text@ == editing.buffer@
            && box_width_px == edge_width_px && text_style == editing.text_style),
        editing.target matches TextTarget::ArrowLabel { element_id } && (board.get(
            element_id,
        ) matches Some(element) && (element.payload matches ElementPayload::Arrow { label, .. }
            && text_of(label.text) != Some(editing.buffer@))) && !blank(editing.buffer@) ==> (
        text_commit(board, editing, edge_width_px) matches TextCommit::Single(
            DocumentCommand::UpdateElementLabel { element_id: changed, text },
        ) && changed == editing.target->ArrowLabel_element_id && text_of(text) == Some(
            editing.buffer@,
        )),
        editing.target matches TextTarget::RectangleLabel { element_id } && (board.get(
            element_id,
        ) matches Some(element) && (element.payload matches ElementPayload::Rectangle { label, .. }
            && text_of(label.text) != Some(editing.buffer@))) && !blank(editing.buffer@) ==> (
        text_commit(board, editing, edge_width_px) matches TextCommit::Reflowed {
            command: DocumentCommand::UpdateElementLabel { element_id: changed, text },
            element_id: about,
        } && changed == editing.target->RectangleLabel_element_id && about == changed && text_of(
            text,
        ) == Some(editing.buffer@)),
        editing.target matches TextTarget::ArrowLabel { element_id } && (board.get(
            element_id,
        ) matches Some(element) && (element.payload matches ElementPayload::Arrow { label, .. }
            && label.text is Some)) && blank(editing.buffer@) ==> (text_commit(
            board,
            editing,
            edge_width_px,
        ) matches TextCommit::Single(DocumentCommand::UpdateElementLabel { element_id: changed, text })
            && changed == editing.target->ArrowLabel_element_id && text is None),
        editing.target matches TextTarget::RectangleLabel { element_id } && (board.get(
            element_id,
        ) matches Some(element) && (element.payload matches ElementPayload::Rectangle { label, .. }
            && label.text is Some)) && blank(editing.buffer@) ==> (text_commit(
            board,
            editing,
            edge_width_px,
        ) matches TextCommit::Reflowed {
            command: DocumentCommand::UpdateElementLabel { element_id: changed, text },
            ..
        } && changed == editing.target->RectangleLabel_element_id && text is None),
        (editing.target is NewText || editing.target is ExistingText) && blank(editing.buffer@)
            ==> text_commit(board, editing, edge_width_px) is Nothing,
{
}

} // verus!
