//! How the writing of a text in the editor ends, how looks are changed, and what the toolbar
//! does.

use vstd::prelude::*;

use crate::application::Phase;
use crate::board::{style_for_element, style_of, Board, ColorRgba, ElementPayload, StyleChange, ToolStyle};
use crate::commands::{
    pending_element_label_text, pending_label, DocumentCommand, EditorAction,
};
use crate::editor::{
    commit_of, EditorController, EditorView, TextCommit, TextTarget, TextView,
};
use crate::input::{
    events_of, input_start, normalize_inline_text_events, InputEvent, InputEventView, Key,
};
use crate::text::to_chars;
use crate::tools::tool_index;

verus! {

/// How the writing of a text ended.
#[derive(Clone, Copy, PartialEq, Eq, Structural)]
pub enum TextEditorCompletion {
    /// It has not.
    Pending,
    FocusLost,
    CanvasPress,
    Enter,
}

/// Whether an event is the press of Escape that gives a text up.
pub open spec fn gives_up(event: InputEventView) -> bool {
    match event {
        InputEventView::Key { key: Key::Escape, pressed: true, modifiers, .. } => {
            !modifiers.command && !modifiers.ctrl && !modifiers.mac_cmd
        },
        _ => false,
    }
}

fn is_giving_up(event: &InputEvent) -> (yes: bool)
    ensures
        yes == gives_up(event@),
{
    match event {
        InputEvent::Key { key, physical_key: _, pressed, repeat: _, modifiers } => {
            *key == Key::Escape && *pressed && !modifiers.command && !modifiers.ctrl
                && !modifiers.mac_cmd
        },
        _ => false,
    }
}

/// The place of the first event that gives a text up.
pub open spec fn giving_up_at(events: Seq<InputEventView>) -> Option<int>
    decreases events.len(),
{
    if events.len() == 0 {
        None
    } else {
        match giving_up_at(events.drop_last()) {
            Some(at) => Some(at),
            None => if gives_up(events.last()) {
                Some(events.len() - 1)
            } else {
                None
            },
        }
    }
}

proof fn lemma_giving_up_found(events: Seq<InputEventView>, n: int)
    requires
        0 <= n <= events.len(),
        giving_up_at(events.take(n)) is Some,
    ensures
        giving_up_at(events) == giving_up_at(events.take(n)),
    decreases events.len(),
{
    if n == events.len() {
        assert(events.take(n) =~= events);
    } else {
        assert(events.drop_last().take(n) =~= events.take(n));
        lemma_giving_up_found(events.drop_last(), n);
    }
}

/// The part of a text that is selected as it gets the keyboard: all of it, or the place
/// behind its end.
pub open spec fn first_selection(editing: TextView) -> (int, int) {
    if editing.select_all {
        (0, editing.buffer.len() as int)
    } else {
        (editing.buffer.len() as int, editing.buffer.len() as int)
    }
}

/// The text was written to its end, or on.
pub open spec fn completion(submit: bool, lost_focus: bool) -> TextEditorCompletion {
    if submit {
        TextEditorCompletion::Enter
    } else if lost_focus {
        TextEditorCompletion::FocusLost
    } else {
        TextEditorCompletion::Pending
    }
}

impl EditorController {
    /// Gives the text that is being written up where Escape was pressed; the press is taken
    /// out of the events. Says whether the text is still being written.
    pub fn cancel_text_on_escape(&mut self, events: &mut Vec<InputEvent>) -> (writing: bool)
        requires
            old(self).well_formed(),
        ensures
            final(self).well_formed(),
            ({
                let at = giving_up_at(events_of(old(events)@));
                if old(self).text_editing is None {
                    &&& !writing
                    &&& final(self)@ == old(self)@
                    &&& final(events)@ == old(events)@
                } else if at is Some {
                    &&& !writing
                    &&& final(self)@ == old(self)@.without_text()
                    &&& final(events)@ == old(events)@.remove(at->0)
                } else {
                    &&& writing
                    &&& final(self)@ == old(self)@
                    &&& final(self).text_editing == old(self).text_editing
                    &&& final(events)@ == old(events)@
                }
            }),
    {
        if self.text_editing.is_none() {
            return false;
        }
        let ghost all = events@;
        let ghost views = events_of(all);
        let n: usize = events.len();
        assert(views.take(0) =~= Seq::<InputEventView>::empty());
        for i in 0..n
            invariant
                *self == *old(self),
                self.text_editing is Some,
                self.well_formed(),
                events@ == all,
                all == old(events)@,
                views == events_of(all),
                n == all.len(),
                giving_up_at(views.take(i as int)) is None,
        {
            proof {
                assert(views.take(i + 1).drop_last() =~= views.take(i as int));
                assert(views.take(i + 1).last() == all[i as int]@);
            }
            if is_giving_up(&events[i]) {
                events.remove(i);
                proof {
                    lemma_giving_up_found(views, i + 1);
                }
                self.text_editing = None;
                return false;
            }
        }
        assert(views.take(n as int) =~= views);
        true
    }

    /// Goes through the events of a frame before the text that is being written sees them.
    /// Says what the text sees, and whether it is to be submitted.
    pub fn text_events(&mut self, events: Vec<InputEvent>) -> (seen: (Vec<InputEvent>, bool))
        requires
            old(self).well_formed(),
            old(self).text_editing is Some,
        ensures
            final(self).well_formed(),
            old(self)@.text_editing matches Some(editing) && ({
                let end = input_start(
                    editing.preedit,
                    editing.confirming_preedit_with_enter,
                ).after_all(events_of(events@));
                &&& events_of(seen.0@) == end.kept
                &&& seen.1 == end.submit
                &&& final(self)@ == (EditorView {
                    text_editing: Some(
                        TextView {
                            preedit: end.active,
                            confirming_preedit_with_enter: end.confirming && (
                            end.active matches Some(text) && text.len() > 0),
                            ..editing
                        },
                    ),
                    ..old(self)@
                })
            }),
    {
        match self.text_editing.take() {
            Some(editing) => {
                let mut editing = editing;
                let seen = normalize_inline_text_events(events, &mut editing.ime);
                self.text_editing = Some(editing);
                seen
            },
            None => (events, false),
        }
    }

    /// The text gets the keyboard, where it is yet to get it. Says which part of it is then
    /// selected.
    pub fn take_focus_request(&mut self) -> (selection: Option<(usize, usize)>)
        requires
            old(self).well_formed(),
        ensures
            final(self).well_formed(),
            match old(self)@.text_editing {
                Some(editing) if editing.request_focus => {
                    &&& selection matches Some((from, to))
                    &&& (from as int, to as int) == first_selection(editing)
                    &&& final(self)@ == (EditorView {
                        text_editing: Some(TextView { request_focus: false, ..editing }),
                        ..old(self)@
                    })
                },
                _ => selection is None && final(self)@ == old(self)@,
            },
    {
        match self.text_editing.take() {
            Some(editing) => {
                let mut editing = editing;
                let selection = if editing.request_focus {
                    editing.request_focus = false;
                    let n: usize = to_chars(editing.buffer.as_str()).len();
                    if editing.select_all {
                        Some((0usize, n))
                    } else {
                        Some((n, n))
                    }
                } else {
                    None
                };
                self.text_editing = Some(editing);
                selection
            },
            None => None,
        }
    }

    /// Ends the writing of a text where it was submitted, where it lost the keyboard and is
    /// not to keep it, or where the document was pressed. What was written becomes part of the
    /// document; after Enter nothing is selected. Says how the writing ended.
    pub fn complete_text(
        &mut self,
        completion: TextEditorCompletion,
        canvas_pressed: bool,
        transforming: bool,
        board: &Board,
        edge_width_px: u32,
    ) -> (ended: (TextEditorCompletion, TextCommit))
        requires
            old(self).well_formed(),
        ensures
            final(self).well_formed(),
            ended.0 == ended_by(old(self)@, completion, canvas_pressed, transforming),
            final(self)@ == completed(old(self)@, ended.0),
            ended.1 == (if ended.0 == TextEditorCompletion::Pending {
                TextCommit::Nothing
            } else {
                commit_of(*old(self), *board, edge_width_px)
            }),
    {
        let pressed = completion == TextEditorCompletion::Pending && self.text_editing.is_some()
            && !transforming && canvas_pressed;
        let how = if pressed {
            TextEditorCompletion::CanvasPress
        } else {
            completion
        };
        if how == TextEditorCompletion::Pending {
            return (how, TextCommit::Nothing);
        }
        let commit = self.commit_text(board, edge_width_px);
        if how == TextEditorCompletion::Enter {
            self.selected_element_id = None;
        }
        (how, commit)
    }

    /// Changes the look of the element that is selected, or else of what the tool in use
    /// draws. A colour becomes that of all tools. The actions that were already asked for in
    /// the frame are given, and whether a labelled arrow has room for its label with the new
    /// look, and the colour that stands out against the new one.
    pub fn apply_style_change(
        &mut self,
        board: &Board,
        change: StyleChange,
        contrasting: ColorRgba,
        label_fits: bool,
        actions: &Vec<EditorAction>,
    ) -> (asked: StyleRequest)
        requires
            old(self).well_formed(),
        ensures
            final(self).well_formed(),
            final(self)@ == styled(old(self)@, *board, change, contrasting),
            asked == style_request(old(self)@, *board, change, label_fits, actions@),
    {
        let mut asked = StyleRequest { color: change.color_rgba, toast: false, command: None };
        if let Some(color_rgba) = change.color_rgba {
            self.global_color = color_rgba;
            self.update_text_editing_color(color_rgba, contrasting);
        }
        let selected = match self.selected_element_id {
            Some(element_id) => board.element(element_id),
            None => None,
        };
        match selected {
            Some(element) => {
                let change = fit_change(element_style(element), &element.payload, change);
                if !change.is_empty() {
                    let element_id: u128 = element.element_id;
                    let labelled = match &element.payload {
                        ElementPayload::Arrow { stroke_style: _, label, can_host_label: _ } => {
                            match pending_element_label_text(actions, element_id) {
                                Some(text) => text.is_some(),
                                None => label.text.is_some(),
                            }
                        },
                        _ => false,
                    };
                    if labelled && !label_fits {
                        asked.toast = true;
                    } else {
                        asked.command =
                        Some(DocumentCommand::ChangeElementStyle { element_id, change });
                    }
                }
            },
            None => {
                let at: usize = self.tool.index();
                let mut style = self.styles[at];
                if let Some(width_px) = change.width_px {
                    style.width_px = width_px;
                }
                if let Some(font_size_px) = change.font_size_px {
                    style.font_size_px = font_size_px;
                }
                if let Some(hardness) = change.hardness {
                    style.hardness = hardness;
                }
                self.styles.set(at, style);
            },
        }
        asked
    }

    fn update_text_editing_color(&mut self, color_rgba: ColorRgba, contrasting: ColorRgba)
        ensures
            final(self)@ == (EditorView {
                text_editing: recoloured(old(self)@.text_editing, color_rgba, contrasting),
                ..old(self)@
            }),
            final(self).well_formed() == old(self).well_formed(),
    {
        match self.text_editing.take() {
            Some(editing) => {
                let mut editing = editing;
                let color = match editing.target {
                    TextTarget::ArrowLabel { element_id: _ } => contrasting,
                    TextTarget::RectangleLabel { element_id: _ } => contrasting,
                    TextTarget::NewText { anchor_px: _ } => color_rgba,
                    TextTarget::ExistingText { element_id: _ } => color_rgba,
                };
                editing.text_style.color_rgba = color;
                self.text_editing = Some(editing);
            },
            None => {},
        }
    }

    /// The button of the tool in use was pressed or let go. Says whether it was clicked.
    pub fn active_tool_button_clicked(
        &mut self,
        button_known: bool,
        pressed_on_button: bool,
        released: bool,
    ) -> (clicked: bool)
        ensures
            ({
                let started = old(self).active_tool_button_press_started || pressed_on_button;
                if button_known {
                    &&& clicked == (started && released)
                    &&& final(self)@ == (EditorView {
                        active_tool_button_press_started: started && !released,
                        ..old(self)@
                    })
                } else {
                    !clicked && final(self)@ == old(self)@
                }
            }),
            final(self).well_formed() == old(self).well_formed(),
            final(self).text_editing == old(self).text_editing,
    {
        if !button_known {
            return false;
        }
        if pressed_on_button {
            self.active_tool_button_press_started = true;
        }
        let clicked = self.active_tool_button_press_started && released;
        if released {
            self.active_tool_button_press_started = false;
        }
        clicked
    }
}

fn element_style(element: &crate::board::Element) -> (style: ToolStyle)
    ensures
        style == style_of(element.payload),
{
    style_for_element(element)
}

/// How the writing of a text ends in a frame: by a press on the document too, unless that
/// moves or resizes what the text belongs to.
pub open spec fn ended_by(
    editor: EditorView,
    completion: TextEditorCompletion,
    canvas_pressed: bool,
    transforming: bool,
) -> TextEditorCompletion {
    if completion == TextEditorCompletion::Pending && editor.text_editing is Some && !transforming
        && canvas_pressed {
        TextEditorCompletion::CanvasPress
    } else {
        completion
    }
}

/// The editor once the writing of a text ended.
pub open spec fn completed(editor: EditorView, how: TextEditorCompletion) -> EditorView {
    match how {
        TextEditorCompletion::Pending => editor,
        TextEditorCompletion::Enter => EditorView {
            selected_element_id: None,
            ..editor.without_text()
        },
        _ => editor.without_text(),
    }
}

/// How the writing of a text ended, after the text itself saw the events of a frame. A text
/// that is to keep the keyboard does not lose it, nor does one that only now gets it.
pub fn text_completion(submit: bool, lost_focus: bool, got_focus: bool, keep_focus: bool) -> (how:
    TextEditorCompletion)
    ensures
        how == completion(submit, lost_focus && !got_focus && !keep_focus),
{
    if submit {
        TextEditorCompletion::Enter
    } else if lost_focus && !got_focus && !keep_focus {
        TextEditorCompletion::FocusLost
    } else {
        TextEditorCompletion::Pending
    }
}

/// Whether the pointer is heeded in a frame, and whether only what the text that is being
/// written belongs to is moved or resized: while a text is being written, only that.
pub fn pointer_turn(writing: bool, transforming: bool, drag_under_way: bool) -> (turn: Option<bool>)
    ensures
        turn == (if !writing {
            Some(false)
        } else if transforming || drag_under_way {
            Some(true)
        } else {
            None
        }),
{
    if !writing {
        Some(false)
    } else if transforming || drag_under_way {
        Some(true)
    } else {
        None
    }
}

/// What a change of a look asks for outside, in this order.
pub struct StyleRequest {
    /// The colour of all tools has changed.
    pub color: Option<ColorRgba>,
    /// The notice that an arrow is too short for its label.
    pub toast: bool,
    /// A command that is to be carried out, and labels have to move out of the way.
    pub command: Option<DocumentCommand>,
}

/// The part of a change that an element can take: no font size for a stroke, hardness for
/// nothing but a stroke, no width for a text, and no colour that it has already.
pub open spec fn fitting(payload: ElementPayload, change: StyleChange) -> StyleChange {
    StyleChange {
        color_rgba: if change.color_rgba == Some(style_of(payload).color_rgba) {
            None
        } else {
            change.color_rgba
        },
        width_px: if payload is Text {
            None
        } else {
            change.width_px
        },
        font_size_px: if payload is Stroke {
            None
        } else {
            change.font_size_px
        },
        hardness: if payload is Stroke {
            change.hardness
        } else {
            None
        },
    }
}

fn fit_change(style: ToolStyle, payload: &ElementPayload, change: StyleChange) -> (fitted: StyleChange)
    requires
        style == style_of(*payload),
    ensures
        fitted == fitting(*payload, change),
{
    let mut fitted = change;
    match payload {
        ElementPayload::Stroke { .. } => {
            fitted.font_size_px = None;
        },
        ElementPayload::Arrow { .. } => {
            fitted.hardness = None;
        },
        ElementPayload::Text { .. } => {
            fitted.width_px = None;
            fitted.hardness = None;
        },
        ElementPayload::Rectangle { .. } => {
            fitted.hardness = None;
        },
        ElementPayload::SequenceMarker { .. } => {
            fitted.hardness = None;
        },
    }
    if let Some(color) = change.color_rgba {
        if color == style.color_rgba {
            fitted.color_rgba = None;
        }
    }
    fitted
}

/// Whether the arrow that is selected has a label once the actions of a frame are carried
/// out.
pub open spec fn has_label(payload: ElementPayload, element_id: u128, actions: Seq<EditorAction>) -> bool {
    match payload {
        ElementPayload::Arrow { label, .. } => match pending_label(actions, element_id) {
            Some(text) => text is Some,
            None => label.text is Some,
        },
        _ => false,
    }
}

/// What a change of a look asks for outside.
pub open spec fn style_request(
    editor: EditorView,
    board: Board,
    change: StyleChange,
    label_fits: bool,
    actions: Seq<EditorAction>,
) -> StyleRequest {
    let unchanged = StyleRequest { color: change.color_rgba, toast: false, command: None };
    match editor.selected_element_id {
        Some(element_id) => match board.get(element_id) {
            Some(element) => {
                let fitted = fitting(element.payload, change);
                if fitted.empty() {
                    unchanged
                } else if has_label(element.payload, element.element_id, actions) && !label_fits {
                    StyleRequest { toast: true, ..unchanged }
                } else {
                    StyleRequest {
                        command: Some(
                            DocumentCommand::ChangeElementStyle {
                                element_id: element.element_id,
                                change: fitted,
                            },
                        ),
                        ..unchanged
                    }
                }
            },
            None => unchanged,
        },
        None => unchanged,
    }
}

/// The text that is being written, in another colour: a label in one that stands out against
/// its element.
pub open spec fn recoloured(
    text: Option<TextView>,
    color_rgba: ColorRgba,
    contrasting: ColorRgba,
) -> Option<TextView> {
    match text {
        Some(editing) => {
            let color = if editing.target is ArrowLabel || editing.target is RectangleLabel {
                contrasting
            } else {
                color_rgba
            };
            Some(
                TextView {
                    text_style: crate::board::TextStyle { color_rgba: color, ..editing.text_style },
                    ..editing
                },
            )
        },
        None => None,
    }
}

/// The look of a tool with a change.
pub open spec fn restyled(style: ToolStyle, change: StyleChange) -> ToolStyle {
    ToolStyle {
        width_px: match change.width_px {
            Some(width_px) => width_px,
            None => style.width_px,
        },
        font_size_px: match change.font_size_px {
            Some(font_size_px) => font_size_px,
            None => style.font_size_px,
        },
        hardness: match change.hardness {
            Some(hardness) => hardness,
            None => style.hardness,
        },
        ..style
    }
}

/// The editor with a change of a look.
pub open spec fn styled(
    editor: EditorView,
    board: Board,
    change: StyleChange,
    contrasting: ColorRgba,
) -> EditorView {
    let coloured = match change.color_rgba {
        Some(color_rgba) => EditorView {
            global_color: color_rgba,
            text_editing: recoloured(editor.text_editing, color_rgba, contrasting),
            ..editor
        },
        None => editor,
    };
    if crate::editor::selected_payload(editor, board) is Some {
        coloured
    } else {
        let at = tool_index(editor.tool) as int;
        EditorView {
            styles: editor.styles.update(at, restyled(editor.styles[at], change)),
            ..coloured
        }
    }
}

/// A change of the colour alone leaves the looks of all tools as they are but for the colour
/// that they share, and always says which colour that is.
pub proof fn law_color_is_shared(
    editor: EditorView,
    board: Board,
    color: ColorRgba,
    contrasting: ColorRgba,
    label_fits: bool,
    actions: Seq<EditorAction>,
)
    requires
        editor.styles.len() == 6,
    ensures
        ({
            let change = StyleChange {
                color_rgba: Some(color),
                width_px: None,
                font_size_px: None,
                hardness: None,
            };
            &&& styled(editor, board, change, contrasting).styles =~= editor.styles
            &&& styled(editor, board, change, contrasting).global_color == color
            &&& style_request(editor, board, change, label_fits, actions).color == Some(color)
        }),
{
}

/// While an element is selected, a change of a look changes no look of a tool, and while none
/// is, no command is given.
pub proof fn law_style_goes_to_one_place(
    editor: EditorView,
    board: Board,
    change: StyleChange,
    contrasting: ColorRgba,
    label_fits: bool,
    actions: Seq<EditorAction>,
)
    ensures
        crate::editor::selected_payload(editor, board) is Some ==> styled(
            editor,
            board,
            change,
            contrasting,
        ).styles == editor.styles,
        crate::editor::selected_payload(editor, board) is None ==> style_request(
            editor,
            board,
            change,
            label_fits,
            actions,
        ).command is None,
{
}

/// The place of the toolbar: it follows the middle of the screen until it is moved.
pub struct ToolbarPlace {
    /// The screen that it was last shown on: left, top, right and bottom edge.
    pub screen: Option<(u32, u32, u32, u32)>,
    pub was_moved: bool,
}

/// Whether two screens are the same.
pub open spec fn same_screen(left: (u32, u32, u32, u32), right: (u32, u32, u32, u32)) -> bool {
    crate::scale::equal_numbers(left.0, right.0) && crate::scale::equal_numbers(left.1, right.1)
        && crate::scale::equal_numbers(left.2, right.2) && crate::scale::equal_numbers(
        left.3,
        right.3,
    )
}

impl ToolbarPlace {
    /// Whether the toolbar is put in the middle of a screen: where the screen is another, and
    /// the toolbar was never moved.
    pub fn should_recenter_toolbar(&mut self, screen: (u32, u32, u32, u32)) -> (recenter: bool)
        ensures
            recenter == (!old(self).was_moved && !(old(self).screen matches Some(last)
                && same_screen(last, screen))),
            *final(self) == (ToolbarPlace { screen: Some(screen), was_moved: old(self).was_moved }),
    {
        let changed = match self.screen {
            Some(last) => !(crate::scale::numbers_equal(last.0, screen.0)
                && crate::scale::numbers_equal(last.1, screen.1) && crate::scale::numbers_equal(
                last.2,
                screen.2,
            ) && crate::scale::numbers_equal(last.3, screen.3)),
            None => true,
        };
        self.screen = Some(screen);
        changed && !self.was_moved
    }

    /// The toolbar was shown, and perhaps dragged.
    pub fn shown(&mut self, dragged: bool)
        ensures
            *final(self) == (ToolbarPlace {
                was_moved: old(self).was_moved || dragged,
                ..*old(self)
            }),
    {
        self.was_moved = self.was_moved || dragged;
    }
}

/// How the actions of a frame end.
#[derive(Clone, Copy, PartialEq, Eq, Structural)]
pub enum ActionsEnd {
    /// All of them are carried out.
    All,
    /// The document is then saved.
    Save,
    /// The editor is then closed.
    Close,
}

/// The place of the first action that ends the editing.
pub open spec fn ending_at(actions: Seq<EditorAction>) -> Option<int>
    decreases actions.len(),
{
    if actions.len() == 0 {
        None
    } else {
        match ending_at(actions.drop_last()) {
            Some(at) => Some(at),
            None => if actions.last() is Save || actions.last() is Close {
                Some(actions.len() - 1)
            } else {
                None
            },
        }
    }
}

proof fn lemma_ending_found(actions: Seq<EditorAction>, n: int)
    requires
        0 <= n <= actions.len(),
        ending_at(actions.take(n)) is Some,
    ensures
        ending_at(actions) == ending_at(actions.take(n)),
    decreases actions.len(),
{
    if n == actions.len() {
        assert(actions.take(n) =~= actions);
    } else {
        assert(actions.drop_last().take(n) =~= actions.take(n));
        lemma_ending_found(actions.drop_last(), n);
    }
}

/// How many of the actions of a frame are carried out, and what follows: what comes after a
/// save or a close is dropped, and nothing is done unless the document is being edited.
pub fn plan_editor_actions(phase: Phase, actions: &Vec<EditorAction>) -> (plan: (usize, ActionsEnd))
    ensures
        plan == (if phase != Phase::Editing {
            (0usize, ActionsEnd::All)
        } else {
            match ending_at(actions@) {
                Some(at) => (
                    at as usize,
                    if actions@[at] is Save {
                        ActionsEnd::Save
                    } else {
                        ActionsEnd::Close
                    },
                ),
                None => (actions@.len() as usize, ActionsEnd::All),
            }
        }),
{
    if phase != Phase::Editing {
        return (0, ActionsEnd::All);
    }
    for i in 0..actions.len()
        invariant
            phase == Phase::Editing,
            ending_at(actions@.take(i as int)) is None,
    {
        proof {
            assert(actions@.take(i + 1).drop_last() =~= actions@.take(i as int));
        }
        match &actions[i] {
            EditorAction::Save => {
                proof {
                    lemma_ending_found(actions@, i + 1);
                }
                return (i, ActionsEnd::Save);
            },
            EditorAction::Close => {
                proof {
                    lemma_ending_found(actions@, i + 1);
                }
                return (i, ActionsEnd::Close);
            },
            _ => {},
        }
    }
    assert(actions@.take(actions@.len() as int) =~= actions@);
    (actions.len(), ActionsEnd::All)
}

} // verus!
