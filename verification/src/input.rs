//! What the keyboard, the pen and an input method hand to the editor, and what the editor
//! makes of it while a text is being written.

use vstd::prelude::*;

use crate::text::{from_chars, to_chars};
use crate::tools::EditorTool;

verus! {

/// A key.
#[derive(Clone, Copy, PartialEq, Eq, Structural)]
pub enum Key {
    Num1,
    Num2,
    Num3,
    Num4,
    Num5,
    Num6,
    S,
    Z,
    C,
    V,
    Tab,
    Enter,
    Escape,
    Delete,
    Backspace,
    /// A key that means nothing to the editor, by a number.
    Other(u32),
}

/// The keys that are held down together with another. `command` stands for `ctrl` or
/// `mac_cmd`, as the system has it.
#[derive(Clone, Copy, PartialEq, Eq, Structural)]
pub struct Modifiers {
    pub alt: bool,
    pub ctrl: bool,
    pub shift: bool,
    pub mac_cmd: bool,
    pub command: bool,
}

/// No key is held down.
pub open spec fn no_modifiers() -> Modifiers {
    Modifiers { alt: false, ctrl: false, shift: false, mac_cmd: false, command: false }
}

/// The shift key alone is held down.
pub open spec fn shift_alone() -> Modifiers {
    Modifiers { alt: false, ctrl: false, shift: true, mac_cmd: false, command: false }
}

impl Modifiers {
    /// No key is held down.
    pub fn none() -> (modifiers: Self)
        ensures
            modifiers == no_modifiers(),
    {
        Modifiers { alt: false, ctrl: false, shift: false, mac_cmd: false, command: false }
    }

    /// The shift key is held down.
    pub fn shift() -> (modifiers: Self)
        ensures
            modifiers == shift_alone(),
    {
        Modifiers { alt: false, ctrl: false, shift: true, mac_cmd: false, command: false }
    }

    /// Whether no key is held down.
    pub fn is_none(&self) -> (yes: bool)
        ensures
            yes == (*self == no_modifiers()),
    {
        !self.alt && !self.ctrl && !self.shift && !self.mac_cmd && !self.command
    }

    /// Whether shift is held down, without alt and without the command key.
    pub fn shift_only(&self) -> (yes: bool)
        ensures
            yes == (self.shift && !self.alt && !self.command),
    {
        self.shift && !(self.alt || self.command)
    }

    /// Whether a key for commands is held down.
    pub open spec fn commands(&self) -> bool {
        self.command || self.mac_cmd || self.ctrl
    }
}

/// The part of a touch.
#[derive(Clone, Copy, PartialEq, Eq, Structural)]
pub enum TouchPhase {
    Start,
    Move,
    End,
    Cancel,
}

/// Something that happened at the keyboard, with a pen, or in an input method. Numbers with
/// a fraction are given by the bits of their single-precision form.
pub enum InputEvent {
    Key {
        key: Key,
        physical_key: Option<Key>,
        pressed: bool,
        repeat: bool,
        modifiers: Modifiers,
    },
    /// The text that an input method is composing; empty where it has stopped. The number
    /// stands for what else the event holds.
    Preedit { text: String, tag: u64 },
    /// The text that an input method has composed.
    Commit(String),
    WindowFocused(bool),
    Touch { device: u64, touch: u64, phase: TouchPhase, position: (u32, u32), force: Option<u32> },
    /// An event that means nothing to the editor, by a number.
    Other(u64),
}

/// The same, with texts as sequences of characters.
pub enum InputEventView {
    Key {
        key: Key,
        physical_key: Option<Key>,
        pressed: bool,
        repeat: bool,
        modifiers: Modifiers,
    },
    Preedit { text: Seq<char>, tag: u64 },
    Commit(Seq<char>),
    WindowFocused(bool),
    Touch { device: u64, touch: u64, phase: TouchPhase, position: (u32, u32), force: Option<u32> },
    Other(u64),
}

impl View for InputEvent {
    type V = InputEventView;

    open spec fn view(&self) -> InputEventView {
        match self {
            InputEvent::Key { key, physical_key, pressed, repeat, modifiers } => {
                InputEventView::Key {
                    key: *key,
                    physical_key: *physical_key,
                    pressed: *pressed,
                    repeat: *repeat,
                    modifiers: *modifiers,
                }
            },
            InputEvent::Preedit { text, tag } => InputEventView::Preedit { text: text@, tag: *tag },
            InputEvent::Commit(text) => InputEventView::Commit(text@),
            InputEvent::WindowFocused(focused) => InputEventView::WindowFocused(*focused),
            InputEvent::Touch { device, touch, phase, position, force } => InputEventView::Touch {
                device: *device,
                touch: *touch,
                phase: *phase,
                position: *position,
                force: *force,
            },
            InputEvent::Other(tag) => InputEventView::Other(*tag),
        }
    }
}

/// A list of events, with texts as sequences of characters.
pub open spec fn events_of(events: Seq<InputEvent>) -> Seq<InputEventView> {
    events.map_values(|event: InputEvent| event@)
}

/// The tool that a key stands for.
pub open spec fn tool_of_key(key: Key) -> Option<EditorTool> {
    match key {
        Key::Num1 => Some(EditorTool::Select),
        Key::Num2 => Some(EditorTool::Rectangle),
        Key::Num3 => Some(EditorTool::Arrow),
        Key::Num4 => Some(EditorTool::Text),
        Key::Num5 => Some(EditorTool::Stroke),
        Key::Num6 => Some(EditorTool::Sequence),
        _ => None,
    }
}

/// The tool that a key stands for.
pub fn tool_for_key(key: Key) -> (tool: Option<EditorTool>)
    ensures
        tool == tool_of_key(key),
{
    match key {
        Key::Num1 => Some(EditorTool::Select),
        Key::Num2 => Some(EditorTool::Rectangle),
        Key::Num3 => Some(EditorTool::Arrow),
        Key::Num4 => Some(EditorTool::Text),
        Key::Num5 => Some(EditorTool::Stroke),
        Key::Num6 => Some(EditorTool::Sequence),
        _ => None,
    }
}

/// What a shortcut asks for.
#[derive(Clone, Copy, PartialEq, Eq, Structural)]
pub enum ShortcutAction {
    Tool(EditorTool),
    Undo,
    Redo,
    Save,
    Deselect,
    CloseOrCancel,
    Delete,
    Copy,
    Paste,
}

/// What a key asks for. While a text is being written, only Escape and the shortcuts for
/// tools and for saving that are given with a command key count: every other key belongs to
/// the text.
pub open spec fn shortcut(key: Key, modifiers: Modifiers, text_editing: bool) -> Option<
    ShortcutAction,
> {
    let command = modifiers.commands();
    let tool = tool_of_key(key);
    if key == Key::Escape {
        Some(ShortcutAction::CloseOrCancel)
    } else if command && key == Key::S {
        Some(ShortcutAction::Save)
    } else if text_editing {
        if command && tool is Some {
            Some(ShortcutAction::Tool(tool->0))
        } else {
            None
        }
    } else if tool is Some && !modifiers.shift && !modifiers.alt {
        Some(ShortcutAction::Tool(tool->0))
    } else if command && key == Key::Z {
        Some(
            if modifiers.shift {
                ShortcutAction::Redo
            } else {
                ShortcutAction::Undo
            },
        )
    } else if command && key == Key::C {
        Some(ShortcutAction::Copy)
    } else if command && key == Key::V {
        Some(ShortcutAction::Paste)
    } else if key == Key::Enter && modifiers == no_modifiers() {
        Some(ShortcutAction::Deselect)
    } else if key == Key::Delete || key == Key::Backspace {
        Some(ShortcutAction::Delete)
    } else {
        None
    }
}

/// What a key asks for.
pub fn map_shortcut(key: Key, modifiers: Modifiers, text_editing: bool) -> (action: Option<
    ShortcutAction,
>)
    ensures
        action == shortcut(key, modifiers, text_editing),
{
    let command = modifiers.command || modifiers.mac_cmd || modifiers.ctrl;
    if text_editing {
        if key == Key::Escape {
            return Some(ShortcutAction::CloseOrCancel);
        }
        if command {
            if let Some(tool) = tool_for_key(key) {
                return Some(ShortcutAction::Tool(tool));
            }
            if key == Key::S {
                return Some(ShortcutAction::Save);
            }
        }
        return None;
    }
    if let Some(tool) = tool_for_key(key) {
        if !modifiers.shift && !modifiers.alt {
            return Some(ShortcutAction::Tool(tool));
        }
    }
    if command && key == Key::Z {
        return Some(
            if modifiers.shift {
                ShortcutAction::Redo
            } else {
                ShortcutAction::Undo
            },
        );
    }
    if command && key == Key::S {
        return Some(ShortcutAction::Save);
    }
    if command && key == Key::C {
        return Some(ShortcutAction::Copy);
    }
    if command && key == Key::V {
        return Some(ShortcutAction::Paste);
    }
    if key == Key::Enter && modifiers.is_none() {
        return Some(ShortcutAction::Deselect);
    }
    if key == Key::Escape {
        return Some(ShortcutAction::CloseOrCancel);
    }
    if key == Key::Delete || key == Key::Backspace {
        return Some(ShortcutAction::Delete);
    }
    None
}

/// What an event asks for.
pub open spec fn event_shortcut(event: InputEventView, text_editing: bool) -> Option<
    ShortcutAction,
> {
    match event {
        InputEventView::Key { key, pressed: true, modifiers, .. } => shortcut(
            key,
            modifiers,
            text_editing,
        ),
        _ => None,
    }
}

/// The place of the first event in a list that asks for something.
pub open spec fn shortcut_at(events: Seq<InputEventView>, text_editing: bool) -> Option<int>
    decreases events.len(),
{
    if events.len() == 0 {
        None
    } else {
        match shortcut_at(events.drop_last(), text_editing) {
            Some(at) => Some(at),
            None => if event_shortcut(events.last(), text_editing) is Some {
                Some(events.len() - 1)
            } else {
                None
            },
        }
    }
}

/// What the first event in a list that asks for something asks for.
pub open spec fn shortcut_in(events: Seq<InputEventView>, text_editing: bool) -> Option<
    ShortcutAction,
> {
    match shortcut_at(events, text_editing) {
        Some(at) => event_shortcut(events[at], text_editing),
        None => None,
    }
}

proof fn lemma_shortcut_found(events: Seq<InputEventView>, text_editing: bool, n: int)
    requires
        0 <= n <= events.len(),
        shortcut_at(events.take(n), text_editing) is Some,
    ensures
        shortcut_at(events, text_editing) == shortcut_at(events.take(n), text_editing),
    decreases events.len(),
{
    if n == events.len() {
        assert(events.take(n) =~= events);
    } else {
        assert(events.drop_last().take(n) =~= events.take(n));
        lemma_shortcut_found(events.drop_last(), text_editing, n);
    }
}

/// Takes the first event that asks for something out of a list. Says what it asks for.
pub fn take_shortcut(events: &mut Vec<InputEvent>, text_editing: bool) -> (taken: Option<
    ShortcutAction,
>)
    ensures
        taken == shortcut_in(events_of(old(events)@), text_editing),
        final(events)@ == (match shortcut_at(events_of(old(events)@), text_editing) {
            Some(at) => old(events)@.remove(at),
            None => old(events)@,
        }),
{
    let ghost all = events@;
    let ghost views = events_of(all);
    let n: usize = events.len();
    assert(views.take(0) =~= Seq::<InputEventView>::empty());
    for i in 0..n
        invariant
            events@ == all,
            all == old(events)@,
            views == events_of(all),
            n == all.len(),
            shortcut_at(views.take(i as int), text_editing) is None,
    {
        let action = match &events[i] {
            InputEvent::Key { key, physical_key: _, pressed, repeat: _, modifiers } => {
                if *pressed {
                    map_shortcut(*key, *modifiers, text_editing)
                } else {
                    None
                }
            },
            _ => None,
        };
        proof {
            assert(views.take(i + 1).drop_last() =~= views.take(i as int));
            assert(views.take(i + 1).last() == all[i as int]@);
        }
        if action.is_some() {
            events.remove(i);
            proof {
                lemma_shortcut_found(views, text_editing, i + 1);
            }
            return action;
        }
    }
    assert(views.take(n as int) =~= views);
    None
}

/// Where the tab key switches to.
#[derive(Clone, Copy, PartialEq, Eq, Structural)]
pub enum ToolSwitchDirection {
    Next,
    Previous,
}

/// The switch that an event asks for: the tab key alone asks for the next tool, with shift
/// for the previous one.
pub open spec fn tab_switch(event: InputEventView) -> Option<ToolSwitchDirection> {
    match event {
        InputEventView::Key { key: Key::Tab, pressed: true, modifiers, .. } => {
            if modifiers == no_modifiers() {
                Some(ToolSwitchDirection::Next)
            } else if modifiers.shift && !modifiers.alt && !modifiers.command {
                Some(ToolSwitchDirection::Previous)
            } else {
                None
            }
        },
        _ => None,
    }
}

fn tab_switch_of(event: &InputEvent) -> (direction: Option<ToolSwitchDirection>)
    ensures
        direction == tab_switch(event@),
{
    match event {
        InputEvent::Key { key, physical_key: _, pressed, repeat: _, modifiers } => {
            if *key == Key::Tab && *pressed {
                if modifiers.is_none() {
                    Some(ToolSwitchDirection::Next)
                } else if modifiers.shift_only() {
                    Some(ToolSwitchDirection::Previous)
                } else {
                    None
                }
            } else {
                None
            }
        },
        _ => None,
    }
}

/// The events without those that ask for a switch.
pub open spec fn without_switches(events: Seq<InputEventView>) -> Seq<InputEventView> {
    events.filter(|event: InputEventView| tab_switch(event) is None)
}

/// The switch that the last event that asks for one asks for.
pub open spec fn last_switch(events: Seq<InputEventView>) -> Option<ToolSwitchDirection>
    decreases events.len(),
{
    if events.len() == 0 {
        None
    } else {
        match tab_switch(events.last()) {
            Some(direction) => Some(direction),
            None => last_switch(events.drop_last()),
        }
    }
}

/// Takes the events that ask for a switch of the tool out of a list. The last of them counts.
pub fn take_tab_switches(events: Vec<InputEvent>) -> (taken: (
    Vec<InputEvent>,
    Option<ToolSwitchDirection>,
))
    ensures
        events_of(taken.0@) == without_switches(events_of(events@)),
        taken.1 == last_switch(events_of(events@)),
{
    let ghost all = events_of(events@);
    let mut kept: Vec<InputEvent> = Vec::new();
    let mut direction: Option<ToolSwitchDirection> = None;
    let mut rest = events;
    let mut i: usize = 0;
    let n: usize = rest.len();
    proof {
        reveal(Seq::filter);
        assert(all.take(0) =~= Seq::<InputEventView>::empty());
        assert(events_of(kept@) =~= without_switches(all.take(0)));
        assert(rest@.skip(0) =~= rest@);
    }
    while i < n
        invariant
            i <= n == all.len(),
            rest@.len() == n - i,
            events_of(rest@) == all.skip(i as int),
            events_of(kept@) == without_switches(all.take(i as int)),
            direction == last_switch(all.take(i as int)),
        decreases n - i,
    {
        let ghost waiting = rest@;
        let event = rest.remove(0);
        let switch = tab_switch_of(&event);
        proof {
            reveal(Seq::filter);
            assert(all.skip(i as int)[0] == all[i as int]);
            assert(event@ == all[i as int]);
            assert(all.take(i + 1).drop_last() =~= all.take(i as int));
            assert forall|j: int| 0 <= j < rest@.len() implies events_of(rest@)[j] == all.skip(
                i + 1,
            )[j] by {
                assert(rest@[j] == waiting[j + 1]);
                assert(events_of(waiting)[j + 1] == all.skip(i as int)[j + 1]);
            }
            assert(events_of(rest@) =~= all.skip(i + 1));
            crate::seqs::lemma_filter_step(
                all,
                i as int,
                |event: InputEventView| tab_switch(event) is None,
            );
        }
        let ghost before = kept@;
        match switch {
            Some(found) => {
                direction = Some(found);
            },
            None => {
                kept.push(event);
                assert(events_of(kept@) =~= events_of(before).push(event@));
            },
        }
        i = i + 1;
    }
    assert(all.take(n as int) =~= all);
    (kept, direction)
}

/// What an input method is doing.
pub struct InlineImeState {
    /// The text that it is composing.
    pub preedit: Option<String>,
    /// Whether the Enter key was pressed to confirm that text.
    pub confirming_preedit_with_enter: bool,
}

/// Whether a text is a single line break.
pub open spec fn line_break(text: Seq<char>) -> bool {
    text == seq!['\n'] || text == seq!['\r'] || text == seq!['\r', '\n']
}

/// A text without the line break at its end; none where it has none.
pub open spec fn without_break(text: Seq<char>) -> Option<Seq<char>> {
    let n = text.len() as int;
    if n >= 2 && text[n - 2] == '\r' && text[n - 1] == '\n' {
        Some(text.take(n - 2))
    } else if n >= 1 && (text[n - 1] == '\r' || text[n - 1] == '\n') {
        Some(text.take(n - 1))
    } else {
        None
    }
}

/// Takes the line break at the end of a text off. Says whether there was one.
pub fn strip_one_logical_trailing_newline(text: &mut String) -> (stripped: bool)
    ensures
        match without_break(old(text)@) {
            Some(rest) => stripped && final(text)@ == rest,
            None => !stripped && final(text)@ == old(text)@,
        },
{
    let mut chars = to_chars(text.as_str());
    let n: usize = chars.len();
    if n >= 2 && chars[n - 2] == '\r' && chars[n - 1] == '\n' {
        chars.truncate(n - 2);
        *text = from_chars(&chars);
        true
    } else if n >= 1 && (chars[n - 1] == '\r' || chars[n - 1] == '\n') {
        chars.truncate(n - 1);
        *text = from_chars(&chars);
        true
    } else {
        false
    }
}

/// Whether a text is a single line break.
pub fn is_single_logical_newline(text: &str) -> (yes: bool)
    ensures
        yes == line_break(text@),
{
    let chars = to_chars(text);
    let n: usize = chars.len();
    let yes = (n == 1 && (chars[0] == '\n' || chars[0] == '\r')) || (n == 2 && chars[0] == '\r'
        && chars[1] == '\n');
    proof {
        if n == 1 {
            assert(text@ =~= seq![text@[0]]);
        } else if n == 2 {
            assert(text@ =~= seq![text@[0], text@[1]]);
        }
    }
    yes
}

/// The press of shift and Enter, which breaks a line in a text.
pub open spec fn shift_enter() -> InputEventView {
    InputEventView::Key {
        key: Key::Enter,
        physical_key: Some(Key::Enter),
        pressed: true,
        repeat: false,
        modifiers: shift_alone(),
    }
}

/// The press of shift and Enter.
pub fn synthetic_shift_enter_event() -> (event: InputEvent)
    ensures
        event@ == shift_enter(),
{
    InputEvent::Key {
        key: Key::Enter,
        physical_key: Some(Key::Enter),
        pressed: true,
        repeat: false,
        modifiers: Modifiers::shift(),
    }
}

/// What is known of an input method between two events, what has become of the events so
/// far, and whether the text is to be submitted.
pub struct TextInput {
    /// The text that is being composed.
    pub active: Option<Seq<char>>,
    /// The text that was composed last, until something is committed.
    pub confirmation: Option<Seq<char>>,
    /// Whether Enter was pressed to confirm the text that is being composed.
    pub confirming: bool,
    /// Whether the next Enter only confirms what was just committed.
    pub consume: bool,
    pub submit: bool,
    /// What the text gets to see.
    pub kept: Seq<InputEventView>,
}

/// What an input method is doing, before the first event of a frame.
pub open spec fn input_start(preedit: Option<Seq<char>>, confirming: bool) -> TextInput {
    TextInput {
        active: preedit,
        confirmation: preedit,
        confirming,
        consume: false,
        submit: false,
        kept: Seq::empty(),
    }
}

impl TextInput {
    /// The text that an input method was composing as it committed something.
    pub open spec fn composed(self) -> Option<Seq<char>> {
        let last = match self.active {
            Some(text) => Some(text),
            None => self.confirmation,
        };
        match last {
            Some(text) if text.len() > 0 => Some(text),
            _ => None,
        }
    }

    /// The input method is at rest, and the text sees an event.
    pub open spec fn rested(self, event: InputEventView, consume: bool) -> TextInput {
        TextInput {
            active: None,
            confirmation: None,
            confirming: false,
            consume,
            kept: self.kept.push(event),
            ..self
        }
    }

    /// What is known after one more event.
    pub open spec fn after(self, event: InputEventView) -> TextInput {
        match event {
            InputEventView::Preedit { text, .. } => if text.len() == 0 {
                TextInput {
                    active: None,
                    confirming: false,
                    kept: self.kept.push(event),
                    ..self
                }
            } else {
                TextInput {
                    active: Some(text),
                    confirmation: Some(text),
                    confirming: false,
                    kept: self.kept.push(event),
                    ..self
                }
            },
            InputEventView::Commit(text) => match (self.composed(), without_break(text)) {
                (Some(preedit), Some(rest)) => self.rested(
                    InputEventView::Commit(
                        if rest.len() == 0 {
                            preedit
                        } else {
                            rest
                        },
                    ),
                    true,
                ),
                _ => self.rested(
                    if line_break(text) {
                        shift_enter()
                    } else {
                        event
                    },
                    self.consume,
                ),
            },
            InputEventView::Key { key: Key::Enter, physical_key, pressed: true, repeat, modifiers } => {
                if modifiers == no_modifiers() && self.consume {
                    TextInput { consume: false, ..self }
                } else if modifiers == no_modifiers() && (self.active matches Some(text)
                    && text.len() > 0) {
                    TextInput { confirming: true, ..self }
                } else if modifiers.shift || modifiers.mac_cmd || modifiers.command {
                    TextInput {
                        kept: self.kept.push(
                            InputEventView::Key {
                                key: Key::Enter,
                                physical_key,
                                pressed: true,
                                repeat,
                                modifiers: shift_alone(),
                            },
                        ),
                        ..self
                    }
                } else {
                    TextInput { submit: true, ..self }
                }
            },
            InputEventView::WindowFocused(false) => self.rested(event, false),
            _ => TextInput { kept: self.kept.push(event), ..self },
        }
    }

    /// What is known after all events of a frame.
    pub open spec fn after_all(self, events: Seq<InputEventView>) -> TextInput
        decreases events.len(),
    {
        if events.len() == 0 {
            self
        } else {
            self.after_all(events.drop_last()).after(events.last())
        }
    }
}

/// A text that may be missing.
spec fn maybe(text: Option<String>) -> Option<Seq<char>> {
    match text {
        Some(text) => Some(text@),
        None => None,
    }
}

fn copy_text(text: &Option<String>) -> (copy: Option<String>)
    ensures
        maybe(copy) == maybe(*text),
{
    match text {
        Some(text) => Some(text.clone()),
        None => None,
    }
}

fn is_empty(text: &str) -> (yes: bool)
    ensures
        yes == (text@.len() == 0),
{
    text.unicode_len() == 0
}

/// Goes through the events of a frame before a text that is being written sees them. An Enter
/// that confirms what an input method has composed is kept from the text; so is the Enter
/// that submits the text. Says what the text sees, and whether the text is to be submitted.
pub fn normalize_inline_text_events(events: Vec<InputEvent>, ime: &mut InlineImeState) -> (seen: (
    Vec<InputEvent>,
    bool,
))
    ensures
        ({
            let end = input_start(
                crate::application::text_of(old(ime).preedit),
                old(ime).confirming_preedit_with_enter,
            ).after_all(events_of(events@));
            &&& events_of(seen.0@) == end.kept
            &&& seen.1 == end.submit
            &&& crate::application::text_of(final(ime).preedit) == end.active
            &&& final(ime).confirming_preedit_with_enter == (end.confirming && (end.active matches
                Some(text) && text.len() > 0))
        }),
{
    let ghost all = events_of(events@);
    let ghost start = input_start(maybe(ime.preedit), ime.confirming_preedit_with_enter);
    let mut active: Option<String> = copy_text(&ime.preedit);
    let mut confirmation: Option<String> = copy_text(&ime.preedit);
    let mut confirming = ime.confirming_preedit_with_enter;
    let mut consume = false;
    let mut submit = false;
    let mut kept: Vec<InputEvent> = Vec::new();
    let mut rest = events;
    let mut i: usize = 0;
    let n: usize = rest.len();
    proof {
        assert(all.take(0) =~= Seq::<InputEventView>::empty());
        assert(events_of(kept@) =~= Seq::<InputEventView>::empty());
        assert(rest@.skip(0) =~= rest@);
    }
    while i < n
        invariant
            i <= n == all.len(),
            rest@.len() == n - i,
            events_of(rest@) == all.skip(i as int),
            ({
                let now = start.after_all(all.take(i as int));
                &&& maybe(active) == now.active
                &&& maybe(confirmation) == now.confirmation
                &&& confirming == now.confirming
                &&& consume == now.consume
                &&& submit == now.submit
                &&& events_of(kept@) == now.kept
            }),
        decreases n - i,
    {
        let ghost waiting = rest@;
        let event = rest.remove(0);
        let ghost now = start.after_all(all.take(i as int));
        let ghost before = kept@;
        proof {
            assert(all.skip(i as int)[0] == all[i as int]);
            assert(event@ == all[i as int]);
            assert(all.take(i + 1).drop_last() =~= all.take(i as int));
            assert forall|j: int| 0 <= j < rest@.len() implies events_of(rest@)[j] == all.skip(
                i + 1,
            )[j] by {
                assert(rest@[j] == waiting[j + 1]);
                assert(events_of(waiting)[j + 1] == all.skip(i as int)[j + 1]);
            }
            assert(events_of(rest@) =~= all.skip(i + 1));
        }
        match event {
            InputEvent::Preedit { text, tag } => {
                if is_empty(text.as_str()) {
                    active = None;
                    confirming = false;
                } else {
                    active = Some(text.clone());
                    confirmation = Some(text.clone());
                    confirming = false;
                }
                kept.push(InputEvent::Preedit { text, tag });
                assert(events_of(kept@) =~= events_of(before).push(event@));
            },
            InputEvent::Commit(text) => {
                let last = if active.is_some() {
                    copy_text(&active)
                } else {
                    copy_text(&confirmation)
                };
                let composed = match last {
                    Some(preedit) => {
                        if is_empty(preedit.as_str()) {
                            None
                        } else {
                            Some(preedit)
                        }
                    },
                    None => None,
                };
                let mut text = text;
                let confirmed = composed.is_some() && strip_one_logical_trailing_newline(&mut text);
                let seen = if confirmed {
                    consume = true;
                    match composed {
                        Some(preedit) => {
                            if is_empty(text.as_str()) {
                                InputEvent::Commit(preedit)
                            } else {
                                InputEvent::Commit(text)
                            }
                        },
                        None => InputEvent::Commit(text),
                    }
                } else if is_single_logical_newline(text.as_str()) {
                    synthetic_shift_enter_event()
                } else {
                    InputEvent::Commit(text)
                };
                active = None;
                confirmation = None;
                confirming = false;
                let ghost seen_view = seen@;
                kept.push(seen);
                assert(events_of(kept@) =~= events_of(before).push(seen_view));
            },
            InputEvent::Key { key: Key::Enter, physical_key, pressed: true, repeat, modifiers } => {
                let composing = match &active {
                    Some(text) => !is_empty(text.as_str()),
                    None => false,
                };
                if modifiers.is_none() && consume {
                    consume = false;
                } else if modifiers.is_none() && composing {
                    confirming = true;
                } else if modifiers.shift || modifiers.mac_cmd || modifiers.command {
                    let seen = InputEvent::Key {
                        key: Key::Enter,
                        physical_key,
                        pressed: true,
                        repeat,
                        modifiers: Modifiers::shift(),
                    };
                    let ghost seen_view = seen@;
                    kept.push(seen);
                    assert(events_of(kept@) =~= events_of(before).push(seen_view));
                } else {
                    submit = true;
                }
            },
            InputEvent::WindowFocused(false) => {
                active = None;
                confirmation = None;
                confirming = false;
                consume = false;
                kept.push(InputEvent::WindowFocused(false));
                assert(events_of(kept@) =~= events_of(before).push(event@));
            },
            other => {
                let ghost seen_view = other@;
                kept.push(other);
                assert(events_of(kept@) =~= events_of(before).push(seen_view));
            },
        }
        i = i + 1;
    }
    assert(all.take(n as int) =~= all);
    let composing = match &active {
        Some(text) => !is_empty(text.as_str()),
        None => false,
    };
    ime.confirming_preedit_with_enter = confirming && composing;
    ime.preedit = active;
    (kept, submit)
}

/// Whether an event is the press of Enter with the keys that break a line in a text, or no
/// press of Enter at all.
pub open spec fn breaks_a_line_at_most(event: InputEventView) -> bool {
    event matches InputEventView::Key { key: Key::Enter, pressed: true, modifiers, .. }
        ==> modifiers == shift_alone()
}

/// A text that is being written never sees a press of Enter other than the one that breaks a
/// line, whatever the input method does.
pub proof fn law_text_sees_only_line_breaks(
    preedit: Option<Seq<char>>,
    confirming: bool,
    events: Seq<InputEventView>,
)
    ensures
        forall|i: int|
            0 <= i < input_start(preedit, confirming).after_all(events).kept.len()
                ==> breaks_a_line_at_most(
                #[trigger] input_start(preedit, confirming).after_all(events).kept[i],
            ),
    decreases events.len(),
{
    if events.len() > 0 {
        law_text_sees_only_line_breaks(preedit, confirming, events.drop_last());
        let before = input_start(preedit, confirming).after_all(events.drop_last());
        let after = before.after(events.last());
        assert forall|i: int| 0 <= i < after.kept.len() implies breaks_a_line_at_most(
            #[trigger] after.kept[i],
        ) by {
            if i < before.kept.len() {
                assert(after.kept[i] == before.kept[i]);
            }
        }
    }
}

/// A press of Enter while an input method is composing a text does not submit what is being
/// written, and the text does not see it.
pub proof fn law_composing_enter_does_not_submit(now: TextInput, physical_key: Option<Key>, repeat: bool)
    requires
        now.active matches Some(text) && text.len() > 0,
    ensures
        ({
            let after = now.after(
                InputEventView::Key {
                    key: Key::Enter,
                    physical_key,
                    pressed: true,
                    repeat,
                    modifiers: no_modifiers(),
                },
            );
            &&& after.submit == now.submit
            &&& after.kept == now.kept
            &&& after.active == now.active
        }),
{
}

/// After an input method committed what it composed with a line break at its end, the next
/// Enter does not submit what is being written, and the one after it does.
pub proof fn law_second_enter_submits(now: TextInput, text: Seq<char>)
    requires
        now.composed() is Some,
        without_break(text) is Some,
        !now.submit,
    ensures
        ({
            let enter = InputEventView::Key {
                key: Key::Enter,
                physical_key: Some(Key::Enter),
                pressed: true,
                repeat: false,
                modifiers: no_modifiers(),
            };
            let committed = now.after(InputEventView::Commit(text));
            &&& !committed.after(enter).submit
            &&& committed.after(enter).after(enter).submit
            &&& committed.after(enter).after(enter).kept == committed.kept
        }),
{
}

/// While a text is being written, a key without a command key never asks for anything but to
/// stop: what is typed goes to the text.
pub proof fn law_typing_goes_to_the_text(key: Key, modifiers: Modifiers)
    requires
        !modifiers.commands(),
        key != Key::Escape,
    ensures
        shortcut(key, modifiers, true) is None,
{
}

} // verus!
