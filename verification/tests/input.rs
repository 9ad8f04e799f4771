use rs_board::editor::{EditorController, KeyRequest, PointerInteraction};
use rs_board::input::{
    is_single_logical_newline, map_shortcut, normalize_inline_text_events,
    strip_one_logical_trailing_newline, synthetic_shift_enter_event, take_shortcut,
    take_tab_switches, tool_for_key, InlineImeState, InputEvent, Key, Modifiers, ShortcutAction,
    ToolSwitchDirection, TouchPhase,
};
use rs_board::board::Board;
use rs_board::commands::EditorAction;
use rs_board::stylus::{
    append_stroke_point, append_stylus_sample, stylus_event, Point, StrokePoint, StylusEvent,
    StylusId, StylusInput, StylusSample,
};
use rs_board::tools::EditorTool;

fn point(x: f32, y: f32) -> Point {
    Point { x: x.to_bits(), y: y.to_bits() }
}

fn command() -> Modifiers {
    Modifiers { command: true, ..Modifiers::none() }
}

fn mac_command() -> Modifiers {
    Modifiers { command: true, mac_cmd: true, ..Modifiers::none() }
}

fn key_event(key: Key, modifiers: Modifiers, pressed: bool) -> InputEvent {
    InputEvent::Key { key, physical_key: Some(key), pressed, repeat: false, modifiers }
}

fn enter_event(modifiers: Modifiers) -> InputEvent {
    key_event(Key::Enter, modifiers, true)
}

fn tab_event(modifiers: Modifiers) -> InputEvent {
    key_event(Key::Tab, modifiers, true)
}

fn commit(text: &str) -> InputEvent {
    InputEvent::Commit(text.to_owned())
}

fn preedit(text: &str) -> InputEvent {
    InputEvent::Preedit { text: text.to_owned(), tag: 0 }
}

fn idle() -> InlineImeState {
    InlineImeState { preedit: None, confirming_preedit_with_enter: false }
}

fn composing(text: &str) -> InlineImeState {
    InlineImeState { preedit: Some(text.to_owned()), confirming_preedit_with_enter: false }
}

fn touch_event(phase: TouchPhase, position: (f32, f32), pressure: f32) -> InputEvent {
    InputEvent::Touch {
        device: 7,
        touch: 11,
        phase,
        position: (position.0.to_bits(), position.1.to_bits()),
        force: Some(pressure.to_bits()),
    }
}

fn is_commit(event: &InputEvent, expected: &str) -> bool {
    matches!(event, InputEvent::Commit(text) if text == expected)
}

fn is_shift_enter(event: &InputEvent) -> bool {
    matches!(
        event,
        InputEvent::Key { key: Key::Enter, pressed: true, modifiers, .. }
            if *modifiers == Modifiers::shift()
    )
}

fn empty_board() -> Board {
    Board { elements: Vec::new() }
}

#[test]
fn shortcut_mapping_respects_text_editing_priority() {
    assert!(
        map_shortcut(Key::Num2, Modifiers::none(), false)
            == Some(ShortcutAction::Tool(EditorTool::Rectangle))
    );
    assert!(map_shortcut(Key::Num2, Modifiers::none(), true).is_none());
    assert!(
        map_shortcut(Key::Num2, command(), true)
            == Some(ShortcutAction::Tool(EditorTool::Rectangle))
    );
    assert!(map_shortcut(Key::C, command(), true).is_none());
    assert!(
        map_shortcut(Key::Z, Modifiers { shift: true, ..command() }, false)
            == Some(ShortcutAction::Redo)
    );
    assert!(map_shortcut(Key::Enter, Modifiers::none(), true).is_none());
    assert!(map_shortcut(Key::Enter, Modifiers::shift(), true).is_none());
}

#[test]
fn every_shortcut_has_its_keys() {
    for (key, modifiers, action) in [
        (Key::Z, command(), ShortcutAction::Undo),
        (Key::S, command(), ShortcutAction::Save),
        (Key::C, command(), ShortcutAction::Copy),
        (Key::V, command(), ShortcutAction::Paste),
        (Key::Escape, Modifiers::none(), ShortcutAction::CloseOrCancel),
        (Key::Delete, Modifiers::none(), ShortcutAction::Delete),
        (Key::Backspace, Modifiers::none(), ShortcutAction::Delete),
    ] {
        assert!(map_shortcut(key, modifiers, false) == Some(action));
    }
    for (key, tool) in [
        (Key::Num1, EditorTool::Select),
        (Key::Num2, EditorTool::Rectangle),
        (Key::Num3, EditorTool::Arrow),
        (Key::Num4, EditorTool::Text),
        (Key::Num5, EditorTool::Stroke),
        (Key::Num6, EditorTool::Sequence),
    ] {
        assert_eq!(tool_for_key(key), Some(tool));
    }
    assert_eq!(tool_for_key(Key::Z), None);
}

#[test]
fn a_shortcut_is_taken_out_of_the_events() {
    let mut events = vec![
        InputEvent::Other(1),
        key_event(Key::S, command(), true),
        InputEvent::Other(2),
    ];
    assert!(take_shortcut(&mut events, false) == Some(ShortcutAction::Save));
    assert_eq!(events.len(), 2);
    assert!(take_shortcut(&mut events, false).is_none());
}

#[test]
fn escape_without_text_editing_reaches_the_keyboard_handler() {
    let board = empty_board();
    let mut idle = EditorController::new(None);
    let mut events = vec![key_event(Key::Escape, Modifiers::none(), true)];
    let (_, request) = idle.handle_keyboard(&mut events, &board, 0, point(0.0, 0.0));
    assert!(matches!(request, KeyRequest::Act(EditorAction::Close)));

    let mut interacting = EditorController::new(None);
    interacting.interaction = Some(PointerInteraction::Move {
        element_id: 1,
        start: point(10.0, 10.0),
        current: point(20.0, 20.0),
    });
    let mut events = vec![key_event(Key::Escape, Modifiers::none(), true)];
    let (_, request) = interacting.handle_keyboard(&mut events, &board, 0, point(0.0, 0.0));
    assert!(matches!(request, KeyRequest::Nothing));
    assert!(interacting.interaction.is_none());
}

#[test]
fn inline_enter_events_distinguish_submit_and_newline() {
    let mut ime = idle();
    let (events, submit) =
        normalize_inline_text_events(vec![enter_event(Modifiers::none())], &mut ime);
    assert!(submit);
    assert!(events.is_empty());

    for modifiers in [
        Modifiers::shift(),
        command(),
        Modifiers { shift: true, ..command() },
    ] {
        let (events, submit) =
            normalize_inline_text_events(vec![enter_event(modifiers)], &mut ime);
        assert!(!submit);
        assert_eq!(events.len(), 1);
        assert!(is_shift_enter(&events[0]));
    }
}

#[test]
fn a_mac_command_enter_is_a_line_break() {
    for modifiers in [mac_command(), Modifiers { shift: true, ..mac_command() }] {
        let (events, submit) =
            normalize_inline_text_events(vec![enter_event(modifiers)], &mut idle());
        assert!(!submit);
        assert_eq!(events.len(), 1);
        assert!(is_shift_enter(&events[0]));
    }
}

#[test]
fn ime_commit_trims_confirmation_newline_without_submitting() {
    for key_first in [false, true] {
        let mut ime = composing("o");
        let events = if key_first {
            vec![enter_event(Modifiers::none()), commit("OK\r\n")]
        } else {
            vec![commit("OK\r\n"), enter_event(Modifiers::none())]
        };

        let (events, submit) = normalize_inline_text_events(events, &mut ime);
        assert!(!submit);
        assert_eq!(events.len(), 1);
        assert!(is_commit(&events[0], "OK"));
        assert!(ime.preedit.is_none());
    }
}

#[test]
fn ime_enter_is_consumed_until_composition_commits() {
    let mut ime = idle();
    let (_, submit) = normalize_inline_text_events(vec![preedit("o")], &mut ime);
    assert!(!submit);
    assert_eq!(ime.preedit.as_deref(), Some("o"));

    let (first_enter, submit) =
        normalize_inline_text_events(vec![enter_event(Modifiers::none())], &mut ime);
    assert!(!submit);
    assert!(first_enter.is_empty());

    let (committed, submit) = normalize_inline_text_events(vec![commit("OK\n")], &mut ime);
    assert!(!submit);
    assert_eq!(committed.len(), 1);
    assert!(is_commit(&committed[0], "OK"));
    assert!(ime.preedit.is_none());

    let (second_enter, submit) =
        normalize_inline_text_events(vec![enter_event(Modifiers::none())], &mut ime);
    assert!(submit);
    assert!(second_enter.is_empty());
}

#[test]
fn dictation_commit_preserves_trailing_and_internal_newlines() {
    let (events, submit) = normalize_inline_text_events(vec![commit("A\nB\n")], &mut idle());
    assert!(!submit);
    assert_eq!(events.len(), 1);
    assert!(is_commit(&events[0], "A\nB\n"));
}

#[test]
fn ime_confirmation_handles_preedit_clear_before_commit() {
    for events in [
        vec![preedit("O"), commit("OK\n"), enter_event(Modifiers::none())],
        vec![preedit("O"), enter_event(Modifiers::none()), commit("OK\n")],
        vec![preedit("O"), preedit(""), commit("OK\n")],
    ] {
        let (events, submit) = normalize_inline_text_events(events, &mut idle());
        assert!(!submit);
        assert!(events.iter().all(|event| !matches!(
            event,
            InputEvent::Key { key: Key::Enter, pressed: true, .. }
        )));
        assert!(events.iter().any(|event| is_commit(event, "OK")));
    }
}

#[test]
fn ime_newline_commit_does_not_use_future_preedit() {
    let mut ime = idle();
    let (events, submit) =
        normalize_inline_text_events(vec![commit("\n"), preedit("future")], &mut ime);
    assert!(!submit);
    assert!(is_shift_enter(&events[0]));
    assert!(is_shift_enter(&synthetic_shift_enter_event()));
    assert_eq!(ime.preedit.as_deref(), Some("future"));
}

#[test]
fn active_ime_newline_confirmation_falls_back_to_preedit() {
    let mut ime = composing("候选");
    let (events, submit) = normalize_inline_text_events(vec![commit("\r\n")], &mut ime);
    assert!(!submit);
    assert_eq!(events.len(), 1);
    assert!(is_commit(&events[0], "候选"));
    assert!(ime.preedit.is_none());
}

#[test]
fn idle_ime_newline_commit_routes_to_inline_newline() {
    for line_ending in ["\n", "\r", "\r\n"] {
        let (events, submit) =
            normalize_inline_text_events(vec![commit(line_ending)], &mut idle());
        assert!(!submit);
        assert_eq!(events.len(), 1);
        assert!(is_shift_enter(&events[0]));
    }
}

#[test]
fn dictation_commit_then_enter_submits_after_widget() {
    let mut ime = idle();
    let (events, submit) = normalize_inline_text_events(
        vec![commit("dictated"), enter_event(Modifiers::none())],
        &mut ime,
    );
    assert!(submit);
    assert_eq!(events.len(), 1);
    assert!(is_commit(&events[0], "dictated"));
    assert!(ime.preedit.is_none());
}

#[test]
fn focus_loss_clears_inline_ime_state() {
    let mut ime = InlineImeState {
        preedit: Some("候选".to_owned()),
        confirming_preedit_with_enter: true,
    };
    let (events, submit) =
        normalize_inline_text_events(vec![InputEvent::WindowFocused(false)], &mut ime);
    assert!(!submit);
    assert_eq!(events.len(), 1);
    assert!(matches!(events[0], InputEvent::WindowFocused(false)));
    assert!(ime.preedit.is_none());
    assert!(!ime.confirming_preedit_with_enter);
}

#[test]
fn ime_cancel_clears_inline_ime_state() {
    let mut ime = InlineImeState {
        preedit: Some("候选".to_owned()),
        confirming_preedit_with_enter: true,
    };
    let (events, submit) = normalize_inline_text_events(vec![preedit("")], &mut ime);
    assert!(!submit);
    assert_eq!(events.len(), 1);
    assert!(matches!(&events[0], InputEvent::Preedit { text, .. } if text.is_empty()));
    assert!(ime.preedit.is_none());
    assert!(!ime.confirming_preedit_with_enter);
}

#[test]
fn one_line_end_is_taken_off_a_text() {
    for (given, left, stripped) in [
        ("a\r\n", "a", true),
        ("a\n", "a", true),
        ("a\r", "a", true),
        ("a\n\n", "a\n", true),
        ("a", "a", false),
        ("", "", false),
    ] {
        let mut text = given.to_owned();
        assert_eq!(strip_one_logical_trailing_newline(&mut text), stripped);
        assert_eq!(text, left);
    }
    assert!(is_single_logical_newline("\r\n"));
    assert!(!is_single_logical_newline("\n\n"));
    assert!(!is_single_logical_newline(""));
}

#[test]
fn tab_capture_ignores_modifier_combinations_and_key_releases() {
    let mut controller = EditorController::new(Some(EditorTool::Select));
    let events = vec![
        tab_event(command()),
        tab_event(Modifiers { ctrl: true, ..Modifiers::none() }),
        key_event(Key::Tab, Modifiers::none(), false),
    ];
    let (left, _) = controller.capture_tab_switch(events);
    controller.do_queued_switch(&empty_board(), 0);
    assert_eq!(left.len(), 3);
    assert_eq!(controller.active_tool(), EditorTool::Select);
    assert!(controller.queued_tool_switch.is_none());
}

#[test]
fn the_last_tab_of_a_frame_counts() {
    let (left, direction) = take_tab_switches(vec![
        tab_event(Modifiers::none()),
        InputEvent::Other(3),
        tab_event(Modifiers::shift()),
    ]);
    assert_eq!(left.len(), 1);
    assert!(direction == Some(ToolSwitchDirection::Previous));
}

#[test]
fn stylus_tap_keeps_contact_pressure_instead_of_disappearing_on_release() {
    let at = point(20.0, 20.0);
    let mut points = vec![StrokePoint { point: at, pressure: 0.35f32.to_bits() }];
    append_stylus_sample(
        &mut points,
        StylusSample { phase: TouchPhase::End, point: at, pressure: 0.0f32.to_bits() },
    );
    assert_eq!(points.len(), 1);
    assert_eq!(points[0].pressure, 0.35f32.to_bits());
}

#[test]
fn input_state_capture_routes_only_pressure_touch_events() {
    let finger = InputEvent::Touch {
        device: 8,
        touch: 12,
        phase: TouchPhase::Move,
        position: (40.0f32.to_bits(), 50.0f32.to_bits()),
        force: None,
    };
    let mut controller = EditorController::new(None);

    let left = controller
        .capture_stylus_events(vec![touch_event(TouchPhase::Move, (20.0, 30.0), 0.45), finger]);

    assert_eq!(controller.stylus.queued.len(), 1);
    assert_eq!(controller.stylus.queued[0].pressure, 0.45f32.to_bits());
    assert_eq!(left.len(), 1);
    assert!(matches!(left[0], InputEvent::Touch { device: 8, touch: 12, force: None, .. }));
}

#[test]
fn focus_loss_discards_pressure_events_from_the_same_frame() {
    let mut controller = EditorController::new(None);
    let left = controller.capture_stylus_events(vec![
        touch_event(TouchPhase::Start, (20.0, 30.0), 0.45),
        InputEvent::WindowFocused(false),
    ]);

    assert!(controller.stylus.queued.is_empty());
    assert_eq!(left.len(), 1);
    assert!(matches!(left[0], InputEvent::WindowFocused(false)));
}

#[test]
fn positive_move_can_start_stylus_capture_without_drawing_clamped_outside_moves() {
    let id = StylusId { device: 7, touch: 11 };
    let inside = (80.0f32.to_bits(), 40.0f32.to_bits());
    let outside = (130.0f32.to_bits(), 70.0f32.to_bits());
    let mut input = StylusInput::new();
    input.queued = vec![
        StylusEvent { id, phase: TouchPhase::Move, position: inside, pressure: 0.6f32.to_bits() },
        StylusEvent { id, phase: TouchPhase::Move, position: outside, pressure: 0.5f32.to_bits() },
        StylusEvent { id, phase: TouchPhase::End, position: outside, pressure: 0.0f32.to_bits() },
    ];

    let frame = input.take_stylus_frame(&vec![Some(point(80.0, 40.0)), None, None], None);

    assert!(frame.ended);
    assert_eq!(frame.samples.len(), 2);
    assert!(frame.samples[0].point == point(80.0, 40.0));
    assert!(frame.samples[1].point == point(80.0, 40.0));
    assert_eq!(frame.samples[1].pressure, 0.0f32.to_bits());
    assert!(input.active.is_none());
}

#[test]
fn a_second_pen_is_not_heeded() {
    let first = StylusId { device: 7, touch: 11 };
    let second = StylusId { device: 7, touch: 12 };
    let start = |id| StylusEvent {
        id,
        phase: TouchPhase::Start,
        position: (0, 0),
        pressure: 0.5f32.to_bits(),
    };
    let mut input = StylusInput::new();
    input.queued = vec![start(first), start(second)];
    let frame =
        input.take_stylus_frame(&vec![Some(point(1.0, 1.0)), Some(point(2.0, 2.0))], None);
    assert_eq!(frame.samples.len(), 1);
    assert!(frame.samples[0].point == point(1.0, 1.0));
    assert!(input.active == Some(first));
}

#[test]
fn pressures_are_held_between_none_and_full() {
    for (force, pressure) in [(1.5f32, 1.0f32), (-0.5, 0.0), (0.25, 0.25)] {
        let event = stylus_event(&touch_event(TouchPhase::Move, (1.0, 2.0), force)).unwrap();
        assert_eq!(f32::from_bits(event.pressure), pressure);
    }
    let no_number = stylus_event(&touch_event(TouchPhase::Move, (1.0, 2.0), f32::NAN));
    assert!(no_number.is_none() || f32::from_bits(no_number.unwrap().pressure) >= 0.0);
}

#[test]
fn a_point_is_not_drawn_twice() {
    let mut points: Vec<StrokePoint> = Vec::new();
    let at = StrokePoint { point: point(1.0, 2.0), pressure: 0.5f32.to_bits() };
    append_stroke_point(&mut points, at);
    append_stroke_point(&mut points, at);
    append_stroke_point(&mut points, StrokePoint { point: point(1.0, 3.0), ..at });
    assert_eq!(points.len(), 2);
    let zero = StrokePoint { point: point(0.0, 0.0), pressure: 0 };
    let mut at_zero = vec![zero];
    append_stroke_point(&mut at_zero, StrokePoint { point: point(-0.0, 0.0), pressure: 0 });
    assert_eq!(at_zero.len(), 1);
}
