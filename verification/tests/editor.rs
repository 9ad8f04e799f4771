use rs_board::board::{
    default_tool_styles, minimum_resize_moves, hit_test_document, hit_test_document_for_tool, mvp_colors,
    resized_rectangle, single_click_starts_editing, double_click_starts_editing,
    style_for_element, ArrowEndpoint, Board, ColorRgba, Element, ElementLabel, ElementPayload,
    ElementUnder, LabelAnchor, MovedCoordinate, LabelEdge, LabelSide, RectangleHandle, StrokeStyle, StyleChange,
    TextAlign, TextStyle, ToolStyle,
};
use rs_board::canvas::{
    arrow_length_limit, arrow_payload, canvas_primary_pressed, hit_test_element, ElementHits, hit_arrow_handle, hit_rectangle_handle,
    interaction_preview_element, label_draft, layer_command, option_panel_anchor,
    rectangle_label_obstacles, rectangle_payload, sequence_payload, stroke_payload, LayerMove,
    PaintPart, PreviewEdit, SelectionMarks,
};
use rs_board::commands::{
    elements_equivalent_for_preview, Likeness, pending_element_label_text, preview_set_after_batch, rectangle_reflow_batch, DocumentCommand,
    EditorAction, LabelSolution,
};
use rs_board::editor::{
    EditorController, KeyRequest, PointerInteraction, TextCommit, TextEditing, TextTarget,
};
use rs_board::input::{
    map_shortcut, InlineImeState, InputEvent, Key, Modifiers, ShortcutAction, TouchPhase,
};
use rs_board::pointer::{
    PenStage, PointerFrame, Released, ARROW_LABEL_TOO_SHORT_TOAST, DEFAULT_RECTANGLE_LABEL,
};
use rs_board::application::Phase;
use rs_board::release::{
    interaction_preview_set, release_command, text_editing_transform_hit, PreviewChoice,
    PreviewFacts, ReleaseFacts, TextHit,
};
use rs_board::stylus::{Point, StrokePoint, StylusEvent, StylusId};
use rs_board::text_editor::{
    plan_editor_actions, pointer_turn, text_completion, ActionsEnd, TextEditorCompletion,
    ToolbarPlace,
};
use rs_board::tools::EditorTool;

fn bits(value: f32) -> u32 {
    value.to_bits()
}

fn point(x: f32, y: f32) -> Point {
    Point { x: bits(x), y: bits(y) }
}

fn text_style(color_rgba: ColorRgba) -> TextStyle {
    TextStyle { color_rgba, font_size_px: bits(24.0), align: TextAlign::Left }
}

fn stroke_style() -> StrokeStyle {
    StrokeStyle { color_rgba: ColorRgba::Red, width_px: bits(8.0) }
}

fn anchor() -> LabelAnchor {
    LabelAnchor { edge: LabelEdge::Top, side: LabelSide::Outside, position: bits(0.0) }
}

fn text_element(element_id: u128, z_index: i64, text: &str, box_width_px: f32) -> Element {
    Element {
        element_id,
        z_index,
        payload: ElementPayload::Text {
            anchor_px: point(40.0, 40.0),
            text: text.to_owned(),
            box_width_px: bits(box_width_px),
            text_style: text_style(ColorRgba::White),
        },
    }
}

fn rectangle(element_id: u128, z_index: i64) -> Element {
    Element {
        element_id,
        z_index,
        payload: ElementPayload::Rectangle {
            stroke_style: stroke_style(),
            label: ElementLabel {
                text: Some(DEFAULT_RECTANGLE_LABEL.to_owned()),
                text_style: text_style(ColorRgba::White),
            },
            label_anchor: anchor(),
            preferred_label_anchor: anchor(),
        },
    }
}

fn arrow(element_id: u128, z_index: i64, text: Option<&str>, can_host_label: bool) -> Element {
    Element {
        element_id,
        z_index,
        payload: ElementPayload::Arrow {
            stroke_style: stroke_style(),
            label: ElementLabel {
                text: text.map(|text| text.to_owned()),
                text_style: text_style(ColorRgba::White),
            },
            can_host_label,
        },
    }
}

fn stroke(element_id: u128, z_index: i64) -> Element {
    Element {
        element_id,
        z_index,
        payload: ElementPayload::Stroke { stroke_style: stroke_style(), hardness: bits(0.0) },
    }
}

fn sequence_marker(element_id: u128, z_index: i64) -> Element {
    Element {
        element_id,
        z_index,
        payload: ElementPayload::SequenceMarker {
            fill_rgba: ColorRgba::Blue,
            stroke_style: stroke_style(),
            text_style: text_style(ColorRgba::White),
        },
    }
}

fn board(elements: Vec<Element>) -> Board {
    Board { elements }
}

fn missed() -> ElementUnder {
    ElementUnder {
        hit: false,
        label: false,
        grab_offset_px: point(0.0, 0.0),
        handle: None,
        endpoint: None,
        body: (point(0.0, 0.0), point(0.0, 0.0)),
    }
}

fn hit() -> ElementUnder {
    ElementUnder { hit: true, ..missed() }
}

fn editing(target: TextTarget, buffer: &str) -> TextEditing {
    TextEditing {
        target,
        buffer: buffer.to_owned(),
        text_style: text_style(ColorRgba::White),
        ime: InlineImeState { preedit: None, confirming_preedit_with_enter: false },
        request_focus: false,
        select_all: false,
        auto_place_rectangle: false,
    }
}

fn no_change() -> StyleChange {
    StyleChange { color_rgba: None, width_px: None, font_size_px: None, hardness: None }
}

fn color_change(color_rgba: ColorRgba) -> StyleChange {
    StyleChange { color_rgba: Some(color_rgba), ..no_change() }
}

fn frame(elements: usize) -> PointerFrame {
    PointerFrame {
        position: None,
        press_origin: None,
        double_clicked: false,
        clicked: false,
        drag_started: false,
        dragged: false,
        drag_stopped: false,
        under: vec![missed(); elements],
        under_start: vec![missed(); elements],
        new_element_id: 900,
        new_text_style: text_style(ColorRgba::Red),
        dragged_anchor: point(0.0, 0.0),
    }
}

fn no_pen() -> PenStage {
    PenStage {
        drawing: false,
        no_samples: true,
        ended: false,
        cancelled: false,
        taper_due: false,
    }
}

fn facts() -> ReleaseFacts {
    ReleaseFacts {
        delta_px: point(0.0, 0.0),
        moved: false,
        corners: None,
        endpoint_px: point(0.0, 0.0),
        constrained_for_label: false,
        anchor: None,
    }
}

#[test]
fn brush_hardness_selection_is_used_for_new_strokes_and_selected_strokes() {
    let mut controller = EditorController::new(None);
    assert!(!controller.shows_brush_hardness(&board(Vec::new())));
    controller.set_active_tool(EditorTool::Stroke);
    assert!(controller.shows_brush_hardness(&board(Vec::new())));
    let asked = controller.apply_style_change(
        &board(Vec::new()),
        StyleChange { hardness: Some(bits(0.5)), ..no_change() },
        ColorRgba::White,
        true,
        &Vec::new(),
    );
    assert!(asked.color.is_none() && !asked.toast && asked.command.is_none());
    match stroke_payload(controller.tool_style(EditorTool::Stroke)) {
        ElementPayload::Stroke { hardness, .. } => assert_eq!(hardness, bits(0.5)),
        _ => unreachable!(),
    }

    let mut drawn = stroke(3, 0);
    drawn.payload =
        ElementPayload::Stroke { stroke_style: stroke_style(), hardness: bits(0.5) };
    let document = board(vec![drawn]);
    controller.set_selected_element_id(Some(3));
    let asked = controller.apply_style_change(
        &document,
        StyleChange { hardness: Some(bits(0.0)), ..no_change() },
        ColorRgba::White,
        true,
        &Vec::new(),
    );
    match asked.command {
        Some(DocumentCommand::ChangeElementStyle { element_id, change }) => {
            assert_eq!(element_id, 3);
            assert_eq!(change.hardness, Some(bits(0.0)));
        },
        _ => panic!("expected a style command"),
    }
}

#[test]
fn default_tool_styles_match_the_settings_plan() {
    let controller = EditorController::new(None);

    assert_eq!(
        controller.tool_style(EditorTool::Rectangle),
        ToolStyle::new(ColorRgba::Red, bits(8.0), bits(36.0), bits(1.0))
    );
    assert_eq!(
        controller.tool_style(EditorTool::Arrow),
        ToolStyle::new(ColorRgba::Red, bits(8.0), bits(24.0), bits(1.0))
    );
    assert_eq!(
        controller.tool_style(EditorTool::Text),
        ToolStyle::new(ColorRgba::Red, bits(8.0), bits(36.0), bits(1.0))
    );
    assert_eq!(
        controller.tool_style(EditorTool::Stroke),
        ToolStyle::new(ColorRgba::Red, bits(8.0), bits(24.0), bits(0.0))
    );
    assert_eq!(
        controller.tool_style(EditorTool::Sequence),
        ToolStyle::new(ColorRgba::Red, bits(8.0), bits(24.0), bits(1.0))
    );
}

#[test]
fn injected_tool_styles_are_used_for_new_elements() {
    let mut styles = default_tool_styles();
    styles[EditorTool::Rectangle.index()] =
        ToolStyle::new(ColorRgba::Blue, bits(12.0), bits(48.0), bits(1.0));
    styles[EditorTool::Stroke.index()] =
        ToolStyle::new(ColorRgba::Green, bits(4.0), bits(24.0), bits(0.5));
    let controller =
        EditorController::with_styles(Some(EditorTool::Rectangle), styles, ColorRgba::Yellow);

    match rectangle_payload(
        controller.tool_style(EditorTool::Rectangle),
        ColorRgba::Black,
        TextAlign::Left,
    ) {
        ElementPayload::Rectangle { stroke_style, label, .. } => {
            assert_eq!(stroke_style.color_rgba, ColorRgba::Yellow);
            assert_eq!(stroke_style.width_px, bits(12.0));
            assert_eq!(label.text_style.font_size_px, bits(48.0));
            assert_eq!(label.text_style.color_rgba, ColorRgba::Black);
            assert_eq!(label.text.as_deref(), Some(DEFAULT_RECTANGLE_LABEL));
        },
        _ => unreachable!(),
    }
    match arrow_payload(
        controller.tool_style(EditorTool::Arrow),
        ColorRgba::Black,
        TextAlign::Left,
        true,
    ) {
        ElementPayload::Arrow { stroke_style, label, .. } => {
            assert_eq!(stroke_style.color_rgba, ColorRgba::Yellow);
            assert!(label.text.is_none());
        },
        _ => unreachable!(),
    }
    match stroke_payload(controller.tool_style(EditorTool::Stroke)) {
        ElementPayload::Stroke { stroke_style, hardness } => {
            assert_eq!(stroke_style.color_rgba, ColorRgba::Yellow);
            assert_eq!(stroke_style.width_px, bits(4.0));
            assert_eq!(hardness, bits(0.5));
        },
        _ => unreachable!(),
    }
    for tool in [
        EditorTool::Rectangle,
        EditorTool::Arrow,
        EditorTool::Text,
        EditorTool::Stroke,
        EditorTool::Sequence,
    ] {
        assert_eq!(controller.tool_style(tool).color_rgba, ColorRgba::Yellow);
    }
    match sequence_payload(
        controller.tool_style(EditorTool::Sequence),
        ColorRgba::Black,
        TextAlign::Center,
    ) {
        ElementPayload::SequenceMarker { fill_rgba, .. } => {
            assert_eq!(fill_rgba, ColorRgba::Yellow);
        },
        _ => unreachable!(),
    }
}

#[test]
fn active_tool_color_selection_updates_global_color_and_emits_persistence_action() {
    let document = board(Vec::new());
    let mut controller = EditorController::new(Some(EditorTool::Rectangle));

    let asked = controller.apply_style_change(
        &document,
        color_change(ColorRgba::Blue),
        ColorRgba::White,
        true,
        &Vec::new(),
    );

    assert_eq!(asked.color, Some(ColorRgba::Blue));
    assert!(!asked.toast && asked.command.is_none());
    assert_eq!(controller.global_color(), ColorRgba::Blue);
    assert_eq!(controller.tool_style(EditorTool::Rectangle).color_rgba, ColorRgba::Blue);
    assert_eq!(controller.tool_style(EditorTool::Stroke).color_rgba, ColorRgba::Blue);
}

#[test]
fn selected_element_color_selection_changes_element_and_global_color() {
    let document = board(vec![text_element(5, 0, "text", 120.0)]);
    let mut controller = EditorController::new(Some(EditorTool::Select));
    controller.selected_element_id = Some(5);

    let asked = controller.apply_style_change(
        &document,
        color_change(ColorRgba::Green),
        ColorRgba::White,
        true,
        &Vec::new(),
    );

    assert_eq!(asked.color, Some(ColorRgba::Green));
    match asked.command {
        Some(DocumentCommand::ChangeElementStyle { element_id, change }) => {
            assert_eq!(element_id, 5);
            assert_eq!(change.color_rgba, Some(ColorRgba::Green));
        },
        _ => panic!("expected a style command"),
    }
    assert_eq!(controller.global_color(), ColorRgba::Green);
    assert_eq!(controller.tool_style(EditorTool::Text).color_rgba, ColorRgba::Green);
}

#[test]
fn selecting_the_elements_existing_color_only_updates_global_color() {
    let document = board(vec![text_element(5, 0, "text", 120.0)]);
    let mut controller = EditorController::new(Some(EditorTool::Select));
    controller.selected_element_id = Some(5);

    let asked = controller.apply_style_change(
        &document,
        color_change(ColorRgba::White),
        ColorRgba::Black,
        true,
        &Vec::new(),
    );

    assert_eq!(asked.color, Some(ColorRgba::White));
    assert!(asked.command.is_none() && !asked.toast);
    assert_eq!(controller.global_color(), ColorRgba::White);
}

#[test]
fn select_tool_without_an_element_can_update_global_color() {
    let document = board(Vec::new());
    let mut controller = EditorController::new(Some(EditorTool::Select));

    let asked = controller.apply_style_change(
        &document,
        color_change(ColorRgba::Blue),
        ColorRgba::White,
        true,
        &Vec::new(),
    );

    assert_eq!(asked.color, Some(ColorRgba::Blue));
    assert!(asked.command.is_none() && !asked.toast);
    controller.set_active_tool(EditorTool::Arrow);
    assert_eq!(controller.tool_style(EditorTool::Arrow).color_rgba, ColorRgba::Blue);
}

#[test]
fn selecting_the_current_global_color_still_emits_a_persistence_action() {
    let document = board(Vec::new());
    let mut controller = EditorController::new(Some(EditorTool::Rectangle));

    let asked = controller.apply_style_change(
        &document,
        color_change(ColorRgba::Red),
        ColorRgba::White,
        true,
        &Vec::new(),
    );

    assert_eq!(asked.color, Some(ColorRgba::Red));
    assert!(asked.command.is_none() && !asked.toast);
    assert_eq!(controller.global_color(), ColorRgba::Red);
}

#[test]
fn selected_element_color_is_only_a_temporary_display_override() {
    let document = board(vec![text_element(5, 0, "text", 120.0)]);
    let mut controller = EditorController::with_styles(
        Some(EditorTool::Text),
        default_tool_styles(),
        ColorRgba::Green,
    );

    controller.set_selected_element_id(Some(5));
    assert_eq!(controller.displayed_style(&document).color_rgba, ColorRgba::White);
    assert_eq!(controller.global_color(), ColorRgba::Green);

    controller.set_selected_element_id(None);
    assert_eq!(controller.displayed_style(&document).color_rgba, ColorRgba::Green);
    assert_eq!(controller.global_color(), ColorRgba::Green);
}

#[test]
fn committing_existing_text_after_color_change_keeps_the_new_color() {
    let document = board(vec![text_element(5, 0, "old", 120.0)]);
    let mut controller = EditorController::new(Some(EditorTool::Select));
    controller.set_selected_element_id(Some(5));
    assert!(!controller.start_editing_existing(&document, 5, false));
    controller.text_editing.as_mut().unwrap().buffer = "new".to_owned();

    let asked = controller.apply_style_change(
        &document,
        color_change(ColorRgba::Blue),
        ColorRgba::White,
        true,
        &Vec::new(),
    );
    let commit = controller.commit_text(&document, bits(360.0));

    assert_eq!(asked.color, Some(ColorRgba::Blue));
    match commit {
        TextCommit::Single(DocumentCommand::UpdateText { element_id, text, text_style, .. }) => {
            assert_eq!(element_id, 5);
            assert_eq!(text, "new");
            assert_eq!(text_style.color_rgba, ColorRgba::Blue);
        },
        _ => panic!("expected a text update"),
    }
    assert_eq!(controller.global_color(), ColorRgba::Blue);
}

#[test]
fn stroke_release_preserves_the_preview_points() {
    let points: Vec<StrokePoint> = [(40.0, 40.0), (40.2, 40.1), (52.0, 47.0), (61.0, 43.0)]
        .iter()
        .map(|at| StrokePoint { point: point(at.0, at.1), pressure: bits(1.0) })
        .collect();
    let mut controller = EditorController::new(Some(EditorTool::Stroke));
    controller.interaction = Some(PointerInteraction::Draw {
        element_id: 1,
        tool: EditorTool::Stroke,
        start: points[0].point,
        current: points[3].point,
        stroke_points: points.clone(),
    });
    match controller.finish_pointer_interaction() {
        Released::NewStroke { points: released } => {
            assert_eq!(released.len(), 4);
            assert!(released.iter().zip(&points).all(|(left, right)| left == right));
        },
        _ => panic!("expected a stroke"),
    }
    assert!(controller.interaction.is_none());
}

#[test]
fn clicking_with_the_stroke_tool_adds_a_dot() {
    let mut controller = EditorController::new(None);
    controller.set_active_tool(EditorTool::Stroke);
    let document = board(Vec::new());
    let pressed = controller.handle_pointer(
        &document,
        &PointerFrame { position: Some(point(100.0, 100.0)), ..frame(0) },
        no_pen(),
        false,
    );
    assert!(pressed.dot.is_none());
    let clicked = controller.handle_pointer(
        &document,
        &PointerFrame { position: Some(point(100.0, 100.0)), clicked: true, ..frame(0) },
        no_pen(),
        false,
    );
    let dot = clicked.dot.unwrap();
    assert!(dot.point == point(100.0, 100.0));
    assert_eq!(dot.pressure, bits(1.0));
}

#[test]
fn stylus_drag_without_a_new_sample_preserves_the_last_pressure() {
    let document = board(Vec::new());
    let mut controller = EditorController::new(None);
    controller.set_active_tool(EditorTool::Stroke);
    let touch = |phase, x: f32| InputEvent::Touch {
        device: 7,
        touch: 11,
        phase,
        position: (bits(x), bits(100.0)),
        force: Some(bits(0.4)),
    };
    let mut run = |controller: &mut EditorController,
                   events: Vec<InputEvent>,
                   frame: PointerFrame| {
        controller.capture_stylus_events(events);
        let points: Vec<Option<Point>> = controller
            .stylus
            .queued
            .iter()
            .map(|event| Some(Point { x: event.position.0, y: event.position.1 }))
            .collect();
        let stage = controller.take_pen(&points);
        assert!(!stage.taper_due);
        controller.handle_pointer(&document, &frame, stage, false)
    };
    run(
        &mut controller,
        vec![touch(TouchPhase::Start, 100.0)],
        PointerFrame { position: Some(point(100.0, 100.0)), ..frame(0) },
    );
    run(
        &mut controller,
        vec![touch(TouchPhase::Move, 150.0)],
        PointerFrame {
            position: Some(point(150.0, 100.0)),
            press_origin: Some(point(100.0, 100.0)),
            drag_started: true,
            dragged: true,
            ..frame(0)
        },
    );
    let point_count = match &controller.interaction {
        Some(PointerInteraction::Draw { tool: EditorTool::Stroke, stroke_points, .. }) => {
            assert_eq!(stroke_points.last().unwrap().pressure, bits(0.4));
            stroke_points.len()
        },
        _ => panic!("expected an active pressure stroke"),
    };

    run(
        &mut controller,
        Vec::new(),
        PointerFrame {
            position: Some(point(150.0, 100.0)),
            press_origin: Some(point(100.0, 100.0)),
            dragged: true,
            ..frame(0)
        },
    );
    match &controller.interaction {
        Some(PointerInteraction::Draw { tool: EditorTool::Stroke, stroke_points, .. }) => {
            assert_eq!(stroke_points.len(), point_count);
            assert_eq!(stroke_points.last().unwrap().pressure, bits(0.4));
        },
        _ => panic!("expected the pressure stroke to remain active"),
    }
}

#[test]
fn moving_an_element_of_each_kind_paints_its_preview_instead() {
    for element in [
        stroke(1, 0),
        arrow(1, 0, None, true),
        rectangle(1, 0),
        text_element(1, 0, "move", 120.0),
        sequence_marker(1, 0),
    ] {
        let document = board(vec![element]);
        let previews = board(vec![stroke(1, 0)]);
        let interaction = PointerInteraction::Move {
            element_id: 1,
            start: point(100.0, 100.0),
            current: point(120.0, 110.0),
        };
        assert!(matches!(
            interaction_preview_element(&interaction, &document),
            Some(PreviewEdit::Move { element_id: 1, .. })
        ));
        let mut controller = EditorController::new(None);
        controller.interaction = Some(interaction);
        let items = controller.paint_document_for_editing(&document, &previews);
        assert_eq!(items.len(), 1);
        assert!(items[0].from_preview);
        assert!(items[0].part == PaintPart::Whole);
    }
}

#[test]
fn a_drag_that_ends_asks_for_its_command() {
    let document = board(vec![rectangle(1, 0), arrow(2, 1, Some("标签"), true)]);
    let moved = Released::Move {
        element_id: 1,
        start: point(100.0, 100.0),
        current: point(132.0, 118.0),
    };
    let result = release_command(
        &moved,
        &document,
        ReleaseFacts { delta_px: point(32.0, 18.0), moved: true, ..facts() },
    );
    assert!(matches!(
        result.command,
        Some(DocumentCommand::MoveElement { element_id: 1, delta_px })
            if delta_px == point(32.0, 18.0)
    ));
    assert!(!result.needs_reflow && !result.toast);

    let endpoint = Released::Endpoint {
        element_id: 2,
        endpoint: ArrowEndpoint::End,
        current: point(50.0, 100.0),
    };
    let result = release_command(
        &endpoint,
        &document,
        ReleaseFacts {
            endpoint_px: point(130.0, 100.0),
            moved: true,
            constrained_for_label: true,
            ..facts()
        },
    );
    assert!(matches!(
        result.command,
        Some(DocumentCommand::UpdateArrowEndpoint {
            element_id: 2,
            endpoint: ArrowEndpoint::End,
            position_px,
        }) if position_px == point(130.0, 100.0)
    ));
    assert!(result.toast);

    let still = Released::Move { element_id: 1, start: point(1.0, 1.0), current: point(1.0, 1.0) };
    assert!(release_command(&still, &document, facts()).command.is_none());
}

#[test]
fn other_elements_keep_the_selection_outline() {
    for element in [stroke(1, 0), text_element(1, 0, "Text", 120.0), sequence_marker(1, 2)] {
        let document = board(vec![element]);
        let mut controller = EditorController::new(None);
        controller.selected_element_id = Some(1);
        let marks = controller.paint_selection(&document, &board(Vec::new()));
        assert!(marks == SelectionMarks::Outline);
    }
}

#[test]
fn shapes_are_marked_by_their_handles() {
    let document = board(vec![rectangle(1, 0), arrow(2, 1, None, true)]);
    let none = board(Vec::new());
    let mut controller = EditorController::new(None);
    assert!(controller.paint_selection(&document, &none) == SelectionMarks::Nothing);
    controller.selected_element_id = Some(1);
    assert!(controller.paint_selection(&document, &none) == SelectionMarks::Handles);
    controller.selected_element_id = Some(2);
    assert!(controller.paint_selection(&document, &none) == SelectionMarks::Ends);
}

#[test]
fn toolbar_recenters_after_a_resize_until_it_was_dragged() {
    let screen = |width: f32, height: f32| (bits(0.0), bits(0.0), bits(width), bits(height));
    let mut place = ToolbarPlace { screen: None, was_moved: false };
    assert!(place.should_recenter_toolbar(screen(800.0, 300.0)));
    assert!(!place.should_recenter_toolbar(screen(800.0, 300.0)));
    assert!(place.should_recenter_toolbar(screen(1200.0, 700.0)));
    place.shown(true);
    assert!(!place.should_recenter_toolbar(screen(1400.0, 800.0)));
}

#[test]
fn hit_test_uses_highest_z_order() {
    let document = board(vec![rectangle(1, 0), rectangle(2, 1)]);
    assert_eq!(hit_test_document(&document, &vec![hit(), hit()]), Some(2));
    let reordered = board(vec![rectangle(2, 1), rectangle(1, 0)]);
    assert_eq!(hit_test_document(&reordered, &vec![hit(), hit()]), Some(2));
}

#[test]
fn dictation_same_frame_enter_applies_text_before_submit() {
    let document = board(Vec::new());
    let mut controller = EditorController::new(None);
    controller.text_editing =
        Some(editing(TextTarget::NewText { anchor_px: point(120.0, 40.0) }, ""));
    let enter = InputEvent::Key {
        key: Key::Enter,
        physical_key: Some(Key::Enter),
        pressed: true,
        repeat: false,
        modifiers: Modifiers::none(),
    };
    let (seen, submit) =
        controller.text_events(vec![InputEvent::Commit("dictated".to_owned()), enter]);
    for event in seen {
        if let InputEvent::Commit(text) = event {
            controller.text_editing.as_mut().unwrap().buffer.push_str(&text);
        }
    }
    let how = text_completion(submit, false, false, false);
    let (_, commit) = controller.complete_text(how, false, false, &document, bits(280.0));

    assert!(controller.text_editing.is_none());
    match commit {
        TextCommit::AddText { text, .. } => assert_eq!(text, "dictated"),
        _ => panic!("expected one text add"),
    }
}

#[test]
fn rectangle_ime_confirmation_keeps_editing_then_second_enter_submits() {
    let document = board(vec![rectangle(1, 0)]);
    let mut controller = EditorController::new(None);
    controller.selected_element_id = Some(1);
    controller.text_editing = Some(editing(TextTarget::RectangleLabel { element_id: 1 }, ""));
    let enter = || InputEvent::Key {
        key: Key::Enter,
        physical_key: Some(Key::Enter),
        pressed: true,
        repeat: false,
        modifiers: Modifiers::none(),
    };
    let run = |controller: &mut EditorController, events: Vec<InputEvent>| {
        let (seen, submit) = controller.text_events(events);
        for event in seen {
            if let InputEvent::Commit(text) = event {
                controller.text_editing.as_mut().unwrap().buffer.push_str(&text);
            }
        }
        let how = text_completion(submit, false, false, false);
        controller.complete_text(how, false, false, &document, bits(0.0)).1
    };
    let composed =
        run(&mut controller, vec![InputEvent::Preedit { text: "O".to_owned(), tag: 1 }]);
    assert!(matches!(composed, TextCommit::Nothing));
    let confirmed =
        run(&mut controller, vec![enter(), InputEvent::Commit("OK\n".to_owned())]);
    assert!(matches!(confirmed, TextCommit::Nothing));
    assert_eq!(controller.text_editing.as_ref().map(|text| text.buffer.as_str()), Some("OK"));

    let commit = run(&mut controller, vec![enter()]);
    assert!(controller.text_editing.is_none());
    match commit {
        TextCommit::Reflowed {
            command: DocumentCommand::UpdateElementLabel { element_id: 1, text: Some(text) },
            ..
        } => assert_eq!(text, "OK"),
        _ => panic!("expected one rectangle label update"),
    }
}

#[test]
fn existing_text_commit_updates_width() {
    let document = board(vec![text_element(5, 0, "legacy", 80.0)]);
    let mut controller = EditorController::new(None);
    controller.text_editing =
        Some(editing(TextTarget::ExistingText { element_id: 5 }, "updated\ntext"));
    match controller.commit_text(&document, bits(300.0)) {
        TextCommit::Single(DocumentCommand::UpdateText { text, box_width_px, .. }) => {
            assert_eq!(text, "updated\ntext");
            assert_eq!(box_width_px, bits(300.0));
        },
        _ => panic!("expected one text update"),
    }
}

#[test]
fn new_text_commit_persists_width_to_the_canvas_edge() {
    let mut controller = EditorController::new(None);
    controller.text_editing =
        Some(editing(TextTarget::NewText { anchor_px: point(120.0, 40.0) }, "new text"));
    match controller.commit_text(&board(Vec::new()), bits(280.0)) {
        TextCommit::AddText { box_width_px, .. } => assert_eq!(box_width_px, bits(280.0)),
        _ => panic!("expected one added text element"),
    }
}

#[test]
fn existing_text_commit_updates_legacy_width_when_content_is_unchanged() {
    let document = board(vec![text_element(5, 0, "same", 40.0)]);
    let mut controller = EditorController::new(None);
    controller.text_editing = Some(editing(TextTarget::ExistingText { element_id: 5 }, "same"));
    match controller.commit_text(&document, bits(280.0)) {
        TextCommit::Single(DocumentCommand::UpdateText {
            element_id,
            text,
            box_width_px,
            ..
        }) => {
            assert_eq!(element_id, 5);
            assert_eq!(text, "same");
            assert_eq!(box_width_px, bits(280.0));
        },
        _ => panic!("expected a width-only text update"),
    }
}

#[test]
fn active_text_edit_hides_the_element_selection_chrome() {
    let document = board(vec![rectangle(1, 0)]);
    let mut controller = EditorController::new(None);
    controller.selected_element_id = Some(1);
    controller.text_editing =
        Some(editing(TextTarget::RectangleLabel { element_id: 1 }, DEFAULT_RECTANGLE_LABEL));
    let marks = controller.paint_selection(&document, &board(Vec::new()));
    assert!(marks != SelectionMarks::Outline);
}

#[test]
fn long_new_arrow_enters_empty_label_editing_and_blank_submit_keeps_only_the_arrow() {
    let mut controller = EditorController::new(None);
    controller.interaction = Some(PointerInteraction::Draw {
        element_id: 8,
        tool: EditorTool::Arrow,
        start: point(40.0, 100.0),
        current: point(360.0, 100.0),
        stroke_points: Vec::new(),
    });

    match controller.finish_pointer_interaction() {
        Released::NewArrow { start, end } => {
            assert!(start == point(40.0, 100.0));
            assert!(end == point(360.0, 100.0));
        },
        _ => panic!("expected one arrow add"),
    }
    assert!(!controller.arrow_drawn(8, text_style(ColorRgba::White), true));
    assert!(matches!(
        controller.text_editing.as_ref(),
        Some(TextEditing { target: TextTarget::ArrowLabel { element_id: 8 }, buffer, .. })
            if buffer.is_empty()
    ));

    let document = board(vec![arrow(8, 0, None, true)]);
    assert!(matches!(controller.commit_text(&document, bits(0.0)), TextCommit::Nothing));
}

#[test]
fn pending_arrow_label_commit_is_asked_for_before_quitting() {
    let document = board(vec![arrow(1, 0, Some("原内容"), true)]);
    let mut controller = EditorController::new(Some(EditorTool::Select));
    assert!(!controller.start_editing_existing(&document, 1, false));
    controller.text_editing.as_mut().unwrap().buffer = "退出前提交".to_owned();

    match controller.commit_text(&document, bits(0.0)) {
        TextCommit::Single(DocumentCommand::UpdateElementLabel { element_id: 1, text }) => {
            assert_eq!(text.as_deref(), Some("退出前提交"));
        },
        _ => panic!("expected one pending label update"),
    }
    assert!(controller.text_editing.is_none());
}

#[test]
fn arrow_label_click_edit_clear_and_escape_preserve_the_expected_content() {
    let document = board(vec![arrow(1, 0, Some("原内容"), true)]);
    let on_label = vec![ElementUnder { label: true, ..hit() }];
    assert!(single_click_starts_editing(&document, 1, &on_label));

    let mut controller = EditorController::new(Some(EditorTool::Select));
    controller.handle_pointer(
        &document,
        &PointerFrame {
            position: Some(point(200.0, 100.0)),
            clicked: true,
            under: on_label.clone(),
            under_start: on_label,
            ..frame(1)
        },
        no_pen(),
        false,
    );
    assert!(matches!(
        controller.text_editing.as_ref().map(|text| text.target),
        Some(TextTarget::ArrowLabel { element_id: 1 })
    ));
    controller.text_editing.as_mut().unwrap().buffer = "临时修改".to_owned();
    let mut events = vec![InputEvent::Key {
        key: Key::Escape,
        physical_key: Some(Key::Escape),
        pressed: true,
        repeat: false,
        modifiers: Modifiers::none(),
    }];
    controller.cancel_text_on_escape(&mut events);
    assert!(events.is_empty());
    assert!(controller.text_editing.is_none());

    assert!(!controller.start_editing_existing(&document, 1, false));
    controller.text_editing.as_mut().unwrap().buffer = " \n\t ".to_owned();
    assert!(matches!(
        controller.commit_text(&document, bits(0.0)),
        TextCommit::Single(DocumentCommand::UpdateElementLabel { element_id: 1, text: None })
    ));
}

#[test]
fn short_hidden_arrow_double_click_request_emits_one_toast() {
    let document = board(vec![arrow(1, 0, None, false)]);
    let mut controller = EditorController::new(Some(EditorTool::Select));

    assert!(controller.start_editing_existing(&document, 1, true));

    assert_eq!(ARROW_LABEL_TOO_SHORT_TOAST, "箭头过短无法插入文字");
    assert!(controller.text_editing.is_none());
}

#[test]
fn an_arrow_whose_label_would_not_fit_keeps_its_look() {
    let document = board(vec![arrow(1, 0, Some("标签"), true)]);
    let mut controller = EditorController::new(None);
    controller.selected_element_id = Some(1);
    for change in [
        StyleChange { font_size_px: Some(bits(64.0)), ..no_change() },
        StyleChange { width_px: Some(bits(12.0)), ..no_change() },
    ] {
        let asked = controller.apply_style_change(
            &document,
            change,
            ColorRgba::White,
            false,
            &Vec::new(),
        );
        assert!(asked.toast);
        assert!(asked.command.is_none() && asked.color.is_none());
    }
}

#[test]
fn arrow_style_preflight_uses_a_label_commit_queued_in_the_same_frame() {
    let document = board(vec![arrow(1, 0, None, true)]);
    let mut controller = EditorController::new(None);
    controller.selected_element_id = Some(1);

    assert!(!controller.start_editing_existing(&document, 1, true));
    controller.text_editing.as_mut().unwrap().buffer = "新标签".to_owned();
    let queued = match controller.commit_text(&document, bits(0.0)) {
        TextCommit::Single(command) => vec![EditorAction::Command(vec![command])],
        _ => panic!("expected a label update"),
    };
    assert_eq!(pending_element_label_text(&queued, 1), Some(Some("新标签".to_owned())));
    let asked = controller.apply_style_change(
        &document,
        StyleChange { font_size_px: Some(bits(64.0)), ..no_change() },
        ColorRgba::White,
        false,
        &queued,
    );
    assert!(asked.toast && asked.command.is_none());

    let document = board(vec![arrow(1, 0, Some("新标签"), true)]);
    assert!(!controller.start_editing_existing(&document, 1, false));
    controller.text_editing.as_mut().unwrap().buffer = " \n\t ".to_owned();
    let queued = match controller.commit_text(&document, bits(0.0)) {
        TextCommit::Single(command) => vec![EditorAction::Command(vec![command])],
        _ => panic!("expected a label clear"),
    };
    assert_eq!(pending_element_label_text(&queued, 1), Some(None));
    let asked = controller.apply_style_change(
        &document,
        StyleChange { font_size_px: Some(bits(64.0)), ..no_change() },
        ColorRgba::White,
        false,
        &queued,
    );
    assert!(!asked.toast);
    assert!(matches!(
        asked.command,
        Some(DocumentCommand::ChangeElementStyle { element_id: 1, change })
            if change.font_size_px == Some(bits(64.0))
    ));
}

#[test]
fn only_other_rectangles_stand_in_the_way_of_a_label() {
    let body = |x: f32| (point(x, 80.0), point(x + 10.0, 160.0));
    let document =
        board(vec![rectangle(1, 0), arrow(2, 1, None, true), text_element(3, 2, "不参与碰撞", 160.0)]);
    let bodies = vec![body(1.0), body(2.0), body(3.0)];
    let labels = vec![Some(body(4.0)), Some(body(5.0)), None];
    assert!(rectangle_label_obstacles(&document, &bodies, &labels, Some(1)).is_empty());
    let all = rectangle_label_obstacles(&document, &bodies, &labels, None);
    assert!(!all.is_empty());
    assert!(all.iter().all(|found| *found == body(1.0) || *found == body(4.0)));
}

#[test]
fn tool_filtered_hit_testing_penetrates_other_types_and_keeps_matching_z_order() {
    let document = board(vec![
        rectangle(1, 0),
        rectangle(2, 1),
        arrow(3, 2, None, true),
        text_element(4, 3, "X", 80.0),
        sequence_marker(5, 4),
        stroke(6, 5),
    ]);
    let under = vec![hit(); 6];
    for (tool, expected) in [
        (EditorTool::Rectangle, Some(2)),
        (EditorTool::Arrow, Some(3)),
        (EditorTool::Text, Some(4)),
        (EditorTool::Sequence, Some(5)),
        (EditorTool::Select, Some(6)),
        (EditorTool::Stroke, None),
    ] {
        assert_eq!(hit_test_document_for_tool(&document, &under, tool), expected);
    }
}

#[test]
fn matching_tools_reuse_move_label_and_shape_handle_interactions() {
    let document = board(vec![
        rectangle(1, 0),
        arrow(2, 1, None, true),
        text_element(3, 2, "move", 120.0),
        sequence_marker(4, 3),
    ]);
    let at = |index: usize, under: ElementUnder| {
        let mut given = frame(4);
        given.under_start[index] = under;
        given
    };
    let body = (point(80.0, 80.0), point(180.0, 155.0));

    let mut rectangles = EditorController::new(Some(EditorTool::Rectangle));
    rectangles.selected_element_id = Some(1);
    let corner =
        at(0, ElementUnder { handle: Some(RectangleHandle::BottomRight), body, ..hit() });
    assert!(rectangles.begin_selection_drag(&document, &corner, point(180.0, 155.0)));
    assert!(matches!(
        rectangles.interaction,
        Some(PointerInteraction::ResizeRectangle {
            element_id: 1,
            handle: RectangleHandle::BottomRight,
            ..
        })
    ));
    rectangles.interaction = None;
    assert!(rectangles.begin_selection_drag(&document, &at(0, hit()), point(130.0, 125.0)));
    assert!(matches!(
        rectangles.interaction,
        Some(PointerInteraction::Move { element_id: 1, .. })
    ));
    rectangles.interaction = None;
    let label = at(0, ElementUnder { label: true, ..hit() });
    assert!(rectangles.begin_selection_drag(&document, &label, point(110.0, 70.0)));
    assert!(matches!(
        rectangles.interaction,
        Some(PointerInteraction::DragRectangleLabel { element_id: 1, .. })
    ));

    let mut arrows = EditorController::new(Some(EditorTool::Arrow));
    arrows.selected_element_id = Some(2);
    let end = at(1, ElementUnder { endpoint: Some(ArrowEndpoint::End), ..hit() });
    assert!(arrows.begin_selection_drag(&document, &end, point(360.0, 80.0)));
    assert!(matches!(
        arrows.interaction,
        Some(PointerInteraction::UpdateArrowEndpoint {
            element_id: 2,
            endpoint: ArrowEndpoint::End,
            ..
        })
    ));
    arrows.interaction = None;
    assert!(arrows.begin_selection_drag(&document, &at(1, hit()), point(285.0, 80.0)));
    assert!(matches!(arrows.interaction, Some(PointerInteraction::Move { element_id: 2, .. })));

    for (tool, index, element_id) in [(EditorTool::Text, 2, 3u128), (EditorTool::Sequence, 3, 4)] {
        let mut controller = EditorController::new(Some(tool));
        assert!(controller.begin_selection_drag(&document, &at(index, hit()), point(1.0, 1.0)));
        match controller.interaction {
            Some(PointerInteraction::Move { element_id: moved, .. }) => {
                assert_eq!(moved, element_id);
            },
            _ => panic!("expected a move"),
        }
        assert_eq!(controller.selected_element_id, Some(element_id));
    }
}

#[test]
fn switch_tool_is_idempotent_and_real_switch_commits_then_clears_state() {
    let document = board(vec![text_element(5, 0, "before", 120.0)]);
    let stylus_id = StylusId { device: 7, touch: 11 };
    let mut controller = EditorController::new(None);
    controller.tool = EditorTool::Text;
    controller.selected_element_id = Some(5);
    controller.interaction = Some(PointerInteraction::Move {
        element_id: 5,
        start: point(90.0, 70.0),
        current: point(100.0, 80.0),
    });
    controller.released_preview = vec![5];
    controller.text_editing = Some(editing(TextTarget::ExistingText { element_id: 5 }, "after"));
    controller.stylus.queued = vec![StylusEvent {
        id: stylus_id,
        phase: TouchPhase::Start,
        position: (bits(100.0), bits(100.0)),
        pressure: bits(0.5),
    }];
    controller.stylus.active = Some(stylus_id);
    controller.stylus.pending =
        vec![StrokePoint { point: point(50.0, 50.0), pressure: bits(1.0) }];

    let commit = controller.switch_tool(EditorTool::Text, &document, bits(360.0));

    assert!(matches!(commit, TextCommit::Nothing));
    assert_eq!(controller.selected_element_id, Some(5));
    assert!(controller.interaction.is_some());
    assert!(!controller.released_preview.is_empty());
    assert_eq!(controller.text_editing.as_ref().map(|text| text.buffer.as_str()), Some("after"));
    assert!(controller.stylus.active == Some(stylus_id));
    assert_eq!(controller.stylus.queued.len(), 1);
    assert_eq!(controller.stylus.pending.len(), 1);

    let commit = controller.switch_tool(EditorTool::Arrow, &document, bits(360.0));

    match commit {
        TextCommit::Single(DocumentCommand::UpdateText { element_id, text, .. }) => {
            assert_eq!(element_id, 5);
            assert_eq!(text, "after");
        },
        _ => panic!("expected the text commit before switching"),
    }
    assert_eq!(controller.tool, EditorTool::Arrow);
    assert!(controller.selected_element_id.is_none());
    assert!(controller.interaction.is_none());
    assert!(controller.released_preview.is_empty());
    assert!(controller.text_editing.is_none());
    assert!(controller.stylus.active.is_none());
    assert!(controller.stylus.queued.is_empty());
    assert!(controller.stylus.pending.is_empty());
}

fn tab(controller: &mut EditorController, modifiers: Modifiers) {
    controller.capture_tab_switch(vec![InputEvent::Key {
        key: Key::Tab,
        physical_key: Some(Key::Tab),
        pressed: true,
        repeat: false,
        modifiers,
    }]);
    controller.do_queued_switch(&board(Vec::new()), bits(0.0));
}

#[test]
fn tab_and_shift_tab_cycle_through_all_tools() {
    let mut controller = EditorController::new(Some(EditorTool::Select));
    controller.set_tab_order(EditorTool::all().to_vec());
    for expected in [
        EditorTool::Rectangle,
        EditorTool::Arrow,
        EditorTool::Text,
        EditorTool::Stroke,
        EditorTool::Sequence,
        EditorTool::Select,
    ] {
        tab(&mut controller, Modifiers::none());
        assert_eq!(controller.active_tool(), expected);
    }
    for expected in [
        EditorTool::Sequence,
        EditorTool::Stroke,
        EditorTool::Text,
        EditorTool::Arrow,
        EditorTool::Rectangle,
    ] {
        tab(&mut controller, Modifiers::shift());
        assert_eq!(controller.active_tool(), expected);
    }
}

#[test]
fn tab_switching_takes_the_key_away() {
    let mut controller = EditorController::new(Some(EditorTool::Select));
    let (left, taken) = controller.capture_tab_switch(vec![InputEvent::Key {
        key: Key::Tab,
        physical_key: Some(Key::Tab),
        pressed: true,
        repeat: false,
        modifiers: Modifiers::none(),
    }]);
    assert!(left.is_empty());
    assert!(taken);
    controller.do_queued_switch(&board(Vec::new()), bits(0.0));
    assert_eq!(controller.active_tool(), EditorTool::Rectangle);
}

#[test]
fn tab_cycles_follow_the_configured_tab_order() {
    let mut controller = EditorController::new(Some(EditorTool::Select));
    controller.set_tab_order(vec![EditorTool::Text, EditorTool::Sequence, EditorTool::Arrow]);

    for expected in [EditorTool::Text, EditorTool::Sequence, EditorTool::Arrow, EditorTool::Text] {
        tab(&mut controller, Modifiers::none());
        assert_eq!(controller.active_tool(), expected);
    }
    for expected in [EditorTool::Arrow, EditorTool::Sequence, EditorTool::Text] {
        tab(&mut controller, Modifiers::shift());
        assert_eq!(controller.active_tool(), expected);
    }
}

#[test]
fn tab_does_nothing_with_an_empty_tab_order() {
    let mut controller = EditorController::new(Some(EditorTool::Stroke));
    controller.set_tab_order(Vec::new());
    tab(&mut controller, Modifiers::none());
    assert_eq!(controller.active_tool(), EditorTool::Stroke);
    tab(&mut controller, Modifiers::shift());
    assert_eq!(controller.active_tool(), EditorTool::Stroke);
}

#[test]
fn tab_jumps_to_the_edge_when_the_current_tool_is_missing_from_the_order() {
    let mut controller = EditorController::new(Some(EditorTool::Stroke));
    controller.set_tab_order(vec![EditorTool::Text, EditorTool::Rectangle]);
    tab(&mut controller, Modifiers::none());
    assert_eq!(controller.active_tool(), EditorTool::Text);
    controller.set_active_tool(EditorTool::Stroke);
    tab(&mut controller, Modifiers::shift());
    assert_eq!(controller.active_tool(), EditorTool::Rectangle);
}

#[test]
fn plain_enter_maps_to_deselect_and_clears_selection_without_a_command() {
    assert!(
        map_shortcut(Key::Enter, Modifiers::none(), false) == Some(ShortcutAction::Deselect)
    );
    assert!(map_shortcut(Key::Enter, Modifiers::none(), true).is_none());
    assert!(map_shortcut(Key::Enter, Modifiers::shift(), false).is_none());

    let document = board(vec![rectangle(1, 0)]);
    let mut controller = EditorController::new(None);
    controller.selected_element_id = Some(1);
    let mut events = vec![InputEvent::Key {
        key: Key::Enter,
        physical_key: Some(Key::Enter),
        pressed: true,
        repeat: false,
        modifiers: Modifiers::none(),
    }];

    let (commit, request) =
        controller.handle_keyboard(&mut events, &document, bits(0.0), point(0.0, 0.0));

    assert!(matches!(commit, TextCommit::Nothing));
    assert!(matches!(request, KeyRequest::Nothing));
    assert!(controller.selected_element_id.is_none());
}

#[test]
fn canvas_press_while_editing_commits_before_drag_creation_and_keeps_press_origin() {
    let document = board(vec![rectangle(1, 0)]);
    let mut controller = EditorController::new(Some(EditorTool::Rectangle));
    controller.selected_element_id = Some(1);
    controller.text_editing =
        Some(editing(TextTarget::RectangleLabel { element_id: 1 }, "updated"));

    let start = point(30.0, 30.0);
    let middle = point(70.0, 55.0);
    let end = point(120.0, 95.0);

    assert!(canvas_primary_pressed(true, false, false, true));
    let (how, commit) = controller.complete_text(
        TextEditorCompletion::Pending,
        true,
        false,
        &document,
        bits(0.0),
    );
    assert!(how == TextEditorCompletion::CanvasPress);
    match commit {
        TextCommit::Reflowed {
            command: DocumentCommand::UpdateElementLabel { element_id: 1, text: Some(text) },
            ..
        } => assert_eq!(text, "updated"),
        _ => panic!("expected the label commit on pointer press"),
    }

    controller.handle_pointer(
        &document,
        &PointerFrame {
            position: Some(middle),
            press_origin: Some(start),
            drag_started: true,
            dragged: true,
            ..frame(1)
        },
        no_pen(),
        false,
    );
    match &controller.interaction {
        Some(PointerInteraction::Draw {
            tool: EditorTool::Rectangle,
            start: drawn_start,
            current,
            ..
        }) => assert!(*drawn_start == start && *current == middle),
        _ => panic!("expected a drawing"),
    }

    controller.handle_pointer(
        &document,
        &PointerFrame {
            position: Some(end),
            press_origin: Some(start),
            dragged: true,
            ..frame(1)
        },
        no_pen(),
        false,
    );
    let released = controller.handle_pointer(
        &document,
        &PointerFrame { position: Some(end), drag_stopped: true, ..frame(1) },
        no_pen(),
        false,
    );
    match released.released {
        Released::NewRectangle { start: drawn_start, end: drawn_end, .. } => {
            assert!(drawn_start == start && drawn_end == end);
        },
        _ => panic!("expected the rectangle add on release"),
    }
}

#[test]
fn clicking_the_active_toolbar_tool_preserves_text_editing() {
    let document = board(Vec::new());
    let mut controller = EditorController::new(Some(EditorTool::Text));
    controller.text_editing =
        Some(editing(TextTarget::NewText { anchor_px: point(380.0, 20.0) }, "draft"));

    assert!(!controller.active_tool_button_clicked(true, true, false));
    let how = text_completion(false, true, false, true);
    let (how, commit) =
        controller.complete_text(how, false, false, &document, bits(20.0));
    assert!(how == TextEditorCompletion::Pending);
    assert!(matches!(commit, TextCommit::Nothing));
    assert!(controller.active_tool_button_clicked(true, false, true));
    let commit = controller.switch_tool(EditorTool::Text, &document, bits(20.0));
    assert!(matches!(commit, TextCommit::Nothing));

    assert_eq!(controller.tool, EditorTool::Text);
    assert!(matches!(
        controller.text_editing.as_ref(),
        Some(TextEditing { target: TextTarget::NewText { .. }, buffer, .. }) if buffer == "draft"
    ));
}

#[test]
fn inline_editor_internal_press_does_not_commit_or_start_canvas_operation() {
    let document = board(Vec::new());
    let mut controller = EditorController::new(Some(EditorTool::Rectangle));
    controller.text_editing =
        Some(editing(TextTarget::NewText { anchor_px: point(20.0, 20.0) }, "draft"));
    let pressed = canvas_primary_pressed(true, false, true, true);
    assert!(!pressed);
    let (_, commit) = controller.complete_text(
        TextEditorCompletion::Pending,
        pressed,
        false,
        &document,
        bits(380.0),
    );
    assert!(matches!(commit, TextCommit::Nothing));
    assert!(pointer_turn(controller.text_editing.is_some(), false, false).is_none());
    assert!(controller.interaction.is_none());
    assert!(matches!(
        controller.text_editing.as_ref(),
        Some(TextEditing { target: TextTarget::NewText { .. }, buffer, .. }) if buffer == "draft"
    ));
}

#[test]
fn clicks_start_to_write_where_there_is_a_text() {
    let document =
        board(vec![text_element(1, 0, "甲", 80.0), rectangle(2, 1), arrow(3, 2, None, true)]);
    let under = vec![hit(), hit(), hit()];
    assert!(double_click_starts_editing(&document, 1, &under));
    assert!(!double_click_starts_editing(&document, 2, &under));
    let on_label = vec![hit(), ElementUnder { label: true, ..hit() }, hit()];
    assert!(double_click_starts_editing(&document, 2, &on_label));
    assert!(single_click_starts_editing(&document, 2, &on_label));
    assert!(double_click_starts_editing(&document, 3, &under));
    assert!(!single_click_starts_editing(&document, 3, &under));
    assert!(!double_click_starts_editing(&document, 9, &under));
}

#[test]
fn looks_of_elements_are_told_as_looks_of_tools() {
    assert_eq!(style_for_element(&text_element(1, 0, "x", 1.0)).color_rgba, ColorRgba::White);
    assert_eq!(style_for_element(&sequence_marker(1, 0)).color_rgba, ColorRgba::Blue);
    assert_eq!(style_for_element(&stroke(1, 0)).width_px, bits(8.0));
    assert_eq!(mvp_colors().len(), 6);
    assert_eq!(mvp_colors()[0], ColorRgba::Red);
}

#[test]
fn a_handle_moves_its_own_sides() {
    let original = (point(10.0, 20.0), point(110.0, 120.0));
    let (start, end) =
        resized_rectangle(original, RectangleHandle::BottomRight, point(200.0, 210.0));
    assert!(start == original.0 && end == point(200.0, 210.0));
    let (start, end) = resized_rectangle(original, RectangleHandle::Top, point(55.0, 5.0));
    assert!(start == point(10.0, 5.0) && end == original.1);
    let mut near = vec![false; 8];
    near[4] = true;
    assert!(hit_rectangle_handle(&rectangle(1, 0), &near).is_some());
    assert!(hit_rectangle_handle(&stroke(1, 0), &near).is_none());
    assert!(hit_arrow_handle(&arrow(1, 0, None, true), true, true) == Some(ArrowEndpoint::Start));
    assert!(hit_arrow_handle(&arrow(1, 0, None, true), false, true) == Some(ArrowEndpoint::End));
}

#[test]
fn labels_that_gave_way_are_written_down() {
    let document = board(vec![rectangle(1, 0), rectangle(2, 1)]);
    let staged = board(vec![rectangle(1, 0), rectangle(2, 1)]);
    let moved = LabelAnchor { edge: LabelEdge::Bottom, ..anchor() };
    let batch = rectangle_reflow_batch(
        &document,
        &staged,
        vec![DocumentCommand::MoveElement { element_id: 1, delta_px: point(1.0, 0.0) }],
        &vec![LabelSolution {
            element_id: 2,
            preferred_anchor: anchor(),
            actual_anchor: moved,
            bounds_known: true,
        }],
    );
    assert!(batch.len() >= 2);
    assert!(matches!(batch[0], DocumentCommand::MoveElement { element_id: 1, .. }));
    assert!(matches!(
        batch[batch.len() - 1],
        DocumentCommand::SetRectangleLabelPlacement { element_id: 2, actual_anchor, .. }
            if actual_anchor == moved
    ));
    let changed = preview_set_after_batch(&document, &staged, &vec![true, false]);
    assert_eq!(changed, vec![2]);
}

#[test]
fn small_decisions_of_the_canvas() {
    assert_eq!(label_draft("text"), "text");
    assert_eq!(label_draft(""), "\u{200b}");
    assert!(matches!(
        layer_command(LayerMove::ToFront, 4),
        DocumentCommand::BringToFront { element_id: 4 }
    ));
    assert!(matches!(
        layer_command(LayerMove::Backward, 4),
        DocumentCommand::SendBackward { element_id: 4 }
    ));
    assert_eq!(option_panel_anchor(true, false, None, Some((3, 4))), Some((3, 4)));
    assert_eq!(option_panel_anchor(true, false, Some((1, 2)), Some((3, 4))), Some((1, 2)));
    assert_eq!(option_panel_anchor(false, false, Some((1, 2)), Some((3, 4))), None);
}

#[test]
fn a_handle_names_the_coordinates_that_it_moves() {
    assert!(
        minimum_resize_moves(RectangleHandle::TopLeft)
            == (MovedCoordinate::Minimum, MovedCoordinate::Minimum)
    );
    assert!(
        minimum_resize_moves(RectangleHandle::Right)
            == (MovedCoordinate::Maximum, MovedCoordinate::Neither)
    );
    assert!(
        minimum_resize_moves(RectangleHandle::Bottom)
            == (MovedCoordinate::Neither, MovedCoordinate::Maximum)
    );
}

#[test]
fn elements_are_hit_on_their_bodies() {
    let hits = ElementHits { in_bounds: true, on_line: false, on_body: false, on_label: false };
    assert!(!hit_test_element(&stroke(1, 0), hits));
    assert!(hit_test_element(&stroke(1, 0), ElementHits { on_line: true, ..hits }));
    assert!(hit_test_element(&rectangle(1, 0), ElementHits { on_label: true, ..hits }));
    assert!(hit_test_element(&text_element(1, 0, "x", 1.0), hits));
    let outside = ElementHits { in_bounds: false, on_label: true, ..hits };
    assert!(!hit_test_element(&rectangle(1, 0), outside));
}

#[test]
fn an_arrow_is_as_long_as_its_label_needs() {
    assert_eq!(
        arrow_length_limit(true, Some(bits(90.0)), bits(30.0), bits(80.0)),
        (bits(90.0), true)
    );
    assert_eq!(
        arrow_length_limit(true, Some(bits(90.0)), bits(30.0), bits(100.0)),
        (bits(90.0), false)
    );
    assert_eq!(
        arrow_length_limit(false, Some(bits(90.0)), bits(30.0), bits(10.0)),
        (bits(30.0), false)
    );
    assert_eq!(arrow_length_limit(true, None, bits(30.0), bits(10.0)), (bits(30.0), false));
}

#[test]
fn nearly_equal_rectangles_look_alike() {
    let alike = Likeness {
        equal: false,
        same_rectangle: true,
        near_anchors: true,
        near_bounds: true,
    };
    assert!(elements_equivalent_for_preview(&rectangle(1, 0), &rectangle(1, 0), alike));
    assert!(!elements_equivalent_for_preview(&rectangle(1, 0), &rectangle(2, 0), alike));
    assert!(!elements_equivalent_for_preview(&stroke(1, 0), &stroke(1, 0), alike));
    let apart = Likeness { near_bounds: false, ..alike };
    assert!(!elements_equivalent_for_preview(&rectangle(1, 0), &rectangle(1, 0), apart));
}

#[test]
fn a_selection_that_is_gone_is_dropped() {
    let mut controller = EditorController::new(None);
    controller.selected_element_id = Some(1);
    controller.released_preview = vec![1];
    controller.begin_frame(&board(vec![stroke(1, 0)]));
    assert_eq!(controller.selected_element_id, Some(1));
    assert!(controller.released_preview.is_empty());
    controller.begin_frame(&board(Vec::new()));
    assert_eq!(controller.selected_element_id, None);
}

#[test]
fn a_drag_is_shown_before_it_ends() {
    let facts = PreviewFacts {
        element: true,
        valid: true,
        moved: true,
        large_enough: true,
        anchor: None,
        reflowed: true,
    };
    let moving = |element_id| PointerInteraction::Move {
        element_id,
        start: point(0.0, 0.0),
        current: point(55.0, 0.0),
    };
    let document = board(vec![rectangle(1, 0), stroke(2, 1)]);
    assert!(interaction_preview_set(&moving(1), &document, facts) == PreviewChoice::Reflowed);
    assert!(interaction_preview_set(&moving(2), &document, facts) == PreviewChoice::Single);
    assert!(interaction_preview_set(&moving(9), &document, facts) == PreviewChoice::Empty);
    let still = PreviewFacts { moved: false, ..facts };
    assert!(interaction_preview_set(&moving(1), &document, still) == PreviewChoice::Empty);
}

#[test]
fn a_command_of_the_pointer_is_shown_until_the_next_frame() {
    let mut controller = EditorController::new(None);
    assert!(controller.push_pointer_batch(vec![1, 2], 1));
    assert_eq!(controller.released_preview, vec![1, 2]);
    assert!(controller.push_pointer_batch(vec![2], 1));
    assert!(controller.released_preview.is_empty());
    assert!(!controller.push_pointer_batch(Vec::new(), 1));
}

#[test]
fn what_is_written_on_can_be_moved() {
    let document = board(vec![rectangle(1, 0)]);
    let label = editing(TextTarget::RectangleLabel { element_id: 1 }, "x");
    let hit = TextHit { handle: false, body: true, frame: false, inside_editor: false };
    assert!(text_editing_transform_hit(&label, &document, hit));
    assert!(!text_editing_transform_hit(
        &label,
        &document,
        TextHit { inside_editor: true, ..hit }
    ));
    let text = editing(TextTarget::NewText { anchor_px: point(1.0, 1.0) }, "x");
    assert!(!text_editing_transform_hit(&text, &document, hit));
    assert!(text_editing_transform_hit(&text, &document, TextHit { frame: true, ..hit }));

    let mut controller = EditorController::new(None);
    controller.text_editing = Some(label);
    assert!(!controller.text_editing_transform_interaction_active());
    controller.interaction = Some(PointerInteraction::Move {
        element_id: 1,
        start: point(0.0, 0.0),
        current: point(1.0, 1.0),
    });
    assert!(controller.text_editing_transform_interaction_active());
}

#[test]
fn a_text_gets_the_keyboard_once() {
    let mut controller = EditorController::new(None);
    let mut text = editing(TextTarget::NewText { anchor_px: point(1.0, 1.0) }, "标题");
    text.request_focus = true;
    text.select_all = true;
    controller.text_editing = Some(text);
    assert_eq!(controller.take_focus_request(), Some((0, 2)));
    assert_eq!(controller.take_focus_request(), None);
}

#[test]
fn what_follows_a_save_is_dropped() {
    let actions = vec![EditorAction::Undo, EditorAction::Save, EditorAction::Redo];
    assert!(plan_editor_actions(Phase::Editing, &actions) == (1, ActionsEnd::Save));
    assert!(plan_editor_actions(Phase::Idle, &actions) == (0, ActionsEnd::All));
    let closing = vec![EditorAction::Close];
    assert!(plan_editor_actions(Phase::Editing, &closing) == (0, ActionsEnd::Close));
    let undoing = vec![EditorAction::Undo];
    assert!(plan_editor_actions(Phase::Editing, &undoing) == (1, ActionsEnd::All));
}

fn release_caps(points: &[StrokePoint], width: f32) -> Vec<u32> {
    let mut caps = vec![bits(1.0); points.len()];
    let mut distance = 0.0;
    for i in (0..points.len().saturating_sub(1)).rev() {
        let dx = f32::from_bits(points[i].point.x) - f32::from_bits(points[i + 1].point.x);
        let dy = f32::from_bits(points[i].point.y) - f32::from_bits(points[i + 1].point.y);
        distance += (dx * dx + dy * dy).sqrt();
        if distance >= 3.0 * width {
            break;
        }
        caps[i] = bits(distance / (3.0 * width));
    }
    caps
}

fn stroke_of(controller: &EditorController) -> Vec<StrokePoint> {
    match &controller.interaction {
        Some(PointerInteraction::Draw { tool: EditorTool::Stroke, stroke_points, .. }) => {
            stroke_points.clone()
        },
        _ => controller.stylus.pending.clone(),
    }
}

#[test]
fn release_taper_reduces_pressure_before_a_nearby_tip() {
    let at = |x: f32, pressure: f32| StrokePoint { point: point(x, 20.0), pressure: bits(pressure) };
    let mut controller = EditorController::new(Some(EditorTool::Stroke));
    controller.stylus.pending = vec![at(10.0, 0.8), at(36.0, 0.8), at(40.0, 0.0)];
    let caps = release_caps(&controller.stylus.pending, 12.0);
    let lifted = PenStage { no_samples: false, ended: true, taper_due: true, ..no_pen() };
    let stage = controller.taper_released_stroke(lifted, &caps);
    assert!(stage.ended && !stage.taper_due);

    let points = &controller.stylus.pending;
    let pressure = |i: usize| f32::from_bits(points[i].pressure);
    assert_eq!(pressure(0), 0.8);
    assert!(pressure(1) < 0.8);
    assert!(pressure(1) > 0.0);
    assert_eq!(pressure(2), 0.0);
    assert_eq!(pressure(1), 4.0 / 36.0);
    let penultimate_radius = 12.0 * pressure(1) / 2.0;
    assert!(penultimate_radius < 4.0);

    let before: Vec<u32> = points.iter().map(|point| point.pressure).collect();
    controller.taper_released_stroke(no_pen(), &vec![0, 0, 0]);
    let after: Vec<u32> = controller.stylus.pending.iter().map(|point| point.pressure).collect();
    assert_eq!(before, after);
}

#[test]
fn stylus_release_tapers_the_saved_stroke_even_when_the_end_position_is_unchanged() {
    let document = board(Vec::new());
    let mut controller = EditorController::new(None);
    controller.set_active_tool(EditorTool::Stroke);
    let run = |controller: &mut EditorController,
               touched: Option<(TouchPhase, f32, f32)>,
               frame: PointerFrame| {
        let events = match touched {
            Some((phase, x, force)) => vec![InputEvent::Touch {
                device: 7,
                touch: 11,
                phase,
                position: (bits(x), bits(100.0)),
                force: Some(bits(force)),
            }],
            None => Vec::new(),
        };
        controller.capture_stylus_events(events);
        let points: Vec<Option<Point>> = controller
            .stylus
            .queued
            .iter()
            .map(|event| Some(Point { x: event.position.0, y: event.position.1 }))
            .collect();
        let stage = controller.take_pen(&points);
        let caps = release_caps(&stroke_of(controller), 6.0);
        let stage = controller.taper_released_stroke(stage, &caps);
        controller.handle_pointer(&document, &frame, stage, false)
    };
    let start = point(100.0, 100.0);
    let middle = point(150.0, 100.0);
    let end = point(200.0, 100.0);
    run(&mut controller, None, PointerFrame { position: Some(start), ..frame(0) });
    run(
        &mut controller,
        Some((TouchPhase::Start, 100.0, 0.9)),
        PointerFrame { position: Some(start), press_origin: Some(start), ..frame(0) },
    );
    run(
        &mut controller,
        Some((TouchPhase::Move, 150.0, 0.8)),
        PointerFrame {
            position: Some(middle),
            press_origin: Some(start),
            drag_started: true,
            dragged: true,
            ..frame(0)
        },
    );
    assert!(matches!(
        controller.interaction,
        Some(PointerInteraction::Draw { tool: EditorTool::Stroke, .. })
    ));
    run(
        &mut controller,
        Some((TouchPhase::Move, 200.0, 0.7)),
        PointerFrame {
            position: Some(end),
            press_origin: Some(start),
            dragged: true,
            ..frame(0)
        },
    );
    let asked = run(
        &mut controller,
        Some((TouchPhase::End, 200.0, 0.0)),
        PointerFrame { position: Some(end), drag_stopped: true, ..frame(0) },
    );
    let Released::NewStroke { points } = asked.released else {
        panic!("expected one pressure stroke");
    };
    assert!(points.len() >= 3);
    assert_eq!(f32::from_bits(points.last().unwrap().pressure), 0.0);
    let tail: Vec<f32> =
        points[points.len() - 3..].iter().map(|point| f32::from_bits(point.pressure)).collect();
    assert!(tail.windows(2).all(|pair| pair[0] >= pair[1]));
    assert!(tail[0] > tail[1]);
}
