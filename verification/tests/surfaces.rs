use rs_board::capture_surface::{
    available_displays, capture_overlay_title, CaptureSurfaceCoordinator, CaptureSurfaceError,
    DisplayCaptureSurface, DisplayRefreshOutcome, DisplaySnapshot, MonitorReading,
    SurfaceLifecycle, COLD_REFRESH_WALL_CLOCK_GAP, DISPLAY_REFRESH_INTERVAL,
};
use rs_board::overlay_window::{
    acquire_overlay_window, configure_active_overlay_window, overlay_activation_is_ready,
    overlay_input_target_is_ready, window_pair_is_ready, window_pair_pending_reason, Conceal,
    OverlayPair, OverlayWindowReadiness, PairAction, PairFacts, PairInput, RetainedWindow,
    WindowChoice,
};

fn display(display_id: u32, bounds_global: [i32; 4]) -> DisplaySnapshot {
    DisplaySnapshot { display_id, bounds_global, scale_factor: 2.0f32.to_bits() }
}

fn coordinator() -> CaptureSurfaceCoordinator {
    CaptureSurfaceCoordinator::new(0, 0)
}

#[test]
fn initial_overlay_requires_input_target_without_reclaiming_it_after_ready() {
    assert!(!overlay_input_target_is_ready(false, false));
    assert!(overlay_input_target_is_ready(false, true));
    assert!(overlay_input_target_is_ready(true, false));
}

#[test]
fn configured_overlay_allows_another_application_to_take_focus() {
    assert!(!overlay_activation_is_ready(false, false, false));
    assert!(!overlay_activation_is_ready(false, true, false));
    assert!(overlay_activation_is_ready(false, true, true));
    assert!(overlay_activation_is_ready(true, false, false));
}

#[test]
fn keeps_active_display_snapshot_until_hidden() {
    let mut coordinator = coordinator();
    coordinator.refresh(&vec![display(7, [0, 0, 100, 80])]);
    assert!(coordinator.present(7, 11).is_ok());
    coordinator.refresh(&vec![display(7, [10, 20, 200, 160])]);
    assert_eq!(coordinator.viewport_specs()[0].display.bounds_global, [0, 0, 100, 80]);

    coordinator.hide_active();
    assert_eq!(coordinator.viewport_specs()[0].display.bounds_global, [10, 20, 200, 160]);
}

#[test]
fn reports_active_display_removal_without_dropping_surface() {
    let mut coordinator = coordinator();
    coordinator.refresh(&vec![display(4, [-100, 0, 100, 80])]);
    assert!(coordinator.present(4, 11).is_ok());
    assert!(
        coordinator.refresh(&Vec::new()) == DisplayRefreshOutcome::ActiveDisplayRemoved(4)
    );
    assert_eq!(coordinator.active_display_id(), Some(4));
    assert_eq!(coordinator.viewport_specs().len(), 1);

    coordinator.hide_active();
    assert!(coordinator.refresh(&Vec::new()) == DisplayRefreshOutcome::DisplaysChanged);
    let retained = coordinator.viewport_specs_for_frame().pop().unwrap();
    assert_eq!(retained.display.display_id, 4);
    assert!(retained.lifecycle == SurfaceLifecycle::Hidden);
    assert!(coordinator.viewport_specs_for_frame().pop().is_some());
    assert!(coordinator.refresh(&Vec::new()) == DisplayRefreshOutcome::DisplaysChanged);
    assert_eq!(coordinator.viewport_specs().len(), 1);
}

#[test]
fn selects_displays_with_negative_global_coordinates() {
    let mut coordinator = coordinator();
    coordinator
        .refresh(&vec![display(1, [-1920, 0, 1920, 1080]), display(2, [0, 0, 1728, 1117])]);
    assert_eq!(coordinator.display_for_point([-10, 20]), Some(1));
    assert_eq!(coordinator.display_for_point([100, 20]), Some(2));
}

#[test]
fn overlay_titles_strongly_identify_their_display_viewports() {
    let first = DisplayCaptureSurface::new(display(1, [0, 0, 100, 80])).surface_viewport();
    let second = DisplayCaptureSurface::new(display(2, [100, 0, 100, 80])).surface_viewport();

    assert_eq!(first.settings.title, "RS Board Capture Overlay [1]");
    assert_eq!(second.settings.title, "RS Board Capture Overlay [2]");
    assert_ne!(first.settings.title, second.settings.title);
}

#[test]
fn retains_the_last_egui_viewport_after_hiding() {
    let mut coordinator = coordinator();
    coordinator.refresh(&vec![display(1, [0, 0, 100, 80]), display(2, [100, 0, 100, 80])]);

    assert!(coordinator.viewport_specs_for_frame().is_empty());

    assert!(coordinator.present(2, 11).is_ok());
    let viewport = coordinator.viewport_specs_for_frame().pop().unwrap();
    assert_eq!(viewport.display.display_id, 2);
    assert!(viewport.is_active());

    coordinator.hide_active();
    let retained = coordinator.viewport_specs_for_frame().pop().unwrap();
    assert_eq!(retained.display.display_id, 2);
    assert!(retained.lifecycle == SurfaceLifecycle::Hidden);
    assert!(!retained.is_active());
    assert!(retained.settings.visible);
    assert!(retained.settings.active);
    assert!(retained.settings.mouse_passthrough);
    assert!(coordinator.viewport_specs_for_frame().pop().is_some());
}

#[test]
fn a_new_presentation_reuses_the_retained_viewport_for_the_same_display() {
    let mut coordinator = coordinator();
    coordinator.refresh(&vec![display(2, [100, 0, 100, 80])]);
    assert!(coordinator.present(2, 11).is_ok());
    coordinator.hide_active();

    assert!(coordinator.present(2, 12).is_ok());

    let viewports = coordinator.viewport_specs_for_frame();
    assert_eq!(viewports.len(), 1);
    assert_eq!(viewports[0].display.display_id, 2);
    assert!(viewports[0].is_active());
}

#[test]
fn a_retained_viewport_precedes_a_new_active_viewport() {
    let mut coordinator = coordinator();
    coordinator.refresh(&vec![display(1, [0, 0, 100, 80]), display(2, [100, 0, 100, 80])]);
    assert!(coordinator.present(1, 11).is_ok());
    coordinator.hide_active();
    assert!(coordinator.present(2, 12).is_ok());

    let viewports = coordinator.viewport_specs_for_frame();
    assert_eq!(viewports.len(), 2);
    assert_eq!(viewports[0].display.display_id, 1);
    assert!(!viewports[0].is_active());
    assert_eq!(viewports[1].display.display_id, 2);
    assert!(viewports[1].is_active());
}

#[test]
fn long_wall_clock_gap_forces_a_cold_refresh_without_replacing_active_snapshot() {
    let mut coordinator = coordinator();
    let before_sleep: i128 = 10_000_000_000;
    coordinator.last_refresh_wall_clock = before_sleep;
    coordinator.refresh(&vec![display(7, [0, 0, 100, 80]), display(9, [100, 0, 100, 80])]);
    assert!(coordinator.present(7, 11).is_ok());

    let outcome = coordinator.refresh_after_wall_clock_gap(
        &vec![display(7, [10, 20, 200, 160]), display(9, [100, 0, 100, 80])],
        before_sleep + COLD_REFRESH_WALL_CLOCK_GAP,
    );

    assert!(outcome == DisplayRefreshOutcome::DisplaysChanged);
    let active = coordinator
        .viewport_specs()
        .into_iter()
        .find(|viewport| viewport.display.display_id == 7)
        .unwrap();
    assert_eq!(active.display.bounds_global, [0, 0, 100, 80]);
}

#[test]
fn a_short_gap_is_an_ordinary_refresh() {
    let mut coordinator = coordinator();
    coordinator.refresh(&vec![display(7, [0, 0, 100, 80])]);
    let outcome = coordinator.refresh_after_wall_clock_gap(
        &vec![display(7, [0, 0, 100, 80])],
        COLD_REFRESH_WALL_CLOCK_GAP - 1,
    );
    assert!(outcome == DisplayRefreshOutcome::Unchanged);
    let outcome = coordinator.refresh_after_wall_clock_gap(
        &vec![display(7, [0, 0, 100, 80])],
        2 * COLD_REFRESH_WALL_CLOCK_GAP,
    );
    assert!(outcome == DisplayRefreshOutcome::DisplaysChanged);
}

#[test]
fn a_look_counts_even_where_it_fails() {
    let mut coordinator = coordinator();
    let failed = coordinator.refresh_available_displays(
        Err(CaptureSurfaceError::Monitor("gone".to_owned())),
        DISPLAY_REFRESH_INTERVAL,
        7,
    );
    assert!(matches!(failed, Err(CaptureSurfaceError::Monitor(reason)) if reason == "gone"));
    assert_eq!(coordinator.last_refresh, DISPLAY_REFRESH_INTERVAL);
    assert_eq!(coordinator.last_refresh_wall_clock, 0);
    assert!(!coordinator.should_refresh(2 * DISPLAY_REFRESH_INTERVAL - 1, 0));

    let outcome = coordinator.refresh_available_displays(
        Ok(vec![display(7, [0, 0, 100, 80])]),
        2 * DISPLAY_REFRESH_INTERVAL,
        9,
    );
    assert!(matches!(outcome, Ok(DisplayRefreshOutcome::DisplaysChanged)));
    assert_eq!(coordinator.last_refresh, 2 * DISPLAY_REFRESH_INTERVAL);
    assert_eq!(coordinator.last_refresh_wall_clock, 9);
}

#[test]
fn displays_are_looked_at_again_every_second() {
    let coordinator = coordinator();
    assert!(!coordinator.should_refresh(DISPLAY_REFRESH_INTERVAL - 1, 0));
    assert!(coordinator.should_refresh(DISPLAY_REFRESH_INTERVAL, 0));
}

#[test]
fn only_one_surface_is_shown_at_a_time() {
    let mut coordinator = coordinator();
    coordinator.refresh(&vec![display(1, [0, 0, 100, 80]), display(2, [100, 0, 100, 80])]);
    assert!(coordinator.present(1, 11).is_ok());
    assert!(matches!(coordinator.present(2, 12), Err(CaptureSurfaceError::Busy(1))));
    assert!(matches!(
        coordinator.present(3, 12),
        Err(CaptureSurfaceError::Busy(1)) | Err(CaptureSurfaceError::DisplayUnavailable(3))
    ));
    assert!(coordinator.begin_editing(1, 21).is_ok());
    assert!(coordinator.set_frozen_image(1).is_ok());
    assert!(matches!(
        coordinator.set_frozen_image(9),
        Err(CaptureSurfaceError::DisplayUnavailable(9))
    ));
    coordinator.hide_active();
    assert!(matches!(
        coordinator.present(3, 12),
        Err(CaptureSurfaceError::DisplayUnavailable(3))
    ));
}

#[test]
fn a_display_is_found_by_its_bounds_or_the_smallest_number() {
    let mut coordinator = coordinator();
    coordinator.refresh(&vec![display(5, [0, 0, 100, 80]), display(2, [100, 0, 100, 80])]);
    assert_eq!(coordinator.display_for_bounds([100, 0, 100, 80]), Some(2));
    assert_eq!(coordinator.display_for_bounds([0, 0, 1, 1]), None);
    assert!(coordinator.fallback_display().is_some());
    assert_eq!(coordinator.display_for_point([1_000, 0]), None);
}

#[test]
fn monitors_that_cannot_be_read_are_reported() {
    let reading = |id: Result<u32, String>| MonitorReading {
        display_id: id,
        x: Ok(0),
        y: Ok(0),
        width: Ok(100),
        height: Ok(80),
        scale_factor: Ok(2.0f32.to_bits()),
    };
    match available_displays(Ok(vec![reading(Ok(3))])) {
        Ok(displays) => assert_eq!(displays[0].display_id, 3),
        Err(_) => panic!("the monitor can be read"),
    }
    match available_displays(Ok(vec![reading(Ok(3)), reading(Err("gone".to_owned()))])) {
        Err(error) => assert!(error.to_message().contains("gone")),
        Ok(_) => panic!("the monitor cannot be read"),
    }
    assert!(matches!(
        available_displays(Err("none".to_owned())),
        Err(CaptureSurfaceError::Monitor(_))
    ));
    assert!(display(1, [0, 0, 0, 80]).validate().is_err());
    assert!(display(1, [0, 0, 10, 80]).validate().is_ok());
    assert_eq!(capture_overlay_title(40), "RS Board Capture Overlay [40]");
}

fn ready_facts() -> PairFacts {
    PairFacts {
        application_active: true,
        window_key: true,
        panel_visible: true,
        panel_at_level: true,
        panel_in_frame: true,
        window_visible: true,
        window_at_level: true,
        window_in_frame: true,
        panel_attached: true,
        ignores_mouse: false,
        content_view_is_first_responder: true,
    }
}

#[test]
fn a_pair_of_windows_is_ready_once_nothing_is_missing() {
    assert!(window_pair_is_ready(ready_facts(), false));
    assert!(window_pair_pending_reason(ready_facts(), false).is_none());
    let hidden = PairFacts { panel_visible: false, ..ready_facts() };
    assert!(!window_pair_is_ready(hidden, false));
    assert!(window_pair_pending_reason(hidden, false).is_some());
    let inactive = PairFacts { application_active: false, window_key: false, ..ready_facts() };
    assert!(!window_pair_is_ready(inactive, false));
    assert!(window_pair_is_ready(inactive, true));
}

#[test]
fn a_pair_is_not_set_up_away_from_the_main_thread() {
    let mut pair = OverlayPair::new(false);
    let action =
        pair.configure_active_window_pair(PairInput::Began { main_thread: false, screen: true });
    assert!(matches!(
        action,
        PairAction::Finish {
            readiness: OverlayWindowReadiness::Pending(_) | OverlayWindowReadiness::Failed,
            ..
        }
    ));
}

#[test]
fn a_pair_that_is_ready_is_left_alone() {
    let mut pair = OverlayPair::new(true);
    let action =
        pair.configure_active_window_pair(PairInput::Began { main_thread: true, screen: true });
    assert!(matches!(action, PairAction::Acquire));
    let action = pair.configure_active_window_pair(PairInput::Acquired(WindowChoice::Keep));
    assert!(matches!(action, PairAction::Inspect));
    let action = pair.configure_active_window_pair(PairInput::Inspected(ready_facts()));
    assert!(matches!(
        action,
        PairAction::Finish {
            conceal: Conceal::Nothing,
            readiness: OverlayWindowReadiness::Ready,
            ..
        }
    ));
}

#[test]
fn without_an_active_display_nothing_is_set_up() {
    assert!(!matches!(configure_active_overlay_window(None), OverlayWindowReadiness::Ready));
}

#[test]
fn a_window_is_found_by_its_title() {
    let titles = vec!["RS Board".to_owned(), "RS Board Capture Overlay [4]".to_owned()];
    assert!(matches!(
        acquire_overlay_window(4, &titles, &None),
        WindowChoice::Replace { index: Some(1), demote: false }
    ));
    let retained =
        Some(RetainedWindow { title: "RS Board Capture Overlay [4]".to_owned(), index: Some(1) });
    assert!(matches!(acquire_overlay_window(4, &titles, &retained), WindowChoice::Keep));
    assert!(matches!(
        acquire_overlay_window(5, &titles, &retained),
        WindowChoice::Replace { index: None, demote: true }
    ));
}

#[test]
fn a_window_in_place_of_another_is_brought_up_anew() {
    let acquire = |choice: WindowChoice| {
        let mut pair = OverlayPair::new(true);
        pair.configure_active_window_pair(PairInput::Began { main_thread: true, screen: true });
        let action = pair.configure_active_window_pair(PairInput::Acquired(choice));
        (pair, action)
    };
    let (mut pair, action) = acquire(WindowChoice::Replace { index: Some(1), demote: true });
    assert!(matches!(action, PairAction::Inspect));
    assert!(!pair.ready);
    let action = pair.configure_active_window_pair(PairInput::Inspected(ready_facts()));
    assert!(matches!(action, PairAction::Style));

    let (pair, action) = acquire(WindowChoice::Replace { index: None, demote: true });
    assert!(!pair.ready);
    assert!(matches!(
        action,
        PairAction::Finish {
            conceal: Conceal::Panel,
            readiness: OverlayWindowReadiness::Pending("overlay_window_unavailable"),
            ..
        }
    ));
}
