use rs_board::application::{
    choose_window_target, editor_window_target_point, uses_screen_overlay, AppState,
    CapturedFrame, Effect, EditorWindowTarget, Phase, RestoredDraft, SavedDocument,
    WindowSurface, WriteRequest, TOAST_LIFETIME,
};
use rs_board::events::{ExitChoice, Screen};
use rs_board::file_names::{sanitized_file_stem, MAX_STEM_BYTES};
use rs_board::library_index::{DocumentSummary, ManifestFingerprint};
use rs_board::library_view::{
    background_image, bundle_message, busy_line, empty_line,
    image_message, image_target, library_offers, Answer,
    ImageTarget, LibraryAction, LibraryDialogs, LibraryStep, LibraryWork,
    writing_line, PreviewCache, PreviewSource,
};
use rs_board::opening::{
    captured_bounds, check_texture, session_from_capture, ApplicationError,
};
use rs_board::persistence::LatestDraft;
use rs_board::post_save::{post_save_preview, PostSave, PostSaveAction};
use rs_board::screen_stream::RgbaPixels;
use rs_board::session::{CaptureTrigger, SessionOrigin, WorkingSession};
use rs_board::settings::{
    Settings, SettingsAction, SettingsChange, SettingsDialog, SettingsOutcome,
};
use rs_board::tools::EditorTool;

fn session(origin: SessionOrigin, dirty: bool) -> WorkingSession {
    WorkingSession {
        session_id: 50,
        capture_sequence: Some(1),
        origin,
        document_id: 60,
        revision: 2,
        dirty,
        width_px: 100,
        height_px: 80,
        active_tool: EditorTool::Arrow,
    }
}

fn write_request(request_id: u128) -> WriteRequest {
    WriteRequest { request_id, generation_id: 70, started_at: 5, snapshot: Ok(()) }
}

fn started() -> AppState {
    AppState::new(false, false, None, None, false).0
}

fn frame(request_id: u128, capture_sequence: u64) -> CapturedFrame {
    CapturedFrame {
        request_id,
        capture_sequence,
        pixel_size: (100, 80),
        bounds: (0, 0, 100, 80),
    }
}

fn editing(dirty: bool) -> AppState {
    let mut state = started();
    let (start, _) = state.start_capture(1, CaptureTrigger::now("hotkey", 0), 0);
    let start = start.unwrap();
    state.capture_prepared(start, Ok(()));
    let (wanted, _) =
        state.capture_arrived(1, start.capture_sequence, 3, 4, Ok(frame(1, start.capture_sequence)));
    assert!(wanted);
    state.capture_session(
        frame(1, start.capture_sequence),
        4,
        Ok(session(SessionOrigin::NewCapture, dirty)),
    );
    state
}

#[test]
fn only_editor_surface_uses_the_borderless_screen_overlay() {
    assert!(!uses_screen_overlay(WindowSurface::Hidden));
    assert!(!uses_screen_overlay(WindowSurface::Library));
    assert!(uses_screen_overlay(WindowSurface::Editor));
    let halved = |twice: (i64, i64)| [twice.0 as f64 / 2.0, twice.1 as f64 / 2.0];
    assert_eq!(
        halved(editor_window_target_point(EditorWindowTarget::DisplayBounds(-1728, 0, 1728, 1117))),
        [-864.0, 558.5]
    );
    assert_eq!(
        halved(editor_window_target_point(EditorWindowTarget::Cursor(2056, 640))),
        [2056.0, 640.0]
    );
}

#[test]
fn a_capture_opens_the_editor() {
    let state = editing(false);
    assert!(state.phase == Phase::Editing);
    assert!(state.surface == WindowSurface::Editor);
    assert!(state.screen() == Screen::Editor);
    assert!(state.session.is_some());
}

#[test]
fn only_one_capture_runs_at_a_time() {
    let mut state = started();
    let (first, _) = state.start_capture(1, CaptureTrigger::now("tray", 0), 0);
    state.capture_prepared(first.unwrap(), Ok(()));
    let (second, _) = state.start_capture(2, CaptureTrigger::now("tray", 1), 1);
    assert!(second.is_none());
    assert!(matches!(state.phase, Phase::Capturing { request_id: 1, .. }));
}

#[test]
fn a_capture_of_an_earlier_request_is_not_shown() {
    let mut state = started();
    let (start, _) = state.start_capture(1, CaptureTrigger::now("tray", 0), 0);
    let start = start.unwrap();
    state.capture_prepared(start, Ok(()));
    let (wanted, _) =
        state.capture_arrived(9, start.capture_sequence, 3, 4, Ok(frame(9, start.capture_sequence)));
    assert!(!wanted);
    assert!(matches!(state.phase, Phase::Capturing { request_id: 1, .. }));
    assert!(state.session.is_none());
}

#[test]
fn a_failed_capture_is_reported() {
    let mut state = started();
    let (start, _) = state.start_capture(1, CaptureTrigger::now("tray", 0), 0);
    let start = start.unwrap();
    state.capture_prepared(start, Ok(()));
    state.capture_arrived(1, start.capture_sequence, 3, 4, Err("no display".to_owned()));
    assert!(state.phase == Phase::Idle);
    assert!(state.library_error.is_some() || state.persistent_error.is_some());
}

#[test]
fn a_save_closes_the_editor() {
    let mut state = editing(true);
    let effects = state.start_save(write_request(8));
    assert!(matches!(state.phase, Phase::Saving { request_id: 8 }));
    let context = effects
        .iter()
        .find_map(|effect| match effect {
            Effect::Save { context } => Some(*context),
            _ => None,
        })
        .unwrap();
    state.save_finished(
        8,
        context,
        9,
        Ok(SavedDocument { context, document_id: 60, revision: 2 }),
    );
    assert!(state.phase == Phase::Idle);
    assert!(state.session.is_none());
    assert!(state.persistent_error.is_none());
}

#[test]
fn a_failed_save_keeps_the_document_and_can_be_tried_again() {
    let mut state = editing(true);
    let effects = state.start_save(write_request(8));
    let context = effects
        .iter()
        .find_map(|effect| match effect {
            Effect::Save { context } => Some(*context),
            _ => None,
        })
        .unwrap();
    state.save_finished(8, context, 9, Err("disk full".to_owned()));
    assert!(state.phase == Phase::Editing);
    assert!(state.session.is_some());
    assert!(state.persistent_error.as_deref().unwrap().contains("disk full"));
    state.retry(write_request(10));
    assert!(matches!(state.phase, Phase::Saving { request_id: 10 }));
}

#[test]
fn a_stale_save_changes_nothing() {
    let mut state = editing(true);
    let effects = state.start_save(write_request(8));
    let context = effects
        .iter()
        .find_map(|effect| match effect {
            Effect::Save { context } => Some(*context),
            _ => None,
        })
        .unwrap();
    state.save_finished(
        7,
        context,
        9,
        Ok(SavedDocument { context, document_id: 60, revision: 2 }),
    );
    assert!(matches!(state.phase, Phase::Saving { request_id: 8 }));
    assert!(state.session.is_some());
}

#[test]
fn closing_a_changed_document_stashes_it() {
    let mut state = editing(true);
    let effects = state.close_editor(write_request(8));
    match state.phase {
        Phase::Stashing { request_id, generation_id } => {
            assert_eq!((request_id, generation_id), (8, 70));
        },
        _ => panic!("the document is stashed"),
    }
    let context = effects
        .iter()
        .find_map(|effect| match effect {
            Effect::Stash { context, .. } => Some(*context),
            _ => None,
        })
        .unwrap();
    state.stash_finished(
        8,
        context,
        9,
        Ok(LatestDraft { context, generation_id: 70, document_id: 60, revision: 2 }),
    );
    assert!(state.phase == Phase::Idle);
    assert!(state.draft_available);
    assert!(state.session.is_none());
}

#[test]
fn an_existing_document_with_changes_asks_before_it_is_closed() {
    let mut state = started();
    state.start_open_document(60, 4);
    state.opened(4, 60, Ok(session(SessionOrigin::ExistingDocument, true)), Some((1, 2)));
    assert!(state.phase == Phase::Editing);
    state.close_editor(write_request(8));
    assert!(state.phase == Phase::ConfirmingDiscard);
    state.keep_editing();
    assert!(state.phase == Phase::Editing);
    state.close_editor(write_request(8));
    state.discard_changes();
    assert!(state.phase == Phase::Idle);
    assert!(state.session.is_none());
}

#[test]
fn quitting_waits_for_the_write() {
    let mut state = editing(true);
    state.request_quit(write_request(8));
    if state.exit_dialog {
        state.exit_chosen(ExitChoice::Save, write_request(8));
    }
    assert!(state.quit_after_persist);
    assert!(!state.allow_close);
}

#[test]
fn quitting_without_a_document_closes_the_window() {
    let mut state = started();
    let effects = state.request_quit(write_request(8));
    assert!(state.allow_close);
    assert!(effects.iter().any(|effect| matches!(effect, Effect::CloseWindow)));
}

#[test]
fn cancelling_the_exit_goes_on() {
    let mut state = started();
    state.start_open_document(60, 4);
    state.opened(4, 60, Ok(session(SessionOrigin::ExistingDocument, true)), None);
    state.request_quit(write_request(8));
    assert!(state.exit_dialog);
    state.exit_chosen(ExitChoice::Cancel, write_request(8));
    assert!(!state.exit_dialog);
    assert!(!state.quit_after_persist);
    assert!(state.session.is_some());
}

#[test]
fn a_restored_draft_is_edited() {
    let mut state = AppState::new(true, false, None, None, true).0;
    state.start_restore(4);
    assert!(matches!(state.phase, Phase::Restoring { request_id: 4 }));
    let origin = SessionOrigin::LatestDraft { generation_id: 70 };
    state.restored(
        4,
        Ok(Some(RestoredDraft { generation_id: 70, session: Ok(session(origin, false)) })),
        None,
    );
    assert!(state.phase == Phase::Editing);
}

#[test]
fn a_draft_that_is_gone_is_no_longer_offered() {
    let mut state = AppState::new(true, false, None, None, true).0;
    state.start_restore(4);
    state.restored(4, Ok(None), None);
    assert!(state.phase == Phase::Idle);
    assert!(!state.draft_available);
}

#[test]
fn a_notice_is_shown_for_a_while() {
    let mut state = started();
    state.set_toast("saved".to_owned(), 100);
    assert!(state.toast_visible(100 + TOAST_LIFETIME));
    assert!(!state.toast_visible(100 + TOAST_LIFETIME + 1));
    assert!(state.toast.is_none());
}

#[test]
fn a_window_goes_where_the_document_was_captured() {
    assert!(matches!(
        choose_window_target(Some((1, 2, 3, 4)), Some((5, 6))),
        Some(EditorWindowTarget::DisplayBounds(1, 2, 3, 4))
    ));
    assert!(matches!(
        choose_window_target(None, Some((5, 6))),
        Some(EditorWindowTarget::Cursor(5, 6))
    ));
    assert!(choose_window_target(None, None).is_none());
}

#[test]
fn startup_errors_are_shown() {
    let (state, _) =
        AppState::new(true, false, Some("hotkey taken".to_owned()), None, false);
    assert!(state.library_error.as_deref().unwrap().contains("hotkey taken"));
    assert!(state.surface == WindowSurface::Library);
}

#[test]
fn an_import_needs_a_board() {
    let mut state = started();
    let effects = state.import_file("picture.png".to_owned(), false, 0);
    assert!(!effects.iter().any(|effect| matches!(effect, Effect::Import(_))));
    let effects = state.import_file("lesson.rsboard".to_owned(), true, 0);
    assert!(effects
        .iter()
        .any(|effect| matches!(effect, Effect::Import(path) if path == "lesson.rsboard")));
}

#[test]
fn the_library_offers_what_can_be_done() {
    let idle = library_offers(&started());
    assert!(idle.new_capture && idle.import && !idle.back_to_editor && !idle.restore_draft);
    let busy = library_offers(&editing(true));
    assert!(busy.back_to_editor && !busy.new_capture);
    assert!(busy_line(Phase::Idle).is_none());
    assert!(busy_line(Phase::Opening { request_id: 1, document_id: 2 }).is_some());
    assert_ne!(empty_line(""), empty_line("query"));
}

fn summary(document_id: u128, title: &str, preview: Option<&str>) -> DocumentSummary {
    DocumentSummary {
        document_id,
        title: title.to_owned(),
        revision: 1,
        updated_at: 0,
        preview_revision: None,
        preview_path: preview.map(|path| path.to_owned()),
        manifest_fingerprint: ManifestFingerprint { byte_len: 1, modified_at: None },
    }
}

#[test]
fn a_document_can_be_renamed() {
    let documents = vec![summary(5, "旧名", None)];
    let mut dialogs = LibraryDialogs::new();
    assert!(matches!(
        dialogs.handle_library_action(LibraryAction::Rename(5), &documents),
        LibraryStep::Nothing
    ));
    assert!(dialogs.can_rename());
    dialogs.rename.as_mut().unwrap().1 = "新名".to_owned();
    assert_eq!(dialogs.rename_answered(Answer::Confirm), Some((5, "新名".to_owned())));
    assert!(dialogs.rename.is_none());
    dialogs.handle_library_action(LibraryAction::Rename(5), &documents);
    dialogs.rename.as_mut().unwrap().1 = "  ".to_owned();
    assert!(!dialogs.can_rename());
    assert_eq!(dialogs.rename_answered(Answer::Cancel), None);
}

#[test]
fn clearing_the_library_takes_two_confirmations() {
    let mut dialogs = LibraryDialogs::new();
    dialogs.ask_to_clear();
    assert!(!dialogs.clear_answered(Answer::Confirm));
    assert!(dialogs.clear_answered(Answer::Confirm));
    assert!(!dialogs.clear_answered(Answer::Confirm));
    dialogs.ask_to_clear();
    assert!(!dialogs.clear_answered(Answer::Confirm));
    assert!(!dialogs.clear_answered(Answer::Cancel));
    assert_eq!(dialogs.clear_stage, 0);
}

#[test]
fn deleting_is_confirmed() {
    let documents = vec![summary(5, "甲", None)];
    let mut dialogs = LibraryDialogs::new();
    dialogs.handle_library_action(LibraryAction::Delete(5), &documents);
    assert_eq!(dialogs.delete_document_answered(Answer::Confirm), Some(5));
    assert_eq!(dialogs.delete_document_answered(Answer::Confirm), None);
    dialogs.ask_to_delete_draft();
    assert!(!dialogs.delete_draft_answered(Answer::Cancel));
    dialogs.ask_to_delete_draft();
    assert!(dialogs.delete_draft_answered(Answer::Confirm));
}

#[test]
fn an_export_is_named_after_the_document() {
    let documents = vec![summary(5, "a/b:c", None)];
    let mut dialogs = LibraryDialogs::new();
    match dialogs.handle_library_action(LibraryAction::ExportPng(5), &documents) {
        LibraryStep::AskPngPath { document_id, file_name } => {
            assert_eq!(document_id, 5);
            assert_eq!(file_name, format!("{}.png", sanitized_file_stem("a/b:c")));
        },
        _ => panic!("a path is asked for"),
    }
}

#[test]
fn stems_hold_nothing_that_a_path_means() {
    for (title, stem) in [
        ("lesson", "lesson"),
        ("a/b", "a_b"),
        ("a\\b", "a_b"),
        ("a:b", "a_b"),
        (" a \t b ", "a b"),
        ("a\u{7}b", "ab"),
        (".hidden.", "hidden"),
        ("", "未命名讲义"),
        ("...", "未命名讲义"),
    ] {
        assert_eq!(sanitized_file_stem(title), stem);
    }
    assert_eq!(sanitized_file_stem(&"长".repeat(500)), "长".repeat(40));
    assert!(sanitized_file_stem(&"长".repeat(500)).len() <= MAX_STEM_BYTES);
}

fn settings(hotkey: &str, launch: bool) -> Settings {
    Settings {
        global_hotkey: hotkey.to_owned(),
        include_cursor: false,
        launch_at_login: launch,
        copy_image_after_save: false,
    }
}

#[test]
fn settings_come_into_force_one_after_the_other() {
    let mut dialog = SettingsDialog::new(settings("Cmd+1", false));
    dialog.open();
    dialog.draft = settings("Cmd+2", true);
    let (mut change, mut action) = dialog.apply_settings();
    let mut done: Vec<&'static str> = Vec::new();
    let adopted = loop {
        done.push(match &action {
            SettingsAction::UseHotkey(hotkey) => {
                assert_eq!(hotkey, "Cmd+2");
                "hotkey"
            },
            SettingsAction::LaunchAtLogin(launch) => {
                assert!(*launch);
                "launch"
            },
            SettingsAction::Write(written) => {
                assert_eq!(written.global_hotkey, "Cmd+2");
                "file"
            },
        });
        match change.tried(Ok(())) {
            SettingsOutcome::Continue(next, next_action) => {
                change = next;
                action = next_action;
            },
            SettingsOutcome::Adopted(settings) => break settings,
            SettingsOutcome::Failed { .. } => panic!("nothing failed"),
        }
    };
    assert_eq!(done, vec!["hotkey", "launch", "file"]);
    dialog.adopted(adopted);
    assert_eq!(dialog.settings.global_hotkey, "Cmd+2");
    assert!(!dialog.shown);
}

#[test]
fn settings_that_cannot_be_written_are_taken_back() {
    let (change, _) = SettingsChange::begin(settings("Cmd+1", false), settings("Cmd+2", true));
    let change = match change.tried(Ok(())) {
        SettingsOutcome::Continue(change, _) => change,
        _ => panic!("the hotkey is in force"),
    };
    let change = match change.tried(Ok(())) {
        SettingsOutcome::Continue(change, _) => change,
        _ => panic!("the launch is in force"),
    };
    match change.tried(Err("read-only".to_owned())) {
        SettingsOutcome::Failed { undo, error } => {
            assert!(error.contains("read-only"));
            assert!(undo.iter().any(
                |action| matches!(action, SettingsAction::UseHotkey(key) if key == "Cmd+1")
            ));
            assert!(undo
                .iter()
                .any(|action| matches!(action, SettingsAction::LaunchAtLogin(false))));
        },
        _ => panic!("the file cannot be written"),
    }
}

#[test]
fn messages_after_work_tell_what_failed() {
    assert!(bundle_message(Ok("/tmp/x".to_owned())).is_ok());
    assert!(bundle_message(Err("denied".to_owned())).err().unwrap().contains("denied"));
    assert!(matches!(image_target(true, None), Ok(ImageTarget::Clipboard)));
    assert!(matches!(image_target(false, Some("a.png".to_owned())), Ok(ImageTarget::File(_))));
    assert!(image_target(false, None).is_err());
    assert!(image_message(&ImageTarget::Clipboard, Ok(())).is_ok());
    assert!(image_message(&ImageTarget::Clipboard, Err("busy".to_owned())).is_err());
    let mut state = started();
    state.library_work_failed(LibraryWork::Rename, "locked".to_owned(), 0);
    assert!(
        state.library_error.as_deref().is_some_and(|error| error.contains("locked"))
            || state.toast.as_ref().is_some_and(|toast| toast.0.contains("locked"))
    );
}

#[test]
fn pictures_are_checked_before_they_are_shown() {
    assert!(check_texture(2, 1, &vec![0; 8]).is_ok());
    assert!(matches!(
        check_texture(2, 1, &vec![0; 7]),
        Err(ApplicationError::InvalidTexture)
    ));
    assert!(background_image(2, 1, vec![7; 8]).ok().unwrap().pixels == vec![7; 8]);
    assert!(background_image(2, 1, vec![7; 3]).is_err());
    assert_eq!(captured_bounds((-5, 6, 70, 80)), (-5, 6, 70, 80));
    let image = RgbaPixels { width: 1_000, height: 500, pixels: vec![9; 2_000_000] };
    let preview = post_save_preview(&image).ok().unwrap();
    let decoded =
        image::load_from_memory_with_format(&preview, image::ImageFormat::Png).unwrap();
    assert_eq!((decoded.width(), decoded.height()), (480, 240));
    assert!(!ApplicationError::InvalidTexture.to_message().is_empty());
    assert!(ApplicationError::Storage("gone".to_owned()).to_message().contains("gone"));
}

#[test]
fn previews_are_loaded_once() {
    let mut cache = PreviewCache::new();
    let document = summary(5, "甲", Some("5/5.preview.png"));
    assert!(cache.source(&summary(6, "乙", None)) == PreviewSource::Missing);
    assert!(cache.source(&document) == PreviewSource::ToLoad);
    cache.loaded(5, "5/5.preview.png".to_owned());
    assert!(cache.source(&document) == PreviewSource::Loaded);
    cache.forget_unlisted(&vec![document]);
    assert_eq!(cache.paths.len(), 1);
    cache.forget_unlisted(&Vec::new());
    assert!(cache.paths.is_empty());
    cache.loaded(5, "x".to_owned());
    cache.forget(5);
    assert!(cache.paths.is_empty());
}

#[test]
fn a_session_begins_unchanged_with_the_last_tool() {
    let mut state = started();
    state.last_tool = Some(EditorTool::Text);
    let seed = session_from_capture(frame(1, 7), 50, 60, 1);
    let (made, measured) = state.make_session(seed, Ok(()), &vec![0; 100 * 80 * 4], 3);
    let made = made.ok().unwrap();
    assert!(!made.dirty);
    assert_eq!(made.active_tool, EditorTool::Text);
    assert_eq!(made.capture_sequence, Some(7));
    assert_eq!(measured.unwrap().context.document_id, Some(60));

    let (made, measured) = state.make_session(seed, Ok(()), &vec![0; 3], 3);
    assert!(matches!(made, Err(ApplicationError::InvalidTexture)));
    assert!(measured.is_some());
    let (made, measured) = state.make_session(seed, Err("bad".to_owned()), &Vec::new(), 3);
    assert!(matches!(made, Err(ApplicationError::Document(error)) if error == "bad"));
    assert!(measured.is_none());
}

#[test]
fn work_that_cannot_be_started_is_reported() {
    let mut state = started();
    state.start_open_document(60, 4);
    state.open_spawn_failed("no thread".to_owned());
    assert!(state.phase == Phase::Idle);
    assert_eq!(state.library_error.as_deref(), Some("无法启动讲义打开任务：no thread"));
    state.close_library_error();
    assert!(state.library_error.is_none());

    let mut state = AppState::new(true, false, None, None, true).0;
    state.start_restore(4);
    state.restore_spawn_failed("no thread".to_owned());
    assert!(state.phase == Phase::Idle);
    assert!(state.library_error.is_some());

    let mut state = editing(true);
    state.start_save(write_request(8));
    state.save_spawn_failed(8, "no thread".to_owned());
    assert!(state.phase == Phase::Editing);
    assert_eq!(state.persistent_error.as_deref(), Some("无法启动保存任务：no thread"));
    state.close_error();
    assert!(state.persistent_error.is_none() && state.retry_kind.is_none());

    let mut state = editing(true);
    state.start_stash(write_request(8));
    state.stash_spawn_failed(8, "no thread".to_owned());
    assert!(state.phase == Phase::Editing);
    assert!(state.session.is_some());

    let mut state = started();
    state.import_spawn_failed("no thread".to_owned());
    assert!(state.library_error.is_some() || state.toast.is_some());
    state.post_save_spawn_failed("no thread".to_owned(), 3);
    assert_eq!(
        state.toast.as_ref().map(|toast| toast.0.as_str()),
        Some("保存后任务启动失败：no thread")
    );
    state.command_failed("bad command".to_owned());
    assert_eq!(state.persistent_error.as_deref(), Some("bad command"));
}

#[test]
fn the_window_follows_what_is_open() {
    let mut state = editing(false);
    let effects = state.show_recent(0);
    assert!(state.surface == WindowSurface::Library);
    assert!(effects.iter().any(|effect| matches!(effect, Effect::ShowLibraryWindow)));
    let effects = state.close_requested(write_request(8), Some((4, 5)));
    assert!(state.surface == WindowSurface::Editor);
    assert!(effects.iter().any(|effect| matches!(effect, Effect::CancelClose)));

    let mut idle = started();
    idle.show_recent(0);
    let effects = idle.close_requested(write_request(8), None);
    assert!(idle.surface == WindowSurface::Hidden);
    assert!(effects.iter().any(|effect| matches!(effect, Effect::HideWindow)));

    let mut saving = editing(true);
    saving.start_save(write_request(8));
    saving.show_recent(7);
    assert!(saving.surface == WindowSurface::Editor);
    assert!(saving.toast.is_some());
    let (shown, _) = saving.show_settings(7);
    assert!(!shown);
    let (shown, _) = started().show_settings(7);
    assert!(shown);
}

#[test]
fn the_first_frame_of_a_capture_is_measured_once() {
    let mut state = editing(false);
    let measured = state.frame_presented();
    let stages: Vec<&'static str> = measured
        .iter()
        .filter_map(|effect| match effect {
            Effect::Measure(measurement) => Some(measurement.stage),
            _ => None,
        })
        .collect();
    assert_eq!(stages, vec!["capture.editor_frame_submitted", "capture.request.total"]);
    assert!(state.frame_presented().is_empty());
}

#[test]
fn changes_of_the_document_are_taken_in() {
    let mut state = editing(false);
    state.session_changed(9, true, EditorTool::Stroke);
    let session = state.session.unwrap();
    assert_eq!(session.revision, 9);
    assert!(session.dirty);
    assert_eq!(session.active_tool, EditorTool::Stroke);
}

#[test]
fn settings_are_shown_until_they_are_given_up() {
    let mut dialog = SettingsDialog::new(settings("Cmd+1", false));
    dialog.open();
    assert!(dialog.shown);
    dialog.draft.include_cursor = true;
    dialog.cancel();
    assert!(!dialog.shown);
    assert!(!dialog.settings.include_cursor);
    let mut state = started();
    state.settings_adopted(4);
    assert_eq!(state.toast.as_ref().map(|toast| toast.0.as_str()), Some("设置已保存"));
    state.settings_failed("taken".to_owned());
    assert_eq!(state.library_error.as_deref(), Some("taken"));
}

#[test]
fn what_is_being_written_is_said() {
    assert_eq!(writing_line(Phase::Saving { request_id: 1 }), Some("正在保存..."));
    assert_eq!(
        writing_line(Phase::Stashing { request_id: 1, generation_id: 2 }),
        Some("正在暂存...")
    );
    assert_eq!(writing_line(Phase::Editing), None);
}

#[test]
fn all_that_follows_a_save_is_tried() {
    let image = RgbaPixels { width: 2, height: 1, pixels: vec![9; 8] };
    let (mut work, action) = PostSave::start_post_save_tasks(&image, true, Some(70));
    assert!(matches!(action, PostSaveAction::Install(bytes) if !bytes.is_empty()));
    let action = work.done(Err("locked".to_owned()));
    assert!(matches!(action, PostSaveAction::CopyImage));
    let action = work.done(Err("busy".to_owned()));
    assert!(matches!(action, PostSaveAction::DeleteDraft(70)));
    match work.done(Ok(())) {
        PostSaveAction::Tell(Err(message)) => {
            assert_eq!(message, "预览生成失败: locked；剪贴板写入失败: busy");
        },
        _ => panic!("the failures are told"),
    }

    let (mut work, action) = PostSave::with_preview(Ok(vec![1]), false, None);
    assert!(matches!(action, PostSaveAction::Install(_)));
    assert!(matches!(
        work.done(Ok(())),
        PostSaveAction::Tell(Ok(message)) if message == "讲义已保存"
    ));

    let (_, action) = PostSave::with_preview(Err("图片编码失败: x".to_owned()), false, None);
    assert!(matches!(
        action,
        PostSaveAction::Tell(Err(message)) if message == "预览生成失败: 图片编码失败: x"
    ));
}
