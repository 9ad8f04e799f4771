//! What the program does at its start, on changes of the library, and as windows are closed
//! and the program is left.

use vstd::prelude::*;

use crate::application::{
    choose_window_target, told, window_target, AppState, AppView, Effect, Phase, RetryKind,
    WindowSurface, WriteRequest, TOAST_LIFETIME,
};
use crate::session::{
    CapturePresentationTrace, Ending, Measurement, SessionOrigin, WorkingSession,
};
use crate::startup::is_rsboard_file;
use crate::text::concat;
use crate::tools::EditorTool;

verus! {

/// What the library says at the start: that the hotkey is not to be had, and, where the
/// library is shown, that the screen may not be recorded.
pub open spec fn startup_message(
    shown: bool,
    hotkey_error: Option<Seq<char>>,
    permission_error: Option<Seq<char>>,
) -> Option<Seq<char>> {
    let hotkey = match hotkey_error {
        Some(error) => Some("全局快捷键注册失败："@ + error),
        None => None,
    };
    match permission_error {
        Some(error) if shown => {
            let permission = "屏幕录制权限未授予；截图时会再次请求："@ + error;
            Some(
                match hotkey {
                    Some(first) => first + "\n"@ + permission,
                    None => permission,
                },
            )
        },
        _ => hotkey,
    }
}

impl AppView {
    /// The program as it starts: the library is shown where that was asked for, where there
    /// are documents to open, or where the hotkey is not to be had.
    pub open spec fn started(
        start_visible: bool,
        has_files: bool,
        hotkey_error: Option<Seq<char>>,
        permission_error: Option<Seq<char>>,
        draft_available: bool,
    ) -> (AppView, Seq<Effect>) {
        let shown = start_visible || has_files || hotkey_error is Some;
        let state = AppView {
            surface: if shown {
                WindowSurface::Library
            } else {
                WindowSurface::Hidden
            },
            editor_window_target: None,
            phase: Phase::Idle,
            next_capture_sequence: 0,
            next_stash_sequence: 0,
            capture_presentation_trace: None,
            persistence_ui_trace: None,
            session: None,
            draft_available,
            last_tool: None,
            exit_dialog: false,
            quit_after_persist: false,
            allow_close: false,
            persistent_error: None,
            retry_kind: None,
            library_error: startup_message(shown, hotkey_error, permission_error),
            toast: None,
        };
        (
            state,
            seq![
                state.tray(),
                if shown {
                    Effect::ShowLibraryWindow
                } else {
                    Effect::Invisible
                },
            ],
        )
    }

    /// A file is to be read into the library.
    pub open spec fn import_begun(self, path: String, is_board: bool, now: u128) -> (
        AppView,
        Seq<Effect>,
    ) {
        if self.phase != Phase::Idle {
            (self.with_toast("当前会话结束后才能导入讲义"@, now), Seq::empty())
        } else if !is_board {
            (
                AppView { library_error: Some("只能导入 .rsboard 讲义"@), ..self },
                Seq::empty(),
            )
        } else {
            (self, seq![Effect::Import(path)])
        }
    }

    /// A file was read into the library, or could not be.
    pub open spec fn imported(self, result: Result<u128, Seq<char>>, now: u128) -> (
        AppView,
        Seq<Effect>,
    ) {
        match result {
            Ok(document_id) => {
                let listed = seq![
                    Effect::RefreshRecent(None),
                    Effect::Highlight(Some(document_id)),
                    Effect::ForgetPreview(document_id),
                ];
                if self.phase == Phase::Idle {
                    (
                        self.with_library_shown().with_toast("讲义已导入"@, now),
                        listed.push(Effect::ShowLibraryWindow),
                    )
                } else {
                    (self.with_toast("讲义已导入"@, now), listed)
                }
            },
            Err(error) => (AppView { library_error: Some(error), ..self }, Seq::empty()),
        }
    }

    /// The library was changed, or could not be.
    pub open spec fn library_changed(
        self,
        result: Result<Option<u128>, Seq<char>>,
        draft_exists: bool,
    ) -> (AppView, Seq<Effect>) {
        match result {
            Ok(highlighted) => (
                AppView { draft_available: draft_exists, ..self },
                seq![
                    Effect::RefreshRecent(None),
                    Effect::Highlight(highlighted),
                    Effect::ForgetUnlistedPreviews,
                ],
            ),
            Err(error) => (AppView { library_error: Some(error), ..self }, Seq::empty()),
        }
    }

    /// Work at the side came to its end.
    pub open spec fn auxiliary_done(self, result: Result<String, String>, now: u128) -> (
        AppView,
        Seq<Effect>,
    ) {
        match result {
            Ok(message) => (self.with_toast(message@, now), seq![Effect::RefreshRecent(None)]),
            Err(error) => (self.with_toast(error@, now), Seq::empty()),
        }
    }

    /// The document is let go of without being written.
    pub open spec fn abandoned(self) -> (AppView, Seq<Effect>) {
        (
            AppView { phase: Phase::Idle, ..self.with_session_released() }.with_window_hidden(),
            seq![Effect::ReleaseSession, Effect::HideWindow],
        )
    }

    /// The editor is closed: a capture or a draft is stashed; of a saved document that was
    /// changed the user is asked; another saved document is let go of.
    pub open spec fn editor_closed(self, request: WriteRequest) -> (AppView, Seq<Effect>) {
        match self.session {
            None => (self, Seq::empty()),
            Some(session) => {
                let (next, effects) = if session.origin != SessionOrigin::ExistingDocument {
                    self.stash_begun(request)
                } else if session.dirty {
                    (AppView { phase: Phase::ConfirmingDiscard, ..self }, Seq::empty())
                } else {
                    self.abandoned()
                };
                (next, effects.push(next.tray()))
            },
        }
    }

    /// The program is to be left: it waits for a write that is under way, stashes a capture
    /// or a draft first, and asks where a saved document was changed.
    pub open spec fn quit_asked(self, request: WriteRequest) -> (AppView, Seq<Effect>) {
        match self.phase {
            Phase::Saving { .. } | Phase::Stashing { .. } => (
                AppView { quit_after_persist: true, ..self },
                Seq::empty(),
            ),
            Phase::Editing | Phase::ConfirmingDiscard => match self.session {
                None => (self, Seq::empty()),
                Some(session) => if session.origin != SessionOrigin::ExistingDocument {
                    AppView {
                        phase: Phase::Editing,
                        quit_after_persist: true,
                        ..self
                    }.stash_begun(request)
                } else if session.dirty {
                    (
                        AppView { phase: Phase::Editing, exit_dialog: true, ..self },
                        Seq::empty(),
                    )
                } else {
                    (self.closing(), seq![Effect::CloseWindow])
                },
            },
            _ => (self.closing(), seq![Effect::CloseWindow]),
        }
    }

    /// The window is to be closed: from the library one gets back to the open document; a
    /// window of a program that does nothing leaves the screen; else the program is left.
    pub open spec fn close_asked(self, request: WriteRequest, cursor: Option<(i32, i32)>) -> (
        AppView,
        Seq<Effect>,
    ) {
        if self.allow_close {
            (self, Seq::empty())
        } else if self.surface == WindowSurface::Library && self.phase.holds_session() {
            let target = window_target(None, cursor);
            (
                self.with_editor_shown(target),
                seq![Effect::CancelClose, Effect::ShowEditorWindow(target)],
            )
        } else if self.phase == Phase::Idle {
            (self.with_window_hidden(), seq![Effect::CancelClose, Effect::HideWindow])
        } else {
            let (next, effects) = self.quit_asked(request);
            (next, seq![Effect::CancelClose] + effects)
        }
    }

    /// The library is asked for from the tray.
    pub open spec fn recent_asked(self, now: u128) -> (AppView, Seq<Effect>) {
        if self.phase is Saving || self.phase is Stashing {
            (self.with_toast("保存或暂存完成后再打开最近讲义"@, now), Seq::empty())
        } else {
            (self.with_library_shown(), seq![Effect::ShowLibraryWindow])
        }
    }

    /// What failed is tried again.
    pub open spec fn retried(self, request: WriteRequest) -> (AppView, Seq<Effect>) {
        match self.retry_kind {
            Some(RetryKind::Save) => self.save_begun(request),
            Some(RetryKind::Stash) => self.stash_begun(request),
            None => (self, Seq::empty()),
        }
    }

    /// A frame was drawn: the capture that led to the editor has reached the screen.
    pub open spec fn frame_drawn(self) -> (AppView, Seq<Effect>) {
        match self.capture_presentation_trace {
            Some(trace) if self.surface == WindowSurface::Editor => {
                let ending = if self.session matches Some(session) && session.capture_sequence
                    == trace.performance.capture_sequence {
                    Ending::Success
                } else {
                    Ending::Stale
                };
                (
                    AppView { capture_presentation_trace: None, ..self },
                    seq![
                        presented("capture.editor_frame_submitted", trace, ending),
                        presented("capture.request.total", trace, ending),
                    ],
                )
            },
            _ => (self, Seq::empty()),
        }
    }

    /// A notice has been on screen long enough.
    pub open spec fn toast_over(self, now: u128) -> bool {
        match self.toast {
            Some((_, shown_at)) => now - shown_at > TOAST_LIFETIME,
            None => false,
        }
    }
}

/// The measurement of a capture that reached the screen.
pub open spec fn presented(
    stage: &'static str,
    trace: CapturePresentationTrace,
    ending: Ending,
) -> Effect {
    Effect::Measure(
        Measurement {
            stage,
            context: trace.performance,
            trigger: Some(trace.trigger),
            workflow: None,
            pixel_size: trace.pixel_size,
            started_at: Some(trace.started_at),
            ending,
        },
    )
}

fn measure_presented(
    stage: &'static str,
    trace: CapturePresentationTrace,
    ending: Ending,
) -> (effect: Effect)
    ensures
        effect == presented(stage, trace, ending),
{
    Effect::Measure(
        Measurement {
            stage,
            context: trace.performance,
            trigger: Some(trace.trigger),
            workflow: None,
            pixel_size: trace.pixel_size,
            started_at: Some(trace.started_at),
            ending,
        },
    )
}

/// What the user wants done with changes as the program is left.
#[derive(Clone, Copy, PartialEq, Eq, Structural)]
pub enum ExitChoice {
    Save,
    Discard,
    Cancel,
}

/// What is drawn in the window.
#[derive(Clone, Copy, PartialEq, Eq, Structural)]
pub enum Screen {
    Editor,
    Library,
    Empty,
}

impl AppState {
    /// The program as it starts.
    pub fn new(
        start_visible: bool,
        has_files: bool,
        hotkey_error: Option<String>,
        permission_error: Option<String>,
        draft_available: bool,
    ) -> (started: (AppState, Vec<Effect>))
        ensures
            started.0@.well_formed(),
            (started.0@, started.1@) == AppView::started(
                start_visible,
                has_files,
                crate::application::text_of(hotkey_error),
                crate::application::text_of(permission_error),
                draft_available,
            ),
    {
        let mut library_error = match &hotkey_error {
            Some(error) => Some(concat("全局快捷键注册失败：", error.as_str())),
            None => None,
        };
        let shown = start_visible || has_files || library_error.is_some();
        if shown {
            if let Some(error) = &permission_error {
                let permission = concat(
                    "屏幕录制权限未授予；截图时会再次请求：",
                    error.as_str(),
                );
                library_error =
                Some(
                    match library_error {
                        Some(existing) => {
                            let line = concat(existing.as_str(), "\n");
                            concat(line.as_str(), permission.as_str())
                        },
                        None => permission,
                    },
                );
            }
        }
        let mut state = AppState {
            surface: WindowSurface::Hidden,
            editor_window_target: None,
            phase: Phase::Idle,
            next_capture_sequence: 0,
            next_stash_sequence: 0,
            capture_presentation_trace: None,
            persistence_ui_trace: None,
            session: None,
            draft_available,
            last_tool: None,
            exit_dialog: false,
            quit_after_persist: false,
            allow_close: false,
            persistent_error: None,
            retry_kind: None,
            library_error,
            toast: None,
        };
        let mut effects: Vec<Effect> = Vec::new();
        effects.push(state.update_tray());
        if shown {
            state.show_library_window(&mut effects);
        } else {
            effects.push(Effect::Invisible);
        }
        assert(effects@ =~= AppView::started(
            start_visible,
            has_files,
            crate::application::text_of(hotkey_error),
            crate::application::text_of(permission_error),
            draft_available,
        ).1);
        (state, effects)
    }

    /// Reads a file into the library, where it is one of the program's documents.
    pub fn import_file(&mut self, path: String, is_board: bool, now: u128) -> (effects: Vec<Effect>)
        requires
            old(self)@.well_formed(),
        ensures
            final(self)@.well_formed(),
            (final(self)@, effects@) == old(self)@.import_begun(path, is_board, now),
    {
        let mut effects: Vec<Effect> = Vec::new();
        if self.phase != Phase::Idle {
            self.set_toast("当前会话结束后才能导入讲义".to_owned(), now);
        } else if !is_board {
            self.library_error = Some("只能导入 .rsboard 讲义".to_owned());
        } else {
            effects.push(Effect::Import(path));
        }
        assert(effects@ =~= old(self)@.import_begun(path, is_board, now).1);
        effects
    }

    /// Reads a file into the library.
    pub fn start_import(&mut self, path: String, now: u128) -> (effects: Vec<Effect>)
        requires
            old(self)@.well_formed(),
        ensures
            final(self)@.well_formed(),
            (final(self)@, effects@) == old(self)@.import_begun(path, true, now) || (final(self)@,
            effects@) == old(self)@.import_begun(path, false, now),
            crate::startup::plainly_named(path@) ==> (final(self)@, effects@) == old(
                self,
            )@.import_begun(
                path,
                crate::startup::name_extension(crate::startup::last_name(path@)) == Some(
                    "rsboard"@,
                ),
                now,
            ),
    {
        let is_board = is_rsboard_file(path.as_str());
        self.import_file(path, is_board, now)
    }

    /// Reading a file could not be started.
    pub fn import_spawn_failed(&mut self, error: String)
        requires
            old(self)@.well_formed(),
        ensures
            final(self)@.well_formed(),
            final(self)@ == (AppView {
                library_error: Some("无法启动讲义导入任务："@ + error@),
                ..old(self)@
            }),
    {
        self.library_error = Some(concat("无法启动讲义导入任务：", error.as_str()));
    }

    /// Takes in a document that was read from a file, or why it could not be.
    pub fn imported(&mut self, result: Result<u128, String>, now: u128) -> (effects: Vec<Effect>)
        requires
            old(self)@.well_formed(),
        ensures
            final(self)@.well_formed(),
            (final(self)@, effects@) == old(self)@.imported(told(result), now),
    {
        let mut effects: Vec<Effect> = Vec::new();
        match result {
            Ok(document_id) => {
                effects.push(Effect::RefreshRecent(None));
                effects.push(Effect::Highlight(Some(document_id)));
                effects.push(Effect::ForgetPreview(document_id));
                if self.phase == Phase::Idle {
                    self.show_library_window(&mut effects);
                }
                self.set_toast("讲义已导入".to_owned(), now);
            },
            Err(error) => {
                self.library_error = Some(error);
            },
        }
        assert(effects@ =~= old(self)@.imported(told(result), now).1);
        effects
    }

    /// Takes in a change of the library, or why it could not be made.
    pub fn library_changed(&mut self, result: Result<Option<u128>, String>, draft_exists: bool) -> (effects:
        Vec<Effect>)
        requires
            old(self)@.well_formed(),
        ensures
            final(self)@.well_formed(),
            (final(self)@, effects@) == old(self)@.library_changed(told(result), draft_exists),
    {
        let mut effects: Vec<Effect> = Vec::new();
        match result {
            Ok(highlighted) => {
                effects.push(Effect::RefreshRecent(None));
                effects.push(Effect::Highlight(highlighted));
                self.draft_available = draft_exists;
                effects.push(Effect::ForgetUnlistedPreviews);
            },
            Err(error) => {
                self.library_error = Some(error);
            },
        }
        assert(effects@ =~= old(self)@.library_changed(told(result), draft_exists).1);
        effects
    }

    /// Takes in the end of work at the side.
    pub fn auxiliary_done(&mut self, result: Result<String, String>, now: u128) -> (effects: Vec<
        Effect,
    >)
        requires
            old(self)@.well_formed(),
        ensures
            final(self)@.well_formed(),
            (final(self)@, effects@) == old(self)@.auxiliary_done(result, now),
    {
        let mut effects: Vec<Effect> = Vec::new();
        match result {
            Ok(message) => {
                effects.push(Effect::RefreshRecent(None));
                self.set_toast(message, now);
            },
            Err(error) => self.set_toast(error, now),
        }
        assert(effects@ =~= old(self)@.auxiliary_done(result, now).1);
        effects
    }

    /// What follows a save could not be started.
    pub fn post_save_spawn_failed(&mut self, error: String, now: u128)
        requires
            old(self)@.well_formed(),
        ensures
            final(self)@.well_formed(),
            final(self)@ == old(self)@.with_toast("保存后任务启动失败："@ + error@, now),
    {
        self.set_toast(concat("保存后任务启动失败：", error.as_str()), now);
    }

    /// Takes in what editing did to the open document.
    pub fn session_changed(&mut self, revision: u64, dirty: bool, active_tool: EditorTool)
        requires
            old(self)@.well_formed(),
        ensures
            final(self)@.well_formed(),
            final(self)@ == (AppView {
                session: match old(self).session {
                    Some(session) => Some(
                        WorkingSession { revision, dirty, active_tool, ..session },
                    ),
                    None => None,
                },
                ..old(self)@
            }),
    {
        if let Some(session) = self.session {
            self.session = Some(WorkingSession { revision, dirty, active_tool, ..session });
        }
    }

    fn abandon(&mut self, effects: &mut Vec<Effect>)
        ensures
            final(self)@ == old(self)@.abandoned().0,
            final(effects)@ == old(effects)@ + old(self)@.abandoned().1,
    {
        self.remember_tool_and_release_session();
        effects.push(Effect::ReleaseSession);
        self.phase = Phase::Idle;
        self.hide_window(effects);
        assert(effects@ =~= old(effects)@ + old(self)@.abandoned().1);
    }

    /// Closes the editor. The request is used where the document has to be stashed.
    pub fn close_editor(&mut self, request: WriteRequest) -> (effects: Vec<Effect>)
        requires
            old(self)@.well_formed(),
            old(self).next_stash_sequence < u64::MAX,
        ensures
            final(self)@.well_formed(),
            (final(self)@, effects@) == old(self)@.editor_closed(request),
    {
        let mut effects: Vec<Effect> = Vec::new();
        if let Some(session) = self.session {
            if session.origin != SessionOrigin::ExistingDocument {
                effects = self.start_stash(request);
            } else if session.is_dirty() {
                self.phase = Phase::ConfirmingDiscard;
            } else {
                self.abandon(&mut effects);
            }
            effects.push(self.update_tray());
        }
        assert(effects@ =~= old(self)@.editor_closed(request).1);
        effects
    }

    /// Leaves the program, as soon as that is possible. The request is used where the
    /// document has to be stashed.
    pub fn request_quit(&mut self, request: WriteRequest) -> (effects: Vec<Effect>)
        requires
            old(self)@.well_formed(),
            old(self).next_stash_sequence < u64::MAX,
        ensures
            final(self)@.well_formed(),
            (final(self)@, effects@) == old(self)@.quit_asked(request),
    {
        let mut effects: Vec<Effect> = Vec::new();
        match self.phase {
            Phase::Saving { .. } | Phase::Stashing { .. } => {
                self.quit_after_persist = true;
            },
            Phase::Editing | Phase::ConfirmingDiscard => {
                if let Some(session) = self.session {
                    if session.origin != SessionOrigin::ExistingDocument {
                        self.phase = Phase::Editing;
                        self.quit_after_persist = true;
                        effects = self.start_stash(request);
                    } else if session.is_dirty() {
                        self.phase = Phase::Editing;
                        self.exit_dialog = true;
                    } else {
                        self.allow_close = true;
                        effects.push(Effect::CloseWindow);
                    }
                }
            },
            _ => {
                self.allow_close = true;
                effects.push(Effect::CloseWindow);
            },
        }
        assert(effects@ =~= old(self)@.quit_asked(request).1);
        effects
    }

    /// The user asks for the window to be closed.
    pub fn close_requested(&mut self, request: WriteRequest, cursor: Option<(i32, i32)>) -> (effects:
        Vec<Effect>)
        requires
            old(self)@.well_formed(),
            old(self).next_stash_sequence < u64::MAX,
        ensures
            final(self)@.well_formed(),
            (final(self)@, effects@) == old(self)@.close_asked(request, cursor),
    {
        let mut effects: Vec<Effect> = Vec::new();
        if !self.allow_close {
            effects.push(Effect::CancelClose);
            if self.surface == WindowSurface::Library && self.phase.has_active_session() {
                let target = choose_window_target(None, cursor);
                self.show_editor_window(target, &mut effects);
            } else if self.phase == Phase::Idle {
                self.hide_window(&mut effects);
            } else {
                let mut rest = self.request_quit(request);
                effects.append(&mut rest);
            }
        }
        assert(effects@ =~= old(self)@.close_asked(request, cursor).1);
        effects
    }

    /// The tray asks for the library.
    pub fn show_recent(&mut self, now: u128) -> (effects: Vec<Effect>)
        requires
            old(self)@.well_formed(),
        ensures
            final(self)@.well_formed(),
            (final(self)@, effects@) == old(self)@.recent_asked(now),
    {
        let mut effects: Vec<Effect> = Vec::new();
        if self.phase.is_persisting() {
            self.set_toast("保存或暂存完成后再打开最近讲义".to_owned(), now);
        } else {
            self.show_library_window(&mut effects);
        }
        assert(effects@ =~= old(self)@.recent_asked(now).1);
        effects
    }

    /// Goes from the library back to the open document, where there is one.
    pub fn back_to_editor(&mut self, cursor: Option<(i32, i32)>) -> (effects: Vec<Effect>)
        requires
            old(self)@.well_formed(),
        ensures
            final(self)@.well_formed(),
            if old(self).phase.holds_session() {
                &&& final(self)@ == old(self)@.with_editor_shown(window_target(None, cursor))
                &&& effects@ == seq![Effect::ShowEditorWindow(window_target(None, cursor))]
            } else {
                &&& final(self)@ == old(self)@
                &&& effects@.len() == 0
            },
    {
        let mut effects: Vec<Effect> = Vec::new();
        if self.phase.has_active_session() {
            let target = choose_window_target(None, cursor);
            self.show_editor_window(target, &mut effects);
            assert(effects@ =~= seq![Effect::ShowEditorWindow(window_target(None, cursor))]);
        }
        effects
    }

    /// Goes on editing a document whose changes were to be thrown away.
    pub fn keep_editing(&mut self)
        requires
            old(self)@.well_formed(),
        ensures
            final(self)@.well_formed(),
            final(self)@ == (AppView {
                phase: if old(self).phase == Phase::ConfirmingDiscard {
                    Phase::Editing
                } else {
                    old(self).phase
                },
                ..old(self)@
            }),
    {
        if self.phase == Phase::ConfirmingDiscard {
            self.phase = Phase::Editing;
        }
    }

    /// Throws the changes of the open document away, where the user was asked.
    pub fn discard_changes(&mut self) -> (effects: Vec<Effect>)
        requires
            old(self)@.well_formed(),
        ensures
            final(self)@.well_formed(),
            if old(self).phase == Phase::ConfirmingDiscard {
                (final(self)@, effects@) == old(self)@.abandoned()
            } else {
                final(self)@ == old(self)@ && effects@.len() == 0
            },
    {
        let mut effects: Vec<Effect> = Vec::new();
        if self.phase == Phase::ConfirmingDiscard {
            self.abandon(&mut effects);
            assert(effects@ =~= old(self)@.abandoned().1);
        }
        effects
    }

    /// Takes in what the user wants done with changes as the program is left. The request is
    /// used where the document is saved.
    pub fn exit_chosen(&mut self, choice: ExitChoice, request: WriteRequest) -> (effects: Vec<Effect>)
        requires
            old(self)@.well_formed(),
        ensures
            final(self)@.well_formed(),
            (final(self)@, effects@) == ({
                let answered = AppView { exit_dialog: false, ..old(self)@ };
                match choice {
                    ExitChoice::Cancel => (answered, Seq::empty()),
                    ExitChoice::Discard => (answered.closing(), seq![Effect::CloseWindow]),
                    ExitChoice::Save => AppView {
                        quit_after_persist: true,
                        ..answered
                    }.save_begun(request),
                }
            }),
    {
        self.exit_dialog = false;
        match choice {
            ExitChoice::Cancel => Vec::new(),
            ExitChoice::Discard => {
                self.allow_close = true;
                let mut effects: Vec<Effect> = Vec::new();
                effects.push(Effect::CloseWindow);
                assert(effects@ =~= seq![Effect::CloseWindow]);
                effects
            },
            ExitChoice::Save => {
                self.quit_after_persist = true;
                self.start_save(request)
            },
        }
    }

    /// Tries again what failed.
    pub fn retry(&mut self, request: WriteRequest) -> (effects: Vec<Effect>)
        requires
            old(self)@.well_formed(),
            old(self).next_stash_sequence < u64::MAX,
        ensures
            final(self)@.well_formed(),
            (final(self)@, effects@) == old(self)@.retried(request),
    {
        match self.retry_kind {
            Some(RetryKind::Save) => self.start_save(request),
            Some(RetryKind::Stash) => self.start_stash(request),
            None => Vec::new(),
        }
    }

    /// Puts the editor's error away.
    pub fn close_error(&mut self)
        requires
            old(self)@.well_formed(),
        ensures
            final(self)@.well_formed(),
            final(self)@ == (AppView { persistent_error: None, retry_kind: None, ..old(self)@ }),
    {
        self.persistent_error = None;
        self.retry_kind = None;
    }

    /// Puts the library's error away.
    pub fn close_library_error(&mut self)
        requires
            old(self)@.well_formed(),
        ensures
            final(self)@.well_formed(),
            final(self)@ == (AppView { library_error: None, ..old(self)@ }),
    {
        self.library_error = None;
    }

    /// A command of the editor failed.
    pub fn command_failed(&mut self, error: String)
        requires
            old(self)@.well_formed(),
        ensures
            final(self)@.well_formed(),
            final(self)@ == (AppView { persistent_error: Some(error@), ..old(self)@ }),
    {
        self.persistent_error = Some(error);
    }

    /// What is drawn in the window.
    pub fn screen(&self) -> (screen: Screen)
        ensures
            screen == (if self.surface == WindowSurface::Library {
                Screen::Library
            } else if self.surface == WindowSurface::Editor && self.session is Some {
                Screen::Editor
            } else {
                Screen::Empty
            }),
    {
        match self.surface {
            WindowSurface::Library => Screen::Library,
            WindowSurface::Editor => {
                if self.session.is_some() {
                    Screen::Editor
                } else {
                    Screen::Empty
                }
            },
            WindowSurface::Hidden => Screen::Empty,
        }
    }

    /// A frame was drawn.
    pub fn frame_presented(&mut self) -> (effects: Vec<Effect>)
        requires
            old(self)@.well_formed(),
        ensures
            final(self)@.well_formed(),
            (final(self)@, effects@) == old(self)@.frame_drawn(),
    {
        let mut effects: Vec<Effect> = Vec::new();
        if self.surface == WindowSurface::Editor {
            if let Some(trace) = self.capture_presentation_trace {
                self.capture_presentation_trace = None;
                let same = match self.session {
                    Some(session) => match (
                        session.capture_sequence,
                        trace.performance.capture_sequence,
                    ) {
                        (Some(left), Some(right)) => left == right,
                        (None, None) => true,
                        _ => false,
                    },
                    None => false,
                };
                let ending = if same {
                    Ending::Success
                } else {
                    Ending::Stale
                };
                effects.push(measure_presented("capture.editor_frame_submitted", trace, ending));
                effects.push(measure_presented("capture.request.total", trace, ending));
            }
        }
        assert(effects@ =~= old(self)@.frame_drawn().1);
        effects
    }

    /// Takes a notice off the screen once its time is over. Says whether one is to be drawn.
    pub fn toast_visible(&mut self, now: u128) -> (visible: bool)
        requires
            old(self)@.well_formed(),
        ensures
            final(self)@.well_formed(),
            visible == (old(self).toast is Some && !old(self)@.toast_over(now)),
            final(self)@ == (if old(self)@.toast_over(now) {
                AppView { toast: None, ..old(self)@ }
            } else {
                old(self)@
            }),
    {
        let over = match &self.toast {
            None => {
                return false;
            },
            Some((_, shown_at)) => now > *shown_at && now - *shown_at > TOAST_LIFETIME,
        };
        if over {
            self.toast = None;
        }
        !over
    }
}

} // verus!
