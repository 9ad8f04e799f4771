//! The state of the whole program: what it is doing, which document is open, which window
//! is shown, and what follows from each event.

use vstd::prelude::*;

use crate::performance::PerformanceContext;
use crate::persistence::PersistenceContext;
use crate::session::{
    capture_context, capture_total, measure_capture, measure_write, next_sequence, write_total,
    CapturePresentationTrace, CaptureTrigger, Ending, Measurement, PersistenceUiTrace,
    SessionOrigin, WorkingSession,
};
use crate::text::concat;
use crate::tools::EditorTool;

verus! {

/// How long a notice stays on screen, in nanoseconds.
pub const TOAST_LIFETIME: u128 = 4_000_000_000;

/// What the program is doing.
#[derive(Clone, Copy, PartialEq, Eq, Structural)]
pub enum Phase {
    Idle,
    Capturing { request_id: u128, capture_sequence: u64 },
    Editing,
    Saving { request_id: u128 },
    Stashing { request_id: u128, generation_id: u128 },
    Opening { request_id: u128, document_id: u128 },
    Restoring { request_id: u128 },
    ConfirmingDiscard,
}

impl Phase {
    /// Whether a document is open.
    pub open spec fn holds_session(self) -> bool {
        self is Editing || self is Saving || self is Stashing || self is ConfirmingDiscard
    }

    /// Whether a document is open.
    pub fn has_active_session(self) -> (yes: bool)
        ensures
            yes == self.holds_session(),
    {
        match self {
            Phase::Editing => true,
            Phase::Saving { request_id: _ } => true,
            Phase::Stashing { request_id: _, generation_id: _ } => true,
            Phase::ConfirmingDiscard => true,
            _ => false,
        }
    }

    /// Whether a document is being written.
    pub fn is_persisting(self) -> (yes: bool)
        ensures
            yes == (self is Saving || self is Stashing),
    {
        match self {
            Phase::Saving { request_id: _ } => true,
            Phase::Stashing { request_id: _, generation_id: _ } => true,
            _ => false,
        }
    }
}

/// The window that is shown.
#[derive(Clone, Copy, PartialEq, Eq, Structural)]
pub enum WindowSurface {
    Hidden,
    Library,
    Editor,
}

/// Whether a window covers the whole screen without a frame.
pub fn uses_screen_overlay(surface: WindowSurface) -> (yes: bool)
    ensures
        yes == (surface == WindowSurface::Editor),
{
    surface == WindowSurface::Editor
}

/// Where the editor's window goes: over a display (left, top, width, height), or to the
/// display under the cursor.
#[derive(Clone, Copy)]
pub enum EditorWindowTarget {
    DisplayBounds(i32, i32, i32, i32),
    Cursor(i32, i32),
}

/// Twice the point that tells the display that the editor's window goes to: the middle of
/// a display, or the cursor.
pub fn editor_window_target_point(target: EditorWindowTarget) -> (twice: (i64, i64))
    ensures
        match target {
            EditorWindowTarget::DisplayBounds(x, y, width, height) => twice.0 == 2 * x + width
                && twice.1 == 2 * y + height,
            EditorWindowTarget::Cursor(x, y) => twice.0 == 2 * x && twice.1 == 2 * y,
        },
{
    match target {
        EditorWindowTarget::DisplayBounds(x, y, width, height) => (
            2 * x as i64 + width as i64,
            2 * y as i64 + height as i64,
        ),
        EditorWindowTarget::Cursor(x, y) => (2 * x as i64, 2 * y as i64),
    }
}

/// What can be tried again.
#[derive(Clone, Copy, PartialEq, Eq, Structural)]
pub enum RetryKind {
    Save,
    Stash,
}

/// What has to be done outside.
pub enum Effect {
    /// Log a measurement.
    Measure(Measurement),
    /// Tell the tray whether the program is busy and whether there is a draft.
    SetTray { busy: bool, draft_available: bool },
    /// Take the window off the screen, and capture the display that was prepared.
    Capture { request_id: u128, capture_sequence: u64 },
    /// Read a document.
    Open { request_id: u128, document_id: u128 },
    /// Read the latest draft.
    Restore { request_id: u128 },
    /// Write the document.
    Save { context: PersistenceContext },
    /// Write the document as the latest draft.
    Stash { context: PersistenceContext, generation_id: u128 },
    /// Read a document from a file.
    Import(String),
    /// Make the preview of the document, and do what else follows a save.
    FinishSave {
        performance: PerformanceContext,
        document_id: u128,
        revision: u64,
        draft_generation: Option<u128>,
    },
    /// Let go of the document's contents.
    ReleaseSession,
    ShowEditorWindow(Option<EditorWindowTarget>),
    ShowLibraryWindow,
    HideWindow,
    /// Take the window off the screen, and leave it as it is otherwise.
    Invisible,
    CloseWindow,
    /// Do not close the window, though the user asked for it.
    CancelClose,
    /// Read the list of documents again; the time it takes is measured where that belongs
    /// to something.
    RefreshRecent(Option<PerformanceContext>),
    /// Mark a document in the list, or none.
    Highlight(Option<u128>),
    /// Forget the picture of a document's preview.
    ForgetPreview(u128),
    /// Forget the previews of documents that are no longer listed.
    ForgetUnlistedPreviews,
}

/// The state of the program. Moments are in nanoseconds.
pub struct AppState {
    pub surface: WindowSurface,
    pub editor_window_target: Option<EditorWindowTarget>,
    pub phase: Phase,
    pub next_capture_sequence: u64,
    pub next_stash_sequence: u64,
    pub capture_presentation_trace: Option<CapturePresentationTrace>,
    pub persistence_ui_trace: Option<PersistenceUiTrace>,
    pub session: Option<WorkingSession>,
    pub draft_available: bool,
    pub last_tool: Option<EditorTool>,
    pub exit_dialog: bool,
    pub quit_after_persist: bool,
    pub allow_close: bool,
    pub persistent_error: Option<String>,
    pub retry_kind: Option<RetryKind>,
    pub library_error: Option<String>,
    pub toast: Option<(String, u128)>,
}

/// The state of the program, with texts as sequences of characters.
pub struct AppView {
    pub surface: WindowSurface,
    pub editor_window_target: Option<EditorWindowTarget>,
    pub phase: Phase,
    pub next_capture_sequence: u64,
    pub next_stash_sequence: u64,
    pub capture_presentation_trace: Option<CapturePresentationTrace>,
    pub persistence_ui_trace: Option<PersistenceUiTrace>,
    pub session: Option<WorkingSession>,
    pub draft_available: bool,
    pub last_tool: Option<EditorTool>,
    pub exit_dialog: bool,
    pub quit_after_persist: bool,
    pub allow_close: bool,
    pub persistent_error: Option<Seq<char>>,
    pub retry_kind: Option<RetryKind>,
    pub library_error: Option<Seq<char>>,
    pub toast: Option<(Seq<char>, u128)>,
}

/// A text that may be missing.
pub open spec fn text_of(text: Option<String>) -> Option<Seq<char>> {
    match text {
        Some(text) => Some(text@),
        None => None,
    }
}

impl View for AppState {
    type V = AppView;

    open spec fn view(&self) -> AppView {
        AppView {
            surface: self.surface,
            editor_window_target: self.editor_window_target,
            phase: self.phase,
            next_capture_sequence: self.next_capture_sequence,
            next_stash_sequence: self.next_stash_sequence,
            capture_presentation_trace: self.capture_presentation_trace,
            persistence_ui_trace: self.persistence_ui_trace,
            session: self.session,
            draft_available: self.draft_available,
            last_tool: self.last_tool,
            exit_dialog: self.exit_dialog,
            quit_after_persist: self.quit_after_persist,
            allow_close: self.allow_close,
            persistent_error: text_of(self.persistent_error),
            retry_kind: self.retry_kind,
            library_error: text_of(self.library_error),
            toast: match self.toast {
                Some((text, shown_at)) => Some((text@, shown_at)),
                None => None,
            },
        }
    }
}

/// What is needed to write the document: numbers that are new, the moment, and whether the
/// document could be put in a form that can be written.
pub struct WriteRequest {
    pub request_id: u128,
    pub generation_id: u128,
    pub started_at: u128,
    pub snapshot: Result<(), String>,
}

/// A capture that has been begun.
#[derive(Clone, Copy)]
pub struct CaptureStart {
    pub request_id: u128,
    pub capture_sequence: u64,
    pub trigger: CaptureTrigger,
}

/// What a captured picture says of itself.
#[derive(Clone, Copy)]
pub struct CapturedFrame {
    pub request_id: u128,
    pub capture_sequence: u64,
    pub pixel_size: (u32, u32),
    /// The display's place: left, top, width, height.
    pub bounds: (i32, i32, i32, i32),
}

/// A document that was saved.
#[derive(Clone, Copy, PartialEq, Eq, Structural)]
pub struct SavedDocument {
    pub context: PersistenceContext,
    pub document_id: u128,
    pub revision: u64,
}

impl AppView {
    /// A document is open exactly in the phases that work on one.
    pub open spec fn well_formed(&self) -> bool {
        self.phase.holds_session() <==> self.session is Some
    }

    /// What the tray is told.
    pub open spec fn tray(self) -> Effect {
        Effect::SetTray { busy: self.phase != Phase::Idle, draft_available: self.draft_available }
    }

    /// The library is shown.
    pub open spec fn with_library_shown(self) -> AppView {
        AppView { surface: WindowSurface::Library, ..self }
    }

    /// No window is shown.
    pub open spec fn with_window_hidden(self) -> AppView {
        AppView { surface: WindowSurface::Hidden, ..self }
    }

    /// The editor is shown over a display, or over the one under the cursor.
    pub open spec fn with_editor_shown(self, target: Option<EditorWindowTarget>) -> AppView {
        AppView { surface: WindowSurface::Editor, editor_window_target: target, ..self }
    }

    /// No document is open; its tool is kept in mind.
    pub open spec fn with_session_released(self) -> AppView {
        match self.session {
            Some(session) => AppView {
                session: None,
                last_tool: Some(session.active_tool),
                ..self
            },
            None => self,
        }
    }

    /// A notice is shown.
    pub open spec fn with_toast(self, text: Seq<char>, now: u128) -> AppView {
        AppView { toast: Some((text, now)), ..self }
    }

    /// The program may be closed.
    pub open spec fn closing(self) -> AppView {
        AppView { allow_close: true, ..self }
    }

    /// The write of a request, where it is under way.
    pub open spec fn trace_for(self, request_id: u128) -> Option<PersistenceUiTrace> {
        match self.persistence_ui_trace {
            Some(trace) if trace.performance.request_id == Some(request_id) => Some(trace),
            _ => None,
        }
    }

    /// The write of a request is no longer under way.
    pub open spec fn without_trace(self, request_id: u128) -> AppView {
        if self.trace_for(request_id) is Some {
            AppView { persistence_ui_trace: None, ..self }
        } else {
            self
        }
    }

    /// What is measured of the write of a request that has ended.
    pub open spec fn trace_ending(self, request_id: u128, ending: Ending) -> Seq<Effect> {
        match self.trace_for(request_id) {
            Some(trace) => seq![Effect::Measure(write_total(trace, ending))],
            None => Seq::empty(),
        }
    }

    /// Whether what was written is the document that is open, for the request that was made.
    pub open spec fn result_matches(
        self,
        persistence: PersistenceContext,
        expected: PersistenceContext,
        document_id: u128,
        revision: u64,
    ) -> bool {
        match self.session {
            Some(session) => {
                &&& persistence == expected
                &&& persistence.session_id == session.session_id
                &&& persistence.capture_sequence == session.capture_sequence
                &&& document_id == session.document_id
                &&& revision == session.revision
            },
            None => false,
        }
    }
}

impl AppState {
    /// What the tray is told.
    pub fn update_tray(&self) -> (effect: Effect)
        ensures
            effect == self@.tray(),
    {
        Effect::SetTray { busy: self.phase != Phase::Idle, draft_available: self.draft_available }
    }

    /// Shows a notice.
    pub fn set_toast(&mut self, message: String, now: u128)
        ensures
            final(self)@ == old(self)@.with_toast(message@, now),
    {
        self.toast = Some((message, now));
    }

    /// The write of a request, where it is under way.
    pub fn persistence_trace_for(&self, request_id: u128) -> (trace: Option<PersistenceUiTrace>)
        ensures
            trace == self@.trace_for(request_id),
    {
        match self.persistence_ui_trace {
            Some(trace) => {
                match trace.performance.request_id {
                    Some(id) => {
                        if id == request_id {
                            Some(trace)
                        } else {
                            None
                        }
                    },
                    None => None,
                }
            },
            None => None,
        }
    }

    /// Ends the measurement of the write of a request.
    pub fn finish_persistence_trace(
        &mut self,
        request_id: u128,
        ending: Ending,
        effects: &mut Vec<Effect>,
    )
        ensures
            final(self)@ == old(self)@.without_trace(request_id),
            final(effects)@ == old(effects)@ + old(self)@.trace_ending(request_id, ending),
    {
        if let Some(trace) = self.persistence_trace_for(request_id) {
            self.persistence_ui_trace = None;
            effects.push(Effect::Measure(measure_write(trace, ending)));
        }
        assert(effects@ =~= old(effects)@ + old(self)@.trace_ending(request_id, ending));
    }

    /// Whether what was written is the document that is open, for the request that was made.
    pub fn persistence_result_matches(
        &self,
        persistence: PersistenceContext,
        expected: PersistenceContext,
        document_id: u128,
        revision: u64,
    ) -> (matches: bool)
        ensures
            matches == self@.result_matches(persistence, expected, document_id, revision),
    {
        match self.session {
            Some(session) => {
                let same_capture = match (persistence.capture_sequence, session.capture_sequence) {
                    (Some(left), Some(right)) => left == right,
                    (None, None) => true,
                    _ => false,
                };
                persistence == expected && persistence.session_id == session.session_id
                    && same_capture && document_id == session.document_id && revision
                    == session.revision
            },
            None => false,
        }
    }

    /// Lets go of the open document, and keeps its tool in mind.
    pub fn remember_tool_and_release_session(&mut self)
        ensures
            final(self)@ == old(self)@.with_session_released(),
    {
        if let Some(session) = self.session {
            self.last_tool = Some(session.active_tool);
            self.session = None;
        }
    }

    pub(crate) fn show_library_window(&mut self, effects: &mut Vec<Effect>)
        ensures
            final(self)@ == old(self)@.with_library_shown(),
            final(effects)@ == old(effects)@.push(Effect::ShowLibraryWindow),
    {
        self.surface = WindowSurface::Library;
        effects.push(Effect::ShowLibraryWindow);
    }

    pub(crate) fn hide_window(&mut self, effects: &mut Vec<Effect>)
        ensures
            final(self)@ == old(self)@.with_window_hidden(),
            final(effects)@ == old(effects)@.push(Effect::HideWindow),
    {
        self.surface = WindowSurface::Hidden;
        effects.push(Effect::HideWindow);
    }

    pub(crate) fn show_editor_window(
        &mut self,
        target: Option<EditorWindowTarget>,
        effects: &mut Vec<Effect>,
    )
        ensures
            final(self)@ == old(self)@.with_editor_shown(target),
            final(effects)@ == old(effects)@.push(Effect::ShowEditorWindow(target)),
    {
        self.surface = WindowSurface::Editor;
        self.editor_window_target = target;
        effects.push(Effect::ShowEditorWindow(target));
    }
}

/// Where the editor's window goes: over a display where one is given, or else to the
/// cursor, where its place is known.
pub open spec fn window_target(
    bounds: Option<(i32, i32, i32, i32)>,
    cursor: Option<(i32, i32)>,
) -> Option<EditorWindowTarget> {
    match bounds {
        Some((x, y, width, height)) => Some(
            EditorWindowTarget::DisplayBounds(x, y, width, height),
        ),
        None => match cursor {
            Some((x, y)) => Some(EditorWindowTarget::Cursor(x, y)),
            None => None,
        },
    }
}

/// Where the editor's window goes.
pub fn choose_window_target(
    bounds: Option<(i32, i32, i32, i32)>,
    cursor: Option<(i32, i32)>,
) -> (target: Option<EditorWindowTarget>)
    ensures
        target == window_target(bounds, cursor),
{
    match bounds {
        Some((x, y, width, height)) => Some(
            EditorWindowTarget::DisplayBounds(x, y, width, height),
        ),
        None => match cursor {
            Some((x, y)) => Some(EditorWindowTarget::Cursor(x, y)),
            None => None,
        },
    }
}

/// The measurement of how fast a capture was set off.
pub open spec fn dispatched(
    trigger: CaptureTrigger,
    context: PerformanceContext,
    ending: Ending,
) -> Effect {
    Effect::Measure(
        Measurement {
            stage: "capture.request.dispatch",
            context,
            trigger: Some(trigger.source),
            workflow: None,
            pixel_size: None,
            started_at: Some(trigger.received_at),
            ending,
        },
    )
}

/// The measurement of the making of a document from a picture.
pub open spec fn session_prepared(
    context: PerformanceContext,
    pixel_size: (u32, u32),
    started_at: u128,
    made: bool,
) -> Effect {
    Effect::Measure(
        Measurement {
            stage: "capture.session.prepare",
            context,
            trigger: None,
            workflow: None,
            pixel_size: Some(pixel_size),
            started_at: Some(started_at),
            ending: if made {
                Ending::Success
            } else {
                Ending::Failed(Some("capture.session_prepare_failed"))
            },
        },
    )
}

fn measure_session_prepared(
    context: PerformanceContext,
    pixel_size: (u32, u32),
    started_at: u128,
    made: bool,
) -> (effect: Effect)
    ensures
        effect == session_prepared(context, pixel_size, started_at, made),
{
    Effect::Measure(
        Measurement {
            stage: "capture.session.prepare",
            context,
            trigger: None,
            workflow: None,
            pixel_size: Some(pixel_size),
            started_at: Some(started_at),
            ending: if made {
                Ending::Success
            } else {
                Ending::Failed(Some("capture.session_prepare_failed"))
            },
        },
    )
}

/// The trace of a capture that has been begun.
pub open spec fn trace_of(start: CaptureStart) -> CapturePresentationTrace {
    CapturePresentationTrace {
        performance: capture_context(start.request_id, start.capture_sequence),
        started_at: start.trigger.received_at,
        trigger: start.trigger.source,
        pixel_size: None,
    }
}

impl AppView {
    /// A capture is asked for: it is refused while the program is doing anything.
    pub open spec fn capture_begun(
        self,
        request_id: u128,
        trigger: CaptureTrigger,
        now: u128,
    ) -> (AppView, Option<CaptureStart>, Seq<Effect>) {
        if self.phase != Phase::Idle {
            (
                self.with_toast("正在处理当前任务"@, now),
                None,
                seq![dispatched(trigger, crate::performance::no_context(), Ending::Rejected)],
            )
        } else {
            let sequence = (self.next_capture_sequence + 1) as u64;
            (
                AppView { next_capture_sequence: sequence, ..self },
                Some(CaptureStart { request_id, capture_sequence: sequence, trigger }),
                seq![dispatched(trigger, capture_context(request_id, sequence), Ending::Success)],
            )
        }
    }

    /// A capture was given up: the library says why.
    pub open spec fn capture_given_up(self, error: Seq<char>) -> AppView {
        AppView { phase: Phase::Idle, library_error: Some(error), ..self }.with_library_shown()
    }

    /// The display to be captured was prepared, or could not be.
    pub open spec fn capture_prepared(
        self,
        start: CaptureStart,
        prepared: Result<(), Seq<char>>,
    ) -> (AppView, Seq<Effect>) {
        match prepared {
            Err(error) => (
                self.capture_given_up(error),
                seq![
                    Effect::Measure(capture_total(trace_of(start), Ending::Failed(None))),
                    Effect::ShowLibraryWindow,
                ],
            ),
            Ok(_) => {
                let next = AppView {
                    phase: Phase::Capturing {
                        request_id: start.request_id,
                        capture_sequence: start.capture_sequence,
                    },
                    capture_presentation_trace: Some(trace_of(start)),
                    surface: WindowSurface::Hidden,
                    library_error: None,
                    ..self
                };
                (
                    next,
                    seq![
                        next.tray(),
                        Effect::Capture {
                            request_id: start.request_id,
                            capture_sequence: start.capture_sequence,
                        },
                    ],
                )
            },
        }
    }

    /// The capture could not be started.
    pub open spec fn capture_spawn_failed(
        self,
        start: CaptureStart,
        error: Seq<char>,
    ) -> (AppView, Seq<Effect>) {
        let next = AppView { capture_presentation_trace: None, ..self }.capture_given_up(
            "无法启动截图任务："@ + error,
        );
        (
            next,
            seq![
                Effect::Measure(capture_total(trace_of(start), Ending::Failed(None))),
                Effect::ShowLibraryWindow,
                next.tray(),
            ],
        )
    }

    /// The trace of a capture, where it is that of `context`.
    pub open spec fn capture_trace_for(self, context: PerformanceContext) -> Option<
        CapturePresentationTrace,
    > {
        match self.capture_presentation_trace {
            Some(trace) if trace.performance == context => Some(trace),
            _ => None,
        }
    }

    /// A capture failed: the library says why.
    pub open spec fn capture_failed(
        self,
        request_id: u128,
        capture_sequence: u64,
        error: Seq<char>,
    ) -> (AppView, Seq<Effect>) {
        (
            AppView { capture_presentation_trace: None, ..self }.capture_given_up(error),
            (match self.capture_trace_for(capture_context(request_id, capture_sequence)) {
                Some(trace) => seq![
                    Effect::Measure(
                        capture_total(trace, Ending::Failed(Some("capture.request_failed"))),
                    ),
                ],
                None => Seq::empty(),
            }).push(Effect::ShowLibraryWindow),
        )
    }

    /// A picture came. One that nobody waits for changes nothing but what is measured; the
    /// picture of another request counts as a failure. Says whether the document is to be
    /// made from it.
    pub open spec fn capture_arrived(
        self,
        request_id: u128,
        capture_sequence: u64,
        completed_at: u128,
        now: u128,
        result: Result<CapturedFrame, Seq<char>>,
    ) -> (AppView, bool, Seq<Effect>) {
        let context = capture_context(request_id, capture_sequence);
        let arrival = Effect::Measure(
            Measurement {
                stage: "capture.worker_to_ui",
                context,
                trigger: None,
                workflow: None,
                pixel_size: None,
                started_at: Some(completed_at),
                ending: Ending::Success,
            },
        );
        if self.phase != (Phase::Capturing { request_id, capture_sequence }) {
            let stale = Effect::Measure(
                Measurement {
                    stage: "capture.result",
                    context,
                    trigger: None,
                    workflow: None,
                    pixel_size: None,
                    started_at: None,
                    ending: Ending::Stale,
                },
            );
            match self.capture_trace_for(context) {
                Some(trace) => (
                    AppView { capture_presentation_trace: None, ..self },
                    false,
                    seq![arrival, Effect::Measure(capture_total(trace, Ending::Stale)), stale],
                ),
                None => (self, false, seq![arrival, stale]),
            }
        } else {
            match result {
                Err(error) => {
                    let (next, effects) = self.capture_failed(request_id, capture_sequence, error);
                    (next, false, seq![arrival] + effects)
                },
                Ok(frame) => if frame.request_id != request_id || frame.capture_sequence
                    != capture_sequence {
                    let (next, effects) = self.capture_failed(
                        request_id,
                        capture_sequence,
                        "capture result correlation did not match the active request"@,
                    );
                    let refused = session_prepared(context, frame.pixel_size, now, false);
                    (next, false, seq![arrival, refused] + effects)
                } else {
                    (self, true, seq![arrival])
                },
            }
        }
    }

    /// The document was made from the picture, or could not be.
    pub open spec fn capture_session(
        self,
        frame: CapturedFrame,
        started_at: u128,
        session: Result<WorkingSession, Seq<char>>,
    ) -> (AppView, Seq<Effect>) {
        let context = capture_context(frame.request_id, frame.capture_sequence);
        match session {
            Err(error) => {
                let (next, effects) = self.capture_failed(
                    frame.request_id,
                    frame.capture_sequence,
                    error,
                );
                (next, seq![session_prepared(context, frame.pixel_size, started_at, false)] + effects)
            },
            Ok(session) => {
                let target = window_target(Some(frame.bounds), None);
                (
                    AppView {
                        capture_presentation_trace: match self.capture_presentation_trace {
                            Some(trace) if trace.performance == context => Some(
                                CapturePresentationTrace {
                                    pixel_size: Some(frame.pixel_size),
                                    ..trace
                                },
                            ),
                            other => other,
                        },
                        session: Some(session),
                        phase: Phase::Editing,
                        ..self
                    }.with_editor_shown(target),
                    seq![
                        session_prepared(context, frame.pixel_size, started_at, true),
                        Effect::ShowEditorWindow(target),
                    ],
                )
            },
        }
    }

    /// A document is to be opened: only while the program does nothing else.
    pub open spec fn open_begun(self, document_id: u128, request_id: u128) -> (AppView, Seq<Effect>) {
        if self.phase != Phase::Idle {
            (self, Seq::empty())
        } else {
            let next = AppView { phase: Phase::Opening { request_id, document_id }, ..self };
            (next, seq![Effect::Open { request_id, document_id }, next.tray()])
        }
    }

    /// The latest draft is to be opened: only while the program does nothing else and there
    /// is one.
    pub open spec fn restore_begun(self, request_id: u128) -> (AppView, Seq<Effect>) {
        if self.phase != Phase::Idle || !self.draft_available {
            (self, Seq::empty())
        } else {
            let next = AppView { phase: Phase::Restoring { request_id }, ..self };
            (next, seq![Effect::Restore { request_id }, next.tray()])
        }
    }

    /// Work could not be started: the library says why.
    pub open spec fn start_failed(self, message: Seq<char>) -> (AppView, Seq<Effect>) {
        let next = AppView { phase: Phase::Idle, library_error: Some(message), ..self };
        (next, seq![next.tray()])
    }

    /// A document is open in the editor.
    pub open spec fn with_document(
        self,
        session: WorkingSession,
        cursor: Option<(i32, i32)>,
    ) -> (AppView, Seq<Effect>) {
        let target = window_target(None, cursor);
        (
            AppView { session: Some(session), phase: Phase::Editing, ..self }.with_editor_shown(
                target,
            ),
            seq![Effect::ShowEditorWindow(target)],
        )
    }

    /// A document was read, or could not be.
    pub open spec fn opened(
        self,
        request_id: u128,
        document_id: u128,
        session: Result<WorkingSession, Seq<char>>,
        cursor: Option<(i32, i32)>,
    ) -> (AppView, Seq<Effect>) {
        if self.phase != (Phase::Opening { request_id, document_id }) {
            (self, Seq::empty())
        } else {
            match session {
                Ok(session) => self.with_document(
                    WorkingSession {
                        origin: SessionOrigin::ExistingDocument,
                        capture_sequence: None,
                        ..session
                    },
                    cursor,
                ),
                Err(error) => (
                    AppView { phase: Phase::Idle, library_error: Some(error), ..self },
                    Seq::empty(),
                ),
            }
        }
    }
}

/// The latest draft as it was read: its generation, and the document made from it.
pub struct RestoredDraft {
    pub generation_id: u128,
    pub session: Result<WorkingSession, String>,
}

/// A result with its error as a sequence of characters.
pub open spec fn told<T>(result: Result<T, String>) -> Result<T, Seq<char>> {
    match result {
        Ok(value) => Ok(value),
        Err(error) => Err(error@),
    }
}

impl AppView {
    /// The latest draft was read, or could not be, or is not there. A draft that is opened
    /// counts as a capture of its own.
    pub open spec fn restored(
        self,
        request_id: u128,
        result: Result<Option<RestoredDraft>, String>,
        cursor: Option<(i32, i32)>,
    ) -> (AppView, Seq<Effect>) {
        if self.phase != (Phase::Restoring { request_id }) {
            (self, Seq::empty())
        } else {
            match result {
                Ok(Some(draft)) => {
                    let sequence = (self.next_capture_sequence + 1) as u64;
                    let counted = AppView { next_capture_sequence: sequence, ..self };
                    match draft.session {
                        Ok(session) => counted.with_document(
                            WorkingSession {
                                origin: SessionOrigin::LatestDraft {
                                    generation_id: draft.generation_id,
                                },
                                capture_sequence: Some(sequence),
                                ..session
                            },
                            cursor,
                        ),
                        Err(error) => (
                            AppView { phase: Phase::Idle, library_error: Some(error@), ..counted },
                            Seq::empty(),
                        ),
                    }
                },
                Ok(None) => (
                    AppView {
                        phase: Phase::Idle,
                        draft_available: false,
                        library_error: Some("没有可恢复的草稿"@),
                        ..self
                    },
                    Seq::empty(),
                ),
                Err(error) => (
                    AppView { phase: Phase::Idle, library_error: Some(error@), ..self },
                    Seq::empty(),
                ),
            }
        }
    }
}

impl AppState {
    /// Asks for a capture. It is refused while the program is doing anything.
    pub fn start_capture(&mut self, request_id: u128, trigger: CaptureTrigger, now: u128) -> (begun:
        (Option<CaptureStart>, Vec<Effect>))
        requires
            old(self)@.well_formed(),
            old(self).next_capture_sequence < u64::MAX,
        ensures
            final(self)@.well_formed(),
            (final(self)@, begun.0, begun.1@) == old(self)@.capture_begun(request_id, trigger, now),
    {
        let mut effects: Vec<Effect> = Vec::new();
        if self.phase != Phase::Idle {
            effects.push(
                Effect::Measure(
                    Measurement {
                        stage: "capture.request.dispatch",
                        context: PerformanceContext::default(),
                        trigger: Some(trigger.source),
                        workflow: None,
                        pixel_size: None,
                        started_at: Some(trigger.received_at),
                        ending: Ending::Rejected,
                    },
                ),
            );
            self.set_toast("正在处理当前任务".to_owned(), now);
            assert(effects@ =~= old(self)@.capture_begun(request_id, trigger, now).2);
            return (None, effects);
        }
        let capture_sequence: u64 = next_sequence(&mut self.next_capture_sequence);
        effects.push(
            Effect::Measure(
                Measurement {
                    stage: "capture.request.dispatch",
                    context: PerformanceContext::capture(request_id, capture_sequence),
                    trigger: Some(trigger.source),
                    workflow: None,
                    pixel_size: None,
                    started_at: Some(trigger.received_at),
                    ending: Ending::Success,
                },
            ),
        );
        assert(effects@ =~= old(self)@.capture_begun(request_id, trigger, now).2);
        (Some(CaptureStart { request_id, capture_sequence, trigger }), effects)
    }

    fn trace(start: &CaptureStart) -> (trace: CapturePresentationTrace)
        ensures
            trace == trace_of(*start),
    {
        CapturePresentationTrace {
            performance: PerformanceContext::capture(start.request_id, start.capture_sequence),
            started_at: start.trigger.received_at,
            trigger: start.trigger.source,
            pixel_size: None,
        }
    }

    /// Goes on with a capture once its display was prepared, or could not be.
    pub fn capture_prepared(&mut self, start: CaptureStart, prepared: Result<(), String>) -> (effects:
        Vec<Effect>)
        requires
            old(self)@.well_formed(),
            old(self).phase == Phase::Idle,
        ensures
            final(self)@.well_formed(),
            (final(self)@, effects@) == old(self)@.capture_prepared(start, told(prepared)),
    {
        let mut effects: Vec<Effect> = Vec::new();
        match prepared {
            Err(error) => {
                effects.push(
                    Effect::Measure(measure_capture(AppState::trace(&start), Ending::Failed(None))),
                );
                self.phase = Phase::Idle;
                self.library_error = Some(error);
                self.show_library_window(&mut effects);
            },
            Ok(()) => {
                self.phase =
                Phase::Capturing {
                    request_id: start.request_id,
                    capture_sequence: start.capture_sequence,
                };
                self.capture_presentation_trace = Some(AppState::trace(&start));
                self.surface = WindowSurface::Hidden;
                self.library_error = None;
                effects.push(self.update_tray());
                effects.push(
                    Effect::Capture {
                        request_id: start.request_id,
                        capture_sequence: start.capture_sequence,
                    },
                );
            },
        }
        assert(effects@ =~= old(self)@.capture_prepared(start, told(prepared)).1);
        effects
    }

    /// The capture could not be started.
    pub fn capture_spawn_failed(&mut self, start: CaptureStart, error: String) -> (effects: Vec<
        Effect,
    >)
        requires
            old(self)@.well_formed(),
            old(self).phase is Capturing,
        ensures
            final(self)@.well_formed(),
            (final(self)@, effects@) == old(self)@.capture_spawn_failed(start, error@),
    {
        let mut effects: Vec<Effect> = Vec::new();
        self.capture_presentation_trace = None;
        effects.push(
            Effect::Measure(measure_capture(AppState::trace(&start), Ending::Failed(None))),
        );
        self.phase = Phase::Idle;
        self.library_error = Some(concat("无法启动截图任务：", error.as_str()));
        self.show_library_window(&mut effects);
        effects.push(self.update_tray());
        assert(effects@ =~= old(self)@.capture_spawn_failed(start, error@).1);
        effects
    }

    fn capture_failed(
        &mut self,
        request_id: u128,
        capture_sequence: u64,
        error: String,
        effects: &mut Vec<Effect>,
    )
        requires
            old(self)@.well_formed(),
            old(self).phase is Capturing,
        ensures
            final(self)@.well_formed(),
            final(self)@ == old(self)@.capture_failed(request_id, capture_sequence, error@).0,
            final(effects)@ == old(effects)@ + old(self)@.capture_failed(
                request_id,
                capture_sequence,
                error@,
            ).1,
    {
        if let Some(trace) = self.capture_presentation_trace {
            if trace.performance == PerformanceContext::capture(request_id, capture_sequence) {
                effects.push(
                    Effect::Measure(
                        measure_capture(trace, Ending::Failed(Some("capture.request_failed"))),
                    ),
                );
            }
        }
        self.capture_presentation_trace = None;
        self.phase = Phase::Idle;
        self.library_error = Some(error);
        self.show_library_window(effects);
        assert(effects@ =~= old(effects)@ + old(self)@.capture_failed(
            request_id,
            capture_sequence,
            error@,
        ).1);
    }

    /// Takes in a picture at the moment `now`. Says whether the document is to be made from
    /// it.
    pub fn capture_arrived(
        &mut self,
        request_id: u128,
        capture_sequence: u64,
        completed_at: u128,
        now: u128,
        result: Result<CapturedFrame, String>,
    ) -> (reply: (bool, Vec<Effect>))
        requires
            old(self)@.well_formed(),
        ensures
            final(self)@.well_formed(),
            (final(self)@, reply.0, reply.1@) == old(self)@.capture_arrived(
                request_id,
                capture_sequence,
                completed_at,
                now,
                told(result),
            ),
    {
        let mut effects: Vec<Effect> = Vec::new();
        let context = PerformanceContext::capture(request_id, capture_sequence);
        effects.push(
            Effect::Measure(
                Measurement {
                    stage: "capture.worker_to_ui",
                    context,
                    trigger: None,
                    workflow: None,
                    pixel_size: None,
                    started_at: Some(completed_at),
                    ending: Ending::Success,
                },
            ),
        );
        let mut make_session = false;
        if self.phase != (Phase::Capturing { request_id, capture_sequence }) {
            if let Some(trace) = self.capture_presentation_trace {
                if trace.performance == context {
                    self.capture_presentation_trace = None;
                    effects.push(Effect::Measure(measure_capture(trace, Ending::Stale)));
                }
            }
            effects.push(
                Effect::Measure(
                    Measurement {
                        stage: "capture.result",
                        context,
                        trigger: None,
                        workflow: None,
                        pixel_size: None,
                        started_at: None,
                        ending: Ending::Stale,
                    },
                ),
            );
        } else {
            match result {
                Err(error) => {
                    self.capture_failed(request_id, capture_sequence, error, &mut effects);
                },
                Ok(frame) => {
                    if frame.request_id != request_id || frame.capture_sequence
                        != capture_sequence {
                        effects.push(
                            measure_session_prepared(context, frame.pixel_size, now, false),
                        );
                        self.capture_failed(
                            request_id,
                            capture_sequence,
                            "capture result correlation did not match the active request".to_owned(),
                            &mut effects,
                        );
                    } else {
                        make_session = true;
                    }
                },
            }
        }
        assert(effects@ =~= old(self)@.capture_arrived(
            request_id,
            capture_sequence,
            completed_at,
            now,
            told(result),
        ).2);
        (make_session, effects)
    }

    /// Takes in the document that was made from a picture, from the moment `started_at` on,
    /// or why none could be.
    pub fn capture_session(
        &mut self,
        frame: CapturedFrame,
        started_at: u128,
        session: Result<WorkingSession, String>,
    ) -> (effects: Vec<Effect>)
        requires
            old(self)@.well_formed(),
            old(self).phase == (Phase::Capturing {
                request_id: frame.request_id,
                capture_sequence: frame.capture_sequence,
            }),
        ensures
            final(self)@.well_formed(),
            (final(self)@, effects@) == old(self)@.capture_session(frame, started_at, told(session)),
    {
        let mut effects: Vec<Effect> = Vec::new();
        let context = PerformanceContext::capture(frame.request_id, frame.capture_sequence);
        effects.push(
            measure_session_prepared(context, frame.pixel_size, started_at, session.is_ok()),
        );
        match session {
            Err(error) => {
                self.capture_failed(
                    frame.request_id,
                    frame.capture_sequence,
                    error,
                    &mut effects,
                );
            },
            Ok(session) => {
                if let Some(trace) = self.capture_presentation_trace {
                    if trace.performance == context {
                        self.capture_presentation_trace =
                        Some(
                            CapturePresentationTrace {
                                pixel_size: Some(frame.pixel_size),
                                ..trace
                            },
                        );
                    }
                }
                self.session = Some(session);
                self.phase = Phase::Editing;
                let target = choose_window_target(Some(frame.bounds), None);
                self.show_editor_window(target, &mut effects);
            },
        }
        assert(effects@ =~= old(self)@.capture_session(frame, started_at, told(session)).1);
        effects
    }

    /// Opens a document.
    pub fn start_open_document(&mut self, document_id: u128, request_id: u128) -> (effects: Vec<
        Effect,
    >)
        requires
            old(self)@.well_formed(),
        ensures
            final(self)@.well_formed(),
            (final(self)@, effects@) == old(self)@.open_begun(document_id, request_id),
    {
        let mut effects: Vec<Effect> = Vec::new();
        if self.phase == Phase::Idle {
            self.phase = Phase::Opening { request_id, document_id };
            effects.push(Effect::Open { request_id, document_id });
            effects.push(self.update_tray());
        }
        assert(effects@ =~= old(self)@.open_begun(document_id, request_id).1);
        effects
    }

    /// Reading a document could not be started.
    pub fn open_spawn_failed(&mut self, error: String) -> (effects: Vec<Effect>)
        requires
            old(self)@.well_formed(),
            old(self).phase is Opening,
        ensures
            final(self)@.well_formed(),
            (final(self)@, effects@) == old(self)@.start_failed(
                "无法启动讲义打开任务："@ + error@,
            ),
    {
        self.start_failed(concat("无法启动讲义打开任务：", error.as_str()))
    }

    fn start_failed(&mut self, message: String) -> (effects: Vec<Effect>)
        requires
            old(self)@.well_formed(),
            !old(self).phase.holds_session(),
        ensures
            final(self)@.well_formed(),
            (final(self)@, effects@) == old(self)@.start_failed(message@),
    {
        let mut effects: Vec<Effect> = Vec::new();
        self.phase = Phase::Idle;
        self.library_error = Some(message);
        effects.push(self.update_tray());
        assert(effects@ =~= old(self)@.start_failed(message@).1);
        effects
    }

    fn enter_document(
        &mut self,
        session: WorkingSession,
        cursor: Option<(i32, i32)>,
        effects: &mut Vec<Effect>,
    )
        ensures
            final(self)@ == old(self)@.with_document(session, cursor).0,
            final(effects)@ == old(effects)@ + old(self)@.with_document(session, cursor).1,
    {
        self.session = Some(session);
        self.phase = Phase::Editing;
        let target = choose_window_target(None, cursor);
        self.show_editor_window(target, effects);
        assert(effects@ =~= old(effects)@ + old(self)@.with_document(session, cursor).1);
    }

    /// Takes in a document that was read, or why it could not be.
    pub fn opened(
        &mut self,
        request_id: u128,
        document_id: u128,
        session: Result<WorkingSession, String>,
        cursor: Option<(i32, i32)>,
    ) -> (effects: Vec<Effect>)
        requires
            old(self)@.well_formed(),
        ensures
            final(self)@.well_formed(),
            (final(self)@, effects@) == old(self)@.opened(
                request_id,
                document_id,
                told(session),
                cursor,
            ),
    {
        let mut effects: Vec<Effect> = Vec::new();
        if self.phase == (Phase::Opening { request_id, document_id }) {
            match session {
                Ok(session) => {
                    let document = WorkingSession {
                        origin: SessionOrigin::ExistingDocument,
                        capture_sequence: None,
                        ..session
                    };
                    self.enter_document(document, cursor, &mut effects);
                },
                Err(error) => {
                    self.phase = Phase::Idle;
                    self.library_error = Some(error);
                },
            }
        }
        assert(effects@ =~= old(self)@.opened(request_id, document_id, told(session), cursor).1);
        effects
    }

    /// Opens the latest draft.
    pub fn start_restore(&mut self, request_id: u128) -> (effects: Vec<Effect>)
        requires
            old(self)@.well_formed(),
        ensures
            final(self)@.well_formed(),
            (final(self)@, effects@) == old(self)@.restore_begun(request_id),
    {
        let mut effects: Vec<Effect> = Vec::new();
        if self.phase == Phase::Idle && self.draft_available {
            self.phase = Phase::Restoring { request_id };
            effects.push(Effect::Restore { request_id });
            effects.push(self.update_tray());
        }
        assert(effects@ =~= old(self)@.restore_begun(request_id).1);
        effects
    }

    /// Reading the latest draft could not be started.
    pub fn restore_spawn_failed(&mut self, error: String) -> (effects: Vec<Effect>)
        requires
            old(self)@.well_formed(),
            old(self).phase is Restoring,
        ensures
            final(self)@.well_formed(),
            (final(self)@, effects@) == old(self)@.start_failed(
                "无法启动草稿恢复任务："@ + error@,
            ),
    {
        self.start_failed(concat("无法启动草稿恢复任务：", error.as_str()))
    }

    /// Takes in the latest draft, or why there is none.
    pub fn restored(
        &mut self,
        request_id: u128,
        result: Result<Option<RestoredDraft>, String>,
        cursor: Option<(i32, i32)>,
    ) -> (effects: Vec<Effect>)
        requires
            old(self)@.well_formed(),
            old(self).next_capture_sequence < u64::MAX,
        ensures
            final(self)@.well_formed(),
            (final(self)@, effects@) == old(self)@.restored(request_id, result, cursor),
    {
        let mut effects: Vec<Effect> = Vec::new();
        if self.phase == (Phase::Restoring { request_id }) {
            match result {
                Ok(Some(draft)) => {
                    let sequence: u64 = next_sequence(&mut self.next_capture_sequence);
                    match draft.session {
                        Ok(session) => {
                            let document = WorkingSession {
                                origin: SessionOrigin::LatestDraft {
                                    generation_id: draft.generation_id,
                                },
                                capture_sequence: Some(sequence),
                                ..session
                            };
                            self.enter_document(document, cursor, &mut effects);
                        },
                        Err(error) => {
                            self.phase = Phase::Idle;
                            self.library_error = Some(error);
                        },
                    }
                },
                Ok(None) => {
                    self.phase = Phase::Idle;
                    self.draft_available = false;
                    self.library_error = Some("没有可恢复的草稿".to_owned());
                },
                Err(error) => {
                    self.phase = Phase::Idle;
                    self.library_error = Some(error);
                },
            }
        }
        assert(effects@ =~= old(self)@.restored(request_id, result, cursor).1);
        effects
    }
}

} // verus!
