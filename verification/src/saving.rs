//! Writing the open document: as a saved document, or as the latest draft. What was written
//! counts only where it is the document that is open, for the request that is under way.

use vstd::prelude::*;

use crate::application::{
    told, AppState, AppView, Effect, Phase, RetryKind, SavedDocument, WriteRequest,
};
use crate::performance::PerformanceContext;
use crate::persistence::{
    measured, performance_from_persistence_context, LatestDraft, PersistenceContext,
};
use crate::session::{
    measure_write, next_sequence, write_total, Ending, Measurement, PersistenceUiTrace,
    SessionOrigin, WorkingSession,
};
use crate::text::concat;

verus! {

/// What is measured where a write cannot be shown as done.
pub open spec fn write_failed() -> Ending {
    Ending::Failed(Some("persistence.ui_failed"))
}

/// The note that a result was not what the program waits for.
pub open spec fn stale_result(
    context: PerformanceContext,
    workflow: &'static str,
    pixel_size: Option<(u32, u32)>,
) -> Effect {
    Effect::Measure(
        Measurement {
            stage: "persistence.result",
            context,
            trigger: None,
            workflow: Some(workflow),
            pixel_size,
            started_at: None,
            ending: Ending::Stale,
        },
    )
}

fn note_stale_result(
    context: PerformanceContext,
    workflow: &'static str,
    pixel_size: Option<(u32, u32)>,
) -> (effect: Effect)
    ensures
        effect == stale_result(context, workflow, pixel_size),
{
    Effect::Measure(
        Measurement {
            stage: "persistence.result",
            context,
            trigger: None,
            workflow: Some(workflow),
            pixel_size,
            started_at: None,
            ending: Ending::Stale,
        },
    )
}

/// The measurement of how long a result took to reach the window.
pub open spec fn arrival(trace: PersistenceUiTrace, completed_at: u128) -> Effect {
    Effect::Measure(
        Measurement {
            stage: "persistence.worker_to_ui",
            context: trace.performance,
            trigger: None,
            workflow: Some(trace.workflow),
            pixel_size: Some(trace.pixel_size),
            started_at: Some(completed_at),
            ending: Ending::Success,
        },
    )
}

/// A save that is under way.
pub open spec fn save_trace(session: WorkingSession, request_id: u128, started_at: u128) -> PersistenceUiTrace {
    PersistenceUiTrace {
        performance: session.measured_as(request_id, None),
        started_at,
        workflow: "save",
        pixel_size: (session.width_px, session.height_px),
    }
}

/// A stash that is under way.
pub open spec fn stash_trace(
    session: WorkingSession,
    request: WriteRequest,
    stash_sequence: u64,
) -> PersistenceUiTrace {
    PersistenceUiTrace {
        performance: PerformanceContext {
            generation_id: Some(request.generation_id),
            ..session.measured_as(request.request_id, Some(stash_sequence))
        },
        started_at: request.started_at,
        workflow: "stash",
        pixel_size: (session.width_px, session.height_px),
    }
}

impl AppView {
    /// The document is to be saved: only while it is being edited.
    pub open spec fn save_begun(self, request: WriteRequest) -> (AppView, Seq<Effect>) {
        match self.session {
            Some(session) if self.phase == Phase::Editing => {
                let trace = save_trace(session, request.request_id, request.started_at);
                match request.snapshot {
                    Err(error) => (
                        AppView { persistent_error: Some(error@), ..self },
                        seq![Effect::Measure(write_total(trace, Ending::Failed(None)))],
                    ),
                    Ok(_) => {
                        let next = AppView {
                            phase: Phase::Saving { request_id: request.request_id },
                            persistence_ui_trace: Some(trace),
                            persistent_error: None,
                            retry_kind: None,
                            ..self
                        };
                        (
                            next,
                            seq![
                                Effect::Save {
                                    context: session.written_as(request.request_id, None),
                                },
                                next.tray(),
                            ],
                        )
                    },
                }
            },
            _ => (self, Seq::empty()),
        }
    }

    /// A save failed: the document is edited again, the program stays open, and the save can
    /// be tried again.
    pub open spec fn save_failed(self, request_id: u128, error: Seq<char>) -> AppView {
        AppView {
            phase: Phase::Editing,
            persistent_error: Some(error),
            retry_kind: Some(RetryKind::Save),
            quit_after_persist: false,
            ..self.without_trace(request_id)
        }
    }

    /// The document is to be stashed: only while it is being edited, and only where it is not
    /// a saved document. The stash is counted in any case.
    pub open spec fn stash_begun(self, request: WriteRequest) -> (AppView, Seq<Effect>) {
        if self.phase != Phase::Editing {
            (self, Seq::empty())
        } else {
            let sequence = (self.next_stash_sequence + 1) as u64;
            let counted = AppView { next_stash_sequence: sequence, ..self };
            match self.session {
                Some(session) if session.origin != SessionOrigin::ExistingDocument => {
                    let trace = stash_trace(session, request, sequence);
                    match request.snapshot {
                        Err(error) => (
                            AppView { persistent_error: Some(error@), ..counted },
                            seq![Effect::Measure(write_total(trace, Ending::Failed(None)))],
                        ),
                        Ok(_) => {
                            let next = AppView {
                                phase: Phase::Stashing {
                                    request_id: request.request_id,
                                    generation_id: request.generation_id,
                                },
                                persistence_ui_trace: Some(trace),
                                persistent_error: None,
                                retry_kind: None,
                                ..counted
                            };
                            (
                                next,
                                seq![
                                    Effect::Stash {
                                        context: PersistenceContext {
                                            generation_id: Some(request.generation_id),
                                            ..session.written_as(
                                                request.request_id,
                                                Some(sequence),
                                            )
                                        },
                                        generation_id: request.generation_id,
                                    },
                                    next.tray(),
                                ],
                            )
                        },
                    }
                },
                _ => (counted, Seq::empty()),
            }
        }
    }

    /// A stash failed: the program closes where it was asked to; otherwise the document is
    /// edited again, and the stash can be tried again.
    pub open spec fn stash_failed(self, request_id: u128, error: Seq<char>) -> (AppView, Seq<Effect>) {
        let ended = self.without_trace(request_id);
        if self.quit_after_persist {
            (ended.closing(), seq![Effect::CloseWindow])
        } else {
            (
                AppView {
                    phase: Phase::Editing,
                    persistent_error: Some(error),
                    retry_kind: Some(RetryKind::Stash),
                    ..ended
                },
                Seq::empty(),
            )
        }
    }

    /// A result that nobody waits for.
    pub open spec fn stale_write(
        self,
        request_id: u128,
        expected: PersistenceContext,
        workflow: &'static str,
    ) -> (AppView, Seq<Effect>) {
        (
            self.without_trace(request_id),
            seq![
                stale_result(
                    match self.trace_for(request_id) {
                        Some(trace) => trace.performance,
                        None => measured(expected),
                    },
                    workflow,
                    None,
                ),
            ] + self.trace_ending(request_id, Ending::Stale),
        )
    }

    /// What is measured as the result of a write comes in.
    pub open spec fn arrived(self, request_id: u128, completed_at: u128) -> Seq<Effect> {
        match self.trace_for(request_id) {
            Some(trace) => seq![arrival(trace, completed_at)],
            None => Seq::empty(),
        }
    }

    /// What is noted where what was written is not what is open.
    pub open spec fn mismatch(self, request_id: u128, with_size: bool) -> Seq<Effect> {
        match self.trace_for(request_id) {
            Some(trace) => seq![
                stale_result(
                    trace.performance,
                    trace.workflow,
                    if with_size {
                        Some(trace.pixel_size)
                    } else {
                        None
                    },
                ),
            ],
            None => Seq::empty(),
        }
    }

    /// The document is no longer open once it was written; the program closes where it was
    /// asked to, and else takes its window off the screen.
    pub open spec fn written(self) -> (AppView, Seq<Effect>) {
        let released = AppView { phase: Phase::Idle, ..self.with_session_released() };
        if self.quit_after_persist {
            (released.closing(), seq![Effect::CloseWindow])
        } else {
            (released.with_window_hidden(), seq![Effect::HideWindow])
        }
    }

    /// A stash came back.
    pub open spec fn stash_finished(
        self,
        request_id: u128,
        expected: PersistenceContext,
        completed_at: u128,
        result: Result<LatestDraft, Seq<char>>,
    ) -> (AppView, Seq<Effect>) {
        match self.phase {
            Phase::Stashing { request_id: current, generation_id } if current == request_id => {
                let came = self.arrived(request_id, completed_at);
                match result {
                    Ok(stored) => if self.result_matches(
                        stored.context,
                        expected,
                        stored.document_id,
                        stored.revision,
                    ) && stored.generation_id == generation_id {
                        let (next, window) = AppView { draft_available: true, ..self }.written();
                        (
                            next.without_trace(request_id),
                            came + seq![Effect::ReleaseSession] + window + self.trace_ending(
                                request_id,
                                Ending::Success,
                            ),
                        )
                    } else {
                        let (next, effects) = self.stash_failed(
                            request_id,
                            "暂存结果与当前请求不匹配"@,
                        );
                        (
                            next,
                            came + self.mismatch(request_id, true) + self.trace_ending(
                                request_id,
                                write_failed(),
                            ) + effects,
                        )
                    },
                    Err(error) => {
                        let (next, effects) = self.stash_failed(request_id, error);
                        (next, came + self.trace_ending(request_id, write_failed()) + effects)
                    },
                }
            },
            _ => self.stale_write(request_id, expected, "stash"),
        }
    }

    /// What follows a save that is measured.
    pub open spec fn after_save(self, request_id: u128, saved: SavedDocument) -> Seq<Effect> {
        match self.trace_for(request_id) {
            Some(trace) => seq![
                Effect::FinishSave {
                    performance: trace.performance,
                    document_id: saved.document_id,
                    revision: saved.revision,
                    draft_generation: match self.session {
                        Some(session) => match session.origin {
                            SessionOrigin::LatestDraft { generation_id } => Some(generation_id),
                            _ => None,
                        },
                        None => None,
                    },
                },
            ],
            None => Seq::empty(),
        }
    }

    /// A save came back.
    pub open spec fn save_finished(
        self,
        request_id: u128,
        expected: PersistenceContext,
        completed_at: u128,
        result: Result<SavedDocument, Seq<char>>,
    ) -> (AppView, Seq<Effect>) {
        if self.phase != (Phase::Saving { request_id }) {
            self.stale_write(request_id, expected, "save")
        } else {
            let came = self.arrived(request_id, completed_at);
            match result {
                Ok(saved) => if self.result_matches(
                    saved.context,
                    expected,
                    saved.document_id,
                    saved.revision,
                ) {
                    let (next, window) = self.written();
                    (
                        next.without_trace(request_id),
                        came + self.after_save(request_id, saved) + seq![
                            Effect::ReleaseSession,
                            Effect::RefreshRecent(
                                match self.trace_for(request_id) {
                                    Some(trace) => Some(trace.performance),
                                    None => None,
                                },
                            ),
                            Effect::ForgetPreview(saved.document_id),
                        ] + window + self.trace_ending(request_id, Ending::Success),
                    )
                } else {
                    (
                        self.save_failed(request_id, "保存结果与当前请求不匹配"@),
                        came + self.mismatch(request_id, false) + self.trace_ending(
                            request_id,
                            write_failed(),
                        ),
                    )
                },
                Err(error) => (
                    self.save_failed(request_id, error),
                    came + self.trace_ending(request_id, write_failed()),
                ),
            }
        }
    }
}

impl AppState {
    /// Saves the document.
    pub fn start_save(&mut self, request: WriteRequest) -> (effects: Vec<Effect>)
        requires
            old(self)@.well_formed(),
        ensures
            final(self)@.well_formed(),
            (final(self)@, effects@) == old(self)@.save_begun(request),
    {
        let mut effects: Vec<Effect> = Vec::new();
        if self.phase == Phase::Editing {
            if let Some(session) = self.session {
                let trace = PersistenceUiTrace {
                    performance: session.performance_context(request.request_id, None),
                    started_at: request.started_at,
                    workflow: "save",
                    pixel_size: (session.width_px, session.height_px),
                };
                match request.snapshot {
                    Err(error) => {
                        effects.push(Effect::Measure(measure_write(trace, Ending::Failed(None))));
                        self.persistent_error = Some(error);
                    },
                    Ok(()) => {
                        self.phase = Phase::Saving { request_id: request.request_id };
                        self.persistence_ui_trace = Some(trace);
                        self.persistent_error = None;
                        self.retry_kind = None;
                        effects.push(
                            Effect::Save {
                                context: session.persistence_context(request.request_id, None),
                            },
                        );
                        effects.push(self.update_tray());
                    },
                }
            }
        }
        assert(effects@ =~= old(self)@.save_begun(request).1);
        effects
    }

    fn give_up_save(&mut self, request_id: u128, error: String, effects: &mut Vec<Effect>)
        ensures
            final(self)@ == old(self)@.save_failed(request_id, error@),
            final(effects)@ == old(effects)@ + old(self)@.trace_ending(request_id, write_failed()),
    {
        self.finish_persistence_trace(
            request_id,
            Ending::Failed(Some("persistence.ui_failed")),
            effects,
        );
        self.phase = Phase::Editing;
        self.persistent_error = Some(error);
        self.retry_kind = Some(RetryKind::Save);
        self.quit_after_persist = false;
    }

    /// Saving could not be started.
    pub fn save_spawn_failed(&mut self, request_id: u128, error: String) -> (effects: Vec<Effect>)
        requires
            old(self)@.well_formed(),
            old(self).phase is Saving,
        ensures
            final(self)@.well_formed(),
            final(self)@ == old(self)@.save_failed(request_id, "无法启动保存任务："@ + error@),
            effects@ == old(self)@.trace_ending(request_id, write_failed()).push(
                final(self)@.tray(),
            ),
    {
        let mut effects: Vec<Effect> = Vec::new();
        self.give_up_save(
            request_id,
            concat("无法启动保存任务：", error.as_str()),
            &mut effects,
        );
        effects.push(self.update_tray());
        assert(effects@ =~= old(self)@.trace_ending(request_id, write_failed()).push(self@.tray()));
        effects
    }

    /// Writes the document as the latest draft.
    pub fn start_stash(&mut self, request: WriteRequest) -> (effects: Vec<Effect>)
        requires
            old(self)@.well_formed(),
            old(self).next_stash_sequence < u64::MAX,
        ensures
            final(self)@.well_formed(),
            (final(self)@, effects@) == old(self)@.stash_begun(request),
    {
        let mut effects: Vec<Effect> = Vec::new();
        if self.phase == Phase::Editing {
            let stash_sequence: u64 = next_sequence(&mut self.next_stash_sequence);
            if let Some(session) = self.session {
                if session.origin != SessionOrigin::ExistingDocument {
                    let mut performance = session.performance_context(
                        request.request_id,
                        Some(stash_sequence),
                    );
                    performance.generation_id = Some(request.generation_id);
                    let trace = PersistenceUiTrace {
                        performance,
                        started_at: request.started_at,
                        workflow: "stash",
                        pixel_size: (session.width_px, session.height_px),
                    };
                    match request.snapshot {
                        Err(error) => {
                            effects.push(
                                Effect::Measure(measure_write(trace, Ending::Failed(None))),
                            );
                            self.persistent_error = Some(error);
                        },
                        Ok(()) => {
                            self.phase =
                            Phase::Stashing {
                                request_id: request.request_id,
                                generation_id: request.generation_id,
                            };
                            self.persistence_ui_trace = Some(trace);
                            self.persistent_error = None;
                            self.retry_kind = None;
                            effects.push(
                                Effect::Stash {
                                    context: session.persistence_context(
                                        request.request_id,
                                        Some(stash_sequence),
                                    ).with_generation(request.generation_id),
                                    generation_id: request.generation_id,
                                },
                            );
                            effects.push(self.update_tray());
                        },
                    }
                }
            }
        }
        assert(effects@ =~= old(self)@.stash_begun(request).1);
        effects
    }

    fn give_up_stash(&mut self, request_id: u128, error: String, effects: &mut Vec<Effect>)
        ensures
            final(self)@ == old(self)@.stash_failed(request_id, error@).0,
            final(effects)@ == old(effects)@ + old(self)@.trace_ending(request_id, write_failed())
                + old(self)@.stash_failed(request_id, error@).1,
    {
        self.finish_persistence_trace(
            request_id,
            Ending::Failed(Some("persistence.ui_failed")),
            effects,
        );
        if self.quit_after_persist {
            self.allow_close = true;
            effects.push(Effect::CloseWindow);
        } else {
            self.phase = Phase::Editing;
            self.persistent_error = Some(error);
            self.retry_kind = Some(RetryKind::Stash);
        }
        assert(effects@ =~= old(effects)@ + old(self)@.trace_ending(request_id, write_failed())
            + old(self)@.stash_failed(request_id, error@).1);
    }

    /// Writing the latest draft could not be started.
    pub fn stash_spawn_failed(&mut self, request_id: u128, error: String) -> (effects: Vec<Effect>)
        requires
            old(self)@.well_formed(),
            old(self).phase is Stashing,
        ensures
            final(self)@.well_formed(),
            final(self)@ == old(self)@.stash_failed(
                request_id,
                "无法启动暂存任务："@ + error@,
            ).0,
            effects@ == (old(self)@.trace_ending(request_id, write_failed()) + old(
                self,
            )@.stash_failed(request_id, "无法启动暂存任务："@ + error@).1).push(
                final(self)@.tray(),
            ),
    {
        let mut effects: Vec<Effect> = Vec::new();
        self.give_up_stash(
            request_id,
            concat("无法启动暂存任务：", error.as_str()),
            &mut effects,
        );
        effects.push(self.update_tray());
        assert(effects@ =~= (old(self)@.trace_ending(request_id, write_failed()) + old(
            self,
        )@.stash_failed(request_id, "无法启动暂存任务："@ + error@).1).push(self@.tray()));
        effects
    }

    fn drop_stale_write(
        &mut self,
        request_id: u128,
        expected: PersistenceContext,
        workflow: &'static str,
        effects: &mut Vec<Effect>,
    )
        requires
            old(effects)@.len() == 0,
        ensures
            (final(self)@, final(effects)@) == old(self)@.stale_write(
                request_id,
                expected,
                workflow,
            ),
    {
        let performance = match self.persistence_trace_for(request_id) {
            Some(trace) => trace.performance,
            None => performance_from_persistence_context(expected),
        };
        effects.push(note_stale_result(performance, workflow, None));
        self.finish_persistence_trace(request_id, Ending::Stale, effects);
        assert(effects@ =~= old(self)@.stale_write(request_id, expected, workflow).1);
    }

    fn note_arrival(&self, request_id: u128, completed_at: u128, effects: &mut Vec<Effect>)
        ensures
            final(effects)@ == old(effects)@ + self@.arrived(request_id, completed_at),
    {
        if let Some(trace) = self.persistence_trace_for(request_id) {
            effects.push(
                Effect::Measure(
                    Measurement {
                        stage: "persistence.worker_to_ui",
                        context: trace.performance,
                        trigger: None,
                        workflow: Some(trace.workflow),
                        pixel_size: Some(trace.pixel_size),
                        started_at: Some(completed_at),
                        ending: Ending::Success,
                    },
                ),
            );
        }
        assert(effects@ =~= old(effects)@ + self@.arrived(request_id, completed_at));
    }

    fn note_mismatch(&self, request_id: u128, with_size: bool, effects: &mut Vec<Effect>)
        ensures
            final(effects)@ == old(effects)@ + self@.mismatch(request_id, with_size),
    {
        if let Some(trace) = self.persistence_trace_for(request_id) {
            let pixel_size = if with_size {
                Some(trace.pixel_size)
            } else {
                None
            };
            effects.push(note_stale_result(trace.performance, trace.workflow, pixel_size));
        }
        assert(effects@ =~= old(effects)@ + self@.mismatch(request_id, with_size));
    }

    fn leave_written_document(&mut self, effects: &mut Vec<Effect>)
        ensures
            final(self)@ == old(self)@.written().0,
            final(effects)@ == old(effects)@ + old(self)@.written().1,
    {
        self.remember_tool_and_release_session();
        self.phase = Phase::Idle;
        if self.quit_after_persist {
            self.allow_close = true;
            effects.push(Effect::CloseWindow);
        } else {
            self.hide_window(effects);
        }
        assert(effects@ =~= old(effects)@ + old(self)@.written().1);
    }

    /// Takes in the result of a stash.
    pub fn stash_finished(
        &mut self,
        request_id: u128,
        expected: PersistenceContext,
        completed_at: u128,
        result: Result<LatestDraft, String>,
    ) -> (effects: Vec<Effect>)
        requires
            old(self)@.well_formed(),
        ensures
            final(self)@.well_formed(),
            (final(self)@, effects@) == old(self)@.stash_finished(
                request_id,
                expected,
                completed_at,
                told(result),
            ),
    {
        let mut effects: Vec<Effect> = Vec::new();
        let generation = match self.phase {
            Phase::Stashing { request_id: current, generation_id } => {
                if current == request_id {
                    Some(generation_id)
                } else {
                    None
                }
            },
            _ => None,
        };
        match generation {
            None => self.drop_stale_write(request_id, expected, "stash", &mut effects),
            Some(generation_id) => {
                self.note_arrival(request_id, completed_at, &mut effects);
                match result {
                    Ok(stored) => {
                        if self.persistence_result_matches(
                            stored.context,
                            expected,
                            stored.document_id,
                            stored.revision,
                        ) && stored.generation_id == generation_id {
                            effects.push(Effect::ReleaseSession);
                            self.draft_available = true;
                            self.leave_written_document(&mut effects);
                            self.finish_persistence_trace(
                                request_id,
                                Ending::Success,
                                &mut effects,
                            );
                        } else {
                            self.note_mismatch(request_id, true, &mut effects);
                            self.give_up_stash(
                                request_id,
                                "暂存结果与当前请求不匹配".to_owned(),
                                &mut effects,
                            );
                        }
                    },
                    Err(error) => self.give_up_stash(request_id, error, &mut effects),
                }
            },
        }
        assert(effects@ =~= old(self)@.stash_finished(
            request_id,
            expected,
            completed_at,
            told(result),
        ).1);
        effects
    }

    /// Takes in the result of a save.
    pub fn save_finished(
        &mut self,
        request_id: u128,
        expected: PersistenceContext,
        completed_at: u128,
        result: Result<SavedDocument, String>,
    ) -> (effects: Vec<Effect>)
        requires
            old(self)@.well_formed(),
        ensures
            final(self)@.well_formed(),
            (final(self)@, effects@) == old(self)@.save_finished(
                request_id,
                expected,
                completed_at,
                told(result),
            ),
    {
        let mut effects: Vec<Effect> = Vec::new();
        if self.phase != (Phase::Saving { request_id }) {
            self.drop_stale_write(request_id, expected, "save", &mut effects);
        } else {
            let performance = match self.persistence_trace_for(request_id) {
                Some(trace) => Some(trace.performance),
                None => None,
            };
            self.note_arrival(request_id, completed_at, &mut effects);
            match result {
                Ok(saved) => {
                    if self.persistence_result_matches(
                        saved.context,
                        expected,
                        saved.document_id,
                        saved.revision,
                    ) {
                        if let Some(performance) = performance {
                            effects.push(
                                Effect::FinishSave {
                                    performance,
                                    document_id: saved.document_id,
                                    revision: saved.revision,
                                    draft_generation: match self.session {
                                        Some(session) => match session.origin {
                                            SessionOrigin::LatestDraft { generation_id } => Some(
                                                generation_id,
                                            ),
                                            _ => None,
                                        },
                                        None => None,
                                    },
                                },
                            );
                        }
                        effects.push(Effect::ReleaseSession);
                        effects.push(Effect::RefreshRecent(performance));
                        effects.push(Effect::ForgetPreview(saved.document_id));
                        self.leave_written_document(&mut effects);
                        self.finish_persistence_trace(request_id, Ending::Success, &mut effects);
                    } else {
                        self.note_mismatch(request_id, false, &mut effects);
                        self.give_up_save(
                            request_id,
                            "保存结果与当前请求不匹配".to_owned(),
                            &mut effects,
                        );
                    }
                },
                Err(error) => self.give_up_save(request_id, error, &mut effects),
            }
        }
        assert(effects@ =~= old(self)@.save_finished(
            request_id,
            expected,
            completed_at,
            told(result),
        ).1);
        effects
    }
}

} // verus!
