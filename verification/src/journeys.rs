//! What becomes of a document over several events: from the capture, the library or the draft
//! to the editor, and from the editor to where it is kept.

use vstd::prelude::*;

use crate::application::{
    AppView, CaptureStart, CapturedFrame, Effect, EditorWindowTarget, Phase, RestoredDraft,
    RetryKind, SavedDocument, WindowSurface, WriteRequest,
};
use crate::persistence::{LatestDraft, PersistenceContext};
use crate::session::{CaptureTrigger, Ending, SessionOrigin, WorkingSession};

verus! {

/// Whether what follows a save is asked for at one place and at no other, and what lets go of
/// the document at a later one.
pub open spec fn once_before_release(effects: Seq<Effect>, at: int, release: int) -> bool {
    &&& 0 <= at < release < effects.len()
    &&& effects[at] is FinishSave
    &&& effects[release] == Effect::ReleaseSession
    &&& forall|i: int|
        0 <= i < effects.len() && i != at ==> !((#[trigger] effects[i]) is FinishSave)
}

/// Whether a write is that of a document, for a request.
pub open spec fn writes_session(
    context: PersistenceContext,
    session: WorkingSession,
    request_id: u128,
) -> bool {
    &&& context.request_id == request_id
    &&& context.session_id == session.session_id
    &&& context.capture_sequence == session.capture_sequence
}

/// A document that is being edited and is to be saved is written: exactly one write is asked
/// for, of that document and for that request, and the tray is told that the program is busy.
/// The document stays open.
pub proof fn law_a_save_writes_the_open_document(
    state: AppView,
    request: WriteRequest,
    session: WorkingSession,
)
    requires
        state.phase == Phase::Editing,
        state.session == Some(session),
        request.snapshot is Ok,
    ensures
        ({
            let (next, effects) = state.save_begun(request);
            &&& next.phase == (Phase::Saving { request_id: request.request_id })
            &&& next.session == Some(session)
            &&& next.persistent_error is None
            &&& effects.len() == 2
            &&& effects[0] matches Effect::Save { context }
            &&& writes_session(context, session, request.request_id)
            &&& context.stash_sequence is None
            &&& context.generation_id == match session.origin {
                SessionOrigin::LatestDraft { generation_id } => Some(generation_id),
                _ => None,
            }
            &&& effects[1] == (Effect::SetTray {
                busy: true,
                draft_available: state.draft_available,
            })
        }),
{
}

/// A document that cannot be put into a form that can be written is neither saved nor stashed:
/// the user is told why, and it goes on being edited.
pub proof fn law_what_cannot_be_written_stays_in_the_editor(
    state: AppView,
    request: WriteRequest,
    error: String,
)
    requires
        state.phase == Phase::Editing,
        state.session is Some,
        request.snapshot == Err::<(), String>(error),
    ensures
        ({
            let (next, effects) = state.save_begun(request);
            &&& next.phase == Phase::Editing
            &&& next.session == state.session
            &&& next.persistent_error == Some(error@)
            &&& forall|i: int| 0 <= i < effects.len() ==> !((#[trigger] effects[i]) is Save)
        }),
        ({
            let (next, effects) = state.stash_begun(request);
            &&& next.phase == Phase::Editing
            &&& next.session == state.session
            &&& state.session->0.origin != SessionOrigin::ExistingDocument
                ==> next.persistent_error == Some(error@)
            &&& forall|i: int| 0 <= i < effects.len() ==> !((#[trigger] effects[i]) is Stash)
        }),
{
}

/// A save that was begun and comes back with its own document is followed up exactly once: for
/// the document and the revision that were saved, and with the draft to be deleted exactly
/// where the document came from the latest draft. That is asked for before the document is let
/// go of. Then no document is open, the program does nothing, and the list is read again.
pub proof fn law_a_finished_save_is_followed_up(
    state: AppView,
    request: WriteRequest,
    session: WorkingSession,
    completed_at: u128,
    saved: SavedDocument,
)
    requires
        state.phase == Phase::Editing,
        state.session == Some(session),
        request.snapshot is Ok,
        writes_session(saved.context, session, request.request_id),
        saved.document_id == session.document_id,
        saved.revision == session.revision,
    ensures
        ({
            let (next, effects) = state.save_begun(request).0.save_finished(
                request.request_id,
                saved.context,
                completed_at,
                Ok(saved),
            );
            &&& next.phase == Phase::Idle
            &&& next.session is None
            &&& next.last_tool == Some(session.active_tool)
            &&& next.draft_available == state.draft_available
            &&& exists|at: int, release: int|
                {
                    &&& #[trigger] once_before_release(effects, at, release)
                    &&& effects[at]->FinishSave_document_id == saved.document_id
                    &&& effects[at]->FinishSave_revision == saved.revision
                    &&& effects[at]->FinishSave_performance.request_id == Some(request.request_id)
                    &&& effects[at]->FinishSave_draft_generation == match session.origin {
                        SessionOrigin::LatestDraft { generation_id } => Some(generation_id),
                        _ => None,
                    }
                }
            &&& effects.contains(Effect::ForgetPreview(saved.document_id))
            &&& exists|i: int| 0 <= i < effects.len() && (#[trigger] effects[i]) is RefreshRecent
            &&& state.quit_after_persist ==> next.allow_close && effects.contains(
                Effect::CloseWindow,
            )
            &&& !state.quit_after_persist ==> next.surface == WindowSurface::Hidden
                && effects.contains(Effect::HideWindow)
        }),
{
    let begun = state.save_begun(request).0;
    let (next, effects) = begun.save_finished(
        request.request_id,
        saved.context,
        completed_at,
        Ok(saved),
    );
    assert(begun.trace_for(request.request_id) is Some);
    assert(effects.len() == 7);
    assert(effects[1] is FinishSave);
    assert(effects[2] == Effect::ReleaseSession);
    assert(effects[3] is RefreshRecent);
    assert(effects[4] == Effect::ForgetPreview(saved.document_id));
    assert(effects[5] == if state.quit_after_persist {
        Effect::CloseWindow
    } else {
        Effect::HideWindow
    });
    assert(once_before_release(effects, 1, 2));
}

/// What comes of a save that is not the open document, or that failed, is not followed up, and
/// lets go of nothing.
pub proof fn law_a_failed_save_is_not_followed_up(
    state: AppView,
    request_id: u128,
    expected: PersistenceContext,
    completed_at: u128,
    result: Result<SavedDocument, Seq<char>>,
    i: int,
)
    requires
        !(result matches Ok(saved) && state.phase == (Phase::Saving { request_id })
            && state.result_matches(saved.context, expected, saved.document_id, saved.revision)),
        0 <= i < state.save_finished(request_id, expected, completed_at, result).1.len(),
    ensures
        ({
            let effect = state.save_finished(request_id, expected, completed_at, result).1[i];
            &&& !(effect is FinishSave)
            &&& !(effect is ReleaseSession)
            &&& !(effect is HideWindow)
            &&& !(effect is CloseWindow)
            &&& effect is Measure
        }),
        state.save_finished(request_id, expected, completed_at, result).0.session == state.session,
        state.phase == (Phase::Saving { request_id }) ==> {
            let next = state.save_finished(request_id, expected, completed_at, result).0;
            &&& next.phase == Phase::Editing
            &&& next.persistent_error is Some
            &&& next.retry_kind == Some(RetryKind::Save)
        },
{
}

/// A capture or a draft that is being edited and is to be stashed is written as the latest
/// draft: exactly one write is asked for, of that document, under the generation of the request
/// and with a number that no stash had before.
pub proof fn law_a_stash_writes_the_open_document(
    state: AppView,
    request: WriteRequest,
    session: WorkingSession,
)
    requires
        state.phase == Phase::Editing,
        state.session == Some(session),
        session.origin != SessionOrigin::ExistingDocument,
        state.next_stash_sequence < u64::MAX,
        request.snapshot is Ok,
    ensures
        ({
            let (next, effects) = state.stash_begun(request);
            &&& next.phase == (Phase::Stashing {
                request_id: request.request_id,
                generation_id: request.generation_id,
            })
            &&& next.session == Some(session)
            &&& next.next_stash_sequence == state.next_stash_sequence + 1
            &&& effects.len() == 2
            &&& effects[0] matches Effect::Stash { context, generation_id }
            &&& generation_id == request.generation_id
            &&& writes_session(context, session, request.request_id)
            &&& context.stash_sequence == Some((state.next_stash_sequence + 1) as u64)
            &&& context.generation_id == Some(request.generation_id)
            &&& effects[1] == (Effect::SetTray {
                busy: true,
                draft_available: state.draft_available,
            })
        }),
{
}

/// A saved document is never stashed.
pub proof fn law_a_saved_document_is_not_stashed(state: AppView, request: WriteRequest)
    requires
        state.session matches Some(session) && session.origin == SessionOrigin::ExistingDocument,
    ensures
        state.stash_begun(request).1.len() == 0,
        state.stash_begun(request).0.phase == state.phase,
        state.stash_begun(request).0.session == state.session,
{
}

/// A stash that was begun and comes back with its own document leaves a draft that can be
/// opened again; no document is open then, and the program does nothing, or closes where it was
/// asked to. A saved document's preview and the list stay as they are.
pub proof fn law_a_finished_stash_leaves_a_draft(
    state: AppView,
    request: WriteRequest,
    session: WorkingSession,
    completed_at: u128,
    stored: LatestDraft,
    restoring: u128,
)
    requires
        state.phase == Phase::Editing,
        state.session == Some(session),
        session.origin != SessionOrigin::ExistingDocument,
        state.next_stash_sequence < u64::MAX,
        request.snapshot is Ok,
        writes_session(stored.context, session, request.request_id),
        stored.generation_id == request.generation_id,
        stored.document_id == session.document_id,
        stored.revision == session.revision,
    ensures
        ({
            let (next, effects) = state.stash_begun(request).0.stash_finished(
                request.request_id,
                stored.context,
                completed_at,
                Ok(stored),
            );
            &&& next.phase == Phase::Idle
            &&& next.session is None
            &&& next.draft_available
            &&& next.last_tool == Some(session.active_tool)
            &&& effects.contains(Effect::ReleaseSession)
            &&& forall|i: int| 0 <= i < effects.len() ==> !((#[trigger] effects[i]) is FinishSave)
            &&& state.quit_after_persist ==> next.allow_close && effects.contains(
                Effect::CloseWindow,
            )
            &&& !state.quit_after_persist ==> next.surface == WindowSurface::Hidden
                && effects.contains(Effect::HideWindow)
            &&& next.restore_begun(restoring).0.phase == (Phase::Restoring {
                request_id: restoring,
            })
            &&& next.restore_begun(restoring).1.contains(Effect::Restore { request_id: restoring })
        }),
{
    let begun = state.stash_begun(request).0;
    let (next, effects) = begun.stash_finished(
        request.request_id,
        stored.context,
        completed_at,
        Ok(stored),
    );
    assert(begun.trace_for(request.request_id) is Some);
    assert(effects.len() == 4);
    assert(effects[1] == Effect::ReleaseSession);
    assert(effects[2] == if state.quit_after_persist {
        Effect::CloseWindow
    } else {
        Effect::HideWindow
    });
    assert(next.restore_begun(restoring).1[0] == Effect::Restore { request_id: restoring });
}

/// A stash that failed keeps the document in the editor, says why and can be tried again,
/// unless the program was to be closed: then it closes.
pub proof fn law_a_failed_stash_can_be_retried(
    state: AppView,
    request_id: u128,
    generation_id: u128,
    expected: PersistenceContext,
    completed_at: u128,
    error: Seq<char>,
    request: WriteRequest,
)
    requires
        state.well_formed(),
        state.phase == (Phase::Stashing { request_id, generation_id }),
        request.snapshot is Ok,
        state.session matches Some(session) && session.origin != SessionOrigin::ExistingDocument,
        state.next_stash_sequence < u64::MAX,
    ensures
        ({
            let (next, effects) = state.stash_finished(
                request_id,
                expected,
                completed_at,
                Err(error),
            );
            &&& next.session == state.session
            &&& next.draft_available == state.draft_available
            &&& !effects.contains(Effect::ReleaseSession)
            &&& !state.quit_after_persist ==> {
                &&& next.phase == Phase::Editing
                &&& next.persistent_error == Some(error)
                &&& next.allow_close == state.allow_close
                &&& next.retried(request).0.phase == (Phase::Stashing {
                    request_id: request.request_id,
                    generation_id: request.generation_id,
                })
            }
            &&& state.quit_after_persist ==> next.allow_close && effects.contains(
                Effect::CloseWindow,
            )
        }),
{
    let (next, effects) = state.stash_finished(request_id, expected, completed_at, Err(error));
    if state.quit_after_persist {
        assert(effects.last() == Effect::CloseWindow);
        assert(effects[effects.len() - 1] == Effect::CloseWindow);
    }
}

/// A capture that is asked for while the program does nothing is begun: the windows leave the
/// screen, the tray is told, and the capture is made under the next number. What the library
/// complained of before is gone.
pub proof fn law_a_capture_is_made(
    state: AppView,
    request_id: u128,
    trigger: CaptureTrigger,
    now: u128,
)
    requires
        state.phase == Phase::Idle,
        state.next_capture_sequence < u64::MAX,
    ensures
        ({
            let (begun, start, _) = state.capture_begun(request_id, trigger, now);
            &&& start matches Some(start)
            &&& start.request_id == request_id
            &&& start.capture_sequence == state.next_capture_sequence + 1
            &&& start.trigger == trigger
            &&& ({
                let (next, effects) = begun.capture_prepared(start, Ok(()));
                &&& next.phase == (Phase::Capturing {
                    request_id,
                    capture_sequence: start.capture_sequence,
                })
                &&& next.surface == WindowSurface::Hidden
                &&& next.library_error is None
                &&& effects == seq![
                    Effect::SetTray { busy: true, draft_available: state.draft_available },
                    Effect::Capture { request_id, capture_sequence: start.capture_sequence },
                ]
            })
        }),
{
}

/// A capture that cannot be made, at whatever step, ends in the library, which says why: the
/// program does nothing then, and no document is open that was not.
pub proof fn law_a_failed_capture_ends_in_the_library(
    state: AppView,
    start: CaptureStart,
    completed_at: u128,
    now: u128,
    frame: CapturedFrame,
    error: Seq<char>,
)
    requires
        state.phase == (Phase::Capturing {
            request_id: start.request_id,
            capture_sequence: start.capture_sequence,
        }),
    ensures
        ({
            let (next, effects) = state.capture_prepared(start, Err(error));
            &&& next.phase == Phase::Idle
            &&& next.surface == WindowSurface::Library
            &&& next.library_error == Some(error)
            &&& next.session == state.session
            &&& effects.contains(Effect::ShowLibraryWindow)
        }),
        ({
            let (next, effects) = state.capture_spawn_failed(start, error);
            &&& next.phase == Phase::Idle
            &&& next.surface == WindowSurface::Library
            &&& next.library_error == Some("无法启动截图任务："@ + error)
            &&& next.session == state.session
            &&& effects.contains(Effect::ShowLibraryWindow)
            &&& effects.contains(
                Effect::SetTray { busy: false, draft_available: state.draft_available },
            )
        }),
        ({
            let (next, wanted, effects) = state.capture_arrived(
                start.request_id,
                start.capture_sequence,
                completed_at,
                now,
                Err(error),
            );
            &&& !wanted
            &&& next.phase == Phase::Idle
            &&& next.surface == WindowSurface::Library
            &&& next.library_error == Some(error)
            &&& next.session == state.session
            &&& effects.contains(Effect::ShowLibraryWindow)
        }),
        ({
            let (next, effects) = state.capture_session(frame, now, Err(error));
            &&& next.phase == Phase::Idle
            &&& next.surface == WindowSurface::Library
            &&& next.library_error == Some(error)
            &&& next.session == state.session
            &&& effects.contains(Effect::ShowLibraryWindow)
        }),
        frame.request_id != start.request_id || frame.capture_sequence != start.capture_sequence ==> {
            let (next, wanted, effects) = state.capture_arrived(
                start.request_id,
                start.capture_sequence,
                completed_at,
                now,
                Ok(frame),
            );
            &&& !wanted
            &&& next.phase == Phase::Idle
            &&& next.surface == WindowSurface::Library
            &&& next.session == state.session
        },
{
    let prepared = state.capture_prepared(start, Err(error)).1;
    assert(prepared[1] == Effect::ShowLibraryWindow);
    let spawned = state.capture_spawn_failed(start, error).1;
    assert(spawned[1] == Effect::ShowLibraryWindow);
    assert(spawned[2] == Effect::SetTray { busy: false, draft_available: state.draft_available });
    let arrived = state.capture_arrived(
        start.request_id,
        start.capture_sequence,
        completed_at,
        now,
        Err(error),
    ).2;
    assert(arrived[arrived.len() - 1] == Effect::ShowLibraryWindow);
    let made = state.capture_session(frame, now, Err(error)).1;
    assert(made[made.len() - 1] == Effect::ShowLibraryWindow);
}

/// A captured document is shown over the display that was captured: the window is sent exactly
/// there.
pub proof fn law_a_capture_is_shown_over_its_display(
    state: AppView,
    frame: CapturedFrame,
    started_at: u128,
    session: WorkingSession,
)
    ensures
        ({
            let (next, effects) = state.capture_session(frame, started_at, Ok(session));
            let target = Some(
                EditorWindowTarget::DisplayBounds(
                    frame.bounds.0,
                    frame.bounds.1,
                    frame.bounds.2,
                    frame.bounds.3,
                ),
            );
            &&& next.phase == Phase::Editing
            &&& next.session == Some(session)
            &&& next.surface == WindowSurface::Editor
            &&& next.editor_window_target == target
            &&& effects.contains(Effect::ShowEditorWindow(target))
            &&& state.capture_presentation_trace matches Some(trace) ==> (
            trace.performance.request_id == Some(frame.request_id)
                && trace.performance.capture_sequence == Some(frame.capture_sequence)
                && trace.performance.session_id is None && trace.performance.stash_sequence is None
                && trace.performance.generation_id is None && trace.performance.document_id is None
                && trace.performance.revision is None ==> (
            next.capture_presentation_trace matches Some(kept) && kept.pixel_size == Some(
                frame.pixel_size,
            ) && kept.started_at == trace.started_at && kept.performance == trace.performance))
            &&& effects[0] matches Effect::Measure(made)
            &&& made.ending is Success
            &&& made.started_at == Some(started_at)
            &&& made.pixel_size == Some(frame.pixel_size)
            &&& made.context.request_id == Some(frame.request_id)
        }),
{
    let effects = state.capture_session(frame, started_at, Ok(session)).1;
    assert(effects[1] is ShowEditorWindow);
}

/// A document that is opened from the library is read, and is then in the editor as a saved
/// document, on the display under the cursor; one that cannot be read leaves the program idle,
/// and the library says why.
pub proof fn law_a_document_is_opened(
    state: AppView,
    request_id: u128,
    document_id: u128,
    session: WorkingSession,
    cursor: (i32, i32),
    error: Seq<char>,
)
    requires
        state.phase == Phase::Idle,
    ensures
        ({
            let (begun, effects) = state.open_begun(document_id, request_id);
            let (done, shown) = begun.opened(request_id, document_id, Ok(session), Some(cursor));
            let failed = begun.opened(request_id, document_id, Err(error), Some(cursor));
            let target = Some(EditorWindowTarget::Cursor(cursor.0, cursor.1));
            &&& effects == seq![
                Effect::Open { request_id, document_id },
                Effect::SetTray { busy: true, draft_available: state.draft_available },
            ]
            &&& done.phase == Phase::Editing
            &&& done.surface == WindowSurface::Editor
            &&& done.session matches Some(opened)
            &&& opened.origin == SessionOrigin::ExistingDocument
            &&& opened.capture_sequence is None
            &&& opened.session_id == session.session_id
            &&& opened.document_id == session.document_id
            &&& opened.revision == session.revision
            &&& opened.dirty == session.dirty
            &&& (opened.width_px, opened.height_px) == (session.width_px, session.height_px)
            &&& opened.active_tool == session.active_tool
            &&& shown == seq![Effect::ShowEditorWindow(target)]
            &&& done.editor_window_target == target
            &&& failed.0.phase == Phase::Idle
            &&& failed.0.session == state.session
            &&& failed.0.library_error == Some(error)
        }),
{
}

/// A draft that is opened again is read, and is then in the editor as the latest draft of its
/// generation; where it is not there, or cannot be read, the program is idle and says so, and
/// a draft that is not there is not offered again.
pub proof fn law_a_draft_is_restored(
    state: AppView,
    request_id: u128,
    generation_id: u128,
    session: WorkingSession,
    cursor: Option<(i32, i32)>,
    error: String,
)
    requires
        state.phase == Phase::Idle,
        state.draft_available,
        state.next_capture_sequence < u64::MAX,
    ensures
        ({
            let (begun, effects) = state.restore_begun(request_id);
            let draft = RestoredDraft { generation_id, session: Ok(session) };
            let done = begun.restored(request_id, Ok(Some(draft)), cursor).0;
            let missing = begun.restored(request_id, Ok(None), cursor).0;
            let failed = begun.restored(request_id, Err(error), cursor).0;
            &&& effects == seq![
                Effect::Restore { request_id },
                Effect::SetTray { busy: true, draft_available: true },
            ]
            &&& done.phase == Phase::Editing
            &&& done.surface == WindowSurface::Editor
            &&& done.session matches Some(opened)
            &&& opened.origin == (SessionOrigin::LatestDraft { generation_id })
            &&& opened.capture_sequence == Some((state.next_capture_sequence + 1) as u64)
            &&& opened.session_id == session.session_id
            &&& opened.document_id == session.document_id
            &&& opened.revision == session.revision
            &&& opened.dirty == session.dirty
            &&& opened.active_tool == session.active_tool
            &&& missing.phase == Phase::Idle
            &&& !missing.draft_available
            &&& missing.library_error is Some
            &&& missing.session == state.session
            &&& failed.phase == Phase::Idle
            &&& failed.draft_available
            &&& failed.library_error == Some(error@)
            &&& failed.session == state.session
        }),
        ({
            let without = AppView { draft_available: false, ..state };
            without.restore_begun(request_id) == (without, Seq::<Effect>::empty())
        }),
{
}

/// Closing the editor stashes a capture or a draft, asks about changes of a saved document, and
/// lets go of one without changes, whose window then leaves the screen.
pub proof fn law_closing_the_editor(
    state: AppView,
    request: WriteRequest,
    session: WorkingSession,
)
    requires
        state.phase == Phase::Editing,
        state.session == Some(session),
        request.snapshot is Ok,
        state.next_stash_sequence < u64::MAX,
    ensures
        session.origin != SessionOrigin::ExistingDocument ==> {
            let (next, effects) = state.editor_closed(request);
            &&& next.phase == (Phase::Stashing {
                request_id: request.request_id,
                generation_id: request.generation_id,
            })
            &&& effects.len() > 0
            &&& effects[0] matches Effect::Stash { context, generation_id }
            &&& generation_id == request.generation_id
            &&& writes_session(context, session, request.request_id)
        },
        session.origin == SessionOrigin::ExistingDocument && session.dirty ==> {
            let (next, effects) = state.editor_closed(request);
            &&& next.phase == Phase::ConfirmingDiscard
            &&& next.session == Some(session)
            &&& !effects.contains(Effect::ReleaseSession)
        },
        session.origin == SessionOrigin::ExistingDocument && !session.dirty ==> {
            let (next, effects) = state.editor_closed(request);
            &&& next.phase == Phase::Idle
            &&& next.session is None
            &&& next.last_tool == Some(session.active_tool)
            &&& next.surface == WindowSurface::Hidden
            &&& effects.contains(Effect::ReleaseSession)
            &&& effects.contains(Effect::HideWindow)
        },
{
    if session.origin == SessionOrigin::ExistingDocument && !session.dirty {
        let effects = state.editor_closed(request).1;
        assert(effects[0] == Effect::ReleaseSession);
        assert(effects[1] == Effect::HideWindow);
    }
}

/// Leaving the program closes it at once where nothing would be lost, stashes a capture or a
/// draft first and closes it then, and asks where a saved document was changed.
pub proof fn law_leaving_the_program(
    state: AppView,
    request: WriteRequest,
    completed_at: u128,
    stored: LatestDraft,
)
    requires
        state.well_formed(),
        request.snapshot is Ok,
        state.next_stash_sequence < u64::MAX,
        !state.allow_close,
    ensures
        state.phase == Phase::Idle || state.phase is Capturing || state.phase is Opening
            || state.phase is Restoring ==> {
            let (next, effects) = state.quit_asked(request);
            next.allow_close && effects == seq![Effect::CloseWindow]
        },
        state.phase == Phase::Editing && (state.session matches Some(session) && session.origin
            == SessionOrigin::ExistingDocument && !session.dirty) ==> {
            let (next, effects) = state.quit_asked(request);
            next.allow_close && effects == seq![Effect::CloseWindow]
        },
        state.phase == Phase::Editing && (state.session matches Some(session) && session.origin
            == SessionOrigin::ExistingDocument && session.dirty) ==> {
            let (next, effects) = state.quit_asked(request);
            &&& next.exit_dialog
            &&& !next.allow_close
            &&& next.session == state.session
            &&& effects.len() == 0
        },
        (state.phase == Phase::Editing || state.phase == Phase::ConfirmingDiscard) && (
        state.session matches Some(session) && session.origin != SessionOrigin::ExistingDocument
            && writes_session(stored.context, session, request.request_id) && stored.generation_id
            == request.generation_id && stored.document_id == session.document_id
            && stored.revision == session.revision) ==> {
            let (next, effects) = state.quit_asked(request);
            let done = next.stash_finished(
                request.request_id,
                stored.context,
                completed_at,
                Ok(stored),
            );
            &&& !next.allow_close
            &&& next.phase is Stashing
            &&& next.session == state.session
            &&& effects.len() > 0 && effects[0] is Stash
            &&& done.0.allow_close
            &&& done.0.draft_available
            &&& done.1.contains(Effect::CloseWindow)
        },
{
    if (state.phase == Phase::Editing || state.phase == Phase::ConfirmingDiscard) && (
    state.session matches Some(session) && session.origin != SessionOrigin::ExistingDocument
        && writes_session(stored.context, session, request.request_id) && stored.generation_id
        == request.generation_id && stored.document_id == session.document_id && stored.revision
        == session.revision) {
        let next = state.quit_asked(request).0;
        let done = next.stash_finished(
            request.request_id,
            stored.context,
            completed_at,
            Ok(stored),
        );
        assert(next.trace_for(request.request_id) is Some);
        assert(done.1[2] == Effect::CloseWindow);
    }
}

/// Closing the window never loses a document: from the library one gets back to it, and a
/// program that does nothing only leaves the screen. The system is kept from closing the window
/// by itself, unless the program may be closed.
pub proof fn law_closing_the_window(
    state: AppView,
    request: WriteRequest,
    cursor: Option<(i32, i32)>,
)
    ensures
        ({
            let (next, effects) = state.close_asked(request, cursor);
            &&& next.session == state.session
            &&& state.allow_close ==> next == state && effects.len() == 0
            &&& !state.allow_close ==> effects.len() > 0 && effects[0] == Effect::CancelClose
            &&& !state.allow_close && state.surface == WindowSurface::Library
                && state.phase.holds_session() ==> {
                &&& next.surface == WindowSurface::Editor
                &&& next.phase == state.phase
                &&& effects.len() == 2 && effects[1] is ShowEditorWindow
                &&& cursor matches Some((x, y)) ==> effects[1] == Effect::ShowEditorWindow(
                    Some(EditorWindowTarget::Cursor(x, y)),
                )
            }
            &&& !state.allow_close && state.phase == Phase::Idle ==> {
                &&& next.surface == WindowSurface::Hidden
                &&& !next.allow_close
                &&& effects.len() == 2 && effects[1] == Effect::HideWindow
            }
        }),
{
}

/// The library is shown whenever it is asked for from the tray, but not while a document is
/// being written: then the user is told to wait.
pub proof fn law_the_library_is_shown_when_asked_for(state: AppView, now: u128)
    ensures
        ({
            let (next, effects) = state.recent_asked(now);
            if state.phase is Saving || state.phase is Stashing {
                &&& next.surface == state.surface
                &&& effects.len() == 0
                &&& next.toast matches Some((_, shown_at)) && shown_at == now
            } else {
                &&& next.surface == WindowSurface::Library
                &&& effects == seq![Effect::ShowLibraryWindow]
                &&& next.toast == state.toast
            }
        }),
{
}

/// A file is read into the library only where the program does nothing and the file is one of
/// its documents; it is then listed, marked and shown, and the user is told. Of any other file
/// the library complains.
pub proof fn law_a_file_is_imported(
    state: AppView,
    path: String,
    document_id: u128,
    now: u128,
    error: Seq<char>,
)
    requires
        state.phase == Phase::Idle,
    ensures
        state.import_begun(path, true, now) == (state, seq![Effect::Import(path)]),
        state.import_begun(path, false, now).1.len() == 0,
        state.import_begun(path, false, now).0.library_error is Some,
        ({
            let (next, effects) = state.imported(Ok(document_id), now);
            &&& next.surface == WindowSurface::Library
            &&& next.toast == Some(("讲义已导入"@, now))
            &&& effects.contains(Effect::RefreshRecent(None))
            &&& effects.contains(Effect::Highlight(Some(document_id)))
            &&& effects.contains(Effect::ForgetPreview(document_id))
            &&& effects.contains(Effect::ShowLibraryWindow)
        }),
        state.imported(Err(error), now).0.library_error == Some(error),
        state.imported(Err(error), now).1.len() == 0,
{
    let effects = state.imported(Ok(document_id), now).1;
    assert(effects[0] == Effect::RefreshRecent(None));
    assert(effects[1] == Effect::Highlight(Some(document_id)));
    assert(effects[2] == Effect::ForgetPreview(document_id));
    assert(effects[3] == Effect::ShowLibraryWindow);
}

/// A change of the library is shown at once, and tells whether there is still a draft; one that
/// failed changes nothing but what the library says.
pub proof fn law_a_change_of_the_library_is_shown(
    state: AppView,
    highlighted: Option<u128>,
    draft_exists: bool,
    error: Seq<char>,
)
    ensures
        ({
            let (next, effects) = state.library_changed(Ok(highlighted), draft_exists);
            &&& next == AppView { draft_available: draft_exists, ..state }
            &&& effects.contains(Effect::RefreshRecent(None))
            &&& effects.contains(Effect::Highlight(highlighted))
            &&& effects.contains(Effect::ForgetUnlistedPreviews)
        }),
        state.library_changed(Err(error), draft_exists) == (
            AppView { library_error: Some(error), ..state },
            Seq::<Effect>::empty(),
        ),
{
    let effects = state.library_changed(Ok(highlighted), draft_exists).1;
    assert(effects[0] == Effect::RefreshRecent(None));
    assert(effects[1] == Effect::Highlight(highlighted));
    assert(effects[2] == Effect::ForgetUnlistedPreviews);
}

/// What came of work at the side is told to the user, whether it failed or not; where it did
/// not, the list is read again.
pub proof fn law_work_at_the_side_is_told(
    state: AppView,
    message: String,
    error: String,
    now: u128,
)
    ensures
        state.auxiliary_done(Ok(message), now).0 == (AppView {
            toast: Some((message@, now)),
            ..state
        }),
        state.auxiliary_done(Ok(message), now).1 == seq![Effect::RefreshRecent(None)],
        state.auxiliary_done(Err(error), now).0 == (AppView {
            toast: Some((error@, now)),
            ..state
        }),
        state.auxiliary_done(Err(error), now).1.len() == 0,
{
}

/// A notice is on screen for four seconds, and no longer.
pub proof fn law_a_notice_stays_four_seconds(state: AppView, text: Seq<char>, shown_at: u128, now: u128)
    requires
        state.toast == Some((text, shown_at)),
    ensures
        state.toast_over(now) <==> now > shown_at + 4_000_000_000,
{
}

/// The program starts with the library on screen where that was asked for, where there are
/// documents to open or where the hotkey is not to be had, and else without a window. It says
/// all that went wrong where it is on screen.
pub proof fn law_the_start(
    start_visible: bool,
    has_files: bool,
    hotkey_error: Option<Seq<char>>,
    permission_error: Option<Seq<char>>,
    draft_available: bool,
)
    ensures
        ({
            let (state, effects) = AppView::started(
                start_visible,
                has_files,
                hotkey_error,
                permission_error,
                draft_available,
            );
            let shown = start_visible || has_files || hotkey_error is Some;
            &&& state.well_formed()
            &&& state.phase == Phase::Idle
            &&& state.draft_available == draft_available
            &&& !state.allow_close
            &&& shown ==> state.surface == WindowSurface::Library && effects.len() == 2
                && effects[1] == Effect::ShowLibraryWindow
            &&& !shown ==> state.surface == WindowSurface::Hidden && effects.len() == 2
                && effects[1] == Effect::Invisible
            &&& effects[0] == (Effect::SetTray { busy: false, draft_available })
            &&& hotkey_error is None && (permission_error is None || !shown)
                ==> state.library_error is None
            &&& hotkey_error matches Some(error) ==> (state.library_error matches Some(said)
                && ("全局快捷键注册失败："@ + error).is_prefix_of(said))
            &&& permission_error matches Some(error) ==> (shown ==> (
            state.library_error matches Some(said) && (
            "屏幕录制权限未授予；截图时会再次请求："@ + error).is_suffix_of(said)))
        }),
{
    let state = AppView::started(
        start_visible,
        has_files,
        hotkey_error,
        permission_error,
        draft_available,
    ).0;
    if let Some(error) = hotkey_error {
        let said = state.library_error->0;
        let first = "全局快捷键注册失败："@ + error;
        assert(said.subrange(0, first.len() as int) =~= first);
    }
    if let Some(error) = permission_error {
        if start_visible || has_files || hotkey_error is Some {
            let said = state.library_error->0;
            let last = "屏幕录制权限未授予；截图时会再次请求："@ + error;
            assert(said.subrange(said.len() - last.len(), said.len() as int) =~= last);
        }
    }
}

/// The way of a capture to the screen is measured once: as a success exactly where the editor
/// shows the document of that capture.
pub proof fn law_a_capture_is_measured_once_on_screen(state: AppView)
    ensures
        ({
            let (next, effects) = state.frame_drawn();
            &&& state.surface == WindowSurface::Editor ==> next.capture_presentation_trace is None
            &&& next.frame_drawn() == (next, Seq::<Effect>::empty())
            &&& state.capture_presentation_trace matches Some(trace) ==> (state.surface
                == WindowSurface::Editor ==> {
                &&& effects.len() == 2
                &&& effects[1] matches Effect::Measure(total)
                &&& total.stage == "capture.request.total"
                &&& total.context == trace.performance
                &&& total.started_at == Some(trace.started_at)
                &&& total.ending is Success <==> (state.session matches Some(session)
                    && session.capture_sequence == trace.performance.capture_sequence)
            })
        }),
{
}

/// While anything else is under way no file is read into the library, and the user is told.
pub proof fn law_no_file_is_imported_meanwhile(state: AppView, path: String, now: u128, document_id: u128)
    requires
        state.phase != Phase::Idle,
    ensures
        state.import_begun(path, true, now).1.len() == 0,
        state.import_begun(path, true, now).0.toast matches Some((_, shown_at)) && shown_at == now,
        state.import_begun(path, true, now).0.phase == state.phase,
        state.imported(Ok(document_id), now).0.surface == state.surface,
        state.imported(Ok(document_id), now).1 == seq![
            Effect::RefreshRecent(None),
            Effect::Highlight(Some(document_id)),
            Effect::ForgetPreview(document_id),
        ],
{
}

/// A write that is under way is measured once, as it ends, for its own request; the end of
/// another request neither measures it nor ends it.
pub proof fn law_a_write_is_measured_for_its_own_request(
    state: AppView,
    request_id: u128,
    completed_at: u128,
    ending: Ending,
)
    requires
        state.persistence_ui_trace is Some,
    ensures
        ({
            let trace = state.persistence_ui_trace->0;
            let own = trace.performance.request_id == Some(request_id);
            &&& own ==> {
                &&& state.trace_ending(request_id, ending).len() == 1
                &&& state.trace_ending(request_id, ending)[0] matches Effect::Measure(total)
                &&& total.context == trace.performance
                &&& total.started_at == Some(trace.started_at)
                &&& total.workflow == Some(trace.workflow)
                &&& total.ending == ending
                &&& state.without_trace(request_id).persistence_ui_trace is None
            }
            &&& own ==> {
                &&& state.arrived(request_id, completed_at).len() == 1
                &&& state.arrived(request_id, completed_at)[0] matches Effect::Measure(came)
                &&& came.started_at == Some(completed_at)
                &&& came.context == trace.performance
                &&& came.ending is Success
            }
            &&& !own ==> {
                &&& state.trace_ending(request_id, ending).len() == 0
                &&& state.arrived(request_id, completed_at).len() == 0
                &&& state.without_trace(request_id) == state
            }
        }),
{
}

} // verus!
