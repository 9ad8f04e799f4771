//! What holds of the program across its events: a document that is open is not lost, and a
//! result that nobody waits for changes nothing.

use vstd::prelude::*;

use crate::application::{
    AppView, CapturedFrame, Effect, Phase, RestoredDraft, SavedDocument, WriteRequest,
};
use crate::persistence::{LatestDraft, PersistenceContext};
use crate::session::{CaptureTrigger, SessionOrigin, WorkingSession};

verus! {

/// The same state, but for what is measured.
pub open spec fn same_but_for_measures(left: AppView, right: AppView) -> bool {
    AppView {
        capture_presentation_trace: None,
        persistence_ui_trace: None,
        ..left
    } == (AppView { capture_presentation_trace: None, persistence_ui_trace: None, ..right })
}

/// The result of a save that is not under way changes nothing but what is measured.
pub proof fn law_stale_save_changes_nothing(
    state: AppView,
    request_id: u128,
    expected: PersistenceContext,
    completed_at: u128,
    result: Result<SavedDocument, Seq<char>>,
)
    requires
        state.phase != (Phase::Saving { request_id }),
    ensures
        same_but_for_measures(
            state.save_finished(request_id, expected, completed_at, result).0,
            state,
        ),
{
}

/// The result of a stash that is not under way changes nothing but what is measured.
pub proof fn law_stale_stash_changes_nothing(
    state: AppView,
    request_id: u128,
    expected: PersistenceContext,
    completed_at: u128,
    result: Result<LatestDraft, Seq<char>>,
)
    requires
        !(state.phase matches Phase::Stashing { request_id: current, .. } && current == request_id),
    ensures
        same_but_for_measures(
            state.stash_finished(request_id, expected, completed_at, result).0,
            state,
        ),
{
}

/// A picture that nobody waits for changes nothing but what is measured.
pub proof fn law_stale_capture_changes_nothing(
    state: AppView,
    request_id: u128,
    capture_sequence: u64,
    completed_at: u128,
    now: u128,
    result: Result<CapturedFrame, Seq<char>>,
)
    requires
        state.phase != (Phase::Capturing { request_id, capture_sequence }),
    ensures
        !state.capture_arrived(request_id, capture_sequence, completed_at, now, result).1,
        same_but_for_measures(
            state.capture_arrived(request_id, capture_sequence, completed_at, now, result).0,
            state,
        ),
{
}

/// A document or a draft that nobody waits for changes nothing.
pub proof fn law_stale_document_changes_nothing(
    state: AppView,
    request_id: u128,
    document_id: u128,
    session: Result<WorkingSession, Seq<char>>,
    draft: Result<Option<RestoredDraft>, String>,
    cursor: Option<(i32, i32)>,
)
    ensures
        state.phase != (Phase::Opening { request_id, document_id }) ==> state.opened(
            request_id,
            document_id,
            session,
            cursor,
        ) == (state, Seq::<Effect>::empty()),
        state.phase != (Phase::Restoring { request_id }) ==> state.restored(
            request_id,
            draft,
            cursor,
        ) == (state, Seq::<Effect>::empty()),
{
}

/// A save lets go of the document only where exactly that document was written, in the state
/// in which it is open.
pub proof fn law_save_keeps_what_it_did_not_write(
    state: AppView,
    request_id: u128,
    expected: PersistenceContext,
    completed_at: u128,
    result: Result<SavedDocument, Seq<char>>,
    session: WorkingSession,
)
    requires
        state.session == Some(session),
    ensures
        ({
            let next = state.save_finished(request_id, expected, completed_at, result).0;
            if next.session is None {
                &&& result matches Ok(saved)
                &&& saved.document_id == session.document_id
                &&& saved.revision == session.revision
                &&& saved.context == expected
            } else {
                next.session == state.session
            }
        }),
{
}

/// A stash lets go of the document only where exactly that document was written, in the state
/// in which it is open.
pub proof fn law_stash_keeps_what_it_did_not_write(
    state: AppView,
    request_id: u128,
    expected: PersistenceContext,
    completed_at: u128,
    result: Result<LatestDraft, Seq<char>>,
    session: WorkingSession,
)
    requires
        state.session == Some(session),
    ensures
        ({
            let next = state.stash_finished(request_id, expected, completed_at, result).0;
            if next.session is None {
                &&& result matches Ok(stored)
                &&& stored.document_id == session.document_id
                &&& stored.revision == session.revision
                &&& stored.context == expected
                &&& next.draft_available
            } else {
                next.session == state.session
            }
        }),
{
}

/// Closing the editor lets go of a document only where it is a saved one without changes.
/// A capture or a draft is kept until it has been written.
pub proof fn law_closing_keeps_unwritten_work(
    state: AppView,
    request: WriteRequest,
    session: WorkingSession,
)
    requires
        state.session == Some(session),
    ensures
        state.editor_closed(request).0.session is None <==> session.origin
            == SessionOrigin::ExistingDocument && !session.dirty,
        state.editor_closed(request).0.session is Some ==> state.editor_closed(request).0.session
            == state.session,
{
}

/// What is asked for while a document is open, be it a capture, another document, a draft, a
/// file, a write, the library or the end of the program, does not let go of the document.
pub proof fn law_other_requests_keep_the_document(
    state: AppView,
    request: WriteRequest,
    trigger: CaptureTrigger,
    path: String,
    is_board: bool,
    document_id: u128,
    cursor: Option<(i32, i32)>,
    now: u128,
)
    ensures
        state.capture_begun(request.request_id, trigger, now).0.session == state.session,
        state.open_begun(document_id, request.request_id).0.session == state.session,
        state.restore_begun(request.request_id).0.session == state.session,
        state.import_begun(path, is_board, now).0.session == state.session,
        state.save_begun(request).0.session == state.session,
        state.stash_begun(request).0.session == state.session,
        state.quit_asked(request).0.session == state.session,
        state.close_asked(request, cursor).0.session == state.session,
        state.recent_asked(now).0.session == state.session,
        state.retried(request).0.session == state.session,
{
}

/// While the program is doing anything, a capture, a document, a draft or a file that is
/// asked for is refused: nothing is started.
pub proof fn law_one_task_at_a_time(
    state: AppView,
    request_id: u128,
    trigger: CaptureTrigger,
    path: String,
    is_board: bool,
    document_id: u128,
    now: u128,
)
    requires
        state.phase != Phase::Idle,
    ensures
        state.capture_begun(request_id, trigger, now).1 is None,
        state.capture_begun(request_id, trigger, now).0.phase == state.phase,
        state.open_begun(document_id, request_id) == (state, Seq::<Effect>::empty()),
        state.restore_begun(request_id) == (state, Seq::<Effect>::empty()),
        state.import_begun(path, is_board, now).0.phase == state.phase,
        state.import_begun(path, is_board, now).1 == Seq::<Effect>::empty(),
{
}

/// A save that failed leaves the document open to be edited, keeps the program open, and can
/// be tried again.
pub proof fn law_failed_save_can_be_retried(
    state: AppView,
    request_id: u128,
    expected: PersistenceContext,
    completed_at: u128,
    error: Seq<char>,
    request: WriteRequest,
)
    requires
        state.well_formed(),
        state.phase == (Phase::Saving { request_id }),
        request.snapshot is Ok,
    ensures
        ({
            let failed = state.save_finished(request_id, expected, completed_at, Err(error)).0;
            &&& failed.phase == Phase::Editing
            &&& failed.session == state.session
            &&& failed.persistent_error == Some(error)
            &&& !failed.quit_after_persist
            &&& failed.allow_close == state.allow_close
            &&& failed.retried(request).0.phase == (Phase::Saving {
                request_id: request.request_id,
            })
        }),
{
}

/// The program is not closed while a document is being written: it is closed once the write
/// is done. A failed save keeps it open; a failed stash does not.
pub proof fn law_quit_waits_for_the_write(
    state: AppView,
    request: WriteRequest,
    request_id: u128,
    expected: PersistenceContext,
    completed_at: u128,
    saved: SavedDocument,
    error: Seq<char>,
)
    requires
        state.well_formed(),
        state.phase == (Phase::Saving { request_id }),
        !state.allow_close,
        state.result_matches(saved.context, expected, saved.document_id, saved.revision),
    ensures
        ({
            let (asked, effects) = state.quit_asked(request);
            &&& effects == Seq::<Effect>::empty()
            &&& !asked.allow_close
            &&& asked.phase == state.phase
            &&& asked.save_finished(request_id, expected, completed_at, Ok(saved)).0.allow_close
            &&& asked.save_finished(
                request_id,
                expected,
                completed_at,
                Ok(saved),
            ).1.contains(Effect::CloseWindow)
            &&& !asked.save_finished(request_id, expected, completed_at, Err(error)).0.allow_close
        }),
{
    let asked = state.quit_asked(request).0;
    let (next, effects) = asked.save_finished(request_id, expected, completed_at, Ok(saved));
    let before = asked.arrived(request_id, completed_at) + asked.after_save(request_id, saved)
        + seq![
        Effect::ReleaseSession,
        Effect::RefreshRecent(
            match asked.trace_for(request_id) {
                Some(trace) => Some(trace.performance),
                None => None,
            },
        ),
        Effect::ForgetPreview(saved.document_id),
    ];
    assert(effects[before.len() as int] == Effect::CloseWindow);
}

/// The numbers of captures only grow, and a capture that is begun gets one that no capture
/// had before.
pub proof fn law_capture_numbers_grow(
    state: AppView,
    request_id: u128,
    trigger: CaptureTrigger,
    draft: Result<Option<RestoredDraft>, String>,
    cursor: Option<(i32, i32)>,
    now: u128,
)
    requires
        state.next_capture_sequence < u64::MAX,
    ensures
        ({
            let (next, start, _) = state.capture_begun(request_id, trigger, now);
            &&& next.next_capture_sequence >= state.next_capture_sequence
            &&& start matches Some(start) ==> start.capture_sequence > state.next_capture_sequence
                && start.capture_sequence == next.next_capture_sequence
        }),
        ({
            let (next, _) = state.restored(request_id, draft, cursor);
            &&& next.next_capture_sequence >= state.next_capture_sequence
            &&& next.session != state.session ==> (next.session matches Some(session)
                && session.capture_sequence == Some(next.next_capture_sequence)
                && next.next_capture_sequence > state.next_capture_sequence)
        }),
{
}

/// A capture that is begun and comes back with its own picture puts that picture's document
/// into the editor, over the display that it was taken from.
pub proof fn law_capture_reaches_the_editor(
    state: AppView,
    request_id: u128,
    trigger: CaptureTrigger,
    now: u128,
    completed_at: u128,
    frame: CapturedFrame,
    session: WorkingSession,
)
    requires
        state.phase == Phase::Idle,
        state.next_capture_sequence < u64::MAX,
        frame.request_id == request_id,
        frame.capture_sequence == state.next_capture_sequence + 1,
    ensures
        ({
            let begun = state.capture_begun(request_id, trigger, now);
            &&& begun.1 matches Some(start)
            &&& ({
                let waiting = begun.0.capture_prepared(start, Ok(())).0;
                let arrived = waiting.capture_arrived(
                    request_id,
                    start.capture_sequence,
                    completed_at,
                    completed_at,
                    Ok(frame),
                );
                let done = arrived.0.capture_session(frame, completed_at, Ok(session)).0;
                &&& arrived.1
                &&& done.phase == Phase::Editing
                &&& done.session == Some(session)
                &&& done.surface == crate::application::WindowSurface::Editor
                &&& done.editor_window_target == crate::application::window_target(
                    Some(frame.bounds),
                    None,
                )
            })
        }),
{
}

} // verus!
