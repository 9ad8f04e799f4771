//! What can be relied on of work that waits its turn: drafts, encoders, the surfaces of the
//! displays, settings that come into force and documents that are looked up.

use vstd::prelude::*;

use crate::background_encode::{
    after_complete, after_supersede, following_id, outcome, overtaken, with_active,
    without_active, ActiveEncode, BackgroundView, PreparedView,
};
use crate::capture_surface::{
    cold, cold_surfaces, fresh, hidden, refresh_outcome, refreshed_surfaces, snapshot_of, updated,
    with_displays, CaptureSurfaceCoordinator, CaptureSurfaceError, DisplayCaptureSurface,
    DisplayRefreshOutcome, DisplaySnapshot, MonitorReading, SurfaceLifecycle, SurfaceViewport,
};
use crate::draft_coordinator::{
    given_up_by_capture, given_up_by_stash, queue_after_capture, queue_after_stash,
    DraftCommand, DraftCoordinator, ProcessingPhase, StashJob,
};
use crate::library_index::DocumentSummary;
use crate::library_view::{first_with, listed_first, listed_ids, png_name};
use crate::scale::finite_and_positive;
use crate::seqs::lemma_filter_contains;
use crate::settings::{part_action, part_from, undo_before, Part, SettingsActionView, SettingsView};

verus! {

/// A capture drops from the queue exactly the jobs for captures before it, and a job exactly
/// those before it; what stays keeps its order.
pub proof fn law_only_earlier_jobs_are_dropped(
    queue: Seq<DraftCommand>,
    command: DraftCommand,
    sequence: u64,
)
    ensures
        queue_after_capture(Seq::empty(), sequence).len() == 0,
        queue_after_stash(Seq::empty(), sequence).len() == 0,
        queue_after_capture(queue.push(command), sequence) == match command {
            DraftCommand::Commit(job) if job.capture() < sequence => queue_after_capture(
                queue,
                sequence,
            ),
            _ => queue_after_capture(queue, sequence).push(command),
        },
        queue_after_stash(queue.push(command), sequence) == match command {
            DraftCommand::Commit(job) if job.stash() < sequence => queue_after_stash(
                queue,
                sequence,
            ),
            _ => queue_after_stash(queue, sequence).push(command),
        },
{
    reveal(Seq::filter);
    assert(queue.push(command).drop_last() =~= queue);
}

/// The background of every job that a capture drops is given up.
pub proof fn law_a_dropped_job_needs_no_background(
    state: DraftCoordinator,
    job: StashJob,
    capture_sequence: u64,
    stash_sequence: u64,
)
    requires
        state.queue@.contains(DraftCommand::Commit(job)),
    ensures
        job.capture() < capture_sequence ==> given_up_by_capture(state, capture_sequence).contains(
            job.prepared_background,
        ),
        job.stash() < stash_sequence ==> given_up_by_stash(
            state,
            capture_sequence,
            stash_sequence,
        ).contains(job.prepared_background),
{
    let command = DraftCommand::Commit(job);
    if job.capture() < capture_sequence {
        let goes = |c: DraftCommand|
            crate::draft_coordinator::older_capture(c, capture_sequence);
        lemma_filter_contains(state.queue@, goes, command);
        let dropped = state.queue@.filter(goes);
        let k = choose|k: int| 0 <= k < dropped.len() && dropped[k] == command;
        assert(given_up_by_capture(state, capture_sequence)[k] == job.prepared_background);
    }
    if job.stash() < stash_sequence {
        let goes = |c: DraftCommand| crate::draft_coordinator::older_stash(c, stash_sequence);
        lemma_filter_contains(state.queue@, goes, command);
        let dropped = state.queue@.filter(goes);
        let k = choose|k: int| 0 <= k < dropped.len() && dropped[k] == command;
        assert(given_up_by_stash(state, capture_sequence, stash_sequence)[k]
            == job.prepared_background);
    }
}

/// No background is given up but that of a dropped job, and that of the job at work where it
/// still waits for it and something newer has come.
pub proof fn law_only_useless_backgrounds_are_given_up(
    state: DraftCoordinator,
    background: u64,
    capture_sequence: u64,
    stash_sequence: u64,
)
    ensures
        given_up_by_capture(state, capture_sequence).contains(background) ==> (exists|job: StashJob|
            #[trigger] state.queue@.contains(DraftCommand::Commit(job)) && job.capture()
                < capture_sequence && job.prepared_background == background) || (
        state.processing matches Some(processing) && processing.phase
            == ProcessingPhase::WaitingForBackground && processing.capture_sequence
            < capture_sequence && processing.prepared_background == background),
        given_up_by_stash(state, capture_sequence, stash_sequence).contains(background) ==> (exists|
            job: StashJob,
        |
            #[trigger] state.queue@.contains(DraftCommand::Commit(job)) && job.stash()
                < stash_sequence && job.prepared_background == background) || (
        state.processing matches Some(processing) && processing.phase
            == ProcessingPhase::WaitingForBackground && (processing.capture_sequence
            < capture_sequence || processing.stash_sequence < stash_sequence)
            && processing.prepared_background == background),
{
    let by_capture = given_up_by_capture(state, capture_sequence);
    if by_capture.contains(background) {
        let goes = |c: DraftCommand|
            crate::draft_coordinator::older_capture(c, capture_sequence);
        let dropped = state.queue@.filter(goes);
        let k = choose|k: int| 0 <= k < by_capture.len() && by_capture[k] == background;
        if k < dropped.len() {
            assert(dropped.contains(dropped[k]));
            lemma_filter_contains(state.queue@, goes, dropped[k]);
            let job = dropped[k]->Commit_0;
            assert(state.queue@.contains(DraftCommand::Commit(job)));
        }
    }
    let by_stash = given_up_by_stash(state, capture_sequence, stash_sequence);
    if by_stash.contains(background) {
        let goes = |c: DraftCommand| crate::draft_coordinator::older_stash(c, stash_sequence);
        let dropped = state.queue@.filter(goes);
        let k = choose|k: int| 0 <= k < by_stash.len() && by_stash[k] == background;
        if k < dropped.len() {
            assert(dropped.contains(dropped[k]));
            lemma_filter_contains(state.queue@, goes, dropped[k]);
            let job = dropped[k]->Commit_0;
            assert(state.queue@.contains(DraftCommand::Commit(job)));
        }
    }
}

/// The job at work gives its background up where it still waits for it and a later capture
/// comes; a job that is being written keeps it.
pub proof fn law_a_job_that_is_being_written_is_left_alone(
    state: DraftCoordinator,
    capture_sequence: u64,
)
    requires
        state.processing is Some,
        state.queue@.len() == 0,
    ensures
        state.processing->0.phase == ProcessingPhase::Committing ==> given_up_by_capture(
            state,
            capture_sequence,
        ).len() == 0,
        state.processing->0.phase == ProcessingPhase::WaitingForBackground
            && state.processing->0.capture_sequence < capture_sequence ==> given_up_by_capture(
            state,
            capture_sequence,
        ) == seq![state.processing->0.prepared_background],
{
    reveal(Seq::filter);
    assert(given_up_by_capture(state, capture_sequence) =~= match state.processing {
        Some(processing) if processing.phase == ProcessingPhase::WaitingForBackground
            && processing.capture_sequence < capture_sequence => seq![
            processing.prepared_background,
        ],
        _ => Seq::empty(),
    });
}

/// Of two jobs with different numbers, or for different captures, at most one is current.
pub proof fn law_at_most_one_job_is_current(
    state: DraftCoordinator,
    first: StashJob,
    second: StashJob,
)
    requires
        state.current(first.capture(), first.stash()),
        state.current(second.capture(), second.stash()),
    ensures
        first.capture() == second.capture(),
        first.stash() == second.stash(),
        first.capture() == state.latest_presented_capture_sequence,
        first.stash() == state.latest_requested_stash_sequence,
{
}

/// A background that was awaited becomes what the encoder gave, or is told to have failed
/// with the encoder's own reason.
pub proof fn law_an_awaited_background_is_what_the_encoder_gave(
    background: BackgroundView,
    error: Seq<char>,
)
    ensures
        outcome(PreparedView::Pending) is None,
        outcome(after_complete(PreparedView::Pending, Ok(background))) == Some(
            Ok::<BackgroundView, Option<Seq<char>>>(background),
        ),
        outcome(after_complete(PreparedView::Pending, Err(error))) == Some(
            Err::<BackgroundView, Option<Seq<char>>>(Some(error)),
        ),
        outcome(after_supersede(PreparedView::Pending)) == Some(
            Err::<BackgroundView, Option<Seq<char>>>(None),
        ),
{
}

/// A later capture overtakes exactly the encoders of earlier ones, in their order.
pub proof fn law_only_earlier_encoders_are_overtaken(
    active: Seq<ActiveEncode>,
    encode: ActiveEncode,
    capture_sequence: u64,
)
    ensures
        overtaken(Seq::empty(), capture_sequence).len() == 0,
        encode.capture_sequence < capture_sequence ==> overtaken(
            active.push(encode),
            capture_sequence,
        ) == overtaken(active, capture_sequence).push(encode.encode_id),
        encode.capture_sequence >= capture_sequence ==> overtaken(
            active.push(encode),
            capture_sequence,
        ) == overtaken(active, capture_sequence),
{
    reveal(Seq::filter);
    assert(active.push(encode).drop_last() =~= active);
    assert(overtaken(active.push(encode), capture_sequence) =~= if encode.capture_sequence
        < capture_sequence {
        overtaken(active, capture_sequence).push(encode.encode_id)
    } else {
        overtaken(active, capture_sequence)
    });
}

/// An encoder that has started is at work, and one that has ended is not; no other is
/// touched.
pub proof fn law_encoders_start_and_end_alone(
    active: Seq<ActiveEncode>,
    encode: ActiveEncode,
    other: ActiveEncode,
)
    ensures
        with_active(active, encode).last() == encode,
        !without_active(active, encode.encode_id).contains(encode),
        other.encode_id != encode.encode_id ==> (without_active(active, encode.encode_id).contains(
            other,
        ) <==> active.contains(other)),
        other.encode_id != encode.encode_id ==> (with_active(active, encode).contains(other)
            <==> active.contains(other)),
{
    let rest = |x: ActiveEncode| x.encode_id != encode.encode_id;
    lemma_filter_contains(active, rest, other);
    lemma_filter_contains(active, rest, encode);
    let before = without_active(active, encode.encode_id);
    if before.contains(other) {
        let k = choose|k: int| 0 <= k < before.len() && before[k] == other;
        assert(with_active(active, encode)[k] == other);
    }
}

/// Requests are numbered one after another, never with zero.
pub proof fn law_requests_are_numbered_apart(id: u64)
    ensures
        following_id(id) != id,
        following_id(id) != 0,
        id < u64::MAX ==> following_id(id) == id + 1,
{
}

/// A point is on a display exactly where it lies between its edges, the left and the upper
/// one included, for a display whose edges can be told.
pub proof fn law_a_display_covers_what_lies_between_its_edges(
    display: DisplaySnapshot,
    point: Seq<i32>,
)
    requires
        display.bounds_global@[0] + display.bounds_global@[2] <= i32::MAX,
        display.bounds_global@[1] + display.bounds_global@[3] <= i32::MAX,
        display.bounds_global@[2] >= 0,
        display.bounds_global@[3] >= 0,
    ensures
        display.covers(point) <==> {
            &&& display.bounds_global@[0] <= point[0]
            &&& point[0] < display.bounds_global@[0] + display.bounds_global@[2]
            &&& display.bounds_global@[1] <= point[1]
            &&& point[1] < display.bounds_global@[1] + display.bounds_global@[3]
        },
{
}

/// A monitor that says all that is needed of itself, with an extent and a sound scale, is
/// known as it says; one without an extent, or with no sound scale, is refused.
pub proof fn law_a_display_is_known_as_its_monitor_says(
    reading: MonitorReading,
    snapshot: Result<DisplaySnapshot, CaptureSurfaceError>,
)
    requires
        snapshot_of(reading, snapshot),
        reading.display_id is Ok,
        reading.x is Ok,
        reading.y is Ok,
        reading.width is Ok,
        reading.height is Ok,
        reading.scale_factor is Ok,
    ensures
        snapshot is Ok <==> {
            &&& 0 < reading.width->Ok_0 <= 0x7fff_ffff
            &&& 0 < reading.height->Ok_0 <= 0x7fff_ffff
            &&& finite_and_positive(reading.scale_factor->Ok_0)
        },
        snapshot matches Ok(display) ==> {
            &&& display.display_id == reading.display_id->Ok_0
            &&& display.bounds_global@[0] == reading.x->Ok_0
            &&& display.bounds_global@[1] == reading.y->Ok_0
            &&& display.bounds_global@[2] == reading.width->Ok_0
            &&& display.bounds_global@[3] == reading.height->Ok_0
            &&& display.scale_factor == reading.scale_factor->Ok_0
        },
{
    if let Ok(display) = snapshot {
        let bounds = seq![
            reading.x->Ok_0,
            reading.y->Ok_0,
            reading.width->Ok_0 as i32,
            reading.height->Ok_0 as i32,
        ];
        assert(display.bounds_global@ == bounds);
        assert(bounds[0] == reading.x->Ok_0);
    }
}

/// A monitor that cannot be asked is refused.
pub proof fn law_a_monitor_that_is_silent_is_refused(
    reading: MonitorReading,
    snapshot: Result<DisplaySnapshot, CaptureSurfaceError>,
)
    requires
        snapshot_of(reading, snapshot),
        reading.display_id is Err || reading.x is Err || reading.y is Err || reading.width is Err
            || reading.height is Err || reading.scale_factor is Err,
    ensures
        snapshot is Err,
{
}

/// A display without a surface gets one that is hidden and shows the display as it is; a
/// hidden surface takes the display on; one that is used keeps what it has, remembers what
/// changed, and takes that on once it is no longer used.
pub proof fn law_surfaces_follow_their_displays(
    surface: DisplayCaptureSurface,
    display: DisplaySnapshot,
)
    ensures
        fresh(display).display == display,
        fresh(display).lifecycle is Hidden,
        fresh(display).pending_display is None,
        surface.lifecycle is Hidden ==> updated(surface, display).display == display && updated(
            surface,
            display,
        ).lifecycle is Hidden,
        !(surface.lifecycle is Hidden) ==> updated(surface, display).display == surface.display
            && updated(surface, display).lifecycle == surface.lifecycle,
        !(surface.lifecycle is Hidden) && !surface.display.same(display) ==> hidden(
            updated(surface, display),
        ).display == display,
        hidden(surface).lifecycle is Hidden,
        hidden(surface).pending_display is None,
        surface.pending_display is None ==> hidden(surface).display == surface.display,
        surface.pending_display matches Some(changed) ==> hidden(surface).display == changed,
{
}

/// After the displays were looked at, each of them has a surface, and a hidden surface
/// without its display is gone unless it was used last.
pub proof fn law_every_display_has_a_surface(
    coordinator: CaptureSurfaceCoordinator,
    displays: Seq<DisplaySnapshot>,
    i: int,
    id: u32,
)
    requires
        coordinator.well_formed(),
        0 <= i < displays.len(),
    ensures
        refreshed_surfaces(coordinator, displays).contains_key(displays[i].display_id),
        refreshed_surfaces(coordinator, displays).contains_key(id) ==> (exists|j: int|
            0 <= j < displays.len() && (#[trigger] displays[j]).display_id == id)
            || coordinator.active_display_id == Some(id) || coordinator.retained_display_id == Some(
            id,
        ),
{
    lemma_displays_have_surfaces(coordinator.surfaces@, displays, i);
    assert(crate::capture_surface::available(displays, displays[i].display_id));
    if refreshed_surfaces(coordinator, displays).contains_key(id) {
        lemma_used_as_before(coordinator, displays, id);
    }
}

proof fn lemma_displays_have_surfaces(
    surfaces: Map<u32, DisplayCaptureSurface>,
    displays: Seq<DisplaySnapshot>,
    i: int,
)
    requires
        0 <= i < displays.len(),
    ensures
        with_displays(surfaces, displays).contains_key(displays[i].display_id),
    decreases displays.len(),
{
    if i < displays.len() - 1 {
        lemma_displays_have_surfaces(surfaces, displays.drop_last(), i);
        assert(displays.drop_last()[i] == displays[i]);
    }
}

proof fn lemma_used_as_before(
    coordinator: CaptureSurfaceCoordinator,
    displays: Seq<DisplaySnapshot>,
    id: u32,
)
    requires
        coordinator.well_formed(),
    ensures
        with_displays(coordinator.surfaces@, displays).contains_key(id) && !(with_displays(
            coordinator.surfaces@,
            displays,
        )[id].lifecycle is Hidden) ==> coordinator.active_display_id == Some(id),
    decreases displays.len(),
{
    if displays.len() > 0 {
        lemma_used_as_before(coordinator, displays.drop_last(), id);
    }
}

/// A display that changed while its surface was hidden, or that is new, is shown as it is
/// now.
pub proof fn law_a_hidden_surface_shows_its_display_as_it_is(
    surfaces: Map<u32, DisplayCaptureSurface>,
    displays: Seq<DisplaySnapshot>,
    display: DisplaySnapshot,
)
    ensures
        ({
            let before = with_displays(surfaces, displays);
            let after = with_displays(surfaces, displays.push(display));
            let id = display.display_id;
            &&& with_displays(surfaces, Seq::empty()) == surfaces
            &&& after.contains_key(id)
            &&& !before.contains_key(id) || before[id].lifecycle is Hidden ==> after[id].display
                == display && after[id].lifecycle is Hidden
            &&& before.contains_key(id) && !(before[id].lifecycle is Hidden) ==> after[id].display
                == before[id].display && after[id].lifecycle == before[id].lifecycle
            &&& forall|other: u32|
                other != id ==> {
                    &&& #[trigger] after.contains_key(other) <==> before.contains_key(other)
                    &&& after[other] == before[other]
                }
        }),
{
    assert(displays.push(display).drop_last() =~= displays);
}

/// The loss of the display in use is told before all else; otherwise it is told whether any
/// display is new, gone or changed.
pub proof fn law_the_loss_of_the_display_in_use_is_told(
    coordinator: CaptureSurfaceCoordinator,
    displays: Seq<DisplaySnapshot>,
)
    ensures
        ({
            let told = refresh_outcome(coordinator, displays);
            let lost = coordinator.active_display_id matches Some(active) && forall|i: int|
                0 <= i < displays.len() ==> (#[trigger] displays[i]).display_id != active;
            let same = displays.len() == coordinator.surfaces@.len() && forall|i: int|
                0 <= i < displays.len() ==> {
                    &&& coordinator.surfaces@.contains_key((#[trigger] displays[i]).display_id)
                    &&& coordinator.surfaces@[displays[i].display_id].display.same(displays[i])
                };
            &&& lost ==> told == DisplayRefreshOutcome::ActiveDisplayRemoved(
                coordinator.active_display_id->0,
            )
            &&& !lost && same ==> told == DisplayRefreshOutcome::Unchanged
            &&& !lost && !same ==> told == DisplayRefreshOutcome::DisplaysChanged
        }),
{
}

/// After a gap of five seconds every hidden surface is made anew for the same display, and
/// no surface in use is touched.
pub proof fn law_a_gap_renews_the_hidden_surfaces(
    surfaces: Map<u32, DisplayCaptureSurface>,
    id: u32,
    then: i128,
    now: i128,
)
    requires
        surfaces.contains_key(id),
    ensures
        cold(then, now) <==> now >= then + 5_000_000_000,
        cold_surfaces(surfaces).contains_key(id),
        cold_surfaces(surfaces)[id].display == surfaces[id].display,
        surfaces[id].lifecycle is Hidden ==> cold_surfaces(surfaces)[id].lifecycle is Hidden
            && cold_surfaces(surfaces)[id].pending_display is None,
        !(surfaces[id].lifecycle is Hidden) ==> cold_surfaces(surfaces)[id] == surfaces[id],
{
}

/// The window of a surface in use covers its display, is seen and takes the mouse; that of a
/// hidden one is neither seen nor in the mouse's way, and one that is kept for a while is
/// seen and lets the mouse through.
pub proof fn law_a_window_covers_its_display(
    surface: DisplayCaptureSurface,
    viewport: SurfaceViewport,
    kept: SurfaceViewport,
)
    requires
        surface.shown_in(viewport),
        surface.kept_in(kept),
    ensures
        viewport.settings.position@[0] == surface.display.bounds_global@[0],
        viewport.settings.position@[1] == surface.display.bounds_global@[1],
        viewport.settings.size@[0] == surface.display.bounds_global@[2],
        viewport.settings.size@[1] == surface.display.bounds_global@[3],
        surface.lifecycle == SurfaceLifecycle::Hidden ==> !viewport.settings.visible
            && !viewport.settings.active && viewport.settings.mouse_passthrough,
        surface.lifecycle != SurfaceLifecycle::Hidden ==> viewport.settings.visible
            && viewport.settings.active && !viewport.settings.mouse_passthrough,
        kept.settings.visible,
        kept.settings.mouse_passthrough,
        kept.settings.position@ == viewport.settings.position@,
        kept.settings.size@ == viewport.settings.size@,
        kept.settings.title@ == viewport.settings.title@,
{
    let bounds = surface.display.bounds_global@;
    assert(seq![bounds[0], bounds[1]][0] == bounds[0]);
    assert(seq![bounds[0], bounds[1]][1] == bounds[1]);
    assert(seq![bounds[2], bounds[3]][0] == bounds[2]);
    assert(seq![bounds[2], bounds[3]][1] == bounds[3]);
}

/// A change begins with the hotkey where that changes, else with the start at login where
/// that does, else with the file, and each part puts the new setting into force. The file
/// comes last, and always.
pub proof fn law_settings_come_into_force_in_order(old_settings: SettingsView, next: SettingsView)
    ensures
        ({
            let first = part_action(next, part_from(old_settings, next, Part::Hotkey));
            let second = part_action(next, part_from(old_settings, next, Part::Launch));
            let launch = old_settings.launch_at_login != next.launch_at_login;
            &&& old_settings.global_hotkey != next.global_hotkey ==> first
                == SettingsActionView::UseHotkey(next.global_hotkey)
            &&& old_settings.global_hotkey == next.global_hotkey ==> first == second
            &&& launch ==> second == SettingsActionView::LaunchAtLogin(next.launch_at_login)
            &&& !launch ==> second == SettingsActionView::Write(next)
            &&& part_action(next, part_from(old_settings, next, Part::File))
                == SettingsActionView::Write(next)
        }),
{
}

/// A change that fails is taken back from its last part to its first, and only as far as it
/// went.
pub proof fn law_settings_are_taken_back_in_reverse(old_settings: SettingsView, next: SettingsView)
    ensures
        ({
            let hotkey = SettingsActionView::UseHotkey(old_settings.global_hotkey);
            let launch = SettingsActionView::LaunchAtLogin(old_settings.launch_at_login);
            &&& undo_before(old_settings, next, Part::Hotkey).len() == 0
            &&& old_settings.global_hotkey != next.global_hotkey ==> undo_before(
                old_settings,
                next,
                Part::Launch,
            ) == seq![hotkey]
            &&& old_settings.global_hotkey == next.global_hotkey ==> undo_before(
                old_settings,
                next,
                Part::Launch,
            ).len() == 0
            &&& old_settings.global_hotkey != next.global_hotkey && old_settings.launch_at_login
                != next.launch_at_login ==> undo_before(old_settings, next, Part::File) == seq![
                launch,
                hotkey,
            ]
            &&& old_settings.global_hotkey == next.global_hotkey && old_settings.launch_at_login
                != next.launch_at_login ==> undo_before(old_settings, next, Part::File) == seq![
                launch,
            ]
        }),
{
}

/// A document that is listed is found where it stands first; one that is not listed is not
/// found.
pub proof fn law_a_listed_document_is_found(
    documents: Seq<DocumentSummary>,
    document_id: u128,
    i: int,
)
    ensures
        0 <= i < documents.len() && documents[i].document_id == document_id && (forall|j: int|
            0 <= j < i ==> (#[trigger] documents[j]).document_id != document_id) ==> first_with(
            documents,
            document_id,
        ) == Some(i) && png_name(documents, document_id) == crate::file_names::file_stem(
            documents[i].title@,
        ) + ".png"@,
        (forall|j: int|
            0 <= j < documents.len() ==> (#[trigger] documents[j]).document_id != document_id)
            ==> first_with(documents, document_id) is None,
        listed_ids(documents).contains(document_id) <==> first_with(documents, document_id) is Some,
{
    if 0 <= i < documents.len() && documents[i].document_id == document_id && (forall|j: int|
        0 <= j < i ==> (#[trigger] documents[j]).document_id != document_id) {
        assert(listed_first(documents, document_id, i));
        let found = choose|k: int| listed_first(documents, document_id, k);
        assert(listed_first(documents, document_id, found));
        assert(found == i);
    }
    if listed_ids(documents).contains(document_id) {
        let k = choose|k: int|
            0 <= k < documents.len() && (#[trigger] documents[k]).document_id == document_id;
        lemma_first(documents, document_id, k);
    }
    if first_with(documents, document_id) is Some {
        let found = choose|k: int| listed_first(documents, document_id, k);
        assert(listed_first(documents, document_id, found));
        assert(documents[found].document_id == document_id);
    }
}

proof fn lemma_first(documents: Seq<DocumentSummary>, document_id: u128, k: int)
    requires
        0 <= k < documents.len(),
        documents[k].document_id == document_id,
    ensures
        exists|i: int| listed_first(documents, document_id, i),
    decreases k,
{
    if forall|j: int| 0 <= j < k ==> (#[trigger] documents[j]).document_id != document_id {
        assert(listed_first(documents, document_id, k));
    } else {
        let j = choose|j: int|
            0 <= j < k && (#[trigger] documents[j]).document_id == document_id;
        lemma_first(documents, document_id, j);
    }
}

} // verus!
