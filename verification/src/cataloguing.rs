//! What the library can rely on of its index, from a command to what is remembered,
//! reported and written.

use vstd::prelude::*;

use crate::library_index::{
    lists, remembered, DocumentSkeleton, DocumentSummary, IndexedDocument, LibraryIndexFile,
};
use crate::library_worker::{
    entries_of, present, reading_order, started, still_there, to_read, ActionView, Command,
    IndexInput, Stage, WorkerView,
};
use crate::seqs::lemma_filter_all;

verus! {

/// Whether `entry` says of a document what `summary` says of it.
pub open spec fn tells_of(entry: IndexedDocument, summary: DocumentSummary) -> bool {
    &&& entry.document_id == summary.document_id
    &&& entry.title == summary.title
    &&& entry.revision == summary.revision
    &&& entry.updated_at == summary.updated_at
    &&& entry.preview_revision == summary.preview_revision
    &&& entry.manifest_byte_len == summary.manifest_fingerprint.byte_len
    &&& match summary.manifest_fingerprint.modified_at {
        Some(time) if time >= 0 => entry.manifest_modified_ns matches Some(nanos) && nanos == time,
        _ => entry.manifest_modified_ns is None,
    }
}

/// Whether two workers remember the same of every document but one.
pub open spec fn agree_but_on(left: WorkerView, right: WorkerView, document_id: u128) -> bool {
    forall|id: u128|
        id != document_id ==> {
            &&& #[trigger] left.indexed.contains_key(id) <==> right.indexed.contains_key(id)
            &&& left.indexed.contains_key(id) ==> left.indexed[id] == right.indexed[id]
        }
}

/// A document that was saved is remembered as it was saved, need not be read any more and
/// leaves the index to be written; every other document is remembered as before.
pub proof fn law_a_saved_document_is_remembered(
    worker: WorkerView,
    summary: DocumentSummary,
    now: u128,
)
    ensures
        ({
            let (next, action) = worker.stepped(IndexInput::Command(Command::Upsert(summary)), now);
            &&& action is Poll
            &&& next.indexed.contains_key(summary.document_id)
            &&& tells_of(next.indexed[summary.document_id], summary)
            &&& agree_but_on(next, worker, summary.document_id)
            &&& !next.pending.contains_key(summary.document_id)
            &&& next.dirty_since is Some
            &&& next.batch == worker.batch
        }),
{
}

/// A document that was deleted is forgotten, and not read; every other is remembered as
/// before. The index has to be written where it named the document.
pub proof fn law_a_deleted_document_is_forgotten(
    worker: WorkerView,
    document_id: u128,
    now: u128,
)
    ensures
        ({
            let (next, action) = worker.stepped(
                IndexInput::Command(Command::Remove(document_id)),
                now,
            );
            &&& action is Poll
            &&& !next.indexed.contains_key(document_id)
            &&& !next.pending.contains_key(document_id)
            &&& agree_but_on(next, worker, document_id)
            &&& worker.indexed.contains_key(document_id) ==> next.dirty_since is Some
            &&& !worker.indexed.contains_key(document_id) ==> next.dirty_since
                == worker.dirty_since
        }),
{
}

/// A library that was cleared has nothing remembered and nothing to be read, and the empty
/// index has to be written.
pub proof fn law_a_cleared_library_is_forgotten(worker: WorkerView, id: u128, now: u128)
    ensures
        ({
            let (next, action) = worker.stepped(IndexInput::Command(Command::Clear), now);
            &&& action is Poll
            &&& !next.indexed.contains_key(id)
            &&& !next.pending.contains_key(id)
            &&& !next.priority.contains(id)
            &&& !next.priority_set.contains(id)
            &&& next.dirty_since is Some
        }),
{
}

/// A document that was read is remembered as it was read and stands last among those
/// reported, at once or later; one that could not be read is forgotten and reported with the
/// reason.
pub proof fn law_a_read_document_is_remembered_and_reported(
    worker: WorkerView,
    skeleton: DocumentSkeleton,
    result: Result<DocumentSummary, String>,
    now: u128,
)
    ensures
        ({
            let (next, action) = worker.stepped(IndexInput::Loaded { skeleton, result }, now);
            let (summaries, failures) = match action {
                ActionView::SendBatch { summaries, failures } => (summaries, failures),
                _ => (next.batch, next.batch_failures),
            };
            match result {
                Ok(summary) => {
                    &&& next.indexed.contains_key(summary.document_id)
                    &&& tells_of(next.indexed[summary.document_id], summary)
                    &&& agree_but_on(next, worker, summary.document_id)
                    &&& summaries == worker.batch.push(summary)
                    &&& failures == worker.batch_failures
                    &&& next.dirty_since is Some
                },
                Err(error) => {
                    &&& !next.indexed.contains_key(skeleton.document_id)
                    &&& agree_but_on(next, worker, skeleton.document_id)
                    &&& summaries == worker.batch
                    &&& failures == worker.batch_failures.push((skeleton.document_id, error))
                },
            }
        }),
{
}

/// What was read is reported once 64 documents have been read, or 16 milliseconds after the
/// last report; until then it is kept.
pub proof fn law_reports_are_collected(
    worker: WorkerView,
    skeleton: DocumentSkeleton,
    result: Result<DocumentSummary, String>,
    now: u128,
)
    ensures
        worker.stepped(IndexInput::Loaded { skeleton, result }, now).1 is SendBatch <==> (
        worker.batch.len() + worker.batch_failures.len() + 1 >= 64 || now - worker.last_batch_sent
            >= 16_000_000),
{
}

/// The time of a report counts from when it was taken.
pub proof fn law_a_report_that_was_taken_starts_the_time_anew(worker: WorkerView, now: u128)
    requires
        worker.stage == Stage::FlushingAfterLoad || worker.stage == Stage::FlushingIdle,
    ensures
        worker.stepped(IndexInput::Sent(true), now).0.last_batch_sent == now,
        worker.stepped(IndexInput::Sent(false), now).0.last_batch_sent == worker.last_batch_sent,
{
}

/// No document that was read is lost before it is reported: each step either hands over all
/// that was collected, in its order, or keeps it.
pub proof fn law_nothing_read_is_lost(worker: WorkerView, input: IndexInput, now: u128)
    requires
        worker.expects(input),
    ensures
        ({
            let (next, action) = worker.stepped(input, now);
            match action {
                ActionView::SendBatch { summaries, failures } => {
                    &&& worker.batch.is_prefix_of(summaries)
                    &&& worker.batch_failures.is_prefix_of(failures)
                    &&& next.batch.len() == 0
                    &&& next.batch_failures.len() == 0
                },
                _ => {
                    &&& worker.batch.is_prefix_of(next.batch)
                    &&& worker.batch_failures.is_prefix_of(next.batch_failures)
                },
            }
        }),
{
    match input {
        IndexInput::Command(Command::Prioritize(document_ids)) => {
            lemma_prioritizing_changes_the_order_alone(worker, document_ids@);
        },
        _ => {},
    }
}

proof fn lemma_prioritizing_changes_the_order_alone(worker: WorkerView, document_ids: Seq<u128>)
    ensures
        worker.prioritized(document_ids) == (WorkerView {
            priority: worker.prioritized(document_ids).priority,
            priority_set: worker.prioritized(document_ids).priority_set,
            ..worker
        }),
    decreases document_ids.len(),
{
    if document_ids.len() > 0 {
        lemma_prioritizing_changes_the_order_alone(worker, document_ids.drop_last());
    }
}

/// A document that was read again is remembered where it has the revision that was asked
/// for; otherwise nothing changes.
pub proof fn law_a_refresh_counts_for_its_revision(
    worker: WorkerView,
    document_id: u128,
    revision: u64,
    result: Result<DocumentSummary, String>,
    now: u128,
)
    requires
        result matches Ok(summary) ==> summary.document_id == document_id,
    ensures
        ({
            let asked = worker.stepped(
                IndexInput::Command(Command::Refresh { document_id, revision }),
                now,
            );
            let (next, action) = asked.0.stepped(
                IndexInput::Refreshed { document_id, revision, result },
                now,
            );
            &&& asked.1 == (ActionView::LoadById { document_id, revision })
            &&& action is Poll
            &&& agree_but_on(next, worker, document_id)
            &&& match result {
                Ok(summary) => if summary.revision == revision {
                    &&& next.indexed.contains_key(document_id)
                    &&& tells_of(next.indexed[document_id], summary)
                    &&& !next.pending.contains_key(document_id)
                    &&& next.dirty_since is Some
                } else {
                    next.indexed == worker.indexed && next.dirty_since == worker.dirty_since
                },
                Err(_) => next.indexed == worker.indexed && next.dirty_since
                    == worker.dirty_since,
            }
        }),
{
}

/// With no command at hand the worker reads the first of the documents to be read first, or
/// with none of these the first of the background order; the document is not read again.
pub proof fn law_documents_are_read_in_their_order(worker: WorkerView, now: u128)
    ensures
        ({
            let (next, action) = worker.stepped(IndexInput::NoCommand, now);
            let id = if worker.priority.len() > 0 {
                worker.priority[0]
            } else {
                worker.background_order[0]
            };
            (worker.priority.len() > 0 || worker.background_order.len() > 0)
                && worker.pending.contains_key(id) ==> {
                &&& action == ActionView::Load(worker.pending[id])
                &&& next.stage == Stage::Loading
                &&& !next.pending.contains_key(id)
                &&& forall|other: u128|
                    other != id ==> (#[trigger] next.pending.contains_key(other)
                        <==> worker.pending.contains_key(other))
                &&& worker.priority.len() > 0 ==> next.priority == worker.priority.skip(1)
                    && next.background_order == worker.background_order
                &&& worker.priority.len() == 0 ==> next.background_order
                    == worker.background_order.skip(1)
            }
        }),
{
    if worker.priority.len() > 0 {
        assert(worker.priority.drop_first() =~= worker.priority.skip(1));
    } else if worker.background_order.len() > 0 {
        assert(worker.background_order.drop_first() =~= worker.background_order.skip(1));
    }
}

/// Documents asked for go behind those asked for before, in their order: one more that has
/// to be read and was not asked for yet stands last, any other changes nothing.
pub proof fn law_documents_asked_for_queue_up(
    worker: WorkerView,
    document_ids: Seq<u128>,
    document_id: u128,
)
    requires
        worker.consistent(),
    ensures
        ({
            let earlier = worker.prioritized(document_ids);
            let later = worker.prioritized(document_ids.push(document_id));
            &&& worker.prioritized(Seq::empty()).priority == worker.priority
            &&& worker.priority.is_prefix_of(earlier.priority)
            &&& worker.pending.contains_key(document_id) && !earlier.priority.contains(document_id)
                ==> later.priority == earlier.priority.push(document_id)
            &&& !worker.pending.contains_key(document_id) || earlier.priority.contains(document_id)
                ==> later.priority == earlier.priority
        }),
{
    lemma_asked_for(worker, document_ids);
    assert(document_ids.push(document_id).drop_last() =~= document_ids);
}

proof fn lemma_asked_for(worker: WorkerView, document_ids: Seq<u128>)
    requires
        worker.consistent(),
    ensures
        worker.prioritized(document_ids).consistent(),
        worker.prioritized(document_ids).pending == worker.pending,
        worker.priority.is_prefix_of(worker.prioritized(document_ids).priority),
    decreases document_ids.len(),
{
    if document_ids.len() > 0 {
        lemma_asked_for(worker, document_ids.drop_last());
        let earlier = worker.prioritized(document_ids.drop_last());
        let id = document_ids.last();
        let later = earlier.prioritized_one(id);
        if earlier.pending.contains_key(id) && !earlier.priority_set.contains(id) {
            assert forall|other: u128| #[trigger]
                later.priority_set.contains(other) <==> later.priority.contains(other) by {
                if earlier.priority.contains(other) {
                    let i = choose|i: int|
                        0 <= i < earlier.priority.len() && earlier.priority[i] == other;
                    assert(later.priority[i] == other);
                }
                if other == id {
                    assert(later.priority[earlier.priority.len() as int] == id);
                }
            }
            assert(later.priority.no_duplicates());
        }
    }
}

/// The index is written a quarter of a second after its first change: the worker waits no
/// longer than that, and no longer than a second where nothing changed.
pub proof fn law_a_change_is_written_after_a_quarter_of_a_second(
    worker: WorkerView,
    since: u128,
    now: u128,
)
    requires
        since <= now,
    ensures
        ({
            let waiting = WorkerView {
                stage: Stage::Reconciling,
                dirty_since: Some(since),
                ..worker
            };
            let unchanged = WorkerView { dirty_since: None, ..waiting };
            let (next, action) = waiting.stepped(IndexInput::Sent(true), now);
            &&& now - since >= 250_000_000 ==> action is Persist && next.indexed
                == worker.indexed
            &&& now - since < 250_000_000 ==> (action matches ActionView::Wait(time) && now + time
                == since + 250_000_000)
            &&& unchanged.stepped(IndexInput::Sent(true), now).1 == ActionView::Wait(1_000_000_000)
        }),
{
}

/// An index that was written need not be written until it changes again; one that could not
/// be is tried again.
pub proof fn law_a_written_index_is_not_written_again(worker: WorkerView, now: u128)
    requires
        worker.stage == Stage::PersistingAfterLoad || worker.stage == Stage::PersistingIdle
            || worker.stage == Stage::PersistingToStop,
    ensures
        worker.stepped(IndexInput::Persisted(true), now).0.dirty_since is None,
        worker.stepped(IndexInput::Persisted(false), now).0.dirty_since == Some(now),
        worker.stepped(IndexInput::Persisted(true), now).0.indexed == worker.indexed,
        worker.stage == Stage::PersistingAfterLoad ==> worker.stepped(
            IndexInput::Persisted(true),
            now,
        ).1 is Poll,
        worker.stage == Stage::PersistingIdle ==> worker.stepped(
            IndexInput::Persisted(true),
            now,
        ).1 is Wait,
        worker.stage == Stage::PersistingToStop ==> worker.stepped(
            IndexInput::Persisted(false),
            now,
        ).1 is Stop,
{
}

/// While it works or waits the worker keeps the first moment of a change, so that later
/// changes do not put the writing off.
pub proof fn law_later_changes_do_not_delay_the_writing(
    worker: WorkerView,
    input: IndexInput,
    since: u128,
    now: u128,
)
    requires
        worker.dirty_since == Some(since),
        worker.expects(input),
        !(input is Persisted),
    ensures
        worker.stepped(input, now).0.dirty_since == Some(since),
{
    match input {
        IndexInput::Command(Command::Prioritize(document_ids)) => {
            lemma_prioritizing_changes_the_order_alone(worker, document_ids@);
        },
        _ => {},
    }
}

/// With nothing left to read the worker first reports what it has collected, then the end of
/// the work.
pub proof fn law_the_end_of_the_work_is_reported_last(worker: WorkerView, now: u128)
    requires
        worker.priority.len() == 0,
        worker.background_order.len() == 0,
        !worker.reconciled_sent,
    ensures
        ({
            let (next, action) = worker.stepped(IndexInput::NoCommand, now);
            if worker.batch.len() > 0 || worker.batch_failures.len() > 0 {
                &&& action == (ActionView::SendBatch {
                    summaries: worker.batch,
                    failures: worker.batch_failures,
                })
                &&& next.stepped(IndexInput::Sent(true), now).1 is SendReconciled
            } else {
                action is SendReconciled && next.reconciled_sent
            }
        }),
{
}

/// A worker that was told to end, or that no one can tell anything any more, writes an index
/// that changed, and ends whether or not it could be written.
pub proof fn law_the_worker_ends(worker: WorkerView, written: bool, now: u128)
    requires
        worker.stage == Stage::Waiting,
    ensures
        ({
            let told = worker.stepped(IndexInput::Command(Command::Shutdown), now);
            &&& told == worker.stepped(IndexInput::Disconnected, now)
            &&& worker.dirty_since is None ==> told.1 is Stop && told.0.stage == Stage::Stopped
            &&& worker.dirty_since is Some ==> told.1 is Persist && told.0.stepped(
                IndexInput::Persisted(written),
                now,
            ).1 is Stop
        }),
{
}

/// A report that nobody takes ends the worker, once all of its work is done.
pub proof fn law_a_worker_that_nobody_listens_to_ends(worker: WorkerView, now: u128)
    requires
        worker.stage == Stage::Reconciling,
    ensures
        worker.stepped(IndexInput::Sent(false), now).1 is Stop,
        !(worker.stepped(IndexInput::Sent(true), now).1 is Stop),
{
}

/// At its start the worker remembers of the index file exactly the documents that were
/// found.
pub proof fn law_the_start_remembers_what_is_still_there(
    entries: Seq<IndexedDocument>,
    skeletons: Seq<DocumentSkeleton>,
    id: u128,
)
    requires
        forall|i: int, j: int|
            0 <= i < j < entries.len() ==> (#[trigger] entries[i]).document_id != (
            #[trigger] entries[j]).document_id,
    ensures
        still_there(entries, skeletons).contains_key(id) ==> present(skeletons, id)
            && entries.contains(still_there(entries, skeletons)[id]) && still_there(
            entries,
            skeletons,
        )[id].document_id == id,
        forall|i: int|
            0 <= i < entries.len() && present(
                skeletons,
                (#[trigger] entries[i]).document_id,
            ) ==> still_there(entries, skeletons).contains_key(entries[i].document_id)
                && still_there(entries, skeletons)[entries[i].document_id] == entries[i],
    decreases entries.len(),
{
    if entries.len() > 0 {
        let rest = entries.drop_last();
        law_the_start_remembers_what_is_still_there(rest, skeletons, id);
        let last = entries.len() - 1;
        assert(entries[last] == entries.last());
        if still_there(rest, skeletons).contains_key(id) {
            let found = still_there(rest, skeletons)[id];
            let i = choose|i: int| 0 <= i < rest.len() && rest[i] == found;
            assert(entries[i] == found);
        }
        assert forall|i: int|
            0 <= i < entries.len() && present(
                skeletons,
                (#[trigger] entries[i]).document_id,
            ) implies still_there(entries, skeletons).contains_key(entries[i].document_id)
            && still_there(entries, skeletons)[entries[i].document_id] == entries[i] by {
            if i < last {
                assert(rest[i] == entries[i]);
            }
        }
    }
}

/// One more document that was found is read after those found before where the index does
/// not know it as it is; otherwise it is not read.
pub proof fn law_found_documents_are_read_in_their_order(
    skeletons: Seq<DocumentSkeleton>,
    skeleton: DocumentSkeleton,
    indexed: Map<u128, IndexedDocument>,
)
    ensures
        ({
            let earlier = reading_order(skeletons, indexed);
            let later = reading_order(skeletons.push(skeleton), indexed);
            let known = indexed.contains_key(skeleton.document_id)
                && indexed[skeleton.document_id].fingerprint() == skeleton.manifest_fingerprint;
            &&& reading_order(Seq::empty(), indexed).len() == 0
            &&& known ==> later == earlier && to_read(skeletons.push(skeleton), indexed)
                == to_read(skeletons, indexed)
            &&& !known ==> later == earlier.push(skeleton.document_id) && to_read(
                skeletons.push(skeleton),
                indexed,
            ) == to_read(skeletons, indexed).insert(skeleton.document_id, skeleton)
        }),
{
    reveal(Seq::filter);
    assert(skeletons.push(skeleton).drop_last() =~= skeletons);
    let stale = |found: DocumentSkeleton| crate::library_worker::stale(found, indexed);
    assert(reading_order(skeletons.push(skeleton), indexed) =~= if stale(skeleton) {
        reading_order(skeletons, indexed).push(skeleton.document_id)
    } else {
        reading_order(skeletons, indexed)
    });
}

/// With no index to go by every document that was found is read, in the order in which it
/// was found, and the index has to be written; with an index of documents that are all
/// there, it need not be.
pub proof fn law_the_start(
    skeletons: Seq<DocumentSkeleton>,
    file: LibraryIndexFile,
    error: String,
    now: u128,
)
    ensures
        ({
            let blank = started(skeletons, Err(error), now);
            let known = started(skeletons, Ok(file), now);
            &&& blank.indexed == Map::<u128, IndexedDocument>::empty()
            &&& blank.background_order.len() == skeletons.len()
            &&& forall|i: int|
                0 <= i < skeletons.len() ==> #[trigger] blank.background_order[i]
                    == skeletons[i].document_id
            &&& blank.dirty_since == Some(now)
            &&& (forall|i: int|
                0 <= i < file.documents@.len() ==> present(
                    skeletons,
                    (#[trigger] file.documents@[i]).document_id,
                )) <==> known.dirty_since is None
            &&& known.indexed == still_there(file.documents@, skeletons)
            &&& known.pending == to_read(skeletons, known.indexed)
            &&& known.stage == Stage::Polling
            &&& !known.reconciled_sent
            &&& known.batch.len() == 0
            &&& known.batch_failures.len() == 0
            &&& known.priority.len() == 0
            &&& known.last_batch_sent == now
        }),
{
    let stale = |found: DocumentSkeleton|
        crate::library_worker::stale(found, Map::<u128, IndexedDocument>::empty());
    assert(entries_of(Err(error)).len() == 0);
    assert(still_there(entries_of(Err(error)), skeletons) == Map::<u128, IndexedDocument>::empty());
    lemma_filter_all(skeletons, stale);
}

/// What is shown of a remembered document is what was known of it, with its preview exactly
/// where that was made of the present revision.
pub proof fn law_a_remembered_document_is_shown_as_it_was(
    summary: DocumentSummary,
    shown: DocumentSummary,
)
    requires
        remembered(summary).shown_as(shown),
    ensures
        shown.document_id == summary.document_id,
        shown.title == summary.title,
        shown.revision == summary.revision,
        shown.updated_at == summary.updated_at,
        shown.preview_revision == summary.preview_revision,
        shown.manifest_fingerprint.byte_len == summary.manifest_fingerprint.byte_len,
        shown.preview_path is Some <==> summary.preview_revision == Some(summary.revision),
        (summary.manifest_fingerprint.modified_at matches Some(time) && 0 <= time && time
            / 1_000_000_000 <= i64::MAX) ==> shown.manifest_fingerprint
            == summary.manifest_fingerprint,
{
}

/// The index file names the document that changed last first, and no document twice.
pub proof fn law_the_index_begins_with_the_newest(
    documents: Seq<IndexedDocument>,
    indexed: Map<u128, IndexedDocument>,
    i: int,
    j: int,
)
    requires
        lists(documents, indexed),
        0 <= i < j < documents.len(),
    ensures
        documents[i].updated_at >= documents[j].updated_at,
        documents[i].updated_at == documents[j].updated_at ==> documents[i].document_id
            < documents[j].document_id,
        documents[i].document_id != documents[j].document_id,
{
    assert(crate::library_index::before(documents[i], documents[j]));
    assert(indexed[documents[i].document_id] == documents[i]);
    assert(indexed[documents[j].document_id] == documents[j]);
}

} // verus!
