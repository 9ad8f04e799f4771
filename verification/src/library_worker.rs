//! The worker that keeps the index of the document library: one step at a time, from what
//! it was told to what it does next.

use std::collections::{HashMap, HashSet, VecDeque};
use vstd::prelude::*;

use crate::library_index::{
    keyed, lists, remembered, sorted_documents, DocumentSkeleton, DocumentSummary,
    IndexedDocument, LibraryIndexFile, IDLE_TIMEOUT, INDEX_SCHEMA_VERSION, INDEX_WRITE_DEBOUNCE,
    METADATA_BATCH_INTERVAL, METADATA_BATCH_SIZE,
};
use crate::text::concat;

verus! {

broadcast use vstd::std_specs::hash::group_hash_axioms;

/// What the worker reports to the library.
#[allow(inconsistent_fields)]
pub enum LibraryIndexEvent {
    /// What is known at the start.
    Bootstrap {
        generation: u64,
        skeletons: Vec<DocumentSkeleton>,
        cached_summaries: Vec<DocumentSummary>,
        failures: Vec<String>,
        warning: Option<String>,
    },
    /// Documents that were read, and those that could not be.
    MetadataBatch {
        generation: u64,
        summaries: Vec<DocumentSummary>,
        failures: Vec<(u128, String)>,
    },
    /// There is nothing left to read.
    Reconciled { generation: u64 },
}

/// Why the worker takes no commands.
pub enum LibraryIndexCoordinatorError {
    ShuttingDown,
    Spawn(String),
}

impl LibraryIndexCoordinatorError {
    /// The message shown to the user.
    pub open spec fn message(&self) -> Seq<char> {
        match self {
            LibraryIndexCoordinatorError::ShuttingDown =>
                "library index coordinator is shutting down"@,
            LibraryIndexCoordinatorError::Spawn(error) =>
                "unable to start library index coordinator: "@ + error@,
        }
    }

    /// The message shown to the user.
    pub fn to_message(&self) -> (message: String)
        ensures
            message@ == self.message(),
    {
        match self {
            LibraryIndexCoordinatorError::ShuttingDown =>
                "library index coordinator is shutting down".to_owned(),
            LibraryIndexCoordinatorError::Spawn(error) =>
                concat("unable to start library index coordinator: ", error.as_str()),
        }
    }
}

/// What the library asks of the worker.
pub enum Command {
    /// Read these documents first.
    Prioritize(Vec<u128>),
    /// Remember this of a document.
    Upsert(DocumentSummary),
    /// Read a document again, and remember it where it has this revision.
    Refresh { document_id: u128, revision: u64 },
    /// Forget a document.
    Remove(u128),
    /// Forget all documents.
    Clear,
    /// End.
    Shutdown,
}

/// The number of the only run of the worker.
pub const GENERATION: u64 = 1;

/// What the worker waits for.
#[derive(Clone, Copy, PartialEq, Eq, Structural)]
pub enum Stage {
    /// Whether a command has come.
    Polling,
    /// The summary of a document to be refreshed.
    Refreshing,
    /// The summary of the next document.
    Loading,
    /// Whether the documents read so far were taken, in the midst of the work.
    FlushingAfterLoad,
    /// Whether the index was written, in the midst of the work.
    PersistingAfterLoad,
    /// Whether the last documents were taken.
    FlushingIdle,
    /// Whether the end of the work was taken note of.
    Reconciling,
    /// Whether the index was written, with no work left.
    PersistingIdle,
    /// A command, with no work left.
    Waiting,
    /// Whether the last documents were taken, before the end.
    FlushingToStop,
    /// Whether the index was written, before the end.
    PersistingToStop,
    /// Nothing.
    Stopped,
}

/// What the worker is told.
#[allow(inconsistent_fields)]
pub enum IndexInput {
    /// No command has come.
    NoCommand,
    /// A command has come.
    Command(Command),
    /// What came of reading a document again.
    Refreshed { document_id: u128, revision: u64, result: Result<DocumentSummary, String> },
    /// What came of reading a document.
    Loaded { skeleton: DocumentSkeleton, result: Result<DocumentSummary, String> },
    /// Whether a report was taken.
    Sent(bool),
    /// Whether the index was written.
    Persisted(bool),
    /// No command came in time.
    TimedOut,
    /// No command can come any more.
    Disconnected,
}

/// What the worker does.
pub enum IndexAction {
    /// See whether a command has come.
    Poll,
    /// Read a document again.
    LoadById { document_id: u128, revision: u64 },
    /// Read a document.
    Load(DocumentSkeleton),
    /// Report.
    Send(LibraryIndexEvent),
    /// Write the index.
    Persist(LibraryIndexFile),
    /// Wait for a command, so many nanoseconds at most.
    Wait(u128),
    /// End.
    Stop,
}

/// What the worker does, without the contents of the index file.
pub enum ActionView {
    Poll,
    LoadById { document_id: u128, revision: u64 },
    Load(DocumentSkeleton),
    SendBatch { summaries: Seq<DocumentSummary>, failures: Seq<(u128, String)> },
    SendReconciled,
    SendOther,
    Persist,
    Wait(u128),
    Stop,
}

impl View for IndexAction {
    type V = ActionView;

    open spec fn view(&self) -> ActionView {
        match self {
            IndexAction::Poll => ActionView::Poll,
            IndexAction::LoadById { document_id, revision } => ActionView::LoadById {
                document_id: *document_id,
                revision: *revision,
            },
            IndexAction::Load(skeleton) => ActionView::Load(*skeleton),
            IndexAction::Send(event) => match event {
                LibraryIndexEvent::MetadataBatch {
                    generation,
                    summaries,
                    failures,
                } if generation == GENERATION => ActionView::SendBatch {
                    summaries: summaries@,
                    failures: failures@,
                },
                LibraryIndexEvent::Reconciled {
                    generation,
                } if generation == GENERATION => ActionView::SendReconciled,
                _ => ActionView::SendOther,
            },
            IndexAction::Persist(_) => ActionView::Persist,
            IndexAction::Wait(timeout) => ActionView::Wait(*timeout),
            IndexAction::Stop => ActionView::Stop,
        }
    }
}

/// What the worker knows.
pub struct WorkerView {
    pub indexed: Map<u128, IndexedDocument>,
    pub pending: Map<u128, DocumentSkeleton>,
    pub background_order: Seq<u128>,
    pub priority: Seq<u128>,
    pub priority_set: Set<u128>,
    pub batch: Seq<DocumentSummary>,
    pub batch_failures: Seq<(u128, String)>,
    pub last_batch_sent: u128,
    pub dirty_since: Option<u128>,
    pub reconciled_sent: bool,
    pub stage: Stage,
}

/// What the worker knows: which documents are indexed, which have to be read and in which
/// order, and what has been read but not reported. Moments are in nanoseconds.
pub struct LibraryIndexWorker {
    pub indexed: HashMap<u128, IndexedDocument>,
    pub pending: HashMap<u128, DocumentSkeleton>,
    pub background_order: VecDeque<u128>,
    pub priority: VecDeque<u128>,
    pub priority_set: HashSet<u128>,
    pub batch: Vec<DocumentSummary>,
    pub batch_failures: Vec<(u128, String)>,
    pub last_batch_sent: u128,
    /// The moment of the first change that was not written.
    pub dirty_since: Option<u128>,
    pub reconciled_sent: bool,
    pub stage: Stage,
}

impl View for LibraryIndexWorker {
    type V = WorkerView;

    open spec fn view(&self) -> WorkerView {
        WorkerView {
            indexed: self.indexed@,
            pending: self.pending@,
            background_order: self.background_order@,
            priority: self.priority@,
            priority_set: self.priority_set@,
            batch: self.batch@,
            batch_failures: self.batch_failures@,
            last_batch_sent: self.last_batch_sent,
            dirty_since: self.dirty_since,
            reconciled_sent: self.reconciled_sent,
            stage: self.stage,
        }
    }
}

/// The time from `then` to `now`; none where `now` comes first.
pub open spec fn elapsed(then: u128, now: u128) -> u128 {
    if now > then {
        (now - then) as u128
    } else {
        0
    }
}

impl WorkerView {
    /// Every entry stands under its own identifier; what is to be read first stands once in
    /// its list; what is to be read stands in the background order; and fewer documents than
    /// are reported at once have not been reported.
    pub open spec fn well_formed(&self) -> bool {
        &&& self.consistent()
        &&& self.batch.len() + self.batch_failures.len() < METADATA_BATCH_SIZE
    }

    /// What holds of the worker however much has not been reported.
    pub open spec fn consistent(&self) -> bool {
        &&& keyed(self.indexed)
        &&& forall|id: u128| #[trigger]
            self.pending.contains_key(id) ==> self.pending[id].document_id == id
                && self.background_order.contains(id)
        &&& self.priority.no_duplicates()
        &&& forall|id: u128| #[trigger]
            self.priority_set.contains(id) <==> self.priority.contains(id)
    }

    /// The worker with the first change noted, where none was before.
    pub open spec fn dirty(self, now: u128) -> WorkerView {
        WorkerView {
            dirty_since: match self.dirty_since {
                Some(since) => Some(since),
                None => Some(now),
            },
            ..self
        }
    }

    /// The worker with a document indexed that then need not be read.
    pub open spec fn upserted(self, summary: DocumentSummary, now: u128) -> WorkerView {
        WorkerView {
            pending: self.pending.remove(summary.document_id),
            indexed: self.indexed.insert(summary.document_id, remembered(summary)),
            ..self
        }.dirty(now)
    }

    /// The worker with a document forgotten.
    pub open spec fn removed(self, document_id: u128, now: u128) -> WorkerView {
        let forgotten = WorkerView {
            pending: self.pending.remove(document_id),
            indexed: self.indexed.remove(document_id),
            ..self
        };
        if self.indexed.contains_key(document_id) {
            forgotten.dirty(now)
        } else {
            forgotten
        }
    }

    /// The worker with all documents forgotten.
    pub open spec fn cleared(self, now: u128) -> WorkerView {
        WorkerView {
            pending: Map::empty(),
            priority: Seq::empty(),
            priority_set: Set::empty(),
            indexed: Map::empty(),
            ..self
        }.dirty(now)
    }

    /// The worker with a document put at the end of those to be read first, where it has to
    /// be read and is not among them.
    pub open spec fn prioritized_one(self, document_id: u128) -> WorkerView {
        if self.pending.contains_key(document_id) && !self.priority_set.contains(document_id) {
            WorkerView {
                priority: self.priority.push(document_id),
                priority_set: self.priority_set.insert(document_id),
                ..self
            }
        } else {
            self
        }
    }

    /// The worker with documents put at the end of those to be read first, in their order.
    pub open spec fn prioritized(self, document_ids: Seq<u128>) -> WorkerView
        decreases document_ids.len(),
    {
        if document_ids.len() == 0 {
            self
        } else {
            self.prioritized(document_ids.drop_last()).prioritized_one(document_ids.last())
        }
    }

    /// The worker after a command that neither ends it nor reads a document.
    pub open spec fn applied(self, command: Command, now: u128) -> WorkerView {
        match command {
            Command::Prioritize(document_ids) => self.prioritized(document_ids@),
            Command::Upsert(summary) => self.upserted(summary, now),
            Command::Remove(document_id) => self.removed(document_id, now),
            Command::Clear => self.cleared(now),
            _ => self,
        }
    }

    /// The worker after a document was read again: what was read counts only where it has
    /// the revision that was asked for.
    pub open spec fn refreshed(
        self,
        document_id: u128,
        revision: u64,
        result: Result<DocumentSummary, String>,
        now: u128,
    ) -> WorkerView {
        match result {
            Ok(summary) if summary.revision == revision => WorkerView {
                pending: self.pending.remove(document_id),
                indexed: self.indexed.insert(document_id, remembered(summary)),
                ..self
            }.dirty(now),
            _ => self,
        }
    }

    /// The worker after a document was read: a document that cannot be read is no longer
    /// indexed.
    pub open spec fn hydrated(
        self,
        skeleton: DocumentSkeleton,
        result: Result<DocumentSummary, String>,
        now: u128,
    ) -> WorkerView {
        match result {
            Ok(summary) => WorkerView {
                indexed: self.indexed.insert(summary.document_id, remembered(summary)),
                batch: self.batch.push(summary),
                ..self
            }.dirty(now),
            Err(error) => {
                let failed = WorkerView {
                    indexed: self.indexed.remove(skeleton.document_id),
                    batch_failures: self.batch_failures.push((skeleton.document_id, error)),
                    ..self
                };
                if self.indexed.contains_key(skeleton.document_id) {
                    failed.dirty(now)
                } else {
                    failed
                }
            },
        }
    }

    /// The document to be read next, where there is one: first of those to be read first,
    /// then of the background order. One that need not be read any more counts as none.
    pub open spec fn picked(self) -> (WorkerView, Option<DocumentSkeleton>) {
        if self.priority.len() > 0 {
            let id = self.priority[0];
            (
                WorkerView {
                    priority: self.priority.drop_first(),
                    priority_set: self.priority_set.remove(id),
                    pending: self.pending.remove(id),
                    ..self
                },
                if self.pending.contains_key(id) {
                    Some(self.pending[id])
                } else {
                    None
                },
            )
        } else if self.background_order.len() > 0 {
            let id = self.background_order[0];
            (
                WorkerView {
                    background_order: self.background_order.drop_first(),
                    pending: self.pending.remove(id),
                    ..self
                },
                if self.pending.contains_key(id) {
                    Some(self.pending[id])
                } else {
                    None
                },
            )
        } else {
            (self, None)
        }
    }

    /// Whether the index has to be written: it changed, and either that was long enough ago
    /// or it is written for the last time.
    pub open spec fn persist_due(self, force: bool, now: u128) -> bool {
        match self.dirty_since {
            Some(since) => force || elapsed(since, now) >= INDEX_WRITE_DEBOUNCE,
            None => false,
        }
    }

    /// The worker after the index was written, or could not be: then it is tried again
    /// after as long a time as after a change.
    pub open spec fn persisted(self, written: bool, now: u128) -> WorkerView {
        WorkerView {
            dirty_since: if written {
                None
            } else {
                Some(now)
            },
            ..self
        }
    }

    /// The worker once what it reported was taken, or not.
    pub open spec fn batch_sent(self, taken: bool, now: u128) -> WorkerView {
        if taken {
            WorkerView { last_batch_sent: now, ..self }
        } else {
            self
        }
    }

    /// Whether there is anything to report.
    pub open spec fn has_batch(self) -> bool {
        self.batch.len() > 0 || self.batch_failures.len() > 0
    }

    /// Sees whether a command has come.
    pub open spec fn to_poll(self) -> (WorkerView, ActionView) {
        (WorkerView { stage: Stage::Polling, ..self }, ActionView::Poll)
    }

    /// Reports what was read.
    pub open spec fn to_flush(self, stage: Stage) -> (WorkerView, ActionView) {
        (
            WorkerView { batch: Seq::empty(), batch_failures: Seq::empty(), stage, ..self },
            ActionView::SendBatch { summaries: self.batch, failures: self.batch_failures },
        )
    }

    /// Writes the index.
    pub open spec fn to_persist(self, stage: Stage) -> (WorkerView, ActionView) {
        (WorkerView { stage, ..self }, ActionView::Persist)
    }

    /// Ends.
    pub open spec fn to_stop(self) -> (WorkerView, ActionView) {
        (WorkerView { stage: Stage::Stopped, ..self }, ActionView::Stop)
    }

    /// Waits for a command: no longer than until the index has to be written.
    pub open spec fn to_wait(self, now: u128) -> (WorkerView, ActionView) {
        (
            WorkerView { stage: Stage::Waiting, ..self },
            ActionView::Wait(
                match self.dirty_since {
                    Some(since) => if elapsed(since, now) < INDEX_WRITE_DEBOUNCE {
                        (INDEX_WRITE_DEBOUNCE - elapsed(since, now)) as u128
                    } else {
                        0
                    },
                    None => IDLE_TIMEOUT,
                },
            ),
        )
    }

    /// Writes the index where it is due, and sees whether a command has come.
    pub open spec fn persist_and_poll(self, now: u128) -> (WorkerView, ActionView) {
        if self.persist_due(false, now) {
            self.to_persist(Stage::PersistingAfterLoad)
        } else {
            self.to_poll()
        }
    }

    /// Reports what was read where it is due, and goes on.
    pub open spec fn after_load(self, now: u128) -> (WorkerView, ActionView) {
        if self.has_batch() && (self.batch.len() + self.batch_failures.len() >= METADATA_BATCH_SIZE
            || elapsed(self.last_batch_sent, now) >= METADATA_BATCH_INTERVAL) {
            self.to_flush(Stage::FlushingAfterLoad)
        } else {
            self.persist_and_poll(now)
        }
    }

    /// With nothing left to read, reports the rest.
    pub open spec fn idle(self, now: u128) -> (WorkerView, ActionView) {
        if self.has_batch() {
            self.to_flush(Stage::FlushingIdle)
        } else {
            self.after_idle_flush(now)
        }
    }

    /// Reports the end of the work, once.
    pub open spec fn after_idle_flush(self, now: u128) -> (WorkerView, ActionView) {
        if !self.reconciled_sent {
            (
                WorkerView { reconciled_sent: true, stage: Stage::Reconciling, ..self },
                ActionView::SendReconciled,
            )
        } else {
            self.after_reconcile(now)
        }
    }

    /// Writes the index where it is due, and waits for a command.
    pub open spec fn after_reconcile(self, now: u128) -> (WorkerView, ActionView) {
        if self.persist_due(false, now) {
            self.to_persist(Stage::PersistingIdle)
        } else {
            self.to_wait(now)
        }
    }

    /// Writes the index for the last time, where it changed, and ends.
    pub open spec fn persist_and_stop(self, now: u128) -> (WorkerView, ActionView) {
        if self.persist_due(true, now) {
            self.to_persist(Stage::PersistingToStop)
        } else {
            self.to_stop()
        }
    }

    /// Reports the rest, writes the index and ends.
    pub open spec fn flush_and_stop(self, now: u128) -> (WorkerView, ActionView) {
        if self.has_batch() {
            self.to_flush(Stage::FlushingToStop)
        } else {
            self.persist_and_stop(now)
        }
    }

    /// Whether the worker waits for `input`.
    pub open spec fn expects(self, input: IndexInput) -> bool {
        match self.stage {
            Stage::Polling => input is NoCommand || input is Command,
            Stage::Refreshing => input matches IndexInput::Refreshed {
                document_id,
                revision,
                result,
            } && (result matches Ok(summary) ==> summary.document_id == document_id),
            Stage::Loading => input is Loaded,
            Stage::FlushingAfterLoad | Stage::FlushingIdle | Stage::Reconciling
            | Stage::FlushingToStop => input is Sent,
            Stage::PersistingAfterLoad | Stage::PersistingIdle | Stage::PersistingToStop => input
                is Persisted,
            Stage::Waiting => input is Command || input is TimedOut || input is Disconnected,
            Stage::Stopped => false,
        }
    }

    /// What the worker does on `input`.
    pub open spec fn stepped(self, input: IndexInput, now: u128) -> (WorkerView, ActionView) {
        match input {
            IndexInput::NoCommand => {
                let (next, skeleton) = self.picked();
                match skeleton {
                    Some(skeleton) => (
                        WorkerView { stage: Stage::Loading, ..next },
                        ActionView::Load(skeleton),
                    ),
                    None => next.idle(now),
                }
            },
            IndexInput::Command(command) => match command {
                Command::Shutdown => if self.stage == Stage::Polling {
                    self.flush_and_stop(now)
                } else {
                    self.persist_and_stop(now)
                },
                Command::Refresh { document_id, revision } => (
                    WorkerView { stage: Stage::Refreshing, ..self },
                    ActionView::LoadById { document_id, revision },
                ),
                _ => self.applied(command, now).to_poll(),
            },
            IndexInput::Refreshed { document_id, revision, result } => self.refreshed(
                document_id,
                revision,
                result,
                now,
            ).to_poll(),
            IndexInput::Loaded { skeleton, result } => self.hydrated(
                skeleton,
                result,
                now,
            ).after_load(now),
            IndexInput::Sent(taken) => match self.stage {
                Stage::FlushingAfterLoad => self.batch_sent(taken, now).persist_and_poll(now),
                Stage::FlushingIdle => self.batch_sent(taken, now).after_idle_flush(now),
                Stage::Reconciling => if taken {
                    self.after_reconcile(now)
                } else {
                    self.to_stop()
                },
                _ => self.batch_sent(taken, now).persist_and_stop(now),
            },
            IndexInput::Persisted(written) => match self.stage {
                Stage::PersistingAfterLoad => self.persisted(written, now).to_poll(),
                Stage::PersistingIdle => self.persisted(written, now).to_wait(now),
                _ => self.persisted(written, now).to_stop(),
            },
            IndexInput::TimedOut => self.persist_and_poll(now),
            IndexInput::Disconnected => self.persist_and_stop(now),
        }
    }
}

/// Whether an index file that is written holds exactly what is indexed, in order.
pub open spec fn writes_index(action: IndexAction, worker: WorkerView) -> bool {
    action matches IndexAction::Persist(file) ==> file.schema_version == INDEX_SCHEMA_VERSION
        && lists(file.documents@, worker.indexed)
}

/// Whether `action` is what comes of `expected`, and the worker is as it says.
pub open spec fn does(
    worker: WorkerView,
    action: IndexAction,
    expected: (WorkerView, ActionView),
) -> bool {
    &&& (worker, action@) == expected
    &&& writes_index(action, worker)
}

impl LibraryIndexWorker {
    fn mark_dirty(&mut self, now: u128)
        ensures
            final(self)@ == old(self)@.dirty(now),
    {
        if self.dirty_since.is_none() {
            self.dirty_since = Some(now);
        }
    }

    /// Puts documents at the end of those to be read first.
    fn prioritize(&mut self, document_ids: &Vec<u128>)
        requires
            old(self)@.well_formed(),
        ensures
            final(self)@.well_formed(),
            final(self)@ == old(self)@.prioritized(document_ids@),
    {
        for i in 0..document_ids.len()
            invariant
                self@.well_formed(),
                self@ == old(self)@.prioritized(document_ids@.take(i as int)),
        {
            let document_id: u128 = document_ids[i];
            let ghost before = self@;
            proof {
                assert(document_ids@.take(i + 1).drop_last() =~= document_ids@.take(i as int));
            }
            if self.pending.contains_key(&document_id) {
                let ghost listed = self.priority@;
                if self.priority_set.insert(document_id) {
                    self.priority.push_back(document_id);
                    proof {
                        assert(self.priority@ == listed.push(document_id));
                        lemma_pushed(listed, document_id);
                    }
                } else {
                    assert(self.priority_set@ =~= before.priority_set);
                }
            }
            assert(self@ =~~= before.prioritized_one(document_id));
        }
        assert(document_ids@.take(document_ids@.len() as int) =~= document_ids@);
    }

    /// Does what a command asks that neither ends the worker nor reads a document. Says
    /// whether the command ends the worker.
    pub fn apply_command(&mut self, command: Command, now: u128) -> (stop: bool)
        requires
            old(self)@.well_formed(),
            !(command is Refresh),
        ensures
            final(self)@.well_formed(),
            stop == (command is Shutdown),
            final(self)@ == old(self)@.applied(command, now),
    {
        let ghost before = self@;
        match command {
            Command::Prioritize(document_ids) => {
                self.prioritize(&document_ids);
            },
            Command::Upsert(summary) => {
                self.pending.remove(&summary.document_id);
                self.indexed.insert(summary.document_id, IndexedDocument::from_summary(&summary));
                self.mark_dirty(now);
                assert(self@ =~~= before.upserted(summary, now));
            },
            Command::Refresh { document_id, revision } => {},
            Command::Remove(document_id) => {
                self.pending.remove(&document_id);
                let known = self.indexed.remove(&document_id);
                if known.is_some() {
                    self.mark_dirty(now);
                }
                assert(self@ =~~= before.removed(document_id, now));
            },
            Command::Clear => {
                self.pending.clear();
                self.priority.clear();
                self.priority_set.clear();
                self.indexed.clear();
                self.mark_dirty(now);
                assert(self@ =~~= before.cleared(now));
            },
            Command::Shutdown => {
                return true;
            },
        }
        false
    }

    /// Takes in a document that was read again.
    fn refreshed(
        &mut self,
        document_id: u128,
        revision: u64,
        result: Result<DocumentSummary, String>,
        now: u128,
    )
        requires
            old(self)@.well_formed(),
            result matches Ok(summary) ==> summary.document_id == document_id,
        ensures
            final(self)@.well_formed(),
            final(self)@ == old(self)@.refreshed(document_id, revision, result, now),
    {
        let ghost before = self@;
        match result {
            Ok(summary) => {
                if summary.revision == revision {
                    self.pending.remove(&document_id);
                    self.indexed.insert(document_id, IndexedDocument::from_summary(&summary));
                    self.mark_dirty(now);
                    assert(self@ =~~= before.refreshed(document_id, revision, result, now));
                }
            },
            Err(_) => {},
        }
    }

    /// Takes in a document that was read.
    fn hydrated(
        &mut self,
        skeleton: DocumentSkeleton,
        result: Result<DocumentSummary, String>,
        now: u128,
    )
        requires
            old(self)@.well_formed(),
        ensures
            final(self)@.consistent(),
            final(self)@.batch.len() + final(self)@.batch_failures.len() <= METADATA_BATCH_SIZE,
            final(self)@ == old(self)@.hydrated(skeleton, result, now),
    {
        let ghost before = self@;
        match result {
            Ok(summary) => {
                self.indexed.insert(summary.document_id, IndexedDocument::from_summary(&summary));
                self.batch.push(summary);
                self.mark_dirty(now);
                assert(self@ =~~= before.hydrated(skeleton, result, now));
            },
            Err(error) => {
                let known = self.indexed.remove(&skeleton.document_id);
                if known.is_some() {
                    self.mark_dirty(now);
                }
                self.batch_failures.push((skeleton.document_id, error));
                assert(self@ =~~= before.hydrated(skeleton, result, now));
            },
        }
    }

    /// Takes the document to be read next.
    fn pick(&mut self) -> (skeleton: Option<DocumentSkeleton>)
        requires
            old(self)@.well_formed(),
        ensures
            final(self)@.well_formed(),
            (final(self)@, skeleton) == old(self)@.picked(),
    {
        let ghost before = self@;
        let id: u128;
        if self.priority.len() > 0 {
            let first = self.priority.pop_front();
            match first {
                Some(first) => {
                    id = first;
                },
                None => {
                    return None;
                },
            }
            self.priority_set.remove(&id);
            proof {
                assert(self.priority@ =~= before.priority.drop_first());
                lemma_dropped(before.priority);
            }
        } else if self.background_order.len() > 0 {
            let first = self.background_order.pop_front();
            match first {
                Some(first) => {
                    id = first;
                },
                None => {
                    return None;
                },
            }
            proof {
                assert(self.background_order@ =~= before.background_order.drop_first());
                lemma_rest_contains(before.background_order);
            }
        } else {
            return None;
        }
        let skeleton = self.pending.remove(&id);
        assert(self@ =~~= before.picked().0);
        skeleton
    }

    /// Whether the index has to be written.
    fn persist_due(&self, force: bool, now: u128) -> (due: bool)
        ensures
            due == self@.persist_due(force, now),
    {
        match self.dirty_since {
            Some(since) => {
                let passed: u128 = if now > since {
                    now - since
                } else {
                    0
                };
                force || passed >= INDEX_WRITE_DEBOUNCE
            },
            None => false,
        }
    }

    fn to_poll(&mut self) -> (action: IndexAction)
        ensures
            does(final(self)@, action, old(self)@.to_poll()),
    {
        self.stage = Stage::Polling;
        IndexAction::Poll
    }

    fn to_stop(&mut self) -> (action: IndexAction)
        ensures
            does(final(self)@, action, old(self)@.to_stop()),
    {
        self.stage = Stage::Stopped;
        IndexAction::Stop
    }

    fn to_flush(&mut self, stage: Stage) -> (action: IndexAction)
        ensures
            does(final(self)@, action, old(self)@.to_flush(stage)),
    {
        let mut summaries: Vec<DocumentSummary> = Vec::new();
        let mut failures: Vec<(u128, String)> = Vec::new();
        std::mem::swap(&mut summaries, &mut self.batch);
        std::mem::swap(&mut failures, &mut self.batch_failures);
        self.stage = stage;
        assert(self@ =~~= old(self)@.to_flush(stage).0);
        IndexAction::Send(
            LibraryIndexEvent::MetadataBatch { generation: GENERATION, summaries, failures },
        )
    }

    fn to_persist(&mut self, stage: Stage) -> (action: IndexAction)
        requires
            keyed(old(self)@.indexed),
        ensures
            does(final(self)@, action, old(self)@.to_persist(stage)),
    {
        let documents = sorted_documents(&self.indexed);
        self.stage = stage;
        IndexAction::Persist(LibraryIndexFile { schema_version: INDEX_SCHEMA_VERSION, documents })
    }

    fn to_wait(&mut self, now: u128) -> (action: IndexAction)
        ensures
            does(final(self)@, action, old(self)@.to_wait(now)),
    {
        self.stage = Stage::Waiting;
        let timeout: u128 = match self.dirty_since {
            Some(since) => {
                let passed: u128 = if now > since {
                    now - since
                } else {
                    0
                };
                if passed < INDEX_WRITE_DEBOUNCE {
                    INDEX_WRITE_DEBOUNCE - passed
                } else {
                    0
                }
            },
            None => IDLE_TIMEOUT,
        };
        IndexAction::Wait(timeout)
    }

    fn persist_and_poll(&mut self, now: u128) -> (action: IndexAction)
        requires
            keyed(old(self)@.indexed),
        ensures
            does(final(self)@, action, old(self)@.persist_and_poll(now)),
    {
        if self.persist_due(false, now) {
            self.to_persist(Stage::PersistingAfterLoad)
        } else {
            self.to_poll()
        }
    }

    fn has_batch(&self) -> (yes: bool)
        ensures
            yes == self@.has_batch(),
    {
        self.batch.len() > 0 || self.batch_failures.len() > 0
    }

    fn after_load(&mut self, now: u128) -> (action: IndexAction)
        requires
            keyed(old(self)@.indexed),
            old(self)@.batch.len() + old(self)@.batch_failures.len() <= METADATA_BATCH_SIZE,
        ensures
            does(final(self)@, action, old(self)@.after_load(now)),
    {
        let passed: u128 = if now > self.last_batch_sent {
            now - self.last_batch_sent
        } else {
            0
        };
        if self.has_batch() && (self.batch.len() + self.batch_failures.len() >= METADATA_BATCH_SIZE
            || passed >= METADATA_BATCH_INTERVAL) {
            self.to_flush(Stage::FlushingAfterLoad)
        } else {
            self.persist_and_poll(now)
        }
    }

    fn after_reconcile(&mut self, now: u128) -> (action: IndexAction)
        requires
            keyed(old(self)@.indexed),
        ensures
            does(final(self)@, action, old(self)@.after_reconcile(now)),
    {
        if self.persist_due(false, now) {
            self.to_persist(Stage::PersistingIdle)
        } else {
            self.to_wait(now)
        }
    }

    fn after_idle_flush(&mut self, now: u128) -> (action: IndexAction)
        requires
            keyed(old(self)@.indexed),
        ensures
            does(final(self)@, action, old(self)@.after_idle_flush(now)),
    {
        if !self.reconciled_sent {
            self.reconciled_sent = true;
            self.stage = Stage::Reconciling;
            IndexAction::Send(LibraryIndexEvent::Reconciled { generation: GENERATION })
        } else {
            self.after_reconcile(now)
        }
    }

    fn idle(&mut self, now: u128) -> (action: IndexAction)
        requires
            keyed(old(self)@.indexed),
        ensures
            does(final(self)@, action, old(self)@.idle(now)),
    {
        if self.has_batch() {
            self.to_flush(Stage::FlushingIdle)
        } else {
            self.after_idle_flush(now)
        }
    }

    fn persist_and_stop(&mut self, now: u128) -> (action: IndexAction)
        requires
            keyed(old(self)@.indexed),
        ensures
            does(final(self)@, action, old(self)@.persist_and_stop(now)),
    {
        if self.persist_due(true, now) {
            self.to_persist(Stage::PersistingToStop)
        } else {
            self.to_stop()
        }
    }

    fn flush_and_stop(&mut self, now: u128) -> (action: IndexAction)
        requires
            keyed(old(self)@.indexed),
        ensures
            does(final(self)@, action, old(self)@.flush_and_stop(now)),
    {
        if self.has_batch() {
            self.to_flush(Stage::FlushingToStop)
        } else {
            self.persist_and_stop(now)
        }
    }

    fn batch_sent(&mut self, taken: bool, now: u128)
        ensures
            final(self)@ == old(self)@.batch_sent(taken, now),
    {
        if taken {
            self.last_batch_sent = now;
        }
    }

    fn persisted(&mut self, written: bool, now: u128)
        ensures
            final(self)@ == old(self)@.persisted(written, now),
    {
        self.dirty_since = if written {
            None
        } else {
            Some(now)
        };
    }

    /// Does one step: takes in what it waited for and says what to do next. Commands come
    /// before documents, documents to be read first before the others; what was read is
    /// reported in batches, changes are written once they have settled, and before the end.
    pub fn step(&mut self, input: IndexInput, now: u128) -> (action: IndexAction)
        requires
            old(self)@.well_formed(),
            old(self)@.expects(input),
        ensures
            final(self)@.well_formed(),
            does(final(self)@, action, old(self)@.stepped(input, now)),
    {
        match input {
            IndexInput::NoCommand => {
                match self.pick() {
                    Some(skeleton) => {
                        self.stage = Stage::Loading;
                        IndexAction::Load(skeleton)
                    },
                    None => self.idle(now),
                }
            },
            IndexInput::Command(command) => match command {
                Command::Shutdown => {
                    if self.stage == Stage::Polling {
                        self.flush_and_stop(now)
                    } else {
                        self.persist_and_stop(now)
                    }
                },
                Command::Refresh { document_id, revision } => {
                    self.stage = Stage::Refreshing;
                    IndexAction::LoadById { document_id, revision }
                },
                other => {
                    let _ = self.apply_command(other, now);
                    self.to_poll()
                },
            },
            IndexInput::Refreshed { document_id, revision, result } => {
                self.refreshed(document_id, revision, result, now);
                self.to_poll()
            },
            IndexInput::Loaded { skeleton, result } => {
                self.hydrated(skeleton, result, now);
                self.after_load(now)
            },
            IndexInput::Sent(taken) => match self.stage {
                Stage::FlushingAfterLoad => {
                    self.batch_sent(taken, now);
                    self.persist_and_poll(now)
                },
                Stage::FlushingIdle => {
                    self.batch_sent(taken, now);
                    self.after_idle_flush(now)
                },
                Stage::Reconciling => {
                    if taken {
                        self.after_reconcile(now)
                    } else {
                        self.to_stop()
                    }
                },
                _ => {
                    self.batch_sent(taken, now);
                    self.persist_and_stop(now)
                },
            },
            IndexInput::Persisted(written) => match self.stage {
                Stage::PersistingAfterLoad => {
                    self.persisted(written, now);
                    self.to_poll()
                },
                Stage::PersistingIdle => {
                    self.persisted(written, now);
                    self.to_wait(now)
                },
                _ => {
                    self.persisted(written, now);
                    self.to_stop()
                },
            },
            IndexInput::TimedOut => self.persist_and_poll(now),
            IndexInput::Disconnected => self.persist_and_stop(now),
        }
    }
}

/// What was found in the library's directory.
pub struct SkeletonScan {
    pub skeletons: Vec<DocumentSkeleton>,
    pub failures: Vec<String>,
}

/// Whether a document was found.
pub open spec fn present(skeletons: Seq<DocumentSkeleton>, id: u128) -> bool {
    exists|i: int| 0 <= i < skeletons.len() && (#[trigger] skeletons[i]).document_id == id
}

/// The entries of an index whose documents were found.
pub open spec fn still_there(
    entries: Seq<IndexedDocument>,
    skeletons: Seq<DocumentSkeleton>,
) -> Map<u128, IndexedDocument>
    decreases entries.len(),
{
    if entries.len() == 0 {
        Map::empty()
    } else {
        let rest = still_there(entries.drop_last(), skeletons);
        let entry = entries.last();
        if present(skeletons, entry.document_id) {
            rest.insert(entry.document_id, entry)
        } else {
            rest
        }
    }
}

/// Whether a document has to be read: it is not indexed, or has changed since.
pub open spec fn stale(skeleton: DocumentSkeleton, indexed: Map<u128, IndexedDocument>) -> bool {
    !indexed.contains_key(skeleton.document_id)
        || indexed[skeleton.document_id].fingerprint() != skeleton.manifest_fingerprint
}

/// The documents that have to be read.
pub open spec fn to_read(
    skeletons: Seq<DocumentSkeleton>,
    indexed: Map<u128, IndexedDocument>,
) -> Map<u128, DocumentSkeleton>
    decreases skeletons.len(),
{
    if skeletons.len() == 0 {
        Map::empty()
    } else {
        let rest = to_read(skeletons.drop_last(), indexed);
        let skeleton = skeletons.last();
        if stale(skeleton, indexed) {
            rest.insert(skeleton.document_id, skeleton)
        } else {
            rest
        }
    }
}

/// The documents that have to be read, in the order in which they were found.
pub open spec fn reading_order(
    skeletons: Seq<DocumentSkeleton>,
    indexed: Map<u128, IndexedDocument>,
) -> Seq<u128> {
    skeletons.filter(|skeleton: DocumentSkeleton| stale(skeleton, indexed)).map_values(
        |skeleton: DocumentSkeleton| skeleton.document_id,
    )
}

/// Whether `summaries` shows what the index knows of the documents found, in their order.
pub open spec fn shows_known(
    summaries: Seq<DocumentSummary>,
    skeletons: Seq<DocumentSkeleton>,
    indexed: Map<u128, IndexedDocument>,
) -> bool {
    let known = skeletons.filter(
        |skeleton: DocumentSkeleton| indexed.contains_key(skeleton.document_id),
    );
    &&& summaries.len() == known.len()
    &&& forall|i: int|
        0 <= i < known.len() ==> indexed[known[i].document_id].shown_as(#[trigger] summaries[i])
}

/// The entries of an index that could be read; none of one that could not.
pub open spec fn entries_of(loaded: Result<LibraryIndexFile, String>) -> Seq<IndexedDocument> {
    match loaded {
        Ok(file) => file.documents@,
        Err(_) => Seq::empty(),
    }
}

/// The worker at its start: it has to read what is not indexed or has changed, and has to
/// write the index where it could not be read or names documents that are gone.
pub open spec fn started(
    skeletons: Seq<DocumentSkeleton>,
    loaded: Result<LibraryIndexFile, String>,
    now: u128,
) -> WorkerView {
    let entries = entries_of(loaded);
    let indexed = still_there(entries, skeletons);
    let rewrite = loaded is Err || exists|i: int|
        0 <= i < entries.len() && !present(skeletons, (#[trigger] entries[i]).document_id);
    WorkerView {
        indexed,
        pending: to_read(skeletons, indexed),
        background_order: reading_order(skeletons, indexed),
        priority: Seq::empty(),
        priority_set: Set::empty(),
        batch: Seq::empty(),
        batch_failures: Seq::empty(),
        last_batch_sent: now,
        dirty_since: if rewrite {
            Some(now)
        } else {
            None
        },
        reconciled_sent: false,
        stage: Stage::Polling,
    }
}

/// Whether `event` is the first report.
pub open spec fn reports_start(
    event: LibraryIndexEvent,
    scan: SkeletonScan,
    loaded: Result<LibraryIndexFile, String>,
) -> bool {
    &&& event matches LibraryIndexEvent::Bootstrap {
        generation,
        skeletons,
        cached_summaries,
        failures,
        warning,
    }
    &&& generation == GENERATION
    &&& skeletons == scan.skeletons
    &&& failures == scan.failures
    &&& shows_known(
        cached_summaries@,
        scan.skeletons@,
        still_there(entries_of(loaded), scan.skeletons@),
    )
    &&& match loaded {
        Ok(_) => warning is None,
        Err(error) => warning == Some(error),
    }
}

/// Whether `event` reports that the library could not be searched.
pub open spec fn reports_failed_scan(event: LibraryIndexEvent, error: Seq<char>) -> bool {
    &&& event matches LibraryIndexEvent::Bootstrap {
        generation,
        skeletons,
        cached_summaries,
        failures,
        warning,
    }
    &&& generation == GENERATION
    &&& skeletons@.len() == 0
    &&& cached_summaries@.len() == 0
    &&& failures@.len() == 0
    &&& warning matches Some(text)
    &&& text@ == "library skeleton scan failed: "@ + error
}

/// The identifiers of the documents found.
fn present_ids(skeletons: &Vec<DocumentSkeleton>) -> (ids: HashSet<u128>)
    ensures
        forall|id: u128| #[trigger] ids@.contains(id) <==> present(skeletons@, id),
{
    let mut ids: HashSet<u128> = HashSet::new();
    for i in 0..skeletons.len()
        invariant
            forall|id: u128| #[trigger]
                ids@.contains(id) <==> exists|j: int|
                    0 <= j < i && (#[trigger] skeletons@[j]).document_id == id,
    {
        let _ = ids.insert(skeletons[i].document_id);
        assert forall|id: u128| #[trigger] ids@.contains(id) implies exists|j: int|
            0 <= j < i + 1 && (#[trigger] skeletons@[j]).document_id == id by {
            if id == skeletons@[i as int].document_id {
                assert(skeletons@[i as int].document_id == id);
            }
        }
    }
    ids
}

impl LibraryIndexWorker {
    /// The first report, from what was found in the library and what the index file held,
    /// and the worker that keeps the index from then on. Where the library could not be
    /// searched there is no worker.
    pub fn bootstrap(
        scan: Result<SkeletonScan, String>,
        loaded: Result<LibraryIndexFile, String>,
        now: u128,
    ) -> (start: (LibraryIndexEvent, Option<LibraryIndexWorker>))
        ensures
            match scan {
                Err(error) => reports_failed_scan(start.0, error@) && start.1 is None,
                Ok(scan) => {
                    &&& reports_start(start.0, scan, loaded)
                    &&& start.1 matches Some(worker)
                    &&& worker@ == started(scan.skeletons@, loaded, now)
                    &&& worker@.well_formed()
                },
            },
    {
        let scan = match scan {
            Ok(scan) => scan,
            Err(error) => {
                let warning = concat("library skeleton scan failed: ", error.as_str());
                return (
                    LibraryIndexEvent::Bootstrap {
                        generation: GENERATION,
                        skeletons: Vec::new(),
                        cached_summaries: Vec::new(),
                        failures: Vec::new(),
                        warning: Some(warning),
                    },
                    None,
                );
            },
        };
        let ghost entries = entries_of(loaded);
        let mut rewrite = false;
        let mut documents: Vec<IndexedDocument> = Vec::new();
        let mut warning: Option<String> = None;
        match loaded {
            Ok(file) => {
                documents = file.documents;
            },
            Err(error) => {
                warning = Some(error);
                rewrite = true;
            },
        }
        assert(documents@ == entries);
        let ghost unreadable = rewrite;
        let ids = present_ids(&scan.skeletons);
        let mut indexed: HashMap<u128, IndexedDocument> = HashMap::new();
        for i in 0..documents.len()
            invariant
                forall|id: u128| #[trigger] ids@.contains(id) <==> present(scan.skeletons@, id),
                indexed@ == still_there(documents@.take(i as int), scan.skeletons@),
                keyed(indexed@),
                rewrite == (unreadable || exists|j: int|
                    0 <= j < i && !present(
                        scan.skeletons@,
                        (#[trigger] documents@[j]).document_id,
                    )),
        {
            let entry = &documents[i];
            proof {
                assert(documents@.take(i + 1).drop_last() =~= documents@.take(i as int));
                assert(documents@.take(i + 1).last() == documents@[i as int]);
            }
            if ids.contains(&entry.document_id) {
                indexed.insert(entry.document_id, entry.copy());
            } else {
                rewrite = true;
                assert(!present(scan.skeletons@, documents@[i as int].document_id));
            }
        }
        assert(documents@.take(documents@.len() as int) =~= documents@);

        let mut cached_summaries: Vec<DocumentSummary> = Vec::new();
        let mut pending: HashMap<u128, DocumentSkeleton> = HashMap::new();
        let mut background_order: VecDeque<u128> = VecDeque::new();
        let ghost changed = |skeleton: DocumentSkeleton| stale(skeleton, indexed@);
        let ghost known = |skeleton: DocumentSkeleton| indexed@.contains_key(skeleton.document_id);
        let ghost id = |skeleton: DocumentSkeleton| skeleton.document_id;
        reveal(Seq::filter);
        for i in 0..scan.skeletons.len()
            invariant
                changed == (|skeleton: DocumentSkeleton| stale(skeleton, indexed@)),
                known == (|skeleton: DocumentSkeleton| indexed@.contains_key(skeleton.document_id)),
                id == (|skeleton: DocumentSkeleton| skeleton.document_id),
                pending@ == to_read(scan.skeletons@.take(i as int), indexed@),
                background_order@ == scan.skeletons@.take(i as int).filter(changed).map_values(id),
                cached_summaries@.len() == scan.skeletons@.take(i as int).filter(known).len(),
                forall|k: int|
                    0 <= k < cached_summaries@.len() ==> indexed@[scan.skeletons@.take(
                        i as int,
                    ).filter(known)[k].document_id].shown_as(#[trigger] cached_summaries@[k]),
                forall|x: u128| #[trigger]
                    pending@.contains_key(x) ==> pending@[x].document_id == x
                        && background_order@.contains(x),
        {
            let skeleton: DocumentSkeleton = scan.skeletons[i];
            let ghost order = background_order@;
            let ghost waiting = pending@;
            proof {
                crate::seqs::lemma_filter_step(scan.skeletons@, i as int, changed);
                crate::seqs::lemma_filter_step(scan.skeletons@, i as int, known);
                assert(scan.skeletons@.take(i + 1).drop_last() =~= scan.skeletons@.take(i as int));
                assert(scan.skeletons@.take(i + 1).last() == skeleton);
            }
            let mut read = true;
            if let Some(entry) = indexed.get(&skeleton.document_id) {
                cached_summaries.push(entry.to_summary());
                read = entry.manifest_fingerprint() != skeleton.manifest_fingerprint;
            }
            if read {
                pending.insert(skeleton.document_id, skeleton);
                background_order.push_back(skeleton.document_id);
            }
            proof {
                assert(read == stale(skeleton, indexed@));
                assert(background_order@ =~= scan.skeletons@.take(i + 1).filter(changed).map_values(
                    id,
                ));
                assert forall|x: u128| #[trigger] pending@.contains_key(x) implies pending@[x].document_id
                    == x && background_order@.contains(x) by {
                    if read && x == skeleton.document_id {
                        assert(background_order@[order.len() as int] == x);
                    } else {
                        assert(waiting.contains_key(x));
                        assert(order.contains(x));
                        let k = choose|k: int| 0 <= k < order.len() && order[k] == x;
                        assert(background_order@[k] == x);
                    }
                }
            }
        }
        assert(scan.skeletons@.take(scan.skeletons@.len() as int) =~= scan.skeletons@);
        let dirty_since: Option<u128> = if rewrite {
            Some(now)
        } else {
            None
        };
        let worker = LibraryIndexWorker {
            indexed,
            pending,
            background_order,
            priority: VecDeque::new(),
            priority_set: HashSet::new(),
            batch: Vec::new(),
            batch_failures: Vec::new(),
            last_batch_sent: now,
            dirty_since,
            reconciled_sent: false,
            stage: Stage::Polling,
        };
        assert(worker@ =~~= started(scan.skeletons@, loaded, now));
        (
            LibraryIndexEvent::Bootstrap {
                generation: GENERATION,
                skeletons: scan.skeletons,
                cached_summaries,
                failures: scan.failures,
                warning,
            },
            Some(worker),
        )
    }
}

proof fn lemma_pushed(s: Seq<u128>, x: u128)
    requires
        s.no_duplicates(),
        !s.contains(x),
    ensures
        s.push(x).no_duplicates(),
        forall|y: u128| #[trigger] s.push(x).contains(y) <==> s.contains(y) || y == x,
{
    let t = s.push(x);
    assert forall|y: u128| #[trigger] t.contains(y) <==> s.contains(y) || y == x by {
        if s.contains(y) {
            let i = choose|i: int| 0 <= i < s.len() && s[i] == y;
            assert(t[i] == y);
        }
        if y == x {
            assert(t[s.len() as int] == y);
        }
        if t.contains(y) {
            let i = choose|i: int| 0 <= i < t.len() && t[i] == y;
            if i < s.len() {
                assert(s[i] == y);
            }
        }
    }
}

proof fn lemma_dropped(s: Seq<u128>)
    requires
        s.len() > 0,
        s.no_duplicates(),
    ensures
        s.drop_first().no_duplicates(),
        forall|y: u128| #[trigger] s.drop_first().contains(y) <==> s.contains(y) && y != s[0],
{
    let t = s.drop_first();
    assert forall|y: u128| #[trigger] t.contains(y) <==> s.contains(y) && y != s[0] by {
        if s.contains(y) && y != s[0] {
            let i = choose|i: int| 0 <= i < s.len() && s[i] == y;
            assert(t[i - 1] == y);
        }
        if t.contains(y) {
            let i = choose|i: int| 0 <= i < t.len() && t[i] == y;
            assert(s[i + 1] == y);
        }
    }
}

proof fn lemma_rest_contains(s: Seq<u128>)
    requires
        s.len() > 0,
    ensures
        forall|y: u128| #[trigger] s.contains(y) && y != s[0] ==> s.drop_first().contains(y),
{
    let t = s.drop_first();
    assert forall|y: u128| #[trigger] s.contains(y) && y != s[0] implies t.contains(y) by {
        let i = choose|i: int| 0 <= i < s.len() && s[i] == y;
        assert(t[i - 1] == y);
    }
}

/// What the index remembers of a manifest is what the manifest was, for any time of change
/// from the Unix epoch on that the clock can hold.
pub proof fn law_a_remembered_fingerprint_is_the_one_that_was_seen(summary: DocumentSummary)
    requires
        summary.manifest_fingerprint.modified_at matches Some(time) ==> 0 <= time && time
            / 1_000_000_000 <= i64::MAX,
    ensures
        remembered(summary).fingerprint() == summary.manifest_fingerprint,
{
}

/// An index that was written is accepted when it is read again, where every document has a
/// title and no preview of a later revision.
pub proof fn law_a_written_index_is_accepted(
    documents: Seq<IndexedDocument>,
    indexed: Map<u128, IndexedDocument>,
)
    requires
        lists(documents, indexed),
        forall|id: u128| #[trigger] indexed.contains_key(id) ==> indexed[id].valid(),
    ensures
        crate::library_index::valid_documents(documents),
{
    assert forall|i: int, j: int| 0 <= i < j < documents.len() implies documents[i].document_id
        != documents[j].document_id by {
        assert(crate::library_index::before(documents[i], documents[j]));
        assert(indexed[documents[i].document_id] == documents[i]);
        assert(indexed[documents[j].document_id] == documents[j]);
    }
}

/// A document has to be read exactly where one was found that is not indexed or that has
/// changed: what is indexed and unchanged is not read again.
pub proof fn law_only_stale_documents_are_read(
    skeletons: Seq<DocumentSkeleton>,
    indexed: Map<u128, IndexedDocument>,
    id: u128,
)
    ensures
        to_read(skeletons, indexed).contains_key(id) <==> exists|i: int|
            0 <= i < skeletons.len() && (#[trigger] skeletons[i]).document_id == id && stale(
                skeletons[i],
                indexed,
            ),
    decreases skeletons.len(),
{
    if skeletons.len() > 0 {
        let rest = skeletons.drop_last();
        law_only_stale_documents_are_read(rest, indexed, id);
        let last = skeletons.len() - 1;
        if stale(skeletons[last], indexed) && skeletons[last].document_id == id {
            assert(to_read(skeletons, indexed).contains_key(id));
        }
        if exists|i: int|
            0 <= i < rest.len() && (#[trigger] rest[i]).document_id == id && stale(
                rest[i],
                indexed,
            ) {
            let i = choose|i: int|
                0 <= i < rest.len() && (#[trigger] rest[i]).document_id == id && stale(
                    rest[i],
                    indexed,
                );
            assert(skeletons[i].document_id == id);
        }
        if exists|i: int|
            0 <= i < skeletons.len() && (#[trigger] skeletons[i]).document_id == id && stale(
                skeletons[i],
                indexed,
            ) {
            let i = choose|i: int|
                0 <= i < skeletons.len() && (#[trigger] skeletons[i]).document_id == id && stale(
                    skeletons[i],
                    indexed,
                );
            if i < last {
                assert(rest[i].document_id == id);
            }
        }
    }
}

/// No change of the index is forgotten: whatever changes it leaves it to be written.
pub proof fn law_every_change_is_left_to_be_written(
    worker: WorkerView,
    command: Command,
    skeleton: DocumentSkeleton,
    document_id: u128,
    revision: u64,
    result: Result<DocumentSummary, String>,
    now: u128,
)
    ensures
        worker.applied(command, now).indexed != worker.indexed ==> worker.applied(
            command,
            now,
        ).dirty_since is Some,
        worker.hydrated(skeleton, result, now).indexed != worker.indexed ==> worker.hydrated(
            skeleton,
            result,
            now,
        ).dirty_since is Some,
        worker.refreshed(document_id, revision, result, now).indexed != worker.indexed
            ==> worker.refreshed(document_id, revision, result, now).dirty_since is Some,
{
    match command {
        Command::Prioritize(document_ids) => {
            lemma_prioritized(worker, document_ids@);
        },
        Command::Remove(id) => {
            if !worker.indexed.contains_key(id) {
                assert(worker.indexed.remove(id) =~= worker.indexed);
            }
        },
        _ => {},
    }
    if result is Err && !worker.indexed.contains_key(skeleton.document_id) {
        assert(worker.indexed.remove(skeleton.document_id) =~= worker.indexed);
    }
}

proof fn lemma_prioritized(worker: WorkerView, document_ids: Seq<u128>)
    ensures
        worker.prioritized(document_ids).indexed == worker.indexed,
        worker.prioritized(document_ids).pending == worker.pending,
    decreases document_ids.len(),
{
    if document_ids.len() > 0 {
        lemma_prioritized(worker, document_ids.drop_last());
    }
}

/// A document that is put first, with none before it, is the next one to be read.
pub proof fn law_a_prioritized_document_is_read_next(worker: WorkerView, document_id: u128)
    requires
        worker.well_formed(),
        worker.pending.contains_key(document_id),
        worker.priority.len() == 0,
    ensures
        worker.prioritized(seq![document_id]).picked().1 == Some(worker.pending[document_id]),
{
    let ids = seq![document_id];
    assert(ids.drop_last() =~= Seq::<u128>::empty());
    reveal_with_fuel(WorkerView::prioritized, 2);
    assert(!worker.priority_set.contains(document_id)) by {
        assert(!worker.priority.contains(document_id));
    }
}

/// Once neither list names a document, none is left to be read.
pub proof fn law_nothing_to_read_is_left_behind(worker: WorkerView, document_id: u128)
    requires
        worker.well_formed(),
        worker.priority.len() == 0,
        worker.background_order.len() == 0,
    ensures
        !worker.pending.contains_key(document_id),
        worker.picked().1 is None,
{
}

/// The end of the work is reported once.
pub proof fn law_the_end_of_the_work_is_reported_once(
    worker: WorkerView,
    input: IndexInput,
    now: u128,
)
    requires
        worker.reconciled_sent,
        worker.expects(input),
    ensures
        worker.stepped(input, now).0.reconciled_sent,
        !(worker.stepped(input, now).1 is SendReconciled),
{
    if let IndexInput::Command(Command::Prioritize(document_ids)) = input {
        lemma_prioritized_keeps_reported(worker, document_ids@);
    }
}

proof fn lemma_prioritized_keeps_reported(worker: WorkerView, document_ids: Seq<u128>)
    ensures
        worker.prioritized(document_ids).reconciled_sent == worker.reconciled_sent,
    decreases document_ids.len(),
{
    if document_ids.len() > 0 {
        lemma_prioritized_keeps_reported(worker, document_ids.drop_last());
    }
}

/// Before the worker ends it writes the index, where it changed since it was written, and
/// reports what it has read: a command to end it leads to nothing but these.
pub proof fn law_ending_reports_and_writes_first(worker: WorkerView, now: u128)
    requires
        worker.stage == Stage::Polling,
    ensures
        worker.stepped(IndexInput::Command(Command::Shutdown), now).1 is Stop ==> !worker.has_batch()
            && worker.dirty_since is None,
{
}

} // verus!
