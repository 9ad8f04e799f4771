//! The queue of work on the latest draft: of several drafts only the newest is written.

use std::collections::VecDeque;
use vstd::prelude::*;

use crate::background_encode::BackgroundPrepareError;
use crate::performance::PerformanceContext;
use crate::persistence::{LatestDraft, PersistenceContext};
use crate::seqs::lemma_filter_step;
use crate::text::concat;

verus! {

/// A request to keep a document as the latest draft.
#[derive(Clone, Copy)]
pub struct StashJob {
    pub context: PersistenceContext,
    pub generation_id: u128,
    pub document_id: u128,
    pub revision: u64,
    /// The number of the preparation that gives the background.
    pub prepared_background: u64,
    pub pixel_size: [u32; 2],
    /// The moment of the request, in nanoseconds.
    pub requested_at: u128,
}

/// A number that may be missing; then zero.
pub open spec fn or_zero(number: Option<u64>) -> u64 {
    match number {
        Some(number) => number,
        None => 0,
    }
}

impl StashJob {
    /// The capture that the document was made from.
    pub fn capture_sequence(&self) -> (sequence: u64)
        ensures
            sequence == self.capture(),
    {
        match self.context.capture_sequence {
            Some(sequence) => sequence,
            None => 0,
        }
    }

    /// The place of the job among all jobs.
    pub fn stash_sequence(&self) -> (sequence: u64)
        ensures
            sequence == self.stash(),
    {
        match self.context.stash_sequence {
            Some(sequence) => sequence,
            None => 0,
        }
    }

    /// The capture that the document was made from.
    pub open spec fn capture(&self) -> u64 {
        or_zero(self.context.capture_sequence)
    }

    /// The place of the job among all jobs.
    pub open spec fn stash(&self) -> u64 {
        or_zero(self.context.stash_sequence)
    }
}

/// What became of a piece of work.
#[allow(inconsistent_fields)]
pub enum DraftResult {
    Commit {
        context: PersistenceContext,
        generation_id: u128,
        /// The moment it ended, in nanoseconds.
        completed_at: u128,
        /// Whether no newer capture or job had come by then.
        is_latest: bool,
        result: Result<LatestDraft, String>,
    },
    DeleteIfGeneration { generation_id: u128, result: Result<bool, String> },
    DeleteLatest { result: Result<bool, String> },
    ClearAll { result: Result<(), String> },
}

/// Why work on the draft is not taken on.
pub enum DraftCoordinatorError {
    ShuttingDown,
    Spawn(String),
}

impl DraftCoordinatorError {
    /// The message shown to the user.
    pub open spec fn message(&self) -> Seq<char> {
        match self {
            DraftCoordinatorError::ShuttingDown => "draft coordinator is shutting down"@,
            DraftCoordinatorError::Spawn(error) => "unable to start draft coordinator: "@ + error@,
        }
    }

    /// The message shown to the user.
    pub fn to_message(&self) -> (message: String)
        ensures
            message@ == self.message(),
    {
        match self {
            DraftCoordinatorError::ShuttingDown => "draft coordinator is shutting down".to_owned(),
            DraftCoordinatorError::Spawn(error) =>
                concat("unable to start draft coordinator: ", error.as_str()),
        }
    }
}

/// A piece of work.
#[derive(Clone, Copy)]
pub enum DraftCommand {
    Commit(StashJob),
    DeleteIfGeneration(u128),
    DeleteLatest,
    ClearAll,
}

/// How far the worker has come with a job.
#[derive(Clone, Copy, PartialEq, Eq, Structural)]
pub enum ProcessingPhase {
    WaitingForBackground,
    Committing,
}

/// The job that the worker is at.
#[derive(Clone, Copy, PartialEq, Eq, Structural)]
pub struct Processing {
    pub capture_sequence: u64,
    pub stash_sequence: u64,
    pub prepared_background: u64,
    pub phase: ProcessingPhase,
}

/// What the worker does next.
pub enum WorkerAction {
    /// Wait until the queue changes.
    Wait,
    /// End.
    Stop,
    /// Do this piece of work.
    Run(DraftCommand),
}

/// What the worker does with a job once its background has been waited for.
pub enum CommitStep {
    /// Replace the latest draft.
    Commit,
    /// Report the job as failed with this message.
    Abandon(String),
}

/// What the worker and the users of the draft share.
pub struct DraftCoordinator {
    pub queue: VecDeque<DraftCommand>,
    pub latest_presented_capture_sequence: u64,
    pub latest_requested_stash_sequence: u64,
    pub processing: Option<Processing>,
    pub stop_when_drained: bool,
    pub abandon: bool,
    pub stopped: bool,
}

/// Whether a piece of work is a job for a capture before `capture_sequence`.
pub open spec fn older_capture(command: DraftCommand, capture_sequence: u64) -> bool {
    command matches DraftCommand::Commit(job) && job.capture() < capture_sequence
}

/// Whether a piece of work is a job before the job `stash_sequence`.
pub open spec fn older_stash(command: DraftCommand, stash_sequence: u64) -> bool {
    command matches DraftCommand::Commit(job) && job.stash() < stash_sequence
}

/// The preparations that the jobs among `commands` wait for.
pub open spec fn backgrounds(commands: Seq<DraftCommand>) -> Seq<u64> {
    commands.map_values(
        |command: DraftCommand|
            match command {
                DraftCommand::Commit(job) => job.prepared_background,
                _ => 0,
            },
    )
}

/// The queue without the jobs for captures before `capture_sequence`.
pub open spec fn queue_after_capture(
    queue: Seq<DraftCommand>,
    capture_sequence: u64,
) -> Seq<DraftCommand> {
    queue.filter(|command: DraftCommand| !older_capture(command, capture_sequence))
}

/// The queue without the jobs before the job `stash_sequence`.
pub open spec fn queue_after_stash(
    queue: Seq<DraftCommand>,
    stash_sequence: u64,
) -> Seq<DraftCommand> {
    queue.filter(|command: DraftCommand| !older_stash(command, stash_sequence))
}

/// The preparations that a new capture makes useless: those of the jobs dropped from the
/// queue, and that of the job at work where it still waits for its background.
pub open spec fn given_up_by_capture(
    state: DraftCoordinator,
    capture_sequence: u64,
) -> Seq<u64> {
    backgrounds(
        state.queue@.filter(|command: DraftCommand| older_capture(command, capture_sequence)),
    ) + match state.processing {
        Some(processing) if processing.phase == ProcessingPhase::WaitingForBackground
            && processing.capture_sequence < capture_sequence => seq![
            processing.prepared_background,
        ],
        _ => Seq::empty(),
    }
}

/// The preparations that a new job makes useless.
pub open spec fn given_up_by_stash(
    state: DraftCoordinator,
    capture_sequence: u64,
    stash_sequence: u64,
) -> Seq<u64> {
    backgrounds(
        state.queue@.filter(|command: DraftCommand| older_stash(command, stash_sequence)),
    ) + match state.processing {
        Some(processing) if processing.phase == ProcessingPhase::WaitingForBackground && (
        processing.capture_sequence < capture_sequence || processing.stash_sequence
            < stash_sequence) => seq![processing.prepared_background],
        _ => Seq::empty(),
    }
}

/// Splits the jobs for captures before `capture_sequence` from the rest of the queue.
fn split_by_capture(queue: &VecDeque<DraftCommand>, capture_sequence: u64) -> (split: (
    VecDeque<DraftCommand>,
    Vec<u64>,
))
    ensures
        split.0@ == queue_after_capture(queue@, capture_sequence),
        split.1@ == backgrounds(
            queue@.filter(|command: DraftCommand| older_capture(command, capture_sequence)),
        ),
{
    let mut kept: VecDeque<DraftCommand> = VecDeque::new();
    let mut dropped: Vec<u64> = Vec::new();
    let ghost stays = |command: DraftCommand| !older_capture(command, capture_sequence);
    let ghost goes = |command: DraftCommand| older_capture(command, capture_sequence);
    reveal(Seq::filter);
    for i in 0..queue.len()
        invariant
            stays == (|command: DraftCommand| !older_capture(command, capture_sequence)),
            goes == (|command: DraftCommand| older_capture(command, capture_sequence)),
            kept@ == queue@.take(i as int).filter(stays),
            dropped@ == backgrounds(queue@.take(i as int).filter(goes)),
    {
        proof {
            lemma_filter_step(queue@, i as int, stays);
            lemma_filter_step(queue@, i as int, goes);
        }
        let command: DraftCommand = queue[i];
        let mut drop = false;
        if let DraftCommand::Commit(job) = command {
            if job.capture_sequence() < capture_sequence {
                dropped.push(job.prepared_background);
                drop = true;
            }
        }
        if !drop {
            kept.push_back(command);
        }
        assert(dropped@ =~= backgrounds(queue@.take(i + 1).filter(goes)));
    }
    assert(queue@.take(queue@.len() as int) =~= queue@);
    (kept, dropped)
}

/// Splits the jobs before the job `stash_sequence` from the rest of the queue.
fn split_by_stash(queue: &VecDeque<DraftCommand>, stash_sequence: u64) -> (split: (
    VecDeque<DraftCommand>,
    Vec<u64>,
))
    ensures
        split.0@ == queue_after_stash(queue@, stash_sequence),
        split.1@ == backgrounds(
            queue@.filter(|command: DraftCommand| older_stash(command, stash_sequence)),
        ),
{
    let mut kept: VecDeque<DraftCommand> = VecDeque::new();
    let mut dropped: Vec<u64> = Vec::new();
    let ghost stays = |command: DraftCommand| !older_stash(command, stash_sequence);
    let ghost goes = |command: DraftCommand| older_stash(command, stash_sequence);
    reveal(Seq::filter);
    for i in 0..queue.len()
        invariant
            stays == (|command: DraftCommand| !older_stash(command, stash_sequence)),
            goes == (|command: DraftCommand| older_stash(command, stash_sequence)),
            kept@ == queue@.take(i as int).filter(stays),
            dropped@ == backgrounds(queue@.take(i as int).filter(goes)),
    {
        proof {
            lemma_filter_step(queue@, i as int, stays);
            lemma_filter_step(queue@, i as int, goes);
        }
        let command: DraftCommand = queue[i];
        let mut drop = false;
        if let DraftCommand::Commit(job) = command {
            if job.stash_sequence() < stash_sequence {
                dropped.push(job.prepared_background);
                drop = true;
            }
        }
        if !drop {
            kept.push_back(command);
        }
        assert(dropped@ =~= backgrounds(queue@.take(i + 1).filter(goes)));
    }
    assert(queue@.take(queue@.len() as int) =~= queue@);
    (kept, dropped)
}

/// Whether every job in `queue` is for no capture before `capture_sequence` and is the
/// job `stash_sequence`.
pub open spec fn only_newest(
    queue: Seq<DraftCommand>,
    capture_sequence: u64,
    stash_sequence: u64,
) -> bool {
    forall|i: int|
        #![trigger queue[i]]
        0 <= i < queue.len() ==> (queue[i] matches DraftCommand::Commit(job) ==> job.capture()
            >= capture_sequence && job.stash() == stash_sequence)
}

impl DraftCoordinator {
    /// Only the newest job waits in the queue.
    pub open spec fn well_formed(&self) -> bool {
        only_newest(
            self.queue@,
            self.latest_presented_capture_sequence,
            self.latest_requested_stash_sequence,
        )
    }

    /// Whether work is taken on.
    pub open spec fn accepting(&self) -> bool {
        !self.stop_when_drained && !self.abandon
    }

    /// Whether neither a newer capture nor a newer job has come.
    pub open spec fn current(&self, capture_sequence: u64, stash_sequence: u64) -> bool {
        capture_sequence == self.latest_presented_capture_sequence && stash_sequence
            == self.latest_requested_stash_sequence
    }

    /// The coordinator before any work.
    pub fn new() -> (coordinator: Self)
        ensures
            coordinator.well_formed(),
            coordinator.queue@.len() == 0,
            coordinator.latest_presented_capture_sequence == 0,
            coordinator.latest_requested_stash_sequence == 0,
            coordinator.processing is None,
            coordinator.accepting(),
            !coordinator.stopped,
    {
        DraftCoordinator {
            queue: VecDeque::new(),
            latest_presented_capture_sequence: 0,
            latest_requested_stash_sequence: 0,
            processing: None,
            stop_when_drained: false,
            abandon: false,
            stopped: false,
        }
    }

    /// Takes note that a capture is shown: jobs for earlier captures are given up. Returns
    /// the preparations that nobody needs any more.
    pub fn publish_capture(&mut self, capture_sequence: u64) -> (superseded: Vec<u64>)
        requires
            old(self).well_formed(),
        ensures
            final(self).well_formed(),
            if capture_sequence <= old(self).latest_presented_capture_sequence {
                superseded@.len() == 0 && *final(self) == *old(self)
            } else {
                &&& superseded@ == given_up_by_capture(*old(self), capture_sequence)
                &&& final(self).queue@ == queue_after_capture(old(self).queue@, capture_sequence)
                &&& *final(self) == (DraftCoordinator {
                    latest_presented_capture_sequence: capture_sequence,
                    queue: final(self).queue,
                    ..*old(self)
                })
            },
    {
        if capture_sequence <= self.latest_presented_capture_sequence {
            return Vec::new();
        }
        self.latest_presented_capture_sequence = capture_sequence;
        let (kept, dropped) = split_by_capture(&self.queue, capture_sequence);
        proof {
            lemma_capture_keeps_newest(
                self.queue@,
                old(self).latest_presented_capture_sequence,
                capture_sequence,
                self.latest_requested_stash_sequence,
            );
        }
        self.queue = kept;
        let mut superseded = dropped;
        if let Some(processing) = self.processing {
            if processing.phase == ProcessingPhase::WaitingForBackground
                && processing.capture_sequence < capture_sequence {
                superseded.push(processing.prepared_background);
            }
        }
        assert(superseded@ =~= given_up_by_capture(*old(self), capture_sequence));
        superseded
    }

    /// Refuses work once shutting down has begun.
    pub fn ensure_accepting(&self) -> (accepted: Result<(), DraftCoordinatorError>)
        ensures
            if self.accepting() {
                accepted is Ok
            } else {
                accepted matches Err(DraftCoordinatorError::ShuttingDown)
            },
    {
        if self.stop_when_drained || self.abandon {
            Err(DraftCoordinatorError::ShuttingDown)
        } else {
            Ok(())
        }
    }

    /// Takes on a job. One for an earlier capture, or before the newest job, is given up at
    /// once; any other takes the place of the jobs before it. Returns the preparations that
    /// nobody needs any more.
    pub fn enqueue_commit(&mut self, job: StashJob) -> (superseded: Result<
        Vec<u64>,
        DraftCoordinatorError,
    >)
        requires
            old(self).well_formed(),
        ensures
            final(self).well_formed(),
            if !old(self).accepting() {
                &&& superseded matches Err(DraftCoordinatorError::ShuttingDown)
                &&& *final(self) == *old(self)
            } else if job.capture() < old(self).latest_presented_capture_sequence || job.stash()
                < old(self).latest_requested_stash_sequence {
                &&& superseded matches Ok(list)
                &&& list@ == seq![job.prepared_background]
                &&& *final(self) == *old(self)
            } else {
                &&& superseded matches Ok(list)
                &&& list@ == given_up_by_stash(*old(self), job.capture(), job.stash())
                &&& final(self).queue@ == queue_after_stash(old(self).queue@, job.stash()).push(
                    DraftCommand::Commit(job),
                )
                &&& *final(self) == (DraftCoordinator {
                    latest_requested_stash_sequence: job.stash(),
                    queue: final(self).queue,
                    ..*old(self)
                })
            },
    {
        match self.ensure_accepting() {
            Ok(()) => {},
            Err(error) => {
                return Err(error);
            },
        }
        let capture_sequence: u64 = job.capture_sequence();
        let stash_sequence: u64 = job.stash_sequence();
        if capture_sequence < self.latest_presented_capture_sequence || stash_sequence
            < self.latest_requested_stash_sequence {
            let mut superseded: Vec<u64> = Vec::new();
            superseded.push(job.prepared_background);
            assert(superseded@ =~= seq![job.prepared_background]);
            return Ok(superseded);
        }
        self.latest_requested_stash_sequence = stash_sequence;
        let (kept, dropped) = split_by_stash(&self.queue, stash_sequence);
        proof {
            lemma_stash_keeps_newest(
                self.queue@,
                self.latest_presented_capture_sequence,
                old(self).latest_requested_stash_sequence,
                stash_sequence,
            );
        }
        self.queue = kept;
        let mut superseded = dropped;
        if let Some(processing) = self.processing {
            if processing.phase == ProcessingPhase::WaitingForBackground && (
            processing.capture_sequence < capture_sequence || processing.stash_sequence
                < stash_sequence) {
                superseded.push(processing.prepared_background);
            }
        }
        self.queue.push_back(DraftCommand::Commit(job));
        assert(superseded@ =~= given_up_by_stash(*old(self), job.capture(), job.stash()));
        Ok(superseded)
    }

    /// Takes on a piece of work that is no job.
    fn enqueue_command(&mut self, command: DraftCommand) -> (accepted: Result<
        (),
        DraftCoordinatorError,
    >)
        requires
            old(self).well_formed(),
            !(command is Commit),
        ensures
            final(self).well_formed(),
            enqueued(*old(self), *final(self), command, accepted),
    {
        match self.ensure_accepting() {
            Ok(()) => {},
            Err(error) => {
                return Err(error);
            },
        }
        self.queue.push_back(command);
        Ok(())
    }

    /// Asks for the deletion of the latest draft where it is of this generation.
    pub fn delete_if_generation(&mut self, generation_id: u128) -> (accepted: Result<
        (),
        DraftCoordinatorError,
    >)
        requires
            old(self).well_formed(),
        ensures
            final(self).well_formed(),
            enqueued(
                *old(self),
                *final(self),
                DraftCommand::DeleteIfGeneration(generation_id),
                accepted,
            ),
    {
        self.enqueue_command(DraftCommand::DeleteIfGeneration(generation_id))
    }

    /// Asks for the deletion of the latest draft.
    pub fn delete_latest(&mut self) -> (accepted: Result<(), DraftCoordinatorError>)
        requires
            old(self).well_formed(),
        ensures
            final(self).well_formed(),
            enqueued(*old(self), *final(self), DraftCommand::DeleteLatest, accepted),
    {
        self.enqueue_command(DraftCommand::DeleteLatest)
    }

    /// Asks for the deletion of all documents and of the latest draft.
    pub fn clear_all(&mut self) -> (accepted: Result<(), DraftCoordinatorError>)
        requires
            old(self).well_formed(),
        ensures
            final(self).well_formed(),
            enqueued(*old(self), *final(self), DraftCommand::ClearAll, accepted),
    {
        self.enqueue_command(DraftCommand::ClearAll)
    }

    /// What the worker does next: it takes the pieces of work in the order in which they
    /// came, and ends once it was told to and none is left, or at once where the work is
    /// abandoned.
    pub fn next_command(&mut self) -> (action: WorkerAction)
        requires
            old(self).well_formed(),
        ensures
            final(self).well_formed(),
            if old(self).abandon || (old(self).stop_when_drained && old(self).queue@.len() == 0) {
                action is Stop && *final(self) == *old(self)
            } else if old(self).queue@.len() == 0 {
                action is Wait && *final(self) == *old(self)
            } else {
                &&& action == WorkerAction::Run(old(self).queue@[0])
                &&& final(self).queue@ == old(self).queue@.drop_first()
                &&& *final(self) == (DraftCoordinator { queue: final(self).queue, ..*old(self) })
            },
    {
        if self.abandon {
            return WorkerAction::Stop;
        }
        if self.queue.len() == 0 {
            return if self.stop_when_drained {
                WorkerAction::Stop
            } else {
                WorkerAction::Wait
            };
        }
        let ghost before = self.queue@;
        let command = self.queue.pop_front();
        assert(self.queue@ =~= before.drop_first());
        match command {
            Some(command) => WorkerAction::Run(command),
            None => WorkerAction::Wait,
        }
    }

    /// Takes up a job. Where a newer capture or job has come, its preparation is returned:
    /// it is to be given up.
    pub fn begin_commit(&mut self, job: &StashJob) -> (superseded: Option<u64>)
        requires
            old(self).well_formed(),
        ensures
            final(self).well_formed(),
            *final(self) == (DraftCoordinator {
                processing: Some(
                    Processing {
                        capture_sequence: job.capture(),
                        stash_sequence: job.stash(),
                        prepared_background: job.prepared_background,
                        phase: ProcessingPhase::WaitingForBackground,
                    },
                ),
                ..*old(self)
            }),
            superseded == if old(self).current(job.capture(), job.stash()) {
                None
            } else {
                Some(job.prepared_background)
            },
    {
        self.processing = Some(
            Processing {
                capture_sequence: job.capture_sequence(),
                stash_sequence: job.stash_sequence(),
                prepared_background: job.prepared_background,
                phase: ProcessingPhase::WaitingForBackground,
            },
        );
        if self.job_is_current(job.capture_sequence(), job.stash_sequence()) {
            None
        } else {
            Some(job.prepared_background)
        }
    }

    /// Goes on with a job once its background has been waited for: the latest draft is
    /// replaced only where there is a background and the job is still the newest.
    pub fn background_waited(
        &mut self,
        job: &StashJob,
        waited: Result<(), BackgroundPrepareError>,
    ) -> (step: CommitStep)
        requires
            old(self).well_formed(),
        ensures
            final(self).well_formed(),
            match waited {
                Err(error) => {
                    &&& step matches CommitStep::Abandon(message)
                    &&& message@ == error.message()
                    &&& *final(self) == *old(self)
                },
                Ok(_) => if old(self).abandon || !old(self).current(job.capture(), job.stash()) {
                    &&& step matches CommitStep::Abandon(message)
                    &&& message@ == "draft job was superseded before atomic commit"@
                    &&& *final(self) == *old(self)
                } else {
                    &&& step is Commit
                    &&& *final(self) == (DraftCoordinator {
                        processing: match old(self).processing {
                            Some(processing) => Some(
                                Processing { phase: ProcessingPhase::Committing, ..processing },
                            ),
                            None => None,
                        },
                        ..*old(self)
                    })
                },
            },
    {
        match waited {
            Err(error) => {
                return CommitStep::Abandon(error.to_message());
            },
            Ok(()) => {},
        }
        if self.abandon || !self.job_is_current(job.capture_sequence(), job.stash_sequence()) {
            return CommitStep::Abandon("draft job was superseded before atomic commit".to_owned());
        }
        if let Some(processing) = self.processing {
            self.processing =
            Some(Processing { phase: ProcessingPhase::Committing, ..processing });
        }
        CommitStep::Commit
    }

    /// The report on a job.
    pub fn commit_result(
        &self,
        job: &StashJob,
        completed_at: u128,
        result: Result<LatestDraft, String>,
    ) -> (report: DraftResult)
        ensures
            report == (DraftResult::Commit {
                context: job.context,
                generation_id: job.generation_id,
                completed_at,
                is_latest: self.current(job.capture(), job.stash()),
                result,
            }),
    {
        DraftResult::Commit {
            context: job.context,
            generation_id: job.generation_id,
            completed_at,
            is_latest: self.job_is_current(job.capture_sequence(), job.stash_sequence()),
            result,
        }
    }

    /// Whether neither a newer capture nor a newer job has come.
    pub fn job_is_current(&self, capture_sequence: u64, stash_sequence: u64) -> (current: bool)
        ensures
            current == self.current(capture_sequence, stash_sequence),
    {
        capture_sequence == self.latest_presented_capture_sequence && stash_sequence
            == self.latest_requested_stash_sequence
    }

    /// Takes note that a piece of work is done; says whether its result is still wanted.
    pub fn finish_command(&mut self) -> (wanted: bool)
        requires
            old(self).well_formed(),
        ensures
            final(self).well_formed(),
            wanted == !old(self).abandon,
            *final(self) == (DraftCoordinator { processing: None, ..*old(self) }),
    {
        self.processing = None;
        !self.abandon
    }

    /// Begins to shut down: what is queued is still done, and nothing more is taken on.
    /// Says whether the worker has to be waited for.
    pub fn begin_shutdown(&mut self) -> (wait: bool)
        requires
            old(self).well_formed(),
        ensures
            final(self).well_formed(),
            wait == !old(self).stopped,
            *final(self) == if old(self).stopped {
                *old(self)
            } else {
                DraftCoordinator { stop_when_drained: true, ..*old(self) }
            },
    {
        if self.stopped {
            return false;
        }
        self.stop_when_drained = true;
        true
    }

    /// Ends shutting down. Where the worker did not end in time, what is left of the queue
    /// is dropped.
    pub fn finish_shutdown(&mut self, finished: bool)
        requires
            old(self).well_formed(),
        ensures
            final(self).well_formed(),
            final(self).queue@ == if finished {
                old(self).queue@
            } else {
                Seq::empty()
            },
            *final(self) == (DraftCoordinator {
                stopped: true,
                abandon: old(self).abandon || !finished,
                queue: final(self).queue,
                ..*old(self)
            }),
    {
        if !finished {
            self.abandon = true;
            self.queue.clear();
        }
        self.stopped = true;
    }
}

/// Whether `command` was put at the end of the queue, unless work was refused.
pub open spec fn enqueued(
    before: DraftCoordinator,
    after: DraftCoordinator,
    command: DraftCommand,
    accepted: Result<(), DraftCoordinatorError>,
) -> bool {
    if before.accepting() {
        &&& accepted is Ok
        &&& after.queue@ == before.queue@.push(command)
        &&& after == (DraftCoordinator { queue: after.queue, ..before })
    } else {
        &&& accepted matches Err(DraftCoordinatorError::ShuttingDown)
        &&& after == before
    }
}

/// What the measurements of a job belong to.
pub fn performance_context(job: &StashJob) -> (context: PerformanceContext)
    ensures
        context == (PerformanceContext {
            request_id: Some(job.context.request_id),
            session_id: Some(job.context.session_id),
            capture_sequence: job.context.capture_sequence,
            stash_sequence: job.context.stash_sequence,
            generation_id: Some(job.generation_id),
            document_id: Some(job.document_id),
            revision: Some(job.revision),
        }),
{
    PerformanceContext {
        request_id: Some(job.context.request_id),
        session_id: Some(job.context.session_id),
        capture_sequence: job.context.capture_sequence,
        stash_sequence: job.context.stash_sequence,
        generation_id: Some(job.generation_id),
        document_id: Some(job.document_id),
        revision: Some(job.revision),
    }
}

proof fn lemma_capture_keeps_newest(
    queue: Seq<DraftCommand>,
    earlier: u64,
    capture_sequence: u64,
    stash_sequence: u64,
)
    requires
        only_newest(queue, earlier, stash_sequence),
    ensures
        only_newest(
            queue_after_capture(queue, capture_sequence),
            capture_sequence,
            stash_sequence,
        ),
{
    let stays = |command: DraftCommand| !older_capture(command, capture_sequence);
    let kept = queue_after_capture(queue, capture_sequence);
    assert forall|i: int| #![trigger kept[i]] 0 <= i < kept.len() implies (
    kept[i] matches DraftCommand::Commit(job) ==> job.capture() >= capture_sequence && job.stash()
        == stash_sequence) by {
        assert(kept.contains(kept[i]));
        crate::seqs::lemma_filter_contains(queue, stays, kept[i]);
        let k = choose|k: int| 0 <= k < queue.len() && queue[k] == kept[i];
        assert(stays(queue[k]));
    }
}

proof fn lemma_stash_keeps_newest(
    queue: Seq<DraftCommand>,
    capture_sequence: u64,
    earlier: u64,
    stash_sequence: u64,
)
    requires
        only_newest(queue, capture_sequence, earlier),
        earlier <= stash_sequence,
    ensures
        only_newest(queue_after_stash(queue, stash_sequence), capture_sequence, stash_sequence),
{
    let stays = |command: DraftCommand| !older_stash(command, stash_sequence);
    let kept = queue_after_stash(queue, stash_sequence);
    assert forall|i: int| #![trigger kept[i]] 0 <= i < kept.len() implies (
    kept[i] matches DraftCommand::Commit(job) ==> job.capture() >= capture_sequence && job.stash()
        == stash_sequence) by {
        assert(kept.contains(kept[i]));
        crate::seqs::lemma_filter_contains(queue, stays, kept[i]);
        let k = choose|k: int| 0 <= k < queue.len() && queue[k] == kept[i];
        assert(stays(queue[k]));
    }
}

/// Whether a piece of work is no job.
pub open spec fn no_job(command: DraftCommand) -> bool {
    !(command is Commit)
}

/// Neither a new capture nor a new job drops or reorders deletions.
pub proof fn law_deletions_are_never_dropped(
    queue: Seq<DraftCommand>,
    capture_sequence: u64,
    stash_sequence: u64,
)
    ensures
        queue_after_capture(queue, capture_sequence).filter(|c: DraftCommand| no_job(c))
            == queue.filter(|c: DraftCommand| no_job(c)),
        queue_after_stash(queue, stash_sequence).filter(|c: DraftCommand| no_job(c))
            == queue.filter(|c: DraftCommand| no_job(c)),
{
    crate::seqs::lemma_filter_twice(
        queue,
        |command: DraftCommand| !older_capture(command, capture_sequence),
        |c: DraftCommand| no_job(c),
    );
    crate::seqs::lemma_filter_twice(
        queue,
        |command: DraftCommand| !older_stash(command, stash_sequence),
        |c: DraftCommand| no_job(c),
    );
}

/// Once a later capture is shown, no job for an earlier one is current, and none waits in
/// the queue.
pub proof fn law_a_later_capture_overtakes_every_earlier_job(
    queue: Seq<DraftCommand>,
    capture_sequence: u64,
    i: int,
)
    requires
        0 <= i < queue_after_capture(queue, capture_sequence).len(),
    ensures
        queue_after_capture(queue, capture_sequence)[i] matches DraftCommand::Commit(job)
            ==> job.capture() >= capture_sequence,
{
    let stays = |command: DraftCommand| !older_capture(command, capture_sequence);
    let kept = queue_after_capture(queue, capture_sequence);
    assert(kept.contains(kept[i]));
    crate::seqs::lemma_filter_contains(queue, stays, kept[i]);
    assert(stays(kept[i]));
}

/// A job that is queued for the capture on show is current, and is the last one queued.
pub proof fn law_the_newest_job_is_current(
    before: DraftCoordinator,
    after: DraftCoordinator,
    job: StashJob,
)
    requires
        job.capture() == before.latest_presented_capture_sequence,
        after.latest_presented_capture_sequence == before.latest_presented_capture_sequence,
        after.latest_requested_stash_sequence == job.stash(),
        after.queue@ == queue_after_stash(before.queue@, job.stash()).push(
            DraftCommand::Commit(job),
        ),
    ensures
        after.current(job.capture(), job.stash()),
        after.queue@.last() == DraftCommand::Commit(job),
{
}

/// Once shutting down has begun, no work is taken on.
pub proof fn law_nothing_is_taken_on_while_shutting_down(state: DraftCoordinator)
    ensures
        !(DraftCoordinator { stop_when_drained: true, ..state }).accepting(),
        !(DraftCoordinator { abandon: true, ..state }).accepting(),
{
}

} // verus!
