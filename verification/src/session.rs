//! A document that is open in the editor, and the requests that are under way for it.

use vstd::prelude::*;

use crate::performance::{PerformanceContext, no_context};
use crate::persistence::PersistenceContext;
use crate::tools::EditorTool;

verus! {

/// Where a document in the editor came from.
#[derive(Clone, Copy, PartialEq, Eq, Structural)]
pub enum SessionOrigin {
    NewCapture,
    ExistingDocument,
    LatestDraft { generation_id: u128 },
}

/// A document that is open in the editor.
#[derive(Clone, Copy, PartialEq, Eq, Structural)]
pub struct WorkingSession {
    pub session_id: u128,
    pub capture_sequence: Option<u64>,
    pub origin: SessionOrigin,
    pub document_id: u128,
    pub revision: u64,
    /// Whether the document differs from what was opened.
    pub dirty: bool,
    pub width_px: u32,
    pub height_px: u32,
    pub active_tool: EditorTool,
}

impl WorkingSession {
    /// Whether the document differs from what was opened.
    pub fn is_dirty(&self) -> (dirty: bool)
        ensures
            dirty == self.dirty,
    {
        self.dirty
    }

    /// What a write of the document belongs to.
    pub open spec fn written_as(&self, request_id: u128, stash_sequence: Option<u64>) -> PersistenceContext {
        PersistenceContext {
            request_id,
            session_id: self.session_id,
            capture_sequence: self.capture_sequence,
            stash_sequence,
            generation_id: match self.origin {
                SessionOrigin::LatestDraft { generation_id } => Some(generation_id),
                _ => None,
            },
        }
    }

    /// What a write of the document belongs to.
    pub fn persistence_context(&self, request_id: u128, stash_sequence: Option<u64>) -> (context:
        PersistenceContext)
        ensures
            context == self.written_as(request_id, stash_sequence),
    {
        let context = PersistenceContext::new(request_id, self.session_id).with_sequences(
            self.capture_sequence,
            stash_sequence,
        );
        match self.origin {
            SessionOrigin::LatestDraft { generation_id } => context.with_generation(generation_id),
            _ => context,
        }
    }

    /// What a measurement of work on the document belongs to.
    pub open spec fn measured_as(&self, request_id: u128, stash_sequence: Option<u64>) -> PerformanceContext {
        PerformanceContext {
            request_id: Some(request_id),
            session_id: Some(self.session_id),
            capture_sequence: self.capture_sequence,
            stash_sequence,
            generation_id: match self.origin {
                SessionOrigin::LatestDraft { generation_id } => Some(generation_id),
                _ => None,
            },
            document_id: Some(self.document_id),
            revision: Some(self.revision),
        }
    }

    /// What a measurement of work on the document belongs to.
    pub fn performance_context(&self, request_id: u128, stash_sequence: Option<u64>) -> (context:
        PerformanceContext)
        ensures
            context == self.measured_as(request_id, stash_sequence),
    {
        PerformanceContext {
            request_id: Some(request_id),
            session_id: Some(self.session_id),
            capture_sequence: self.capture_sequence,
            stash_sequence,
            generation_id: match self.origin {
                SessionOrigin::LatestDraft { generation_id } => Some(generation_id),
                _ => None,
            },
            document_id: Some(self.document_id),
            revision: Some(self.revision),
        }
    }
}

/// How a measured request ended.
#[derive(Clone, Copy)]
pub enum Ending {
    Success,
    Rejected,
    Stale,
    /// It failed with this code, or with the codes of the error at hand where there is none.
    Failed(Option<&'static str>),
}

/// A measurement that is due.
#[derive(Clone, Copy)]
pub struct Measurement {
    pub stage: &'static str,
    pub context: PerformanceContext,
    pub trigger: Option<&'static str>,
    pub workflow: Option<&'static str>,
    pub pixel_size: Option<(u32, u32)>,
    /// The moment it began, in nanoseconds; none where it takes no time.
    pub started_at: Option<u128>,
    pub ending: Ending,
}

/// What set a capture off, and when, in nanoseconds.
#[derive(Clone, Copy)]
pub struct CaptureTrigger {
    pub source: &'static str,
    pub received_at: u128,
}

impl CaptureTrigger {
    /// A capture that is set off at this moment.
    pub fn now(source: &'static str, now: u128) -> (trigger: Self)
        ensures
            trigger == (CaptureTrigger { source, received_at: now }),
    {
        CaptureTrigger { source, received_at: now }
    }
}

/// A capture that is under way to the screen.
#[derive(Clone, Copy)]
pub struct CapturePresentationTrace {
    pub performance: PerformanceContext,
    pub started_at: u128,
    pub trigger: &'static str,
    pub pixel_size: Option<(u32, u32)>,
}

/// A write that is under way.
#[derive(Clone, Copy)]
pub struct PersistenceUiTrace {
    pub performance: PerformanceContext,
    pub started_at: u128,
    pub workflow: &'static str,
    pub pixel_size: (u32, u32),
}

/// What a measurement of a capture belongs to.
pub open spec fn capture_context(request_id: u128, capture_sequence: u64) -> PerformanceContext {
    PerformanceContext {
        request_id: Some(request_id),
        capture_sequence: Some(capture_sequence),
        ..no_context()
    }
}

/// The measurement of a whole capture.
pub open spec fn capture_total(trace: CapturePresentationTrace, ending: Ending) -> Measurement {
    Measurement {
        stage: "capture.request.total",
        context: trace.performance,
        trigger: Some(trace.trigger),
        workflow: None,
        pixel_size: None,
        started_at: Some(trace.started_at),
        ending,
    }
}

/// The measurement of a whole capture.
pub fn measure_capture(trace: CapturePresentationTrace, ending: Ending) -> (measurement: Measurement)
    ensures
        measurement == capture_total(trace, ending),
{
    Measurement {
        stage: "capture.request.total",
        context: trace.performance,
        trigger: Some(trace.trigger),
        workflow: None,
        pixel_size: None,
        started_at: Some(trace.started_at),
        ending,
    }
}

/// The measurement of a whole write.
pub open spec fn write_total(trace: PersistenceUiTrace, ending: Ending) -> Measurement {
    Measurement {
        stage: "persistence.request_to_ui_complete",
        context: trace.performance,
        trigger: None,
        workflow: Some(trace.workflow),
        pixel_size: Some(trace.pixel_size),
        started_at: Some(trace.started_at),
        ending,
    }
}

/// The measurement of a whole write.
pub fn measure_write(trace: PersistenceUiTrace, ending: Ending) -> (measurement: Measurement)
    ensures
        measurement == write_total(trace, ending),
{
    Measurement {
        stage: "persistence.request_to_ui_complete",
        context: trace.performance,
        trigger: None,
        workflow: Some(trace.workflow),
        pixel_size: Some(trace.pixel_size),
        started_at: Some(trace.started_at),
        ending,
    }
}

/// The number that follows in a sequence of requests.
pub fn next_sequence(sequence: &mut u64) -> (next: u64)
    requires
        *old(sequence) < u64::MAX,
    ensures
        next == *old(sequence) + 1,
        *final(sequence) == next,
{
    *sequence = *sequence + 1;
    *sequence
}

} // verus!
