//! The opt-in performance log: what is measured, when an event is dropped, and when the
//! writer may stop.

use vstd::prelude::*;

use crate::text::{concat, trim, trimmed};

verus! {

/// How many events may wait for the writer.
pub const CHANNEL_CAPACITY: usize = 4_096;

/// How long shutting down waits for measurements and for the writer, in nanoseconds.
pub const WRITER_SHUTDOWN_TIMEOUT: u128 = 2_000_000_000;

/// How long a writer that was told to stop is waited for, in nanoseconds.
pub const WRITER_FORCED_SHUTDOWN_GRACE: u128 = 100_000_000;

/// How long the writer waits for an event before it looks round, in nanoseconds.
pub const WRITER_IDLE_POLL: u128 = 25_000_000;

/// The name of the format of the log.
pub const SCHEMA: &'static str = "rs-board.performance.v1";

/// Why the log could not be opened.
pub enum PerformanceLogError {
    AlreadyInitialized,
    Open { path: String, source: String },
    Spawn(String),
}

impl PerformanceLogError {
    /// The message shown to the user.
    pub open spec fn message(&self) -> Seq<char> {
        match self {
            PerformanceLogError::AlreadyInitialized => "performance log is already initialized"@,
            PerformanceLogError::Open { path, source } => "unable to open performance log "@ + path@
                + ": "@ + source@,
            PerformanceLogError::Spawn(source) => "unable to start performance log writer: "@
                + source@,
        }
    }

    /// The message shown to the user.
    pub fn to_message(&self) -> (message: String)
        ensures
            message@ == self.message(),
    {
        match self {
            PerformanceLogError::AlreadyInitialized =>
                "performance log is already initialized".to_owned(),
            PerformanceLogError::Open { path, source } => {
                let mut message = concat("unable to open performance log ", path.as_str());
                message.append(": ");
                message.append(source.as_str());
                message
            },
            PerformanceLogError::Spawn(source) =>
                concat("unable to start performance log writer: ", source.as_str()),
        }
    }
}

/// Where the log goes.
pub enum LogSink {
    Stderr,
    File(String),
}

/// Where the log goes, given the destination that the environment names. Without one
/// nothing is logged; a second log is refused.
pub fn log_destination(destination: Option<String>, initialized: bool) -> (sink: Result<
    Option<LogSink>,
    PerformanceLogError,
>)
    ensures
        match destination {
            None => sink matches Ok(None),
            Some(name) => if initialized {
                sink matches Err(PerformanceLogError::AlreadyInitialized)
            } else if name@ == "stderr"@ || name@ == "-"@ {
                sink matches Ok(Some(LogSink::Stderr))
            } else {
                sink matches Ok(Some(LogSink::File(path))) && path == name
            },
        },
{
    match destination {
        None => Ok(None),
        Some(name) => {
            if initialized {
                return Err(PerformanceLogError::AlreadyInitialized);
            }
            let stderr = "stderr".to_owned();
            let dash = "-".to_owned();
            if name == stderr || name == dash {
                Ok(Some(LogSink::Stderr))
            } else {
                Ok(Some(LogSink::File(name)))
            }
        },
    }
}

/// Whether `value` is one of `allowed`.
pub open spec fn is_choice(value: Seq<char>, allowed: Seq<&'static str>) -> bool {
    exists|i: int| 0 <= i < allowed.len() && (#[trigger] allowed[i])@ == value
}

/// The value of an environment variable, without surrounding white space, where it is one
/// of the allowed ones.
pub fn environment_choice(value: Option<String>, allowed: &Vec<&'static str>) -> (choice: Option<
    String,
>)
    ensures
        match value {
            None => choice is None,
            Some(text) => if is_choice(trimmed(text@), allowed@) {
                choice matches Some(chosen) && chosen@ == trimmed(text@)
            } else {
                choice is None
            },
        },
{
    let text = match &value {
        None => {
            return None;
        },
        Some(text) => trim(text.as_str()),
    };
    for i in 0..allowed.len()
        invariant
            value matches Some(given) && text@ == trimmed(given@),
            forall|j: int| 0 <= j < i ==> (#[trigger] allowed@[j])@ != text@,
    {
        if text == allowed[i].to_owned() {
            assert(allowed@[i as int]@ == text@);
            return Some(text);
        }
    }
    None
}

/// What a measurement belongs to.
#[derive(Clone, Copy, PartialEq, Eq, Structural)]
pub struct PerformanceContext {
    pub request_id: Option<u128>,
    pub session_id: Option<u128>,
    pub capture_sequence: Option<u64>,
    pub stash_sequence: Option<u64>,
    pub generation_id: Option<u128>,
    pub document_id: Option<u128>,
    pub revision: Option<u64>,
}

/// A measurement that belongs to nothing in particular.
pub open spec fn no_context() -> PerformanceContext {
    PerformanceContext {
        request_id: None,
        session_id: None,
        capture_sequence: None,
        stash_sequence: None,
        generation_id: None,
        document_id: None,
        revision: None,
    }
}

impl Default for PerformanceContext {
    fn default() -> (context: Self)
        ensures
            context == no_context(),
    {
        PerformanceContext {
            request_id: None,
            session_id: None,
            capture_sequence: None,
            stash_sequence: None,
            generation_id: None,
            document_id: None,
            revision: None,
        }
    }
}

impl PerformanceContext {
    /// A measurement of one capture.
    pub fn capture(request_id: u128, capture_sequence: u64) -> (context: Self)
        ensures
            context == (PerformanceContext {
                request_id: Some(request_id),
                capture_sequence: Some(capture_sequence),
                ..no_context()
            }),
    {
        let mut context = PerformanceContext::default();
        context.request_id = Some(request_id);
        context.capture_sequence = Some(capture_sequence);
        context
    }
}

/// What a measurement was about. None of it is content of a document.
#[derive(Clone, Copy)]
pub struct PerformanceDetails {
    pub trigger: Option<&'static str>,
    pub workflow: Option<&'static str>,
    pub resource: Option<&'static str>,
    pub byte_count: Option<u64>,
    pub width_px: Option<u32>,
    pub height_px: Option<u32>,
    pub display_id: Option<u32>,
}

/// Details that say nothing.
pub open spec fn no_details() -> PerformanceDetails {
    PerformanceDetails {
        trigger: None,
        workflow: None,
        resource: None,
        byte_count: None,
        width_px: None,
        height_px: None,
        display_id: None,
    }
}

impl Default for PerformanceDetails {
    fn default() -> (details: Self)
        ensures
            details == no_details(),
    {
        PerformanceDetails {
            trigger: None,
            workflow: None,
            resource: None,
            byte_count: None,
            width_px: None,
            height_px: None,
            display_id: None,
        }
    }
}

impl PerformanceDetails {
    /// The same details, with what set the work off.
    pub fn trigger(self, trigger: &'static str) -> (details: Self)
        ensures
            details == (PerformanceDetails { trigger: Some(trigger), ..self }),
    {
        PerformanceDetails { trigger: Some(trigger), ..self }
    }

    /// The same details, with the workflow that the work is part of.
    pub fn workflow(self, workflow: &'static str) -> (details: Self)
        ensures
            details == (PerformanceDetails { workflow: Some(workflow), ..self }),
    {
        PerformanceDetails { workflow: Some(workflow), ..self }
    }

    /// The same details, with the kind of thing worked on.
    pub fn resource(self, resource: &'static str) -> (details: Self)
        ensures
            details == (PerformanceDetails { resource: Some(resource), ..self }),
    {
        PerformanceDetails { resource: Some(resource), ..self }
    }

    /// The same details, with a number of bytes.
    pub fn byte_count(self, byte_count: usize) -> (details: Self)
        ensures
            details == (PerformanceDetails { byte_count: Some(byte_count as u64), ..self }),
    {
        PerformanceDetails { byte_count: Some(byte_count as u64), ..self }
    }

    /// The same details, with a size in pixels: width, then height.
    pub fn pixel_size(self, pixel_size: [u32; 2]) -> (details: Self)
        ensures
            details == (PerformanceDetails {
                width_px: Some(pixel_size@[0]),
                height_px: Some(pixel_size@[1]),
                ..self
            }),
    {
        PerformanceDetails {
            width_px: Some(pixel_size[0]),
            height_px: Some(pixel_size[1]),
            ..self
        }
    }

    /// The same details, with a display.
    pub fn display_id(self, display_id: u32) -> (details: Self)
        ensures
            details == (PerformanceDetails { display_id: Some(display_id), ..self }),
    {
        PerformanceDetails { display_id: Some(display_id), ..self }
    }
}

/// How measured work ended.
#[derive(Clone, Copy, PartialEq, Eq, Structural)]
pub enum PerformanceOutcome {
    Success,
    Error,
    Rejected,
    Stale,
}

/// The counters that all measurements share. They wrap round.
#[derive(Clone, Copy, PartialEq, Eq, Structural)]
pub struct PerformanceLog {
    pub logging_active: bool,
    pub force_writer_shutdown: bool,
    pub active_timers: u64,
    pub event_sequence: u64,
    pub dropped_events: u64,
}

/// One measurement, from its start.
pub struct PerformanceTimer {
    pub stage: &'static str,
    pub context: PerformanceContext,
    pub details: PerformanceDetails,
    /// The moment of the start in nanoseconds, where anything is measured.
    pub started_at: Option<u128>,
}

/// One line of the log.
pub struct PerformanceEvent {
    pub schema: &'static str,
    pub event_sequence: u64,
    pub recorded_at: i128,
    pub stage: &'static str,
    pub outcome: PerformanceOutcome,
    pub duration_us: u64,
    pub context: PerformanceContext,
    pub details: PerformanceDetails,
    pub error_codes: Option<Vec<&'static str>>,
}

/// The whole microseconds between two moments in nanoseconds, none where the second
/// comes first, and no more than fit.
pub open spec fn elapsed_micros(started_at: u128, finished_at: u128) -> u64 {
    if finished_at <= started_at {
        0
    } else if (finished_at - started_at) / 1000 > u64::MAX {
        u64::MAX
    } else {
        ((finished_at - started_at) / 1000) as u64
    }
}

/// The whole microseconds of a duration in nanoseconds, as far as they fit.
pub fn duration_to_micros(duration: u128) -> (micros: u64)
    ensures
        micros == if duration / 1000 > u64::MAX {
            u64::MAX
        } else {
            (duration / 1000) as u64
        },
{
    let micros: u128 = duration / 1000;
    if micros > u64::MAX as u128 {
        u64::MAX
    } else {
        micros as u64
    }
}

/// The counters with one measurement more, where anything is measured.
pub open spec fn measuring(log: PerformanceLog) -> PerformanceLog {
    if log.logging_active {
        PerformanceLog { active_timers: wrapping_next(log.active_timers), ..log }
    } else {
        log
    }
}

/// The number after `n`, counted round.
pub open spec fn wrapping_next(n: u64) -> u64 {
    if n == u64::MAX {
        0
    } else {
        (n + 1) as u64
    }
}

/// The number before `n`, counted round.
pub open spec fn wrapping_previous(n: u64) -> u64 {
    if n == 0 {
        u64::MAX
    } else {
        (n - 1) as u64
    }
}

/// The number after `n`, counted round.
fn count_up(n: u64) -> (next: u64)
    ensures
        next == wrapping_next(n),
{
    if n == u64::MAX {
        0
    } else {
        n + 1
    }
}

/// The number before `n`, counted round.
fn count_down(n: u64) -> (previous: u64)
    ensures
        previous == wrapping_previous(n),
{
    if n == 0 {
        u64::MAX
    } else {
        n - 1
    }
}

/// What became of an event that was handed to the writer.
#[derive(Clone, Copy, PartialEq, Eq, Structural)]
pub enum Delivery {
    /// The writer has it.
    Queued,
    /// Too many events wait.
    Full,
    /// The writer is gone.
    Disconnected,
}

/// What the writer found when it looked for an event.
#[derive(Clone, Copy, PartialEq, Eq, Structural)]
pub enum Received {
    Event,
    Timeout,
    Disconnected,
}

/// What the writer does next.
#[derive(Clone, Copy, PartialEq, Eq, Structural)]
pub enum WriterStep {
    /// Write the event that came.
    Write,
    /// Look for an event again.
    LookAgain,
    /// Write the last line and end.
    Finish,
}

/// The last line of the log.
pub struct RunCompletion {
    pub schema: &'static str,
    pub event_sequence: u64,
    pub stage: &'static str,
    pub outcome: &'static str,
    pub dropped_events: u64,
}

/// How the writer is waited for when logging ends.
#[derive(Clone, Copy, PartialEq, Eq, Structural)]
pub struct WriterWait {
    /// Whether the writer was told to stop.
    pub forced: bool,
    /// How long it is waited for, in nanoseconds.
    pub wait: u128,
}

/// The counters once the writer is told to stop: what is still being measured is lost, and
/// at least one event is.
pub open spec fn after_forced_shutdown(log: PerformanceLog) -> PerformanceLog {
    let incomplete = if log.active_timers == 0 {
        1u64
    } else {
        log.active_timers
    };
    PerformanceLog {
        dropped_events: log.dropped_events.wrapping_add(incomplete),
        force_writer_shutdown: true,
        ..log
    }
}

impl PerformanceLog {
    /// The counters of a process that logs nothing yet.
    pub fn new() -> (log: Self)
        ensures
            log == (PerformanceLog {
                logging_active: false,
                force_writer_shutdown: false,
                active_timers: 0,
                event_sequence: 1,
                dropped_events: 0,
            }),
    {
        PerformanceLog {
            logging_active: false,
            force_writer_shutdown: false,
            active_timers: 0,
            event_sequence: 1,
            dropped_events: 0,
        }
    }

    /// Starts logging.
    pub fn activate(&mut self)
        ensures
            *final(self) == (PerformanceLog {
                logging_active: true,
                force_writer_shutdown: false,
                ..*old(self)
            }),
    {
        self.force_writer_shutdown = false;
        self.logging_active = true;
    }

    /// Whether anything is measured.
    pub fn logging_enabled(&self) -> (enabled: bool)
        ensures
            enabled == self.logging_active,
    {
        self.logging_active
    }

    /// Counts one measurement more, where anything is measured.
    pub fn begin_measurement(&mut self) -> (measured: bool)
        ensures
            measured == old(self).logging_active,
            *final(self) == measuring(*old(self)),
    {
        self.active_timers = count_up(self.active_timers);
        if self.logging_enabled() {
            true
        } else {
            self.finish_measurement();
            false
        }
    }

    /// Counts one measurement less.
    pub fn finish_measurement(&mut self)
        ensures
            *final(self) == (PerformanceLog {
                active_timers: wrapping_previous(old(self).active_timers),
                ..*old(self)
            }),
    {
        self.active_timers = count_down(self.active_timers);
    }

    /// Tells the writer to stop: what is still being measured is lost.
    pub fn mark_forced_shutdown(&mut self)
        ensures
            *final(self) == after_forced_shutdown(*old(self)),
    {
        let incomplete: u64 = if self.active_timers == 0 {
            1
        } else {
            self.active_timers
        };
        self.dropped_events = self.dropped_events.wrapping_add(incomplete);
        self.force_writer_shutdown = true;
    }

    /// The event of a measurement. Each gets a number of its own.
    pub fn build_event(
        &mut self,
        stage: &'static str,
        context: PerformanceContext,
        details: PerformanceDetails,
        started_at: u128,
        finished_at: u128,
        recorded_at: i128,
        outcome: PerformanceOutcome,
        error_codes: Option<Vec<&'static str>>,
    ) -> (event: PerformanceEvent)
        ensures
            *final(self) == (PerformanceLog {
                event_sequence: wrapping_next(old(self).event_sequence),
                ..*old(self)
            }),
            event == (PerformanceEvent {
                schema: SCHEMA,
                event_sequence: old(self).event_sequence,
                recorded_at,
                stage,
                outcome,
                duration_us: elapsed_micros(started_at, finished_at),
                context,
                details,
                error_codes,
            }),
    {
        let duration: u128 = if finished_at > started_at {
            finished_at - started_at
        } else {
            0
        };
        let event_sequence: u64 = self.event_sequence;
        self.event_sequence = count_up(event_sequence);
        PerformanceEvent {
            schema: SCHEMA,
            event_sequence,
            recorded_at,
            stage,
            outcome,
            duration_us: duration_to_micros(duration),
            context,
            details,
            error_codes,
        }
    }

    /// Takes note of what became of an event: one that the writer did not take is lost, and
    /// without a writer nothing more is measured.
    pub fn submitted(&mut self, delivery: Delivery)
        ensures
            *final(self) == match delivery {
                Delivery::Queued => *old(self),
                Delivery::Full => PerformanceLog {
                    dropped_events: wrapping_next(old(self).dropped_events),
                    ..*old(self)
                },
                Delivery::Disconnected => PerformanceLog {
                    dropped_events: wrapping_next(old(self).dropped_events),
                    logging_active: false,
                    ..*old(self)
                },
            },
    {
        match delivery {
            Delivery::Queued => {},
            Delivery::Full => {
                self.dropped_events = count_up(self.dropped_events);
            },
            Delivery::Disconnected => {
                self.dropped_events = count_up(self.dropped_events);
                self.logging_active = false;
            },
        }
    }

    /// The event of something that takes no time, where anything is measured. Once it has
    /// been handed to the writer, `finish_measurement` is due.
    pub fn record(
        &mut self,
        stage: &'static str,
        context: PerformanceContext,
        details: PerformanceDetails,
        outcome: PerformanceOutcome,
        now: u128,
        recorded_at: i128,
    ) -> (event: Option<PerformanceEvent>)
        ensures
            if old(self).logging_active {
                &&& *final(self) == (PerformanceLog {
                    event_sequence: wrapping_next(old(self).event_sequence),
                    ..measuring(*old(self))
                })
                &&& event == Some(
                    PerformanceEvent {
                        schema: SCHEMA,
                        event_sequence: old(self).event_sequence,
                        recorded_at,
                        stage,
                        outcome,
                        duration_us: 0,
                        context,
                        details,
                        error_codes: None,
                    },
                )
            } else {
                *final(self) == *old(self) && event is None
            },
    {
        if !self.begin_measurement() {
            return None;
        }
        Some(self.build_event(stage, context, details, now, now, recorded_at, outcome, None))
    }

    /// What the writer does, given what it found: it ends once nobody logs and nothing is
    /// being measured, or once it was told to stop, but never before it has written the
    /// events that wait.
    pub fn writer_step(&self, received: Received) -> (step: WriterStep)
        ensures
            step == match received {
                Received::Event => WriterStep::Write,
                Received::Disconnected => WriterStep::Finish,
                Received::Timeout => if self.logging_active || (!self.force_writer_shutdown
                    && self.active_timers > 0) {
                    WriterStep::LookAgain
                } else {
                    WriterStep::Finish
                },
            },
    {
        match received {
            Received::Event => WriterStep::Write,
            Received::Disconnected => WriterStep::Finish,
            Received::Timeout => {
                if self.logging_enabled() {
                    WriterStep::LookAgain
                } else if !self.force_writer_shutdown && self.active_timers > 0 {
                    WriterStep::LookAgain
                } else {
                    WriterStep::Finish
                }
            },
        }
    }

    /// Ends the writer's run: its last line says whether every event was written.
    pub fn writer_finished(&mut self, writer_failed: bool) -> (completion: RunCompletion)
        ensures
            ({
                let dropped = if writer_failed {
                    wrapping_next(old(self).dropped_events)
                } else {
                    old(self).dropped_events
                };
                &&& *final(self) == (PerformanceLog {
                    logging_active: false,
                    dropped_events: dropped,
                    event_sequence: wrapping_next(old(self).event_sequence),
                    ..*old(self)
                })
                &&& completion.schema == SCHEMA
                &&& completion.event_sequence == old(self).event_sequence
                &&& completion.stage@ == "performance_log.run_complete"@
                &&& completion.outcome@ == if dropped == 0 {
                    "ok"@
                } else {
                    "error"@
                }
                &&& completion.dropped_events == dropped
            }),
    {
        self.logging_active = false;
        if writer_failed {
            self.dropped_events = count_up(self.dropped_events);
        }
        let event_sequence: u64 = self.event_sequence;
        self.event_sequence = count_up(event_sequence);
        RunCompletion {
            schema: SCHEMA,
            event_sequence,
            stage: "performance_log.run_complete",
            outcome: if self.dropped_events == 0 {
                "ok"
            } else {
                "error"
            },
            dropped_events: self.dropped_events,
        }
    }

    /// Whether shutting down still waits for measurements, `elapsed` nanoseconds after it
    /// began.
    pub fn shutdown_waits(&self, elapsed: u128) -> (waits: bool)
        ensures
            waits == (self.active_timers > 0 && elapsed < WRITER_SHUTDOWN_TIMEOUT),
    {
        self.active_timers > 0 && elapsed < WRITER_SHUTDOWN_TIMEOUT
    }

    /// Ends logging once measurements are no longer waited for, `elapsed` nanoseconds after
    /// shutting down began, and says how the writer is waited for.
    pub fn stop_logging(&mut self, elapsed: u128) -> (wait: WriterWait)
        ensures
            wait.forced == (old(self).active_timers > 0),
            wait.wait == if wait.forced {
                WRITER_FORCED_SHUTDOWN_GRACE
            } else if elapsed < WRITER_SHUTDOWN_TIMEOUT {
                (WRITER_SHUTDOWN_TIMEOUT - elapsed) as u128
            } else {
                0
            },
            *final(self) == (PerformanceLog {
                logging_active: false,
                ..if wait.forced {
                    after_forced_shutdown(*old(self))
                } else {
                    *old(self)
                }
            }),
    {
        let forced = self.active_timers > 0;
        if forced {
            self.mark_forced_shutdown();
        }
        self.logging_active = false;
        let wait: u128 = if forced {
            WRITER_FORCED_SHUTDOWN_GRACE
        } else if elapsed < WRITER_SHUTDOWN_TIMEOUT {
            WRITER_SHUTDOWN_TIMEOUT - elapsed
        } else {
            0
        };
        WriterWait { forced, wait }
    }

    /// Takes note that the writer did not end in time: it is told to stop, unless it was
    /// before, and gets one more grace period, in nanoseconds.
    pub fn writer_overdue(&mut self, forced: bool) -> (grace: u128)
        ensures
            grace == WRITER_FORCED_SHUTDOWN_GRACE,
            *final(self) == if forced {
                *old(self)
            } else {
                after_forced_shutdown(*old(self))
            },
    {
        if !forced {
            self.mark_forced_shutdown();
        }
        WRITER_FORCED_SHUTDOWN_GRACE
    }
}

/// The counters once the event of a measurement has been made.
pub open spec fn after_finish(timer: PerformanceTimer, log: PerformanceLog) -> PerformanceLog {
    match timer.started_at {
        None => log,
        Some(_) => PerformanceLog { event_sequence: wrapping_next(log.event_sequence), ..log },
    }
}

/// The event of a finished measurement, where anything was measured.
pub open spec fn finished_event(
    timer: PerformanceTimer,
    log: PerformanceLog,
    finished_at: u128,
    recorded_at: i128,
    outcome: PerformanceOutcome,
    error_codes: Option<Vec<&'static str>>,
) -> Option<PerformanceEvent> {
    match timer.started_at {
        None => None,
        Some(started_at) => Some(
            PerformanceEvent {
                schema: SCHEMA,
                event_sequence: log.event_sequence,
                recorded_at,
                stage: timer.stage,
                outcome,
                duration_us: elapsed_micros(started_at, finished_at),
                context: timer.context,
                details: timer.details,
                error_codes,
            },
        ),
    }
}

/// Whether `event` is that of a measurement that failed with `codes`; nothing is logged
/// where nothing was measured.
pub open spec fn is_error_event(
    event: Option<PerformanceEvent>,
    timer: PerformanceTimer,
    log: PerformanceLog,
    finished_at: u128,
    recorded_at: i128,
    codes: Seq<&'static str>,
) -> bool {
    match timer.started_at {
        None => event is None,
        Some(_) => {
            &&& event matches Some(made)
            &&& made.error_codes matches Some(list)
            &&& list@ == codes
            &&& event == finished_event(
                timer,
                log,
                finished_at,
                recorded_at,
                PerformanceOutcome::Error,
                made.error_codes,
            )
        },
    }
}

impl PerformanceTimer {
    /// Starts a measurement at `started_at`, where anything is measured.
    pub fn started_at(
        log: &mut PerformanceLog,
        stage: &'static str,
        context: PerformanceContext,
        details: PerformanceDetails,
        started_at: u128,
    ) -> (timer: Self)
        ensures
            *final(log) == measuring(*old(log)),
            timer == (PerformanceTimer {
                stage,
                context,
                details,
                started_at: if old(log).logging_active {
                    Some(started_at)
                } else {
                    None
                },
            }),
    {
        let measured = log.begin_measurement();
        let started_at: Option<u128> = if measured {
            Some(started_at)
        } else {
            None
        };
        PerformanceTimer { stage, context, details, started_at }
    }

    /// The event of the finished measurement, where anything was measured. Once it has been
    /// handed to the writer, `finish_measurement` is due.
    pub fn finish(
        self,
        log: &mut PerformanceLog,
        finished_at: u128,
        recorded_at: i128,
        outcome: PerformanceOutcome,
        error_codes: Option<Vec<&'static str>>,
    ) -> (event: Option<PerformanceEvent>)
        ensures
            *final(log) == after_finish(self, *old(log)),
            event == finished_event(self, *old(log), finished_at, recorded_at, outcome, error_codes),
    {
        match self.started_at {
            None => None,
            Some(started_at) => Some(
                log.build_event(
                    self.stage,
                    self.context,
                    self.details,
                    started_at,
                    finished_at,
                    recorded_at,
                    outcome,
                    error_codes,
                ),
            ),
        }
    }

    /// Starts a measurement now, where anything is measured.
    pub fn start(
        log: &mut PerformanceLog,
        stage: &'static str,
        context: PerformanceContext,
        details: PerformanceDetails,
        now: u128,
    ) -> (timer: Self)
        ensures
            *final(log) == measuring(*old(log)),
            timer == (PerformanceTimer {
                stage,
                context,
                details,
                started_at: if old(log).logging_active {
                    Some(now)
                } else {
                    None
                },
            }),
    {
        PerformanceTimer::started_at(log, stage, context, details, now)
    }

    /// The event of work that went well.
    pub fn finish_ok(self, log: &mut PerformanceLog, finished_at: u128, recorded_at: i128) -> (event:
        Option<PerformanceEvent>)
        ensures
            *final(log) == after_finish(self, *old(log)),
            event == finished_event(
                self,
                *old(log),
                finished_at,
                recorded_at,
                PerformanceOutcome::Success,
                None,
            ),
    {
        self.finish(log, finished_at, recorded_at, PerformanceOutcome::Success, None)
    }

    /// The event of work that was refused.
    pub fn finish_rejected(
        self,
        log: &mut PerformanceLog,
        finished_at: u128,
        recorded_at: i128,
    ) -> (event: Option<PerformanceEvent>)
        ensures
            *final(log) == after_finish(self, *old(log)),
            event == finished_event(
                self,
                *old(log),
                finished_at,
                recorded_at,
                PerformanceOutcome::Rejected,
                None,
            ),
    {
        self.finish(log, finished_at, recorded_at, PerformanceOutcome::Rejected, None)
    }

    /// The event of work that nobody waited for any more.
    pub fn finish_stale(self, log: &mut PerformanceLog, finished_at: u128, recorded_at: i128) -> (
    event: Option<PerformanceEvent>)
        ensures
            *final(log) == after_finish(self, *old(log)),
            event == finished_event(
                self,
                *old(log),
                finished_at,
                recorded_at,
                PerformanceOutcome::Stale,
                None,
            ),
    {
        self.finish(log, finished_at, recorded_at, PerformanceOutcome::Stale, None)
    }

    /// The event of work that failed with an error of type `error_type`, which came from
    /// `sources`.
    pub fn finish_error(
        self,
        log: &mut PerformanceLog,
        finished_at: u128,
        recorded_at: i128,
        error: Option<IoErrorKind>,
        error_type: &'static str,
        sources: &Vec<Option<IoErrorKind>>,
    ) -> (event: Option<PerformanceEvent>)
        ensures
            *final(log) == after_finish(self, *old(log)),
            is_error_event(
                event,
                self,
                *old(log),
                finished_at,
                recorded_at,
                chain_codes(error, error_type, sources@),
            ),
    {
        let codes: Option<Vec<&'static str>> = match self.started_at {
            None => None,
            Some(_) => Some(error_chain_codes(error, error_type, sources)),
        };
        self.finish(log, finished_at, recorded_at, PerformanceOutcome::Error, codes)
    }

    /// The event of work that failed with one code.
    pub fn finish_error_code(
        self,
        log: &mut PerformanceLog,
        finished_at: u128,
        recorded_at: i128,
        code: &'static str,
    ) -> (event: Option<PerformanceEvent>)
        ensures
            *final(log) == after_finish(self, *old(log)),
            is_error_event(event, self, *old(log), finished_at, recorded_at, seq![code]),
    {
        let codes = self.error_code_list(code);
        self.finish(log, finished_at, recorded_at, PerformanceOutcome::Error, codes)
    }

    /// The codes logged for an error of one code, where anything was measured.
    pub fn error_code_list(&self, code: &'static str) -> (codes: Option<Vec<&'static str>>)
        ensures
            match self.started_at {
                None => codes is None,
                Some(_) => codes matches Some(list) && list@ == seq![code],
            },
    {
        match self.started_at {
            None => None,
            Some(_) => {
                let mut list: Vec<&'static str> = Vec::new();
                list.push(code);
                assert(list@ =~= seq![code]);
                Some(list)
            },
        }
    }
}

/// The kinds of input and output errors that have a code of their own.
#[derive(Clone, Copy, PartialEq, Eq, Structural)]
pub enum IoErrorKind {
    NotFound,
    PermissionDenied,
    AlreadyExists,
    InvalidInput,
    InvalidData,
    TimedOut,
    Interrupted,
    UnexpectedEof,
    WriteZero,
    Other,
}

/// The code of an error of input or output.
pub open spec fn io_code(kind: IoErrorKind) -> &'static str {
    match kind {
        IoErrorKind::NotFound => "io.not_found",
        IoErrorKind::PermissionDenied => "io.permission_denied",
        IoErrorKind::AlreadyExists => "io.already_exists",
        IoErrorKind::InvalidInput => "io.invalid_input",
        IoErrorKind::InvalidData => "io.invalid_data",
        IoErrorKind::TimedOut => "io.timed_out",
        IoErrorKind::Interrupted => "io.interrupted",
        IoErrorKind::UnexpectedEof => "io.unexpected_eof",
        IoErrorKind::WriteZero => "io.write_zero",
        IoErrorKind::Other => "io.other",
    }
}

/// The code of an error: that of its kind where it is one of input or output, and
/// `fallback` otherwise. Nothing of the error's message is in it.
pub open spec fn code_of(kind: Option<IoErrorKind>, fallback: &'static str) -> &'static str {
    match kind {
        Some(kind) => io_code(kind),
        None => fallback,
    }
}

/// The code of an error.
pub fn error_code(kind: Option<IoErrorKind>, fallback: &'static str) -> (code: &'static str)
    ensures
        code == code_of(kind, fallback),
{
    match kind {
        None => fallback,
        Some(IoErrorKind::NotFound) => "io.not_found",
        Some(IoErrorKind::PermissionDenied) => "io.permission_denied",
        Some(IoErrorKind::AlreadyExists) => "io.already_exists",
        Some(IoErrorKind::InvalidInput) => "io.invalid_input",
        Some(IoErrorKind::InvalidData) => "io.invalid_data",
        Some(IoErrorKind::TimedOut) => "io.timed_out",
        Some(IoErrorKind::Interrupted) => "io.interrupted",
        Some(IoErrorKind::UnexpectedEof) => "io.unexpected_eof",
        Some(IoErrorKind::WriteZero) => "io.write_zero",
        Some(IoErrorKind::Other) => "io.other",
    }
}

/// The codes of an error of type `error_type` and of the errors that it came from.
pub open spec fn chain_codes(
    error: Option<IoErrorKind>,
    error_type: &'static str,
    sources: Seq<Option<IoErrorKind>>,
) -> Seq<&'static str> {
    seq![code_of(error, error_type)] + sources.map_values(
        |source: Option<IoErrorKind>| code_of(source, "source_error"),
    )
}

/// The codes of an error of type `error_type` and of the errors that it came from.
pub fn error_chain_codes(
    error: Option<IoErrorKind>,
    error_type: &'static str,
    sources: &Vec<Option<IoErrorKind>>,
) -> (codes: Vec<&'static str>)
    ensures
        codes@ == chain_codes(error, error_type, sources@),
{
    let mut codes: Vec<&'static str> = Vec::new();
    codes.push(error_code(error, error_type));
    let ghost code = |source: Option<IoErrorKind>| code_of(source, "source_error");
    for i in 0..sources.len()
        invariant
            code == (|source: Option<IoErrorKind>| code_of(source, "source_error")),
            codes@ == seq![code_of(error, error_type)] + sources@.take(i as int).map_values(code),
    {
        codes.push(error_code(sources[i], "source_error"));
        assert(sources@.take(i + 1).map_values(code) =~= sources@.take(i as int).map_values(
            code,
        ).push(code(sources@[i as int])));
    }
    assert(sources@.take(sources@.len() as int) =~= sources@);
    codes
}

/// Whether a logger is at work that has to be shut down.
pub struct PerformanceLogGuard {
    pub active: bool,
}

/// While nobody logs, starting a measurement leaves no trace.
pub proof fn law_nothing_is_measured_while_logging_is_off(log: PerformanceLog)
    requires
        !log.logging_active,
    ensures
        measuring(log) == log,
{
}

/// A measurement that ends is no longer counted.
pub proof fn law_a_finished_measurement_is_not_counted(log: PerformanceLog)
    requires
        log.logging_active,
    ensures
        wrapping_previous(measuring(log).active_timers) == log.active_timers,
{
}

/// Telling the writer to stop is seen in the last line: an event counts as lost, unless so
/// many were lost that the counter came round to zero.
pub proof fn law_forced_shutdown_is_reported(log: PerformanceLog)
    requires
        log.dropped_events + (if log.active_timers == 0 {
            1int
        } else {
            log.active_timers as int
        }) <= u64::MAX,
    ensures
        after_forced_shutdown(log).dropped_events > log.dropped_events,
        after_forced_shutdown(log).dropped_events >= log.active_timers,
{
}

} // verus!
