use rs_board::performance::{
    duration_to_micros, environment_choice, error_chain_codes, error_code, log_destination,
    Delivery, IoErrorKind, LogSink, PerformanceContext, PerformanceDetails, PerformanceEvent,
    PerformanceLog, PerformanceLogError, PerformanceOutcome, PerformanceTimer, Received,
    WriterStep, SCHEMA, WRITER_FORCED_SHUTDOWN_GRACE, WRITER_SHUTDOWN_TIMEOUT,
};

fn build_event(
    stage: &'static str,
    context: PerformanceContext,
    details: PerformanceDetails,
    started_at: u128,
    finished_at: u128,
    outcome: PerformanceOutcome,
    error_codes: Option<Vec<&'static str>>,
) -> PerformanceEvent {
    let mut log = PerformanceLog::new();
    log.activate();
    log.build_event(stage, context, details, started_at, finished_at, 0, outcome, error_codes)
}

#[test]
fn event_uses_supplied_monotonic_instants_and_preserves_correlation() {
    let request_id: u128 = 101;
    let session_id: u128 = 102;
    let generation_id: u128 = 103;
    let document_id: u128 = 104;
    let started_at: u128 = 5_000;
    let context = PerformanceContext {
        request_id: Some(request_id),
        session_id: Some(session_id),
        capture_sequence: Some(7),
        stash_sequence: Some(11),
        generation_id: Some(generation_id),
        document_id: Some(document_id),
        revision: Some(13),
    };
    let event = build_event(
        "test.stage",
        context,
        PerformanceDetails::default().pixel_size([3_840, 2_160]),
        started_at,
        started_at + 1_234_000,
        PerformanceOutcome::Success,
        None,
    );

    assert_eq!(event.duration_us, 1_234);
    assert_eq!(event.context.request_id, Some(request_id));
    assert_eq!(event.context.session_id, Some(session_id));
    assert_eq!(event.context.capture_sequence, Some(7));
    assert_eq!(event.context.stash_sequence, Some(11));
    assert_eq!(event.context.generation_id, Some(generation_id));
    assert_eq!(event.context.document_id, Some(document_id));
    assert_eq!(event.context.revision, Some(13));
    assert_eq!(event.details.width_px, Some(3_840));
    assert_eq!(event.details.height_px, Some(2_160));
    assert_eq!(event.schema, SCHEMA);
}

#[test]
fn error_codes_do_not_serialize_error_messages() {
    let event = build_event(
        "test.error",
        PerformanceContext::default(),
        PerformanceDetails::default(),
        0,
        0,
        PerformanceOutcome::Error,
        Some(error_chain_codes(None, "rs_board::performance::tests::SensitiveError", &Vec::new())),
    );
    let codes = event.error_codes.unwrap().join(",");

    assert!(codes.contains("SensitiveError"));
    assert!(!codes.contains("/Users/example"));
    assert!(!codes.contains("Quarterly Plan"));
}

#[test]
fn logger_shutdown_waits_for_in_flight_measurements() {
    let mut log = PerformanceLog::new();
    log.activate();
    let timer = PerformanceTimer::start(
        &mut log,
        "test.in_flight",
        PerformanceContext::default(),
        PerformanceDetails::default(),
        10,
    );
    assert!(log.shutdown_waits(0));

    let nested = log
        .record(
            "test.nested",
            PerformanceContext::default(),
            PerformanceDetails::default(),
            PerformanceOutcome::Success,
            20,
            0,
        )
        .unwrap();
    log.submitted(Delivery::Queued);
    log.finish_measurement();
    assert!(log.shutdown_waits(0));
    let in_flight = timer.finish_ok(&mut log, 30, 0).unwrap();
    log.submitted(Delivery::Queued);
    log.finish_measurement();
    assert!(!log.shutdown_waits(0));
    let wait = log.stop_logging(0);
    assert!(!wait.forced);
    let completion = log.writer_finished(false);

    assert_eq!(nested.stage, "test.nested");
    assert!(nested.outcome == PerformanceOutcome::Success);
    assert_eq!(in_flight.stage, "test.in_flight");
    assert!(in_flight.outcome == PerformanceOutcome::Success);
    assert_eq!(completion.stage, "performance_log.run_complete");
    assert_eq!(completion.outcome, "ok");
    assert_eq!(completion.dropped_events, 0);
    assert!(in_flight.event_sequence > nested.event_sequence);
    assert!(completion.event_sequence > in_flight.event_sequence);
}

#[test]
fn shutdown_does_not_wait_for_ever() {
    let mut log = PerformanceLog::new();
    log.activate();
    let _timer = PerformanceTimer::start(
        &mut log,
        "test.stuck",
        PerformanceContext::default(),
        PerformanceDetails::default(),
        10,
    );
    assert!(log.shutdown_waits(WRITER_SHUTDOWN_TIMEOUT - 1));
    assert!(!log.shutdown_waits(WRITER_SHUTDOWN_TIMEOUT));
    let wait = log.stop_logging(WRITER_SHUTDOWN_TIMEOUT);
    assert!(wait.forced);
    assert!(!log.logging_enabled());
    assert!(matches!(log.writer_step(Received::Timeout), WriterStep::Finish));
    assert_eq!(log.writer_overdue(false), WRITER_FORCED_SHUTDOWN_GRACE);
}

#[test]
fn nothing_is_measured_before_the_log_is_open() {
    let mut log = PerformanceLog::new();
    assert!(!log.logging_enabled());
    let timer = PerformanceTimer::start(
        &mut log,
        "test.early",
        PerformanceContext::default(),
        PerformanceDetails::default(),
        10,
    );
    assert!(timer.started_at.is_none());
    assert!(timer.finish_ok(&mut log, 20, 0).is_none());
    assert!(log
        .record(
            "test.early",
            PerformanceContext::default(),
            PerformanceDetails::default(),
            PerformanceOutcome::Stale,
            20,
            0,
        )
        .is_none());
}

#[test]
fn events_that_found_no_room_are_counted() {
    let mut log = PerformanceLog::new();
    log.activate();
    log.submitted(Delivery::Full);
    log.submitted(Delivery::Queued);
    log.submitted(Delivery::Disconnected);
    let completion = log.writer_finished(false);
    assert_eq!(completion.dropped_events, log.dropped_events);
    assert!(completion.dropped_events >= 1);
}

#[test]
fn the_writer_goes_on_while_events_come() {
    let mut log = PerformanceLog::new();
    log.activate();
    assert!(matches!(log.writer_step(Received::Event), WriterStep::Write));
    assert!(matches!(log.writer_step(Received::Timeout), WriterStep::LookAgain));
    assert!(matches!(log.writer_step(Received::Disconnected), WriterStep::Finish));
}

#[test]
fn every_ending_of_a_measurement_is_told_apart() {
    let mut log = PerformanceLog::new();
    log.activate();
    let start = |log: &mut PerformanceLog| {
        PerformanceTimer::start(
            log,
            "test.end",
            PerformanceContext::capture(1, 2),
            PerformanceDetails::default(),
            0,
        )
    };
    let timer = start(&mut log);
    let rejected = timer.finish_rejected(&mut log, 1_000, 0).unwrap();
    assert!(rejected.outcome == PerformanceOutcome::Rejected);
    assert_eq!(rejected.duration_us, 1);
    let timer = start(&mut log);
    let stale = timer.finish_stale(&mut log, 2_999, 0).unwrap();
    assert!(stale.outcome == PerformanceOutcome::Stale);
    assert_eq!(stale.duration_us, 2);
    let timer = start(&mut log);
    let failed = timer
        .finish_error(
            &mut log,
            1,
            0,
            Some(IoErrorKind::NotFound),
            "Outer",
            &vec![None, Some(IoErrorKind::TimedOut)],
        )
        .unwrap();
    assert!(failed.outcome == PerformanceOutcome::Error);
    assert_eq!(failed.error_codes, Some(vec!["io.not_found", "source_error", "io.timed_out"]));
    let timer = start(&mut log);
    let coded = timer.finish_error_code(&mut log, 1, 0, "worker.lost").unwrap();
    assert_eq!(coded.error_codes, Some(vec!["worker.lost"]));
    assert_eq!(coded.context.capture_sequence, Some(2));
}

#[test]
fn kinds_of_errors_have_codes() {
    for (kind, code) in [
        (IoErrorKind::NotFound, "io.not_found"),
        (IoErrorKind::PermissionDenied, "io.permission_denied"),
        (IoErrorKind::AlreadyExists, "io.already_exists"),
        (IoErrorKind::InvalidInput, "io.invalid_input"),
        (IoErrorKind::InvalidData, "io.invalid_data"),
        (IoErrorKind::TimedOut, "io.timed_out"),
        (IoErrorKind::Interrupted, "io.interrupted"),
        (IoErrorKind::UnexpectedEof, "io.unexpected_eof"),
        (IoErrorKind::WriteZero, "io.write_zero"),
        (IoErrorKind::Other, "io.other"),
    ] {
        assert_eq!(error_code(Some(kind), "fallback"), code);
    }
    assert_eq!(error_code(None, "fallback"), "fallback");
}

#[test]
fn durations_are_told_in_microseconds() {
    assert_eq!(duration_to_micros(1_999), 1);
    assert_eq!(duration_to_micros(u128::MAX), u64::MAX);
}

#[test]
fn the_log_goes_where_the_environment_says() {
    assert!(matches!(log_destination(None, false), Ok(None)));
    assert!(matches!(
        log_destination(Some("/tmp/log.jsonl".to_owned()), true),
        Err(PerformanceLogError::AlreadyInitialized)
    ));
    match log_destination(Some("/tmp/log.jsonl".to_owned()), false) {
        Ok(Some(LogSink::File(path))) => assert_eq!(path, "/tmp/log.jsonl"),
        _ => panic!("a file is named"),
    }
    assert_eq!(
        environment_choice(Some("hot".to_owned()), &vec!["hot", "cold"]),
        Some("hot".to_owned())
    );
    assert_eq!(environment_choice(Some("warm".to_owned()), &vec!["hot", "cold"]), None);
    assert!(PerformanceLogError::Spawn("full".to_owned()).to_message().contains("full"));
}
