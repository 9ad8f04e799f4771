use rs_board::background_encode::BackgroundPrepareError;
use rs_board::draft_coordinator::{
    performance_context, CommitStep, DraftCommand, DraftCoordinator, DraftCoordinatorError,
    DraftResult, StashJob, WorkerAction,
};
use rs_board::persistence::{LatestDraft, PersistenceContext};

fn job(capture_sequence: u64, stash_sequence: u64, generation_id: u128) -> StashJob {
    StashJob {
        context: PersistenceContext::new(u128::from(stash_sequence), 77)
            .with_sequences(Some(capture_sequence), Some(stash_sequence))
            .with_generation(generation_id),
        generation_id,
        document_id: u128::from(capture_sequence) + 500,
        revision: 1,
        prepared_background: capture_sequence * 10,
        pixel_size: [2, 2],
        requested_at: 0,
    }
}

/// The draft that stands in the store.
struct Store {
    generation: Option<u128>,
}

/// Does the next piece of work, and gives its report.
fn run_next(coordinator: &mut DraftCoordinator, store: &mut Store) -> Option<DraftResult> {
    let command = match coordinator.next_command() {
        WorkerAction::Run(command) => command,
        _ => return None,
    };
    let report = match command {
        DraftCommand::Commit(job) => {
            let superseded = coordinator.begin_commit(&job).is_some();
            let waited = if superseded {
                Err(BackgroundPrepareError::Superseded)
            } else {
                Ok(())
            };
            let result = match coordinator.background_waited(&job, waited) {
                CommitStep::Commit => {
                    store.generation = Some(job.generation_id);
                    Ok(LatestDraft {
                        context: job.context,
                        generation_id: job.generation_id,
                        document_id: job.document_id,
                        revision: job.revision,
                    })
                },
                CommitStep::Abandon(message) => Err(message),
            };
            coordinator.commit_result(&job, 5, result)
        },
        DraftCommand::DeleteIfGeneration(generation_id) => {
            let removed = store.generation == Some(generation_id);
            if removed {
                store.generation = None;
            }
            DraftResult::DeleteIfGeneration { generation_id, result: Ok(removed) }
        },
        DraftCommand::DeleteLatest => {
            DraftResult::DeleteLatest { result: Ok(store.generation.take().is_some()) }
        },
        DraftCommand::ClearAll => {
            store.generation = None;
            DraftResult::ClearAll { result: Ok(()) }
        },
    };
    coordinator.finish_command();
    Some(report)
}

#[test]
fn latest_job_wins_and_old_generation_delete_cannot_remove_it() {
    let mut store = Store { generation: None };
    let mut coordinator = DraftCoordinator::new();
    let first_generation = 1001;
    let second_generation = 1002;

    coordinator.publish_capture(1);
    assert!(coordinator.enqueue_commit(job(1, 1, first_generation)).is_ok());
    coordinator.publish_capture(2);
    assert!(coordinator.enqueue_commit(job(2, 2, second_generation)).is_ok());

    loop {
        match run_next(&mut coordinator, &mut store) {
            Some(DraftResult::Commit { context, result, is_latest, .. }) => {
                if context.capture_sequence == Some(2) {
                    assert!(result.is_ok());
                    assert!(is_latest);
                    break;
                }
            },
            Some(_) => {},
            None => panic!("the second job was never done"),
        }
    }
    assert_eq!(store.generation, Some(second_generation));

    assert!(coordinator.delete_if_generation(first_generation).is_ok());
    assert!(matches!(
        run_next(&mut coordinator, &mut store),
        Some(DraftResult::DeleteIfGeneration { result: Ok(false), .. })
    ));
    assert_eq!(store.generation, Some(second_generation));
    coordinator.begin_shutdown();
    assert!(matches!(coordinator.next_command(), WorkerAction::Stop));
    coordinator.finish_shutdown(true);
}

#[test]
fn shutdown_wait_is_bounded_and_abandons_a_job_still_waiting_for_encoding() {
    let mut coordinator = DraftCoordinator::new();
    coordinator.publish_capture(1);
    assert!(coordinator.enqueue_commit(job(1, 1, 5)).is_ok());
    let job = match coordinator.next_command() {
        WorkerAction::Run(DraftCommand::Commit(job)) => job,
        _ => panic!("the job was not handed out"),
    };
    assert!(coordinator.begin_commit(&job).is_none());

    assert!(coordinator.begin_shutdown());
    coordinator.finish_shutdown(false);
    match coordinator.background_waited(&job, Ok(())) {
        CommitStep::Abandon(_) => {},
        CommitStep::Commit => panic!("an abandoned job was written"),
    }
    assert!(coordinator.abandon);
    assert!(matches!(coordinator.next_command(), WorkerAction::Stop));
}

#[test]
fn a_newer_capture_gives_up_the_background_that_is_waited_for() {
    let mut coordinator = DraftCoordinator::new();
    coordinator.publish_capture(1);
    assert!(coordinator.enqueue_commit(job(1, 1, 5)).is_ok());
    let first = match coordinator.next_command() {
        WorkerAction::Run(DraftCommand::Commit(job)) => job,
        _ => panic!("the job was not handed out"),
    };
    assert!(coordinator.begin_commit(&first).is_none());
    assert_eq!(coordinator.publish_capture(2), vec![10]);
    assert!(!coordinator.job_is_current(1, 1));
    assert!(coordinator.job_is_current(2, 1));
}

#[test]
fn nothing_is_taken_once_the_end_was_asked_for() {
    let mut coordinator = DraftCoordinator::new();
    coordinator.begin_shutdown();
    assert!(matches!(
        coordinator.enqueue_commit(job(1, 1, 5)),
        Err(DraftCoordinatorError::ShuttingDown)
    ));
    assert!(matches!(coordinator.delete_latest(), Err(DraftCoordinatorError::ShuttingDown)));
    assert!(matches!(coordinator.clear_all(), Err(DraftCoordinatorError::ShuttingDown)));
    assert!(matches!(
        coordinator.delete_if_generation(1),
        Err(DraftCoordinatorError::ShuttingDown)
    ));
    assert_eq!(
        DraftCoordinatorError::ShuttingDown.to_message(),
        "draft coordinator is shutting down"
    );
    assert!(DraftCoordinatorError::Spawn("limit".to_owned()).to_message().contains("limit"));
}

#[test]
fn work_is_done_in_the_order_in_which_it_came() {
    let mut store = Store { generation: Some(4) };
    let mut coordinator = DraftCoordinator::new();
    assert!(coordinator.delete_latest().is_ok());
    assert!(coordinator.clear_all().is_ok());
    assert!(matches!(
        run_next(&mut coordinator, &mut store),
        Some(DraftResult::DeleteLatest { result: Ok(true) })
    ));
    assert!(matches!(
        run_next(&mut coordinator, &mut store),
        Some(DraftResult::ClearAll { result: Ok(()) })
    ));
    assert!(run_next(&mut coordinator, &mut store).is_none());
}

#[test]
fn a_measurement_of_a_job_names_its_document_and_generation() {
    let job = job(3, 4, 9);
    let context = performance_context(&job);
    assert_eq!(context.request_id, Some(4));
    assert_eq!(context.session_id, Some(77));
    assert_eq!(context.capture_sequence, Some(3));
    assert_eq!(context.stash_sequence, Some(4));
    assert_eq!(context.generation_id, Some(9));
    assert_eq!(context.document_id, Some(503));
    assert_eq!(context.revision, Some(1));
    assert_eq!(job.capture_sequence(), 3);
    assert_eq!(job.stash_sequence(), 4);
}
