use rs_board::background_encode::{
    encode_native_background, BackgroundData, BackgroundEncodeScheduler, BackgroundPrepareError,
    PreparedBackground, MAX_ACTIVE_ENCODERS,
};

fn background() -> BackgroundData {
    BackgroundData { bytes: vec![10, 20, 30, 255], dimensions: Ok((1, 1)) }
}

#[test]
fn limits_active_encodes_and_keeps_only_latest_pending_request() {
    let mut scheduler = BackgroundEncodeScheduler::new();
    let mut first = PreparedBackground::pending(1, [1, 1]);
    let mut second = PreparedBackground::pending(2, [1, 1]);
    let mut third = PreparedBackground::pending(3, [1, 1]);
    let mut fourth = PreparedBackground::pending(4, [1, 1]);
    let mut maximum_active = 0;

    let one = scheduler.submit(1);
    let two = scheduler.submit(2);
    assert!(one.launch && two.launch);
    assert_eq!(two.superseded, vec![one.encode_id]);
    first.supersede();
    maximum_active = scheduler.counts().0.max(maximum_active);

    let three = scheduler.submit(3);
    assert!(!three.launch);
    assert_eq!(three.superseded.len(), 2);
    assert!(three.superseded.contains(&one.encode_id));
    assert!(three.superseded.contains(&two.encode_id));
    second.supersede();
    let four = scheduler.submit(4);
    assert!(!four.launch);
    assert!(four.superseded.contains(&three.encode_id));
    third.supersede();
    assert_eq!(scheduler.counts(), (2, 1));
    assert!(matches!(first.wait(), Some(Err(BackgroundPrepareError::Superseded))));
    assert!(matches!(second.wait(), Some(Err(BackgroundPrepareError::Superseded))));
    assert!(matches!(third.wait(), Some(Err(BackgroundPrepareError::Superseded))));
    assert!(fourth.wait().is_none());

    let next = scheduler.finish_encode(one.encode_id);
    maximum_active = scheduler.counts().0.max(maximum_active);
    match next {
        Some(launched) => {
            assert_eq!(launched.encode_id, four.encode_id);
            assert_eq!(launched.capture_sequence, 4);
        },
        None => panic!("the latest request was not started"),
    }
    assert!(scheduler.finish_encode(two.encode_id).is_none());
    assert!(scheduler.finish_encode(four.encode_id).is_none());
    fourth.complete(Ok(background()));
    assert!(matches!(fourth.wait(), Some(Ok(_))));
    assert_eq!(maximum_active, MAX_ACTIVE_ENCODERS);
    assert_eq!(scheduler.counts(), (0, 0));
}

#[test]
fn failed_current_capture_can_be_retried_with_the_same_sequence() {
    let mut scheduler = BackgroundEncodeScheduler::new();
    let submission = scheduler.submit(7);
    let mut failed = PreparedBackground::pending(7, [1, 1]);
    assert!(failed.complete(Err("injected encoding failure".to_owned())));
    scheduler.finish_encode(submission.encode_id);
    assert!(failed.needs_retry());
    assert!(matches!(failed.wait(), Some(Err(BackgroundPrepareError::Failed(_)))));

    let again = scheduler.submit(7);
    assert!(again.launch);
    let mut retried = PreparedBackground::pending(7, [1, 1]);
    assert!(retried.complete(Ok(background())));
    match retried.wait() {
        Some(Ok(data)) => assert_eq!(data.bytes, vec![10, 20, 30, 255]),
        _ => panic!("the second attempt gave no background"),
    }
}

#[test]
fn a_finished_preparation_keeps_its_result() {
    let mut prepared = PreparedBackground::pending(3, [1, 1]);
    assert!(prepared.complete(Ok(background())));
    assert!(!prepared.supersede());
    assert!(!prepared.complete(Err("late".to_owned())));
    assert!(!prepared.needs_retry());
    assert!(matches!(prepared.wait(), Some(Ok(_))));
    assert_eq!(prepared.capture_sequence(), 3);
    assert_eq!(prepared.pixel_size(), [1, 1]);
}

#[test]
fn a_background_that_is_ready_has_the_size_of_its_picture() {
    match PreparedBackground::ready(9, BackgroundData { bytes: vec![0; 24], dimensions: Ok((3, 2)) }) {
        Ok(prepared) => {
            assert_eq!(prepared.pixel_size(), [3, 2]);
            assert_eq!(prepared.capture_sequence(), 9);
        },
        Err(_) => panic!("the background has a size"),
    }
    let broken = BackgroundData { bytes: Vec::new(), dimensions: Err("no header".to_owned()) };
    match PreparedBackground::ready(9, broken) {
        Err(error) => assert!(error.to_message().contains("no header")),
        Ok(_) => panic!("the background has no size"),
    }
}

#[test]
fn an_error_says_why_no_background_is_there() {
    assert_eq!(
        BackgroundPrepareError::Superseded.to_message(),
        "background preparation was superseded by a newer capture"
    );
    assert!(BackgroundPrepareError::Failed("disk".to_owned()).to_message().contains("disk"));
}

#[test]
fn an_encoded_background_must_have_the_size_of_the_picture() {
    assert!(matches!(encode_native_background([1, 1], Ok(background())), Ok(_)));
    assert!(matches!(encode_native_background([2, 1], Ok(background())), Err(_)));
    match encode_native_background([1, 1], Err("encoder".to_owned())) {
        Err(message) => assert_eq!(message, "encoder"),
        Ok(_) => panic!("a failed encoding gave a background"),
    }
}
