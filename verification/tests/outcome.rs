use ws_push::push::{enqueue_result, EnqueueFailure, StartSendOutcome};

#[test]
fn accepted_outcome_is_the_only_success() {
    assert!(enqueue_result(StartSendOutcome::Accepted).is_ok());
}

#[test]
fn not_ready_outcome_is_a_busy_failure() {
    let frame = warp::ws::Message::text("queued");
    let result = enqueue_result(StartSendOutcome::NotReady(frame));
    assert!(matches!(result, Err(EnqueueFailure::Busy)));
}
