use cluster_raft::messenger::{send_from_outcomes, RetryingMessenger, SendStep};

#[test]
fn first_attempt_delivers_with_zero_retries() {
    let outcomes: Vec<Result<&str, &str>> = vec![Ok("reply")];
    let (step, attempts) = send_from_outcomes(3, 250, outcomes);
    assert_eq!(step, Some(SendStep::Delivered("reply", 0)));
    assert_eq!(attempts, 1);
}

#[test]
fn fails_k_times_then_delivers_reporting_k_retries() {
    // k = 2 failures, then success, with max_retries = 3.
    let outcomes: Vec<Result<&str, &str>> = vec![Err("down"), Err("down"), Ok("reply"), Err("x")];
    let (step, attempts) = send_from_outcomes(3, 250, outcomes);
    assert_eq!(step, Some(SendStep::Delivered("reply", 2)));
    assert_eq!(attempts, 3);
}

#[test]
fn delivers_on_the_last_allowed_attempt() {
    // k = max_retries = 3: the success lands on the fourth and last attempt.
    let outcomes: Vec<Result<u8, u8>> = vec![Err(1), Err(2), Err(3), Ok(10)];
    let (step, attempts) = send_from_outcomes(3, 250, outcomes);
    assert_eq!(step, Some(SendStep::Delivered(10, 3)));
    assert_eq!(attempts, 4);
}

#[test]
fn always_failing_destination_exhausts_after_max_retries_plus_one() {
    let outcomes: Vec<Result<u8, u8>> = vec![Err(1), Err(2), Err(3), Err(4), Err(5)];
    let (step, attempts) = send_from_outcomes(3, 250, outcomes);
    // The last error is the one of attempt max_retries + 1 = 4.
    assert_eq!(step, Some(SendStep::Exhausted(4, 3)));
    assert_eq!(attempts, 4);
}

#[test]
fn zero_max_retries_means_a_single_attempt() {
    let outcomes: Vec<Result<u8, u8>> = vec![Err(9), Ok(1)];
    let (step, attempts) = send_from_outcomes(0, 250, outcomes);
    assert_eq!(step, Some(SendStep::Exhausted(9, 0)));
    assert_eq!(attempts, 1);
}

#[test]
fn step_machine_counts_retries() {
    let mut messenger = RetryingMessenger::new(2, 100);
    assert_eq!(messenger.on_attempt::<u8, u8>(Err(1)), SendStep::Retry);
    assert_eq!(messenger.current_retry, 1);
    assert_eq!(messenger.on_attempt::<u8, u8>(Err(2)), SendStep::Retry);
    assert_eq!(messenger.on_attempt::<u8, u8>(Err(3)), SendStep::Exhausted(3, 2));
    assert_eq!(messenger.current_retry, 2);
}
