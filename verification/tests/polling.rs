use rara_channels::telegram::polling::{
    poll_step, PollAction, PollEvent, PollState, INITIAL_RETRY_DELAY_SECS, MAX_RETRY_DELAY_SECS,
};

#[test]
fn updates_advance_offset_past_the_last_one() {
    let s = PollState::new();
    assert_eq!(s.offset, None);
    let (s, a) = poll_step(s, &PollEvent::Updates(vec![10, 11, 15]));
    assert_eq!(a, PollAction::Dispatch);
    assert_eq!(s.offset, Some(16));
    let (s, _) = poll_step(s, &PollEvent::Updates(vec![]));
    assert_eq!(s.offset, Some(16));
}

#[test]
fn failures_back_off_up_to_the_limit_and_success_resets() {
    let mut s = PollState::new();
    let mut waits = Vec::new();
    for _ in 0..7 {
        let (next, a) = poll_step(s, &PollEvent::RequestFailed);
        match a {
            PollAction::RetryAfter(d) => waits.push(d),
            other => panic!("unexpected {:?}", other),
        }
        s = next;
    }
    assert_eq!(waits, vec![2, 4, 8, 16, 32, 60, 60]);
    assert_eq!(s.retry_delay_secs, MAX_RETRY_DELAY_SECS);
    let (s, _) = poll_step(s, &PollEvent::Updates(vec![1]));
    assert_eq!(s.retry_delay_secs, INITIAL_RETRY_DELAY_SECS);
}

#[test]
fn api_errors_back_off_unless_another_instance_polls() {
    let s = PollState::new();
    let (s2, a) = poll_step(s, &PollEvent::ApiError("Bad Gateway".to_string()));
    assert_eq!(a, PollAction::RetryAfter(2));
    assert_eq!(s2.retry_delay_secs, 4);
    let (s3, a) = poll_step(
        s2,
        &PollEvent::ApiError(
            "Conflict: terminated by other getUpdates request; make sure that only one bot instance is running".to_string(),
        ),
    );
    assert_eq!(a, PollAction::Stop);
    assert_eq!(s3, s2);
}

#[test]
fn shutdown_stops_the_loop() {
    let s = PollState::new();
    let (s2, a) = poll_step(s, &PollEvent::Shutdown);
    assert_eq!(a, PollAction::Stop);
    assert_eq!(s2, s);
}
