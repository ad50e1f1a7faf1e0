use hatchet_sdk::duration::Duration;
use hatchet_sdk::worker::action_listener::{
    reconnect_backoff, ActionListener, StreamEvent, StreamProgress,
    INITIAL_RECONNECT_BACKOFF_MILLIS, MAX_RECONNECT_ATTEMPTS, MAX_RECONNECT_BACKOFF_SECS,
};
use hatchet_sdk::HatchetError;

fn initial() -> Duration {
    Duration::from_millis(INITIAL_RECONNECT_BACKOFF_MILLIS)
}

fn longest() -> Duration {
    Duration::from_secs(MAX_RECONNECT_BACKOFF_SECS)
}

#[test]
fn backoff_starts_at_the_initial_delay() {
    assert_eq!(reconnect_backoff(1), initial());
}

#[test]
fn backoff_doubles_with_each_consecutive_failure() {
    assert_eq!(reconnect_backoff(2), initial().saturating_mul(2));
    assert_eq!(reconnect_backoff(3), initial().saturating_mul(4));
}

#[test]
fn backoff_levels_off_at_the_maximum() {
    assert_eq!(reconnect_backoff(20), longest());
    assert_eq!(reconnect_backoff(usize::MAX), longest());
}

#[test]
fn backoff_in_exact_values() {
    assert_eq!(reconnect_backoff(0), Duration::from_millis(500));
    assert_eq!(reconnect_backoff(1), Duration::from_millis(500));
    assert_eq!(reconnect_backoff(2), Duration::from_secs(1));
    assert_eq!(reconnect_backoff(6), Duration::from_secs(16));
    assert_eq!(reconnect_backoff(7), Duration::from_secs(30));
    assert_eq!(reconnect_backoff(17), Duration::from_secs(30));
}

#[test]
fn backoff_never_shrinks() {
    let nanos = |d: Duration| d.as_secs() as u128 * 1_000_000_000 + d.subsec_nanos() as u128;
    for failures in 0..40usize {
        assert!(nanos(reconnect_backoff(failures)) <= nanos(reconnect_backoff(failures + 1)));
    }
}

#[test]
fn listener_gives_up_after_ten_failures_in_a_row() {
    let mut listener = ActionListener::new();
    for failure in 1..MAX_RECONNECT_ATTEMPTS {
        let outcome = if failure % 2 == 0 {
            Ok(0)
        } else {
            Err(HatchetError::GrpcErrorStatus(String::from("unavailable")))
        };
        let (next, wait) = listener.after_stream(outcome).unwrap();
        assert_eq!(wait, reconnect_backoff(failure));
        listener = next;
    }
    match listener.after_stream(Ok(0)) {
        Err(e) => assert_eq!(
            e,
            HatchetError::InternalError(String::from(
                "action stream could not be reopened after 10 attempts"
            ))
        ),
        Ok(_) => panic!("the listener went on"),
    }
}

#[test]
fn a_stream_that_carried_something_resets_the_count() {
    let mut listener = ActionListener::new();
    for _ in 0..9 {
        listener = listener.after_stream(Ok(0)).unwrap().0;
    }
    let (mut listener, wait) = listener.after_stream(Ok(3)).unwrap();
    assert_eq!(wait, initial());
    for _ in 0..9 {
        listener = listener.after_stream(Ok(0)).unwrap().0;
    }
    assert!(listener.after_stream(Ok(0)).is_err());
}

#[test]
fn routine_reconnects_go_on() {
    let mut listener = ActionListener::new();
    for _ in 0..100 {
        listener = listener.after_stream(Ok(1)).unwrap().0;
    }
    assert!(listener.after_stream(Ok(0)).is_ok());
}

#[test]
fn a_dispatcher_that_is_gone_stops_the_listener_at_once() {
    let gone = HatchetError::DispatchError(String::from("channel closed"));
    match ActionListener::new().after_stream(Err(gone)) {
        Err(e) => assert_eq!(e, HatchetError::DispatchError(String::from("channel closed"))),
        Ok(_) => panic!("the listener went on"),
    }
}

#[test]
fn stream_counts_what_it_carried() {
    let mut stream = StreamProgress::new();
    assert!(stream.observe(StreamEvent::Action { forwarded: Ok(()) }).is_none());
    assert!(stream.observe(StreamEvent::Action { forwarded: Ok(()) }).is_none());
    assert_eq!(stream.actions_received(), 2);
    assert_eq!(stream.observe(StreamEvent::Ended), Some(Ok(2)));
}

#[test]
fn a_stream_that_fails_part_way_keeps_its_count() {
    let mut stream = StreamProgress::new();
    assert!(stream.observe(StreamEvent::Action { forwarded: Ok(()) }).is_none());
    assert_eq!(stream.observe(StreamEvent::Failed(String::from("reset"))), Some(Ok(1)));
}

#[test]
fn a_stream_that_fails_at_once_gives_the_status() {
    let mut stream = StreamProgress::new();
    assert_eq!(
        stream.observe(StreamEvent::Failed(String::from("reset"))),
        Some(Err(HatchetError::GrpcErrorStatus(String::from("reset"))))
    );
}

#[test]
fn an_action_that_cannot_be_forwarded_ends_the_stream() {
    let mut stream = StreamProgress::new();
    let event = StreamEvent::Action { forwarded: Err(String::from("channel closed")) };
    assert_eq!(
        stream.observe(event),
        Some(Err(HatchetError::DispatchError(String::from("channel closed"))))
    );
    assert_eq!(stream.actions_received(), 1);
}
