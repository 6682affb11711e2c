use telegram_bot::api::Api;
use telegram_bot::duration::Duration;
use telegram_bot::stream::{Completion, FetchRequest, NewUpdatesStream, Step, UpdatesStream};

fn api() -> Api<u8> {
    Api::<u8>::configure("token").connector(1).build(|| Err::<u8, ()>(())).unwrap()
}

fn fetch(step: Step<String>) -> FetchRequest {
    match step {
        Step::Fetch(req) => req,
        _ => panic!("expected a request"),
    }
}

#[test]
fn first_request_uses_defaults() {
    let mut s: UpdatesStream<u8, &str> = api().stream();
    assert_eq!(s.last_update(), 0);
    assert!(!s.in_flight());
    let req = fetch(s.advance(None));
    assert_eq!(req.offset, 1);
    assert_eq!(req.long_poll_secs, 5);
    assert_eq!(req.request_timeout.as_secs(), 6);
    assert_eq!(req.request_timeout.subsec_nanos(), 0);
    assert!(s.in_flight());
}

#[test]
fn batch_is_handed_out_in_order_and_offset_passes_it() {
    let mut s: UpdatesStream<u8, &str> = UpdatesStream::new(api());
    let _ = fetch(s.advance(None));
    let step = s.advance::<String>(Some(Completion::Batch(vec![(10, "a"), (11, "b"), (12, "c")])));
    assert!(matches!(step, Step::Deliver));
    assert!(!s.in_flight());
    assert_eq!(s.last_update(), 12);
    assert_eq!(s.buffered(), 3);
    assert_eq!(s.next_buffered(), Some("a"));
    assert_eq!(s.next_buffered(), Some("b"));
    assert_eq!(s.next_buffered(), Some("c"));
    assert_eq!(s.next_buffered(), None);
    let req = fetch(s.advance(None));
    assert_eq!(req.offset, 13);
}

#[test]
fn newest_id_is_the_largest_seen() {
    let mut s: UpdatesStream<u8, u8> = api().stream();
    let _ = fetch(s.advance(None));
    let _ = s.advance::<String>(Some(Completion::Batch(vec![(7, 1), (3, 2)])));
    assert_eq!(s.last_update(), 7);
    while s.next_buffered().is_some() {}
    let _ = fetch(s.advance(None));
    let _ = s.advance::<String>(Some(Completion::Batch(vec![(2, 3)])));
    assert_eq!(s.last_update(), 7);
}

#[test]
fn empty_batch_leads_to_next_request() {
    let mut s: UpdatesStream<u8, u8> = api().stream();
    let _ = fetch(s.advance(None));
    let step = s.advance::<String>(Some(Completion::Batch(Vec::new())));
    assert!(matches!(step, Step::Deliver));
    assert_eq!(s.next_buffered(), None);
    let req = fetch(s.advance(None));
    assert_eq!(req.offset, 1);
}

#[test]
fn failure_is_reported_then_paused_then_same_request() {
    let mut s: UpdatesStream<u8, u8> = api().stream();
    let _ = fetch(s.advance(None));
    let _ = s.advance::<String>(Some(Completion::Batch(vec![(20, 0)])));
    let _ = s.next_buffered();
    let before = fetch(s.advance(None));
    match s.advance(Some(Completion::Failed("network down".to_string()))) {
        Step::Report(e, delay) => {
            assert_eq!(e, "network down");
            assert_eq!(delay.as_secs(), 0);
            assert_eq!(delay.subsec_nanos(), 500_000_000);
        }
        _ => panic!("expected the error"),
    }
    assert!(s.in_flight());
    let after = fetch(s.advance(Some(Completion::Nothing)));
    assert_eq!(before, after);
    assert_eq!(after.offset, 21);
}

#[test]
fn timed_out_request_is_sent_again() {
    let mut s: UpdatesStream<u8, u8> = api().stream();
    let first = fetch(s.advance(None));
    let again = fetch(s.advance(Some(Completion::Nothing)));
    assert_eq!(first, again);
}

#[test]
fn setters_govern_requests() {
    let mut s: UpdatesStream<u8, u8> = api().stream();
    s.timeout(Duration::new(30, 250_000_000)).error_delay(Duration::from_millis(2_000));
    let req = fetch(s.advance(None));
    assert_eq!(req.long_poll_secs, 30);
    assert_eq!(req.request_timeout.as_secs(), 31);
    assert_eq!(req.request_timeout.subsec_nanos(), 250_000_000);
    match s.advance(Some(Completion::Failed("x".to_string()))) {
        Step::Report(_, delay) => assert_eq!(delay.as_secs(), 2),
        _ => panic!("expected the error"),
    }
    assert_eq!(s.current_timeout().as_secs(), 30);
}

#[test]
fn huge_timeout_wraps_like_a_signed_cast() {
    let mut s: UpdatesStream<u8, u8> = api().stream();
    s.timeout(Duration::from_secs(u64::MAX - 1));
    let req = fetch(s.advance(None));
    assert_eq!(req.long_poll_secs, -2);
    assert_eq!(req.request_timeout.as_secs(), u64::MAX);
}

#[test]
fn stream_keeps_api_handle() {
    let a = api();
    let s: UpdatesStream<u8, u8> = a.stream();
    assert_eq!(s.api_handle().token(), "token");
    assert_eq!(*s.api_handle().connector(), 1);
}

#[test]
fn run_of_batches_and_failures_loses_nothing() {
    let mut s: UpdatesStream<u8, u32> = api().stream();
    let mut handed: Vec<u32> = Vec::new();
    let _ = fetch(s.advance(None));
    let _ = s.advance::<String>(Some(Completion::Batch(vec![(1, 100), (2, 200)])));
    handed.push(s.next_buffered().unwrap());
    handed.push(s.next_buffered().unwrap());
    assert_eq!(s.next_buffered(), None);
    let _ = fetch(s.advance(None));
    let mut errors = 0;
    if let Step::Report(_, _) = s.advance(Some(Completion::Failed("e".to_string()))) {
        errors += 1;
    }
    let req = fetch(s.advance(Some(Completion::Nothing)));
    assert_eq!(req.offset, 3);
    let _ = s.advance::<String>(Some(Completion::Batch(vec![(3, 300), (5, 500), (4, 400)])));
    while let Some(u) = s.next_buffered() {
        handed.push(u);
    }
    assert_eq!(handed, vec![100, 200, 300, 500, 400]);
    assert_eq!(errors, 1);
    assert_eq!(s.last_update(), 5);
    assert_eq!(fetch(s.advance(None)).offset, 6);
}
