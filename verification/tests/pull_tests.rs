use nats_labs::config::{AppConfig, ConfigError, NatsConfig, RecvConfig, RuntimeConfig};
use nats_labs::pull::{
    message_limit, plan_pull, FatalError, PullAction, PullEvent, PullLoop, PullPlan, PullState,
};
use nats_labs::resolve::{NameField, ResolutionError};
use nats_labs::setup::SetupError;
use std::collections::VecDeque;

fn config(url: Option<&str>, stream: Option<&str>, consumer: Option<&str>) -> AppConfig {
    AppConfig {
        runtime: RuntimeConfig { mode: None },
        nats: NatsConfig {
            url: url.map(str::to_string),
            subject: None,
            queue: None,
            stream: stream.map(str::to_string),
            consumer: consumer.map(str::to_string),
        },
        recv: RecvConfig { wait_secs: Some(5) },
    }
}

fn missing(field: NameField) -> SetupError {
    SetupError::Resolution(ResolutionError::MissingRequiredName { field })
}

#[test]
fn zero_means_no_limit() {
    assert_eq!(message_limit(0), None);
    assert_eq!(message_limit(1), Some(1));
    assert_eq!(message_limit(u64::MAX), Some(u64::MAX));
}

#[test]
fn pull_plan_settles_url_stream_consumer() {
    assert_eq!(
        plan_pull(&config(Some("u"), Some("ST"), Some("c")), &None, &None, 3),
        Ok(PullPlan {
            url: "u".to_string(),
            stream: "ST".to_string(),
            consumer: "c".to_string(),
            limit: Some(3),
        })
    );
    assert_eq!(
        plan_pull(&config(Some("u"), Some("ST"), Some("c")), &Some("S2".to_string()), &Some("c2".to_string()), 0),
        Ok(PullPlan {
            url: "u".to_string(),
            stream: "S2".to_string(),
            consumer: "c2".to_string(),
            limit: None,
        })
    );
    assert_eq!(
        plan_pull(&config(None, None, None), &None, &None, 0),
        Err(SetupError::Config(ConfigError::MissingUrl))
    );
    assert_eq!(plan_pull(&config(Some("u"), None, None), &None, &None, 0), Err(missing(NameField::Stream)));
    assert_eq!(
        plan_pull(&config(Some("u"), Some("ST"), None), &None, &None, 0),
        Err(missing(NameField::Consumer))
    );
}

#[test]
fn fresh_loop_is_idle() {
    let l = PullLoop::new(Some(3));
    assert_eq!(l, PullLoop { state: PullState::Idle, processed: 0, limit: Some(3) });
    assert_eq!(l.step(PullEvent::Start), (PullLoop { state: PullState::Fetching, ..l }, PullAction::Fetch));
}

#[test]
fn one_round_fetches_processes_acks() {
    let (l, _) = PullLoop::new(None).step(PullEvent::Start);
    let (l, a) = l.step(PullEvent::Fetched(b"m1".to_vec()));
    assert_eq!(l.state, PullState::Processing);
    assert_eq!(a, PullAction::Process(b"m1".to_vec()));
    assert_eq!(l.processed, 0);
    let (l, a) = l.step(PullEvent::Processed);
    assert_eq!((l.state, a), (PullState::Acking, PullAction::Ack));
    assert_eq!(l.processed, 0);
    let (l, a) = l.step(PullEvent::Acked);
    assert_eq!((l.state, a), (PullState::Fetching, PullAction::Fetch));
    assert_eq!(l.processed, 1);
}

#[test]
fn fetch_failure_stops_without_error() {
    let l = PullLoop { state: PullState::Fetching, processed: 4, limit: None };
    let (l, a) = l.step(PullEvent::FetchFailed("timeout".to_string()));
    assert_eq!(l, PullLoop { state: PullState::Stopped, processed: 4, limit: None });
    assert_eq!(a, PullAction::StopOnFetchError { processed: 4, detail: "timeout".to_string() });
}

#[test]
fn closed_stream_stops_in_order() {
    let l = PullLoop { state: PullState::Fetching, processed: 2, limit: Some(9) };
    let (l, a) = l.step(PullEvent::Closed);
    assert_eq!(l.state, PullState::Stopped);
    assert_eq!(a, PullAction::Finish { processed: 2 });
}

#[test]
fn ack_failure_is_fatal_and_does_not_count() {
    let l = PullLoop { state: PullState::Acking, processed: 2, limit: Some(9) };
    let (l, a) = l.step(PullEvent::AckFailed("nak".to_string()));
    assert_eq!(l, PullLoop { state: PullState::Stopped, processed: 2, limit: Some(9) });
    assert_eq!(a, PullAction::Fail(FatalError { processed: 2, detail: "nak".to_string() }));
}

#[test]
fn loop_stops_after_the_ack_that_reaches_the_limit() {
    let l = PullLoop { state: PullState::Acking, processed: 2, limit: Some(3) };
    let (l, a) = l.step(PullEvent::Acked);
    assert_eq!(l, PullLoop { state: PullState::Stopped, processed: 3, limit: Some(3) });
    assert_eq!(a, PullAction::Finish { processed: 3 });
}

#[test]
fn zero_limit_never_stops_the_loop() {
    let l = PullLoop { state: PullState::Acking, processed: 41, limit: Some(0) };
    let (l, a) = l.step(PullEvent::Acked);
    assert_eq!(l, PullLoop { state: PullState::Fetching, processed: 42, limit: Some(0) });
    assert_eq!(a, PullAction::Fetch);
}

#[test]
fn events_out_of_turn_are_rejected() {
    let idle = PullLoop::new(None);
    assert_eq!(idle.step(PullEvent::Acked), (idle, PullAction::Rejected));
    assert_eq!(idle.step(PullEvent::Fetched(vec![1])), (idle, PullAction::Rejected));
    let fetching = PullLoop { state: PullState::Fetching, processed: 0, limit: None };
    assert_eq!(fetching.step(PullEvent::Start), (fetching, PullAction::Rejected));
    assert_eq!(fetching.step(PullEvent::Processed), (fetching, PullAction::Rejected));
    let processing = PullLoop { state: PullState::Processing, processed: 0, limit: None };
    assert_eq!(processing.step(PullEvent::Acked), (processing, PullAction::Rejected));
    let acking = PullLoop { state: PullState::Acking, processed: 0, limit: None };
    assert_eq!(acking.step(PullEvent::Closed), (acking, PullAction::Rejected));
    let stopped = PullLoop { state: PullState::Stopped, processed: 3, limit: Some(3) };
    assert_eq!(stopped.step(PullEvent::Start), (stopped, PullAction::Rejected));
    assert_eq!(stopped.step(PullEvent::Fetched(vec![])), (stopped, PullAction::Rejected));
}

/// Drives the loop against a stored stream, every fetch and ack succeeding.
/// Returns the number of messages acknowledged.
fn run(stream: &mut VecDeque<Vec<u8>>, limit: Option<u64>) -> (PullLoop, u64) {
    let mut acked: u64 = 0;
    let (mut l, mut action) = PullLoop::new(limit).step(PullEvent::Start);
    loop {
        let event = match action {
            PullAction::Fetch => match stream.pop_front() {
                Some(m) => PullEvent::Fetched(m),
                None => PullEvent::Closed,
            },
            PullAction::Process(_) => PullEvent::Processed,
            PullAction::Ack => {
                acked += 1;
                PullEvent::Acked
            }
            PullAction::Finish { processed } => {
                assert_eq!(processed, acked);
                return (l, acked);
            }
            other => panic!("unexpected action {:?}", other),
        };
        let next = l.step(event);
        l = next.0;
        action = next.1;
    }
}

#[test]
fn limit_three_of_five_leaves_two_for_the_next_run() {
    let mut stream: VecDeque<Vec<u8>> =
        vec![b"1".to_vec(), b"2".to_vec(), b"3".to_vec(), b"4".to_vec(), b"5".to_vec()].into();
    let (l, acked) = run(&mut stream, Some(3));
    assert_eq!(acked, 3);
    assert_eq!(l, PullLoop { state: PullState::Stopped, processed: 3, limit: Some(3) });
    assert_eq!(stream.len(), 2);
    assert_eq!(stream[0], b"4".to_vec());
    let (l, acked) = run(&mut stream, Some(3));
    assert_eq!(acked, 2);
    assert_eq!(l.processed, 2);
    assert_eq!(stream.len(), 0);
}

#[test]
fn without_limit_the_loop_takes_everything() {
    let mut stream: VecDeque<Vec<u8>> = vec![b"1".to_vec(), b"2".to_vec(), b"3".to_vec()].into();
    let (l, acked) = run(&mut stream, message_limit(0));
    assert_eq!(acked, 3);
    assert_eq!(l.processed, 3);
    assert!(stream.is_empty());
}
