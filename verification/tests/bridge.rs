use std::cell::Cell;

use steam_inventory::bridge::{
    timeout_ms, Bridge, CompletionEvent, Conclusion, Phase, Signal, DEFAULT_TIMEOUT_MS,
};
use steam_inventory::error::{ErrorKind, HostError, Message, PlatformError, Status};
use steam_inventory::item::{project_items, PlatformItem};

fn ok(handle: i32) -> CompletionEvent {
    CompletionEvent { handle, outcome: Ok(()) }
}

fn failed(handle: i32, e: PlatformError) -> CompletionEvent {
    CompletionEvent { handle, outcome: Err(e) }
}

fn items_of(handle: i32) -> Vec<PlatformItem> {
    vec![
        PlatformItem { item_id: 1000 + handle as u64, definition: handle, quantity: 1, flags: 0 },
        PlatformItem { item_id: 2000 + handle as u64, definition: handle, quantity: 2, flags: 1 },
    ]
}

#[test]
fn default_timeout_is_ten_seconds() {
    assert_eq!(DEFAULT_TIMEOUT_MS, 10_000);
    assert_eq!(timeout_ms(None), 10_000);
    assert_eq!(timeout_ms(Some(250)), 250);
    assert_eq!(timeout_ms(Some(0)), 0);
}

#[test]
fn a_rejected_request_fails_at_once() {
    for e in [
        PlatformError::OperationFailed,
        PlatformError::GetResultItemsFailed,
        PlatformError::InvalidInput,
    ] {
        let err = Bridge::begin(Err(e)).unwrap_err();
        assert_eq!(err.kind, ErrorKind::OperationFailed);
        assert_eq!(err.status(), Status::GenericFailure);
    }
}

#[test]
fn a_foreign_event_is_ignored_and_the_matching_one_resolves() {
    let mut bridge = Bridge::begin(Ok(42)).unwrap();
    assert_eq!(bridge, Bridge { expected: 42, phase: Phase::Pending });

    assert!(!bridge.deliver(ok(7)));
    assert_eq!(bridge.phase, Phase::Pending);

    assert!(bridge.deliver(ok(42)));
    assert_eq!(bridge.phase, Phase::Resolved(Ok(())));

    let conclusion = bridge.finish_wait();
    assert_eq!(conclusion, Conclusion::Fetch(42));
    assert!(conclusion.releases_listener());
    assert_eq!(bridge.phase, Phase::Retired);

    let asked = Cell::new(0);
    let items = conclusion
        .complete(|h| {
            asked.set(h);
            Ok(items_of(h))
        })
        .unwrap()
        .unwrap();
    assert_eq!(asked.get(), 42);
    assert_eq!(items, project_items(&items_of(42)));
}

#[test]
fn only_the_first_matching_event_counts() {
    let mut bridge = Bridge::begin(Ok(5)).unwrap();
    assert!(bridge.deliver(failed(5, PlatformError::InvalidInput)));
    assert!(!bridge.deliver(ok(5)));
    assert_eq!(bridge.phase, Phase::Resolved(Err(PlatformError::InvalidInput)));

    let mut other = Bridge::begin(Ok(5)).unwrap();
    assert!(other.deliver(ok(5)));
    assert!(!other.deliver(failed(5, PlatformError::OperationFailed)));
    assert_eq!(other.finish_wait(), Conclusion::Fetch(5));
}

#[test]
fn a_failed_completion_becomes_operation_failed() {
    for e in [
        PlatformError::OperationFailed,
        PlatformError::GetResultItemsFailed,
        PlatformError::InvalidInput,
    ] {
        let mut bridge = Bridge::begin(Ok(9)).unwrap();
        assert!(bridge.deliver(failed(9, e)));
        let conclusion = bridge.finish_wait();
        assert_eq!(
            conclusion,
            Conclusion::Fail(HostError {
                kind: ErrorKind::OperationFailed,
                message: Message::OperationIncomplete
            })
        );
        assert!(conclusion.releases_listener());
        let called = Cell::new(false);
        let res = conclusion.complete(|_| {
            called.set(true);
            Ok(Vec::new())
        });
        assert_eq!(res.unwrap().unwrap_err().kind, ErrorKind::OperationFailed);
        assert!(!called.get());
    }
}

#[test]
fn a_wait_without_a_match_times_out() {
    let mut bridge = Bridge::begin(Ok(42)).unwrap();
    assert!(!bridge.deliver_all(&vec![ok(1), failed(2, PlatformError::OperationFailed), ok(41)]));
    let conclusion = bridge.finish_wait();
    assert_eq!(
        conclusion,
        Conclusion::Fail(HostError { kind: ErrorKind::Timeout, message: Message::TimedOut })
    );
    assert!(conclusion.releases_listener());
    match conclusion {
        Conclusion::Fail(e) => {
            assert_eq!(e.status(), Status::GenericFailure);
            assert_eq!(e.text(), "Timed out waiting for the inventory result");
        }
        _ => panic!("a timeout is a failure"),
    }
    assert_eq!(bridge.phase, Phase::Retired);
}

#[test]
fn late_events_after_retirement_change_nothing() {
    let mut bridge = Bridge::begin(Ok(42)).unwrap();
    bridge.finish_wait();
    assert!(!bridge.deliver(ok(42)));
    assert!(!bridge.deliver(failed(42, PlatformError::OperationFailed)));
    assert!(!bridge.deliver_all(&vec![ok(42), ok(7)]));
    assert_eq!(bridge, Bridge { expected: 42, phase: Phase::Retired });
    let again = bridge.finish_wait();
    assert_eq!(again, Conclusion::Spent);
    assert!(!again.releases_listener());
    assert_eq!(again.complete(|h| Ok(items_of(h))), None);
}

#[test]
fn the_listener_is_released_once_on_every_path() {
    // one list of events per path: completion, timeout, reported failure
    let paths = vec![
        vec![ok(3), ok(42), ok(42)],
        vec![ok(3)],
        vec![failed(42, PlatformError::OperationFailed)],
    ];
    for events in paths {
        let mut subscribed = 0;
        let mut released = 0;
        let mut bridge = Bridge::begin(Ok(42)).unwrap();
        subscribed += 1;
        bridge.deliver_all(&events);
        for _ in 0..3 {
            if bridge.finish_wait().releases_listener() {
                released += 1;
            }
            bridge.deliver(ok(42));
        }
        assert_eq!(subscribed, 1);
        assert_eq!(released, 1);
    }
    // a request that is rejected never subscribes, so there is nothing to release
    assert!(Bridge::begin(Err(PlatformError::OperationFailed)).is_err());
}

#[test]
fn concurrent_calls_receive_only_their_own_items() {
    let mut first = Bridge::begin(Ok(10)).unwrap();
    let mut second = Bridge::begin(Ok(20)).unwrap();
    let stream = vec![ok(20), ok(30), ok(10), ok(20)];
    for event in stream.iter() {
        let a = first.deliver(*event);
        let b = second.deliver(*event);
        assert!(!(a && b));
    }
    let a = first.finish_wait();
    let b = second.finish_wait();
    assert_eq!(a, Conclusion::Fetch(10));
    assert_eq!(b, Conclusion::Fetch(20));
    let items_a = a.complete(|h| Ok(items_of(h))).unwrap().unwrap();
    let items_b = b.complete(|h| Ok(items_of(h))).unwrap().unwrap();
    assert_eq!(items_a, project_items(&items_of(10)));
    assert_eq!(items_b, project_items(&items_of(20)));
    assert_ne!(items_a, items_b);
}

#[test]
fn events_of_other_requests_can_be_left_out() {
    let stream = vec![ok(1), failed(8, PlatformError::InvalidInput), ok(2), ok(8), ok(1)];
    let own: Vec<CompletionEvent> = stream.iter().copied().filter(|e| e.handle == 8).collect();
    let mut whole = Bridge::begin(Ok(8)).unwrap();
    let mut filtered = Bridge::begin(Ok(8)).unwrap();
    assert!(whole.deliver_all(&stream));
    assert!(filtered.deliver_all(&own));
    assert_eq!(whole, filtered);
    assert_eq!(whole.phase, Phase::Resolved(Err(PlatformError::InvalidInput)));
}

#[test]
fn a_failed_fetch_is_translated() {
    let mut bridge = Bridge::begin(Ok(4)).unwrap();
    bridge.deliver(ok(4));
    let res = bridge.finish_wait().complete(|_| Err(PlatformError::GetResultItemsFailed));
    let err = res.unwrap().unwrap_err();
    assert_eq!(err, HostError { kind: ErrorKind::FetchFailed, message: Message::ItemsUnavailable });
}

#[test]
fn a_batch_equals_its_events_one_by_one() {
    let stream = vec![ok(2), ok(6), failed(6, PlatformError::OperationFailed)];
    let mut batch = Bridge::begin(Ok(6)).unwrap();
    let mut single = Bridge::begin(Ok(6)).unwrap();
    let resolved = batch.deliver_all(&stream);
    let mut any = false;
    for e in stream.iter() {
        any = single.deliver(*e) || any;
    }
    assert_eq!(resolved, any);
    assert!(resolved);
    assert_eq!(batch, single);
    assert!(!batch.deliver_all(&Vec::new()));
}

#[test]
fn signals_from_one_queue_deliver_once_and_conclude_once() {
    let signals = vec![
        Signal::Completion(ok(1)),
        Signal::Completion(ok(3)),
        Signal::Completion(failed(3, PlatformError::OperationFailed)),
        Signal::WaitOver,
        Signal::Completion(ok(3)),
        Signal::WaitOver,
    ];
    let mut bridge = Bridge::begin(Ok(3)).unwrap();
    let mut deliveries = 0;
    let mut conclusions = Vec::new();
    for signal in signals {
        let before = bridge;
        match bridge.on_signal(signal) {
            Some(conclusion) => conclusions.push(conclusion),
            None => {
                if before.phase == Phase::Pending && bridge.phase != Phase::Pending {
                    deliveries += 1;
                }
            }
        }
        assert_eq!(bridge.expected, 3);
    }
    assert_eq!(deliveries, 1);
    assert_eq!(conclusions, vec![Conclusion::Fetch(3), Conclusion::Spent]);
    assert_eq!(conclusions.iter().filter(|c| c.releases_listener()).count(), 1);
}
