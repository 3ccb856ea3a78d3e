//! Tests of the monitor core: normalization, the bounded log, the channel
//! boundary, and the end-to-end consumer scenarios.

use file_monitor::channel::{event_channel, send_event, try_receive};
use file_monitor::event::{
    normalize, normalize_batch, ChangeEvent, EventKind, RawRecord, MASK_CREATE, MASK_DELETE,
};
use file_monitor::log::{EventLog, MAX_EVENTS};
use file_monitor::monitor::Monitor;
use file_monitor::watch::{confirm_registration, plan_watches, InitError};

fn event(kind: EventKind, path: &str, at: u64) -> ChangeEvent {
    ChangeEvent { kind, path: path.to_string(), observed_at: at }
}

#[test]
fn normalize_creation_flag() {
    let e = normalize(RawRecord { mask: MASK_CREATE, name: Some("a.jpg".to_string()) }, 7);
    assert_eq!(e.kind, EventKind::Created);
    assert_eq!(e.path, "a.jpg");
    assert_eq!(e.observed_at, 7);
}

#[test]
fn normalize_deletion_flag() {
    let e = normalize(RawRecord { mask: MASK_DELETE, name: Some("b.png".to_string()) }, 8);
    assert_eq!(e.kind, EventKind::Deleted);
    assert_eq!(e.path, "b.png");
}

#[test]
fn normalize_unrecognized_flags() {
    let e = normalize(RawRecord { mask: 0x2, name: Some("c.gif".to_string()) }, 9);
    assert_eq!(e.kind, EventKind::Unknown);
    let e = normalize(RawRecord { mask: 0, name: Some("d.gif".to_string()) }, 9);
    assert_eq!(e.kind, EventKind::Unknown);
}

#[test]
fn normalize_creation_wins_over_deletion() {
    let e = normalize(RawRecord { mask: MASK_CREATE | MASK_DELETE, name: None }, 1);
    assert_eq!(e.kind, EventKind::Created);
}

#[test]
fn normalize_missing_name_placeholder() {
    let e = normalize(RawRecord { mask: MASK_DELETE, name: None }, 3);
    assert_eq!(e.path, "unknown");
}

#[test]
fn normalize_batch_keeps_order_and_stamp() {
    let records = vec![
        RawRecord { mask: MASK_CREATE, name: Some("one".to_string()) },
        RawRecord { mask: MASK_DELETE, name: Some("two".to_string()) },
        RawRecord { mask: 0, name: None },
    ];
    let events = normalize_batch(records, 42);
    assert_eq!(events.len(), 3);
    assert_eq!(events[0].kind, EventKind::Created);
    assert_eq!(events[0].path, "one");
    assert_eq!(events[1].kind, EventKind::Deleted);
    assert_eq!(events[1].path, "two");
    assert_eq!(events[2].kind, EventKind::Unknown);
    assert_eq!(events[2].path, "unknown");
    assert!(events.iter().all(|e| e.observed_at == 42));
}

#[test]
fn normalize_batch_empty() {
    let events = normalize_batch(Vec::new(), 0);
    assert!(events.is_empty());
}

#[test]
fn log_starts_empty() {
    let log = EventLog::new();
    assert_eq!(log.len(), 0);
    assert!(log.is_empty());
    assert!(log.snapshot().is_empty());
}

#[test]
fn log_newest_first() {
    let mut log = EventLog::new();
    for i in 1..=5u64 {
        log.record(event(EventKind::Created, &format!("f{}", i), i));
    }
    assert_eq!(log.len(), 5);
    let snap = log.snapshot();
    for (pos, e) in snap.iter().enumerate() {
        assert_eq!(e.path, format!("f{}", 5 - pos));
    }
    assert_eq!(snap[0].path, "f5");
}

#[test]
fn log_full_but_not_over() {
    let mut log = EventLog::new();
    let batch: Vec<ChangeEvent> =
        (1..=MAX_EVENTS as u64).map(|i| event(EventKind::Created, &format!("f{}", i), i)).collect();
    log.record_batch(batch);
    assert_eq!(log.len(), MAX_EVENTS);
    let snap = log.snapshot();
    assert_eq!(snap[0].path, format!("f{}", MAX_EVENTS));
    assert_eq!(snap[MAX_EVENTS - 1].path, "f1");
}

#[test]
fn log_evicts_oldest_at_capacity() {
    let mut log = EventLog::new();
    let batch: Vec<ChangeEvent> =
        (1..=101u64).map(|i| event(EventKind::Created, &format!("e{}", i), i)).collect();
    log.record_batch(batch);
    assert_eq!(log.len(), 100);
    let snap = log.snapshot();
    // e1 was evicted: the log is [e101, e100, ..., e2].
    for (pos, e) in snap.iter().enumerate() {
        assert_eq!(e.path, format!("e{}", 101 - pos));
    }
    assert_eq!(snap[0].path, "e101");
    assert_eq!(snap[99].path, "e2");
    assert!(snap.iter().all(|e| e.path != "e1"));
}

#[test]
fn try_receive_empty_returns_immediately() {
    let (_sender, receiver) = event_channel();
    assert!(try_receive(&receiver).is_none());
}

#[test]
fn try_receive_yields_fifo_order() {
    let (sender, receiver) = event_channel();
    assert!(send_event(&sender, event(EventKind::Created, "first", 1)));
    assert!(send_event(&sender, event(EventKind::Deleted, "second", 2)));
    assert_eq!(try_receive(&receiver).unwrap().path, "first");
    assert_eq!(try_receive(&receiver).unwrap().path, "second");
    assert!(try_receive(&receiver).is_none());
}

#[test]
fn send_fails_once_consumer_dropped() {
    let (sender, receiver) = event_channel();
    drop(receiver);
    assert!(!send_event(&sender, event(EventKind::Created, "late", 1)));
}

#[test]
fn receive_after_producer_dropped_reports_empty() {
    let (sender, receiver) = event_channel();
    drop(sender);
    assert!(try_receive(&receiver).is_none());
}

#[test]
fn single_created_event_end_to_end() {
    let (sender, receiver) = event_channel();
    let mut monitor = Monitor::new(receiver);
    assert!(monitor.is_empty());
    let e = normalize(
        RawRecord { mask: MASK_CREATE, name: Some("photo.jpg".to_string()) },
        5,
    );
    assert!(send_event(&sender, e));
    monitor.drain_available();
    assert_eq!(monitor.len(), 1);
    let snap = monitor.snapshot();
    assert_eq!(snap[0].kind, EventKind::Created);
    assert_eq!(snap[0].path, "photo.jpg");
}

#[test]
fn drain_twice_without_activity_is_idempotent() {
    let (sender, receiver) = event_channel();
    let mut monitor = Monitor::new(receiver);
    for i in 1..=3u64 {
        assert!(send_event(&sender, event(EventKind::Deleted, &format!("g{}", i), i)));
    }
    monitor.drain_available();
    let before: Vec<(EventKind, String, u64)> =
        monitor.snapshot().iter().map(|e| (e.kind, e.path.clone(), e.observed_at)).collect();
    monitor.drain_available();
    let after: Vec<(EventKind, String, u64)> =
        monitor.snapshot().iter().map(|e| (e.kind, e.path.clone(), e.observed_at)).collect();
    assert_eq!(before, after);
    assert_eq!(monitor.len(), 3);
}

#[test]
fn burst_over_capacity_keeps_newest_hundred() {
    let (sender, receiver) = event_channel();
    let mut monitor = Monitor::new(receiver);
    for i in 1..=101u64 {
        assert!(send_event(&sender, event(EventKind::Created, &format!("e{}", i), i)));
    }
    monitor.drain_available();
    assert_eq!(monitor.len(), 100);
    let snap = monitor.snapshot();
    assert_eq!(snap[0].path, "e101");
    assert_eq!(snap[99].path, "e2");
}

#[test]
fn missing_root_reports_failure_and_log_stays_silent() {
    let plan = plan_watches("/nowhere/pictures".to_string(), false, Vec::new());
    assert_eq!(plan.unwrap_err(), InitError::RootMissing);
    // No producer was ever started: the consumer runs with a permanently
    // empty log, however often it drains.
    let (sender, receiver) = event_channel();
    drop(sender);
    let mut monitor = Monitor::new(receiver);
    monitor.drain_available();
    assert!(monitor.is_empty());
    monitor.drain_available();
    assert_eq!(monitor.len(), 0);
}

#[test]
fn existing_root_yields_watch_set() {
    let subdirs = vec!["album".to_string(), "raw".to_string()];
    let plan = plan_watches("/pictures".to_string(), true, subdirs);
    let ws = plan.unwrap();
    assert_eq!(ws.root, "/pictures");
    assert_eq!(ws.subdirs, vec!["album".to_string(), "raw".to_string()]);
}

#[test]
fn registration_outcomes() {
    assert!(confirm_registration(true, true).is_ok());
    assert_eq!(confirm_registration(false, true).unwrap_err(), InitError::FacilityUnavailable);
    assert_eq!(confirm_registration(false, false).unwrap_err(), InitError::FacilityUnavailable);
    assert_eq!(confirm_registration(true, false).unwrap_err(), InitError::RootWatchFailed);
}
