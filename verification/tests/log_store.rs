use nanobot_desktop::kind::{ProcessKind, StreamKind};
use nanobot_desktop::log_store::{LogEntry, LogStore, MAX_LOG_LINES};

fn entry(n: usize) -> LogEntry {
    LogEntry::new(ProcessKind::Agent, StreamKind::Stdout, format!("line {n}"))
}

#[test]
fn store_starts_empty_and_silent() {
    let store = LogStore::new(3);
    assert!(store.is_empty());
    assert_eq!(store.len(), 0);
    assert_eq!(store.capacity(), 3);
    assert!(!store.streaming_enabled());
    assert_eq!(store.snapshot(), Vec::<LogEntry>::new());
}

#[test]
fn append_keeps_insertion_order() {
    let mut store = LogStore::new(5);
    for n in 0..4 {
        store.append(entry(n));
    }
    assert_eq!(store.snapshot(), vec![entry(0), entry(1), entry(2), entry(3)]);
}

#[test]
fn one_entry_too_many_evicts_the_oldest() {
    let capacity = 7;
    let mut store = LogStore::new(capacity);
    for n in 1..=capacity + 1 {
        store.append(entry(n));
    }
    let expected: Vec<LogEntry> = (2..=capacity + 1).map(entry).collect();
    assert_eq!(store.len(), capacity);
    assert_eq!(store.snapshot(), expected);
}

#[test]
fn history_never_exceeds_its_capacity() {
    let mut store = LogStore::new(MAX_LOG_LINES);
    for n in 0..3 * MAX_LOG_LINES + 17 {
        store.append(entry(n));
        assert!(store.len() <= MAX_LOG_LINES);
    }
    let kept = store.snapshot();
    assert_eq!(kept.len(), MAX_LOG_LINES);
    assert_eq!(kept[0], entry(2 * MAX_LOG_LINES + 17));
    assert_eq!(kept[MAX_LOG_LINES - 1], entry(3 * MAX_LOG_LINES + 16));
}

#[test]
fn a_history_without_room_keeps_nothing() {
    let mut store = LogStore::new(0);
    store.append(entry(1));
    assert!(store.is_empty());
}

#[test]
fn append_reports_the_streaming_flag() {
    let mut store = LogStore::new(2);
    assert!(!store.append(entry(1)));
    store.set_streaming(true);
    assert!(store.streaming_enabled());
    assert!(store.append(entry(2)));
    store.set_streaming(false);
    assert!(!store.append(entry(3)));
    assert_eq!(store.snapshot(), vec![entry(2), entry(3)]);
}

#[test]
fn the_streaming_flag_does_not_touch_the_history() {
    let mut store = LogStore::new(4);
    store.append(entry(1));
    store.append(entry(2));
    store.set_streaming(true);
    assert_eq!(store.snapshot(), vec![entry(1), entry(2)]);
    assert_eq!(store.capacity(), 4);
}

#[test]
fn a_snapshot_is_a_copy() {
    let mut store = LogStore::new(4);
    store.append(entry(1));
    let before = store.snapshot();
    store.append(entry(2));
    assert_eq!(before, vec![entry(1)]);
    assert_eq!(store.snapshot(), vec![entry(1), entry(2)]);
}
