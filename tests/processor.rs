use chrono::{TimeZone, Utc};
use kinesis_lambda::batch::{Batch, Record};
use kinesis_lambda::processor::{process, record_events, BatchResult, Event, Level};

fn info(message: &str) -> Event {
    Event { level: Level::Info, message: message.to_string() }
}

fn error(message: &str) -> Event {
    Event { level: Level::Error, message: message.to_string() }
}

fn record(id: Option<&str>, data: &[u8]) -> Record {
    Record::new(
        id.map(|s| s.to_string()),
        data.to_vec(),
        "partition_key".to_string(),
        "sequence_number".to_string(),
        0,
    )
}

#[test]
fn test_process_event_with_records() {
    let arrival = Utc.with_ymd_and_hms(2017, 04, 02, 12, 50, 32).unwrap();
    let kinesis_record = Record::new(
        Some("test_event_id".to_string()),
        "Sample data".as_bytes().to_vec(),
        "partition_key".to_string(),
        "sequence_number".to_string(),
        arrival.timestamp(),
    );
    let batch = Batch::new(vec![kinesis_record]);
    let (_, result) = process(&batch);
    assert!(matches!(result, BatchResult::Completed(_)));
}

#[test]
fn test_process_event_with_empty_records() {
    let batch = Batch::new(vec![]);
    let (_, result) = process(&batch);
    assert!(matches!(result, BatchResult::Completed(_)));
}

#[test]
fn single_record_scenario() {
    let batch = Batch::new(vec![record(Some("e1"), b"Sample data")]);
    let (events, result) = process(&batch);
    assert_eq!(
        events,
        vec![
            info("EventId: e1"),
            info("Data: Sample data"),
            info("Successfully processed 1 records"),
        ]
    );
    assert_eq!(result, BatchResult::Completed(1));
}

#[test]
fn empty_batch_scenario() {
    let (events, result) = process(&Batch::new(vec![]));
    assert_eq!(events, vec![info("No records found. Exiting.")]);
    assert_eq!(result, BatchResult::Completed(0));
}

#[test]
fn well_formed_records_are_decoded_in_order() {
    let batch = Batch::new(vec![
        record(Some("a"), b"first"),
        record(Some("b"), "zweit\u{e9}".as_bytes()),
        record(Some("c"), b""),
    ]);
    let (events, result) = process(&batch);
    assert_eq!(
        events,
        vec![
            info("EventId: a"),
            info("Data: first"),
            info("EventId: b"),
            info("Data: zweit\u{e9}"),
            info("EventId: c"),
            info("Data: "),
            info("Successfully processed 3 records"),
        ]
    );
    assert_eq!(result, BatchResult::Completed(3));
}

#[test]
fn invalid_payload_is_logged_and_counted() {
    let batch = Batch::new(vec![
        record(Some("a"), b"ok"),
        record(Some("b"), &[0xFF, 0xFE]),
        record(Some("c"), b"fine"),
    ]);
    let (events, result) = process(&batch);
    assert_eq!(
        events,
        vec![
            info("EventId: a"),
            info("Data: ok"),
            info("EventId: b"),
            error("Error: invalid utf-8 sequence of 1 bytes from index 0"),
            info("EventId: c"),
            info("Data: fine"),
            info("Successfully processed 3 records"),
        ]
    );
    assert_eq!(events.iter().filter(|e| e.level == Level::Error).count(), 1);
    assert_eq!(result, BatchResult::Completed(3));
}

#[test]
fn truncated_payload_is_reported_as_incomplete() {
    let (events, result) = process(&Batch::new(vec![record(Some("t"), &[b'a', b'b', 0xE2, 0x82])]));
    assert_eq!(events[1], error("Error: incomplete utf-8 byte sequence from index 2"));
    assert_eq!(result, BatchResult::Completed(1));
}

#[test]
fn missing_identifier_is_logged_empty() {
    let (first, second) = record_events(&record(None, b"x"));
    assert_eq!(first, info("EventId: "));
    assert_eq!(second, info("Data: x"));
}

#[test]
fn reordering_records_reorders_events() {
    let a = record(Some("a"), b"alpha");
    let b = record(Some("b"), &[0xC0]);
    let (forward, _) = process(&Batch::new(vec![a.clone(), b.clone()]));
    let (backward, _) = process(&Batch::new(vec![b, a]));
    assert_eq!(forward[0..2], backward[2..4]);
    assert_eq!(forward[2..4], backward[0..2]);
    assert_eq!(forward[4], backward[4]);
}

#[test]
fn processing_twice_gives_the_same_outcome() {
    let batch = Batch::new(vec![record(Some("x"), b"one"), record(None, &[0x80, 0x41])]);
    let first = process(&batch);
    let second = process(&batch);
    assert_eq!(first, second);
}

#[test]
fn summary_counts_many_records() {
    let records: Vec<Record> = (0..12).map(|i| record(Some(&format!("id{}", i)), b"p")).collect();
    let batch = Batch::new(records);
    assert_eq!(batch.len(), 12);
    assert!(!batch.is_empty());
    let (events, result) = process(&batch);
    assert_eq!(events.len(), 25);
    assert_eq!(events[24], info("Successfully processed 12 records"));
    assert_eq!(events[22], info("EventId: id11"));
    assert_eq!(result, BatchResult::Completed(12));
}
