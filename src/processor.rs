//! Processing of one batch: the ordered log events that describe it, and
//! the result reported to the invoking runtime.
use vstd::prelude::*;
use crate::batch::{Batch, Record, RecordView};
use crate::text::{decimal, decimal_text};
use crate::utf8::{decode_payload, decoding, describe_fault, fault_text};

verus! {

/// Severity of a log event.
#[derive(Debug, Clone, Copy, PartialEq, Eq, Structural)]
pub enum Level {
    Info,
    Error,
}

/// One leveled log line.
#[derive(Debug, Clone, PartialEq, Eq)]
pub struct Event {
    pub level: Level,
    pub message: String,
}

/// The model of a log event.
pub ghost struct EventView {
    pub level: Level,
    pub message: Seq<char>,
}

impl View for Event {
    type V = EventView;

    open spec fn view(&self) -> EventView {
        EventView { level: self.level, message: self.message@ }
    }
}

/// The signal returned to the invoking runtime for one batch.
#[derive(Debug, Clone, PartialEq, Eq)]
pub enum BatchResult {
    /// Every record was visited; holds how many.
    Completed(usize),
    /// The invocation itself failed, outside the handling of records.
    Fatal(String),
}

pub open spec fn info_event(message: Seq<char>) -> EventView {
    EventView { level: Level::Info, message }
}

pub open spec fn error_event(message: Seq<char>) -> EventView {
    EventView { level: Level::Error, message }
}

pub open spec fn no_records_message() -> Seq<char> {
    "No records found. Exiting."@
}

pub open spec fn id_message(id: Seq<char>) -> Seq<char> {
    "EventId: "@ + id
}

pub open spec fn data_message(text: Seq<char>) -> Seq<char> {
    "Data: "@ + text
}

pub open spec fn error_message(fault: (int, Option<int>)) -> Seq<char> {
    "Error: "@ + fault_text(fault)
}

pub open spec fn summary_message(n: nat) -> Seq<char> {
    "Successfully processed "@ + decimal(n) + " records"@
}

/// The event that reports how a payload decoded.
pub open spec fn outcome_event(data: Seq<u8>) -> EventView {
    match decoding(data) {
        Ok(text) => info_event(data_message(text)),
        Err(fault) => error_event(error_message(fault)),
    }
}

/// The two events of a record: its identifier (`part == 0`), then the
/// outcome of decoding its payload.
pub open spec fn record_event(r: RecordView, part: int) -> EventView {
    if part == 0 {
        info_event(id_message(r.id_text()))
    } else {
        outcome_event(r.data)
    }
}

/// The events of the records, two per record, in record order.
pub open spec fn records_events(rs: Seq<RecordView>) -> Seq<EventView> {
    Seq::new(2 * rs.len(), |i: int| record_event(rs[i / 2], i % 2))
}

/// Everything logged for a batch.
pub open spec fn batch_events(rs: Seq<RecordView>) -> Seq<EventView> {
    if rs.len() == 0 {
        seq![info_event(no_records_message())]
    } else {
        records_events(rs).push(info_event(summary_message(rs.len())))
    }
}

pub open spec fn events_view(events: Seq<Event>) -> Seq<EventView> {
    events.map_values(|e: Event| e@)
}

/// The events that describe one record: its identifier, then its decoded
/// payload or why the payload could not be decoded.
pub fn record_events(record: &Record) -> (r: (Event, Event))
    ensures
        r.0@ == record_event(record@, 0),
        r.1@ == record_event(record@, 1),
{
    let id = match &record.event_id {
        Some(s) => s.as_str(),
        None => "",
    };
    proof {
        reveal_strlit("");
    }
    let first = Event {
        level: Level::Info,
        message: String::from_str("EventId: ").concat(id),
    };
    let second = match decode_payload(record.data.as_slice()) {
        Ok(text) => Event {
            level: Level::Info,
            message: String::from_str("Data: ").concat(text.as_str()),
        },
        Err(fault) => Event {
            level: Level::Error,
            message: String::from_str("Error: ").concat(describe_fault(&fault).as_str()),
        },
    };
    assert(first@.message =~= id_message(record@.id_text()));
    (first, second)
}

/// Handles a batch: logs each record's identifier and the outcome of
/// decoding its payload, in record order, then a summary. A payload that is
/// not UTF-8 is logged as an error and still counted; the batch always
/// completes.
pub fn process(batch: &Batch) -> (r: (Vec<Event>, BatchResult))
    ensures
        events_view(r.0@) == batch_events(batch@),
        r.1 == BatchResult::Completed(batch@.len() as usize),
{
    let mut events: Vec<Event> = Vec::new();
    let n = batch.records.len();
    if n == 0 {
        events.push(Event { level: Level::Info, message: String::from_str("No records found. Exiting.") });
        assert(events_view(events@) =~= batch_events(batch@));
        return (events, BatchResult::Completed(0));
    }
    let mut i: usize = 0;
    while i < n
        invariant
            n == batch.records.len(),
            i <= n,
            events@.len() == 2 * i,
            forall|j: int| 0 <= j < 2 * i ==> #[trigger] events@[j]@ == record_event(batch@[j / 2], j % 2),
        decreases n - i,
    {
        let (first, second) = record_events(&batch.records[i]);
        events.push(first);
        events.push(second);
        i = i + 1;
    }
    let summary = String::from_str("Successfully processed ").concat(decimal_text(n).as_str()).concat(" records");
    events.push(Event { level: Level::Info, message: summary });
    assert(events_view(events@) =~= batch_events(batch@));
    (events, BatchResult::Completed(n))
}

} // verus!
