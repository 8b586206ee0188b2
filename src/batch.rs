//! The records that one invocation receives from the stream.
use vstd::prelude::*;

verus! {

/// One entry of the stream.
#[derive(Debug, Clone)]
pub struct Record {
    /// Identifier of the event that carried the record, if any.
    pub event_id: Option<String>,
    /// Raw payload; not assumed to be text.
    pub data: Vec<u8>,
    /// Key that chose the record's shard.
    pub partition_key: String,
    /// Position of the record within its shard.
    pub sequence_number: String,
    /// Arrival time, in seconds since the Unix epoch.
    pub arrival_seconds: i64,
}

/// The model of a record.
pub ghost struct RecordView {
    pub event_id: Option<Seq<char>>,
    pub data: Seq<u8>,
    pub partition_key: Seq<char>,
    pub sequence_number: Seq<char>,
    pub arrival_seconds: int,
}

impl View for Record {
    type V = RecordView;

    open spec fn view(&self) -> RecordView {
        RecordView {
            event_id: match self.event_id {
                Some(s) => Some(s@),
                None => None,
            },
            data: self.data@,
            partition_key: self.partition_key@,
            sequence_number: self.sequence_number@,
            arrival_seconds: self.arrival_seconds as int,
        }
    }
}

impl RecordView {
    /// The identifier as logged: empty where the record has none.
    pub open spec fn id_text(self) -> Seq<char> {
        match self.event_id {
            Some(s) => s,
            None => Seq::empty(),
        }
    }
}

/// The records of one invocation, in stream order.
#[derive(Debug, Clone)]
pub struct Batch {
    pub records: Vec<Record>,
}

impl View for Batch {
    type V = Seq<RecordView>;

    open spec fn view(&self) -> Seq<RecordView> {
        self.records@.map_values(|r: Record| r@)
    }
}

impl Record {
    /// A record with the given identifier and payload, and the given
    /// position in the stream.
    pub fn new(
        event_id: Option<String>,
        data: Vec<u8>,
        partition_key: String,
        sequence_number: String,
        arrival_seconds: i64,
    ) -> (r: Record)
        ensures
            r.event_id == event_id,
            r.data == data,
            r.partition_key == partition_key,
            r.sequence_number == sequence_number,
            r.arrival_seconds == arrival_seconds,
    {
        Record { event_id, data, partition_key, sequence_number, arrival_seconds }
    }
}

impl Batch {
    /// A batch of the given records, in the given order.
    pub fn new(records: Vec<Record>) -> (r: Batch)
        ensures
            r.records == records,
    {
        Batch { records }
    }

    /// The number of records.
    pub fn len(&self) -> (r: usize)
        ensures
            r == self@.len(),
    {
        self.records.len()
    }

    /// Whether the batch holds no record.
    pub fn is_empty(&self) -> (r: bool)
        ensures
            r == (self@.len() == 0),
    {
        self.records.len() == 0
    }
}

} // verus!
