//! Properties of the events logged for a batch.
use vstd::prelude::*;
use vstd::utf8::{valid_utf8, decode_utf8};
use crate::batch::RecordView;
use crate::processor::{
    BatchResult, EventView, Level, batch_events, data_message, id_message, info_event, no_records_message,
    record_event,
};

verus! {

/// An empty batch logs a single informational "no records" event and
/// nothing else.
pub proof fn lemma_empty_batch()
    ensures
        batch_events(Seq::<RecordView>::empty()) == seq![info_event(no_records_message())],
{
}

/// The events follow the records: record `i` gives events `2i` (its
/// identifier) and `2i + 1` (its payload), and one summary closes a
/// non-empty batch.
pub proof fn lemma_events_in_record_order(rs: Seq<RecordView>)
    requires
        rs.len() > 0,
    ensures
        batch_events(rs).len() == 2 * rs.len() + 1,
        forall|i: int| 0 <= i < rs.len() ==> {
            &&& #[trigger] batch_events(rs)[2 * i] == record_event(rs[i], 0)
            &&& batch_events(rs)[2 * i + 1] == record_event(rs[i], 1)
        },
{
    assert forall|i: int| 0 <= i < rs.len() implies {
        &&& #[trigger] batch_events(rs)[2 * i] == record_event(rs[i], 0)
        &&& batch_events(rs)[2 * i + 1] == record_event(rs[i], 1)
    } by {
        assert((2 * i) / 2 == i && (2 * i) % 2 == 0);
        assert((2 * i + 1) / 2 == i && (2 * i + 1) % 2 == 1);
    }
}

/// Where every payload is valid UTF-8, each record's decoded text is logged
/// in record order and no event is an error.
pub proof fn lemma_well_formed_batch(rs: Seq<RecordView>)
    requires
        forall|i: int| 0 <= i < rs.len() ==> valid_utf8(#[trigger] rs[i].data),
    ensures
        forall|i: int|
            0 <= i < rs.len() ==> #[trigger] batch_events(rs)[2 * i + 1] == info_event(
                data_message(decode_utf8(rs[i].data)),
            ),
        forall|j: int| 0 <= j < batch_events(rs).len() ==> #[trigger] batch_events(rs)[j].level
            == Level::Info,
{
    if rs.len() > 0 {
        lemma_events_in_record_order(rs);
        assert forall|j: int| 0 <= j < batch_events(rs).len() implies #[trigger] batch_events(
            rs,
        )[j].level == Level::Info by {
            if j < 2 * rs.len() {
                assert(valid_utf8(rs[j / 2].data));
            }
        }
    }
}

/// Where exactly the payload of record `k` is not valid UTF-8, record `k`'s
/// identifier is still logged, then one error for its payload, and every
/// other event is informational.
pub proof fn lemma_single_bad_record(rs: Seq<RecordView>, k: int)
    requires
        0 <= k < rs.len(),
        !valid_utf8(rs[k].data),
        forall|i: int| 0 <= i < rs.len() && i != k ==> valid_utf8(#[trigger] rs[i].data),
    ensures
        batch_events(rs)[2 * k] == info_event(id_message(rs[k].id_text())),
        batch_events(rs)[2 * k + 1].level == Level::Error,
        forall|j: int|
            0 <= j < batch_events(rs).len() && j != 2 * k + 1 ==> #[trigger] batch_events(
                rs,
            )[j].level == Level::Info,
{
    lemma_events_in_record_order(rs);
    assert forall|j: int| 0 <= j < batch_events(rs).len() && j != 2 * k + 1 implies #[trigger] batch_events(
        rs,
    )[j].level == Level::Info by {
        if j < 2 * rs.len() && j % 2 == 1 {
            assert(j / 2 != k);
            assert(valid_utf8(rs[j / 2].data));
        }
    }
}

/// Reordering the records reorders their identifier and payload events in
/// the same way: where record `i` of `moved` is record `perm[i]` of `rs`,
/// its events are those of record `perm[i]`.
pub proof fn lemma_reordered_batch(rs: Seq<RecordView>, moved: Seq<RecordView>, perm: Seq<int>)
    requires
        rs.len() > 0,
        moved.len() == rs.len(),
        perm.len() == rs.len(),
        forall|i: int| 0 <= i < perm.len() ==> 0 <= #[trigger] perm[i] < rs.len(),
        forall|i: int, j: int| 0 <= i < j < perm.len() ==> perm[i] != perm[j],
        forall|i: int| 0 <= i < moved.len() ==> #[trigger] moved[i] == rs[perm[i]],
    ensures
        forall|i: int|
            0 <= i < moved.len() ==> {
                &&& #[trigger] batch_events(moved)[2 * i] == batch_events(rs)[2 * perm[i]]
                &&& batch_events(moved)[2 * i + 1] == batch_events(rs)[2 * perm[i] + 1]
            },
{
    lemma_events_in_record_order(rs);
    lemma_events_in_record_order(moved);
    assert forall|i: int| 0 <= i < moved.len() implies {
        &&& #[trigger] batch_events(moved)[2 * i] == batch_events(rs)[2 * perm[i]]
        &&& batch_events(moved)[2 * i + 1] == batch_events(rs)[2 * perm[i] + 1]
    } by {
        assert(moved[i] == rs[perm[i]]);
        assert(batch_events(rs)[2 * perm[i]] == record_event(rs[perm[i]], 0));
        assert(batch_events(rs)[2 * perm[i] + 1] == record_event(rs[perm[i]], 1));
    }
}

/// What a batch produces is fixed by its records alone: two outcomes that
/// both meet the contract of processing the same records are equal.
pub proof fn lemma_processing_is_repeatable(
    rs: Seq<RecordView>,
    first: (Seq<EventView>, BatchResult),
    second: (Seq<EventView>, BatchResult),
)
    requires
        first.0 == batch_events(rs),
        first.1 == BatchResult::Completed(rs.len() as usize),
        second.0 == batch_events(rs),
        second.1 == BatchResult::Completed(rs.len() as usize),
    ensures
        first == second,
{
}

} // verus!
