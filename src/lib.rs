//! Handler logic for batches of stream records: each record's payload is
//! decoded as UTF-8 and described by an ordered list of leveled log events,
//! and the batch is reported as completed with the number of records visited.
use vstd::prelude::*;

pub mod batch;
pub mod laws;
pub mod processor;
pub mod text;
pub mod utf8;

verus! {

} // verus!
