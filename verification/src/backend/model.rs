//! The event: the one record type that the log and the snapshot store share.

use vstd::prelude::*;

verus! {

/// An immutable fact about one aggregate, or a snapshot of the aggregate's
/// state, depending on the table it is stored in.
#[derive(Debug)]
pub struct Event {
    /// The aggregate's UUID as a 128-bit number.
    pub id: u128,
    /// The position in the aggregate's history, counted from 1.
    pub version: u32,
    /// The payload. The store never looks inside it.
    pub data: Vec<u8>,
}

/// What an `Event` stands for in contracts.
pub struct Record {
    pub id: u128,
    pub version: u32,
    pub payload: Seq<u8>,
}

impl View for Event {
    type V = Record;

    open spec fn view(&self) -> Record {
        Record { id: self.id, version: self.version, payload: self.data@ }
    }
}

} // verus!
