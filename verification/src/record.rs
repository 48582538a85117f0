use vstd::prelude::*;

verus! {

/// Bytes of the header that the ledger runtime puts in front of a stored
/// record.
pub const HEADER_LEN: usize = 8;

/// Bytes that the record itself takes in storage.
pub const INIT_SPACE: usize = 1;

/// Bytes of storage that a slot needs for one record: the header, then the
/// count.
pub const SLOT_SPACE: usize = HEADER_LEN + INIT_SPACE;

/// The counter record: one count between 0 and 255.
#[derive(Clone, Copy, Debug, PartialEq, Eq)]
pub struct CompressedBlink {
    count: u8,
}

impl View for CompressedBlink {
    type V = nat;

    closed spec fn view(&self) -> nat {
        self.count as nat
    }
}

impl CompressedBlink {
    /// The record as allocation leaves it: counting zero.
    pub fn new() -> (record: CompressedBlink)
        ensures
            record@ == 0,
    {
        CompressedBlink { count: 0 }
    }

    /// The record with the given count.
    pub fn with_count(count: u8) -> (record: CompressedBlink)
        ensures
            record@ == count,
    {
        CompressedBlink { count }
    }

    /// The record's count.
    pub fn count(&self) -> (count: u8)
        ensures
            count == self@,
    {
        self.count
    }

    /// A count never leaves the range of one byte.
    pub proof fn lemma_count_in_range(self)
        ensures
            self@ <= 255,
    {
    }

    /// A record is determined by its count.
    pub proof fn lemma_same_count_same_record(self, other: CompressedBlink)
        requires
            self@ == other@,
        ensures
            self == other,
    {
    }
}

} // verus!
