use crate::model::Holding;
use crate::party::PartyKey;
use crate::record::CompressedBlink;
use vstd::prelude::*;

verus! {

/// A storage slot of the ledger: empty, or holding one record together with
/// what the ledger keeps beside it.
#[derive(Clone, Copy, Debug, PartialEq, Eq)]
pub enum Slot {
    /// No record is stored at this address.
    Absent,
    /// A record is stored at this address.
    Present {
        /// The record.
        record: CompressedBlink,
        /// The key of the party that funded the slot.
        requester: PartyKey,
        /// The credit that is locked in the slot.
        credit: u64,
    },
}

impl View for Slot {
    type V = Option<Holding>;

    open spec fn view(&self) -> Option<Holding> {
        match *self {
            Slot::Absent => None,
            Slot::Present { record, requester, credit } => Some(
                Holding { count: record@, requester: requester@, credit: credit as nat },
            ),
        }
    }
}

impl Slot {
    /// Whether the slot holds a record.
    pub fn is_present(&self) -> (present: bool)
        ensures
            present == (self@ is Some),
    {
        match self {
            Slot::Absent => false,
            Slot::Present { .. } => true,
        }
    }

    /// The count of the record in the slot, if there is one.
    pub fn count(&self) -> (count: Option<u8>)
        ensures
            (match self@ {
                Some(holding) => count matches Some(c) && c == holding.count,
                None => count is None,
            }),
    {
        match self {
            Slot::Absent => None,
            Slot::Present { record, .. } => Some(record.count()),
        }
    }

    /// What a slot holds is always valid: the count never leaves the range of
    /// one byte.
    pub proof fn lemma_valid(self)
        ensures
            self@ matches Some(holding) ==> holding.valid(),
    {
        match self {
            Slot::Present { record, requester, .. } => {
                record.lemma_count_in_range();
                requester.lemma_len();
            },
            Slot::Absent => {},
        }
    }

    /// A slot is determined by what it holds.
    pub proof fn lemma_same_holding_same_slot(self, other: Slot)
        requires
            self@ == other@,
        ensures
            self == other,
    {
        match (self, other) {
            (
                Slot::Present { record: r1, requester: k1, credit: c1 },
                Slot::Present { record: r2, requester: k2, credit: c2 },
            ) => {
                r1.lemma_same_count_same_record(r2);
                k1.lemma_same_bytes_same_key(k2);
            },
            _ => {},
        }
    }
}

} // verus!
