use crate::model::Party;
use vstd::prelude::*;

verus! {

/// Number of bytes in a party's key.
pub const KEY_LEN: usize = 32;

/// The key by which the ledger tells one party from another.
#[derive(Clone, Copy, Debug, PartialEq, Eq)]
pub struct PartyKey {
    bytes: [u8; 32],
}

impl View for PartyKey {
    type V = Seq<u8>;

    closed spec fn view(&self) -> Seq<u8> {
        self.bytes@
    }
}

impl PartyKey {
    /// The key made of the given bytes.
    pub fn new(bytes: [u8; 32]) -> (key: PartyKey)
        ensures
            key@ == bytes@,
    {
        PartyKey { bytes }
    }

    /// The bytes of the key.
    pub fn to_bytes(&self) -> (bytes: [u8; 32])
        ensures
            bytes@ == self@,
    {
        self.bytes
    }

    /// Whether two keys name the same party: all their bytes agree.
    pub fn same_party(&self, other: &PartyKey) -> (same: bool)
        ensures
            same == (self@ == other@),
    {
        let mut i: usize = 0;
        while i < KEY_LEN
            invariant
                i <= KEY_LEN,
                forall|j: int| 0 <= j < i ==> self.bytes@[j] == other.bytes@[j],
            decreases KEY_LEN - i,
        {
            if self.bytes[i] != other.bytes[i] {
                return false;
            }
            i = i + 1;
        }
        assert(self.bytes@ =~= other.bytes@);
        true
    }

    /// Every key has 32 bytes.
    pub proof fn lemma_len(self)
        ensures
            self@.len() == KEY_LEN,
    {
    }

    /// A key is determined by its bytes.
    pub proof fn lemma_same_bytes_same_key(self, other: PartyKey)
        requires
            self@ == other@,
        ensures
            self == other,
    {
        assert(self.bytes =~= other.bytes);
    }
}

/// A requesting party as one transaction sees it.
#[derive(Clone, Copy, Debug, PartialEq, Eq)]
pub struct Requester {
    /// The party's key.
    pub key: PartyKey,
    /// Whether the ledger runtime has verified that the party authorized the
    /// transaction.
    pub authorized: bool,
    /// The party's credit balance.
    pub credit: u64,
}

impl View for Requester {
    type V = Party;

    open spec fn view(&self) -> Party {
        Party { key: self.key@, authorized: self.authorized, credit: self.credit as nat }
    }
}

impl Requester {
    /// A requesting party is always a valid party of the ledger.
    pub proof fn lemma_valid(self)
        ensures
            self@.valid(),
    {
        self.key.lemma_len();
    }
}

} // verus!
