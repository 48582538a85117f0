use crate::error::{CounterError, Validation};
use vstd::prelude::*;

verus! {

/// A requesting party, as mathematics.
pub struct Party {
    /// The bytes of the party's key.
    pub key: Seq<u8>,
    /// Whether the ledger runtime has verified that the party authorized the
    /// transaction.
    pub authorized: bool,
    /// The party's credit balance.
    pub credit: nat,
}

/// What a storage slot holds while a record is present, as mathematics.
pub struct Holding {
    /// The record's count.
    pub count: nat,
    /// The key of the party that funded the slot.
    pub requester: Seq<u8>,
    /// The credit that is locked in the slot.
    pub credit: nat,
}

/// The largest count a record can hold.
pub open spec fn max_count() -> nat {
    255
}

impl Party {
    /// Whether this is what a party of the ledger can be: a key of 32 bytes
    /// and a balance that fits in 64 bits.
    pub open spec fn valid(self) -> bool {
        self.key.len() == 32 && self.credit <= u64::MAX
    }
}

impl Holding {
    /// Whether this is what a slot of the ledger can hold: a count of one
    /// byte, a key of 32 bytes and a locked credit that fits in 64 bits.
    pub open spec fn valid(self) -> bool {
        self.count <= max_count() && self.requester.len() == 32 && self.credit <= u64::MAX
    }
}

/// What validation before `initialize` finds: the slot must be empty and the
/// party must have authorized the transaction. The shape is looked at first.
pub open spec fn initialize_validation(payer: Party, slot: Option<Holding>) -> Validation {
    if slot is Some {
        Validation::ShapeMismatch
    } else if !payer.authorized {
        Validation::Unauthorized
    } else {
        Validation::Valid
    }
}

/// What validation before `increment`, `decrement` and `set` finds: the slot
/// must hold a record. No authorization is asked for.
pub open spec fn update_validation(slot: Option<Holding>) -> Validation {
    if slot is Some {
        Validation::Valid
    } else {
        Validation::ShapeMismatch
    }
}

/// What validation before `close` finds: the slot must hold a record, and the
/// party must have authorized the transaction and be the one that funded the
/// slot. The shape is looked at first.
pub open spec fn close_validation(payer: Party, slot: Option<Holding>) -> Validation {
    match slot {
        None => Validation::ShapeMismatch,
        Some(holding) => if payer.authorized && payer.key == holding.requester {
            Validation::Valid
        } else {
            Validation::Unauthorized
        },
    }
}

/// The party and the slot after `initialize` with the given fee, or the error
/// with which it is rejected. The fee moves from the party into the slot, and
/// the new record counts zero.
pub open spec fn after_initialize(payer: Party, slot: Option<Holding>, fee: nat) -> Result<
    (Party, Holding),
    CounterError,
> {
    if initialize_validation(payer, slot) is Valid && fee <= payer.credit {
        Ok(
            (
                Party { credit: (payer.credit - fee) as nat, ..payer },
                Holding { count: 0, requester: payer.key, credit: fee },
            ),
        )
    } else {
        Err(CounterError::AllocationError)
    }
}

/// The slot's holding after `increment`, or the error with which it is
/// rejected.
pub open spec fn after_increment(holding: Holding) -> Result<Holding, CounterError> {
    if holding.count < max_count() {
        Ok(Holding { count: holding.count + 1, ..holding })
    } else {
        Err(CounterError::ArithmeticOverflow)
    }
}

/// The slot's holding after `decrement`, or the error with which it is
/// rejected.
pub open spec fn after_decrement(holding: Holding) -> Result<Holding, CounterError> {
    if holding.count > 0 {
        Ok(Holding { count: (holding.count - 1) as nat, ..holding })
    } else {
        Err(CounterError::ArithmeticUnderflow)
    }
}

/// The slot's holding after `set` with the given value.
pub open spec fn after_set(holding: Holding, value: nat) -> Holding {
    Holding { count: value, ..holding }
}

/// The party after `close` of a slot with the given holding, or the error with
/// which it is rejected. The credit that was locked in the slot moves to the
/// party, and the slot is left empty.
pub open spec fn after_close(payer: Party, holding: Holding) -> Result<Party, CounterError> {
    if close_validation(payer, Some(holding)) is Valid {
        Ok(Party { credit: payer.credit + holding.credit, ..payer })
    } else {
        Err(CounterError::AuthorizationError)
    }
}

} // verus!
