use crate::error::CounterError;
use crate::model::{
    after_close, after_decrement, after_increment, after_initialize, after_set, Holding, Party,
};
use vstd::prelude::*;

verus! {

/// After `set`, the count that is read is the value that was given, nothing
/// else in the slot has changed, and a second `set` with the same value
/// changes nothing more.
pub proof fn lemma_set_then_read(holding: Holding, value: u8)
    ensures
        after_set(holding, value as nat).count == value,
        after_set(holding, value as nat).requester == holding.requester,
        after_set(holding, value as nat).credit == holding.credit,
        after_set(after_set(holding, value as nat), value as nat) == after_set(
            holding,
            value as nat,
        ),
{
}

/// From any count below 255, `increment` succeeds, and `decrement` after it
/// brings the slot back to what it held.
pub proof fn lemma_increment_then_decrement(holding: Holding)
    requires
        holding.count < 255,
    ensures
        after_increment(holding) matches Ok(raised) && after_decrement(raised) == Ok::<
            Holding,
            CounterError,
        >(holding),
{
}

/// From any count above 0 and up to 255, `decrement` succeeds, and `increment`
/// after it brings the slot back to what it held.
pub proof fn lemma_decrement_then_increment(holding: Holding)
    requires
        0 < holding.count <= 255,
    ensures
        after_decrement(holding) matches Ok(lowered) && after_increment(lowered) == Ok::<
            Holding,
            CounterError,
        >(holding),
{
}

/// At 255 `increment` is rejected with `ArithmeticOverflow`.
pub proof fn lemma_increment_at_maximum(holding: Holding)
    requires
        holding.count == 255,
    ensures
        after_increment(holding) == Err::<Holding, CounterError>(
            CounterError::ArithmeticOverflow,
        ),
{
}

/// At 0 `decrement` is rejected with `ArithmeticUnderflow`.
pub proof fn lemma_decrement_at_zero(holding: Holding)
    requires
        holding.count == 0,
    ensures
        after_decrement(holding) == Err::<Holding, CounterError>(
            CounterError::ArithmeticUnderflow,
        ),
{
}

/// `initialize` on a slot that holds a record is rejected with
/// `AllocationError`, whoever asks and whatever the fee.
pub proof fn lemma_initialize_on_present_slot(payer: Party, holding: Holding, fee: nat)
    ensures
        after_initialize(payer, Some(holding), fee) == Err::<(Party, Holding), CounterError>(
            CounterError::AllocationError,
        ),
{
}

/// `close` by a party other than the one that funded the slot is rejected with
/// `AuthorizationError`.
pub proof fn lemma_close_by_another_party(payer: Party, holding: Holding)
    requires
        payer.key != holding.requester,
    ensures
        after_close(payer, holding) == Err::<Party, CounterError>(
            CounterError::AuthorizationError,
        ),
{
}

/// No credit is made or lost: what `initialize` takes from the party is what
/// it locks in the slot, and `close` by the same party gives all of it back.
pub proof fn lemma_initialize_then_close(payer: Party, fee: nat)
    requires
        payer.authorized,
        fee <= payer.credit,
    ensures
        after_initialize(payer, None, fee) matches Ok((charged, holding)) && charged.credit
            + holding.credit == payer.credit && holding.count == 0 && after_close(
            charged,
            holding,
        ) == Ok::<Party, CounterError>(payer),
{
}

/// The count never leaves the range of one byte: from a valid holding,
/// `increment`, `decrement` and `set` lead to a valid holding or are rejected.
pub proof fn lemma_updates_keep_validity(holding: Holding, value: u8)
    requires
        holding.valid(),
    ensures
        after_increment(holding) matches Ok(raised) ==> raised.valid(),
        after_decrement(holding) matches Ok(lowered) ==> lowered.valid(),
        after_set(holding, value as nat).valid(),
{
}

/// `initialize` with a fee that fits in 64 bits leaves a valid party and a
/// valid holding. `close` leaves a valid party exactly when the party's
/// balance and the locked credit together fit in 64 bits.
pub proof fn lemma_lifecycle_keeps_validity(payer: Party, holding: Holding, fee: u64)
    requires
        payer.valid(),
        holding.valid(),
    ensures
        after_initialize(payer, None, fee as nat) matches Ok((charged, created))
            ==> charged.valid() && created.valid(),
        after_close(payer, holding) matches Ok(paid) ==> (paid.valid() <==> payer.credit
            + holding.credit <= u64::MAX),
{
}

} // verus!
