use crate::accounts::{CloseCompressedBlink, InitializeCompressedBlink, Update};
use crate::error::CounterError;
use crate::model::{after_close, after_decrement, after_increment, after_initialize, after_set};
use crate::record::CompressedBlink;
use crate::slot::Slot;
use vstd::pervasive::unreached;
use vstd::prelude::*;

verus! {

/// Creates the record in an empty slot: the party pays the allocation fee,
/// which stays locked in the slot, and the new record counts zero.
///
/// Rejected with `AllocationError`, and nothing changes, when the slot already
/// holds a record, when the party did not authorize the transaction, or when
/// its credit does not cover the fee.
pub fn initialize(ctx: &mut InitializeCompressedBlink) -> (result: Result<(), CounterError>)
    ensures
        result is Err <==> (old(ctx).compressed_blink@ is Some || !old(ctx).payer.authorized
            || old(ctx).payer.credit < old(ctx).system_program.fee),
        (match after_initialize(
            old(ctx).payer@,
            old(ctx).compressed_blink@,
            old(ctx).system_program.fee as nat,
        ) {
            Ok((payer, holding)) => {
                &&& result is Ok
                &&& final(ctx).payer@ == payer
                &&& final(ctx).compressed_blink@ == Some(holding)
                &&& final(ctx).system_program == old(ctx).system_program
            },
            Err(error) => result == Err::<(), CounterError>(error) && *final(ctx) == *old(ctx),
        }),
{
    let fee = ctx.system_program.fee;
    if ctx.compressed_blink.is_present() || !ctx.payer.authorized || ctx.payer.credit < fee {
        return Err(CounterError::AllocationError);
    }
    ctx.payer.credit = ctx.payer.credit - fee;
    ctx.compressed_blink =
        Slot::Present { record: CompressedBlink::new(), requester: ctx.payer.key, credit: fee };
    Ok(())
}

/// Raises the count of the record by one. The slot must hold a record, which
/// `Update::validate` tells.
///
/// Rejected with `ArithmeticOverflow`, and nothing changes, when the count is
/// 255.
pub fn increment(ctx: &mut Update) -> (result: Result<(), CounterError>)
    requires
        old(ctx).compressed_blink@ is Some,
    ensures
        result is Err <==> old(ctx).compressed_blink@->Some_0.count == 255,
        (match after_increment(old(ctx).compressed_blink@->Some_0) {
            Ok(holding) => result is Ok && final(ctx).compressed_blink@ == Some(holding),
            Err(error) => result == Err::<(), CounterError>(error) && *final(ctx) == *old(ctx),
        }),
{
    match ctx.compressed_blink {
        Slot::Present { record, requester, credit } => match record.count().checked_add(1) {
            Some(count) => {
                ctx.compressed_blink =
                    Slot::Present { record: CompressedBlink::with_count(count), requester, credit };
                Ok(())
            },
            None => Err(CounterError::ArithmeticOverflow),
        },
        Slot::Absent => unreached(),
    }
}

/// Lowers the count of the record by one. The slot must hold a record, which
/// `Update::validate` tells.
///
/// Rejected with `ArithmeticUnderflow`, and nothing changes, when the count is
/// 0.
pub fn decrement(ctx: &mut Update) -> (result: Result<(), CounterError>)
    requires
        old(ctx).compressed_blink@ is Some,
    ensures
        result is Err <==> old(ctx).compressed_blink@->Some_0.count == 0,
        (match after_decrement(old(ctx).compressed_blink@->Some_0) {
            Ok(holding) => result is Ok && final(ctx).compressed_blink@ == Some(holding),
            Err(error) => result == Err::<(), CounterError>(error) && *final(ctx) == *old(ctx),
        }),
{
    match ctx.compressed_blink {
        Slot::Present { record, requester, credit } => match record.count().checked_sub(1) {
            Some(count) => {
                ctx.compressed_blink =
                    Slot::Present { record: CompressedBlink::with_count(count), requester, credit };
                Ok(())
            },
            None => Err(CounterError::ArithmeticUnderflow),
        },
        Slot::Absent => unreached(),
    }
}

/// Puts the given value in place of the count of the record. The slot must
/// hold a record, which `Update::validate` tells. Never rejected.
pub fn set(ctx: &mut Update, value: u8) -> (result: Result<(), CounterError>)
    requires
        old(ctx).compressed_blink@ is Some,
    ensures
        result is Ok,
        final(ctx).compressed_blink@ == Some(
            after_set(old(ctx).compressed_blink@->Some_0, value as nat),
        ),
{
    match ctx.compressed_blink {
        Slot::Present { requester, credit, .. } => {
            ctx.compressed_blink =
                Slot::Present { record: CompressedBlink::with_count(value), requester, credit };
            Ok(())
        },
        Slot::Absent => unreached(),
    }
}

/// Destroys the record: the slot is left empty, and the credit that was locked
/// in it goes to the party. The slot must hold a record, and where the party
/// is the one to be paid, its balance and the locked credit together must fit
/// in 64 bits.
///
/// Rejected with `AuthorizationError`, and nothing changes, when the party did
/// not authorize the transaction or is not the party that funded the slot.
pub fn close(ctx: &mut CloseCompressedBlink) -> (result: Result<(), CounterError>)
    requires
        old(ctx).compressed_blink@ is Some,
        after_close(old(ctx).payer@, old(ctx).compressed_blink@->Some_0) matches Ok(payer)
            ==> payer.credit <= u64::MAX,
    ensures
        result is Err <==> (!old(ctx).payer.authorized
            || old(ctx).payer.key@ != old(ctx).compressed_blink@->Some_0.requester),
        (match after_close(old(ctx).payer@, old(ctx).compressed_blink@->Some_0) {
            Ok(payer) => {
                &&& result is Ok
                &&& final(ctx).payer@ == payer
                &&& final(ctx).compressed_blink@ is None
            },
            Err(error) => result == Err::<(), CounterError>(error) && *final(ctx) == *old(ctx),
        }),
{
    match ctx.compressed_blink {
        Slot::Present { requester, credit, .. } => {
            if ctx.payer.authorized && ctx.payer.key.same_party(&requester) {
                ctx.payer.credit = ctx.payer.credit + credit;
                ctx.compressed_blink = Slot::Absent;
                Ok(())
            } else {
                Err(CounterError::AuthorizationError)
            }
        },
        Slot::Absent => unreached(),
    }
}

} // verus!
