use compressed_blink::accounts::{
    AllocationService, CloseCompressedBlink, InitializeCompressedBlink, Update,
};
use compressed_blink::error::{CounterError, Validation};
use compressed_blink::operations::{close, decrement, increment, initialize};
use compressed_blink::party::{PartyKey, Requester, KEY_LEN};
use compressed_blink::record::CompressedBlink;
use compressed_blink::slot::Slot;

fn key(fill: u8) -> PartyKey {
    PartyKey::new([fill; 32])
}

fn party(fill: u8, credit: u64) -> Requester {
    Requester { key: key(fill), authorized: true, credit }
}

fn unsigned_party(fill: u8, credit: u64) -> Requester {
    Requester { key: key(fill), authorized: false, credit }
}

fn held_by(fill: u8, count: u8, credit: u64) -> Slot {
    Slot::Present { record: CompressedBlink::with_count(count), requester: key(fill), credit }
}

fn opening(payer: Requester, slot: Slot, fee: u64) -> InitializeCompressedBlink {
    InitializeCompressedBlink {
        payer,
        compressed_blink: slot,
        system_program: AllocationService { fee },
    }
}

#[test]
fn initialize_creates_a_record_counting_zero() {
    let mut ctx = opening(party(1, 1_000), Slot::Absent, 300);
    assert_eq!(initialize(&mut ctx), Ok(()));
    assert_eq!(ctx.compressed_blink, held_by(1, 0, 300));
    assert_eq!(ctx.compressed_blink.count(), Some(0));
    assert_eq!(ctx.payer, party(1, 700));
    assert_eq!(ctx.system_program, AllocationService { fee: 300 });
}

#[test]
fn initialize_with_exactly_the_fee() {
    let mut ctx = opening(party(1, 300), Slot::Absent, 300);
    assert_eq!(initialize(&mut ctx), Ok(()));
    assert_eq!(ctx.payer.credit, 0);
    assert_eq!(ctx.compressed_blink, held_by(1, 0, 300));
}

#[test]
fn initialize_without_a_fee() {
    let mut ctx = opening(party(1, 0), Slot::Absent, 0);
    assert_eq!(initialize(&mut ctx), Ok(()));
    assert_eq!(ctx.payer.credit, 0);
    assert_eq!(ctx.compressed_blink, held_by(1, 0, 0));
}

#[test]
fn initialize_with_the_largest_balance() {
    let mut ctx = opening(party(1, u64::MAX), Slot::Absent, u64::MAX);
    assert_eq!(initialize(&mut ctx), Ok(()));
    assert_eq!(ctx.payer.credit, 0);
    assert_eq!(ctx.compressed_blink, held_by(1, 0, u64::MAX));
}

#[test]
fn initialize_on_a_present_record_fails_and_keeps_the_count() {
    let before = opening(party(1, 1_000), held_by(1, 77, 300), 300);
    let mut ctx = before;
    assert_eq!(initialize(&mut ctx), Err(CounterError::AllocationError));
    assert_eq!(ctx, before);
    assert_eq!(ctx.compressed_blink.count(), Some(77));
    assert_eq!(ctx.payer.credit, 1_000);
}

#[test]
fn initialize_on_a_record_of_another_party_fails() {
    let before = opening(party(2, 1_000), held_by(1, 5, 300), 300);
    let mut ctx = before;
    assert_eq!(initialize(&mut ctx), Err(CounterError::AllocationError));
    assert_eq!(ctx, before);
}

#[test]
fn initialize_without_authorization_fails() {
    let before = opening(unsigned_party(1, 1_000), Slot::Absent, 300);
    let mut ctx = before;
    assert_eq!(initialize(&mut ctx), Err(CounterError::AllocationError));
    assert_eq!(ctx, before);
    assert_eq!(ctx.compressed_blink, Slot::Absent);
}

#[test]
fn initialize_without_enough_credit_fails() {
    let before = opening(party(1, 299), Slot::Absent, 300);
    let mut ctx = before;
    assert_eq!(initialize(&mut ctx), Err(CounterError::AllocationError));
    assert_eq!(ctx, before);
    assert_eq!(ctx.payer.credit, 299);
}

#[test]
fn initialize_twice_fails_the_second_time() {
    let mut ctx = opening(party(1, 1_000), Slot::Absent, 300);
    assert_eq!(initialize(&mut ctx), Ok(()));
    let after_first = ctx;
    assert_eq!(initialize(&mut ctx), Err(CounterError::AllocationError));
    assert_eq!(ctx, after_first);
}

#[test]
fn close_returns_the_locked_credit() {
    let mut ctx = CloseCompressedBlink { payer: party(1, 700), compressed_blink: held_by(1, 9, 300) };
    assert_eq!(close(&mut ctx), Ok(()));
    assert_eq!(ctx.compressed_blink, Slot::Absent);
    assert!(!ctx.compressed_blink.is_present());
    assert_eq!(ctx.payer, party(1, 1_000));
}

#[test]
fn close_up_to_the_largest_balance() {
    let mut ctx =
        CloseCompressedBlink { payer: party(1, u64::MAX - 300), compressed_blink: held_by(1, 0, 300) };
    assert_eq!(close(&mut ctx), Ok(()));
    assert_eq!(ctx.payer.credit, u64::MAX);
}

#[test]
fn close_by_another_party_fails_and_keeps_the_record() {
    let before = CloseCompressedBlink { payer: party(2, 700), compressed_blink: held_by(1, 9, 300) };
    let mut ctx = before;
    assert_eq!(close(&mut ctx), Err(CounterError::AuthorizationError));
    assert_eq!(ctx, before);
    assert!(ctx.compressed_blink.is_present());
    assert_eq!(ctx.compressed_blink.count(), Some(9));
    assert_eq!(ctx.payer.credit, 700);
}

#[test]
fn close_by_a_key_that_differs_in_one_byte_fails() {
    for position in [0usize, 15, 31] {
        let mut bytes = [1u8; 32];
        bytes[position] = 0;
        let stranger = Requester { key: PartyKey::new(bytes), authorized: true, credit: 0 };
        let before = CloseCompressedBlink { payer: stranger, compressed_blink: held_by(1, 9, 300) };
        let mut ctx = before;
        assert_eq!(close(&mut ctx), Err(CounterError::AuthorizationError));
        assert_eq!(ctx, before);
    }
}

#[test]
fn close_without_authorization_fails() {
    let before =
        CloseCompressedBlink { payer: unsigned_party(1, 700), compressed_blink: held_by(1, 9, 300) };
    let mut ctx = before;
    assert_eq!(close(&mut ctx), Err(CounterError::AuthorizationError));
    assert_eq!(ctx, before);
    assert_eq!(ctx.compressed_blink.count(), Some(9));
}

#[test]
fn initialize_then_close_gives_the_credit_back() {
    let payer = party(4, 5_000);
    let mut open = opening(payer, Slot::Absent, 1_234);
    assert_eq!(initialize(&mut open), Ok(()));
    assert_eq!(open.payer.credit, 3_766);
    let mut shut = CloseCompressedBlink { payer: open.payer, compressed_blink: open.compressed_blink };
    assert_eq!(close(&mut shut), Ok(()));
    assert_eq!(shut.payer, payer);
    assert_eq!(shut.compressed_blink, Slot::Absent);
}

#[test]
fn slot_can_be_used_again_after_close() {
    let mut shut = CloseCompressedBlink { payer: party(1, 0), compressed_blink: held_by(1, 200, 50) };
    assert_eq!(close(&mut shut), Ok(()));
    let mut open = opening(party(2, 80), shut.compressed_blink, 30);
    assert_eq!(initialize(&mut open), Ok(()));
    assert_eq!(open.compressed_blink, held_by(2, 0, 30));
    assert_eq!(open.payer.credit, 50);
}

#[test]
fn end_to_end() {
    let requester = party(9, 10_000);
    let fee = 946;

    let mut open = opening(requester, Slot::Absent, fee);
    assert_eq!(open.validate(), Validation::Valid);
    assert_eq!(initialize(&mut open), Ok(()));
    assert_eq!(open.compressed_blink.count(), Some(0));
    let charged = open.payer;
    assert_eq!(charged.credit, 10_000 - fee);

    let mut update = Update { compressed_blink: open.compressed_blink };
    assert_eq!(update.validate(), Validation::Valid);
    for _ in 0..3 {
        assert_eq!(increment(&mut update), Ok(()));
    }
    assert_eq!(update.compressed_blink.count(), Some(3));

    assert_eq!(compressed_blink::operations::set(&mut update, 10), Ok(()));
    assert_eq!(update.compressed_blink.count(), Some(10));

    for _ in 0..10 {
        assert_eq!(decrement(&mut update), Ok(()));
    }
    assert_eq!(update.compressed_blink.count(), Some(0));

    let mut shut = CloseCompressedBlink { payer: charged, compressed_blink: update.compressed_blink };
    assert_eq!(shut.validate(), Validation::Valid);
    assert_eq!(close(&mut shut), Ok(()));
    assert_eq!(shut.compressed_blink, Slot::Absent);
    assert_eq!(shut.payer.credit, charged.credit + fee);
    assert_eq!(shut.payer.credit, 10_000);

    let after = Update { compressed_blink: shut.compressed_blink };
    assert_eq!(after.validate(), Validation::ShapeMismatch);
}

#[test]
fn initialize_accounts_validation() {
    assert_eq!(opening(party(1, 0), Slot::Absent, 300).validate(), Validation::Valid);
    assert_eq!(
        opening(unsigned_party(1, 1_000), Slot::Absent, 300).validate(),
        Validation::Unauthorized
    );
    assert_eq!(
        opening(party(1, 1_000), held_by(1, 0, 300), 300).validate(),
        Validation::ShapeMismatch
    );
    assert_eq!(
        opening(unsigned_party(1, 1_000), held_by(1, 0, 300), 300).validate(),
        Validation::ShapeMismatch
    );
}

#[test]
fn close_accounts_validation() {
    let valid = CloseCompressedBlink { payer: party(1, 0), compressed_blink: held_by(1, 3, 300) };
    assert_eq!(valid.validate(), Validation::Valid);
    let stranger = CloseCompressedBlink { payer: party(2, 0), compressed_blink: held_by(1, 3, 300) };
    assert_eq!(stranger.validate(), Validation::Unauthorized);
    let unsigned =
        CloseCompressedBlink { payer: unsigned_party(1, 0), compressed_blink: held_by(1, 3, 300) };
    assert_eq!(unsigned.validate(), Validation::Unauthorized);
    let absent = CloseCompressedBlink { payer: party(1, 0), compressed_blink: Slot::Absent };
    assert_eq!(absent.validate(), Validation::ShapeMismatch);
    let absent_unsigned =
        CloseCompressedBlink { payer: unsigned_party(1, 0), compressed_blink: Slot::Absent };
    assert_eq!(absent_unsigned.validate(), Validation::ShapeMismatch);
}

#[test]
fn keys_with_the_same_bytes_name_the_same_party() {
    assert!(key(5).same_party(&key(5)));
    assert!(key(0).same_party(&PartyKey::new([0u8; 32])));
    assert!(!key(5).same_party(&key(6)));
}

#[test]
fn keys_that_differ_in_any_byte_name_different_parties() {
    for position in 0..KEY_LEN {
        let mut bytes = [5u8; 32];
        bytes[position] = 6;
        let other = PartyKey::new(bytes);
        assert!(!key(5).same_party(&other));
        assert!(!other.same_party(&key(5)));
        assert!(other.same_party(&other));
    }
}

#[test]
fn key_gives_its_bytes_back() {
    let mut bytes = [0u8; 32];
    for (position, byte) in bytes.iter_mut().enumerate() {
        *byte = position as u8 * 7;
    }
    assert_eq!(PartyKey::new(bytes).to_bytes(), bytes);
    assert_eq!(KEY_LEN, 32);
}
