use flash_loans::codec::{
    borrow_discriminator, decode_amount, encode_payload, operation_count_from_header,
    repay_discriminator,
};
use flash_loans::fee::compute_owed;
use flash_loans::loan::{
    prepare_repay, recover_borrowed_amount, validate_borrow, validate_borrow_with_tag,
};
use flash_loans::{AccountRef, AtomicUnit, FlashLoanError, Operation, Pubkey};

fn key(fill: u8) -> Pubkey {
    Pubkey::new([fill; 32])
}

fn account(fill: u8) -> AccountRef {
    AccountRef {
        pubkey: key(fill),
        is_signer: false,
        is_writable: true,
    }
}

fn borrow_op(program: u8, amount: u64) -> Operation {
    Operation {
        program_id: key(program),
        data: encode_payload(&borrow_discriminator(), amount),
        accounts: vec![account(10), account(11), account(12), account(3), account(4)],
    }
}

fn repay_op(program: u8, borrower_ata: u8, protocol_ata: u8) -> Operation {
    Operation {
        program_id: key(program),
        data: repay_discriminator(),
        accounts: vec![
            account(10),
            account(11),
            account(12),
            account(borrower_ata),
            account(protocol_ata),
        ],
    }
}

fn paired_unit(amount: u64) -> AtomicUnit {
    let mut unit = AtomicUnit::new();
    unit.push(borrow_op(1, amount));
    unit.push(repay_op(1, 3, 4));
    unit
}

#[test]
fn paired_unit_succeeds_and_nets_the_fee() {
    let unit = paired_unit(10_000);
    let r = validate_borrow(10_000, 0, &unit, &key(1), &key(3), &key(4));
    assert_eq!(r, Ok(()));
    let owed = prepare_repay(&unit);
    assert_eq!(owed, Ok(10_500));
    // The two transfers net to moving exactly the fee from borrower to pool.
    let pool_before: i128 = 1_000_000;
    let borrower_before: i128 = 50_000;
    let pool_after = pool_before - 10_000 + 10_500;
    let borrower_after = borrower_before + 10_000 - 10_500;
    assert_eq!(pool_after, pool_before + 500);
    assert_eq!(borrower_after, borrower_before - 500);
}

#[test]
fn zero_amount_fails_whatever_the_unit() {
    let unit = paired_unit(0);
    let r = validate_borrow(0, 0, &unit, &key(1), &key(3), &key(4));
    assert_eq!(r, Err(FlashLoanError::InvalidAmount));
    let empty = AtomicUnit::new();
    let r = validate_borrow(0, 0, &empty, &key(1), &key(3), &key(4));
    assert_eq!(r, Err(FlashLoanError::InvalidAmount));
}

#[test]
fn borrow_alone_fails_with_missing_repay() {
    let mut unit = AtomicUnit::new();
    unit.push(borrow_op(1, 5_000));
    let r = validate_borrow(5_000, 0, &unit, &key(1), &key(3), &key(4));
    assert_eq!(r, Err(FlashLoanError::MissingRepayIx));
}

#[test]
fn wrong_borrower_account_fails() {
    let mut unit = AtomicUnit::new();
    unit.push(borrow_op(1, 5_000));
    unit.push(repay_op(1, 9, 4));
    let r = validate_borrow(5_000, 0, &unit, &key(1), &key(3), &key(4));
    assert_eq!(r, Err(FlashLoanError::InvalidBorrowerAta));
}

#[test]
fn wrong_protocol_account_fails() {
    let mut unit = AtomicUnit::new();
    unit.push(borrow_op(1, 5_000));
    unit.push(repay_op(1, 3, 9));
    let r = validate_borrow(5_000, 0, &unit, &key(1), &key(3), &key(4));
    assert_eq!(r, Err(FlashLoanError::InvalidProtocolAta));
}

#[test]
fn short_account_list_fails_with_account_binding_errors() {
    let mut unit = AtomicUnit::new();
    unit.push(borrow_op(1, 5_000));
    let mut repay = repay_op(1, 3, 4);
    repay.accounts.truncate(3);
    unit.push(repay);
    let r = validate_borrow(5_000, 0, &unit, &key(1), &key(3), &key(4));
    assert_eq!(r, Err(FlashLoanError::InvalidBorrowerAta));

    let mut unit = AtomicUnit::new();
    unit.push(borrow_op(1, 5_000));
    let mut repay = repay_op(1, 3, 4);
    repay.accounts.truncate(4);
    unit.push(repay);
    let r = validate_borrow(5_000, 0, &unit, &key(1), &key(3), &key(4));
    assert_eq!(r, Err(FlashLoanError::InvalidProtocolAta));
}

#[test]
fn misplaced_borrow_fails_with_invalid_ix() {
    let mut unit = AtomicUnit::new();
    unit.push(Operation {
        program_id: key(8),
        data: vec![0; 16],
        accounts: vec![],
    });
    unit.push(borrow_op(1, 5_000));
    unit.push(repay_op(1, 3, 4));
    let r = validate_borrow(5_000, 1, &unit, &key(1), &key(3), &key(4));
    assert_eq!(r, Err(FlashLoanError::InvalidIx));
}

#[test]
fn wrong_target_program_fails() {
    let mut unit = AtomicUnit::new();
    unit.push(borrow_op(1, 5_000));
    unit.push(repay_op(2, 3, 4));
    let r = validate_borrow(5_000, 0, &unit, &key(1), &key(3), &key(4));
    assert_eq!(r, Err(FlashLoanError::InvalidProgram));
}

#[test]
fn wrong_trailing_tag_fails_with_invalid_ix() {
    let mut unit = AtomicUnit::new();
    unit.push(borrow_op(1, 5_000));
    // The trailing operation carries the borrow tag, not the repay tag.
    let mut op = repay_op(1, 3, 4);
    op.data = borrow_discriminator();
    unit.push(op);
    let r = validate_borrow(5_000, 0, &unit, &key(1), &key(3), &key(4));
    assert_eq!(r, Err(FlashLoanError::InvalidIx));

    // A payload shorter than a tag cannot match either.
    let mut unit = AtomicUnit::new();
    unit.push(borrow_op(1, 5_000));
    let mut op = repay_op(1, 3, 4);
    op.data = vec![1, 2, 3];
    unit.push(op);
    let r = validate_borrow(5_000, 0, &unit, &key(1), &key(3), &key(4));
    assert_eq!(r, Err(FlashLoanError::InvalidIx));
}

#[test]
fn empty_unit_fails_repay_with_missing_borrow() {
    let unit = AtomicUnit::new();
    assert_eq!(
        recover_borrowed_amount(&unit),
        Err(FlashLoanError::MissingBorrowIx)
    );
    assert_eq!(prepare_repay(&unit), Err(FlashLoanError::MissingBorrowIx));
}

#[test]
fn repay_recovers_the_disbursed_amount() {
    for amount in [1u64, 19, 20, 21, 9_999, 10_000, 123_456_789, u64::MAX / 2] {
        let unit = paired_unit(amount);
        assert_eq!(recover_borrowed_amount(&unit), Ok(amount));
    }
}

#[test]
fn fee_formula_exact_values() {
    assert_eq!(compute_owed(10_000), Ok(10_500));
    assert_eq!(compute_owed(1), Ok(1));
    assert_eq!(compute_owed(19), Ok(19));
    assert_eq!(compute_owed(20), Ok(21));
    assert_eq!(compute_owed(0), Ok(0));
    assert_eq!(compute_owed(1_000), Ok(1_050));
}

#[test]
fn wide_intermediate_never_wraps() {
    // 10^18 * 500 overflows 64 bits, yet the owed total is representable.
    let amount: u64 = 1_000_000_000_000_000_000;
    assert_eq!(compute_owed(amount), Ok(1_050_000_000_000_000_000));
    // Near u64::MAX the owed total itself is unrepresentable.
    assert_eq!(compute_owed(u64::MAX), Err(FlashLoanError::Overflow));
    let unit = paired_unit(u64::MAX);
    assert_eq!(prepare_repay(&unit), Err(FlashLoanError::Overflow));
}

#[test]
fn payload_round_trip() {
    for amount in [0u64, 1, 255, 256, 65_535, u64::MAX] {
        let payload = encode_payload(&borrow_discriminator(), amount);
        assert_eq!(payload.len(), 16);
        assert_eq!(decode_amount(&payload), amount);
    }
}

#[test]
fn discriminators_match_the_handler_names() {
    // First 8 bytes of sha256("global:borrow") and sha256("global:repay").
    assert_eq!(
        borrow_discriminator(),
        vec![228, 253, 131, 202, 207, 116, 89, 18]
    );
    assert_eq!(
        repay_discriminator(),
        vec![234, 103, 67, 82, 208, 234, 219, 166]
    );
}

#[test]
fn header_count_reads_two_bytes_little_endian() {
    assert_eq!(operation_count_from_header(&[3, 0, 7, 7]), 3);
    assert_eq!(operation_count_from_header(&[1, 2]), 513);
    assert_eq!(operation_count_from_header(&[255, 255]), u16::MAX);
}

#[test]
fn validation_matches_a_caller_supplied_tag() {
    let tag = vec![9u8; 8];
    let mut unit = AtomicUnit::new();
    unit.push(borrow_op(1, 5_000));
    let mut op = repay_op(1, 3, 4);
    op.data = tag.clone();
    unit.push(op);
    let r = validate_borrow_with_tag(5_000, 0, &unit, &key(1), &tag, &key(3), &key(4));
    assert_eq!(r, Ok(()));
    // Against the real repay tag the same unit is rejected.
    let r = validate_borrow(5_000, 0, &unit, &key(1), &key(3), &key(4));
    assert_eq!(r, Err(FlashLoanError::InvalidIx));
}

#[test]
fn introspection_reads_the_unit_in_order() {
    let unit = paired_unit(42);
    assert_eq!(unit.operation_count(), 2);
    let first = unit.operation_at(0).expect("index 0 exists");
    assert_eq!(decode_amount(&first.data), 42);
    let last = unit.last_operation().expect("a last operation exists");
    assert_eq!(last.data, repay_discriminator());
    assert!(unit.operation_at(2).is_none());
}
