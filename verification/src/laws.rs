//! The protocol's laws, stated over the same spec functions the step
//! contracts use and proved once for all inputs.

use vstd::prelude::*;

use crate::codec::{borrow_tag, lemma_payload_round_trip, payload_with_amount, repay_tag};
use crate::error::FlashLoanError;
use crate::fee::{fee_of, owed_of};
use crate::loan::{
    borrow_outcome, payload_has_tag, recovered_amount, repay_outcome, BORROWER_ATA_POSITION,
    PROTOCOL_ATA_POSITION,
};
use crate::unit::Operation;

verus! {

/// A unit of the canonical paired shape: the borrow operation at position
/// 0 carrying `amount` in its payload, and a trailing repay operation
/// addressed to `self_program`, tagged as repay, and bound to the given
/// borrower and pool value accounts at positions 3 and 4.
pub open spec fn well_formed_pair(
    unit: Seq<Operation>,
    amount: u64,
    self_program: Seq<u8>,
    borrower_ata: Seq<u8>,
    protocol_ata: Seq<u8>,
) -> bool {
    &&& unit.len() == 2
    &&& unit[0].data@ == payload_with_amount(borrow_tag(), amount)
    &&& unit.last().program_id@ == self_program
    &&& payload_has_tag(unit.last().data@, repay_tag())
    &&& unit.last().accounts@.len() > PROTOCOL_ATA_POSITION
    &&& unit.last().accounts@[BORROWER_ATA_POSITION as int].pubkey@ == borrower_ata
    &&& unit.last().accounts@[PROTOCOL_ATA_POSITION as int].pubkey@ == protocol_ata
}

/// For every positive borrow amount whose owed total is representable, a
/// correctly paired unit passes both the borrow and the repay
/// verification, and the two offsetting transfers net to moving exactly
/// the fee from the borrower's account to the pool's.
pub proof fn lemma_paired_unit_succeeds(
    unit: Seq<Operation>,
    amount: u64,
    self_program: Seq<u8>,
    borrower_ata: Seq<u8>,
    protocol_ata: Seq<u8>,
    pool_before: int,
    borrower_before: int,
)
    requires
        amount > 0,
        owed_of(amount) <= u64::MAX,
        well_formed_pair(unit, amount, self_program, borrower_ata, protocol_ata),
    ensures
        borrow_outcome(amount, 0, unit, self_program, repay_tag(), borrower_ata, protocol_ata)
            == Ok::<(), FlashLoanError>(()),
        repay_outcome(unit) == Ok::<u64, FlashLoanError>(owed_of(amount) as u64),
        pool_before - amount + owed_of(amount) == pool_before + fee_of(amount),
        borrower_before + amount - owed_of(amount) == borrower_before - fee_of(amount),
{
    lemma_payload_round_trip(borrow_tag(), amount);
}

/// A zero borrow amount always fails with `InvalidAmount`, whatever the
/// shape of the unit.
pub proof fn lemma_zero_amount_rejected(
    current_index: u16,
    unit: Seq<Operation>,
    self_program: Seq<u8>,
    tag: Seq<u8>,
    borrower_ata: Seq<u8>,
    protocol_ata: Seq<u8>,
)
    ensures
        borrow_outcome(0, current_index, unit, self_program, tag, borrower_ata, protocol_ata)
            == Err::<(), FlashLoanError>(FlashLoanError::InvalidAmount),
{
}

/// A unit that schedules no operation after the borrow fails with
/// `MissingRepayIx`; nothing is owed and the host rolls the unit back.
pub proof fn lemma_missing_repay_rejected(
    amount: u64,
    unit: Seq<Operation>,
    self_program: Seq<u8>,
    tag: Seq<u8>,
    borrower_ata: Seq<u8>,
    protocol_ata: Seq<u8>,
)
    requires
        amount > 0,
        unit.len() < 2,
    ensures
        borrow_outcome(amount, 0, unit, self_program, tag, borrower_ata, protocol_ata)
            == Err::<(), FlashLoanError>(FlashLoanError::MissingRepayIx),
{
}

/// A borrow operation that does not run at position 0 of its unit fails
/// with `InvalidIx`, whatever else the unit holds.
pub proof fn lemma_misplaced_borrow_rejected(
    amount: u64,
    current_index: u16,
    unit: Seq<Operation>,
    self_program: Seq<u8>,
    tag: Seq<u8>,
    borrower_ata: Seq<u8>,
    protocol_ata: Seq<u8>,
)
    requires
        amount > 0,
        current_index != 0,
    ensures
        borrow_outcome(amount, current_index, unit, self_program, tag, borrower_ata, protocol_ata)
            == Err::<(), FlashLoanError>(FlashLoanError::InvalidIx),
{
}

/// The amount the repay step recovers by introspecting the borrow payload
/// at position 0 equals the amount the borrow step disbursed, for every
/// borrow amount.
pub proof fn lemma_recovered_equals_disbursed(unit: Seq<Operation>, amount: u64)
    requires
        unit.len() > 0,
        unit[0].data@ == payload_with_amount(borrow_tag(), amount),
    ensures
        recovered_amount(unit) == Ok::<u64, FlashLoanError>(amount),
{
    lemma_payload_round_trip(borrow_tag(), amount);
}

} // verus!
