//! The borrow/repay verification state machine: the borrow step inspects
//! the rest of the current atomic unit to prove a matching repay operation
//! is already scheduled at the last position, addressed to this program and
//! bound to this call's accounts; the repay step inspects position 0 to
//! recover the amount disbursed and computes the amount owed back.
//!
//! On the paired repay operation, the account reference at position 3 must
//! be the calling borrower's value account and the one at position 4 the
//! pool's: binding through the value-holding accounts pins both the owning
//! identities and the value type in one comparison.

use vstd::prelude::*;

use crate::codec::{encoded_amount, payload_with_amount, repay_discriminator, repay_tag};
use crate::error::FlashLoanError;
use crate::fee::owed_of;
use crate::keys::Pubkey;
use crate::unit::{AtomicUnit, Operation};

verus! {

/// Position of the borrower's value account among the repay operation's
/// account references.
pub const BORROWER_ATA_POSITION: usize = 3;

/// Position of the pool's value account among the repay operation's
/// account references.
pub const PROTOCOL_ATA_POSITION: usize = 4;

/// Whether a payload's leading 8 bytes equal the given identity tag.
pub open spec fn payload_has_tag(data: Seq<u8>, tag: Seq<u8>) -> bool {
    data.len() >= 8 && data.subrange(0, 8) == tag
}

/// What the borrow step decides for a given request and atomic unit, in
/// the order the checks run: a positive amount, the borrow at position 0,
/// an operation scheduled after it, and a trailing operation that targets
/// this program, carries the repay identity tag, and is bound to this
/// call's borrower and pool value accounts.
pub open spec fn borrow_outcome(
    borrow_amount: u64,
    current_index: u16,
    unit: Seq<Operation>,
    self_program: Seq<u8>,
    tag: Seq<u8>,
    borrower_ata: Seq<u8>,
    protocol_ata: Seq<u8>,
) -> Result<(), FlashLoanError> {
    if borrow_amount == 0 {
        Err(FlashLoanError::InvalidAmount)
    } else if current_index != 0 {
        Err(FlashLoanError::InvalidIx)
    } else if unit.len() < 2 {
        Err(FlashLoanError::MissingRepayIx)
    } else if unit.last().program_id@ != self_program {
        Err(FlashLoanError::InvalidProgram)
    } else if !payload_has_tag(unit.last().data@, tag) {
        Err(FlashLoanError::InvalidIx)
    } else if !(unit.last().accounts@.len() > BORROWER_ATA_POSITION
        && unit.last().accounts@[BORROWER_ATA_POSITION as int].pubkey@ == borrower_ata) {
        Err(FlashLoanError::InvalidBorrowerAta)
    } else if !(unit.last().accounts@.len() > PROTOCOL_ATA_POSITION
        && unit.last().accounts@[PROTOCOL_ATA_POSITION as int].pubkey@ == protocol_ata) {
        Err(FlashLoanError::InvalidProtocolAta)
    } else {
        Ok(())
    }
}

/// Whether a payload's leading 8 bytes equal `tag`.
fn has_tag(data: &Vec<u8>, tag: &Vec<u8>) -> (r: bool)
    requires
        tag@.len() == 8,
    ensures
        r == payload_has_tag(data@, tag@),
{
    if data.len() < 8 {
        return false;
    }
    let mut i: usize = 0;
    while i < 8
        invariant
            i <= 8,
            data@.len() >= 8,
            tag@.len() == 8,
            forall|j: int| 0 <= j < i ==> data@[j] == tag@[j],
        decreases 8 - i,
    {
        if data[i] != tag[i] {
            proof {
                assert(data@.subrange(0, 8)[i as int] != tag@[i as int]);
            }
            return false;
        }
        i += 1;
    }
    proof {
        assert(data@.subrange(0, 8) =~= tag@);
    }
    true
}

/// The borrow step's verification, against a caller-supplied identity tag
/// for the repay handler: returns exactly what `borrow_outcome` states for
/// these inputs.
pub fn validate_borrow_with_tag(
    borrow_amount: u64,
    current_index: u16,
    unit: &AtomicUnit,
    self_program: &Pubkey,
    tag: &Vec<u8>,
    borrower_ata: &Pubkey,
    protocol_ata: &Pubkey,
) -> (r: Result<(), FlashLoanError>)
    requires
        tag@.len() == 8,
    ensures
        r == borrow_outcome(
            borrow_amount,
            current_index,
            unit@,
            self_program@,
            tag@,
            borrower_ata@,
            protocol_ata@,
        ),
{
    if borrow_amount == 0 {
        return Err(FlashLoanError::InvalidAmount);
    }
    if current_index != 0 {
        return Err(FlashLoanError::InvalidIx);
    }
    let count = unit.ops.len();
    if count < 2 {
        return Err(FlashLoanError::MissingRepayIx);
    }
    let last = &unit.ops[count - 1];
    if !last.program_id.key_eq(self_program) {
        return Err(FlashLoanError::InvalidProgram);
    }
    if !has_tag(&last.data, tag) {
        return Err(FlashLoanError::InvalidIx);
    }
    if last.accounts.len() <= BORROWER_ATA_POSITION {
        return Err(FlashLoanError::InvalidBorrowerAta);
    }
    if !last.accounts[BORROWER_ATA_POSITION].pubkey.key_eq(borrower_ata) {
        return Err(FlashLoanError::InvalidBorrowerAta);
    }
    if last.accounts.len() <= PROTOCOL_ATA_POSITION {
        return Err(FlashLoanError::InvalidProtocolAta);
    }
    if !last.accounts[PROTOCOL_ATA_POSITION].pubkey.key_eq(protocol_ata) {
        return Err(FlashLoanError::InvalidProtocolAta);
    }
    Ok(())
}

/// The borrow step's verification against the repay handler's own identity
/// tag, recomputed from its qualified name.
pub fn validate_borrow(
    borrow_amount: u64,
    current_index: u16,
    unit: &AtomicUnit,
    self_program: &Pubkey,
    borrower_ata: &Pubkey,
    protocol_ata: &Pubkey,
) -> (r: Result<(), FlashLoanError>)
    ensures
        r == borrow_outcome(
            borrow_amount,
            current_index,
            unit@,
            self_program@,
            repay_tag(),
            borrower_ata@,
            protocol_ata@,
        ),
{
    let tag = repay_discriminator();
    validate_borrow_with_tag(
        borrow_amount,
        current_index,
        unit,
        self_program,
        &tag,
        borrower_ata,
        protocol_ata,
    )
}

/// What the repay step recovers from the atomic unit: the amount the
/// operation at position 0 carries in its payload, or `MissingBorrowIx`
/// when the unit is empty.
pub open spec fn recovered_amount(unit: Seq<Operation>) -> Result<u64, FlashLoanError> {
    if unit.len() == 0 {
        Err(FlashLoanError::MissingBorrowIx)
    } else {
        Ok(encoded_amount(unit[0].data@))
    }
}

/// What the repay step owes back for the unit: the recovered amount plus
/// the fixed-rate fee, or `Overflow` when that total exceeds `u64::MAX`.
pub open spec fn repay_outcome(unit: Seq<Operation>) -> Result<u64, FlashLoanError> {
    if unit.len() == 0 {
        Err(FlashLoanError::MissingBorrowIx)
    } else if owed_of(encoded_amount(unit[0].data@)) > u64::MAX {
        Err(FlashLoanError::Overflow)
    } else {
        Ok(owed_of(encoded_amount(unit[0].data@)) as u64)
    }
}

/// Recovers the amount the paired borrow operation disbursed, by reading
/// the amount parameter of the payload at position 0 of the unit.
pub fn recover_borrowed_amount(unit: &AtomicUnit) -> (r: Result<u64, FlashLoanError>)
    requires
        unit@.len() > 0 ==> unit@[0].data@.len() >= 16,
    ensures
        r == recovered_amount(unit@),
{
    if unit.ops.len() == 0 {
        return Err(FlashLoanError::MissingBorrowIx);
    }
    let first = &unit.ops[0];
    Ok(crate::codec::decode_amount(&first.data))
}

/// The repay step's computation: recovers the borrowed amount from the
/// operation at position 0 and returns the amount owed back — principal
/// plus the fixed-rate fee — exactly as `repay_outcome` states.
pub fn prepare_repay(unit: &AtomicUnit) -> (r: Result<u64, FlashLoanError>)
    requires
        unit@.len() > 0 ==> unit@[0].data@.len() >= 16,
    ensures
        r == repay_outcome(unit@),
{
    let amount_borrowed = match recover_borrowed_amount(unit) {
        Ok(amount) => amount,
        Err(e) => {
            return Err(e);
        },
    };
    crate::fee::compute_owed(amount_borrowed)
}

} // verus!
