//! The typed failures of the borrow and repay steps. Every failure is
//! terminal for the current atomic unit: the host rolls the whole unit back.

use vstd::prelude::*;

verus! {

/// Why a borrow or repay step rejected its atomic unit.
#[derive(Clone, Copy, Debug, PartialEq, Eq, Structural)]
pub enum FlashLoanError {
    /// The requested borrow amount was zero.
    InvalidAmount,
    /// The borrow operation is not at position 0 of the unit, or the
    /// trailing operation's identity tag is not the repay handler's.
    InvalidIx,
    /// The trailing operation targets a program other than this one.
    InvalidProgram,
    /// The trailing operation's account at position 3 is not the calling
    /// borrower's value account.
    InvalidBorrowerAta,
    /// The trailing operation's account at position 4 is not the pool's
    /// value account.
    InvalidProtocolAta,
    /// No operation is scheduled after the borrow in the same unit.
    MissingRepayIx,
    /// No operation exists at position 0 of the unit during repay.
    MissingBorrowIx,
    /// The owed amount cannot be represented in 64 bits.
    Overflow,
}

} // verus!
