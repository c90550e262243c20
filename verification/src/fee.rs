//! The repayment arithmetic: principal plus a fixed 5.00% fee, computed
//! with a 128-bit intermediate so the multiplication can never wrap.

use vstd::prelude::*;

use crate::error::FlashLoanError;

verus! {

/// Fee rate in basis points: a fixed 5.00%, not configurable at runtime.
pub const FEE_BASIS_POINTS: u64 = 500;

/// Basis points in the whole.
pub const BASIS_POINT_SCALE: u64 = 10_000;

/// The fee owed on a borrowed amount: floor(amount * 500 / 10_000).
pub open spec fn fee_of(amount: u64) -> int {
    amount * FEE_BASIS_POINTS / (BASIS_POINT_SCALE as int)
}

/// The total owed back: principal plus fee.
pub open spec fn owed_of(amount: u64) -> int {
    amount + fee_of(amount)
}

/// Computes the amount owed back for `amount_borrowed`: the principal plus
/// floor(amount_borrowed * 500 / 10_000). The multiplication is done in 128
/// bits, so the only representable failure is the final sum: the result is
/// `Overflow` exactly when principal plus fee exceeds `u64::MAX`.
pub fn compute_owed(amount_borrowed: u64) -> (r: Result<u64, FlashLoanError>)
    ensures
        r is Ok <==> owed_of(amount_borrowed) <= u64::MAX,
        r matches Ok(owed) ==> owed == owed_of(amount_borrowed),
        r matches Err(e) ==> e == FlashLoanError::Overflow,
{
    proof {
        assert((amount_borrowed as int) * (FEE_BASIS_POINTS as int) <= (u64::MAX as int) * 500)
            by (nonlinear_arith)
            requires
                amount_borrowed <= u64::MAX,
                FEE_BASIS_POINTS == 500,
        ;
    }
    let wide: u128 = (amount_borrowed as u128) * (FEE_BASIS_POINTS as u128);
    let fee_wide: u128 = wide / (BASIS_POINT_SCALE as u128);
    proof {
        assert(fee_wide <= u64::MAX) by (nonlinear_arith)
            requires
                wide == amount_borrowed * FEE_BASIS_POINTS,
                fee_wide == wide / (BASIS_POINT_SCALE as u128),
                amount_borrowed <= u64::MAX,
                FEE_BASIS_POINTS == 500,
                BASIS_POINT_SCALE == 10_000,
        ;
    }
    let fee: u64 = fee_wide as u64;
    match amount_borrowed.checked_add(fee) {
        Some(owed) => Ok(owed),
        None => Err(FlashLoanError::Overflow),
    }
}

} // verus!
