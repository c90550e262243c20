//! Core logic of an uncollateralized flash loan: a borrow step disburses
//! funds from a shared pool and proves, by inspecting the ordered list of
//! operations in the current atomic execution unit, that a matching repay
//! step is already scheduled at the end of the same unit; the repay step
//! recovers the borrowed amount from the borrow operation's payload and
//! returns it plus a fixed-rate fee.

pub mod codec;
pub mod error;
pub mod fee;
pub mod keys;
pub mod laws;
pub mod loan;
pub mod unit;

pub use error::FlashLoanError;
pub use keys::Pubkey;
pub use unit::{AccountRef, AtomicUnit, Operation};
