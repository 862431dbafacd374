use vstd::prelude::*;

verus! {

/// A failure reported by the ledger when it was asked to move value.
///
/// The ledger's own status code is carried through untouched.
#[derive(Clone, Copy, Debug, PartialEq, Eq, Structural)]
pub struct LedgerError {
    pub code: u64,
}

/// Why an operation on a tip account was refused.
#[derive(Clone, Copy, Debug, PartialEq, Eq, Structural)]
pub enum TipError {
    /// The tipper in the tip account does not match the provided tipper.
    InvalidTipper,
    /// Tipper and creator are the same identity.
    CannotTipSelf,
    /// The tip amount is zero.
    InvalidAmount,
    /// Adding the tip would overflow the 64-bit total.
    OverflowError,
    /// The storage slot already holds a tip account.
    AlreadyExists,
    /// The supplied storage address is not the one derived for the tipper.
    DerivationMismatch,
    /// The ledger could not complete the transfer.
    Ledger(LedgerError),
}

} // verus!
