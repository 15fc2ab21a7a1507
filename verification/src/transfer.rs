//! The transfers that the operations ask the host ledger to perform.
//!
//! The library never moves a balance itself: each successful operation
//! returns one of these instructions as plain data, and the host (which
//! alone enforces ownership, signatures, and atomicity) executes it within
//! the same all-or-nothing transaction as the record write.

use vstd::prelude::*;

verus! {

/// A native-coin movement: debit `from`, credit `to`, by direct balance
/// adjustment.
#[derive(Clone, Copy, Debug)]
pub struct NativeTransfer {
    pub from: [u8; 32],
    pub to: [u8; 32],
    pub amount: u64,
}

/// A tokenized-asset movement between custody sub-accounts of the token
/// sub-ledger, authorized by `authority`.  On withdrawal the authority is
/// the record's own derived address, whose derivation credentials (the
/// seeds and stored bump) stand in for a signature.
#[derive(Clone, Copy, Debug)]
pub struct TokenTransfer {
    pub from: [u8; 32],
    pub to: [u8; 32],
    pub authority: [u8; 32],
    pub amount: u64,
}

} // verus!
