//! Notifications that successful operations emit.
//!
//! Delivery is an external concern: the host appends them to its event log
//! best-effort, for auditability.  The library only fixes their contents,
//! which the contracts of the two operations pin to the record acted on.

use vstd::prelude::*;

verus! {

/// Emitted when a lock is created: the new record's address and every field
/// an auditor needs to recompute that address and watch the lock.
#[derive(Clone, Debug)]
pub struct FundsLocked {
    pub lock_account: [u8; 32],
    pub owner: [u8; 32],
    pub beneficiary: [u8; 32],
    pub mint: Option<[u8; 32]>,
    pub amount: u64,
    pub unlock_timestamp: i64,
    pub description: Vec<u8>,
}

/// Emitted when a lock is paid out.
#[derive(Clone, Debug)]
pub struct FundsWithdrawn {
    pub lock_account: [u8; 32],
    pub beneficiary: [u8; 32],
    pub mint: Option<[u8; 32]>,
    pub amount: u64,
}

} // verus!
