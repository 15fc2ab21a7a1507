//! Creation of a native-coin lock.

use vstd::prelude::*;
use crate::addressing::derive_lock_address;
use crate::addressing::derived_address;
use crate::addressing::lock_seeds;
use crate::error::AppError;
use crate::events::FundsLocked;
use crate::state::LockAccount;
use crate::state::MAX_DESCRIPTION_LENGTH;
use crate::state::copy_bytes;
use crate::transfer::NativeTransfer;
use crate::validate::create_error;

verus! {

/// The accounts of a native-coin creation call: the payer, who signs and
/// funds the lock and becomes its owner, and the beneficiary identity.
#[derive(Debug)]
pub struct InitializeLockSol {
    pub payer: [u8; 32],
    pub beneficiary: [u8; 32],
}

/// Everything a successful native-coin creation hands the host: the derived
/// address, the record to persist there, the funding transfer to execute
/// in the same transaction, and the notification to append.
#[derive(Debug)]
pub struct SolLockCreated {
    pub address: [u8; 32],
    pub record: LockAccount,
    pub transfer: NativeTransfer,
    pub event: FundsLocked,
}

/// What a successful native-coin creation looks like, field by field.
pub open spec fn sol_creation_ok(
    ctx: InitializeLockSol,
    program_id: Seq<u8>,
    amount: u64,
    unlock_timestamp: i64,
    description: Seq<u8>,
    o: SolLockCreated,
) -> bool {
    &&& derived_address(lock_seeds(ctx.payer@, unlock_timestamp), program_id) == Some(
        (o.address@, o.record.bump),
    )
    &&& o.record@.owner == ctx.payer@
    &&& o.record@.beneficiary == ctx.beneficiary@
    &&& o.record@.mint is None
    &&& o.record@.amount == amount
    &&& o.record@.unlock_timestamp == unlock_timestamp
    &&& o.record@.description == description
    &&& o.record@.withdrawn == false
    &&& o.transfer.from@ == ctx.payer@
    &&& o.transfer.to@ == o.address@
    &&& o.transfer.amount == amount
    &&& o.event.lock_account@ == o.address@
    &&& o.event.owner@ == ctx.payer@
    &&& o.event.beneficiary@ == ctx.beneficiary@
    &&& o.event.mint is None
    &&& o.event.amount == amount
    &&& o.event.unlock_timestamp == unlock_timestamp
    &&& o.event.description@ == description
}

impl InitializeLockSol {
    /// Creates a native-coin lock: validates the description length, the
    /// time, and the amount, in that order, derives the record's address
    /// from the payer's identity and the unlock time, and returns the
    /// record together with the funding transfer and the notification.
    /// On any rejection nothing is handed to the host, so no state moves.
    /// `DepositNotFound` is returned in the statistically improbable case
    /// that no valid derivation bump exists for these inputs.
    pub fn process(
        &self,
        program_id: &[u8; 32],
        amount: u64,
        unlock_timestamp: i64,
        description: Vec<u8>,
        now: i64,
    ) -> (r: Result<SolLockCreated, AppError>)
        ensures
            ({
                let err = create_error(amount, unlock_timestamp, now, description@.len());
                let d = derived_address(lock_seeds(self.payer@, unlock_timestamp), program_id@);
                match r {
                    Ok(o) => err is None && o.record@.inv() && o.record@.unlock_timestamp > now
                        && sol_creation_ok(
                        *self,
                        program_id@,
                        amount,
                        unlock_timestamp,
                        description@,
                        o,
                    ),
                    Err(e) => match err {
                        Some(e0) => e == e0,
                        None => d is None && e == AppError::DepositNotFound,
                    },
                }
            }),
    {
        if description.len() > MAX_DESCRIPTION_LENGTH {
            return Err(AppError::InvalidDescription);
        }
        if unlock_timestamp <= now {
            return Err(AppError::InvalidReleaseTime);
        }
        if amount == 0 {
            return Err(AppError::InsufficientBalance);
        }
        match derive_lock_address(program_id, &self.payer, unlock_timestamp) {
            None => Err(AppError::DepositNotFound),
            Some((address, bump)) => {
                let event_description = copy_bytes(&description);
                let record = LockAccount {
                    owner: self.payer,
                    beneficiary: self.beneficiary,
                    mint: None,
                    amount,
                    unlock_timestamp,
                    description,
                    withdrawn: false,
                    bump,
                };
                let transfer = NativeTransfer { from: self.payer, to: address, amount };
                let event = FundsLocked {
                    lock_account: address,
                    owner: self.payer,
                    beneficiary: self.beneficiary,
                    mint: None,
                    amount,
                    unlock_timestamp,
                    description: event_description,
                };
                Ok(SolLockCreated { address, record, transfer, event })
            },
        }
    }
}

} // verus!
