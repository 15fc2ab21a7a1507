//! Creation of a tokenized-asset lock.

use vstd::prelude::*;
use crate::addressing::derive_lock_address;
use crate::addressing::derived_address;
use crate::addressing::lock_seeds;
use crate::error::AppError;
use crate::events::FundsLocked;
use crate::state::LockAccount;
use crate::state::MAX_DESCRIPTION_LENGTH;
use crate::state::copy_bytes;
use crate::transfer::TokenTransfer;
use crate::validate::create_error;

verus! {

/// The accounts of a tokenized creation call: the signing payer, the
/// beneficiary identity, the token identifier, and the custody
/// sub-accounts the funding transfer moves between.  The token sub-ledger
/// is the authority on the sub-accounts' ownership; it rejects the
/// returned transfer if they do not belong to the payer and the record
/// for this token.
#[derive(Debug)]
pub struct InitializeLockSpl {
    pub payer: [u8; 32],
    pub beneficiary: [u8; 32],
    pub mint: [u8; 32],
    pub payer_ata: [u8; 32],
    pub lock_ata: [u8; 32],
}

/// Everything a successful tokenized creation hands the host: the derived
/// address, the record, the funding transfer against the token sub-ledger,
/// and the notification.
#[derive(Debug)]
pub struct SplLockCreated {
    pub address: [u8; 32],
    pub record: LockAccount,
    pub transfer: TokenTransfer,
    pub event: FundsLocked,
}

/// What a successful tokenized creation looks like, field by field.
pub open spec fn spl_creation_ok(
    ctx: InitializeLockSpl,
    program_id: Seq<u8>,
    amount: u64,
    unlock_timestamp: i64,
    description: Seq<u8>,
    o: SplLockCreated,
) -> bool {
    &&& derived_address(lock_seeds(ctx.payer@, unlock_timestamp), program_id) == Some(
        (o.address@, o.record.bump),
    )
    &&& o.record@.owner == ctx.payer@
    &&& o.record@.beneficiary == ctx.beneficiary@
    &&& o.record@.mint == Some(ctx.mint@)
    &&& o.record@.amount == amount
    &&& o.record@.unlock_timestamp == unlock_timestamp
    &&& o.record@.description == description
    &&& o.record@.withdrawn == false
    &&& o.transfer.from@ == ctx.payer_ata@
    &&& o.transfer.to@ == ctx.lock_ata@
    &&& o.transfer.authority@ == ctx.payer@
    &&& o.transfer.amount == amount
    &&& o.event.lock_account@ == o.address@
    &&& o.event.owner@ == ctx.payer@
    &&& o.event.beneficiary@ == ctx.beneficiary@
    &&& (match o.event.mint {
        Some(m) => m@ == ctx.mint@,
        None => false,
    })
    &&& o.event.amount == amount
    &&& o.event.unlock_timestamp == unlock_timestamp
    &&& o.event.description@ == description
}

impl InitializeLockSpl {
    /// Creates a tokenized lock: the same validation and addressing as the
    /// native path, with the funding transfer drawn between token custody
    /// sub-accounts under the payer's authority, and the token identifier
    /// fixed in the record so that only the token path can ever drain it.
    pub fn process(
        &self,
        program_id: &[u8; 32],
        amount: u64,
        unlock_timestamp: i64,
        description: Vec<u8>,
        now: i64,
    ) -> (r: Result<SplLockCreated, AppError>)
        ensures
            ({
                let err = create_error(amount, unlock_timestamp, now, description@.len());
                let d = derived_address(lock_seeds(self.payer@, unlock_timestamp), program_id@);
                match r {
                    Ok(o) => err is None && o.record@.inv() && o.record@.unlock_timestamp > now
                        && spl_creation_ok(
                        *self,
                        program_id@,
                        amount,
                        unlock_timestamp,
                        description@,
                        o,
                    ),
                    Err(e) => match err {
                        Some(e0) => e == e0,
                        None => d is None && e == AppError::DepositNotFound,
                    },
                }
            }),
    {
        if description.len() > MAX_DESCRIPTION_LENGTH {
            return Err(AppError::InvalidDescription);
        }
        if unlock_timestamp <= now {
            return Err(AppError::InvalidReleaseTime);
        }
        if amount == 0 {
            return Err(AppError::InsufficientBalance);
        }
        match derive_lock_address(program_id, &self.payer, unlock_timestamp) {
            None => Err(AppError::DepositNotFound),
            Some((address, bump)) => {
                let event_description = copy_bytes(&description);
                let record = LockAccount {
                    owner: self.payer,
                    beneficiary: self.beneficiary,
                    mint: Some(self.mint),
                    amount,
                    unlock_timestamp,
                    description,
                    withdrawn: false,
                    bump,
                };
                let transfer = TokenTransfer {
                    from: self.payer_ata,
                    to: self.lock_ata,
                    authority: self.payer,
                    amount,
                };
                let event = FundsLocked {
                    lock_account: address,
                    owner: self.payer,
                    beneficiary: self.beneficiary,
                    mint: Some(self.mint),
                    amount,
                    unlock_timestamp,
                    description: event_description,
                };
                Ok(SplLockCreated { address, record, transfer, event })
            },
        }
    }
}

} // verus!
