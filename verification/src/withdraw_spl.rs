//! Withdrawal from a tokenized-asset lock.

use vstd::prelude::*;
use crate::addressing::derive_lock_address;
use crate::error::AppError;
use crate::events::FundsWithdrawn;
use crate::state::LockAccount;
use crate::state::id_eq;
use crate::transfer::TokenTransfer;
use crate::validate::withdraw_error;
use crate::withdraw_sol::address_matches;

verus! {

/// The accounts of a tokenized withdrawal call: the stored record, the
/// address it was resolved at, the payout identity and the signer, the
/// custody sub-accounts the payout moves between, and the token
/// identifier the caller claims.
#[derive(Debug)]
pub struct WithdrawSpl {
    pub lock_account: LockAccount,
    pub lock_address: [u8; 32],
    pub beneficiary: [u8; 32],
    pub signer: [u8; 32],
    pub beneficiary_ata: [u8; 32],
    pub lock_ata: [u8; 32],
    pub mint: [u8; 32],
}

/// Everything a successful tokenized withdrawal hands the host: the spent
/// record to destroy, the payout transfer against the token sub-ledger
/// authorized by the record's own derived address (the host reconstructs
/// that signing authority from the derivation seeds and the stored bump),
/// and the notification.
#[derive(Debug)]
pub struct SplWithdrawal {
    pub record: LockAccount,
    pub transfer: TokenTransfer,
    pub event: FundsWithdrawn,
}

/// What a successful tokenized withdrawal looks like, field by field.
pub open spec fn spl_withdrawal_ok(ctx: WithdrawSpl, o: SplWithdrawal) -> bool {
    &&& o.record@ == ctx.lock_account@.spent()
    &&& o.transfer.from@ == ctx.lock_ata@
    &&& o.transfer.to@ == ctx.beneficiary_ata@
    &&& o.transfer.authority@ == ctx.lock_address@
    &&& o.transfer.amount == ctx.lock_account.amount
    &&& o.event.lock_account@ == ctx.lock_address@
    &&& o.event.beneficiary@ == ctx.beneficiary@
    &&& (match o.event.mint {
        Some(m) => m@ == ctx.mint@,
        None => false,
    })
    &&& o.event.amount == ctx.lock_account.amount
}

impl WithdrawSpl {
    /// Pays a tokenized lock out: re-derives and checks the record's
    /// address, then checks the caller's authorization, that the record is
    /// a tokenized one whose token identifier matches the call's, the time
    /// gate, the spent flag, and the amount, in that order.  First failure
    /// rejects the whole call; a native-coin record can never be drained
    /// through this path.
    pub fn process(self, program_id: &[u8; 32], now: i64) -> (r: Result<SplWithdrawal, AppError>)
        ensures
            ({
                let addr_ok = address_matches(self.lock_account, self.lock_address, program_id@);
                let err = withdraw_error(
                    self.lock_account@,
                    self.signer@,
                    self.beneficiary@,
                    Some(self.mint@),
                    now,
                );
                match r {
                    Ok(o) => addr_ok && err is None && spl_withdrawal_ok(self, o),
                    Err(e) => if !addr_ok {
                        e == AppError::DepositNotFound
                    } else {
                        err == Some(e)
                    },
                }
            }),
    {
        let addr_ok = match derive_lock_address(
            program_id,
            &self.lock_account.owner,
            self.lock_account.unlock_timestamp,
        ) {
            Some((address, bump)) => id_eq(&address, &self.lock_address) && bump
                == self.lock_account.bump,
            None => false,
        };
        if !addr_ok {
            return Err(AppError::DepositNotFound);
        }
        if !id_eq(&self.signer, &self.lock_account.beneficiary) {
            return Err(AppError::Unauthorized);
        }
        if !id_eq(&self.beneficiary, &self.lock_account.beneficiary) {
            return Err(AppError::Unauthorized);
        }
        match self.lock_account.mint {
            None => Err(AppError::FundsLocked),
            Some(stored_mint) => {
                if !id_eq(&self.mint, &stored_mint) {
                    return Err(AppError::Unauthorized);
                }
                if now < self.lock_account.unlock_timestamp {
                    return Err(AppError::FundsLocked);
                }
                if self.lock_account.withdrawn {
                    return Err(AppError::AlreadyWithdrawn);
                }
                if self.lock_account.amount == 0 {
                    return Err(AppError::NothingToWithdraw);
                }
                let amount = self.lock_account.amount;
                let event = FundsWithdrawn {
                    lock_account: self.lock_address,
                    beneficiary: self.beneficiary,
                    mint: Some(self.mint),
                    amount,
                };
                let transfer = TokenTransfer {
                    from: self.lock_ata,
                    to: self.beneficiary_ata,
                    authority: self.lock_address,
                    amount,
                };
                let mut record = self.lock_account;
                record.withdrawn = true;
                Ok(SplWithdrawal { record, transfer, event })
            },
        }
    }
}

} // verus!
