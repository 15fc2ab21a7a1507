//! Withdrawal from a native-coin lock.

use vstd::prelude::*;
use crate::addressing::derive_lock_address;
use crate::addressing::derived_address;
use crate::addressing::lock_seeds;
use crate::error::AppError;
use crate::events::FundsWithdrawn;
use crate::state::LockAccount;
use crate::state::id_eq;
use crate::transfer::NativeTransfer;
use crate::validate::withdraw_error;

verus! {

/// The accounts of a native-coin withdrawal call: the stored record as the
/// host resolved it, the address it was resolved at, the payout account,
/// and the identity that signed the call.
#[derive(Debug)]
pub struct WithdrawSol {
    pub lock_account: LockAccount,
    pub lock_address: [u8; 32],
    pub beneficiary: [u8; 32],
    pub signer: [u8; 32],
}

/// Everything a successful native-coin withdrawal hands the host: the
/// spent record (which the host destroys, returning its storage deposit to
/// the beneficiary), the payout transfer from record custody, and the
/// notification.
#[derive(Debug)]
pub struct SolWithdrawal {
    pub record: LockAccount,
    pub transfer: NativeTransfer,
    pub event: FundsWithdrawn,
}

/// Whether the supplied address really is the record's own: re-derivation
/// from the record's owner and unlock time yields that address with the
/// stored bump.
pub open spec fn address_matches(
    ctx_record: LockAccount,
    lock_address: [u8; 32],
    program_id: Seq<u8>,
) -> bool {
    derived_address(lock_seeds(ctx_record.owner@, ctx_record.unlock_timestamp), program_id)
        == Some((lock_address@, ctx_record.bump))
}

/// What a successful native-coin withdrawal looks like, field by field:
/// the record is returned spent and otherwise untouched, and the full
/// amount moves from record custody to the beneficiary.
pub open spec fn sol_withdrawal_ok(ctx: WithdrawSol, o: SolWithdrawal) -> bool {
    &&& o.record@ == ctx.lock_account@.spent()
    &&& o.transfer.from@ == ctx.lock_address@
    &&& o.transfer.to@ == ctx.beneficiary@
    &&& o.transfer.amount == ctx.lock_account.amount
    &&& o.event.lock_account@ == ctx.lock_address@
    &&& o.event.beneficiary@ == ctx.beneficiary@
    &&& o.event.mint is None
    &&& o.event.amount == ctx.lock_account.amount
}

impl WithdrawSol {
    /// Pays a native-coin lock out: re-derives and checks the record's
    /// address, then checks the caller's authorization, the asset kind,
    /// the time gate, the spent flag, and the amount, in that order, and
    /// first failure rejects the whole call.  On success the record comes
    /// back spent, for the host to destroy together with executing the
    /// payout; a record at any other address than its own is reported as
    /// not found.
    pub fn process(self, program_id: &[u8; 32], now: i64) -> (r: Result<SolWithdrawal, AppError>)
        ensures
            ({
                let addr_ok = address_matches(self.lock_account, self.lock_address, program_id@);
                let err = withdraw_error(
                    self.lock_account@,
                    self.signer@,
                    self.beneficiary@,
                    None,
                    now,
                );
                match r {
                    Ok(o) => addr_ok && err is None && sol_withdrawal_ok(self, o),
                    Err(e) => if !addr_ok {
                        e == AppError::DepositNotFound
                    } else {
                        err == Some(e)
                    },
                }
            }),
    {
        let addr_ok = match derive_lock_address(
            program_id,
            &self.lock_account.owner,
            self.lock_account.unlock_timestamp,
        ) {
            Some((address, bump)) => id_eq(&address, &self.lock_address) && bump
                == self.lock_account.bump,
            None => false,
        };
        if !addr_ok {
            return Err(AppError::DepositNotFound);
        }
        if !id_eq(&self.signer, &self.lock_account.beneficiary) {
            return Err(AppError::Unauthorized);
        }
        if !id_eq(&self.beneficiary, &self.lock_account.beneficiary) {
            return Err(AppError::Unauthorized);
        }
        if self.lock_account.mint.is_some() {
            return Err(AppError::FundsLocked);
        }
        if now < self.lock_account.unlock_timestamp {
            return Err(AppError::FundsLocked);
        }
        if self.lock_account.withdrawn {
            return Err(AppError::AlreadyWithdrawn);
        }
        if self.lock_account.amount == 0 {
            return Err(AppError::NothingToWithdraw);
        }
        let amount = self.lock_account.amount;
        let mut record = self.lock_account;
        record.withdrawn = true;
        let transfer = NativeTransfer { from: self.lock_address, to: self.beneficiary, amount };
        let event = FundsWithdrawn {
            lock_account: self.lock_address,
            beneficiary: self.beneficiary,
            mint: None,
            amount,
        };
        Ok(SolWithdrawal { record, transfer, event })
    }
}

} // verus!
