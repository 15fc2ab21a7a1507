//! A time-locked escrow library.
//!
//! A depositor locks an amount of a fungible asset (the ledger's native coin
//! or a tokenized asset) into a dedicated escrow record, naming a beneficiary
//! and an unlock time.  The beneficiary may withdraw the full amount only
//! after that time has passed, and only once.  The record lives at an address
//! derived deterministically from the depositor's identity and the unlock
//! time, so any party can recompute it without a registry.
//!
//! The library holds the record's lifecycle state machine: validation,
//! authorization, the time gate, the exactly-once withdrawal guarantee, and
//! the fixed-size byte layout of the record.  The host ledger that executes
//! transfers, enforces signatures, and serializes writes to a record is an
//! external collaborator: each operation here returns the transfer it asks
//! the host to perform, as plain data.
//!
//! Two policies are fixed once and applied uniformly to both asset kinds
//! and both operations: record addresses are seeded by the owner's (the
//! depositor's) identity, and withdrawal is permitted to the beneficiary
//! alone — the owner holds no recall capability.

pub mod addressing;
pub mod bytes_le;
pub mod codec;
pub mod error;
pub mod events;
pub mod initialize_lock_sol;
pub mod initialize_lock_spl;
pub mod laws;
pub mod state;
pub mod transfer;
pub mod validate;
pub mod withdraw_sol;
pub mod withdraw_spl;

pub use addressing::derive_lock_address;
pub use error::AppError;
pub use state::LOCK_ACCOUNT_SIZE;
pub use state::LockAccount;
pub use state::MAX_DESCRIPTION_LENGTH;
pub use events::FundsLocked;
pub use events::FundsWithdrawn;
pub use initialize_lock_sol::InitializeLockSol;
pub use initialize_lock_sol::SolLockCreated;
pub use initialize_lock_spl::InitializeLockSpl;
pub use initialize_lock_spl::SplLockCreated;
pub use transfer::NativeTransfer;
pub use transfer::TokenTransfer;
pub use withdraw_sol::SolWithdrawal;
pub use withdraw_sol::WithdrawSol;
pub use withdraw_spl::SplWithdrawal;
pub use withdraw_spl::WithdrawSpl;

use vstd::prelude::*;
use crate::addressing::derived_address;
use crate::addressing::lock_seeds;
use crate::initialize_lock_sol::sol_creation_ok;
use crate::initialize_lock_spl::spl_creation_ok;
use crate::validate::create_error;
use crate::validate::withdraw_error;
use crate::withdraw_sol::address_matches;
use crate::withdraw_sol::sol_withdrawal_ok;
use crate::withdraw_spl::spl_withdrawal_ok;

verus! {

/// Creates a native-coin lock.  `now` is the host-observed time of the
/// call; the host also executes the returned transfer and persists the
/// returned record atomically with it.
pub fn initialize_lock_sol(
    ctx: InitializeLockSol,
    program_id: &[u8; 32],
    amount: u64,
    unlock_timestamp: i64,
    description: Vec<u8>,
    now: i64,
) -> (r: Result<SolLockCreated, AppError>)
    ensures
        ({
            let err = create_error(amount, unlock_timestamp, now, description@.len());
            let d = derived_address(lock_seeds(ctx.payer@, unlock_timestamp), program_id@);
            match r {
                Ok(o) => err is None && o.record@.inv() && o.record@.unlock_timestamp > now
                    && sol_creation_ok(
                    ctx,
                    program_id@,
                    amount,
                    unlock_timestamp,
                    description@,
                    o,
                ),
                Err(e) => match err {
                    Some(e0) => e == e0,
                    None => d is None && e == AppError::DepositNotFound,
                },
            }
        }),
{
    ctx.process(program_id, amount, unlock_timestamp, description, now)
}

/// Creates a tokenized lock.
pub fn initialize_lock_spl(
    ctx: InitializeLockSpl,
    program_id: &[u8; 32],
    amount: u64,
    unlock_timestamp: i64,
    description: Vec<u8>,
    now: i64,
) -> (r: Result<SplLockCreated, AppError>)
    ensures
        ({
            let err = create_error(amount, unlock_timestamp, now, description@.len());
            let d = derived_address(lock_seeds(ctx.payer@, unlock_timestamp), program_id@);
            match r {
                Ok(o) => err is None && o.record@.inv() && o.record@.unlock_timestamp > now
                    && spl_creation_ok(
                    ctx,
                    program_id@,
                    amount,
                    unlock_timestamp,
                    description@,
                    o,
                ),
                Err(e) => match err {
                    Some(e0) => e == e0,
                    None => d is None && e == AppError::DepositNotFound,
                },
            }
        }),
{
    ctx.process(program_id, amount, unlock_timestamp, description, now)
}

/// Withdraws from a native-coin lock.  `ctx` is `None` when the host could
/// not resolve the record's address to a live record — never created, or
/// already destroyed by the one successful withdrawal.
pub fn withdraw_sol(ctx: Option<WithdrawSol>, program_id: &[u8; 32], now: i64) -> (r: Result<
    SolWithdrawal,
    AppError,
>)
    ensures
        ({
            match ctx {
                None => r matches Err(e) && e == AppError::DepositNotFound,
                Some(c) => {
                    let addr_ok = address_matches(c.lock_account, c.lock_address, program_id@);
                    let err = withdraw_error(c.lock_account@, c.signer@, c.beneficiary@, None, now);
                    match r {
                        Ok(o) => addr_ok && err is None && sol_withdrawal_ok(c, o),
                        Err(e) => if !addr_ok {
                            e == AppError::DepositNotFound
                        } else {
                            err == Some(e)
                        },
                    }
                },
            }
        }),
{
    match ctx {
        None => Err(AppError::DepositNotFound),
        Some(c) => c.process(program_id, now),
    }
}

/// Withdraws from a tokenized lock; `ctx` as in the native-coin path.
pub fn withdraw_spl(ctx: Option<WithdrawSpl>, program_id: &[u8; 32], now: i64) -> (r: Result<
    SplWithdrawal,
    AppError,
>)
    ensures
        ({
            match ctx {
                None => r matches Err(e) && e == AppError::DepositNotFound,
                Some(c) => {
                    let addr_ok = address_matches(c.lock_account, c.lock_address, program_id@);
                    let err = withdraw_error(
                        c.lock_account@,
                        c.signer@,
                        c.beneficiary@,
                        Some(c.mint@),
                        now,
                    );
                    match r {
                        Ok(o) => addr_ok && err is None && spl_withdrawal_ok(c, o),
                        Err(e) => if !addr_ok {
                            e == AppError::DepositNotFound
                        } else {
                            err == Some(e)
                        },
                    }
                },
            }
        }),
{
    match ctx {
        None => Err(AppError::DepositNotFound),
        Some(c) => c.process(program_id, now),
    }
}

} // verus!

