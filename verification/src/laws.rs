//! The laws of the escrow lifecycle, stated over the validation rules and
//! the record's mathematical image, and proved once for all inputs.

use vstd::prelude::*;
use crate::error::AppError;
use crate::state::LockAccountV;
use crate::state::MAX_DESCRIPTION_LENGTH;
use crate::validate::create_error;
use crate::validate::withdraw_error;

verus! {

/// Valid creation inputs are accepted: a positive amount, an unlock time
/// strictly in the future, and a description within bounds pass every
/// creation check, and the record such a call persists satisfies the
/// record invariants — positive amount, bounded description, a future
/// unlock time at creation, and the spent flag down.
pub proof fn lemma_create_valid(
    owner: Seq<u8>,
    beneficiary: Seq<u8>,
    mint: Option<Seq<u8>>,
    amount: u64,
    unlock_timestamp: i64,
    now: i64,
    description: Seq<u8>,
    bump: u8,
)
    requires
        amount > 0,
        unlock_timestamp > now,
        description.len() <= MAX_DESCRIPTION_LENGTH,
        owner.len() == 32,
        beneficiary.len() == 32,
        match mint {
            Some(m) => m.len() == 32,
            None => true,
        },
    ensures
        create_error(amount, unlock_timestamp, now, description.len()) is None,
        (LockAccountV {
            owner,
            beneficiary,
            mint,
            amount,
            unlock_timestamp,
            description,
            withdrawn: false,
            bump,
        }).inv(),
{
}

/// An unlock time at or before the observed time is rejected as an invalid
/// release time, whatever the rest of the call holds — so no record and no
/// transfer can come of it.
pub proof fn lemma_create_rejects_past_unlock(
    amount: u64,
    unlock_timestamp: i64,
    now: i64,
    description_len: nat,
)
    requires
        unlock_timestamp <= now,
        description_len <= MAX_DESCRIPTION_LENGTH,
    ensures
        create_error(amount, unlock_timestamp, now, description_len) == Some(
            AppError::InvalidReleaseTime,
        ),
{
}

/// A zero amount is rejected as an insufficient balance whenever the call
/// gets as far as the amount check.
pub proof fn lemma_create_rejects_zero_amount(unlock_timestamp: i64, now: i64, description_len: nat)
    requires
        description_len <= MAX_DESCRIPTION_LENGTH,
        unlock_timestamp > now,
    ensures
        create_error(0, unlock_timestamp, now, description_len) == Some(
            AppError::InsufficientBalance,
        ),
{
}

/// Withdrawal happens exactly once.  The host serializes the calls that
/// touch one record, so any number of concurrent withdrawals reach it one
/// after another; once one has succeeded and marked the record spent, no
/// later call can succeed again, and a repeat of the successful call
/// (host time never running backwards) is told precisely that the deposit
/// was already withdrawn.  A later call that instead finds the record
/// destroyed is answered `DepositNotFound` by the withdrawal entry points.
pub proof fn lemma_withdraw_exactly_once(
    lock: LockAccountV,
    signer: Seq<u8>,
    beneficiary: Seq<u8>,
    token_call: Option<Seq<u8>>,
    now: i64,
    later: i64,
)
    requires
        withdraw_error(lock, signer, beneficiary, token_call, now) is None,
        later >= now,
    ensures
        withdraw_error(lock.spent(), signer, beneficiary, token_call, later) == Some(
            AppError::AlreadyWithdrawn,
        ),
        forall|s2: Seq<u8>, b2: Seq<u8>, t2: Option<Seq<u8>>, n2: i64|
            #[trigger] withdraw_error(lock.spent(), s2, b2, t2, n2) is Some,
{
}

/// The time gate: a call by the rightful beneficiary, on the matching
/// asset path, against a live funded record, fails with `FundsLocked`
/// strictly before the unlock time and passes every check from it on.
pub proof fn lemma_time_gate(lock: LockAccountV, token_call: Option<Seq<u8>>, now: i64)
    requires
        lock.withdrawn == false,
        lock.amount > 0,
        match token_call {
            None => lock.mint is None,
            Some(m) => lock.mint == Some(m),
        },
    ensures
        now < lock.unlock_timestamp ==> withdraw_error(
            lock,
            lock.beneficiary,
            lock.beneficiary,
            token_call,
            now,
        ) == Some(AppError::FundsLocked),
        now >= lock.unlock_timestamp ==> withdraw_error(
            lock,
            lock.beneficiary,
            lock.beneficiary,
            token_call,
            now,
        ) is None,
{
}

/// Authorization: a withdrawal signed by any identity other than the
/// record's beneficiary is `Unauthorized`, regardless of timing, of the
/// asset kind, and of the record's state.
pub proof fn lemma_authorization(
    lock: LockAccountV,
    signer: Seq<u8>,
    beneficiary: Seq<u8>,
    token_call: Option<Seq<u8>>,
    now: i64,
)
    requires
        signer != lock.beneficiary,
    ensures
        withdraw_error(lock, signer, beneficiary, token_call, now) == Some(AppError::Unauthorized),
{
}

/// Asset-kind isolation: a native-coin record can never be drained through
/// the token path, nor a tokenized record through the native path — every
/// such call fails, with `FundsLocked` once authorization has passed and
/// `Unauthorized` otherwise.  With the transfer paths pinned by the
/// operations' contracts to the record's own kind, a record's funds move
/// only by the protocol it was created under.
pub proof fn lemma_asset_isolation(
    lock: LockAccountV,
    signer: Seq<u8>,
    beneficiary: Seq<u8>,
    token_call: Option<Seq<u8>>,
    now: i64,
)
    requires
        match token_call {
            None => lock.mint is Some,
            Some(m) => lock.mint is None,
        },
    ensures
        withdraw_error(lock, signer, beneficiary, token_call, now) is Some,
        signer == lock.beneficiary && beneficiary == lock.beneficiary ==> withdraw_error(
            lock,
            signer,
            beneficiary,
            token_call,
            now,
        ) == Some(AppError::FundsLocked),
        withdraw_error(lock, signer, beneficiary, token_call, now) != Some(
            AppError::AlreadyWithdrawn,
        ) && withdraw_error(lock, signer, beneficiary, token_call, now) != Some(
            AppError::NothingToWithdraw,
        ),
{
}

} // verus!
