//! The shared validation rules of the two operations.
//!
//! Each operation checks its preconditions in a fixed order and rejects the
//! whole call at the first violation; these spec functions name the error
//! that a given input earns, or `None` when every check passes.  They are
//! the reference that the executable operations are proved against, and
//! that the library's laws are stated over.

use vstd::prelude::*;
use crate::error::AppError;
use crate::state::LockAccountV;
use crate::state::MAX_DESCRIPTION_LENGTH;

verus! {

/// The error a lock-creation call earns, or `None` when the description is
/// within bounds, the unlock time is strictly in the future, and the amount
/// is positive.  Both asset variants share these checks.
pub open spec fn create_error(
    amount: u64,
    unlock_timestamp: i64,
    now: i64,
    description_len: nat,
) -> Option<AppError> {
    if description_len > MAX_DESCRIPTION_LENGTH {
        Some(AppError::InvalidDescription)
    } else if unlock_timestamp <= now {
        Some(AppError::InvalidReleaseTime)
    } else if amount == 0 {
        Some(AppError::InsufficientBalance)
    } else {
        None
    }
}

/// The checks shared by both withdrawal paths once authorization and the
/// asset kind have passed: the time gate, the spent flag, and a defensive
/// amount check.
pub open spec fn withdraw_tail_error(lock: LockAccountV, now: i64) -> Option<AppError> {
    if now < lock.unlock_timestamp {
        Some(AppError::FundsLocked)
    } else if lock.withdrawn {
        Some(AppError::AlreadyWithdrawn)
    } else if lock.amount == 0 {
        Some(AppError::NothingToWithdraw)
    } else {
        None
    }
}

/// The error a withdrawal call earns, or `None` when it may pay out.
///
/// `signer` is the identity that signed the call and `beneficiary` the
/// payout account it supplied; both must equal the record's beneficiary.
/// `token_call` is `None` for the native-coin path and carries the token
/// identifier for the token path; it must match the record's asset kind,
/// and on the token path the identifier must match the record's.  After
/// those, the time gate, the spent flag, and the amount are checked, in
/// that order.
pub open spec fn withdraw_error(
    lock: LockAccountV,
    signer: Seq<u8>,
    beneficiary: Seq<u8>,
    token_call: Option<Seq<u8>>,
    now: i64,
) -> Option<AppError> {
    if signer != lock.beneficiary {
        Some(AppError::Unauthorized)
    } else if beneficiary != lock.beneficiary {
        Some(AppError::Unauthorized)
    } else {
        match token_call {
            None => {
                if lock.mint is Some {
                    Some(AppError::FundsLocked)
                } else {
                    withdraw_tail_error(lock, now)
                }
            },
            Some(mint) => {
                match lock.mint {
                    None => Some(AppError::FundsLocked),
                    Some(stored) => {
                        if mint != stored {
                            Some(AppError::Unauthorized)
                        } else {
                            withdraw_tail_error(lock, now)
                        }
                    },
                }
            },
        }
    }
}

} // verus!
