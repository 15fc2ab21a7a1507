use vstd::prelude::*;

verus! {

/// The reasons a call can be rejected.  Every rejection is terminal for the
/// whole call: the caller sees the error and no record is created, mutated,
/// or destroyed, and no transfer is requested.
#[derive(Clone, Copy, Debug, PartialEq, Eq, Structural)]
pub enum AppError {
    /// The caller is not the record's beneficiary, or a token identifier on a
    /// withdrawal does not match the one stored in the record.
    Unauthorized,
    /// The requested unlock time is not strictly in the future.
    InvalidReleaseTime,
    /// The record holds no amount to pay out.
    NothingToWithdraw,
    /// The unlock time has not been reached yet, or the withdrawal path does
    /// not match the record's asset kind.
    FundsLocked,
    /// The amount to lock is zero, or the payer cannot cover the transfer.
    InsufficientBalance,
    /// The referenced escrow record does not resolve to a valid address.
    DepositNotFound,
    /// The record was already paid out.
    AlreadyWithdrawn,
    /// The description exceeds the configured maximum length.
    InvalidDescription,
}

} // verus!
