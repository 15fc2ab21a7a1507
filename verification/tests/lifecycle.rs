use time_locked_wallet::AppError;
use time_locked_wallet::InitializeLockSol;
use time_locked_wallet::InitializeLockSpl;
use time_locked_wallet::LockAccount;
use time_locked_wallet::WithdrawSol;
use time_locked_wallet::WithdrawSpl;
use time_locked_wallet::initialize_lock_sol;
use time_locked_wallet::initialize_lock_spl;
use time_locked_wallet::withdraw_sol;
use time_locked_wallet::withdraw_spl;

const PROGRAM_ID: [u8; 32] = [9; 32];
const PAYER: [u8; 32] = [1; 32];
const BENEFICIARY: [u8; 32] = [2; 32];

fn native_ctx() -> InitializeLockSol {
    InitializeLockSol { payer: PAYER, beneficiary: BENEFICIARY }
}

#[test]
fn native_lock_full_lifecycle() {
    let now: i64 = 1_700_000_000;
    let unlock = now + 3600;
    let created = initialize_lock_sol(
        native_ctx(),
        &PROGRAM_ID,
        1000,
        unlock,
        b"gift".to_vec(),
        now,
    )
    .expect("valid creation inputs must be accepted");

    // A toy ledger stands in for the host: apply the funding transfer.
    let mut payer_balance: u64 = 5000;
    let mut lock_balance: u64 = 0;
    let mut beneficiary_balance: u64 = 300;
    assert_eq!(created.transfer.from, PAYER);
    assert_eq!(created.transfer.to, created.address);
    assert_eq!(created.transfer.amount, 1000);
    payer_balance -= created.transfer.amount;
    lock_balance += created.transfer.amount;
    assert_eq!(payer_balance, 4000);

    assert_eq!(created.record.owner, PAYER);
    assert_eq!(created.record.beneficiary, BENEFICIARY);
    assert_eq!(created.record.mint, None);
    assert_eq!(created.record.amount, 1000);
    assert_eq!(created.record.unlock_timestamp, unlock);
    assert_eq!(created.record.description, b"gift".to_vec());
    assert!(!created.record.withdrawn);
    assert_eq!(created.event.lock_account, created.address);
    assert_eq!(created.event.amount, 1000);

    // An immediate withdrawal attempt runs into the time gate.
    let early = WithdrawSol {
        lock_account: created.record.clone(),
        lock_address: created.address,
        beneficiary: BENEFICIARY,
        signer: BENEFICIARY,
    };
    assert_eq!(
        withdraw_sol(Some(early), &PROGRAM_ID, now).unwrap_err(),
        AppError::FundsLocked
    );

    // Once the unlock time has passed the beneficiary collects in full.
    let due = WithdrawSol {
        lock_account: created.record.clone(),
        lock_address: created.address,
        beneficiary: BENEFICIARY,
        signer: BENEFICIARY,
    };
    let paid = withdraw_sol(Some(due), &PROGRAM_ID, unlock + 1).expect("due withdrawal succeeds");
    assert_eq!(paid.transfer.from, created.address);
    assert_eq!(paid.transfer.to, BENEFICIARY);
    assert_eq!(paid.transfer.amount, 1000);
    lock_balance -= paid.transfer.amount;
    beneficiary_balance += paid.transfer.amount;
    assert_eq!(lock_balance, 0);
    assert_eq!(beneficiary_balance, 1300);
    assert!(paid.record.withdrawn);
    assert_eq!(paid.event.beneficiary, BENEFICIARY);
    assert_eq!(paid.event.amount, 1000);

    // A repeat against the spent record is refused; once the host has
    // destroyed the record the call cannot even resolve it.
    let again = WithdrawSol {
        lock_account: paid.record.clone(),
        lock_address: created.address,
        beneficiary: BENEFICIARY,
        signer: BENEFICIARY,
    };
    assert_eq!(
        withdraw_sol(Some(again), &PROGRAM_ID, unlock + 2).unwrap_err(),
        AppError::AlreadyWithdrawn
    );
    assert_eq!(
        withdraw_sol(None, &PROGRAM_ID, unlock + 2).unwrap_err(),
        AppError::DepositNotFound
    );
}

#[test]
fn creation_rejects_unlock_time_not_in_future() {
    let now: i64 = 1_700_000_000;
    for unlock in [now, now - 1, i64::MIN] {
        let r = initialize_lock_sol(native_ctx(), &PROGRAM_ID, 1000, unlock, Vec::new(), now);
        assert_eq!(r.unwrap_err(), AppError::InvalidReleaseTime);
    }
}

#[test]
fn creation_rejects_zero_amount() {
    let now: i64 = 1_700_000_000;
    let r = initialize_lock_sol(native_ctx(), &PROGRAM_ID, 0, now + 1, Vec::new(), now);
    assert_eq!(r.unwrap_err(), AppError::InsufficientBalance);
}

#[test]
fn creation_rejects_oversized_description() {
    let now: i64 = 1_700_000_000;
    let r = initialize_lock_sol(
        native_ctx(),
        &PROGRAM_ID,
        1000,
        now + 1,
        vec![b'x'; 101],
        now,
    );
    assert_eq!(r.unwrap_err(), AppError::InvalidDescription);
    let ok = initialize_lock_sol(
        native_ctx(),
        &PROGRAM_ID,
        1000,
        now + 1,
        vec![b'x'; 100],
        now,
    );
    assert!(ok.is_ok());
}

#[test]
fn withdrawal_rejects_wrong_signer() {
    let now: i64 = 1_700_000_000;
    let created =
        initialize_lock_sol(native_ctx(), &PROGRAM_ID, 700, now + 10, Vec::new(), now).unwrap();
    let intruder = [7u8; 32];
    let ctx = WithdrawSol {
        lock_account: created.record.clone(),
        lock_address: created.address,
        beneficiary: intruder,
        signer: intruder,
    };
    // Even long after the unlock time, only the beneficiary may collect.
    assert_eq!(
        withdraw_sol(Some(ctx), &PROGRAM_ID, now + 10_000).unwrap_err(),
        AppError::Unauthorized
    );
    // A mismatched payout account is refused too.
    let ctx = WithdrawSol {
        lock_account: created.record.clone(),
        lock_address: created.address,
        beneficiary: intruder,
        signer: BENEFICIARY,
    };
    assert_eq!(
        withdraw_sol(Some(ctx), &PROGRAM_ID, now + 10_000).unwrap_err(),
        AppError::Unauthorized
    );
}

#[test]
fn withdrawal_rejects_wrong_address() {
    let now: i64 = 1_700_000_000;
    let created =
        initialize_lock_sol(native_ctx(), &PROGRAM_ID, 700, now + 10, Vec::new(), now).unwrap();
    let mut wrong = created.address;
    wrong[0] ^= 0xff;
    let ctx = WithdrawSol {
        lock_account: created.record.clone(),
        lock_address: wrong,
        beneficiary: BENEFICIARY,
        signer: BENEFICIARY,
    };
    assert_eq!(
        withdraw_sol(Some(ctx), &PROGRAM_ID, now + 11).unwrap_err(),
        AppError::DepositNotFound
    );
}

#[test]
fn withdrawal_reports_empty_record() {
    // The amount check is defensive: creation refuses a zero amount, so
    // only a hand-built record can reach it.
    let now: i64 = 1_700_000_000;
    let created =
        initialize_lock_sol(native_ctx(), &PROGRAM_ID, 700, now + 10, Vec::new(), now).unwrap();
    let mut record: LockAccount = created.record.clone();
    record.amount = 0;
    let ctx = WithdrawSol {
        lock_account: record,
        lock_address: created.address,
        beneficiary: BENEFICIARY,
        signer: BENEFICIARY,
    };
    assert_eq!(
        withdraw_sol(Some(ctx), &PROGRAM_ID, now + 11).unwrap_err(),
        AppError::NothingToWithdraw
    );
}

#[test]
fn tokenized_lock_lifecycle_and_mint_mismatch() {
    let now: i64 = 1_700_000_000;
    let mint = [5u8; 32];
    let other_mint = [6u8; 32];
    let payer_ata = [11u8; 32];
    let lock_ata = [12u8; 32];
    let beneficiary_ata = [13u8; 32];
    let ctx = InitializeLockSpl {
        payer: PAYER,
        beneficiary: BENEFICIARY,
        mint,
        payer_ata,
        lock_ata,
    };
    let created = initialize_lock_spl(ctx, &PROGRAM_ID, 50, now + 60, b"vest".to_vec(), now)
        .expect("valid tokenized creation succeeds");
    assert_eq!(created.record.mint, Some(mint));
    assert_eq!(created.transfer.from, payer_ata);
    assert_eq!(created.transfer.to, lock_ata);
    assert_eq!(created.transfer.authority, PAYER);
    assert_eq!(created.transfer.amount, 50);

    // A withdrawal claiming a different token identifier moves nothing.
    let wrong = WithdrawSpl {
        lock_account: created.record.clone(),
        lock_address: created.address,
        beneficiary: BENEFICIARY,
        signer: BENEFICIARY,
        beneficiary_ata,
        lock_ata,
        mint: other_mint,
    };
    assert_eq!(
        withdraw_spl(Some(wrong), &PROGRAM_ID, now + 120).unwrap_err(),
        AppError::Unauthorized
    );

    // With the right identifier the payout runs through record custody.
    let right = WithdrawSpl {
        lock_account: created.record.clone(),
        lock_address: created.address,
        beneficiary: BENEFICIARY,
        signer: BENEFICIARY,
        beneficiary_ata,
        lock_ata,
        mint,
    };
    let paid = withdraw_spl(Some(right), &PROGRAM_ID, now + 120).unwrap();
    assert_eq!(paid.transfer.from, lock_ata);
    assert_eq!(paid.transfer.to, beneficiary_ata);
    assert_eq!(paid.transfer.authority, created.address);
    assert_eq!(paid.transfer.amount, 50);
    assert!(paid.record.withdrawn);
}

#[test]
fn asset_kinds_are_isolated() {
    let now: i64 = 1_700_000_000;
    let mint = [5u8; 32];

    // A native record cannot be drained through the token path.
    let native =
        initialize_lock_sol(native_ctx(), &PROGRAM_ID, 1000, now + 60, Vec::new(), now).unwrap();
    let via_token = WithdrawSpl {
        lock_account: native.record.clone(),
        lock_address: native.address,
        beneficiary: BENEFICIARY,
        signer: BENEFICIARY,
        beneficiary_ata: [13u8; 32],
        lock_ata: [12u8; 32],
        mint,
    };
    assert_eq!(
        withdraw_spl(Some(via_token), &PROGRAM_ID, now + 120).unwrap_err(),
        AppError::FundsLocked
    );

    // Nor a tokenized record through the native path.
    let spl_ctx = InitializeLockSpl {
        payer: PAYER,
        beneficiary: BENEFICIARY,
        mint,
        payer_ata: [11u8; 32],
        lock_ata: [12u8; 32],
    };
    let tokenized =
        initialize_lock_spl(spl_ctx, &PROGRAM_ID, 50, now + 60, Vec::new(), now).unwrap();
    let via_native = WithdrawSol {
        lock_account: tokenized.record.clone(),
        lock_address: tokenized.address,
        beneficiary: BENEFICIARY,
        signer: BENEFICIARY,
    };
    assert_eq!(
        withdraw_sol(Some(via_native), &PROGRAM_ID, now + 120).unwrap_err(),
        AppError::FundsLocked
    );
}

#[test]
fn time_gate_boundary_is_inclusive() {
    let now: i64 = 1_700_000_000;
    let unlock = now + 30;
    let created =
        initialize_lock_sol(native_ctx(), &PROGRAM_ID, 40, unlock, Vec::new(), now).unwrap();
    let at_boundary = WithdrawSol {
        lock_account: created.record.clone(),
        lock_address: created.address,
        beneficiary: BENEFICIARY,
        signer: BENEFICIARY,
    };
    // Exactly at the unlock time the funds are due.
    assert!(withdraw_sol(Some(at_boundary), &PROGRAM_ID, unlock).is_ok());
    let just_before = WithdrawSol {
        lock_account: created.record.clone(),
        lock_address: created.address,
        beneficiary: BENEFICIARY,
        signer: BENEFICIARY,
    };
    assert_eq!(
        withdraw_sol(Some(just_before), &PROGRAM_ID, unlock - 1).unwrap_err(),
        AppError::FundsLocked
    );
}
