use anchor_lang::prelude::Pubkey;
use anchor_spl::associated_token::get_associated_token_address;

use spl_token_timelock::engine::{available_for_withdrawal, create_vesting, withdraw};
use spl_token_timelock::errors::ErrorCode;
use spl_token_timelock::schedule::Vesting;
use spl_token_timelock::validate::{time_check, validate};

const RECIPIENT: [u8; 32] = [7u8; 32];
const MINT: [u8; 32] = [9u8; 32];
const PAYMENT_VAULT: [u8; 32] = [3u8; 32];
const ESCROW_VAULT: [u8; 32] = [4u8; 32];

fn canonical_recipient_token() -> [u8; 32] {
    get_associated_token_address(
        &Pubkey::new_from_array(RECIPIENT),
        &Pubkey::new_from_array(MINT),
    )
    .to_bytes()
}

#[allow(clippy::too_many_arguments)]
fn make_schedule(
    total_amount: u64,
    start_ts: u64,
    end_ts: u64,
    period: u64,
    cliff: u64,
    cliff_release_rate: u64,
    tge_release_rate: u64,
) -> Vesting {
    create_vesting(
        total_amount,
        0,
        0,
        1,
        [0u8; 32],
        [0u8; 64],
        start_ts,
        end_ts,
        period,
        cliff,
        cliff_release_rate,
        tge_release_rate,
        true,
        0,
        total_amount,
        PAYMENT_VAULT,
        RECIPIENT,
        canonical_recipient_token(),
        MINT,
        ESCROW_VAULT,
    )
    .unwrap()
}

#[test]
fn validator_rejects_late_now() {
    let r = validate(100, 50, 200, 10, 0, 0, 0, false);
    assert_eq!(r, Err(ErrorCode::InvalidSchedule));
}

#[test]
fn validator_rejects_zero_period() {
    let r = validate(10, 50, 200, 0, 0, 0, 0, false);
    assert_eq!(r, Err(ErrorCode::InvalidPeriod));
}

#[test]
fn validator_rejects_period_spanning_duration() {
    assert_eq!(validate(10, 50, 200, 150, 0, 0, 0, false), Err(ErrorCode::InvalidPeriod));
    assert_eq!(validate(10, 50, 200, 151, 0, 0, 0, false), Err(ErrorCode::InvalidPeriod));
    assert_eq!(validate(10, 50, 200, 149, 0, 0, 0, false), Ok(()));
}

#[test]
fn validator_rejects_rate_sum_over_hundred() {
    let r = validate(10, 50, 200, 10, 0, 60, 50, false);
    assert_eq!(r, Err(ErrorCode::InvalidReleaseRate));
    assert_eq!(validate(10, 50, 200, 10, 0, 101, 0, false), Err(ErrorCode::InvalidReleaseRate));
    assert_eq!(validate(10, 50, 200, 10, 0, 0, 101, false), Err(ErrorCode::InvalidReleaseRate));
}

#[test]
fn validator_accepts_valid_schedule() {
    assert_eq!(validate(10, 50, 200, 10, 0, 60, 40, false), Ok(()));
    assert_eq!(validate(10, 50, 200, 10, 125, 20, 10, false), Ok(()));
}

#[test]
fn time_check_bounds_the_cliff() {
    assert!(time_check(10, 50, 200, 0));
    assert!(time_check(10, 50, 200, 50));
    assert!(time_check(10, 50, 200, 200));
    assert!(!time_check(10, 50, 200, 49));
    assert!(!time_check(10, 50, 200, 201));
    assert!(!time_check(50, 50, 200, 0));
    assert!(!time_check(10, 200, 200, 0));
}

#[test]
fn create_derives_unlock_constants() {
    let v = make_schedule(1000, 0, 1000, 100, 0, 0, 10);
    assert_eq!(v.magic, 0x544D4C4B);
    assert_eq!(v.version, 1);
    assert_eq!(v.tge_amount, 100);
    assert_eq!(v.cliff_amount, 0);
    assert_eq!(v.periodic_unlock_amount, 90);
    assert_eq!(v.withdrawn_amount, 0);
    assert_eq!(v.remaining_amount, 1000);
    assert_eq!(v.total_amount, 1000);
    assert_eq!(v.accounting_ts, 0);
    assert_eq!(v.last_withdrawn_at, 0);
}

#[test]
fn end_to_end_partial_then_terminal() {
    let mut v = make_schedule(1000, 0, 1000, 100, 0, 0, 10);

    // Two full ticks plus the TGE portion, nothing withdrawn yet.
    assert_eq!(available_for_withdrawal(&v, 250), 280);

    assert_eq!(withdraw(&mut v, 250, 280), Ok(()));
    assert_eq!(v.withdrawn_amount, 280);
    assert_eq!(v.remaining_amount, 720);
    assert_eq!(v.accounting_ts, 200);
    assert_eq!(v.last_withdrawn_at, 250);

    // At the end everything left becomes available, rounding residue included.
    assert_eq!(available_for_withdrawal(&v, 1000), 720);
    assert_eq!(withdraw(&mut v, 1000, 720), Ok(()));
    assert_eq!(v.withdrawn_amount, 1000);
    assert_eq!(v.remaining_amount, 0);
}

#[test]
fn cliff_unlocks_instantly_at_threshold() {
    let v = make_schedule(1000, 0, 1000, 300, 500, 20, 0);
    assert_eq!(v.cliff_amount, 200);
    assert_eq!(v.tge_amount, 0);
    assert_eq!(v.periodic_unlock_amount, 240);

    let before = available_for_withdrawal(&v, 499);
    let at = available_for_withdrawal(&v, 500);
    assert_eq!(before, 240);
    assert_eq!(at, 440);
    assert_eq!(at - before, 200);
}

#[test]
fn available_read_is_idempotent() {
    let v = make_schedule(1000, 0, 1000, 100, 0, 0, 10);
    let first = available_for_withdrawal(&v, 333);
    let second = available_for_withdrawal(&v, 333);
    assert_eq!(first, second);
}

#[test]
fn withdrawn_amount_is_monotone_over_operations() {
    let mut v = make_schedule(1000, 0, 1000, 100, 0, 0, 10);
    let mut last_withdrawn = v.withdrawn_amount;
    let steps: [(u64, u64); 5] = [(150, 50), (250, 100), (250, 500), (400, 1), (1000, 200)];
    for (now, amount) in steps {
        let _ = withdraw(&mut v, now, amount);
        assert!(v.withdrawn_amount >= last_withdrawn);
        last_withdrawn = v.withdrawn_amount;
    }
}

#[test]
fn ledger_conserves_the_deposit() {
    let mut v = make_schedule(1000, 0, 1000, 100, 0, 0, 10);
    assert_eq!(v.withdrawn_amount + v.remaining_amount, v.total_amount);
    let steps: [(u64, u64); 4] = [(150, 90), (250, 100), (980, 1), (1000, 700)];
    for (now, amount) in steps {
        let _ = withdraw(&mut v, now, amount);
        assert_eq!(v.withdrawn_amount + v.remaining_amount, v.total_amount);
    }
}

#[test]
fn terminal_completeness_whatever_the_path() {
    // Path one: no withdrawals before the end.
    let idle = make_schedule(1000, 0, 1000, 100, 0, 0, 10);
    assert_eq!(available_for_withdrawal(&idle, 1000), idle.remaining_amount);

    // Path two: several withdrawals first.
    let mut busy = make_schedule(1000, 0, 1000, 100, 0, 0, 10);
    assert_eq!(withdraw(&mut busy, 150, 100), Ok(()));
    assert_eq!(withdraw(&mut busy, 451, 250), Ok(()));
    assert_eq!(available_for_withdrawal(&busy, 1000), busy.remaining_amount);
    assert_eq!(available_for_withdrawal(&busy, u64::MAX), busy.remaining_amount);
}

#[test]
fn overdraw_fails_closed() {
    let mut v = make_schedule(1000, 0, 1000, 100, 0, 0, 10);
    let available = available_for_withdrawal(&v, 250);
    let r = withdraw(&mut v, 250, available + 1);
    assert_eq!(r, Err(ErrorCode::InsufficientWithdrawalAmount));
    assert_eq!(v.withdrawn_amount, 0);
    assert_eq!(v.remaining_amount, 1000);
    assert_eq!(v.accounting_ts, 0);
    assert_eq!(v.last_withdrawn_at, 0);
}

#[test]
fn zero_withdrawal_fails() {
    let mut v = make_schedule(1000, 0, 1000, 100, 0, 0, 10);
    assert_eq!(withdraw(&mut v, 250, 0), Err(ErrorCode::InvalidWithdrawalAmount));
    assert_eq!(v.withdrawn_amount, 0);
    assert_eq!(v.remaining_amount, 1000);
}

#[test]
fn nothing_unlocked_means_nothing_withdrawable() {
    let mut v = make_schedule(1000, 100, 1100, 100, 0, 0, 0);
    assert_eq!(available_for_withdrawal(&v, 150), 0);
    assert_eq!(withdraw(&mut v, 150, 1), Err(ErrorCode::InsufficientWithdrawalAmount));
}

#[test]
fn create_rejects_zero_deposit() {
    let r = create_vesting(
        0,
        0,
        0,
        1,
        [0u8; 32],
        [0u8; 64],
        50,
        200,
        10,
        0,
        0,
        0,
        false,
        10,
        0,
        PAYMENT_VAULT,
        RECIPIENT,
        canonical_recipient_token(),
        MINT,
        ESCROW_VAULT,
    );
    assert!(matches!(r, Err(ErrorCode::InvalidDepositAmount)));
}

#[test]
fn create_rejects_underfunded_vault() {
    let r = create_vesting(
        1000,
        0,
        0,
        1,
        [0u8; 32],
        [0u8; 64],
        50,
        200,
        10,
        0,
        0,
        0,
        false,
        10,
        999,
        PAYMENT_VAULT,
        RECIPIENT,
        canonical_recipient_token(),
        MINT,
        ESCROW_VAULT,
    );
    assert!(matches!(r, Err(ErrorCode::InsufficientDepositAmount)));
}

#[test]
fn create_rejects_wrong_receiving_account() {
    // The recipient's own address is never its associated token address.
    let r = create_vesting(
        1000,
        0,
        0,
        1,
        [0u8; 32],
        [0u8; 64],
        50,
        200,
        10,
        0,
        0,
        0,
        false,
        10,
        1000,
        PAYMENT_VAULT,
        RECIPIENT,
        RECIPIENT,
        MINT,
        ESCROW_VAULT,
    );
    assert!(matches!(r, Err(ErrorCode::InvalidAssociatedTokenAddress)));
}

#[test]
fn create_accepts_canonical_receiving_account() {
    let r = create_vesting(
        1000,
        5,
        6,
        42,
        [1u8; 32],
        [2u8; 64],
        50,
        200,
        10,
        0,
        0,
        0,
        false,
        10,
        1000,
        PAYMENT_VAULT,
        RECIPIENT,
        canonical_recipient_token(),
        MINT,
        ESCROW_VAULT,
    );
    let v = r.unwrap();
    assert_eq!(v.recipient_token, canonical_recipient_token());
    assert_eq!(v.created_ts, 10);
    assert_eq!(v.start_ts, 50);
    assert_eq!(v.end_ts, 200);
    assert_eq!(v.accounting_ts, 50);
    assert_eq!(v.vesting_id, 42);
    assert_eq!(v.escrow_vault_bump, 5);
    assert_eq!(v.vesting_bump, 6);
    assert_eq!(v.granter, PAYMENT_VAULT);
    assert_eq!(v.granter_token, PAYMENT_VAULT);
}

#[test]
fn create_rejects_bad_times_unless_bypassed() {
    let r = create_vesting(
        1000,
        0,
        0,
        1,
        [0u8; 32],
        [0u8; 64],
        50,
        200,
        10,
        0,
        0,
        0,
        false,
        100,
        1000,
        PAYMENT_VAULT,
        RECIPIENT,
        canonical_recipient_token(),
        MINT,
        ESCROW_VAULT,
    );
    assert!(matches!(r, Err(ErrorCode::InvalidSchedule)));

    let bypassed = create_vesting(
        1000,
        0,
        0,
        1,
        [0u8; 32],
        [0u8; 64],
        50,
        200,
        10,
        0,
        0,
        0,
        true,
        100,
        1000,
        PAYMENT_VAULT,
        RECIPIENT,
        canonical_recipient_token(),
        MINT,
        ESCROW_VAULT,
    );
    assert!(bypassed.is_ok());
}

#[test]
fn largest_deposit_has_no_overflow() {
    let mut v = make_schedule(u64::MAX, 0, 1_000_000, 1000, 500_000, 30, 10);
    assert_eq!(v.tge_amount, u64::MAX / 10);
    assert_eq!(v.cliff_amount, (u64::MAX as u128 * 30 / 100) as u64);
    let unlockable = u64::MAX - v.tge_amount - v.cliff_amount;
    assert_eq!(
        v.periodic_unlock_amount,
        (unlockable as u128 * 1000 / 1_000_000) as u64
    );
    let near_end = available_for_withdrawal(&v, 999_999);
    assert!(near_end <= u64::MAX - 1);
    assert_eq!(available_for_withdrawal(&v, 1_000_000), u64::MAX);
    assert_eq!(withdraw(&mut v, 1_000_000, u64::MAX), Ok(()));
    assert_eq!(v.withdrawn_amount, u64::MAX);
    assert_eq!(v.remaining_amount, 0);
}

#[test]
fn no_ticks_before_one_whole_period() {
    let v = make_schedule(1000, 0, 1000, 100, 0, 0, 10);
    assert_eq!(available_for_withdrawal(&v, 99), 100);
    assert_eq!(available_for_withdrawal(&v, 100), 190);
}

#[test]
fn only_tge_available_before_start() {
    let v = make_schedule(1000, 500, 1500, 100, 0, 0, 10);
    assert_eq!(available_for_withdrawal(&v, 0), 100);
    assert_eq!(available_for_withdrawal(&v, 499), 100);
    assert_eq!(available_for_withdrawal(&v, 600), 190);
}

#[test]
fn rebaseline_snaps_to_period_boundary() {
    let mut v = make_schedule(1000, 0, 1000, 100, 0, 0, 10);
    assert_eq!(withdraw(&mut v, 457, 10), Ok(()));
    assert_eq!(v.accounting_ts, 400);
    assert_eq!(v.last_withdrawn_at, 457);
    assert_eq!(withdraw(&mut v, 500, 10), Ok(()));
    assert_eq!(v.accounting_ts, 500);
}
