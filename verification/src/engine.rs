//! The unlock engine: creating a schedule record, computing the amount a
//! recipient may withdraw at a given time, and applying the ledger update
//! of a withdrawal.

use vstd::prelude::*;

use crate::errors::ErrorCode;
use crate::math::{
    lemma_linear_unlock_bound,
    lemma_mul_fits_u128,
    lemma_periodic_le_remainder,
    lemma_rate_amount_le,
    lemma_rate_amounts_sum_le,
    lemma_rebaseline,
};
use crate::schedule::{
    spec_cliff_amount,
    spec_periodic_unlock_amount,
    spec_tge_amount,
    Vesting,
    VESTING_MAGIC,
    VESTING_VERSION,
};
use crate::token_address::{associated_token_address, derive_associated_token_address};
use crate::validate::{
    spec_time_check,
    spec_valid_period,
    spec_valid_rates,
    spec_valid_schedule,
    validate,
};

verus! {

/// Whole periods elapsed between the schedule start and `now`; none before
/// the start.
pub open spec fn elapsed_ticks(v: Vesting, now: u64) -> int {
    if now >= v.start_ts {
        (now - v.start_ts) / (v.period as int)
    } else {
        0
    }
}

/// The cliff contribution at `now`: the cliff amount once an enabled cliff
/// timestamp has passed, nothing otherwise.
pub open spec fn cliff_portion(v: Vesting, now: u64) -> int {
    if v.cliff != 0 && now >= v.cliff {
        v.cliff_amount as int
    } else {
        0
    }
}

/// The cumulative amount unlocked at `now`: the whole deposit once the
/// schedule has ended (so no funds are ever stranded by truncation), and
/// before that the linear unlock accrued in whole-period ticks plus the TGE
/// portion plus the cliff portion.
pub open spec fn unlocked_amount(v: Vesting, now: u64) -> int {
    if now >= v.end_ts {
        v.total_amount as int
    } else {
        elapsed_ticks(v, now) * v.periodic_unlock_amount + v.tge_amount + cliff_portion(v, now)
    }
}

/// The amount available for withdrawal at `now`: what is unlocked but not
/// yet withdrawn, never negative.
pub open spec fn available_amount(v: Vesting, now: u64) -> int {
    if unlocked_amount(v, now) >= v.withdrawn_amount {
        unlocked_amount(v, now) - v.withdrawn_amount
    } else {
        0
    }
}

/// On a well-formed record the unlocked amount lies between zero and the
/// deposit at every time: the linear unlock can never release more than the
/// principal it amortizes.
pub proof fn lemma_unlocked_bounds(v: Vesting, now: u64)
    requires
        v.wf(),
    ensures
        0 <= unlocked_amount(v, now) <= v.total_amount,
{
    if now < v.end_ts {
        let rem = v.total_amount - v.tge_amount - v.cliff_amount;
        let dur = v.end_ts - v.start_ts;
        if now >= v.start_ts {
            lemma_linear_unlock_bound(now - v.start_ts, v.period as int, rem, dur);
        }
    }
}

/// The fields of a vesting record as creation writes them: a fresh ledger,
/// the identities and timestamps as supplied, and the unlock constants
/// derived from the deposit and the rates.
pub open spec fn created_vesting_record(
    v: Vesting,
    total_amount: u64,
    escrow_vault_bump: u8,
    vesting_bump: u8,
    vesting_id: u64,
    vesting_name: [u8; 32],
    investor_wallet_address: [u8; 64],
    start_ts: u64,
    end_ts: u64,
    period: u64,
    cliff: u64,
    cliff_release_rate: u64,
    tge_release_rate: u64,
    now: u64,
    payment_vault: [u8; 32],
    recipient: [u8; 32],
    recipient_token: [u8; 32],
    mint: [u8; 32],
    escrow_vault: [u8; 32],
) -> bool {
    &&& v.magic == VESTING_MAGIC
    &&& v.version == VESTING_VERSION
    &&& v.escrow_vault_bump == escrow_vault_bump
    &&& v.vesting_bump == vesting_bump
    &&& v.vesting_id == vesting_id
    &&& v.vesting_name == vesting_name
    &&& v.investor_wallet_address == investor_wallet_address
    &&& v.withdrawn_amount == 0
    &&& v.remaining_amount == total_amount
    &&& v.total_amount == total_amount
    &&& v.granter == payment_vault
    &&& v.granter_token == payment_vault
    &&& v.recipient == recipient
    &&& v.recipient_token == recipient_token
    &&& v.mint == mint
    &&& v.escrow_vault == escrow_vault
    &&& v.created_ts == now
    &&& v.start_ts == start_ts
    &&& v.end_ts == end_ts
    &&& v.accounting_ts == start_ts
    &&& v.last_withdrawn_at == 0
    &&& v.period == period
    &&& v.cliff == cliff
    &&& v.cliff_release_rate == cliff_release_rate
    &&& v.cliff_amount == spec_cliff_amount(total_amount, cliff_release_rate, cliff)
    &&& v.tge_release_rate == tge_release_rate
    &&& v.tge_amount == spec_tge_amount(total_amount, tge_release_rate)
    &&& v.periodic_unlock_amount == spec_periodic_unlock_amount(
        total_amount,
        spec_tge_amount(total_amount, tge_release_rate),
        spec_cliff_amount(total_amount, cliff_release_rate, cliff),
        start_ts,
        end_ts,
        period,
    )
}

/// Byte-for-byte equality of two 32-byte addresses.
fn bytes32_eq(a: &[u8; 32], b: &[u8; 32]) -> (r: bool)
    ensures
        r <==> a@ == b@,
{
    let mut i: usize = 0;
    while i < 32
        invariant
            0 <= i <= 32,
            forall|j: int| 0 <= j < i ==> a@[j] == b@[j],
        decreases 32 - i,
    {
        if a[i] != b[i] {
            return false;
        }
        i = i + 1;
    }
    proof {
        assert(a@ =~= b@);
    }
    true
}

/// Validates a proposed schedule, checks the deposit and the recipient's
/// receiving account, and builds the vesting record with its derived unlock
/// constants: the one-time TGE portion and the cliff portion as truncating
/// percentages of the deposit, and the per-period linear unlock amortizing
/// the rest over the schedule duration.
///
/// On success the returned record is well formed, with nothing withdrawn
/// and the whole deposit remaining; the caller is expected to move the
/// deposit into the escrow vault in the same atomic operation. On failure
/// no record is produced.
pub fn create_vesting(
    total_amount: u64,
    escrow_vault_bump: u8,
    vesting_bump: u8,
    vesting_id: u64,
    vesting_name: [u8; 32],
    investor_wallet_address: [u8; 64],
    start_ts: u64,
    end_ts: u64,
    period: u64,
    cliff: u64,
    cliff_release_rate: u64,
    tge_release_rate: u64,
    bypass_timestamp_check: bool,
    now: u64,
    payment_vault_balance: u64,
    payment_vault: [u8; 32],
    recipient: [u8; 32],
    recipient_token: [u8; 32],
    mint: [u8; 32],
    escrow_vault: [u8; 32],
) -> (r: Result<Vesting, ErrorCode>)
    ensures
        r is Ok <==> (spec_valid_schedule(
            now,
            start_ts,
            end_ts,
            period,
            cliff,
            tge_release_rate,
            cliff_release_rate,
            bypass_timestamp_check,
        ) && total_amount != 0 && payment_vault_balance >= total_amount && recipient_token@
            == associated_token_address(recipient@, mint@)),
        r == Err::<Vesting, ErrorCode>(ErrorCode::InvalidSchedule) <==> (!bypass_timestamp_check
            && !spec_time_check(now, start_ts, end_ts, cliff)),
        r == Err::<Vesting, ErrorCode>(ErrorCode::InvalidPeriod) <==> ((bypass_timestamp_check
            || spec_time_check(now, start_ts, end_ts, cliff)) && !spec_valid_period(
            start_ts,
            end_ts,
            period,
        )),
        r == Err::<Vesting, ErrorCode>(ErrorCode::InvalidReleaseRate) <==> ((bypass_timestamp_check
            || spec_time_check(now, start_ts, end_ts, cliff)) && spec_valid_period(
            start_ts,
            end_ts,
            period,
        ) && !spec_valid_rates(tge_release_rate, cliff_release_rate)),
        r == Err::<Vesting, ErrorCode>(ErrorCode::InvalidDepositAmount) <==> (spec_valid_schedule(
            now,
            start_ts,
            end_ts,
            period,
            cliff,
            tge_release_rate,
            cliff_release_rate,
            bypass_timestamp_check,
        ) && total_amount == 0),
        r == Err::<Vesting, ErrorCode>(ErrorCode::InsufficientDepositAmount) <==> (
        spec_valid_schedule(
            now,
            start_ts,
            end_ts,
            period,
            cliff,
            tge_release_rate,
            cliff_release_rate,
            bypass_timestamp_check,
        ) && total_amount != 0 && payment_vault_balance < total_amount),
        r == Err::<Vesting, ErrorCode>(ErrorCode::InvalidAssociatedTokenAddress) <==> (
        spec_valid_schedule(
            now,
            start_ts,
            end_ts,
            period,
            cliff,
            tge_release_rate,
            cliff_release_rate,
            bypass_timestamp_check,
        ) && total_amount != 0 && payment_vault_balance >= total_amount && recipient_token@
            != associated_token_address(recipient@, mint@)),
        r matches Ok(v) ==> created_vesting_record(
            v,
            total_amount,
            escrow_vault_bump,
            vesting_bump,
            vesting_id,
            vesting_name,
            investor_wallet_address,
            start_ts,
            end_ts,
            period,
            cliff,
            cliff_release_rate,
            tge_release_rate,
            now,
            payment_vault,
            recipient,
            recipient_token,
            mint,
            escrow_vault,
        ),
        r matches Ok(v) ==> v.wf(),
{
    match validate(
        now,
        start_ts,
        end_ts,
        period,
        cliff,
        tge_release_rate,
        cliff_release_rate,
        bypass_timestamp_check,
    ) {
        Err(e) => {
            return Err(e);
        },
        Ok(()) => {},
    }

    if total_amount == 0 {
        return Err(ErrorCode::InvalidDepositAmount);
    }

    if payment_vault_balance < total_amount {
        return Err(ErrorCode::InsufficientDepositAmount);
    }

    let derived = derive_associated_token_address(&recipient, &mint);
    if !bytes32_eq(&derived, &recipient_token) {
        return Err(ErrorCode::InvalidAssociatedTokenAddress);
    }

    proof {
        lemma_rate_amount_le(total_amount as int, tge_release_rate as int);
        lemma_rate_amount_le(total_amount as int, cliff_release_rate as int);
        lemma_rate_amounts_sum_le(
            total_amount as int,
            tge_release_rate as int,
            cliff_release_rate as int,
        );
        lemma_mul_fits_u128(total_amount as int, tge_release_rate as int);
        lemma_mul_fits_u128(total_amount as int, cliff_release_rate as int);
    }
    let tge_amount: u64 = ((total_amount as u128) * (tge_release_rate as u128) / 100) as u64;
    let cliff_amount: u64 = if cliff != 0 {
        ((total_amount as u128) * (cliff_release_rate as u128) / 100) as u64
    } else {
        0
    };

    let unlockable: u64 = total_amount - tge_amount - cliff_amount;
    let duration: u64 = end_ts - start_ts;
    proof {
        lemma_periodic_le_remainder(unlockable as int, period as int, duration as int);
        lemma_mul_fits_u128(unlockable as int, period as int);
    }
    let periodic_unlock_amount: u64 = ((unlockable as u128) * (period as u128) / (
    duration as u128)) as u64;

    Ok(
        Vesting {
            magic: VESTING_MAGIC,
            version: VESTING_VERSION,
            escrow_vault_bump,
            vesting_bump,
            vesting_id,
            vesting_name,
            investor_wallet_address,
            withdrawn_amount: 0,
            remaining_amount: total_amount,
            total_amount,
            granter: payment_vault,
            granter_token: payment_vault,
            recipient,
            recipient_token,
            mint,
            escrow_vault,
            created_ts: now,
            start_ts,
            end_ts,
            accounting_ts: start_ts,
            last_withdrawn_at: 0,
            period,
            cliff,
            cliff_release_rate,
            cliff_amount,
            tge_release_rate,
            tge_amount,
            periodic_unlock_amount,
        },
    )
}

/// Computes how much of the deposit may be withdrawn at `current_ts`.
///
/// Once the schedule has ended the whole remaining ledger amount is
/// available, so rounding residues of the linear amortization are released
/// with the final withdrawal. Before the end, the available amount is the
/// accrued unlock minus what was already withdrawn. The computation is a
/// pure read: the result is a function of the record and the queried time
/// alone, and never exceeds the remaining amount.
pub fn available_for_withdrawal(vesting: &Vesting, current_ts: u64) -> (r: u64)
    requires
        vesting.wf(),
    ensures
        r == available_amount(*vesting, current_ts),
        current_ts >= vesting.end_ts ==> r == vesting.remaining_amount,
        r <= vesting.remaining_amount,
{
    if current_ts >= vesting.end_ts {
        return vesting.remaining_amount;
    }

    proof {
        lemma_unlocked_bounds(*vesting, current_ts);
    }
    let ticks: u64 = if current_ts >= vesting.start_ts {
        (current_ts - vesting.start_ts) / vesting.period
    } else {
        0
    };
    let linear: u64 = ticks * vesting.periodic_unlock_amount;
    let cliff_part: u64 = if vesting.cliff != 0 && current_ts >= vesting.cliff {
        vesting.cliff_amount
    } else {
        0
    };
    let unlocked: u64 = linear + vesting.tge_amount + cliff_part;

    if unlocked >= vesting.withdrawn_amount {
        unlocked - vesting.withdrawn_amount
    } else {
        0
    }
}

/// The ledger fields of a withdrawal of `amount` at `now`: the amounts move
/// by `amount`, the accounting checkpoint snaps back to the most recent
/// period boundary at or before `now`, and the withdrawal time is recorded.
pub open spec fn withdraw_ledger_fields(pre: Vesting, post: Vesting, now: u64, amount: u64) -> bool {
    &&& post.withdrawn_amount == pre.withdrawn_amount + amount
    &&& post.remaining_amount == pre.remaining_amount - amount
    &&& post.accounting_ts == now - (now - pre.accounting_ts) % (pre.period as int)
    &&& post.last_withdrawn_at == now
}

/// Everything a withdrawal does not touch: the identity, party, timing and
/// unlock-constant fields are unchanged.
pub open spec fn withdraw_keeps_rest(pre: Vesting, post: Vesting) -> bool {
    &&& post.magic == pre.magic
    &&& post.version == pre.version
    &&& post.escrow_vault_bump == pre.escrow_vault_bump
    &&& post.vesting_bump == pre.vesting_bump
    &&& post.vesting_id == pre.vesting_id
    &&& post.vesting_name == pre.vesting_name
    &&& post.investor_wallet_address == pre.investor_wallet_address
    &&& post.total_amount == pre.total_amount
    &&& post.granter == pre.granter
    &&& post.granter_token == pre.granter_token
    &&& post.recipient == pre.recipient
    &&& post.recipient_token == pre.recipient_token
    &&& post.mint == pre.mint
    &&& post.escrow_vault == pre.escrow_vault
    &&& post.created_ts == pre.created_ts
    &&& post.start_ts == pre.start_ts
    &&& post.end_ts == pre.end_ts
    &&& post.period == pre.period
    &&& post.cliff == pre.cliff
    &&& post.cliff_release_rate == pre.cliff_release_rate
    &&& post.cliff_amount == pre.cliff_amount
    &&& post.tge_release_rate == pre.tge_release_rate
    &&& post.tge_amount == pre.tge_amount
    &&& post.periodic_unlock_amount == pre.periodic_unlock_amount
}

/// The state transition of one successful withdrawal: its guard (a positive
/// amount within the available balance, requested at or after the current
/// checkpoint) and its complete effect on the record.
pub open spec fn withdraw_transition(pre: Vesting, post: Vesting, now: u64, amount: u64) -> bool {
    &&& pre.accounting_ts <= now
    &&& 0 < amount
    &&& amount <= available_amount(pre, now)
    &&& withdraw_ledger_fields(pre, post, now, amount)
    &&& withdraw_keeps_rest(pre, post)
}

/// Applies a withdrawal of `amount` at time `now` to the ledger.
///
/// The call fails closed: a zero amount or an amount above the available
/// balance changes nothing and reports why. On success the withdrawn and
/// remaining amounts move by exactly `amount`, the accounting checkpoint is
/// re-baselined to the most recent period boundary at or before `now` (so a
/// withdrawal off a period boundary cannot shift the tick origin), and the
/// record stays well formed. The caller is expected to move `amount` out of
/// escrow in the same atomic operation.
pub fn withdraw(vesting: &mut Vesting, now: u64, amount: u64) -> (r: Result<(), ErrorCode>)
    requires
        old(vesting).wf(),
        old(vesting).accounting_ts <= now,
    ensures
        final(vesting).wf(),
        r is Ok <==> (0 < amount && amount <= available_amount(*old(vesting), now)),
        r == Err::<(), ErrorCode>(ErrorCode::InvalidWithdrawalAmount) <==> amount == 0,
        r == Err::<(), ErrorCode>(ErrorCode::InsufficientWithdrawalAmount) <==> (0 < amount
            && amount > available_amount(*old(vesting), now)),
        r is Err ==> *final(vesting) == *old(vesting),
        r is Ok ==> withdraw_transition(*old(vesting), *final(vesting), now, amount),
        old(vesting).withdrawn_amount <= final(vesting).withdrawn_amount,
        final(vesting).remaining_amount <= old(vesting).remaining_amount,
{
    if amount == 0 {
        return Err(ErrorCode::InvalidWithdrawalAmount);
    }

    let available = available_for_withdrawal(vesting, now);
    if amount > available {
        return Err(ErrorCode::InsufficientWithdrawalAmount);
    }

    proof {
        lemma_unlocked_bounds(*vesting, now);
        lemma_rebaseline(now as int, vesting.accounting_ts as int, vesting.period as int);
    }

    vesting.remaining_amount = vesting.remaining_amount - amount;
    vesting.withdrawn_amount = vesting.withdrawn_amount + amount;
    vesting.accounting_ts = now - (now - vesting.accounting_ts) % vesting.period;
    vesting.last_withdrawn_at = now;

    Ok(())
}

} // verus!
