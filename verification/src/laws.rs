//! The global guarantees of the engine, stated over whole operation
//! histories: conservation of the deposit, monotonicity of the withdrawn
//! amount, terminal completeness, and the bound that makes overdrawing
//! impossible.

use vstd::prelude::*;

use crate::engine::{available_amount, lemma_unlocked_bounds, withdraw_transition};
use crate::math::lemma_rebaseline;
use crate::schedule::Vesting;

verus! {

/// Conservation: a well-formed record accounts for the deposit exactly,
/// whatever has been withdrawn so far.
pub proof fn lemma_conservation(v: Vesting)
    requires
        v.wf(),
    ensures
        v.withdrawn_amount + v.remaining_amount == v.total_amount,
{
}

/// Terminal completeness: at or after the end timestamp, exactly the
/// remaining ledger amount is available, whatever path led to the state.
pub proof fn lemma_terminal_completeness(v: Vesting, now: u64)
    requires
        v.wf(),
        now >= v.end_ts,
    ensures
        available_amount(v, now) == v.remaining_amount,
{
}

/// No overdraw: on a well-formed record the available amount never exceeds
/// the remaining ledger amount, at any time.
pub proof fn lemma_available_within_remaining(v: Vesting, now: u64)
    requires
        v.wf(),
    ensures
        available_amount(v, now) <= v.remaining_amount,
{
    lemma_unlocked_bounds(v, now);
}

/// Idempotent read: the available amount is a function of the record state
/// and the queried time alone, so reading it twice with no mutation in
/// between gives the same answer.
pub proof fn lemma_available_read_idempotent(v1: Vesting, v2: Vesting, now1: u64, now2: u64)
    requires
        v1 == v2,
        now1 == now2,
    ensures
        available_amount(v1, now1) == available_amount(v2, now2),
{
}

/// One ledger operation on a record: some successful withdrawal. Reads
/// never mutate, and a cancel destroys the record, so this is the only
/// transition a live record can take.
pub open spec fn schedule_step(pre: Vesting, post: Vesting) -> bool {
    exists|now: u64, amount: u64| withdraw_transition(pre, post, now, amount)
}

/// A history of a record: every consecutive pair of states is related by
/// one ledger operation.
pub open spec fn schedule_history(h: Seq<Vesting>) -> bool {
    forall|k: int| 0 <= k < h.len() - 1 ==> #[trigger] schedule_step(h[k], h[k + 1])
}

/// Every ledger operation preserves the record invariant, and with it
/// conservation.
pub proof fn lemma_step_preserves_wf(pre: Vesting, post: Vesting)
    requires
        pre.wf(),
        schedule_step(pre, post),
    ensures
        post.wf(),
{
    let (now, amount) = choose|now: u64, amount: u64| withdraw_transition(pre, post, now, amount);
    lemma_rebaseline(now as int, pre.accounting_ts as int, pre.period as int);
}

/// Conservation over histories: every state reachable by ledger operations
/// from a well-formed state is itself well formed, so it accounts for the
/// deposit exactly.
pub proof fn lemma_history_preserves_wf(h: Seq<Vesting>, j: int)
    requires
        schedule_history(h),
        h.len() > 0,
        h[0].wf(),
        0 <= j < h.len(),
    ensures
        h[j].wf(),
        h[j].withdrawn_amount + h[j].remaining_amount == h[j].total_amount,
    decreases j,
{
    if j > 0 {
        lemma_history_preserves_wf(h, j - 1);
        let k = j - 1;
        assert(schedule_step(h[k], h[k + 1]));
        lemma_step_preserves_wf(h[j - 1], h[j]);
    }
}

/// Monotonicity: across any sequence of ledger operations on one record the
/// withdrawn amount never decreases and the remaining amount never
/// increases.
pub proof fn lemma_withdrawn_monotonic(h: Seq<Vesting>, i: int, j: int)
    requires
        schedule_history(h),
        0 <= i <= j < h.len(),
    ensures
        h[i].withdrawn_amount <= h[j].withdrawn_amount,
        h[j].remaining_amount <= h[i].remaining_amount,
    decreases j - i,
{
    if i < j {
        lemma_withdrawn_monotonic(h, i, j - 1);
        let k = j - 1;
        assert(schedule_step(h[k], h[k + 1]));
        assert(schedule_step(h[j - 1], h[j]));
        let (now, amount) = choose|now: u64, amount: u64|
            #[trigger] withdraw_transition(h[j - 1], h[j], now, amount);
    }
}

} // verus!
