//! Arithmetic facts behind the unlock amortization: bounds on truncating
//! percentage splits, on the per-period unlock constant, and on the
//! period-aligned re-baselining of the accounting checkpoint.

use vstd::prelude::*;

use vstd::arithmetic::div_mod::{
    lemma_div_is_ordered,
    lemma_div_multiples_vanish,
    lemma_div_pos_is_pos,
    lemma_fundamental_div_mod,
    lemma_mod_bound,
    lemma_mod_multiples_vanish,
};
use vstd::arithmetic::mul::{
    lemma_mul_inequality,
    lemma_mul_is_associative,
    lemma_mul_is_commutative,
    lemma_mul_is_distributive_add,
    lemma_mul_is_distributive_sub,
    lemma_mul_left_inequality,
    lemma_mul_nonnegative,
    lemma_mul_strict_inequality_converse,
    lemma_mul_upper_bound,
};

verus! {

/// The product of two values that fit in 64 bits fits in 128 bits.
pub proof fn lemma_mul_fits_u128(a: int, b: int)
    requires
        0 <= a <= 0xffff_ffff_ffff_ffff,
        0 <= b <= 0xffff_ffff_ffff_ffff,
    ensures
        0 <= a * b <= 0xffff_ffff_ffff_ffff_ffff_ffff_ffff_ffff,
{
    lemma_mul_nonnegative(a, b);
    lemma_mul_upper_bound(a, 0xffff_ffff_ffff_ffff, b, 0xffff_ffff_ffff_ffff);
}

/// A truncating percentage of an amount never exceeds the amount.
pub proof fn lemma_rate_amount_le(total: int, rate: int)
    requires
        0 <= total,
        0 <= rate <= 100,
    ensures
        0 <= (total * rate) / 100 <= total,
{
    lemma_mul_nonnegative(total, rate);
    lemma_div_pos_is_pos(total * rate, 100);
    lemma_mul_inequality(rate, 100, total);
    lemma_mul_is_commutative(total, rate);
    lemma_mul_is_commutative(total, 100);
    lemma_div_is_ordered(total * rate, 100 * total, 100);
    lemma_div_multiples_vanish(total, 100);
}

/// Two truncating percentage splits whose rates sum to at most 100 leave
/// together no more than the whole amount.
pub proof fn lemma_rate_amounts_sum_le(total: int, rate_a: int, rate_b: int)
    requires
        0 <= total,
        0 <= rate_a,
        0 <= rate_b,
        rate_a + rate_b <= 100,
    ensures
        0 <= (total * rate_a) / 100 + (total * rate_b) / 100 <= total,
{
    let qa = (total * rate_a) / 100;
    let qb = (total * rate_b) / 100;
    lemma_rate_amount_le(total, rate_a);
    lemma_rate_amount_le(total, rate_b);
    lemma_fundamental_div_mod(total * rate_a, 100);
    lemma_fundamental_div_mod(total * rate_b, 100);
    lemma_mod_bound(total * rate_a, 100);
    lemma_mod_bound(total * rate_b, 100);
    assert(100 * qa <= total * rate_a);
    assert(100 * qb <= total * rate_b);
    lemma_mul_is_distributive_add(total, rate_a, rate_b);
    lemma_mul_inequality(rate_a + rate_b, 100, total);
    lemma_mul_is_commutative(total, rate_a + rate_b);
    lemma_mul_is_commutative(total, 100);
    assert(100 * (qa + qb) == 100 * qa + 100 * qb) by {
        lemma_mul_is_distributive_add(100, qa, qb);
    }
    assert(100 * (qa + qb) <= 100 * total);
}

/// The per-period unlock constant never exceeds the principal it amortizes,
/// because the period is smaller than the schedule duration.
pub proof fn lemma_periodic_le_remainder(rem: int, period: int, dur: int)
    requires
        0 <= rem,
        0 < period,
        period < dur,
    ensures
        0 <= (rem * period) / dur <= rem,
{
    lemma_mul_nonnegative(rem, period);
    lemma_div_pos_is_pos(rem * period, dur);
    lemma_mul_inequality(period, dur, rem);
    lemma_mul_is_commutative(rem, period);
    lemma_mul_is_commutative(rem, dur);
    lemma_div_is_ordered(rem * period, dur * rem, dur);
    lemma_div_multiples_vanish(rem, dur);
}

/// Whole elapsed periods times the per-period unlock constant stay within
/// the principal while the schedule has not ended: the linear unlock can
/// never release more than it amortizes.
pub proof fn lemma_linear_unlock_bound(elapsed: int, period: int, rem: int, dur: int)
    requires
        0 <= elapsed,
        elapsed < dur,
        0 < period,
        period < dur,
        0 <= rem,
    ensures
        0 <= (elapsed / period) * ((rem * period) / dur) <= rem,
{
    let q = elapsed / period;
    let p = (rem * period) / dur;
    lemma_div_pos_is_pos(elapsed, period);
    lemma_mul_nonnegative(rem, period);
    lemma_div_pos_is_pos(rem * period, dur);
    lemma_mul_nonnegative(q, p);
    lemma_fundamental_div_mod(elapsed, period);
    lemma_mod_bound(elapsed, period);
    assert(period * q <= elapsed);
    lemma_fundamental_div_mod(rem * period, dur);
    lemma_mod_bound(rem * period, dur);
    assert(dur * p <= rem * period);
    if q == 0 || rem == 0 {
        if rem == 0 {
            assert(rem * period == 0) by {
                lemma_mul_is_commutative(rem, period);
            }
            assert(p == 0) by {
                vstd::arithmetic::div_mod::lemma_div_of0(dur);
            }
        }
        assert(q * p == 0) by {
            lemma_mul_is_commutative(q, p);
        }
    } else {
        assert((q * p) * dur <= q * (rem * period)) by {
            lemma_mul_left_inequality(q, dur * p, rem * period);
            lemma_mul_is_associative(q, dur, p);
            lemma_mul_is_commutative(q, dur);
            lemma_mul_is_associative(dur, q, p);
            lemma_mul_is_commutative(dur, q * p);
        }
        assert(q * (rem * period) == rem * (q * period)) by {
            lemma_mul_is_associative(q, rem, period);
            lemma_mul_is_commutative(q, rem);
            lemma_mul_is_associative(rem, q, period);
        }
        assert(rem * (q * period) <= rem * (dur - 1)) by {
            lemma_mul_left_inequality(rem, q * period, dur - 1);
            assert(q * period == period * q) by {
                lemma_mul_is_commutative(q, period);
            }
        }
        assert(rem * (dur - 1) == rem * dur - rem) by {
            lemma_mul_is_distributive_sub(rem, dur, 1);
        }
        assert((q * p) * dur <= rem * dur - rem);
        assert((q * p) * dur < rem * dur);
        lemma_mul_strict_inequality_converse(q * p, rem, dur);
    }
}

/// Re-baselining the accounting checkpoint to `now - (now - checkpoint) %
/// period` lands on a point at or before `now`, less than one period away
/// from it, at or after the old checkpoint, and in the same residue class
/// modulo the period, so the checkpoint stays period-aligned with the
/// schedule start.
pub proof fn lemma_rebaseline(now: int, checkpoint: int, period: int)
    requires
        0 < period,
        checkpoint <= now,
    ensures
        0 <= (now - checkpoint) % period <= now - checkpoint,
        checkpoint <= now - (now - checkpoint) % period,
        now - period < now - (now - checkpoint) % period <= now,
        (now - (now - checkpoint) % period) % period == checkpoint % period,
{
    let r = (now - checkpoint) % period;
    lemma_mod_bound(now - checkpoint, period);
    if now - checkpoint < period {
        assert(r == now - checkpoint) by {
            vstd::arithmetic::div_mod::lemma_small_mod((now - checkpoint) as nat, period as nat);
        }
    }
    lemma_fundamental_div_mod(now - checkpoint, period);
    let q = (now - checkpoint) / period;
    assert(now - r == period * q + checkpoint);
    lemma_mod_multiples_vanish(q, checkpoint, period);
}

} // verus!
