//! Schedule validation: the rules a proposed release schedule must pass
//! before a vesting record may be created.

use vstd::prelude::*;

use crate::errors::ErrorCode;

verus! {

/// The timestamps of a proposed schedule are sane: the schedule starts in
/// the future, ends after it starts, and an enabled cliff (`cliff != 0`)
/// lies inside the vesting window.
pub open spec fn spec_time_check(now: u64, start: u64, end: u64, cliff: u64) -> bool {
    &&& now < start
    &&& start < end
    &&& (cliff == 0 || (start <= cliff && cliff <= end))
}

/// The unlock period is a positive number of seconds strictly smaller than
/// the schedule duration. A period equal to the full duration would produce
/// a single unlock tick, which is rejected as degenerate.
pub open spec fn spec_valid_period(start: u64, end: u64, period: u64) -> bool {
    period != 0 && (period as int) < end - start
}

/// Both release rates are percentages, and together they release at most
/// the whole deposit.
pub open spec fn spec_valid_rates(tge_release_rate: u64, cliff_release_rate: u64) -> bool {
    &&& tge_release_rate <= 100
    &&& cliff_release_rate <= 100
    &&& tge_release_rate + cliff_release_rate <= 100
}

/// A proposed schedule passes every validation rule (with the time rule
/// optionally bypassed).
pub open spec fn spec_valid_schedule(
    now: u64,
    start: u64,
    end: u64,
    period: u64,
    cliff: u64,
    tge_release_rate: u64,
    cliff_release_rate: u64,
    bypass_timestamp_check: bool,
) -> bool {
    &&& (bypass_timestamp_check || spec_time_check(now, start, end, cliff))
    &&& spec_valid_period(start, end, period)
    &&& spec_valid_rates(tge_release_rate, cliff_release_rate)
}

/// Sanity check on the proposed timestamps of a schedule.
pub fn time_check(now: u64, start: u64, end: u64, cliff: u64) -> (r: bool)
    ensures
        r == spec_time_check(now, start, end, cliff),
{
    let cliff_cond = if cliff == 0 {
        true
    } else {
        start <= cliff && cliff <= end
    };

    now < start && start < end && cliff_cond
}

/// Checks a proposed schedule and reports the first rule it breaks: the
/// time rule (unless bypassed), then the period rule, then the release-rate
/// rule.
pub fn validate(
    now: u64,
    start_ts: u64,
    end_ts: u64,
    period: u64,
    cliff: u64,
    tge_release_rate: u64,
    cliff_release_rate: u64,
    bypass_timestamp_check: bool,
) -> (r: Result<(), ErrorCode>)
    ensures
        r == Ok::<(), ErrorCode>(()) <==> spec_valid_schedule(
            now,
            start_ts,
            end_ts,
            period,
            cliff,
            tge_release_rate,
            cliff_release_rate,
            bypass_timestamp_check,
        ),
        r == Err::<(), ErrorCode>(ErrorCode::InvalidSchedule) <==> (!bypass_timestamp_check
            && !spec_time_check(now, start_ts, end_ts, cliff)),
        r == Err::<(), ErrorCode>(ErrorCode::InvalidPeriod) <==> ((bypass_timestamp_check
            || spec_time_check(now, start_ts, end_ts, cliff)) && !spec_valid_period(
            start_ts,
            end_ts,
            period,
        )),
        r == Err::<(), ErrorCode>(ErrorCode::InvalidReleaseRate) <==> ((bypass_timestamp_check
            || spec_time_check(now, start_ts, end_ts, cliff)) && spec_valid_period(
            start_ts,
            end_ts,
            period,
        ) && !spec_valid_rates(tge_release_rate, cliff_release_rate)),
{
    if !bypass_timestamp_check && !time_check(now, start_ts, end_ts, cliff) {
        return Err(ErrorCode::InvalidSchedule);
    }

    if period == 0 || start_ts >= end_ts || period >= end_ts - start_ts {
        return Err(ErrorCode::InvalidPeriod);
    }

    if tge_release_rate > 100 || cliff_release_rate > 100 || tge_release_rate + cliff_release_rate
        > 100 {
        return Err(ErrorCode::InvalidReleaseRate);
    }

    Ok(())
}

} // verus!
