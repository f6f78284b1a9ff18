//! A token-vesting accounting engine.
//!
//! A funder locks a deposit of `total_amount` token units behind a release
//! schedule: an optional one-time unlock at creation (the TGE release), an
//! optional lump-sum unlock once a cliff timestamp passes, and a linear
//! unlock accrued in whole-period ticks between the start and end
//! timestamps. The engine validates proposed schedules, derives the unlock
//! constants once at creation, computes how much a recipient may withdraw
//! at any time, and maintains the ledger (withdrawn amount, remaining
//! amount, accounting checkpoint) across repeated partial withdrawals.
//!
//! The engine itself never performs token transfers and never reads a
//! clock: the current time and the account balances involved are injected
//! by the caller, which makes every operation a deterministic function of
//! its arguments.

pub mod engine;
pub mod errors;
pub mod events;
pub mod laws;
pub mod math;
pub mod schedule;
pub mod timefmt;
pub mod token_address;
pub mod validate;
