//! The persistent records of the engine: the per-recipient vesting schedule
//! and the global configuration, with the well-formedness invariant that
//! creation establishes and every withdrawal preserves.

use vstd::prelude::*;

verus! {

/// The format tag every live schedule record carries (the bytes "TMLK").
pub const VESTING_MAGIC: u32 = 0x544D4C4B;

/// The format version written by this engine revision.
pub const VESTING_VERSION: u32 = 1;

/// The one-time unlock granted at creation: a truncating percentage of the
/// deposit.
pub open spec fn spec_tge_amount(total_amount: u64, tge_release_rate: u64) -> int {
    (total_amount * tge_release_rate) / 100
}

/// The lump-sum unlock granted once the cliff timestamp passes: a truncating
/// percentage of the deposit, or nothing when the cliff is disabled
/// (`cliff == 0`).
pub open spec fn spec_cliff_amount(total_amount: u64, cliff_release_rate: u64, cliff: u64) -> int {
    if cliff != 0 {
        (total_amount * cliff_release_rate) / 100
    } else {
        0
    }
}

/// The amount released per whole elapsed period during linear unlocking:
/// the principal left after the TGE and cliff portions, amortized over the
/// schedule duration and scaled by the period. The multiplication happens
/// before the truncating division, so at most one unit per period is lost
/// to rounding; whatever truncation leaves behind becomes available in full
/// once the schedule ends.
pub open spec fn spec_periodic_unlock_amount(
    total_amount: u64,
    tge_amount: int,
    cliff_amount: int,
    start_ts: u64,
    end_ts: u64,
    period: u64,
) -> int {
    ((total_amount - tge_amount - cliff_amount) * period) / (end_ts - start_ts)
}

/// One recipient's locked allocation: identity, parties, the ledger
/// amounts, the schedule timing, and the unlock constants derived once at
/// creation. Party and asset identities are 32-byte addresses.
#[derive(Clone)]
pub struct Vesting {
    /// Format tag, always `VESTING_MAGIC` on a live record.
    pub magic: u32,
    /// Format version of the engine revision that wrote the record.
    pub version: u32,
    /// The escrow vault address bump.
    pub escrow_vault_bump: u8,
    /// The schedule record address bump.
    pub vesting_bump: u8,
    /// The schedule id.
    pub vesting_id: u64,
    /// The schedule's display name.
    pub vesting_name: [u8; 32],
    /// The investor's wallet identity blob.
    pub investor_wallet_address: [u8; 64],
    /// Amount withdrawn so far.
    pub withdrawn_amount: u64,
    /// Amount still held in escrow according to the ledger.
    pub remaining_amount: u64,
    /// The starting balance of the schedule: how much was deposited.
    pub total_amount: u64,
    /// Address of the granter's main account.
    pub granter: [u8; 32],
    /// Address of the granter's token account.
    pub granter_token: [u8; 32],
    /// Address of the recipient's main account.
    pub recipient: [u8; 32],
    /// Address of the recipient's token account.
    pub recipient_token: [u8; 32],
    /// Address of the token mint.
    pub mint: [u8; 32],
    /// Address of the escrow vault holding the locked tokens.
    pub escrow_vault: [u8; 32],
    /// Timestamp when the schedule was created.
    pub created_ts: u64,
    /// Timestamp when the tokens start vesting.
    pub start_ts: u64,
    /// Timestamp when all tokens are fully vested.
    pub end_ts: u64,
    /// The accounting checkpoint: the period-aligned origin for interval
    /// bookkeeping, re-baselined on every withdrawal.
    pub accounting_ts: u64,
    /// Timestamp of the last withdrawal.
    pub last_withdrawn_at: u64,
    /// Time step in seconds per which the linear vesting occurs.
    pub period: u64,
    /// The cliff timestamp; zero means the cliff is disabled.
    pub cliff: u64,
    /// The percentage of the deposit unlocked at the cliff timestamp.
    pub cliff_release_rate: u64,
    /// Amount unlocked at the cliff timestamp.
    pub cliff_amount: u64,
    /// The percentage of the deposit unlocked at creation.
    pub tge_release_rate: u64,
    /// Amount unlocked at creation.
    pub tge_amount: u64,
    /// Amount unlocked per whole elapsed period during linear unlocking.
    pub periodic_unlock_amount: u64,
}

impl Vesting {
    /// The invariant of every live schedule record.
    ///
    /// It ties the derived unlock constants to the deposit and the rates,
    /// bounds them by the deposit, keeps the ledger conserved
    /// (`withdrawn_amount + remaining_amount == total_amount`), and keeps
    /// the accounting checkpoint at a period-aligned point of the schedule,
    /// never before the start.
    pub open spec fn wf(self) -> bool {
        &&& self.start_ts < self.end_ts
        &&& 0 < self.period
        &&& (self.period as int) < self.end_ts - self.start_ts
        &&& self.tge_release_rate <= 100
        &&& self.cliff_release_rate <= 100
        &&& self.tge_release_rate + self.cliff_release_rate <= 100
        &&& self.tge_amount == spec_tge_amount(self.total_amount, self.tge_release_rate)
        &&& self.cliff_amount == spec_cliff_amount(
            self.total_amount,
            self.cliff_release_rate,
            self.cliff,
        )
        &&& self.periodic_unlock_amount == spec_periodic_unlock_amount(
            self.total_amount,
            self.tge_amount as int,
            self.cliff_amount as int,
            self.start_ts,
            self.end_ts,
            self.period,
        )
        &&& self.tge_amount + self.cliff_amount <= self.total_amount
        &&& self.withdrawn_amount + self.remaining_amount == self.total_amount
        &&& self.start_ts <= self.accounting_ts
        &&& self.accounting_ts % self.period == self.start_ts % self.period
    }
}

/// The global configuration: the authority allowed to create and cancel
/// schedules, and the shared funding vault.
#[derive(Clone)]
pub struct Config {
    /// The configuration record address bump.
    pub config_bump: u8,
    /// The funding vault address bump.
    pub payment_vault_bump: u8,
    /// Address of the funding vault token account.
    pub payment_vault: [u8; 32],
    /// The account permitted to create and cancel schedules.
    pub authority: [u8; 32],
    /// Address of the token mint the vault holds.
    pub mint: [u8; 32],
}

/// Builds the global configuration record.
pub fn initialize(
    config_bump: u8,
    payment_vault_bump: u8,
    payment_vault: [u8; 32],
    authority: [u8; 32],
    mint: [u8; 32],
) -> (c: Config)
    ensures
        c.config_bump == config_bump,
        c.payment_vault_bump == payment_vault_bump,
        c.payment_vault == payment_vault,
        c.authority == authority,
        c.mint == mint,
{
    Config { config_bump, payment_vault_bump, payment_vault, authority, mint }
}

} // verus!
