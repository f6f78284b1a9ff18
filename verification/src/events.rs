//! The notifications the engine's operations report to the host: one per
//! lifecycle operation, each carrying a payload value and a status tag.

use vstd::prelude::*;

verus! {

/// Reported when the global configuration is initialized.
pub struct InitializeEvent {
    /// Payload: zero on success, the reason code on failure.
    pub data: u64,
    /// Status tag of the operation.
    pub status: String,
}

/// Reported when a vesting schedule is created.
pub struct CreateVestingEvent {
    /// Payload: the deposit on success, the reason code on failure.
    pub data: u64,
    /// Status tag of the operation.
    pub status: String,
}

/// Reported when a withdrawal is attempted.
pub struct WithdrawEvent {
    /// Payload: the amount on success, the reason code on failure.
    pub data: u64,
    /// Status tag of the operation.
    pub status: String,
}

/// Reported when a schedule is cancelled.
pub struct CancelEvent {
    /// Payload: the swept escrow balance.
    pub data: u64,
    /// Status tag of the operation.
    pub status: String,
}

} // verus!
