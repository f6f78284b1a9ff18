//! Reason codes for rejected operations.

use vstd::prelude::*;

verus! {

/// Why an operation on a vesting schedule was refused. Every failure is a
/// typed, non-retryable validation error: the engine performs no partial
/// side effect when one of these is returned.
#[derive(Clone, Copy, Debug, PartialEq, Eq, Structural)]
pub enum ErrorCode {
    /// The proposed timestamps are not ordered `now < start < end`, or the
    /// cliff lies outside `[start, end]`.
    InvalidSchedule,
    /// The vesting end must be greater than the start and the current time.
    InvalidTimestamp,
    /// The unlock period is zero, or not smaller than the schedule duration.
    InvalidPeriod,
    /// A release rate is over 100, or the rates sum to more than 100.
    InvalidReleaseRate,
    /// The cliff time lies outside the vesting window.
    InvalidCliffTime,
    /// The deposit amount must be greater than zero.
    InvalidDepositAmount,
    /// The funding account does not hold the deposit amount.
    InsufficientDepositAmount,
    /// The requested withdrawal amount must be greater than zero.
    InvalidWithdrawalAmount,
    /// A derived program address did not match the supplied one.
    InvalidProgramAddress,
    /// The supplied receiving account is not the canonical associated token
    /// address of the recipient for this mint.
    InvalidAssociatedTokenAddress,
    /// The schedule record is not owned by this engine.
    InvalidVestingOwner,
    /// The escrow balance cannot cover the withdrawal.
    InsufficientWithdrawalBalance,
    /// The withdrawal exceeds the configured limit.
    WithdrawLimit,
    /// The caller lacks permission for this operation.
    Unauthorized,
    /// An arithmetic operation overflowed.
    Overflow,
    /// The token mint does not match the expected one.
    InvalidMintMismatch,
    /// The schedule record's format tag is wrong.
    InvalidMagic,
    /// The escrow vault account does not match the schedule record.
    InvalidEscrowVaultMismatch,
    /// The recipient token account does not match the schedule record.
    InvalidRecipientTokenMismatch,
    /// The granter account does not match the schedule record.
    InvalidGranterMismatch,
    /// The granter token account does not match the schedule record.
    InvalidGranterTokenMismatch,
    /// The token vault account does not match the expected one.
    InvalidTokenVaultMismatch,
    /// The token authority does not match the expected one.
    InvalidTokenAuthorityMismatch,
    /// Nothing is available for withdrawal at this time.
    InsufficientWithdrawalAmount,
}

} // verus!
