//! The ways an oracle operation can be refused.

use vstd::prelude::*;

verus! {

/// Why an oracle operation was refused. Each variant stands for one panic of
/// the contract; `message` gives its text.
#[derive(Clone, Copy, Debug, PartialEq, Eq, Structural)]
pub enum OracleError {
    /// `initialize` on a contract that already has an admin.
    AlreadyInitialized,
    /// An operation that needs the admin on a contract without one.
    NotInitialized,
    /// A market with fewer than two outcomes.
    TooFewOutcomes,
    /// A market whose close time is not after the current ledger time.
    CloseTimeNotInFuture,
    /// A stake of zero or less.
    AmountNotPositive,
    /// No market is stored under the id.
    MarketNotFound,
    /// A stake on a market that is resolved or voided.
    MarketNotOpen,
    /// A stake after the market's close time.
    StakingClosed,
    /// An outcome index at or past the market's outcome count.
    InvalidOutcome,
    /// Resolving or voiding a market that is no longer open.
    AlreadySettled,
    /// Claiming on a market that is still open.
    NotYetResolved,
    /// Claiming without a (remaining) stake.
    NoStake,
    /// A resolved market that has no winning outcome recorded.
    MissingWinningOutcome,
    /// Claiming on a resolved market whose winning pool is empty.
    NoWinningStake,
    /// `stake * total_stake` does not fit in an `i128`.
    PayoutOverflow,
    /// The pro-rata quotient does not fit in an `i128`.
    PayoutDivision,
    /// A counter or a stake sum would leave its integer type.
    ArithmeticOverflow,
    /// A stored amount is not an `i128`.
    NotAnAmount,
    /// A stake vector has no entry for a valid outcome.
    PoolOutOfBounds,
    /// Claiming on a resolved market without a stake on the winning outcome.
    NoWinningStakeHeld,
}

impl OracleError {
    /// The panic message of the contract for this refusal.
    pub open spec fn text(self) -> Seq<char> {
        match self {
            OracleError::AlreadyInitialized => "already initialized"@,
            OracleError::NotInitialized => "contract not initialized"@,
            OracleError::TooFewOutcomes => "market must have at least 2 outcomes"@,
            OracleError::CloseTimeNotInFuture => "close_time must be in the future"@,
            OracleError::AmountNotPositive => "amount must be positive"@,
            OracleError::MarketNotFound => "market not found"@,
            OracleError::MarketNotOpen => "market is not open"@,
            OracleError::StakingClosed => "staking period has closed"@,
            OracleError::InvalidOutcome => "invalid outcome index"@,
            OracleError::AlreadySettled => "market already resolved or voided"@,
            OracleError::NotYetResolved => "market is not yet resolved"@,
            OracleError::NoStake => "no stake found for participant"@,
            OracleError::MissingWinningOutcome => "resolved market must have outcome"@,
            OracleError::NoWinningStake => "no stakes on winning outcome"@,
            OracleError::PayoutOverflow => "overflow in payout calculation"@,
            OracleError::PayoutDivision => "division by zero in payout"@,
            OracleError::ArithmeticOverflow => "attempt to add with overflow"@,
            OracleError::NotAnAmount => "called `Result::unwrap()` on an `Err` value"@,
            OracleError::PoolOutOfBounds => "index out of bounds"@,
            OracleError::NoWinningStakeHeld => "no winning stake for participant"@,
        }
    }

    /// The panic message of the contract for this refusal.
    pub fn message(&self) -> (r: &'static str)
        ensures
            r@ == self.text(),
    {
        match self {
            OracleError::AlreadyInitialized => "already initialized",
            OracleError::NotInitialized => "contract not initialized",
            OracleError::TooFewOutcomes => "market must have at least 2 outcomes",
            OracleError::CloseTimeNotInFuture => "close_time must be in the future",
            OracleError::AmountNotPositive => "amount must be positive",
            OracleError::MarketNotFound => "market not found",
            OracleError::MarketNotOpen => "market is not open",
            OracleError::StakingClosed => "staking period has closed",
            OracleError::InvalidOutcome => "invalid outcome index",
            OracleError::AlreadySettled => "market already resolved or voided",
            OracleError::NotYetResolved => "market is not yet resolved",
            OracleError::NoStake => "no stake found for participant",
            OracleError::MissingWinningOutcome => "resolved market must have outcome",
            OracleError::NoWinningStake => "no stakes on winning outcome",
            OracleError::PayoutOverflow => "overflow in payout calculation",
            OracleError::PayoutDivision => "division by zero in payout",
            OracleError::ArithmeticOverflow => "attempt to add with overflow",
            OracleError::NotAnAmount => "called `Result::unwrap()` on an `Err` value",
            OracleError::PoolOutOfBounds => "index out of bounds",
            OracleError::NoWinningStakeHeld => "no winning stake for participant",
        }
    }
}

} // verus!
