//! The failures that an operation can report.

use vstd::prelude::*;

verus! {

/// Why an operation was refused. A refused operation changes nothing.
#[derive(Clone, Copy, Debug, PartialEq, Eq, Structural)]
pub enum StakingError {
    /// A pool exists already.
    AlreadyInitialized,
    /// The record holds no principal.
    NoStakeFound,
    /// The lock period has not yet passed.
    LockPeriodNotMet,
    /// The reward that has accrued is zero.
    NoRewardsAvailable,
    /// The caller is neither the record's owner nor the pool's authority, as the operation asks.
    Unauthorized,
    /// A sum or a product does not fit its type.
    ArithmeticOverflow,
    /// A difference would fall below zero.
    ArithmeticUnderflow,
}

impl StakingError {
    /// The words that [`StakingError::message`] returns.
    pub open spec fn message_text(self) -> Seq<char> {
        match self {
            StakingError::AlreadyInitialized => "Pool already initialized"@,
            StakingError::NoStakeFound => "No stake found for user"@,
            StakingError::LockPeriodNotMet => "Lock period not met"@,
            StakingError::NoRewardsAvailable => "No rewards available"@,
            StakingError::Unauthorized => "Caller is not authorized"@,
            StakingError::ArithmeticOverflow => "Arithmetic overflow"@,
            StakingError::ArithmeticUnderflow => "Arithmetic underflow"@,
        }
    }

    /// The failure in words, for a person to read.
    pub fn message(&self) -> (text: &'static str)
        ensures
            text@ == self.message_text(),
    {
        match self {
            StakingError::AlreadyInitialized => "Pool already initialized",
            StakingError::NoStakeFound => "No stake found for user",
            StakingError::LockPeriodNotMet => "Lock period not met",
            StakingError::NoRewardsAvailable => "No rewards available",
            StakingError::Unauthorized => "Caller is not authorized",
            StakingError::ArithmeticOverflow => "Arithmetic overflow",
            StakingError::ArithmeticUnderflow => "Arithmetic underflow",
        }
    }
}

} // verus!
