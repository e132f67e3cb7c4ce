//! Error codes of the treasury contract.
use vstd::prelude::*;

verus! {

/// Error codes of the treasury contract. Their numbers (see
/// [`treasury_error_code`]) are stable and part of the public client API.
#[derive(Clone, Copy, Debug, PartialEq, Eq, PartialOrd, Ord, Structural)]
pub enum TreasuryError {
    NegativeMinBalance,
    Paused,
    InsufficientBalance,
    MinBalanceViolation,
    NotInitialized,
    InvalidAmount,
    AlreadyInitialized,
}

/// The stable number of each treasury error.
pub open spec fn treasury_error_code(e: TreasuryError) -> u32 {
    match e {
        TreasuryError::NegativeMinBalance => 1,
        TreasuryError::Paused => 2,
        TreasuryError::InsufficientBalance => 3,
        TreasuryError::MinBalanceViolation => 4,
        TreasuryError::NotInitialized => 5,
        TreasuryError::InvalidAmount => 6,
        TreasuryError::AlreadyInitialized => 7,
    }
}

impl TreasuryError {
    /// The stable number of this error.
    pub fn code(&self) -> (r: u32)
        ensures
            r == treasury_error_code(*self),
    {
        match self {
            TreasuryError::NegativeMinBalance => 1,
            TreasuryError::Paused => 2,
            TreasuryError::InsufficientBalance => 3,
            TreasuryError::MinBalanceViolation => 4,
            TreasuryError::NotInitialized => 5,
            TreasuryError::InvalidAmount => 6,
            TreasuryError::AlreadyInitialized => 7,
        }
    }
}

} // verus!
