//! The error taxonomy. Every operation is total: it either applies its whole
//! effect or returns one of these with every record and balance unchanged.

use vstd::prelude::*;

verus! {

/// Why an operation was rejected. Validation errors are the caller's fault
/// and are raised before any state change; state errors mean the operation
/// is illegal for the current lifecycle state; arithmetic errors surface
/// checked-math overflow; balance errors mean an escrow or wallet is short.
#[derive(Clone, Copy, Debug, PartialEq, Eq, Structural)]
pub enum ProofOfMemeError {
    NameTooLong,
    SymbolTooLong,
    UriTooLong,
    DescriptionTooLong,
    GoalTooLow,
    GoalTooHigh,
    MinBackersTooLow,
    DurationTooShort,
    DurationTooLong,
    BackingTooLow,
    BackingExceedsMaximum,
    ProvingEnded,
    ProvingStillActive,
    AlreadyLaunched,
    AlreadyFailed,
    NoBackingFound,
    GoalNotReached,
    MinBackersNotReached,
    CurveNotActive,
    CurveCompleted,
    SlippageExceeded,
    InsufficientTokens,
    InsufficientSol,
    NoFeesToClaim,
    NotGenesisBacker,
    CurveNotComplete,
    AlreadyMigrated,
    MathOverflow,
    InvalidFeeConfig,
    InvalidPlatformAuthority,
    ZeroAmount,
    InsufficientVaultBalance,
    AccountMismatch,
    InvalidMemeAccount,
    InvalidCurveAccount,
    Unauthorized,
    EmptyName,
    EmptySymbol,
    InvalidTokenAmount,
    BackingAlreadyWithdrawn,
}

impl ProofOfMemeError {
    /// A short human-readable description of the error.
    pub fn message(&self) -> &'static str {
        match self {
            ProofOfMemeError::NameTooLong => "Name too long (max 32 characters)",
            ProofOfMemeError::SymbolTooLong => "Symbol too long (max 10 characters)",
            ProofOfMemeError::UriTooLong => "URI too long (max 200 characters)",
            ProofOfMemeError::DescriptionTooLong => "Description too long (max 500 characters)",
            ProofOfMemeError::GoalTooLow => "SOL goal below minimum (20 SOL)",
            ProofOfMemeError::GoalTooHigh => "SOL goal above maximum (500 SOL)",
            ProofOfMemeError::MinBackersTooLow => "Minimum backers below 30",
            ProofOfMemeError::DurationTooShort => "Duration below minimum (24 hours)",
            ProofOfMemeError::DurationTooLong => "Duration above maximum (7 days)",
            ProofOfMemeError::BackingTooLow => "Backing amount below minimum (0.5 SOL for fee eligibility)",
            ProofOfMemeError::BackingExceedsMaximum => "Backing would exceed maximum 10% per wallet",
            ProofOfMemeError::ProvingEnded => "Proving period has ended",
            ProofOfMemeError::ProvingStillActive => "Proving period still active",
            ProofOfMemeError::AlreadyLaunched => "Meme already launched",
            ProofOfMemeError::AlreadyFailed => "Meme already failed/refunded",
            ProofOfMemeError::NoBackingFound => "No backing found for this wallet",
            ProofOfMemeError::GoalNotReached => "SOL goal not reached",
            ProofOfMemeError::MinBackersNotReached => "Minimum backers not reached",
            ProofOfMemeError::CurveNotActive => "Curve not active",
            ProofOfMemeError::CurveCompleted => "Curve already completed",
            ProofOfMemeError::SlippageExceeded => "Slippage exceeded",
            ProofOfMemeError::InsufficientTokens => "Insufficient tokens",
            ProofOfMemeError::InsufficientSol => "Insufficient SOL",
            ProofOfMemeError::NoFeesToClaim => "No fees to claim",
            ProofOfMemeError::NotGenesisBacker => "Not a genesis backer",
            ProofOfMemeError::CurveNotComplete => "Curve not complete - cannot migrate yet",
            ProofOfMemeError::AlreadyMigrated => "Already migrated",
            ProofOfMemeError::MathOverflow => "Math overflow",
            ProofOfMemeError::InvalidFeeConfig => "Invalid fee configuration",
            ProofOfMemeError::InvalidPlatformAuthority => "Invalid platform authority",
            ProofOfMemeError::ZeroAmount => "Amount must be greater than zero",
            ProofOfMemeError::InsufficientVaultBalance => "Insufficient vault balance",
            ProofOfMemeError::AccountMismatch => "Account mismatch",
            ProofOfMemeError::InvalidMemeAccount => "Invalid meme account",
            ProofOfMemeError::InvalidCurveAccount => "Invalid curve account",
            ProofOfMemeError::Unauthorized => "Unauthorized",
            ProofOfMemeError::EmptyName => "Name cannot be empty",
            ProofOfMemeError::EmptySymbol => "Symbol cannot be empty",
            ProofOfMemeError::InvalidTokenAmount => "Invalid token amount",
            ProofOfMemeError::BackingAlreadyWithdrawn => "Backing already withdrawn",
        }
    }
}

} // verus!
