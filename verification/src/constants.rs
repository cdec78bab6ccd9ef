//! Platform-wide constants: goal bounds, fee rates, supply split and
//! string length limits. Amounts are in lamports (10^-9 of one SOL unit),
//! token amounts in base units of a 6-decimal token.

use vstd::prelude::*;

verus! {

/// Basis points denominator (1 bp = 0.01%).
pub const BPS_DENOMINATOR: u64 = 10_000;

/// Smallest allowed funding goal: 20 SOL in lamports.
pub const MIN_SOL_GOAL: u64 = 20_000_000_000;

/// Largest allowed funding goal: 500 SOL in lamports.
pub const MAX_SOL_GOAL: u64 = 500_000_000_000;

/// Minimum number of unique backers a campaign must require.
pub const MIN_BACKERS: u32 = 30;

/// No single wallet may hold more than 10% of the goal in backing.
pub const MAX_BACKING_PERCENTAGE_BPS: u64 = 1_000;

/// Shortest allowed proving period: 24 hours, in seconds.
pub const MIN_PROVING_DURATION: i64 = 86_400;

/// Longest allowed proving period: 7 days, in seconds.
pub const MAX_PROVING_DURATION: i64 = 604_800;

/// Smallest first-time backing: 0.5 SOL, the fee-eligibility threshold.
pub const MIN_BACKING_AMOUNT: u64 = 500_000_000;

/// Decimals of the issued token.
pub const TOKEN_DECIMALS: u8 = 6;

/// Total issued supply: 1 billion tokens with 6 decimals.
pub const TOTAL_SUPPLY: u64 = 1_000_000_000_000_000;

/// Real reserve level at which the curve is complete: ~85 SOL.
pub const CURVE_COMPLETION_SOL: u64 = 85_000_000_000;

/// Share of total supply reserved for genesis backers: 20%.
pub const GENESIS_ALLOCATION_BPS: u64 = 2_000;

/// Virtual reserve the curve is seeded with: 30 SOL.
pub const VIRTUAL_SOL_RESERVES: u64 = 30_000_000_000;

/// Flat fee charged from the curve escrow on migration: 1.5 SOL.
pub const MIGRATION_FEE: u64 = 1_500_000_000;

/// Default platform share of the trading fee: 20%.
pub const DEFAULT_PLATFORM_FEE_BPS: u16 = 2_000;

/// Default genesis backers' share of the trading fee: 70%.
pub const DEFAULT_GENESIS_FEE_BPS: u16 = 7_000;

/// Default burn share of the trading fee: 10%.
pub const DEFAULT_BURN_FEE_BPS: u16 = 1_000;

/// Total trading fee taken from every trade: 1%.
pub const TRADING_FEE_BPS: u64 = 100;

/// Longest allowed campaign name, in bytes.
pub const MAX_NAME_LENGTH: usize = 32;

/// Longest allowed token symbol, in bytes.
pub const MAX_SYMBOL_LENGTH: usize = 10;

/// Longest allowed metadata URI, in bytes.
pub const MAX_URI_LENGTH: usize = 200;

/// Longest allowed description, in bytes.
pub const MAX_DESCRIPTION_LENGTH: usize = 500;

} // verus!
