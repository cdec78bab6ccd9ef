//! A crowdfunding-to-market-making engine for user-issued tokens.
//!
//! Creators submit a campaign ("meme") with a funding goal and deadline,
//! backers pledge the reserve currency, and on success the project gets a
//! token traded on a constant-product bonding curve. A share of every trade
//! is recycled to the original backers through a lazy pro-rata fee pool.
//!
//! The library holds the verified core: validation, curve pricing, fee
//! accounting and the lifecycle state machine, all over plain integer
//! balances. Account storage, signatures and on-chain transfers are the
//! caller's substrate; every operation takes the records and escrow balances
//! it touches as explicit arguments and either applies the whole step or
//! returns an error with nothing changed.

pub mod constants;
pub mod errors;
pub mod platform;
pub mod meme;
pub mod backing;
pub mod curve;
pub mod fees;
pub mod initialize_platform;
pub mod submit_meme;
pub mod back_meme;
pub mod withdraw_backing;
pub mod finalize_proving;
pub mod migrate_to_raydium;
pub mod claim_genesis_fees;
pub mod buy_tokens;
pub mod sell_tokens;
