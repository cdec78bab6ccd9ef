//! One-time platform setup: fixes the submission fee and the three-way
//! trading-fee split.

use vstd::prelude::*;
use crate::constants::BPS_DENOMINATOR;
use crate::errors::ProofOfMemeError;
use crate::platform::PlatformConfig;

verus! {

/// Create the platform configuration. Rejected with `InvalidFeeConfig`
/// unless the three fee ratios sum to exactly the whole (10,000 basis
/// points); on success every counter starts at zero.
pub fn initialize_platform(
    authority: u64,
    submission_fee: u64,
    platform_fee_bps: u16,
    genesis_fee_bps: u16,
    burn_fee_bps: u16,
) -> (r: Result<PlatformConfig, ProofOfMemeError>)
    ensures
        r is Ok <==> platform_fee_bps + genesis_fee_bps + burn_fee_bps == BPS_DENOMINATOR,
        r is Err ==> r->Err_0 == ProofOfMemeError::InvalidFeeConfig,
        r is Ok ==> r->Ok_0 == (PlatformConfig {
            authority,
            submission_fee,
            platform_fee_bps,
            genesis_fee_bps,
            burn_fee_bps,
            total_memes_submitted: 0,
            total_memes_launched: 0,
            total_platform_fees: 0,
        }),
        r is Ok ==> r->Ok_0.wf(),
{
    let total_bps: u32 = platform_fee_bps as u32 + genesis_fee_bps as u32 + burn_fee_bps as u32;
    if total_bps != 10_000u32 {
        return Err(ProofOfMemeError::InvalidFeeConfig);
    }
    Ok(
        PlatformConfig {
            authority,
            submission_fee,
            platform_fee_bps,
            genesis_fee_bps,
            burn_fee_bps,
            total_memes_submitted: 0,
            total_memes_launched: 0,
            total_platform_fees: 0,
        },
    )
}

} // verus!
