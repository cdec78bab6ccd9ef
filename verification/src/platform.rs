//! The singleton platform configuration: fee-split parameters and
//! aggregate counters, read by every operation and owned by none of them.

use vstd::prelude::*;

verus! {

/// Process-wide configuration and counters. Created once; the fee-split
/// ratios are fixed at creation and must sum to exactly 10,000 basis points.
#[derive(Clone, Copy, Debug, PartialEq, Eq, Structural)]
pub struct PlatformConfig {
    /// Platform authority (admin) identity.
    pub authority: u64,
    /// Flat fee charged on campaign submission (anti-spam).
    pub submission_fee: u64,
    /// Platform's share of trading fees, in basis points.
    pub platform_fee_bps: u16,
    /// Genesis backers' share of trading fees, in basis points.
    pub genesis_fee_bps: u16,
    /// Burn share of trading fees, in basis points.
    pub burn_fee_bps: u16,
    /// Total campaigns submitted.
    pub total_memes_submitted: u64,
    /// Total campaigns launched.
    pub total_memes_launched: u64,
    /// Total reserve currency collected in platform fees.
    pub total_platform_fees: u64,
}

impl PlatformConfig {
    /// The three fee-split ratios cover the whole trading fee exactly.
    pub open spec fn wf(self) -> bool {
        self.platform_fee_bps + self.genesis_fee_bps + self.burn_fee_bps
            == crate::constants::BPS_DENOMINATOR
    }
}

} // verus!
