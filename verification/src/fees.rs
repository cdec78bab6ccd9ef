//! The trading-fee computation shared by buys and sells: a fixed
//! basis-point fee on the gross trade value, split three ways by the
//! platform-configured ratios, with the burn bucket absorbing the
//! rounding remainder so the three shares always cover the fee exactly.

use vstd::prelude::*;
use vstd::arithmetic::div_mod::lemma_fundamental_div_mod;
use vstd::arithmetic::mul::{lemma_mul_inequality, lemma_mul_is_distributive_add_other_way};
use crate::constants::{BPS_DENOMINATOR, TRADING_FEE_BPS};

verus! {

/// The trading fee on a gross trade value: floor(gross * rate / 10,000).
pub open spec fn spec_trading_fee(gross: u64) -> int {
    gross * TRADING_FEE_BPS / BPS_DENOMINATOR as int
}

/// One party's share of a trading fee: floor(fee * bps / 10,000).
pub open spec fn spec_fee_share(trading_fee: u64, bps: u16) -> int {
    trading_fee * bps / BPS_DENOMINATOR as int
}

/// When the three-way split is defined: both proportional shares can be
/// computed in 64 bits and together they do not exceed the fee.
pub open spec fn spec_split_defined(trading_fee: u64, genesis_bps: u16, platform_bps: u16) -> bool {
    &&& trading_fee * genesis_bps <= u64::MAX
    &&& trading_fee * platform_bps <= u64::MAX
    &&& spec_fee_share(trading_fee, genesis_bps) + spec_fee_share(trading_fee, platform_bps)
        <= trading_fee
}

/// Split a trading fee into (genesis, platform, burn) shares. The genesis
/// and platform shares are proportional, rounded down; the burn share is
/// the exact remainder, so the three always sum to the fee.
pub fn split_trading_fee(trading_fee: u64, genesis_bps: u16, platform_bps: u16) -> (r: Option<
    (u64, u64, u64),
>)
    ensures
        r is Some <==> spec_split_defined(trading_fee, genesis_bps, platform_bps),
        r is Some ==> r->Some_0.0 == spec_fee_share(trading_fee, genesis_bps),
        r is Some ==> r->Some_0.1 == spec_fee_share(trading_fee, platform_bps),
        r is Some ==> r->Some_0.2 == trading_fee - r->Some_0.0 - r->Some_0.1,
{
    let genesis_fee: u64 = match trading_fee.checked_mul(genesis_bps as u64) {
        Some(x) => x / BPS_DENOMINATOR,
        None => {
            return None;
        },
    };
    let platform_fee: u64 = match trading_fee.checked_mul(platform_bps as u64) {
        Some(x) => x / BPS_DENOMINATOR,
        None => {
            return None;
        },
    };
    let rest: u64 = match trading_fee.checked_sub(genesis_fee) {
        Some(x) => x,
        None => {
            return None;
        },
    };
    let burn_fee: u64 = match rest.checked_sub(platform_fee) {
        Some(x) => x,
        None => {
            return None;
        },
    };
    Some((genesis_fee, platform_fee, burn_fee))
}

/// The split covers the fee exactly for every fee value: with ratios that
/// sum to at most the whole, the two proportional shares leave a
/// non-negative remainder, and shares plus remainder equal the fee.
pub proof fn lemma_fee_split_covers_fee(trading_fee: u64, genesis_bps: u16, platform_bps: u16)
    requires
        genesis_bps + platform_bps <= BPS_DENOMINATOR,
    ensures
        spec_fee_share(trading_fee, genesis_bps) + spec_fee_share(trading_fee, platform_bps)
            <= trading_fee,
        spec_fee_share(trading_fee, genesis_bps) + spec_fee_share(trading_fee, platform_bps) + (
        trading_fee - spec_fee_share(trading_fee, genesis_bps) - spec_fee_share(
            trading_fee,
            platform_bps,
        )) == trading_fee,
{
    let d = BPS_DENOMINATOR as int;
    let x = trading_fee as int * genesis_bps as int;
    let y = trading_fee as int * platform_bps as int;
    lemma_mul_is_distributive_add_other_way(
        trading_fee as int,
        genesis_bps as int,
        platform_bps as int,
    );
    assert(x + y == trading_fee as int * (genesis_bps + platform_bps) as int);
    lemma_mul_inequality(
        (genesis_bps + platform_bps) as int,
        d,
        trading_fee as int,
    );
    assert(x + y <= trading_fee * d);
    lemma_fundamental_div_mod(x, d);
    lemma_fundamental_div_mod(y, d);
}

/// The split is always defined under a well-formed configuration: ratios
/// bounded by the whole and a fee small enough that the proportional
/// products fit in 64 bits.
pub proof fn lemma_fee_split_defined(trading_fee: u64, genesis_bps: u16, platform_bps: u16)
    requires
        genesis_bps + platform_bps <= BPS_DENOMINATOR,
        trading_fee <= u64::MAX as int / BPS_DENOMINATOR as int,
    ensures
        spec_split_defined(trading_fee, genesis_bps, platform_bps),
{
    let d = BPS_DENOMINATOR as int;
    lemma_mul_inequality(trading_fee as int, u64::MAX as int / d, d);
    assert(trading_fee as int * d <= (u64::MAX as int / d) * d);
    assert((u64::MAX as int / d) * d <= u64::MAX as int);
    assert(d * trading_fee as int <= u64::MAX as int);
    lemma_mul_inequality(genesis_bps as int, d, trading_fee as int);
    assert(trading_fee as int * genesis_bps as int <= u64::MAX as int);
    lemma_mul_inequality(platform_bps as int, d, trading_fee as int);
    assert(trading_fee as int * platform_bps as int <= u64::MAX as int);
    lemma_fee_split_covers_fee(trading_fee, genesis_bps, platform_bps);
}

} // verus!
