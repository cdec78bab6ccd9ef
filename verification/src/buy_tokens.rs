//! Buying on the bonding curve. The 1% trading fee is taken off the
//! input; the remainder prices the trade over the virtual reserves. The
//! platform's fee share leaves for the fee recipient at once, the
//! genesis and burn shares stay in the curve escrow, and after the
//! reserve update the curve flips to Complete — permanently — the moment
//! the real reserves reach the completion threshold.

use vstd::prelude::*;
use vstd::arithmetic::div_mod::{lemma_div_is_ordered, lemma_div_multiples_vanish};
use vstd::arithmetic::mul::lemma_mul_inequality;
use crate::constants::{BPS_DENOMINATOR, TRADING_FEE_BPS};
use crate::curve::{spec_apply_buy, spec_buy_quote, BondingCurve, CurveStatus, GenesisPool};
use crate::errors::ProofOfMemeError;
use crate::fees::{spec_fee_share, spec_split_defined, spec_trading_fee, split_trading_fee};
use crate::meme::{Meme, MemeStatus};
use crate::platform::PlatformConfig;

verus! {

/// The first reason a buy must be refused, if any. The checks run in the
/// order the operation performs them, all before any balance moves.
pub open spec fn spec_buy_err(
    platform: PlatformConfig,
    meme: Meme,
    curve: BondingCurve,
    pool: GenesisPool,
    sol_amount: u64,
    min_tokens_out: u64,
    buyer_sol: u64,
    buyer_tokens: u64,
    curve_vault: u64,
    curve_tokens: u64,
    platform_authority_sol: u64,
) -> Option<ProofOfMemeError> {
    if meme.status != MemeStatus::Launched {
        Some(ProofOfMemeError::CurveNotActive)
    } else if curve.meme != meme.index {
        Some(ProofOfMemeError::InvalidCurveAccount)
    } else if curve.status != CurveStatus::Active {
        Some(ProofOfMemeError::CurveCompleted)
    } else if pool.meme != meme.index {
        Some(ProofOfMemeError::AccountMismatch)
    } else if sol_amount == 0 {
        Some(ProofOfMemeError::ZeroAmount)
    } else if sol_amount * TRADING_FEE_BPS > u64::MAX {
        Some(ProofOfMemeError::MathOverflow)
    } else {
        let trading_fee = spec_trading_fee(sol_amount) as u64;
        let sol_after_fee = (sol_amount - trading_fee) as u64;
        if curve.virtual_sol_reserves + sol_after_fee == 0 {
            Some(ProofOfMemeError::MathOverflow)
        } else {
            let tokens_out = spec_buy_quote(curve, sol_after_fee) as u64;
            if tokens_out == 0 {
                Some(ProofOfMemeError::InvalidTokenAmount)
            } else if tokens_out < min_tokens_out {
                Some(ProofOfMemeError::SlippageExceeded)
            } else if tokens_out > curve.real_token_reserves {
                Some(ProofOfMemeError::InsufficientTokens)
            } else if !spec_split_defined(
                trading_fee,
                platform.genesis_fee_bps,
                platform.platform_fee_bps,
            ) {
                Some(ProofOfMemeError::MathOverflow)
            } else {
                let genesis_fee = spec_fee_share(trading_fee, platform.genesis_fee_bps) as u64;
                let platform_fee = spec_fee_share(trading_fee, platform.platform_fee_bps) as u64;
                let burn_fee = (trading_fee - genesis_fee - platform_fee) as u64;
                if platform_fee > sol_amount {
                    Some(ProofOfMemeError::MathOverflow)
                } else if buyer_sol < sol_amount {
                    Some(ProofOfMemeError::InsufficientSol)
                } else if curve_vault + (sol_amount - platform_fee) > u64::MAX {
                    Some(ProofOfMemeError::MathOverflow)
                } else if platform_authority_sol + platform_fee > u64::MAX {
                    Some(ProofOfMemeError::MathOverflow)
                } else if curve_tokens < tokens_out {
                    Some(ProofOfMemeError::InsufficientTokens)
                } else if buyer_tokens + tokens_out > u64::MAX {
                    Some(ProofOfMemeError::MathOverflow)
                } else if curve.genesis_fees_accumulated + genesis_fee > u64::MAX {
                    Some(ProofOfMemeError::MathOverflow)
                } else if curve.platform_fees_accumulated + platform_fee > u64::MAX {
                    Some(ProofOfMemeError::MathOverflow)
                } else if curve.burn_fees_accumulated + burn_fee > u64::MAX {
                    Some(ProofOfMemeError::MathOverflow)
                } else if pool.total_fees + genesis_fee > u64::MAX {
                    Some(ProofOfMemeError::MathOverflow)
                } else {
                    None
                }
            }
        }
    }
}

/// The curve state after a successful buy of `sol_amount`: reserves move
/// by the net input and the quoted tokens, the fee accumulators grow by
/// the three-way split, and the curve completes permanently once the
/// real reserves reach the threshold.
pub open spec fn spec_buy_curve_post(
    curve: BondingCurve,
    genesis_fee_bps: u16,
    platform_fee_bps: u16,
    sol_amount: u64,
) -> BondingCurve {
    let trading_fee = spec_trading_fee(sol_amount) as u64;
    let sol_after_fee = (sol_amount - trading_fee) as u64;
    let tokens_out = spec_buy_quote(curve, sol_after_fee) as u64;
    let genesis_fee = spec_fee_share(trading_fee, genesis_fee_bps) as u64;
    let platform_fee = spec_fee_share(trading_fee, platform_fee_bps) as u64;
    let burn_fee = (trading_fee - genesis_fee - platform_fee) as u64;
    let updated = spec_apply_buy(curve, sol_after_fee, tokens_out);
    let with_fees = BondingCurve {
        genesis_fees_accumulated: (updated.genesis_fees_accumulated + genesis_fee) as u64,
        platform_fees_accumulated: (updated.platform_fees_accumulated + platform_fee) as u64,
        burn_fees_accumulated: (updated.burn_fees_accumulated + burn_fee) as u64,
        ..updated
    };
    if with_fees.real_sol_reserves >= with_fees.completion_threshold {
        BondingCurve { status: CurveStatus::Complete, ..with_fees }
    } else {
        with_fees
    }
}

/// The trading fee never exceeds the gross amount it is charged on.
proof fn lemma_trading_fee_le_amount(sol_amount: u64)
    requires
        sol_amount * TRADING_FEE_BPS <= u64::MAX,
    ensures
        0 <= spec_trading_fee(sol_amount) <= sol_amount,
{
    let d = BPS_DENOMINATOR as int;
    lemma_mul_inequality(TRADING_FEE_BPS as int, d, sol_amount as int);
    assert(sol_amount as int * TRADING_FEE_BPS as int <= d * sol_amount as int);
    lemma_div_is_ordered(sol_amount as int * TRADING_FEE_BPS as int, d * sol_amount as int, d);
    lemma_div_multiples_vanish(sol_amount as int, d);
}

/// Virtual and real reserves stay in lock-step through a whole buy: a
/// curve whose virtual reserves sit exactly one seed above the real ones
/// leaves a buy the same way, whenever the currency side cannot clamp.
pub proof fn lemma_buy_preserves_lockstep(
    curve: BondingCurve,
    genesis_fee_bps: u16,
    platform_fee_bps: u16,
    sol_amount: u64,
)
    requires
        curve.reserves_in_lockstep(),
        sol_amount * TRADING_FEE_BPS <= u64::MAX,
        curve.virtual_sol_reserves + (sol_amount - spec_trading_fee(sol_amount)) <= u64::MAX,
    ensures
        spec_buy_curve_post(
            curve,
            genesis_fee_bps,
            platform_fee_bps,
            sol_amount,
        ).reserves_in_lockstep(),
{
    lemma_trading_fee_le_amount(sol_amount);
    let sol_after_fee = (sol_amount - spec_trading_fee(sol_amount)) as u64;
    let q = (sol_after_fee * curve.virtual_token_reserves) as int / (curve.virtual_sol_reserves
        + sol_after_fee);
    if curve.virtual_sol_reserves + sol_after_fee > 0 {
        vstd::arithmetic::div_mod::lemma_div_is_ordered(
            0,
            sol_after_fee * curve.virtual_token_reserves,
            curve.virtual_sol_reserves + sol_after_fee,
        );
        vstd::arithmetic::mul::lemma_mul_nonnegative(
            sol_after_fee as int,
            curve.virtual_token_reserves as int,
        );
        assert(q >= 0);
    }
}

/// Buy tokens with `sol_amount` of reserve currency, rejecting the trade
/// if the quoted output falls below `min_tokens_out`. On success the
/// buyer pays exactly `sol_amount`: the platform's fee share goes to the
/// fee recipient, the rest into the curve escrow, and the quoted tokens
/// move from the curve to the buyer. Returns the tokens bought.
///
/// Token conservation: whenever the books balance going in (unsold plus
/// sold tokens fit in 64 bits), a buy leaves their sum unchanged.
pub fn buy_tokens(
    platform: &PlatformConfig,
    meme: &Meme,
    curve: &mut BondingCurve,
    pool: &mut GenesisPool,
    sol_amount: u64,
    min_tokens_out: u64,
    buyer_sol: &mut u64,
    buyer_tokens: &mut u64,
    curve_vault: &mut u64,
    curve_tokens: &mut u64,
    platform_authority_sol: &mut u64,
) -> (r: Result<u64, ProofOfMemeError>)
    ensures
        r is Err <==> spec_buy_err(
            *platform,
            *meme,
            *old(curve),
            *old(pool),
            sol_amount,
            min_tokens_out,
            *old(buyer_sol),
            *old(buyer_tokens),
            *old(curve_vault),
            *old(curve_tokens),
            *old(platform_authority_sol),
        ) is Some,
        r is Err ==> r->Err_0 == spec_buy_err(
            *platform,
            *meme,
            *old(curve),
            *old(pool),
            sol_amount,
            min_tokens_out,
            *old(buyer_sol),
            *old(buyer_tokens),
            *old(curve_vault),
            *old(curve_tokens),
            *old(platform_authority_sol),
        )->Some_0,
        r is Err ==> *final(curve) == *old(curve) && *final(pool) == *old(pool)
            && *final(buyer_sol) == *old(buyer_sol) && *final(buyer_tokens) == *old(buyer_tokens)
            && *final(curve_vault) == *old(curve_vault) && *final(curve_tokens) == *old(
            curve_tokens,
        ) && *final(platform_authority_sol) == *old(platform_authority_sol),
        r is Ok ==> r->Ok_0 == spec_buy_quote(
            *old(curve),
            (sol_amount - spec_trading_fee(sol_amount)) as u64,
        ) && r->Ok_0 >= min_tokens_out && r->Ok_0 > 0,
        r is Ok ==> *final(curve) == spec_buy_curve_post(
            *old(curve),
            platform.genesis_fee_bps,
            platform.platform_fee_bps,
            sol_amount,
        ),
        r is Ok ==> *final(pool) == (GenesisPool {
            total_fees: (old(pool).total_fees + spec_fee_share(
                spec_trading_fee(sol_amount) as u64,
                platform.genesis_fee_bps,
            )) as u64,
            ..*old(pool)
        }),
        r is Ok ==> *final(buyer_sol) == *old(buyer_sol) - sol_amount,
        r is Ok ==> *final(curve_vault) == *old(curve_vault) + sol_amount - spec_fee_share(
            spec_trading_fee(sol_amount) as u64,
            platform.platform_fee_bps,
        ),
        r is Ok ==> *final(platform_authority_sol) == *old(platform_authority_sol)
            + spec_fee_share(spec_trading_fee(sol_amount) as u64, platform.platform_fee_bps),
        r is Ok ==> *final(curve_tokens) == *old(curve_tokens) - r->Ok_0,
        r is Ok ==> *final(buyer_tokens) == *old(buyer_tokens) + r->Ok_0,
        r is Ok && old(curve).real_token_reserves + old(curve).tokens_sold <= u64::MAX
            ==> final(curve).real_token_reserves + final(curve).tokens_sold == old(
            curve,
        ).real_token_reserves + old(curve).tokens_sold,
{
    if !(meme.status == MemeStatus::Launched) {
        return Err(ProofOfMemeError::CurveNotActive);
    }
    if curve.meme != meme.index {
        return Err(ProofOfMemeError::InvalidCurveAccount);
    }
    if !(curve.status == CurveStatus::Active) {
        return Err(ProofOfMemeError::CurveCompleted);
    }
    if pool.meme != meme.index {
        return Err(ProofOfMemeError::AccountMismatch);
    }
    if sol_amount == 0 {
        return Err(ProofOfMemeError::ZeroAmount);
    }
    let trading_fee: u64 = match sol_amount.checked_mul(TRADING_FEE_BPS) {
        Some(x) => x / BPS_DENOMINATOR,
        None => {
            return Err(ProofOfMemeError::MathOverflow);
        },
    };
    proof {
        lemma_trading_fee_le_amount(sol_amount);
    }
    let sol_after_fee: u64 = sol_amount - trading_fee;
    let tokens_out: u64 = match curve.calculate_buy_tokens(sol_after_fee) {
        Some(t) => t,
        None => {
            return Err(ProofOfMemeError::MathOverflow);
        },
    };
    if tokens_out == 0 {
        return Err(ProofOfMemeError::InvalidTokenAmount);
    }
    if tokens_out < min_tokens_out {
        return Err(ProofOfMemeError::SlippageExceeded);
    }
    if tokens_out > curve.real_token_reserves {
        return Err(ProofOfMemeError::InsufficientTokens);
    }
    let (genesis_fee, platform_fee, burn_fee): (u64, u64, u64) = match split_trading_fee(
        trading_fee,
        platform.genesis_fee_bps,
        platform.platform_fee_bps,
    ) {
        Some(t) => t,
        None => {
            return Err(ProofOfMemeError::MathOverflow);
        },
    };
    let sol_to_curve: u64 = match sol_amount.checked_sub(platform_fee) {
        Some(x) => x,
        None => {
            return Err(ProofOfMemeError::MathOverflow);
        },
    };
    if *buyer_sol < sol_amount {
        return Err(ProofOfMemeError::InsufficientSol);
    }
    let new_vault: u64 = match curve_vault.checked_add(sol_to_curve) {
        Some(x) => x,
        None => {
            return Err(ProofOfMemeError::MathOverflow);
        },
    };
    let new_authority_sol: u64 = match platform_authority_sol.checked_add(platform_fee) {
        Some(x) => x,
        None => {
            return Err(ProofOfMemeError::MathOverflow);
        },
    };
    if *curve_tokens < tokens_out {
        return Err(ProofOfMemeError::InsufficientTokens);
    }
    let new_buyer_tokens: u64 = match buyer_tokens.checked_add(tokens_out) {
        Some(x) => x,
        None => {
            return Err(ProofOfMemeError::MathOverflow);
        },
    };
    let new_genesis_acc: u64 = match curve.genesis_fees_accumulated.checked_add(genesis_fee) {
        Some(x) => x,
        None => {
            return Err(ProofOfMemeError::MathOverflow);
        },
    };
    let new_platform_acc: u64 = match curve.platform_fees_accumulated.checked_add(platform_fee) {
        Some(x) => x,
        None => {
            return Err(ProofOfMemeError::MathOverflow);
        },
    };
    let new_burn_acc: u64 = match curve.burn_fees_accumulated.checked_add(burn_fee) {
        Some(x) => x,
        None => {
            return Err(ProofOfMemeError::MathOverflow);
        },
    };
    let new_pool_fees: u64 = match pool.total_fees.checked_add(genesis_fee) {
        Some(x) => x,
        None => {
            return Err(ProofOfMemeError::MathOverflow);
        },
    };

    *buyer_sol = *buyer_sol - sol_amount;
    *curve_vault = new_vault;
    *platform_authority_sol = new_authority_sol;
    *curve_tokens = *curve_tokens - tokens_out;
    *buyer_tokens = new_buyer_tokens;

    curve.apply_buy(sol_after_fee, tokens_out);
    curve.genesis_fees_accumulated = new_genesis_acc;
    curve.platform_fees_accumulated = new_platform_acc;
    curve.burn_fees_accumulated = new_burn_acc;
    pool.total_fees = new_pool_fees;

    if curve.is_complete() {
        curve.status = CurveStatus::Complete;
    }
    Ok(tokens_out)
}

} // verus!
