//! Selling on the bonding curve. The gross payout is priced over the
//! virtual reserves and capped at the real reserves; the 1% trading fee
//! comes out of the payout. The seller's tokens are received before any
//! reserve currency leaves — a receive-before-send discipline — and the
//! genesis and burn fee shares stay in the curve escrow for later claims.

use vstd::prelude::*;
use vstd::arithmetic::div_mod::{lemma_div_is_ordered, lemma_div_multiples_vanish};
use vstd::arithmetic::mul::lemma_mul_inequality;
use crate::constants::{BPS_DENOMINATOR, TRADING_FEE_BPS};
use crate::curve::{spec_apply_sell, spec_sell_quote, BondingCurve, CurveStatus, GenesisPool};
use crate::errors::ProofOfMemeError;
use crate::fees::{spec_fee_share, spec_split_defined, spec_trading_fee, split_trading_fee};
use crate::meme::{Meme, MemeStatus};
use crate::platform::PlatformConfig;

verus! {

/// The first reason a sell must be refused, if any. The checks run in
/// the order the operation performs them, all before any balance moves.
pub open spec fn spec_sell_err(
    platform: PlatformConfig,
    meme: Meme,
    curve: BondingCurve,
    pool: GenesisPool,
    token_amount: u64,
    min_sol_out: u64,
    seller_sol: u64,
    seller_tokens: u64,
    curve_vault: u64,
    curve_tokens: u64,
    platform_authority_sol: u64,
) -> Option<ProofOfMemeError> {
    if meme.status != MemeStatus::Launched {
        Some(ProofOfMemeError::CurveNotActive)
    } else if curve.meme != meme.index {
        Some(ProofOfMemeError::InvalidCurveAccount)
    } else if curve.status != CurveStatus::Active {
        Some(ProofOfMemeError::CurveCompleted)
    } else if pool.meme != meme.index {
        Some(ProofOfMemeError::AccountMismatch)
    } else if token_amount == 0 {
        Some(ProofOfMemeError::ZeroAmount)
    } else if curve.virtual_token_reserves + token_amount == 0 {
        Some(ProofOfMemeError::MathOverflow)
    } else {
        let sol_out_gross = spec_sell_quote(curve, token_amount) as u64;
        if sol_out_gross == 0 {
            Some(ProofOfMemeError::InvalidTokenAmount)
        } else if sol_out_gross * TRADING_FEE_BPS > u64::MAX {
            Some(ProofOfMemeError::MathOverflow)
        } else {
            let trading_fee = spec_trading_fee(sol_out_gross) as u64;
            let sol_out_net = (sol_out_gross - trading_fee) as u64;
            if sol_out_net < min_sol_out {
                Some(ProofOfMemeError::SlippageExceeded)
            } else if curve_vault < sol_out_gross {
                Some(ProofOfMemeError::InsufficientVaultBalance)
            } else if sol_out_gross > curve.real_sol_reserves {
                Some(ProofOfMemeError::InsufficientSol)
            } else if !spec_split_defined(
                trading_fee,
                platform.genesis_fee_bps,
                platform.platform_fee_bps,
            ) {
                Some(ProofOfMemeError::MathOverflow)
            } else {
                let genesis_fee = spec_fee_share(trading_fee, platform.genesis_fee_bps) as u64;
                let platform_fee = spec_fee_share(trading_fee, platform.platform_fee_bps) as u64;
                let burn_fee = (trading_fee - genesis_fee - platform_fee) as u64;
                if seller_tokens < token_amount {
                    Some(ProofOfMemeError::InsufficientTokens)
                } else if curve_tokens + token_amount > u64::MAX {
                    Some(ProofOfMemeError::MathOverflow)
                } else if seller_sol + sol_out_net > u64::MAX {
                    Some(ProofOfMemeError::MathOverflow)
                } else if platform_authority_sol + platform_fee > u64::MAX {
                    Some(ProofOfMemeError::MathOverflow)
                } else if curve.genesis_fees_accumulated + genesis_fee > u64::MAX {
                    Some(ProofOfMemeError::MathOverflow)
                } else if curve.platform_fees_accumulated + platform_fee > u64::MAX {
                    Some(ProofOfMemeError::MathOverflow)
                } else if curve.burn_fees_accumulated + burn_fee > u64::MAX {
                    Some(ProofOfMemeError::MathOverflow)
                } else if pool.total_fees + genesis_fee > u64::MAX {
                    Some(ProofOfMemeError::MathOverflow)
                } else {
                    None
                }
            }
        }
    }
}

/// The curve state after a successful sell of `token_amount`: reserves
/// move by the returned tokens and the gross payout, and the fee
/// accumulators grow by the three-way split of the fee on the payout.
pub open spec fn spec_sell_curve_post(
    curve: BondingCurve,
    genesis_fee_bps: u16,
    platform_fee_bps: u16,
    token_amount: u64,
) -> BondingCurve {
    let sol_out_gross = spec_sell_quote(curve, token_amount) as u64;
    let trading_fee = spec_trading_fee(sol_out_gross) as u64;
    let genesis_fee = spec_fee_share(trading_fee, genesis_fee_bps) as u64;
    let platform_fee = spec_fee_share(trading_fee, platform_fee_bps) as u64;
    let burn_fee = (trading_fee - genesis_fee - platform_fee) as u64;
    let updated = spec_apply_sell(curve, token_amount, sol_out_gross);
    BondingCurve {
        genesis_fees_accumulated: (updated.genesis_fees_accumulated + genesis_fee) as u64,
        platform_fees_accumulated: (updated.platform_fees_accumulated + platform_fee) as u64,
        burn_fees_accumulated: (updated.burn_fees_accumulated + burn_fee) as u64,
        ..updated
    }
}

/// The trading fee never exceeds the gross payout it is charged on.
proof fn lemma_trading_fee_le_gross(sol_out_gross: u64)
    requires
        sol_out_gross * TRADING_FEE_BPS <= u64::MAX,
    ensures
        0 <= spec_trading_fee(sol_out_gross) <= sol_out_gross,
{
    let d = BPS_DENOMINATOR as int;
    lemma_mul_inequality(TRADING_FEE_BPS as int, d, sol_out_gross as int);
    assert(sol_out_gross as int * TRADING_FEE_BPS as int <= d * sol_out_gross as int);
    lemma_div_is_ordered(
        sol_out_gross as int * TRADING_FEE_BPS as int,
        d * sol_out_gross as int,
        d,
    );
    lemma_div_multiples_vanish(sol_out_gross as int, d);
}

/// Virtual and real reserves stay in lock-step through a whole sell: a
/// curve whose virtual reserves sit exactly one seed above the real ones
/// leaves a sell the same way, whenever the token side cannot clamp.
pub proof fn lemma_sell_preserves_lockstep(
    curve: BondingCurve,
    genesis_fee_bps: u16,
    platform_fee_bps: u16,
    token_amount: u64,
)
    requires
        curve.reserves_in_lockstep(),
        token_amount > 0,
        curve.virtual_token_reserves + token_amount <= u64::MAX,
    ensures
        spec_sell_curve_post(
            curve,
            genesis_fee_bps,
            platform_fee_bps,
            token_amount,
        ).reserves_in_lockstep(),
{
    let q = (token_amount * curve.virtual_sol_reserves) as int / (curve.virtual_token_reserves
        + token_amount);
    vstd::arithmetic::div_mod::lemma_div_is_ordered(
        0,
        token_amount * curve.virtual_sol_reserves,
        curve.virtual_token_reserves + token_amount,
    );
    vstd::arithmetic::mul::lemma_mul_nonnegative(
        token_amount as int,
        curve.virtual_sol_reserves as int,
    );
    assert(q >= 0);
}

/// Sell `token_amount` tokens back to the curve, rejecting the trade if
/// the net payout falls below `min_sol_out`. On success the seller's
/// tokens return to the curve, the net payout leaves the curve escrow
/// for the seller, the platform's fee share leaves for the fee
/// recipient, and the genesis and burn shares stay escrowed. Returns the
/// net payout.
///
/// Token conservation: whenever the books balance going in (unsold plus
/// sold tokens fit in 64 bits) and no more tokens return than were ever
/// sold, a sell leaves their sum unchanged.
pub fn sell_tokens(
    platform: &PlatformConfig,
    meme: &Meme,
    curve: &mut BondingCurve,
    pool: &mut GenesisPool,
    token_amount: u64,
    min_sol_out: u64,
    seller_sol: &mut u64,
    seller_tokens: &mut u64,
    curve_vault: &mut u64,
    curve_tokens: &mut u64,
    platform_authority_sol: &mut u64,
) -> (r: Result<u64, ProofOfMemeError>)
    ensures
        r is Err <==> spec_sell_err(
            *platform,
            *meme,
            *old(curve),
            *old(pool),
            token_amount,
            min_sol_out,
            *old(seller_sol),
            *old(seller_tokens),
            *old(curve_vault),
            *old(curve_tokens),
            *old(platform_authority_sol),
        ) is Some,
        r is Err ==> r->Err_0 == spec_sell_err(
            *platform,
            *meme,
            *old(curve),
            *old(pool),
            token_amount,
            min_sol_out,
            *old(seller_sol),
            *old(seller_tokens),
            *old(curve_vault),
            *old(curve_tokens),
            *old(platform_authority_sol),
        )->Some_0,
        r is Err ==> *final(curve) == *old(curve) && *final(pool) == *old(pool)
            && *final(seller_sol) == *old(seller_sol) && *final(seller_tokens) == *old(
            seller_tokens,
        ) && *final(curve_vault) == *old(curve_vault) && *final(curve_tokens) == *old(curve_tokens)
            && *final(platform_authority_sol) == *old(platform_authority_sol),
        r is Ok ==> r->Ok_0 == spec_sell_quote(*old(curve), token_amount) - spec_trading_fee(
            spec_sell_quote(*old(curve), token_amount) as u64,
        ) && r->Ok_0 >= min_sol_out,
        r is Ok ==> *final(curve) == spec_sell_curve_post(
            *old(curve),
            platform.genesis_fee_bps,
            platform.platform_fee_bps,
            token_amount,
        ),
        r is Ok ==> *final(pool) == (GenesisPool {
            total_fees: (old(pool).total_fees + spec_fee_share(
                spec_trading_fee(spec_sell_quote(*old(curve), token_amount) as u64) as u64,
                platform.genesis_fee_bps,
            )) as u64,
            ..*old(pool)
        }),
        r is Ok ==> *final(seller_tokens) == *old(seller_tokens) - token_amount,
        r is Ok ==> *final(curve_tokens) == *old(curve_tokens) + token_amount,
        r is Ok ==> *final(seller_sol) == *old(seller_sol) + r->Ok_0,
        r is Ok ==> *final(platform_authority_sol) == *old(platform_authority_sol)
            + spec_fee_share(
            spec_trading_fee(spec_sell_quote(*old(curve), token_amount) as u64) as u64,
            platform.platform_fee_bps,
        ),
        r is Ok ==> *final(curve_vault) == *old(curve_vault) - r->Ok_0 - spec_fee_share(
            spec_trading_fee(spec_sell_quote(*old(curve), token_amount) as u64) as u64,
            platform.platform_fee_bps,
        ),
        r is Ok && token_amount <= old(curve).tokens_sold && old(curve).real_token_reserves + old(
            curve,
        ).tokens_sold <= u64::MAX ==> final(curve).real_token_reserves + final(curve).tokens_sold
            == old(curve).real_token_reserves + old(curve).tokens_sold,
{
    if !(meme.status == MemeStatus::Launched) {
        return Err(ProofOfMemeError::CurveNotActive);
    }
    if curve.meme != meme.index {
        return Err(ProofOfMemeError::InvalidCurveAccount);
    }
    if !(curve.status == CurveStatus::Active) {
        return Err(ProofOfMemeError::CurveCompleted);
    }
    if pool.meme != meme.index {
        return Err(ProofOfMemeError::AccountMismatch);
    }
    if token_amount == 0 {
        return Err(ProofOfMemeError::ZeroAmount);
    }
    let sol_out_gross: u64 = match curve.calculate_sell_sol(token_amount) {
        Some(x) => x,
        None => {
            return Err(ProofOfMemeError::MathOverflow);
        },
    };
    if sol_out_gross == 0 {
        return Err(ProofOfMemeError::InvalidTokenAmount);
    }
    let trading_fee: u64 = match sol_out_gross.checked_mul(TRADING_FEE_BPS) {
        Some(x) => x / BPS_DENOMINATOR,
        None => {
            return Err(ProofOfMemeError::MathOverflow);
        },
    };
    proof {
        lemma_trading_fee_le_gross(sol_out_gross);
    }
    let sol_out_net: u64 = sol_out_gross - trading_fee;
    if sol_out_net < min_sol_out {
        return Err(ProofOfMemeError::SlippageExceeded);
    }
    if *curve_vault < sol_out_gross {
        return Err(ProofOfMemeError::InsufficientVaultBalance);
    }
    if sol_out_gross > curve.real_sol_reserves {
        return Err(ProofOfMemeError::InsufficientSol);
    }
    let (genesis_fee, platform_fee, burn_fee): (u64, u64, u64) = match split_trading_fee(
        trading_fee,
        platform.genesis_fee_bps,
        platform.platform_fee_bps,
    ) {
        Some(t) => t,
        None => {
            return Err(ProofOfMemeError::MathOverflow);
        },
    };
    if *seller_tokens < token_amount {
        return Err(ProofOfMemeError::InsufficientTokens);
    }
    let new_curve_tokens: u64 = match curve_tokens.checked_add(token_amount) {
        Some(x) => x,
        None => {
            return Err(ProofOfMemeError::MathOverflow);
        },
    };
    let new_seller_sol: u64 = match seller_sol.checked_add(sol_out_net) {
        Some(x) => x,
        None => {
            return Err(ProofOfMemeError::MathOverflow);
        },
    };
    let new_authority_sol: u64 = match platform_authority_sol.checked_add(platform_fee) {
        Some(x) => x,
        None => {
            return Err(ProofOfMemeError::MathOverflow);
        },
    };
    let new_genesis_acc: u64 = match curve.genesis_fees_accumulated.checked_add(genesis_fee) {
        Some(x) => x,
        None => {
            return Err(ProofOfMemeError::MathOverflow);
        },
    };
    let new_platform_acc: u64 = match curve.platform_fees_accumulated.checked_add(platform_fee) {
        Some(x) => x,
        None => {
            return Err(ProofOfMemeError::MathOverflow);
        },
    };
    let new_burn_acc: u64 = match curve.burn_fees_accumulated.checked_add(burn_fee) {
        Some(x) => x,
        None => {
            return Err(ProofOfMemeError::MathOverflow);
        },
    };
    let new_pool_fees: u64 = match pool.total_fees.checked_add(genesis_fee) {
        Some(x) => x,
        None => {
            return Err(ProofOfMemeError::MathOverflow);
        },
    };

    *seller_tokens = *seller_tokens - token_amount;
    *curve_tokens = new_curve_tokens;
    *curve_vault = *curve_vault - sol_out_net - platform_fee;
    *seller_sol = new_seller_sol;
    *platform_authority_sol = new_authority_sol;

    curve.apply_sell(token_amount, sol_out_gross);
    curve.genesis_fees_accumulated = new_genesis_acc;
    curve.platform_fees_accumulated = new_platform_acc;
    curve.burn_fees_accumulated = new_burn_acc;
    pool.total_fees = new_pool_fees;

    Ok(sol_out_net)
}

} // verus!
