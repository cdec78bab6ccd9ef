//! Deadline evaluation: the one place a campaign leaves the proving
//! grounds. On success the token is issued — 20% of the supply backs the
//! genesis pool's claim base, 80% is minted into the curve — and the
//! curve and pool records are created exactly once. On a missed goal the
//! campaign is marked failed, which opens refunds.

use vstd::prelude::*;
use crate::constants::{
    BPS_DENOMINATOR, CURVE_COMPLETION_SOL, GENESIS_ALLOCATION_BPS, TOTAL_SUPPLY,
    VIRTUAL_SOL_RESERVES,
};
use crate::curve::{BondingCurve, CurveStatus, GenesisPool};
use crate::errors::ProofOfMemeError;
use crate::meme::{Meme, MemeStatus};
use crate::platform::PlatformConfig;

verus! {

/// The token allocation minted into the curve at launch: total supply
/// minus the genesis share.
pub open spec fn spec_curve_token_allocation() -> int {
    TOTAL_SUPPLY - TOTAL_SUPPLY * GENESIS_ALLOCATION_BPS / BPS_DENOMINATOR as int
}

/// The first reason launching must be refused, if any.
pub open spec fn spec_finalize_err(platform: PlatformConfig, meme: Meme, now: i64) -> Option<
    ProofOfMemeError,
> {
    if meme.status != MemeStatus::Proving {
        Some(ProofOfMemeError::AlreadyLaunched)
    } else if now < meme.proving_ends_at {
        Some(ProofOfMemeError::ProvingStillActive)
    } else if !meme.spec_goal_reached() {
        Some(ProofOfMemeError::GoalNotReached)
    } else if platform.total_memes_launched + 1 > u64::MAX {
        Some(ProofOfMemeError::MathOverflow)
    } else {
        None
    }
}

/// Evaluate a campaign at or after its deadline and launch it. Callable
/// by anyone; `mint` is the identity of the freshly derived token mint
/// and `now` the trusted wall-clock time. Exactly-once: a launched
/// campaign is no longer Proving, so a second call fails.
///
/// On success the returned curve starts with virtual and real reserves
/// in lock-step and all minted tokens unsold, and the pool's claim base
/// is the campaign's frozen backing total.
pub fn finalize_proving(
    platform: &mut PlatformConfig,
    meme: &mut Meme,
    mint: u64,
    now: i64,
) -> (r: Result<(BondingCurve, GenesisPool), ProofOfMemeError>)
    ensures
        r is Err <==> spec_finalize_err(*old(platform), *old(meme), now) is Some,
        r is Err ==> r->Err_0 == spec_finalize_err(*old(platform), *old(meme), now)->Some_0,
        r is Err ==> *final(platform) == *old(platform) && *final(meme) == *old(meme),
        r is Ok ==> *final(meme) == (Meme {
            mint,
            status: MemeStatus::Launched,
            launched_at: now,
            ..*old(meme)
        }),
        r is Ok ==> *final(platform) == (PlatformConfig {
            total_memes_launched: (old(platform).total_memes_launched + 1) as u64,
            ..*old(platform)
        }),
        r is Ok ==> r->Ok_0.0 == (BondingCurve {
            meme: old(meme).index,
            mint,
            virtual_sol_reserves: VIRTUAL_SOL_RESERVES,
            virtual_token_reserves: spec_curve_token_allocation() as u64,
            real_sol_reserves: 0,
            real_token_reserves: spec_curve_token_allocation() as u64,
            tokens_sold: 0,
            total_volume: 0,
            genesis_fees_accumulated: 0,
            genesis_fees_distributed: 0,
            platform_fees_accumulated: 0,
            burn_fees_accumulated: 0,
            status: CurveStatus::Active,
            completion_threshold: CURVE_COMPLETION_SOL,
        }),
        r is Ok ==> r->Ok_0.1 == (GenesisPool {
            meme: old(meme).index,
            total_qualified_backing: old(meme).sol_backed,
            total_fees: 0,
            total_claimed: 0,
            qualified_backer_count: old(meme).backer_count,
        }),
        r is Ok ==> r->Ok_0.0.reserves_in_lockstep(),
        r is Ok ==> r->Ok_0.0.conserves_tokens(spec_curve_token_allocation() as u64),
{
    if !(meme.status == MemeStatus::Proving) {
        return Err(ProofOfMemeError::AlreadyLaunched);
    }
    if now < meme.proving_ends_at {
        return Err(ProofOfMemeError::ProvingStillActive);
    }
    if !meme.goal_reached() {
        return Err(ProofOfMemeError::GoalNotReached);
    }
    let new_launched: u64 = match platform.total_memes_launched.checked_add(1) {
        Some(x) => x,
        None => {
            return Err(ProofOfMemeError::MathOverflow);
        },
    };

    let genesis_tokens: u64 = TOTAL_SUPPLY / BPS_DENOMINATOR * GENESIS_ALLOCATION_BPS;
    proof {
        assert(genesis_tokens == TOTAL_SUPPLY * GENESIS_ALLOCATION_BPS / BPS_DENOMINATOR as int);
    }
    let curve_tokens: u64 = TOTAL_SUPPLY - genesis_tokens;

    meme.mint = mint;
    meme.status = MemeStatus::Launched;
    meme.launched_at = now;
    platform.total_memes_launched = new_launched;

    let curve = BondingCurve {
        meme: meme.index,
        mint,
        virtual_sol_reserves: VIRTUAL_SOL_RESERVES,
        virtual_token_reserves: curve_tokens,
        real_sol_reserves: 0,
        real_token_reserves: curve_tokens,
        tokens_sold: 0,
        total_volume: 0,
        genesis_fees_accumulated: 0,
        genesis_fees_distributed: 0,
        platform_fees_accumulated: 0,
        burn_fees_accumulated: 0,
        status: CurveStatus::Active,
        completion_threshold: CURVE_COMPLETION_SOL,
    };
    let pool = GenesisPool {
        meme: meme.index,
        total_qualified_backing: meme.sol_backed,
        total_fees: 0,
        total_claimed: 0,
        qualified_backer_count: meme.backer_count,
    };
    Ok((curve, pool))
}

/// The first reason marking a campaign failed must be refused, if any.
pub open spec fn spec_mark_failed_err(meme: Meme, now: i64) -> Option<ProofOfMemeError> {
    if meme.status != MemeStatus::Proving {
        Some(ProofOfMemeError::AlreadyLaunched)
    } else if now < meme.proving_ends_at {
        Some(ProofOfMemeError::ProvingStillActive)
    } else if meme.spec_goal_reached() {
        Some(ProofOfMemeError::GoalNotReached)
    } else {
        None
    }
}

/// Mark a campaign whose deadline passed without reaching goal and quorum
/// as failed, enabling refunds. Terminal: the campaign never re-enters
/// the proving grounds.
pub fn mark_meme_failed(meme: &mut Meme, now: i64) -> (r: Result<(), ProofOfMemeError>)
    ensures
        r is Err <==> spec_mark_failed_err(*old(meme), now) is Some,
        r is Err ==> r->Err_0 == spec_mark_failed_err(*old(meme), now)->Some_0,
        r is Err ==> *final(meme) == *old(meme),
        r is Ok ==> *final(meme) == (Meme { status: MemeStatus::Failed, ..*old(meme) }),
{
    if !(meme.status == MemeStatus::Proving) {
        return Err(ProofOfMemeError::AlreadyLaunched);
    }
    if now < meme.proving_ends_at {
        return Err(ProofOfMemeError::ProvingStillActive);
    }
    if meme.goal_reached() {
        return Err(ProofOfMemeError::GoalNotReached);
    }
    meme.status = MemeStatus::Failed;
    Ok(())
}

} // verus!
