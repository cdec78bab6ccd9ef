//! Pull-based fee claims for genesis backers. A claim computes the
//! backer's entitlement from two running totals — no iteration over the
//! claimant set ever happens — pays out the part not yet claimed, and
//! advances the pledge's and the pool's claimed counters in the same
//! atomic step.

use vstd::prelude::*;
use crate::backing::Backing;
use crate::curve::{spec_claimable, BondingCurve, GenesisPool};
use crate::errors::ProofOfMemeError;
use crate::meme::{Meme, MemeStatus};

verus! {

/// The first reason a claim must be refused, if any.
pub open spec fn spec_claim_err(
    meme: Meme,
    backing: Backing,
    curve: BondingCurve,
    pool: GenesisPool,
    backer: u64,
    curve_vault: u64,
    backer_sol: u64,
) -> Option<ProofOfMemeError> {
    let claimable = spec_claimable(
        backing.amount,
        pool.total_fees,
        pool.total_qualified_backing,
        backing.fees_claimed,
    );
    if meme.status != MemeStatus::Launched && meme.status != MemeStatus::Migrated {
        Some(ProofOfMemeError::CurveNotActive)
    } else if backing.backer != backer {
        Some(ProofOfMemeError::NotGenesisBacker)
    } else if backing.meme != meme.index {
        Some(ProofOfMemeError::AccountMismatch)
    } else if !backing.qualifies_for_fees {
        Some(ProofOfMemeError::NotGenesisBacker)
    } else if backing.withdrawn {
        Some(ProofOfMemeError::BackingAlreadyWithdrawn)
    } else if curve.meme != meme.index {
        Some(ProofOfMemeError::InvalidCurveAccount)
    } else if pool.meme != meme.index {
        Some(ProofOfMemeError::AccountMismatch)
    } else if claimable == 0 {
        Some(ProofOfMemeError::NoFeesToClaim)
    } else if curve_vault < claimable {
        Some(ProofOfMemeError::InsufficientVaultBalance)
    } else if backer_sol + claimable > u64::MAX {
        Some(ProofOfMemeError::MathOverflow)
    } else if backing.fees_claimed + claimable > u64::MAX {
        Some(ProofOfMemeError::MathOverflow)
    } else if pool.total_claimed + claimable > u64::MAX {
        Some(ProofOfMemeError::MathOverflow)
    } else if curve.genesis_fees_distributed + claimable > u64::MAX {
        Some(ProofOfMemeError::MathOverflow)
    } else {
        None
    }
}

/// Claim a qualified backer's outstanding share of the accumulated
/// trading fees, moving it from the curve escrow to the backer's wallet.
/// Returns the amount paid. Safe to call at any frequency: entitlements
/// only grow with the fee total, each claim advances the claimed
/// counters by exactly the amount paid, and with no new fees a repeat
/// claim finds nothing to claim.
pub fn claim_genesis_fees(
    meme: &Meme,
    backing: &mut Backing,
    curve: &mut BondingCurve,
    pool: &mut GenesisPool,
    backer: u64,
    curve_vault: &mut u64,
    backer_sol: &mut u64,
) -> (r: Result<u64, ProofOfMemeError>)
    ensures
        r is Err <==> spec_claim_err(
            *meme,
            *old(backing),
            *old(curve),
            *old(pool),
            backer,
            *old(curve_vault),
            *old(backer_sol),
        ) is Some,
        r is Err ==> r->Err_0 == spec_claim_err(
            *meme,
            *old(backing),
            *old(curve),
            *old(pool),
            backer,
            *old(curve_vault),
            *old(backer_sol),
        )->Some_0,
        r is Err ==> *final(backing) == *old(backing) && *final(curve) == *old(curve)
            && *final(pool) == *old(pool) && *final(curve_vault) == *old(curve_vault)
            && *final(backer_sol) == *old(backer_sol),
        r is Ok ==> r->Ok_0 == spec_claimable(
            old(backing).amount,
            old(pool).total_fees,
            old(pool).total_qualified_backing,
            old(backing).fees_claimed,
        ) && r->Ok_0 > 0,
        r is Ok ==> *final(backing) == (Backing {
            fees_claimed: (old(backing).fees_claimed + r->Ok_0) as u64,
            ..*old(backing)
        }),
        r is Ok ==> *final(pool) == (GenesisPool {
            total_claimed: (old(pool).total_claimed + r->Ok_0) as u64,
            ..*old(pool)
        }),
        r is Ok ==> *final(curve) == (BondingCurve {
            genesis_fees_distributed: (old(curve).genesis_fees_distributed + r->Ok_0) as u64,
            ..*old(curve)
        }),
        r is Ok ==> *final(curve_vault) == *old(curve_vault) - r->Ok_0,
        r is Ok ==> *final(backer_sol) == *old(backer_sol) + r->Ok_0,
        final(pool).total_claimed >= old(pool).total_claimed,
{
    if !(meme.status == MemeStatus::Launched || meme.status == MemeStatus::Migrated) {
        return Err(ProofOfMemeError::CurveNotActive);
    }
    if backing.backer != backer {
        return Err(ProofOfMemeError::NotGenesisBacker);
    }
    if backing.meme != meme.index {
        return Err(ProofOfMemeError::AccountMismatch);
    }
    if !backing.qualifies_for_fees {
        return Err(ProofOfMemeError::NotGenesisBacker);
    }
    if backing.withdrawn {
        return Err(ProofOfMemeError::BackingAlreadyWithdrawn);
    }
    if curve.meme != meme.index {
        return Err(ProofOfMemeError::InvalidCurveAccount);
    }
    if pool.meme != meme.index {
        return Err(ProofOfMemeError::AccountMismatch);
    }
    let claimable: u64 = match pool.calculate_claimable(backing.amount, backing.fees_claimed) {
        Some(x) => x,
        None => {
            return Err(ProofOfMemeError::MathOverflow);
        },
    };
    if claimable == 0 {
        return Err(ProofOfMemeError::NoFeesToClaim);
    }
    if *curve_vault < claimable {
        return Err(ProofOfMemeError::InsufficientVaultBalance);
    }
    let new_backer_sol: u64 = match backer_sol.checked_add(claimable) {
        Some(x) => x,
        None => {
            return Err(ProofOfMemeError::MathOverflow);
        },
    };
    let new_fees_claimed: u64 = match backing.fees_claimed.checked_add(claimable) {
        Some(x) => x,
        None => {
            return Err(ProofOfMemeError::MathOverflow);
        },
    };
    let new_total_claimed: u64 = match pool.total_claimed.checked_add(claimable) {
        Some(x) => x,
        None => {
            return Err(ProofOfMemeError::MathOverflow);
        },
    };
    let new_distributed: u64 = match curve.genesis_fees_distributed.checked_add(claimable) {
        Some(x) => x,
        None => {
            return Err(ProofOfMemeError::MathOverflow);
        },
    };
    *curve_vault = *curve_vault - claimable;
    *backer_sol = new_backer_sol;
    backing.fees_claimed = new_fees_claimed;
    pool.total_claimed = new_total_claimed;
    curve.genesis_fees_distributed = new_distributed;
    Ok(claimable)
}

/// Repeated claims drain to a fixed point: once a claim has been paid,
/// the same pledge has nothing further to claim until the pool's fee
/// total grows.
pub proof fn lemma_repeat_claim_finds_nothing(backing: Backing, pool: GenesisPool)
    requires
        backing.fees_claimed + spec_claimable(
            backing.amount,
            pool.total_fees,
            pool.total_qualified_backing,
            backing.fees_claimed,
        ) <= u64::MAX,
    ensures
        spec_claimable(
            backing.amount,
            pool.total_fees,
            pool.total_qualified_backing,
            (backing.fees_claimed + spec_claimable(
                backing.amount,
                pool.total_fees,
                pool.total_qualified_backing,
                backing.fees_claimed,
            )) as u64,
        ) == 0,
{
}

} // verus!
