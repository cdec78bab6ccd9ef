//! Terminal handoff of a completed curve to the external liquidity venue.
//! This core's responsibility ends at charging the migration fee and
//! flagging both records; pool creation on the external exchange is an
//! out-of-core follow-up.

use vstd::prelude::*;
use crate::constants::MIGRATION_FEE;
use crate::curve::{BondingCurve, CurveStatus};
use crate::errors::ProofOfMemeError;
use crate::meme::{Meme, MemeStatus};
use crate::platform::PlatformConfig;

verus! {

/// The first reason migration must be refused, if any.
pub open spec fn spec_migrate_err(
    platform: PlatformConfig,
    meme: Meme,
    curve: BondingCurve,
    curve_vault: u64,
    platform_authority_sol: u64,
) -> Option<ProofOfMemeError> {
    if meme.status != MemeStatus::Launched {
        Some(ProofOfMemeError::CurveNotActive)
    } else if curve.meme != meme.index {
        Some(ProofOfMemeError::InvalidCurveAccount)
    } else if curve.status != CurveStatus::Complete {
        Some(ProofOfMemeError::CurveNotComplete)
    } else if curve_vault < MIGRATION_FEE {
        Some(ProofOfMemeError::InsufficientVaultBalance)
    } else if platform_authority_sol + MIGRATION_FEE > u64::MAX {
        Some(ProofOfMemeError::MathOverflow)
    } else if platform.total_platform_fees + MIGRATION_FEE > u64::MAX {
        Some(ProofOfMemeError::MathOverflow)
    } else {
        None
    }
}

/// Migrate a completed curve: move the flat migration fee from the curve
/// escrow to the platform authority and mark campaign and curve as
/// migrated. Callable by anyone once the curve is complete; irreversible,
/// and a second call fails because the campaign is no longer Launched.
pub fn migrate_to_raydium(
    platform: &mut PlatformConfig,
    meme: &mut Meme,
    curve: &mut BondingCurve,
    curve_vault: &mut u64,
    platform_authority_sol: &mut u64,
) -> (r: Result<(), ProofOfMemeError>)
    ensures
        r is Err <==> spec_migrate_err(
            *old(platform),
            *old(meme),
            *old(curve),
            *old(curve_vault),
            *old(platform_authority_sol),
        ) is Some,
        r is Err ==> r->Err_0 == spec_migrate_err(
            *old(platform),
            *old(meme),
            *old(curve),
            *old(curve_vault),
            *old(platform_authority_sol),
        )->Some_0,
        r is Err ==> *final(platform) == *old(platform) && *final(meme) == *old(meme)
            && *final(curve) == *old(curve) && *final(curve_vault) == *old(curve_vault)
            && *final(platform_authority_sol) == *old(platform_authority_sol),
        r is Ok ==> *final(curve_vault) == *old(curve_vault) - MIGRATION_FEE,
        r is Ok ==> *final(platform_authority_sol) == *old(platform_authority_sol)
            + MIGRATION_FEE,
        r is Ok ==> *final(platform) == (PlatformConfig {
            total_platform_fees: (old(platform).total_platform_fees + MIGRATION_FEE) as u64,
            ..*old(platform)
        }),
        r is Ok ==> *final(meme) == (Meme { status: MemeStatus::Migrated, ..*old(meme) }),
        r is Ok ==> *final(curve) == (BondingCurve { status: CurveStatus::Migrated, ..*old(curve) }),
{
    if !(meme.status == MemeStatus::Launched) {
        return Err(ProofOfMemeError::CurveNotActive);
    }
    if curve.meme != meme.index {
        return Err(ProofOfMemeError::InvalidCurveAccount);
    }
    if !(curve.status == CurveStatus::Complete) {
        return Err(ProofOfMemeError::CurveNotComplete);
    }
    if *curve_vault < MIGRATION_FEE {
        return Err(ProofOfMemeError::InsufficientVaultBalance);
    }
    let new_authority_sol: u64 = match platform_authority_sol.checked_add(MIGRATION_FEE) {
        Some(x) => x,
        None => {
            return Err(ProofOfMemeError::MathOverflow);
        },
    };
    let new_total_fees: u64 = match platform.total_platform_fees.checked_add(MIGRATION_FEE) {
        Some(x) => x,
        None => {
            return Err(ProofOfMemeError::MathOverflow);
        },
    };
    *curve_vault = *curve_vault - MIGRATION_FEE;
    *platform_authority_sol = new_authority_sol;
    platform.total_platform_fees = new_total_fees;
    meme.status = MemeStatus::Migrated;
    curve.status = CurveStatus::Migrated;
    Ok(())
}

} // verus!
