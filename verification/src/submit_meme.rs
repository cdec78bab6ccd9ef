//! Campaign submission: metadata and bound validation, the flat
//! anti-spam fee, and creation of the campaign record with the next
//! monotonically assigned index.

use vstd::prelude::*;
use crate::constants::{
    MAX_DESCRIPTION_LENGTH, MAX_NAME_LENGTH, MAX_PROVING_DURATION, MAX_SOL_GOAL, MAX_SYMBOL_LENGTH,
    MAX_URI_LENGTH, MIN_BACKERS, MIN_PROVING_DURATION, MIN_SOL_GOAL,
};
use crate::errors::ProofOfMemeError;
use crate::meme::{copy_prefix, Meme, MemeStatus};
use crate::platform::PlatformConfig;

verus! {

/// The first reason a submission must be refused, if any.
pub open spec fn spec_submit_err(
    platform: PlatformConfig,
    name: Seq<u8>,
    symbol: Seq<u8>,
    uri: Seq<u8>,
    description: Seq<u8>,
    sol_goal: u64,
    min_backers: u32,
    duration_seconds: i64,
    now: i64,
    creator_sol: u64,
    platform_authority_sol: u64,
) -> Option<ProofOfMemeError> {
    if name.len() == 0 {
        Some(ProofOfMemeError::EmptyName)
    } else if name.len() > MAX_NAME_LENGTH {
        Some(ProofOfMemeError::NameTooLong)
    } else if symbol.len() == 0 {
        Some(ProofOfMemeError::EmptySymbol)
    } else if symbol.len() > MAX_SYMBOL_LENGTH {
        Some(ProofOfMemeError::SymbolTooLong)
    } else if uri.len() > MAX_URI_LENGTH {
        Some(ProofOfMemeError::UriTooLong)
    } else if description.len() > MAX_DESCRIPTION_LENGTH {
        Some(ProofOfMemeError::DescriptionTooLong)
    } else if sol_goal < MIN_SOL_GOAL {
        Some(ProofOfMemeError::GoalTooLow)
    } else if sol_goal > MAX_SOL_GOAL {
        Some(ProofOfMemeError::GoalTooHigh)
    } else if min_backers < MIN_BACKERS {
        Some(ProofOfMemeError::MinBackersTooLow)
    } else if duration_seconds < MIN_PROVING_DURATION {
        Some(ProofOfMemeError::DurationTooShort)
    } else if duration_seconds > MAX_PROVING_DURATION {
        Some(ProofOfMemeError::DurationTooLong)
    } else if platform.submission_fee > 0 && creator_sol < platform.submission_fee {
        Some(ProofOfMemeError::InsufficientSol)
    } else if platform.submission_fee > 0 && platform_authority_sol + platform.submission_fee
        > u64::MAX {
        Some(ProofOfMemeError::MathOverflow)
    } else if now + duration_seconds > i64::MAX {
        Some(ProofOfMemeError::MathOverflow)
    } else if platform.total_memes_submitted + 1 > u64::MAX {
        Some(ProofOfMemeError::MathOverflow)
    } else {
        None
    }
}

/// Submit a campaign to the proving grounds. Validates the metadata
/// bounds, the goal range, the backer quorum and the proving duration;
/// charges the flat submission fee from the creator to the platform
/// authority; and returns the new campaign record carrying the next
/// campaign index, with its deadline `duration_seconds` past `now`.
pub fn submit_meme(
    platform: &mut PlatformConfig,
    creator: u64,
    name: &[u8],
    symbol: &[u8],
    uri: &[u8],
    description: &[u8],
    sol_goal: u64,
    min_backers: u32,
    duration_seconds: i64,
    now: i64,
    creator_sol: &mut u64,
    platform_authority_sol: &mut u64,
) -> (r: Result<Meme, ProofOfMemeError>)
    ensures
        r is Err <==> spec_submit_err(
            *old(platform),
            name@,
            symbol@,
            uri@,
            description@,
            sol_goal,
            min_backers,
            duration_seconds,
            now,
            *old(creator_sol),
            *old(platform_authority_sol),
        ) is Some,
        r is Err ==> r->Err_0 == spec_submit_err(
            *old(platform),
            name@,
            symbol@,
            uri@,
            description@,
            sol_goal,
            min_backers,
            duration_seconds,
            now,
            *old(creator_sol),
            *old(platform_authority_sol),
        )->Some_0,
        r is Err ==> *final(platform) == *old(platform) && *final(creator_sol) == *old(creator_sol)
            && *final(platform_authority_sol) == *old(platform_authority_sol),
        r is Ok ==> *final(creator_sol) == *old(creator_sol) - old(platform).submission_fee,
        r is Ok ==> *final(platform_authority_sol) == *old(platform_authority_sol) + old(
            platform,
        ).submission_fee,
        r is Ok ==> *final(platform) == (PlatformConfig {
            total_memes_submitted: (old(platform).total_memes_submitted + 1) as u64,
            ..*old(platform)
        }),
        r is Ok ==> r->Ok_0.creator == creator && r->Ok_0.mint == 0 && r->Ok_0.name@ == name@
            && r->Ok_0.symbol@ == symbol@ && r->Ok_0.uri@ == uri@ && r->Ok_0.description@
            == description@ && r->Ok_0.sol_goal == sol_goal && r->Ok_0.sol_backed == 0
            && r->Ok_0.min_backers == min_backers && r->Ok_0.backer_count == 0
            && r->Ok_0.proving_ends_at == now + duration_seconds && r->Ok_0.status
            == MemeStatus::Proving && r->Ok_0.created_at == now && r->Ok_0.launched_at == 0
            && r->Ok_0.creator_backing == 0 && r->Ok_0.index == old(
            platform,
        ).total_memes_submitted,
        r is Ok ==> r->Ok_0.wf(),
{
    if name.len() == 0 {
        return Err(ProofOfMemeError::EmptyName);
    }
    if name.len() > MAX_NAME_LENGTH {
        return Err(ProofOfMemeError::NameTooLong);
    }
    if symbol.len() == 0 {
        return Err(ProofOfMemeError::EmptySymbol);
    }
    if symbol.len() > MAX_SYMBOL_LENGTH {
        return Err(ProofOfMemeError::SymbolTooLong);
    }
    if uri.len() > MAX_URI_LENGTH {
        return Err(ProofOfMemeError::UriTooLong);
    }
    if description.len() > MAX_DESCRIPTION_LENGTH {
        return Err(ProofOfMemeError::DescriptionTooLong);
    }
    if sol_goal < MIN_SOL_GOAL {
        return Err(ProofOfMemeError::GoalTooLow);
    }
    if sol_goal > MAX_SOL_GOAL {
        return Err(ProofOfMemeError::GoalTooHigh);
    }
    if min_backers < MIN_BACKERS {
        return Err(ProofOfMemeError::MinBackersTooLow);
    }
    if duration_seconds < MIN_PROVING_DURATION {
        return Err(ProofOfMemeError::DurationTooShort);
    }
    if duration_seconds > MAX_PROVING_DURATION {
        return Err(ProofOfMemeError::DurationTooLong);
    }
    if platform.submission_fee > 0 {
        if *creator_sol < platform.submission_fee {
            return Err(ProofOfMemeError::InsufficientSol);
        }
        if platform_authority_sol.checked_add(platform.submission_fee).is_none() {
            return Err(ProofOfMemeError::MathOverflow);
        }
    }
    let proving_ends_at: i64 = match now.checked_add(duration_seconds) {
        Some(x) => x,
        None => {
            return Err(ProofOfMemeError::MathOverflow);
        },
    };
    let new_submitted: u64 = match platform.total_memes_submitted.checked_add(1) {
        Some(x) => x,
        None => {
            return Err(ProofOfMemeError::MathOverflow);
        },
    };

    *creator_sol = *creator_sol - platform.submission_fee;
    *platform_authority_sol = *platform_authority_sol + platform.submission_fee;

    let meme = Meme {
        creator,
        mint: 0,
        name: whole_copy(name),
        symbol: whole_copy(symbol),
        uri: whole_copy(uri),
        description: whole_copy(description),
        sol_goal,
        sol_backed: 0,
        min_backers,
        backer_count: 0,
        proving_ends_at,
        status: MemeStatus::Proving,
        created_at: now,
        launched_at: 0,
        creator_backing: 0,
        index: platform.total_memes_submitted,
    };
    platform.total_memes_submitted = new_submitted;
    Ok(meme)
}

/// Copy a whole byte slice into a fresh vector.
fn whole_copy(s: &[u8]) -> (r: Vec<u8>)
    ensures
        r@ == s@,
{
    let r = copy_prefix(s, s.len());
    proof {
        assert(s@.take(s@.len() as int) =~= s@);
    }
    r
}

} // verus!
