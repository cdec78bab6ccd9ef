//! Pledging to a campaign in the proving grounds. First-time pledges are
//! gated by the fee-eligibility minimum (top-ups are exempt by design, to
//! stop minimum-amount churn while still allowing small additions), and
//! every pledge — new or top-up — is capped so one wallet never holds
//! more than 10% of the goal.

use vstd::prelude::*;
use crate::backing::Backing;
use crate::constants::{BPS_DENOMINATOR, MAX_BACKING_PERCENTAGE_BPS, MIN_BACKING_AMOUNT};
use crate::errors::ProofOfMemeError;
use crate::meme::{Meme, MemeStatus};

verus! {

/// The largest cumulative backing one wallet may hold for a campaign:
/// 10% of the goal, rounded down.
pub open spec fn spec_max_backing(sol_goal: u64) -> int {
    sol_goal * MAX_BACKING_PERCENTAGE_BPS / BPS_DENOMINATOR as int
}

/// The first reason a pledge must be refused, if any.
pub open spec fn spec_back_err(
    meme: Meme,
    backing: Backing,
    backer: u64,
    amount: u64,
    now: i64,
    backer_sol: u64,
    vault: u64,
) -> Option<ProofOfMemeError> {
    if meme.status != MemeStatus::Proving {
        Some(ProofOfMemeError::AlreadyLaunched)
    } else if backing.amount > 0 && (backing.backer != backer || backing.meme != meme.index) {
        Some(ProofOfMemeError::AccountMismatch)
    } else if amount == 0 {
        Some(ProofOfMemeError::ZeroAmount)
    } else if now >= meme.proving_ends_at {
        Some(ProofOfMemeError::ProvingEnded)
    } else if backing.amount + amount > u64::MAX {
        Some(ProofOfMemeError::MathOverflow)
    } else if backing.amount == 0 && amount < MIN_BACKING_AMOUNT {
        Some(ProofOfMemeError::BackingTooLow)
    } else if meme.sol_goal * MAX_BACKING_PERCENTAGE_BPS > u64::MAX {
        Some(ProofOfMemeError::MathOverflow)
    } else if backing.amount + amount > spec_max_backing(meme.sol_goal) {
        Some(ProofOfMemeError::BackingExceedsMaximum)
    } else if backer_sol < amount {
        Some(ProofOfMemeError::InsufficientSol)
    } else if vault + amount > u64::MAX {
        Some(ProofOfMemeError::MathOverflow)
    } else if backing.amount == 0 && meme.backer_count + 1 > u32::MAX {
        Some(ProofOfMemeError::MathOverflow)
    } else if meme.sol_backed + amount > u64::MAX {
        Some(ProofOfMemeError::MathOverflow)
    } else {
        None
    }
}

/// Pledge `amount` to a proving campaign, moving it from the backer's
/// wallet into the campaign escrow. A first-time pledge initializes the
/// record and counts a new unique backer; a top-up only grows it. The
/// eligibility flag is recomputed from the cumulative total, and the
/// cumulative total can never exceed 10% of the goal — the cap holds
/// after any number of top-ups because it is re-checked on each.
pub fn back_meme(
    meme: &mut Meme,
    backing: &mut Backing,
    backer: u64,
    amount: u64,
    now: i64,
    backer_sol: &mut u64,
    vault: &mut u64,
) -> (r: Result<(), ProofOfMemeError>)
    ensures
        r is Err <==> spec_back_err(
            *old(meme),
            *old(backing),
            backer,
            amount,
            now,
            *old(backer_sol),
            *old(vault),
        ) is Some,
        r is Err ==> r->Err_0 == spec_back_err(
            *old(meme),
            *old(backing),
            backer,
            amount,
            now,
            *old(backer_sol),
            *old(vault),
        )->Some_0,
        r is Err ==> *final(meme) == *old(meme) && *final(backing) == *old(backing)
            && *final(backer_sol) == *old(backer_sol) && *final(vault) == *old(vault),
        r is Ok ==> *final(backing) == (if old(backing).amount == 0 {
            Backing {
                backer,
                meme: old(meme).index,
                amount: (old(backing).amount + amount) as u64,
                qualifies_for_fees: old(backing).amount + amount >= MIN_BACKING_AMOUNT,
                backed_at: now,
                withdrawn: false,
                tokens_received: 0,
                fees_claimed: 0,
                genesis_share_bps: 0,
            }
        } else {
            Backing {
                amount: (old(backing).amount + amount) as u64,
                qualifies_for_fees: old(backing).amount + amount >= MIN_BACKING_AMOUNT,
                ..*old(backing)
            }
        }),
        r is Ok ==> *final(meme) == (Meme {
            sol_backed: (old(meme).sol_backed + amount) as u64,
            backer_count: if old(backing).amount == 0 {
                (old(meme).backer_count + 1) as u32
            } else {
                old(meme).backer_count
            },
            creator_backing: if backer == old(meme).creator {
                (old(backing).amount + amount) as u64
            } else {
                old(meme).creator_backing
            },
            ..*old(meme)
        }),
        r is Ok ==> *final(backer_sol) == *old(backer_sol) - amount,
        r is Ok ==> *final(vault) == *old(vault) + amount,
        r is Ok ==> final(backing).amount <= spec_max_backing(old(meme).sol_goal),
{
    if !(meme.status == MemeStatus::Proving) {
        return Err(ProofOfMemeError::AlreadyLaunched);
    }
    let is_new_backer = backing.amount == 0;
    if !is_new_backer && (backing.backer != backer || backing.meme != meme.index) {
        return Err(ProofOfMemeError::AccountMismatch);
    }
    if amount == 0 {
        return Err(ProofOfMemeError::ZeroAmount);
    }
    if now >= meme.proving_ends_at {
        return Err(ProofOfMemeError::ProvingEnded);
    }
    let new_total: u64 = match backing.amount.checked_add(amount) {
        Some(x) => x,
        None => {
            return Err(ProofOfMemeError::MathOverflow);
        },
    };
    if is_new_backer && amount < MIN_BACKING_AMOUNT {
        return Err(ProofOfMemeError::BackingTooLow);
    }
    let max_backing: u64 = match meme.sol_goal.checked_mul(MAX_BACKING_PERCENTAGE_BPS) {
        Some(x) => x / BPS_DENOMINATOR,
        None => {
            return Err(ProofOfMemeError::MathOverflow);
        },
    };
    if new_total > max_backing {
        return Err(ProofOfMemeError::BackingExceedsMaximum);
    }
    if *backer_sol < amount {
        return Err(ProofOfMemeError::InsufficientSol);
    }
    let new_vault: u64 = match vault.checked_add(amount) {
        Some(x) => x,
        None => {
            return Err(ProofOfMemeError::MathOverflow);
        },
    };
    let new_backer_count: u32 = if is_new_backer {
        match meme.backer_count.checked_add(1) {
            Some(x) => x,
            None => {
                return Err(ProofOfMemeError::MathOverflow);
            },
        }
    } else {
        meme.backer_count
    };
    let new_sol_backed: u64 = match meme.sol_backed.checked_add(amount) {
        Some(x) => x,
        None => {
            return Err(ProofOfMemeError::MathOverflow);
        },
    };

    *backer_sol = *backer_sol - amount;
    *vault = new_vault;

    if is_new_backer {
        backing.backer = backer;
        backing.meme = meme.index;
        backing.backed_at = now;
        backing.withdrawn = false;
        backing.tokens_received = 0;
        backing.fees_claimed = 0;
        backing.genesis_share_bps = 0;
    }
    backing.amount = new_total;
    backing.qualifies_for_fees = new_total >= MIN_BACKING_AMOUNT;

    meme.backer_count = new_backer_count;
    meme.sol_backed = new_sol_backed;
    if backer == meme.creator {
        meme.creator_backing = new_total;
    }
    Ok(())
}

} // verus!
