//! Refunds for failed campaigns. A refund pays back the full pledged
//! amount, marks the record withdrawn and zeroes its amount; the record
//! itself persists as an audit trail, and a second refund of the same
//! pledge fails rather than double-paying.

use vstd::prelude::*;
use crate::backing::Backing;
use crate::errors::ProofOfMemeError;
use crate::meme::{Meme, MemeStatus};

verus! {

/// The first reason a refund must be refused, if any.
pub open spec fn spec_withdraw_err(
    meme: Meme,
    backing: Backing,
    backer: u64,
    vault: u64,
    backer_sol: u64,
) -> Option<ProofOfMemeError> {
    if meme.status != MemeStatus::Failed {
        Some(ProofOfMemeError::ProvingStillActive)
    } else if backing.backer != backer {
        Some(ProofOfMemeError::NoBackingFound)
    } else if backing.meme != meme.index {
        Some(ProofOfMemeError::AccountMismatch)
    } else if backing.withdrawn {
        Some(ProofOfMemeError::BackingAlreadyWithdrawn)
    } else if backing.amount == 0 {
        Some(ProofOfMemeError::NoBackingFound)
    } else if vault < backing.amount {
        Some(ProofOfMemeError::InsufficientVaultBalance)
    } else if backer_sol + backing.amount > u64::MAX {
        Some(ProofOfMemeError::MathOverflow)
    } else {
        None
    }
}

/// The pledge record after a successful refund: amount zeroed and marked
/// withdrawn, everything else kept for the audit trail.
pub open spec fn spec_refunded(backing: Backing) -> Backing {
    Backing { amount: 0, withdrawn: true, ..backing }
}

/// Refund a pledge of a failed campaign: move the full pledged amount
/// from the campaign escrow back to the backer's wallet and mark the
/// record withdrawn. Returns the refunded amount.
pub fn withdraw_backing(
    meme: &Meme,
    backing: &mut Backing,
    backer: u64,
    vault: &mut u64,
    backer_sol: &mut u64,
) -> (r: Result<u64, ProofOfMemeError>)
    ensures
        r is Err <==> spec_withdraw_err(*meme, *old(backing), backer, *old(vault), *old(backer_sol))
            is Some,
        r is Err ==> r->Err_0 == spec_withdraw_err(
            *meme,
            *old(backing),
            backer,
            *old(vault),
            *old(backer_sol),
        )->Some_0,
        r is Err ==> *final(backing) == *old(backing) && *final(vault) == *old(vault)
            && *final(backer_sol) == *old(backer_sol),
        r is Ok ==> r->Ok_0 == old(backing).amount,
        r is Ok ==> *final(backing) == spec_refunded(*old(backing)),
        r is Ok ==> *final(vault) == *old(vault) - old(backing).amount,
        r is Ok ==> *final(backer_sol) == *old(backer_sol) + old(backing).amount,
{
    if !(meme.status == MemeStatus::Failed) {
        return Err(ProofOfMemeError::ProvingStillActive);
    }
    if backing.backer != backer {
        return Err(ProofOfMemeError::NoBackingFound);
    }
    if backing.meme != meme.index {
        return Err(ProofOfMemeError::AccountMismatch);
    }
    if backing.withdrawn {
        return Err(ProofOfMemeError::BackingAlreadyWithdrawn);
    }
    if backing.amount == 0 {
        return Err(ProofOfMemeError::NoBackingFound);
    }
    let amount = backing.amount;
    if *vault < amount {
        return Err(ProofOfMemeError::InsufficientVaultBalance);
    }
    let new_backer_sol: u64 = match backer_sol.checked_add(amount) {
        Some(x) => x,
        None => {
            return Err(ProofOfMemeError::MathOverflow);
        },
    };
    *vault = *vault - amount;
    *backer_sol = new_backer_sol;
    backing.withdrawn = true;
    backing.amount = 0;
    Ok(amount)
}

/// Refunds are idempotent in the failing direction: after a successful
/// refund, a second refund of the same pledge is refused as already
/// withdrawn, whatever the balances — it can never pay twice.
pub proof fn lemma_refund_idempotent(
    meme: Meme,
    backing: Backing,
    backer: u64,
    vault: u64,
    backer_sol: u64,
    vault_after: u64,
    backer_sol_after: u64,
)
    requires
        spec_withdraw_err(meme, backing, backer, vault, backer_sol) is None,
    ensures
        spec_withdraw_err(meme, spec_refunded(backing), backer, vault_after, backer_sol_after)
            == Some(ProofOfMemeError::BackingAlreadyWithdrawn),
{
}

} // verus!
