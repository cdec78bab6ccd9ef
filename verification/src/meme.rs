//! One campaign's record and lifecycle state: metadata, funding goal,
//! running totals and the status machine (Proving to either Launched or
//! Failed, and Launched to Migrated).

use vstd::prelude::*;
use crate::constants::{
    MAX_NAME_LENGTH, MAX_SYMBOL_LENGTH, MAX_URI_LENGTH, MAX_DESCRIPTION_LENGTH, MIN_SOL_GOAL,
    MAX_SOL_GOAL, MIN_BACKERS,
};

verus! {

/// Lifecycle status of a campaign. No transition is reversible.
#[derive(Clone, Copy, Debug, PartialEq, Eq, Structural)]
pub enum MemeStatus {
    /// In the proving grounds, accepting backers.
    Proving,
    /// Goal met, token launched.
    Launched,
    /// Goal not met, refunds available.
    Failed,
    /// Handed off to the external liquidity venue.
    Migrated,
}

impl Default for MemeStatus {
    fn default() -> (r: MemeStatus)
        ensures
            r == MemeStatus::Proving,
    {
        MemeStatus::Proving
    }
}

/// A campaign record. The metadata strings are stored as bounded byte
/// buffers; the setters truncate to the bound, so the stored lengths can
/// be trusted when decoding.
#[derive(Debug)]
pub struct Meme {
    /// Creator of this campaign.
    pub creator: u64,
    /// Token mint identity (zero until launch).
    pub mint: u64,
    /// Campaign name, at most `MAX_NAME_LENGTH` bytes.
    pub name: Vec<u8>,
    /// Token symbol, at most `MAX_SYMBOL_LENGTH` bytes.
    pub symbol: Vec<u8>,
    /// Metadata URI, at most `MAX_URI_LENGTH` bytes.
    pub uri: Vec<u8>,
    /// Description, at most `MAX_DESCRIPTION_LENGTH` bytes.
    pub description: Vec<u8>,
    /// Reserve-currency goal to launch, in lamports.
    pub sol_goal: u64,
    /// Reserve currency backed so far, in lamports.
    pub sol_backed: u64,
    /// Minimum unique backers required.
    pub min_backers: u32,
    /// Current unique backer count.
    pub backer_count: u32,
    /// Timestamp at which proving ends.
    pub proving_ends_at: i64,
    /// Current lifecycle status.
    pub status: MemeStatus,
    /// Timestamp of creation.
    pub created_at: i64,
    /// Timestamp of launch (zero if not launched).
    pub launched_at: i64,
    /// The creator's own backing amount, for transparency.
    pub creator_backing: u64,
    /// Monotonically assigned campaign index, also its stable address.
    pub index: u64,
}

/// Copy the first `n` bytes of `s` into a fresh vector.
pub fn copy_prefix(s: &[u8], n: usize) -> (r: Vec<u8>)
    requires
        n <= s@.len(),
    ensures
        r@ == s@.take(n as int),
{
    let mut r: Vec<u8> = Vec::new();
    let mut i: usize = 0;
    while i < n
        invariant
            i <= n,
            n <= s@.len(),
            r@ == s@.take(i as int),
        decreases n - i,
    {
        r.push(s[i]);
        proof {
            assert(s@.take(i as int).push(s@[i as int]) =~= s@.take(i + 1 as int));
        }
        i = i + 1;
    }
    r
}

impl Meme {
    /// Structural well-formedness: every stored buffer is within its bound
    /// and the submission-time limits on goal and quorum hold.
    pub open spec fn wf(self) -> bool {
        &&& self.name@.len() <= MAX_NAME_LENGTH
        &&& self.symbol@.len() <= MAX_SYMBOL_LENGTH
        &&& self.uri@.len() <= MAX_URI_LENGTH
        &&& self.description@.len() <= MAX_DESCRIPTION_LENGTH
        &&& MIN_SOL_GOAL <= self.sol_goal <= MAX_SOL_GOAL
        &&& self.min_backers >= MIN_BACKERS
    }

    /// The campaign name as stored.
    pub fn get_name(&self) -> (r: Vec<u8>)
        ensures
            r@ == self.name@,
    {
        copy_all(&self.name)
    }

    /// The token symbol as stored.
    pub fn get_symbol(&self) -> (r: Vec<u8>)
        ensures
            r@ == self.symbol@,
    {
        copy_all(&self.symbol)
    }

    /// The metadata URI as stored.
    pub fn get_uri(&self) -> (r: Vec<u8>)
        ensures
            r@ == self.uri@,
    {
        copy_all(&self.uri)
    }

    /// Store a name, truncated to its bound.
    pub fn set_name(&mut self, name: &[u8])
        ensures
            final(self).name@ == name@.take(min_len(name@.len() as int, MAX_NAME_LENGTH as int)),
            *final(self) == (Meme { name: final(self).name, ..*old(self) }),
    {
        let n: usize = if name.len() < MAX_NAME_LENGTH { name.len() } else { MAX_NAME_LENGTH };
        self.name = copy_prefix(name, n);
    }

    /// Store a symbol, truncated to its bound.
    pub fn set_symbol(&mut self, symbol: &[u8])
        ensures
            final(self).symbol@ == symbol@.take(min_len(symbol@.len() as int, MAX_SYMBOL_LENGTH as int)),
            *final(self) == (Meme { symbol: final(self).symbol, ..*old(self) }),
    {
        let n: usize = if symbol.len() < MAX_SYMBOL_LENGTH { symbol.len() } else { MAX_SYMBOL_LENGTH };
        self.symbol = copy_prefix(symbol, n);
    }

    /// Store a URI, truncated to its bound.
    pub fn set_uri(&mut self, uri: &[u8])
        ensures
            final(self).uri@ == uri@.take(min_len(uri@.len() as int, MAX_URI_LENGTH as int)),
            *final(self) == (Meme { uri: final(self).uri, ..*old(self) }),
    {
        let n: usize = if uri.len() < MAX_URI_LENGTH { uri.len() } else { MAX_URI_LENGTH };
        self.uri = copy_prefix(uri, n);
    }

    /// Store a description, truncated to its bound.
    pub fn set_description(&mut self, description: &[u8])
        ensures
            final(self).description@ == description@.take(
                min_len(description@.len() as int, MAX_DESCRIPTION_LENGTH as int),
            ),
            *final(self) == (Meme { description: final(self).description, ..*old(self) }),
    {
        let n: usize = if description.len() < MAX_DESCRIPTION_LENGTH {
            description.len()
        } else {
            MAX_DESCRIPTION_LENGTH
        };
        self.description = copy_prefix(description, n);
    }

    /// Whether the campaign is still in the proving grounds.
    pub fn is_proving(&self) -> (r: bool)
        ensures
            r == (self.status == MemeStatus::Proving),
    {
        self.status == MemeStatus::Proving
    }

    /// Whether the campaign has launched.
    pub fn is_launched(&self) -> (r: bool)
        ensures
            r == (self.status == MemeStatus::Launched),
    {
        self.status == MemeStatus::Launched
    }

    /// The launch condition: goal and quorum both met.
    pub open spec fn spec_goal_reached(self) -> bool {
        self.sol_backed >= self.sol_goal && self.backer_count >= self.min_backers
    }

    /// Whether the goal and the backer quorum are both reached.
    pub fn goal_reached(&self) -> (r: bool)
        ensures
            r == self.spec_goal_reached(),
    {
        self.sol_backed >= self.sol_goal && self.backer_count >= self.min_backers
    }
}

/// The smaller of two lengths.
pub open spec fn min_len(a: int, b: int) -> int {
    if a < b {
        a
    } else {
        b
    }
}

/// Copy a whole vector.
pub fn copy_all(s: &Vec<u8>) -> (r: Vec<u8>)
    ensures
        r@ == s@,
{
    let r = copy_prefix(s.as_slice(), s.len());
    proof {
        assert(s@.take(s@.len() as int) =~= s@);
    }
    r
}

} // verus!
