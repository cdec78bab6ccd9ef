//! One backer's cumulative pledge to one campaign. Created lazily on the
//! first pledge, topped up while the campaign is proving, zeroed (but kept
//! as an audit record) on refund.

use vstd::prelude::*;

verus! {

/// A (campaign, backer) pledge record.
#[derive(Clone, Copy, Debug, PartialEq, Eq, Structural)]
pub struct Backing {
    /// The backer's wallet identity.
    pub backer: u64,
    /// Index of the campaign being backed.
    pub meme: u64,
    /// Cumulative amount of reserve currency backed, in lamports.
    pub amount: u64,
    /// Whether this backing qualifies for the genesis fee share
    /// (cumulative amount at or above the eligibility threshold).
    pub qualifies_for_fees: bool,
    /// Timestamp of the first backing.
    pub backed_at: i64,
    /// Whether the backing has been withdrawn (refunded).
    pub withdrawn: bool,
    /// Tokens received on launch (informational).
    pub tokens_received: u64,
    /// Total fees claimed from the genesis pool so far.
    pub fees_claimed: u64,
    /// Share of the genesis pool in basis points (reserved; unused).
    pub genesis_share_bps: u64,
}

impl Default for Backing {
    /// A fresh, empty record, as the storage substrate hands it out
    /// before the first pledge is applied.
    fn default() -> (r: Backing)
        ensures
            r == (Backing {
                backer: 0,
                meme: 0,
                amount: 0,
                qualifies_for_fees: false,
                backed_at: 0,
                withdrawn: false,
                tokens_received: 0,
                fees_claimed: 0,
                genesis_share_bps: 0,
            }),
    {
        Backing {
            backer: 0,
            meme: 0,
            amount: 0,
            qualifies_for_fees: false,
            backed_at: 0,
            withdrawn: false,
            tokens_received: 0,
            fees_claimed: 0,
            genesis_share_bps: 0,
        }
    }
}

} // verus!
