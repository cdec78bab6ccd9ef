//! The constant-product exchange curve and the genesis fee pool.
//!
//! Pricing runs over *virtual* reserves seeded above the real balances, so
//! the curve has a smooth starting price before any real capital exists.
//! Reserve updates are saturating by design: rounding drift can never
//! panic, and rounding always favors the pool (floor division), so the
//! pool is never left insolvent.

use vstd::prelude::*;
use vstd::arithmetic::div_mod::{lemma_div_is_ordered, lemma_div_multiples_vanish};
use vstd::arithmetic::mul::lemma_mul_inequality;
use crate::constants::VIRTUAL_SOL_RESERVES;

verus! {

/// Trading status of a curve. Transitions only forward:
/// Active -> Complete -> Migrated.
#[derive(Clone, Copy, Debug, PartialEq, Eq, Structural)]
pub enum CurveStatus {
    /// Open for buys and sells.
    Active,
    /// Real reserves reached the completion threshold; trading is closed.
    Complete,
    /// Handed off to the external liquidity venue.
    Migrated,
}

impl Default for CurveStatus {
    fn default() -> (r: CurveStatus)
        ensures
            r == CurveStatus::Active,
    {
        CurveStatus::Active
    }
}

/// A launched campaign's bonding curve: virtual and real reserve pairs,
/// cumulative totals and the three trading-fee accumulators.
#[derive(Clone, Copy, Debug, PartialEq, Eq, Structural)]
pub struct BondingCurve {
    /// Index of the campaign this curve belongs to.
    pub meme: u64,
    /// Token mint identity.
    pub mint: u64,
    /// Virtual reserve-currency reserves, for pricing.
    pub virtual_sol_reserves: u64,
    /// Virtual token reserves, for pricing.
    pub virtual_token_reserves: u64,
    /// Real reserve currency held by the curve.
    pub real_sol_reserves: u64,
    /// Real tokens still available for sale.
    pub real_token_reserves: u64,
    /// Tokens sold so far.
    pub tokens_sold: u64,
    /// Total trading volume, in reserve currency.
    pub total_volume: u64,
    /// Accumulated fees owed to genesis backers.
    pub genesis_fees_accumulated: u64,
    /// Fees already distributed to genesis backers.
    pub genesis_fees_distributed: u64,
    /// Accumulated fees owed to the platform.
    pub platform_fees_accumulated: u64,
    /// Accumulated fees earmarked for burning (a bookkeeping bucket only;
    /// nothing is removed from circulation here).
    pub burn_fees_accumulated: u64,
    /// Trading status.
    pub status: CurveStatus,
    /// Real reserve level at which the curve completes.
    pub completion_threshold: u64,
}

/// Addition on u64 that clamps at the maximum instead of wrapping.
pub open spec fn sat_add_u64(a: u64, b: u64) -> u64 {
    if a + b > u64::MAX {
        u64::MAX
    } else {
        (a + b) as u64
    }
}

/// Subtraction on u64 that clamps at zero instead of wrapping.
pub open spec fn sat_sub_u64(a: u64, b: u64) -> u64 {
    if a < b {
        0
    } else {
        (a - b) as u64
    }
}

/// Tokens bought for `sol_in`: floor(sol_in * vt / (vs + sol_in)),
/// capped at the real token reserves.
pub open spec fn spec_buy_quote(c: BondingCurve, sol_in: u64) -> int {
    let q = (sol_in * c.virtual_token_reserves) / (c.virtual_sol_reserves + sol_in);
    if q < c.real_token_reserves {
        q
    } else {
        c.real_token_reserves as int
    }
}

/// Reserve currency paid out for `tokens_in`: floor(tokens_in * vs /
/// (vt + tokens_in)), capped at the real reserve-currency reserves.
pub open spec fn spec_sell_quote(c: BondingCurve, tokens_in: u64) -> int {
    let q = (tokens_in * c.virtual_sol_reserves) / (c.virtual_token_reserves + tokens_in);
    if q < c.real_sol_reserves {
        q
    } else {
        c.real_sol_reserves as int
    }
}

/// The reserve state after a buy: virtual and real move together by the
/// same deltas, with saturating arithmetic.
pub open spec fn spec_apply_buy(c: BondingCurve, sol_in: u64, tokens_out: u64) -> BondingCurve {
    BondingCurve {
        virtual_sol_reserves: sat_add_u64(c.virtual_sol_reserves, sol_in),
        virtual_token_reserves: sat_sub_u64(c.virtual_token_reserves, tokens_out),
        real_sol_reserves: sat_add_u64(c.real_sol_reserves, sol_in),
        real_token_reserves: sat_sub_u64(c.real_token_reserves, tokens_out),
        tokens_sold: sat_add_u64(c.tokens_sold, tokens_out),
        total_volume: sat_add_u64(c.total_volume, sol_in),
        ..c
    }
}

/// The reserve state after a sell, mirror image of a buy.
pub open spec fn spec_apply_sell(c: BondingCurve, tokens_in: u64, sol_out: u64) -> BondingCurve {
    BondingCurve {
        virtual_sol_reserves: sat_sub_u64(c.virtual_sol_reserves, sol_out),
        virtual_token_reserves: sat_add_u64(c.virtual_token_reserves, tokens_in),
        real_sol_reserves: sat_sub_u64(c.real_sol_reserves, sol_out),
        real_token_reserves: sat_add_u64(c.real_token_reserves, tokens_in),
        tokens_sold: sat_sub_u64(c.tokens_sold, tokens_in),
        total_volume: sat_add_u64(c.total_volume, sol_out),
        ..c
    }
}

impl BondingCurve {
    /// The virtual reserves sit exactly one seed above the real reserves
    /// on the currency side and level with them on the token side, so a
    /// trade moves both in lock-step.
    pub open spec fn reserves_in_lockstep(self) -> bool {
        &&& self.virtual_token_reserves == self.real_token_reserves
        &&& self.virtual_sol_reserves == self.real_sol_reserves + VIRTUAL_SOL_RESERVES
    }

    /// Token conservation: unsold tokens plus sold tokens always equal the
    /// allocation minted to the curve at launch.
    pub open spec fn conserves_tokens(self, allocation: u64) -> bool {
        self.real_token_reserves + self.tokens_sold == allocation
    }

    /// Tokens out for a given reserve-currency input, by the constant
    /// product formula over virtual reserves, capped at what is left.
    /// `None` exactly when the pricing denominator would be zero.
    pub fn calculate_buy_tokens(&self, sol_in: u64) -> (r: Option<u64>)
        ensures
            r is Some <==> self.virtual_sol_reserves + sol_in > 0,
            r is Some ==> r->Some_0 == spec_buy_quote(*self, sol_in),
            r is Some ==> r->Some_0 <= self.real_token_reserves,
    {
        proof {
            lemma_mul_inequality(
                sol_in as int,
                u64::MAX as int,
                self.virtual_token_reserves as int,
            );
            lemma_mul_inequality(self.virtual_token_reserves as int, u64::MAX as int, u64::MAX as int);
        }
        let numerator: u128 = (sol_in as u128) * (self.virtual_token_reserves as u128);
        let denominator: u128 = (self.virtual_sol_reserves as u128) + (sol_in as u128);
        if denominator == 0 {
            return None;
        }
        let tokens_out: u128 = numerator / denominator;
        let capped: u64 = if tokens_out < self.real_token_reserves as u128 {
            tokens_out as u64
        } else {
            self.real_token_reserves
        };
        Some(capped)
    }

    /// Reserve currency out for a given token input, capped at the real
    /// reserves. `None` exactly when the pricing denominator would be zero.
    pub fn calculate_sell_sol(&self, tokens_in: u64) -> (r: Option<u64>)
        ensures
            r is Some <==> self.virtual_token_reserves + tokens_in > 0,
            r is Some ==> r->Some_0 == spec_sell_quote(*self, tokens_in),
            r is Some ==> r->Some_0 <= self.real_sol_reserves,
    {
        proof {
            lemma_mul_inequality(
                tokens_in as int,
                u64::MAX as int,
                self.virtual_sol_reserves as int,
            );
            lemma_mul_inequality(self.virtual_sol_reserves as int, u64::MAX as int, u64::MAX as int);
        }
        let numerator: u128 = (tokens_in as u128) * (self.virtual_sol_reserves as u128);
        let denominator: u128 = (self.virtual_token_reserves as u128) + (tokens_in as u128);
        if denominator == 0 {
            return None;
        }
        let sol_out: u128 = numerator / denominator;
        let capped: u64 = if sol_out < self.real_sol_reserves as u128 {
            sol_out as u64
        } else {
            self.real_sol_reserves
        };
        Some(capped)
    }

    /// The current price in lamports per whole token (6-decimal precision),
    /// truncated to 64 bits. `None` exactly when there are no virtual
    /// token reserves to price against.
    pub fn get_current_price(&self) -> (r: Option<u64>)
        ensures
            r is Some <==> self.virtual_token_reserves != 0,
            r is Some ==> r->Some_0 == (self.virtual_sol_reserves * 1_000_000
                / self.virtual_token_reserves as int) % 0x1_0000_0000_0000_0000,
    {
        proof {
            lemma_mul_inequality(
                self.virtual_sol_reserves as int,
                u64::MAX as int,
                1_000_000int,
            );
        }
        if self.virtual_token_reserves == 0 {
            return None;
        }
        let price: u128 = (self.virtual_sol_reserves as u128) * 1_000_000
            / (self.virtual_token_reserves as u128);
        Some((price % 0x1_0000_0000_0000_0000u128) as u64)
    }

    /// Apply a buy: virtual and real reserves move by the same amounts in
    /// the same direction, sold and volume counters grow.
    pub fn apply_buy(&mut self, sol_in: u64, tokens_out: u64)
        ensures
            *final(self) == spec_apply_buy(*old(self), sol_in, tokens_out),
    {
        self.virtual_sol_reserves = self.virtual_sol_reserves.saturating_add(sol_in);
        self.virtual_token_reserves = self.virtual_token_reserves.saturating_sub(tokens_out);
        self.real_sol_reserves = self.real_sol_reserves.saturating_add(sol_in);
        self.real_token_reserves = self.real_token_reserves.saturating_sub(tokens_out);
        self.tokens_sold = self.tokens_sold.saturating_add(tokens_out);
        self.total_volume = self.total_volume.saturating_add(sol_in);
    }

    /// Apply a sell: the mirror image of a buy.
    pub fn apply_sell(&mut self, tokens_in: u64, sol_out: u64)
        ensures
            *final(self) == spec_apply_sell(*old(self), tokens_in, sol_out),
    {
        self.virtual_sol_reserves = self.virtual_sol_reserves.saturating_sub(sol_out);
        self.virtual_token_reserves = self.virtual_token_reserves.saturating_add(tokens_in);
        self.real_sol_reserves = self.real_sol_reserves.saturating_sub(sol_out);
        self.real_token_reserves = self.real_token_reserves.saturating_add(tokens_in);
        self.tokens_sold = self.tokens_sold.saturating_sub(tokens_in);
        self.total_volume = self.total_volume.saturating_add(sol_out);
    }

    /// Whether the real reserves have reached the completion threshold.
    pub fn is_complete(&self) -> (r: bool)
        ensures
            r == (self.real_sol_reserves >= self.completion_threshold),
    {
        self.real_sol_reserves >= self.completion_threshold
    }
}

/// Conservation through a buy: if unsold plus sold tokens equal the launch
/// allocation and the trade hands out no more than is left, they still
/// equal it afterwards.
pub proof fn lemma_buy_conserves_tokens(c: BondingCurve, sol_in: u64, tokens_out: u64, allocation: u64)
    requires
        c.conserves_tokens(allocation),
        tokens_out <= c.real_token_reserves,
    ensures
        spec_apply_buy(c, sol_in, tokens_out).conserves_tokens(allocation),
{
}

/// Conservation through a sell: if the trade returns no more tokens than
/// were ever sold, unsold plus sold still equal the launch allocation.
pub proof fn lemma_sell_conserves_tokens(c: BondingCurve, tokens_in: u64, sol_out: u64, allocation: u64)
    requires
        c.conserves_tokens(allocation),
        tokens_in <= c.tokens_sold,
    ensures
        spec_apply_sell(c, tokens_in, sol_out).conserves_tokens(allocation),
{
}

/// Virtual and real reserves move in lock-step through a buy: both
/// currency reserves grow by exactly the input, both token reserves
/// shrink by exactly the output, whenever no clamp is hit.
pub proof fn lemma_buy_moves_reserves_in_lockstep(c: BondingCurve, sol_in: u64, tokens_out: u64)
    requires
        tokens_out <= c.real_token_reserves,
        c.virtual_token_reserves >= c.real_token_reserves,
        c.virtual_sol_reserves >= c.real_sol_reserves,
        c.virtual_sol_reserves + sol_in <= u64::MAX,
    ensures
        spec_apply_buy(c, sol_in, tokens_out).virtual_sol_reserves - c.virtual_sol_reserves
            == sol_in,
        spec_apply_buy(c, sol_in, tokens_out).real_sol_reserves - c.real_sol_reserves == sol_in,
        c.virtual_token_reserves - spec_apply_buy(c, sol_in, tokens_out).virtual_token_reserves
            == tokens_out,
        c.real_token_reserves - spec_apply_buy(c, sol_in, tokens_out).real_token_reserves
            == tokens_out,
{
}

/// Virtual and real reserves move in lock-step through a sell: both
/// currency reserves shrink by exactly the output, both token reserves
/// grow by exactly the input, whenever no clamp is hit.
pub proof fn lemma_sell_moves_reserves_in_lockstep(c: BondingCurve, tokens_in: u64, sol_out: u64)
    requires
        sol_out <= c.real_sol_reserves,
        c.virtual_sol_reserves >= c.real_sol_reserves,
        c.virtual_token_reserves >= c.real_token_reserves,
        c.virtual_token_reserves + tokens_in <= u64::MAX,
    ensures
        c.virtual_sol_reserves - spec_apply_sell(c, tokens_in, sol_out).virtual_sol_reserves
            == sol_out,
        c.real_sol_reserves - spec_apply_sell(c, tokens_in, sol_out).real_sol_reserves == sol_out,
        spec_apply_sell(c, tokens_in, sol_out).virtual_token_reserves - c.virtual_token_reserves
            == tokens_in,
        spec_apply_sell(c, tokens_in, sol_out).real_token_reserves - c.real_token_reserves
            == tokens_in,
{
}

/// Pro-rata fee-claim accounting over a launched campaign's original
/// qualified backers. Entitlements are computed on demand from two running
/// totals; no per-backer allocation ever happens.
#[derive(Clone, Copy, Debug, PartialEq, Eq, Structural)]
pub struct GenesisPool {
    /// Index of the campaign this pool belongs to.
    pub meme: u64,
    /// Total qualified backing, frozen at launch; the claim base.
    pub total_qualified_backing: u64,
    /// Total fees accumulated for distribution. Only ever grows.
    pub total_fees: u64,
    /// Total fees claimed so far. Never exceeds `total_fees`.
    pub total_claimed: u64,
    /// Number of qualified backers, frozen at launch.
    pub qualified_backer_count: u32,
}

/// A backer's total entitlement: floor(amount * total_fees / base), or
/// zero when the claim base is empty.
pub open spec fn spec_entitlement(amount: u64, total_fees: u64, base: u64) -> int {
    if base == 0 {
        0
    } else {
        amount * total_fees / base as int
    }
}

/// What a backer can still claim: the 64-bit-truncated entitlement minus
/// what was already claimed, saturating at zero.
pub open spec fn spec_claimable(amount: u64, total_fees: u64, base: u64, already_claimed: u64) -> int {
    if base == 0 {
        0
    } else {
        let entitled = spec_entitlement(amount, total_fees, base) % 0x1_0000_0000_0000_0000;
        if entitled < already_claimed {
            0
        } else {
            entitled - already_claimed
        }
    }
}

impl GenesisPool {
    /// A backer's claimable fees given their locked-in backing and what
    /// they already claimed. Total: the arithmetic cannot fail.
    pub fn calculate_claimable(&self, backer_amount: u64, already_claimed: u64) -> (r: Option<
        u64,
    >)
        ensures
            r is Some,
            r->Some_0 == spec_claimable(
                backer_amount,
                self.total_fees,
                self.total_qualified_backing,
                already_claimed,
            ),
    {
        if self.total_qualified_backing == 0 {
            return Some(0);
        }
        proof {
            lemma_mul_inequality(backer_amount as int, u64::MAX as int, self.total_fees as int);
            lemma_mul_inequality(self.total_fees as int, u64::MAX as int, u64::MAX as int);
        }
        let total_entitled: u128 = (backer_amount as u128) * (self.total_fees as u128)
            / (self.total_qualified_backing as u128);
        let entitled: u64 = (total_entitled % 0x1_0000_0000_0000_0000u128) as u64;
        Some(entitled.saturating_sub(already_claimed))
    }
}

/// Entitlements only grow as fees accumulate: with the claim base frozen,
/// a larger fee total never shrinks anyone's entitlement.
pub proof fn lemma_entitlement_monotone(amount: u64, fees_before: u64, fees_after: u64, base: u64)
    requires
        fees_before <= fees_after,
    ensures
        spec_entitlement(amount, fees_before, base) <= spec_entitlement(amount, fees_after, base),
{
    if base != 0 {
        lemma_mul_inequality(fees_before as int, fees_after as int, amount as int);
        lemma_div_is_ordered(
            amount as int * fees_before as int,
            amount as int * fees_after as int,
            base as int,
        );
    }
}

/// A backer entitled to a pro-rata share of the fee pool can never be
/// entitled to more than the whole pool: with a backing within the claim
/// base, the entitlement is at most the accumulated fees.
pub proof fn lemma_entitlement_within_fees(amount: u64, total_fees: u64, base: u64)
    requires
        amount <= base,
    ensures
        spec_entitlement(amount, total_fees, base) <= total_fees,
{
    if base != 0 {
        lemma_mul_inequality(amount as int, base as int, total_fees as int);
        lemma_div_is_ordered(
            amount as int * total_fees as int,
            base as int * total_fees as int,
            base as int,
        );
        lemma_div_multiples_vanish(total_fees as int, base as int);
    }
}

/// A backer's lifetime claims never exceed their entitlement: claiming
/// the full claimable amount lands exactly on the entitlement, never past
/// it.
pub proof fn lemma_claims_stay_within_entitlement(
    amount: u64,
    total_fees: u64,
    base: u64,
    already_claimed: u64,
)
    requires
        amount <= base,
        already_claimed <= spec_entitlement(amount, total_fees, base),
    ensures
        already_claimed + spec_claimable(amount, total_fees, base, already_claimed)
            <= spec_entitlement(amount, total_fees, base),
{
    lemma_entitlement_within_fees(amount, total_fees, base);
}

} // verus!
