//! Fee ceilings: the base fee projected over the blocks ahead.
//!
//! From one block to the next the base fee grows by at most an eighth. The
//! ceiling for a transaction that may wait some blocks is the current base fee
//! grown that many times, each time multiplied and then divided in whole
//! numbers, so that the rounding of every step is kept.

use crate::constants::{BLOCKS_AHEAD, FEE_GROWTH_DENOMINATOR, FEE_GROWTH_NUMERATOR};
use crate::uint::{pow2_256, U256};
use vstd::arithmetic::power::pow;
use vstd::prelude::*;

verus! {

/// The largest base fee of the block after one with base fee `fee`.
pub open spec fn fee_step(fee: nat) -> nat {
    fee * (FEE_GROWTH_NUMERATOR as nat) / (FEE_GROWTH_DENOMINATOR as nat)
}

/// The largest base fee `blocks` blocks after one with base fee `fee`: the
/// step applied `blocks` times.
pub open spec fn projected_fee(fee: nat, blocks: nat) -> nat
    decreases blocks,
{
    if blocks == 0 {
        fee
    } else {
        fee_step(projected_fee(fee, (blocks - 1) as nat))
    }
}

/// A step never lowers the fee.
pub proof fn lemma_fee_step_grows(fee: nat)
    ensures
        fee <= fee_step(fee),
{
}

/// The projection never falls from one block to the next.
pub proof fn lemma_projected_fee_grows(fee: nat, m: nat, n: nat)
    requires
        m <= n,
    ensures
        projected_fee(fee, m) <= projected_fee(fee, n),
    decreases n,
{
    if m < n {
        lemma_projected_fee_grows(fee, m, (n - 1) as nat);
        lemma_fee_step_grows(projected_fee(fee, (n - 1) as nat));
    }
}

/// The projection keeps the rounding of every step, so it never exceeds the
/// fee grown in one go: `projected_fee(fee, n) * 1000^n <= fee * 1125^n`.
pub proof fn lemma_projection_at_most_closed_form(fee: nat, blocks: nat)
    ensures
        projected_fee(fee, blocks) * pow(FEE_GROWTH_DENOMINATOR as int, blocks) <= fee * pow(
            FEE_GROWTH_NUMERATOR as int,
            blocks,
        ),
    decreases blocks,
{
    reveal(pow);
    if blocks > 0 {
        let before = projected_fee(fee, (blocks - 1) as nat);
        let after = projected_fee(fee, blocks);
        let d = pow(1000, (blocks - 1) as nat);
        let n = pow(1125, (blocks - 1) as nat);
        lemma_projection_at_most_closed_form(fee, (blocks - 1) as nat);
        vstd::arithmetic::power::lemma_pow_positive(1000, (blocks - 1) as nat);
        assert(after * (1000 * d) <= fee * (1125 * n)) by (nonlinear_arith)
            requires
                after * 1000 <= before * 1125,
                before * d <= fee * n,
                d > 0,
                after >= 0,
                before >= 0,
        ;
    }
}

/// Whether the projection of `fee` over `blocks` blocks can be computed in
/// 256 bits: the last product, which is the largest, fits.
pub open spec fn projection_fits(fee: nat, blocks: nat) -> bool {
    blocks == 0 || projected_fee(fee, (blocks - 1) as nat) * (FEE_GROWTH_NUMERATOR as nat)
        < pow2_256()
}

/// The base fee projected over `blocks` blocks, or `None` where a product
/// on the way does not fit in 256 bits.
pub fn project_base_fee(base_fee: U256, blocks: u64) -> (r: Option<U256>)
    ensures
        r is Some <==> projection_fits(base_fee@, blocks as nat),
        r matches Some(fee) ==> fee@ == projected_fee(base_fee@, blocks as nat),
{
    let numerator = U256::from_u64(FEE_GROWTH_NUMERATOR);
    let denominator = U256::from_u64(FEE_GROWTH_DENOMINATOR);
    let mut fee = base_fee;
    let mut i: u64 = 0;
    while i < blocks
        invariant
            i <= blocks,
            numerator@ == FEE_GROWTH_NUMERATOR,
            denominator@ == FEE_GROWTH_DENOMINATOR,
            fee@ == projected_fee(base_fee@, i as nat),
            projection_fits(base_fee@, i as nat),
        decreases blocks - i,
    {
        let product = match fee.mul_checked(&numerator) {
            Some(p) => p,
            None => {
                proof {
                    lemma_projected_fee_grows(base_fee@, i as nat, (blocks - 1) as nat);
                }
                return None;
            },
        };
        fee = match product.div_checked(&denominator) {
            Some(q) => q,
            None => {
                proof {
                    assert(false);
                }
                return None;
            },
        };
        i += 1;
    }
    Some(fee)
}

/// The ceiling on the base fee for a transaction sent now: the base fee
/// projected over [`BLOCKS_AHEAD`] blocks.
pub fn max_base_fee(base_fee: U256) -> (r: Option<U256>)
    ensures
        r is Some <==> projection_fits(base_fee@, BLOCKS_AHEAD as nat),
        r matches Some(fee) ==> fee@ == projected_fee(base_fee@, BLOCKS_AHEAD as nat),
{
    project_base_fee(base_fee, BLOCKS_AHEAD)
}

} // verus!
