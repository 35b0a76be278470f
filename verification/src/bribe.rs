//! The incentive payment of a bundle: paid to a receiver by one more
//! transaction, or spread over the purchases as their priority fee.
//!
//! Spread evenly, every purchase gets the whole-number quotient. What the
//! division leaves over is not paid to anyone.

use crate::address::Address;
use crate::constants::BRIBE_GAS;
use crate::transaction::{value_of, Eip1559TransactionRequest};
use crate::uint::{pow2_256, U256};
use vstd::prelude::*;

verus! {

/// Why an incentive could not be spread.
#[derive(Clone, Copy, Debug, PartialEq, Eq)]
pub enum BribeError {
    /// There is no transaction to spread the incentive over.
    EmptyBatch,
    /// A fee ceiling raised by its share would not fit in 256 bits.
    FeeOverflow,
}

/// The priority fee of a transaction: zero where it names none.
pub open spec fn priority_of(tx: Eip1559TransactionRequest) -> nat {
    match tx.max_priority_fee_per_gas {
        Some(p) => p@,
        None => 0,
    }
}

/// The sum of the priority fees of `txs`.
pub open spec fn total_priority(txs: Seq<Eip1559TransactionRequest>) -> nat
    decreases txs.len(),
{
    if txs.len() == 0 {
        0
    } else {
        total_priority(txs.drop_last()) + priority_of(txs.last())
    }
}

/// The sum of the amounts that `txs` send.
pub open spec fn total_value(txs: Seq<Eip1559TransactionRequest>) -> nat
    decreases txs.len(),
{
    if txs.len() == 0 {
        0
    } else {
        total_value(txs.drop_last()) + value_of(txs.last())
    }
}

/// Whether `tx` pays `bribe` to `receiver`: a transaction with the nonce
/// `nonce`, the fee ceiling `max_fee`, no priority fee, the fixed gas limit,
/// and `data` as its call data.
pub open spec fn is_bribe_payment(
    tx: Eip1559TransactionRequest,
    receiver: Address,
    bribe: U256,
    max_fee: U256,
    nonce: U256,
    data: Option<Vec<u8>>,
) -> bool {
    &&& tx.to == Some(receiver)
    &&& tx.value == Some(bribe)
    &&& tx.nonce == Some(nonce)
    &&& tx.max_fee_per_gas == Some(max_fee)
    &&& tx.max_priority_fee_per_gas is None
    &&& tx.gas matches Some(gas)
    &&& gas@ == BRIBE_GAS
    &&& tx.data == data
}

/// Appends to the batch the transaction that pays the whole incentive to
/// `receiver`. It continues the batch's nonces with `next_nonce` and has the
/// batch's fee ceiling; it needs no priority fee. `verification` is the call
/// data of the receiver's check of what the bundle bought, where one is
/// wanted; without it the payment is a plain transfer.
pub fn pay_receiver(
    txs: Vec<Eip1559TransactionRequest>,
    receiver: Address,
    bribe: U256,
    max_base_fee: U256,
    next_nonce: U256,
    verification: Option<Vec<u8>>,
) -> (out: Vec<Eip1559TransactionRequest>)
    ensures
        out@.len() == txs@.len() + 1,
        out@.drop_last() == txs@,
        is_bribe_payment(out@.last(), receiver, bribe, max_base_fee, next_nonce, verification),
{
    let mut out = txs;
    let tx = Eip1559TransactionRequest {
        to: Some(receiver),
        data: verification,
        value: Some(bribe),
        gas: Some(U256::from_u64(BRIBE_GAS)),
        nonce: Some(next_nonce),
        max_fee_per_gas: Some(max_base_fee),
        max_priority_fee_per_gas: None,
    };
    out.push(tx);
    out
}

/// Paying a receiver adds exactly the incentive to what the batch sends, and
/// no priority fee.
pub proof fn lemma_payment_accounts_for_bribe(
    out: Seq<Eip1559TransactionRequest>,
    txs: Seq<Eip1559TransactionRequest>,
    receiver: Address,
    bribe: U256,
    max_fee: U256,
    nonce: U256,
    data: Option<Vec<u8>>,
)
    requires
        out.len() == txs.len() + 1,
        out.drop_last() == txs,
        is_bribe_payment(out.last(), receiver, bribe, max_fee, nonce, data),
    ensures
        total_value(out) == total_value(txs) + bribe@,
        total_priority(out) == total_priority(txs),
{
}

/// The share of each of `count` transactions in `bribe`: the quotient,
/// rounded down.
pub open spec fn share_of(bribe: nat, count: nat) -> nat
    recommends
        count > 0,
{
    bribe / count
}

/// Whether `tx` is `before` with `share` as its priority fee and its fee
/// ceiling, where it has one, raised by `share`: every other field is kept.
pub open spec fn has_share(
    tx: Eip1559TransactionRequest,
    before: Eip1559TransactionRequest,
    share: nat,
) -> bool {
    &&& tx.max_priority_fee_per_gas matches Some(p)
    &&& p@ == share
    &&& match before.max_fee_per_gas {
        Some(f) => tx.max_fee_per_gas matches Some(g) && g@ == f@ + share,
        None => tx.max_fee_per_gas is None,
    }
    &&& tx.to == before.to
    &&& tx.data == before.data
    &&& tx.value == before.value
    &&& tx.gas == before.gas
    &&& tx.nonce == before.nonce
}

/// Whether `out` is the batch `txs` with `bribe` spread evenly over it.
pub open spec fn is_spread_of(
    out: Seq<Eip1559TransactionRequest>,
    txs: Seq<Eip1559TransactionRequest>,
    bribe: nat,
) -> bool {
    &&& out.len() == txs.len()
    &&& forall|i: int|
        0 <= i < out.len() ==> has_share(#[trigger] out[i], txs[i], share_of(bribe, txs.len()))
}

/// Whether every fee ceiling of `txs` can be raised by `share` within 256 bits.
pub open spec fn ceilings_fit(txs: Seq<Eip1559TransactionRequest>, share: nat) -> bool {
    forall|i: int|
        0 <= i < txs.len() ==> ((#[trigger] txs[i]).max_fee_per_gas matches Some(f) ==> f@ + share
            < pow2_256())
}

/// Spreads `bribe` evenly over the batch: every transaction gets the
/// quotient of `bribe` by the number of transactions as its priority fee, and
/// its fee ceiling is raised by as much. The remainder of the division is
/// left unspent.
///
/// Fails with [`BribeError::EmptyBatch`] exactly on an empty batch, and else
/// with [`BribeError::FeeOverflow`] exactly where a raised ceiling would not
/// fit in 256 bits.
pub fn spread_bribe(txs: Vec<Eip1559TransactionRequest>, bribe: U256) -> (r: Result<
    Vec<Eip1559TransactionRequest>,
    BribeError,
>)
    ensures
        r is Ok <==> txs@.len() > 0 && ceilings_fit(txs@, share_of(bribe@, txs@.len())),
        r matches Err(e) ==> e == if txs@.len() == 0 {
            BribeError::EmptyBatch
        } else {
            BribeError::FeeOverflow
        },
        r matches Ok(out) ==> is_spread_of(out@, txs@, bribe@),
{
    let n = txs.len();
    if n == 0 {
        return Err(BribeError::EmptyBatch);
    }
    let count = U256::from_u64(n as u64);
    let share = match bribe.div_checked(&count) {
        Some(q) => q,
        None => {
            proof {
                assert(false);
            }
            return Err(BribeError::EmptyBatch);
        },
    };
    let ghost all = txs@;
    let mut out: Vec<Eip1559TransactionRequest> = Vec::new();
    for tx in it: txs
        invariant
            it.seq() == all,
            all.len() == n,
            share@ == share_of(bribe@, n as nat),
            out@.len() == it.index(),
            forall|i: int| 0 <= i < out@.len() ==> has_share(#[trigger] out@[i], all[i], share@),
            forall|i: int|
                0 <= i < out@.len() ==> ((#[trigger] all[i]).max_fee_per_gas matches Some(f) ==> f@
                    + share@ < pow2_256()),
    {
        let mut tx = tx;
        match tx.max_fee_per_gas {
            Some(f) => {
                match f.add_checked(&share) {
                    Some(g) => {
                        tx.max_fee_per_gas = Some(g);
                    },
                    None => {
                        return Err(BribeError::FeeOverflow);
                    },
                }
            },
            None => {},
        }
        tx.max_priority_fee_per_gas = Some(share);
        out.push(tx);
    }
    Ok(out)
}

/// The priority fees of the first `k` transactions of a spread batch add up
/// to `k` shares, and what they send is what they sent before.
proof fn lemma_spread_prefix(
    out: Seq<Eip1559TransactionRequest>,
    txs: Seq<Eip1559TransactionRequest>,
    share: nat,
    k: nat,
)
    requires
        out.len() == txs.len(),
        k <= out.len(),
        forall|i: int| 0 <= i < out.len() ==> has_share(#[trigger] out[i], txs[i], share),
    ensures
        total_priority(out.take(k as int)) == k * share,
        total_value(out.take(k as int)) == total_value(txs.take(k as int)),
    decreases k,
{
    if k > 0 {
        lemma_spread_prefix(out, txs, share, (k - 1) as nat);
        assert(out.take(k as int).drop_last() =~= out.take(k - 1));
        assert(txs.take(k as int).drop_last() =~= txs.take(k - 1));
        assert(k * share == (k - 1) * share + share) by (nonlinear_arith)
            requires
                k > 0,
        ;
    }
}

/// Spreading an incentive of `bribe` over `n` transactions gives each the
/// share `bribe / n`. Together they get `n * (bribe / n)`, which is at most
/// `bribe`; the rest, `bribe % n`, is left unspent. What the batch sends does
/// not change.
pub proof fn lemma_spread_accounts_for_bribe(
    out: Seq<Eip1559TransactionRequest>,
    txs: Seq<Eip1559TransactionRequest>,
    bribe: nat,
)
    requires
        txs.len() > 0,
        is_spread_of(out, txs, bribe),
    ensures
        forall|i: int| 0 <= i < out.len() ==> priority_of(#[trigger] out[i]) == bribe / txs.len(),
        total_priority(out) == txs.len() * (bribe / txs.len()),
        total_priority(out) <= bribe,
        bribe - total_priority(out) == bribe % txs.len(),
        total_value(out) == total_value(txs),
{
    let n = txs.len();
    lemma_spread_prefix(out, txs, share_of(bribe, n), n);
    assert(out.take(n as int) =~= out);
    assert(txs.take(n as int) =~= txs);
    assert(bribe == n * (bribe / n) + bribe % n && 0 <= bribe % n < n) by (nonlinear_arith)
        requires
            n > 0,
    ;
}

} // verus!
