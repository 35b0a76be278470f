//! The transaction batch builder: calls in, fee-capped transactions with
//! consecutive nonces out.

use crate::transaction::{ContractCall, Eip1559TransactionRequest, TypedTransaction};
use crate::uint::{pow2_256, U256};
use vstd::prelude::*;

verus! {

/// Why a batch could not be built.
#[derive(Clone, Copy, Debug, PartialEq, Eq)]
pub enum BatchError {
    /// A call's transaction is not of the fee-market kind. The fee fields of
    /// the whole batch rest on that kind, so nothing is built.
    TransactionShapeMismatch,
    /// The nonces of the batch would run past the largest 256-bit number.
    NonceOverflow,
}

/// Whether every call's transaction is of the fee-market kind.
pub open spec fn all_fee_market(calls: Seq<ContractCall>) -> bool {
    forall|i: int| 0 <= i < calls.len() ==> (#[trigger] calls[i]).tx is Eip1559
}

/// The fee-market transaction inside a call.
pub open spec fn inner(call: ContractCall) -> Eip1559TransactionRequest
    recommends
        call.tx is Eip1559,
{
    call.tx->Eip1559_0
}

/// Whether `tx` is `call`'s transaction with the given nonce, with the fee
/// ceiling `max_fee` and no priority fee of its own choosing: every other
/// field is the call's.
pub open spec fn is_sequenced(
    tx: Eip1559TransactionRequest,
    call: ContractCall,
    nonce: nat,
    max_fee: U256,
) -> bool {
    &&& tx.nonce matches Some(n)
    &&& n@ == nonce
    &&& tx.max_fee_per_gas == Some(max_fee)
    &&& tx.to == inner(call).to
    &&& tx.data == inner(call).data
    &&& tx.value == inner(call).value
    &&& tx.gas == inner(call).gas
    &&& tx.max_priority_fee_per_gas == inner(call).max_priority_fee_per_gas
}

/// Whether `txs` are the transactions of `calls`, in order, with the nonces
/// `start`, `start + 1`, and so on, and the fee ceiling `max_fee`.
pub open spec fn is_batch_of(
    txs: Seq<Eip1559TransactionRequest>,
    calls: Seq<ContractCall>,
    start: nat,
    max_fee: U256,
) -> bool {
    &&& txs.len() == calls.len()
    &&& forall|i: int|
        0 <= i < txs.len() ==> is_sequenced(#[trigger] txs[i], calls[i], (start + i) as nat, max_fee)
}

/// The nonce of a transaction: zero where it names none.
pub open spec fn nonce_of(tx: Eip1559TransactionRequest) -> nat {
    match tx.nonce {
        Some(n) => n@,
        None => 0,
    }
}

/// The nonces of a list of transactions, in order.
pub open spec fn nonces(txs: Seq<Eip1559TransactionRequest>) -> Seq<nat> {
    Seq::new(txs.len(), |i: int| nonce_of(txs[i]))
}

/// The nonces of a batch of `n` transactions are `start`, `start + 1`, up to
/// `start + n - 1`, in this order: none is left out and none comes twice.
pub proof fn lemma_batch_nonces_consecutive(
    txs: Seq<Eip1559TransactionRequest>,
    calls: Seq<ContractCall>,
    start: nat,
    max_fee: U256,
)
    requires
        is_batch_of(txs, calls, start, max_fee),
    ensures
        nonces(txs) == Seq::new(calls.len(), |i: int| (start + i) as nat),
        forall|i: int, j: int|
            0 <= i < j < txs.len() ==> nonce_of(#[trigger] txs[i]) < nonce_of(#[trigger] txs[j]),
{
}

/// Turns calls into the transactions of one batch: each gets the fee ceiling
/// `max_base_fee`, no priority fee yet, and the next unused nonce, counted up
/// from `start_nonce`. Returns the transactions and the first nonce after them.
///
/// Fails with [`BatchError::TransactionShapeMismatch`] exactly where some
/// call is not of the fee-market kind, and else with
/// [`BatchError::NonceOverflow`] exactly where the nonce after the batch
/// does not fit in 256 bits.
pub fn sequence_transactions(calls: Vec<ContractCall>, start_nonce: U256, max_base_fee: U256) -> (r:
    Result<(Vec<Eip1559TransactionRequest>, U256), BatchError>)
    ensures
        r is Ok <==> all_fee_market(calls@) && start_nonce@ + calls@.len() < pow2_256(),
        r matches Err(e) ==> e == if all_fee_market(calls@) {
            BatchError::NonceOverflow
        } else {
            BatchError::TransactionShapeMismatch
        },
        r matches Ok((txs, next)) ==> {
            &&& is_batch_of(txs@, calls@, start_nonce@, max_base_fee)
            &&& next@ == start_nonce@ + calls@.len()
        },
{
    let n = calls.len();
    let mut k: usize = 0;
    while k < n
        invariant
            k <= n,
            n == calls@.len(),
            forall|i: int| 0 <= i < k ==> (#[trigger] calls@[i]).tx is Eip1559,
        decreases n - k,
    {
        match &calls[k].tx {
            TypedTransaction::Eip1559(_) => {},
            _ => {
                return Err(BatchError::TransactionShapeMismatch);
            },
        }
        k += 1;
    }
    let one = U256::from_u64(1);
    let mut nonce = start_nonce;
    let mut txs: Vec<Eip1559TransactionRequest> = Vec::new();
    let ghost all = calls@;
    for call in it: calls
        invariant
            it.seq() == all,
            all_fee_market(all),
            one@ == 1,
            txs@.len() == it.index(),
            nonce@ == start_nonce@ + it.index(),
            forall|i: int|
                0 <= i < txs@.len() ==> is_sequenced(
                    #[trigger] txs@[i],
                    all[i],
                    (start_nonce@ + i) as nat,
                    max_base_fee,
                ),
    {
        let mut tx = match call.tx {
            TypedTransaction::Eip1559(inner) => inner,
            _ => {
                proof {
                    assert(false);
                }
                return Err(BatchError::TransactionShapeMismatch);
            },
        };
        tx.max_fee_per_gas = Some(max_base_fee);
        tx.nonce = Some(nonce);
        nonce = match nonce.add_checked(&one) {
            Some(next) => next,
            None => {
                return Err(BatchError::NonceOverflow);
            },
        };
        txs.push(tx);
    }
    Ok((txs, nonce))
}

} // verus!
