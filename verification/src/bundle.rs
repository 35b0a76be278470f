//! The bundle assembler: signed transactions in the order in which they were
//! built, aimed at a block, and the steps of handing them to a relay.
//!
//! Order matters: a later transaction may rest on what an earlier one did,
//! as the incentive payment rests on the purchases. A bundle is simulated
//! first and sent only if the simulation passed, and it is sent once.

use crate::address::Address;
use crate::bribe::{
    is_bribe_payment, is_spread_of, pay_receiver, share_of, spread_bribe, total_value, BribeError,
    ceilings_fit,
};
use crate::constants::BLOCKS_AHEAD;
use crate::transaction::{value_of, Eip1559TransactionRequest, TransactionRequest};
use crate::uint::{pow2_256, U256};
use vstd::prelude::*;

verus! {

/// One signed transaction of a bundle, with what is shown of it.
#[derive(Clone, Debug, PartialEq, Eq)]
pub struct BundleItem {
    /// The place of the transaction in the bundle, counted from zero.
    pub position: usize,
    /// The signed transaction, serialized.
    pub raw: Vec<u8>,
    /// The token that the transaction buys; none for the incentive payment.
    pub token_id: Option<U256>,
    /// The amount that the transaction sends.
    pub value: U256,
    /// Its priority fee.
    pub max_priority_fee_per_gas: U256,
    /// Its fee ceiling.
    pub max_fee_per_gas: U256,
    /// Its gas limit.
    pub gas: U256,
}

/// Signed transactions in order, the block they are meant for and the block
/// on which they are simulated.
#[derive(Clone, Debug, PartialEq, Eq)]
pub struct TransactionBundle {
    pub items: Vec<BundleItem>,
    pub block: Option<u64>,
    pub simulation_block: Option<u64>,
}

/// Why a bundle could not be assembled.
#[derive(Clone, Copy, Debug, PartialEq, Eq)]
pub enum BundleError {
    /// There is not one signed transaction for each transaction.
    SignatureCount,
    /// The amounts sent do not add up within 256 bits.
    ValueOverflow,
}

/// The number in an optional field: zero where it is absent.
pub open spec fn or_zero(field: Option<U256>) -> nat {
    match field {
        Some(v) => v@,
        None => 0,
    }
}

/// The number in an optional field: zero where it is absent.
pub fn unwrap_or_zero(field: Option<U256>) -> (r: U256)
    ensures
        r@ == or_zero(field),
{
    match field {
        Some(v) => v,
        None => U256::zero(),
    }
}

/// The token that the `i`-th transaction of a bundle buys: the `i`-th of
/// `ids`, which names the token of each purchase, and none for a
/// transaction behind the purchases.
pub open spec fn served_token(ids: Seq<U256>, i: int) -> Option<U256> {
    if 0 <= i < ids.len() {
        Some(ids[i])
    } else {
        None
    }
}

/// Whether `item` is the transaction `tx`, signed as `raw`, at place `i` of
/// a bundle for the tokens `ids`.
pub open spec fn is_item_of(
    item: BundleItem,
    tx: Eip1559TransactionRequest,
    raw: Vec<u8>,
    ids: Seq<U256>,
    i: int,
) -> bool {
    &&& item.position == i
    &&& item.raw == raw
    &&& item.token_id == served_token(ids, i)
    &&& item.value@ == value_of(tx)
    &&& item.max_priority_fee_per_gas@ == or_zero(tx.max_priority_fee_per_gas)
    &&& item.max_fee_per_gas@ == or_zero(tx.max_fee_per_gas)
    &&& item.gas@ == or_zero(tx.gas)
}

/// Whether `bundle` holds the transactions `txs`, signed as `signed`, in
/// their order, and is not aimed at a block yet.
pub open spec fn is_bundle_of(
    bundle: TransactionBundle,
    txs: Seq<Eip1559TransactionRequest>,
    signed: Seq<Vec<u8>>,
    ids: Seq<U256>,
) -> bool {
    &&& bundle.block is None
    &&& bundle.simulation_block is None
    &&& bundle.items@.len() == txs.len()
    &&& signed.len() == txs.len()
    &&& forall|i: int|
        0 <= i < txs.len() ==> is_item_of(#[trigger] bundle.items@[i], txs[i], signed[i], ids, i)
}

/// The sum of the amounts that the first `k` of `txs` send.
proof fn lemma_total_value_step(txs: Seq<Eip1559TransactionRequest>, k: int)
    requires
        0 <= k < txs.len(),
    ensures
        total_value(txs.take(k + 1)) == total_value(txs.take(k)) + value_of(txs[k]),
{
    assert(txs.take(k + 1).drop_last() =~= txs.take(k));
}

/// The sum of the amounts grows with the number of transactions.
proof fn lemma_total_value_monotonic(txs: Seq<Eip1559TransactionRequest>, k: int, n: int)
    requires
        0 <= k <= n <= txs.len(),
    ensures
        total_value(txs.take(k)) <= total_value(txs.take(n)),
    decreases n - k,
{
    if k < n {
        lemma_total_value_monotonic(txs, k, n - 1);
        lemma_total_value_step(txs, n - 1);
    }
}

/// Lays the signed transactions out as a bundle, in the order of `txs`, and
/// adds up what they send. `signed` holds the signed, serialized form of
/// each transaction, in the same order; `ids` are the tokens that the
/// purchases buy, one for each purchase, so that a transaction behind them,
/// the incentive payment, is shown without a token.
///
/// Fails with [`BundleError::SignatureCount`] exactly where `signed` and
/// `txs` differ in length, and else with [`BundleError::ValueOverflow`]
/// exactly where the sum does not fit in 256 bits.
pub fn sign_bundle(txs: &Vec<Eip1559TransactionRequest>, ids: &Vec<U256>, signed: Vec<Vec<u8>>) -> (r:
    Result<(TransactionBundle, U256), BundleError>)
    ensures
        r is Ok <==> signed@.len() == txs@.len() && total_value(txs@) < pow2_256(),
        r matches Err(e) ==> e == if signed@.len() != txs@.len() {
            BundleError::SignatureCount
        } else {
            BundleError::ValueOverflow
        },
        r matches Ok((bundle, total)) ==> is_bundle_of(bundle, txs@, signed@, ids@) && total@
            == total_value(txs@),
{
    if signed.len() != txs.len() {
        return Err(BundleError::SignatureCount);
    }
    let ghost all = signed@;
    let mut items: Vec<BundleItem> = Vec::new();
    let mut sum = U256::zero();
    let n = txs.len();
    let mut i: usize = 0;
    for raw in it: signed
        invariant
            it.seq() == all,
            all.len() == txs@.len(),
            n == txs@.len(),
            i == it.index(),
            items@.len() == i,
            sum@ == total_value(txs@.take(i as int)),
            forall|j: int|
                0 <= j < i ==> is_item_of(#[trigger] items@[j], txs@[j], all[j], ids@, j),
    {
        let tx = &txs[i];
        let value = unwrap_or_zero(tx.value);
        proof {
            lemma_total_value_step(txs@, i as int);
        }
        sum = match sum.add_checked(&value) {
            Some(s) => s,
            None => {
                proof {
                    lemma_total_value_monotonic(txs@, i + 1, txs@.len() as int);
                    assert(txs@.take(txs@.len() as int) =~= txs@);
                }
                return Err(BundleError::ValueOverflow);
            },
        };
        let token_id = if i < ids.len() {
            Some(ids[i])
        } else {
            None
        };
        items.push(
            BundleItem {
                position: i,
                raw,
                token_id,
                value,
                max_priority_fee_per_gas: unwrap_or_zero(tx.max_priority_fee_per_gas),
                max_fee_per_gas: unwrap_or_zero(tx.max_fee_per_gas),
                gas: unwrap_or_zero(tx.gas),
            },
        );
        i += 1;
    }
    proof {
        assert(txs@.take(txs@.len() as int) =~= txs@);
        crate::uint::lemma_u256_bounds(sum);
    }
    Ok((TransactionBundle { items, block: None, simulation_block: None }, sum))
}

impl TransactionBundle {
    /// Aims the bundle at the block with the given number.
    pub fn set_block(self, block: u64) -> (r: TransactionBundle)
        ensures
            r.block == Some(block),
            r.items == self.items,
            r.simulation_block == self.simulation_block,
    {
        TransactionBundle {
            items: self.items,
            block: Some(block),
            simulation_block: self.simulation_block,
        }
    }

    /// Has the bundle simulated on top of the block with the given number.
    pub fn set_simulation_block(self, block: u64) -> (r: TransactionBundle)
        ensures
            r.simulation_block == Some(block),
            r.items == self.items,
            r.block == self.block,
    {
        TransactionBundle { items: self.items, block: self.block, simulation_block: Some(block) }
    }

    /// Aims the bundle from the current block: it is meant for the block
    /// [`BLOCKS_AHEAD`] blocks on and is simulated on the current one.
    /// Returns `None` exactly where no such block number exists.
    pub fn target(self, current: u64) -> (r: Option<TransactionBundle>)
        ensures
            r is Some <==> current + BLOCKS_AHEAD <= u64::MAX,
            r matches Some(b) ==> {
                &&& b.block == Some((current + BLOCKS_AHEAD) as u64)
                &&& b.simulation_block == Some(current)
                &&& b.items == self.items
            },
    {
        if current > u64::MAX - BLOCKS_AHEAD {
            None
        } else {
            Some(self.set_block(current + BLOCKS_AHEAD).set_simulation_block(current))
        }
    }
}

/// Whether `legacy` is `tx` as a transaction of the older kind: its fee
/// ceiling is the gas price, and the priority fee is dropped.
pub open spec fn is_legacy_of(legacy: TransactionRequest, tx: Eip1559TransactionRequest) -> bool {
    &&& legacy.to == tx.to
    &&& legacy.data == tx.data
    &&& legacy.value == tx.value
    &&& legacy.gas == tx.gas
    &&& legacy.nonce == tx.nonce
    &&& legacy.gas_price == tx.max_fee_per_gas
}

impl TransactionRequest {
    /// The transaction as one of the older kind.
    pub fn from_fee_market(tx: Eip1559TransactionRequest) -> (legacy: TransactionRequest)
        ensures
            is_legacy_of(legacy, tx),
    {
        TransactionRequest {
            to: tx.to,
            data: tx.data,
            value: tx.value,
            gas: tx.gas,
            nonce: tx.nonce,
            gas_price: tx.max_fee_per_gas,
        }
    }
}

/// How a batch is handed on.
#[derive(Clone, Debug, PartialEq, Eq)]
pub enum Submission {
    /// As one bundle through a relay, with the incentive in it.
    Bundle(Vec<Eip1559TransactionRequest>),
    /// Transaction by transaction through the node, without an incentive.
    Direct(Vec<TransactionRequest>),
}

/// Whether `r` is what is decided for the batch `txs`. Without an incentive
/// every transaction goes out by itself, as one of the older kind. With an
/// incentive and a receiver the batch and one more transaction, which pays
/// the whole incentive, make a bundle. With an incentive and no receiver the
/// batch with the incentive spread over it makes the bundle, and the
/// decision fails on an empty batch and where a raised fee ceiling would
/// not fit in 256 bits.
pub open spec fn is_plan_of(
    r: Result<Submission, BribeError>,
    txs: Seq<Eip1559TransactionRequest>,
    next_nonce: U256,
    max_base_fee: U256,
    bribe: Option<U256>,
    receiver: Option<Address>,
    verification: Option<Vec<u8>>,
) -> bool {
    match (bribe, receiver) {
        (None, _) => r matches Ok(Submission::Direct(out)) && out@.len() == txs.len()
            && forall|i: int| 0 <= i < out@.len() ==> is_legacy_of(#[trigger] out@[i], txs[i]),
        (Some(amount), Some(to)) => r matches Ok(Submission::Bundle(out)) && out@.len()
            == txs.len() + 1 && out@.drop_last() == txs && is_bribe_payment(
            out@.last(),
            to,
            amount,
            max_base_fee,
            next_nonce,
            verification,
        ),
        (Some(amount), None) => match r {
            Ok(Submission::Bundle(out)) => txs.len() > 0 && is_spread_of(out@, txs, amount@),
            Ok(Submission::Direct(_)) => false,
            Err(e) => e == if txs.len() == 0 {
                BribeError::EmptyBatch
            } else {
                BribeError::FeeOverflow
            } && !(txs.len() > 0 && ceilings_fit(txs, share_of(amount@, txs.len()))),
        },
    }
}

/// Decides how a batch is handed on. Without an incentive every transaction
/// is sent by itself, as one of the older kind. With an incentive the batch
/// becomes a bundle: where `receiver` is given, one more transaction pays
/// the whole incentive to it, with `verification` as its call data; else the
/// incentive is spread evenly over the transactions.
///
/// Fails only where an incentive is to be spread: on an empty batch, and
/// where a raised fee ceiling would not fit in 256 bits.
pub fn plan_submission(
    txs: Vec<Eip1559TransactionRequest>,
    next_nonce: U256,
    max_base_fee: U256,
    bribe: Option<U256>,
    receiver: Option<Address>,
    verification: Option<Vec<u8>>,
) -> (r: Result<Submission, BribeError>)
    ensures
        is_plan_of(r, txs@, next_nonce, max_base_fee, bribe, receiver, verification),
{
    match bribe {
        None => {
            let ghost all = txs@;
            let mut out: Vec<TransactionRequest> = Vec::new();
            for tx in it: txs
                invariant
                    it.seq() == all,
                    out@.len() == it.index(),
                    forall|i: int| 0 <= i < out@.len() ==> is_legacy_of(#[trigger] out@[i], all[i]),
            {
                out.push(TransactionRequest::from_fee_market(tx));
            }
            Ok(Submission::Direct(out))
        },
        Some(amount) => match receiver {
            Some(to) => Ok(
                Submission::Bundle(
                    pay_receiver(txs, to, amount, max_base_fee, next_nonce, verification),
                ),
            ),
            None => match spread_bribe(txs, amount) {
                Ok(out) => Ok(Submission::Bundle(out)),
                Err(e) => Err(e),
            },
        },
    }
}

/// Where the handing of a bundle to the relay stands.
#[derive(Clone, Copy, Debug, PartialEq, Eq)]
pub enum SubmissionState {
    /// The bundle is signed; nothing has gone out.
    Signed,
    /// The simulation was asked for.
    Simulating,
    /// The bundle was sent, once.
    Sending,
    /// The relay took the bundle.
    Submitted,
    /// A dry run: the bundle was signed and nothing went out.
    DryRun,
    /// The simulation failed; the bundle was not sent.
    SimulationFailed,
    /// The relay refused the bundle; it is not sent again.
    RelayFailed,
}

/// What happened since the last step.
#[derive(Clone, Copy, Debug, PartialEq, Eq)]
pub enum RelayEvent {
    /// The caller is ready to go on.
    Proceed,
    /// The simulation passed.
    SimulationPassed,
    /// The simulation failed.
    SimulationFailed,
    /// The relay took the bundle.
    Accepted,
    /// The relay refused the bundle, or could not be reached.
    Refused,
}

/// What the caller is to do next.
#[derive(Clone, Copy, Debug, PartialEq, Eq)]
pub enum RelayAction {
    /// Ask the relay to simulate the bundle.
    Simulate,
    /// Send the bundle to the relay.
    Send,
    /// Nothing: wait for the outstanding answer, or stop.
    Nothing,
}

/// The state after `event` in `state`, and what is to be done. A signed
/// bundle is simulated, unless this is a dry run; it is sent when the
/// simulation has passed, and only then; what the relay answers ends the
/// handing over. An event that does not belong to the state changes nothing.
pub open spec fn spec_next_step(state: SubmissionState, event: RelayEvent, dry_run: bool) -> (
    SubmissionState,
    RelayAction,
) {
    match (state, event) {
        (SubmissionState::Signed, RelayEvent::Proceed) => if dry_run {
            (SubmissionState::DryRun, RelayAction::Nothing)
        } else {
            (SubmissionState::Simulating, RelayAction::Simulate)
        },
        (SubmissionState::Simulating, RelayEvent::SimulationPassed) => (
            SubmissionState::Sending,
            RelayAction::Send,
        ),
        (SubmissionState::Simulating, RelayEvent::SimulationFailed) => (
            SubmissionState::SimulationFailed,
            RelayAction::Nothing,
        ),
        (SubmissionState::Sending, RelayEvent::Accepted) => (
            SubmissionState::Submitted,
            RelayAction::Nothing,
        ),
        (SubmissionState::Sending, RelayEvent::Refused) => (
            SubmissionState::RelayFailed,
            RelayAction::Nothing,
        ),
        _ => (state, RelayAction::Nothing),
    }
}

/// The state after `event` in `state`, and what the caller is to do next.
pub fn next_step(state: SubmissionState, event: RelayEvent, dry_run: bool) -> (r: (
    SubmissionState,
    RelayAction,
))
    ensures
        r == spec_next_step(state, event, dry_run),
{
    match (state, event) {
        (SubmissionState::Signed, RelayEvent::Proceed) => if dry_run {
            (SubmissionState::DryRun, RelayAction::Nothing)
        } else {
            (SubmissionState::Simulating, RelayAction::Simulate)
        },
        (SubmissionState::Simulating, RelayEvent::SimulationPassed) => (
            SubmissionState::Sending,
            RelayAction::Send,
        ),
        (SubmissionState::Simulating, RelayEvent::SimulationFailed) => (
            SubmissionState::SimulationFailed,
            RelayAction::Nothing,
        ),
        (SubmissionState::Sending, RelayEvent::Accepted) => (
            SubmissionState::Submitted,
            RelayAction::Nothing,
        ),
        (SubmissionState::Sending, RelayEvent::Refused) => (
            SubmissionState::RelayFailed,
            RelayAction::Nothing,
        ),
        _ => (state, RelayAction::Nothing),
    }
}

/// A bundle is sent only when its simulation has passed, never in a dry
/// run's course, and never twice: once it is sent, or the handing over has
/// ended, no event leads to another simulation or sending.
pub proof fn lemma_send_follows_simulation(state: SubmissionState, event: RelayEvent, dry_run: bool)
    ensures
        spec_next_step(state, event, dry_run).1 == RelayAction::Send ==> state
            == SubmissionState::Simulating && event == RelayEvent::SimulationPassed,
        spec_next_step(state, event, dry_run).0 == SubmissionState::Simulating ==> state
            == SubmissionState::Simulating || (state == SubmissionState::Signed && !dry_run),
        state != SubmissionState::Signed && state != SubmissionState::Simulating
            ==> spec_next_step(state, event, dry_run).1 == RelayAction::Nothing,
        state != SubmissionState::Signed && state != SubmissionState::Simulating
            ==> spec_next_step(state, event, dry_run).0 != SubmissionState::Signed
            && spec_next_step(state, event, dry_run).0 != SubmissionState::Simulating,
{
}

} // verus!
