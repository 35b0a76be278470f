//! Unsigned transactions, in the two shapes the chain accepts.

use crate::address::Address;
use crate::uint::U256;
use vstd::prelude::*;

verus! {

/// A transaction of the fee-market kind: it names the most it pays per unit
/// of gas, and how much of that goes to the block's producer.
#[derive(Clone, Debug, PartialEq, Eq)]
pub struct Eip1559TransactionRequest {
    pub to: Option<Address>,
    pub data: Option<Vec<u8>>,
    pub value: Option<U256>,
    pub gas: Option<U256>,
    pub nonce: Option<U256>,
    pub max_fee_per_gas: Option<U256>,
    pub max_priority_fee_per_gas: Option<U256>,
}

/// A transaction of the older kind, with one gas price.
#[derive(Clone, Debug, PartialEq, Eq)]
pub struct TransactionRequest {
    pub to: Option<Address>,
    pub data: Option<Vec<u8>>,
    pub value: Option<U256>,
    pub gas: Option<U256>,
    pub nonce: Option<U256>,
    pub gas_price: Option<U256>,
}

/// A transaction of either kind.
#[derive(Clone, Debug, PartialEq, Eq)]
pub enum TypedTransaction {
    Legacy(TransactionRequest),
    Eip1559(Eip1559TransactionRequest),
}

/// A call of a contract that is ready to be sent: the transaction that makes it.
#[derive(Clone, Debug, PartialEq, Eq)]
pub struct ContractCall {
    pub tx: TypedTransaction,
}

/// The amount that a transaction sends: zero where it names none.
pub open spec fn value_of(tx: Eip1559TransactionRequest) -> nat {
    match tx.value {
        Some(v) => v@,
        None => 0,
    }
}

impl Eip1559TransactionRequest {
    /// A transaction that names nothing yet.
    pub fn new() -> (tx: Eip1559TransactionRequest)
        ensures
            tx.to is None,
            tx.data is None,
            tx.value is None,
            tx.gas is None,
            tx.nonce is None,
            tx.max_fee_per_gas is None,
            tx.max_priority_fee_per_gas is None,
    {
        Eip1559TransactionRequest {
            to: None,
            data: None,
            value: None,
            gas: None,
            nonce: None,
            max_fee_per_gas: None,
            max_priority_fee_per_gas: None,
        }
    }
}

} // verus!
