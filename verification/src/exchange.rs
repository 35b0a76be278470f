//! The atomic-match encoder: a matched pair of orders in the parameter
//! layout of the exchange's `atomicMatch_` entry point.
//!
//! The layout has fixed arity and order: fourteen addresses, eighteen
//! integers, eight method and kind numbers as full words, six byte strings,
//! two recovery ids and five 32-byte words. Only the sell order's signature
//! is presented.

use crate::abi::{encode_call, encoded_len, encoding, selector_of, EncodingError, Token, TokenView};
use crate::address::{zero_bytes, Address, H256};
use crate::constants::ATOMIC_MATCH_GAS;
use crate::matching::{is_buy_order, schema_named, MatchError};
use crate::transaction::{ContractCall, Eip1559TransactionRequest, TypedTransaction};
use crate::types::{is_reduction_of, BuyArgs, MinimalOrder, Order};
use crate::uint::U256;
use vstd::prelude::*;

verus! {

/// Canonical signature of the exchange's entry point for an atomic match.
pub const ATOMIC_MATCH: &'static str =
    "atomicMatch_(address[14],uint256[18],uint8[8],bytes,bytes,bytes,bytes,bytes,bytes,uint8[2],bytes32[5])";

/// A buy order and the sell order it answers, both in the exchange's shape.
#[derive(Clone, Debug, PartialEq, Eq)]
pub struct MatchedPair {
    pub buy: MinimalOrder,
    pub sell: MinimalOrder,
}

/// Whether `pair` matches the listing `sell` for the intent `args`: its buy
/// side answers the listing, with some salt and some reading of the clock,
/// and its sell side is the listing reduced.
pub open spec fn is_match_of(pair: MatchedPair, sell: Order, args: BuyArgs) -> bool {
    &&& schema_named(sell.metadata.schema@) is Some
    &&& exists|salt: u64, now: u64| #[trigger]
        is_buy_order(
            pair.buy,
            sell,
            args,
            schema_named(sell.metadata.schema@).unwrap(),
            salt,
            now,
        )
    &&& is_reduction_of(pair.sell, sell)
}

impl MatchedPair {
    /// Matches the listing `sell` for the intent `args`: derives the buy
    /// order and reduces the listing.
    ///
    /// Fails exactly where the listing's schema is not a supported one.
    pub fn new(sell: Order, args: BuyArgs) -> (r: Result<MatchedPair, MatchError>)
        ensures
            r is Ok <==> schema_named(sell.metadata.schema@) is Some,
            r matches Err(e) ==> e == MatchError::UnsupportedSchema,
            r matches Ok(pair) ==> is_match_of(pair, sell, args),
    {
        let buy = match sell.match_sell(args) {
            Ok(buy) => buy,
            Err(e) => {
                return Err(e);
            },
        };
        let ghost listing = sell;
        let pair = MatchedPair { buy, sell: MinimalOrder::from(sell) };
        proof {
            crate::types::lemma_from_is_reduction(listing);
            let schema = schema_named(listing.metadata.schema@).unwrap();
            let (salt, now) = choose|salt: u64, now: u64| #[trigger]
                is_buy_order(pair.buy, listing, args, schema, salt, now);
            assert(is_buy_order(pair.buy, listing, args, schema, salt, now));
        }
        Ok(pair)
    }
}

/// The parameters of an atomic match, in the order the exchange takes them.
#[derive(Clone, Debug, PartialEq, Eq)]
pub struct AtomicMatch {
    pub addrs: [Address; 14],
    pub uints: [U256; 18],
    pub methods: [U256; 8],
    pub calldata_buy: Vec<u8>,
    pub calldata_sell: Vec<u8>,
    pub replacement_pattern_buy: Vec<u8>,
    pub replacement_pattern_sell: Vec<u8>,
    pub static_extradata_buy: Vec<u8>,
    pub static_extradata_sell: Vec<u8>,
    pub vs: [u8; 2],
    pub rss_metadata: [H256; 5],
}

/// The seven addresses of an order, in the exchange's order.
pub open spec fn order_addresses(o: MinimalOrder) -> Seq<Address> {
    seq![
        o.exchange,
        o.maker,
        o.taker,
        o.fee_recipient,
        o.target,
        o.static_target,
        o.payment_token,
    ]
}

/// The nine integers of an order, in the exchange's order.
pub open spec fn order_uints(o: MinimalOrder) -> Seq<U256> {
    seq![
        o.maker_relayer_fee,
        o.taker_relayer_fee,
        o.maker_protocol_fee,
        o.taker_protocol_fee,
        o.base_price,
        o.extra,
        o.listing_time,
        o.expiration_time,
        o.salt,
    ]
}

/// The four method and kind numbers of an order, in the exchange's order.
pub open spec fn order_methods(o: MinimalOrder) -> Seq<u8> {
    seq![o.fee_method, o.side, o.sale_kind, o.how_to_call]
}

/// Whether `p` holds the parameters of the atomic match of `buy` with `sell`.
pub open spec fn is_atomic_match_of(p: AtomicMatch, buy: MinimalOrder, sell: MinimalOrder) -> bool {
    &&& p.addrs@ == order_addresses(buy) + order_addresses(sell)
    &&& p.uints@ == order_uints(buy) + order_uints(sell)
    &&& forall|i: int|
        0 <= i < 8 ==> (#[trigger] p.methods[i])@ == (order_methods(buy) + order_methods(sell))[i]
    &&& p.calldata_buy@ == buy.calldata@
    &&& p.calldata_sell@ == sell.calldata@
    &&& p.replacement_pattern_buy@ == buy.replacement_pattern@
    &&& p.replacement_pattern_sell@ == sell.replacement_pattern@
    &&& p.static_extradata_buy@ == buy.static_extradata@
    &&& p.static_extradata_sell@ == sell.static_extradata@
    &&& p.vs@ == seq![0u8, sell.v]
    &&& p.rss_metadata[0]@ == zero_bytes(32)
    &&& p.rss_metadata[1]@ == zero_bytes(32)
    &&& p.rss_metadata[2] == sell.r
    &&& p.rss_metadata[3] == sell.s
    &&& p.rss_metadata[4]@ == zero_bytes(32)
}

/// The arguments of the call, one token per word or byte string: the fixed
/// arrays are laid out element by element.
pub open spec fn argument_views(p: AtomicMatch) -> Seq<TokenView> {
    Seq::new(14, |i: int| TokenView::Address(p.addrs[i]@)) + Seq::new(
        18,
        |i: int| TokenView::Uint(p.uints[i]@),
    ) + Seq::new(8, |i: int| TokenView::Uint(p.methods[i]@)) + seq![
        TokenView::Bytes(p.calldata_buy@),
        TokenView::Bytes(p.calldata_sell@),
        TokenView::Bytes(p.replacement_pattern_buy@),
        TokenView::Bytes(p.replacement_pattern_sell@),
        TokenView::Bytes(p.static_extradata_buy@),
        TokenView::Bytes(p.static_extradata_sell@),
    ] + Seq::new(2, |i: int| TokenView::Uint(p.vs[i] as nat)) + Seq::new(
        5,
        |i: int| TokenView::Word(p.rss_metadata[i]@),
    )
}

impl AtomicMatch {
    /// The parameters of the atomic match of `buy` with `sell`.
    pub fn new(buy: &MinimalOrder, sell: &MinimalOrder) -> (p: AtomicMatch)
        ensures
            is_atomic_match_of(p, *buy, *sell),
    {
        let addrs = [
            buy.exchange,
            buy.maker,
            buy.taker,
            buy.fee_recipient,
            buy.target,
            buy.static_target,
            buy.payment_token,
            sell.exchange,
            sell.maker,
            sell.taker,
            sell.fee_recipient,
            sell.target,
            sell.static_target,
            sell.payment_token,
        ];
        let uints = [
            buy.maker_relayer_fee,
            buy.taker_relayer_fee,
            buy.maker_protocol_fee,
            buy.taker_protocol_fee,
            buy.base_price,
            buy.extra,
            buy.listing_time,
            buy.expiration_time,
            buy.salt,
            sell.maker_relayer_fee,
            sell.taker_relayer_fee,
            sell.maker_protocol_fee,
            sell.taker_protocol_fee,
            sell.base_price,
            sell.extra,
            sell.listing_time,
            sell.expiration_time,
            sell.salt,
        ];
        let methods = [
            U256::from_u64(buy.fee_method as u64),
            U256::from_u64(buy.side as u64),
            U256::from_u64(buy.sale_kind as u64),
            U256::from_u64(buy.how_to_call as u64),
            U256::from_u64(sell.fee_method as u64),
            U256::from_u64(sell.side as u64),
            U256::from_u64(sell.sale_kind as u64),
            U256::from_u64(sell.how_to_call as u64),
        ];
        let vs = [0u8, sell.v];
        let rss_metadata = [H256::zero(), H256::zero(), sell.r, sell.s, H256::zero()];
        let p = AtomicMatch {
            addrs,
            uints,
            methods,
            calldata_buy: buy.calldata.clone(),
            calldata_sell: sell.calldata.clone(),
            replacement_pattern_buy: buy.replacement_pattern.clone(),
            replacement_pattern_sell: sell.replacement_pattern.clone(),
            static_extradata_buy: buy.static_extradata.clone(),
            static_extradata_sell: sell.static_extradata.clone(),
            vs,
            rss_metadata,
        };
        assert(p.addrs@ =~= order_addresses(*buy) + order_addresses(*sell));
        assert(p.uints@ =~= order_uints(*buy) + order_uints(*sell));
        p
    }

    /// The arguments of the call as tokens, in order.
    pub fn tokens(&self) -> (tokens: Vec<Token>)
        ensures
            crate::abi::token_views(tokens@) == argument_views(*self),
    {
        let mut tokens: Vec<Token> = Vec::new();
        let mut i: usize = 0;
        while i < 14
            invariant
                i <= 14,
                tokens@.len() == i,
                forall|j: int| 0 <= j < i ==> (#[trigger] tokens@[j])@ == TokenView::Address(self.addrs[j]@),
            decreases 14 - i,
        {
            tokens.push(Token::Address(self.addrs[i]));
            i += 1;
        }
        i = 0;
        while i < 18
            invariant
                i <= 18,
                tokens@.len() == 14 + i,
                forall|j: int| 0 <= j < 14 ==> (#[trigger] tokens@[j])@ == TokenView::Address(self.addrs[j]@),
                forall|j: int| 0 <= j < i ==> (#[trigger] tokens@[14 + j])@ == TokenView::Uint(self.uints[j]@),
            decreases 18 - i,
        {
            tokens.push(Token::Uint(self.uints[i]));
            i += 1;
        }
        i = 0;
        while i < 8
            invariant
                i <= 8,
                tokens@.len() == 32 + i,
                forall|j: int| 0 <= j < 14 ==> (#[trigger] tokens@[j])@ == TokenView::Address(self.addrs[j]@),
                forall|j: int| 0 <= j < 18 ==> (#[trigger] tokens@[14 + j])@ == TokenView::Uint(self.uints[j]@),
                forall|j: int| 0 <= j < i ==> (#[trigger] tokens@[32 + j])@ == TokenView::Uint(self.methods[j]@),
            decreases 8 - i,
        {
            tokens.push(Token::Uint(self.methods[i]));
            i += 1;
        }
        tokens.push(Token::Bytes(self.calldata_buy.clone()));
        tokens.push(Token::Bytes(self.calldata_sell.clone()));
        tokens.push(Token::Bytes(self.replacement_pattern_buy.clone()));
        tokens.push(Token::Bytes(self.replacement_pattern_sell.clone()));
        tokens.push(Token::Bytes(self.static_extradata_buy.clone()));
        tokens.push(Token::Bytes(self.static_extradata_sell.clone()));
        tokens.push(Token::Uint(U256::from_u64(self.vs[0] as u64)));
        tokens.push(Token::Uint(U256::from_u64(self.vs[1] as u64)));
        i = 0;
        while i < 5
            invariant
                i <= 5,
                tokens@.len() == 48 + i,
                forall|j: int| 0 <= j < 14 ==> (#[trigger] tokens@[j])@ == TokenView::Address(self.addrs[j]@),
                forall|j: int| 0 <= j < 18 ==> (#[trigger] tokens@[14 + j])@ == TokenView::Uint(self.uints[j]@),
                forall|j: int| 0 <= j < 8 ==> (#[trigger] tokens@[32 + j])@ == TokenView::Uint(self.methods[j]@),
                tokens@[40]@ == TokenView::Bytes(self.calldata_buy@),
                tokens@[41]@ == TokenView::Bytes(self.calldata_sell@),
                tokens@[42]@ == TokenView::Bytes(self.replacement_pattern_buy@),
                tokens@[43]@ == TokenView::Bytes(self.replacement_pattern_sell@),
                tokens@[44]@ == TokenView::Bytes(self.static_extradata_buy@),
                tokens@[45]@ == TokenView::Bytes(self.static_extradata_sell@),
                tokens@[46]@ == TokenView::Uint(self.vs[0] as nat),
                tokens@[47]@ == TokenView::Uint(self.vs[1] as nat),
                forall|j: int| 0 <= j < i ==> (#[trigger] tokens@[48 + j])@ == TokenView::Word(self.rss_metadata[j]@),
            decreases 5 - i,
        {
            tokens.push(Token::Word(self.rss_metadata[i]));
            i += 1;
        }
        proof {
            let views = crate::abi::token_views(tokens@);
            let expected = argument_views(*self);
            assert forall|k: int| 0 <= k < 53 implies views[k] == expected[k] by {
                if 14 <= k < 32 {
                    assert(tokens@[14 + (k - 14)]@ == TokenView::Uint(self.uints[k - 14]@));
                } else if 32 <= k < 40 {
                    assert(tokens@[32 + (k - 32)]@ == TokenView::Uint(self.methods[k - 32]@));
                } else if 48 <= k {
                    assert(tokens@[48 + (k - 48)]@ == TokenView::Word(self.rss_metadata[k - 48]@));
                }
            }
        }
        tokens
    }
}

/// The arguments of the atomic match of `buy` with `sell`, one token per
/// word or byte string.
pub open spec fn match_arguments(buy: MinimalOrder, sell: MinimalOrder) -> Seq<TokenView> {
    (order_addresses(buy) + order_addresses(sell)).map_values(
        |a: Address| TokenView::Address(a@),
    ) + (order_uints(buy) + order_uints(sell)).map_values(|u: U256| TokenView::Uint(u@)) + (
    order_methods(buy) + order_methods(sell)).map_values(|m: u8| TokenView::Uint(m as nat)) + seq![
        TokenView::Bytes(buy.calldata@),
        TokenView::Bytes(sell.calldata@),
        TokenView::Bytes(buy.replacement_pattern@),
        TokenView::Bytes(sell.replacement_pattern@),
        TokenView::Bytes(buy.static_extradata@),
        TokenView::Bytes(sell.static_extradata@),
    ] + seq![TokenView::Uint(0), TokenView::Uint(sell.v as nat)] + seq![
        TokenView::Word(zero_bytes(32)),
        TokenView::Word(zero_bytes(32)),
        TokenView::Word(sell.r@),
        TokenView::Word(sell.s@),
        TokenView::Word(zero_bytes(32)),
    ]
}

/// The parameters of a match, laid out as tokens, are the arguments of the match.
pub proof fn lemma_parameters_are_arguments(p: AtomicMatch, buy: MinimalOrder, sell: MinimalOrder)
    requires
        is_atomic_match_of(p, buy, sell),
    ensures
        argument_views(p) == match_arguments(buy, sell),
{
}

/// The call data of the atomic match of `buy` with `sell`.
pub open spec fn atomic_match_calldata(buy: MinimalOrder, sell: MinimalOrder) -> Seq<u8> {
    selector_of(ATOMIC_MATCH@) + encoding(match_arguments(buy, sell))
}

/// Whether `call` is the call of the exchange at `exchange` that matches
/// `buy` with `sell`: a fee-market transaction to the exchange that sends the
/// buy order's current price, with the fixed gas limit and nothing else set.
pub open spec fn is_atomic_match_call(
    call: ContractCall,
    exchange: Address,
    buy: MinimalOrder,
    sell: MinimalOrder,
) -> bool {
    &&& call.tx matches TypedTransaction::Eip1559(tx)
    &&& tx.to == Some(exchange)
    &&& tx.value == Some(buy.current_price)
    &&& tx.gas matches Some(gas)
    &&& gas@ == ATOMIC_MATCH_GAS
    &&& tx.nonce is None
    &&& tx.max_fee_per_gas is None
    &&& tx.max_priority_fee_per_gas is None
    &&& tx.data matches Some(data)
    &&& data@ == atomic_match_calldata(buy, sell)
}

/// The call of the exchange at `exchange` that matches `buy` with `sell`.
///
/// Fails exactly where the encoded parameters would be longer than
/// `u32::MAX` bytes.
pub fn atomic_match_call(exchange: Address, buy: &MinimalOrder, sell: &MinimalOrder) -> (r: Result<
    ContractCall,
    EncodingError,
>)
    ensures
        r is Ok <==> encoded_len(match_arguments(*buy, *sell)) <= u32::MAX,
        r matches Ok(call) ==> is_atomic_match_call(call, exchange, *buy, *sell),
        r matches Err(e) ==> e == EncodingError::TooLong,
{
    let p = AtomicMatch::new(buy, sell);
    let tokens = p.tokens();
    proof {
        lemma_parameters_are_arguments(p, *buy, *sell);
    }
    match encode_call(ATOMIC_MATCH, &tokens) {
        Err(e) => Err(e),
        Ok(data) => {
            let tx = Eip1559TransactionRequest {
                to: Some(exchange),
                data: Some(data),
                value: Some(buy.current_price),
                gas: Some(U256::from_u64(ATOMIC_MATCH_GAS)),
                nonce: None,
                max_fee_per_gas: None,
                max_priority_fee_per_gas: None,
            };
            Ok(ContractCall { tx: TypedTransaction::Eip1559(tx) })
        },
    }
}

} // verus!
