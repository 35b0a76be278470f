//! Purchases: from the listings of a token to the calls of the exchange that
//! buy them, and on to the transactions of one batch.

use crate::abi::{encoded_len, padded_len, tail, tails, EncodingError, TokenView};
use crate::address::Address;
use crate::api::{OpenSeaApi, OpenSeaApiConfig, OpenSeaApiError};
use crate::batch::{is_batch_of, sequence_transactions, BatchError};
use crate::constants::opensea_address_bytes;
use crate::exchange::{
    atomic_match_call, is_atomic_match_call, is_match_of, match_arguments, MatchedPair,
};
use crate::matching::{is_buy_order, schema_named, MatchError, Schema};
use crate::selection::{cheapest, get_n_cheapest_orders};
use crate::transaction::{ContractCall, Eip1559TransactionRequest};
use crate::types::{is_reduction_of, BuyArgs, MinimalOrder, Order};
use crate::uint::{dec_digits, pow2_256, U256};
use vstd::prelude::*;

verus! {

/// What a purchase can fail with.
#[derive(Clone, Debug, PartialEq, Eq)]
pub enum ClientError {
    /// The order book has no listing to buy.
    OpenSeaApiError(OpenSeaApiError),
    /// No buy order answers the listing.
    Match(MatchError),
    /// The call of the exchange cannot be encoded.
    Encoding(EncodingError),
    /// The transactions of the batch cannot be built.
    Batch(BatchError),
}

/// A buyer's side of the exchange: the marketplace that lists the orders and
/// the exchange contract that matches them.
#[derive(Clone, Debug, PartialEq, Eq)]
pub struct Client {
    pub api: OpenSeaApi,
    pub exchange: Address,
}

/// The number of bytes that a byte string of `len` bytes takes behind the
/// head words: its length word and its content, padded.
pub open spec fn tail_len(len: nat) -> nat {
    32 + padded_len(len)
}

/// The number of bytes of the call data that moves a token of `schema`.
pub open spec fn transfer_calldata_len(schema: Schema) -> nat {
    match schema {
        Schema::Erc721 => 100,
        Schema::Erc1155 => 196,
    }
}

/// The number of bytes of the encoded arguments of the match that buys
/// `sell`: 53 head words and the six byte strings.
pub open spec fn purchase_len(sell: Order, schema: Schema) -> nat {
    32 * 53 + 2 * tail_len(transfer_calldata_len(schema)) + tail_len(sell.calldata@.len())
        + tail_len(sell.replacement_pattern@.len()) + 2 * tail_len(sell.static_extradata@.len())
}

/// Why the listing `sell` cannot be bought, if it cannot: its schema is not
/// supported, or else the call of the exchange would be too long to encode.
pub open spec fn purchase_failure(sell: Order) -> Option<ClientError> {
    match schema_named(sell.metadata.schema@) {
        None => Some(ClientError::Match(MatchError::UnsupportedSchema)),
        Some(schema) => if purchase_len(sell, schema) <= u32::MAX {
            None
        } else {
            Some(ClientError::Encoding(EncodingError::TooLong))
        },
    }
}

/// Whether `call` buys the listing `sell` for the intent `args` on the
/// exchange at `exchange`: it is the atomic match of a pair that matches the
/// listing for the intent.
pub open spec fn is_purchase_call(
    call: ContractCall,
    exchange: Address,
    sell: Order,
    args: BuyArgs,
) -> bool {
    exists|pair: MatchedPair| #[trigger]
        is_match_of(pair, sell, args) && is_atomic_match_call(call, exchange, pair.buy, pair.sell)
}

/// Tokens that are no byte strings add nothing to the tails.
proof fn lemma_tails_skip_static(tokens: Seq<TokenView>, from: nat, to: nat)
    requires
        from <= to <= tokens.len(),
        forall|k: int| from <= k < to ==> !(#[trigger] tokens[k] is Bytes),
    ensures
        tails(tokens, to).len() == tails(tokens, from).len(),
    decreases to,
{
    if from < to {
        lemma_tails_skip_static(tokens, from, (to - 1) as nat);
    }
}

/// The encoded arguments of the match that buys a listing are as long as
/// [`purchase_len`] says.
pub proof fn lemma_purchase_len(
    buy: MinimalOrder,
    reduced: MinimalOrder,
    sell: Order,
    args: BuyArgs,
    schema: Schema,
    salt: u64,
    now: u64,
)
    requires
        is_buy_order(buy, sell, args, schema, salt, now),
        is_reduction_of(reduced, sell),
    ensures
        encoded_len(match_arguments(buy, reduced)) == purchase_len(sell, schema),
{
    let tokens = match_arguments(buy, reduced);
    crate::matching::lemma_transfer_arguments_len(
        schema,
        args.recipient@,
        args.token_id@,
        sell.quantity@,
    );
    assert forall|k: int| 0 <= k < 40 implies !(#[trigger] tokens[k] is Bytes) by {}
    lemma_tails_skip_static(tokens, 0, 40);
    assert(tails(tokens, 41).len() == tails(tokens, 40).len() + tail(tokens[40]).len());
    assert(tails(tokens, 43).len() == tails(tokens, 42).len() + tail(tokens[42]).len());
    assert(tails(tokens, 45).len() == tails(tokens, 44).len() + tail(tokens[44]).len());
    assert forall|k: int| 46 <= k < 53 implies !(#[trigger] tokens[k] is Bytes) by {}
    lemma_tails_skip_static(tokens, 46, 53);
}

impl Client {
    /// The client of the marketplace that `cfg` describes and of the
    /// exchange at its known address.
    pub fn new(cfg: OpenSeaApiConfig) -> (client: Client)
        ensures
            client.api.network == cfg.network,
            client.api.api_key == cfg.api_key,
            client.exchange@ == opensea_address_bytes(),
    {
        Client { api: OpenSeaApi::new(cfg), exchange: crate::constants::opensea_address() }
    }

    /// The call of the exchange that matches `buy` with `sell`. It sends the
    /// buy order's current price and has a fixed gas limit.
    ///
    /// Fails exactly where the encoded parameters would be longer than
    /// `u32::MAX` bytes.
    pub fn atomic_match(&self, buy: MinimalOrder, sell: MinimalOrder) -> (r: Result<
        ContractCall,
        ClientError,
    >)
        ensures
            r is Ok <==> encoded_len(match_arguments(buy, sell)) <= u32::MAX,
            r matches Ok(call) ==> is_atomic_match_call(call, self.exchange, buy, sell),
            r matches Err(e) ==> e == ClientError::Encoding(EncodingError::TooLong),
    {
        match atomic_match_call(self.exchange, &buy, &sell) {
            Ok(call) => Ok(call),
            Err(e) => Err(ClientError::Encoding(e)),
        }
    }

    /// The call that buys the listing `sell` for the intent `args`.
    ///
    /// Fails exactly where [`purchase_failure`] names a reason, and with it.
    pub fn purchase(&self, sell: Order, args: BuyArgs) -> (r: Result<ContractCall, ClientError>)
        ensures
            match r {
                Ok(call) => purchase_failure(sell) is None && is_purchase_call(
                    call,
                    self.exchange,
                    sell,
                    args,
                ),
                Err(e) => purchase_failure(sell) == Some(e),
            },
    {
        let pair = match MatchedPair::new(sell, args) {
            Ok(pair) => pair,
            Err(e) => {
                return Err(ClientError::Match(e));
            },
        };
        proof {
            let schema = schema_named(sell.metadata.schema@).unwrap();
            let (salt, now) = choose|salt: u64, now: u64| #[trigger]
                is_buy_order(pair.buy, sell, args, schema, salt, now);
            lemma_purchase_len(pair.buy, pair.sell, sell, args, schema, salt, now);
        }
        self.atomic_match(pair.buy, pair.sell)
    }

    /// The calls that buy the `n` cheapest eligible listings among
    /// `listings` for the intent `args`, cheapest first.
    ///
    /// Fails where one of these listings cannot be bought, with the reason
    /// of the first that cannot.
    pub fn buy(&self, args: BuyArgs, n: usize, listings: Vec<Order>) -> (r: Result<
        Vec<ContractCall>,
        ClientError,
    >)
        ensures
            match r {
                Ok(calls) => first_failure(cheapest(listings@, n as nat)) is None
                    && are_purchases(calls@, self.exchange, cheapest(listings@, n as nat), args),
                Err(e) => first_failure(cheapest(listings@, n as nat)) == Some(e),
            },
    {
        let ghost all = cheapest(listings@, n as nat);
        let sells = get_n_cheapest_orders(listings, n);
        let mut calls: Vec<ContractCall> = Vec::new();
        for sell in it: sells
            invariant
                it.seq() == all,
                all == cheapest(listings@, n as nat),
                are_purchases(calls@, self.exchange, all.take(it.index() as int), args),
        {
            let ghost k = it.index() as int;
            match self.purchase(sell, args) {
                Ok(call) => {
                    calls.push(call);
                },
                Err(e) => {
                    proof {
                        assert forall|i: int| 0 <= i < k implies purchase_failure(
                            #[trigger] all[i],
                        ) is None by {
                            assert(all.take(k)[i] == all[i]);
                        }
                        lemma_first_failure_at(all, k);
                    }
                    return Err(e);
                },
            }
        }
        proof {
            assert(all.take(all.len() as int) =~= all);
            lemma_no_failure(all);
        }
        Ok(calls)
    }

    /// The call that buys the cheapest eligible listing among `listings`
    /// for the intent `args`.
    ///
    /// Fails with [`OpenSeaApiError::OrderNotFound`] where no listing is
    /// eligible, and else where the cheapest cannot be bought.
    pub fn buy_one(&self, args: BuyArgs, listings: Vec<Order>) -> (r: Result<
        ContractCall,
        ClientError,
    >)
        ensures
            match r {
                Ok(call) => cheapest(listings@, 1).len() == 1 && purchase_failure(
                    cheapest(listings@, 1)[0],
                ) is None && is_purchase_call(call, self.exchange, cheapest(listings@, 1)[0], args),
                Err(ClientError::OpenSeaApiError(OpenSeaApiError::OrderNotFound { contract, id })) =>
                    cheapest(listings@, 1).len() == 0 && contract == args.token && id@
                        == dec_digits(args.token_id@),
                Err(e) => cheapest(listings@, 1).len() == 1 && purchase_failure(
                    cheapest(listings@, 1)[0],
                ) == Some(e),
            },
    {
        let mut sells = get_n_cheapest_orders(listings, 1);
        proof {
            crate::selection::lemma_cheapest_excludes_dust(listings@, 1);
        }
        if sells.len() == 0 {
            return Err(
                ClientError::OpenSeaApiError(
                    OpenSeaApiError::OrderNotFound {
                        contract: args.token,
                        id: args.token_id.to_dec_string(),
                    },
                ),
            );
        }
        let sell = sells.swap_remove(0);
        self.purchase(sell, args)
    }
}

/// Whether `calls` buy the listings `sells`, one call for each listing and
/// in their order, and each of the listings can be bought.
pub open spec fn are_purchases(
    calls: Seq<ContractCall>,
    exchange: Address,
    sells: Seq<Order>,
    args: BuyArgs,
) -> bool {
    &&& calls.len() == sells.len()
    &&& forall|i: int|
        0 <= i < calls.len() ==> is_purchase_call(#[trigger] calls[i], exchange, sells[i], args)
    &&& forall|i: int| 0 <= i < sells.len() ==> purchase_failure(#[trigger] sells[i]) is None
}

/// The reason for which the first of `sells` that cannot be bought cannot
/// be, or `None` where all can.
pub open spec fn first_failure(sells: Seq<Order>) -> Option<ClientError>
    decreases sells.len(),
{
    if sells.len() == 0 {
        None
    } else {
        match first_failure(sells.drop_last()) {
            Some(e) => Some(e),
            None => purchase_failure(sells.last()),
        }
    }
}

/// Where the first `k` listings can all be bought, there is no failure
/// among them.
proof fn lemma_first_failure_prefix(sells: Seq<Order>, k: int)
    requires
        0 <= k <= sells.len(),
        forall|i: int| 0 <= i < k ==> purchase_failure(#[trigger] sells[i]) is None,
    ensures
        first_failure(sells.take(k)) is None,
    decreases k,
{
    if k > 0 {
        lemma_first_failure_prefix(sells, k - 1);
        assert(sells.take(k).drop_last() =~= sells.take(k - 1));
    }
}

/// A failure among the first listings stays the first failure however many
/// listings follow.
proof fn lemma_first_failure_extends(sells: Seq<Order>, k: int, n: int)
    requires
        0 < k <= n <= sells.len(),
        first_failure(sells.take(k)) is Some,
    ensures
        first_failure(sells.take(n)) == first_failure(sells.take(k)),
    decreases n - k,
{
    if k < n {
        lemma_first_failure_extends(sells, k, n - 1);
        assert(sells.take(n).drop_last() =~= sells.take(n - 1));
    }
}

/// Where the listings before the `k`-th can be bought and the `k`-th
/// cannot, its failure is the first.
proof fn lemma_first_failure_at(sells: Seq<Order>, k: int)
    requires
        0 <= k < sells.len(),
        forall|i: int| 0 <= i < k ==> purchase_failure(#[trigger] sells[i]) is None,
        purchase_failure(sells[k]) is Some,
    ensures
        first_failure(sells) == purchase_failure(sells[k]),
{
    lemma_first_failure_prefix(sells, k);
    assert(sells.take(k + 1).drop_last() =~= sells.take(k));
    lemma_first_failure_extends(sells, k + 1, sells.len() as int);
    assert(sells.take(sells.len() as int) =~= sells);
}

/// Where every listing can be bought, there is no first failure.
proof fn lemma_no_failure(sells: Seq<Order>)
    requires
        forall|i: int| 0 <= i < sells.len() ==> purchase_failure(#[trigger] sells[i]) is None,
    ensures
        first_failure(sells) is None,
{
    lemma_first_failure_prefix(sells, sells.len() as int);
    assert(sells.take(sells.len() as int) =~= sells);
}

/// One entry of a batch: what is wanted of one token, and the listings that
/// the order book returned for it.
#[derive(Clone, Debug, PartialEq, Eq)]
pub struct Wanted {
    /// The intent, with the token it is about.
    pub args: BuyArgs,
    /// How many listings of the token to buy.
    pub quantity: usize,
    /// The listings of the token.
    pub listings: Vec<Order>,
}

/// The listings bought for one entry, each with the entry's intent.
pub open spec fn purchases_of(item: Wanted) -> Seq<(Order, BuyArgs)> {
    cheapest(item.listings@, item.quantity as nat).map_values(|o: Order| (o, item.args))
}

/// The listings bought for a batch, entry by entry, each with its intent.
pub open spec fn all_purchases(items: Seq<Wanted>) -> Seq<(Order, BuyArgs)>
    decreases items.len(),
{
    if items.len() == 0 {
        Seq::empty()
    } else {
        all_purchases(items.drop_last()) + purchases_of(items.last())
    }
}

/// The reason for which the first listing of the batch that cannot be
/// bought cannot be, or `None` where all can.
pub open spec fn batch_failure(items: Seq<Wanted>) -> Option<ClientError>
    decreases items.len(),
{
    if items.len() == 0 {
        None
    } else {
        match batch_failure(items.drop_last()) {
            Some(e) => Some(e),
            None => first_failure(cheapest(items.last().listings@, items.last().quantity as nat)),
        }
    }
}

/// Whether `calls` buy the listings of `purchases`, each for its intent,
/// one call for each listing and in their order.
pub open spec fn are_purchases_of(
    calls: Seq<ContractCall>,
    exchange: Address,
    purchases: Seq<(Order, BuyArgs)>,
) -> bool {
    &&& calls.len() == purchases.len()
    &&& forall|k: int|
        0 <= k < calls.len() ==> is_purchase_call(
            #[trigger] calls[k],
            exchange,
            purchases[k].0,
            purchases[k].1,
        )
}

/// A failure among the first entries of a batch stays the first failure
/// however many entries follow.
proof fn lemma_batch_failure_extends(items: Seq<Wanted>, k: int, n: int)
    requires
        0 < k <= n <= items.len(),
        batch_failure(items.take(k)) is Some,
    ensures
        batch_failure(items.take(n)) == batch_failure(items.take(k)),
    decreases n - k,
{
    if k < n {
        lemma_batch_failure_extends(items, k, n - 1);
        assert(items.take(n).drop_last() =~= items.take(n - 1));
    }
}

/// The transactions of one batch and what is to be known of them.
#[derive(Clone, Debug, PartialEq, Eq)]
pub struct Batch {
    /// The transactions, in the order of the entries.
    pub txs: Vec<Eip1559TransactionRequest>,
    /// The first nonce after the batch.
    pub next_nonce: U256,
    /// For each transaction, the token that it buys.
    pub served: Vec<U256>,
    /// The tokens that were asked for and have no eligible listing. They
    /// add nothing to the batch.
    pub not_found: Vec<U256>,
}

/// The tokens that the transactions of a batch buy, one for each
/// transaction.
pub open spec fn served_tokens(items: Seq<Wanted>) -> Seq<U256> {
    all_purchases(items).map_values(|p: (Order, BuyArgs)| p.1.token_id)
}

/// Whether an entry asks for a token that has no eligible listing.
pub open spec fn is_not_found(item: Wanted) -> bool {
    item.quantity > 0 && cheapest(item.listings@, item.quantity as nat).len() == 0
}

/// The tokens of the entries that ask for a token without an eligible
/// listing, in the order of the entries.
pub open spec fn not_found_tokens(items: Seq<Wanted>) -> Seq<U256>
    decreases items.len(),
{
    if items.len() == 0 {
        Seq::empty()
    } else if is_not_found(items.last()) {
        not_found_tokens(items.drop_last()).push(items.last().args.token_id)
    } else {
        not_found_tokens(items.drop_last())
    }
}

/// Whether `batch` is the batch of `items` on the exchange at `exchange`:
/// its transactions make the purchases of the entries, in order, with the
/// nonces from `start` on and the fee ceiling `max_fee`, and it names the
/// token of each transaction and the tokens that were not found.
pub open spec fn is_batch_for(
    batch: Batch,
    exchange: Address,
    items: Seq<Wanted>,
    start: nat,
    max_fee: U256,
) -> bool {
    &&& batch.next_nonce@ == start + all_purchases(items).len()
    &&& batch.served@ == served_tokens(items)
    &&& batch.not_found@ == not_found_tokens(items)
    &&& exists|calls: Seq<ContractCall>| #[trigger]
        are_purchases_of(calls, exchange, all_purchases(items)) && is_batch_of(
            batch.txs@,
            calls,
            start,
            max_fee,
        )
}

/// Builds the transactions of one batch: for every entry, the calls that
/// buy its cheapest eligible listings, as many as it asks for; then every
/// call made a transaction with the fee ceiling `max_base_fee`, no priority
/// fee, and the next unused nonce, counted up from `start_nonce`. An entry
/// without an eligible listing adds no transaction and stops nothing; its
/// token is reported as not found.
///
/// Fails where a chosen listing cannot be bought, with the reason of the
/// first that cannot, and else with [`BatchError::NonceOverflow`] exactly
/// where the nonce after the batch does not fit in 256 bits.
pub fn create_transactions(
    client: &Client,
    items: Vec<Wanted>,
    max_base_fee: U256,
    start_nonce: U256,
) -> (r: Result<Batch, ClientError>)
    ensures
        match r {
            Ok(batch) => batch_failure(items@) is None && is_batch_for(
                batch,
                client.exchange,
                items@,
                start_nonce@,
                max_base_fee,
            ),
            Err(e) => match batch_failure(items@) {
                Some(f) => e == f,
                None => e == ClientError::Batch(BatchError::NonceOverflow) && start_nonce@
                    + all_purchases(items@).len() >= pow2_256(),
            },
        },
{
    let ghost all = items@;
    let mut calls: Vec<ContractCall> = Vec::new();
    let mut served: Vec<U256> = Vec::new();
    let mut not_found: Vec<U256> = Vec::new();
    for item in it: items
        invariant
            it.seq() == all,
            all == items@,
            batch_failure(all.take(it.index() as int)) is None,
            are_purchases_of(calls@, client.exchange, all_purchases(all.take(it.index() as int))),
            served@ == served_tokens(all.take(it.index() as int)),
            not_found@ == not_found_tokens(all.take(it.index() as int)),
    {
        let ghost k = it.index() as int;
        let ghost sells = cheapest(item.listings@, item.quantity as nat);
        let ghost before = served@;
        proof {
            assert(all.take(k + 1).drop_last() =~= all.take(k));
        }
        let token_id = item.args.token_id;
        let wanted = item.quantity;
        let mut more = match client.buy(item.args, item.quantity, item.listings) {
            Ok(more) => more,
            Err(e) => {
                proof {
                    lemma_batch_failure_extends(all, k + 1, all.len() as int);
                    assert(all.take(all.len() as int) =~= all);
                }
                return Err(e);
            },
        };
        let bought = more.len();
        if bought == 0 && wanted > 0 {
            not_found.push(token_id);
        }
        let mut j: usize = 0;
        while j < bought
            invariant
                j <= bought,
                served@ == before + Seq::new(j as nat, |i: int| token_id),
            decreases bought - j,
        {
            served.push(token_id);
            j += 1;
            assert(served@ =~= before + Seq::new(j as nat, |i: int| token_id));
        }
        calls.append(&mut more);
        proof {
            assert(served_tokens(all.take(k + 1)) =~= served_tokens(all.take(k)) + Seq::new(
                sells.len(),
                |i: int| token_id,
            ));
        }
    }
    proof {
        assert(all.take(all.len() as int) =~= all);
    }
    match sequence_transactions(calls, start_nonce, max_base_fee) {
        Ok((txs, next_nonce)) => Ok(Batch { txs, next_nonce, served, not_found }),
        Err(e) => Err(ClientError::Batch(e)),
    }
}

} // verus!
