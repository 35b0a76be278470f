//! A purchase from end to end: from the base fee of the latest block, the
//! account's nonce and the listings of the wanted tokens to the transactions
//! that go out, and how.

use crate::address::Address;
use crate::batch::{is_batch_of, BatchError};
use crate::bribe::BribeError;
use crate::bundle::{is_plan_of, plan_submission, Submission};
use crate::client::{
    all_purchases, are_purchases_of, batch_failure, create_transactions, not_found_tokens,
    served_tokens, Batch, Client, ClientError, Wanted,
};
use crate::constants::BLOCKS_AHEAD;
use crate::fees::{max_base_fee, projected_fee, projection_fits};
use crate::selection::{cheapest, get_n_cheapest_orders};
use crate::transaction::{ContractCall, Eip1559TransactionRequest};
use crate::types::Order;
use crate::uint::{dec_digits, pow2_256, U256};
use vstd::prelude::*;
use vstd::string::StringExecFns;

verus! {

/// What is ready to go out.
#[derive(Clone, Debug, PartialEq, Eq)]
pub struct Purchase {
    /// The ceiling on the base fee that the transactions were built with.
    pub max_base_fee: U256,
    /// The first nonce after the purchases.
    pub next_nonce: U256,
    /// For each purchase, in order, the token that it buys.
    pub served: Vec<U256>,
    /// The tokens that were asked for and have no eligible listing.
    pub not_found: Vec<U256>,
    /// The transactions, and how they go out.
    pub submission: Submission,
}

/// What a purchase can fail with before anything goes out.
#[derive(Clone, Debug, PartialEq, Eq)]
pub enum BuyError {
    /// The base fee is too large to be projected in 256 bits.
    BaseFeeOverflow,
    /// The transactions could not be built.
    Client(ClientError),
    /// The incentive could not be spread.
    Bribe(BribeError),
}

/// Whether `r` is the outcome of a purchase of `items` on the exchange at
/// `exchange`, from the base fee `base_fee` and the nonce `start_nonce`.
/// The fee ceiling is the base fee projected over the blocks ahead; the
/// batch is built with it, counting nonces up from `start_nonce`; what is
/// decided for the batch goes out. The purchase fails where the projection
/// does not fit, else where the batch cannot be built, else where the
/// incentive cannot be spread.
pub open spec fn is_purchase_of(
    r: Result<Purchase, BuyError>,
    exchange: Address,
    items: Seq<Wanted>,
    base_fee: U256,
    start_nonce: U256,
    bribe: Option<U256>,
    receiver: Option<Address>,
    verification: Option<Vec<u8>>,
) -> bool {
    let count = all_purchases(items).len();
    if !projection_fits(base_fee@, BLOCKS_AHEAD as nat) {
        r == Err::<Purchase, BuyError>(BuyError::BaseFeeOverflow)
    } else if batch_failure(items) is Some {
        r == Err::<Purchase, BuyError>(BuyError::Client(batch_failure(items).unwrap()))
    } else if start_nonce@ + count >= pow2_256() {
        r == Err::<Purchase, BuyError>(
            BuyError::Client(ClientError::Batch(BatchError::NonceOverflow)),
        )
    } else {
        exists|calls: Seq<ContractCall>, txs: Seq<Eip1559TransactionRequest>, ceiling: U256|
            {
                &&& ceiling@ == projected_fee(base_fee@, BLOCKS_AHEAD as nat)
                &&& #[trigger] are_purchases_of(calls, exchange, all_purchases(items))
                &&& #[trigger] is_batch_of(txs, calls, start_nonce@, ceiling)
                &&& match r {
                    Ok(p) => {
                        &&& p.max_base_fee == ceiling
                        &&& p.next_nonce@ == start_nonce@ + count
                        &&& p.served@ == served_tokens(items)
                        &&& p.not_found@ == not_found_tokens(items)
                        &&& is_plan_of(
                            Ok(p.submission),
                            txs,
                            p.next_nonce,
                            ceiling,
                            bribe,
                            receiver,
                            verification,
                        )
                    },
                    Err(BuyError::Bribe(e)) => exists|next: U256|
                        next@ == start_nonce@ + count && #[trigger] is_plan_of(
                            Err(e),
                            txs,
                            next,
                            ceiling,
                            bribe,
                            receiver,
                            verification,
                        ),
                    Err(_) => false,
                }
            }
    }
}

/// Prepares the purchase of `items`: projects `base_fee`, the base fee of
/// the latest block, over the blocks ahead; builds one transaction for each
/// chosen listing, with that ceiling and the nonces from `start_nonce` on;
/// and decides how they go out. With the incentive `bribe` they make a
/// bundle, in which `receiver` is paid by one more transaction that carries
/// `verification`, or over which the incentive is spread where no receiver
/// is given. Without an incentive each goes out by itself.
pub fn buy(
    client: &Client,
    items: Vec<Wanted>,
    base_fee: U256,
    start_nonce: U256,
    bribe: Option<U256>,
    receiver: Option<Address>,
    verification: Option<Vec<u8>>,
) -> (r: Result<Purchase, BuyError>)
    ensures
        is_purchase_of(
            r,
            client.exchange,
            items@,
            base_fee,
            start_nonce,
            bribe,
            receiver,
            verification,
        ),
{
    let ceiling = match max_base_fee(base_fee) {
        Some(fee) => fee,
        None => {
            return Err(BuyError::BaseFeeOverflow);
        },
    };
    let batch = match create_transactions(client, items, ceiling, start_nonce) {
        Ok(batch) => batch,
        Err(e) => {
            return Err(BuyError::Client(e));
        },
    };
    let Batch { txs, next_nonce, served, not_found } = batch;
    let ghost built = txs@;
    let ghost calls = choose|calls: Seq<ContractCall>| #[trigger]
        are_purchases_of(calls, client.exchange, all_purchases(items@)) && is_batch_of(
            built,
            calls,
            start_nonce@,
            ceiling,
        );
    proof {
        crate::uint::lemma_u256_bounds(next_nonce);
    }
    match plan_submission(txs, next_nonce, ceiling, bribe, receiver, verification) {
        Ok(submission) => Ok(
            Purchase { max_base_fee: ceiling, next_nonce, served, not_found, submission },
        ),
        Err(e) => Err(BuyError::Bribe(e)),
    }
}

/// How many of a token's listings a price list shows.
pub const PRICES_SHOWN: usize = 10;

/// The first line of a price list.
pub const PRICES_HEADER: &'static str = "token_id,price";

/// The line of a price list for one listing of the token `id`: the token
/// and the listing's current price, in decimal, with a comma between.
pub open spec fn price_line(id: U256, order: Order) -> Seq<char> {
    dec_digits(id@) + ","@ + dec_digits(order.current_price@)
}

/// The lines of a price list for the tokens of `items`: for each token, in
/// order, a line for each of its cheapest eligible listings, cheapest first
/// and at most [`PRICES_SHOWN`].
pub open spec fn price_lines(items: Seq<Wanted>) -> Seq<Seq<char>>
    decreases items.len(),
{
    if items.len() == 0 {
        Seq::empty()
    } else {
        price_lines(items.drop_last()) + cheapest(
            items.last().listings@,
            PRICES_SHOWN as nat,
        ).map_values(|o: Order| price_line(items.last().args.token_id, o))
    }
}

/// The texts of `lines`, in order.
pub open spec fn texts(lines: Seq<String>) -> Seq<Seq<char>> {
    lines.map_values(|l: String| l@)
}

/// The price list of the tokens of `items` as comma-separated lines: the
/// header, then a line for each of the cheapest eligible listings of each
/// token. How many listings an entry asks for plays no part.
pub fn prices(items: Vec<Wanted>) -> (lines: Vec<String>)
    ensures
        texts(lines@) == seq![PRICES_HEADER@] + price_lines(items@),
{
    let ghost all = items@;
    let mut lines: Vec<String> = Vec::new();
    lines.push(String::from_str(PRICES_HEADER));
    for item in it: items
        invariant
            it.seq() == all,
            texts(lines@) == seq![PRICES_HEADER@] + price_lines(all.take(it.index() as int)),
    {
        let ghost k = it.index() as int;
        let ghost done = lines@;
        proof {
            assert(all.take(k + 1).drop_last() =~= all.take(k));
        }
        let id = item.args.token_id;
        let ghost shown = cheapest(item.listings@, PRICES_SHOWN as nat);
        let orders = get_n_cheapest_orders(item.listings, PRICES_SHOWN);
        let n = orders.len();
        let mut j: usize = 0;
        while j < n
            invariant
                j <= n,
                n == orders@.len(),
                orders@ == shown,
                texts(lines@) == texts(done) + shown.take(j as int).map_values(
                    |o: Order| price_line(id, o),
                ),
            decreases n - j,
        {
            let ghost before = lines@;
            let mut line = id.to_dec_string();
            line.append(",");
            let price = orders[j].current_price.to_dec_string();
            line.append(price.as_str());
            lines.push(line);
            j += 1;
            assert(texts(lines@) =~= texts(before).push(price_line(id, shown[j - 1])));
        }
    }
    assert(all.take(all.len() as int) =~= all);
    lines
}

} // verus!
