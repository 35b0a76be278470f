//! The listing model: sell orders as the marketplace publishes them, the
//! order shape that the exchange contract takes, and a buyer's intent.

use crate::address::{Address, H256};
use crate::constants;
use crate::uint::{dec_digits, u64_to_dec_string, U256};
use vstd::prelude::*;
use vstd::std_specs::convert::FromSpec;
use vstd::string::StringExecFns;

verus! {

/// The network whose marketplace is addressed.
#[derive(Clone, Copy, Debug, PartialEq, Eq)]
pub enum Network {
    Mainnet,
    Rinkeby,
}

impl Network {
    /// The base address of the marketplace, as a sequence of characters.
    pub open spec fn spec_url(&self) -> Seq<char> {
        match self {
            Network::Mainnet => constants::API_BASE_MAINNET@,
            Network::Rinkeby => constants::API_BASE_RINKEBY@,
        }
    }

    /// The base address of the marketplace on this network.
    pub fn url(&self) -> (r: &'static str)
        ensures
            r@ == self.spec_url(),
    {
        match self {
            Network::Mainnet => constants::API_BASE_MAINNET,
            Network::Rinkeby => constants::API_BASE_RINKEBY,
        }
    }

    /// The address of the order book: the base address, `/wyvern/v` and the
    /// order book's version.
    pub fn orderbook(&self) -> (r: String)
        ensures
            r@ == self.spec_url() + "/wyvern/v"@ + dec_digits(constants::ORDERBOOK_VERSION as nat),
    {
        let mut r = String::from_str(self.url());
        r.append("/wyvern/v");
        let version = u64_to_dec_string(constants::ORDERBOOK_VERSION);
        r.append(version.as_str());
        r
    }

    /// The address of the general interface: the base address, `/api/v` and
    /// the order book's version.
    pub fn api(&self) -> (r: String)
        ensures
            r@ == self.spec_url() + "/api/v"@ + dec_digits(constants::ORDERBOOK_VERSION as nat),
    {
        let mut r = String::from_str(self.url());
        r.append("/api/v");
        let version = u64_to_dec_string(constants::ORDERBOOK_VERSION);
        r.append(version.as_str());
        r
    }
}

/// The asset of a listing. The marketplace's description of it is not kept.
#[derive(Clone, Copy, Debug, PartialEq, Eq)]
pub struct Asset {}

/// The display name of a marketplace user.
#[derive(Clone, Debug, PartialEq, Eq)]
pub struct Username {
    pub username: Option<String>,
}

/// A marketplace user: who made, takes or is paid for an order.
#[derive(Clone, Debug, PartialEq, Eq)]
pub struct User {
    pub user: Option<Username>,
    pub profile_img_url: String,
    pub address: Address,
    pub config: String,
}

/// The token a listing sells.
#[derive(Clone, Copy, Debug, PartialEq, Eq)]
pub struct AssetId {
    pub id: U256,
    pub address: Address,
}

/// What the marketplace says of a listing's asset: the token, and the name
/// of the asset's schema.
#[derive(Clone, Debug, PartialEq, Eq)]
pub struct Metadata {
    pub asset: AssetId,
    pub schema: String,
}

/// The two sides of an order, by their number on the exchange.
#[derive(Clone, Copy, Debug, PartialEq, Eq)]
pub enum OrderSide {
    Buy,
    Sell,
}

impl OrderSide {
    /// The number of the side in an order: 0 to buy, 1 to sell.
    pub open spec fn spec_code(&self) -> u8 {
        match self {
            OrderSide::Buy => 0,
            OrderSide::Sell => 1,
        }
    }

    /// The number of the side in an order: 0 to buy, 1 to sell.
    pub fn code(&self) -> (r: u8)
        ensures
            r == self.spec_code(),
    {
        match self {
            OrderSide::Buy => 0,
            OrderSide::Sell => 1,
        }
    }
}

/// A sell order as the marketplace publishes it.
#[derive(Clone, Debug, PartialEq, Eq)]
pub struct Order {
    pub id: u64,
    pub asset: Asset,
    pub listing_time: u64,
    pub expiration_time: u64,
    pub order_hash: H256,
    pub v: u64,
    pub r: H256,
    pub s: H256,
    pub base_price: U256,
    pub current_price: U256,
    pub side: u8,
    pub sale_kind: u8,
    pub target: Address,
    pub how_to_call: u8,
    pub approved_on_chain: bool,
    pub cancelled: bool,
    pub finalized: bool,
    pub marked_invalid: bool,
    pub fee_recipient: User,
    pub maker: User,
    pub salt: U256,
    pub payment_token: Address,
    pub extra: U256,
    pub maker_protocol_fee: U256,
    pub maker_relayer_fee: U256,
    pub maker_referrer_fee: U256,
    pub taker_protocol_fee: U256,
    pub taker_relayer_fee: U256,
    pub calldata: Vec<u8>,
    pub replacement_pattern: Vec<u8>,
    pub static_target: Address,
    pub static_extradata: Vec<u8>,
    pub exchange: Address,
    pub taker: User,
    pub quantity: U256,
    pub metadata: Metadata,
    pub fee_method: u8,
}

/// An order in the shape that the exchange contract takes: what both sides
/// of a match are reduced to. `current_price` is not part of that shape; on
/// the buying side it is the amount sent with the call.
#[derive(Clone, Debug, PartialEq, Eq)]
pub struct MinimalOrder {
    pub exchange: Address,
    pub maker: Address,
    pub taker: Address,
    pub fee_recipient: Address,
    pub target: Address,
    pub static_target: Address,
    pub payment_token: Address,
    pub maker_relayer_fee: U256,
    pub taker_relayer_fee: U256,
    pub maker_protocol_fee: U256,
    pub taker_protocol_fee: U256,
    pub base_price: U256,
    pub current_price: U256,
    pub extra: U256,
    pub listing_time: U256,
    pub expiration_time: U256,
    pub salt: U256,
    pub fee_method: u8,
    pub side: u8,
    pub sale_kind: u8,
    pub how_to_call: u8,
    pub calldata: Vec<u8>,
    pub replacement_pattern: Vec<u8>,
    pub static_extradata: Vec<u8>,
    pub v: u8,
    pub r: H256,
    pub s: H256,
}

/// Whether `m` is the listing `order` reduced to the exchange's shape: every
/// field taken over, the two times widened, and the recovery id cut to a byte.
pub open spec fn is_reduction_of(m: MinimalOrder, order: Order) -> bool {
    &&& m.exchange == order.exchange
    &&& m.maker == order.maker.address
    &&& m.taker == order.taker.address
    &&& m.fee_recipient == order.fee_recipient.address
    &&& m.target == order.target
    &&& m.static_target == order.static_target
    &&& m.payment_token == order.payment_token
    &&& m.maker_relayer_fee == order.maker_relayer_fee
    &&& m.taker_relayer_fee == order.taker_relayer_fee
    &&& m.maker_protocol_fee == order.maker_protocol_fee
    &&& m.taker_protocol_fee == order.taker_protocol_fee
    &&& m.base_price == order.base_price
    &&& m.current_price == order.current_price
    &&& m.extra == order.extra
    &&& m.listing_time@ == order.listing_time
    &&& m.expiration_time@ == order.expiration_time
    &&& m.salt == order.salt
    &&& m.fee_method == order.fee_method
    &&& m.side == order.side
    &&& m.sale_kind == order.sale_kind
    &&& m.how_to_call == order.how_to_call
    &&& m.calldata@ == order.calldata@
    &&& m.replacement_pattern@ == order.replacement_pattern@
    &&& m.static_extradata@ == order.static_extradata@
    &&& m.v == (order.v % 256) as u8
    &&& m.r == order.r
    &&& m.s == order.s
}

impl From<Order> for MinimalOrder {
    /// Reduces a listing to the shape that the exchange contract takes.
    fn from(order: Order) -> (m: MinimalOrder) {
        MinimalOrder {
            exchange: order.exchange,
            maker: order.maker.address,
            taker: order.taker.address,
            fee_recipient: order.fee_recipient.address,
            target: order.target,
            static_target: order.static_target,
            payment_token: order.payment_token,
            maker_relayer_fee: order.maker_relayer_fee,
            taker_relayer_fee: order.taker_relayer_fee,
            maker_protocol_fee: order.maker_protocol_fee,
            taker_protocol_fee: order.taker_protocol_fee,
            base_price: order.base_price,
            current_price: order.current_price,
            extra: order.extra,
            listing_time: U256::from_u64(order.listing_time),
            expiration_time: U256::from_u64(order.expiration_time),
            salt: order.salt,
            fee_method: order.fee_method,
            side: order.side,
            sale_kind: order.sale_kind,
            how_to_call: order.how_to_call,
            calldata: order.calldata,
            replacement_pattern: order.replacement_pattern,
            static_extradata: order.static_extradata,
            v: (order.v % 256) as u8,
            r: order.r,
            s: order.s,
        }
    }
}

impl vstd::std_specs::convert::FromSpecImpl<Order> for MinimalOrder {
    open spec fn obeys_from_spec() -> bool {
        true
    }

    open spec fn from_spec(order: Order) -> MinimalOrder {
        MinimalOrder {
            exchange: order.exchange,
            maker: order.maker.address,
            taker: order.taker.address,
            fee_recipient: order.fee_recipient.address,
            target: order.target,
            static_target: order.static_target,
            payment_token: order.payment_token,
            maker_relayer_fee: order.maker_relayer_fee,
            taker_relayer_fee: order.taker_relayer_fee,
            maker_protocol_fee: order.maker_protocol_fee,
            taker_protocol_fee: order.taker_protocol_fee,
            base_price: order.base_price,
            current_price: order.current_price,
            extra: order.extra,
            listing_time: U256::spec_from_u64(order.listing_time),
            expiration_time: U256::spec_from_u64(order.expiration_time),
            salt: order.salt,
            fee_method: order.fee_method,
            side: order.side,
            sale_kind: order.sale_kind,
            how_to_call: order.how_to_call,
            calldata: order.calldata,
            replacement_pattern: order.replacement_pattern,
            static_extradata: order.static_extradata,
            v: (order.v % 256) as u8,
            r: order.r,
            s: order.s,
        }
    }
}

/// A listing reduced through [`From`] is its reduction.
pub proof fn lemma_from_is_reduction(order: Order)
    ensures
        is_reduction_of(MinimalOrder::from_spec(order), order),
{
}

/// What a buyer wants: who buys, who receives the token, which token of which
/// contract, and how the order is dated.
#[derive(Clone, Copy, Debug, PartialEq, Eq)]
pub struct BuyArgs {
    /// The account that buys and pays.
    pub taker: Address,
    /// The account that receives the token.
    pub recipient: Address,
    /// The token's contract.
    pub token: Address,
    /// The token.
    pub token_id: U256,
    /// How many units of the token are wanted, for a contract that holds
    /// several of one token. A listing is bought whole: the buy order takes
    /// the listing's quantity, whatever is asked for here.
    pub token_number: Option<U256>,
    /// The listing time of the buy order. Without one the clock is read and
    /// the order is backdated.
    pub timestamp: Option<u64>,
}

impl BuyArgs {
    /// The intent of `taker` to buy tokens of the contract `token` for
    /// itself, dated from the time of the latest block: the order is listed
    /// [`LISTING_BACKDATE_SECONDS`](constants::LISTING_BACKDATE_SECONDS)
    /// before it, and not before zero. The token is set by
    /// [`with_token_id`](BuyArgs::with_token_id).
    pub fn at_block(taker: Address, token: Address, block_timestamp: u64) -> (args: BuyArgs)
        ensures
            args.taker == taker,
            args.recipient == taker,
            args.token == token,
            args.token_id@ == 0,
            args.token_number is None,
            args.timestamp == Some(
                if block_timestamp >= constants::LISTING_BACKDATE_SECONDS {
                    (block_timestamp - constants::LISTING_BACKDATE_SECONDS) as u64
                } else {
                    0u64
                },
            ),
    {
        let timestamp = if block_timestamp >= constants::LISTING_BACKDATE_SECONDS {
            block_timestamp - constants::LISTING_BACKDATE_SECONDS
        } else {
            0
        };
        BuyArgs {
            taker,
            recipient: taker,
            token,
            token_id: U256::zero(),
            token_number: None,
            timestamp: Some(timestamp),
        }
    }

    /// The same intent for the token `token_id`.
    pub fn with_token_id(self, token_id: U256) -> (args: BuyArgs)
        ensures
            args == (BuyArgs { token_id, ..self }),
    {
        BuyArgs { token_id, ..self }
    }
}

} // verus!
