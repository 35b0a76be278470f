//! The order matcher: from a sell listing and a buyer's intent to the
//! complementary buy order.
//!
//! The buy order repeats the listing's prices and fees, takes the buyer as
//! maker and the seller as taker, and carries the call that moves the token
//! to the recipient. In that call the sender is left as the zero address; a
//! mask of the same length marks the sender's bytes as the ones the exchange
//! fills in when it matches the two orders.

use crate::abi::{
    address_word, be_word, encode_call, encoded_len, encoding, heads, selector_of, tails,
    token_views, Token, TokenView,
};
use crate::address::{zero_bytes, Address};
use crate::constants::LISTING_BACKDATE_SECONDS;
use crate::types::{BuyArgs, MinimalOrder, Order, OrderSide};
use crate::uint::U256;
use vstd::prelude::*;
use vstd::string::StringExecFns;

verus! {

/// Canonical signature of the transfer of a unique token.
pub const TRANSFER_FROM: &'static str = "transferFrom(address,address,uint256)";

/// Canonical signature of the transfer of units of a token held in quantities.
pub const SAFE_TRANSFER_FROM: &'static str =
    "safeTransferFrom(address,address,uint256,uint256,bytes)";

/// The asset schemas that the matcher can buy.
#[derive(Clone, Copy, Debug, PartialEq, Eq)]
pub enum Schema {
    /// Unique tokens, moved by `transferFrom`.
    Erc721,
    /// Tokens held in quantities, moved by `safeTransferFrom`.
    Erc1155,
}

/// Why no buy order was derived.
#[derive(Clone, Copy, Debug, PartialEq, Eq)]
pub enum MatchError {
    /// The listing's schema is neither `ERC721` nor `ERC1155`.
    UnsupportedSchema,
}

/// The schema with the given name, if it is a supported one.
pub open spec fn schema_named(name: Seq<char>) -> Option<Schema> {
    if name == "ERC721"@ {
        Some(Schema::Erc721)
    } else if name == "ERC1155"@ {
        Some(Schema::Erc1155)
    } else {
        None
    }
}

impl Schema {
    /// Reads a schema's name as the marketplace writes it.
    pub fn parse(name: &String) -> (r: Result<Schema, MatchError>)
        ensures
            r == match schema_named(name@) {
                Some(s) => Ok::<Schema, MatchError>(s),
                None => Err(MatchError::UnsupportedSchema),
            },
    {
        if *name == String::from_str("ERC721") {
            Ok(Schema::Erc721)
        } else if *name == String::from_str("ERC1155") {
            Ok(Schema::Erc1155)
        } else {
            Err(MatchError::UnsupportedSchema)
        }
    }
}

/// The arguments of the call that moves the token: from the zero address,
/// which stands for the sender, to the recipient.
pub open spec fn transfer_arguments(
    schema: Schema,
    recipient: Seq<u8>,
    token_id: nat,
    quantity: nat,
) -> Seq<TokenView> {
    match schema {
        Schema::Erc721 => seq![
            TokenView::Address(zero_bytes(20)),
            TokenView::Address(recipient),
            TokenView::Uint(token_id),
        ],
        Schema::Erc1155 => seq![
            TokenView::Address(zero_bytes(20)),
            TokenView::Address(recipient),
            TokenView::Uint(token_id),
            TokenView::Uint(quantity),
            TokenView::Bytes(Seq::empty()),
        ],
    }
}

/// The canonical signature of the function that moves a token of `schema`.
pub open spec fn transfer_signature(schema: Schema) -> Seq<char> {
    match schema {
        Schema::Erc721 => TRANSFER_FROM@,
        Schema::Erc1155 => SAFE_TRANSFER_FROM@,
    }
}

/// The call data of the buy order: the selector of the schema's transfer
/// function, then its encoded arguments.
pub open spec fn transfer_calldata(
    schema: Schema,
    recipient: Seq<u8>,
    token_id: nat,
    quantity: nat,
) -> Seq<u8> {
    selector_of(transfer_signature(schema)) + encoding(
        transfer_arguments(schema, recipient, token_id, quantity),
    )
}

/// The replacement mask over call data of `len` bytes: the four selector
/// bytes stay, the 32 bytes of the first argument may be replaced, and all
/// later bytes stay.
pub open spec fn sender_mask(len: nat) -> Seq<u8> {
    Seq::new(
        len,
        |i: int|
            if 4 <= i < 36 {
                0xffu8
            } else {
                0u8
            },
    )
}

/// The listing time of a buy order: the one asked for, else the clock's
/// reading set back by [`LISTING_BACKDATE_SECONDS`], and not before zero.
pub open spec fn listing_time_for(timestamp: Option<u64>, now: u64) -> nat {
    match timestamp {
        Some(t) => t as nat,
        None => if now >= LISTING_BACKDATE_SECONDS {
            (now - LISTING_BACKDATE_SECONDS) as nat
        } else {
            0
        },
    }
}

/// Whether `buy` is the buy order that answers the listing `sell` for the
/// intent `args`, with the given salt and reading of the clock. Every field
/// of the buy order is determined.
pub open spec fn is_buy_order(
    buy: MinimalOrder,
    sell: Order,
    args: BuyArgs,
    schema: Schema,
    salt: u64,
    now: u64,
) -> bool {
    &&& buy.exchange == sell.exchange
    &&& buy.maker == args.taker
    &&& buy.taker == sell.maker.address
    &&& buy.fee_recipient@ == zero_bytes(20)
    &&& buy.target == args.token
    &&& buy.static_target == sell.static_target
    &&& buy.payment_token == sell.payment_token
    &&& buy.maker_relayer_fee == sell.maker_relayer_fee
    &&& buy.taker_relayer_fee == sell.taker_relayer_fee
    &&& buy.maker_protocol_fee == sell.maker_protocol_fee
    &&& buy.taker_protocol_fee == sell.taker_protocol_fee
    &&& buy.base_price == sell.base_price
    &&& buy.current_price == sell.current_price
    &&& buy.extra@ == 0
    &&& buy.listing_time@ == listing_time_for(args.timestamp, now)
    &&& buy.expiration_time@ == 0
    &&& buy.salt@ == salt
    &&& buy.fee_method == sell.fee_method
    &&& buy.side == OrderSide::Buy.spec_code()
    &&& buy.sale_kind == sell.sale_kind
    &&& buy.how_to_call == sell.how_to_call
    &&& buy.calldata@ == transfer_calldata(schema, args.recipient@, args.token_id@, sell.quantity@)
    &&& selector_of(transfer_signature(schema)).len() == 4
    &&& buy.replacement_pattern@ == sender_mask(buy.calldata@.len())
    &&& buy.static_extradata@ == sell.static_extradata@
    &&& buy.v == (sell.v % 256) as u8
    &&& buy.r == sell.r
    &&& buy.s == sell.s
}

/// A salt for a new order.
///
/// Trusted: calls `rand::random::<u64>`, re-exported by `ethers_core`. Nothing
/// is claimed of the number.
#[verifier::external_body]
pub(crate) fn random_salt() -> u64 {
    ethers_core::rand::random::<u64>()
}

/// The local clock's reading, in seconds since the epoch.
///
/// Trusted: calls `chrono::offset::Local::now` and `DateTime::timestamp`.
/// Nothing is claimed of the number.
#[verifier::external_body]
pub(crate) fn wall_clock_seconds() -> i64 {
    chrono::offset::Local::now().timestamp()
}

/// The mask over call data of `len` bytes that lets the exchange replace the
/// first argument, the sender, and nothing else.
pub fn build_sender_mask(len: usize) -> (mask: Vec<u8>)
    ensures
        mask@ == sender_mask(len as nat),
{
    let mut mask: Vec<u8> = Vec::new();
    let mut i: usize = 0;
    while i < len
        invariant
            i <= len,
            mask@ == sender_mask(i as nat),
        decreases len - i,
    {
        let b: u8 = if 4 <= i && i < 36 {
            0xff
        } else {
            0
        };
        mask.push(b);
        i += 1;
    }
    mask
}

/// The encoded arguments of a token transfer take three words for a unique
/// token and six for one held in quantities: five heads, and the length word
/// of the empty `bytes` argument.
pub proof fn lemma_transfer_arguments_len(
    schema: Schema,
    recipient: Seq<u8>,
    token_id: nat,
    quantity: nat,
)
    requires
        recipient.len() == 20,
    ensures
        encoded_len(transfer_arguments(schema, recipient, token_id, quantity)) == match schema {
            Schema::Erc721 => 96nat,
            Schema::Erc1155 => 192nat,
        },
        encoding(transfer_arguments(schema, recipient, token_id, quantity)).len() == match schema {
            Schema::Erc721 => 96nat,
            Schema::Erc1155 => 192nat,
        },
{
    reveal_with_fuel(tails, 6);
    reveal_with_fuel(heads, 6);
}

/// The selector of call data: its first four bytes.
pub open spec fn call_selector(data: Seq<u8>) -> Seq<u8> {
    data.subrange(0, 4)
}

/// The `k`-th 32-byte word after the selector of call data.
pub open spec fn call_word(data: Seq<u8>, k: int) -> Seq<u8> {
    data.subrange(4 + 32 * k, 36 + 32 * k)
}

/// The address held in a 32-byte word: its last twenty bytes.
pub open spec fn word_address(word: Seq<u8>) -> Seq<u8> {
    word.subrange(12, 32)
}

/// The buy order for a unique token carries a call of `transferFrom` from
/// the zero address to the intent's recipient for the intent's token, and a
/// mask of the same length whose first argument word is all `0xff` and whose
/// other bytes are all zero.
pub proof fn lemma_erc721_order_calls_transfer_from(
    buy: MinimalOrder,
    sell: Order,
    args: BuyArgs,
    salt: u64,
    now: u64,
)
    requires
        is_buy_order(buy, sell, args, Schema::Erc721, salt, now),
    ensures
        buy.calldata@.len() == 100,
        call_selector(buy.calldata@) == selector_of(TRANSFER_FROM@),
        call_word(buy.calldata@, 0) == address_word(zero_bytes(20)),
        word_address(call_word(buy.calldata@, 0)) == zero_bytes(20),
        call_word(buy.calldata@, 1) == address_word(args.recipient@),
        word_address(call_word(buy.calldata@, 1)) == args.recipient@,
        call_word(buy.calldata@, 2) == be_word(args.token_id@),
        buy.replacement_pattern@.len() == 100,
        call_selector(buy.replacement_pattern@) == zero_bytes(4),
        call_word(buy.replacement_pattern@, 0) == Seq::new(32, |i: int| 0xffu8),
        call_word(buy.replacement_pattern@, 1) == zero_bytes(32),
        call_word(buy.replacement_pattern@, 2) == zero_bytes(32),
{
    // three static arguments: the encoding is their three words
    reveal_with_fuel(tails, 4);
    reveal_with_fuel(heads, 4);
}

/// The buy order for a token held in quantities carries a call of
/// `safeTransferFrom` from the zero address to the intent's recipient for the
/// intent's token, in the listing's quantity and with empty data, and a mask
/// of the same length whose first argument word is all `0xff` and whose other
/// bytes are all zero.
pub proof fn lemma_erc1155_order_calls_safe_transfer_from(
    buy: MinimalOrder,
    sell: Order,
    args: BuyArgs,
    salt: u64,
    now: u64,
)
    requires
        is_buy_order(buy, sell, args, Schema::Erc1155, salt, now),
    ensures
        buy.calldata@.len() == 196,
        call_selector(buy.calldata@) == selector_of(SAFE_TRANSFER_FROM@),
        call_word(buy.calldata@, 0) == address_word(zero_bytes(20)),
        word_address(call_word(buy.calldata@, 0)) == zero_bytes(20),
        call_word(buy.calldata@, 1) == address_word(args.recipient@),
        word_address(call_word(buy.calldata@, 1)) == args.recipient@,
        call_word(buy.calldata@, 2) == be_word(args.token_id@),
        call_word(buy.calldata@, 3) == be_word(sell.quantity@),
        call_word(buy.calldata@, 4) == be_word(160),
        call_word(buy.calldata@, 5) == be_word(0),
        buy.replacement_pattern@.len() == 196,
        call_selector(buy.replacement_pattern@) == zero_bytes(4),
        call_word(buy.replacement_pattern@, 0) == Seq::new(32, |i: int| 0xffu8),
        forall|k: int|
            1 <= k < 6 ==> #[trigger] call_word(buy.replacement_pattern@, k) == zero_bytes(32),
{
    // four static arguments and an empty byte string: five heads, the last
    // of them the offset 160, and the length word of the byte string
    reveal_with_fuel(tails, 6);
    reveal_with_fuel(heads, 6);
    let mask = buy.replacement_pattern@;
    assert forall|k: int| 1 <= k < 6 implies #[trigger] call_word(mask, k) == zero_bytes(32) by {}
}

/// Matching keeps the price and clears what a buy order leaves open: the base
/// price is the listing's, and the buy order neither expires nor carries an
/// extra amount.
pub proof fn lemma_match_preserves_price(
    buy: MinimalOrder,
    sell: Order,
    args: BuyArgs,
    schema: Schema,
    salt: u64,
    now: u64,
)
    requires
        is_buy_order(buy, sell, args, schema, salt, now),
    ensures
        buy.base_price == sell.base_price,
        buy.expiration_time@ == 0,
        buy.extra@ == 0,
{
}

impl Order {
    /// The buy order that answers this listing for the intent `args`, with a
    /// fresh random salt and, where `args` names no time, dated by the clock.
    ///
    /// Fails exactly where the listing's schema is not a supported one.
    pub fn match_sell(&self, args: BuyArgs) -> (r: Result<MinimalOrder, MatchError>)
        ensures
            r is Ok <==> schema_named(self.metadata.schema@) is Some,
            r matches Err(e) ==> e == MatchError::UnsupportedSchema,
            r matches Ok(buy) ==> buy.base_price == self.base_price && buy.expiration_time@ == 0
                && buy.extra@ == 0,
            r matches Ok(buy) ==> exists|salt: u64, now: u64| #[trigger]
                is_buy_order(
                    buy,
                    *self,
                    args,
                    schema_named(self.metadata.schema@).unwrap(),
                    salt,
                    now,
                ),
    {
        let salt = random_salt();
        let now: u64 = match args.timestamp {
            Some(_) => 0,
            None => {
                let clock = wall_clock_seconds();
                if clock < 0 {
                    0
                } else {
                    clock as u64
                }
            },
        };
        self.match_sell_at(args, salt, now)
    }

    /// The buy order that answers this listing for the intent `args`, with
    /// the given salt and the given reading of the clock.
    ///
    /// Fails exactly where the listing's schema is not a supported one.
    pub fn match_sell_at(&self, args: BuyArgs, salt: u64, now: u64) -> (r: Result<
        MinimalOrder,
        MatchError,
    >)
        ensures
            r is Ok <==> schema_named(self.metadata.schema@) is Some,
            r matches Err(e) ==> e == MatchError::UnsupportedSchema,
            r matches Ok(buy) ==> buy.base_price == self.base_price && buy.expiration_time@ == 0
                && buy.extra@ == 0,
            r matches Ok(buy) ==> is_buy_order(
                buy,
                *self,
                args,
                schema_named(self.metadata.schema@).unwrap(),
                salt,
                now,
            ),
    {
        let schema = match Schema::parse(&self.metadata.schema) {
            Ok(s) => s,
            Err(e) => {
                return Err(e);
            },
        };
        let mut tokens: Vec<Token> = Vec::new();
        tokens.push(Token::Address(Address::zero()));
        tokens.push(Token::Address(args.recipient));
        tokens.push(Token::Uint(args.token_id));
        let signature = match schema {
            Schema::Erc721 => TRANSFER_FROM,
            Schema::Erc1155 => {
                tokens.push(Token::Uint(self.quantity));
                tokens.push(Token::Bytes(Vec::new()));
                SAFE_TRANSFER_FROM
            },
        };
        proof {
            assert(token_views(tokens@) =~= transfer_arguments(
                schema,
                args.recipient@,
                args.token_id@,
                self.quantity@,
            ));
            lemma_transfer_arguments_len(schema, args.recipient@, args.token_id@, self.quantity@);
        }
        let calldata = match encode_call(signature, &tokens) {
            Ok(data) => data,
            Err(_) => {
                proof {
                    assert(false);
                }
                Vec::new()
            },
        };
        let replacement_pattern = build_sender_mask(calldata.len());
        let listing_time = match args.timestamp {
            Some(t) => t,
            None => if now >= LISTING_BACKDATE_SECONDS {
                now - LISTING_BACKDATE_SECONDS
            } else {
                0
            },
        };
        Ok(
            MinimalOrder {
                exchange: self.exchange,
                maker: args.taker,
                taker: self.maker.address,
                fee_recipient: Address::zero(),
                target: args.token,
                static_target: self.static_target,
                payment_token: self.payment_token,
                maker_relayer_fee: self.maker_relayer_fee,
                taker_relayer_fee: self.taker_relayer_fee,
                maker_protocol_fee: self.maker_protocol_fee,
                taker_protocol_fee: self.taker_protocol_fee,
                base_price: self.base_price,
                current_price: self.current_price,
                extra: U256::zero(),
                listing_time: U256::from_u64(listing_time),
                expiration_time: U256::zero(),
                salt: U256::from_u64(salt),
                fee_method: self.fee_method,
                side: OrderSide::Buy.code(),
                sale_kind: self.sale_kind,
                how_to_call: self.how_to_call,
                calldata,
                replacement_pattern,
                static_extradata: self.static_extradata.clone(),
                v: (self.v % 256) as u8,
                r: self.r,
                s: self.s,
            },
        )
    }
}

} // verus!
