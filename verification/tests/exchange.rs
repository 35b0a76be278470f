use opensea::address::{Address, H256};
use opensea::exchange::{atomic_match_call, AtomicMatch, MatchedPair};
use opensea::matching::MatchError;
use opensea::transaction::TypedTransaction;
use opensea::types::{Asset, AssetId, BuyArgs, Metadata, MinimalOrder, Order, User};
use opensea::uint::U256;

fn address(fill: u8) -> Address {
    Address { bytes: [fill; 20] }
}

fn order(seed: u8) -> MinimalOrder {
    let n = seed as u64;
    MinimalOrder {
        exchange: address(seed),
        maker: address(seed + 1),
        taker: address(seed + 2),
        fee_recipient: address(seed + 3),
        target: address(seed + 4),
        static_target: address(seed + 5),
        payment_token: address(seed + 6),
        maker_relayer_fee: U256::from_u64(n + 10),
        taker_relayer_fee: U256::from_u64(n + 11),
        maker_protocol_fee: U256::from_u64(n + 12),
        taker_protocol_fee: U256::from_u64(n + 13),
        base_price: U256::from_u64(n + 14),
        current_price: U256::from_u64(n + 1000),
        extra: U256::from_u64(n + 15),
        listing_time: U256::from_u64(n + 16),
        expiration_time: U256::from_u64(n + 17),
        salt: U256::from_u64(n + 18),
        fee_method: seed + 20,
        side: seed + 21,
        sale_kind: seed + 22,
        how_to_call: seed + 23,
        calldata: vec![seed; 5],
        replacement_pattern: vec![seed + 1; 33],
        static_extradata: vec![],
        v: seed + 27,
        r: H256 { bytes: [seed + 30; 32] },
        s: H256 { bytes: [seed + 31; 32] },
    }
}

#[test]
fn parameters_follow_the_fixed_layout() {
    let buy = order(0x10);
    let sell = order(0x50);
    let p = AtomicMatch::new(&buy, &sell);
    let mut addrs = Vec::new();
    for k in 0..7 {
        addrs.push(address(0x10 + k));
    }
    for k in 0..7 {
        addrs.push(address(0x50 + k));
    }
    assert_eq!(p.addrs.to_vec(), addrs);
    let mut uints = Vec::new();
    for k in 10..19 {
        uints.push(U256::from_u64(0x10 + k));
    }
    for k in 10..19 {
        uints.push(U256::from_u64(0x50 + k));
    }
    assert_eq!(p.uints.to_vec(), uints);
    let methods: Vec<U256> = [0x24u64, 0x25, 0x26, 0x27, 0x64, 0x65, 0x66, 0x67]
        .iter()
        .map(|m| U256::from_u64(*m))
        .collect();
    assert_eq!(p.methods.to_vec(), methods);
    assert_eq!(p.calldata_buy, vec![0x10; 5]);
    assert_eq!(p.calldata_sell, vec![0x50; 5]);
    assert_eq!(p.replacement_pattern_buy, vec![0x11; 33]);
    assert_eq!(p.replacement_pattern_sell, vec![0x51; 33]);
    assert_eq!(p.static_extradata_buy, Vec::<u8>::new());
    assert_eq!(p.static_extradata_sell, Vec::<u8>::new());
    assert_eq!(p.vs, [0, 0x50 + 27]);
    assert_eq!(
        p.rss_metadata,
        [
            H256::zero(),
            H256::zero(),
            H256 { bytes: [0x50 + 30; 32] },
            H256 { bytes: [0x50 + 31; 32] },
            H256::zero(),
        ]
    );
}

#[test]
fn tokens_lay_the_arrays_out_one_by_one() {
    let p = AtomicMatch::new(&order(1), &order(2));
    assert_eq!(p.tokens().len(), 14 + 18 + 8 + 6 + 2 + 5);
}

#[test]
fn call_sends_the_price_with_fixed_gas() {
    let buy = order(0x10);
    let sell = order(0x50);
    let call = atomic_match_call(address(0xee), &buy, &sell).unwrap();
    match call.tx {
        TypedTransaction::Eip1559(tx) => {
            assert_eq!(tx.to, Some(address(0xee)));
            assert_eq!(tx.value, Some(U256::from_u64(0x10 + 1000)));
            assert_eq!(tx.gas, Some(U256::from_u64(300_000)));
            assert_eq!(tx.nonce, None);
            assert_eq!(tx.max_fee_per_gas, None);
            assert_eq!(tx.max_priority_fee_per_gas, None);
            assert_eq!(tx.data.unwrap()[..4].to_vec(), vec![0xab, 0x83, 0x4b, 0xab]);
        }
        _ => panic!("not a fee-market transaction"),
    }
}

fn their_address(a: Address) -> ethers_core::abi::Token {
    ethers_core::abi::Token::Address(ethers_core::types::H160(a.bytes))
}

fn their_uint(u: U256) -> ethers_core::abi::Token {
    ethers_core::abi::Token::Uint(ethers_core::types::U256(u.limbs))
}

#[test]
fn call_data_is_the_encoding_of_the_nested_arrays() {
    let buy = order(0x10);
    let sell = order(0x50);
    let p = AtomicMatch::new(&buy, &sell);
    let nested = vec![
        ethers_core::abi::Token::FixedArray(p.addrs.iter().map(|a| their_address(*a)).collect()),
        ethers_core::abi::Token::FixedArray(p.uints.iter().map(|u| their_uint(*u)).collect()),
        ethers_core::abi::Token::FixedArray(p.methods.iter().map(|u| their_uint(*u)).collect()),
        ethers_core::abi::Token::Bytes(buy.calldata.clone()),
        ethers_core::abi::Token::Bytes(sell.calldata.clone()),
        ethers_core::abi::Token::Bytes(buy.replacement_pattern.clone()),
        ethers_core::abi::Token::Bytes(sell.replacement_pattern.clone()),
        ethers_core::abi::Token::Bytes(buy.static_extradata.clone()),
        ethers_core::abi::Token::Bytes(sell.static_extradata.clone()),
        ethers_core::abi::Token::FixedArray(
            p.vs.iter().map(|v| their_uint(U256::from_u64(*v as u64))).collect(),
        ),
        ethers_core::abi::Token::FixedArray(
            p.rss_metadata
                .iter()
                .map(|w| ethers_core::abi::Token::FixedBytes(w.bytes.to_vec()))
                .collect(),
        ),
    ];
    let abi = ethers_core::abi::parse_abi(&[
        "function atomicMatch_(address[14] addrs, uint[18] uints, uint8[8] feeMethodsSidesKindsHowToCalls, bytes calldataBuy, bytes calldataSell, bytes replacementPatternBuy, bytes replacementPatternSell, bytes staticExtradataBuy, bytes staticExtradataSell, uint8[2] vs, bytes32[5] rssMetadata) public payable",
    ])
    .unwrap();
    let expected = abi.function("atomicMatch_").unwrap().encode_input(&nested).unwrap();
    let call = atomic_match_call(address(0xee), &buy, &sell).unwrap();
    match call.tx {
        TypedTransaction::Eip1559(tx) => assert_eq!(tx.data.unwrap(), expected),
        _ => panic!("not a fee-market transaction"),
    }
}

#[test]
fn byte_strings_are_passed_each_by_itself() {
    let mut buy = order(0x10);
    let mut sell = order(0x50);
    buy.static_extradata = vec![0xb1; 3];
    sell.static_extradata = vec![0x51; 40];
    let call = atomic_match_call(address(0xee), &buy, &sell).unwrap();
    let data = match call.tx {
        TypedTransaction::Eip1559(tx) => tx.data.unwrap(),
        _ => panic!("not a fee-market transaction"),
    };
    // 53 head words, then the six tails
    let heads = 4 + 53 * 32;
    let tails = (32 + 32) + (32 + 32) + (32 + 64) + (32 + 64) + (32 + 32) + (32 + 64);
    assert_eq!(data.len(), heads + tails);
    // the head of the first byte string is its offset, counted from behind the selector
    let word = &data[4 + 40 * 32..4 + 41 * 32];
    assert_eq!(word[..30].to_vec(), vec![0u8; 30]);
    assert_eq!(u16::from_be_bytes([word[30], word[31]]) as usize, 53 * 32);
    // the tail holds the length and then the content
    assert_eq!(data[heads + 31], 5);
    assert_eq!(data[heads + 32..heads + 37].to_vec(), vec![0x10; 5]);
}

#[test]
fn listing_and_intent_make_a_pair() {
    let user = |fill: u8| User {
        user: None,
        profile_img_url: String::new(),
        address: address(fill),
        config: String::new(),
    };
    let listing = |schema: &str| Order {
        id: 1,
        asset: Asset {},
        listing_time: 10,
        expiration_time: 20,
        order_hash: H256::zero(),
        v: 27,
        r: H256 { bytes: [1; 32] },
        s: H256 { bytes: [2; 32] },
        base_price: U256::from_u64(500),
        current_price: U256::from_u64(400),
        side: 1,
        sale_kind: 0,
        target: address(0x44),
        how_to_call: 0,
        approved_on_chain: false,
        cancelled: false,
        finalized: false,
        marked_invalid: false,
        fee_recipient: user(0x55),
        maker: user(0x66),
        salt: U256::from_u64(9),
        payment_token: Address::zero(),
        extra: U256::from_u64(3),
        maker_protocol_fee: U256::zero(),
        maker_relayer_fee: U256::zero(),
        maker_referrer_fee: U256::zero(),
        taker_protocol_fee: U256::zero(),
        taker_relayer_fee: U256::zero(),
        calldata: vec![7],
        replacement_pattern: vec![8],
        static_target: Address::zero(),
        static_extradata: vec![],
        exchange: address(0x88),
        taker: user(0),
        quantity: U256::from_u64(1),
        metadata: Metadata {
            asset: AssetId { id: U256::from_u64(42), address: address(0x44) },
            schema: schema.to_string(),
        },
        fee_method: 1,
    };
    let args = BuyArgs {
        taker: address(0xaa),
        recipient: address(0xbb),
        token: address(0x44),
        token_id: U256::from_u64(42),
        token_number: None,
        timestamp: Some(15),
    };
    let pair = MatchedPair::new(listing("ERC721"), args).unwrap();
    assert_eq!(pair.sell, MinimalOrder::from(listing("ERC721")));
    assert_eq!(pair.sell.expiration_time, U256::from_u64(20));
    assert_eq!(pair.sell.extra, U256::from_u64(3));
    assert_eq!(pair.buy.maker, address(0xaa));
    assert_eq!(pair.buy.taker, pair.sell.maker);
    assert_eq!(pair.buy.base_price, pair.sell.base_price);
    assert_eq!(pair.buy.expiration_time, U256::zero());
    assert_eq!(pair.buy.extra, U256::zero());
    assert_eq!(pair.buy.listing_time, U256::from_u64(15));
    assert_eq!(pair.buy.side, 0);
    assert_eq!(pair.sell.side, 1);
    assert_eq!(MatchedPair::new(listing("ERC998"), args), Err(MatchError::UnsupportedSchema));
}
