use opensea::address::{Address, H256};
use opensea::api::{OpenSeaApiConfig, OpenSeaApiError};
use opensea::batch::BatchError;
use opensea::client::{create_transactions, Client, ClientError, Wanted};
use opensea::constants::opensea_address;
use opensea::matching::MatchError;
use opensea::transaction::{ContractCall, Eip1559TransactionRequest, TypedTransaction};
use opensea::types::{Asset, AssetId, BuyArgs, Metadata, MinimalOrder, Network, Order, User};
use opensea::uint::U256;

const DUST: u64 = 10_000_000_000_000_000;

fn address(fill: u8) -> Address {
    Address { bytes: [fill; 20] }
}

fn user(fill: u8) -> User {
    User { user: None, profile_img_url: String::new(), address: address(fill), config: String::new() }
}

fn listing(id: u64, price: u64, schema: &str) -> Order {
    Order {
        id,
        asset: Asset {},
        listing_time: 1_630_000_000,
        expiration_time: 0,
        order_hash: H256::zero(),
        v: 28,
        r: H256 { bytes: [0x0b; 32] },
        s: H256 { bytes: [0x0c; 32] },
        base_price: U256::from_u64(price),
        current_price: U256::from_u64(price),
        side: 1,
        sale_kind: 0,
        target: address(0x44),
        how_to_call: 0,
        approved_on_chain: false,
        cancelled: false,
        finalized: false,
        marked_invalid: false,
        fee_recipient: user(0x55),
        maker: user(0x66),
        salt: U256::from_u64(id),
        payment_token: Address::zero(),
        extra: U256::zero(),
        maker_protocol_fee: U256::zero(),
        maker_relayer_fee: U256::from_u64(600),
        maker_referrer_fee: U256::zero(),
        taker_protocol_fee: U256::zero(),
        taker_relayer_fee: U256::zero(),
        calldata: vec![0x23, 0xb8, 0x72, 0xdd],
        replacement_pattern: vec![0, 0, 0, 0],
        static_target: Address::zero(),
        static_extradata: vec![],
        exchange: opensea_address(),
        taker: user(0),
        quantity: U256::from_u64(1),
        metadata: Metadata {
            asset: AssetId { id: U256::from_u64(42), address: address(0x44) },
            schema: schema.to_string(),
        },
        fee_method: 1,
    }
}

fn intent(token_id: u64) -> BuyArgs {
    BuyArgs {
        taker: address(0xaa),
        recipient: address(0xbb),
        token: address(0x44),
        token_id: U256::from_u64(token_id),
        token_number: None,
        timestamp: Some(1_630_000_500),
    }
}

fn client() -> Client {
    Client::new(OpenSeaApiConfig::default())
}

fn inner(call: &ContractCall) -> Eip1559TransactionRequest {
    match &call.tx {
        TypedTransaction::Eip1559(tx) => tx.clone(),
        _ => panic!("not a fee-market transaction"),
    }
}

fn arguments(data: &[u8]) -> Vec<ethers_core::abi::Token> {
    let abi = ethers_core::abi::parse_abi(&[
        "function atomicMatch_(address[14] addrs, uint[18] uints, uint8[8] feeMethodsSidesKindsHowToCalls, bytes calldataBuy, bytes calldataSell, bytes replacementPatternBuy, bytes replacementPatternSell, bytes staticExtradataBuy, bytes staticExtradataSell, uint8[2] vs, bytes32[5] rssMetadata) public payable",
    ])
    .unwrap();
    let function = abi.function("atomicMatch_").unwrap();
    assert_eq!(data[..4], function.short_signature());
    function.decode_input(&data[4..]).unwrap()
}

#[test]
fn client_knows_the_exchange() {
    let c = client();
    assert_eq!(c.exchange, opensea_address());
    assert_eq!(c.api.network, Network::Mainnet);
    assert_eq!(c.api.api_key, None);
}

#[test]
fn listing_of_one_unit_is_bought_for_the_recipient() {
    let sell = listing(1, 1_000_000_000_000_000_000, "ERC721");
    let calls = client().buy(intent(42), 1, vec![sell]).unwrap();
    assert_eq!(calls.len(), 1);
    let tx = inner(&calls[0]);
    assert_eq!(tx.to, Some(opensea_address()));
    assert_eq!(tx.value, Some(U256::from_u64(1_000_000_000_000_000_000)));
    assert_eq!(tx.gas, Some(U256::from_u64(300_000)));
    let args = arguments(&tx.data.unwrap());
    let addrs = args[0].clone().into_fixed_array().unwrap();
    // buy.maker is the taker, buy.taker the seller, buy.target the token's contract
    assert_eq!(addrs[1].clone().into_address().unwrap().0, [0xaa; 20]);
    assert_eq!(addrs[2].clone().into_address().unwrap().0, [0x66; 20]);
    assert_eq!(addrs[4].clone().into_address().unwrap().0, [0x44; 20]);
    // the sell side follows
    assert_eq!(addrs[8].clone().into_address().unwrap().0, [0x66; 20]);
    let uints = args[1].clone().into_fixed_array().unwrap();
    let price = ethers_core::types::U256::from(1_000_000_000_000_000_000u64);
    assert_eq!(uints[4].clone().into_uint().unwrap(), price);
    assert_eq!(uints[13].clone().into_uint().unwrap(), price);
    assert_eq!(uints[5].clone().into_uint().unwrap(), ethers_core::types::U256::zero());
    assert_eq!(uints[7].clone().into_uint().unwrap(), ethers_core::types::U256::zero());
    assert_eq!(uints[6].clone().into_uint().unwrap(), ethers_core::types::U256::from(1_630_000_500u64));
    let calldata_buy = args[3].clone().into_bytes().unwrap();
    let expected = [
        "23b872dd",
        "0000000000000000000000000000000000000000000000000000000000000000",
        "000000000000000000000000bbbbbbbbbbbbbbbbbbbbbbbbbbbbbbbbbbbbbbbb",
        "000000000000000000000000000000000000000000000000000000000000002a",
    ]
    .concat();
    assert_eq!(calldata_buy, hex::decode(expected).unwrap());
    let vs = args[9].clone().into_fixed_array().unwrap();
    assert_eq!(vs[0].clone().into_uint().unwrap(), ethers_core::types::U256::zero());
    assert_eq!(vs[1].clone().into_uint().unwrap(), ethers_core::types::U256::from(28u64));
    let rss = args[10].clone().into_fixed_array().unwrap();
    assert_eq!(rss[0].clone().into_fixed_bytes().unwrap(), vec![0u8; 32]);
    assert_eq!(rss[2].clone().into_fixed_bytes().unwrap(), vec![0x0b; 32]);
    assert_eq!(rss[3].clone().into_fixed_bytes().unwrap(), vec![0x0c; 32]);
}

#[test]
fn cheapest_listings_are_bought_cheapest_first() {
    let listings = vec![
        listing(1, DUST + 30, "ERC721"),
        listing(2, DUST, "ERC721"),
        listing(3, DUST + 10, "ERC721"),
        listing(4, DUST + 20, "ERC721"),
    ];
    let calls = client().buy(intent(42), 2, listings).unwrap();
    let values: Vec<Option<U256>> = calls.iter().map(|c| inner(c).value).collect();
    assert_eq!(values, vec![Some(U256::from_u64(DUST + 10)), Some(U256::from_u64(DUST + 20))]);
}

#[test]
fn nothing_eligible_gives_no_call() {
    let calls = client().buy(intent(42), 3, vec![listing(1, DUST, "ERC721")]).unwrap();
    assert!(calls.is_empty());
    assert_eq!(client().buy(intent(42), 3, vec![]), Ok(vec![]));
}

#[test]
fn listing_of_another_schema_stops_the_purchase() {
    let listings = vec![listing(1, DUST + 1, "ERC721"), listing(2, DUST + 2, "ERC20")];
    assert_eq!(
        client().buy(intent(42), 2, listings.clone()),
        Err(ClientError::Match(MatchError::UnsupportedSchema))
    );
    // a listing that is not chosen does not matter
    assert_eq!(client().buy(intent(42), 1, listings).unwrap().len(), 1);
    assert_eq!(
        client().purchase(listing(2, DUST + 2, "ERC20"), intent(42)),
        Err(ClientError::Match(MatchError::UnsupportedSchema))
    );
}

#[test]
fn one_purchase_takes_the_cheapest() {
    let listings = vec![listing(1, DUST + 30, "ERC1155"), listing(2, DUST + 10, "ERC1155")];
    let call = client().buy_one(intent(7), listings).unwrap();
    let tx = inner(&call);
    assert_eq!(tx.value, Some(U256::from_u64(DUST + 10)));
    let args = arguments(&tx.data.unwrap());
    let calldata_buy = args[3].clone().into_bytes().unwrap();
    assert_eq!(calldata_buy[..4].to_vec(), vec![0xf2, 0x42, 0x43, 0x2a]);
    assert_eq!(calldata_buy.len(), 196);
    assert_eq!(calldata_buy[99], 7);
}

#[test]
fn one_purchase_without_listing_names_the_token() {
    let expected = Err(ClientError::OpenSeaApiError(OpenSeaApiError::OrderNotFound {
        contract: address(0x44),
        id: "1126".to_string(),
    }));
    assert_eq!(client().buy_one(intent(1126), vec![]), expected);
    assert_eq!(client().buy_one(intent(1126), vec![listing(1, DUST, "ERC721")]), expected);
}

#[test]
fn matched_orders_become_one_call() {
    let sell = listing(1, DUST + 5, "ERC721");
    let buy = sell.match_sell_at(intent(42), 9, 0).unwrap();
    let call = client().atomic_match(buy.clone(), MinimalOrder::from(sell)).unwrap();
    let tx = inner(&call);
    assert_eq!(tx.to, Some(opensea_address()));
    assert_eq!(tx.value, Some(buy.current_price));
    let args = arguments(&tx.data.unwrap());
    let uints = args[1].clone().into_fixed_array().unwrap();
    assert_eq!(uints[8].clone().into_uint().unwrap(), ethers_core::types::U256::from(9u64));
    assert_eq!(uints[17].clone().into_uint().unwrap(), ethers_core::types::U256::from(1u64));
}

fn wanted(token_id: u64, quantity: usize, listings: Vec<Order>) -> Wanted {
    Wanted { args: intent(token_id), quantity, listings }
}

#[test]
fn batch_of_three_tokens_counts_up_from_nonce_seven() {
    let items = vec![
        wanted(1, 1, vec![listing(1, DUST + 100, "ERC721")]),
        wanted(2, 1, vec![listing(2, DUST + 200, "ERC721")]),
        wanted(3, 1, vec![listing(3, DUST + 300, "ERC721")]),
    ];
    let batch =
        create_transactions(&client(), items, U256::from_u64(177), U256::from_u64(7)).unwrap();
    let (txs, next) = (batch.txs, batch.next_nonce);
    assert_eq!(batch.served, vec![U256::from_u64(1), U256::from_u64(2), U256::from_u64(3)]);
    assert_eq!(batch.not_found, Vec::<U256>::new());
    let nonces: Vec<Option<U256>> = txs.iter().map(|tx| tx.nonce).collect();
    assert_eq!(
        nonces,
        vec![Some(U256::from_u64(7)), Some(U256::from_u64(8)), Some(U256::from_u64(9))]
    );
    assert_eq!(next, U256::from_u64(10));
    for (i, tx) in txs.iter().enumerate() {
        assert_eq!(tx.max_fee_per_gas, Some(U256::from_u64(177)));
        assert_eq!(tx.max_priority_fee_per_gas, None);
        assert_eq!(tx.value, Some(U256::from_u64(DUST + 100 * (i as u64 + 1))));
        assert_eq!(tx.to, Some(opensea_address()));
        // each call carries its own token
        let args = arguments(tx.data.as_ref().unwrap());
        let calldata_buy = args[3].clone().into_bytes().unwrap();
        assert_eq!(calldata_buy[99], i as u8 + 1);
    }
}

#[test]
fn token_without_listing_is_skipped() {
    let items = vec![
        wanted(1, 1, vec![listing(1, DUST + 100, "ERC721")]),
        wanted(2, 1, vec![listing(2, DUST, "ERC721")]),
        wanted(3, 2, vec![listing(3, DUST + 300, "ERC721"), listing(4, DUST + 250, "ERC721")]),
        wanted(4, 0, vec![listing(5, DUST + 300, "ERC721")]),
    ];
    let batch =
        create_transactions(&client(), items, U256::from_u64(1), U256::from_u64(20)).unwrap();
    let (txs, next) = (batch.txs, batch.next_nonce);
    // one transaction for the first token, none for the second, two for the third
    assert_eq!(batch.served, vec![U256::from_u64(1), U256::from_u64(3), U256::from_u64(3)]);
    // the second token has only dust; of the fourth nothing was asked
    assert_eq!(batch.not_found, vec![U256::from_u64(2)]);
    let values: Vec<Option<U256>> = txs.iter().map(|tx| tx.value).collect();
    assert_eq!(
        values,
        vec![
            Some(U256::from_u64(DUST + 100)),
            Some(U256::from_u64(DUST + 250)),
            Some(U256::from_u64(DUST + 300))
        ]
    );
    let nonces: Vec<Option<U256>> = txs.iter().map(|tx| tx.nonce).collect();
    assert_eq!(
        nonces,
        vec![Some(U256::from_u64(20)), Some(U256::from_u64(21)), Some(U256::from_u64(22))]
    );
    assert_eq!(next, U256::from_u64(23));
}

#[test]
fn empty_batch_builds_nothing() {
    let batch =
        create_transactions(&client(), vec![], U256::from_u64(1), U256::from_u64(20)).unwrap();
    assert!(batch.txs.is_empty());
    assert!(batch.served.is_empty());
    assert!(batch.not_found.is_empty());
    assert_eq!(batch.next_nonce, U256::from_u64(20));
}

#[test]
fn batch_stops_at_a_listing_that_cannot_be_bought() {
    let items = vec![
        wanted(1, 1, vec![listing(1, DUST + 100, "ERC721")]),
        wanted(2, 1, vec![listing(2, DUST + 100, "ENS")]),
    ];
    assert_eq!(
        create_transactions(&client(), items, U256::from_u64(1), U256::from_u64(20)),
        Err(ClientError::Match(MatchError::UnsupportedSchema))
    );
}

#[test]
fn batch_stops_where_the_nonces_run_out() {
    let items = vec![wanted(1, 1, vec![listing(1, DUST + 100, "ERC721")])];
    let last = U256 { limbs: [u64::MAX; 4] };
    assert_eq!(
        create_transactions(&client(), items, U256::from_u64(1), last),
        Err(ClientError::Batch(BatchError::NonceOverflow))
    );
}
