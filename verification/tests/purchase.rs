use opensea::address::{Address, H256};
use opensea::api::OpenSeaApiConfig;
use opensea::batch::BatchError;
use opensea::bribe::BribeError;
use opensea::bundle::Submission;
use opensea::client::{Client, ClientError, Wanted};
use opensea::constants::opensea_address;
use opensea::matching::MatchError;
use opensea::purchase::{buy, prices, BuyError};
use opensea::types::{Asset, AssetId, BuyArgs, Metadata, Order, User};
use opensea::uint::U256;

const DUST: u64 = 10_000_000_000_000_000;

fn address(fill: u8) -> Address {
    Address { bytes: [fill; 20] }
}

fn user(fill: u8) -> User {
    User { user: None, profile_img_url: String::new(), address: address(fill), config: String::new() }
}

fn listing(id: u64, price: u64, schema: &str) -> Order {
    Order {
        id,
        asset: Asset {},
        listing_time: 1_630_000_000,
        expiration_time: 0,
        order_hash: H256::zero(),
        v: 28,
        r: H256 { bytes: [0x0b; 32] },
        s: H256 { bytes: [0x0c; 32] },
        base_price: U256::from_u64(DUST + 1),
        current_price: U256::from_u64(price),
        side: 1,
        sale_kind: 0,
        target: address(0x44),
        how_to_call: 0,
        approved_on_chain: false,
        cancelled: false,
        finalized: false,
        marked_invalid: false,
        fee_recipient: user(0x55),
        maker: user(0x66),
        salt: U256::from_u64(id),
        payment_token: Address::zero(),
        extra: U256::zero(),
        maker_protocol_fee: U256::zero(),
        maker_relayer_fee: U256::from_u64(600),
        maker_referrer_fee: U256::zero(),
        taker_protocol_fee: U256::zero(),
        taker_relayer_fee: U256::zero(),
        calldata: vec![],
        replacement_pattern: vec![],
        static_target: Address::zero(),
        static_extradata: vec![],
        exchange: opensea_address(),
        taker: user(0),
        quantity: U256::from_u64(1),
        metadata: Metadata {
            asset: AssetId { id: U256::from_u64(42), address: address(0x44) },
            schema: schema.to_string(),
        },
        fee_method: 1,
    }
}

fn wanted(token_id: u64, quantity: usize, listings: Vec<Order>) -> Wanted {
    let args = BuyArgs::at_block(address(0xaa), address(0x44), 1_630_000_600)
        .with_token_id(U256::from_u64(token_id));
    Wanted { args, quantity, listings }
}

fn three_tokens() -> Vec<Wanted> {
    vec![
        wanted(1, 1, vec![listing(1, 100, "ERC721")]),
        wanted(2, 1, vec![listing(2, 200, "ERC721")]),
        wanted(3, 1, vec![listing(3, 300, "ERC721")]),
    ]
}

fn client() -> Client {
    Client::new(OpenSeaApiConfig::default())
}

#[test]
fn bundle_of_three_purchases_shares_a_bribe_of_a_hundred() {
    let p = buy(
        &client(),
        three_tokens(),
        U256::from_u64(1000),
        U256::from_u64(7),
        Some(U256::from_u64(100)),
        None,
        None,
    )
    .unwrap();
    assert_eq!(p.max_base_fee, U256::from_u64(1800));
    assert_eq!(p.next_nonce, U256::from_u64(10));
    assert_eq!(p.served, vec![U256::from_u64(1), U256::from_u64(2), U256::from_u64(3)]);
    assert!(p.not_found.is_empty());
    let txs = match p.submission {
        Submission::Bundle(txs) => txs,
        Submission::Direct(_) => panic!("not a bundle"),
    };
    assert_eq!(txs.len(), 3);
    for (i, tx) in txs.iter().enumerate() {
        assert_eq!(tx.nonce, Some(U256::from_u64(7 + i as u64)));
        assert_eq!(tx.max_priority_fee_per_gas, Some(U256::from_u64(33)));
        assert_eq!(tx.max_fee_per_gas, Some(U256::from_u64(1833)));
        assert_eq!(tx.value, Some(U256::from_u64(100 * (i as u64 + 1))));
        assert_eq!(tx.gas, Some(U256::from_u64(300_000)));
    }
}

#[test]
fn bundle_with_receiver_ends_with_the_payment() {
    let p = buy(
        &client(),
        three_tokens(),
        U256::from_u64(1000),
        U256::from_u64(7),
        Some(U256::from_u64(100)),
        Some(address(0xbe)),
        Some(vec![1, 2, 3]),
    )
    .unwrap();
    let txs = match p.submission {
        Submission::Bundle(txs) => txs,
        Submission::Direct(_) => panic!("not a bundle"),
    };
    assert_eq!(txs.len(), 4);
    for tx in &txs[..3] {
        assert_eq!(tx.max_priority_fee_per_gas, None);
        assert_eq!(tx.max_fee_per_gas, Some(U256::from_u64(1800)));
        assert_eq!(tx.to, Some(opensea_address()));
    }
    assert_eq!(txs[3].to, Some(address(0xbe)));
    assert_eq!(txs[3].value, Some(U256::from_u64(100)));
    assert_eq!(txs[3].nonce, Some(U256::from_u64(10)));
    assert_eq!(txs[3].max_fee_per_gas, Some(U256::from_u64(1800)));
    assert_eq!(txs[3].gas, Some(U256::from_u64(200_000)));
    assert_eq!(txs[3].data, Some(vec![1, 2, 3]));
    assert_eq!(p.next_nonce, U256::from_u64(10));
}

#[test]
fn purchase_without_incentive_goes_out_directly() {
    let p = buy(
        &client(),
        three_tokens(),
        U256::from_u64(1000),
        U256::from_u64(7),
        None,
        None,
        None,
    )
    .unwrap();
    let txs = match p.submission {
        Submission::Direct(txs) => txs,
        Submission::Bundle(_) => panic!("not sent directly"),
    };
    assert_eq!(txs.len(), 3);
    for (i, tx) in txs.iter().enumerate() {
        assert_eq!(tx.nonce, Some(U256::from_u64(7 + i as u64)));
        assert_eq!(tx.gas_price, Some(U256::from_u64(1800)));
        assert_eq!(tx.to, Some(opensea_address()));
    }
}

#[test]
fn purchase_fails_with_the_first_fault() {
    let huge = U256 { limbs: [u64::MAX; 4] };
    let bad = vec![wanted(1, 1, vec![listing(1, 100, "PUNKS")])];
    assert_eq!(
        buy(&client(), bad.clone(), huge, huge, Some(U256::zero()), None, None),
        Err(BuyError::BaseFeeOverflow)
    );
    assert_eq!(
        buy(&client(), bad, U256::zero(), huge, Some(U256::zero()), None, None),
        Err(BuyError::Client(ClientError::Match(MatchError::UnsupportedSchema)))
    );
    assert_eq!(
        buy(&client(), three_tokens(), U256::zero(), huge, Some(U256::zero()), None, None),
        Err(BuyError::Client(ClientError::Batch(BatchError::NonceOverflow)))
    );
    assert_eq!(
        buy(&client(), vec![], U256::zero(), huge, Some(U256::from_u64(5)), None, None),
        Err(BuyError::Bribe(BribeError::EmptyBatch))
    );
    let p = buy(&client(), vec![], U256::zero(), huge, None, None, None).unwrap();
    assert_eq!(p.submission, Submission::Direct(vec![]));
    assert_eq!(p.next_nonce, huge);
}

#[test]
fn tokens_without_listing_are_reported() {
    let items = vec![
        wanted(1, 2, vec![listing(1, 100, "ERC721"), listing(2, 90, "ERC721")]),
        wanted(2, 1, vec![]),
        wanted(3, 1, vec![listing(3, 300, "ERC721")]),
        wanted(4, 3, vec![]),
    ];
    let p = buy(&client(), items, U256::zero(), U256::zero(), None, None, None).unwrap();
    assert_eq!(p.served, vec![U256::from_u64(1), U256::from_u64(1), U256::from_u64(3)]);
    assert_eq!(p.not_found, vec![U256::from_u64(2), U256::from_u64(4)]);
    assert_eq!(p.next_nonce, U256::from_u64(3));
}

#[test]
fn price_list_has_a_line_for_each_cheap_listing() {
    let items = vec![
        wanted(7, 1, vec![listing(1, 30, "ERC721"), listing(2, 10, "ERC721")]),
        wanted(8, 1, vec![]),
        wanted(9, 0, vec![listing(3, 5, "ERC1155")]),
    ];
    assert_eq!(prices(items), vec!["token_id,price", "7,10", "7,30", "9,5"]);
    assert_eq!(prices(vec![]), vec!["token_id,price"]);
}

#[test]
fn price_list_shows_ten_listings_of_a_token() {
    let mut listings = Vec::new();
    for k in 0..12u64 {
        listings.push(listing(k, 1000 - k, "ERC721"));
    }
    let lines = prices(vec![wanted(1, 1, listings)]);
    assert_eq!(lines.len(), 11);
    assert_eq!(lines[1], "1,989");
    assert_eq!(lines[10], "1,998");
}
