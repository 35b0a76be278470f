use opensea::address::{h256_from_str, Address, HexError, H256};
use opensea::constants::{opensea_address, opensea_fee_recipient};

#[test]
fn zero_address_is_twenty_zero_bytes() {
    assert_eq!(Address::zero().bytes, [0u8; 20]);
    assert!(Address::zero().is_zero());
    assert_eq!(H256::zero().bytes, [0u8; 32]);
}

#[test]
fn an_address_with_one_byte_set_is_not_zero() {
    let mut bytes = [0u8; 20];
    bytes[19] = 1;
    assert!(!Address { bytes }.is_zero());
    let mut bytes = [0u8; 20];
    bytes[0] = 0x80;
    assert!(!Address { bytes }.is_zero());
}

#[test]
fn address_is_written_in_lower_case_hexadecimal() {
    assert_eq!(
        opensea_address().to_hex_string(),
        "0x7be8076f4ea4a4ad08075c2508e481d6c946d12b"
    );
    assert_eq!(
        opensea_fee_recipient().to_hex_string(),
        "0x5b3256965e7c3cf26e11fcaf296dfc8807c01073"
    );
    assert_eq!(
        Address::zero().to_hex_string(),
        "0x0000000000000000000000000000000000000000"
    );
}

#[test]
fn known_addresses_agree_with_their_text() {
    let exchange: ethers_core::types::Address =
        "0x7be8076f4ea4a4ad08075c2508e481d6c946d12b".parse().unwrap();
    assert_eq!(opensea_address().bytes, exchange.0);
    let recipient: ethers_core::types::Address =
        "0x5b3256965e7c3cf26e11fcaf296dfc8807c01073".parse().unwrap();
    assert_eq!(opensea_fee_recipient().bytes, recipient.0);
}

#[test]
fn scalar_with_prefix_is_read() {
    let text = "0x000102030405060708090a0b0c0d0e0f101112131415161718191a1b1c1d1e1f";
    let mut expected = [0u8; 32];
    for i in 0..32 {
        expected[i] = i as u8;
    }
    assert_eq!(h256_from_str(text), Ok(H256 { bytes: expected }));
    let upper = "0xFFFFFFFFFFFFFFFFFFFFFFFFFFFFFFFFFFFFFFFFFFFFFFFFFFFFFFFFFFFFFFFFFF";
    assert_eq!(h256_from_str(&upper[..66]), Ok(H256 { bytes: [0xff; 32] }));
}

#[test]
fn scalar_without_prefix_is_absent() {
    assert_eq!(h256_from_str(""), Ok(H256::zero()));
    assert_eq!(h256_from_str("null"), Ok(H256::zero()));
    assert_eq!(h256_from_str("0"), Ok(H256::zero()));
    // sixty-four digits without the prefix are not read either
    let digits = "ffffffffffffffffffffffffffffffffffffffffffffffffffffffffffffffff";
    assert_eq!(h256_from_str(digits), Ok(H256::zero()));
    assert_eq!(h256_from_str("0X00"), Ok(H256::zero()));
}

#[test]
fn scalar_with_prefix_and_wrong_content_is_refused() {
    assert_eq!(h256_from_str("0x"), Err(HexError::Malformed));
    assert_eq!(h256_from_str("0x1234"), Err(HexError::Malformed));
    let bad = "0xzz0102030405060708090a0b0c0d0e0f101112131415161718191a1b1c1d1e1f";
    assert_eq!(h256_from_str(bad), Err(HexError::Malformed));
    let long = "0x000102030405060708090a0b0c0d0e0f101112131415161718191a1b1c1d1e1f00";
    assert_eq!(h256_from_str(long), Err(HexError::Malformed));
}
