//! Fixed-size byte strings: 20-byte account addresses and 32-byte words.

use vstd::prelude::*;
use vstd::string::{StrSliceExecFns, StringExecFns};

verus! {

/// `n` zero bytes.
pub open spec fn zero_bytes(n: nat) -> Seq<u8> {
    Seq::new(n, |i: int| 0u8)
}

/// A 20-byte account or contract address.
#[derive(Clone, Copy, Debug, PartialEq, Eq, Hash)]
pub struct Address {
    pub bytes: [u8; 20],
}

impl View for Address {
    type V = Seq<u8>;

    open spec fn view(&self) -> Seq<u8> {
        self.bytes@
    }
}

impl Address {
    /// The address made of twenty zero bytes.
    pub fn zero() -> (r: Address)
        ensures
            r@ == zero_bytes(20),
    {
        Address { bytes: [0u8;20] }
    }

    /// Whether every byte of the address is zero.
    pub fn is_zero(&self) -> (r: bool)
        ensures
            r == (self@ == zero_bytes(20)),
    {
        let mut i: usize = 0;
        while i < 20
            invariant
                i <= 20,
                forall|j: int| 0 <= j < i ==> self.bytes[j] == 0,
            decreases 20 - i,
        {
            if self.bytes[i] != 0 {
                return false;
            }
            i += 1;
        }
        assert(self@ =~= zero_bytes(20));
        true
    }
}

/// A 32-byte word: a hash or one scalar of a signature.
#[derive(Clone, Copy, Debug, PartialEq, Eq, Hash)]
pub struct H256 {
    pub bytes: [u8; 32],
}

impl View for H256 {
    type V = Seq<u8>;

    open spec fn view(&self) -> Seq<u8> {
        self.bytes@
    }
}

impl H256 {
    /// The word made of thirty-two zero bytes.
    pub fn zero() -> (r: H256)
        ensures
            r@ == zero_bytes(32),
    {
        H256 { bytes: [0u8;32] }
    }
}

/// The lower-case hexadecimal digit of a number below sixteen.
pub open spec fn hex_digit(n: nat) -> char
    recommends
        n < 16,
{
    seq!['0', '1', '2', '3', '4', '5', '6', '7', '8', '9', 'a', 'b', 'c', 'd', 'e', 'f'][n as int]
}

/// The bytes in lower-case hexadecimal, two digits for each byte.
pub open spec fn hex_chars(bytes: Seq<u8>) -> Seq<char> {
    Seq::new(
        2 * bytes.len(),
        |i: int|
            if i % 2 == 0 {
                hex_digit((bytes[i / 2] / 16) as nat)
            } else {
                hex_digit((bytes[i / 2] % 16) as nat)
            },
    )
}

/// The bytes in lower-case hexadecimal.
///
/// Trusted: calls `hex::encode`, which writes every byte as two lower-case
/// hexadecimal digits, the high half first.
#[verifier::external_body]
pub(crate) fn hex_encode(bytes: &[u8]) -> (r: String)
    ensures
        r@ == hex_chars(bytes@),
{
    hex::encode(bytes)
}

impl Address {
    /// The address as the marketplace writes it: `0x` and forty lower-case
    /// hexadecimal digits.
    pub fn to_hex_string(&self) -> (r: String)
        ensures
            r@ == "0x"@ + hex_chars(self@),
    {
        let digits = hex_encode(self.bytes.as_slice());
        String::from_str("0x").concat(digits.as_str())
    }
}

/// Whether a text begins with `0x`.
pub open spec fn has_hex_prefix(text: Seq<char>) -> bool {
    text.len() >= 2 && text[0] == '0' && text[1] == 'x'
}

/// The 32 bytes that a text spells in hexadecimal, with or without `0x` in
/// front, or `None` where it does not spell 32 bytes.
pub uninterp spec fn h256_of_hex(text: Seq<char>) -> Option<Seq<u8>>;

/// Why a text is not a 32-byte word.
#[derive(Clone, Copy, Debug, PartialEq, Eq)]
pub enum HexError {
    /// The text does not spell 32 bytes in hexadecimal.
    Malformed,
}

/// Reads a 32-byte word written in hexadecimal.
///
/// Trusted: calls the `FromStr` implementation of `ethers_core`'s `H256`,
/// which drops a leading `0x`, reads hexadecimal digits, passing over blanks,
/// and fails on any other character and unless the digits make 32 bytes.
/// What it returns depends on the text alone.
#[verifier::external_body]
pub(crate) fn parse_h256(text: &str) -> (r: Option<H256>)
    ensures
        match r {
            Some(h) => h256_of_hex(text@) == Some(h@),
            None => h256_of_hex(text@) is None,
        },
{
    match text.parse::<ethers_core::types::H256>() {
        Ok(h) => Some(H256 { bytes: h.0 }),
        Err(_) => None,
    }
}

/// Reads a signature scalar as the marketplace writes it: a text that begins
/// with `0x` is read as 32 bytes in hexadecimal; any other text stands for an
/// absent scalar and gives the zero word.
///
/// Fails exactly where the text begins with `0x` and does not spell 32 bytes.
pub fn h256_from_str(text: &str) -> (r: Result<H256, HexError>)
    ensures
        !has_hex_prefix(text@) ==> (r matches Ok(h) && h@ == zero_bytes(32)),
        has_hex_prefix(text@) ==> match r {
            Ok(h) => h256_of_hex(text@) == Some(h@),
            Err(e) => e == HexError::Malformed && h256_of_hex(text@) is None,
        },
{
    if text.unicode_len() >= 2 && text.get_char(0) == '0' && text.get_char(1) == 'x' {
        match parse_h256(text) {
            Some(h) => Ok(h),
            None => Err(HexError::Malformed),
        }
    } else {
        Ok(H256::zero())
    }
}

} // verus!
