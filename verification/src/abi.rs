//! Contract ABI encoding of call data.
//!
//! The layout of an encoded argument list is stated here as a specification
//! over bytes: one 32-byte head word per argument, followed by the tails of the
//! dynamic arguments. The bytes themselves are produced by `ethers_core`.

use crate::address::{zero_bytes, Address, H256};
use crate::uint::U256;
use vstd::arithmetic::power::pow;
use vstd::prelude::*;

verus! {

/// One argument of a contract call.
#[derive(Clone, Debug, PartialEq, Eq)]
pub enum Token {
    /// `address`
    Address(Address),
    /// `uint256`, and every narrower unsigned integer
    Uint(U256),
    /// `bytes32`
    Word(H256),
    /// `bytes`
    Bytes(Vec<u8>),
}

/// What a [`Token`] holds, as mathematical values.
pub ghost enum TokenView {
    Address(Seq<u8>),
    Uint(nat),
    Word(Seq<u8>),
    Bytes(Seq<u8>),
}

impl View for Token {
    type V = TokenView;

    open spec fn view(&self) -> TokenView {
        match *self {
            Token::Address(a) => TokenView::Address(a@),
            Token::Uint(u) => TokenView::Uint(u@),
            Token::Word(w) => TokenView::Word(w@),
            Token::Bytes(b) => TokenView::Bytes(b@),
        }
    }
}

/// The views of a list of tokens, in order.
pub open spec fn token_views(tokens: Seq<Token>) -> Seq<TokenView> {
    Seq::new(tokens.len(), |i: int| tokens[i]@)
}

/// The 32-byte big-endian form of `n`.
pub open spec fn be_word(n: nat) -> Seq<u8> {
    Seq::new(32, |i: int| ((n / (pow(256, (31 - i) as nat) as nat)) % 256) as u8)
}

/// An address as a 32-byte word: twelve zero bytes, then the address.
pub open spec fn address_word(a: Seq<u8>) -> Seq<u8> {
    zero_bytes(12) + a
}

/// `n` rounded up to a multiple of 32.
pub open spec fn padded_len(n: nat) -> nat {
    ((n + 31) / 32) * 32
}

/// The tail of one argument: empty for a static one; for `bytes` its length
/// as a word, then the bytes, zero-padded to a multiple of 32.
pub open spec fn tail(t: TokenView) -> Seq<u8> {
    match t {
        TokenView::Bytes(b) => be_word(b.len()) + b + zero_bytes((padded_len(b.len()) - b.len()) as nat),
        _ => Seq::empty(),
    }
}

/// The tails of the first `n` arguments, concatenated.
pub open spec fn tails(tokens: Seq<TokenView>, n: nat) -> Seq<u8>
    decreases n,
{
    if n == 0 {
        Seq::empty()
    } else {
        tails(tokens, (n - 1) as nat) + tail(tokens[n - 1])
    }
}

/// The head word of argument `i`: the value itself for a static argument, and
/// for `bytes` the offset of its tail from the start of the encoding.
pub open spec fn head(tokens: Seq<TokenView>, i: int) -> Seq<u8> {
    match tokens[i] {
        TokenView::Address(a) => address_word(a),
        TokenView::Uint(u) => be_word(u),
        TokenView::Word(w) => w,
        TokenView::Bytes(_) => be_word(32 * tokens.len() + tails(tokens, i as nat).len()),
    }
}

/// The head words of the first `n` arguments, concatenated.
pub open spec fn heads(tokens: Seq<TokenView>, n: nat) -> Seq<u8>
    decreases n,
{
    if n == 0 {
        Seq::empty()
    } else {
        heads(tokens, (n - 1) as nat) + head(tokens, n - 1)
    }
}

/// The ABI encoding of an argument list: all heads, then all tails.
pub open spec fn encoding(tokens: Seq<TokenView>) -> Seq<u8> {
    heads(tokens, tokens.len()) + tails(tokens, tokens.len())
}

/// The number of bytes of [`encoding`].
pub open spec fn encoded_len(tokens: Seq<TokenView>) -> nat {
    32 * tokens.len() + tails(tokens, tokens.len()).len()
}

/// The four-byte selector of the function with the given canonical signature,
/// such as `transfer(address,uint256)`: the first four bytes of the
/// Keccak-256 hash of the signature.
pub uninterp spec fn selector_of(signature: Seq<char>) -> Seq<u8>;

/// The selector of `signature`.
///
/// Trusted: calls `ethers_core::utils::id`, which hashes the signature with
/// Keccak-256 and returns the first four bytes of the digest.
#[verifier::external_body]
pub(crate) fn selector(signature: &str) -> (r: [u8; 4])
    ensures
        r@ == selector_of(signature@),
{
    ethers_core::utils::id(signature)
}

/// The encoding of `tokens`.
///
/// Trusted: calls `ethers_core::abi::encode` on the same arguments. That
/// function writes one head word per argument and then the tails of the
/// `bytes` arguments, with offsets and lengths as 32-bit numbers, hence the
/// bound on the size.
#[verifier::external_body]
pub(crate) fn encode_tokens(tokens: &Vec<Token>) -> (out: Vec<u8>)
    requires
        encoded_len(token_views(tokens@)) <= u32::MAX,
    ensures
        out@ == encoding(token_views(tokens@)),
{
    let converted: Vec<ethers_core::abi::Token> = tokens.iter().map(
        |t| match t {
            Token::Address(a) => ethers_core::abi::Token::Address(ethers_core::types::H160(a.bytes)),
            Token::Uint(u) => ethers_core::abi::Token::Uint(ethers_core::types::U256(u.limbs)),
            Token::Word(w) => ethers_core::abi::Token::FixedBytes(w.bytes.to_vec()),
            Token::Bytes(b) => ethers_core::abi::Token::Bytes(b.clone()),
        },
    ).collect();
    ethers_core::abi::encode(&converted)
}

/// The tail of a `bytes` argument is its length word and its padded content.
pub proof fn lemma_tail_len(t: TokenView)
    ensures
        tail(t).len() == match t {
            TokenView::Bytes(b) => 32 + padded_len(b.len()),
            _ => 0nat,
        },
{
}

/// The size of the encoding of `tokens`, or `None` where it is above `u32::MAX`.
pub fn encoded_size(tokens: &Vec<Token>) -> (r: Option<u32>)
    ensures
        r is Some <==> encoded_len(token_views(tokens@)) <= u32::MAX,
        r matches Some(n) ==> n == encoded_len(token_views(tokens@)),
{
    let ghost views = token_views(tokens@);
    if tokens.len() > 0x7ff_ffff {
        return None;
    }
    let mut total: u64 = 32 * (tokens.len() as u64);
    let mut i: usize = 0;
    while i < tokens.len()
        invariant
            i <= tokens.len(),
            tokens.len() <= 0x7ff_ffff,
            views == token_views(tokens@),
            total == 32 * tokens.len() + tails(views, i as nat).len(),
            total <= u32::MAX,
        decreases tokens.len() - i,
    {
        proof {
            lemma_tail_len(views[i as int]);
        }
        match &tokens[i] {
            Token::Bytes(b) => {
                if b.len() > 0xffff_ffff {
                    proof {
                        lemma_tails_len_monotonic(views, (i + 1) as nat, tokens.len() as nat);
                    }
                    return None;
                }
                let padded: u64 = ((b.len() as u64 + 31) / 32) * 32;
                total = total + 32 + padded;
                if total > 0xffff_ffff {
                    proof {
                        lemma_tails_len_monotonic(views, (i + 1) as nat, tokens.len() as nat);
                    }
                    return None;
                }
            },
            _ => {},
        }
        i += 1;
    }
    Some(total as u32)
}

/// The tails only grow with the number of arguments taken.
pub proof fn lemma_tails_len_monotonic(tokens: Seq<TokenView>, m: nat, n: nat)
    requires
        m <= n,
    ensures
        tails(tokens, m).len() <= tails(tokens, n).len(),
    decreases n,
{
    if m < n {
        lemma_tails_len_monotonic(tokens, m, (n - 1) as nat);
    }
}

/// Why a call could not be encoded.
#[derive(Clone, Copy, Debug, PartialEq, Eq)]
pub enum EncodingError {
    /// The encoded arguments would be longer than `u32::MAX` bytes.
    TooLong,
}

/// The call data of a call of the function with the given canonical
/// signature on the given arguments: selector, then encoded arguments.
///
/// Fails exactly where the encoded arguments would be longer than
/// `u32::MAX` bytes.
pub fn encode_call(signature: &str, tokens: &Vec<Token>) -> (r: Result<Vec<u8>, EncodingError>)
    ensures
        r is Ok <==> encoded_len(token_views(tokens@)) <= u32::MAX,
        r matches Ok(data) ==> {
            &&& data@ == selector_of(signature@) + encoding(token_views(tokens@))
            &&& selector_of(signature@).len() == 4
        },
        r matches Err(e) ==> e == EncodingError::TooLong,
{
    match encoded_size(tokens) {
        None => Err(EncodingError::TooLong),
        Some(_) => {
            let sel = selector(signature);
            let mut data: Vec<u8> = Vec::new();
            data.push(sel[0]);
            data.push(sel[1]);
            data.push(sel[2]);
            data.push(sel[3]);
            let mut args = encode_tokens(tokens);
            data.append(&mut args);
            Ok(data)
        },
    }
}

} // verus!
