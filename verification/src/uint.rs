//! 256-bit unsigned integers.
//!
//! A [`U256`] has the memory layout of `ethers_core::types::U256`: four 64-bit
//! limbs, least significant first. Its view is the natural number it denotes.
//! Arithmetic is done by `ethers_core`; the order and the embedding of `u64`
//! are proved here against the view.

use vstd::prelude::*;

verus! {

/// 2^64.
pub open spec fn pow2_64() -> nat {
    0x1_0000_0000_0000_0000nat
}

/// 2^128.
pub open spec fn pow2_128() -> nat {
    0x1_0000_0000_0000_0000_0000_0000_0000_0000nat
}

/// 2^192.
pub open spec fn pow2_192() -> nat {
    0x1_0000_0000_0000_0000_0000_0000_0000_0000_0000_0000_0000_0000nat
}

/// 2^256, the first number that a [`U256`] cannot hold.
pub open spec fn pow2_256() -> nat {
    0x1_0000_0000_0000_0000_0000_0000_0000_0000_0000_0000_0000_0000_0000_0000_0000_0000nat
}

/// The number denoted by four limbs, least significant first.
pub open spec fn limbs_value(limbs: Seq<u64>) -> nat
    recommends
        limbs.len() == 4,
{
    (limbs[0] as nat) + (limbs[1] as nat) * pow2_64() + (limbs[2] as nat) * pow2_128() + (
    limbs[3] as nat) * pow2_192()
}

/// Whether a character is a decimal digit.
pub open spec fn is_dec_digit(c: char) -> bool {
    '0' <= c <= '9'
}

/// The value of a decimal digit.
pub open spec fn dec_digit_value(c: char) -> nat
    recommends
        is_dec_digit(c),
{
    (c as nat - '0' as nat) as nat
}

/// Why a text is not a 256-bit number in decimal.
#[derive(Clone, Copy, Debug, PartialEq, Eq)]
pub enum FromDecStrErr {
    /// A character is not a decimal digit.
    InvalidCharacter,
    /// The number does not fit in 256 bits.
    InvalidLength,
}

/// Reads `text` as decimal digits that continue the number `value`, from the
/// left: the first character that is no digit, or the first digit with which
/// the number no longer fits in 256 bits, ends the reading with its error.
pub open spec fn read_decimal(text: Seq<char>, value: nat) -> Result<nat, FromDecStrErr>
    decreases text.len(),
{
    if text.len() == 0 {
        Ok(value)
    } else if !is_dec_digit(text[0]) {
        Err(FromDecStrErr::InvalidCharacter)
    } else if value * 10 + dec_digit_value(text[0]) >= pow2_256() {
        Err(FromDecStrErr::InvalidLength)
    } else {
        read_decimal(text.drop_first(), value * 10 + dec_digit_value(text[0]))
    }
}

/// The decimal digits of `n`, most significant first, without leading zeros.
pub open spec fn dec_digits(n: nat) -> Seq<char>
    decreases n,
{
    if n < 10 {
        seq![dec_digit(n)]
    } else {
        dec_digits(n / 10).push(dec_digit(n % 10))
    }
}

/// The character of a decimal digit.
pub open spec fn dec_digit(d: nat) -> char
    recommends
        d < 10,
{
    seq!['0', '1', '2', '3', '4', '5', '6', '7', '8', '9'][d as int]
}

/// `n` in decimal.
///
/// Trusted: calls `u64::to_string` of the standard library, which writes the
/// number in base ten without sign or leading zeros.
#[verifier::external_body]
pub(crate) fn u64_to_dec_string(n: u64) -> (r: String)
    ensures
        r@ == dec_digits(n as nat),
{
    n.to_string()
}

/// A 256-bit unsigned integer, stored as four 64-bit limbs, least significant first.
#[derive(Clone, Copy, Debug, PartialEq, Eq, Hash)]
pub struct U256 {
    pub limbs: [u64; 4],
}

impl View for U256 {
    type V = nat;

    open spec fn view(&self) -> nat {
        limbs_value(self.limbs@)
    }
}

/// The low part of a number written as `low + base * high` below `base`.
proof fn lemma_low_part_bound(low: int, high: int, bound: int, base: int)
    by (nonlinear_arith)
    requires
        0 <= low < base,
        0 <= high < bound,
    ensures
        0 <= low + base * high < base * bound,
{
}

/// Numbers written as `low + base * high` are ordered by `high` first, then by `low`.
proof fn lemma_two_digit_order(x0: int, x1: int, y0: int, y1: int, base: int)
    by (nonlinear_arith)
    requires
        0 <= x0 < base,
        0 <= y0 < base,
    ensures
        x0 + base * x1 < y0 + base * y1 <==> (x1 < y1 || (x1 == y1 && x0 < y0)),
        x0 + base * x1 == y0 + base * y1 <==> (x1 == y1 && x0 == y0),
{
}

/// The number denoted by a [`U256`], written limb by limb from the top.
spec fn nested_value(a: U256) -> int {
    a.limbs[0] + pow2_64() * (a.limbs[1] + pow2_64() * (a.limbs[2] + pow2_64() * a.limbs[3]))
}

/// The limbs of a [`U256`] nest: each limb stands below the next power of 2^64.
proof fn lemma_nested_value(a: U256)
    ensures
        a@ == nested_value(a),
        0 <= a.limbs[2] + pow2_64() * a.limbs[3] < pow2_128(),
        0 <= a.limbs[1] + pow2_64() * (a.limbs[2] + pow2_64() * a.limbs[3]) < pow2_192(),
{
    let b = pow2_64() as int;
    let hi2: int = a.limbs[2] + b * a.limbs[3];
    lemma_low_part_bound(a.limbs[2] as int, a.limbs[3] as int, b, b);
    lemma_low_part_bound(a.limbs[1] as int, hi2, b * b, b);
}

/// Every [`U256`] denotes a number below 2^256.
pub proof fn lemma_u256_bounds(a: U256)
    ensures
        a@ < pow2_256(),
{
    let b = pow2_64() as int;
    lemma_nested_value(a);
    lemma_low_part_bound(
        a.limbs[0] as int,
        a.limbs[1] + b * (a.limbs[2] + b * a.limbs[3]),
        pow2_192() as int,
        b,
    );
}

/// The order of the numbers is the order of the limbs, read from the most
/// significant limb down.
pub proof fn lemma_u256_order(a: U256, b: U256)
    ensures
        a@ < b@ <==> (a.limbs[3] < b.limbs[3] || (a.limbs[3] == b.limbs[3] && (a.limbs[2]
            < b.limbs[2] || (a.limbs[2] == b.limbs[2] && (a.limbs[1] < b.limbs[1] || (a.limbs[1]
            == b.limbs[1] && a.limbs[0] < b.limbs[0])))))),
        a@ == b@ <==> (a.limbs[3] == b.limbs[3] && a.limbs[2] == b.limbs[2] && a.limbs[1]
            == b.limbs[1] && a.limbs[0] == b.limbs[0]),
{
    let w = pow2_64() as int;
    lemma_nested_value(a);
    lemma_nested_value(b);
    let a2: int = a.limbs[2] + w * a.limbs[3];
    let b2: int = b.limbs[2] + w * b.limbs[3];
    let a1: int = a.limbs[1] + w * a2;
    let b1: int = b.limbs[1] + w * b2;
    lemma_two_digit_order(a.limbs[2] as int, a.limbs[3] as int, b.limbs[2] as int, b.limbs[3] as int, w);
    lemma_two_digit_order(a.limbs[1] as int, a2, b.limbs[1] as int, b2, w);
    lemma_two_digit_order(a.limbs[0] as int, a1, b.limbs[0] as int, b1, w);
}

impl U256 {
    /// The number zero.
    pub fn zero() -> (r: U256)
        ensures
            r@ == 0,
    {
        U256 { limbs: [0, 0, 0, 0] }
    }

    /// A 64-bit number as a 256-bit one.
    pub open spec fn spec_from_u64(x: u64) -> U256 {
        U256 { limbs: [x, 0, 0, 0] }
    }

    /// Embeds a 64-bit number.
    pub fn from_u64(x: u64) -> (r: U256)
        ensures
            r == Self::spec_from_u64(x),
            r@ == x,
    {
        U256 { limbs: [x, 0, 0, 0] }
    }

    /// Whether `self` denotes zero.
    pub fn is_zero(&self) -> (r: bool)
        ensures
            r == (self@ == 0),
    {
        self.limbs[0] == 0 && self.limbs[1] == 0 && self.limbs[2] == 0 && self.limbs[3] == 0
    }

    /// Whether `self` and `other` denote the same number.
    pub fn equals(&self, other: &U256) -> (r: bool)
        ensures
            r == (self@ == other@),
    {
        proof {
            lemma_u256_order(*self, *other);
        }
        self.limbs[0] == other.limbs[0] && self.limbs[1] == other.limbs[1] && self.limbs[2]
            == other.limbs[2] && self.limbs[3] == other.limbs[3]
    }

    /// Whether `self` denotes a smaller number than `other`.
    pub fn lt(&self, other: &U256) -> (r: bool)
        ensures
            r == (self@ < other@),
    {
        proof {
            lemma_u256_order(*self, *other);
        }
        if self.limbs[3] != other.limbs[3] {
            self.limbs[3] < other.limbs[3]
        } else if self.limbs[2] != other.limbs[2] {
            self.limbs[2] < other.limbs[2]
        } else if self.limbs[1] != other.limbs[1] {
            self.limbs[1] < other.limbs[1]
        } else {
            self.limbs[0] < other.limbs[0]
        }
    }

    /// Reads a number written in decimal. The empty text is zero.
    ///
    /// Trusted: calls `U256::from_dec_str` of `ethers_core`, which reads the
    /// text byte by byte from the left, fails with `InvalidCharacter` at a
    /// byte that is no digit and with `InvalidLength` where the number
    /// outgrows 256 bits.
    #[verifier::external_body]
    pub(crate) fn from_dec_str(text: &str) -> (r: Result<U256, FromDecStrErr>)
        ensures
            match r {
                Ok(v) => read_decimal(text@, 0) == Ok::<nat, FromDecStrErr>(v@),
                Err(e) => read_decimal(text@, 0) == Err::<nat, FromDecStrErr>(e),
            },
    {
        match ethers_core::types::U256::from_dec_str(text) {
            Ok(v) => Ok(U256 { limbs: v.0 }),
            Err(ethers_core::abi::ethereum_types::FromDecStrErr::InvalidCharacter) => Err(
                FromDecStrErr::InvalidCharacter,
            ),
            Err(ethers_core::abi::ethereum_types::FromDecStrErr::InvalidLength) => Err(
                FromDecStrErr::InvalidLength,
            ),
        }
    }

    /// The number in decimal.
    ///
    /// Trusted: calls `to_string` on `ethers_core`'s `U256`, whose `Display`
    /// writes the number in base ten without leading zeros, and `0` for zero.
    #[verifier::external_body]
    pub(crate) fn to_dec_string(&self) -> (r: String)
        ensures
            r@ == dec_digits(self@),
    {
        ethers_core::types::U256(self.limbs).to_string()
    }

    /// The sum, or `None` where it does not fit in 256 bits.
    ///
    /// Trusted: calls `U256::checked_add` of `ethers_core`, which returns the
    /// sum unless it overflows, and `None` if it does.
    #[verifier::external_body]
    pub(crate) fn add_checked(&self, other: &U256) -> (r: Option<U256>)
        ensures
            r is Some <==> self@ + other@ < pow2_256(),
            r matches Some(s) ==> s@ == self@ + other@,
    {
        match ethers_core::types::U256(self.limbs).checked_add(ethers_core::types::U256(other.limbs)) {
            Some(s) => Some(U256 { limbs: s.0 }),
            None => None,
        }
    }

    /// The product, or `None` where it does not fit in 256 bits.
    ///
    /// Trusted: calls `U256::checked_mul` of `ethers_core`, which returns the
    /// product unless it overflows, and `None` if it does.
    #[verifier::external_body]
    pub(crate) fn mul_checked(&self, other: &U256) -> (r: Option<U256>)
        ensures
            r is Some <==> self@ * other@ < pow2_256(),
            r matches Some(p) ==> p@ == self@ * other@,
    {
        match ethers_core::types::U256(self.limbs).checked_mul(ethers_core::types::U256(other.limbs)) {
            Some(p) => Some(U256 { limbs: p.0 }),
            None => None,
        }
    }

    /// The quotient rounded down, or `None` where the divisor is zero.
    ///
    /// Trusted: calls `U256::checked_div` of `ethers_core`, which returns
    /// `None` for a zero divisor and else the integer quotient.
    #[verifier::external_body]
    pub(crate) fn div_checked(&self, other: &U256) -> (r: Option<U256>)
        ensures
            r is Some <==> other@ != 0,
            r matches Some(q) ==> q@ == self@ / other@,
    {
        match ethers_core::types::U256(self.limbs).checked_div(ethers_core::types::U256(other.limbs)) {
            Some(q) => Some(U256 { limbs: q.0 }),
            None => None,
        }
    }
}

/// Reads a price or an identifier as the marketplace writes it: in decimal.
/// The empty text is zero.
///
/// Fails with [`FromDecStrErr::InvalidCharacter`] at the first character
/// that is no digit, and with [`FromDecStrErr::InvalidLength`] at the first
/// digit with which the number no longer fits in 256 bits, whichever comes
/// first.
pub fn u256_from_dec_str(text: &str) -> (r: Result<U256, FromDecStrErr>)
    ensures
        match r {
            Ok(v) => read_decimal(text@, 0) == Ok::<nat, FromDecStrErr>(v@),
            Err(e) => read_decimal(text@, 0) == Err::<nat, FromDecStrErr>(e),
        },
{
    U256::from_dec_str(text)
}

} // verus!
