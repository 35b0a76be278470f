//! Fixed values of the marketplace and of the exchange protocol.

use crate::address::Address;
use crate::uint::U256;
use vstd::prelude::*;

verus! {

/// Version of the order book interface, as it appears in its path.
pub const ORDERBOOK_VERSION: u64 = 1;

/// Version of the general interface.
pub const API_VERSION: u64 = 1;

/// Base address of the marketplace on the main network.
pub const API_BASE_MAINNET: &'static str = "https://api.opensea.io";

/// Base address of the marketplace on the Rinkeby test network.
pub const API_BASE_RINKEBY: &'static str = "https://rinkeby-api.opensea.io";

/// Web site of the marketplace on the main network.
pub const SITE_HOST_MAINNET: &'static str = "https://opensea.io";

/// Web site of the marketplace on the Rinkeby test network.
pub const SITE_HOST_RINKEBY: &'static str = "https://rinkeby.opensea.io";

/// Seconds by which a buy order is backdated when it takes its listing time
/// from the clock: the exchange only accepts orders listed in the past.
pub const LISTING_BACKDATE_SECONDS: u64 = 100;

/// Listings priced at or below this many base units are noise.
pub const DUST_THRESHOLD: u64 = 10_000_000_000_000_000;

/// Gas limit of an atomic match. Estimation is unreliable for a match that
/// has not executed, so the limit is fixed.
pub const ATOMIC_MATCH_GAS: u64 = 300_000;

/// Gas limit of the transaction that pays the incentive to a receiver.
pub const BRIBE_GAS: u64 = 200_000;

/// Number of blocks over which the base fee is projected, and by which the
/// target block of a bundle lies ahead.
pub const BLOCKS_AHEAD: u64 = 5;

/// Numerator of the largest growth of the base fee from one block to the next.
pub const FEE_GROWTH_NUMERATOR: u64 = 1125;

/// Denominator of the largest growth of the base fee from one block to the next.
pub const FEE_GROWTH_DENOMINATOR: u64 = 1000;

/// Most listings the marketplace returns for one request.
pub const MAX_PAGE_SIZE: u64 = 50;

/// The bytes of the exchange contract's address.
pub open spec fn opensea_address_bytes() -> Seq<u8> {
    seq![
        0x7bu8, 0xe8, 0x07, 0x6f, 0x4e, 0xa4, 0xa4, 0xad, 0x08, 0x07,
        0x5c, 0x25, 0x08, 0xe4, 0x81, 0xd6, 0xc9, 0x46, 0xd1, 0x2b,
    ]
}

/// The bytes of the address that receives the marketplace's fees.
pub open spec fn opensea_fee_recipient_bytes() -> Seq<u8> {
    seq![
        0x5bu8, 0x32, 0x56, 0x96, 0x5e, 0x7c, 0x3c, 0xf2, 0x6e, 0x11,
        0xfc, 0xaf, 0x29, 0x6d, 0xfc, 0x88, 0x07, 0xc0, 0x10, 0x73,
    ]
}

/// Address of the exchange contract: `0x7be8076f4ea4a4ad08075c2508e481d6c946d12b`.
pub fn opensea_address() -> (r: Address)
    ensures
        r@ == opensea_address_bytes(),
{
    Address {
        bytes: [
            0x7b, 0xe8, 0x07, 0x6f, 0x4e, 0xa4, 0xa4, 0xad, 0x08, 0x07,
            0x5c, 0x25, 0x08, 0xe4, 0x81, 0xd6, 0xc9, 0x46, 0xd1, 0x2b,
        ],
    }
}

/// Address that receives the marketplace's fees:
/// `0x5b3256965e7c3cf26e11fcaf296dfc8807c01073`.
pub fn opensea_fee_recipient() -> (r: Address)
    ensures
        r@ == opensea_fee_recipient_bytes(),
{
    Address {
        bytes: [
            0x5b, 0x32, 0x56, 0x96, 0x5e, 0x7c, 0x3c, 0xf2, 0x6e, 0x11,
            0xfc, 0xaf, 0x29, 0x6d, 0xfc, 0x88, 0x07, 0xc0, 0x10, 0x73,
        ],
    }
}

/// The dust threshold as a 256-bit number.
pub fn dust_threshold() -> (r: U256)
    ensures
        r@ == DUST_THRESHOLD,
{
    U256::from_u64(DUST_THRESHOLD)
}

} // verus!
