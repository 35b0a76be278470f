//! Order matching and transaction-bundle assembly for a Wyvern-style NFT exchange.
//!
//! The crate turns a published sell listing into the complementary buy order,
//! packs the matched pair into the fixed parameter layout of the exchange's
//! atomic-match entry point, sequences the resulting calls into fee-capped
//! transactions, spreads an incentive payment over them and lays them out as an
//! ordered bundle for a block builder.
//!
//! Everything here is executable Rust with machine-checked contracts. Network
//! access, signing and command-line handling live outside of this crate and
//! hand it plain values.

pub mod abi;
pub mod address;
pub mod api;
pub mod batch;
pub mod bribe;
pub mod bundle;
pub mod client;
pub mod constants;
pub mod exchange;
pub mod fees;
pub mod matching;
pub mod purchase;
pub mod selection;
pub mod transaction;
pub mod types;
pub mod uint;

pub use api::{OpenSeaApi, OpenSeaApiConfig, OpenSeaApiError, OrderRequest};
pub use client::{Client, ClientError};
pub use selection::get_n_cheapest_orders;
pub use types::BuyArgs;
