//! Requests to the marketplace's order book, and what is read out of its
//! answers. Sending a request and receiving the answer is left to the caller.

use crate::address::{hex_chars, Address};
use crate::constants::MAX_PAGE_SIZE;
use crate::types::{Network, Order, OrderSide};
use crate::uint::{dec_digits, u64_to_dec_string, U256};
use vstd::prelude::*;
use vstd::string::StringExecFns;

verus! {

/// How the marketplace is addressed: on which network, and with which key.
#[derive(Clone, Debug, PartialEq, Eq)]
pub struct OpenSeaApiConfig {
    pub api_key: Option<String>,
    pub network: Network,
}

impl Default for OpenSeaApiConfig {
    /// The main network, without a key.
    fn default() -> (cfg: Self)
        ensures
            cfg.api_key is None,
            cfg.network == Network::Mainnet,
    {
        OpenSeaApiConfig { api_key: None, network: Network::Mainnet }
    }
}

/// A query for the orders of one token.
#[derive(Clone, Debug, PartialEq, Eq)]
pub struct OrderRequest {
    /// The side of the orders: 0 for buy orders, 1 for sell orders.
    pub side: u64,
    /// The token, in decimal.
    pub token_id: String,
    /// The token's contract.
    pub contract_address: Address,
    /// The most orders to return.
    pub limit: u64,
}

/// What the order book can fail with, apart from the transport.
#[derive(Clone, Debug, PartialEq, Eq)]
pub enum OpenSeaApiError {
    /// The order book holds no order for the token.
    OrderNotFound { contract: Address, id: String },
}

/// One parameter of a query, or one header of a request: its name and its value.
#[derive(Clone, Debug, PartialEq, Eq)]
pub struct QueryParameter {
    pub name: String,
    pub value: String,
}

/// The marketplace's interface: where requests go and what they carry.
#[derive(Clone, Debug, PartialEq, Eq)]
pub struct OpenSeaApi {
    pub network: Network,
    pub api_key: Option<String>,
}

/// Name of the request header that carries the key.
pub const API_KEY_HEADER: &'static str = "X-API-KEY";

impl OpenSeaApi {
    /// The interface that `cfg` describes.
    pub fn new(cfg: OpenSeaApiConfig) -> (api: OpenSeaApi)
        ensures
            api.network == cfg.network,
            api.api_key == cfg.api_key,
    {
        OpenSeaApi { network: cfg.network, api_key: cfg.api_key }
    }

    /// The headers that every request carries: the key under
    /// [`API_KEY_HEADER`] where there is one, and else none.
    pub fn default_headers(&self) -> (headers: Vec<QueryParameter>)
        ensures
            match self.api_key {
                Some(key) => headers@.len() == 1 && headers@[0].name@ == API_KEY_HEADER@
                    && headers@[0].value@ == key@,
                None => headers@.len() == 0,
            },
    {
        let mut headers: Vec<QueryParameter> = Vec::new();
        match &self.api_key {
            Some(key) => {
                headers.push(
                    QueryParameter {
                        name: String::from_str(API_KEY_HEADER),
                        value: String::from_str(key.as_str()),
                    },
                );
            },
            None => {},
        }
        headers
    }

    /// The address that orders are asked from: the order book's, and `/orders`.
    pub fn orders_url(&self) -> (url: String)
        ensures
            url@ == self.network.spec_url() + "/wyvern/v"@ + dec_digits(
                crate::constants::ORDERBOOK_VERSION as nat,
            ) + "/orders"@,
    {
        self.network.orderbook().concat("/orders")
    }

    /// The first of the orders that the order book returned for `req`.
    ///
    /// Fails exactly where it returned none, and then names the token.
    pub fn get_order(orders: Vec<Order>, req: OrderRequest) -> (r: Result<Order, OpenSeaApiError>)
        ensures
            match r {
                Ok(order) => orders@.len() > 0 && order == orders@[0],
                Err(OpenSeaApiError::OrderNotFound { contract, id }) => orders@.len() == 0
                    && contract == req.contract_address && id == req.token_id,
            },
    {
        let mut orders = orders;
        if orders.len() == 0 {
            Err(OpenSeaApiError::OrderNotFound { contract: req.contract_address, id: req.token_id })
        } else {
            Ok(orders.swap_remove(0))
        }
    }
}

impl OrderRequest {
    /// The query for one order: this query with its limit set to one.
    pub fn single(self) -> (req: OrderRequest)
        ensures
            req.limit == 1,
            req.side == self.side,
            req.token_id == self.token_id,
            req.contract_address == self.contract_address,
    {
        OrderRequest {
            side: self.side,
            token_id: self.token_id,
            contract_address: self.contract_address,
            limit: 1,
        }
    }

    /// The query for the sell orders of a token: as many as the marketplace
    /// returns at once.
    pub fn sell_orders(contract_address: Address, token_id: &U256) -> (req: OrderRequest)
        ensures
            req.side == OrderSide::Sell.spec_code(),
            req.token_id@ == dec_digits(token_id@),
            req.contract_address == contract_address,
            req.limit == MAX_PAGE_SIZE,
    {
        OrderRequest {
            side: OrderSide::Sell.code() as u64,
            token_id: token_id.to_dec_string(),
            contract_address,
            limit: MAX_PAGE_SIZE,
        }
    }

    /// The parameters of the query: `side`, `token_id`,
    /// `asset_contract_address` and `limit`, in this order, the numbers in
    /// decimal and the address as `0x` and hexadecimal digits.
    pub fn query(&self) -> (params: Vec<QueryParameter>)
        ensures
            params@.len() == 4,
            params@[0].name@ == "side"@,
            params@[0].value@ == dec_digits(self.side as nat),
            params@[1].name@ == "token_id"@,
            params@[1].value@ == self.token_id@,
            params@[2].name@ == "asset_contract_address"@,
            params@[2].value@ == "0x"@ + hex_chars(self.contract_address@),
            params@[3].name@ == "limit"@,
            params@[3].value@ == dec_digits(self.limit as nat),
    {
        let mut params: Vec<QueryParameter> = Vec::new();
        params.push(
            QueryParameter { name: String::from_str("side"), value: u64_to_dec_string(self.side) },
        );
        params.push(
            QueryParameter {
                name: String::from_str("token_id"),
                value: String::from_str(self.token_id.as_str()),
            },
        );
        params.push(
            QueryParameter {
                name: String::from_str("asset_contract_address"),
                value: self.contract_address.to_hex_string(),
            },
        );
        params.push(
            QueryParameter { name: String::from_str("limit"), value: u64_to_dec_string(self.limit) },
        );
        params
    }
}

} // verus!
