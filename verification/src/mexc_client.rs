//! A client of the MEXC spot API alone: the records it reads and the signed
//! requests it sends.
use vstd::prelude::*;
use crate::exchange::{symbol_split_ok, known_quote};
use crate::exchanges::mexc::{
    sign_query, sign_url, signature_of, signed_url_of, symbol_time_query,
    symbol_time_text,
};
use vstd::string::StringSliceAdditionalSpecFns;
use vstd::utf8::encode_utf8;

verus! {

/// The last price of a symbol.
#[derive(Debug)]
pub struct TickerPrice {
    pub symbol: String,
    pub price: String,
}

/// An order book: each level is `[price, quantity]`.
#[derive(Debug)]
pub struct OrderBook {
    pub bids: Vec<Vec<String>>,
    pub asks: Vec<Vec<String>>,
}

/// An order to place (its type is sent as `type`).
#[derive(Debug)]
pub struct Order {
    pub symbol: String,
    pub side: String,
    pub order_type: String,
    pub quantity: String,
    pub price: String,
}

/// The answer to a placed order.
#[derive(Debug)]
pub struct OrderResponse {
    pub symbol: String,
    pub order_id: String,
    pub order_list_id: i64,
    pub price: String,
    pub orig_qty: String,
    pub order_type: String,
    pub stp_mode: String,
    pub side: String,
    pub transact_time: i64,
}

/// An order as listed.
#[derive(Debug)]
pub struct OpenOrder {
    pub symbol: String,
    pub order_id: String,
    pub price: String,
    pub orig_qty: String,
    pub executed_qty: String,
    pub status: String,
    pub side: String,
    pub order_type: String,
    pub time: i64,
}

/// One fill.
#[derive(Debug)]
pub struct Trade {
    pub symbol: String,
    pub id: String,
    pub order_id: String,
    pub price: String,
    pub qty: String,
    pub quote_qty: String,
    pub commission: String,
    pub commission_asset: String,
    pub time: i64,
    pub is_buyer: bool,
    pub is_maker: bool,
}

/// The balance of one asset.
#[derive(Debug)]
pub struct Balance {
    pub asset: String,
    pub free: String,
    pub locked: String,
}

/// The balances of an account.
#[derive(Debug)]
pub struct AccountInfo {
    pub balances: Vec<Balance>,
}

/// A MEXC account: its API key and secret.
pub struct MexcClient {
    api_key: String,
    api_secret: String,
}

impl MexcClient {
    /// The API key.
    pub closed spec fn key(&self) -> Seq<char> {
        self.api_key@
    }

    /// The API secret.
    pub closed spec fn secret(&self) -> Seq<char> {
        self.api_secret@
    }

    pub fn new(api_key: String, api_secret: String) -> (c: Self)
        ensures
            c.key() == api_key@,
            c.secret() == api_secret@,
    {
        MexcClient { api_key, api_secret }
    }

    /// The API key, sent in the `X-MEXC-APIKEY` header.
    pub fn api_key(&self) -> (k: &str)
        ensures
            k@ == self.key(),
    {
        self.api_key.as_str()
    }

    /// The signature of `query_string`: HMAC-SHA256 under the secret, in lower-case hex.
    pub fn generate_signature(&self, query_string: &str) -> (sig: String)
        ensures
            sig@ == signature_of(self.secret(), query_string@),
    {
        sign_query(self.api_secret.as_str(), query_string)
    }

    /// The signed URL of `path` with `query`.
    pub fn signed_url(&self, path: &str, query: &str) -> (url: String)
        ensures
            url@ == signed_url_of(self.secret(), path@, query@),
    {
        sign_url(self.api_secret.as_str(), path, query)
    }

    /// The signed URL that cancels every open order of `symbol`.
    pub fn cancel_all_orders_url(&self, symbol: &str, timestamp: u64) -> (url: String)
        ensures
            url@ == signed_url_of(
                self.secret(),
                "/api/v3/openOrders"@,
                symbol_time_query(symbol@, timestamp),
            ),
    {
        let q = symbol_time_text(symbol, timestamp);
        self.signed_url("/api/v3/openOrders", q.as_str())
    }

    /// (base asset, quote asset) of a symbol, as `exchange::get_symbol_assets`.
    pub fn get_symbol_assets(symbol: &str) -> (r: (String, String))
        requires
            symbol_split_ok(symbol),
        ensures
            known_quote(symbol@) matches Some(q) ==> r.0@ == symbol@.subrange(
                0,
                symbol@.len() - q.len(),
            ) && r.1@ == q,
            known_quote(symbol@) is None && symbol.spec_bytes().len() > 4 ==> encode_utf8(r.0@)
                == symbol.spec_bytes().subrange(0, symbol.spec_bytes().len() - 4) && encode_utf8(
                r.1@,
            ) == symbol.spec_bytes().subrange(
                symbol.spec_bytes().len() - 4,
                symbol.spec_bytes().len() as int,
            ),
            known_quote(symbol@) is None && symbol.spec_bytes().len() <= 4 ==> r.0@ == symbol@
                && r.1@ == "USDT"@,
    {
        crate::exchange::get_symbol_assets(symbol)
    }
}

} // verus!
