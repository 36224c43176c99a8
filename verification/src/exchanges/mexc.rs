//! MEXC: queries signed with HMAC-SHA256 of the API secret, in lower-case hex.
use vstd::prelude::*;
use vstd::string::StringExecFns;
use vstd::utf8::encode_utf8;
use crate::crypto::{hex_encode, hex_lower, hmac_sha256, hmac_sha256_of, percent_encoded, url_encode};
use crate::text::{decimal, owned, to_uppercase, u64_text, uppercase_of};

verus! {

/// The signature of a query: HMAC-SHA256 of its UTF-8 bytes under the secret's
/// UTF-8 bytes, in lower-case hex.
pub open spec fn signature_of(secret: Seq<char>, query: Seq<char>) -> Seq<char> {
    hex_lower(hmac_sha256_of(encode_utf8(secret), encode_utf8(query)))
}

/// The URL of a signed request: the query and its signature after the path.
pub open spec fn signed_url_of(secret: Seq<char>, path: Seq<char>, query: Seq<char>) -> Seq<
    char,
> {
    "https://api.mexc.com"@ + path + "?"@ + query + "&signature="@ + signature_of(secret, query)
}

/// `timestamp={timestamp}`.
pub open spec fn timestamp_query(timestamp: u64) -> Seq<char> {
    "timestamp="@ + decimal(timestamp as nat)
}

/// The query listing open orders, of one symbol or of all.
pub open spec fn open_orders_query(symbol: Option<Seq<char>>, timestamp: u64) -> Seq<char> {
    match symbol {
        Some(s) => "symbol="@ + s + "&"@ + timestamp_query(timestamp),
        None => timestamp_query(timestamp),
    }
}

/// `symbol={symbol}&timestamp={timestamp}&limit={limit}`.
pub open spec fn symbol_time_limit_query(symbol: Seq<char>, timestamp: u64, limit: u32) -> Seq<
    char,
> {
    "symbol="@ + symbol + "&timestamp="@ + decimal(timestamp as nat) + "&limit="@ + decimal(
        limit as nat,
    )
}

/// `symbol={symbol}&orderId={order_id}&timestamp={timestamp}`.
pub open spec fn cancel_query(symbol: Seq<char>, order_id: Seq<char>, timestamp: u64) -> Seq<
    char,
> {
    "symbol="@ + symbol + "&orderId="@ + order_id + "&timestamp="@ + decimal(timestamp as nat)
}

/// `symbol={symbol}&timestamp={timestamp}`.
pub open spec fn symbol_time_query(symbol: Seq<char>, timestamp: u64) -> Seq<char> {
    "symbol="@ + symbol + "&timestamp="@ + decimal(timestamp as nat)
}

/// `batchOrders={percent-encoded JSON}&timestamp={timestamp}`.
pub open spec fn batch_query(batch_json: Seq<char>, timestamp: u64) -> Seq<char> {
    "batchOrders="@ + percent_encoded(encode_utf8(batch_json)) + "&timestamp="@ + decimal(
        timestamp as nat,
    )
}

/// `key=value` pairs joined by `&`.
pub open spec fn joined_query(params: Seq<(String, String)>) -> Seq<char>
    decreases params.len(),
{
    if params.len() == 0 {
        seq![]
    } else if params.len() == 1 {
        params[0].0@ + "="@ + params[0].1@
    } else {
        joined_query(params.drop_last()) + "&"@ + params.last().0@ + "="@ + params.last().1@
    }
}

/// The signature of `query` under `secret`.
pub fn sign_query(secret: &str, query: &str) -> (sig: String)
    ensures
        sig@ == signature_of(secret@, query@),
{
    let tag = hmac_sha256(secret.as_bytes(), query.as_bytes());
    hex_encode(tag.as_slice())
}

/// The signed URL of `path` with `query`.
pub fn sign_url(secret: &str, path: &str, query: &str) -> (url: String)
    ensures
        url@ == signed_url_of(secret@, path@, query@),
{
    let sig = sign_query(secret, query);
    let mut url = owned("https://api.mexc.com");
    url.append(path);
    url.append("?");
    url.append(query);
    url.append("&signature=");
    url.append(sig.as_str());
    url
}

/// The depth of order book asked for: 5 levels unless given.
pub fn order_book_limit(limit: Option<u32>) -> (l: u32)
    ensures
        l == match limit {
            Some(x) => x,
            None => 5u32,
        },
{
    match limit {
        Some(x) => x,
        None => 5,
    }
}

/// The query listing open orders.
pub fn open_orders_query_text(symbol: Option<&str>, timestamp: u64) -> (q: String)
    ensures
        q@ == open_orders_query(
            match symbol {
                Some(s) => Some(s@),
                None => None,
            },
            timestamp,
        ),
{
    let mut q = owned("");
    match symbol {
        Some(s) => {
            q.append("symbol=");
            q.append(s);
            q.append("&");
        },
        None => {},
    }
    q.append("timestamp=");
    let t = u64_text(timestamp);
    q.append(t.as_str());
    proof {
        reveal_strlit("");
    }
    assert(q@ =~= open_orders_query(
        match symbol {
            Some(s) => Some(s@),
            None => None,
        },
        timestamp,
    ));
    q
}

/// `symbol={symbol}&timestamp={timestamp}&limit={limit}`.
pub fn symbol_time_limit_text(symbol: &str, timestamp: u64, limit: u32) -> (q: String)
    ensures
        q@ == symbol_time_limit_query(symbol@, timestamp, limit),
{
    let mut q = owned("symbol=");
    q.append(symbol);
    q.append("&timestamp=");
    let t = u64_text(timestamp);
    q.append(t.as_str());
    q.append("&limit=");
    let l = u64_text(limit as u64);
    q.append(l.as_str());
    q
}

/// `symbol={symbol}&orderId={order_id}&timestamp={timestamp}`.
pub fn cancel_query_text(symbol: &str, order_id: &str, timestamp: u64) -> (q: String)
    ensures
        q@ == cancel_query(symbol@, order_id@, timestamp),
{
    let mut q = owned("symbol=");
    q.append(symbol);
    q.append("&orderId=");
    q.append(order_id);
    q.append("&timestamp=");
    let t = u64_text(timestamp);
    q.append(t.as_str());
    q
}

/// `symbol={symbol}&timestamp={timestamp}`.
pub fn symbol_time_text(symbol: &str, timestamp: u64) -> (q: String)
    ensures
        q@ == symbol_time_query(symbol@, timestamp),
{
    let mut q = owned("symbol=");
    q.append(symbol);
    q.append("&timestamp=");
    let t = u64_text(timestamp);
    q.append(t.as_str());
    q
}

/// `key=value` pairs joined by `&`, in the order given.
pub fn join_query(params: &[(String, String)]) -> (q: String)
    ensures
        q@ == joined_query(params@),
{
    let mut q = owned("");
    proof {
        reveal_strlit("");
    }
    let mut i: usize = 0;
    while i < params.len()
        invariant
            i <= params@.len(),
            q@ == joined_query(params@.take(i as int)),
        decreases params@.len() - i,
    {
        proof {
            let t = params@.take(i + 1);
            assert(t.drop_last() =~= params@.take(i as int));
            assert(t.last() == params@[i as int]);
        }
        if i > 0 {
            q.append("&");
        } else {
            assert(q@ =~= Seq::<char>::empty());
        }
        q.append(params[i].0.as_str());
        q.append("=");
        q.append(params[i].1.as_str());
        proof {
            if i == 0 {
                assert(params@.take(1)[0] == params@[0]);
                assert(q@ =~= joined_query(params@.take(1)));
            }
        }
        i = i + 1;
    }
    assert(params@.take(params@.len() as int) =~= params@);
    q
}

/// The parameters of a limit order, in the order they are set: symbol, side,
/// type, quantity, price, timestamp and time in force (good till cancelled).
pub fn order_params(symbol: &str, side: &str, quantity: &str, price: &str, timestamp: u64) -> (p:
    Vec<(String, String)>)
    ensures
        p@.len() == 7,
        p@[0].0@ == "symbol"@ && p@[0].1@ == symbol@,
        p@[1].0@ == "side"@ && p@[1].1@ == side@,
        p@[2].0@ == "type"@ && p@[2].1@ == "LIMIT"@,
        p@[3].0@ == "quantity"@ && p@[3].1@ == quantity@,
        p@[4].0@ == "price"@ && p@[4].1@ == price@,
        p@[5].0@ == "timestamp"@ && p@[5].1@ == decimal(timestamp as nat),
        p@[6].0@ == "timeInForce"@ && p@[6].1@ == "GTC"@,
{
    let mut p: Vec<(String, String)> = Vec::new();
    p.push((owned("symbol"), owned(symbol)));
    p.push((owned("side"), owned(side)));
    p.push((owned("type"), owned("LIMIT")));
    p.push((owned("quantity"), owned(quantity)));
    p.push((owned("price"), owned(price)));
    p.push((owned("timestamp"), u64_text(timestamp)));
    p.push((owned("timeInForce"), owned("GTC")));
    p
}

/// One order of a batch as MEXC expects it.
pub struct BatchOrderItem {
    pub symbol: String,
    pub side: String,
    pub order_type: String,
    pub quantity: String,
    pub price: String,
    pub time_in_force: String,
}

impl BatchOrderItem {
    /// A good-till-cancelled limit order; the side is sent in upper case.
    pub fn limit(symbol: &str, side: &str, quantity: &str, price: &str) -> (item: Self)
        ensures
            item.symbol@ == symbol@,
            item.side@ == uppercase_of(side@),
            item.order_type@ == "LIMIT"@,
            item.quantity@ == quantity@,
            item.price@ == price@,
            item.time_in_force@ == "GTC"@,
    {
        BatchOrderItem {
            symbol: owned(symbol),
            side: to_uppercase(side),
            order_type: owned("LIMIT"),
            quantity: owned(quantity),
            price: owned(price),
            time_in_force: owned("GTC"),
        }
    }
}

/// A MEXC account: its API key and secret.
pub struct MexcExchange {
    api_key: String,
    api_secret: String,
}

impl MexcExchange {
    /// The API key.
    pub closed spec fn key(&self) -> Seq<char> {
        self.api_key@
    }

    /// The API secret.
    pub closed spec fn secret(&self) -> Seq<char> {
        self.api_secret@
    }

    pub fn new(api_key: String, api_secret: String) -> (x: Self)
        ensures
            x.key() == api_key@,
            x.secret() == api_secret@,
    {
        MexcExchange { api_key, api_secret }
    }

    /// The API key, sent in the `X-MEXC-APIKEY` header.
    pub fn api_key(&self) -> (k: &str)
        ensures
            k@ == self.key(),
    {
        self.api_key.as_str()
    }

    /// The signature of `query_string`.
    pub fn generate_signature(&self, query_string: &str) -> (sig: String)
        ensures
            sig@ == signature_of(self.secret(), query_string@),
    {
        sign_query(self.api_secret.as_str(), query_string)
    }

    /// The signed URL of `path` with `query`.
    pub fn signed_url(&self, path: &str, query: &str) -> (url: String)
        ensures
            url@ == signed_url_of(self.secret(), path@, query@),
    {
        sign_url(self.api_secret.as_str(), path, query)
    }

    /// The signed URL of the account's balances.
    pub fn account_url(&self, timestamp: u64) -> (url: String)
        ensures
            url@ == signed_url_of(self.secret(), "/api/v3/account"@, timestamp_query(timestamp)),
    {
        let q = open_orders_query_text(None, timestamp);
        self.signed_url("/api/v3/account", q.as_str())
    }

    /// The signed URL of the open orders, of one symbol or of all.
    pub fn open_orders_url(&self, symbol: Option<&str>, timestamp: u64) -> (url: String)
        ensures
            url@ == signed_url_of(
                self.secret(),
                "/api/v3/openOrders"@,
                open_orders_query(
                    match symbol {
                        Some(s) => Some(s@),
                        None => None,
                    },
                    timestamp,
                ),
            ),
    {
        let q = open_orders_query_text(symbol, timestamp);
        self.signed_url("/api/v3/openOrders", q.as_str())
    }

    /// The signed URL of the order history of `symbol`: 100 orders unless given.
    pub fn all_orders_url(&self, symbol: &str, timestamp: u64, limit: Option<u32>) -> (url:
        String)
        ensures
            url@ == signed_url_of(
                self.secret(),
                "/api/v3/allOrders"@,
                symbol_time_limit_query(
                    symbol@,
                    timestamp,
                    match limit {
                        Some(x) => x,
                        None => 100u32,
                    },
                ),
            ),
    {
        let l = match limit {
            Some(x) => x,
            None => 100,
        };
        let q = symbol_time_limit_text(symbol, timestamp, l);
        self.signed_url("/api/v3/allOrders", q.as_str())
    }

    /// The signed URL of the fills of `symbol`: 500 fills unless given.
    pub fn my_trades_url(&self, symbol: &str, timestamp: u64, limit: Option<u32>) -> (url:
        String)
        ensures
            url@ == signed_url_of(
                self.secret(),
                "/api/v3/myTrades"@,
                symbol_time_limit_query(
                    symbol@,
                    timestamp,
                    match limit {
                        Some(x) => x,
                        None => 500u32,
                    },
                ),
            ),
    {
        let l = match limit {
            Some(x) => x,
            None => 500,
        };
        let q = symbol_time_limit_text(symbol, timestamp, l);
        self.signed_url("/api/v3/myTrades", q.as_str())
    }

    /// The signed URL that cancels one order.
    pub fn cancel_order_url(&self, symbol: &str, order_id: &str, timestamp: u64) -> (url: String)
        ensures
            url@ == signed_url_of(
                self.secret(),
                "/api/v3/order"@,
                cancel_query(symbol@, order_id@, timestamp),
            ),
    {
        let q = cancel_query_text(symbol, order_id, timestamp);
        self.signed_url("/api/v3/order", q.as_str())
    }

    /// The signed URL that places the orders of `batch_orders_json` at once.
    pub fn batch_orders_url(&self, batch_orders_json: &str, timestamp: u64) -> (url: String)
        ensures
            url@ == signed_url_of(
                self.secret(),
                "/api/v3/batchOrders"@,
                batch_query(batch_orders_json@, timestamp),
            ),
    {
        let enc = url_encode(batch_orders_json);
        let mut q = owned("batchOrders=");
        q.append(enc.as_str());
        q.append("&timestamp=");
        let t = u64_text(timestamp);
        q.append(t.as_str());
        self.signed_url("/api/v3/batchOrders", q.as_str())
    }

    /// The signed URL that places one limit order with `params` (in the order given).
    pub fn order_url(&self, params: &[(String, String)]) -> (url: String)
        ensures
            url@ == signed_url_of(self.secret(), "/api/v3/order"@, joined_query(params@)),
    {
        let q = join_query(params);
        self.signed_url("/api/v3/order", q.as_str())
    }
}

} // verus!
