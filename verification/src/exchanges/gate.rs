//! Gate.io: requests signed with HMAC-SHA512 over method, path, query, body digest
//! and time, in lower-case hex; symbols written `BASE_QUOTE`.
use vstd::prelude::*;
use vstd::string::StringExecFns;
use vstd::utf8::encode_utf8;
use crate::crypto::{hex_encode, hex_lower, hmac_sha512, hmac_sha512_of, sha512_hex, sha512_of};
use crate::exchange::{Balance, OpenOrder, OrderResponse, Trade};
use crate::exchanges::{text_or, text_or_spec};
use crate::text::{
    contains, decimal, ends_with, lemma_decimal_digits, lemma_lf_fields_join,
    lemma_lf_fields_single, lemma_without_absent, lemma_without_marked, lf_fields, owned,
    replace_all, str_contains, str_ends_with, str_replace_all, to_uppercase, u64_text,
    uppercase_of,
};

verus! {

/// Gate.io's form of a symbol, `BASE_QUOTE`: `_` put before the known quote asset
/// (`USDT`, `USDC`, `BTC`, `ETH`, tried in this order) that ends it, at every place
/// that asset occurs; other symbols unchanged.
pub open spec fn gate_symbol_of(symbol: Seq<char>) -> Seq<char> {
    if ends_with(symbol, "USDT"@) {
        replace_all(symbol, "USDT"@, "_USDT"@)
    } else if ends_with(symbol, "USDC"@) {
        replace_all(symbol, "USDC"@, "_USDC"@)
    } else if ends_with(symbol, "BTC"@) {
        replace_all(symbol, "BTC"@, "_BTC"@)
    } else if ends_with(symbol, "ETH"@) {
        replace_all(symbol, "ETH"@, "_ETH"@)
    } else {
        symbol
    }
}

/// The text that is signed: method, path, query, body digest and time, one per line.
pub open spec fn signing_payload(
    method: Seq<char>,
    url_path: Seq<char>,
    query: Seq<char>,
    body_hash: Seq<char>,
    timestamp: u64,
) -> Seq<char> {
    method + "\n"@ + url_path + "\n"@ + query + "\n"@ + body_hash + "\n"@ + decimal(
        timestamp as nat,
    )
}

/// The signature of a request: HMAC-SHA512 of the payload's UTF-8 bytes under the
/// secret's, in lower-case hex.
pub open spec fn signature_of(
    secret: Seq<char>,
    method: Seq<char>,
    url_path: Seq<char>,
    query: Seq<char>,
    body_hash: Seq<char>,
    timestamp: u64,
) -> Seq<char> {
    hex_lower(
        hmac_sha512_of(
            encode_utf8(secret),
            encode_utf8(signing_payload(method, url_path, query, body_hash, timestamp)),
        ),
    )
}

/// The digest of a request body: SHA-512 of its UTF-8 bytes in lower-case hex.
pub open spec fn body_hash_of(body: Seq<char>) -> Seq<char> {
    hex_lower(sha512_of(encode_utf8(body)))
}

/// The URL of `path`, with `?query` when the query is not empty.
pub open spec fn url_of(path: Seq<char>, query: Seq<char>) -> Seq<char> {
    if query.len() == 0 {
        "https://api.gateio.ws"@ + path
    } else {
        "https://api.gateio.ws"@ + path + "?"@ + query
    }
}

/// `currency_pair={pair}&limit={limit}`.
pub open spec fn pair_limit_query(symbol: Seq<char>, limit: u32) -> Seq<char> {
    "currency_pair="@ + gate_symbol_of(symbol) + "&limit="@ + decimal(limit as nat)
}

/// The `text` of a placed order: `t-grid{timestamp}`.
pub open spec fn client_order_id_of(timestamp: u64) -> Seq<char> {
    "t-grid"@ + decimal(timestamp as nat)
}

/// Gate.io's form of a symbol.
pub fn gate_symbol(symbol: &str) -> (s: String)
    ensures
        s@ == gate_symbol_of(symbol@),
{
    proof {
        reveal_strlit("USDT");
        reveal_strlit("USDC");
        reveal_strlit("BTC");
        reveal_strlit("ETH");
    }
    if str_ends_with(symbol, "USDT") {
        str_replace_all(symbol, "USDT", "_USDT")
    } else if str_ends_with(symbol, "USDC") {
        str_replace_all(symbol, "USDC", "_USDC")
    } else if str_ends_with(symbol, "BTC") {
        str_replace_all(symbol, "BTC", "_BTC")
    } else if str_ends_with(symbol, "ETH") {
        str_replace_all(symbol, "ETH", "_ETH")
    } else {
        owned(symbol)
    }
}

/// The digest of a request body.
pub fn body_hash(body: &str) -> (h: String)
    ensures
        h@ == body_hash_of(body@),
{
    sha512_hex(body.as_bytes())
}

/// The URL of `path`, with `?query` when the query is not empty.
pub fn request_url(path: &str, query: &str) -> (url: String)
    ensures
        url@ == url_of(path@, query@),
{
    let mut url = owned("https://api.gateio.ws");
    url.append(path);
    if !query.is_empty() {
        url.append("?");
        url.append(query);
    }
    url
}

/// The depth of order book asked for: 5 levels unless given.
pub fn order_book_limit(limit: Option<u32>) -> (l: u32)
    ensures
        l == match limit {
            Some(x) => x,
            None => 5u32,
        },
{
    match limit {
        Some(x) => x,
        None => 5,
    }
}

/// `currency_pair={pair}`, the query of the open orders of one symbol; empty for all.
pub fn open_orders_query(symbol: Option<&str>) -> (q: String)
    ensures
        q@ == match symbol {
            Some(s) => "currency_pair="@ + gate_symbol_of(s@),
            None => Seq::<char>::empty(),
        },
{
    match symbol {
        Some(s) => {
            let g = gate_symbol(s);
            let mut q = owned("currency_pair=");
            q.append(g.as_str());
            q
        },
        None => {
            let q = owned("");
            proof {
                reveal_strlit("");
            }
            q
        },
    }
}

/// `currency_pair={pair}&limit={limit}`.
pub fn pair_limit_text(symbol: &str, limit: u32) -> (q: String)
    ensures
        q@ == pair_limit_query(symbol@, limit),
{
    let g = gate_symbol(symbol);
    let mut q = owned("currency_pair=");
    q.append(g.as_str());
    q.append("&limit=");
    let l = u64_text(limit as u64);
    q.append(l.as_str());
    q
}

/// The queries for the order history of a symbol: finished orders up to `limit`
/// (100 unless given), then open orders up to half of it.
pub fn all_orders_queries(symbol: &str, limit: Option<u32>) -> (q: (String, String))
    ensures
        ({
            let l = match limit {
                Some(x) => x,
                None => 100u32,
            };
            &&& q.0@ == pair_limit_query(symbol@, l) + "&status=finished"@
            &&& q.1@ == pair_limit_query(symbol@, l / 2)
        }),
{
    let l = match limit {
        Some(x) => x,
        None => 100,
    };
    let mut finished = pair_limit_text(symbol, l);
    finished.append("&status=finished");
    let open = pair_limit_text(symbol, l / 2);
    (finished, open)
}

/// The query for the fills of a symbol: 100 unless given.
pub fn my_trades_query(symbol: &str, limit: Option<u32>) -> (q: String)
    ensures
        q@ == pair_limit_query(
            symbol@,
            match limit {
                Some(x) => x,
                None => 100u32,
            },
        ),
{
    let l = match limit {
        Some(x) => x,
        None => 100,
    };
    pair_limit_text(symbol, l)
}

/// The path that cancels one order.
pub fn cancel_path(order_id: &str) -> (p: String)
    ensures
        p@ == "/api/v4/spot/orders/"@ + order_id@,
{
    let mut p = owned("/api/v4/spot/orders/");
    p.append(order_id);
    p
}

/// The `text` of a placed order: `t-grid{timestamp}`.
pub fn client_order_id(timestamp: u64) -> (id: String)
    ensures
        id@ == client_order_id_of(timestamp),
{
    let mut id = owned("t-grid");
    let t = u64_text(timestamp);
    id.append(t.as_str());
    id
}

/// The `text` of the order at `index_in_batch` of batch `batch_index` (batches of 4):
/// `t-grid{timestamp}_{position among all orders}`.
pub fn batch_client_order_id(timestamp: u64, batch_index: usize, index_in_batch: usize) -> (id:
    String)
    requires
        batch_index * 4 + index_in_batch <= u64::MAX,
    ensures
        id@ == client_order_id_of(timestamp) + "_"@ + decimal(
            (batch_index * 4 + index_in_batch) as nat,
        ),
{
    let mut id = client_order_id(timestamp);
    id.append("_");
    let n: u64 = (batch_index as u64) * 4 + (index_in_batch as u64);
    let t = u64_text(n);
    id.append(t.as_str());
    id
}

/// Whether a refused batch was refused for too many requests.
pub fn is_rate_limited(error_text: &str) -> (b: bool)
    ensures
        b == (contains(error_text@, "TOO_MANY_REQUESTS"@) || contains(error_text@, "Rate Limit"@)),
{
    str_contains(error_text, "TOO_MANY_REQUESTS") || str_contains(error_text, "Rate Limit")
}

/// A symbol of Gate.io's form with its `_` removed.
pub open spec fn plain_symbol_of(pair: Option<String>) -> Seq<char> {
    replace_all(text_or_spec(pair, ""@), "_"@, ""@)
}

fn plain_symbol(pair: Option<String>) -> (s: String)
    ensures
        s@ == plain_symbol_of(pair),
{
    proof {
        reveal_strlit("_");
    }
    let p = text_or(pair, "");
    str_replace_all(p.as_str(), "_", "")
}

/// A fill as Gate.io reports it: missing texts become `""` (symbol, ids, fee
/// currency) or `"0"` (price, amount, role, fee); the role is kept as the quote
/// quantity; the time is in seconds and becomes milliseconds.
pub fn trade_from_fields(
    currency_pair: Option<String>,
    id: Option<String>,
    order_id: Option<String>,
    price: Option<String>,
    amount: Option<String>,
    role: Option<String>,
    fee: Option<String>,
    fee_currency: Option<String>,
    create_time: Option<i64>,
    side: Option<String>,
) -> (t: Trade)
    requires
        create_time matches Some(c) ==> i64::MIN <= c * 1000 <= i64::MAX,
    ensures
        t.symbol@ == plain_symbol_of(currency_pair),
        t.id@ == text_or_spec(id, ""@),
        t.order_id@ == text_or_spec(order_id, ""@),
        t.price@ == text_or_spec(price, "0"@),
        t.qty@ == text_or_spec(amount, "0"@),
        t.quote_qty@ == text_or_spec(role, "0"@),
        t.commission@ == text_or_spec(fee, "0"@),
        t.commission_asset@ == text_or_spec(fee_currency, ""@),
        t.time == match create_time {
            Some(c) => c * 1000,
            None => 0,
        },
        t.is_buyer == (text_or_spec(side, ""@) == "buy"@),
        t.is_maker == (text_or_spec(role, ""@) == "maker"@),
{
    proof {
        reveal_strlit("");
        reveal_strlit("maker");
        reveal_strlit("buy");
    }
    let maker_text = owned("maker");
    let is_maker = match &role {
        Some(r) => r.eq(&maker_text),
        None => false,
    };
    let role_text = text_or(role, "0");
    let side_text = text_or(side, "");
    let buy = owned("buy");
    let time = match create_time {
        Some(c) => c * 1000,
        None => 0,
    };
    Trade {
        symbol: plain_symbol(currency_pair),
        id: text_or(id, ""),
        order_id: text_or(order_id, ""),
        price: text_or(price, "0"),
        qty: text_or(amount, "0"),
        quote_qty: role_text,
        commission: text_or(fee, "0"),
        commission_asset: text_or(fee_currency, ""),
        time,
        is_buyer: side_text == buy,
        is_maker,
    }
}

/// An order as Gate.io lists it: missing texts become `""` (symbol, id, side),
/// `"0"` (price, amount), `status_default` (status) or `"limit"` (type); status,
/// side and type are put in upper case; the executed quantity is given as text;
/// the time is in seconds and becomes milliseconds.
pub fn open_order_from_fields(
    currency_pair: Option<String>,
    id: Option<String>,
    price: Option<String>,
    amount: Option<String>,
    executed_qty: String,
    status: Option<String>,
    status_default: &str,
    side: Option<String>,
    order_type: Option<String>,
    create_time: Option<i64>,
) -> (o: OpenOrder)
    requires
        create_time matches Some(c) ==> i64::MIN <= c * 1000 <= i64::MAX,
    ensures
        o.symbol@ == plain_symbol_of(currency_pair),
        o.order_id@ == text_or_spec(id, ""@),
        o.price@ == text_or_spec(price, "0"@),
        o.orig_qty@ == text_or_spec(amount, "0"@),
        o.executed_qty@ == executed_qty@,
        o.status@ == uppercase_of(text_or_spec(status, status_default@)),
        o.side@ == uppercase_of(text_or_spec(side, ""@)),
        o.order_type@ == uppercase_of(text_or_spec(order_type, "limit"@)),
        o.time == match create_time {
            Some(c) => c * 1000,
            None => 0,
        },
{
    let status_text = text_or(status, status_default);
    let side_text = text_or(side, "");
    let type_text = text_or(order_type, "limit");
    OpenOrder {
        symbol: plain_symbol(currency_pair),
        order_id: text_or(id, ""),
        price: text_or(price, "0"),
        orig_qty: text_or(amount, "0"),
        executed_qty,
        status: to_uppercase(status_text.as_str()),
        side: to_uppercase(side_text.as_str()),
        order_type: to_uppercase(type_text.as_str()),
        time: match create_time {
            Some(c) => c * 1000,
            None => 0,
        },
    }
}

/// A balance as Gate.io reports it: missing currency becomes `""`, missing
/// amounts `"0"`.
pub fn balance_from_fields(
    currency: Option<String>,
    available: Option<String>,
    locked: Option<String>,
) -> (b: Balance)
    ensures
        b.asset@ == text_or_spec(currency, ""@),
        b.free@ == text_or_spec(available, "0"@),
        b.locked@ == text_or_spec(locked, "0"@),
{
    Balance {
        asset: text_or(currency, ""),
        free: text_or(available, "0"),
        locked: text_or(locked, "0"),
    }
}

/// The answer to one placed order: the id (`""` when missing), the price and
/// amount the venue echoes (else those sent), the side sent in upper case, and
/// the creation time (else the request's time).
pub fn placed_order_response(
    symbol: &str,
    side: &str,
    sent_price: &str,
    sent_quantity: &str,
    timestamp: u64,
    id: Option<String>,
    price: Option<String>,
    amount: Option<String>,
    create_time: Option<i64>,
) -> (r: OrderResponse)
    ensures
        r.symbol@ == symbol@,
        r.order_id@ == text_or_spec(id, ""@),
        r.order_list_id == 0,
        r.price@ == text_or_spec(price, sent_price@),
        r.orig_qty@ == text_or_spec(amount, sent_quantity@),
        r.order_type@ == "LIMIT"@,
        r.stp_mode@ == ""@,
        r.side@ == uppercase_of(side@),
        r.transact_time == match create_time {
            Some(c) => c,
            None => timestamp as i64,
        },
{
    OrderResponse {
        symbol: owned(symbol),
        order_id: text_or(id, ""),
        order_list_id: 0,
        price: text_or(price, sent_price),
        orig_qty: text_or(amount, sent_quantity),
        order_type: owned("LIMIT"),
        stp_mode: owned(""),
        side: to_uppercase(side),
        transact_time: match create_time {
            Some(c) => c,
            None => timestamp as i64,
        },
    }
}

/// One answer of a batch: the pair as reported (`""` when missing), the id (`""`),
/// price and amount (`"0"`), the side in upper case and the creation time (`0`).
pub fn batch_order_response(
    currency_pair: Option<String>,
    id: Option<String>,
    price: Option<String>,
    amount: Option<String>,
    side: Option<String>,
    create_time: Option<i64>,
) -> (r: OrderResponse)
    ensures
        r.symbol@ == text_or_spec(currency_pair, ""@),
        r.order_id@ == text_or_spec(id, ""@),
        r.order_list_id == 0,
        r.price@ == text_or_spec(price, "0"@),
        r.orig_qty@ == text_or_spec(amount, "0"@),
        r.order_type@ == "LIMIT"@,
        r.stp_mode@ == ""@,
        r.side@ == uppercase_of(text_or_spec(side, ""@)),
        r.transact_time == match create_time {
            Some(c) => c,
            None => 0,
        },
{
    let side_text = text_or(side, "");
    OrderResponse {
        symbol: text_or(currency_pair, ""),
        order_id: text_or(id, ""),
        order_list_id: 0,
        price: text_or(price, "0"),
        orig_qty: text_or(amount, "0"),
        order_type: owned("LIMIT"),
        stp_mode: owned(""),
        side: to_uppercase(side_text.as_str()),
        transact_time: match create_time {
            Some(c) => c,
            None => 0,
        },
    }
}

/// The top of Gate.io's answer listing orders, as far as it decides where the
/// orders are.
pub enum OrdersShape {
    /// A list; `first_orders` tells whether its first element has an `orders`
    /// field (`None`: the list is empty or it has none) and whether that field is a list.
    List { first_orders: Option<bool> },
    /// An object; `orders` tells whether it has an `orders` field and whether that is a list.
    Object { orders: Option<bool> },
    /// Neither a list nor an object.
    Other,
}

/// Where the orders of an answer are.
#[derive(Debug, PartialEq, Eq, Structural)]
pub enum OrdersSource {
    /// In the `orders` field of the first element of the list.
    FirstElementOrders,
    /// The list itself.
    WholeList,
    /// In the `orders` field of the object.
    ObjectOrders,
    /// There are none.
    NoOrders,
    /// The object's `orders` field is not a list (an error when `strict`).
    OrdersNotList,
}

/// Where the orders of an answer are: a list whose first element has `orders`
/// holds them there (none when that is not a list); another list is the orders;
/// an object holds them in `orders`, which must be a list when `strict` (else there
/// are none); anything else holds none.
pub fn orders_source(shape: OrdersShape, strict: bool) -> (src: OrdersSource)
    ensures
        src == match shape {
            OrdersShape::List { first_orders } => match first_orders {
                Some(true) => OrdersSource::FirstElementOrders,
                Some(false) => OrdersSource::NoOrders,
                None => OrdersSource::WholeList,
            },
            OrdersShape::Object { orders } => match orders {
                Some(true) => OrdersSource::ObjectOrders,
                Some(false) => if strict {
                    OrdersSource::OrdersNotList
                } else {
                    OrdersSource::NoOrders
                },
                None => OrdersSource::NoOrders,
            },
            OrdersShape::Other => OrdersSource::NoOrders,
        },
{
    match shape {
        OrdersShape::List { first_orders } => match first_orders {
            Some(true) => OrdersSource::FirstElementOrders,
            Some(false) => OrdersSource::NoOrders,
            None => OrdersSource::WholeList,
        },
        OrdersShape::Object { orders } => match orders {
            Some(true) => OrdersSource::ObjectOrders,
            Some(false) => if strict {
                OrdersSource::OrdersNotList
            } else {
                OrdersSource::NoOrders
            },
            None => OrdersSource::NoOrders,
        },
        OrdersShape::Other => OrdersSource::NoOrders,
    }
}

/// A symbol without `_` comes back unchanged from its Gate.io form once every `_`
/// is removed, as the records read from Gate.io's answers are.
pub proof fn lemma_gate_symbol_round_trip(symbol: Seq<char>)
    requires
        !symbol.contains('_'),
    ensures
        replace_all(gate_symbol_of(symbol), "_"@, ""@) == symbol,
{
    reveal_strlit("_");
    reveal_strlit("");
    reveal_strlit("USDT");
    reveal_strlit("_USDT");
    reveal_strlit("USDC");
    reveal_strlit("_USDC");
    reveal_strlit("BTC");
    reveal_strlit("_BTC");
    reveal_strlit("ETH");
    reveal_strlit("_ETH");
    assert("_"@ =~= seq!['_']);
    assert(""@ =~= Seq::<char>::empty());
    assert("_USDT"@ =~= seq!['_'] + "USDT"@);
    assert("_USDC"@ =~= seq!['_'] + "USDC"@);
    assert("_BTC"@ =~= seq!['_'] + "BTC"@);
    assert("_ETH"@ =~= seq!['_'] + "ETH"@);
    lemma_without_marked(symbol, "USDT"@, '_');
    lemma_without_marked(symbol, "USDC"@, '_');
    lemma_without_marked(symbol, "BTC"@, '_');
    lemma_without_marked(symbol, "ETH"@, '_');
    lemma_without_absent(symbol, '_');
}

/// What Gate.io signs: the request's method, path, query (as sent), body digest and
/// time, one per line in this order; the signature is the HMAC-SHA512 of that text
/// under the secret. (Fields are taken without line feeds, as requests have them.)
pub proof fn lemma_gate_signed_lines(
    secret: Seq<char>,
    method: Seq<char>,
    url_path: Seq<char>,
    query: Seq<char>,
    body_hash: Seq<char>,
    timestamp: u64,
)
    requires
        !method.contains('\n'),
        !url_path.contains('\n'),
        !query.contains('\n'),
        !body_hash.contains('\n'),
    ensures
        lf_fields(signing_payload(method, url_path, query, body_hash, timestamp)) == seq![
            method,
            url_path,
            query,
            body_hash,
            decimal(timestamp as nat),
        ],
        signature_of(secret, method, url_path, query, body_hash, timestamp) == hex_lower(
            hmac_sha512_of(
                encode_utf8(secret),
                encode_utf8(signing_payload(method, url_path, query, body_hash, timestamp)),
            ),
        ),
{
    reveal_strlit("\n");
    let nl = "\n"@;
    assert(nl =~= seq!['\n']);
    let t = decimal(timestamp as nat);
    lemma_decimal_digits(timestamp as nat);
    assert(!t.contains('\n')) by {
        if t.contains('\n') {
            let i = choose|i: int| 0 <= i < t.len() && t[i] == '\n';
            assert('0' <= t[i] <= '9');
        }
    }
    let r4 = seq!['\n'] + t;
    let r3 = seq!['\n'] + (body_hash + r4);
    let r2 = seq!['\n'] + (query + r3);
    let r1 = seq!['\n'] + (url_path + r2);
    assert(signing_payload(method, url_path, query, body_hash, timestamp) =~= method + r1);
    lemma_lf_fields_single(t);
    lemma_lf_fields_join(body_hash, t);
    lemma_lf_fields_join(query, body_hash + r4);
    lemma_lf_fields_join(url_path, query + r3);
    lemma_lf_fields_join(method, url_path + r2);
    assert(seq![body_hash] + seq![t] =~= seq![body_hash, t]);
    assert(seq![query] + seq![body_hash, t] =~= seq![query, body_hash, t]);
    assert(seq![url_path] + seq![query, body_hash, t] =~= seq![url_path, query, body_hash, t]);
    assert(seq![method] + seq![url_path, query, body_hash, t] =~= seq![
        method,
        url_path,
        query,
        body_hash,
        t,
    ]);
}

/// A Gate.io account: its API key and secret.
pub struct GateExchange {
    api_key: String,
    api_secret: String,
}

impl GateExchange {
    /// The API key.
    pub closed spec fn key(&self) -> Seq<char> {
        self.api_key@
    }

    /// The API secret.
    pub closed spec fn secret(&self) -> Seq<char> {
        self.api_secret@
    }

    pub fn new(api_key: String, api_secret: String) -> (x: Self)
        ensures
            x.key() == api_key@,
            x.secret() == api_secret@,
    {
        GateExchange { api_key, api_secret }
    }

    /// The API key, sent in the `KEY` header.
    pub fn api_key(&self) -> (k: &str)
        ensures
            k@ == self.key(),
    {
        self.api_key.as_str()
    }

    /// The signature of a request, sent in the `SIGN` header.
    pub fn generate_signature(
        &self,
        method: &str,
        url_path: &str,
        query_string: &str,
        body_hash: &str,
        timestamp: u64,
    ) -> (sig: String)
        ensures
            sig@ == signature_of(
                self.secret(),
                method@,
                url_path@,
                query_string@,
                body_hash@,
                timestamp,
            ),
    {
        let mut payload = owned(method);
        payload.append("\n");
        payload.append(url_path);
        payload.append("\n");
        payload.append(query_string);
        payload.append("\n");
        payload.append(body_hash);
        payload.append("\n");
        let t = u64_text(timestamp);
        payload.append(t.as_str());
        let tag = hmac_sha512(self.api_secret.as_str().as_bytes(), payload.as_str().as_bytes());
        hex_encode(tag.as_slice())
    }
}

} // verus!
