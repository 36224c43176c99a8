//! KuCoin: requests signed with HMAC-SHA256 over time, method, endpoint and body,
//! in base64; the passphrase is sent signed the same way; symbols written `BASE-QUOTE`.
use vstd::prelude::*;
use vstd::string::StringExecFns;
use vstd::utf8::encode_utf8;
use crate::crypto::{base64_encode, base64_standard, hmac_sha256, hmac_sha256_of};
use crate::exchange::{Balance, OpenOrder, Trade};
use crate::exchanges::{text_or, text_or_spec};
use crate::text::{
    decimal, ends_with, i64_text, lemma_without_absent, lemma_without_marked, owned,
    replace_all, signed_decimal, str_ends_with, str_replace_all, to_uppercase, u64_text,
    uppercase_of,
};

verus! {

/// KuCoin's form of a symbol: `-` put before the known quote asset that ends it
/// (at every place that asset occurs); other symbols unchanged.
pub open spec fn kucoin_symbol_of(symbol: Seq<char>) -> Seq<char> {
    if ends_with(symbol, "USDT"@) {
        replace_all(symbol, "USDT"@, "-USDT"@)
    } else if ends_with(symbol, "USDC"@) {
        replace_all(symbol, "USDC"@, "-USDC"@)
    } else if ends_with(symbol, "BTC"@) {
        replace_all(symbol, "BTC"@, "-BTC"@)
    } else if ends_with(symbol, "ETH"@) {
        replace_all(symbol, "ETH"@, "-ETH"@)
    } else {
        symbol
    }
}

/// The signature of a request: HMAC-SHA256 of time, method, endpoint and body
/// (UTF-8) under the secret, in base64.
pub open spec fn signature_of(
    secret: Seq<char>,
    timestamp: u64,
    method: Seq<char>,
    endpoint: Seq<char>,
    body: Seq<char>,
) -> Seq<char> {
    base64_standard(
        hmac_sha256_of(
            encode_utf8(secret),
            encode_utf8(decimal(timestamp as nat) + method + endpoint + body),
        ),
    )
}

/// The passphrase as sent: HMAC-SHA256 of it under the secret, in base64.
pub open spec fn passphrase_signature_of(secret: Seq<char>, passphrase: Seq<char>) -> Seq<char> {
    base64_standard(hmac_sha256_of(encode_utf8(secret), encode_utf8(passphrase)))
}

/// KuCoin's form of a symbol.
pub fn kucoin_symbol(symbol: &str) -> (s: String)
    ensures
        s@ == kucoin_symbol_of(symbol@),
{
    proof {
        reveal_strlit("USDT");
        reveal_strlit("USDC");
        reveal_strlit("BTC");
        reveal_strlit("ETH");
    }
    if str_ends_with(symbol, "USDT") {
        str_replace_all(symbol, "USDT", "-USDT")
    } else if str_ends_with(symbol, "USDC") {
        str_replace_all(symbol, "USDC", "-USDC")
    } else if str_ends_with(symbol, "BTC") {
        str_replace_all(symbol, "BTC", "-BTC")
    } else if str_ends_with(symbol, "ETH") {
        str_replace_all(symbol, "ETH", "-ETH")
    } else {
        owned(symbol)
    }
}

/// The URL of an endpoint.
pub fn request_url(endpoint: &str) -> (url: String)
    ensures
        url@ == "https://api.kucoin.com"@ + endpoint@,
{
    let mut url = owned("https://api.kucoin.com");
    url.append(endpoint);
    url
}

/// The URL of the order book: 20 levels when at most 20 are asked for (5 unless
/// given), else 100.
pub fn order_book_url(limit: Option<u32>) -> (url: String)
    ensures
        url@ == "https://api.kucoin.com/api/v1/market/orderbook/level2_"@ + if match limit {
            Some(x) => x,
            None => 5u32,
        } <= 20 {
            "20"@
        } else {
            "100"@
        },
{
    let l = match limit {
        Some(x) => x,
        None => 5,
    };
    let mut url = owned("https://api.kucoin.com/api/v1/market/orderbook/level2_");
    if l <= 20 {
        url.append("20");
    } else {
        url.append("100");
    }
    url
}

/// The endpoint of the active orders, of one symbol or of all.
pub fn open_orders_endpoint(symbol: Option<&str>) -> (e: String)
    ensures
        e@ == match symbol {
            Some(s) => "/api/v1/orders?status=active"@ + "&symbol="@ + kucoin_symbol_of(s@),
            None => "/api/v1/orders?status=active"@,
        },
{
    let mut e = owned("/api/v1/orders?status=active");
    match symbol {
        Some(s) => {
            let k = kucoin_symbol(s);
            e.append("&symbol=");
            e.append(k.as_str());
        },
        None => {},
    }
    e
}

/// The endpoint of the orders of a symbol.
pub fn all_orders_endpoint(symbol: &str) -> (e: String)
    ensures
        e@ == "/api/v1/orders?symbol="@ + kucoin_symbol_of(symbol@),
{
    let k = kucoin_symbol(symbol);
    let mut e = owned("/api/v1/orders?symbol=");
    e.append(k.as_str());
    e
}

/// The endpoint of the fills of a symbol.
pub fn fills_endpoint(symbol: &str) -> (e: String)
    ensures
        e@ == "/api/v1/fills?symbol="@ + kucoin_symbol_of(symbol@),
{
    let k = kucoin_symbol(symbol);
    let mut e = owned("/api/v1/fills?symbol=");
    e.append(k.as_str());
    e
}

/// The endpoint that cancels one order.
pub fn cancel_endpoint(order_id: &str) -> (e: String)
    ensures
        e@ == "/api/v1/orders/"@ + order_id@,
{
    let mut e = owned("/api/v1/orders/");
    e.append(order_id);
    e
}

/// The query of a deposit or withdrawal history: currency, start and end when
/// given, and only successful transfers.
pub open spec fn history_query(asset: Option<Seq<char>>, start: Option<i64>, end: Option<i64>) -> Seq<
    char,
> {
    (match asset {
        Some(a) => "currency="@ + a + "&"@,
        None => Seq::<char>::empty(),
    }) + (match start {
        Some(s) => "startAt="@ + signed_decimal(s as int) + "&"@,
        None => Seq::<char>::empty(),
    }) + (match end {
        Some(e) => "endAt="@ + signed_decimal(e as int) + "&"@,
        None => Seq::<char>::empty(),
    }) + "status=SUCCESS"@
}

/// The endpoint of a deposit or withdrawal history (`path` is its base).
pub fn history_endpoint(path: &str, asset: Option<&str>, start: Option<i64>, end: Option<i64>) -> (e:
    String)
    ensures
        e@ == path@ + "?"@ + history_query(
            match asset {
                Some(a) => Some(a@),
                None => None,
            },
            start,
            end,
        ),
{
    let mut e = owned(path);
    e.append("?");
    let ghost base = e@;
    match asset {
        Some(a) => {
            e.append("currency=");
            e.append(a);
            e.append("&");
        },
        None => {},
    }
    let ghost after_asset = e@;
    match start {
        Some(s) => {
            e.append("startAt=");
            let t = i64_text(s);
            e.append(t.as_str());
            e.append("&");
        },
        None => {},
    }
    let ghost after_start = e@;
    match end {
        Some(x) => {
            e.append("endAt=");
            let t = i64_text(x);
            e.append(t.as_str());
            e.append("&");
        },
        None => {},
    }
    e.append("status=SUCCESS");
    assert(e@ =~= path@ + "?"@ + history_query(
        match asset {
            Some(a) => Some(a@),
            None => None,
        },
        start,
        end,
    ));
    e
}

/// How many listed items are kept: 100 unless given.
pub fn result_limit(limit: Option<u32>) -> (n: u32)
    ensures
        n == match limit {
            Some(x) => x,
            None => 100u32,
        },
{
    match limit {
        Some(x) => x,
        None => 100,
    }
}

/// Whether an account is a spot trading account (its type is `trade`).
pub fn is_trade_account(account_type: Option<String>) -> (b: bool)
    ensures
        b == (text_or_spec(account_type, ""@) == "trade"@),
{
    let t = text_or(account_type, "");
    let trade = owned("trade");
    t == trade
}

/// A symbol of KuCoin's form with its `-` removed.
pub open spec fn plain_symbol_of(symbol: Option<String>) -> Seq<char> {
    replace_all(text_or_spec(symbol, ""@), "-"@, ""@)
}

fn plain_symbol(symbol: Option<String>) -> (s: String)
    ensures
        s@ == plain_symbol_of(symbol),
{
    proof {
        reveal_strlit("-");
    }
    let p = text_or(symbol, "");
    str_replace_all(p.as_str(), "-", "")
}

/// An order as KuCoin lists it: missing texts become `""` (symbol, id, side),
/// `"0"` (price, size, dealt size) or `"limit"` (type); side and type in upper
/// case; status `OPEN` when active, else `CLOSED`; time in milliseconds as given.
pub fn order_from_fields(
    symbol: Option<String>,
    id: Option<String>,
    price: Option<String>,
    size: Option<String>,
    deal_size: Option<String>,
    is_active: Option<bool>,
    side: Option<String>,
    order_type: Option<String>,
    created_at: Option<i64>,
) -> (o: OpenOrder)
    ensures
        o.symbol@ == plain_symbol_of(symbol),
        o.order_id@ == text_or_spec(id, ""@),
        o.price@ == text_or_spec(price, "0"@),
        o.orig_qty@ == text_or_spec(size, "0"@),
        o.executed_qty@ == text_or_spec(deal_size, "0"@),
        o.status@ == if is_active == Some(true) {
            "OPEN"@
        } else {
            "CLOSED"@
        },
        o.side@ == uppercase_of(text_or_spec(side, ""@)),
        o.order_type@ == uppercase_of(text_or_spec(order_type, "limit"@)),
        o.time == match created_at {
            Some(c) => c,
            None => 0,
        },
{
    let side_text = text_or(side, "");
    let type_text = text_or(order_type, "limit");
    let active = match is_active {
        Some(b) => b,
        None => false,
    };
    OpenOrder {
        symbol: plain_symbol(symbol),
        order_id: text_or(id, ""),
        price: text_or(price, "0"),
        orig_qty: text_or(size, "0"),
        executed_qty: text_or(deal_size, "0"),
        status: if active {
            owned("OPEN")
        } else {
            owned("CLOSED")
        },
        side: to_uppercase(side_text.as_str()),
        order_type: to_uppercase(type_text.as_str()),
        time: match created_at {
            Some(c) => c,
            None => 0,
        },
    }
}

/// A fill as KuCoin reports it: missing texts become `""` (symbol, ids, fee
/// currency) or `"0"` (price, size, funds, fee); the buyer side is `buy`, the
/// maker liquidity `maker`; time in milliseconds as given.
pub fn trade_from_fields(
    symbol: Option<String>,
    trade_id: Option<String>,
    order_id: Option<String>,
    price: Option<String>,
    size: Option<String>,
    funds: Option<String>,
    fee: Option<String>,
    fee_currency: Option<String>,
    created_at: Option<i64>,
    side: Option<String>,
    liquidity: Option<String>,
) -> (t: Trade)
    ensures
        t.symbol@ == plain_symbol_of(symbol),
        t.id@ == text_or_spec(trade_id, ""@),
        t.order_id@ == text_or_spec(order_id, ""@),
        t.price@ == text_or_spec(price, "0"@),
        t.qty@ == text_or_spec(size, "0"@),
        t.quote_qty@ == text_or_spec(funds, "0"@),
        t.commission@ == text_or_spec(fee, "0"@),
        t.commission_asset@ == text_or_spec(fee_currency, ""@),
        t.time == match created_at {
            Some(c) => c,
            None => 0,
        },
        t.is_buyer == (text_or_spec(side, ""@) == "buy"@),
        t.is_maker == (text_or_spec(liquidity, ""@) == "maker"@),
{
    let side_text = text_or(side, "");
    let liquidity_text = text_or(liquidity, "");
    let buy = owned("buy");
    let maker = owned("maker");
    Trade {
        symbol: plain_symbol(symbol),
        id: text_or(trade_id, ""),
        order_id: text_or(order_id, ""),
        price: text_or(price, "0"),
        qty: text_or(size, "0"),
        quote_qty: text_or(funds, "0"),
        commission: text_or(fee, "0"),
        commission_asset: text_or(fee_currency, ""),
        time: match created_at {
            Some(c) => c,
            None => 0,
        },
        is_buyer: side_text == buy,
        is_maker: liquidity_text == maker,
    }
}

/// A balance as KuCoin reports it: missing currency becomes `""`, missing amounts
/// `"0"`; what is on hold is the locked amount.
pub fn balance_from_fields(currency: Option<String>, available: Option<String>, holds: Option<
    String,
>) -> (b: Balance)
    ensures
        b.asset@ == text_or_spec(currency, ""@),
        b.free@ == text_or_spec(available, "0"@),
        b.locked@ == text_or_spec(holds, "0"@),
{
    Balance {
        asset: text_or(currency, ""),
        free: text_or(available, "0"),
        locked: text_or(holds, "0"),
    }
}

/// One item of KuCoin's answer to a batch of orders.
pub struct BatchItem {
    pub success: Option<bool>,
    pub order_id: Option<String>,
    pub msg: Option<String>,
}

/// Why one order of a batch was not placed.
#[derive(Debug)]
pub enum KucoinOrderError {
    /// The venue reported success without an order id.
    OrderIdMissing,
    /// The venue refused the order with this message.
    Failed { msg: String },
    /// The answer had fewer items than the batch had orders.
    NotInResponse,
    /// The answer had no list of items.
    InvalidResponse,
}

/// `outcome` is what one item of the answer says of its order: its order id when
/// it succeeded, else why it failed (the venue's message, or
/// `Order placement failed` without one).
pub open spec fn item_outcome(item: BatchItem, outcome: Result<String, KucoinOrderError>) -> bool {
    if item.success == Some(true) {
        match item.order_id {
            Some(id) => outcome matches Ok(x) && x@ == id@,
            None => outcome matches Err(KucoinOrderError::OrderIdMissing),
        }
    } else {
        outcome matches Err(KucoinOrderError::Failed { msg }) && msg@ == text_or_spec(
            item.msg,
            "Order placement failed"@,
        )
    }
}

/// The outcome of each of the `batch_len` orders of a batch from the venue's
/// items, one for one and in order: items beyond the batch are ignored, orders
/// beyond the items are `NotInResponse`, and without items every order is
/// `InvalidResponse`.
pub fn batch_outcomes(batch_len: usize, items: Option<Vec<BatchItem>>) -> (r: Vec<
    Result<String, KucoinOrderError>,
>)
    ensures
        r@.len() == batch_len,
        forall|i: int|
            #![trigger r@[i]]
            0 <= i < batch_len ==> match items {
                None => r@[i] matches Err(KucoinOrderError::InvalidResponse),
                Some(v) => if i < v@.len() {
                    item_outcome(v@[i], r@[i])
                } else {
                    r@[i] matches Err(KucoinOrderError::NotInResponse)
                },
            },
{
    let mut r: Vec<Result<String, KucoinOrderError>> = Vec::new();
    match items {
        None => {
            let mut i: usize = 0;
            while i < batch_len
                invariant
                    i <= batch_len,
                    r@.len() == i,
                    items is None,
                    forall|j: int| 0 <= j < i ==> #[trigger] r@[j] matches Err(KucoinOrderError::InvalidResponse),
                decreases batch_len - i,
            {
                r.push(Err(KucoinOrderError::InvalidResponse));
                i = i + 1;
            }
        },
        Some(v) => {
            let mut i: usize = 0;
            while i < batch_len
                invariant
                    i <= batch_len,
                    r@.len() == i,
                    items == Some(v),
                    forall|j: int|
                        #![trigger r@[j]]
                        0 <= j < i ==> if j < v@.len() {
                            item_outcome(v@[j], r@[j])
                        } else {
                            r@[j] matches Err(KucoinOrderError::NotInResponse)
                        },
                decreases batch_len - i,
            {
                if i < v.len() {
                    let item = &v[i];
                    let ok = match item.success {
                        Some(b) => b,
                        None => false,
                    };
                    if ok {
                        match &item.order_id {
                            Some(id) => r.push(Ok(id.clone())),
                            None => r.push(Err(KucoinOrderError::OrderIdMissing)),
                        }
                    } else {
                        let msg = match &item.msg {
                            Some(m) => m.clone(),
                            None => owned("Order placement failed"),
                        };
                        r.push(Err(KucoinOrderError::Failed { msg }));
                    }
                } else {
                    r.push(Err(KucoinOrderError::NotInResponse));
                }
                i = i + 1;
            }
        },
    }
    r
}

/// Why KuCoin's answer to one placed order gave no order id.
#[derive(Debug, PartialEq, Eq, Structural)]
pub enum PlacedOrderError {
    /// The answer has `data` without an `orderId` text.
    OrderIdNotFound,
    /// The answer has no `data`.
    InvalidResponse,
}

/// The id of a placed order from KuCoin's answer: the `orderId` text of its `data`.
pub fn placed_order_id(has_data: bool, order_id: Option<String>) -> (r: Result<
    String,
    PlacedOrderError,
>)
    ensures
        !has_data ==> r == Err::<String, PlacedOrderError>(PlacedOrderError::InvalidResponse),
        has_data ==> match order_id {
            Some(id) => r == Ok::<String, PlacedOrderError>(id),
            None => r == Err::<String, PlacedOrderError>(PlacedOrderError::OrderIdNotFound),
        },
{
    if !has_data {
        return Err(PlacedOrderError::InvalidResponse);
    }
    match order_id {
        Some(id) => Ok(id),
        None => Err(PlacedOrderError::OrderIdNotFound),
    }
}

/// A symbol without `-` comes back unchanged from its KuCoin form once every `-`
/// is removed, as the records read from KuCoin's answers are.
pub proof fn lemma_kucoin_symbol_round_trip(symbol: Seq<char>)
    requires
        !symbol.contains('-'),
    ensures
        replace_all(kucoin_symbol_of(symbol), "-"@, ""@) == symbol,
{
    reveal_strlit("-");
    reveal_strlit("");
    reveal_strlit("USDT");
    reveal_strlit("-USDT");
    reveal_strlit("USDC");
    reveal_strlit("-USDC");
    reveal_strlit("BTC");
    reveal_strlit("-BTC");
    reveal_strlit("ETH");
    reveal_strlit("-ETH");
    assert("-"@ =~= seq!['-']);
    assert(""@ =~= Seq::<char>::empty());
    assert("-USDT"@ =~= seq!['-'] + "USDT"@);
    assert("-USDC"@ =~= seq!['-'] + "USDC"@);
    assert("-BTC"@ =~= seq!['-'] + "BTC"@);
    assert("-ETH"@ =~= seq!['-'] + "ETH"@);
    lemma_without_marked(symbol, "USDT"@, '-');
    lemma_without_marked(symbol, "USDC"@, '-');
    lemma_without_marked(symbol, "BTC"@, '-');
    lemma_without_marked(symbol, "ETH"@, '-');
    lemma_without_absent(symbol, '-');
}

/// What KuCoin signs: the decimal time followed by the method, the endpoint and the
/// body, the body last. So signing a body is signing the endpoint with the body
/// appended and no body, and the method and endpoint join with nothing between them.
pub proof fn lemma_kucoin_signed_text(
    secret: Seq<char>,
    timestamp: u64,
    method: Seq<char>,
    endpoint: Seq<char>,
    body: Seq<char>,
)
    ensures
        signature_of(secret, timestamp, method, endpoint, body) == signature_of(
            secret,
            timestamp,
            method,
            endpoint + body,
            Seq::<char>::empty(),
        ),
        signature_of(secret, timestamp, method, endpoint, body) == signature_of(
            secret,
            timestamp,
            method + endpoint,
            Seq::<char>::empty(),
            body,
        ),
        signature_of(secret, timestamp, method, endpoint, body) == base64_standard(
            hmac_sha256_of(
                encode_utf8(secret),
                encode_utf8(decimal(timestamp as nat) + (method + (endpoint + body))),
            ),
        ),
{
    let d = decimal(timestamp as nat);
    let e = Seq::<char>::empty();
    assert(d + method + endpoint + body =~= d + method + (endpoint + body) + e);
    assert(d + method + endpoint + body =~= d + (method + endpoint) + e + body);
    assert(d + method + endpoint + body =~= d + (method + (endpoint + body)));
}

/// A KuCoin account: its API key, secret and passphrase.
pub struct KucoinExchange {
    api_key: String,
    api_secret: String,
    api_passphrase: String,
}

impl KucoinExchange {
    /// The API key.
    pub closed spec fn key(&self) -> Seq<char> {
        self.api_key@
    }

    /// The API secret.
    pub closed spec fn secret(&self) -> Seq<char> {
        self.api_secret@
    }

    /// The API passphrase.
    pub closed spec fn passphrase(&self) -> Seq<char> {
        self.api_passphrase@
    }

    pub fn new(api_key: String, api_secret: String, api_passphrase: String) -> (x: Self)
        ensures
            x.key() == api_key@,
            x.secret() == api_secret@,
            x.passphrase() == api_passphrase@,
    {
        KucoinExchange { api_key, api_secret, api_passphrase }
    }

    /// The API key, sent in the `KC-API-KEY` header.
    pub fn api_key(&self) -> (k: &str)
        ensures
            k@ == self.key(),
    {
        self.api_key.as_str()
    }

    /// The signature of a request, sent in the `KC-API-SIGN` header.
    pub fn generate_signature(&self, timestamp: u64, method: &str, endpoint: &str, body: &str) -> (sig:
        String)
        ensures
            sig@ == signature_of(self.secret(), timestamp, method@, endpoint@, body@),
    {
        let mut text = u64_text(timestamp);
        text.append(method);
        text.append(endpoint);
        text.append(body);
        let tag = hmac_sha256(self.api_secret.as_str().as_bytes(), text.as_str().as_bytes());
        base64_encode(tag.as_slice())
    }

    /// The passphrase as sent in the `KC-API-PASSPHRASE` header.
    pub fn generate_passphrase_signature(&self) -> (sig: String)
        ensures
            sig@ == passphrase_signature_of(self.secret(), self.passphrase()),
    {
        let tag = hmac_sha256(
            self.api_secret.as_str().as_bytes(),
            self.api_passphrase.as_str().as_bytes(),
        );
        base64_encode(tag.as_slice())
    }
}

} // verus!
