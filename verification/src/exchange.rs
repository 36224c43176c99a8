//! Records exchanged with the trading venues, and how a symbol splits into assets.
use vstd::prelude::*;
use vstd::string::{StrSliceExecFns, StringSliceAdditionalSpecFns};
use vstd::utf8::{encode_utf8, is_char_boundary};
use crate::text::{ends_with, owned, str_ends_with};

verus! {

/// An order book: each level is `[price, quantity, ...]` as the venue prints them.
#[derive(Debug)]
pub struct OrderBook {
    pub bids: Vec<Vec<String>>,
    pub asks: Vec<Vec<String>>,
}

/// The venue's answer to a placed order.
#[derive(Debug)]
pub struct OrderResponse {
    pub symbol: String,
    pub order_id: String,
    pub order_list_id: i64,
    pub price: String,
    pub orig_qty: String,
    pub order_type: String,
    pub stp_mode: String,
    pub side: String,
    pub transact_time: i64,
}

/// An order as listed by the venue (open or historical).
#[derive(Debug)]
pub struct OpenOrder {
    pub symbol: String,
    pub order_id: String,
    pub price: String,
    pub orig_qty: String,
    pub executed_qty: String,
    pub status: String,
    pub side: String,
    pub order_type: String,
    pub time: i64,
}

/// One fill of one of the account's orders.
#[derive(Debug)]
pub struct Trade {
    pub symbol: String,
    pub id: String,
    pub order_id: String,
    pub price: String,
    pub qty: String,
    pub quote_qty: String,
    pub commission: String,
    pub commission_asset: String,
    pub time: i64,
    pub is_buyer: bool,
    pub is_maker: bool,
}

/// The balance of one asset.
#[derive(Debug)]
pub struct Balance {
    pub asset: String,
    pub free: String,
    pub locked: String,
}

/// The balances of an account.
#[derive(Debug)]
pub struct AccountInfo {
    pub balances: Vec<Balance>,
}

impl Trade {
    /// A field-by-field copy.
    pub fn copy(&self) -> (r: Trade)
        ensures
            r == *self,
    {
        Trade {
            symbol: self.symbol.clone(),
            id: self.id.clone(),
            order_id: self.order_id.clone(),
            price: self.price.clone(),
            qty: self.qty.clone(),
            quote_qty: self.quote_qty.clone(),
            commission: self.commission.clone(),
            commission_asset: self.commission_asset.clone(),
            time: self.time,
            is_buyer: self.is_buyer,
            is_maker: self.is_maker,
        }
    }
}

impl OpenOrder {
    /// A field-by-field copy.
    pub fn copy(&self) -> (r: OpenOrder)
        ensures
            r == *self,
    {
        OpenOrder {
            symbol: self.symbol.clone(),
            order_id: self.order_id.clone(),
            price: self.price.clone(),
            orig_qty: self.orig_qty.clone(),
            executed_qty: self.executed_qty.clone(),
            status: self.status.clone(),
            side: self.side.clone(),
            order_type: self.order_type.clone(),
            time: self.time,
        }
    }
}

/// The quote asset a symbol is recognised to end with, tried in this order.
pub open spec fn known_quote(symbol: Seq<char>) -> Option<Seq<char>> {
    if ends_with(symbol, "USDT"@) {
        Some("USDT"@)
    } else if ends_with(symbol, "USDC"@) {
        Some("USDC"@)
    } else if ends_with(symbol, "BTC"@) {
        Some("BTC"@)
    } else if ends_with(symbol, "ETH"@) {
        Some("ETH"@)
    } else {
        None
    }
}

/// Splitting a symbol needs a character boundary four bytes before its end when
/// no known quote asset ends it and it is longer than four bytes.
pub open spec fn symbol_split_ok(symbol: &str) -> bool {
    known_quote(symbol@) is None && symbol.spec_bytes().len() > 4 ==> is_char_boundary(
        symbol.spec_bytes(),
        symbol.spec_bytes().len() - 4,
    )
}

/// Splits a trading symbol into (base asset, quote asset): a known quote asset
/// (`USDT`, `USDC`, `BTC`, `ETH`) at the end is cut off; otherwise the last four
/// bytes are the quote asset, and a symbol of at most four bytes is quoted in `USDT`.
pub fn get_symbol_assets(symbol: &str) -> (r: (String, String))
    requires
        symbol_split_ok(symbol),
    ensures
        known_quote(symbol@) matches Some(q) ==> r.0@ == symbol@.subrange(
            0,
            symbol@.len() - q.len(),
        ) && r.1@ == q,
        known_quote(symbol@) is None && symbol.spec_bytes().len() > 4 ==> encode_utf8(r.0@)
            == symbol.spec_bytes().subrange(0, symbol.spec_bytes().len() - 4) && encode_utf8(r.1@)
            == symbol.spec_bytes().subrange(
            symbol.spec_bytes().len() - 4,
            symbol.spec_bytes().len() as int,
        ),
        known_quote(symbol@) is None && symbol.spec_bytes().len() <= 4 ==> r.0@ == symbol@
            && r.1@ == "USDT"@,
{
    let n = symbol.unicode_len();
    if str_ends_with(symbol, "USDT") {
        proof {
            reveal_strlit("USDT");
        }
        (owned(symbol.substring_char(0, n - 4)), owned("USDT"))
    } else if str_ends_with(symbol, "USDC") {
        proof {
            reveal_strlit("USDC");
        }
        (owned(symbol.substring_char(0, n - 4)), owned("USDC"))
    } else if str_ends_with(symbol, "BTC") {
        proof {
            reveal_strlit("BTC");
        }
        (owned(symbol.substring_char(0, n - 3)), owned("BTC"))
    } else if str_ends_with(symbol, "ETH") {
        proof {
            reveal_strlit("ETH");
        }
        (owned(symbol.substring_char(0, n - 3)), owned("ETH"))
    } else {
        let len = symbol.as_bytes().len();
        if len > 4 {
            let (base, quote) = symbol.split_at(len - 4);
            (owned(base), owned(quote))
        } else {
            (owned(symbol), owned("USDT"))
        }
    }
}

} // verus!
