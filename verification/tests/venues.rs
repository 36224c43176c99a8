use mexc_grid_trader::exchanges::gate::{
    self, all_orders_queries, batch_client_order_id, batch_order_response, cancel_path,
    client_order_id, is_rate_limited, my_trades_query, open_order_from_fields, orders_source,
    pair_limit_text, placed_order_response, OrdersShape, OrdersSource,
};
use mexc_grid_trader::exchanges::kucoin::{
    self, all_orders_endpoint, batch_outcomes, cancel_endpoint, fills_endpoint,
    history_endpoint, is_trade_account, open_orders_endpoint, order_book_url, order_from_fields,
    placed_order_id, result_limit, BatchItem, KucoinOrderError, PlacedOrderError,
};
use mexc_grid_trader::exchanges::mexc::{
    self, cancel_query_text, join_query, open_orders_query_text, order_params, sign_url,
    symbol_time_limit_text, symbol_time_text, BatchOrderItem, MexcExchange,
};
use mexc_grid_trader::exchanges::{
    batch_count, chunk_ranges, create_exchange, text_or, CreateExchangeError, ExchangeClient,
    ExchangeType,
};
use mexc_grid_trader::mexc_client::MexcClient;

fn s(x: &str) -> Option<String> {
    Some(x.to_string())
}

#[test]
fn mexc_queries() {
    assert_eq!(open_orders_query_text(Some("BTCUSDT"), 12), "symbol=BTCUSDT&timestamp=12");
    assert_eq!(open_orders_query_text(None, 12), "timestamp=12");
    assert_eq!(symbol_time_limit_text("BTCUSDT", 1, 100), "symbol=BTCUSDT&timestamp=1&limit=100");
    assert_eq!(cancel_query_text("BTCUSDT", "77", 3), "symbol=BTCUSDT&orderId=77&timestamp=3");
    assert_eq!(symbol_time_text("BTCUSDT", 0), "symbol=BTCUSDT&timestamp=0");
    assert_eq!(mexc::order_book_limit(None), 5);
    assert_eq!(mexc::order_book_limit(Some(50)), 50);
}

#[test]
fn mexc_order_parameters() {
    let p = order_params("BTCUSDT", "BUY", "0.5", "30000", 99);
    assert_eq!(
        join_query(&p),
        "symbol=BTCUSDT&side=BUY&type=LIMIT&quantity=0.5&price=30000&timestamp=99&timeInForce=GTC"
    );
    assert_eq!(join_query(&[]), "");
    let item = BatchOrderItem::limit("BTCUSDT", "sell", "1", "2");
    assert_eq!(item.side, "SELL");
    assert_eq!(item.order_type, "LIMIT");
    assert_eq!(item.time_in_force, "GTC");
    assert_eq!(item.quantity, "1");
    assert_eq!(item.price, "2");
}

#[test]
fn mexc_urls() {
    let x = MexcExchange::new("k".to_string(), "s".to_string());
    assert_eq!(x.account_url(7), sign_url("s", "/api/v3/account", "timestamp=7"));
    assert_eq!(
        x.open_orders_url(Some("BTCUSDT"), 7),
        sign_url("s", "/api/v3/openOrders", "symbol=BTCUSDT&timestamp=7")
    );
    assert_eq!(
        x.all_orders_url("BTCUSDT", 7, None),
        sign_url("s", "/api/v3/allOrders", "symbol=BTCUSDT&timestamp=7&limit=100")
    );
    assert_eq!(
        x.my_trades_url("BTCUSDT", 7, None),
        sign_url("s", "/api/v3/myTrades", "symbol=BTCUSDT&timestamp=7&limit=500")
    );
    assert_eq!(
        x.my_trades_url("BTCUSDT", 7, Some(10)),
        sign_url("s", "/api/v3/myTrades", "symbol=BTCUSDT&timestamp=7&limit=10")
    );
    assert_eq!(
        x.cancel_order_url("BTCUSDT", "42", 7),
        sign_url("s", "/api/v3/order", "symbol=BTCUSDT&orderId=42&timestamp=7")
    );
    let p = order_params("BTCUSDT", "SELL", "1", "2", 7);
    assert_eq!(x.order_url(&p), sign_url("s", "/api/v3/order", &join_query(&p)));
    let c = MexcClient::new("k".to_string(), "s".to_string());
    assert_eq!(
        c.cancel_all_orders_url("BTCUSDT", 7),
        sign_url("s", "/api/v3/openOrders", "symbol=BTCUSDT&timestamp=7")
    );
}

#[test]
fn gate_requests() {
    assert_eq!(gate::request_url("/api/v4/spot/accounts", ""), "https://api.gateio.ws/api/v4/spot/accounts");
    assert_eq!(
        gate::request_url("/api/v4/spot/orders", "currency_pair=XRP_USDT"),
        "https://api.gateio.ws/api/v4/spot/orders?currency_pair=XRP_USDT"
    );
    assert_eq!(gate::order_book_limit(None), 5);
    assert_eq!(gate::open_orders_query(Some("XRPUSDT")), "currency_pair=XRP_USDT");
    assert_eq!(gate::open_orders_query(None), "");
    assert_eq!(pair_limit_text("XRPUSDT", 10), "currency_pair=XRP_USDT&limit=10");
    let (finished, open) = all_orders_queries("XRPUSDT", None);
    assert_eq!(finished, "currency_pair=XRP_USDT&limit=100&status=finished");
    assert_eq!(open, "currency_pair=XRP_USDT&limit=50");
    let (finished, open) = all_orders_queries("XRPUSDT", Some(7));
    assert_eq!(finished, "currency_pair=XRP_USDT&limit=7&status=finished");
    assert_eq!(open, "currency_pair=XRP_USDT&limit=3");
    assert_eq!(my_trades_query("XRPUSDT", None), "currency_pair=XRP_USDT&limit=100");
    assert_eq!(cancel_path("123"), "/api/v4/spot/orders/123");
    assert_eq!(client_order_id(1700000000000), "t-grid1700000000000");
    assert_eq!(batch_client_order_id(1700000000000, 2, 3), "t-grid1700000000000_11");
    assert!(is_rate_limited("label TOO_MANY_REQUESTS"));
    assert!(is_rate_limited("Rate Limit exceeded"));
    assert!(!is_rate_limited("BALANCE_NOT_ENOUGH"));
}

#[test]
fn gate_records() {
    let t = gate::trade_from_fields(
        s("XRP_USDT"), s("9"), s("8"), s("0.5"), s("10"), s("maker"), s("0.01"), s("USDT"),
        Some(1_700_000_000), s("buy"),
    );
    assert_eq!(t.symbol, "XRPUSDT");
    assert_eq!(t.id, "9");
    assert_eq!(t.order_id, "8");
    assert_eq!(t.quote_qty, "maker");
    assert_eq!(t.time, 1_700_000_000_000);
    assert!(t.is_buyer && t.is_maker);
    let t = gate::trade_from_fields(None, None, None, None, None, None, None, None, None, None);
    assert_eq!(t.symbol, "");
    assert_eq!(t.price, "0");
    assert_eq!(t.quote_qty, "0");
    assert_eq!(t.time, 0);
    assert!(!t.is_buyer && !t.is_maker);

    let o = open_order_from_fields(
        s("XRP_USDT"), s("5"), s("0.5"), s("10"), "2".to_string(), None, "open", s("sell"), None,
        Some(3),
    );
    assert_eq!(o.symbol, "XRPUSDT");
    assert_eq!(o.status, "OPEN");
    assert_eq!(o.side, "SELL");
    assert_eq!(o.order_type, "LIMIT");
    assert_eq!(o.executed_qty, "2");
    assert_eq!(o.time, 3000);

    let b = gate::balance_from_fields(s("USDT"), None, s("1"));
    assert_eq!((b.asset.as_str(), b.free.as_str(), b.locked.as_str()), ("USDT", "0", "1"));

    let r = placed_order_response("XRPUSDT", "buy", "0.5", "10", 77, s("id1"), None, s("11"), None);
    assert_eq!(r.order_id, "id1");
    assert_eq!(r.price, "0.5");
    assert_eq!(r.orig_qty, "11");
    assert_eq!(r.side, "BUY");
    assert_eq!(r.order_type, "LIMIT");
    assert_eq!(r.transact_time, 77);
    let r = batch_order_response(s("XRP_USDT"), None, None, None, s("sell"), Some(5));
    assert_eq!(r.symbol, "XRP_USDT");
    assert_eq!(r.order_id, "");
    assert_eq!(r.price, "0");
    assert_eq!(r.side, "SELL");
    assert_eq!(r.transact_time, 5);
}

#[test]
fn gate_order_listing_shapes() {
    assert_eq!(orders_source(OrdersShape::List { first_orders: Some(true) }, false), OrdersSource::FirstElementOrders);
    assert_eq!(orders_source(OrdersShape::List { first_orders: Some(false) }, true), OrdersSource::NoOrders);
    assert_eq!(orders_source(OrdersShape::List { first_orders: None }, true), OrdersSource::WholeList);
    assert_eq!(orders_source(OrdersShape::Object { orders: Some(true) }, true), OrdersSource::ObjectOrders);
    assert_eq!(orders_source(OrdersShape::Object { orders: Some(false) }, true), OrdersSource::OrdersNotList);
    assert_eq!(orders_source(OrdersShape::Object { orders: Some(false) }, false), OrdersSource::NoOrders);
    assert_eq!(orders_source(OrdersShape::Object { orders: None }, true), OrdersSource::NoOrders);
    assert_eq!(orders_source(OrdersShape::Other, true), OrdersSource::NoOrders);
}

#[test]
fn kucoin_requests() {
    assert_eq!(kucoin::request_url("/api/v1/accounts"), "https://api.kucoin.com/api/v1/accounts");
    assert_eq!(order_book_url(None), "https://api.kucoin.com/api/v1/market/orderbook/level2_20");
    assert_eq!(order_book_url(Some(20)), "https://api.kucoin.com/api/v1/market/orderbook/level2_20");
    assert_eq!(order_book_url(Some(21)), "https://api.kucoin.com/api/v1/market/orderbook/level2_100");
    assert_eq!(open_orders_endpoint(None), "/api/v1/orders?status=active");
    assert_eq!(open_orders_endpoint(Some("BTCUSDT")), "/api/v1/orders?status=active&symbol=BTC-USDT");
    assert_eq!(all_orders_endpoint("BTCUSDT"), "/api/v1/orders?symbol=BTC-USDT");
    assert_eq!(fills_endpoint("ETHBTC"), "/api/v1/fills?symbol=ETH-BTC");
    assert_eq!(cancel_endpoint("abc"), "/api/v1/orders/abc");
    assert_eq!(
        history_endpoint("/api/v1/deposits", Some("USDT"), Some(1), Some(-2)),
        "/api/v1/deposits?currency=USDT&startAt=1&endAt=-2&status=SUCCESS"
    );
    assert_eq!(history_endpoint("/api/v1/withdrawals", None, None, None), "/api/v1/withdrawals?status=SUCCESS");
    assert_eq!(result_limit(None), 100);
    assert_eq!(result_limit(Some(3)), 3);
    assert!(is_trade_account(s("trade")));
    assert!(!is_trade_account(s("main")));
    assert!(!is_trade_account(None));
}

#[test]
fn kucoin_records() {
    let o = order_from_fields(s("BTC-USDT"), s("1"), None, s("2"), None, Some(true), s("buy"), None, Some(9));
    assert_eq!(o.symbol, "BTCUSDT");
    assert_eq!(o.price, "0");
    assert_eq!(o.executed_qty, "0");
    assert_eq!(o.status, "OPEN");
    assert_eq!(o.side, "BUY");
    assert_eq!(o.order_type, "LIMIT");
    assert_eq!(o.time, 9);
    let o = order_from_fields(None, None, None, None, None, None, None, s("market"), None);
    assert_eq!(o.status, "CLOSED");
    assert_eq!(o.order_type, "MARKET");
    let t = kucoin::trade_from_fields(
        s("ETH-BTC"), s("t"), s("o"), s("0.05"), s("1"), s("0.05"), s("0.0001"), s("BTC"),
        Some(123), s("sell"), s("maker"),
    );
    assert_eq!(t.symbol, "ETHBTC");
    assert_eq!(t.quote_qty, "0.05");
    assert!(!t.is_buyer && t.is_maker);
    assert_eq!(t.time, 123);
    let b = kucoin::balance_from_fields(s("BTC"), s("1"), None);
    assert_eq!((b.asset.as_str(), b.free.as_str(), b.locked.as_str()), ("BTC", "1", "0"));
}

#[test]
fn kucoin_batch_answers() {
    let items = vec![
        BatchItem { success: Some(true), order_id: s("a"), msg: None },
        BatchItem { success: Some(true), order_id: None, msg: None },
        BatchItem { success: Some(false), order_id: None, msg: s("too small") },
        BatchItem { success: None, order_id: None, msg: None },
    ];
    let r = batch_outcomes(5, Some(items));
    assert_eq!(r.len(), 5);
    assert!(matches!(&r[0], Ok(id) if id == "a"));
    assert!(matches!(&r[1], Err(KucoinOrderError::OrderIdMissing)));
    assert!(matches!(&r[2], Err(KucoinOrderError::Failed { msg }) if msg == "too small"));
    assert!(matches!(&r[3], Err(KucoinOrderError::Failed { msg }) if msg == "Order placement failed"));
    assert!(matches!(&r[4], Err(KucoinOrderError::NotInResponse)));
    let r = batch_outcomes(2, None);
    assert!(r.iter().all(|x| matches!(x, Err(KucoinOrderError::InvalidResponse))));
    assert_eq!(placed_order_id(true, s("x")), Ok("x".to_string()));
    assert_eq!(placed_order_id(true, None), Err(PlacedOrderError::OrderIdNotFound));
    assert_eq!(placed_order_id(false, s("x")), Err(PlacedOrderError::InvalidResponse));
}

#[test]
fn venue_setup() {
    assert!(matches!(
        create_exchange(&ExchangeType::Mexc, "k".to_string(), "s".to_string(), None),
        Ok(ExchangeClient::Mexc(_))
    ));
    match create_exchange(&ExchangeType::Gate, "gk".to_string(), "s".to_string(), s("ignored")) {
        Ok(ExchangeClient::Gate(g)) => assert_eq!(g.api_key(), "gk"),
        _ => panic!("expected a Gate.io client"),
    }
    assert!(matches!(
        create_exchange(&ExchangeType::Kucoin, "k".to_string(), "s".to_string(), None),
        Err(CreateExchangeError::MissingPassphrase)
    ));
    match create_exchange(&ExchangeType::Kucoin, "kk".to_string(), "s".to_string(), s("p")) {
        Ok(ExchangeClient::Kucoin(k)) => assert_eq!(k.api_key(), "kk"),
        _ => panic!("expected a KuCoin client"),
    }
}

#[test]
fn helpers_for_answers_and_batches() {
    assert_eq!(text_or(s("x"), "d"), "x");
    assert_eq!(text_or(None, "d"), "d");
    assert_eq!(chunk_ranges(10, 4), vec![(0, 4), (4, 8), (8, 10)]);
    assert_eq!(chunk_ranges(8, 4), vec![(0, 4), (4, 8)]);
    assert!(chunk_ranges(0, 4).is_empty());
    assert_eq!(batch_count(10, 4), 3);
    assert_eq!(batch_count(8, 4), 2);
    assert_eq!(batch_count(0, 20), 0);
}
