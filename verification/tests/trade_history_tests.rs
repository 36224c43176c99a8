use mexc_grid_trader::exchange::Trade;
use mexc_grid_trader::trade_history::TradeHistory;

fn trade(id: &str, order_id: &str, time: i64) -> Trade {
    Trade {
        symbol: "BTCUSDT".to_string(),
        id: id.to_string(),
        order_id: order_id.to_string(),
        price: "100".to_string(),
        qty: "1".to_string(),
        quote_qty: "100".to_string(),
        commission: "0.1".to_string(),
        commission_asset: "USDT".to_string(),
        time,
        is_buyer: true,
        is_maker: false,
    }
}

#[test]
fn history_file_name() {
    let h = TradeHistory::new("mexc", "BTCUSDT");
    assert_eq!(h.file_path(), ".trades_mexc_BTCUSDT.jsonl");
}

#[test]
fn last_trade_time_is_the_maximum() {
    let h = TradeHistory::new("mexc", "BTCUSDT");
    assert_eq!(h.get_last_trade_time(&[]), None);
    let ts = vec![trade("1", "a", 30), trade("2", "b", 50), trade("3", "c", 10)];
    assert_eq!(h.get_last_trade_time(&ts), Some(50));
}
