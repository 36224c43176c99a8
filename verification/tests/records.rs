use mexc_grid_trader::account_snapshot::SnapshotHistory;
use mexc_grid_trader::adjustment::{AdjustmentHistory, AdjustmentType};
use mexc_grid_trader::exchange::Trade;
use mexc_grid_trader::jsonl::{frame_record, frame_records, read_records};
use mexc_grid_trader::trade_history::TradeHistory;

fn fill(id: &str, order_id: &str, time: i64) -> Trade {
    Trade {
        symbol: "BTCUSDT".to_string(),
        id: id.to_string(),
        order_id: order_id.to_string(),
        price: "100".to_string(),
        qty: "1".to_string(),
        quote_qty: "100".to_string(),
        commission: "0.1".to_string(),
        commission_asset: "USDT".to_string(),
        time,
        is_buyer: false,
        is_maker: true,
    }
}

fn keys(ts: &[Trade]) -> Vec<(String, String)> {
    ts.iter().map(|t| (t.id.clone(), t.order_id.clone())).collect()
}

#[test]
fn framing_one_record_adds_a_line_feed() {
    assert_eq!(frame_record("{\"a\":1}"), "{\"a\":1}\n");
    assert_eq!(frame_record(""), "\n");
}

#[test]
fn records_read_back_as_written() {
    let records = vec!["{\"id\":1}".to_string(), "{\"id\":2}".to_string()];
    let text = frame_records(&records);
    assert_eq!(text, "{\"id\":1}\n{\"id\":2}\n");
    assert_eq!(read_records(&text), records);
    let mut appended = text.clone();
    appended.push_str(&frame_record("{\"id\":3}"));
    assert_eq!(read_records(&appended).len(), 3);
    assert_eq!(read_records(&appended)[2], "{\"id\":3}");
}

#[test]
fn reading_skips_blank_lines_and_carriage_returns() {
    let text = "a\r\n\n   \nb\nc";
    assert_eq!(read_records(text), vec!["a".to_string(), "b".to_string(), "c".to_string()]);
    assert!(read_records("").is_empty());
    assert!(read_records("\n\n \t\n").is_empty());
    assert!(read_records("\u{3000}\n\u{a0}\r\n").is_empty());
}

#[test]
fn history_paths() {
    assert_eq!(TradeHistory::new("gate", "ETHUSDT").file_path(), ".trades_gate_ETHUSDT.jsonl");
    assert_eq!(
        SnapshotHistory::new("mexc", "BTCUSDT").file_path(),
        ".account_snapshots_mexc_BTCUSDT.jsonl"
    );
    assert_eq!(
        AdjustmentHistory::new("kucoin", "SOLUSDT").file_path(),
        ".adjustments_kucoin_SOLUSDT.jsonl"
    );
}

#[test]
fn trades_in_range_include_both_ends() {
    let h = TradeHistory::new("mexc", "BTCUSDT");
    let ts = vec![fill("1", "a", 10), fill("2", "b", 20), fill("3", "c", 30), fill("4", "d", 40)];
    let r = h.get_trades_in_range(&ts, 20, 30);
    assert_eq!(keys(&r), vec![("2".to_string(), "b".to_string()), ("3".to_string(), "c".to_string())]);
    assert!(h.get_trades_in_range(&ts, 41, 50).is_empty());
    assert_eq!(h.get_trades_in_range(&ts, 0, 100).len(), 4);
}

#[test]
fn trade_exists_by_id() {
    let h = TradeHistory::new("mexc", "BTCUSDT");
    let ts = vec![fill("1", "a", 10), fill("2", "b", 20)];
    assert!(h.trade_exists(&ts, "2"));
    assert!(!h.trade_exists(&ts, "3"));
    assert!(!h.trade_exists(&[], "1"));
}

#[test]
fn only_later_fills_are_synchronised() {
    let h = TradeHistory::new("mexc", "BTCUSDT");
    let ts = vec![fill("1", "a", 10), fill("2", "b", 20), fill("3", "c", 20), fill("4", "d", 5)];
    let r = h.select_after(&ts, 10);
    assert_eq!(keys(&r), vec![("2".to_string(), "b".to_string()), ("3".to_string(), "c".to_string())]);
}

#[test]
fn new_fills_are_deduplicated_by_id_and_order() {
    let h = TradeHistory::new("mexc", "BTCUSDT");
    let existing = vec![fill("1", "a", 10)];
    // The same trade id with another order id is the other side of one fill: kept.
    let incoming = vec![fill("1", "a", 10), fill("1", "b", 10), fill("2", "c", 20)];
    let added = h.select_new_trades(&existing, &incoming);
    assert_eq!(keys(&added), vec![("1".to_string(), "b".to_string()), ("2".to_string(), "c".to_string())]);
    let mut all: Vec<Trade> = existing.iter().map(|t| t.copy()).collect();
    all.extend(added);
    assert!(h.select_new_trades(&all, &incoming).is_empty());
}

#[test]
fn snapshot_positions() {
    let s = SnapshotHistory::new("mexc", "BTCUSDT");
    assert_eq!(s.recent_start(10, 3), 7);
    assert_eq!(s.recent_start(2, 3), 0);
    assert_eq!(s.recent_start(3, 3), 0);
    assert_eq!(s.previous_index(5), Some(3));
    assert_eq!(s.previous_index(2), Some(0));
    assert_eq!(s.previous_index(1), None);
    assert_eq!(s.previous_index(0), None);
}

#[test]
fn adjustments_between_two_times() {
    let a = AdjustmentHistory::new("mexc", "BTCUSDT");
    assert_eq!(a.select_between(&[5, 10, 15, 20, 10], 10, 15), vec![1, 2, 4]);
    assert!(a.select_between(&[1, 2], 3, 4).is_empty());
    assert_ne!(AdjustmentType::Deposit, AdjustmentType::Withdrawal);
}
