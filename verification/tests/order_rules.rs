use mexc_grid_trader::exchange::OpenOrder;
use mexc_grid_trader::orders::{
    closed_fetch_limit, is_confirmed, is_yes, newest_first, order_by_time, period_millis, recent_trades_start,
    select_closed_orders, sync_start_time, trim,
};

fn order(id: &str, status: &str) -> OpenOrder {
    OpenOrder {
        symbol: "BTCUSDT".to_string(),
        order_id: id.to_string(),
        price: "1".to_string(),
        orig_qty: "1".to_string(),
        executed_qty: "0".to_string(),
        status: status.to_string(),
        side: "BUY".to_string(),
        order_type: "LIMIT".to_string(),
        time: 0,
    }
}

#[test]
fn trimming_white_space() {
    assert_eq!(trim("  yes \n"), "yes");
    assert_eq!(trim("\t\r\n"), "");
    assert_eq!(trim("a b"), "a b");
}

#[test]
fn confirmation_answers() {
    assert!(is_confirmed("yes"));
    assert!(is_confirmed("  YES\n"));
    assert!(is_confirmed("Yes"));
    assert!(!is_confirmed("y"));
    assert!(!is_confirmed("no"));
    assert!(!is_confirmed("yes please"));
}

#[test]
fn closed_orders_are_selected_in_order() {
    let os = vec![
        order("1", "NEW"),
        order("2", "FILLED"),
        order("3", "PARTIALLY_FILLED"),
        order("4", "CANCELED"),
        order("5", "FILLED"),
    ];
    let ids: Vec<String> = select_closed_orders(&os, 2).iter().map(|o| o.order_id.clone()).collect();
    assert_eq!(ids, vec!["2".to_string(), "4".to_string()]);
    assert_eq!(select_closed_orders(&os, 10).len(), 3);
    assert!(select_closed_orders(&os, 0).is_empty());
    assert_eq!(closed_fetch_limit(20), 120);
}

#[test]
fn recent_fills_window() {
    assert_eq!(recent_trades_start(100, 30), 70);
    assert_eq!(recent_trades_start(20, 30), 0);
    assert_eq!(recent_trades_start(100, 0), 0);
}

#[test]
fn fills_sorted_by_time_stably() {
    assert_eq!(order_by_time(&[30, 10, 30, 20]), vec![1, 3, 0, 2]);
    assert_eq!(order_by_time(&[5, 5, 5]), vec![0, 1, 2]);
    assert!(order_by_time(&[]).is_empty());
}

#[test]
fn synchronisation_start() {
    assert_eq!(sync_start_time(Some(5), Some(1), 100), 5);
    assert_eq!(sync_start_time(None, Some(1_700_000_000), 0), 1_700_000_000_000);
    assert_eq!(sync_start_time(None, None, 2_592_000 + 10), 10_000);
}

#[test]
fn periods_in_milliseconds() {
    assert_eq!(period_millis(1, 2), (1000, 2000));
    assert_eq!(period_millis(-3, 0), (-3000, 0));
}

#[test]
fn unicode_white_space_is_trimmed() {
    assert_eq!(trim("\u{3000}yes\u{85}\u{2009}"), "yes");
    assert_eq!(trim("\u{a0}\u{1680}a\u{2028}\u{2029}\u{202f}\u{205f}"), "a");
    // A zero-width space is not white space.
    assert_eq!(trim("\u{200b}x"), "\u{200b}x");
    assert!(is_confirmed("\u{a0}YES\u{2028}"));
    assert!(is_yes("yes"));
    assert!(!is_yes("YES"));
    assert!(!is_yes(" yes"));
}

#[test]
fn orders_newest_first_stably() {
    assert_eq!(newest_first(&[30, 10, 30, 20]), vec![0, 2, 3, 1]);
    assert_eq!(newest_first(&[1, 2, 3]), vec![2, 1, 0]);
    assert_eq!(newest_first(&[7, 7]), vec![0, 1]);
    assert!(newest_first(&[]).is_empty());
}
