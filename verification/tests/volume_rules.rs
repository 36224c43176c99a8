use mexc_grid_trader::volume::{
    is_gone_message, is_network_error, is_order_gone_error, key_preview, needs_cancel, needs_confirmation,
    required_balance_checks, total_executions, Direction, VolumeAction, VolumeError,
    VolumeSession,
};

#[test]
fn direction_parsing_ignores_case() {
    assert_eq!(Direction::parse("buy").unwrap(), Direction::Buy);
    assert_eq!(Direction::parse("SELL").unwrap(), Direction::Sell);
    assert_eq!(Direction::parse("Buy").unwrap(), Direction::Buy);
    match Direction::parse("Hold") {
        Err(VolumeError::InvalidDirection { given }) => assert_eq!(given, "hold"),
        Ok(_) => panic!("hold is no direction"),
    }
    assert!(Direction::parse(" buy").is_err());
}

#[test]
fn direction_sides() {
    assert_eq!(Direction::Buy.opposite(), Direction::Sell);
    assert_eq!(Direction::Sell.opposite(), Direction::Buy);
    assert_eq!(Direction::Buy.name(), "buy");
    assert_eq!(Direction::Sell.name(), "sell");
    assert_eq!(Direction::Buy.maker_side(), "SELL");
    assert_eq!(Direction::Buy.taker_side(), "BUY");
    assert_eq!(Direction::Sell.maker_side(), "BUY");
    assert_eq!(Direction::Sell.taker_side(), "SELL");
}

#[test]
fn balance_checks_per_direction() {
    let c = required_balance_checks(Direction::Buy, 0);
    assert!(c.maker_base && !c.maker_quote && !c.taker_base && c.taker_quote);
    let c = required_balance_checks(Direction::Sell, 0);
    assert!(!c.maker_base && c.maker_quote && c.taker_base && !c.taker_quote);
    let c = required_balance_checks(Direction::Sell, 2);
    assert!(c.maker_base && c.maker_quote && c.taker_base && c.taker_quote);
}

#[test]
fn confirmation_and_run_length() {
    assert!(needs_confirmation(1, 0));
    assert!(!needs_confirmation(2, 0));
    assert!(!needs_confirmation(1, 1));
    assert_eq!(total_executions(3, 0), 3);
    assert_eq!(total_executions(3, 2), 9);
    assert_eq!(total_executions(0, 5), 0);
}

#[test]
fn error_classification() {
    assert!(is_network_error("error sending request for url"));
    assert!(is_network_error("dns error: failed to lookup"));
    assert!(is_network_error("connection reset"));
    assert!(!is_network_error("Insufficient balance"));
    assert!(is_order_gone_error("Order FILLED already"));
    assert!(is_order_gone_error("订单已成交"));
    assert!(is_order_gone_error("Order does NOT EXIST"));
    assert!(is_order_gone_error("ORDER_NOT_FOUND"));
    assert!(!is_order_gone_error("signature mismatch"));
}

#[test]
fn leftover_orders_to_cancel() {
    assert!(!needs_cancel("FILLED"));
    assert!(!needs_cancel("CANCELED"));
    assert!(needs_cancel("NEW"));
    assert!(needs_cancel("PARTIALLY_FILLED"));
    assert!(needs_cancel("filled"));
}

#[test]
fn key_preview_is_eight_bytes() {
    assert_eq!(key_preview("mx0vglABCDEFG"), "mx0vglAB");
    assert_eq!(key_preview("short"), "short");
    assert_eq!(key_preview(""), "");
}

fn run(direction: Direction, repeat: u32, toggle: u32) -> Vec<(Direction, u64)> {
    let mut s = VolumeSession::start(direction, repeat, toggle);
    let mut done = Vec::new();
    loop {
        match s.next_action() {
            VolumeAction::Execute { direction, round } => {
                done.push((direction, round));
                s.round_succeeded();
            }
            VolumeAction::SwitchDirection { next } => {
                assert_eq!(next, s.direction.opposite());
                s.switch_direction();
            }
            VolumeAction::Finished => break,
        }
    }
    done
}

#[test]
fn session_runs_every_round_of_every_phase() {
    let rounds = run(Direction::Buy, 2, 2);
    assert_eq!(rounds.len() as u32, total_executions(2, 2));
    assert_eq!(
        rounds,
        vec![
            (Direction::Buy, 1),
            (Direction::Buy, 2),
            (Direction::Sell, 1),
            (Direction::Sell, 2),
            (Direction::Buy, 1),
            (Direction::Buy, 2),
        ]
    );
    assert_eq!(run(Direction::Sell, 1, 0), vec![(Direction::Sell, 1)]);
    assert!(run(Direction::Sell, 0, 3).is_empty());
}

#[test]
fn round_succeeded_tells_whether_the_phase_goes_on() {
    let mut s = VolumeSession::start(Direction::Buy, 2, 0);
    assert!(s.round_succeeded());
    assert!(!s.round_succeeded());
    assert_eq!(s.next_action(), VolumeAction::Finished);
}

#[test]
fn lower_cased_directions_and_messages() {
    assert_eq!(Direction::from_lowercase("buy".to_string()).unwrap(), Direction::Buy);
    assert_eq!(Direction::from_lowercase("sell".to_string()).unwrap(), Direction::Sell);
    match Direction::from_lowercase("BUY".to_string()) {
        Err(VolumeError::InvalidDirection { given }) => assert_eq!(given, "BUY"),
        Ok(_) => panic!("only the lower-cased text is read"),
    }
    assert!(is_gone_message("order filled"));
    assert!(is_gone_message("order_not_found"));
    assert!(!is_gone_message("ORDER_NOT_FOUND"));
    assert!(!is_gone_message("rate limit"));
}
