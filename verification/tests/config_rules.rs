use mexc_grid_trader::config::{
    default_enable_guard_order, default_orderbook_depth, first_name_match, needs_order_history,
    select_volume_exchange, state_file, validate_exchanges, ConfigError, ExchangeConfig,
    MidPriceMethod,
};

fn venue(name: &str, key: &str, secret: &str) -> ExchangeConfig {
    ExchangeConfig {
        name: name.to_string(),
        api_key: key.to_string(),
        api_secret: secret.to_string(),
        api_passphrase: None,
    }
}

#[test]
fn defaults() {
    assert_eq!(default_orderbook_depth(), 20);
    assert!(default_enable_guard_order());
    assert_eq!(MidPriceMethod::default(), MidPriceMethod::Simple);
}

#[test]
fn order_history_only_for_volume_threshold() {
    assert!(!needs_order_history(MidPriceMethod::Simple, MidPriceMethod::WeightedByVolume));
    assert!(needs_order_history(MidPriceMethod::VolumeThreshold, MidPriceMethod::Simple));
    assert!(needs_order_history(MidPriceMethod::Simple, MidPriceMethod::VolumeThreshold));
}

#[test]
fn valid_configuration_passes() {
    let v = vec![venue("mexc", "k", "s"), venue("gate", "k2", "s2")];
    assert!(validate_exchanges(&v, "BTCUSDT").is_ok());
}

#[test]
fn each_configuration_error() {
    assert!(matches!(validate_exchanges(&[], "BTCUSDT"), Err(ConfigError::NoExchanges)));
    let v = vec![venue("mexc", "k", "s"), venue("", "k", "s")];
    assert!(matches!(validate_exchanges(&v, "BTCUSDT"), Err(ConfigError::EmptyName { index: 1 })));
    let v = vec![venue("mexc", "", "s")];
    match validate_exchanges(&v, "BTCUSDT") {
        Err(ConfigError::EmptyApiKey { index, name }) => {
            assert_eq!(index, 0);
            assert_eq!(name, "mexc");
        }
        other => panic!("unexpected {:?}", other),
    }
    let v = vec![venue("gate", "k", "")];
    match validate_exchanges(&v, "BTCUSDT") {
        Err(ConfigError::EmptyApiSecret { index, name }) => {
            assert_eq!(index, 0);
            assert_eq!(name, "gate");
        }
        other => panic!("unexpected {:?}", other),
    }
    let v = vec![venue("gate", "k", "s")];
    assert!(matches!(validate_exchanges(&v, ""), Err(ConfigError::EmptySymbol)));
}

#[test]
fn first_fault_is_reported() {
    let v = vec![venue("a", "", "s"), venue("", "k", "s")];
    assert!(matches!(validate_exchanges(&v, ""), Err(ConfigError::EmptyApiKey { index: 0, .. })));
}

#[test]
fn volume_exchange_selection() {
    let names = vec!["MEXC".to_string(), "gate".to_string(), "Gate".to_string()];
    assert_eq!(select_volume_exchange(&names, None), Some(0));
    assert_eq!(select_volume_exchange(&names, Some("GATE")), Some(1));
    assert_eq!(select_volume_exchange(&names, Some("mexc")), Some(0));
    assert_eq!(select_volume_exchange(&names, Some("kucoin")), None);
    assert_eq!(select_volume_exchange(&[], None), None);
}

#[test]
fn state_file_name() {
    assert_eq!(state_file("mexc", "BTCUSDT"), ".state_mexc_BTCUSDT.json");
}

#[test]
fn first_matching_name() {
    let names = vec!["mexc".to_string(), "gate".to_string(), "gate".to_string()];
    assert_eq!(first_name_match(&names, "gate"), Some(1));
    assert_eq!(first_name_match(&names, "Gate"), None);
    assert_eq!(first_name_match(&[], "gate"), None);
}
