use mexc_grid_trader::exchange::get_symbol_assets;
use mexc_grid_trader::exchanges::gate::{self, gate_symbol};
use mexc_grid_trader::exchanges::kucoin::{self, kucoin_symbol};
use mexc_grid_trader::mexc_client::MexcClient;
use mexc_grid_trader::orders::stats_assets;

fn pair(a: &str, b: &str) -> (String, String) {
    (a.to_string(), b.to_string())
}

#[test]
fn symbol_assets_known_quotes() {
    assert_eq!(get_symbol_assets("BTCUSDT"), pair("BTC", "USDT"));
    assert_eq!(get_symbol_assets("ETHUSDC"), pair("ETH", "USDC"));
    assert_eq!(get_symbol_assets("ETHBTC"), pair("ETH", "BTC"));
    assert_eq!(get_symbol_assets("XRPETH"), pair("XRP", "ETH"));
}

#[test]
fn symbol_assets_unknown_quote_takes_last_four_bytes() {
    assert_eq!(get_symbol_assets("ABCDEFGH"), pair("ABCD", "EFGH"));
    assert_eq!(get_symbol_assets("XYZ"), pair("XYZ", "USDT"));
    assert_eq!(get_symbol_assets("ABCD"), pair("ABCD", "USDT"));
}

#[test]
fn client_symbol_assets_agree() {
    assert_eq!(MexcClient::get_symbol_assets("SOLUSDT"), pair("SOL", "USDT"));
    assert_eq!(MexcClient::get_symbol_assets("LTCBTC"), pair("LTC", "BTC"));
    assert_eq!(MexcClient::get_symbol_assets("PEPEWXYZ"), pair("PEPE", "WXYZ"));
}

#[test]
fn stats_assets_only_know_dollar_quotes() {
    assert_eq!(stats_assets("BTCUSDT"), pair("BTC", "USDT"));
    assert_eq!(stats_assets("BTCUSDC"), pair("BTC", "USDC"));
    assert_eq!(stats_assets("ETHBTC"), pair("ET", "HBTC"));
    assert_eq!(stats_assets("ABC"), pair("ABC", "UNKNOWN"));
}

#[test]
fn gate_symbol_inserts_an_underscore() {
    assert_eq!(gate_symbol("BTCUSDT"), "BTC_USDT");
    assert_eq!(gate_symbol("XRPUSDT"), "XRP_USDT");
    assert_eq!(gate_symbol("SOLUSDC"), "SOL_USDC");
    assert_eq!(gate_symbol("ETHUSDT"), "ETH_USDT");
    assert_eq!(gate_symbol("ETHBTC"), "ETH_BTC");
    assert_eq!(gate_symbol("LINKETH"), "LINK_ETH");
    assert_eq!(gate_symbol("DOGE"), "DOGE");
}

#[test]
fn venue_symbols_read_back_as_sent() {
    for symbol in ["BTCUSDT", "ETHBTC", "SOLUSDC", "LINKETH", "DOGE", "USDTUSDT"] {
        let g = gate::trade_from_fields(
            Some(gate_symbol(symbol)), None, None, None, None, None, None, None, None, None,
        );
        assert_eq!(g.symbol, symbol);
        let k = kucoin::order_from_fields(
            Some(kucoin_symbol(symbol)), None, None, None, None, None, None, None, None,
        );
        assert_eq!(k.symbol, symbol);
    }
}

#[test]
fn kucoin_symbol_inserts_a_dash() {
    assert_eq!(kucoin_symbol("BTCUSDT"), "BTC-USDT");
    assert_eq!(kucoin_symbol("ETHUSDC"), "ETH-USDC");
    assert_eq!(kucoin_symbol("ETHBTC"), "ETH-BTC");
    assert_eq!(kucoin_symbol("LINKETH"), "LINK-ETH");
    assert_eq!(kucoin_symbol("ABCD"), "ABCD");
}
