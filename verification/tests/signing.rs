use base64::Engine;
use hmac::{Hmac, Mac};
use mexc_grid_trader::exchanges::gate::{body_hash, GateExchange};
use mexc_grid_trader::exchanges::kucoin::KucoinExchange;
use mexc_grid_trader::exchanges::mexc::{sign_query, sign_url, MexcExchange};
use mexc_grid_trader::mexc_client::MexcClient;
use sha2::{Sha256, Sha512};

const FOX: &str = "The quick brown fox jumps over the lazy dog";

fn hmac256(key: &str, msg: &str) -> Vec<u8> {
    let mut m = Hmac::<Sha256>::new_from_slice(key.as_bytes()).unwrap();
    m.update(msg.as_bytes());
    m.finalize().into_bytes().to_vec()
}

fn hmac512(key: &str, msg: &str) -> Vec<u8> {
    let mut m = Hmac::<Sha512>::new_from_slice(key.as_bytes()).unwrap();
    m.update(msg.as_bytes());
    m.finalize().into_bytes().to_vec()
}

#[test]
fn mexc_signature_known_value() {
    let x = MexcExchange::new("k".to_string(), "key".to_string());
    assert_eq!(
        x.generate_signature(FOX),
        "f7bc83f430538424b13298e6aa6fb143ef4d59a14946175997479dbc2d1a3cd8"
    );
    assert_eq!(sign_query("key", FOX), x.generate_signature(FOX));
    assert_eq!(x.api_key(), "k");
}

#[test]
fn mexc_signed_url_layout() {
    let q = "symbol=BTCUSDT&timestamp=1";
    let sig = hex::encode(hmac256("s3cret", q));
    let url = sign_url("s3cret", "/api/v3/order", q);
    assert_eq!(url, format!("https://api.mexc.com/api/v3/order?{}&signature={}", q, sig));
    let c = MexcClient::new("k".to_string(), "s3cret".to_string());
    assert_eq!(c.signed_url("/api/v3/order", q), url);
    assert_eq!(c.generate_signature(q), sig);
    assert_eq!(c.api_key(), "k");
}

#[test]
fn gate_body_hash_of_empty_body() {
    assert_eq!(
        body_hash(""),
        "cf83e1357eefb8bdf1542850d66d8007d620e4050b5715dc83f4a921d36ce9ce47d0d13c5d85f2b0ff8318d2877eec2f63b931bd47417a81a538327af927da3e"
    );
    assert_eq!(body_hash("abc").len(), 128);
    assert_ne!(body_hash("abc"), "abc");
}

#[test]
fn gate_signature_signs_the_payload_lines() {
    let g = GateExchange::new("gk".to_string(), "gs".to_string());
    let h = body_hash("");
    let sig = g.generate_signature("GET", "/api/v4/spot/accounts", "", &h, 1700000000);
    let payload = format!("GET\n/api/v4/spot/accounts\n\n{}\n1700000000", h);
    assert_eq!(sig, hex::encode(hmac512("gs", &payload)));
    assert_eq!(sig.len(), 128);
    assert_eq!(g.api_key(), "gk");
}

#[test]
fn hmac_sha512_known_value() {
    let g = GateExchange::new("k".to_string(), "key".to_string());
    // With an empty method, path, query and digest the payload is "\n\n\n\n" and the time.
    let sig = g.generate_signature("", "", "", "", 0);
    assert_eq!(sig, hex::encode(hmac512("key", "\n\n\n\n0")));
}

#[test]
fn kucoin_signature_is_base64_of_hmac() {
    let k = KucoinExchange::new("kk".to_string(), "ks".to_string(), "pass".to_string());
    let sig = k.generate_signature(1700000000000, "GET", "/api/v1/accounts", "");
    let expected = base64::engine::general_purpose::STANDARD
        .encode(hmac256("ks", "1700000000000GET/api/v1/accounts"));
    assert_eq!(sig, expected);
    assert_eq!(sig.len(), 44);
    assert!(sig.ends_with('='));
    assert_eq!(k.api_key(), "kk");
}

#[test]
fn kucoin_passphrase_is_signed() {
    let k = KucoinExchange::new("kk".to_string(), "key".to_string(), FOX.to_string());
    assert_eq!(
        k.generate_passphrase_signature(),
        "97yD9DBThCSxMpjmqm+xQ+9NWaFJRhdZl0edvC0aPNg="
    );
}

#[test]
fn batch_orders_are_percent_encoded() {
    let x = MexcExchange::new("k".to_string(), "s".to_string());
    let url = x.batch_orders_url("[{\"a\":1}]", 5);
    let q = "batchOrders=%5B%7B%22a%22%3A1%7D%5D&timestamp=5";
    assert_eq!(url, sign_url("s", "/api/v3/batchOrders", q));
    let plain = x.batch_orders_url("abc-._~", 7);
    assert_eq!(plain, sign_url("s", "/api/v3/batchOrders", "batchOrders=abc-._~&timestamp=7"));
}
