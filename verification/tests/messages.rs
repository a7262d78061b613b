use ftx_ws::codec::{login_message, ping, subscription_message};
use ftx_ws::models::WsChannel;
use ftx_ws::signer::{payload, sign};

#[test]
fn payload_is_timestamp_then_suffix() {
    assert_eq!(payload(1557246346499), b"1557246346499websocket_login".to_vec());
}

#[test]
fn payload_of_zero_has_one_digit() {
    assert_eq!(payload(0), b"0websocket_login".to_vec());
}

#[test]
fn payload_of_powers_of_ten() {
    assert_eq!(payload(9), b"9websocket_login".to_vec());
    assert_eq!(payload(10), b"10websocket_login".to_vec());
    assert_eq!(payload(1000), b"1000websocket_login".to_vec());
}

#[test]
fn payload_of_largest_timestamp() {
    let expected = format!("{}websocket_login", u128::MAX);
    assert_eq!(payload(u128::MAX), expected.as_bytes().to_vec());
}

#[test]
fn sign_matches_published_example() {
    assert_eq!(
        sign("Y2QTHI23f23f23jfjas23f23To0RfUwX3H42fvN-", 1557246346499),
        "d10b5a67a1a941ae9463a60b285ae845cdeac1b11edc7da9977bef0228b96de9"
    );
}

#[test]
fn sign_at_zero() {
    assert_eq!(
        sign("secret", 0),
        "c608449079c57b51761dd6829686d2724e7be5435be50f8af6e236b68960e251"
    );
}

#[test]
fn sign_agrees_with_the_primitives() {
    let code = hmac_sha256::HMAC::mac(b"42websocket_login", b"another secret");
    assert_eq!(sign("another secret", 42), hex::encode(code));
}

#[test]
fn sign_is_lowercase_hex_of_32_bytes() {
    let s = sign("k", 7);
    assert_eq!(s.len(), 64);
    assert!(s.chars().all(|c| c.is_ascii_digit() || ('a'..='f').contains(&c)));
}

#[test]
fn sign_depends_on_secret_and_time() {
    assert_ne!(sign("a", 1), sign("b", 1));
    assert_ne!(sign("a", 1), sign("a", 2));
}

#[test]
fn ping_text() {
    assert_eq!(ping(), "{\"op\":\"ping\"}");
}

#[test]
fn subscribe_message_for_market_channel() {
    let text = subscription_message(&WsChannel::Trades("BTC-PERP".to_string()), true);
    assert_eq!(text, "{\"channel\":\"trades\",\"market\":\"BTC-PERP\",\"op\":\"subscribe\"}");
}

#[test]
fn unsubscribe_message_for_market_channel() {
    let text = subscription_message(&WsChannel::Orderbook("ETH/USD".to_string()), false);
    assert_eq!(text, "{\"channel\":\"orderbook\",\"market\":\"ETH/USD\",\"op\":\"unsubscribe\"}");
}

#[test]
fn message_for_ticker_channel() {
    let text = subscription_message(&WsChannel::Ticker("SOL-PERP".to_string()), true);
    assert_eq!(text, "{\"channel\":\"ticker\",\"market\":\"SOL-PERP\",\"op\":\"subscribe\"}");
}

#[test]
fn message_for_account_channels_has_empty_market() {
    assert_eq!(
        subscription_message(&WsChannel::Fills, true),
        "{\"channel\":\"fills\",\"market\":\"\",\"op\":\"subscribe\"}"
    );
    assert_eq!(
        subscription_message(&WsChannel::Orders, false),
        "{\"channel\":\"orders\",\"market\":\"\",\"op\":\"unsubscribe\"}"
    );
}

#[test]
fn message_escapes_the_market() {
    let text = subscription_message(&WsChannel::Trades("A\"B".to_string()), true);
    assert_eq!(text, "{\"channel\":\"trades\",\"market\":\"A\\\"B\",\"op\":\"subscribe\"}");
}

#[test]
fn message_parses_back() {
    let text = subscription_message(&WsChannel::Trades("BTC-PERP".to_string()), true);
    let value: serde_json::Value = serde_json::from_str(&text).unwrap();
    assert_eq!(value["op"], serde_json::Value::from("subscribe"));
    assert_eq!(value["channel"], serde_json::Value::from("trades"));
    assert_eq!(value["market"], serde_json::Value::from("BTC-PERP"));
}

#[test]
fn login_message_without_subaccount() {
    let text = login_message("my-key", "Y2QTHI23f23f23jfjas23f23To0RfUwX3H42fvN-", None, 1557246346499);
    assert_eq!(
        text,
        "{\"args\":{\"key\":\"my-key\",\"sign\":\"d10b5a67a1a941ae9463a60b285ae845cdeac1b11edc7da9977bef0228b96de9\",\"subaccount\":null,\"time\":1557246346499},\"op\":\"login\"}"
    );
}

#[test]
fn login_message_with_subaccount() {
    let text = login_message("k", "secret", Some("desk"), 0);
    assert_eq!(
        text,
        "{\"args\":{\"key\":\"k\",\"sign\":\"c608449079c57b51761dd6829686d2724e7be5435be50f8af6e236b68960e251\",\"subaccount\":\"desk\",\"time\":0},\"op\":\"login\"}"
    );
}

#[test]
fn login_message_signs_the_whole_timestamp_and_carries_its_low_bits() {
    let text = login_message("k", "secret", None, 18446744073709551621);
    assert_eq!(
        text,
        "{\"args\":{\"key\":\"k\",\"sign\":\"98935918da0b5e8c22984372513ed95dd830b8f00a921fced08608dd61019c49\",\"subaccount\":null,\"time\":5},\"op\":\"login\"}"
    );
}

#[test]
fn channel_tags_and_markets() {
    let c = WsChannel::Orderbook("BTC-PERP".to_string());
    assert_eq!(c.wire_tag(), "orderbook");
    assert_eq!(c.market(), "BTC-PERP");
    assert!(!c.requires_authentication());
    assert_eq!(WsChannel::Fills.wire_tag(), "fills");
    assert_eq!(WsChannel::Fills.market(), "");
    assert!(WsChannel::Fills.requires_authentication());
    assert!(WsChannel::Orders.requires_authentication());
    assert!(!WsChannel::Trades("X".to_string()).requires_authentication());
    assert!(!WsChannel::Ticker("X".to_string()).requires_authentication());
}

#[test]
fn channel_equality_is_structural() {
    assert_eq!(WsChannel::Trades("A".to_string()), WsChannel::Trades("A".to_string()));
    assert_ne!(WsChannel::Trades("A".to_string()), WsChannel::Trades("B".to_string()));
    assert_ne!(WsChannel::Trades("A".to_string()), WsChannel::Ticker("A".to_string()));
    assert_ne!(WsChannel::Fills, WsChannel::Orders);
    assert_eq!(WsChannel::Orders.clone(), WsChannel::Orders);
    assert_eq!(
        WsChannel::Orderbook("A".to_string()).clone(),
        WsChannel::Orderbook("A".to_string())
    );
}
