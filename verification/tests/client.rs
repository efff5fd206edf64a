use btcturk_websockets::error::ConnectionError;
use btcturk_websockets::error::CredentialError;
use btcturk_websockets::subscription::Subscription;
use btcturk_websockets::text::same_text;
use btcturk_websockets::text::starts_with;
use btcturk_websockets::ApiKeys;
use btcturk_websockets::Channel;
use btcturk_websockets::Client;

fn client() -> Client {
    Client::new("wss://ws-feed-pro.btcturk.com", ApiKeys::new("dummy_public", "c2VjcmV0"))
}

#[test]
fn keys_hold_what_they_were_given() {
    let keys = ApiKeys::new("dummy_public", "dummy_private");
    assert_eq!(keys.public_key, "dummy_public");
    assert_eq!(keys.private_key, "dummy_private");
}

#[test]
fn channels_have_their_wire_names() {
    assert_eq!(Channel::Ticker.as_str(), "ticker");
    assert_eq!(Channel::Orderbook.as_str(), "orderbook");
    assert_eq!(Channel::from_name("ticker"), Some(Channel::Ticker));
    assert_eq!(Channel::from_name("orderbook"), Some(Channel::Orderbook));
    assert_eq!(Channel::from_name("Ticker"), None);
    assert_eq!(Channel::from_name("trade"), None);
    assert_eq!(Channel::from_name(""), None);
}

#[test]
fn client_holds_address_and_keys() {
    let mut client = client();
    assert_eq!(client.address, "wss://ws-feed-pro.btcturk.com");
    assert_eq!(client.keys.public_key, "dummy_public");
    client.set_keys(ApiKeys::new("other_public", "b3RoZXI="));
    assert_eq!(client.keys.public_key, "other_public");
    assert_eq!(client.keys.private_key, "b3RoZXI=");
    assert_eq!(client.address, "wss://ws-feed-pro.btcturk.com");
}

#[test]
fn endpoint_is_the_address_as_a_url() {
    assert_eq!(client().endpoint(), Ok(String::from("wss://ws-feed-pro.btcturk.com/")));
    let upper = Client::new("WSS://WS-Feed-Pro.BtcTurk.com/feed", ApiKeys::new("a", "b"));
    assert_eq!(upper.endpoint(), Ok(String::from("wss://ws-feed-pro.btcturk.com/feed")));
}

#[test]
fn endpoint_refuses_what_is_no_url() {
    let relative = Client::new("ws-feed-pro.btcturk.com", ApiKeys::new("a", "b"));
    assert_eq!(relative.endpoint(), Err(ConnectionError::InvalidAddress));
    let empty = Client::new("", ApiKeys::new("a", "b"));
    assert_eq!(empty.endpoint(), Err(ConnectionError::InvalidAddress));
    assert_eq!(ConnectionError::InvalidAddress.message(), "The feed address is not a valid URL");
    assert_eq!(ConnectionError::HandshakeFailed.message(), "Failed to connect to the feed");
}

#[test]
fn join_message_has_the_wire_layout() {
    assert_eq!(
        client().subscription_message("BTCTRY", Some(Channel::Orderbook)),
        "[151,{\"type\":151,\"channel\":\"orderbook\",\"event\":\"BTCTRY\",\"join\":true}]"
    );
    assert_eq!(
        Subscription::new("ADATRY", Some(Channel::Ticker)).join_message(),
        "[151,{\"type\":151,\"channel\":\"ticker\",\"event\":\"ADATRY\",\"join\":true}]"
    );
}

#[test]
fn join_message_defaults_to_the_ticker() {
    let subscription = Subscription::new("all", None);
    assert_eq!(subscription.channel, Channel::Ticker);
    assert_eq!(subscription.pair, "all");
    assert_eq!(
        client().subscription_message("all", None),
        "[151,{\"type\":151,\"channel\":\"ticker\",\"event\":\"all\",\"join\":true}]"
    );
}

#[test]
fn token_message_at_an_instant_is_fixed() {
    let first = client().token_message_at(1700000000000);
    let second = client().token_message_at(1700000000000);
    assert_eq!(first, second);
    assert_eq!(
        first,
        Ok(String::from(
            "[114,{\"type\":114,\"publicKey\":\"dummy_public\",\"timestamp\":\"1700000000000\",\"nonce\":3000,\"signature\":\"KdF6KspOHLFbxmXTQoJcZTvpNYcBZQAVp4/uCnbk5/o=\"}]"
        ))
    );
    let later = client().token_message_at(1700000000001);
    assert_ne!(first, later);
}

#[test]
fn token_message_for_now_is_a_token_of_some_instant() {
    let mut client = client();
    let frame = client.generate_token_message().unwrap();
    let head = "[114,{\"type\":114,\"publicKey\":\"dummy_public\",\"timestamp\":\"";
    assert!(frame.starts_with(head));
    let rest = &frame[head.len()..];
    let stamp_len: usize = rest.find('"').unwrap();
    assert!(rest[stamp_len..].starts_with("\",\"nonce\":3000,\"signature\":\""));
    let stamp: i64 = rest[..stamp_len].parse().unwrap();
    assert!(stamp > 1_600_000_000_000);
    assert_eq!(client.token_message_at(stamp), Ok(frame));
    assert_eq!(client.keys.public_key, "dummy_public");
}

#[test]
fn token_message_needs_a_decodable_key() {
    let mut client = Client::new("wss://ws-feed-pro.btcturk.com/", ApiKeys::new("dummy_public", "dummy_private"));
    assert_eq!(client.generate_token_message(), Err(CredentialError::UndecodableSecret));
    assert_eq!(client.token_message_at(5), Err(CredentialError::UndecodableSecret));
    assert!(client.auth_headers().is_err());
}

#[test]
fn signed_headers_carry_key_stamp_and_signature() {
    let headers = client().auth_headers_at(1700000000000).unwrap();
    let pairs: Vec<(&str, &str)> = headers.iter().map(|h| (h.name.as_str(), h.value.as_str())).collect();
    assert_eq!(
        pairs,
        vec![
            ("Content-Type", "application/json"),
            ("X-PCK", "dummy_public"),
            ("X-Stamp", "1700000000000"),
            ("X-Signature", "KdF6KspOHLFbxmXTQoJcZTvpNYcBZQAVp4/uCnbk5/o="),
        ]
    );
}

#[test]
fn signed_headers_for_now_are_headers_of_some_instant() {
    let client = client();
    let headers = client.auth_headers().unwrap();
    assert_eq!(headers.len(), 4);
    let stamp: i64 = headers[2].value.parse().unwrap();
    let again = client.auth_headers_at(stamp).unwrap();
    assert_eq!(headers[3].value, again[3].value);
    assert_eq!(Client::balances_url(), "https://api.btcturk.com/api/v1/users/balances");
}

#[test]
fn texts_are_compared_by_their_characters() {
    assert!(same_text("ticker", "ticker"));
    assert!(same_text("", ""));
    assert!(!same_text("ticker", "tickeR"));
    assert!(!same_text("ticker", "ticke"));
    assert!(same_text("Türk", "Türk"));
    assert!(starts_with("[991,{}]", "[991"));
    assert!(starts_with("[991", "[991"));
    assert!(starts_with("abc", ""));
    assert!(!starts_with("[99", "[991"));
    assert!(!starts_with("[992,{}]", "[991"));
    assert!(starts_with("Türkiye", "Tür"));
    assert!(!starts_with("Turkiye", "Tür"));
}
