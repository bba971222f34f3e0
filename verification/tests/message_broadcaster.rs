use oracle_attestor::message_broadcaster::{
    HttpMessageBroadcaster, IntervalInclusionMessage, JsonFileMessageBroadcaster,
    PriceValueMessage, DIRECTORY_PATH,
};
use oracle_attestor::price_provider::{GoferPriceProvider, Price};

#[test]
fn interval_inclusion_canonical_encoding() {
    let message = IntervalInclusionMessage {
        value: 1,
        interval_size: 20,
        slot_number: 3,
    };
    let encoded = message.as_ssz_bytes();
    let mut expected = Vec::new();
    expected.extend_from_slice(&1u64.to_le_bytes());
    expected.extend_from_slice(&20u64.to_le_bytes());
    expected.extend_from_slice(&3u64.to_le_bytes());
    assert_eq!(encoded, expected);
    assert_eq!(encoded.len(), 24);
}

#[test]
fn price_value_canonical_encoding() {
    let message = PriceValueMessage {
        price: Price { value: 1953000000 },
        slot_number: 77,
    };
    let encoded = message.as_ssz_bytes();
    let mut expected = Vec::new();
    expected.extend_from_slice(&1953000000u64.to_le_bytes());
    expected.extend_from_slice(&77u64.to_le_bytes());
    assert_eq!(encoded, expected);
    assert_eq!(encoded.len(), 16);
}

#[test]
fn http_broadcaster_keeps_url() {
    let broadcaster = HttpMessageBroadcaster::new_with_url("http://localhost:3000/price");
    assert_eq!(broadcaster.server_url, "http://localhost:3000/price");
}

#[test]
fn json_broadcaster_defaults_directory() {
    let explicit = JsonFileMessageBroadcaster::new(Some("out".to_string()));
    assert_eq!(explicit.directory_path, "out");
    let default = JsonFileMessageBroadcaster::new(None);
    assert_eq!(default.directory_path, DIRECTORY_PATH);
}

#[test]
fn gofer_provider_keeps_configuration() {
    let provider = GoferPriceProvider::new("http://localhost:9200/price");
    assert_eq!(provider.gofer_url, "http://localhost:9200/price");
    assert_eq!(provider.pair, "ETH/USD");
    let other = GoferPriceProvider::new_with_pair("http://localhost:9200/price", "BTC/USD".to_string());
    assert_eq!(other.pair, "BTC/USD");
}
