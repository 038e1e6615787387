use tardis_rs::machine::client::{Client, Error};
use tardis_rs::machine::encode::{replay_options_json, stream_options_json};
use tardis_rs::machine::models::{ReplayNormalizedRequestOptions, StreamNormalizedRequestOptions};
use tardis_rs::machine::time::UtcDateTime;
use tardis_rs::models::Exchange;

fn ymd(year: u32, month: u32, day: u32) -> UtcDateTime {
    UtcDateTime { year, month, day, hour: 0, minute: 0, second: 0, nanos: 0 }
}

fn replay_opts() -> ReplayNormalizedRequestOptions {
    ReplayNormalizedRequestOptions {
        exchange: Exchange::Bybit,
        symbols: Some(vec!["BTCUSDT".to_string()]),
        from: ymd(2022, 10, 1),
        to: ymd(2022, 10, 2),
        data_types: vec!["trade".to_string()],
        with_disconnect_messages: None,
    }
}

#[test]
fn replay_options_render_compact_json() {
    let json = replay_options_json(&vec![replay_opts()]);
    assert_eq!(
        json,
        "[{\"exchange\":\"bybit\",\"symbols\":[\"BTCUSDT\"],\"from\":\"2022-10-01T00:00:00Z\",\"to\":\"2022-10-02T00:00:00Z\",\"dataTypes\":[\"trade\"]}]"
    );
}

#[test]
fn replay_options_without_symbols_omit_the_member() {
    let mut o = replay_opts();
    o.symbols = None;
    o.with_disconnect_messages = Some(true);
    let json = replay_options_json(&vec![o]);
    assert_eq!(
        json,
        "[{\"exchange\":\"bybit\",\"from\":\"2022-10-01T00:00:00Z\",\"to\":\"2022-10-02T00:00:00Z\",\"dataTypes\":[\"trade\"],\"withDisconnectMessages\":true}]"
    );
}

#[test]
fn stream_options_render_compact_json() {
    let o = StreamNormalizedRequestOptions {
        exchange: Exchange::Binance,
        symbols: Some(vec!["BTCUSDT".to_string()]),
        data_types: vec!["trade".to_string()],
        with_disconnect_messages: Some(false),
        timeout_interval_ms: Some(10000),
    };
    let json = stream_options_json(&vec![o]);
    assert_eq!(
        json,
        "[{\"exchange\":\"binance\",\"symbols\":[\"BTCUSDT\"],\"dataTypes\":[\"trade\"],\"withDisconnectMessages\":false,\"timeoutIntervalMS\":10000}]"
    );
}

#[test]
fn two_option_objects_are_comma_separated() {
    let json = replay_options_json(&vec![replay_opts(), replay_opts()]);
    assert!(json.starts_with("[{"));
    assert!(json.contains("},{"));
    assert!(json.ends_with("}]"));
}

#[test]
fn symbols_are_json_escaped() {
    let mut o = replay_opts();
    o.symbols = Some(vec!["A\"B\\C".to_string()]);
    let json = replay_options_json(&vec![o]);
    assert!(json.contains("[\"A\\\"B\\\\C\"]"));
}

#[test]
fn replay_url_embeds_percent_encoded_options() {
    let client = Client::new("ws://localhost:8001");
    let url = client.replay_normalized_url(&vec![replay_opts()]).unwrap();
    assert_eq!(
        url,
        "ws://localhost:8001/ws-replay-normalized?options=%5B%7B%22exchange%22%3A%22bybit%22%2C%22symbols%22%3A%5B%22BTCUSDT%22%5D%2C%22from%22%3A%222022-10-01T00%3A00%3A00Z%22%2C%22to%22%3A%222022-10-02T00%3A00%3A00Z%22%2C%22dataTypes%22%3A%5B%22trade%22%5D%7D%5D"
    );
}

#[test]
fn stream_url_uses_the_stream_path() {
    let client = Client::new("ws://localhost:8001");
    let o = StreamNormalizedRequestOptions {
        exchange: Exchange::Binance,
        symbols: None,
        data_types: vec!["trade".to_string()],
        with_disconnect_messages: None,
        timeout_interval_ms: None,
    };
    let url = client.stream_normalized_url(&vec![o]).unwrap();
    assert!(url.starts_with("ws://localhost:8001/ws-stream-normalized?options="));
    assert!(url.contains("%22binance%22"));
}

#[test]
fn empty_replay_options_fail_before_any_network_work() {
    let client = Client::new("ws://localhost:8001");
    let r = client.replay_normalized_url(&vec![]);
    assert_eq!(r, Err(Error::EmptyOptions));
}

#[test]
fn empty_stream_options_fail_before_any_network_work() {
    let client = Client::new("ws://localhost:8001");
    let r = client.stream_normalized_url(&vec![]);
    assert_eq!(r, Err(Error::EmptyOptions));
}

#[test]
fn error_messages_name_the_failure() {
    assert_eq!(Error::EmptyOptions.message(), "Options cannot be empty");
    let e = Error::ConnectionClosed { reason: "boom".to_string() };
    assert_eq!(e.message(), "Connection closed: boom");
    let e = Error::ConnectRejected { status: 404, reason: "not found".to_string() };
    assert_eq!(e.message(), "Connection rejected: not found");
    assert_eq!(Error::Deserialization.message(), "Failed to deserialize message");
    let e = Error::ConnectFailed { reason: "refused".to_string() };
    assert_eq!(e.message(), "Failed to connect: refused");
}
