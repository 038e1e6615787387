use tardis_rs::machine::decode::decode_message;
use tardis_rs::machine::models::{Message, TradeSide};
use tardis_rs::machine::time::{parse_instant, UtcDateTime};
use tardis_rs::models::Exchange;

fn trade_frame() -> String {
    "{\"type\":\"trade\",\"symbol\":\"BTCUSDT\",\"exchange\":\"bybit\",\"id\":\"abc-1\",\"price\":19000.5,\"amount\":0.01,\"side\":\"buy\",\"timestamp\":\"2022-10-01T00:00:01Z\",\"localTimestamp\":\"2022-10-01T00:00:01.123Z\"}".to_string()
}

#[test]
fn decodes_a_trade_frame() {
    let m = decode_message(&trade_frame()).unwrap();
    match m {
        Message::Trade(t) => {
            assert_eq!(t.symbol, "BTCUSDT");
            assert_eq!(t.exchange, Exchange::Bybit);
            assert_eq!(t.id, Some("abc-1".to_string()));
            assert_eq!(t.price, "19000.5");
            assert_eq!(t.amount, "0.01");
            assert_eq!(t.side, TradeSide::Buy);
            assert_eq!(t.timestamp.second, 1);
            assert_eq!(t.timestamp.nanos, 0);
            assert_eq!(t.local_timestamp.nanos, 123_000_000);
        },
        other => panic!("wrong variant: {:?}", other),
    }
}

#[test]
fn trade_id_null_or_absent_is_none() {
    let f = "{\"type\":\"trade\",\"symbol\":\"X\",\"exchange\":\"bybit\",\"id\":null,\"price\":1,\"amount\":2,\"side\":\"sell\",\"timestamp\":\"2022-10-01T00:00:01Z\",\"localTimestamp\":\"2022-10-01T00:00:01Z\"}";
    match decode_message(f).unwrap() {
        Message::Trade(t) => assert_eq!(t.id, None),
        other => panic!("wrong variant: {:?}", other),
    }
    let f = "{\"type\":\"trade\",\"symbol\":\"X\",\"exchange\":\"bybit\",\"price\":1,\"amount\":2,\"side\":\"unknown\",\"timestamp\":\"2022-10-01T00:00:01Z\",\"localTimestamp\":\"2022-10-01T00:00:01Z\"}";
    match decode_message(f).unwrap() {
        Message::Trade(t) => {
            assert_eq!(t.id, None);
            assert_eq!(t.side, TradeSide::Unknown);
        },
        other => panic!("wrong variant: {:?}", other),
    }
}

#[test]
fn member_order_does_not_matter() {
    let f = "{\"symbol\":\"BTCUSDT\",\"price\":19000.5,\"type\":\"trade\",\"amount\":0.01,\"side\":\"buy\",\"exchange\":\"bybit\",\"timestamp\":\"2022-10-01T00:00:01Z\",\"localTimestamp\":\"2022-10-01T00:00:01Z\"}";
    assert!(matches!(decode_message(f), Some(Message::Trade(_))));
}

#[test]
fn whitespace_is_tolerated() {
    let f = " { \"type\" : \"disconnect\" , \"exchange\" : \"bybit\" ,\n \"localTimestamp\" : \"2022-10-01T00:00:01Z\" } ";
    assert!(matches!(decode_message(f), Some(Message::Disconnect(_))));
}

#[test]
fn unknown_members_are_ignored() {
    let f = "{\"type\":\"disconnect\",\"exchange\":\"bybit\",\"localTimestamp\":\"2022-10-01T00:00:01Z\",\"extra\":{\"deep\":[1,2,{\"x\":\"]\"}]}}";
    assert!(matches!(decode_message(f), Some(Message::Disconnect(_))));
}

#[test]
fn decodes_a_book_change_frame() {
    let f = "{\"type\":\"book_change\",\"symbol\":\"BTCUSDT\",\"exchange\":\"bybit\",\"isSnapshot\":false,\"bids\":[{\"price\":19000.0,\"amount\":0.5}],\"asks\":[{\"price\":19001.0,\"amount\":0}],\"timestamp\":\"2022-10-01T00:00:01Z\",\"localTimestamp\":\"2022-10-01T00:00:01Z\"}";
    match decode_message(f).unwrap() {
        Message::BookChange(b) => {
            assert!(!b.is_snapshot);
            assert_eq!(b.bids.len(), 1);
            assert_eq!(b.bids[0].price, "19000.0");
            assert_eq!(b.bids[0].amount, "0.5");
            // an amount of exactly zero marks a removed level
            assert_eq!(b.asks[0].amount, "0");
        },
        other => panic!("wrong variant: {:?}", other),
    }
}

#[test]
fn decodes_a_book_snapshot_frame() {
    let f = "{\"type\":\"book_snapshot\",\"symbol\":\"BTCUSDT\",\"exchange\":\"bybit\",\"name\":\"book_snapshot_2_50ms\",\"depth\":2,\"interval\":50,\"bids\":[],\"asks\":[],\"timestamp\":\"2022-10-01T00:00:01Z\",\"localTimestamp\":\"2022-10-01T00:00:01Z\"}";
    match decode_message(f).unwrap() {
        Message::BookSnapshot(b) => {
            assert_eq!(b.depth, 2);
            assert_eq!(b.interval, 50);
            assert_eq!(b.name, "book_snapshot_2_50ms");
            assert!(b.bids.is_empty() && b.asks.is_empty());
        },
        other => panic!("wrong variant: {:?}", other),
    }
}

#[test]
fn decodes_a_trade_bar_frame() {
    let f = "{\"type\":\"trade_bar\",\"symbol\":\"BTCUSDT\",\"exchange\":\"bybit\",\"name\":\"trade_bar_60m\",\"interval\":3600000,\"open\":1.0,\"high\":2.0,\"low\":0.5,\"close\":1.5,\"volume\":10.0,\"buyVolume\":6.0,\"sellVolume\":4.0,\"trades\":42,\"vwap\":1.25,\"openTimestamp\":\"2022-10-01T00:00:00Z\",\"closeTimestamp\":\"2022-10-01T00:59:59Z\",\"timestamp\":\"2022-10-01T01:00:00Z\",\"localTimestamp\":\"2022-10-01T01:00:00.5Z\"}";
    match decode_message(f).unwrap() {
        Message::TradeBar(b) => {
            assert_eq!(b.interval, 3_600_000);
            assert_eq!(b.trades, 42);
            assert_eq!(b.vwap, "1.25");
            assert_eq!(b.local_timestamp.nanos, 500_000_000);
        },
        other => panic!("wrong variant: {:?}", other),
    }
}

#[test]
fn decodes_a_derivative_ticker_frame() {
    let f = "{\"type\":\"derivative_ticker\",\"symbol\":\"BTCUSDT\",\"exchange\":\"bybit\",\"lastPrice\":19000.5,\"openInterest\":null,\"fundingRate\":-0.0001,\"timestamp\":\"2022-10-01T00:00:01Z\",\"localTimestamp\":\"2022-10-01T00:00:01Z\"}";
    match decode_message(f).unwrap() {
        Message::DerivativeTicker(d) => {
            assert_eq!(d.last_price, Some("19000.5".to_string()));
            assert_eq!(d.open_interest, None);
            assert_eq!(d.funding_rate, Some("-0.0001".to_string()));
            assert_eq!(d.index_price, None);
            assert_eq!(d.mark_price, None);
        },
        other => panic!("wrong variant: {:?}", other),
    }
}

#[test]
fn invalid_json_does_not_decode() {
    assert!(decode_message("{oops").is_none());
    assert!(decode_message("").is_none());
    assert!(decode_message("42").is_none());
    assert!(decode_message("{\"type\":\"trade\"} trailing").is_none());
}

#[test]
fn missing_discriminant_does_not_decode() {
    let f = "{\"symbol\":\"BTCUSDT\",\"exchange\":\"bybit\"}";
    assert!(decode_message(f).is_none());
}

#[test]
fn unknown_discriminant_does_not_decode() {
    let f = "{\"type\":\"quote\",\"symbol\":\"BTCUSDT\"}";
    assert!(decode_message(f).is_none());
}

#[test]
fn duplicate_member_does_not_decode() {
    let f = "{\"type\":\"disconnect\",\"exchange\":\"bybit\",\"exchange\":\"bybit\",\"localTimestamp\":\"2022-10-01T00:00:01Z\"}";
    assert!(decode_message(f).is_none());
}

#[test]
fn unknown_exchange_does_not_decode() {
    let f = "{\"type\":\"disconnect\",\"exchange\":\"nowhere\",\"localTimestamp\":\"2022-10-01T00:00:01Z\"}";
    assert!(decode_message(f).is_none());
}

#[test]
fn wrong_field_shape_does_not_decode() {
    let f = "{\"type\":\"trade\",\"symbol\":7,\"exchange\":\"bybit\",\"price\":1,\"amount\":2,\"side\":\"buy\",\"timestamp\":\"2022-10-01T00:00:01Z\",\"localTimestamp\":\"2022-10-01T00:00:01Z\"}";
    assert!(decode_message(f).is_none());
}

#[test]
fn integer_overflow_does_not_decode() {
    let f = "{\"type\":\"book_snapshot\",\"symbol\":\"X\",\"exchange\":\"bybit\",\"name\":\"n\",\"depth\":99999999999999999999999999,\"interval\":50,\"bids\":[],\"asks\":[],\"timestamp\":\"2022-10-01T00:00:01Z\",\"localTimestamp\":\"2022-10-01T00:00:01Z\"}";
    assert!(decode_message(f).is_none());
    let f = "{\"type\":\"book_snapshot\",\"symbol\":\"X\",\"exchange\":\"bybit\",\"name\":\"n\",\"depth\":18446744073709551615,\"interval\":50,\"bids\":[],\"asks\":[],\"timestamp\":\"2022-10-01T00:00:01Z\",\"localTimestamp\":\"2022-10-01T00:00:01Z\"}";
    match decode_message(f).unwrap() {
        Message::BookSnapshot(b) => assert_eq!(b.depth, u64::MAX),
        other => panic!("wrong variant: {:?}", other),
    }
}

#[test]
fn escaped_strings_are_unescaped() {
    let f = "{\"type\":\"trade\",\"symbol\":\"A\\\"B\\\\C\\n\",\"exchange\":\"bybit\",\"price\":1,\"amount\":2,\"side\":\"buy\",\"timestamp\":\"2022-10-01T00:00:01Z\",\"localTimestamp\":\"2022-10-01T00:00:01Z\"}";
    match decode_message(f).unwrap() {
        Message::Trade(t) => assert_eq!(t.symbol, "A\"B\\C\n"),
        other => panic!("wrong variant: {:?}", other),
    }
}

#[test]
fn timestamps_parse_and_render() {
    let chars: Vec<char> = "2022-10-01T12:34:56.789Z".chars().collect();
    let dt = parse_instant(&chars).unwrap();
    assert_eq!(
        dt,
        UtcDateTime { year: 2022, month: 10, day: 1, hour: 12, minute: 34, second: 56, nanos: 789_000_000 }
    );
    assert_eq!(dt.to_rfc3339(), "2022-10-01T12:34:56.789Z");
    let chars: Vec<char> = "2022-10-01T12:34:56Z".chars().collect();
    let dt = parse_instant(&chars).unwrap();
    assert_eq!(dt.to_rfc3339(), "2022-10-01T12:34:56Z");
}

#[test]
fn calendar_ranges_are_checked() {
    for bad in [
        "2022-13-01T00:00:00Z",
        "2022-00-01T00:00:00Z",
        "2022-02-29T00:00:00Z",
        "2022-10-01T24:00:00Z",
        "2022-10-01T00:60:00Z",
        "2022-10-01T00:00:60Z",
        "2022-10-1T00:00:00Z",
        "2022-10-01 00:00:00Z",
        "2022-10-01T00:00:00",
    ] {
        let chars: Vec<char> = bad.chars().collect();
        assert!(parse_instant(&chars).is_none(), "accepted {:?}", bad);
    }
    let leap: Vec<char> = "2020-02-29T00:00:00Z".chars().collect();
    assert!(parse_instant(&leap).is_some());
}
