use tardis_rs::models::{Exchange, OptionType, Response, SymbolType};

#[test]
fn exchange_wire_names_are_lowercase_hyphenated() {
    assert_eq!(Exchange::Bitmex.to_string(), "bitmex");
    assert_eq!(Exchange::Bybit.to_string(), "bybit");
    assert_eq!(Exchange::BinanceFutures.to_string(), "binance-futures");
    assert_eq!(Exchange::HuobiDmLinearSwap.to_string(), "huobi-dm-linear-swap");
    assert_eq!(Exchange::WooX.to_string(), "woo-x");
    assert_eq!(Exchange::GateIo.to_string(), "gate-io");
    assert_eq!(Exchange::CryptoComDerivatives.to_string(), "crypto-com-derivatives");
}

#[test]
fn wire_names_parse_back() {
    assert_eq!(Exchange::from_wire("bitmex"), Some(Exchange::Bitmex));
    assert_eq!(Exchange::from_wire("binance-us"), Some(Exchange::BinanceUs));
    assert_eq!(Exchange::from_wire("woo-x"), Some(Exchange::WooX));
    assert_eq!(Exchange::from_wire("binance"), Some(Exchange::Binance));
    assert_eq!(Exchange::from_wire("okex"), Some(Exchange::Okex));
    assert_eq!(Exchange::from_wire("okex-swap"), Some(Exchange::OkexSwap));
    assert_eq!(Exchange::from_wire(""), None);
    assert_eq!(Exchange::from_wire("BYBIT"), None);
    assert_eq!(Exchange::from_wire("bybit-"), None);
}

#[test]
fn response_envelope_carries_either_error_or_payload() {
    let err: Response<u64> = Response::Error { code: 401, message: "no auth".to_string() };
    match err {
        Response::Error { code, message } => {
            assert_eq!(code, 401);
            assert_eq!(message, "no auth");
        },
        Response::Success(_) => panic!("wrong arm"),
    }
    let ok: Response<u64> = Response::Success(7);
    assert!(matches!(ok, Response::Success(7)));
}

#[test]
fn symbol_classification_enums_are_closed() {
    let kinds = [SymbolType::Spot, SymbolType::Perpetual, SymbolType::Future, SymbolType::Option];
    assert_eq!(kinds.len(), 4);
    let opts = [OptionType::Call, OptionType::Put];
    assert_ne!(opts[0], opts[1]);
}

#[test]
fn instrument_info_url_names_exchange_and_symbol() {
    let url = tardis_rs::rest::instrument_info_url(
        "https://api.tardis.dev/v1",
        Exchange::BinanceFutures,
        "BTCUSDT",
    );
    assert_eq!(url, "https://api.tardis.dev/v1/instruments/binance-futures/BTCUSDT");
}
