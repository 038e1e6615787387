//! Shared data definitions of the service's HTTP and streaming APIs: the
//! response envelope, the exchange catalogue with its wire names, and the
//! symbol classification enums.

use vstd::prelude::*;
use vstd::string::StringExecFns;

verus! {

/// The response envelope of the HTTP API: either an error object carrying a
/// numeric code and a message, or the successful payload.
#[derive(Debug, Clone)]
pub enum Response<T> {
    /// The error response.
    Error {
        /// Error code.
        code: u64,
        /// Error message.
        message: String,
    },
    /// The success response.
    Success(T),
}

/// Supported exchanges. Each member has a fixed lowercase-hyphenated wire
/// name, given by [`Exchange::wire_name`].
#[allow(missing_docs)]
#[derive(Debug, Copy, Clone, PartialEq, Eq, Structural)]
pub enum Exchange {
    Bitmex,
    Deribit,
    BinanceFutures,
    BinanceDelivery,
    BinanceOptions,
    Binance,
    Ftx,
    OkexFutures,
    OkexOptions,
    OkexSwap,
    Okex,
    HuobiDm,
    HuobiDmSwap,
    HuobiDmLinearSwap,
    Huobi,
    BitfinexDerivatives,
    Bitfinex,
    Coinbase,
    Cryptofacilities,
    Kraken,
    Bitstamp,
    Gemini,
    Poloniex,
    Bybit,
    BybitSpot,
    BybitOptions,
    Phemex,
    Delta,
    FtxUs,
    BinanceUs,
    GateIoFutures,
    GateIo,
    Okcoin,
    Bitflyer,
    Hitbtc,
    Coinflex,
    BinanceJersey,
    BinanceDex,
    Upbit,
    Ascendex,
    Dydx,
    Serum,
    Mango,
    HuobiDmPptions,
    StarAtlas,
    CryptoCom,
    CryptoComDerivatives,
    Kucoin,
    Bitnomial,
    WooX,
    BlockchainCom,
}

impl Exchange {
    /// The fixed lowercase-hyphenated wire name of this exchange.
    pub open spec fn wire_name(self) -> Seq<char> {
        match self {
            Exchange::Bitmex => "bitmex"@,
            Exchange::Deribit => "deribit"@,
            Exchange::BinanceFutures => "binance-futures"@,
            Exchange::BinanceDelivery => "binance-delivery"@,
            Exchange::BinanceOptions => "binance-options"@,
            Exchange::Binance => "binance"@,
            Exchange::Ftx => "ftx"@,
            Exchange::OkexFutures => "okex-futures"@,
            Exchange::OkexOptions => "okex-options"@,
            Exchange::OkexSwap => "okex-swap"@,
            Exchange::Okex => "okex"@,
            Exchange::HuobiDm => "huobi-dm"@,
            Exchange::HuobiDmSwap => "huobi-dm-swap"@,
            Exchange::HuobiDmLinearSwap => "huobi-dm-linear-swap"@,
            Exchange::Huobi => "huobi"@,
            Exchange::BitfinexDerivatives => "bitfinex-derivatives"@,
            Exchange::Bitfinex => "bitfinex"@,
            Exchange::Coinbase => "coinbase"@,
            Exchange::Cryptofacilities => "cryptofacilities"@,
            Exchange::Kraken => "kraken"@,
            Exchange::Bitstamp => "bitstamp"@,
            Exchange::Gemini => "gemini"@,
            Exchange::Poloniex => "poloniex"@,
            Exchange::Bybit => "bybit"@,
            Exchange::BybitSpot => "bybit-spot"@,
            Exchange::BybitOptions => "bybit-options"@,
            Exchange::Phemex => "phemex"@,
            Exchange::Delta => "delta"@,
            Exchange::FtxUs => "ftx-us"@,
            Exchange::BinanceUs => "binance-us"@,
            Exchange::GateIoFutures => "gate-io-futures"@,
            Exchange::GateIo => "gate-io"@,
            Exchange::Okcoin => "okcoin"@,
            Exchange::Bitflyer => "bitflyer"@,
            Exchange::Hitbtc => "hitbtc"@,
            Exchange::Coinflex => "coinflex"@,
            Exchange::BinanceJersey => "binance-jersey"@,
            Exchange::BinanceDex => "binance-dex"@,
            Exchange::Upbit => "upbit"@,
            Exchange::Ascendex => "ascendex"@,
            Exchange::Dydx => "dydx"@,
            Exchange::Serum => "serum"@,
            Exchange::Mango => "mango"@,
            Exchange::HuobiDmPptions => "huobi-dm-pptions"@,
            Exchange::StarAtlas => "star-atlas"@,
            Exchange::CryptoCom => "crypto-com"@,
            Exchange::CryptoComDerivatives => "crypto-com-derivatives"@,
            Exchange::Kucoin => "kucoin"@,
            Exchange::Bitnomial => "bitnomial"@,
            Exchange::WooX => "woo-x"@,
            Exchange::BlockchainCom => "blockchain-com"@,
        }
    }

    /// The exchange whose wire name is `s`, if any.
    pub open spec fn spec_of_wire(s: Seq<char>) -> Option<Exchange> {
        if s == "bitmex"@ {
            Some(Exchange::Bitmex)
        } else if s == "deribit"@ {
            Some(Exchange::Deribit)
        } else if s == "binance-futures"@ {
            Some(Exchange::BinanceFutures)
        } else if s == "binance-delivery"@ {
            Some(Exchange::BinanceDelivery)
        } else if s == "binance-options"@ {
            Some(Exchange::BinanceOptions)
        } else if s == "binance"@ {
            Some(Exchange::Binance)
        } else if s == "ftx"@ {
            Some(Exchange::Ftx)
        } else if s == "okex-futures"@ {
            Some(Exchange::OkexFutures)
        } else if s == "okex-options"@ {
            Some(Exchange::OkexOptions)
        } else if s == "okex-swap"@ {
            Some(Exchange::OkexSwap)
        } else if s == "okex"@ {
            Some(Exchange::Okex)
        } else if s == "huobi-dm"@ {
            Some(Exchange::HuobiDm)
        } else if s == "huobi-dm-swap"@ {
            Some(Exchange::HuobiDmSwap)
        } else if s == "huobi-dm-linear-swap"@ {
            Some(Exchange::HuobiDmLinearSwap)
        } else if s == "huobi"@ {
            Some(Exchange::Huobi)
        } else if s == "bitfinex-derivatives"@ {
            Some(Exchange::BitfinexDerivatives)
        } else if s == "bitfinex"@ {
            Some(Exchange::Bitfinex)
        } else if s == "coinbase"@ {
            Some(Exchange::Coinbase)
        } else if s == "cryptofacilities"@ {
            Some(Exchange::Cryptofacilities)
        } else if s == "kraken"@ {
            Some(Exchange::Kraken)
        } else if s == "bitstamp"@ {
            Some(Exchange::Bitstamp)
        } else if s == "gemini"@ {
            Some(Exchange::Gemini)
        } else if s == "poloniex"@ {
            Some(Exchange::Poloniex)
        } else if s == "bybit"@ {
            Some(Exchange::Bybit)
        } else if s == "bybit-spot"@ {
            Some(Exchange::BybitSpot)
        } else if s == "bybit-options"@ {
            Some(Exchange::BybitOptions)
        } else if s == "phemex"@ {
            Some(Exchange::Phemex)
        } else if s == "delta"@ {
            Some(Exchange::Delta)
        } else if s == "ftx-us"@ {
            Some(Exchange::FtxUs)
        } else if s == "binance-us"@ {
            Some(Exchange::BinanceUs)
        } else if s == "gate-io-futures"@ {
            Some(Exchange::GateIoFutures)
        } else if s == "gate-io"@ {
            Some(Exchange::GateIo)
        } else if s == "okcoin"@ {
            Some(Exchange::Okcoin)
        } else if s == "bitflyer"@ {
            Some(Exchange::Bitflyer)
        } else if s == "hitbtc"@ {
            Some(Exchange::Hitbtc)
        } else if s == "coinflex"@ {
            Some(Exchange::Coinflex)
        } else if s == "binance-jersey"@ {
            Some(Exchange::BinanceJersey)
        } else if s == "binance-dex"@ {
            Some(Exchange::BinanceDex)
        } else if s == "upbit"@ {
            Some(Exchange::Upbit)
        } else if s == "ascendex"@ {
            Some(Exchange::Ascendex)
        } else if s == "dydx"@ {
            Some(Exchange::Dydx)
        } else if s == "serum"@ {
            Some(Exchange::Serum)
        } else if s == "mango"@ {
            Some(Exchange::Mango)
        } else if s == "huobi-dm-pptions"@ {
            Some(Exchange::HuobiDmPptions)
        } else if s == "star-atlas"@ {
            Some(Exchange::StarAtlas)
        } else if s == "crypto-com"@ {
            Some(Exchange::CryptoCom)
        } else if s == "crypto-com-derivatives"@ {
            Some(Exchange::CryptoComDerivatives)
        } else if s == "kucoin"@ {
            Some(Exchange::Kucoin)
        } else if s == "bitnomial"@ {
            Some(Exchange::Bitnomial)
        } else if s == "woo-x"@ {
            Some(Exchange::WooX)
        } else if s == "blockchain-com"@ {
            Some(Exchange::BlockchainCom)
        } else {
            None
        }
    }

    /// Renders the wire name of this exchange.
    pub fn to_string(&self) -> (r: String)
        ensures
            r@ == self.wire_name(),
    {
        match self {
            Exchange::Bitmex => String::from_str("bitmex"),
            Exchange::Deribit => String::from_str("deribit"),
            Exchange::BinanceFutures => String::from_str("binance-futures"),
            Exchange::BinanceDelivery => String::from_str("binance-delivery"),
            Exchange::BinanceOptions => String::from_str("binance-options"),
            Exchange::Binance => String::from_str("binance"),
            Exchange::Ftx => String::from_str("ftx"),
            Exchange::OkexFutures => String::from_str("okex-futures"),
            Exchange::OkexOptions => String::from_str("okex-options"),
            Exchange::OkexSwap => String::from_str("okex-swap"),
            Exchange::Okex => String::from_str("okex"),
            Exchange::HuobiDm => String::from_str("huobi-dm"),
            Exchange::HuobiDmSwap => String::from_str("huobi-dm-swap"),
            Exchange::HuobiDmLinearSwap => String::from_str("huobi-dm-linear-swap"),
            Exchange::Huobi => String::from_str("huobi"),
            Exchange::BitfinexDerivatives => String::from_str("bitfinex-derivatives"),
            Exchange::Bitfinex => String::from_str("bitfinex"),
            Exchange::Coinbase => String::from_str("coinbase"),
            Exchange::Cryptofacilities => String::from_str("cryptofacilities"),
            Exchange::Kraken => String::from_str("kraken"),
            Exchange::Bitstamp => String::from_str("bitstamp"),
            Exchange::Gemini => String::from_str("gemini"),
            Exchange::Poloniex => String::from_str("poloniex"),
            Exchange::Bybit => String::from_str("bybit"),
            Exchange::BybitSpot => String::from_str("bybit-spot"),
            Exchange::BybitOptions => String::from_str("bybit-options"),
            Exchange::Phemex => String::from_str("phemex"),
            Exchange::Delta => String::from_str("delta"),
            Exchange::FtxUs => String::from_str("ftx-us"),
            Exchange::BinanceUs => String::from_str("binance-us"),
            Exchange::GateIoFutures => String::from_str("gate-io-futures"),
            Exchange::GateIo => String::from_str("gate-io"),
            Exchange::Okcoin => String::from_str("okcoin"),
            Exchange::Bitflyer => String::from_str("bitflyer"),
            Exchange::Hitbtc => String::from_str("hitbtc"),
            Exchange::Coinflex => String::from_str("coinflex"),
            Exchange::BinanceJersey => String::from_str("binance-jersey"),
            Exchange::BinanceDex => String::from_str("binance-dex"),
            Exchange::Upbit => String::from_str("upbit"),
            Exchange::Ascendex => String::from_str("ascendex"),
            Exchange::Dydx => String::from_str("dydx"),
            Exchange::Serum => String::from_str("serum"),
            Exchange::Mango => String::from_str("mango"),
            Exchange::HuobiDmPptions => String::from_str("huobi-dm-pptions"),
            Exchange::StarAtlas => String::from_str("star-atlas"),
            Exchange::CryptoCom => String::from_str("crypto-com"),
            Exchange::CryptoComDerivatives => String::from_str("crypto-com-derivatives"),
            Exchange::Kucoin => String::from_str("kucoin"),
            Exchange::Bitnomial => String::from_str("bitnomial"),
            Exchange::WooX => String::from_str("woo-x"),
            Exchange::BlockchainCom => String::from_str("blockchain-com"),
        }
    }

    /// Parses a wire name back into an exchange.
    pub fn from_wire(s: &str) -> (r: Option<Exchange>)
        ensures
            r == Exchange::spec_of_wire(s@),
    {
        if crate::text::str_eq(s, "bitmex") {
            Some(Exchange::Bitmex)
        } else if crate::text::str_eq(s, "deribit") {
            Some(Exchange::Deribit)
        } else if crate::text::str_eq(s, "binance-futures") {
            Some(Exchange::BinanceFutures)
        } else if crate::text::str_eq(s, "binance-delivery") {
            Some(Exchange::BinanceDelivery)
        } else if crate::text::str_eq(s, "binance-options") {
            Some(Exchange::BinanceOptions)
        } else if crate::text::str_eq(s, "binance") {
            Some(Exchange::Binance)
        } else if crate::text::str_eq(s, "ftx") {
            Some(Exchange::Ftx)
        } else if crate::text::str_eq(s, "okex-futures") {
            Some(Exchange::OkexFutures)
        } else if crate::text::str_eq(s, "okex-options") {
            Some(Exchange::OkexOptions)
        } else if crate::text::str_eq(s, "okex-swap") {
            Some(Exchange::OkexSwap)
        } else if crate::text::str_eq(s, "okex") {
            Some(Exchange::Okex)
        } else if crate::text::str_eq(s, "huobi-dm") {
            Some(Exchange::HuobiDm)
        } else if crate::text::str_eq(s, "huobi-dm-swap") {
            Some(Exchange::HuobiDmSwap)
        } else if crate::text::str_eq(s, "huobi-dm-linear-swap") {
            Some(Exchange::HuobiDmLinearSwap)
        } else if crate::text::str_eq(s, "huobi") {
            Some(Exchange::Huobi)
        } else if crate::text::str_eq(s, "bitfinex-derivatives") {
            Some(Exchange::BitfinexDerivatives)
        } else if crate::text::str_eq(s, "bitfinex") {
            Some(Exchange::Bitfinex)
        } else if crate::text::str_eq(s, "coinbase") {
            Some(Exchange::Coinbase)
        } else if crate::text::str_eq(s, "cryptofacilities") {
            Some(Exchange::Cryptofacilities)
        } else if crate::text::str_eq(s, "kraken") {
            Some(Exchange::Kraken)
        } else if crate::text::str_eq(s, "bitstamp") {
            Some(Exchange::Bitstamp)
        } else if crate::text::str_eq(s, "gemini") {
            Some(Exchange::Gemini)
        } else if crate::text::str_eq(s, "poloniex") {
            Some(Exchange::Poloniex)
        } else if crate::text::str_eq(s, "bybit") {
            Some(Exchange::Bybit)
        } else if crate::text::str_eq(s, "bybit-spot") {
            Some(Exchange::BybitSpot)
        } else if crate::text::str_eq(s, "bybit-options") {
            Some(Exchange::BybitOptions)
        } else if crate::text::str_eq(s, "phemex") {
            Some(Exchange::Phemex)
        } else if crate::text::str_eq(s, "delta") {
            Some(Exchange::Delta)
        } else if crate::text::str_eq(s, "ftx-us") {
            Some(Exchange::FtxUs)
        } else if crate::text::str_eq(s, "binance-us") {
            Some(Exchange::BinanceUs)
        } else if crate::text::str_eq(s, "gate-io-futures") {
            Some(Exchange::GateIoFutures)
        } else if crate::text::str_eq(s, "gate-io") {
            Some(Exchange::GateIo)
        } else if crate::text::str_eq(s, "okcoin") {
            Some(Exchange::Okcoin)
        } else if crate::text::str_eq(s, "bitflyer") {
            Some(Exchange::Bitflyer)
        } else if crate::text::str_eq(s, "hitbtc") {
            Some(Exchange::Hitbtc)
        } else if crate::text::str_eq(s, "coinflex") {
            Some(Exchange::Coinflex)
        } else if crate::text::str_eq(s, "binance-jersey") {
            Some(Exchange::BinanceJersey)
        } else if crate::text::str_eq(s, "binance-dex") {
            Some(Exchange::BinanceDex)
        } else if crate::text::str_eq(s, "upbit") {
            Some(Exchange::Upbit)
        } else if crate::text::str_eq(s, "ascendex") {
            Some(Exchange::Ascendex)
        } else if crate::text::str_eq(s, "dydx") {
            Some(Exchange::Dydx)
        } else if crate::text::str_eq(s, "serum") {
            Some(Exchange::Serum)
        } else if crate::text::str_eq(s, "mango") {
            Some(Exchange::Mango)
        } else if crate::text::str_eq(s, "huobi-dm-pptions") {
            Some(Exchange::HuobiDmPptions)
        } else if crate::text::str_eq(s, "star-atlas") {
            Some(Exchange::StarAtlas)
        } else if crate::text::str_eq(s, "crypto-com") {
            Some(Exchange::CryptoCom)
        } else if crate::text::str_eq(s, "crypto-com-derivatives") {
            Some(Exchange::CryptoComDerivatives)
        } else if crate::text::str_eq(s, "kucoin") {
            Some(Exchange::Kucoin)
        } else if crate::text::str_eq(s, "bitnomial") {
            Some(Exchange::Bitnomial)
        } else if crate::text::str_eq(s, "woo-x") {
            Some(Exchange::WooX)
        } else if crate::text::str_eq(s, "blockchain-com") {
            Some(Exchange::BlockchainCom)
        } else {
            None
        }
    }
}

/// Every exchange's wire name parses back to that same exchange: the wire
/// names are distinct, and rendering then parsing is the identity.
#[verifier::rlimit(100)]
pub proof fn lemma_exchange_wire_roundtrip(e: Exchange)
    ensures
        Exchange::spec_of_wire(e.wire_name()) == Some(e),
{
        reveal_strlit("bitmex");
        reveal_strlit("deribit");
        reveal_strlit("binance-futures");
        reveal_strlit("binance-delivery");
        reveal_strlit("binance-options");
        reveal_strlit("binance");
        reveal_strlit("ftx");
        reveal_strlit("okex-futures");
        reveal_strlit("okex-options");
        reveal_strlit("okex-swap");
        reveal_strlit("okex");
        reveal_strlit("huobi-dm");
        reveal_strlit("huobi-dm-swap");
        reveal_strlit("huobi-dm-linear-swap");
        reveal_strlit("huobi");
        reveal_strlit("bitfinex-derivatives");
        reveal_strlit("bitfinex");
        reveal_strlit("coinbase");
        reveal_strlit("cryptofacilities");
        reveal_strlit("kraken");
        reveal_strlit("bitstamp");
        reveal_strlit("gemini");
        reveal_strlit("poloniex");
        reveal_strlit("bybit");
        reveal_strlit("bybit-spot");
        reveal_strlit("bybit-options");
        reveal_strlit("phemex");
        reveal_strlit("delta");
        reveal_strlit("ftx-us");
        reveal_strlit("binance-us");
        reveal_strlit("gate-io-futures");
        reveal_strlit("gate-io");
        reveal_strlit("okcoin");
        reveal_strlit("bitflyer");
        reveal_strlit("hitbtc");
        reveal_strlit("coinflex");
        reveal_strlit("binance-jersey");
        reveal_strlit("binance-dex");
        reveal_strlit("upbit");
        reveal_strlit("ascendex");
        reveal_strlit("dydx");
        reveal_strlit("serum");
        reveal_strlit("mango");
        reveal_strlit("huobi-dm-pptions");
        reveal_strlit("star-atlas");
        reveal_strlit("crypto-com");
        reveal_strlit("crypto-com-derivatives");
        reveal_strlit("kucoin");
        reveal_strlit("bitnomial");
        reveal_strlit("woo-x");
        reveal_strlit("blockchain-com");
    assert("ascendex"@[0] == 'a');
    assert("ascendex"@[1] == 's');
    assert("ascendex"@[2] == 'c');
    assert("ascendex"@[3] == 'e');
    assert("ascendex"@[4] == 'n');
    assert("ascendex"@[5] == 'd');
    assert("ascendex"@[6] == 'e');
    assert("ascendex"@[7] == 'x');
    assert("binance"@[0] == 'b');
    assert("binance"@[1] == 'i');
    assert("binance"@[2] == 'n');
    assert("binance"@[3] == 'a');
    assert("binance"@[4] == 'n');
    assert("binance"@[5] == 'c');
    assert("binance"@[6] == 'e');
    assert("binance-delivery"@[0] == 'b');
    assert("binance-delivery"@[1] == 'i');
    assert("binance-delivery"@[2] == 'n');
    assert("binance-delivery"@[3] == 'a');
    assert("binance-delivery"@[4] == 'n');
    assert("binance-delivery"@[5] == 'c');
    assert("binance-delivery"@[6] == 'e');
    assert("binance-delivery"@[7] == '-');
    assert("binance-delivery"@[8] == 'd');
    assert("binance-delivery"@[9] == 'e');
    assert("binance-delivery"@[10] == 'l');
    assert("binance-delivery"@[11] == 'i');
    assert("binance-delivery"@[12] == 'v');
    assert("binance-delivery"@[13] == 'e');
    assert("binance-delivery"@[14] == 'r');
    assert("binance-delivery"@[15] == 'y');
    assert("binance-dex"@[0] == 'b');
    assert("binance-dex"@[1] == 'i');
    assert("binance-dex"@[2] == 'n');
    assert("binance-dex"@[3] == 'a');
    assert("binance-dex"@[4] == 'n');
    assert("binance-dex"@[5] == 'c');
    assert("binance-dex"@[6] == 'e');
    assert("binance-dex"@[7] == '-');
    assert("binance-dex"@[8] == 'd');
    assert("binance-dex"@[9] == 'e');
    assert("binance-dex"@[10] == 'x');
    assert("binance-futures"@[0] == 'b');
    assert("binance-futures"@[1] == 'i');
    assert("binance-futures"@[2] == 'n');
    assert("binance-futures"@[3] == 'a');
    assert("binance-futures"@[4] == 'n');
    assert("binance-futures"@[5] == 'c');
    assert("binance-futures"@[6] == 'e');
    assert("binance-futures"@[7] == '-');
    assert("binance-futures"@[8] == 'f');
    assert("binance-futures"@[9] == 'u');
    assert("binance-futures"@[10] == 't');
    assert("binance-futures"@[11] == 'u');
    assert("binance-futures"@[12] == 'r');
    assert("binance-futures"@[13] == 'e');
    assert("binance-futures"@[14] == 's');
    assert("binance-jersey"@[0] == 'b');
    assert("binance-jersey"@[1] == 'i');
    assert("binance-jersey"@[2] == 'n');
    assert("binance-jersey"@[3] == 'a');
    assert("binance-jersey"@[4] == 'n');
    assert("binance-jersey"@[5] == 'c');
    assert("binance-jersey"@[6] == 'e');
    assert("binance-jersey"@[7] == '-');
    assert("binance-jersey"@[8] == 'j');
    assert("binance-jersey"@[9] == 'e');
    assert("binance-jersey"@[10] == 'r');
    assert("binance-jersey"@[11] == 's');
    assert("binance-jersey"@[12] == 'e');
    assert("binance-jersey"@[13] == 'y');
    assert("binance-options"@[0] == 'b');
    assert("binance-options"@[1] == 'i');
    assert("binance-options"@[2] == 'n');
    assert("binance-options"@[3] == 'a');
    assert("binance-options"@[4] == 'n');
    assert("binance-options"@[5] == 'c');
    assert("binance-options"@[6] == 'e');
    assert("binance-options"@[7] == '-');
    assert("binance-options"@[8] == 'o');
    assert("binance-options"@[9] == 'p');
    assert("binance-options"@[10] == 't');
    assert("binance-options"@[11] == 'i');
    assert("binance-options"@[12] == 'o');
    assert("binance-options"@[13] == 'n');
    assert("binance-options"@[14] == 's');
    assert("binance-us"@[0] == 'b');
    assert("binance-us"@[1] == 'i');
    assert("binance-us"@[2] == 'n');
    assert("binance-us"@[3] == 'a');
    assert("binance-us"@[4] == 'n');
    assert("binance-us"@[5] == 'c');
    assert("binance-us"@[6] == 'e');
    assert("binance-us"@[7] == '-');
    assert("binance-us"@[8] == 'u');
    assert("binance-us"@[9] == 's');
    assert("bitfinex"@[0] == 'b');
    assert("bitfinex"@[1] == 'i');
    assert("bitfinex"@[2] == 't');
    assert("bitfinex"@[3] == 'f');
    assert("bitfinex"@[4] == 'i');
    assert("bitfinex"@[5] == 'n');
    assert("bitfinex"@[6] == 'e');
    assert("bitfinex"@[7] == 'x');
    assert("bitfinex-derivatives"@[0] == 'b');
    assert("bitfinex-derivatives"@[1] == 'i');
    assert("bitfinex-derivatives"@[2] == 't');
    assert("bitfinex-derivatives"@[3] == 'f');
    assert("bitfinex-derivatives"@[4] == 'i');
    assert("bitfinex-derivatives"@[5] == 'n');
    assert("bitfinex-derivatives"@[6] == 'e');
    assert("bitfinex-derivatives"@[7] == 'x');
    assert("bitfinex-derivatives"@[8] == '-');
    assert("bitfinex-derivatives"@[9] == 'd');
    assert("bitfinex-derivatives"@[10] == 'e');
    assert("bitfinex-derivatives"@[11] == 'r');
    assert("bitfinex-derivatives"@[12] == 'i');
    assert("bitfinex-derivatives"@[13] == 'v');
    assert("bitfinex-derivatives"@[14] == 'a');
    assert("bitfinex-derivatives"@[15] == 't');
    assert("bitfinex-derivatives"@[16] == 'i');
    assert("bitfinex-derivatives"@[17] == 'v');
    assert("bitfinex-derivatives"@[18] == 'e');
    assert("bitfinex-derivatives"@[19] == 's');
    assert("bitflyer"@[0] == 'b');
    assert("bitflyer"@[1] == 'i');
    assert("bitflyer"@[2] == 't');
    assert("bitflyer"@[3] == 'f');
    assert("bitflyer"@[4] == 'l');
    assert("bitflyer"@[5] == 'y');
    assert("bitflyer"@[6] == 'e');
    assert("bitflyer"@[7] == 'r');
    assert("bitmex"@[0] == 'b');
    assert("bitmex"@[1] == 'i');
    assert("bitmex"@[2] == 't');
    assert("bitmex"@[3] == 'm');
    assert("bitmex"@[4] == 'e');
    assert("bitmex"@[5] == 'x');
    assert("bitnomial"@[0] == 'b');
    assert("bitnomial"@[1] == 'i');
    assert("bitnomial"@[2] == 't');
    assert("bitnomial"@[3] == 'n');
    assert("bitnomial"@[4] == 'o');
    assert("bitnomial"@[5] == 'm');
    assert("bitnomial"@[6] == 'i');
    assert("bitnomial"@[7] == 'a');
    assert("bitnomial"@[8] == 'l');
    assert("bitstamp"@[0] == 'b');
    assert("bitstamp"@[1] == 'i');
    assert("bitstamp"@[2] == 't');
    assert("bitstamp"@[3] == 's');
    assert("bitstamp"@[4] == 't');
    assert("bitstamp"@[5] == 'a');
    assert("bitstamp"@[6] == 'm');
    assert("bitstamp"@[7] == 'p');
    assert("blockchain-com"@[0] == 'b');
    assert("blockchain-com"@[1] == 'l');
    assert("blockchain-com"@[2] == 'o');
    assert("blockchain-com"@[3] == 'c');
    assert("blockchain-com"@[4] == 'k');
    assert("blockchain-com"@[5] == 'c');
    assert("blockchain-com"@[6] == 'h');
    assert("blockchain-com"@[7] == 'a');
    assert("blockchain-com"@[8] == 'i');
    assert("blockchain-com"@[9] == 'n');
    assert("blockchain-com"@[10] == '-');
    assert("blockchain-com"@[11] == 'c');
    assert("blockchain-com"@[12] == 'o');
    assert("blockchain-com"@[13] == 'm');
    assert("bybit"@[0] == 'b');
    assert("bybit"@[1] == 'y');
    assert("bybit"@[2] == 'b');
    assert("bybit"@[3] == 'i');
    assert("bybit"@[4] == 't');
    assert("bybit-options"@[0] == 'b');
    assert("bybit-options"@[1] == 'y');
    assert("bybit-options"@[2] == 'b');
    assert("bybit-options"@[3] == 'i');
    assert("bybit-options"@[4] == 't');
    assert("bybit-options"@[5] == '-');
    assert("bybit-options"@[6] == 'o');
    assert("bybit-options"@[7] == 'p');
    assert("bybit-options"@[8] == 't');
    assert("bybit-options"@[9] == 'i');
    assert("bybit-options"@[10] == 'o');
    assert("bybit-options"@[11] == 'n');
    assert("bybit-options"@[12] == 's');
    assert("bybit-spot"@[0] == 'b');
    assert("bybit-spot"@[1] == 'y');
    assert("bybit-spot"@[2] == 'b');
    assert("bybit-spot"@[3] == 'i');
    assert("bybit-spot"@[4] == 't');
    assert("bybit-spot"@[5] == '-');
    assert("bybit-spot"@[6] == 's');
    assert("bybit-spot"@[7] == 'p');
    assert("bybit-spot"@[8] == 'o');
    assert("bybit-spot"@[9] == 't');
    assert("coinbase"@[0] == 'c');
    assert("coinbase"@[1] == 'o');
    assert("coinbase"@[2] == 'i');
    assert("coinbase"@[3] == 'n');
    assert("coinbase"@[4] == 'b');
    assert("coinbase"@[5] == 'a');
    assert("coinbase"@[6] == 's');
    assert("coinbase"@[7] == 'e');
    assert("coinflex"@[0] == 'c');
    assert("coinflex"@[1] == 'o');
    assert("coinflex"@[2] == 'i');
    assert("coinflex"@[3] == 'n');
    assert("coinflex"@[4] == 'f');
    assert("coinflex"@[5] == 'l');
    assert("coinflex"@[6] == 'e');
    assert("coinflex"@[7] == 'x');
    assert("crypto-com"@[0] == 'c');
    assert("crypto-com"@[1] == 'r');
    assert("crypto-com"@[2] == 'y');
    assert("crypto-com"@[3] == 'p');
    assert("crypto-com"@[4] == 't');
    assert("crypto-com"@[5] == 'o');
    assert("crypto-com"@[6] == '-');
    assert("crypto-com"@[7] == 'c');
    assert("crypto-com"@[8] == 'o');
    assert("crypto-com"@[9] == 'm');
    assert("crypto-com-derivatives"@[0] == 'c');
    assert("crypto-com-derivatives"@[1] == 'r');
    assert("crypto-com-derivatives"@[2] == 'y');
    assert("crypto-com-derivatives"@[3] == 'p');
    assert("crypto-com-derivatives"@[4] == 't');
    assert("crypto-com-derivatives"@[5] == 'o');
    assert("crypto-com-derivatives"@[6] == '-');
    assert("crypto-com-derivatives"@[7] == 'c');
    assert("crypto-com-derivatives"@[8] == 'o');
    assert("crypto-com-derivatives"@[9] == 'm');
    assert("crypto-com-derivatives"@[10] == '-');
    assert("crypto-com-derivatives"@[11] == 'd');
    assert("crypto-com-derivatives"@[12] == 'e');
    assert("crypto-com-derivatives"@[13] == 'r');
    assert("crypto-com-derivatives"@[14] == 'i');
    assert("crypto-com-derivatives"@[15] == 'v');
    assert("crypto-com-derivatives"@[16] == 'a');
    assert("crypto-com-derivatives"@[17] == 't');
    assert("crypto-com-derivatives"@[18] == 'i');
    assert("crypto-com-derivatives"@[19] == 'v');
    assert("crypto-com-derivatives"@[20] == 'e');
    assert("crypto-com-derivatives"@[21] == 's');
    assert("cryptofacilities"@[0] == 'c');
    assert("cryptofacilities"@[1] == 'r');
    assert("cryptofacilities"@[2] == 'y');
    assert("cryptofacilities"@[3] == 'p');
    assert("cryptofacilities"@[4] == 't');
    assert("cryptofacilities"@[5] == 'o');
    assert("cryptofacilities"@[6] == 'f');
    assert("cryptofacilities"@[7] == 'a');
    assert("cryptofacilities"@[8] == 'c');
    assert("cryptofacilities"@[9] == 'i');
    assert("cryptofacilities"@[10] == 'l');
    assert("cryptofacilities"@[11] == 'i');
    assert("cryptofacilities"@[12] == 't');
    assert("cryptofacilities"@[13] == 'i');
    assert("cryptofacilities"@[14] == 'e');
    assert("cryptofacilities"@[15] == 's');
    assert("delta"@[0] == 'd');
    assert("delta"@[1] == 'e');
    assert("delta"@[2] == 'l');
    assert("delta"@[3] == 't');
    assert("delta"@[4] == 'a');
    assert("deribit"@[0] == 'd');
    assert("deribit"@[1] == 'e');
    assert("deribit"@[2] == 'r');
    assert("deribit"@[3] == 'i');
    assert("deribit"@[4] == 'b');
    assert("deribit"@[5] == 'i');
    assert("deribit"@[6] == 't');
    assert("dydx"@[0] == 'd');
    assert("dydx"@[1] == 'y');
    assert("dydx"@[2] == 'd');
    assert("dydx"@[3] == 'x');
    assert("ftx"@[0] == 'f');
    assert("ftx"@[1] == 't');
    assert("ftx"@[2] == 'x');
    assert("ftx-us"@[0] == 'f');
    assert("ftx-us"@[1] == 't');
    assert("ftx-us"@[2] == 'x');
    assert("ftx-us"@[3] == '-');
    assert("ftx-us"@[4] == 'u');
    assert("ftx-us"@[5] == 's');
    assert("gate-io"@[0] == 'g');
    assert("gate-io"@[1] == 'a');
    assert("gate-io"@[2] == 't');
    assert("gate-io"@[3] == 'e');
    assert("gate-io"@[4] == '-');
    assert("gate-io"@[5] == 'i');
    assert("gate-io"@[6] == 'o');
    assert("gate-io-futures"@[0] == 'g');
    assert("gate-io-futures"@[1] == 'a');
    assert("gate-io-futures"@[2] == 't');
    assert("gate-io-futures"@[3] == 'e');
    assert("gate-io-futures"@[4] == '-');
    assert("gate-io-futures"@[5] == 'i');
    assert("gate-io-futures"@[6] == 'o');
    assert("gate-io-futures"@[7] == '-');
    assert("gate-io-futures"@[8] == 'f');
    assert("gate-io-futures"@[9] == 'u');
    assert("gate-io-futures"@[10] == 't');
    assert("gate-io-futures"@[11] == 'u');
    assert("gate-io-futures"@[12] == 'r');
    assert("gate-io-futures"@[13] == 'e');
    assert("gate-io-futures"@[14] == 's');
    assert("gemini"@[0] == 'g');
    assert("gemini"@[1] == 'e');
    assert("gemini"@[2] == 'm');
    assert("gemini"@[3] == 'i');
    assert("gemini"@[4] == 'n');
    assert("gemini"@[5] == 'i');
    assert("hitbtc"@[0] == 'h');
    assert("hitbtc"@[1] == 'i');
    assert("hitbtc"@[2] == 't');
    assert("hitbtc"@[3] == 'b');
    assert("hitbtc"@[4] == 't');
    assert("hitbtc"@[5] == 'c');
    assert("huobi"@[0] == 'h');
    assert("huobi"@[1] == 'u');
    assert("huobi"@[2] == 'o');
    assert("huobi"@[3] == 'b');
    assert("huobi"@[4] == 'i');
    assert("huobi-dm"@[0] == 'h');
    assert("huobi-dm"@[1] == 'u');
    assert("huobi-dm"@[2] == 'o');
    assert("huobi-dm"@[3] == 'b');
    assert("huobi-dm"@[4] == 'i');
    assert("huobi-dm"@[5] == '-');
    assert("huobi-dm"@[6] == 'd');
    assert("huobi-dm"@[7] == 'm');
    assert("huobi-dm-linear-swap"@[0] == 'h');
    assert("huobi-dm-linear-swap"@[1] == 'u');
    assert("huobi-dm-linear-swap"@[2] == 'o');
    assert("huobi-dm-linear-swap"@[3] == 'b');
    assert("huobi-dm-linear-swap"@[4] == 'i');
    assert("huobi-dm-linear-swap"@[5] == '-');
    assert("huobi-dm-linear-swap"@[6] == 'd');
    assert("huobi-dm-linear-swap"@[7] == 'm');
    assert("huobi-dm-linear-swap"@[8] == '-');
    assert("huobi-dm-linear-swap"@[9] == 'l');
    assert("huobi-dm-linear-swap"@[10] == 'i');
    assert("huobi-dm-linear-swap"@[11] == 'n');
    assert("huobi-dm-linear-swap"@[12] == 'e');
    assert("huobi-dm-linear-swap"@[13] == 'a');
    assert("huobi-dm-linear-swap"@[14] == 'r');
    assert("huobi-dm-linear-swap"@[15] == '-');
    assert("huobi-dm-linear-swap"@[16] == 's');
    assert("huobi-dm-linear-swap"@[17] == 'w');
    assert("huobi-dm-linear-swap"@[18] == 'a');
    assert("huobi-dm-linear-swap"@[19] == 'p');
    assert("huobi-dm-pptions"@[0] == 'h');
    assert("huobi-dm-pptions"@[1] == 'u');
    assert("huobi-dm-pptions"@[2] == 'o');
    assert("huobi-dm-pptions"@[3] == 'b');
    assert("huobi-dm-pptions"@[4] == 'i');
    assert("huobi-dm-pptions"@[5] == '-');
    assert("huobi-dm-pptions"@[6] == 'd');
    assert("huobi-dm-pptions"@[7] == 'm');
    assert("huobi-dm-pptions"@[8] == '-');
    assert("huobi-dm-pptions"@[9] == 'p');
    assert("huobi-dm-pptions"@[10] == 'p');
    assert("huobi-dm-pptions"@[11] == 't');
    assert("huobi-dm-pptions"@[12] == 'i');
    assert("huobi-dm-pptions"@[13] == 'o');
    assert("huobi-dm-pptions"@[14] == 'n');
    assert("huobi-dm-pptions"@[15] == 's');
    assert("huobi-dm-swap"@[0] == 'h');
    assert("huobi-dm-swap"@[1] == 'u');
    assert("huobi-dm-swap"@[2] == 'o');
    assert("huobi-dm-swap"@[3] == 'b');
    assert("huobi-dm-swap"@[4] == 'i');
    assert("huobi-dm-swap"@[5] == '-');
    assert("huobi-dm-swap"@[6] == 'd');
    assert("huobi-dm-swap"@[7] == 'm');
    assert("huobi-dm-swap"@[8] == '-');
    assert("huobi-dm-swap"@[9] == 's');
    assert("huobi-dm-swap"@[10] == 'w');
    assert("huobi-dm-swap"@[11] == 'a');
    assert("huobi-dm-swap"@[12] == 'p');
    assert("kraken"@[0] == 'k');
    assert("kraken"@[1] == 'r');
    assert("kraken"@[2] == 'a');
    assert("kraken"@[3] == 'k');
    assert("kraken"@[4] == 'e');
    assert("kraken"@[5] == 'n');
    assert("kucoin"@[0] == 'k');
    assert("kucoin"@[1] == 'u');
    assert("kucoin"@[2] == 'c');
    assert("kucoin"@[3] == 'o');
    assert("kucoin"@[4] == 'i');
    assert("kucoin"@[5] == 'n');
    assert("mango"@[0] == 'm');
    assert("mango"@[1] == 'a');
    assert("mango"@[2] == 'n');
    assert("mango"@[3] == 'g');
    assert("mango"@[4] == 'o');
    assert("okcoin"@[0] == 'o');
    assert("okcoin"@[1] == 'k');
    assert("okcoin"@[2] == 'c');
    assert("okcoin"@[3] == 'o');
    assert("okcoin"@[4] == 'i');
    assert("okcoin"@[5] == 'n');
    assert("okex"@[0] == 'o');
    assert("okex"@[1] == 'k');
    assert("okex"@[2] == 'e');
    assert("okex"@[3] == 'x');
    assert("okex-futures"@[0] == 'o');
    assert("okex-futures"@[1] == 'k');
    assert("okex-futures"@[2] == 'e');
    assert("okex-futures"@[3] == 'x');
    assert("okex-futures"@[4] == '-');
    assert("okex-futures"@[5] == 'f');
    assert("okex-futures"@[6] == 'u');
    assert("okex-futures"@[7] == 't');
    assert("okex-futures"@[8] == 'u');
    assert("okex-futures"@[9] == 'r');
    assert("okex-futures"@[10] == 'e');
    assert("okex-futures"@[11] == 's');
    assert("okex-options"@[0] == 'o');
    assert("okex-options"@[1] == 'k');
    assert("okex-options"@[2] == 'e');
    assert("okex-options"@[3] == 'x');
    assert("okex-options"@[4] == '-');
    assert("okex-options"@[5] == 'o');
    assert("okex-options"@[6] == 'p');
    assert("okex-options"@[7] == 't');
    assert("okex-options"@[8] == 'i');
    assert("okex-options"@[9] == 'o');
    assert("okex-options"@[10] == 'n');
    assert("okex-options"@[11] == 's');
    assert("okex-swap"@[0] == 'o');
    assert("okex-swap"@[1] == 'k');
    assert("okex-swap"@[2] == 'e');
    assert("okex-swap"@[3] == 'x');
    assert("okex-swap"@[4] == '-');
    assert("okex-swap"@[5] == 's');
    assert("okex-swap"@[6] == 'w');
    assert("okex-swap"@[7] == 'a');
    assert("okex-swap"@[8] == 'p');
    assert("phemex"@[0] == 'p');
    assert("phemex"@[1] == 'h');
    assert("phemex"@[2] == 'e');
    assert("phemex"@[3] == 'm');
    assert("phemex"@[4] == 'e');
    assert("phemex"@[5] == 'x');
    assert("poloniex"@[0] == 'p');
    assert("poloniex"@[1] == 'o');
    assert("poloniex"@[2] == 'l');
    assert("poloniex"@[3] == 'o');
    assert("poloniex"@[4] == 'n');
    assert("poloniex"@[5] == 'i');
    assert("poloniex"@[6] == 'e');
    assert("poloniex"@[7] == 'x');
    assert("serum"@[0] == 's');
    assert("serum"@[1] == 'e');
    assert("serum"@[2] == 'r');
    assert("serum"@[3] == 'u');
    assert("serum"@[4] == 'm');
    assert("star-atlas"@[0] == 's');
    assert("star-atlas"@[1] == 't');
    assert("star-atlas"@[2] == 'a');
    assert("star-atlas"@[3] == 'r');
    assert("star-atlas"@[4] == '-');
    assert("star-atlas"@[5] == 'a');
    assert("star-atlas"@[6] == 't');
    assert("star-atlas"@[7] == 'l');
    assert("star-atlas"@[8] == 'a');
    assert("star-atlas"@[9] == 's');
    assert("upbit"@[0] == 'u');
    assert("upbit"@[1] == 'p');
    assert("upbit"@[2] == 'b');
    assert("upbit"@[3] == 'i');
    assert("upbit"@[4] == 't');
    assert("woo-x"@[0] == 'w');
    assert("woo-x"@[1] == 'o');
    assert("woo-x"@[2] == 'o');
    assert("woo-x"@[3] == '-');
    assert("woo-x"@[4] == 'x');
    assert("ascendex"@.len() == 8);
    assert("binance"@.len() == 7);
    assert("binance-delivery"@.len() == 16);
    assert("binance-dex"@.len() == 11);
    assert("binance-futures"@.len() == 15);
    assert("binance-jersey"@.len() == 14);
    assert("binance-options"@.len() == 15);
    assert("binance-us"@.len() == 10);
    assert("bitfinex"@.len() == 8);
    assert("bitfinex-derivatives"@.len() == 20);
    assert("bitflyer"@.len() == 8);
    assert("bitmex"@.len() == 6);
    assert("bitnomial"@.len() == 9);
    assert("bitstamp"@.len() == 8);
    assert("blockchain-com"@.len() == 14);
    assert("bybit"@.len() == 5);
    assert("bybit-options"@.len() == 13);
    assert("bybit-spot"@.len() == 10);
    assert("coinbase"@.len() == 8);
    assert("coinflex"@.len() == 8);
    assert("crypto-com"@.len() == 10);
    assert("crypto-com-derivatives"@.len() == 22);
    assert("cryptofacilities"@.len() == 16);
    assert("delta"@.len() == 5);
    assert("deribit"@.len() == 7);
    assert("dydx"@.len() == 4);
    assert("ftx"@.len() == 3);
    assert("ftx-us"@.len() == 6);
    assert("gate-io"@.len() == 7);
    assert("gate-io-futures"@.len() == 15);
    assert("gemini"@.len() == 6);
    assert("hitbtc"@.len() == 6);
    assert("huobi"@.len() == 5);
    assert("huobi-dm"@.len() == 8);
    assert("huobi-dm-linear-swap"@.len() == 20);
    assert("huobi-dm-pptions"@.len() == 16);
    assert("huobi-dm-swap"@.len() == 13);
    assert("kraken"@.len() == 6);
    assert("kucoin"@.len() == 6);
    assert("mango"@.len() == 5);
    assert("okcoin"@.len() == 6);
    assert("okex"@.len() == 4);
    assert("okex-futures"@.len() == 12);
    assert("okex-options"@.len() == 12);
    assert("okex-swap"@.len() == 9);
    assert("phemex"@.len() == 6);
    assert("poloniex"@.len() == 8);
    assert("serum"@.len() == 5);
    assert("star-atlas"@.len() == 10);
    assert("upbit"@.len() == 5);
    assert("woo-x"@.len() == 5);
    match e {
        Exchange::Bitmex => assert(Exchange::spec_of_wire(Exchange::Bitmex.wire_name()) == Some(Exchange::Bitmex)),
        Exchange::Deribit => assert(Exchange::spec_of_wire(Exchange::Deribit.wire_name()) == Some(Exchange::Deribit)),
        Exchange::BinanceFutures => assert(Exchange::spec_of_wire(Exchange::BinanceFutures.wire_name()) == Some(Exchange::BinanceFutures)),
        Exchange::BinanceDelivery => assert(Exchange::spec_of_wire(Exchange::BinanceDelivery.wire_name()) == Some(Exchange::BinanceDelivery)),
        Exchange::BinanceOptions => assert(Exchange::spec_of_wire(Exchange::BinanceOptions.wire_name()) == Some(Exchange::BinanceOptions)),
        Exchange::Binance => assert(Exchange::spec_of_wire(Exchange::Binance.wire_name()) == Some(Exchange::Binance)),
        Exchange::Ftx => assert(Exchange::spec_of_wire(Exchange::Ftx.wire_name()) == Some(Exchange::Ftx)),
        Exchange::OkexFutures => assert(Exchange::spec_of_wire(Exchange::OkexFutures.wire_name()) == Some(Exchange::OkexFutures)),
        Exchange::OkexOptions => assert(Exchange::spec_of_wire(Exchange::OkexOptions.wire_name()) == Some(Exchange::OkexOptions)),
        Exchange::OkexSwap => assert(Exchange::spec_of_wire(Exchange::OkexSwap.wire_name()) == Some(Exchange::OkexSwap)),
        Exchange::Okex => assert(Exchange::spec_of_wire(Exchange::Okex.wire_name()) == Some(Exchange::Okex)),
        Exchange::HuobiDm => assert(Exchange::spec_of_wire(Exchange::HuobiDm.wire_name()) == Some(Exchange::HuobiDm)),
        Exchange::HuobiDmSwap => assert(Exchange::spec_of_wire(Exchange::HuobiDmSwap.wire_name()) == Some(Exchange::HuobiDmSwap)),
        Exchange::HuobiDmLinearSwap => assert(Exchange::spec_of_wire(Exchange::HuobiDmLinearSwap.wire_name()) == Some(Exchange::HuobiDmLinearSwap)),
        Exchange::Huobi => assert(Exchange::spec_of_wire(Exchange::Huobi.wire_name()) == Some(Exchange::Huobi)),
        Exchange::BitfinexDerivatives => assert(Exchange::spec_of_wire(Exchange::BitfinexDerivatives.wire_name()) == Some(Exchange::BitfinexDerivatives)),
        Exchange::Bitfinex => assert(Exchange::spec_of_wire(Exchange::Bitfinex.wire_name()) == Some(Exchange::Bitfinex)),
        Exchange::Coinbase => assert(Exchange::spec_of_wire(Exchange::Coinbase.wire_name()) == Some(Exchange::Coinbase)),
        Exchange::Cryptofacilities => assert(Exchange::spec_of_wire(Exchange::Cryptofacilities.wire_name()) == Some(Exchange::Cryptofacilities)),
        Exchange::Kraken => assert(Exchange::spec_of_wire(Exchange::Kraken.wire_name()) == Some(Exchange::Kraken)),
        Exchange::Bitstamp => assert(Exchange::spec_of_wire(Exchange::Bitstamp.wire_name()) == Some(Exchange::Bitstamp)),
        Exchange::Gemini => assert(Exchange::spec_of_wire(Exchange::Gemini.wire_name()) == Some(Exchange::Gemini)),
        Exchange::Poloniex => assert(Exchange::spec_of_wire(Exchange::Poloniex.wire_name()) == Some(Exchange::Poloniex)),
        Exchange::Bybit => assert(Exchange::spec_of_wire(Exchange::Bybit.wire_name()) == Some(Exchange::Bybit)),
        Exchange::BybitSpot => assert(Exchange::spec_of_wire(Exchange::BybitSpot.wire_name()) == Some(Exchange::BybitSpot)),
        Exchange::BybitOptions => assert(Exchange::spec_of_wire(Exchange::BybitOptions.wire_name()) == Some(Exchange::BybitOptions)),
        Exchange::Phemex => assert(Exchange::spec_of_wire(Exchange::Phemex.wire_name()) == Some(Exchange::Phemex)),
        Exchange::Delta => assert(Exchange::spec_of_wire(Exchange::Delta.wire_name()) == Some(Exchange::Delta)),
        Exchange::FtxUs => assert(Exchange::spec_of_wire(Exchange::FtxUs.wire_name()) == Some(Exchange::FtxUs)),
        Exchange::BinanceUs => assert(Exchange::spec_of_wire(Exchange::BinanceUs.wire_name()) == Some(Exchange::BinanceUs)),
        Exchange::GateIoFutures => assert(Exchange::spec_of_wire(Exchange::GateIoFutures.wire_name()) == Some(Exchange::GateIoFutures)),
        Exchange::GateIo => assert(Exchange::spec_of_wire(Exchange::GateIo.wire_name()) == Some(Exchange::GateIo)),
        Exchange::Okcoin => assert(Exchange::spec_of_wire(Exchange::Okcoin.wire_name()) == Some(Exchange::Okcoin)),
        Exchange::Bitflyer => assert(Exchange::spec_of_wire(Exchange::Bitflyer.wire_name()) == Some(Exchange::Bitflyer)),
        Exchange::Hitbtc => assert(Exchange::spec_of_wire(Exchange::Hitbtc.wire_name()) == Some(Exchange::Hitbtc)),
        Exchange::Coinflex => assert(Exchange::spec_of_wire(Exchange::Coinflex.wire_name()) == Some(Exchange::Coinflex)),
        Exchange::BinanceJersey => assert(Exchange::spec_of_wire(Exchange::BinanceJersey.wire_name()) == Some(Exchange::BinanceJersey)),
        Exchange::BinanceDex => assert(Exchange::spec_of_wire(Exchange::BinanceDex.wire_name()) == Some(Exchange::BinanceDex)),
        Exchange::Upbit => assert(Exchange::spec_of_wire(Exchange::Upbit.wire_name()) == Some(Exchange::Upbit)),
        Exchange::Ascendex => assert(Exchange::spec_of_wire(Exchange::Ascendex.wire_name()) == Some(Exchange::Ascendex)),
        Exchange::Dydx => assert(Exchange::spec_of_wire(Exchange::Dydx.wire_name()) == Some(Exchange::Dydx)),
        Exchange::Serum => assert(Exchange::spec_of_wire(Exchange::Serum.wire_name()) == Some(Exchange::Serum)),
        Exchange::Mango => assert(Exchange::spec_of_wire(Exchange::Mango.wire_name()) == Some(Exchange::Mango)),
        Exchange::HuobiDmPptions => assert(Exchange::spec_of_wire(Exchange::HuobiDmPptions.wire_name()) == Some(Exchange::HuobiDmPptions)),
        Exchange::StarAtlas => assert(Exchange::spec_of_wire(Exchange::StarAtlas.wire_name()) == Some(Exchange::StarAtlas)),
        Exchange::CryptoCom => assert(Exchange::spec_of_wire(Exchange::CryptoCom.wire_name()) == Some(Exchange::CryptoCom)),
        Exchange::CryptoComDerivatives => assert(Exchange::spec_of_wire(Exchange::CryptoComDerivatives.wire_name()) == Some(Exchange::CryptoComDerivatives)),
        Exchange::Kucoin => assert(Exchange::spec_of_wire(Exchange::Kucoin.wire_name()) == Some(Exchange::Kucoin)),
        Exchange::Bitnomial => assert(Exchange::spec_of_wire(Exchange::Bitnomial.wire_name()) == Some(Exchange::Bitnomial)),
        Exchange::WooX => assert(Exchange::spec_of_wire(Exchange::WooX.wire_name()) == Some(Exchange::WooX)),
        Exchange::BlockchainCom => assert(Exchange::spec_of_wire(Exchange::BlockchainCom.wire_name()) == Some(Exchange::BlockchainCom)),
    }
}

/// The type of a symbol.
#[derive(Debug, Copy, Clone, PartialEq, Eq, Structural)]
pub enum SymbolType {
    /// Spot market.
    Spot,
    /// Perpetual market (also known as Linear).
    Perpetual,
    /// Futures market (also known as Delivery).
    Future,
    /// Option market.
    Option,
}

/// The type of an option symbol.
#[derive(Debug, Copy, Clone, PartialEq, Eq, Structural)]
pub enum OptionType {
    /// Call option.
    Call,
    /// Put option.
    Put,
}

} // verus!
