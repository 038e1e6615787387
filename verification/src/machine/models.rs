//! Request options for the machine server's replay and stream calls.

use vstd::prelude::*;
use crate::models::Exchange;
use crate::machine::time::UtcDateTime;

verus! {

/// The options of one replay-normalized request: which exchange, which
/// symbols, the UTC time range to replay, and the normalized data types
/// asked for.
#[derive(Debug, Clone)]
pub struct ReplayNormalizedRequestOptions {
    /// Requested exchange.
    pub exchange: Exchange,
    /// Optional symbols of the requested historical data feed.
    pub symbols: Option<Vec<String>>,
    /// Replay period start (UTC).
    pub from: UtcDateTime,
    /// Replay period end (UTC).
    pub to: UtcDateTime,
    /// Names of the normalized data types to receive.
    pub data_types: Vec<String>,
    /// When true, also sends the disconnect markers recorded with the data.
    pub with_disconnect_messages: Option<bool>,
}

/// The options of one stream-normalized request: which exchange, which
/// symbols, and the normalized data types asked for.
#[derive(Debug, Clone)]
pub struct StreamNormalizedRequestOptions {
    /// Requested exchange.
    pub exchange: Exchange,
    /// Optional symbols of the requested real-time data feed.
    pub symbols: Option<Vec<String>>,
    /// Names of the normalized data types to receive.
    pub data_types: Vec<String>,
    /// When true, sends a disconnect marker whenever an underlying exchange
    /// connection drops.
    pub with_disconnect_messages: Option<bool>,
    /// Time in milliseconds after which an idle upstream exchange connection
    /// is restarted by the server.
    pub timeout_interval_ms: Option<u64>,
}

/// The possible messages of the streaming session, discriminated on the wire
/// by a `type` tag.
#[allow(missing_docs)]
#[derive(Debug, Clone, PartialEq, Eq)]
pub enum Message {
    Trade(Trade),
    BookChange(BookChange),
    DerivativeTicker(DerivativeTicker),
    BookSnapshot(BookSnapshot),
    TradeBar(TradeBar),
    Disconnect(Disconnect),
}

/// Side of a trade.
#[derive(Debug, Copy, Clone, PartialEq, Eq, Structural)]
pub enum TradeSide {
    /// Buy order.
    Buy,
    /// Sell order.
    Sell,
    /// Unknown order.
    Unknown,
}

/// Kind of a trade bar.
#[allow(missing_docs)]
#[derive(Debug, Copy, Clone, PartialEq, Eq, Structural)]
pub enum TradeBarKind {
    Time,
    Volume,
    Tick,
}

/// An individual trade. Prices and amounts carry the exact decimal text of
/// the wire; the client passes them through without computing on them.
#[derive(Debug, Clone, PartialEq, Eq)]
pub struct Trade {
    /// Instrument symbol as provided by the exchange.
    pub symbol: String,
    /// Exchange the trade happened on.
    pub exchange: Exchange,
    /// Trade id, if the exchange provides one.
    pub id: Option<String>,
    /// Trade price, as the decimal text of the wire.
    pub price: String,
    /// Trade amount, as the decimal text of the wire.
    pub amount: String,
    /// Liquidity taker side (aggressor).
    pub side: TradeSide,
    /// Event timestamp asserted by the exchange.
    pub timestamp: UtcDateTime,
    /// Local arrival timestamp.
    pub local_timestamp: UtcDateTime,
}

/// One price level of an order book, as decimal text. An amount of exactly
/// zero in a book change means the level is to be removed.
#[derive(Debug, Clone, PartialEq, Eq)]
pub struct BookLevel {
    /// Price of the level, as the decimal text of the wire.
    pub price: String,
    /// Amount at the level, as the decimal text of the wire.
    pub amount: String,
}

/// An initial order-book snapshot or an incremental update of price levels.
#[derive(Debug, Clone, PartialEq, Eq)]
pub struct BookChange {
    /// Instrument symbol as provided by the exchange.
    pub symbol: String,
    /// Exchange the book belongs to.
    pub exchange: Exchange,
    /// True marks an initial order-book snapshot.
    pub is_snapshot: bool,
    /// Updated bid levels.
    pub bids: Vec<BookLevel>,
    /// Updated ask levels.
    pub asks: Vec<BookLevel>,
    /// Book update timestamp, or the arrival timestamp if the exchange gives
    /// none.
    pub timestamp: UtcDateTime,
    /// Local arrival timestamp.
    pub local_timestamp: UtcDateTime,
}

/// Derivative instrument ticker info.
#[derive(Debug, Clone, PartialEq, Eq)]
pub struct DerivativeTicker {
    /// Instrument symbol as provided by the exchange.
    pub symbol: String,
    /// Exchange the instrument trades on.
    pub exchange: Exchange,
    /// Last instrument price, if provided.
    pub last_price: Option<String>,
    /// Last open interest, if provided.
    pub open_interest: Option<String>,
    /// Last funding rate, if provided.
    pub funding_rate: Option<String>,
    /// Last index price, if provided.
    pub index_price: Option<String>,
    /// Last mark price, if provided.
    pub mark_price: Option<String>,
    /// Event timestamp asserted by the exchange.
    pub timestamp: UtcDateTime,
    /// Local arrival timestamp.
    pub local_timestamp: UtcDateTime,
}

/// An order-book snapshot of the top levels, taken on a fixed interval.
#[derive(Debug, Clone, PartialEq, Eq)]
pub struct BookSnapshot {
    /// Instrument symbol as provided by the exchange.
    pub symbol: String,
    /// Exchange the book belongs to.
    pub exchange: Exchange,
    /// Feed name, of the shape `book_snapshot_{depth}_{interval}{unit}`.
    pub name: String,
    /// Requested number of levels.
    pub depth: u64,
    /// Requested snapshot interval in milliseconds.
    pub interval: u64,
    /// Top bid levels, best first.
    pub bids: Vec<BookLevel>,
    /// Top ask levels, best first.
    pub asks: Vec<BookLevel>,
    /// Snapshot timestamp.
    pub timestamp: UtcDateTime,
    /// Local arrival timestamp that triggered the snapshot.
    pub local_timestamp: UtcDateTime,
}

/// Trades aggregated into a bar.
#[derive(Debug, Clone, PartialEq, Eq)]
pub struct TradeBar {
    /// Instrument symbol as provided by the exchange.
    pub symbol: String,
    /// Exchange the trades happened on.
    pub exchange: Exchange,
    /// Feed name, of the shape `trade_bar_{interval}`.
    pub name: String,
    /// Requested bar interval.
    pub interval: u64,
    /// Open price, as the decimal text of the wire.
    pub open: String,
    /// High price, as the decimal text of the wire.
    pub high: String,
    /// Low price, as the decimal text of the wire.
    pub low: String,
    /// Close price, as the decimal text of the wire.
    pub close: String,
    /// Total volume traded in the interval.
    pub volume: String,
    /// Buy volume traded in the interval.
    pub buy_volume: String,
    /// Sell volume traded in the interval.
    pub sell_volume: String,
    /// Number of trades in the interval.
    pub trades: u64,
    /// Volume-weighted average price.
    pub vwap: String,
    /// Timestamp of the first trade of the bar.
    pub open_timestamp: UtcDateTime,
    /// Timestamp of the last trade of the bar.
    pub close_timestamp: UtcDateTime,
    /// End of the bar's interval.
    pub timestamp: UtcDateTime,
    /// Local arrival timestamp that triggered the bar.
    pub local_timestamp: UtcDateTime,
}

/// A marker that the real-time connection the data was collected over
/// dropped at this point.
#[derive(Debug, Clone, PartialEq, Eq)]
pub struct Disconnect {
    /// Exchange whose connection dropped.
    pub exchange: Exchange,
    /// Local arrival timestamp of the marker.
    pub local_timestamp: UtcDateTime,
}

} // verus!
