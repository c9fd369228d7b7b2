//! The types that the maker bot and the feeds share.
//!
//! Prices, sizes and dollar amounts count millionths.

use std::collections::BTreeMap;

use vstd::prelude::*;

verus! {

// ── Price and order book ────────────────────────────────────────

/// A price level of an order book.
#[derive(Debug, Clone, Copy, PartialEq, Eq, Structural)]
pub struct PriceLevel {
    pub price: i64,
    pub size: i64,
}

/// One side of an order book: sizes by price in cents.
pub type BookSide = BTreeMap<u64, i64>;

/// The order book of a token. Times: the venue's in milliseconds, the local one in
/// microseconds.
#[derive(Debug, Clone)]
pub struct OrderBook {
    pub token_id: String,
    pub bids: Vec<PriceLevel>,
    pub asks: Vec<PriceLevel>,
    pub timestamp: i64,
    pub local_recv_ts: i64,
}

pub ghost struct OrderBookView {
    pub token_id: Seq<char>,
    pub bids: Seq<PriceLevel>,
    pub asks: Seq<PriceLevel>,
    pub timestamp: i64,
    pub local_recv_ts: i64,
}

impl View for OrderBook {
    type V = OrderBookView;

    open spec fn view(&self) -> OrderBookView {
        OrderBookView {
            token_id: self.token_id@,
            bids: self.bids@,
            asks: self.asks@,
            timestamp: self.timestamp,
            local_recv_ts: self.local_recv_ts,
        }
    }
}

/// The best bid and ask of a token.
#[derive(Debug, Clone)]
pub struct BBO {
    pub token_id: String,
    pub best_bid: Option<i64>,
    pub best_ask: Option<i64>,
    pub bid_size: Option<i64>,
    pub ask_size: Option<i64>,
    pub timestamp: i64,
    pub local_recv_ts: i64,
}

pub ghost struct BBOView {
    pub token_id: Seq<char>,
    pub best_bid: Option<i64>,
    pub best_ask: Option<i64>,
    pub bid_size: Option<i64>,
    pub ask_size: Option<i64>,
    pub timestamp: i64,
    pub local_recv_ts: i64,
}

impl View for BBO {
    type V = BBOView;

    open spec fn view(&self) -> BBOView {
        BBOView {
            token_id: self.token_id@,
            best_bid: self.best_bid,
            best_ask: self.best_ask,
            bid_size: self.bid_size,
            ask_size: self.ask_size,
            timestamp: self.timestamp,
            local_recv_ts: self.local_recv_ts,
        }
    }
}

// ── Market data events ──────────────────────────────────────────

/// The step that a token's prices are multiples of.
#[derive(Debug, Clone)]
pub struct TickSize {
    pub token_id: String,
    pub tick_size: i64,
}

pub ghost struct TickSizeView {
    pub token_id: Seq<char>,
    pub tick_size: i64,
}

impl View for TickSize {
    type V = TickSizeView;

    open spec fn view(&self) -> TickSizeView {
        TickSizeView {
            token_id: self.token_id@,
            tick_size: self.tick_size,
        }
    }
}

/// A trade on the venue.
#[derive(Debug, Clone)]
pub struct Trade {
    pub token_id: String,
    pub price: i64,
    pub size: i64,
    /// `BUY` or `SELL`.
    pub side: String,
    pub timestamp: i64,
    pub local_recv_ts: i64,
}

pub ghost struct TradeView {
    pub token_id: Seq<char>,
    pub price: i64,
    pub size: i64,
    pub side: Seq<char>,
    pub timestamp: i64,
    pub local_recv_ts: i64,
}

impl View for Trade {
    type V = TradeView;

    open spec fn view(&self) -> TradeView {
        TradeView {
            token_id: self.token_id@,
            price: self.price,
            size: self.size,
            side: self.side@,
            timestamp: self.timestamp,
            local_recv_ts: self.local_recv_ts,
        }
    }
}

// ── Reference prices ────────────────────────────────────────────

#[derive(Debug, Clone, Copy, PartialEq, Eq, Structural)]
pub enum RefSource {
    BinanceBookTicker,
    BinanceDepth,
    RtdsBinance,
    RtdsChainlink,
}

/// A price of a reference source. Times: the source's in milliseconds, the local one
/// in microseconds.
#[derive(Debug, Clone)]
pub struct RefPrice {
    pub source: RefSource,
    pub symbol: String,
    pub price: i64,
    pub timestamp: i64,
    pub local_recv_ts: i64,
}

pub ghost struct RefPriceView {
    pub source: RefSource,
    pub symbol: Seq<char>,
    pub price: i64,
    pub timestamp: i64,
    pub local_recv_ts: i64,
}

impl View for RefPrice {
    type V = RefPriceView;

    open spec fn view(&self) -> RefPriceView {
        RefPriceView {
            source: self.source,
            symbol: self.symbol@,
            price: self.price,
            timestamp: self.timestamp,
            local_recv_ts: self.local_recv_ts,
        }
    }
}

/// The top levels of the exchange's book.
#[derive(Debug, Clone)]
pub struct BinanceDepthUpdate {
    pub event_time: i64,
    pub transaction_time: i64,
    pub first_update_id: u64,
    pub last_update_id: u64,
    pub bids: Vec<PriceLevel>,
    pub asks: Vec<PriceLevel>,
    pub local_recv_ts: i64,
}

pub ghost struct BinanceDepthUpdateView {
    pub event_time: i64,
    pub transaction_time: i64,
    pub first_update_id: u64,
    pub last_update_id: u64,
    pub bids: Seq<PriceLevel>,
    pub asks: Seq<PriceLevel>,
    pub local_recv_ts: i64,
}

impl View for BinanceDepthUpdate {
    type V = BinanceDepthUpdateView;

    open spec fn view(&self) -> BinanceDepthUpdateView {
        BinanceDepthUpdateView {
            event_time: self.event_time,
            transaction_time: self.transaction_time,
            first_update_id: self.first_update_id,
            last_update_id: self.last_update_id,
            bids: self.bids@,
            asks: self.asks@,
            local_recv_ts: self.local_recv_ts,
        }
    }
}

/// The exchange's best bid and ask.
#[derive(Debug, Clone)]
pub struct BinanceBookTicker {
    pub symbol: String,
    pub best_bid: i64,
    pub best_bid_qty: i64,
    pub best_ask: i64,
    pub best_ask_qty: i64,
    pub event_time: i64,
    pub transaction_time: i64,
    pub local_recv_ts: i64,
}

pub ghost struct BinanceBookTickerView {
    pub symbol: Seq<char>,
    pub best_bid: i64,
    pub best_bid_qty: i64,
    pub best_ask: i64,
    pub best_ask_qty: i64,
    pub event_time: i64,
    pub transaction_time: i64,
    pub local_recv_ts: i64,
}

impl View for BinanceBookTicker {
    type V = BinanceBookTickerView;

    open spec fn view(&self) -> BinanceBookTickerView {
        BinanceBookTickerView {
            symbol: self.symbol@,
            best_bid: self.best_bid,
            best_bid_qty: self.best_bid_qty,
            best_ask: self.best_ask,
            best_ask_qty: self.best_ask_qty,
            event_time: self.event_time,
            transaction_time: self.transaction_time,
            local_recv_ts: self.local_recv_ts,
        }
    }
}

// ── Orders ──────────────────────────────────────────────────────

#[derive(Debug, Clone, Copy, PartialEq, Eq, Structural)]
pub enum OrderSide {
    Buy,
    Sell,
}

#[derive(Debug, Clone, Copy, PartialEq, Eq, Structural)]
pub enum OrderType {
    /// Rests until cancelled.
    GTC,
    /// Fills at once or not at all.
    FOK,
    /// Rests until a date.
    GTD,
}

#[derive(Debug, Clone, Copy, PartialEq, Eq, Structural)]
pub enum OrderStatus {
    Pending,
    Placed,
    Matched,
    Mined,
    Confirmed,
    Cancelled,
    Rejected,
}

/// An order to place.
#[derive(Debug, Clone)]
pub struct OrderRequest {
    pub token_id: String,
    pub side: OrderSide,
    pub price: i64,
    pub size: i64,
    pub order_type: OrderType,
    pub post_only: bool,
}

pub ghost struct OrderRequestView {
    pub token_id: Seq<char>,
    pub side: OrderSide,
    pub price: i64,
    pub size: i64,
    pub order_type: OrderType,
    pub post_only: bool,
}

impl View for OrderRequest {
    type V = OrderRequestView;

    open spec fn view(&self) -> OrderRequestView {
        OrderRequestView {
            token_id: self.token_id@,
            side: self.side,
            price: self.price,
            size: self.size,
            order_type: self.order_type,
            post_only: self.post_only,
        }
    }
}

/// An order and what became of it. Times in milliseconds.
#[derive(Debug, Clone)]
pub struct OrderState {
    pub order_id: String,
    pub request: OrderRequest,
    pub status: OrderStatus,
    pub filled_size: i64,
    pub avg_fill_price: Option<i64>,
    pub created_at: i64,
    pub updated_at: i64,
}

pub ghost struct OrderStateView {
    pub order_id: Seq<char>,
    pub request: OrderRequestView,
    pub status: OrderStatus,
    pub filled_size: i64,
    pub avg_fill_price: Option<i64>,
    pub created_at: i64,
    pub updated_at: i64,
}

impl View for OrderState {
    type V = OrderStateView;

    open spec fn view(&self) -> OrderStateView {
        OrderStateView {
            order_id: self.order_id@,
            request: self.request@,
            status: self.status,
            filled_size: self.filled_size,
            avg_fill_price: self.avg_fill_price,
            created_at: self.created_at,
            updated_at: self.updated_at,
        }
    }
}

// ── Signals ─────────────────────────────────────────────────────

/// The imbalance of an order book, between minus one and one.
#[derive(Debug, Clone, Copy)]
pub struct ObiSignal {
    pub value: i128,
    pub levels_used: usize,
    pub timestamp: i64,
    pub local_ts: i64,
}

#[derive(Debug, Clone, Copy, PartialEq, Eq, Structural)]
pub enum OracleLagDirection {
    /// The exchange is above the oracle.
    Up,
    /// The exchange is below the oracle.
    Down,
    /// Within the threshold.
    Flat,
}

/// How far the oracle lags behind the exchange.
#[derive(Debug, Clone, Copy)]
pub struct OracleLagSignal {
    pub binance_price: i64,
    pub chainlink_price: i64,
    pub lag_bps: i128,
    pub direction: OracleLagDirection,
    pub timestamp: i64,
    pub local_ts: i64,
}

// ── Recording ───────────────────────────────────────────────────

/// A message of a feed, as it came.
#[derive(Debug, Clone)]
pub struct RecordedEvent {
    /// When it came, in microseconds.
    pub local_recv_us: i64,
    /// Which feed.
    pub source: String,
    pub event_type: String,
    pub raw_json: String,
}

pub ghost struct RecordedEventView {
    pub local_recv_us: i64,
    pub source: Seq<char>,
    pub event_type: Seq<char>,
    pub raw_json: Seq<char>,
}

impl View for RecordedEvent {
    type V = RecordedEventView;

    open spec fn view(&self) -> RecordedEventView {
        RecordedEventView {
            local_recv_us: self.local_recv_us,
            source: self.source@,
            event_type: self.event_type@,
            raw_json: self.raw_json@,
        }
    }
}

// ── Configuration ───────────────────────────────────────────────

/// The maker bot's configuration. Times in seconds after a window's start.
#[derive(Debug, Clone)]
pub struct BotConfig {
    pub poly_private_key: String,
    pub poly_api_key: String,
    pub poly_api_secret: String,
    pub poly_api_passphrase: String,
    pub market_slug: String,
    pub window_seconds: u64,
    pub start_delay_s: u64,
    pub cancel_at_s: u64,
    /// The most shares on a side.
    pub max_position: i64,
    pub max_open_orders: usize,
    pub stop_loss_usd: i64,
    pub obi_threshold: i64,
    pub oracle_lag_threshold_bps: i64,
}

/// A recorded message.
pub fn recorded(local_recv_us: i64, source: &str, event_type: &str, raw: &str) -> (r: RecordedEvent)
    ensures
        r@ == (RecordedEventView {
            local_recv_us,
            source: source@,
            event_type: event_type@,
            raw_json: raw@,
        }),
{
    RecordedEvent {
        local_recv_us,
        source: source.to_owned(),
        event_type: event_type.to_owned(),
        raw_json: raw.to_owned(),
    }
}

} // verus!
