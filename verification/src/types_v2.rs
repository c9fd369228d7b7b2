//! The types that the event-driven bots share.
//!
//! Prices, sizes, dollar amounts, basis points and scores count millionths.

use vstd::prelude::*;

use crate::extended::Extended;
use crate::fixed::opt_amount_ok;

verus! {

// ── Core enums ──────────────────────────────────────────────────

#[derive(Debug, Clone, Copy, PartialEq, Eq, Structural)]
pub enum Side {
    Up,
    Down,
}

#[derive(Debug, Clone, Copy, PartialEq, Eq, Structural)]
pub enum BotMode {
    DryRun,
    Live,
}

/// Where a sniper stands in its cycle.
#[derive(Debug, Clone, Copy, PartialEq, Eq, Structural)]
pub enum StrategyState {
    /// Ready to trade.
    Idle,
    /// The first leg is being bought.
    Entering,
    /// The first leg is held; the market is given time to move.
    WaitForReprice,
    /// The opposite side is being bought.
    BuyingSecondLeg,
    /// Both sides are held.
    PairComplete,
    /// A pause before the next pair.
    Cooldown,
}

#[derive(Debug, Clone, Copy, PartialEq, Eq, Structural)]
pub enum EntryMode {
    /// A resting order, on a medium signal.
    Maker,
    /// A fill-or-kill order, on a strong signal.
    Taker,
}

/// The other side.
pub open spec fn opposite(side: Side) -> Side {
    match side {
        Side::Up => Side::Down,
        Side::Down => Side::Up,
    }
}

// ── Market data ─────────────────────────────────────────────────

#[derive(Debug, Clone, Copy)]
pub struct BinanceTick {
    pub recv_ts_ms: i64,
    pub event_ts_ms: i64,
    pub bid: i64,
    pub ask: i64,
    pub mid: i64,
    /// The order book's imbalance, where the feed has depth.
    pub obi: Option<i64>,
}

#[derive(Debug, Clone, Copy)]
pub struct ChainlinkTick {
    pub recv_ts_ms: i64,
    pub source_ts_ms: Option<i64>,
    pub price: i64,
}

/// The best prices of both tokens of a market.
#[derive(Debug, Clone, Copy)]
pub struct PolymarketTop {
    pub recv_ts_ms: i64,
    pub up_bid: Option<i64>,
    pub up_ask: Option<i64>,
    pub down_bid: Option<i64>,
    pub down_ask: Option<i64>,
}

impl PolymarketTop {
    /// Every price that is present is within range.
    pub open spec fn wf(self) -> bool {
        &&& opt_amount_ok(self.up_bid)
        &&& opt_amount_ok(self.up_ask)
        &&& opt_amount_ok(self.down_bid)
        &&& opt_amount_ok(self.down_ask)
    }
}

impl Default for PolymarketTop {
    fn default() -> (r: Self)
        ensures
            r == (PolymarketTop {
                recv_ts_ms: 0,
                up_bid: None,
                up_ask: None,
                down_bid: None,
                down_ask: None,
            }),
    {
        PolymarketTop { recv_ts_ms: 0, up_bid: None, up_ask: None, down_bid: None, down_ask: None }
    }
}

/// A market and its window. The window's bounds are unix seconds.
#[derive(Debug, Clone)]
pub struct MarketDescriptor {
    pub slug: String,
    pub condition_id: String,
    pub up_token_id: String,
    pub down_token_id: String,
    pub window_start_ts: i64,
    pub window_end_ts: i64,
}

pub ghost struct MarketView {
    pub slug: Seq<char>,
    pub condition_id: Seq<char>,
    pub up_token_id: Seq<char>,
    pub down_token_id: Seq<char>,
    pub window_start_ts: i64,
    pub window_end_ts: i64,
}

impl MarketView {
    /// The token of a side.
    pub open spec fn token(self, side: Side) -> Seq<char> {
        match side {
            Side::Up => self.up_token_id,
            Side::Down => self.down_token_id,
        }
    }
}

impl View for MarketDescriptor {
    type V = MarketView;

    open spec fn view(&self) -> MarketView {
        MarketView {
            slug: self.slug@,
            condition_id: self.condition_id@,
            up_token_id: self.up_token_id@,
            down_token_id: self.down_token_id@,
            window_start_ts: self.window_start_ts,
            window_end_ts: self.window_end_ts,
        }
    }
}

impl Default for MarketDescriptor {
    fn default() -> (r: Self)
        ensures
            r@ == (MarketView {
                slug: Seq::empty(),
                condition_id: Seq::empty(),
                up_token_id: Seq::empty(),
                down_token_id: Seq::empty(),
                window_start_ts: 0,
                window_end_ts: 0,
            }),
    {
        MarketDescriptor {
            slug: String::new(),
            condition_id: String::new(),
            up_token_id: String::new(),
            down_token_id: String::new(),
            window_start_ts: 0,
            window_end_ts: 0,
        }
    }
}

impl MarketDescriptor {
    /// The token of a side.
    pub fn token(&self, side: Side) -> (r: String)
        ensures
            r@ == self@.token(side),
    {
        match side {
            Side::Up => self.up_token_id.clone(),
            Side::Down => self.down_token_id.clone(),
        }
    }
}

// ── Signals ─────────────────────────────────────────────────────

#[derive(Debug, Clone, Copy)]
pub struct FeatureSnapshot {
    pub now_ts_ms: i64,
    pub move_bps: i128,
    pub basis_bps: i128,
    pub volatility_bps: i128,
}

/// A directional signal with the features that it was made from.
#[derive(Debug, Clone, Copy)]
pub struct Signal {
    pub created_ts_ms: i64,
    pub side: Side,
    pub entry_mode: EntryMode,
    pub r200_bps: Extended,
    pub r500_bps: Extended,
    pub r800_bps: Extended,
    pub r2000_bps: Extended,
    pub fast_move_bps: Extended,
    pub raw_basis_bps: Extended,
    /// The basis without its slow average.
    pub basis_dev_bps: Extended,
    /// The change of the basis over a quarter of a second.
    pub dbasis_bps: Extended,
    pub obi_ema: i128,
    pub score: i128,
    pub confidence: i128,
    /// Price, book and basis point the other way: a hard veto.
    pub strong_contradiction: bool,
}

// ── Positions ───────────────────────────────────────────────────

#[derive(Debug, Clone)]
pub struct Position {
    pub market_slug: String,
    pub token_id: String,
    pub side: Side,
    pub entry_ts_ms: i64,
    pub entry_price: i128,
    /// In shares.
    pub size: i128,
    /// Dollars spent.
    pub notional: i128,
    pub signal_bps: i128,
    pub signal_confidence: i128,
}

pub ghost struct PositionView {
    pub market_slug: Seq<char>,
    pub token_id: Seq<char>,
    pub side: Side,
    pub entry_ts_ms: i64,
    pub entry_price: i128,
    pub size: i128,
    pub notional: i128,
    pub signal_bps: i128,
    pub signal_confidence: i128,
}

impl View for Position {
    type V = PositionView;

    open spec fn view(&self) -> PositionView {
        PositionView {
            market_slug: self.market_slug@,
            token_id: self.token_id@,
            side: self.side,
            entry_ts_ms: self.entry_ts_ms,
            entry_price: self.entry_price,
            size: self.size,
            notional: self.notional,
            signal_bps: self.signal_bps,
            signal_confidence: self.signal_confidence,
        }
    }
}

// ── Execution ───────────────────────────────────────────────────

/// What the venue has matched for the two tokens of a market.
#[derive(Debug, Clone, Copy)]
pub struct ReconciliationResult {
    pub open_order_count: usize,
    pub up_size_matched: i128,
    pub down_size_matched: i128,
    pub ts_ms: i64,
}

/// What a strategy asks the executor to do.
#[derive(Debug, Clone)]
pub enum ExecutionCommand {
    EnterTaker {
        market_slug: String,
        token_id: String,
        side: Side,
        max_price: i128,
        notional: i128,
        signal: Signal,
    },
    ExitTaker {
        market_slug: String,
        token_id: String,
        side: Side,
        shares: i128,
        min_price: i128,
        reason: String,
    },
    /// Buy the opposite side, the second leg of a pair.
    BuySecondLeg {
        market_slug: String,
        opposite_token_id: String,
        opposite_side: Side,
        ask_price: i128,
        reason: String,
    },
    CancelAll {
        reason: String,
    },
    /// Post a bid that rests on the book.
    PostMakerBid {
        market_slug: String,
        token_id: String,
        side: Side,
        price: i128,
        size: i128,
        post_only: bool,
        ladder_key: String,
        was_cheap: bool,
    },
    /// Compare the tracked fills with the venue's.
    Reconcile {
        up_token_id: String,
        down_token_id: String,
    },
}

/// An execution command with its texts as sequences of characters.
pub ghost enum CommandView {
    EnterTaker {
        market_slug: Seq<char>,
        token_id: Seq<char>,
        side: Side,
        max_price: i128,
        notional: i128,
        signal: Signal,
    },
    ExitTaker {
        market_slug: Seq<char>,
        token_id: Seq<char>,
        side: Side,
        shares: i128,
        min_price: i128,
        reason: Seq<char>,
    },
    BuySecondLeg {
        market_slug: Seq<char>,
        opposite_token_id: Seq<char>,
        opposite_side: Side,
        ask_price: i128,
        reason: Seq<char>,
    },
    CancelAll {
        reason: Seq<char>,
    },
    PostMakerBid {
        market_slug: Seq<char>,
        token_id: Seq<char>,
        side: Side,
        price: i128,
        size: i128,
        post_only: bool,
        ladder_key: Seq<char>,
        was_cheap: bool,
    },
    Reconcile {
        up_token_id: Seq<char>,
        down_token_id: Seq<char>,
    },
}

impl View for ExecutionCommand {
    type V = CommandView;

    open spec fn view(&self) -> CommandView {
        match self {
            ExecutionCommand::EnterTaker { market_slug, token_id, side, max_price, notional, signal } => CommandView::EnterTaker {
                market_slug: market_slug@,
                token_id: token_id@,
                side: *side,
                max_price: *max_price,
                notional: *notional,
                signal: *signal,
            },
            ExecutionCommand::ExitTaker { market_slug, token_id, side, shares, min_price, reason } => CommandView::ExitTaker {
                market_slug: market_slug@,
                token_id: token_id@,
                side: *side,
                shares: *shares,
                min_price: *min_price,
                reason: reason@,
            },
            ExecutionCommand::BuySecondLeg { market_slug, opposite_token_id, opposite_side, ask_price, reason } => CommandView::BuySecondLeg {
                market_slug: market_slug@,
                opposite_token_id: opposite_token_id@,
                opposite_side: *opposite_side,
                ask_price: *ask_price,
                reason: reason@,
            },
            ExecutionCommand::CancelAll { reason } => CommandView::CancelAll {
                reason: reason@,
            },
            ExecutionCommand::PostMakerBid { market_slug, token_id, side, price, size, post_only, ladder_key, was_cheap } => CommandView::PostMakerBid {
                market_slug: market_slug@,
                token_id: token_id@,
                side: *side,
                price: *price,
                size: *size,
                post_only: *post_only,
                ladder_key: ladder_key@,
                was_cheap: *was_cheap,
            },
            ExecutionCommand::Reconcile { up_token_id, down_token_id } => CommandView::Reconcile {
                up_token_id: up_token_id@,
                down_token_id: down_token_id@,
            },
        }
    }
}

/// What the executor reports.
#[derive(Debug, Clone)]
pub enum ExecutionEvent {
    EntryFilled {
        sent_ts_ms: i64,
        ack_ts_ms: i64,
        market_slug: String,
        token_id: String,
        side: Side,
        filled_price: i128,
        filled_size: i128,
        notional: i128,
        order_id: String,
        signal: Signal,
    },
    EntryRejected {
        ts_ms: i64,
        reason: String,
    },
    ExitFilled {
        sent_ts_ms: i64,
        ack_ts_ms: i64,
        market_slug: String,
        token_id: String,
        side: Side,
        filled_price: i128,
        filled_size: i128,
        reason: String,
        order_id: String,
    },
    ExitRejected {
        ts_ms: i64,
        reason: String,
    },
    /// The second leg was bought: the pair is complete.
    SecondLegFilled {
        ts_ms: i64,
        market_slug: String,
        opposite_token_id: String,
        opposite_side: Side,
        filled_price: i128,
        filled_size: i128,
        reason: String,
    },
    SecondLegRejected {
        ts_ms: i64,
        reason: String,
    },
    CancelAck {
        ts_ms: i64,
        count: usize,
    },
    /// A resting bid was accepted.
    MakerOrderPosted {
        ts_ms: i64,
        ladder_key: String,
        order_id: String,
    },
    ReconcileResult(ReconciliationResult),
}

/// An execution event with its texts as sequences of characters.
pub ghost enum ExecutionEventView {
    EntryFilled {
        sent_ts_ms: i64,
        ack_ts_ms: i64,
        market_slug: Seq<char>,
        token_id: Seq<char>,
        side: Side,
        filled_price: i128,
        filled_size: i128,
        notional: i128,
        order_id: Seq<char>,
        signal: Signal,
    },
    EntryRejected {
        ts_ms: i64,
        reason: Seq<char>,
    },
    ExitFilled {
        sent_ts_ms: i64,
        ack_ts_ms: i64,
        market_slug: Seq<char>,
        token_id: Seq<char>,
        side: Side,
        filled_price: i128,
        filled_size: i128,
        reason: Seq<char>,
        order_id: Seq<char>,
    },
    ExitRejected {
        ts_ms: i64,
        reason: Seq<char>,
    },
    SecondLegFilled {
        ts_ms: i64,
        market_slug: Seq<char>,
        opposite_token_id: Seq<char>,
        opposite_side: Side,
        filled_price: i128,
        filled_size: i128,
        reason: Seq<char>,
    },
    SecondLegRejected {
        ts_ms: i64,
        reason: Seq<char>,
    },
    CancelAck {
        ts_ms: i64,
        count: usize,
    },
    MakerOrderPosted {
        ts_ms: i64,
        ladder_key: Seq<char>,
        order_id: Seq<char>,
    },
    ReconcileResult(ReconciliationResult),
}

impl View for ExecutionEvent {
    type V = ExecutionEventView;

    open spec fn view(&self) -> ExecutionEventView {
        match self {
            ExecutionEvent::EntryFilled { sent_ts_ms, ack_ts_ms, market_slug, token_id, side, filled_price, filled_size, notional, order_id, signal } => ExecutionEventView::EntryFilled {
                sent_ts_ms: *sent_ts_ms,
                ack_ts_ms: *ack_ts_ms,
                market_slug: market_slug@,
                token_id: token_id@,
                side: *side,
                filled_price: *filled_price,
                filled_size: *filled_size,
                notional: *notional,
                order_id: order_id@,
                signal: *signal,
            },
            ExecutionEvent::EntryRejected { ts_ms, reason } => ExecutionEventView::EntryRejected {
                ts_ms: *ts_ms,
                reason: reason@,
            },
            ExecutionEvent::ExitFilled { sent_ts_ms, ack_ts_ms, market_slug, token_id, side, filled_price, filled_size, reason, order_id } => ExecutionEventView::ExitFilled {
                sent_ts_ms: *sent_ts_ms,
                ack_ts_ms: *ack_ts_ms,
                market_slug: market_slug@,
                token_id: token_id@,
                side: *side,
                filled_price: *filled_price,
                filled_size: *filled_size,
                reason: reason@,
                order_id: order_id@,
            },
            ExecutionEvent::ExitRejected { ts_ms, reason } => ExecutionEventView::ExitRejected {
                ts_ms: *ts_ms,
                reason: reason@,
            },
            ExecutionEvent::SecondLegFilled { ts_ms, market_slug, opposite_token_id, opposite_side, filled_price, filled_size, reason } => ExecutionEventView::SecondLegFilled {
                ts_ms: *ts_ms,
                market_slug: market_slug@,
                opposite_token_id: opposite_token_id@,
                opposite_side: *opposite_side,
                filled_price: *filled_price,
                filled_size: *filled_size,
                reason: reason@,
            },
            ExecutionEvent::SecondLegRejected { ts_ms, reason } => ExecutionEventView::SecondLegRejected {
                ts_ms: *ts_ms,
                reason: reason@,
            },
            ExecutionEvent::CancelAck { ts_ms, count } => ExecutionEventView::CancelAck {
                ts_ms: *ts_ms,
                count: *count,
            },
            ExecutionEvent::MakerOrderPosted { ts_ms, ladder_key, order_id } => ExecutionEventView::MakerOrderPosted {
                ts_ms: *ts_ms,
                ladder_key: ladder_key@,
                order_id: order_id@,
            },
            ExecutionEvent::ReconcileResult(x) => ExecutionEventView::ReconcileResult(*x),
        }
    }
}

// ── Logging ─────────────────────────────────────────────────────

/// What the trade log records.
#[derive(Debug, Clone)]
pub enum LogEvent {
    SignalSeen {
        ts_ms: i64,
        signal: Signal,
    },
    TradeSkipped {
        ts_ms: i64,
        reason: String,
    },
    EntrySent {
        ts_ms: i64,
        side: Side,
        token_id: String,
        notional: i128,
        score: i128,
        fast_move_bps: Extended,
        basis_dev_bps: Extended,
    },
    EntryFilled {
        ts_ms: i64,
        side: Side,
        token_id: String,
        price: i128,
        size: i128,
        latency_ms: i64,
    },
    EntryRejected {
        ts_ms: i64,
        reason: String,
    },
    ExitSent {
        ts_ms: i64,
        side: Side,
        token_id: String,
        shares: i128,
        reason: String,
    },
    ExitFilled {
        ts_ms: i64,
        side: Side,
        price: i128,
        size: i128,
        latency_ms: i64,
    },
    PositionClosed {
        ts_ms: i64,
        market_slug: String,
        side: Side,
        entry_price: i128,
        exit_price: i128,
        size: i128,
        pnl_usdc: i128,
        hold_ms: i64,
        reason: String,
    },
    HoldToResolution {
        ts_ms: i64,
        market_slug: String,
        side: Side,
        entry_price: i128,
        size: i128,
        reason: String,
    },
    Metric {
        ts_ms: i64,
        key: String,
        value: i128,
    },
    WalletCheck {
        ts_ms: i64,
        balance_usdc: i128,
        session_pnl: i128,
    },
}

/// A log event with its texts as sequences of characters.
pub ghost enum LogEventView {
    SignalSeen {
        ts_ms: i64,
        signal: Signal,
    },
    TradeSkipped {
        ts_ms: i64,
        reason: Seq<char>,
    },
    EntrySent {
        ts_ms: i64,
        side: Side,
        token_id: Seq<char>,
        notional: i128,
        score: i128,
        fast_move_bps: Extended,
        basis_dev_bps: Extended,
    },
    EntryFilled {
        ts_ms: i64,
        side: Side,
        token_id: Seq<char>,
        price: i128,
        size: i128,
        latency_ms: i64,
    },
    EntryRejected {
        ts_ms: i64,
        reason: Seq<char>,
    },
    ExitSent {
        ts_ms: i64,
        side: Side,
        token_id: Seq<char>,
        shares: i128,
        reason: Seq<char>,
    },
    ExitFilled {
        ts_ms: i64,
        side: Side,
        price: i128,
        size: i128,
        latency_ms: i64,
    },
    PositionClosed {
        ts_ms: i64,
        market_slug: Seq<char>,
        side: Side,
        entry_price: i128,
        exit_price: i128,
        size: i128,
        pnl_usdc: i128,
        hold_ms: i64,
        reason: Seq<char>,
    },
    HoldToResolution {
        ts_ms: i64,
        market_slug: Seq<char>,
        side: Side,
        entry_price: i128,
        size: i128,
        reason: Seq<char>,
    },
    Metric {
        ts_ms: i64,
        key: Seq<char>,
        value: i128,
    },
    WalletCheck {
        ts_ms: i64,
        balance_usdc: i128,
        session_pnl: i128,
    },
}

impl View for LogEvent {
    type V = LogEventView;

    open spec fn view(&self) -> LogEventView {
        match self {
            LogEvent::SignalSeen { ts_ms, signal } => LogEventView::SignalSeen {
                ts_ms: *ts_ms,
                signal: *signal,
            },
            LogEvent::TradeSkipped { ts_ms, reason } => LogEventView::TradeSkipped {
                ts_ms: *ts_ms,
                reason: reason@,
            },
            LogEvent::EntrySent { ts_ms, side, token_id, notional, score, fast_move_bps, basis_dev_bps } => LogEventView::EntrySent {
                ts_ms: *ts_ms,
                side: *side,
                token_id: token_id@,
                notional: *notional,
                score: *score,
                fast_move_bps: *fast_move_bps,
                basis_dev_bps: *basis_dev_bps,
            },
            LogEvent::EntryFilled { ts_ms, side, token_id, price, size, latency_ms } => LogEventView::EntryFilled {
                ts_ms: *ts_ms,
                side: *side,
                token_id: token_id@,
                price: *price,
                size: *size,
                latency_ms: *latency_ms,
            },
            LogEvent::EntryRejected { ts_ms, reason } => LogEventView::EntryRejected {
                ts_ms: *ts_ms,
                reason: reason@,
            },
            LogEvent::ExitSent { ts_ms, side, token_id, shares, reason } => LogEventView::ExitSent {
                ts_ms: *ts_ms,
                side: *side,
                token_id: token_id@,
                shares: *shares,
                reason: reason@,
            },
            LogEvent::ExitFilled { ts_ms, side, price, size, latency_ms } => LogEventView::ExitFilled {
                ts_ms: *ts_ms,
                side: *side,
                price: *price,
                size: *size,
                latency_ms: *latency_ms,
            },
            LogEvent::PositionClosed { ts_ms, market_slug, side, entry_price, exit_price, size, pnl_usdc, hold_ms, reason } => LogEventView::PositionClosed {
                ts_ms: *ts_ms,
                market_slug: market_slug@,
                side: *side,
                entry_price: *entry_price,
                exit_price: *exit_price,
                size: *size,
                pnl_usdc: *pnl_usdc,
                hold_ms: *hold_ms,
                reason: reason@,
            },
            LogEvent::HoldToResolution { ts_ms, market_slug, side, entry_price, size, reason } => LogEventView::HoldToResolution {
                ts_ms: *ts_ms,
                market_slug: market_slug@,
                side: *side,
                entry_price: *entry_price,
                size: *size,
                reason: reason@,
            },
            LogEvent::Metric { ts_ms, key, value } => LogEventView::Metric {
                ts_ms: *ts_ms,
                key: key@,
                value: *value,
            },
            LogEvent::WalletCheck { ts_ms, balance_usdc, session_pnl } => LogEventView::WalletCheck {
                ts_ms: *ts_ms,
                balance_usdc: *balance_usdc,
                session_pnl: *session_pnl,
            },
        }
    }
}

/// The views of a run of commands.
pub open spec fn command_views(commands: Seq<ExecutionCommand>) -> Seq<CommandView> {
    commands.map_values(|c: ExecutionCommand| c@)
}

/// A command to cancel every order.
pub fn cancel_all(reason: &str) -> (r: ExecutionCommand)
    ensures
        r@ == (CommandView::CancelAll { reason: reason@ }),
{
    ExecutionCommand::CancelAll { reason: reason.to_owned() }
}

/// Each side has its own token, and the sides are each other's opposite.
pub proof fn sides_are_told_apart(m: MarketView)
    ensures
        m.token(Side::Up) == m.up_token_id,
        m.token(Side::Down) == m.down_token_id,
        opposite(Side::Up) == Side::Down,
        opposite(Side::Down) == Side::Up,
{
}

} // verus!
