//! What the maker bot knows of its feeds, and its strategy cycle.

use vstd::prelude::*;

use crate::binance_l2::{BinanceEvent, BinanceEventView};
use crate::fixed::{amount_ok, opt_amount_ok, product, MICRO};
use crate::market_ws::{MarketEvent, MarketEventView};
use crate::rtds::{RtdsEvent, RtdsEventView};
use crate::signals::features::{bps, bps_return, MAX_BPS};
use crate::signals::signal_engine::{latest_at, lookup_finds_the_latest, trimmed, TimeSeriesBuffer};
use crate::strategy::{
    action_views, compute_signal, decided, evaluate, snapshot, ActionView,
    BinanceReturnSignal, ExecutionMode, MarketState, MarketStateView, RiskLimits, SignalSnapshot,
    SignalSnapshotView, StrategyAction,
};
use crate::text::same;
use crate::types::{
    BotConfig, ObiSignal, OracleLagDirection, OracleLagSignal, RefSource, };

verus! {

/// How the bot runs.
#[derive(Debug, Clone, Copy, PartialEq, Eq, Structural)]
pub enum Mode {
    /// Only the feeds are recorded.
    Record,
    /// Decisions are logged and nothing is sent.
    Paper,
    /// Decisions are carried out.
    Live,
}

/// The mode that an argument asks for; recording without one.
pub open spec fn mode_of(arg: Option<Seq<char>>) -> Mode {
    match arg {
        Some(a) => if a == "paper"@ {
            Mode::Paper
        } else if a == "live"@ {
            Mode::Live
        } else {
            Mode::Record
        },
        None => Mode::Record,
    }
}

/// The mode that an argument asks for.
pub fn parse_mode(arg: Option<&str>) -> (r: Mode)
    ensures
        r == mode_of(
            match arg {
                Some(a) => Some(a@),
                None => None,
            },
        ),
{
    match arg {
        Some(a) => if same(a, "paper") {
            Mode::Paper
        } else if same(a, "live") {
            Mode::Live
        } else {
            Mode::Record
        },
        None => Mode::Record,
    }
}

fn or_empty(v: Option<String>) -> (r: String)
    ensures
        r@ == match v {
            Some(s) => s@,
            None => Seq::<char>::empty(),
        },
{
    match v {
        Some(s) => s,
        None => String::new(),
    }
}

/// The maker bot's configuration, with the credentials that the environment has.
pub fn load_config(
    private_key: Option<String>,
    api_key: Option<String>,
    secret: Option<String>,
    passphrase: Option<String>,
) -> (r: BotConfig)
    ensures
        r.poly_private_key@ == (match private_key {
            Some(s) => s@,
            None => Seq::<char>::empty(),
        }),
        r.poly_api_key@ == (match api_key {
            Some(s) => s@,
            None => Seq::<char>::empty(),
        }),
        r.poly_api_secret@ == (match secret {
            Some(s) => s@,
            None => Seq::<char>::empty(),
        }),
        r.poly_api_passphrase@ == (match passphrase {
            Some(s) => s@,
            None => Seq::<char>::empty(),
        }),
        r.market_slug@ == "btc-updown-5m"@,
        r.window_seconds == 300,
        r.start_delay_s == 15,
        r.cancel_at_s == 240,
        r.max_position == 200_000_000,
        r.max_open_orders == 30,
        r.stop_loss_usd == -2_000_000_000,
        r.obi_threshold == 300_000,
        r.oracle_lag_threshold_bps == 2_000_000,
{
    BotConfig {
        poly_private_key: or_empty(private_key),
        poly_api_key: or_empty(api_key),
        poly_api_secret: or_empty(secret),
        poly_api_passphrase: or_empty(passphrase),
        market_slug: "btc-updown-5m".to_owned(),
        window_seconds: 300,
        start_delay_s: 15,
        cancel_at_s: 240,
        max_position: 200_000_000,
        max_open_orders: 30,
        stop_loss_usd: -2_000_000_000,
        obi_threshold: 300_000,
        oracle_lag_threshold_bps: 2_000_000,
    }
}

// ── Feeds ───────────────────────────────────────────────────────

/// How long mids are kept: ten seconds, in microseconds.
pub const HISTORY_US: i64 = 10_000_000;

/// How far back the return looks: two seconds, in microseconds.
pub const RETURN_US: i128 = 2_000_000;

/// What the feeds have said.
pub struct FeedState {
    pub binance_mid: i64,
    /// Mids by the microsecond of their arrival.
    pub history: TimeSeriesBuffer<i128>,
    pub obi: Option<ObiSignal>,
    pub chainlink_price: i64,
    pub chainlink_ts: i64,
    pub binance_rtds_price: i64,
    pub binance_rtds_ts: i64,
    pub up_best_ask: Option<i64>,
    pub up_best_bid: Option<i64>,
    pub dn_best_ask: Option<i64>,
    pub dn_best_bid: Option<i64>,
    pub up_token_id: String,
    pub dn_token_id: String,
    pub tick_size_up: i64,
    pub tick_size_dn: i64,
    pub window_start_ts: i64,
    pub up_filled: i64,
    pub dn_filled: i64,
}

/// Values that are amounts.
pub open spec fn amounts(data: Seq<(i64, i128)>) -> bool {
    forall|i: int| 0 <= i < data.len() ==> amount_ok((#[trigger] data[i]).1 as int)
}

proof fn lemma_amounts_trimmed(data: Seq<(i64, i128)>, ts: i64, age: i64)
    requires
        amounts(data),
    ensures
        amounts(trimmed(data, ts, age)),
    decreases data.len(),
{
    if data.len() > 0 && ts - data[0].0 > age {
        assert forall|i: int| 0 <= i < data.skip(1).len() implies amount_ok(
            (#[trigger] data.skip(1)[i]).1 as int,
        ) by {
            assert(data.skip(1)[i] == data[i + 1]);
        }
        lemma_amounts_trimmed(data.skip(1), ts, age);
    }
}

/// The return from an earlier mid to a mid, in basis points; zero where either
/// is unknown or not positive.
pub open spec fn return_from(earlier: Option<i128>, mid: int) -> int {
    match earlier {
        Some(old_mid) => if old_mid > 0 && mid > 0 {
            bps(mid, old_mid as int)
        } else {
            0
        },
        None => 0,
    }
}

/// The direction of a lag: within half a basis point it is flat.
pub open spec fn direction_of(lag_bps: int) -> OracleLagDirection {
    if lag_bps > 500_000 {
        OracleLagDirection::Up
    } else if lag_bps < -500_000 {
        OracleLagDirection::Down
    } else {
        OracleLagDirection::Flat
    }
}

/// The lag of the oracle behind the exchange, where both prices are positive.
pub open spec fn lag_signal(exchange: i64, oracle: i64, oracle_ts: i64, now_us: i64) -> Option<
    OracleLagSignal,
> {
    if exchange <= 0 || oracle <= 0 {
        None
    } else {
        let lag = bps(exchange as int, oracle as int);
        Some(
            OracleLagSignal {
                binance_price: exchange,
                chainlink_price: oracle,
                lag_bps: lag as i128,
                direction: direction_of(lag),
                timestamp: oracle_ts,
                local_ts: now_us,
            },
        )
    }
}

/// Seconds into a window; zero where no window is known. A time before the
/// window counts down from the largest number of 64 bits.
pub open spec fn seconds_into(now: int, window_start_ts: int) -> int {
    if window_start_ts <= 0 {
        0
    } else if now >= window_start_ts {
        now - window_start_ts
    } else {
        now - window_start_ts + 0x1_0000_0000_0000_0000
    }
}

/// The prices of a market event are within range, as every amount that is read
/// is.
pub open spec fn market_event_ok(e: MarketEventView) -> bool {
    match e {
        MarketEventView::BestBidAsk(b) => opt_amount_ok(b.best_ask),
        MarketEventView::TickSizeChange(t) => amount_ok(t.tick_size as int),
        _ => true,
    }
}

/// The price of a reference is within range, as every amount that is read is.
pub open spec fn reference_ok(e: RtdsEventView) -> bool {
    match e {
        RtdsEventView::Price(p) => amount_ok(p.price as int),
        _ => true,
    }
}

impl FeedState {
    pub open spec fn wf(self) -> bool {
        &&& amount_ok(self.binance_mid as int)
        &&& amounts(self.history.entries())
        &&& self.history.max_age() == HISTORY_US
        &&& amount_ok(self.chainlink_price as int)
        &&& amount_ok(self.binance_rtds_price as int)
        &&& opt_amount_ok(self.up_best_ask)
        &&& opt_amount_ok(self.dn_best_ask)
        &&& amount_ok(self.tick_size_up as int)
        &&& amount_ok(self.tick_size_dn as int)
    }

    /// The two-second return at a time.
    pub open spec fn return_2s(self, now_us: int) -> int {
        return_from(
            latest_at(self.history.entries(), now_us - RETURN_US),
            self.binance_mid as int,
        )
    }

    /// The lag of the oracle at a time.
    pub open spec fn lag(self, now_us: i64) -> Option<OracleLagSignal> {
        lag_signal(self.binance_rtds_price, self.chainlink_price, self.chainlink_ts, now_us)
    }

    /// What the strategy sees of the market at a time in seconds.
    pub open spec fn seen(self, now: int) -> MarketStateView {
        MarketStateView {
            up_token_id: self.up_token_id@,
            dn_token_id: self.dn_token_id@,
            up_best_ask: self.up_best_ask,
            up_best_bid: self.up_best_bid,
            dn_best_ask: self.dn_best_ask,
            dn_best_bid: self.dn_best_bid,
            up_filled: self.up_filled,
            dn_filled: self.dn_filled,
            window_start_ts: self.window_start_ts,
            elapsed_s: seconds_into(now, self.window_start_ts as int) as u64,
            tick_size_up: self.tick_size_up,
            tick_size_dn: self.tick_size_dn,
        }
    }

    /// A state that has heard nothing.
    pub fn new() -> (r: FeedState)
        ensures
            r.wf(),
            r.binance_mid == 0,
            r.history.entries() == Seq::<(i64, i128)>::empty(),
            r.obi is None,
            r.chainlink_price == 0,
            r.chainlink_ts == 0,
            r.binance_rtds_price == 0,
            r.binance_rtds_ts == 0,
            r.seen(0) == (MarketStateView {
                up_token_id: Seq::empty(),
                dn_token_id: Seq::empty(),
                up_best_ask: None,
                up_best_bid: None,
                dn_best_ask: None,
                dn_best_bid: None,
                up_filled: 0,
                dn_filled: 0,
                window_start_ts: 0,
                elapsed_s: 0,
                tick_size_up: 0,
                tick_size_dn: 0,
            }),
    {
        FeedState {
            binance_mid: 0,
            history: TimeSeriesBuffer::new(HISTORY_US),
            obi: None,
            chainlink_price: 0,
            chainlink_ts: 0,
            binance_rtds_price: 0,
            binance_rtds_ts: 0,
            up_best_ask: None,
            up_best_bid: None,
            dn_best_ask: None,
            dn_best_bid: None,
            up_token_id: String::new(),
            dn_token_id: String::new(),
            tick_size_up: 0,
            tick_size_dn: 0,
            window_start_ts: 0,
            up_filled: 0,
            dn_filled: 0,
        }
    }

    /// The two-second return at a time, in basis points.
    pub fn binance_return_2s(&self, now_us: i64) -> (r: i128)
        requires
            self.wf(),
        ensures
            r == self.return_2s(now_us as int),
            -MAX_BPS <= r <= MAX_BPS,
    {
        let earlier: Option<i128> = self.history.get_at_or_before(now_us as i128 - RETURN_US);
        proof {
            lookup_finds_the_latest(self.history.entries(), now_us - RETURN_US);
        }
        match earlier {
            Some(old_mid) => if old_mid > 0 && self.binance_mid > 0 {
                bps_return(self.binance_mid, old_mid as i64)
            } else {
                0
            },
            None => 0,
        }
    }

    /// The lag of the oracle at a time.
    pub fn oracle_lag_signal(&self, now_us: i64) -> (r: Option<OracleLagSignal>)
        requires
            self.wf(),
        ensures
            r == self.lag(now_us),
            r matches Some(s) ==> -MAX_BPS <= s.lag_bps <= MAX_BPS,
    {
        if self.binance_rtds_price <= 0 || self.chainlink_price <= 0 {
            return None;
        }
        let lag_bps: i128 = bps_return(self.binance_rtds_price, self.chainlink_price);
        let direction: OracleLagDirection = if lag_bps > 500_000 {
            OracleLagDirection::Up
        } else if lag_bps < -500_000 {
            OracleLagDirection::Down
        } else {
            OracleLagDirection::Flat
        };
        Some(
            OracleLagSignal {
                binance_price: self.binance_rtds_price,
                chainlink_price: self.chainlink_price,
                lag_bps,
                direction,
                timestamp: self.chainlink_ts,
                local_ts: now_us,
            },
        )
    }

    /// What the strategy sees of the market at a time in seconds.
    pub fn market_state(&self, now: i64) -> (r: MarketState)
        ensures
            r@ == self.seen(now as int),
    {
        let elapsed_s: u64 = if self.window_start_ts <= 0 {
            0
        } else if now >= self.window_start_ts {
            (now as i128 - self.window_start_ts as i128) as u64
        } else {
            (now as i128 - self.window_start_ts as i128 + 0x1_0000_0000_0000_0000) as u64
        };
        MarketState {
            up_token_id: self.up_token_id.clone(),
            dn_token_id: self.dn_token_id.clone(),
            up_best_ask: self.up_best_ask,
            up_best_bid: self.up_best_bid,
            dn_best_ask: self.dn_best_ask,
            dn_best_bid: self.dn_best_bid,
            up_filled: self.up_filled,
            dn_filled: self.dn_filled,
            window_start_ts: self.window_start_ts,
            elapsed_s,
            tick_size_up: self.tick_size_up,
            tick_size_dn: self.tick_size_dn,
        }
    }

    /// The effect of a market event: best prices and tick sizes of the two
    /// tokens; others have none.
    pub open spec fn after_market(self, e: MarketEventView) -> FeedState {
        match e {
            MarketEventView::BestBidAsk(b) => if b.token_id == self.up_token_id@ {
                FeedState { up_best_ask: b.best_ask, up_best_bid: b.best_bid, ..self }
            } else if b.token_id == self.dn_token_id@ {
                FeedState { dn_best_ask: b.best_ask, dn_best_bid: b.best_bid, ..self }
            } else {
                self
            },
            MarketEventView::TickSizeChange(t) => if t.token_id == self.up_token_id@ {
                FeedState { tick_size_up: t.tick_size, ..self }
            } else if t.token_id == self.dn_token_id@ {
                FeedState { tick_size_dn: t.tick_size, ..self }
            } else {
                self
            },
            _ => self,
        }
    }

    /// Takes a market event.
    pub fn on_market(&mut self, event: &MarketEvent)
        ensures
            *final(self) == old(self).after_market(event@),
            old(self).wf() && market_event_ok(event@) ==> final(self).wf(),
    {
        match event {
            MarketEvent::BestBidAsk(b) => {
                if same(b.token_id.as_str(), self.up_token_id.as_str()) {
                    self.up_best_ask = b.best_ask;
                    self.up_best_bid = b.best_bid;
                } else if same(b.token_id.as_str(), self.dn_token_id.as_str()) {
                    self.dn_best_ask = b.best_ask;
                    self.dn_best_bid = b.best_bid;
                }
            },
            MarketEvent::TickSizeChange(t) => {
                if same(t.token_id.as_str(), self.up_token_id.as_str()) {
                    self.tick_size_up = t.tick_size;
                } else if same(t.token_id.as_str(), self.dn_token_id.as_str()) {
                    self.tick_size_dn = t.tick_size;
                }
            },
            _ => {},
        }
    }

    /// The effect of a reference price.
    pub open spec fn after_reference(self, e: RtdsEventView) -> FeedState {
        match e {
            RtdsEventView::Price(p) => match p.source {
                RefSource::RtdsChainlink => FeedState {
                    chainlink_price: p.price,
                    chainlink_ts: p.timestamp,
                    ..self
                },
                RefSource::RtdsBinance => FeedState {
                    binance_rtds_price: p.price,
                    binance_rtds_ts: p.timestamp,
                    ..self
                },
                _ => self,
            },
            _ => self,
        }
    }

    /// Takes a reference price.
    pub fn on_reference(&mut self, event: &RtdsEvent)
        ensures
            *final(self) == old(self).after_reference(event@),
            old(self).wf() && reference_ok(event@) ==> final(self).wf(),
    {
        match event {
            RtdsEvent::Price(p) => match p.source {
                RefSource::RtdsChainlink => {
                    self.chainlink_price = p.price;
                    self.chainlink_ts = p.timestamp;
                },
                RefSource::RtdsBinance => {
                    self.binance_rtds_price = p.price;
                    self.binance_rtds_ts = p.timestamp;
                },
                _ => {},
            },
            _ => {},
        }
    }

    /// Takes an event of the exchange: an imbalance replaces the last, a mid
    /// joins the history of ten seconds.
    pub fn on_exchange(&mut self, event: &BinanceEvent)
        requires
            old(self).wf(),
            event@ matches BinanceEventView::MidPrice(p) ==> amount_ok(p.price as int),
        ensures
            match event@ {
                BinanceEventView::Obi(o) => *final(self) == (FeedState {
                    obi: Some(o),
                    ..*old(self)
                }),
                BinanceEventView::MidPrice(p) => {
                    &&& *final(self) == (FeedState {
                        binance_mid: p.price,
                        history: final(self).history,
                        ..*old(self)
                    })
                    &&& final(self).history.entries() == trimmed(
                        old(self).history.entries().push((p.local_recv_ts, p.price as i128)),
                        p.local_recv_ts,
                        10_000_000,
                    )
                },
                _ => *final(self) == *old(self),
            },
            final(self).wf(),
    {
        match event {
            BinanceEvent::Obi(o) => {
                self.obi = Some(*o);
            },
            BinanceEvent::MidPrice(p) => {
                self.binance_mid = p.price;
                proof {
                    let pushed = self.history.entries().push((p.local_recv_ts, p.price as i128));
                    lemma_amounts_trimmed(pushed, p.local_recv_ts, HISTORY_US);
                }
                self.history.push(p.local_recv_ts, p.price as i128);
            },
            _ => {},
        }
    }
}

/// A positive lag is never told as one downwards, and a negative one never as one
/// upwards.
pub proof fn directions_follow_the_lag(lag_bps: int)
    ensures
        direction_of(lag_bps) == OracleLagDirection::Up ==> lag_bps > 0,
        direction_of(lag_bps) == OracleLagDirection::Down ==> lag_bps < 0,
        -500_000 <= lag_bps <= 500_000 <==> direction_of(lag_bps) == OracleLagDirection::Flat,
{
}

proof fn lemma_market_events_are_in_range(v: crate::json::JsonView, local_recv_us: i64)
    ensures
        crate::market_ws::event_in(v, local_recv_us) matches Some(e) ==> market_event_ok(e),
{
}

proof fn lemma_prices_are_in_range(v: crate::json::JsonView, local_recv_us: i64)
    ensures
        crate::rtds::price_in(v, local_recv_us) matches Ok(p) ==> amount_ok(p.price as int),
{
}

/// What the feeds' own readers make of a message keeps the state within range.
pub proof fn read_events_are_in_range(v: crate::json::JsonView, local_recv_us: i64)
    ensures
        crate::market_ws::event_in(v, local_recv_us) matches Some(e) ==> market_event_ok(e),
        crate::rtds::price_in(v, local_recv_us) matches Ok(p) ==> reference_ok(
            RtdsEventView::Price(p),
        ),
{
    lemma_market_events_are_in_range(v, local_recv_us);
    lemma_prices_are_in_range(v, local_recv_us);
}

// ── The strategy cycle ──────────────────────────────────────────

/// The snapshot of the feeds' signals at a time.
pub open spec fn cycle_signal(s: FeedState, now_us: i64) -> SignalSnapshotView {
    snapshot(
        s.obi,
        s.lag(now_us),
        Some(
            BinanceReturnSignal {
                return_2s: s.return_2s(now_us as int) as i128,
                return_500ms: 0,
                timestamp: now_us,
            },
        ),
    )
}

/// One cycle: the signal and what to do about it; nothing before the exchange's
/// first mid.
pub fn cycle(
    state: &FeedState,
    risk: &RiskLimits,
    config: &BotConfig,
    now_us: i64,
    now_s: i64,
) -> (r: Option<(SignalSnapshot, Vec<StrategyAction>)>)
    requires
        state.wf(),
    ensures
        r is Some <==> state.binance_mid > 0,
        r matches Some((signal, actions)) ==> {
            &&& signal@ == cycle_signal(*state, now_us)
            &&& action_views(actions@) == decided(
                state.seen(now_s as int),
                signal@,
                *risk,
                config.start_delay_s,
                config.cancel_at_s,
            )
        },
{
    if state.binance_mid <= 0 {
        return None;
    }
    let lag: Option<OracleLagSignal> = state.oracle_lag_signal(now_us);
    let ret: BinanceReturnSignal = BinanceReturnSignal {
        return_2s: state.binance_return_2s(now_us),
        return_500ms: 0,
        timestamp: now_us,
    };
    let market: MarketState = state.market_state(now_s);
    let obi_ref: Option<&ObiSignal> = match &state.obi {
        Some(o) => Some(o),
        None => None,
    };
    let lag_ref: Option<&OracleLagSignal> = match &lag {
        Some(l) => Some(l),
        None => None,
    };
    let signal: SignalSnapshot = compute_signal(obi_ref, lag_ref, Some(&ret));
    let actions: Vec<StrategyAction> = evaluate(&market, &signal, risk, config);
    Some((signal, actions))
}

/// What an action asks of the engine.
pub enum Dispatch {
    BuyNow { token_id: String, spend: i128 },
    Bid { token_id: String, size: i64, price: i64, post_only: bool },
    CancelAll,
    Cancel { order_id: String },
    Nothing,
}

pub ghost enum DispatchView {
    BuyNow { token_id: Seq<char>, spend: int },
    Bid { token_id: Seq<char>, size: i64, price: i64, post_only: bool },
    CancelAll,
    Cancel { order_id: Seq<char> },
    Nothing,
}

impl View for Dispatch {
    type V = DispatchView;

    open spec fn view(&self) -> DispatchView {
        match self {
            Dispatch::BuyNow { token_id, spend } => DispatchView::BuyNow {
                token_id: token_id@,
                spend: *spend as int,
            },
            Dispatch::Bid { token_id, size, price, post_only } => DispatchView::Bid {
                token_id: token_id@,
                size: *size,
                price: *price,
                post_only: *post_only,
            },
            Dispatch::CancelAll => DispatchView::CancelAll,
            Dispatch::Cancel { order_id } => DispatchView::Cancel { order_id: order_id@ },
            Dispatch::Nothing => DispatchView::Nothing,
        }
    }
}

/// What an action asks of the engine: an order goes out as the signal's mode
/// says, a purchase for its size times its price.
pub open spec fn dispatched(a: ActionView, mode: ExecutionMode) -> DispatchView {
    match a {
        ActionView::PlaceOrder(o) => match mode {
            ExecutionMode::Taker => DispatchView::BuyNow {
                token_id: o.token_id,
                spend: product(o.size as int, o.price as int),
            },
            ExecutionMode::Maker => DispatchView::Bid {
                token_id: o.token_id,
                size: o.size,
                price: o.price,
                post_only: o.post_only,
            },
            ExecutionMode::Hold => DispatchView::Nothing,
        },
        ActionView::CancelAll => DispatchView::CancelAll,
        ActionView::CancelOrder(id) => DispatchView::Cancel { order_id: id },
        ActionView::Hold => DispatchView::Nothing,
    }
}

/// The limits after an action: orders and cancels are counted, and a cancel of
/// everything starts both counts anew.
pub open spec fn risk_after(risk: RiskLimits, a: ActionView) -> RiskLimits {
    match a {
        ActionView::PlaceOrder(_) => RiskLimits {
            order_count_this_window: (risk.order_count_this_window + 1) as u64,
            ..risk
        },
        ActionView::CancelAll => RiskLimits {
            cancel_count_this_window: 0,
            order_count_this_window: 0,
            ..risk
        },
        ActionView::CancelOrder(_) => RiskLimits {
            cancel_count_this_window: (risk.cancel_count_this_window + 1) as u64,
            ..risk
        },
        ActionView::Hold => risk,
    }
}

/// How often each kind of decision was taken.
#[derive(Debug, Clone, Copy, PartialEq, Eq, Structural)]
pub struct Tally {
    pub total: u64,
    pub maker: u64,
    pub taker: u64,
    pub hold: u64,
}

/// The tally after an action.
pub open spec fn tally_after(t: Tally, a: ActionView, mode: ExecutionMode) -> Tally {
    match a {
        ActionView::PlaceOrder(_) => match mode {
            ExecutionMode::Taker => Tally { taker: (t.taker + 1) as u64, ..t },
            ExecutionMode::Maker => Tally { maker: (t.maker + 1) as u64, ..t },
            ExecutionMode::Hold => t,
        },
        ActionView::Hold => Tally { hold: (t.hold + 1) as u64, ..t },
        _ => t,
    }
}

/// Counts an action, and says what it asks of the engine.
pub fn dispatch(
    action: &StrategyAction,
    mode: ExecutionMode,
    risk: &mut RiskLimits,
    tally: &mut Tally,
) -> (r: Dispatch)
    requires
        old(risk).order_count_this_window < u64::MAX,
        old(risk).cancel_count_this_window < u64::MAX,
        old(tally).maker < u64::MAX,
        old(tally).taker < u64::MAX,
        old(tally).hold < u64::MAX,
    ensures
        r@ == dispatched(action@, mode),
        *final(risk) == risk_after(*old(risk), action@),
        *final(tally) == tally_after(*old(tally), action@, mode),
{
    match action {
        StrategyAction::PlaceOrder(o) => {
            risk.order_count_this_window = risk.order_count_this_window + 1;
            match mode {
                ExecutionMode::Taker => {
                    tally.taker = tally.taker + 1;
                    let spend: i128 = spend_of(o.size, o.price);
                    Dispatch::BuyNow { token_id: o.token_id.clone(), spend }
                },
                ExecutionMode::Maker => {
                    tally.maker = tally.maker + 1;
                    Dispatch::Bid {
                        token_id: o.token_id.clone(),
                        size: o.size,
                        price: o.price,
                        post_only: o.post_only,
                    }
                },
                ExecutionMode::Hold => Dispatch::Nothing,
            }
        },
        StrategyAction::CancelAll => {
            risk.cancel_count_this_window = 0;
            risk.order_count_this_window = 0;
            Dispatch::CancelAll
        },
        StrategyAction::CancelOrder(id) => {
            risk.cancel_count_this_window = risk.cancel_count_this_window + 1;
            Dispatch::Cancel { order_id: id.clone() }
        },
        StrategyAction::Hold => {
            tally.hold = tally.hold + 1;
            Dispatch::Nothing
        },
    }
}

/// A size times a price, for any two numbers of 64 bits.
fn spend_of(size: i64, price: i64) -> (r: i128)
    ensures
        r == product(size as int, price as int),
{
    proof {
        crate::fixed::lemma_product_bounds(
            size as int,
            price as int,
            0x8000_0000_0000_0000,
            0x8000_0000_0000_0000,
        );
        assert(0x8000_0000_0000_0000int * 0x8000_0000_0000_0000
            == 0x4000_0000_0000_0000_0000_0000_0000_0000);
    }
    let n: i128 = size as i128 * price as i128;
    let unit: i128 = MICRO as i128;
    // Half a unit away from zero, then cut off.
    if n >= 0 {
        proof {
            lemma_half_up(n as int);
        }
        (n + 500_000) / unit
    } else {
        let m: i128 = -n;
        proof {
            lemma_half_up(m as int);
            crate::fixed::rounding_is_odd(n as int, MICRO as int);
        }
        -((m + 500_000) / unit)
    }
}

proof fn lemma_half_up(n: int)
    requires
        n >= 0,
    ensures
        crate::fixed::rounded(n, MICRO as int) == (n + 500_000) / 1_000_000,
{
    assert((2 * n + 1_000_000) / 2_000_000 == (n + 500_000) / 1_000_000);
}

/// No order goes out at once that the decision meant to rest, nor the other way
/// round: the dispatch of a decision's order agrees with its type.
pub proof fn dispatch_agrees_with_the_order(
    s: MarketStateView,
    signal: SignalSnapshotView,
    risk: RiskLimits,
    start_delay_s: u64,
    cancel_at_s: u64,
    i: int,
)
    requires
        s.wf(),
        0 <= i < decided(s, signal, risk, start_delay_s, cancel_at_s).len(),
    ensures
        match decided(s, signal, risk, start_delay_s, cancel_at_s)[i] {
            ActionView::PlaceOrder(o) => match dispatched(
                ActionView::PlaceOrder(o),
                signal.mode,
            ) {
                DispatchView::BuyNow { .. } => o.order_type == crate::types::OrderType::FOK,
                DispatchView::Bid { post_only, .. } => o.order_type == crate::types::OrderType::GTC
                    && post_only,
                _ => false,
            },
            _ => true,
        },
{
}

// ── What the feeds lead to ──────────────────────────────────────

/// The best prices and the tick size of a token are kept with that token alone.
pub proof fn prices_are_kept_with_their_token(s: FeedState, e: MarketEventView)
    requires
        s.up_token_id@ != s.dn_token_id@,
    ensures
        ({
            let t = s.after_market(e);
            &&& e is BestBidAsk && e->BestBidAsk_0.token_id == s.up_token_id@ ==> t.up_best_ask
                == e->BestBidAsk_0.best_ask && t.up_best_bid == e->BestBidAsk_0.best_bid
                && t.dn_best_ask == s.dn_best_ask && t.dn_best_bid == s.dn_best_bid
            &&& e is BestBidAsk && e->BestBidAsk_0.token_id == s.dn_token_id@ ==> t.dn_best_ask
                == e->BestBidAsk_0.best_ask && t.dn_best_bid == e->BestBidAsk_0.best_bid
                && t.up_best_ask == s.up_best_ask && t.up_best_bid == s.up_best_bid
            &&& e is TickSizeChange && e->TickSizeChange_0.token_id == s.up_token_id@
                ==> t.tick_size_up == e->TickSizeChange_0.tick_size && t.tick_size_dn
                == s.tick_size_dn
            &&& e is TickSizeChange && e->TickSizeChange_0.token_id == s.dn_token_id@
                ==> t.tick_size_dn == e->TickSizeChange_0.tick_size && t.tick_size_up
                == s.tick_size_up
            &&& !(e is TickSizeChange) ==> t.tick_size_up == s.tick_size_up && t.tick_size_dn
                == s.tick_size_dn
            &&& !(e is BestBidAsk) ==> t.up_best_ask == s.up_best_ask && t.up_best_bid
                == s.up_best_bid && t.dn_best_ask == s.dn_best_ask && t.dn_best_bid
                == s.dn_best_bid
            &&& t.up_token_id == s.up_token_id
            &&& t.dn_token_id == s.dn_token_id
            &&& t.binance_mid == s.binance_mid
            &&& t.chainlink_price == s.chainlink_price
            &&& t.binance_rtds_price == s.binance_rtds_price
            &&& t.window_start_ts == s.window_start_ts
        }),
{
}

/// A price of the oracle is kept as the oracle's, and one of the exchange as the
/// exchange's; prices of other feeds are not kept.
pub proof fn references_are_kept_by_source(s: FeedState, e: RtdsEventView)
    ensures
        ({
            let t = s.after_reference(e);
            &&& e is Price && e->Price_0.source == RefSource::RtdsChainlink ==> t.chainlink_price
                == e->Price_0.price && t.chainlink_ts == e->Price_0.timestamp
                && t.binance_rtds_price == s.binance_rtds_price && t.binance_rtds_ts
                == s.binance_rtds_ts
            &&& e is Price && e->Price_0.source == RefSource::RtdsBinance ==> t.binance_rtds_price
                == e->Price_0.price && t.binance_rtds_ts == e->Price_0.timestamp
                && t.chainlink_price == s.chainlink_price && t.chainlink_ts == s.chainlink_ts
            &&& !(e is Price) || (e->Price_0.source != RefSource::RtdsChainlink
                && e->Price_0.source != RefSource::RtdsBinance) ==> t == s
        }),
{
}

/// The lag tells how far the exchange is above the oracle, as a part of the
/// oracle's price: upwards beyond half a basis point, downwards below minus half
/// of one. Without both prices there is none.
pub proof fn the_oracle_lags_behind_the_exchange(s: FeedState, now_us: i64)
    requires
        s.wf(),
    ensures
        s.lag(now_us) is Some <==> s.binance_rtds_price > 0 && s.chainlink_price > 0,
        s.lag(now_us) matches Some(l) ==> {
            &&& l.binance_price == s.binance_rtds_price
            &&& l.chainlink_price == s.chainlink_price
            &&& l.timestamp == s.chainlink_ts
            &&& l.local_ts == now_us
            &&& -s.chainlink_price <= 2 * (l.lag_bps * s.chainlink_price) - 2 * (
            s.binance_rtds_price - s.chainlink_price) * 10_000_000_000 <= s.chainlink_price
            &&& l.direction == OracleLagDirection::Up <==> l.lag_bps > 500_000
            &&& l.direction == OracleLagDirection::Down <==> l.lag_bps < -500_000
        },
{
    if s.binance_rtds_price > 0 && s.chainlink_price > 0 {
        let (x, o) = (s.binance_rtds_price as int, s.chainlink_price as int);
        crate::signals::features::returns_are_relative_changes(x, o);
        crate::fixed::lemma_quotient_bounds((x - o) * 10_000_000_000, o);
    }
}

/// The return is that of the mid over the last mid that is two seconds old, as a
/// part of that one; none where either is missing.
pub proof fn returns_look_two_seconds_back(s: FeedState, now_us: int)
    requires
        s.wf(),
    ensures
        match latest_at(s.history.entries(), now_us - 2_000_000) {
            Some(earlier) => if earlier > 0 && s.binance_mid > 0 {
                -earlier <= 2 * (s.return_2s(now_us) * earlier) - 2 * (s.binance_mid - earlier)
                    * 10_000_000_000 <= earlier
            } else {
                s.return_2s(now_us) == 0
            },
            None => s.return_2s(now_us) == 0,
        },
{
    if let Some(earlier) = latest_at(s.history.entries(), now_us - 2_000_000) {
        if earlier > 0 && s.binance_mid > 0 {
            crate::signals::features::returns_are_relative_changes(
                s.binance_mid as int,
                earlier as int,
            );
        }
    }
}

/// The strategy sees each token's own prices, fills and tick size, and the seconds
/// since the window's start.
pub proof fn the_strategy_sees_the_feeds(s: FeedState, now: int)
    ensures
        ({
            let m = s.seen(now);
            &&& m.up_token_id == s.up_token_id@
            &&& m.dn_token_id == s.dn_token_id@
            &&& m.up_best_ask == s.up_best_ask
            &&& m.up_best_bid == s.up_best_bid
            &&& m.dn_best_ask == s.dn_best_ask
            &&& m.dn_best_bid == s.dn_best_bid
            &&& m.up_filled == s.up_filled
            &&& m.dn_filled == s.dn_filled
            &&& m.tick_size_up == s.tick_size_up
            &&& m.tick_size_dn == s.tick_size_dn
            &&& m.window_start_ts == s.window_start_ts
            &&& s.window_start_ts > 0 && s.window_start_ts <= now <= i64::MAX ==> m.elapsed_s
                + s.window_start_ts == now
            &&& s.window_start_ts <= 0 ==> m.elapsed_s == 0
        }),
{
}

/// An order of a burst is bought now for its size times its price; one that rests
/// keeps its token, size and price; cancels go out as cancels.
pub proof fn actions_go_out_as_decided(a: ActionView, mode: ExecutionMode)
    ensures
        match (a, mode) {
            (ActionView::PlaceOrder(o), ExecutionMode::Taker) => {
                let d = dispatched(a, mode);
                &&& d is BuyNow
                &&& d->BuyNow_token_id == o.token_id
                &&& -500_000 <= d->BuyNow_spend * 1_000_000 - o.size * o.price <= 500_000
            },
            (ActionView::PlaceOrder(o), ExecutionMode::Maker) => {
                let d = dispatched(a, mode);
                &&& d is Bid
                &&& d->Bid_token_id == o.token_id
                &&& d->Bid_size == o.size
                &&& d->Bid_price == o.price
                &&& d->Bid_post_only == o.post_only
            },
            (ActionView::CancelAll, _) => dispatched(a, mode) is CancelAll,
            (ActionView::CancelOrder(id), _) => dispatched(a, mode) is Cancel && dispatched(
                a,
                mode,
            )->Cancel_order_id == id,
            _ => dispatched(a, mode) is Nothing,
        },
{
    if let ActionView::PlaceOrder(o) = a {
        crate::fixed::rounding_is_nearest(o.size * o.price, 1_000_000);
    }
}

/// Orders and single cancels are counted one by one; a cancel of everything starts
/// both counts anew. The limits themselves stay.
pub proof fn counts_follow_the_actions(risk: RiskLimits, tally: Tally, a: ActionView, mode: ExecutionMode)
    requires
        risk.order_count_this_window < u64::MAX,
        risk.cancel_count_this_window < u64::MAX,
        tally.maker < u64::MAX,
        tally.taker < u64::MAX,
        tally.hold < u64::MAX,
    ensures
        ({
            let r = risk_after(risk, a);
            let t = tally_after(tally, a, mode);
            &&& a is PlaceOrder ==> r.order_count_this_window == risk.order_count_this_window + 1
                && r.cancel_count_this_window == risk.cancel_count_this_window
            &&& a is CancelOrder ==> r.cancel_count_this_window == risk.cancel_count_this_window
                + 1 && r.order_count_this_window == risk.order_count_this_window
            &&& a is CancelAll ==> r.order_count_this_window == 0 && r.cancel_count_this_window == 0
            &&& a is Hold ==> r == risk
            &&& t.taker - tally.taker == (if a is PlaceOrder && mode == ExecutionMode::Taker {
                1int
            } else {
                0
            })
            &&& t.maker - tally.maker == (if a is PlaceOrder && mode == ExecutionMode::Maker {
                1int
            } else {
                0
            })
            &&& t.hold - tally.hold == (if a is Hold {
                1int
            } else {
                0
            })
            &&& t.total == tally.total
        }),
{
}

/// A cycle weighs the imbalance, the lag and the two-second return that the feeds
/// have at its time, each with its weight.
pub proof fn cycles_weigh_the_feeds(s: FeedState, now_us: i64)
    ensures
        ({
            let c = cycle_signal(s, now_us);
            let back = s.return_2s(now_us as int);
            &&& match s.obi {
                Some(o) => -1_000_000 <= o.value <= 1_000_000 ==> -2 <= 4 * c.obi_component
                    - o.value <= 2,
                None => c.obi_component == 0,
            }
            &&& match s.lag(now_us) {
                Some(l) => c.basis_bps == l.lag_bps,
                None => c.basis_bps == 0 && c.oracle_lag_component == 0,
            }
            &&& -5_000_000 <= back <= 5_000_000 ==> -135 <= 200 * c.binance_return_component - 14
                * back <= 135
            &&& c.score == c.obi_component + c.oracle_lag_component + c.binance_return_component
        }),
{
    let ret = Some(
        BinanceReturnSignal {
            return_2s: s.return_2s(now_us as int) as i128,
            return_500ms: 0,
            timestamp: now_us,
        },
    );
    crate::strategy::components_have_their_weights(s.obi, s.lag(now_us), ret);
    crate::strategy::score_is_the_sum_of_its_components(s.obi, s.lag(now_us), ret);
}

/// The seconds into a window that has not begun wrap once around 64 bits.
pub proof fn early_times_wrap_once(now: int, window_start_ts: int)
    requires
        0 < now < window_start_ts <= i64::MAX,
    ensures
        seconds_into(now, window_start_ts) + (window_start_ts - now) == u64::MAX + 1,
{
}

} // verus!
