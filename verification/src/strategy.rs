//! The maker bot's decisions, without any network.
//!
//! A moderate score rests a bid below the ask; a strong score on a lagging
//! oracle takes the ask at once. Timing, risk and fees gate both.

use vstd::prelude::*;
use vstd::string::StringExecFns;

use crate::fixed::{
    amount_ok, clamp, clamped, div_floor, div_round, fixed_string, fixed_text, magnitude,
    opt_amount_ok, rounded, CENT, MAX_AMOUNT, MICRO, WIDE,
};
use crate::types::{
    BotConfig, ObiSignal, OracleLagDirection, OracleLagSignal, OrderRequest, OrderRequestView,
    OrderSide, OrderType,
};

verus! {

/// What the strategy wants to do.
#[derive(Debug, Clone)]
pub enum StrategyAction {
    PlaceOrder(OrderRequest),
    CancelOrder(String),
    CancelAll,
    /// Nothing this time.
    Hold,
}

pub ghost enum ActionView {
    PlaceOrder(OrderRequestView),
    CancelOrder(Seq<char>),
    CancelAll,
    Hold,
}

impl View for StrategyAction {
    type V = ActionView;

    open spec fn view(&self) -> ActionView {
        match self {
            StrategyAction::PlaceOrder(r) => ActionView::PlaceOrder(r@),
            StrategyAction::CancelOrder(id) => ActionView::CancelOrder(id@),
            StrategyAction::CancelAll => ActionView::CancelAll,
            StrategyAction::Hold => ActionView::Hold,
        }
    }
}

/// The views of a run of actions.
pub open spec fn action_views(actions: Seq<StrategyAction>) -> Seq<ActionView> {
    actions.map_values(|a: StrategyAction| a@)
}

/// What the strategy sees of the market.
#[derive(Debug, Clone)]
pub struct MarketState {
    pub up_token_id: String,
    pub dn_token_id: String,
    pub up_best_ask: Option<i64>,
    pub up_best_bid: Option<i64>,
    pub dn_best_ask: Option<i64>,
    pub dn_best_bid: Option<i64>,
    pub up_filled: i64,
    pub dn_filled: i64,
    pub window_start_ts: i64,
    pub elapsed_s: u64,
    pub tick_size_up: i64,
    pub tick_size_dn: i64,
}

pub ghost struct MarketStateView {
    pub up_token_id: Seq<char>,
    pub dn_token_id: Seq<char>,
    pub up_best_ask: Option<i64>,
    pub up_best_bid: Option<i64>,
    pub dn_best_ask: Option<i64>,
    pub dn_best_bid: Option<i64>,
    pub up_filled: i64,
    pub dn_filled: i64,
    pub window_start_ts: i64,
    pub elapsed_s: u64,
    pub tick_size_up: i64,
    pub tick_size_dn: i64,
}

impl View for MarketState {
    type V = MarketStateView;

    open spec fn view(&self) -> MarketStateView {
        MarketStateView {
            up_token_id: self.up_token_id@,
            dn_token_id: self.dn_token_id@,
            up_best_ask: self.up_best_ask,
            up_best_bid: self.up_best_bid,
            dn_best_ask: self.dn_best_ask,
            dn_best_bid: self.dn_best_bid,
            up_filled: self.up_filled,
            dn_filled: self.dn_filled,
            window_start_ts: self.window_start_ts,
            elapsed_s: self.elapsed_s,
            tick_size_up: self.tick_size_up,
            tick_size_dn: self.tick_size_dn,
        }
    }
}

impl MarketStateView {
    /// The prices are within range.
    pub open spec fn wf(self) -> bool {
        &&& opt_amount_ok(self.up_best_ask)
        &&& opt_amount_ok(self.dn_best_ask)
        &&& amount_ok(self.tick_size_up as int)
        &&& amount_ok(self.tick_size_dn as int)
    }
}

impl Default for MarketState {
    fn default() -> (r: Self)
        ensures
            r@ == (MarketStateView {
                up_token_id: Seq::empty(),
                dn_token_id: Seq::empty(),
                up_best_ask: None,
                up_best_bid: None,
                dn_best_ask: None,
                dn_best_bid: None,
                up_filled: 0,
                dn_filled: 0,
                window_start_ts: 0,
                elapsed_s: 0,
                tick_size_up: 0,
                tick_size_dn: 0,
            }),
    {
        MarketState {
            up_token_id: String::new(),
            dn_token_id: String::new(),
            up_best_ask: None,
            up_best_bid: None,
            dn_best_ask: None,
            dn_best_bid: None,
            up_filled: 0,
            dn_filled: 0,
            window_start_ts: 0,
            elapsed_s: 0,
            tick_size_up: 0,
            tick_size_dn: 0,
        }
    }
}

/// The limits of the risk.
#[derive(Debug, Clone, Copy)]
pub struct RiskLimits {
    pub max_position_per_side: i64,
    pub max_open_orders: usize,
    pub max_cancel_rate: i64,
    pub cancel_count_this_window: u64,
    pub order_count_this_window: u64,
    pub kill_switch_triggered: bool,
}

/// The limits in use unless set otherwise.
pub open spec fn default_limits() -> RiskLimits {
    RiskLimits {
        max_position_per_side: 200_000_000,
        max_open_orders: 30,
        max_cancel_rate: 10_000_000,
        cancel_count_this_window: 0,
        order_count_this_window: 0,
        kill_switch_triggered: false,
    }
}

impl Default for RiskLimits {
    fn default() -> (r: Self)
        ensures
            r == default_limits(),
    {
        RiskLimits {
            max_position_per_side: 200_000_000,
            max_open_orders: 30,
            max_cancel_rate: 10_000_000,
            cancel_count_this_window: 0,
            order_count_this_window: 0,
            kill_switch_triggered: false,
        }
    }
}

/// The exchange's returns, in basis points.
#[derive(Debug, Clone, Copy)]
pub struct BinanceReturnSignal {
    pub return_2s: i128,
    pub return_500ms: i128,
    pub timestamp: i64,
}

/// How an order is placed.
#[derive(Debug, Clone, Copy, PartialEq, Eq, Structural)]
pub enum ExecutionMode {
    /// Not at all.
    Hold,
    /// As a bid that rests below the ask.
    Maker,
    /// At once, or not at all.
    Taker,
}

/// A score, its components and the mode that it leads to.
#[derive(Debug, Clone)]
pub struct SignalSnapshot {
    pub score: i128,
    pub obi_component: i128,
    pub oracle_lag_component: i128,
    pub binance_return_component: i128,
    pub basis_bps: i128,
    pub mode: ExecutionMode,
    pub reason: String,
}

pub ghost struct SignalSnapshotView {
    pub score: i128,
    pub obi_component: i128,
    pub oracle_lag_component: i128,
    pub binance_return_component: i128,
    pub basis_bps: i128,
    pub mode: ExecutionMode,
    pub reason: Seq<char>,
}

impl View for SignalSnapshot {
    type V = SignalSnapshotView;

    open spec fn view(&self) -> SignalSnapshotView {
        SignalSnapshotView {
            score: self.score,
            obi_component: self.obi_component,
            oracle_lag_component: self.oracle_lag_component,
            binance_return_component: self.binance_return_component,
            basis_bps: self.basis_bps,
            mode: self.mode,
            reason: self.reason@,
        }
    }
}

// ── Thresholds and sizes ────────────────────────────────────────

/// A score from which a bid rests.
pub const MAKER_THRESHOLD: i128 = 300_000;

/// A score from which the ask is taken.
pub const TAKER_THRESHOLD: i128 = 650_000;

/// The lag of the oracle, in basis points, from which the ask may be taken.
pub const MIN_ORACLE_LAG_BPS: i128 = 1_500_000;

/// What taking costs, in basis points: the fee and the spread.
pub const TAKER_COST_BPS: i128 = 4_000_000;

/// How far below the ask a bid rests.
pub const MAKER_OFFSET: i64 = 20_000;

/// The size of a resting bid, in shares.
pub const MAKER_SIZE: i64 = 20_000_000;

/// The dollars that are spent when the ask is taken.
pub const TAKER_SIZE_DOLLARS: i64 = 30_000_000;

/// The limit of an order that takes the ask: ninety-nine cents.
pub const TAKER_LIMIT: i64 = 990_000;

// ── Prices ──────────────────────────────────────────────────────

/// A price rounded down to a multiple of a tick; of a cent where the tick is not
/// positive.
pub open spec fn quantized(price: int, tick_size: int) -> int {
    if tick_size <= 0 {
        price / (CENT as int) * CENT
    } else {
        price / tick_size * tick_size
    }
}

/// A quantized price is a multiple of its tick, not above the price, less than a
/// tick below it, and quantizes to itself.
pub proof fn quantizing_rounds_down(price: int, tick_size: int)
    requires
        tick_size > 0,
    ensures
        quantized(price, tick_size) % tick_size == 0,
        price - tick_size < quantized(price, tick_size) <= price,
        quantized(quantized(price, tick_size), tick_size) == quantized(price, tick_size),
{
    let q = price / tick_size;
    vstd::arithmetic::div_mod::lemma_fundamental_div_mod(price, tick_size);
    assert(tick_size * q == q * tick_size) by (nonlinear_arith);
    vstd::arithmetic::div_mod::lemma_mod_multiples_basic(q, tick_size);
    vstd::arithmetic::div_mod::lemma_fundamental_div_mod_converse(
        q * tick_size,
        tick_size,
        q,
        0,
    );
}

/// A higher price quantizes no lower.
pub proof fn quantizing_keeps_order(price: int, higher: int, tick_size: int)
    requires
        tick_size > 0,
        price <= higher,
    ensures
        quantized(price, tick_size) <= quantized(higher, tick_size),
{
    vstd::arithmetic::div_mod::lemma_div_is_ordered(price, higher, tick_size);
    let a = price / tick_size;
    let b = higher / tick_size;
    assert(a * tick_size <= b * tick_size) by (nonlinear_arith)
        requires
            a <= b,
            tick_size > 0,
    ;
}

/// Rounds a price down to a multiple of a tick.
pub fn quantize_price(price: i64, tick_size: i64) -> (r: i64)
    requires
        -2 * MAX_AMOUNT <= price <= 2 * MAX_AMOUNT,
        amount_ok(tick_size as int),
    ensures
        r == quantized(price as int, tick_size as int),
{
    let tick: i128 = if tick_size <= 0 {
        CENT as i128
    } else {
        tick_size as i128
    };
    let q: i128 = div_floor(price as i128, tick);
    proof {
        quantizing_rounds_down(price as int, tick as int);
        vstd::arithmetic::div_mod::lemma_fundamental_div_mod(price as int, tick as int);
        assert(tick * q == q * tick) by (nonlinear_arith);
    }
    (q * tick) as i64
}

// ── Score ───────────────────────────────────────────────────────

/// The imbalance, between minus one and one.
pub open spec fn obi_part(obi: Option<ObiSignal>) -> int {
    match obi {
        Some(o) => clamped(o.value as int, -1_000_000, 1_000_000),
        None => 0,
    }
}

/// The lag of the oracle in units of five basis points, between minus one and
/// one, with the sign of its direction.
pub open spec fn oracle_part(lag: Option<OracleLagSignal>) -> int {
    match lag {
        Some(o) => {
            let size = clamped(rounded(magnitude(o.lag_bps as int), 5), 0, 1_000_000);
            match o.direction {
                OracleLagDirection::Up => size,
                OracleLagDirection::Down => -size,
                OracleLagDirection::Flat => 0,
            }
        },
        None => 0,
    }
}

/// The return in units of five basis points, between minus one and one.
pub open spec fn return_part(ret: Option<BinanceReturnSignal>) -> int {
    match ret {
        Some(r) => clamped(rounded(r.return_2s as int, 5), -1_000_000, 1_000_000),
        None => 0,
    }
}

/// What the imbalance adds to the score: a quarter of it.
pub open spec fn obi_share(obi: int) -> int {
    rounded(25 * obi, 100)
}

/// What the lag adds to the score: two fifths of it.
pub open spec fn oracle_share(oracle: int) -> int {
    rounded(40 * oracle, 100)
}

/// What the return adds to the score: thirty-five hundredths of it.
pub open spec fn return_share(ret: int) -> int {
    rounded(35 * ret, 100)
}

/// The score: the sum of the three shares.
pub open spec fn combined(obi: int, oracle: int, ret: int) -> int {
    obi_share(obi) + oracle_share(oracle) + return_share(ret)
}

/// The mode of a score; the ask is taken only where the oracle lags.
pub open spec fn mode_of(score: int, oracle_lagging: bool) -> ExecutionMode {
    if magnitude(score) >= TAKER_THRESHOLD && oracle_lagging {
        ExecutionMode::Taker
    } else if magnitude(score) >= MAKER_THRESHOLD {
        ExecutionMode::Maker
    } else {
        ExecutionMode::Hold
    }
}

/// Whether the oracle lags enough for the ask to be taken.
pub open spec fn lagging(lag: Option<OracleLagSignal>) -> bool {
    match lag {
        Some(o) => magnitude(o.lag_bps as int) >= MIN_ORACLE_LAG_BPS,
        None => false,
    }
}

/// The lag, none counting as zero.
pub open spec fn basis_of(lag: Option<OracleLagSignal>) -> int {
    match lag {
        Some(o) => o.lag_bps as int,
        None => 0,
    }
}

/// The two-second return, none counting as zero.
pub open spec fn return_of(ret: Option<BinanceReturnSignal>) -> int {
    match ret {
        Some(r) => r.return_2s as int,
        None => 0,
    }
}

/// What the log says of a score.
pub open spec fn reason_text(mode: ExecutionMode, score: int, obi: int, basis: int, ret: int) -> Seq<
    char,
> {
    let details = fixed_text(score, 3) + " obi="@ + fixed_text(obi, 3) + " oracle="@ + fixed_text(
        basis,
        1,
    ) + "bps ret="@ + fixed_text(ret, 1) + "bps"@;
    match mode {
        ExecutionMode::Taker => "TAKER: score="@ + details,
        ExecutionMode::Maker => "MAKER: score="@ + details,
        ExecutionMode::Hold => "HOLD: score="@ + fixed_text(score, 3) + " (threshold=0.30)"@,
    }
}

/// The snapshot of three signals.
pub open spec fn snapshot(
    obi: Option<ObiSignal>,
    lag: Option<OracleLagSignal>,
    ret: Option<BinanceReturnSignal>,
) -> SignalSnapshotView {
    let o = obi_part(obi);
    let l = oracle_part(lag);
    let r = return_part(ret);
    let score = combined(o, l, r);
    let mode = mode_of(score, lagging(lag));
    SignalSnapshotView {
        score: score as i128,
        obi_component: obi_share(o) as i128,
        oracle_lag_component: oracle_share(l) as i128,
        binance_return_component: return_share(r) as i128,
        basis_bps: basis_of(lag) as i128,
        mode,
        reason: reason_text(mode, score, o, basis_of(lag), return_of(ret)),
    }
}

/// The value that an optional reference points to.
pub open spec fn target<T>(r: Option<&T>) -> Option<T> {
    match r {
        Some(x) => Some(*x),
        None => None,
    }
}

proof fn lemma_score_range(o: int, l: int, r: int)
    requires
        -1_000_000 <= o <= 1_000_000,
        -1_000_000 <= l <= 1_000_000,
        -1_000_000 <= r <= 1_000_000,
    ensures
        -250_000 <= obi_share(o) <= 250_000,
        -400_000 <= oracle_share(l) <= 400_000,
        -350_000 <= return_share(r) <= 350_000,
        -1_000_000 <= combined(o, l, r) <= 1_000_000,
{
    crate::fixed::rounding_keeps_bounds(25 * o, 100, -250_000, 250_000);
    crate::fixed::rounding_keeps_bounds(40 * l, 100, -400_000, 400_000);
    crate::fixed::rounding_keeps_bounds(35 * r, 100, -350_000, 350_000);
}

/// The score is the sum of its components, each within its weight, so the score
/// is between minus one and one; the component of an absent signal is zero.
pub proof fn score_is_the_sum_of_its_components(
    obi: Option<ObiSignal>,
    lag: Option<OracleLagSignal>,
    ret: Option<BinanceReturnSignal>,
)
    ensures
        ({
            let s = snapshot(obi, lag, ret);
            &&& s.score == s.obi_component + s.oracle_lag_component + s.binance_return_component
            &&& -250_000 <= s.obi_component <= 250_000
            &&& -400_000 <= s.oracle_lag_component <= 400_000
            &&& -350_000 <= s.binance_return_component <= 350_000
            &&& -1_000_000 <= s.score <= 1_000_000
            &&& obi is None ==> s.obi_component == 0
            &&& lag is None ==> s.oracle_lag_component == 0
            &&& ret is None ==> s.binance_return_component == 0
        }),
{
    lemma_score_range(obi_part(obi), oracle_part(lag), return_part(ret));
}

/// A larger imbalance, lag or return never lowers the score, and opposite parts
/// give the opposite score.
pub proof fn score_follows_its_parts(o: int, l: int, r: int, o2: int, l2: int, r2: int)
    requires
        o <= o2,
        l <= l2,
        r <= r2,
    ensures
        combined(o, l, r) <= combined(o2, l2, r2),
        combined(-o, -l, -r) == -combined(o, l, r),
{
    crate::fixed::lemma_rounding_grows(25 * o, 25 * o2, 100);
    crate::fixed::lemma_rounding_grows(40 * l, 40 * l2, 100);
    crate::fixed::lemma_rounding_grows(35 * r, 35 * r2, 100);
    crate::fixed::rounding_is_odd(25 * o, 100);
    crate::fixed::rounding_is_odd(40 * l, 100);
    crate::fixed::rounding_is_odd(35 * r, 100);
}

/// Without signals there is nothing to do; and whatever the signals, the ask is
/// taken only where the oracle lags by one and a half basis points.
pub proof fn taking_needs_a_lagging_oracle(
    obi: Option<ObiSignal>,
    lag: Option<OracleLagSignal>,
    ret: Option<BinanceReturnSignal>,
)
    ensures
        snapshot(None, None, None).mode == ExecutionMode::Hold,
        snapshot(obi, lag, ret).mode == ExecutionMode::Taker ==> lag is Some && magnitude(
            lag->0.lag_bps as int,
        ) >= MIN_ORACLE_LAG_BPS,
{
    assert(rounded(0, 100) == 0);
}

fn write_reason(mode: ExecutionMode, score: i128, obi: i128, basis: i128, ret: i128) -> (r: String)
    requires
        -WIDE <= score <= WIDE,
        -WIDE <= obi <= WIDE,
        -WIDE <= basis <= WIDE,
        -WIDE <= ret <= WIDE,
    ensures
        r@ == reason_text(mode, score as int, obi as int, basis as int, ret as int),
{
    let score_text: String = fixed_string(score, 3);
    match mode {
        ExecutionMode::Hold => {
            let mut t: String = "HOLD: score=".to_owned();
            t.append(score_text.as_str());
            t.append(" (threshold=0.30)");
            t
        },
        _ => {
            let obi_text: String = fixed_string(obi, 3);
            let basis_text: String = fixed_string(basis, 1);
            let ret_text: String = fixed_string(ret, 1);
            let mut details: String = score_text;
            details.append(" obi=");
            details.append(obi_text.as_str());
            details.append(" oracle=");
            details.append(basis_text.as_str());
            details.append("bps ret=");
            details.append(ret_text.as_str());
            details.append("bps");
            match mode {
                ExecutionMode::Taker => crate::text::join("TAKER: score=", details.as_str()),
                _ => crate::text::join("MAKER: score=", details.as_str()),
            }
        },
    }
}

/// Combines the signals into a score and a mode.
pub fn compute_signal(
    obi: Option<&ObiSignal>,
    oracle_lag: Option<&OracleLagSignal>,
    binance_ret: Option<&BinanceReturnSignal>,
) -> (r: SignalSnapshot)
    requires
        oracle_lag matches Some(o) ==> -WIDE <= o.lag_bps <= WIDE,
        binance_ret matches Some(x) ==> -WIDE <= x.return_2s <= WIDE,
    ensures
        r@ == snapshot(target(obi), target(oracle_lag), target(binance_ret)),
        r.score == r.obi_component + r.oracle_lag_component + r.binance_return_component,
        -250_000 <= r.obi_component <= 250_000,
        -400_000 <= r.oracle_lag_component <= 400_000,
        -350_000 <= r.binance_return_component <= 350_000,
{
    let o: i128 = match obi {
        Some(s) => clamp(s.value, -1_000_000, 1_000_000),
        None => 0,
    };
    let (l, basis, oracle_lagging): (i128, i128, bool) = match oracle_lag {
        Some(s) => {
            let size: i128 = crate::fixed::abs(s.lag_bps);
            let part: i128 = clamp(div_round(size, 5), 0, 1_000_000);
            let signed: i128 = match s.direction {
                OracleLagDirection::Up => part,
                OracleLagDirection::Down => -part,
                OracleLagDirection::Flat => 0,
            };
            (signed, s.lag_bps, size >= MIN_ORACLE_LAG_BPS)
        },
        None => (0, 0, false),
    };
    let (ret, ret_raw): (i128, i128) = match binance_ret {
        Some(s) => (clamp(div_round(s.return_2s, 5), -1_000_000, 1_000_000), s.return_2s),
        None => (0, 0),
    };
    proof {
        lemma_score_range(o as int, l as int, ret as int);
    }
    let obi_component: i128 = div_round(25 * o, 100);
    let oracle_lag_component: i128 = div_round(40 * l, 100);
    let binance_return_component: i128 = div_round(35 * ret, 100);
    let score: i128 = obi_component + oracle_lag_component + binance_return_component;
    let size: i128 = crate::fixed::abs(score);
    let mode: ExecutionMode = if size >= TAKER_THRESHOLD && oracle_lagging {
        ExecutionMode::Taker
    } else if size >= MAKER_THRESHOLD {
        ExecutionMode::Maker
    } else {
        ExecutionMode::Hold
    };
    SignalSnapshot {
        score,
        obi_component,
        oracle_lag_component,
        binance_return_component,
        basis_bps: basis,
        mode,
        reason: write_reason(mode, score, o, basis, ret_raw),
    }
}

// ── Decisions ───────────────────────────────────────────────────

/// The side that a score points to: its token, ask, filled shares and tick.
pub ghost struct Target {
    pub token_id: Seq<char>,
    pub ask: Option<i64>,
    pub filled: i64,
    pub tick_size: i64,
}

/// The side that a score points to: Up for a positive one.
pub open spec fn target_of(s: MarketStateView, score: int) -> Target {
    if score > 0 {
        Target {
            token_id: s.up_token_id,
            ask: s.up_best_ask,
            filled: s.up_filled,
            tick_size: s.tick_size_up,
        }
    } else {
        Target {
            token_id: s.dn_token_id,
            ask: s.dn_best_ask,
            filled: s.dn_filled,
            tick_size: s.tick_size_dn,
        }
    }
}

/// The bid that rests two cents below an ask, where its price is positive and
/// below the ask.
pub open spec fn maker_orders(t: Target, max_position: i64) -> Seq<ActionView> {
    let price = quantized(t.ask->0 - MAKER_OFFSET, t.tick_size as int);
    if t.ask is Some && t.filled < max_position && 0 < price < t.ask->0 {
        seq![
            ActionView::PlaceOrder(
                OrderRequestView {
                    token_id: t.token_id,
                    side: OrderSide::Buy,
                    price: price as i64,
                    size: MAKER_SIZE,
                    order_type: OrderType::GTC,
                    post_only: true,
                },
            ),
        ]
    } else {
        Seq::empty()
    }
}

/// The whole shares that thirty dollars buy at a positive ask.
pub open spec fn taker_shares(ask: int) -> int {
    TAKER_SIZE_DOLLARS as int / ask * MICRO
}

/// The order that takes an ask: thirty dollars' worth in whole shares, where the
/// expected move exceeds the cost of taking.
pub open spec fn taker_orders(t: Target, max_position: i64, basis_bps: int) -> Seq<ActionView> {
    let ask = t.ask->0;
    if t.ask is Some && t.filled < max_position && ask > 0 && magnitude(basis_bps) > TAKER_COST_BPS
        && taker_shares(ask as int) > 0 {
        seq![
            ActionView::PlaceOrder(
                OrderRequestView {
                    token_id: t.token_id,
                    side: OrderSide::Buy,
                    price: quantized(TAKER_LIMIT as int, t.tick_size as int) as i64,
                    size: taker_shares(ask as int) as i64,
                    order_type: OrderType::FOK,
                    post_only: false,
                },
            ),
        ]
    } else {
        Seq::empty()
    }
}

/// What to do. The kill switch and the end of the window cancel everything;
/// before the start, or after too many orders, nothing is done.
pub open spec fn decided(
    s: MarketStateView,
    signal: SignalSnapshotView,
    risk: RiskLimits,
    start_delay_s: u64,
    cancel_at_s: u64,
) -> Seq<ActionView> {
    if risk.kill_switch_triggered {
        seq![ActionView::CancelAll]
    } else if s.elapsed_s < start_delay_s {
        Seq::empty()
    } else if s.elapsed_s >= cancel_at_s {
        seq![ActionView::CancelAll]
    } else if risk.order_count_this_window >= risk.max_open_orders * 10 {
        Seq::empty()
    } else {
        match signal.mode {
            ExecutionMode::Hold => seq![ActionView::Hold],
            ExecutionMode::Maker => maker_orders(
                target_of(s, signal.score as int),
                risk.max_position_per_side,
            ),
            ExecutionMode::Taker => taker_orders(
                target_of(s, signal.score as int),
                risk.max_position_per_side,
                signal.basis_bps as int,
            ),
        }
    }
}

fn push_maker(
    token_id: &str,
    ask: Option<i64>,
    filled: i64,
    tick_size: i64,
    max_position: i64,
    out: &mut Vec<StrategyAction>,
)
    requires
        opt_amount_ok(ask),
        amount_ok(tick_size as int),
    ensures
        action_views(final(out)@) == action_views(old(out)@) + maker_orders(
            Target { token_id: token_id@, ask, filled, tick_size },
            max_position,
        ),
{
    if let Some(a) = ask {
        if filled < max_position {
            let price: i64 = quantize_price(a - MAKER_OFFSET, tick_size);
            if price > 0 && price < a {
                out.push(
                    StrategyAction::PlaceOrder(
                        OrderRequest {
                            token_id: token_id.to_owned(),
                            side: OrderSide::Buy,
                            price,
                            size: MAKER_SIZE,
                            order_type: OrderType::GTC,
                            post_only: true,
                        },
                    ),
                );
            }
        }
    }
    assert(action_views(out@) =~= action_views(old(out)@) + maker_orders(
        Target { token_id: token_id@, ask, filled, tick_size },
        max_position,
    ));
}

fn push_taker(
    token_id: &str,
    ask: Option<i64>,
    filled: i64,
    tick_size: i64,
    max_position: i64,
    basis_bps: i128,
    out: &mut Vec<StrategyAction>,
)
    requires
        opt_amount_ok(ask),
        amount_ok(tick_size as int),
    ensures
        action_views(final(out)@) == action_views(old(out)@) + taker_orders(
            Target { token_id: token_id@, ask, filled, tick_size },
            max_position,
            basis_bps as int,
        ),
{
    if let Some(a) = ask {
        let moves: bool = basis_bps > TAKER_COST_BPS || basis_bps < -TAKER_COST_BPS;
        if filled < max_position && a > 0 && moves {
            let count: i64 = TAKER_SIZE_DOLLARS / a;
            proof {
                vstd::arithmetic::div_mod::lemma_div_pos_is_pos(
                    TAKER_SIZE_DOLLARS as int,
                    a as int,
                );
                vstd::arithmetic::div_mod::lemma_div_is_ordered_by_denominator(
                    TAKER_SIZE_DOLLARS as int,
                    1,
                    a as int,
                );
            }
            let shares: i64 = count * MICRO;
            if shares > 0 {
                out.push(
                    StrategyAction::PlaceOrder(
                        OrderRequest {
                            token_id: token_id.to_owned(),
                            side: OrderSide::Buy,
                            price: quantize_price(TAKER_LIMIT, tick_size),
                            size: shares,
                            order_type: OrderType::FOK,
                            post_only: false,
                        },
                    ),
                );
            }
        }
    }
    assert(action_views(out@) =~= action_views(old(out)@) + taker_orders(
        Target { token_id: token_id@, ask, filled, tick_size },
        max_position,
        basis_bps as int,
    ));
}

/// Decides what to do.
pub fn evaluate(
    state: &MarketState,
    signal: &SignalSnapshot,
    risk: &RiskLimits,
    config: &BotConfig,
) -> (r: Vec<StrategyAction>)
    requires
        state@.wf(),
    ensures
        action_views(r@) == decided(
            state@,
            signal@,
            *risk,
            config.start_delay_s,
            config.cancel_at_s,
        ),
{
    let mut out: Vec<StrategyAction> = Vec::new();
    assert(action_views(out@) =~= Seq::empty());
    if risk.kill_switch_triggered {
        out.push(StrategyAction::CancelAll);
        assert(action_views(out@) =~= seq![ActionView::CancelAll]);
        return out;
    }
    if state.elapsed_s < config.start_delay_s {
        return out;
    }
    if state.elapsed_s >= config.cancel_at_s {
        out.push(StrategyAction::CancelAll);
        assert(action_views(out@) =~= seq![ActionView::CancelAll]);
        return out;
    }
    if risk.order_count_this_window as u128 >= risk.max_open_orders as u128 * 10 {
        return out;
    }
    let (token_id, ask, filled, tick_size): (&str, Option<i64>, i64, i64) = if signal.score > 0 {
        (state.up_token_id.as_str(), state.up_best_ask, state.up_filled, state.tick_size_up)
    } else {
        (state.dn_token_id.as_str(), state.dn_best_ask, state.dn_filled, state.tick_size_dn)
    };
    match signal.mode {
        ExecutionMode::Hold => {
            out.push(StrategyAction::Hold);
            assert(action_views(out@) =~= seq![ActionView::Hold]);
        },
        ExecutionMode::Maker => {
            push_maker(token_id, ask, filled, tick_size, risk.max_position_per_side, &mut out);
            assert(action_views(out@) =~= maker_orders(
                target_of(state@, signal.score as int),
                risk.max_position_per_side,
            ));
        },
        ExecutionMode::Taker => {
            push_taker(
                token_id,
                ask,
                filled,
                tick_size,
                risk.max_position_per_side,
                signal.basis_bps,
                &mut out,
            );
            assert(action_views(out@) =~= taker_orders(
                target_of(state@, signal.score as int),
                risk.max_position_per_side,
                signal.basis_bps as int,
            ));
        },
    }
    out
}

// ── Laws ────────────────────────────────────────────────────────

/// Orders are sound: they only buy, an order that fills at once is never
/// post-only and a resting one always is, a resting bid is positive and below
/// the ask of its side, in multiples of the tick, and no order is made for a
/// side that is full.
pub proof fn orders_are_sound(
    s: MarketStateView,
    signal: SignalSnapshotView,
    risk: RiskLimits,
    start_delay_s: u64,
    cancel_at_s: u64,
    i: int,
)
    requires
        s.wf(),
        0 <= i < decided(s, signal, risk, start_delay_s, cancel_at_s).len(),
        decided(s, signal, risk, start_delay_s, cancel_at_s)[i] is PlaceOrder,
    ensures
        ({
            let order = decided(s, signal, risk, start_delay_s, cancel_at_s)[i]->PlaceOrder_0;
            let t = target_of(s, signal.score as int);
            &&& order.side == OrderSide::Buy
            &&& order.token_id == t.token_id
            &&& order.size > 0
            &&& t.filled < risk.max_position_per_side
            &&& t.ask is Some
            &&& order.order_type == OrderType::FOK ==> !order.post_only
            &&& order.order_type == OrderType::GTC ==> order.post_only && 0 < order.price < t.ask->0
            &&& order.order_type != OrderType::GTD
            &&& t.tick_size > 0 ==> order.price as int % (t.tick_size as int) == 0
        }),
{
    let t = target_of(s, signal.score as int);
    if t.tick_size > 0 {
        quantizing_rounds_down(t.ask->0 - MAKER_OFFSET, t.tick_size as int);
        quantizing_rounds_down(TAKER_LIMIT as int, t.tick_size as int);
    }
    if t.ask is Some && t.ask->0 > 0 {
        vstd::arithmetic::div_mod::lemma_div_is_ordered_by_denominator(
            TAKER_SIZE_DOLLARS as int,
            1,
            t.ask->0 as int,
        );
    }
}

/// The kill switch cancels everything and places nothing; so does the end of the
/// window, and before its start nothing happens.
pub proof fn gates_come_first(
    s: MarketStateView,
    signal: SignalSnapshotView,
    risk: RiskLimits,
    start_delay_s: u64,
    cancel_at_s: u64,
)
    ensures
        risk.kill_switch_triggered ==> decided(s, signal, risk, start_delay_s, cancel_at_s)
            == seq![ActionView::CancelAll],
        !risk.kill_switch_triggered && s.elapsed_s < start_delay_s ==> decided(
            s,
            signal,
            risk,
            start_delay_s,
            cancel_at_s,
        ).len() == 0,
        start_delay_s <= s.elapsed_s && s.elapsed_s >= cancel_at_s ==> decided(
            s,
            signal,
            risk,
            start_delay_s,
            cancel_at_s,
        ) == seq![ActionView::CancelAll],
        decided(s, signal, risk, start_delay_s, cancel_at_s).len() <= 1,
{
}

/// Whether orders may be placed: the switch is off, the window's trading time is
/// on, and there were fewer than ten orders for each that may be open.
pub open spec fn is_open(s: MarketStateView, risk: RiskLimits, start_delay_s: u64, cancel_at_s: u64) -> bool {
    &&& !risk.kill_switch_triggered
    &&& start_delay_s <= s.elapsed_s < cancel_at_s
    &&& risk.order_count_this_window < 10 * risk.max_open_orders
}

/// Whether a price is a limit on a grid: the highest multiple of the tick (of a cent
/// where there is none) that is not above it.
pub open spec fn on_grid(price: int, limit: int, tick_size: int) -> bool {
    let step: int = if tick_size > 0 {
        tick_size
    } else {
        10_000
    };
    price % step == 0 && limit - step < price <= limit
}

proof fn lemma_on_grid(limit: int, tick_size: int)
    ensures
        on_grid(quantized(limit, tick_size), limit, tick_size),
{
    if tick_size > 0 {
        quantizing_rounds_down(limit, tick_size);
    } else {
        quantizing_rounds_down(limit, 10_000);
    }
}

proof fn lemma_whole_shares(ask: int)
    requires
        0 < ask,
    ensures
        ({
            let n = TAKER_SIZE_DOLLARS as int / ask;
            &&& taker_shares(ask) == n * 1_000_000
            &&& n * ask <= 30_000_000 < (n + 1) * ask
            &&& n > 0 <==> ask <= 30_000_000
            &&& 0 <= n <= 30_000_000
        }),
{
    let n = TAKER_SIZE_DOLLARS as int / ask;
    vstd::arithmetic::div_mod::lemma_fundamental_div_mod(TAKER_SIZE_DOLLARS as int, ask);
    assert(n * ask <= 30_000_000 < (n + 1) * ask) by (nonlinear_arith)
        requires
            30_000_000 == ask * n + 30_000_000int % ask,
            0 <= 30_000_000int % ask < ask,
    ;
    if ask <= 30_000_000 {
        assert(n > 0) by (nonlinear_arith)
            requires
                30_000_000 < (n + 1) * ask,
                0 < ask <= 30_000_000,
        ;
    } else {
        assert(n <= 0) by (nonlinear_arith)
            requires
                n * ask <= 30_000_000,
                ask > 30_000_000,
        ;
    }
    assert(0 <= n <= 30_000_000) by (nonlinear_arith)
        requires
            n * ask <= 30_000_000 < (n + 1) * ask,
            ask >= 1,
    ;
}

/// Whether a size is whole shares, at least one, and no more of them cost thirty
/// dollars or less at an ask.
pub open spec fn buys_for_thirty_dollars(size: int, ask: int) -> bool {
    let n = size / 1_000_000;
    0 < n && size == n * 1_000_000 && n * ask <= 30_000_000 < (n + 1) * ask
}

/// A strong signal is taken, upwards as well as downwards: with a move of more than
/// four basis points either way, an ask of up to thirty dollars and room on its side,
/// exactly one order comes, to buy at once the whole shares that thirty dollars buy,
/// at no more than ninety-nine cents. Else none comes.
pub proof fn bursts_are_taken_both_ways(
    s: MarketStateView,
    signal: SignalSnapshotView,
    risk: RiskLimits,
    start_delay_s: u64,
    cancel_at_s: u64,
)
    requires
        s.wf(),
        is_open(s, risk, start_delay_s, cancel_at_s),
        signal.mode == ExecutionMode::Taker,
    ensures
        ({
            let actions = decided(s, signal, risk, start_delay_s, cancel_at_s);
            let (token_id, ask, filled, tick) = if signal.score > 0 {
                (s.up_token_id, s.up_best_ask, s.up_filled, s.tick_size_up)
            } else {
                (s.dn_token_id, s.dn_best_ask, s.dn_filled, s.tick_size_dn)
            };
            let moves = signal.basis_bps > 4_000_000 || signal.basis_bps < -4_000_000;
            let worth = ask is Some && 0 < ask->0 <= 30_000_000 && filled
                < risk.max_position_per_side && moves;
            &&& worth <==> actions.len() == 1
            &&& !worth <==> actions.len() == 0
            &&& worth ==> (match actions[0] {
                ActionView::PlaceOrder(o) => {
                    &&& o.token_id == token_id
                    &&& o.side == OrderSide::Buy
                    &&& o.order_type == OrderType::FOK
                    &&& !o.post_only
                    &&& on_grid(o.price as int, 990_000, tick as int)
                    &&& buys_for_thirty_dollars(o.size as int, ask->0 as int)
                },
                _ => false,
            })
        }),
{
    let t = target_of(s, signal.score as int);
    lemma_on_grid(990_000, t.tick_size as int);
    if t.ask is Some && t.ask->0 > 0 {
        let ask = t.ask->0 as int;
        lemma_whole_shares(ask);
        assert(buys_for_thirty_dollars(taker_shares(ask), ask) || ask > 30_000_000);
    }
}

/// A moderate signal rests a bid: of twenty shares of the side that it points to, two
/// cents or up to a tick more below the ask, post-only; where there is room on the
/// side and the ask leaves a tick for the bid. Else none comes.
pub proof fn moderate_signals_rest_a_bid(
    s: MarketStateView,
    signal: SignalSnapshotView,
    risk: RiskLimits,
    start_delay_s: u64,
    cancel_at_s: u64,
)
    requires
        s.wf(),
        is_open(s, risk, start_delay_s, cancel_at_s),
        signal.mode == ExecutionMode::Maker,
    ensures
        ({
            let actions = decided(s, signal, risk, start_delay_s, cancel_at_s);
            let (token_id, ask, filled, tick) = if signal.score > 0 {
                (s.up_token_id, s.up_best_ask, s.up_filled, s.tick_size_up)
            } else {
                (s.dn_token_id, s.dn_best_ask, s.dn_filled, s.tick_size_dn)
            };
            let step: int = if tick > 0 {
                tick as int
            } else {
                10_000
            };
            let fits = ask is Some && filled < risk.max_position_per_side && ask->0 - 20_000 >= step;
            &&& fits <==> actions.len() == 1
            &&& !fits <==> actions.len() == 0
            &&& fits ==> (match actions[0] {
                ActionView::PlaceOrder(o) => {
                    &&& o.token_id == token_id
                    &&& o.side == OrderSide::Buy
                    &&& o.order_type == OrderType::GTC
                    &&& o.post_only
                    &&& o.size == 20_000_000
                    &&& on_grid(o.price as int, ask->0 - 20_000, tick as int)
                },
                _ => false,
            })
        }),
{
    let t = target_of(s, signal.score as int);
    if t.ask is Some {
        let limit = t.ask->0 - 20_000;
        lemma_on_grid(limit, t.tick_size as int);
        let step: int = if t.tick_size > 0 {
            t.tick_size as int
        } else {
            10_000
        };
        let price = quantized(limit, t.tick_size as int);
        if price > 0 {
            assert(price >= step) by {
                vstd::arithmetic::div_mod::lemma_fundamental_div_mod(price, step);
                let k = price / step;
                assert(price == step * k);
                assert(k >= 1) by (nonlinear_arith)
                    requires
                        price == step * k,
                        price > 0,
                        step > 0,
                ;
                assert(step * k >= step) by (nonlinear_arith)
                    requires
                        k >= 1,
                        step > 0,
                ;
            }
        } else {
            assert(limit < step);
        }
    }
}

/// A weak signal holds, and one too many orders leaves the strategy still.
pub proof fn weak_signals_hold(
    s: MarketStateView,
    signal: SignalSnapshotView,
    risk: RiskLimits,
    start_delay_s: u64,
    cancel_at_s: u64,
)
    ensures
        is_open(s, risk, start_delay_s, cancel_at_s) && signal.mode == ExecutionMode::Hold
            ==> decided(s, signal, risk, start_delay_s, cancel_at_s) == seq![ActionView::Hold],
        !risk.kill_switch_triggered && start_delay_s <= s.elapsed_s < cancel_at_s
            && risk.order_count_this_window >= 10 * risk.max_open_orders ==> decided(
            s,
            signal,
            risk,
            start_delay_s,
            cancel_at_s,
        ).len() == 0,
{
}

/// What the strategy sees with Up and Down in each other's place.
pub open spec fn mirrored(s: MarketStateView) -> MarketStateView {
    MarketStateView {
        up_token_id: s.dn_token_id,
        dn_token_id: s.up_token_id,
        up_best_ask: s.dn_best_ask,
        up_best_bid: s.dn_best_bid,
        dn_best_ask: s.up_best_ask,
        dn_best_bid: s.up_best_bid,
        up_filled: s.dn_filled,
        dn_filled: s.up_filled,
        tick_size_up: s.tick_size_dn,
        tick_size_dn: s.tick_size_up,
        ..s
    }
}

/// Neither side is preferred: with the sides in each other's place and the signal
/// turned round, the same orders come for the same tokens.
pub proof fn sides_are_treated_alike(
    s: MarketStateView,
    signal: SignalSnapshotView,
    turned: SignalSnapshotView,
    risk: RiskLimits,
    start_delay_s: u64,
    cancel_at_s: u64,
)
    requires
        signal.score != 0,
        turned.score == -signal.score,
        turned.basis_bps == -signal.basis_bps,
        turned.mode == signal.mode,
    ensures
        decided(mirrored(s), turned, risk, start_delay_s, cancel_at_s) == decided(
            s,
            signal,
            risk,
            start_delay_s,
            cancel_at_s,
        ),
{
}

/// What each signal adds to the score, up to rounding: a quarter of the imbalance,
/// eight hundredths of the lag's basis points in the lag's direction, and seven
/// hundredths of the return's; each up to its bound.
pub proof fn components_have_their_weights(
    obi: Option<ObiSignal>,
    lag: Option<OracleLagSignal>,
    ret: Option<BinanceReturnSignal>,
)
    ensures
        ({
            let s = snapshot(obi, lag, ret);
            &&& obi matches Some(o) ==> {
                &&& -1_000_000 <= o.value <= 1_000_000 ==> -2 <= 4 * s.obi_component - o.value <= 2
                &&& o.value >= 1_000_000 ==> s.obi_component == 250_000
                &&& o.value <= -1_000_000 ==> s.obi_component == -250_000
            }
            &&& lag matches Some(l) ==> {
                let size: int = if l.lag_bps < 0 {
                    -l.lag_bps
                } else {
                    l.lag_bps as int
                };
                let signed: int = match l.direction {
                    OracleLagDirection::Up => s.oracle_lag_component as int,
                    OracleLagDirection::Down => -s.oracle_lag_component,
                    OracleLagDirection::Flat => 0,
                };
                &&& l.direction == OracleLagDirection::Flat ==> s.oracle_lag_component == 0
                &&& l.direction != OracleLagDirection::Flat ==> {
                    &&& size <= 5_000_000 ==> -70 <= 100 * signed - 8 * size <= 70
                    &&& size >= 5_000_000 ==> signed == 400_000
                }
                &&& s.basis_bps == l.lag_bps
            }
            &&& lag is None ==> s.basis_bps == 0
            &&& ret matches Some(r) ==> {
                &&& -5_000_000 <= r.return_2s <= 5_000_000 ==> -135 <= 200
                    * s.binance_return_component - 14 * r.return_2s <= 135
                &&& r.return_2s >= 5_000_000 ==> s.binance_return_component == 350_000
                &&& r.return_2s <= -5_000_000 ==> s.binance_return_component == -350_000
            }
        }),
{
    let o = obi_part(obi);
    let l = oracle_part(lag);
    let r = return_part(ret);
    lemma_score_range(o, l, r);
    crate::fixed::rounding_is_nearest(25 * o, 100);
    crate::fixed::rounding_is_nearest(40 * l, 100);
    crate::fixed::rounding_is_nearest(35 * r, 100);
    if let Some(x) = lag {
        let size = magnitude(x.lag_bps as int);
        crate::fixed::rounding_is_nearest(size, 5);
        if size >= 5_000_000 {
            crate::fixed::lemma_rounding_grows(5_000_000, size, 5);
            assert(rounded(5_000_000, 5) == 1_000_000);
        }
        assert(rounded(40_000_000, 100) == 400_000);
        assert(rounded(-40_000_000, 100) == -400_000);
        assert(rounded(0, 100) == 0);
    }
    if let Some(x) = ret {
        crate::fixed::rounding_is_nearest(x.return_2s as int, 5);
        if x.return_2s >= 5_000_000 {
            crate::fixed::lemma_rounding_grows(5_000_000, x.return_2s as int, 5);
            assert(rounded(5_000_000, 5) == 1_000_000);
        }
        if x.return_2s <= -5_000_000 {
            crate::fixed::lemma_rounding_grows(x.return_2s as int, -5_000_000, 5);
            assert(rounded(-5_000_000, 5) == -1_000_000);
        }
        assert(rounded(35_000_000, 100) == 350_000);
        assert(rounded(-35_000_000, 100) == -350_000);
    }
    assert(rounded(25_000_000, 100) == 250_000);
    assert(rounded(-25_000_000, 100) == -250_000);
}

/// The mode by the score's size: from thirty hundredths on a bid rests, from
/// sixty-five on the ask is taken where the oracle lags by one and a half basis
/// points or more, either way.
pub proof fn modes_follow_the_score(
    obi: Option<ObiSignal>,
    lag: Option<OracleLagSignal>,
    ret: Option<BinanceReturnSignal>,
)
    ensures
        ({
            let s = snapshot(obi, lag, ret);
            let lags = match lag {
                Some(l) => l.lag_bps >= 1_500_000 || l.lag_bps <= -1_500_000,
                None => false,
            };
            let strong = s.score >= 650_000 || s.score <= -650_000;
            let moderate = s.score >= 300_000 || s.score <= -300_000;
            &&& s.mode == ExecutionMode::Taker <==> strong && lags
            &&& s.mode == ExecutionMode::Maker <==> moderate && !(strong && lags)
            &&& s.mode == ExecutionMode::Hold <==> !moderate
        }),
{
    lemma_score_range(obi_part(obi), oracle_part(lag), return_part(ret));
}

/// What the log says of a score: its mode and the score in thousandths; beyond a
/// hold also the imbalance in thousandths, and the lag and the return in tenths of
/// a basis point.
pub proof fn reasons_tell_the_score(score: int, obi: int, basis: int, ret: int)
    ensures
        reason_text(ExecutionMode::Hold, score, obi, basis, ret) == "HOLD: score="@ + fixed_text(
            score,
            3,
        ) + " (threshold=0.30)"@,
        reason_text(ExecutionMode::Taker, score, obi, basis, ret) == "TAKER: score="@ + (fixed_text(
            score,
            3,
        ) + " obi="@ + fixed_text(obi, 3) + " oracle="@ + fixed_text(basis, 1) + "bps ret="@
            + fixed_text(ret, 1) + "bps"@),
        reason_text(ExecutionMode::Maker, score, obi, basis, ret) == "MAKER: score="@ + (fixed_text(
            score,
            3,
        ) + " obi="@ + fixed_text(obi, 3) + " oracle="@ + fixed_text(basis, 1) + "bps ret="@
            + fixed_text(ret, 1) + "bps"@),
{
}

} // verus!
