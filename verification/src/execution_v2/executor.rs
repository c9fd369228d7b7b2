//! What the executor sends for a command, and what it reports of the outcome.

use vstd::prelude::*;

use crate::execution::{
    accept, acceptance, result_view, OrderResult, OrderResultView, VenueOrder, VenueOrderView,
};
use crate::fixed::{
    amount_ok, div_floor, div_nearest, div_round, fixed_string, fixed_text, quotient, rounded,
    CENT, MAX_AMOUNT, MICRO, WIDE,
};
use crate::json::{json_of, parse_json, views, Json, JsonView};
use crate::text::{contains, int_string, int_text, join, occurs};
use crate::types::{OrderSide, OrderType};
use crate::types_v2::{
    BotMode, CommandView, ExecutionCommand, ExecutionEvent, ExecutionEventView, LogEvent,
    LogEventView, ReconciliationResult, };

verus! {

/// The limit price of a fill-or-kill purchase. The venue fills at the ask, so
/// the limit only has to be above it.
pub const FOK_LIMIT: &'static str = "0.99";

/// What came of an order.
#[derive(Debug, Clone)]
pub struct FillResult {
    pub order_id: String,
    pub filled_price: i128,
    pub filled_size: i128,
    pub latency_ms: i64,
}

pub ghost struct FillView {
    pub order_id: Seq<char>,
    pub filled_price: i128,
    pub filled_size: i128,
    pub latency_ms: i64,
}

impl View for FillResult {
    type V = FillView;

    open spec fn view(&self) -> FillView {
        FillView {
            order_id: self.order_id@,
            filled_price: self.filled_price,
            filled_size: self.filled_size,
            latency_ms: self.latency_ms,
        }
    }
}

/// Whether orders are sent: in live mode with credentials. Else the executor
/// only pretends.
pub fn sends_orders(mode: BotMode, has_credentials: bool) -> (r: bool)
    ensures
        r == (mode == BotMode::Live && has_credentials),
{
    match mode {
        BotMode::Live => has_credentials,
        BotMode::DryRun => false,
    }
}

/// A private key without its prefix.
pub open spec fn key_digits(key: Seq<char>) -> Seq<char> {
    if key.len() >= 2 && key[0] == '0' && key[1] == 'x' {
        key.skip(2)
    } else {
        key
    }
}

/// A private key without its `0x`.
pub fn clean_key(key: &str) -> (r: String)
    ensures
        r@ == key_digits(key@),
{
    let chars: Vec<char> = crate::text::chars_of(key);
    if chars.len() >= 2 && chars[0] == '0' && chars[1] == 'x' {
        let rest: &[char] = vstd::slice::slice_subrange(chars.as_slice(), 2, chars.len());
        assert(rest@ =~= key@.skip(2));
        crate::text::text_of(rest)
    } else {
        crate::text::text_of(chars.as_slice())
    }
}

/// The identifier for the next order heartbeat: that of the last one, or none
/// after a failure.
pub fn next_heartbeat(answer: Result<String, String>) -> (r: Option<String>)
    ensures
        r == match answer {
            Ok(id) => Some(id),
            Err(_) => None,
        },
{
    match answer {
        Ok(id) => Some(id),
        Err(_) => None,
    }
}

// ── Order sizes ─────────────────────────────────────────────────

/// The whole shares in a product of a size and a price, as an amount.
pub open spec fn whole_shares(base: int, price: int) -> int {
    (base * price) / (MICRO * MICRO) * MICRO
}

/// The shares that a purchase posts: the base times the ask, rounded down to
/// whole shares, and at least one.
pub open spec fn fok_buy_shares(share_base: int, ask_price: int) -> int {
    let n = whole_shares(share_base, ask_price);
    if n > MICRO {
        n
    } else {
        MICRO as int
    }
}

/// An amount rounded down to hundredths.
pub open spec fn hundredths(x: int) -> int {
    x / (CENT as int) * CENT
}

fn floor_shares(base: i128, price: i128) -> (r: i128)
    requires
        amount_ok(base as int),
        amount_ok(price as int),
    ensures
        r == whole_shares(base as int, price as int),
        -WIDE <= r <= WIDE,
{
    proof {
        crate::fixed::lemma_product_bounds(
            base as int,
            price as int,
            MAX_AMOUNT as int,
            MAX_AMOUNT as int,
        );
    }
    let unit: i128 = 1_000_000_000_000;
    assert(unit == MICRO * MICRO);
    let n: i128 = div_floor(base * price, unit);
    proof {
        vstd::arithmetic::div_mod::lemma_fundamental_div_mod(base * price, unit as int);
        assert(-9_000_000_000_000_000_000_000_001 <= n <= 9_000_000_000_000_000_000_000_000) by (nonlinear_arith)
            requires
                base * price == unit * n + (base * price) % (unit as int),
                0 <= (base * price) % (unit as int) < unit,
                -(MAX_AMOUNT * MAX_AMOUNT) <= base * price <= MAX_AMOUNT * MAX_AMOUNT,
                unit == 1_000_000_000_000,
                MAX_AMOUNT == 3_000_000_000_000_000_000,
        ;
    }
    assert(n * 1_000_000 <= 9_000_000_000_000_000_000_000_000_000_000);
    assert(n * 1_000_000 >= -9_000_000_000_000_000_000_000_001_000_000);
    n * MICRO as i128
}

/// A purchase that fills at once or not at all.
#[derive(Debug, Clone)]
pub struct FokBuy {
    pub shares: i128,
    pub size_text: String,
    pub price_text: String,
}

/// Plans a purchase: its whole shares at a limit of ninety-nine cents.
pub fn plan_fok_buy(share_base: i128, ask_price: i128) -> (r: FokBuy)
    requires
        amount_ok(share_base as int),
        amount_ok(ask_price as int),
    ensures
        r.shares == fok_buy_shares(share_base as int, ask_price as int),
        r.size_text@ == fixed_text(r.shares as int, 0),
        r.price_text@ == FOK_LIMIT@,
        r.shares >= MICRO,
{
    let n: i128 = floor_shares(share_base, ask_price);
    let shares: i128 = if n > MICRO as i128 {
        n
    } else {
        MICRO as i128
    };
    FokBuy { shares, size_text: fixed_string(shares, 0), price_text: FOK_LIMIT.to_owned() }
}

/// A purchase posts whole shares, at least one, and never more than the base
/// times the ask where that is a share or more.
pub proof fn purchases_are_whole_shares(share_base: int, ask_price: int)
    ensures
        fok_buy_shares(share_base, ask_price) % (MICRO as int) == 0,
        fok_buy_shares(share_base, ask_price) >= MICRO,
        share_base * ask_price >= MICRO * MICRO ==> fok_buy_shares(share_base, ask_price) * MICRO
            <= share_base * ask_price,
{
    let unit = MICRO * MICRO;
    let x = share_base * ask_price;
    let q = x / unit;
    vstd::arithmetic::div_mod::lemma_fundamental_div_mod(x, unit);
    vstd::arithmetic::div_mod::lemma_mod_multiples_basic(q, MICRO as int);
    assert((q * MICRO) * MICRO == unit * q) by (nonlinear_arith)
        requires
            unit == MICRO * MICRO,
    ;
}

/// A sale that fills at once or not at all.
#[derive(Debug, Clone)]
pub struct FokSell {
    pub shares: i128,
    pub size_text: String,
}

/// Plans a sale: its shares rounded down to hundredths.
pub fn plan_fok_sell(shares: i128) -> (r: Result<FokSell, String>)
    requires
        -WIDE <= shares <= WIDE,
    ensures
        match r {
            Ok(sell) => hundredths(shares as int) > 0 && sell.shares == hundredths(shares as int)
                && sell.size_text@ == fixed_text(sell.shares as int, 2),
            Err(e) => hundredths(shares as int) <= 0 && e@ == "shares rounds to 0"@,
        },
{
    let n: i128 = div_floor(shares, CENT as i128);
    proof {
        lemma_hundredths(shares as int);
    }
    let cut: i128 = n * CENT as i128;
    if cut <= 0 {
        return Err("shares rounds to 0".to_owned());
    }
    Ok(FokSell { shares: cut, size_text: fixed_string(cut, 2) })
}

/// A bid that rests.
#[derive(Debug, Clone)]
pub struct GtcBid {
    pub size: i128,
    pub size_text: String,
    pub price_text: String,
}

/// Plans a resting bid: its size rounded down to hundredths, its price written
/// with two decimals.
pub fn plan_gtc_bid(size: i128, price: i128) -> (r: Result<GtcBid, String>)
    requires
        -WIDE <= size <= WIDE,
        -WIDE <= price <= WIDE,
    ensures
        match r {
            Ok(bid) => hundredths(size as int) > 0 && bid.size == hundredths(size as int)
                && bid.size_text@ == fixed_text(bid.size as int, 2) && bid.price_text@
                == fixed_text(price as int, 2),
            Err(e) => hundredths(size as int) <= 0 && e@ == "size rounds to 0"@,
        },
{
    let n: i128 = div_floor(size, CENT as i128);
    proof {
        lemma_hundredths(size as int);
    }
    let cut: i128 = n * CENT as i128;
    if cut <= 0 {
        return Err("size rounds to 0".to_owned());
    }
    Ok(GtcBid { size: cut, size_text: fixed_string(cut, 2), price_text: fixed_string(price, 2) })
}

proof fn lemma_hundredths(x: int)
    ensures
        x - CENT < hundredths(x) <= x,
{
    vstd::arithmetic::div_mod::lemma_fundamental_div_mod(x, CENT as int);
}

/// An order never asks for more than was wanted: a size rounded down loses less
/// than a hundredth of a share.
pub proof fn rounding_down_keeps_the_size(x: int)
    ensures
        x - CENT < hundredths(x) <= x,
        hundredths(hundredths(x)) == hundredths(x),
{
    lemma_hundredths(x);
    let q = x / (CENT as int);
    assert((q * CENT) / (CENT as int) == q) by (nonlinear_arith)
        requires
            CENT == 10_000,
    ;
}

/// What is reported of an accepted order.
pub fn accepted(order_id: String, price: i128, size: i128) -> (r: FillResult)
    ensures
        r@ == (FillView {
            order_id: order_id@,
            filled_price: price,
            filled_size: size,
            latency_ms: 0,
        }),
{
    FillResult { order_id, filled_price: price, filled_size: size, latency_ms: 0 }
}

// ── Orders ──────────────────────────────────────────────────────

/// An order to send, and what to report once it is accepted.
#[derive(Debug, Clone)]
pub struct OrderPlan {
    pub order: VenueOrder,
    pub price: i128,
    pub size: i128,
}

pub ghost struct OrderPlanView {
    pub order: VenueOrderView,
    pub price: i128,
    pub size: i128,
}

impl View for OrderPlan {
    type V = OrderPlanView;

    open spec fn view(&self) -> OrderPlanView {
        OrderPlanView { order: self.order@, price: self.price, size: self.size }
    }
}

/// A purchase of whole shares at a limit of ninety-nine cents, reported at the
/// ask.
pub open spec fn buy_plan(token_id: Seq<char>, share_base: int, ask: i128) -> OrderPlanView {
    let shares = fok_buy_shares(share_base, ask as int);
    OrderPlanView {
        order: VenueOrderView {
            token_id,
            side: OrderSide::Buy,
            order_type: OrderType::FOK,
            amount: shares as i128,
            size: fixed_text(shares, 0),
            limit: Some(990_000i128),
            price: Some(FOK_LIMIT@),
            post_only: false,
        },
        price: ask,
        size: shares as i128,
    }
}

/// A sale of shares, cut to hundredths, at what the book gives: reported at its
/// floor. Less than a hundredth of a share is an error.
pub open spec fn sale_plan(token_id: Seq<char>, shares: i128, min_price: i128) -> Result<
    OrderPlanView,
    Seq<char>,
> {
    let cut = hundredths(shares as int);
    if cut > 0 {
        Ok(
            OrderPlanView {
                order: VenueOrderView {
                    token_id,
                    side: OrderSide::Sell,
                    order_type: OrderType::FOK,
                    amount: cut as i128,
                    size: fixed_text(cut, 2),
                    limit: None,
                    price: None,
                    post_only: false,
                },
                price: min_price,
                size: cut as i128,
            },
        )
    } else {
        Err("shares rounds to 0"@)
    }
}

/// The order of a command. A resting bid is reported with nothing filled; a size of
/// less than a hundredth is an error, and so is a command that is no order.
pub open spec fn planned_order(c: CommandView, share_base: int) -> Result<
    OrderPlanView,
    Seq<char>,
> {
    match c {
        CommandView::EnterTaker { token_id, max_price, .. } => Ok(
            buy_plan(token_id, share_base, max_price),
        ),
        CommandView::BuySecondLeg { opposite_token_id, ask_price, .. } => Ok(
            buy_plan(opposite_token_id, share_base, ask_price),
        ),
        CommandView::ExitTaker { token_id, shares, min_price, .. } => sale_plan(
            token_id,
            shares,
            min_price,
        ),
        CommandView::PostMakerBid { token_id, price, size, post_only, .. } => {
            let cut = hundredths(size as int);
            if cut > 0 {
                Ok(
                    OrderPlanView {
                        order: VenueOrderView {
                            token_id,
                            side: OrderSide::Buy,
                            order_type: OrderType::GTC,
                            amount: cut as i128,
                            size: fixed_text(cut, 2),
                            limit: Some(price),
                            price: Some(fixed_text(price as int, 2)),
                            post_only,
                        },
                        price,
                        size: 0,
                    },
                )
            } else {
                Err("size rounds to 0"@)
            }
        },
        CommandView::CancelAll { .. } => Err("not an order"@),
        CommandView::Reconcile { .. } => Err("not an order"@),
    }
}

fn plan_buy(token_id: &str, share_base: i128, ask: i128) -> (r: OrderPlan)
    requires
        amount_ok(share_base as int),
        amount_ok(ask as int),
    ensures
        r@ == buy_plan(token_id@, share_base as int, ask),
{
    let buy: FokBuy = plan_fok_buy(share_base, ask);
    OrderPlan {
        order: VenueOrder {
            token_id: token_id.to_owned(),
            side: OrderSide::Buy,
            order_type: OrderType::FOK,
            amount: buy.shares,
            size: buy.size_text,
            limit: Some(990_000),
            price: Some(buy.price_text),
            post_only: false,
        },
        price: ask,
        size: buy.shares,
    }
}

/// Plans a sale.
pub fn plan_sale(token_id: &str, shares: i128, min_price: i128) -> (r: Result<OrderPlan, String>)
    requires
        -WIDE <= shares <= WIDE,
    ensures
        sale_plan(token_id@, shares, min_price) == match r {
            Ok(p) => Ok(p@),
            Err(e) => Err(e@),
        },
{
    match plan_fok_sell(shares) {
        Ok(sell) => Ok(
            OrderPlan {
                order: VenueOrder {
                    token_id: token_id.to_owned(),
                    side: OrderSide::Sell,
                    order_type: OrderType::FOK,
                    amount: sell.shares,
                    size: sell.size_text,
                    limit: None,
                    price: None,
                    post_only: false,
                },
                price: min_price,
                size: sell.shares,
            },
        ),
        Err(e) => Err(e),
    }
}

/// Whether the amounts of a command that its order is made from are within range.
pub open spec fn order_in_range(c: CommandView) -> bool {
    match c {
        CommandView::EnterTaker { max_price, .. } => amount_ok(max_price as int),
        CommandView::ExitTaker { shares, .. } => -WIDE <= shares <= WIDE,
        CommandView::BuySecondLeg { ask_price, .. } => amount_ok(ask_price as int),
        CommandView::PostMakerBid { price, size, .. } => -WIDE <= price <= WIDE && -WIDE <= size
            <= WIDE,
        CommandView::CancelAll { .. } => true,
        CommandView::Reconcile { .. } => true,
    }
}

/// Whether the amounts of a command that its order is made from are within range.
pub fn is_order_in_range(command: &ExecutionCommand) -> (r: bool)
    ensures
        r == order_in_range(command@),
{
    let most: i128 = MAX_AMOUNT as i128;
    match command {
        ExecutionCommand::EnterTaker { max_price, .. } => {
            let p: i128 = *max_price;
            -most <= p && p <= most
        },
        ExecutionCommand::ExitTaker { shares, .. } => {
            let n: i128 = *shares;
            -WIDE <= n && n <= WIDE
        },
        ExecutionCommand::BuySecondLeg { ask_price, .. } => {
            let p: i128 = *ask_price;
            -most <= p && p <= most
        },
        ExecutionCommand::PostMakerBid { price, size, .. } => {
            let (p, n): (i128, i128) = (*price, *size);
            -WIDE <= p && p <= WIDE && -WIDE <= n && n <= WIDE
        },
        ExecutionCommand::CancelAll { .. } => true,
        ExecutionCommand::Reconcile { .. } => true,
    }
}

/// Plans the order of a command.
pub fn plan_order(command: &ExecutionCommand, share_base: i128) -> (r: Result<OrderPlan, String>)
    requires
        order_in_range(command@),
        amount_ok(share_base as int),
    ensures
        planned_order(command@, share_base as int) == match r {
            Ok(p) => Ok(p@),
            Err(e) => Err(e@),
        },
{
    match command {
        ExecutionCommand::EnterTaker { token_id, max_price, .. } => Ok(
            plan_buy(token_id.as_str(), share_base, *max_price),
        ),
        ExecutionCommand::BuySecondLeg { opposite_token_id, ask_price, .. } => Ok(
            plan_buy(opposite_token_id.as_str(), share_base, *ask_price),
        ),
        ExecutionCommand::ExitTaker { token_id, shares, min_price, .. } => plan_sale(
            token_id.as_str(),
            *shares,
            *min_price,
        ),
        ExecutionCommand::PostMakerBid { token_id, price, size, post_only, .. } => match plan_gtc_bid(
            *size,
            *price,
        ) {
            Ok(bid) => Ok(
                OrderPlan {
                    order: VenueOrder {
                        token_id: token_id.clone(),
                        side: OrderSide::Buy,
                        order_type: OrderType::GTC,
                        amount: bid.size,
                        size: bid.size_text,
                        limit: Some(*price),
                        price: Some(bid.price_text),
                        post_only: *post_only,
                    },
                    price: *price,
                    size: 0,
                },
            ),
            Err(e) => Err(e),
        },
        ExecutionCommand::CancelAll { .. } => Err("not an order".to_owned()),
        ExecutionCommand::Reconcile { .. } => Err("not an order".to_owned()),
    }
}

/// What comes of a planned order and the venue's answer: a fill at the plan's price
/// and size where it was accepted, else the reason.
pub open spec fn settled(p: OrderPlanView, answer: Result<OrderResultView, Seq<char>>) -> Result<
    FillView,
    Seq<char>,
> {
    match answer {
        Ok(o) => match acceptance(o) {
            Ok(order_id) => Ok(
                FillView { order_id, filled_price: p.price, filled_size: p.size, latency_ms: 0 },
            ),
            Err(e) => Err(e),
        },
        Err(e) => Err(e),
    }
}

/// Settles a planned order with the venue's answer.
pub fn settle_order(plan: &OrderPlan, answer: Result<OrderResult, String>) -> (r: Result<
    FillResult,
    String,
>)
    ensures
        outcome_view(r) == settled(plan@, result_view(answer)),
{
    match answer {
        Ok(o) => match accept(o) {
            Ok(id) => Ok(accepted(id, plan.price, plan.size)),
            Err(e) => Err(e),
        },
        Err(e) => Err(e),
    }
}

/// An order that fills at once is never post-only, one is sold only on a command
/// to exit, and no order asks for more than its command.
pub proof fn planned_orders_are_sound(c: CommandView, share_base: int)
    requires
        planned_order(c, share_base) is Ok,
    ensures
        ({
            let o = planned_order(c, share_base)->Ok_0.order;
            &&& o.order_type == OrderType::FOK ==> !o.post_only
            &&& o.side == OrderSide::Sell <==> c is ExitTaker
            &&& c matches CommandView::ExitTaker { shares, .. } ==> o.size == fixed_text(
                hundredths(shares as int),
                2,
            ) && hundredths(shares as int) <= shares
            &&& c matches CommandView::PostMakerBid { size, .. } ==> o.size == fixed_text(
                hundredths(size as int),
                2,
            ) && hundredths(size as int) <= size
        }),
{
    if let CommandView::ExitTaker { shares, .. } = c {
        lemma_hundredths(shares as int);
    }
    if let CommandView::PostMakerBid { size, .. } = c {
        lemma_hundredths(size as int);
    }
}

// ── Dry runs ────────────────────────────────────────────────────

/// A quotient of amounts, rounded to the nearest.
pub open spec fn ratio(n: int, d: int) -> int {
    quotient(n * MICRO, d)
}

/// Whether a dry run can tell what a command would fill: its amounts are within
/// range, and a purchase by value has a price to divide by.
pub open spec fn in_range(c: CommandView) -> bool {
    match c {
        CommandView::EnterTaker { max_price, notional, .. } => amount_ok(max_price as int)
            && max_price != 0 && -WIDE <= notional * MICRO <= WIDE,
        CommandView::ExitTaker { shares, min_price, .. } => amount_ok(min_price as int) && -WIDE
            <= shares <= WIDE,
        CommandView::BuySecondLeg { ask_price, .. } => amount_ok(ask_price as int),
        CommandView::PostMakerBid { price, size, .. } => -WIDE <= price <= WIDE && -WIDE <= size
            <= WIDE,
        CommandView::CancelAll { .. } => true,
        CommandView::Reconcile { .. } => true,
    }
}

/// Whether a dry run can tell what a command would fill.
pub fn is_in_range(command: &ExecutionCommand) -> (r: bool)
    ensures
        r == in_range(command@),
{
    match command {
        ExecutionCommand::EnterTaker { max_price, notional, .. } => {
            let (p, n): (i128, i128) = (*max_price, *notional);
            let limit: i128 = WIDE / MICRO as i128;
            -(MAX_AMOUNT as i128) <= p && p <= MAX_AMOUNT as i128 && p != 0 && -limit <= n && n
                <= limit
        },
        ExecutionCommand::ExitTaker { shares, min_price, .. } => {
            let (s, p): (i128, i128) = (*shares, *min_price);
            -(MAX_AMOUNT as i128) <= p && p <= MAX_AMOUNT as i128 && -WIDE <= s && s <= WIDE
        },
        ExecutionCommand::BuySecondLeg { ask_price, .. } => {
            let p: i128 = *ask_price;
            -(MAX_AMOUNT as i128) <= p && p <= MAX_AMOUNT as i128
        },
        ExecutionCommand::PostMakerBid { price, size, .. } => {
            let (p, s): (i128, i128) = (*price, *size);
            -WIDE <= p && p <= WIDE && -WIDE <= s && s <= WIDE
        },
        ExecutionCommand::CancelAll { .. } => true,
        ExecutionCommand::Reconcile { .. } => true,
    }
}

/// What a dry run reports for an order; nothing for other commands. A purchase
/// fills at its price, a sale five per cent above its floor, a bid rests.
pub open spec fn dry_fill(c: CommandView, share_base: int, sent_ts_ms: int) -> Option<FillView> {
    match c {
        CommandView::EnterTaker { max_price, notional, .. } => Some(
            FillView {
                order_id: "dry-"@ + int_text(sent_ts_ms),
                filled_price: max_price,
                filled_size: ratio(notional as int, max_price as int) as i128,
                latency_ms: 0,
            },
        ),
        CommandView::ExitTaker { shares, min_price, .. } => Some(
            FillView {
                order_id: "dry-sell-"@ + int_text(sent_ts_ms),
                filled_price: rounded(min_price * 105, 100) as i128,
                filled_size: shares,
                latency_ms: 0,
            },
        ),
        CommandView::BuySecondLeg { ask_price, .. } => Some(
            FillView {
                order_id: "dry-leg2-"@ + int_text(sent_ts_ms),
                filled_price: ask_price,
                filled_size: whole_shares(share_base, ask_price as int) as i128,
                latency_ms: 0,
            },
        ),
        CommandView::PostMakerBid { price, .. } => Some(
            FillView {
                order_id: "dry-maker-"@ + int_text(sent_ts_ms),
                filled_price: price,
                filled_size: 0,
                latency_ms: 0,
            },
        ),
        CommandView::CancelAll { .. } => None,
        CommandView::Reconcile { .. } => None,
    }
}

fn dry_result(prefix: &str, sent_ts_ms: i64, price: i128, size: i128) -> (r: FillResult)
    ensures
        r@ == (FillView {
            order_id: prefix@ + int_text(sent_ts_ms as int),
            filled_price: price,
            filled_size: size,
            latency_ms: 0,
        }),
{
    let number: String = int_string(sent_ts_ms as i128);
    accepted(join(prefix, number.as_str()), price, size)
}

/// What a dry run reports for an order.
pub fn dry_run(command: &ExecutionCommand, share_base: i128, sent_ts_ms: i64) -> (r: Option<
    FillResult,
>)
    requires
        in_range(command@),
        amount_ok(share_base as int),
    ensures
        dry_fill(command@, share_base as int, sent_ts_ms as int) == match r {
            Some(fill) => Some(fill@),
            None => None,
        },
{
    match command {
        ExecutionCommand::EnterTaker { max_price, notional, .. } => {
            let n: i128 = *notional * MICRO as i128;
            let d: i128 = *max_price;
            let size: i128 = div_nearest(n, d);
            Some(dry_result("dry-", sent_ts_ms, d, size))
        },
        ExecutionCommand::ExitTaker { shares, min_price, .. } => {
            let price: i128 = div_round(*min_price * 105, 100);
            Some(dry_result("dry-sell-", sent_ts_ms, price, *shares))
        },
        ExecutionCommand::BuySecondLeg { ask_price, .. } => {
            let size: i128 = floor_shares(share_base, *ask_price);
            Some(dry_result("dry-leg2-", sent_ts_ms, *ask_price, size))
        },
        ExecutionCommand::PostMakerBid { price, .. } => {
            Some(dry_result("dry-maker-", sent_ts_ms, *price, 0))
        },
        ExecutionCommand::CancelAll { .. } => None,
        ExecutionCommand::Reconcile { .. } => None,
    }
}

// ── Outcomes ────────────────────────────────────────────────────

/// The event that reports an outcome. A resting bid is not reported: its fills
/// come by another way.
pub open spec fn outcome_event(
    c: CommandView,
    outcome: Result<FillView, Seq<char>>,
    sent_ts_ms: i64,
    ack_ts_ms: i64,
) -> Option<ExecutionEventView> {
    match (c, outcome) {
        (
            CommandView::EnterTaker { market_slug, token_id, side, notional, signal, .. },
            Ok(fill),
        ) => Some(
            ExecutionEventView::EntryFilled {
                sent_ts_ms,
                ack_ts_ms,
                market_slug,
                token_id,
                side,
                filled_price: fill.filled_price,
                filled_size: fill.filled_size,
                notional,
                order_id: fill.order_id,
                signal,
            },
        ),
        (CommandView::EnterTaker { .. }, Err(reason)) => Some(
            ExecutionEventView::EntryRejected { ts_ms: ack_ts_ms, reason },
        ),
        (
            CommandView::ExitTaker { market_slug, token_id, side, reason, .. },
            Ok(fill),
        ) => Some(
            ExecutionEventView::ExitFilled {
                sent_ts_ms,
                ack_ts_ms,
                market_slug,
                token_id,
                side,
                filled_price: fill.filled_price,
                filled_size: fill.filled_size,
                reason,
                order_id: fill.order_id,
            },
        ),
        (CommandView::ExitTaker { .. }, Err(reason)) => Some(
            ExecutionEventView::ExitRejected { ts_ms: ack_ts_ms, reason },
        ),
        (
            CommandView::BuySecondLeg {
                market_slug,
                opposite_token_id,
                opposite_side,
                reason,
                ..
            },
            Ok(fill),
        ) => Some(
            ExecutionEventView::SecondLegFilled {
                ts_ms: ack_ts_ms,
                market_slug,
                opposite_token_id,
                opposite_side,
                filled_price: fill.filled_price,
                filled_size: fill.filled_size,
                reason,
            },
        ),
        (CommandView::BuySecondLeg { .. }, Err(reason)) => Some(
            ExecutionEventView::SecondLegRejected { ts_ms: ack_ts_ms, reason },
        ),
        _ => None,
    }
}

/// What the trade log records of an outcome: entries, and exits that filled.
pub open spec fn outcome_log(
    c: CommandView,
    outcome: Result<FillView, Seq<char>>,
    ack_ts_ms: i64,
    latency_ms: i64,
) -> Option<LogEventView> {
    match (c, outcome) {
        (CommandView::EnterTaker { token_id, side, .. }, Ok(fill)) => Some(
            LogEventView::EntryFilled {
                ts_ms: ack_ts_ms,
                side,
                token_id,
                price: fill.filled_price,
                size: fill.filled_size,
                latency_ms,
            },
        ),
        (CommandView::EnterTaker { .. }, Err(reason)) => Some(
            LogEventView::EntryRejected { ts_ms: ack_ts_ms, reason },
        ),
        (CommandView::ExitTaker { side, .. }, Ok(fill)) => Some(
            LogEventView::ExitFilled {
                ts_ms: ack_ts_ms,
                side,
                price: fill.filled_price,
                size: fill.filled_size,
                latency_ms,
            },
        ),
        _ => None,
    }
}

/// The view of an outcome.
pub open spec fn outcome_view(outcome: Result<FillResult, String>) -> Result<FillView, Seq<char>> {
    match outcome {
        Ok(fill) => Ok(fill@),
        Err(e) => Err(e@),
    }
}

/// The event that reports an outcome.
pub fn report(
    command: &ExecutionCommand,
    outcome: &Result<FillResult, String>,
    sent_ts_ms: i64,
    ack_ts_ms: i64,
) -> (r: Option<ExecutionEvent>)
    ensures
        outcome_event(command@, outcome_view(*outcome), sent_ts_ms, ack_ts_ms) == match r {
            Some(e) => Some(e@),
            None => None,
        },
{
    match command {
        ExecutionCommand::EnterTaker { market_slug, token_id, side, notional, signal, .. } => {
            match outcome {
                Ok(fill) => Some(
                    ExecutionEvent::EntryFilled {
                        sent_ts_ms,
                        ack_ts_ms,
                        market_slug: market_slug.clone(),
                        token_id: token_id.clone(),
                        side: *side,
                        filled_price: fill.filled_price,
                        filled_size: fill.filled_size,
                        notional: *notional,
                        order_id: fill.order_id.clone(),
                        signal: *signal,
                    },
                ),
                Err(e) => Some(
                    ExecutionEvent::EntryRejected { ts_ms: ack_ts_ms, reason: e.clone() },
                ),
            }
        },
        ExecutionCommand::ExitTaker { market_slug, token_id, side, reason, .. } => {
            match outcome {
                Ok(fill) => Some(
                    ExecutionEvent::ExitFilled {
                        sent_ts_ms,
                        ack_ts_ms,
                        market_slug: market_slug.clone(),
                        token_id: token_id.clone(),
                        side: *side,
                        filled_price: fill.filled_price,
                        filled_size: fill.filled_size,
                        reason: reason.clone(),
                        order_id: fill.order_id.clone(),
                    },
                ),
                Err(e) => Some(ExecutionEvent::ExitRejected { ts_ms: ack_ts_ms, reason: e.clone() }),
            }
        },
        ExecutionCommand::BuySecondLeg {
            market_slug,
            opposite_token_id,
            opposite_side,
            reason,
            ..
        } => {
            match outcome {
                Ok(fill) => Some(
                    ExecutionEvent::SecondLegFilled {
                        ts_ms: ack_ts_ms,
                        market_slug: market_slug.clone(),
                        opposite_token_id: opposite_token_id.clone(),
                        opposite_side: *opposite_side,
                        filled_price: fill.filled_price,
                        filled_size: fill.filled_size,
                        reason: reason.clone(),
                    },
                ),
                Err(e) => Some(
                    ExecutionEvent::SecondLegRejected { ts_ms: ack_ts_ms, reason: e.clone() },
                ),
            }
        },
        ExecutionCommand::PostMakerBid { .. } => None,
        ExecutionCommand::CancelAll { .. } => None,
        ExecutionCommand::Reconcile { .. } => None,
    }
}

/// What the trade log records of an outcome.
pub fn record(
    command: &ExecutionCommand,
    outcome: &Result<FillResult, String>,
    ack_ts_ms: i64,
    latency_ms: i64,
) -> (r: Option<LogEvent>)
    ensures
        outcome_log(command@, outcome_view(*outcome), ack_ts_ms, latency_ms) == match r {
            Some(e) => Some(e@),
            None => None,
        },
{
    match command {
        ExecutionCommand::EnterTaker { token_id, side, .. } => match outcome {
            Ok(fill) => Some(
                LogEvent::EntryFilled {
                    ts_ms: ack_ts_ms,
                    side: *side,
                    token_id: token_id.clone(),
                    price: fill.filled_price,
                    size: fill.filled_size,
                    latency_ms,
                },
            ),
            Err(e) => Some(LogEvent::EntryRejected { ts_ms: ack_ts_ms, reason: e.clone() }),
        },
        ExecutionCommand::ExitTaker { side, .. } => match outcome {
            Ok(fill) => Some(
                LogEvent::ExitFilled {
                    ts_ms: ack_ts_ms,
                    side: *side,
                    price: fill.filled_price,
                    size: fill.filled_size,
                    latency_ms,
                },
            ),
            Err(_) => None,
        },
        _ => None,
    }
}

/// Whether the failure of a resting bid deserves a warning: not where the bid
/// would have crossed the book.
pub fn worth_a_warning(error: &str) -> (r: bool)
    ensures
        r == (!occurs(error@, "would cross"@) && !occurs(error@, "post-only"@)),
{
    !contains(error, "would cross") && !contains(error, "post-only")
}

/// The event that reports a cancel: how many orders it cancelled.
pub fn cancel_report(ts_ms: i64, count: usize) -> (r: ExecutionEvent)
    ensures
        r@ == (ExecutionEventView::CancelAck { ts_ms, count }),
{
    ExecutionEvent::CancelAck { ts_ms, count }
}

/// Every order is answered by one event: a fill of the same market, token and
/// side where it was accepted, a rejection with the reason where it was not. A
/// resting bid is answered by none.
pub proof fn orders_are_answered(
    c: CommandView,
    outcome: Result<FillView, Seq<char>>,
    sent_ts_ms: i64,
    ack_ts_ms: i64,
)
    ensures
        outcome_event(c, outcome, sent_ts_ms, ack_ts_ms) is Some <==> c is EnterTaker
            || c is ExitTaker || c is BuySecondLeg,
        c matches CommandView::EnterTaker { market_slug: m, token_id: t, side: s, .. } ==> match (
            outcome,
            outcome_event(c, outcome, sent_ts_ms, ack_ts_ms),
        ) {
            (
                Ok(f),
                Some(
                    ExecutionEventView::EntryFilled {
                        market_slug,
                        token_id,
                        side,
                        filled_size,
                        ..
                    },
                ),
            ) => market_slug == m && token_id == t && side == s && filled_size == f.filled_size,
            (Err(e), Some(ExecutionEventView::EntryRejected { reason, .. })) => reason == e,
            _ => false,
        },
{
}

// ── Reconciliation ──────────────────────────────────────────────

/// The largest number of trades that a total is taken over.
pub const MAX_TRADES: usize = 1_000_000_000;

/// What a trade adds to the matched total: its size, where it names a maker.
pub open spec fn trade_size(trade: JsonView) -> int {
    match (trade.field_amount("size"@), trade.field_text("maker_address"@)) {
        (Some(size), Some(maker)) => if maker.len() > 0 {
            size as int
        } else {
            0
        },
        _ => 0,
    }
}

/// The matched total of a run of trades.
pub open spec fn trades_total(trades: Seq<JsonView>) -> int
    decreases trades.len(),
{
    if trades.len() == 0 {
        0
    } else {
        trades_total(trades.drop_last()) + trade_size(trades.last())
    }
}

/// The matched total of a list of trades, of the first billion at most.
pub fn matched_total(trades: &Vec<Json>) -> (r: i128)
    ensures
        trades@.len() <= MAX_TRADES ==> r == trades_total(views(trades@)),
        trades@.len() > MAX_TRADES ==> r == trades_total(views(trades@).take(MAX_TRADES as int)),
{
    let mut total: i128 = 0;
    let mut i: usize = 0;
    let ghost all = views(trades@);
    assert(all.take(0) =~= Seq::empty());
    while i < trades.len() && i < MAX_TRADES
        invariant
            i <= trades@.len(),
            i <= MAX_TRADES,
            all == views(trades@),
            total == trades_total(all.take(i as int)),
            -(i * MAX_AMOUNT) <= total <= i * MAX_AMOUNT,
        decreases trades@.len() - i,
    {
        let trade: &Json = &trades[i];
        let size: Option<i64> = trade.get_amount("size");
        let maker: Option<&str> = trade.get_str("maker_address");
        let named: bool = match maker {
            Some(m) => !m.is_empty(),
            None => false,
        };
        let ghost before = total;
        if let Some(x) = size {
            if named {
                total = total + x as i128;
            }
        }
        i = i + 1;
        assert(all.take(i as int).drop_last() =~= all.take(i as int - 1));
        assert(all.take(i as int).last() == trade@);
        assert(total == before + trade_size(trade@));
    }
    assert(all.take(all.len() as int) =~= all);
    total
}

/// The trades that an answer of the data service holds: those of a list, none
/// where the answer is something else.
pub open spec fn answered_trades(body: Seq<char>) -> Seq<JsonView> {
    match json_of(body) {
        Ok(v) => match v.items() {
            Some(items) => items,
            None => Seq::empty(),
        },
        Err(_) => Seq::empty(),
    }
}

/// The matched total in an answer of the data service.
pub fn answer_total(body: &str) -> (r: i128)
    ensures
        answered_trades(body@).len() <= MAX_TRADES ==> r == trades_total(answered_trades(body@)),
        answered_trades(body@).len() > MAX_TRADES ==> r == trades_total(
            answered_trades(body@).take(MAX_TRADES as int),
        ),
{
    match parse_json(body) {
        Ok(v) => match v.as_array() {
            Some(items) => matched_total(items),
            None => 0,
        },
        Err(_) => 0,
    }
}

/// The address of a token's recent trades.
pub fn trades_url(token_id: &str) -> (r: String)
    ensures
        r@ == "https://data-api.polymarket.com/trades?asset_id="@ + token_id@ + "&limit=100"@,
{
    crate::text::join3("https://data-api.polymarket.com/trades?asset_id=", token_id, "&limit=100")
}

/// The result of a reconciliation.
pub fn reconciliation(up_total: i128, down_total: i128, ts_ms: i64) -> (r: ReconciliationResult)
    ensures
        r == (ReconciliationResult {
            open_order_count: 0,
            up_size_matched: up_total,
            down_size_matched: down_total,
            ts_ms,
        }),
{
    ReconciliationResult {
        open_order_count: 0,
        up_size_matched: up_total,
        down_size_matched: down_total,
        ts_ms,
    }
}

// ── What orders amount to ───────────────────────────────────────

/// The shares of a purchase: whole ones, as many as the base times the ask holds,
/// and one where it holds less.
pub proof fn purchases_hold_base_times_ask(share_base: int, ask_price: int)
    ensures
        ({
            let n = fok_buy_shares(share_base, ask_price);
            &&& n % 1_000_000 == 0
            &&& n >= 1_000_000
            &&& n > 1_000_000 ==> n * 1_000_000 <= share_base * ask_price
            &&& share_base * ask_price < (n + 1_000_000) * 1_000_000
        }),
{
    purchases_are_whole_shares(share_base, ask_price);
    let x = share_base * ask_price;
    let q = x / 1_000_000_000_000;
    assert(MICRO * MICRO == 1_000_000_000_000);
    vstd::arithmetic::div_mod::lemma_fundamental_div_mod(x, 1_000_000_000_000);
    assert(x == 1_000_000_000_000 * q + x % 1_000_000_000_000);
}

/// A command to enter or to buy the second leg becomes a purchase of its own
/// token, at once or not at all, with a limit of ninety-nine cents, and is told
/// at the command's price.
pub proof fn purchases_are_of_their_token(c: CommandView, share_base: int)
    requires
        c is EnterTaker || c is BuySecondLeg,
        amount_ok(share_base),
        order_in_range(c),
    ensures
        planned_order(c, share_base) is Ok,
        ({
            let p = planned_order(c, share_base)->Ok_0;
            let ask = if c is EnterTaker {
                c->EnterTaker_max_price
            } else {
                c->BuySecondLeg_ask_price
            };
            &&& p.order.token_id == if c is EnterTaker {
                c->EnterTaker_token_id
            } else {
                c->BuySecondLeg_opposite_token_id
            }
            &&& p.order.side == OrderSide::Buy
            &&& p.order.order_type == OrderType::FOK
            &&& p.order.limit == Some(990_000i128)
            &&& p.order.price == Some("0.99"@)
            &&& !p.order.post_only
            &&& p.price == ask
            &&& p.size == p.order.amount
            &&& p.order.size == fixed_text(p.size as int, 0)
            &&& p.size % 1_000_000 == 0
            &&& p.size >= 1_000_000
            &&& p.size > 1_000_000 ==> p.size * 1_000_000 <= share_base * ask
            &&& share_base * ask < (p.size + 1_000_000) * 1_000_000
        }),
{
    let ask = if c is EnterTaker {
        c->EnterTaker_max_price
    } else {
        c->BuySecondLeg_ask_price
    };
    purchases_hold_base_times_ask(share_base, ask as int);
    crate::fixed::lemma_product_bounds(
        share_base,
        ask as int,
        MAX_AMOUNT as int,
        MAX_AMOUNT as int,
    );
    let n = fok_buy_shares(share_base, ask as int);
    assert(n * 1_000_000 <= 9_000_000_000_000_000_000_000_000_000_000_000_000 || n == 1_000_000);
    assert(n as i128 == n);
}

/// A command to exit becomes a sale of its own token, at once or not at all and
/// without a limit: its shares cut to hundredths, none where that leaves nothing.
pub proof fn sales_are_of_their_token(c: CommandView, share_base: int)
    requires
        c is ExitTaker,
    ensures
        planned_order(c, share_base) is Ok <==> c->ExitTaker_shares >= 10_000,
        match planned_order(c, share_base) {
            Ok(p) => {
                &&& p.order.token_id == c->ExitTaker_token_id
                &&& p.order.side == OrderSide::Sell
                &&& p.order.order_type == OrderType::FOK
                &&& p.order.limit is None
                &&& p.order.price is None
                &&& !p.order.post_only
                &&& p.price == c->ExitTaker_min_price
                &&& p.size == p.order.amount
                &&& p.order.size == fixed_text(p.size as int, 2)
                &&& p.size % 10_000 == 0
                &&& c->ExitTaker_shares - 10_000 < p.size <= c->ExitTaker_shares
            },
            Err(e) => e == "shares rounds to 0"@,
        },
{
    let x = c->ExitTaker_shares as int;
    lemma_hundredths(x);
    assert(hundredths(x) % 10_000 == 0);
}

/// A command to bid becomes a resting purchase of its own token at its own price:
/// its size cut to hundredths, none where that leaves nothing. Nothing of it is
/// told as filled.
pub proof fn bids_are_of_their_token(c: CommandView, share_base: int)
    requires
        c is PostMakerBid,
    ensures
        planned_order(c, share_base) is Ok <==> c->PostMakerBid_size >= 10_000,
        match planned_order(c, share_base) {
            Ok(p) => {
                &&& p.order.token_id == c->PostMakerBid_token_id
                &&& p.order.side == OrderSide::Buy
                &&& p.order.order_type == OrderType::GTC
                &&& p.order.limit == Some(c->PostMakerBid_price)
                &&& p.order.price == Some(fixed_text(c->PostMakerBid_price as int, 2))
                &&& p.order.post_only == c->PostMakerBid_post_only
                &&& p.price == c->PostMakerBid_price
                &&& p.size == 0
                &&& p.order.size == fixed_text(p.order.amount as int, 2)
                &&& p.order.amount % 10_000 == 0
                &&& c->PostMakerBid_size - 10_000 < p.order.amount <= c->PostMakerBid_size
            },
            Err(e) => e == "size rounds to 0"@,
        },
{
    let x = c->PostMakerBid_size as int;
    lemma_hundredths(x);
    assert(hundredths(x) % 10_000 == 0);
}

/// Commands to cancel and to reconcile are no orders.
pub proof fn other_commands_are_no_orders(c: CommandView, share_base: int, sent_ts_ms: int)
    requires
        c is CancelAll || c is Reconcile,
    ensures
        planned_order(c, share_base) == Err::<OrderPlanView, Seq<char>>("not an order"@),
        dry_fill(c, share_base, sent_ts_ms) is None,
{
}

/// A fill is told with the plan's price and size under the venue's own order
/// identifier; a failure with its own reason.
pub proof fn answers_settle_the_plan(p: OrderPlanView, answer: Result<OrderResultView, Seq<char>>)
    ensures
        match answer {
            Err(e) => settled(p, answer) == Err::<FillView, Seq<char>>(e),
            Ok(o) => match acceptance(o) {
                Ok(id) => settled(p, answer) is Ok && settled(p, answer)->Ok_0.order_id == id
                    && settled(p, answer)->Ok_0.filled_price == p.price && settled(
                    p,
                    answer,
                )->Ok_0.filled_size == p.size,
                Err(e) => settled(p, answer) == Err::<FillView, Seq<char>>(e),
            },
        },
{
}

/// A dry run fills an entry at its price for its value, a second leg at its ask
/// for whole shares of the base, and a sale for its shares five per cent above its
/// floor; a bid rests with nothing filled.
pub proof fn dry_runs_fill_as_asked(c: CommandView, share_base: int, sent_ts_ms: int)
    requires
        in_range(c),
        amount_ok(share_base),
    ensures
        dry_fill(c, share_base, sent_ts_ms) is Some <==> !(c is CancelAll) && !(c is Reconcile),
        ({
            let f = dry_fill(c, share_base, sent_ts_ms)->0;
            &&& c is EnterTaker ==> f.order_id == "dry-"@ + int_text(sent_ts_ms) && f.filled_price
                == c->EnterTaker_max_price
            &&& c is EnterTaker && c->EnterTaker_max_price > 0 ==> -c->EnterTaker_max_price <= 2 * (
            f.filled_size * c->EnterTaker_max_price) - 2 * (c->EnterTaker_notional * 1_000_000)
                <= c->EnterTaker_max_price
            &&& c is ExitTaker ==> f.order_id == "dry-sell-"@ + int_text(sent_ts_ms)
                && f.filled_size == c->ExitTaker_shares && -50 <= f.filled_price * 100
                - c->ExitTaker_min_price * 105 <= 50
            &&& c is BuySecondLeg ==> f.order_id == "dry-leg2-"@ + int_text(sent_ts_ms)
                && f.filled_price == c->BuySecondLeg_ask_price && f.filled_size % 1_000_000 == 0
                && f.filled_size * 1_000_000 <= share_base * c->BuySecondLeg_ask_price < (
            f.filled_size + 1_000_000) * 1_000_000
            &&& c is PostMakerBid ==> f.order_id == "dry-maker-"@ + int_text(sent_ts_ms)
                && f.filled_price == c->PostMakerBid_price && f.filled_size == 0
        }),
{
    if c is EnterTaker {
        let (n, d) = (c->EnterTaker_notional * 1_000_000, c->EnterTaker_max_price as int);
        crate::fixed::lemma_quotient_bounds(n, d);
        if d > 0 {
            crate::fixed::rounding_is_nearest(n, d);
        }
    }
    if c is ExitTaker {
        let p = c->ExitTaker_min_price * 105;
        crate::fixed::rounding_is_nearest(p, 100);
    }
    if c is BuySecondLeg {
        let x = share_base * c->BuySecondLeg_ask_price;
        crate::fixed::lemma_product_bounds(
            share_base,
            c->BuySecondLeg_ask_price as int,
            MAX_AMOUNT as int,
            MAX_AMOUNT as int,
        );
        assert(MICRO * MICRO == 1_000_000_000_000);
        let q = x / 1_000_000_000_000;
        vstd::arithmetic::div_mod::lemma_fundamental_div_mod(x, 1_000_000_000_000);
        assert(-9_000_000_000_000_000_000_000_001 <= q <= 9_000_000_000_000_000_000_000_000);
        assert(whole_shares(share_base, c->BuySecondLeg_ask_price as int) == q * 1_000_000);
    }
}

/// An order's report is of the command's own market, token and side, with the
/// fill's own price and size, and the times in their places.
pub proof fn reports_tell_the_order(
    c: CommandView,
    outcome: Result<FillView, Seq<char>>,
    sent_ts_ms: i64,
    ack_ts_ms: i64,
)
    ensures
        ({
            let r = outcome_event(c, outcome, sent_ts_ms, ack_ts_ms);
            match (c, outcome) {
                (
                    CommandView::EnterTaker { market_slug, token_id, side, notional, signal, .. },
                    Ok(f),
                ) => r == Some(
                    ExecutionEventView::EntryFilled {
                        sent_ts_ms,
                        ack_ts_ms,
                        market_slug,
                        token_id,
                        side,
                        filled_price: f.filled_price,
                        filled_size: f.filled_size,
                        notional,
                        order_id: f.order_id,
                        signal,
                    },
                ),
                (CommandView::ExitTaker { market_slug, token_id, side, reason, .. }, Ok(f)) => r
                    == Some(
                    ExecutionEventView::ExitFilled {
                        sent_ts_ms,
                        ack_ts_ms,
                        market_slug,
                        token_id,
                        side,
                        filled_price: f.filled_price,
                        filled_size: f.filled_size,
                        reason,
                        order_id: f.order_id,
                    },
                ),
                (
                    CommandView::BuySecondLeg {
                        market_slug,
                        opposite_token_id,
                        opposite_side,
                        reason,
                        ..
                    },
                    Ok(f),
                ) => r == Some(
                    ExecutionEventView::SecondLegFilled {
                        ts_ms: ack_ts_ms,
                        market_slug,
                        opposite_token_id,
                        opposite_side,
                        filled_price: f.filled_price,
                        filled_size: f.filled_size,
                        reason,
                    },
                ),
                (CommandView::EnterTaker { .. }, Err(reason)) => r == Some(
                    ExecutionEventView::EntryRejected { ts_ms: ack_ts_ms, reason },
                ),
                (CommandView::ExitTaker { .. }, Err(reason)) => r == Some(
                    ExecutionEventView::ExitRejected { ts_ms: ack_ts_ms, reason },
                ),
                (CommandView::BuySecondLeg { .. }, Err(reason)) => r == Some(
                    ExecutionEventView::SecondLegRejected { ts_ms: ack_ts_ms, reason },
                ),
                _ => r is None,
            }
        }),
{
}

/// The trade log agrees with the report: an entry's fill and rejection and an
/// exit's fill stand in both, at the same time and with the same amounts.
pub proof fn the_log_agrees_with_the_report(
    c: CommandView,
    outcome: Result<FillView, Seq<char>>,
    sent_ts_ms: i64,
    ack_ts_ms: i64,
    latency_ms: i64,
)
    ensures
        match (
            outcome_event(c, outcome, sent_ts_ms, ack_ts_ms),
            outcome_log(c, outcome, ack_ts_ms, latency_ms),
        ) {
            (
                Some(
                    ExecutionEventView::EntryFilled {
                        token_id,
                        side,
                        filled_price,
                        filled_size,
                        ..
                    },
                ),
                log,
            ) => log == Some(
                LogEventView::EntryFilled {
                    ts_ms: ack_ts_ms,
                    side,
                    token_id,
                    price: filled_price,
                    size: filled_size,
                    latency_ms,
                },
            ),
            (Some(ExecutionEventView::EntryRejected { ts_ms, reason }), log) => log == Some(
                LogEventView::EntryRejected { ts_ms, reason },
            ),
            (
                Some(ExecutionEventView::ExitFilled { side, filled_price, filled_size, .. }),
                log,
            ) => log == Some(
                LogEventView::ExitFilled {
                    ts_ms: ack_ts_ms,
                    side,
                    price: filled_price,
                    size: filled_size,
                    latency_ms,
                },
            ),
            (_, log) => log is None,
        },
{
}

/// A further trade adds its size to the matched total where it names a maker, and
/// nothing else.
pub proof fn trades_with_a_maker_count(trades: Seq<JsonView>, trade: JsonView)
    ensures
        trades_total(Seq::empty()) == 0,
        trades_total(trades.push(trade)) == trades_total(trades) + match (
            trade.field_amount("size"@),
            trade.field_text("maker_address"@),
        ) {
            (Some(size), Some(maker)) => if maker.len() == 0 {
                0
            } else {
                size as int
            },
            _ => 0,
        },
{
    assert(trades.push(trade).drop_last() =~= trades);
}

/// A key loses its prefix once, and keeps every digit behind it.
pub proof fn keys_keep_their_digits(digits: Seq<char>)
    ensures
        key_digits(seq!['0', 'x'] + digits) == digits,
        digits.len() < 2 || digits[0] != '0' || digits[1] != 'x' ==> key_digits(digits) == digits,
{
    assert((seq!['0', 'x'] + digits).skip(2) =~= digits);
}

} // verus!
