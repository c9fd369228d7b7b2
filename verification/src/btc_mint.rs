//! The mint-and-sell bot.
//!
//! Once a window it mints a hundred pairs for a dollar each. On a signal it sells
//! twenty shares of the side that is about to fall, and after a pause twenty of
//! the other; five times a window at most.

use vstd::prelude::*;

use crate::clock::{elapsed, elapsed_s, signed_of, to_signed};
use crate::json::{json_of, parse_json, text_or, Json, JsonView};
use crate::state::SharedState;
use crate::types_v2::{opposite, MarketDescriptor, MarketView, Side, StrategyState};

verus! {

/// The dollars that a window mints for, and the pairs that they give.
pub const MINT_AMOUNT_USDC: i64 = 100_000_000;

/// The shares that a snipe sells of each side.
pub const SHARES_PER_SNIPE: i64 = 20_000_000;

/// The most snipes of a window.
pub const MAX_SNIPES_PER_WINDOW: u32 = 5;

/// The pause after a snipe, in milliseconds.
pub const SELL_COOLDOWN_MS: i64 = 1500;

/// The time between the two sales of a snipe, in milliseconds.
pub const REPRICE_WAIT_MS: u64 = 2000;

/// The bot's state in a window.
#[derive(Debug, Clone, Copy)]
pub struct MintSell {
    pub last_window_ts: i64,
    pub snipes_this_window: u32,
    pub inventory_up: i64,
    pub inventory_dn: i64,
    pub window_locked_side: Option<Side>,
    pub minted_this_window: bool,
    pub last_sell_ts: i64,
}

/// What came of a mint.
pub enum MintOutcome {
    Minted { elapsed_ms: i64 },
    Failed { error: String },
    Unreadable,
}

pub ghost enum MintView {
    Minted { elapsed_ms: i64 },
    Failed { error: Seq<char> },
    Unreadable,
}

impl View for MintOutcome {
    type V = MintView;

    open spec fn view(&self) -> MintView {
        match self {
            MintOutcome::Minted { elapsed_ms } => MintView::Minted { elapsed_ms: *elapsed_ms },
            MintOutcome::Failed { error } => MintView::Failed { error: error@ },
            MintOutcome::Unreadable => MintView::Unreadable,
        }
    }
}

/// What an answer says of a mint.
pub open spec fn mint_outcome(v: JsonView) -> MintView {
    if v.field("success"@) == Some(JsonView::Bool(true)) {
        MintView::Minted {
            elapsed_ms: match v.field_signed("elapsed_ms"@) {
                Some(n) => n,
                None => 0,
            },
        }
    } else {
        MintView::Failed { error: text_or(v.field_text("error"@), "unknown"@) }
    }
}

/// What an answer's value says of a mint.
pub fn read_mint(v: &Json) -> (r: MintOutcome)
    ensures
        r@ == mint_outcome(v@),
{
    let success: bool = match v.get("success") {
        Some(b) => match b.as_bool() {
            Some(x) => x,
            None => false,
        },
        None => false,
    };
    if success {
        let elapsed_ms: i64 = match v.get_i64("elapsed_ms") {
            Some(n) => n,
            None => 0,
        };
        MintOutcome::Minted { elapsed_ms }
    } else {
        MintOutcome::Failed { error: v.get_str_or("error", "unknown") }
    }
}

/// Reads the minter's answer.
pub fn parse_mint(text: &str) -> (r: MintOutcome)
    ensures
        r@ == match json_of(text@) {
            Ok(v) => mint_outcome(v),
            Err(_) => MintView::Unreadable,
        },
{
    match parse_json(text) {
        Ok(v) => read_mint(&v),
        Err(_) => MintOutcome::Unreadable,
    }
}

/// The two sales of a snipe, by token, in their order.
pub struct Snipe {
    pub first_token: String,
    pub second_token: String,
    pub first_side: Side,
    pub second_side: Side,
}

impl MintSell {
    /// What a window minted is in stock, less what its snipes sold; nothing
    /// before.
    pub open spec fn wf(self) -> bool {
        &&& self.snipes_this_window <= MAX_SNIPES_PER_WINDOW
        &&& self.inventory_up == self.inventory_dn
        &&& self.minted_this_window ==> self.inventory_up == MINT_AMOUNT_USDC
            - self.snipes_this_window * SHARES_PER_SNIPE
        &&& !self.minted_this_window ==> self.snipes_this_window == 0 && self.inventory_up == 0
    }

    /// Whether a market opens a window that is not this one.
    pub open spec fn is_new_window(self, window_start_ts: i64) -> bool {
        window_start_ts > 0 && window_start_ts != self.last_window_ts
    }

    /// The state at the start of a window.
    pub open spec fn in_window(self, window_start_ts: i64) -> MintSell {
        MintSell {
            last_window_ts: window_start_ts,
            snipes_this_window: 0,
            inventory_up: 0,
            inventory_dn: 0,
            window_locked_side: None,
            minted_this_window: false,
            last_sell_ts: self.last_sell_ts,
        }
    }

    /// Whether to mint: once a window, for a market that is known.
    pub open spec fn mints(self, m: MarketView) -> bool {
        !self.minted_this_window && m.window_start_ts > 0 && m.up_token_id.len() > 0
            && m.condition_id.len() > 0
    }

    /// The state after a mint.
    pub open spec fn stocked(self) -> MintSell {
        MintSell {
            inventory_up: MINT_AMOUNT_USDC,
            inventory_dn: MINT_AMOUNT_USDC,
            minted_this_window: true,
            ..self
        }
    }

    /// Whether a signal leads to a snipe: the stock is there, snipes and time are
    /// left, the pause is over, and the direction is that of the window.
    pub open spec fn snipes(self, m: MarketView, side: Side, now_ms: i64, cancel_at_s: u64) -> bool {
        &&& self.minted_this_window
        &&& self.snipes_this_window < MAX_SNIPES_PER_WINDOW
        &&& self.inventory_up >= SHARES_PER_SNIPE
        &&& self.inventory_dn >= SHARES_PER_SNIPE
        &&& now_ms - self.last_sell_ts >= SELL_COOLDOWN_MS
        &&& elapsed(now_ms as int, m.window_start_ts as int) <= signed_of(cancel_at_s)
        &&& self.window_locked_side matches Some(locked) ==> side == locked
    }

    pub fn new() -> (r: MintSell)
        ensures
            r == (MintSell {
                last_window_ts: 0,
                snipes_this_window: 0,
                inventory_up: 0,
                inventory_dn: 0,
                window_locked_side: None,
                minted_this_window: false,
                last_sell_ts: 0,
            }),
            r.wf(),
    {
        MintSell {
            last_window_ts: 0,
            snipes_this_window: 0,
            inventory_up: 0,
            inventory_dn: 0,
            window_locked_side: None,
            minted_this_window: false,
            last_sell_ts: 0,
        }
    }

    /// Enters a window where the market opened a new one.
    pub fn on_market(&mut self, shared: &mut SharedState, window_start_ts: i64)
        requires
            old(self).wf(),
        ensures
            old(self).is_new_window(window_start_ts) ==> *final(self) == old(self).in_window(
                window_start_ts,
            ) && *final(shared) == (SharedState {
                strategy_state: StrategyState::Idle,
                ..*old(shared)
            }),
            !old(self).is_new_window(window_start_ts) ==> *final(self) == *old(self)
                && *final(shared) == *old(shared),
            final(self).wf(),
    {
        if window_start_ts > 0 && window_start_ts != self.last_window_ts {
            *self = MintSell {
                last_window_ts: window_start_ts,
                snipes_this_window: 0,
                inventory_up: 0,
                inventory_dn: 0,
                window_locked_side: None,
                minted_this_window: false,
                last_sell_ts: self.last_sell_ts,
            };
            shared.set_state(StrategyState::Idle);
        }
    }

    /// Whether to mint.
    pub fn should_mint(&self, market: &MarketDescriptor) -> (r: bool)
        ensures
            r == self.mints(market@),
    {
        !self.minted_this_window && market.window_start_ts > 0
            && !market.up_token_id.as_str().is_empty() && !market.condition_id.as_str().is_empty()
    }

    /// Puts what was minted in stock.
    pub fn on_minted(&mut self)
        requires
            old(self).wf(),
            !old(self).minted_this_window,
        ensures
            *final(self) == old(self).stocked(),
            final(self).wf(),
    {
        self.inventory_up = MINT_AMOUNT_USDC;
        self.inventory_dn = MINT_AMOUNT_USDC;
        self.minted_this_window = true;
    }

    /// Takes the minter's answer.
    pub fn on_mint_answer(&mut self, outcome: &MintOutcome)
        requires
            old(self).wf(),
            !old(self).minted_this_window,
        ensures
            *final(self) == if outcome@ is Minted {
                old(self).stocked()
            } else {
                *old(self)
            },
            final(self).wf(),
    {
        match outcome {
            MintOutcome::Minted { .. } => {
                self.on_minted();
            },
            _ => {},
        }
    }

    /// Takes a signal. A snipe locks the window's direction and sells the side
    /// that is about to fall first.
    pub fn on_signal(
        &mut self,
        market: &MarketDescriptor,
        side: Side,
        now_ms: i64,
        cancel_at_s: u64,
    ) -> (r: Option<Snipe>)
        requires
            old(self).wf(),
        ensures
            match r {
                Some(s) => {
                    &&& old(self).snipes(market@, side, now_ms, cancel_at_s)
                    &&& s.first_side == opposite(side)
                    &&& s.second_side == side
                    &&& s.first_token@ == market@.token(opposite(side))
                    &&& s.second_token@ == market@.token(side)
                    &&& sells_the_falling_side_first(s, market@, side)
                    &&& *final(self) == (MintSell {
                        window_locked_side: Some(side),
                        ..*old(self)
                    })
                },
                None => !old(self).snipes(market@, side, now_ms, cancel_at_s) && *final(self)
                    == *old(self),
            },
            final(self).wf(),
    {
        if !self.minted_this_window || self.snipes_this_window >= MAX_SNIPES_PER_WINDOW {
            return None;
        }
        if self.inventory_up < SHARES_PER_SNIPE || self.inventory_dn < SHARES_PER_SNIPE {
            return None;
        }
        if now_ms as i128 - (self.last_sell_ts as i128) < SELL_COOLDOWN_MS as i128 {
            return None;
        }
        if elapsed_s(now_ms, market.window_start_ts) > to_signed(cancel_at_s) {
            return None;
        }
        if let Some(locked) = self.window_locked_side {
            if side != locked {
                return None;
            }
        }
        self.window_locked_side = Some(side);
        let first_side: Side = match side {
            Side::Up => Side::Down,
            Side::Down => Side::Up,
        };
        Some(
            Snipe {
                first_token: market.token(first_side),
                second_token: market.token(side),
                first_side,
                second_side: side,
            },
        )
    }

    /// Books a snipe whose first sale went through.
    pub fn on_sniped(&mut self, now_ms: i64)
        requires
            old(self).wf(),
            old(self).minted_this_window,
            old(self).snipes_this_window < MAX_SNIPES_PER_WINDOW,
        ensures
            final(self).inventory_up == old(self).inventory_up - 20_000_000,
            final(self).inventory_dn == old(self).inventory_dn - 20_000_000,
            *final(self) == (MintSell {
                inventory_up: (old(self).inventory_up - SHARES_PER_SNIPE) as i64,
                inventory_dn: (old(self).inventory_dn - SHARES_PER_SNIPE) as i64,
                snipes_this_window: (old(self).snipes_this_window + 1) as u32,
                last_sell_ts: now_ms,
                ..*old(self)
            }),
            final(self).wf(),
    {
        self.inventory_up = self.inventory_up - SHARES_PER_SNIPE;
        self.inventory_dn = self.inventory_dn - SHARES_PER_SNIPE;
        self.snipes_this_window = self.snipes_this_window + 1;
        self.last_sell_ts = now_ms;
    }
}

/// A snipe never sells what is not in stock, and five snipes use the stock up:
/// what is in stock is never negative, and gone after the last.
pub proof fn stock_lasts_for_the_snipes(s: MintSell)
    requires
        s.wf(),
    ensures
        0 <= s.inventory_up && 0 <= s.inventory_dn,
        s.minted_this_window && s.snipes_this_window < MAX_SNIPES_PER_WINDOW ==> s.inventory_up
            >= SHARES_PER_SNIPE && s.inventory_dn >= SHARES_PER_SNIPE,
        s.snipes_this_window == MAX_SNIPES_PER_WINDOW ==> s.inventory_up == 0 && s.inventory_dn
            == 0,
{
    let n = s.snipes_this_window as int;
    assert(n * SHARES_PER_SNIPE <= 5 * SHARES_PER_SNIPE) by (nonlinear_arith)
        requires
            n <= 5,
            SHARES_PER_SNIPE >= 0,
    ;
    if n < 5 {
        assert(n * SHARES_PER_SNIPE <= 4 * SHARES_PER_SNIPE) by (nonlinear_arith)
            requires
                n <= 4,
                SHARES_PER_SNIPE >= 0,
        ;
    }
}

/// A snipe sells what the signal says will fall first, and the other side after it.
pub open spec fn sells_the_falling_side_first(s: Snipe, m: MarketView, signal: Side) -> bool {
    match signal {
        Side::Up => s.first_side == Side::Down && s.second_side == Side::Up && s.first_token@
            == m.down_token_id && s.second_token@ == m.up_token_id,
        Side::Down => s.first_side == Side::Up && s.second_side == Side::Down && s.first_token@
            == m.up_token_id && s.second_token@ == m.down_token_id,
    }
}

/// A signal leads to a snipe exactly where the window was minted, fewer than five snipes
/// came before, twenty shares of each side are in stock, a second and a half passed since
/// the last sale, the time is not over, and the window is not locked to the other side.
pub proof fn snipes_need_every_condition(s: MintSell, m: MarketView, side: Side, now_ms: i64, cancel_at_s: u64)
    ensures
        s.snipes(m, side, now_ms, cancel_at_s) <==> {
            &&& s.minted_this_window
            &&& s.snipes_this_window < 5
            &&& s.inventory_up >= 20_000_000 && s.inventory_dn >= 20_000_000
            &&& now_ms >= s.last_sell_ts + 1_500
            &&& elapsed(now_ms as int, m.window_start_ts as int) <= signed_of(cancel_at_s)
            &&& s.window_locked_side is None || s.window_locked_side == Some(side)
        },
{
}

/// A window is minted for once, in a market that is known; the mint puts a hundred shares
/// of each side in stock, and a new window begins without stock, lock or snipes.
pub proof fn mints_stock_both_sides(s: MintSell, m: MarketView, window_start_ts: i64)
    ensures
        s.mints(m) <==> !s.minted_this_window && m.window_start_ts > 0 && m.up_token_id.len() > 0
            && m.condition_id.len() > 0,
        s.stocked() == (MintSell {
            inventory_up: 100_000_000,
            inventory_dn: 100_000_000,
            minted_this_window: true,
            ..s
        }),
        !s.stocked().mints(m),
        s.in_window(window_start_ts) == (MintSell {
            last_window_ts: window_start_ts,
            snipes_this_window: 0,
            inventory_up: 0,
            inventory_dn: 0,
            window_locked_side: None,
            minted_this_window: false,
            last_sell_ts: s.last_sell_ts,
        }),
{
}

/// A mint went through exactly where the answer says `true`; else the answer's error is
/// told, or that it is unknown.
pub proof fn only_a_clear_answer_mints(v: JsonView)
    ensures
        mint_outcome(v) is Minted <==> v.field("success"@) == Some(JsonView::Bool(true)),
        !(mint_outcome(v) is Unreadable),
        mint_outcome(v) matches MintView::Failed { error } ==> error == (match v.field_text("error"@) {
            Some(t) => t,
            None => "unknown"@,
        }),
        mint_outcome(v) matches MintView::Minted { elapsed_ms } ==> elapsed_ms == (match v.field_signed(
            "elapsed_ms"@,
        ) {
            Some(n) => n,
            None => 0,
        }),
{
}

/// A window is new where its start is a time and not that of the last one; it
/// starts without stock, snipes or a side, and remembers the last sale alone.
pub proof fn windows_start_without_stock(s: MintSell, window_start_ts: i64)
    ensures
        window_start_ts <= 0 ==> !s.is_new_window(window_start_ts),
        window_start_ts > 0 ==> (s.is_new_window(window_start_ts) <==> s.last_window_ts
            != window_start_ts),
        !s.in_window(window_start_ts).is_new_window(window_start_ts),
        ({
            let w = s.in_window(window_start_ts);
            &&& w.last_window_ts == window_start_ts
            &&& w.snipes_this_window == 0
            &&& w.inventory_up == 0
            &&& w.inventory_dn == 0
            &&& w.window_locked_side is None
            &&& !w.minted_this_window
            &&& w.last_sell_ts == s.last_sell_ts
        }),
{
}

} // verus!
