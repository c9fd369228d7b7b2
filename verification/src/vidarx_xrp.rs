//! The accumulator for five-minute windows that buys the expensive side.
//!
//! Ten rounds, one every twenty-five seconds from ten seconds into the window:
//! five shares of the expensive side at its ask, held to resolution.

use vstd::prelude::*;

use crate::clock::{elapsed, elapsed_s};
use crate::text::{join, nat_string, nat_text};
use crate::types_v2::{
    command_views, CommandView, ExecutionCommand, MarketDescriptor, MarketView, PolymarketTop, Side,
};
use crate::vidarx::{due_rounds, quiet, rounds_due, Rounds, RoundsStep, ROUND_SIZE, TOTAL_ROUNDS};

verus! {

/// The expensive side and its ask, where both asks are known; Up where they are
/// equal.
pub open spec fn expensive(top: PolymarketTop) -> Option<(Side, i64)> {
    match (top.up_ask, top.down_ask) {
        (Some(up), Some(down)) => if up >= down {
            Some((Side::Up, up))
        } else {
            Some((Side::Down, down))
        },
        _ => None,
    }
}

/// The expensive side and its ask.
pub fn expensive_side(top: &PolymarketTop) -> (r: Option<(Side, i64)>)
    ensures
        r == expensive(*top),
{
    match (top.up_ask, top.down_ask) {
        (Some(up), Some(down)) => if up >= down {
            Some((Side::Up, up))
        } else {
            Some((Side::Down, down))
        },
        _ => None,
    }
}

/// The order of a round: five shares of a side at its ask.
pub open spec fn round_order(m: MarketView, side: Side, ask: i64, round: int) -> CommandView {
    CommandView::PostMakerBid {
        market_slug: m.slug,
        token_id: m.token(side),
        side,
        price: ask as i128,
        size: ROUND_SIZE,
        post_only: false,
        ladder_key: "exp:fok:r"@ + nat_text(round as nat),
        was_cheap: false,
    }
}

/// A tick: the order of the next round, where one is due.
pub open spec fn ticked(s: Rounds, now_ms: i64, m: MarketView, top: PolymarketTop) -> RoundsStep {
    let e = elapsed(now_ms as int, m.window_start_ts as int);
    match expensive(top) {
        Some((side, ask)) if m.up_token_id.len() > 0 && s.rounds_posted < rounds_due(e) => {
            RoundsStep {
                state: Rounds { rounds_posted: (s.rounds_posted + 1) as u32, ..s },
                commands: seq![round_order(m, side, ask, s.rounds_posted + 1)],
            }
        },
        _ => quiet(s),
    }
}

/// A tick.
pub fn on_tick(
    state: &mut Rounds,
    now_ms: i64,
    market: &MarketDescriptor,
    top: &PolymarketTop,
) -> (r: Vec<ExecutionCommand>)
    requires
        old(state).wf(),
    ensures
        *final(state) == ticked(*old(state), now_ms, market@, *top).state,
        command_views(r@) == ticked(*old(state), now_ms, market@, *top).commands,
        final(state).wf(),
{
    let mut out: Vec<ExecutionCommand> = Vec::new();
    assert(command_views(out@) =~= Seq::empty());
    if market.up_token_id.as_str().is_empty() {
        return out;
    }
    let due: u32 = due_rounds(elapsed_s(now_ms, market.window_start_ts));
    if state.rounds_posted >= due {
        return out;
    }
    if let Some((side, ask)) = expensive_side(top) {
        let round: u32 = state.rounds_posted + 1;
        let number: String = nat_string(round as u128);
        out.push(
            ExecutionCommand::PostMakerBid {
                market_slug: market.slug.clone(),
                token_id: market.token(side),
                side,
                price: ask as i128,
                size: ROUND_SIZE,
                post_only: false,
                ladder_key: join("exp:fok:r", number.as_str()),
                was_cheap: false,
            },
        );
        state.rounds_posted = round;
        assert(command_views(out@) =~= seq![round_order(market@, side, ask, round as int)]);
    }
    out
}

/// A tick places one order at most, for the side with the higher ask, and a
/// window sees ten rounds at most.
pub proof fn only_the_expensive_side_is_bought(
    s: Rounds,
    now_ms: i64,
    m: MarketView,
    top: PolymarketTop,
)
    requires
        s.wf(),
    ensures
        ({
            let step = ticked(s, now_ms, m, top);
            &&& step.commands.len() <= 1
            &&& step.state.rounds_posted == s.rounds_posted + step.commands.len()
            &&& step.state.rounds_posted <= TOTAL_ROUNDS
            &&& step.commands.len() == 1 ==> match step.commands[0] {
                CommandView::PostMakerBid { side, price, size, .. } => size == ROUND_SIZE
                    && top.up_ask is Some && top.down_ask is Some && (if side == Side::Up {
                    price == top.up_ask->0 && top.up_ask->0 >= top.down_ask->0
                } else {
                    price == top.down_ask->0 && top.down_ask->0 > top.up_ask->0
                }),
                _ => false,
            }
        }),
{
}

/// An order comes exactly where a round is due, the market is known and both asks are
/// known: it takes five shares of the token of the dearer side at that side's ask, not
/// post-only, and counts the round; Up where both ask the same.
pub proof fn due_rounds_buy_the_dearer_token(s: Rounds, now_ms: i64, m: MarketView, top: PolymarketTop)
    requires
        s.wf(),
    ensures
        ({
            let e = elapsed(now_ms as int, m.window_start_ts as int);
            let step = ticked(s, now_ms, m, top);
            let due = m.up_token_id.len() > 0 && top.up_ask is Some && top.down_ask is Some
                && s.rounds_posted < 10 && e >= 10 + 25 * s.rounds_posted;
            let up = top.up_ask->0 >= top.down_ask->0;
            &&& !due ==> step.commands.len() == 0 && step.state == s
            &&& due ==> {
                &&& step.commands.len() == 1
                &&& step.state == Rounds { rounds_posted: (s.rounds_posted + 1) as u32, ..s }
                &&& (match step.commands[0] {
                    CommandView::PostMakerBid {
                        market_slug,
                        token_id,
                        side,
                        price,
                        size,
                        post_only,
                        was_cheap,
                        ..
                    } => {
                        &&& market_slug == m.slug
                        &&& side == if up {
                            Side::Up
                        } else {
                            Side::Down
                        }
                        &&& token_id == if up {
                            m.up_token_id
                        } else {
                            m.down_token_id
                        }
                        &&& price == if up {
                            top.up_ask->0
                        } else {
                            top.down_ask->0
                        }
                        &&& size == 5_000_000
                        &&& !post_only
                        &&& !was_cheap
                    },
                    _ => false,
                })
            }
        }),
{
}

/// The order of a round carries its number.
pub proof fn rounds_are_numbered(s: Rounds, now_ms: i64, m: MarketView, top: PolymarketTop)
    requires
        s.wf(),
        ticked(s, now_ms, m, top).commands.len() > 0,
    ensures
        match ticked(s, now_ms, m, top).commands[0] {
            CommandView::PostMakerBid { ladder_key, .. } => ladder_key == "exp:fok:r"@ + nat_text(
                (s.rounds_posted + 1) as nat,
            ),
            _ => false,
        },
{
}

} // verus!
