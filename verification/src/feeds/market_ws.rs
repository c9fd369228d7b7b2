//! The venue's feed of token prices.
//!
//! A message may state best prices in several ways; the tracker takes them all
//! into the latest prices of both tokens.

use vstd::prelude::*;
use vstd::string::StringExecFns;

use crate::book::{best_price, find_best};
use crate::fixed::opt_amount_ok;
use crate::json::{json_of, json_quoted, parse_json, quote, text_or, views, Json, JsonView};
use crate::text::same;
use crate::types_v2::{MarketDescriptor, PolymarketTop};

verus! {

/// The request for the prices of two tokens.
pub open spec fn subscription_text(up: Seq<char>, down: Seq<char>) -> Seq<char> {
    "{\"assets_ids\":["@ + json_quoted(up) + ","@ + json_quoted(down)
        + "],\"custom_feature_enabled\":true,\"type\":\"market\"}"@
}

/// Writes the request for the prices of two tokens.
pub fn subscription(up_token: &str, down_token: &str) -> (r: String)
    ensures
        r@ == subscription_text(up_token@, down_token@),
{
    let up: String = quote(up_token);
    let down: String = quote(down_token);
    let mut s: String = "{\"assets_ids\":[".to_owned();
    s.append(up.as_str());
    s.append(",");
    s.append(down.as_str());
    s.append("],\"custom_feature_enabled\":true,\"type\":\"market\"}");
    s
}

/// The latest prices of both tokens.
#[derive(Debug, Clone, Copy)]
pub struct TopTracker {
    pub up_ask: Option<i64>,
    pub up_bid: Option<i64>,
    pub dn_ask: Option<i64>,
    pub dn_bid: Option<i64>,
    pub events_received: u64,
}

/// Prices, and whether any was set.
pub ghost struct Progress {
    pub prices: TopTracker,
    pub updated: bool,
}

/// A new price in place of an old one, where there is a new one.
pub open spec fn renewed(old_price: Option<i64>, new_price: Option<i64>) -> Option<i64> {
    match new_price {
        Some(p) => Some(p),
        None => old_price,
    }
}

/// The prices after a statement about a token.
pub open spec fn applied(
    t: Progress,
    up: Seq<char>,
    dn: Seq<char>,
    asset: Seq<char>,
    ask: Option<i64>,
    bid: Option<i64>,
) -> Progress {
    let stated = ask is Some || bid is Some;
    if asset == up {
        Progress {
            prices: TopTracker {
                up_ask: renewed(t.prices.up_ask, ask),
                up_bid: renewed(t.prices.up_bid, bid),
                ..t.prices
            },
            updated: t.updated || stated,
        }
    } else if asset == dn {
        Progress {
            prices: TopTracker {
                dn_ask: renewed(t.prices.dn_ask, ask),
                dn_bid: renewed(t.prices.dn_bid, bid),
                ..t.prices
            },
            updated: t.updated || stated,
        }
    } else {
        t
    }
}

/// The prices after a statement with its best prices in it.
pub open spec fn applied_change(t: Progress, up: Seq<char>, dn: Seq<char>, change: JsonView) -> Progress {
    applied(
        t,
        up,
        dn,
        text_or(change.field_text("asset_id"@), ""@),
        change.field_amount("best_ask"@),
        change.field_amount("best_bid"@),
    )
}

/// The prices after a list of statements, in their order.
pub open spec fn applied_changes(t: Progress, up: Seq<char>, dn: Seq<char>, changes: Seq<JsonView>) -> Progress
    decreases changes.len(),
{
    if changes.len() == 0 {
        t
    } else {
        applied_change(
            applied_changes(t, up, dn, changes.drop_last()),
            up,
            dn,
            changes.last(),
        )
    }
}

/// The prices after the lists of a message: a list of price changes, and the
/// list of a best-price event.
pub open spec fn after_lists(t: Progress, up: Seq<char>, dn: Seq<char>, v: JsonView) -> Progress {
    let kind = text_or(v.field_text("event_type"@), ""@);
    let a = match v.field_items("price_changes"@) {
        Some(changes) => applied_changes(t, up, dn, changes),
        None => t,
    };
    match v.field_items("changes"@) {
        Some(changes) if kind == "best_bid_ask"@ => applied_changes(a, up, dn, changes),
        _ => a,
    }
}

/// The prices after a message that states best prices at its top.
pub open spec fn after_top_level(t: Progress, up: Seq<char>, dn: Seq<char>, v: JsonView) -> Progress {
    match v.field_text("asset_id"@) {
        Some(asset) => applied(
            t,
            up,
            dn,
            asset,
            v.field_amount("best_ask"@),
            v.field_amount("best_bid"@),
        ),
        None => t,
    }
}

/// The prices after a message with a book: its lowest ask and highest bid.
pub open spec fn after_book(t: Progress, up: Seq<char>, dn: Seq<char>, v: JsonView) -> Progress {
    match (v.field_items("asks"@), v.field_items("bids"@)) {
        (Some(asks), Some(bids)) => applied(
            t,
            up,
            dn,
            text_or(v.field_text("asset_id"@), ""@),
            best_price(asks, true),
            best_price(bids, false),
        ),
        _ => t,
    }
}

/// The prices after a message with a trade: its price stands for an ask that is
/// not known yet.
pub open spec fn after_trade(t: Progress, up: Seq<char>, dn: Seq<char>, v: JsonView) -> Progress {
    match (v.field_text("asset_id"@), v.field_amount("price"@)) {
        (Some(asset), Some(price)) => if asset == up && t.prices.up_ask is None {
            Progress { prices: TopTracker { up_ask: Some(price), ..t.prices }, updated: true }
        } else if asset == dn && t.prices.dn_ask is None {
            Progress { prices: TopTracker { dn_ask: Some(price), ..t.prices }, updated: true }
        } else {
            t
        },
        _ => t,
    }
}

/// The prices after a message: its lists first; where they set nothing, its top;
/// then its book; then its trade.
pub open spec fn after_message(p: TopTracker, up: Seq<char>, dn: Seq<char>, v: JsonView) -> Progress {
    let a = after_lists(Progress { prices: p, updated: false }, up, dn, v);
    let b = if a.updated {
        a
    } else {
        after_top_level(a, up, dn, v)
    };
    let c = if b.updated {
        b
    } else {
        after_book(b, up, dn, v)
    };
    if c.updated {
        c
    } else {
        after_trade(c, up, dn, v)
    }
}

/// Whether a message is the answer to a ping.
pub open spec fn is_pong(text: Seq<char>) -> bool {
    text == "PONG"@ || text == "pong"@
}

impl TopTracker {
    /// Every price that is present is within range.
    pub open spec fn wf(self) -> bool {
        &&& opt_amount_ok(self.up_ask)
        &&& opt_amount_ok(self.up_bid)
        &&& opt_amount_ok(self.dn_ask)
        &&& opt_amount_ok(self.dn_bid)
    }

    /// The prices as the bots read them.
    pub open spec fn top(self, recv_ts_ms: i64) -> PolymarketTop {
        PolymarketTop {
            recv_ts_ms,
            up_bid: self.up_bid,
            up_ask: self.up_ask,
            down_bid: self.dn_bid,
            down_ask: self.dn_ask,
        }
    }

    /// A tracker that knows no price.
    pub fn new() -> (r: TopTracker)
        ensures
            r == (TopTracker {
                up_ask: None,
                up_bid: None,
                dn_ask: None,
                dn_bid: None,
                events_received: 0,
            }),
            r.wf(),
    {
        TopTracker { up_ask: None, up_bid: None, dn_ask: None, dn_bid: None, events_received: 0 }
    }

    /// Forgets the prices, when the connection is lost.
    pub fn forget(&mut self)
        ensures
            *final(self) == (TopTracker {
                up_ask: None,
                up_bid: None,
                dn_ask: None,
                dn_bid: None,
                events_received: old(self).events_received,
            }),
            final(self).wf(),
    {
        self.up_ask = None;
        self.up_bid = None;
        self.dn_ask = None;
        self.dn_bid = None;
    }

    fn apply(
        &mut self,
        up: &str,
        dn: &str,
        asset: &str,
        ask: Option<i64>,
        bid: Option<i64>,
    ) -> (r: bool)
        requires
            old(self).wf(),
            opt_amount_ok(ask),
            opt_amount_ok(bid),
        ensures
            forall|updated: bool|
                (#[trigger] applied(
                    Progress { prices: *old(self), updated },
                    up@,
                    dn@,
                    asset@,
                    ask,
                    bid,
                )) == (Progress { prices: *final(self), updated: updated || r }),
            final(self).wf(),
    {
        let stated: bool = ask.is_some() || bid.is_some();
        if same(asset, up) {
            if ask.is_some() {
                self.up_ask = ask;
            }
            if bid.is_some() {
                self.up_bid = bid;
            }
            stated
        } else if same(asset, dn) {
            if ask.is_some() {
                self.dn_ask = ask;
            }
            if bid.is_some() {
                self.dn_bid = bid;
            }
            stated
        } else {
            false
        }
    }

    fn apply_changes(&mut self, up: &str, dn: &str, changes: &Vec<Json>, before: bool) -> (r: bool)
        requires
            old(self).wf(),
        ensures
            (Progress { prices: *final(self), updated: r }) == applied_changes(
                Progress { prices: *old(self), updated: before },
                up@,
                dn@,
                views(changes@),
            ),
            final(self).wf(),
    {
        let ghost all = views(changes@);
        let ghost start = Progress { prices: *self, updated: before };
        let mut updated: bool = before;
        let mut i: usize = 0;
        assert(all.take(0) =~= Seq::empty());
        while i < changes.len()
            invariant
                i <= changes@.len(),
                all == views(changes@),
                (Progress { prices: *self, updated }) == applied_changes(
                    start,
                    up@,
                    dn@,
                    all.take(i as int),
                ),
                self.wf(),
            decreases changes@.len() - i,
        {
            let ghost was = Progress { prices: *self, updated };
            let change: &Json = &changes[i];
            let asset: String = change.get_str_or("asset_id", "");
            let ask: Option<i64> = change.get_amount("best_ask");
            let bid: Option<i64> = change.get_amount("best_bid");
            let set: bool = self.apply(up, dn, asset.as_str(), ask, bid);
            updated = updated || set;
            i = i + 1;
            assert(all.take(i as int).drop_last() =~= all.take(i as int - 1));
            assert(all.take(i as int).last() == change@);
            assert((Progress { prices: *self, updated }) == applied_change(was, up@, dn@, change@));
        }
        assert(all.take(i as int) =~= all);
        updated
    }

    /// Takes a message's value. Says whether a price was set.
    pub fn on_value(&mut self, up: &str, dn: &str, v: &Json) -> (r: bool)
        requires
            old(self).wf(),
        ensures
            (Progress { prices: *final(self), updated: r }) == after_message(
                *old(self),
                up@,
                dn@,
                v@,
            ),
            final(self).wf(),
    {
        let kind: String = v.get_str_or("event_type", "");
        let mut updated: bool = false;
        if let Some(changes) = v.get_array("price_changes") {
            updated = self.apply_changes(up, dn, changes, updated);
        }
        if same(kind.as_str(), "best_bid_ask") {
            if let Some(changes) = v.get_array("changes") {
                updated = self.apply_changes(up, dn, changes, updated);
            }
        }
        assert((Progress { prices: *self, updated }) == after_lists(
            Progress { prices: *old(self), updated: false },
            up@,
            dn@,
            v@,
        ));
        if !updated {
            if let Some(asset) = v.get_str("asset_id") {
                let ask: Option<i64> = v.get_amount("best_ask");
                let bid: Option<i64> = v.get_amount("best_bid");
                updated = self.apply(up, dn, asset, ask, bid);
            }
        }
        if !updated {
            if let (Some(asks), Some(bids)) = (v.get_array("asks"), v.get_array("bids")) {
                let asset: String = v.get_str_or("asset_id", "");
                let ask: Option<i64> = find_best(asks, true);
                let bid: Option<i64> = find_best(bids, false);
                updated = self.apply(up, dn, asset.as_str(), ask, bid);
            }
        }
        if !updated {
            if let (Some(asset), Some(price)) = (v.get_str("asset_id"), v.get_amount("price")) {
                if same(asset, up) && self.up_ask.is_none() {
                    self.up_ask = Some(price);
                    updated = true;
                } else if same(asset, dn) && self.dn_ask.is_none() {
                    self.dn_ask = Some(price);
                    updated = true;
                }
            }
        }
        updated
    }

    /// Takes a message of the feed, and gives the new prices where any was set.
    /// Answers to pings and what is no JSON are passed over.
    pub fn on_message(&mut self, up: &str, dn: &str, text: &str, now_ms: i64) -> (r: Option<
        PolymarketTop,
    >)
        requires
            old(self).wf(),
            old(self).events_received < u64::MAX,
        ensures
            match json_of(text@) {
                Ok(v) if !is_pong(text@) => {
                    let counted = TopTracker {
                        events_received: (old(self).events_received + 1) as u64,
                        ..*old(self)
                    };
                    let t = after_message(counted, up@, dn@, v);
                    &&& *final(self) == t.prices
                    &&& r == if t.updated {
                        Some(t.prices.top(now_ms))
                    } else {
                        None
                    }
                },
                _ => *final(self) == *old(self) && r is None,
            },
            final(self).wf(),
            r matches Some(top) ==> top.wf(),
    {
        if same(text, "PONG") || same(text, "pong") {
            return None;
        }
        match parse_json(text) {
            Ok(v) => {
                self.events_received = self.events_received + 1;
                if self.on_value(up, dn, &v) {
                    Some(
                        PolymarketTop {
                            recv_ts_ms: now_ms,
                            up_bid: self.up_bid,
                            up_ask: self.up_ask,
                            down_bid: self.dn_bid,
                            down_ask: self.dn_ask,
                        },
                    )
                } else {
                    None
                }
            },
            Err(_) => None,
        }
    }
}

/// Whether a connection for two tokens is out of date for a market.
pub fn tokens_changed(market: &MarketDescriptor, up: &str, dn: &str) -> (r: bool)
    ensures
        r == (market@.up_token_id != up@ || market@.down_token_id != dn@),
{
    !same(market.up_token_id.as_str(), up) || !same(market.down_token_id.as_str(), dn)
}

/// Whether the first three messages or every five-hundredth are logged.
pub fn worth_logging(events_received: u64) -> (r: bool)
    ensures
        r == (events_received <= 3 || events_received % 500 == 0),
{
    events_received <= 3 || events_received % 500 == 0
}

/// A message about another token changes nothing.
pub proof fn other_tokens_are_ignored(
    p: TopTracker,
    up: Seq<char>,
    dn: Seq<char>,
    asset: Seq<char>,
    ask: Option<i64>,
    bid: Option<i64>,
    updated: bool,
)
    requires
        asset != up,
        asset != dn,
    ensures
        applied(Progress { prices: p, updated }, up, dn, asset, ask, bid) == (Progress {
            prices: p,
            updated,
        }),
{
}

/// A list never takes a price back: what is known stays known.
pub proof fn prices_stay_known(t: Progress, up: Seq<char>, dn: Seq<char>, changes: Seq<JsonView>)
    ensures
        ({
            let after = applied_changes(t, up, dn, changes);
            &&& t.prices.up_ask is Some ==> after.prices.up_ask is Some
            &&& t.prices.up_bid is Some ==> after.prices.up_bid is Some
            &&& t.prices.dn_ask is Some ==> after.prices.dn_ask is Some
            &&& t.prices.dn_bid is Some ==> after.prices.dn_bid is Some
            &&& t.updated ==> after.updated
            &&& !after.updated ==> after.prices == t.prices
        }),
    decreases changes.len(),
{
    if changes.len() > 0 {
        prices_stay_known(t, up, dn, changes.drop_last());
    }
}

/// A statement about a token sets the prices that it states, keeps the others of
/// that token, and leaves the other token's alone.
pub proof fn statements_set_their_token(
    t: Progress,
    up: Seq<char>,
    dn: Seq<char>,
    asset: Seq<char>,
    ask: Option<i64>,
    bid: Option<i64>,
)
    requires
        up != dn,
    ensures
        ({
            let after = applied(t, up, dn, asset, ask, bid);
            &&& asset == up ==> {
                &&& after.prices.dn_ask == t.prices.dn_ask
                &&& after.prices.dn_bid == t.prices.dn_bid
                &&& ask is Some ==> after.prices.up_ask == ask
                &&& ask is None ==> after.prices.up_ask == t.prices.up_ask
                &&& bid is Some ==> after.prices.up_bid == bid
                &&& bid is None ==> after.prices.up_bid == t.prices.up_bid
            }
            &&& asset == dn ==> {
                &&& after.prices.up_ask == t.prices.up_ask
                &&& after.prices.up_bid == t.prices.up_bid
                &&& ask is Some ==> after.prices.dn_ask == ask
                &&& ask is None ==> after.prices.dn_ask == t.prices.dn_ask
                &&& bid is Some ==> after.prices.dn_bid == bid
                &&& bid is None ==> after.prices.dn_bid == t.prices.dn_bid
            }
            &&& asset == up || asset == dn ==> (after.updated <==> t.updated || ask is Some
                || bid is Some)
            &&& after.prices.events_received == t.prices.events_received
        }),
{
}

/// The bots read each price in its own place.
pub proof fn tops_tell_each_price(p: TopTracker, recv_ts_ms: i64)
    ensures
        p.top(recv_ts_ms).up_ask == p.up_ask,
        p.top(recv_ts_ms).up_bid == p.up_bid,
        p.top(recv_ts_ms).down_ask == p.dn_ask,
        p.top(recv_ts_ms).down_bid == p.dn_bid,
        p.top(recv_ts_ms).recv_ts_ms == recv_ts_ms,
{
}

/// A book sets its token's ask to a listed one that no other undercuts, and its bid
/// to a listed one that no other exceeds.
pub proof fn books_set_their_best(
    t: Progress,
    up: Seq<char>,
    dn: Seq<char>,
    v: JsonView,
    i: int,
    j: int,
)
    requires
        up != dn,
        v.field_items("asks"@) is Some,
        v.field_items("bids"@) is Some,
        v.field_text("asset_id"@) == Some(up) || v.field_text("asset_id"@) == Some(dn),
        0 <= i < v.field_items("asks"@)->0.len(),
        0 <= j < v.field_items("bids"@)->0.len(),
        v.field_items("asks"@)->0[i].field_amount("price"@) is Some,
        v.field_items("bids"@)->0[j].field_amount("price"@) is Some,
    ensures
        ({
            let after = after_book(t, up, dn, v);
            let ask = v.field_items("asks"@)->0[i].field_amount("price"@)->0;
            let bid = v.field_items("bids"@)->0[j].field_amount("price"@)->0;
            &&& after.updated
            &&& v.field_text("asset_id"@) == Some(up) ==> {
                &&& after.prices.up_ask is Some && after.prices.up_ask->0 <= ask
                &&& after.prices.up_bid is Some && after.prices.up_bid->0 >= bid
                &&& after.prices.dn_ask == t.prices.dn_ask
                &&& after.prices.dn_bid == t.prices.dn_bid
            }
            &&& v.field_text("asset_id"@) == Some(dn) ==> {
                &&& after.prices.dn_ask is Some && after.prices.dn_ask->0 <= ask
                &&& after.prices.dn_bid is Some && after.prices.dn_bid->0 >= bid
                &&& after.prices.up_ask == t.prices.up_ask
                &&& after.prices.up_bid == t.prices.up_bid
            }
        }),
{
    crate::book::best_price_is_extreme(v.field_items("asks"@)->0, true, i);
    crate::book::best_price_is_extreme(v.field_items("bids"@)->0, false, j);
}

/// The price of a trade becomes the ask of its token where none is known, and
/// nothing else; a known ask stays.
pub proof fn trades_only_fill_in_an_ask(
    t: Progress,
    up: Seq<char>,
    dn: Seq<char>,
    v: JsonView,
    price: i64,
)
    requires
        up != dn,
        v.field_amount("price"@) == Some(price),
    ensures
        ({
            let after = after_trade(t, up, dn, v);
            &&& v.field_text("asset_id"@) == Some(up) && t.prices.up_ask is None ==> after.updated
                && after.prices.up_ask == Some(price) && after.prices.dn_ask == t.prices.dn_ask
            &&& v.field_text("asset_id"@) == Some(dn) && t.prices.dn_ask is None ==> after.updated
                && after.prices.dn_ask == Some(price) && after.prices.up_ask == t.prices.up_ask
            &&& t.prices.up_ask is Some ==> after.prices.up_ask == t.prices.up_ask
            &&& t.prices.dn_ask is Some ==> after.prices.dn_ask == t.prices.dn_ask
            &&& after.prices.up_bid == t.prices.up_bid
            &&& after.prices.dn_bid == t.prices.dn_bid
        }),
{
}

/// A list is taken statement by statement: the last one of a token decides.
pub proof fn later_statements_decide(
    t: Progress,
    up: Seq<char>,
    dn: Seq<char>,
    changes: Seq<JsonView>,
    change: JsonView,
)
    requires
        up != dn,
    ensures
        applied_changes(t, up, dn, Seq::empty()) == t,
        ({
            let before = applied_changes(t, up, dn, changes);
            let after = applied_changes(t, up, dn, changes.push(change));
            let (ask, bid) = (change.field_amount("best_ask"@), change.field_amount("best_bid"@));
            &&& change.field_text("asset_id"@) == Some(up) ==> {
                &&& ask is Some ==> after.prices.up_ask == ask
                &&& bid is Some ==> after.prices.up_bid == bid
                &&& after.prices.dn_ask == before.prices.dn_ask
                &&& after.prices.dn_bid == before.prices.dn_bid
            }
            &&& change.field_text("asset_id"@) == Some(dn) ==> {
                &&& ask is Some ==> after.prices.dn_ask == ask
                &&& bid is Some ==> after.prices.dn_bid == bid
                &&& after.prices.up_ask == before.prices.up_ask
                &&& after.prices.up_bid == before.prices.up_bid
            }
        }),
{
    assert(changes.push(change).drop_last() =~= changes);
}

/// A message without lists states what stands at its top; where its top states no
/// best price, its book; and where that states none either, its trade.
pub proof fn messages_are_read_in_order(
    p: TopTracker,
    up: Seq<char>,
    dn: Seq<char>,
    v: JsonView,
    asset: Seq<char>,
)
    requires
        v.field_items("price_changes"@) is None,
        v.field_items("changes"@) is None,
        v.field_text("asset_id"@) == Some(asset),
        asset == up || asset == dn,
    ensures
        ({
            let start = Progress { prices: p, updated: false };
            let (ask, bid) = (v.field_amount("best_ask"@), v.field_amount("best_bid"@));
            let after = after_message(p, up, dn, v);
            &&& ask is Some || bid is Some ==> after == applied(start, up, dn, asset, ask, bid)
            &&& ask is None && bid is None && after_book(start, up, dn, v).updated ==> after
                == after_book(start, up, dn, v)
            &&& ask is None && bid is None && v.field_items("bids"@) is None ==> after
                == after_trade(start, up, dn, v)
        }),
{
}

} // verus!
