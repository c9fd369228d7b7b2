//! The venue's market feed: tokens, books, best prices, trades and tick sizes.

use vstd::prelude::*;

use crate::book::{best_of_book, levels_at, read_best, read_levels, LevelForm};
use crate::clock::{current_window, window_start};
use crate::json::{
    json_of, parse_json, parse_strings, quote_all, quoted_list, string_list, string_views, text_or,
    views, Json, JsonView,
};
use crate::market::discovery::{slug_of, window_slug};
use crate::text::{join3, same};
use crate::types::{
    BBOView, OrderBook, OrderBookView, RecordedEvent, RecordedEventView, TickSize, TickSizeView,
    Trade, TradeView, BBO,
};

verus! {

/// A token, the outcome that it stands for, and the window that it belongs to.
#[derive(Debug, Clone)]
pub struct TokenInfo {
    pub token_id: String,
    pub outcome: String,
    pub window_ts: i64,
}

pub ghost struct TokenInfoView {
    pub token_id: Seq<char>,
    pub outcome: Seq<char>,
    pub window_ts: i64,
}

impl View for TokenInfo {
    type V = TokenInfoView;

    open spec fn view(&self) -> TokenInfoView {
        TokenInfoView {
            token_id: self.token_id@,
            outcome: self.outcome@,
            window_ts: self.window_ts,
        }
    }
}

/// An event of the market feed.
#[derive(Debug, Clone)]
pub enum MarketEvent {
    Book(OrderBook),
    BestBidAsk(BBO),
    LastTradePrice(Trade),
    TickSizeChange(TickSize),
    PriceChange {
        token_id: String,
        price: i64,
        timestamp: i64,
    },
    Raw(RecordedEvent),
}

pub ghost enum MarketEventView {
    Book(OrderBookView),
    BestBidAsk(BBOView),
    LastTradePrice(TradeView),
    TickSizeChange(TickSizeView),
    PriceChange {
        token_id: Seq<char>,
        price: i64,
        timestamp: i64,
    },
    Raw(RecordedEventView),
}

impl View for MarketEvent {
    type V = MarketEventView;

    open spec fn view(&self) -> MarketEventView {
        match self {
            MarketEvent::Book(x) => MarketEventView::Book(x@),
            MarketEvent::BestBidAsk(x) => MarketEventView::BestBidAsk(x@),
            MarketEvent::LastTradePrice(x) => MarketEventView::LastTradePrice(x@),
            MarketEvent::TickSizeChange(x) => MarketEventView::TickSizeChange(x@),
            MarketEvent::PriceChange { token_id, price, timestamp } => MarketEventView::PriceChange {
                token_id: token_id@,
                price: *price,
                timestamp: *timestamp,
            },
            MarketEvent::Raw(x) => MarketEventView::Raw(x@),
        }
    }
}

/// The best bid and ask in the answer to a question for a book.
pub fn parse_book_rest(body: &str) -> (r: Option<(i64, i64)>)
    ensures
        r == match json_of(body@) {
            Ok(v) => best_of_book(v),
            Err(_) => None,
        },
{
    match parse_json(body) {
        Ok(v) => read_best(&v),
        Err(_) => None,
    }
}

// ── Tokens ──────────────────────────────────────────────────────

/// The slug of a Bitcoin window.
pub fn btc_slug(window_ts: i64) -> (r: String)
    ensures
        r@ == slug_of("btc-updown-5m"@, window_ts as int),
{
    window_slug("btc-updown-5m", window_ts)
}

/// The present window and the next.
pub fn windows_to_fetch(now: i64) -> (r: (i64, i64))
    requires
        now <= i64::MAX - 600,
    ensures
        r.0 == window_start(now as int),
        r.1 == r.0 + 300,
{
    let start: i64 = current_window(now);
    (start, start + 300)
}

/// When to connect anew: five seconds into the next window.
pub fn reconnect_at(now: i64) -> (r: i64)
    requires
        now <= i64::MAX - 605,
    ensures
        r == window_start(now as int) + 305,
{
    current_window(now) + 305
}

/// The views of a run of tokens.
pub open spec fn info_views(infos: Seq<TokenInfo>) -> Seq<TokenInfoView> {
    Seq::new(infos.len(), |i: int| infos[i]@)
}

/// The identifiers of a run of tokens.
pub open spec fn ids_of(infos: Seq<TokenInfoView>) -> Seq<Seq<char>> {
    Seq::new(infos.len(), |i: int| infos[i].token_id)
}

/// The text at a place of a list, empty behind its end.
pub open spec fn text_at(list: Seq<Seq<char>>, i: int) -> Seq<char> {
    if i < list.len() {
        list[i]
    } else {
        Seq::empty()
    }
}

/// The tokens with the first `n` of a market: those with an identifier that is
/// not known yet.
pub open spec fn with_tokens(
    known: Seq<TokenInfoView>,
    outcomes: Seq<Seq<char>>,
    tokens: Seq<Seq<char>>,
    n: nat,
    window_ts: i64,
) -> Seq<TokenInfoView>
    decreases n,
{
    if n == 0 {
        known
    } else {
        let before = with_tokens(known, outcomes, tokens, (n - 1) as nat, window_ts);
        let id = tokens[n - 1];
        if id.len() > 0 && !ids_of(before).contains(id) {
            before.push(
                TokenInfoView { token_id: id, outcome: text_at(outcomes, n - 1), window_ts },
            )
        } else {
            before
        }
    }
}

/// A list of texts under a key, in JSON; empty where there is none.
pub open spec fn listed(v: JsonView, key: Seq<char>) -> Seq<Seq<char>> {
    match v.field_text(key) {
        Some(t) => match string_list(t) {
            Some(list) => list,
            None => Seq::empty(),
        },
        None => Seq::empty(),
    }
}

/// The tokens with those of a market.
pub open spec fn with_market(known: Seq<TokenInfoView>, market: JsonView, window_ts: i64) -> Seq<
    TokenInfoView,
> {
    let tokens = listed(market, "clobTokenIds"@);
    with_tokens(known, listed(market, "outcomes"@), tokens, tokens.len(), window_ts)
}

/// The tokens with those of a run of markets.
pub open spec fn with_markets(known: Seq<TokenInfoView>, markets: Seq<JsonView>, window_ts: i64) -> Seq<
    TokenInfoView,
>
    decreases markets.len(),
{
    if markets.len() == 0 {
        known
    } else {
        with_market(with_markets(known, markets.drop_last(), window_ts), markets.last(), window_ts)
    }
}

/// The tokens with those of an event.
pub open spec fn with_event(known: Seq<TokenInfoView>, event: JsonView, window_ts: i64) -> Seq<
    TokenInfoView,
> {
    match event.field_items("markets"@) {
        Some(markets) => with_markets(known, markets, window_ts),
        None => known,
    }
}

/// The tokens with those of a run of events.
pub open spec fn with_events(known: Seq<TokenInfoView>, events: Seq<JsonView>, window_ts: i64) -> Seq<
    TokenInfoView,
>
    decreases events.len(),
{
    if events.len() == 0 {
        known
    } else {
        with_event(with_events(known, events.drop_last(), window_ts), events.last(), window_ts)
    }
}

/// The tokens with those of an answer.
pub open spec fn with_answer(known: Seq<TokenInfoView>, v: JsonView, window_ts: i64) -> Seq<
    TokenInfoView,
> {
    match v.items() {
        Some(events) => with_events(known, events, window_ts),
        None => known,
    }
}

/// The tokens of the present windows.
pub struct TokenSet {
    pub token_ids: Vec<String>,
    pub token_infos: Vec<TokenInfo>,
}

/// No identifier is empty or occurs twice.
pub open spec fn proper_tokens(infos: Seq<TokenInfoView>) -> bool {
    &&& ids_of(infos).no_duplicates()
    &&& forall|i: int| 0 <= i < infos.len() ==> (#[trigger] infos[i]).token_id.len() > 0
}

impl TokenSet {
    /// The tokens.
    pub open spec fn tokens(self) -> Seq<TokenInfoView> {
        info_views(self.token_infos@)
    }

    /// The identifiers are those of the tokens, one for one.
    pub open spec fn wf(self) -> bool {
        string_views(self.token_ids@) == ids_of(self.tokens())
    }

    pub fn new() -> (r: TokenSet)
        ensures
            r.tokens() == Seq::<TokenInfoView>::empty(),
            r.wf(),
    {
        let r: TokenSet = TokenSet { token_ids: Vec::new(), token_infos: Vec::new() };
        assert(r.tokens() =~= Seq::<TokenInfoView>::empty());
        assert(string_views(r.token_ids@) =~= ids_of(r.tokens()));
        r
    }

    fn knows(&self, id: &str) -> (r: bool)
        requires
            self.wf(),
        ensures
            r == ids_of(self.tokens()).contains(id@),
    {
        let ghost ids = ids_of(self.tokens());
        let mut i: usize = 0;
        while i < self.token_ids.len()
            invariant
                i <= self.token_ids@.len(),
                ids == ids_of(self.tokens()),
                ids == string_views(self.token_ids@),
                forall|j: int| 0 <= j < i ==> #[trigger] ids[j] != id@,
            decreases self.token_ids@.len() - i,
        {
            if same(self.token_ids[i].as_str(), id) {
                assert(ids[i as int] == id@);
                return true;
            }
            assert(ids[i as int] != id@);
            i = i + 1;
        }
        false
    }

    fn add_tokens(&mut self, outcomes: &Vec<String>, tokens: &Vec<String>, window_ts: i64)
        requires
            old(self).wf(),
        ensures
            final(self).wf(),
            final(self).tokens() == with_tokens(
                old(self).tokens(),
                string_views(outcomes@),
                string_views(tokens@),
                tokens@.len(),
                window_ts,
            ),
    {
        let ghost o = string_views(outcomes@);
        let ghost t = string_views(tokens@);
        let mut i: usize = 0;
        while i < tokens.len()
            invariant
                i <= tokens@.len(),
                o == string_views(outcomes@),
                t == string_views(tokens@),
                self.wf(),
                self.tokens() == with_tokens(old(self).tokens(), o, t, i as nat, window_ts),
            decreases tokens@.len() - i,
        {
            let ghost before = *self;
            let id: &String = &tokens[i];
            if !id.as_str().is_empty() && !self.knows(id.as_str()) {
                let outcome: String = if i < outcomes.len() {
                    outcomes[i].clone()
                } else {
                    String::new()
                };
                assert(outcome@ =~= text_at(o, i as int));
                let info: TokenInfo = TokenInfo { token_id: id.clone(), outcome, window_ts };
                let ghost view = info@;
                self.token_ids.push(id.clone());
                self.token_infos.push(info);
                assert(self.tokens() =~= before.tokens().push(view));
                assert(string_views(self.token_ids@) =~= string_views(before.token_ids@).push(
                    view.token_id,
                ));
                assert(ids_of(self.tokens()) =~= ids_of(before.tokens()).push(view.token_id));
            }
            i = i + 1;
        }
    }

    fn add_market(&mut self, market: &Json, window_ts: i64)
        requires
            old(self).wf(),
        ensures
            final(self).wf(),
            final(self).tokens() == with_market(old(self).tokens(), market@, window_ts),
    {
        let outcomes: Vec<String> = read_listed(market, "outcomes");
        let tokens: Vec<String> = read_listed(market, "clobTokenIds");
        self.add_tokens(&outcomes, &tokens, window_ts);
    }

    fn add_event(&mut self, event: &Json, window_ts: i64)
        requires
            old(self).wf(),
        ensures
            final(self).wf(),
            final(self).tokens() == with_event(old(self).tokens(), event@, window_ts),
    {
        if let Some(markets) = event.get_array("markets") {
            let ghost all = views(markets@);
            let mut i: usize = 0;
            assert(all.take(0) =~= Seq::empty());
            while i < markets.len()
                invariant
                    i <= markets@.len(),
                    all == views(markets@),
                    self.wf(),
                    self.tokens() == with_markets(
                        old(self).tokens(),
                        all.take(i as int),
                        window_ts,
                    ),
                decreases markets@.len() - i,
            {
                self.add_market(&markets[i], window_ts);
                i = i + 1;
                assert(all.take(i as int).drop_last() =~= all.take(i as int - 1));
                assert(all.take(i as int).last() == all[i as int - 1]);
            }
            assert(all.take(i as int) =~= all);
        }
    }

    /// Adds the tokens of an answer's value.
    pub fn add_value(&mut self, v: &Json, window_ts: i64)
        requires
            old(self).wf(),
        ensures
            final(self).wf(),
            final(self).tokens() == with_answer(old(self).tokens(), v@, window_ts),
    {
        if let Some(events) = v.as_array() {
            let ghost all = views(events@);
            let mut i: usize = 0;
            assert(all.take(0) =~= Seq::empty());
            while i < events.len()
                invariant
                    i <= events@.len(),
                    all == views(events@),
                    self.wf(),
                    self.tokens() == with_events(
                        old(self).tokens(),
                        all.take(i as int),
                        window_ts,
                    ),
                decreases events@.len() - i,
            {
                self.add_event(&events[i], window_ts);
                i = i + 1;
                assert(all.take(i as int).drop_last() =~= all.take(i as int - 1));
                assert(all.take(i as int).last() == all[i as int - 1]);
            }
            assert(all.take(i as int) =~= all);
        }
    }

    /// Adds the tokens of an answer; an answer that is no JSON is an error.
    pub fn add_answer(&mut self, body: &str, window_ts: i64) -> (r: Result<(), String>)
        requires
            old(self).wf(),
        ensures
            final(self).wf(),
            match json_of(body@) {
                Ok(v) => r is Ok && final(self).tokens() == with_answer(
                    old(self).tokens(),
                    v,
                    window_ts,
                ),
                Err(e) => r matches Err(m) && m@ == e && *final(self) == *old(self),
            },
    {
        match parse_json(body) {
            Ok(v) => {
                self.add_value(&v, window_ts);
                Ok(())
            },
            Err(e) => Err(e),
        }
    }
}

fn read_listed(v: &Json, key: &str) -> (r: Vec<String>)
    ensures
        string_views(r@) == listed(v@, key@),
{
    let none: Vec<String> = Vec::new();
    assert(string_views(none@) =~= Seq::empty());
    match v.get_str(key) {
        Some(t) => match parse_strings(t) {
            Some(list) => list,
            None => none,
        },
        None => none,
    }
}

proof fn lemma_proper_push(infos: Seq<TokenInfoView>, t: TokenInfoView)
    requires
        proper_tokens(infos),
        t.token_id.len() > 0,
        !ids_of(infos).contains(t.token_id),
    ensures
        proper_tokens(infos.push(t)),
{
    let ids = ids_of(infos.push(t));
    assert forall|i: int, j: int| 0 <= i < ids.len() && 0 <= j < ids.len() && i != j implies ids[i]
        != ids[j] by {
        if i < infos.len() && j < infos.len() {
            assert(ids_of(infos)[i] != ids_of(infos)[j]);
        } else if i < infos.len() {
            assert(ids_of(infos)[i] == ids[i]);
        } else {
            assert(ids_of(infos)[j] == ids[j]);
        }
    }
}

/// Tokens keep distinct identifiers that are not empty, and none is forgotten,
/// whatever a market lists.
pub proof fn tokens_stay_distinct(
    known: Seq<TokenInfoView>,
    outcomes: Seq<Seq<char>>,
    tokens: Seq<Seq<char>>,
    n: nat,
    window_ts: i64,
)
    requires
        proper_tokens(known),
        n <= tokens.len(),
    ensures
        proper_tokens(with_tokens(known, outcomes, tokens, n, window_ts)),
        known.is_prefix_of(with_tokens(known, outcomes, tokens, n, window_ts)),
        forall|i: int|
            0 <= i < n && (#[trigger] tokens[i]).len() > 0 ==> ids_of(
                with_tokens(known, outcomes, tokens, n, window_ts),
            ).contains(tokens[i]),
    decreases n,
{
    if n > 0 {
        let m = (n - 1) as nat;
        tokens_stay_distinct(known, outcomes, tokens, m, window_ts);
        let before = with_tokens(known, outcomes, tokens, m, window_ts);
        let after = with_tokens(known, outcomes, tokens, n, window_ts);
        let id = tokens[n - 1];
        if id.len() > 0 && !ids_of(before).contains(id) {
            let t = TokenInfoView { token_id: id, outcome: text_at(outcomes, n - 1), window_ts };
            lemma_proper_push(before, t);
            assert(ids_of(after) =~= ids_of(before).push(id));
            assert(ids_of(after)[before.len() as int] == id);
        }
        assert forall|i: int| 0 <= i < n && (#[trigger] tokens[i]).len() > 0 implies ids_of(
            after,
        ).contains(tokens[i]) by {
            if i < m {
                let k = choose|k: int| 0 <= k < before.len() && ids_of(before)[k] == tokens[i];
                assert(ids_of(after)[k] == tokens[i]);
            } else if ids_of(before).contains(id) {
                assert(after == before);
            }
        }
    }
}

// ── Subscription ────────────────────────────────────────────────

/// Writes the request for all events of some tokens.
pub fn subscription(token_ids: &Vec<String>) -> (r: String)
    ensures
        r@ == "{\"assets_ids\":["@ + quoted_list(string_views(token_ids@))
            + "],\"custom_feature_enabled\":true,\"type\":\"market\"}"@,
{
    let list: String = quote_all(token_ids);
    join3(
        "{\"assets_ids\":[",
        list.as_str(),
        "],\"custom_feature_enabled\":true,\"type\":\"market\"}",
    )
}

// ── Events ──────────────────────────────────────────────────────

/// A signed number under a key, none counting as zero.
pub open spec fn signed_or_zero(v: JsonView, key: Seq<char>) -> i64 {
    match v.field_signed(key) {
        Some(n) => n,
        None => 0,
    }
}

/// An amount in a string under a key, none counting as zero.
pub open spec fn amount_or_zero(v: JsonView, key: Seq<char>) -> i64 {
    match v.field_amount(key) {
        Some(n) => n,
        None => 0,
    }
}

pub(crate) fn get_signed_or_zero(v: &Json, key: &str) -> (r: i64)
    ensures
        r == signed_or_zero(v@, key@),
{
    match v.get_i64(key) {
        Some(n) => n,
        None => 0,
    }
}

pub(crate) fn get_amount_or_zero(v: &Json, key: &str) -> (r: i64)
    ensures
        r == amount_or_zero(v@, key@),
        crate::fixed::amount_ok(r as int),
{
    match v.get_amount(key) {
        Some(n) => n,
        None => 0,
    }
}

/// The book in an event.
pub open spec fn book_in(v: JsonView, local_recv_us: i64) -> Result<OrderBookView, Seq<char>> {
    match v.field_text("asset_id"@) {
        Some(token_id) => Ok(
            OrderBookView {
                token_id,
                bids: levels_at(v, "bids"@, LevelForm::Object),
                asks: levels_at(v, "asks"@, LevelForm::Object),
                timestamp: signed_or_zero(v, "timestamp"@),
                local_recv_ts: local_recv_us,
            },
        ),
        None => Err("missing asset_id"@),
    }
}

/// The best prices in an event.
pub open spec fn bbo_in(v: JsonView, local_recv_us: i64) -> Result<BBOView, Seq<char>> {
    match v.field_text("asset_id"@) {
        Some(token_id) => Ok(
            BBOView {
                token_id,
                best_bid: v.field_amount("best_bid"@),
                best_ask: v.field_amount("best_ask"@),
                bid_size: v.field_amount("best_bid_size"@),
                ask_size: v.field_amount("best_ask_size"@),
                timestamp: signed_or_zero(v, "timestamp"@),
                local_recv_ts: local_recv_us,
            },
        ),
        None => Err("missing asset_id"@),
    }
}

/// The trade in an event.
pub open spec fn trade_in(v: JsonView, local_recv_us: i64) -> Result<TradeView, Seq<char>> {
    match v.field_text("asset_id"@) {
        Some(token_id) => Ok(
            TradeView {
                token_id,
                price: amount_or_zero(v, "price"@),
                size: amount_or_zero(v, "size"@),
                side: text_or(v.field_text("side"@), ""@),
                timestamp: signed_or_zero(v, "timestamp"@),
                local_recv_ts: local_recv_us,
            },
        ),
        None => Err("missing asset_id"@),
    }
}

/// The tick size in an event.
pub open spec fn tick_size_in(v: JsonView) -> Result<TickSizeView, Seq<char>> {
    match v.field_text("asset_id"@) {
        Some(token_id) => match v.field_amount("tick_size"@) {
            Some(tick_size) => Ok(TickSizeView { token_id, tick_size }),
            None => Err("missing tick_size"@),
        },
        None => Err("missing asset_id"@),
    }
}

/// Reads the book in an event.
pub fn parse_book(v: &Json, local_recv_us: i64) -> (r: Result<OrderBook, String>)
    ensures
        book_in(v@, local_recv_us) == match r {
            Ok(b) => Ok(b@),
            Err(e) => Err(e@),
        },
{
    match v.get_str("asset_id") {
        Some(id) => Ok(
            OrderBook {
                token_id: id.to_owned(),
                bids: read_levels(v, "bids", LevelForm::Object),
                asks: read_levels(v, "asks", LevelForm::Object),
                timestamp: get_signed_or_zero(v, "timestamp"),
                local_recv_ts: local_recv_us,
            },
        ),
        None => Err("missing asset_id".to_owned()),
    }
}

/// Reads the best prices in an event.
pub fn parse_bbo(v: &Json, local_recv_us: i64) -> (r: Result<BBO, String>)
    ensures
        bbo_in(v@, local_recv_us) == match r {
            Ok(b) => Ok(b@),
            Err(e) => Err(e@),
        },
{
    match v.get_str("asset_id") {
        Some(id) => Ok(
            BBO {
                token_id: id.to_owned(),
                best_bid: v.get_amount("best_bid"),
                best_ask: v.get_amount("best_ask"),
                bid_size: v.get_amount("best_bid_size"),
                ask_size: v.get_amount("best_ask_size"),
                timestamp: get_signed_or_zero(v, "timestamp"),
                local_recv_ts: local_recv_us,
            },
        ),
        None => Err("missing asset_id".to_owned()),
    }
}

/// Reads the trade in an event.
pub fn parse_trade(v: &Json, local_recv_us: i64) -> (r: Result<Trade, String>)
    ensures
        trade_in(v@, local_recv_us) == match r {
            Ok(t) => Ok(t@),
            Err(e) => Err(e@),
        },
{
    match v.get_str("asset_id") {
        Some(id) => Ok(
            Trade {
                token_id: id.to_owned(),
                price: get_amount_or_zero(v, "price"),
                size: get_amount_or_zero(v, "size"),
                side: v.get_str_or("side", ""),
                timestamp: get_signed_or_zero(v, "timestamp"),
                local_recv_ts: local_recv_us,
            },
        ),
        None => Err("missing asset_id".to_owned()),
    }
}

/// Reads the tick size in an event.
pub fn parse_tick_size(v: &Json) -> (r: Result<TickSize, String>)
    ensures
        tick_size_in(v@) == match r {
            Ok(t) => Ok(t@),
            Err(e) => Err(e@),
        },
{
    match v.get_str("asset_id") {
        Some(id) => match v.get_amount("tick_size") {
            Some(tick_size) => Ok(TickSize { token_id: id.to_owned(), tick_size }),
            None => Err("missing tick_size".to_owned()),
        },
        None => Err("missing asset_id".to_owned()),
    }
}

/// What an event of the feed says; nothing for an unknown kind or an incomplete
/// event.
pub open spec fn event_in(v: JsonView, local_recv_us: i64) -> Option<MarketEventView> {
    let kind = text_or(v.field_text("event_type"@), ""@);
    if kind == "book"@ {
        match book_in(v, local_recv_us) {
            Ok(b) => Some(MarketEventView::Book(b)),
            Err(_) => None,
        }
    } else if kind == "best_bid_ask"@ {
        match bbo_in(v, local_recv_us) {
            Ok(b) => Some(MarketEventView::BestBidAsk(b)),
            Err(_) => None,
        }
    } else if kind == "last_trade_price"@ {
        match trade_in(v, local_recv_us) {
            Ok(t) => Some(MarketEventView::LastTradePrice(t)),
            Err(_) => None,
        }
    } else if kind == "tick_size_change"@ {
        match tick_size_in(v) {
            Ok(t) => Some(MarketEventView::TickSizeChange(t)),
            Err(_) => None,
        }
    } else if kind == "price_change"@ {
        Some(
            MarketEventView::PriceChange {
                token_id: text_or(v.field_text("asset_id"@), ""@),
                price: match v.field_number("price"@) {
                    Some(p) => p,
                    None => 0,
                },
                timestamp: signed_or_zero(v, "timestamp"@),
            },
        )
    } else {
        None
    }
}

fn read_event(v: &Json, local_recv_us: i64) -> (r: Option<MarketEvent>)
    ensures
        event_in(v@, local_recv_us) == match r {
            Some(e) => Some(e@),
            None => None,
        },
{
    let kind: String = v.get_str_or("event_type", "");
    if same(kind.as_str(), "book") {
        match parse_book(v, local_recv_us) {
            Ok(b) => Some(MarketEvent::Book(b)),
            Err(_) => None,
        }
    } else if same(kind.as_str(), "best_bid_ask") {
        match parse_bbo(v, local_recv_us) {
            Ok(b) => Some(MarketEvent::BestBidAsk(b)),
            Err(_) => None,
        }
    } else if same(kind.as_str(), "last_trade_price") {
        match parse_trade(v, local_recv_us) {
            Ok(t) => Some(MarketEvent::LastTradePrice(t)),
            Err(_) => None,
        }
    } else if same(kind.as_str(), "tick_size_change") {
        match parse_tick_size(v) {
            Ok(t) => Some(MarketEvent::TickSizeChange(t)),
            Err(_) => None,
        }
    } else if same(kind.as_str(), "price_change") {
        let price: i64 = match v.get_number("price") {
            Some(p) => p,
            None => 0,
        };
        Some(
            MarketEvent::PriceChange {
                token_id: v.get_str_or("asset_id", ""),
                price,
                timestamp: get_signed_or_zero(v, "timestamp"),
            },
        )
    } else {
        None
    }
}

/// What a run of events says, in its order.
pub open spec fn events_in(items: Seq<JsonView>, local_recv_us: i64) -> Seq<MarketEventView>
    decreases items.len(),
{
    if items.len() == 0 {
        Seq::empty()
    } else {
        let front = events_in(items.drop_last(), local_recv_us);
        match event_in(items.last(), local_recv_us) {
            Some(e) => front.push(e),
            None => front,
        }
    }
}

/// The events of a message: those of a list, or the one.
pub open spec fn items_in(v: JsonView) -> Seq<JsonView> {
    match v.items() {
        Some(items) => items,
        None => seq![v],
    }
}

/// The views of a run of events.
pub open spec fn event_views(events: Seq<MarketEvent>) -> Seq<MarketEventView> {
    events.map_values(|e: MarketEvent| e@)
}

/// Reads the events of a message's value.
pub fn read_events(v: &Json, local_recv_us: i64) -> (r: Vec<MarketEvent>)
    ensures
        event_views(r@) == events_in(items_in(v@), local_recv_us),
{
    let mut out: Vec<MarketEvent> = Vec::new();
    assert(event_views(out@) =~= Seq::empty());
    match v.as_array() {
        Some(items) => {
            let ghost all = views(items@);
            let mut i: usize = 0;
            assert(all.take(0) =~= Seq::empty());
            while i < items.len()
                invariant
                    i <= items@.len(),
                    all == views(items@),
                    event_views(out@) == events_in(all.take(i as int), local_recv_us),
                decreases items@.len() - i,
            {
                let ghost before = out@;
                if let Some(e) = read_event(&items[i], local_recv_us) {
                    let ghost view = e@;
                    out.push(e);
                    assert(event_views(out@) =~= event_views(before).push(view));
                }
                i = i + 1;
                assert(all.take(i as int).drop_last() =~= all.take(i as int - 1));
                assert(all.take(i as int).last() == all[i as int - 1]);
            }
            assert(all.take(i as int) =~= all);
        },
        None => {
            proof {
                reveal_with_fuel(events_in, 2);
                assert(seq![v@].drop_last() =~= Seq::empty());
            }
            if let Some(e) = read_event(v, local_recv_us) {
                let ghost view = e@;
                out.push(e);
                assert(event_views(out@) =~= Seq::empty().push(view));
            }
        },
    }
    out
}

/// Reads a message of the feed; one that is no JSON is an error.
pub fn parse_message(text: &str, local_recv_us: i64) -> (r: Result<Vec<MarketEvent>, String>)
    ensures
        match json_of(text@) {
            Ok(v) => r matches Ok(events) && event_views(events@) == events_in(
                items_in(v),
                local_recv_us,
            ),
            Err(e) => r matches Err(m) && m@ == e,
        },
{
    match parse_json(text) {
        Ok(v) => Ok(read_events(&v, local_recv_us)),
        Err(e) => Err(e),
    }
}

/// A message for the recording.
pub fn raw_event(text: &str, local_recv_us: i64) -> (r: MarketEvent)
    ensures
        r@ == MarketEventView::Raw(
            RecordedEventView {
                local_recv_us,
                source: "market_ws"@,
                event_type: "raw"@,
                raw_json: text@,
            },
        ),
{
    MarketEvent::Raw(crate::types::recorded(local_recv_us, "market_ws", "raw", text))
}

/// A further token of a market is added with the outcome at its own place and the
/// market's window, unless it is empty or known.
pub proof fn tokens_take_their_outcome(
    known: Seq<TokenInfoView>,
    outcomes: Seq<Seq<char>>,
    tokens: Seq<Seq<char>>,
    n: nat,
    window_ts: i64,
)
    requires
        n < tokens.len(),
    ensures
        with_tokens(known, outcomes, tokens, 0, window_ts) == known,
        ({
            let before = with_tokens(known, outcomes, tokens, n, window_ts);
            let after = with_tokens(known, outcomes, tokens, n + 1, window_ts);
            let id = tokens[n as int];
            if id.len() == 0 || exists|i: int|
                0 <= i < before.len() && (#[trigger] before[i]).token_id == id {
                after == before
            } else {
                &&& after.len() == before.len() + 1
                &&& after.drop_last() == before
                &&& after.last().token_id == id
                &&& n < outcomes.len() ==> after.last().outcome == outcomes[n as int]
                &&& n >= outcomes.len() ==> after.last().outcome.len() == 0
                &&& after.last().window_ts == window_ts
            }
        }),
{
    let before = with_tokens(known, outcomes, tokens, n, window_ts);
    let after = with_tokens(known, outcomes, tokens, n + 1, window_ts);
    let id = tokens[n as int];
    if ids_of(before).contains(id) {
        let k = choose|k: int| 0 <= k < ids_of(before).len() && ids_of(before)[k] == id;
        assert(before[k].token_id == id);
    } else if exists|i: int| 0 <= i < before.len() && (#[trigger] before[i]).token_id == id {
        let i = choose|i: int| 0 <= i < before.len() && (#[trigger] before[i]).token_id == id;
        assert(ids_of(before)[i] == id);
    } else if id.len() > 0 {
        assert(after.drop_last() =~= before);
    }
}

/// Best prices are told with the bid as the bid and the ask as the ask, a trade
/// with its own price and size, and a tick size as it stands.
pub proof fn market_events_tell_their_token(v: JsonView, token_id: Seq<char>, local_recv_us: i64)
    requires
        v.field_text("asset_id"@) == Some(token_id),
    ensures
        v.field_text("event_type"@) == Some("best_bid_ask"@) ==> (match event_in(v, local_recv_us) {
            Some(MarketEventView::BestBidAsk(b)) => {
                &&& b.token_id == token_id
                &&& b.best_bid == v.field_amount("best_bid"@)
                &&& b.best_ask == v.field_amount("best_ask"@)
                &&& b.bid_size == v.field_amount("best_bid_size"@)
                &&& b.ask_size == v.field_amount("best_ask_size"@)
                &&& b.local_recv_ts == local_recv_us
            },
            _ => false,
        }),
        v.field_text("event_type"@) == Some("last_trade_price"@) ==> (match event_in(
            v,
            local_recv_us,
        ) {
            Some(MarketEventView::LastTradePrice(t)) => {
                &&& t.token_id == token_id
                &&& v.field_amount("price"@) matches Some(x) ==> t.price == x
                &&& v.field_amount("size"@) matches Some(x) ==> t.size == x
                &&& v.field_text("side"@) matches Some(x) ==> t.side == x
                &&& t.local_recv_ts == local_recv_us
            },
            _ => false,
        }),
        v.field_text("event_type"@) == Some("tick_size_change"@) ==> (match event_in(
            v,
            local_recv_us,
        ) {
            Some(MarketEventView::TickSizeChange(t)) => t.token_id == token_id && Some(t.tick_size)
                == v.field_amount("tick_size"@),
            None => v.field_amount("tick_size"@) is None,
            _ => false,
        }),
        v.field_text("event_type"@) == Some("book"@) ==> (match event_in(v, local_recv_us) {
            Some(MarketEventView::Book(b)) => {
                &&& b.token_id == token_id
                &&& b.bids == levels_at(v, "bids"@, LevelForm::Object)
                &&& b.asks == levels_at(v, "asks"@, LevelForm::Object)
                &&& b.local_recv_ts == local_recv_us
            },
            _ => false,
        }),
{
    reveal_strlit("book");
    reveal_strlit("best_bid_ask");
    reveal_strlit("last_trade_price");
    reveal_strlit("tick_size_change");
    assert("book"@.len() == 4 && "best_bid_ask"@.len() == 12);
    assert("last_trade_price"@[0] == 'l' && "tick_size_change"@[0] == 't' && "book"@[0] == 'b'
        && "best_bid_ask"@[0] == 'b');
}

/// A further event of a message comes behind the others.
pub proof fn market_events_keep_their_order(items: Seq<JsonView>, item: JsonView, local_recv_us: i64)
    ensures
        events_in(Seq::empty(), local_recv_us).len() == 0,
        event_in(item, local_recv_us) is None ==> events_in(items.push(item), local_recv_us)
            == events_in(items, local_recv_us),
        event_in(item, local_recv_us) matches Some(e) ==> events_in(items.push(item), local_recv_us)
            == events_in(items, local_recv_us).push(e),
{
    assert(items.push(item).drop_last() =~= items);
}

} // verus!
