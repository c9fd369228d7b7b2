//! Order books in JSON.

use vstd::prelude::*;

use crate::fixed::{amount_ok, opt_amount_ok};
use crate::json::{views, Json, JsonView};
use crate::types::PriceLevel;

verus! {

/// Of two optional prices the better one: the lower for asks, the higher for
/// bids.
pub open spec fn better(a: Option<i64>, b: Option<i64>, lower: bool) -> Option<i64> {
    match (a, b) {
        (Some(x), Some(y)) => Some(
            if lower == (y < x) {
                y
            } else {
                x
            },
        ),
        (Some(x), None) => Some(x),
        (None, y) => y,
    }
}

/// The best price of a list of levels; levels without a readable price do not
/// count.
pub open spec fn best_price(levels: Seq<JsonView>, lower: bool) -> Option<i64>
    decreases levels.len(),
{
    if levels.len() == 0 {
        None
    } else {
        better(
            best_price(levels.drop_last(), lower),
            levels.last().field_amount("price"@),
            lower,
        )
    }
}

/// The best price of a list of levels.
pub fn find_best(levels: &Vec<Json>, lower: bool) -> (r: Option<i64>)
    ensures
        r == best_price(views(levels@), lower),
        opt_amount_ok(r),
{
    let mut best: Option<i64> = None;
    let mut i: usize = 0;
    let ghost all = views(levels@);
    assert(all.take(0) =~= Seq::empty());
    while i < levels.len()
        invariant
            i <= levels@.len(),
            all == views(levels@),
            best == best_price(all.take(i as int), lower),
            opt_amount_ok(best),
        decreases levels@.len() - i,
    {
        let price: Option<i64> = levels[i].get_amount("price");
        best = match (best, price) {
            (Some(x), Some(y)) => if lower == (y < x) {
                Some(y)
            } else {
                Some(x)
            },
            (Some(x), None) => Some(x),
            (None, y) => y,
        };
        i = i + 1;
        assert(all.take(i as int).drop_last() =~= all.take(i as int - 1));
    }
    assert(all.take(i as int) =~= all);
    best
}

/// The best ask is a price of the list that no other undercuts, and the best bid
/// one that no other exceeds; there is none only where no level has a readable
/// price.
pub proof fn best_price_is_extreme(levels: Seq<JsonView>, lower: bool, i: int)
    requires
        0 <= i < levels.len(),
        levels[i].field_amount("price"@) is Some,
    ensures
        best_price(levels, lower) is Some,
        lower ==> best_price(levels, lower)->0 <= levels[i].field_amount("price"@)->0,
        !lower ==> best_price(levels, lower)->0 >= levels[i].field_amount("price"@)->0,
        exists|j: int|
            0 <= j < levels.len() && #[trigger] levels[j].field_amount("price"@) == best_price(
                levels,
                lower,
            ),
    decreases levels.len(),
{
    let front = levels.drop_last();
    let n = levels.len() - 1;
    if best_price(front, lower) is Some {
        lemma_best_is_listed(front, lower);
        let j = choose|j: int|
            0 <= j < front.len() && #[trigger] front[j].field_amount("price"@) == best_price(
                front,
                lower,
            );
        assert(levels[j] == front[j]);
        if i < n {
            assert(front[i] == levels[i]);
            best_price_is_extreme(front, lower, i);
        }
    } else if i < n {
        assert(front[i] == levels[i]);
        best_price_is_extreme(front, lower, i);
    }
    assert(levels[n] == levels.last());
    assert(levels[n].field_amount("price"@) == best_price(levels, lower) || best_price(
        levels,
        lower,
    ) == best_price(front, lower));
}

proof fn lemma_best_is_listed(levels: Seq<JsonView>, lower: bool)
    requires
        best_price(levels, lower) is Some,
    ensures
        exists|j: int|
            0 <= j < levels.len() && #[trigger] levels[j].field_amount("price"@) == best_price(
                levels,
                lower,
            ),
    decreases levels.len(),
{
    let front = levels.drop_last();
    let n = levels.len() - 1;
    assert(levels[n] == levels.last());
    if levels[n].field_amount("price"@) != best_price(levels, lower) {
        lemma_best_is_listed(front, lower);
        let j = choose|j: int|
            0 <= j < front.len() && #[trigger] front[j].field_amount("price"@) == best_price(
                front,
                lower,
            );
        assert(levels[j] == front[j]);
    }
}

/// The best bid and the best ask of a book, where both are known.
pub open spec fn best_of_book(v: JsonView) -> Option<(i64, i64)> {
    match (v.field_items("asks"@), v.field_items("bids"@)) {
        (Some(asks), Some(bids)) => match (best_price(asks, true), best_price(bids, false)) {
            (Some(ask), Some(bid)) => Some((bid, ask)),
            _ => None,
        },
        _ => None,
    }
}

/// The best bid and the best ask of a book.
pub fn read_best(v: &Json) -> (r: Option<(i64, i64)>)
    ensures
        r == best_of_book(v@),
{
    match (v.get_array("asks"), v.get_array("bids")) {
        (Some(asks), Some(bids)) => match (find_best(asks, true), find_best(bids, false)) {
            (Some(ask), Some(bid)) => Some((bid, ask)),
            _ => None,
        },
        _ => None,
    }
}

// ── Levels ──────────────────────────────────────────────────────

/// How a level is written: an object with a price and a size, or a pair.
#[derive(Debug, Clone, Copy, PartialEq, Eq, Structural)]
pub enum LevelForm {
    Object,
    Pair,
}

/// The level that a value stands for, where it stands for one.
pub open spec fn level_of(v: JsonView, form: LevelForm) -> Option<PriceLevel> {
    let (price, size) = match form {
        LevelForm::Object => (v.field_amount("price"@), v.field_amount("size"@)),
        LevelForm::Pair => match v.items() {
            Some(items) => (
                crate::json::read_amount(
                    if items.len() > 0 {
                        items[0].text()
                    } else {
                        None
                    },
                ),
                crate::json::read_amount(
                    if items.len() > 1 {
                        items[1].text()
                    } else {
                        None
                    },
                ),
            ),
            None => (None, None),
        },
    };
    match (price, size) {
        (Some(price), Some(size)) => Some(PriceLevel { price, size }),
        _ => None,
    }
}

/// The levels that a list stands for; values that stand for none are left out.
pub open spec fn levels_of(items: Seq<JsonView>, form: LevelForm) -> Seq<PriceLevel>
    decreases items.len(),
{
    if items.len() == 0 {
        Seq::empty()
    } else {
        let front = levels_of(items.drop_last(), form);
        match level_of(items.last(), form) {
            Some(level) => front.push(level),
            None => front,
        }
    }
}

/// The levels under a key; none where there is no list.
pub open spec fn levels_at(v: JsonView, key: Seq<char>, form: LevelForm) -> Seq<PriceLevel> {
    match v.field_items(key) {
        Some(items) => levels_of(items, form),
        None => Seq::empty(),
    }
}

/// Every price and size is within range.
pub open spec fn levels_ok(levels: Seq<PriceLevel>) -> bool {
    forall|i: int|
        0 <= i < levels.len() ==> amount_ok((#[trigger] levels[i]).price as int) && amount_ok(
            levels[i].size as int,
        )
}

fn amount_at(items: &Vec<Json>, i: usize) -> (r: Option<i64>)
    ensures
        r == crate::json::read_amount(
            if i < items@.len() {
                views(items@)[i as int].text()
            } else {
                None
            },
        ),
        opt_amount_ok(r),
{
    if i < items.len() {
        match items[i].as_str() {
            Some(t) => crate::fixed::parse_amount(t),
            None => None,
        }
    } else {
        None
    }
}

fn read_level(v: &Json, form: LevelForm) -> (r: Option<PriceLevel>)
    ensures
        r == level_of(v@, form),
        r matches Some(l) ==> amount_ok(l.price as int) && amount_ok(l.size as int),
{
    let (price, size): (Option<i64>, Option<i64>) = match form {
        LevelForm::Object => (v.get_amount("price"), v.get_amount("size")),
        LevelForm::Pair => match v.as_array() {
            Some(items) => (amount_at(items, 0), amount_at(items, 1)),
            None => (None, None),
        },
    };
    match (price, size) {
        (Some(price), Some(size)) => Some(PriceLevel { price, size }),
        _ => None,
    }
}

/// The levels under a key.
pub fn read_levels(v: &Json, key: &str, form: LevelForm) -> (r: Vec<PriceLevel>)
    ensures
        r@ == levels_at(v@, key@, form),
        levels_ok(r@),
{
    let mut out: Vec<PriceLevel> = Vec::new();
    if let Some(items) = v.get_array(key) {
        let ghost all = views(items@);
        let mut i: usize = 0;
        assert(all.take(0) =~= Seq::empty());
        assert(out@ =~= levels_of(all.take(0), form));
        while i < items.len()
            invariant
                i <= items@.len(),
                all == views(items@),
                out@ == levels_of(all.take(i as int), form),
                levels_ok(out@),
            decreases items@.len() - i,
        {
            if let Some(level) = read_level(&items[i], form) {
                out.push(level);
            }
            i = i + 1;
            assert(all.take(i as int).drop_last() =~= all.take(i as int - 1));
        }
        assert(all.take(i as int) =~= all);
    } else {
        assert(out@ =~= Seq::empty());
    }
    out
}

/// The first of a book's best prices is its bid, which no listed bid exceeds, and
/// the second its ask, which no listed ask undercuts.
pub proof fn books_give_bid_and_ask(v: JsonView, i: int, j: int)
    requires
        v.field_items("asks"@) is Some,
        v.field_items("bids"@) is Some,
        0 <= i < v.field_items("asks"@)->0.len(),
        0 <= j < v.field_items("bids"@)->0.len(),
        v.field_items("asks"@)->0[i].field_amount("price"@) is Some,
        v.field_items("bids"@)->0[j].field_amount("price"@) is Some,
    ensures
        match best_of_book(v) {
            Some((bid, ask)) => {
                &&& bid >= v.field_items("bids"@)->0[j].field_amount("price"@)->0
                &&& ask <= v.field_items("asks"@)->0[i].field_amount("price"@)->0
            },
            None => false,
        },
{
    best_price_is_extreme(v.field_items("asks"@)->0, true, i);
    best_price_is_extreme(v.field_items("bids"@)->0, false, j);
}

/// A further value of a list adds its level behind the others, or none.
pub proof fn levels_follow_the_list(items: Seq<JsonView>, item: JsonView, form: LevelForm)
    ensures
        levels_of(Seq::empty(), form) == Seq::<PriceLevel>::empty(),
        level_of(item, form) is None ==> levels_of(items.push(item), form) == levels_of(
            items,
            form,
        ),
        level_of(item, form) is Some ==> levels_of(items.push(item), form) == levels_of(
            items,
            form,
        ).push(level_of(item, form)->0),
        item.field_amount("price"@) is Some && item.field_amount("size"@) is Some ==> level_of(
            item,
            LevelForm::Object,
        ) is Some && level_of(item, LevelForm::Object)->0.price == item.field_amount("price"@)->0
            && level_of(item, LevelForm::Object)->0.size == item.field_amount("size"@)->0,
        item.field_amount("price"@) is None || item.field_amount("size"@) is None ==> level_of(
            item,
            LevelForm::Object,
        ) is None,
        level_of(item, LevelForm::Pair) matches Some(l) ==> item.items() is Some
            && item.items()->0.len() >= 2 && crate::json::read_amount(item.items()->0[0].text())
            == Some(l.price) && crate::json::read_amount(item.items()->0[1].text()) == Some(l.size),
{
    assert(items.push(item).drop_last() =~= items);
}

} // verus!
