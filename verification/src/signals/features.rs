//! Features of two prices.

use vstd::prelude::*;

use crate::extended::Extended;
use crate::fixed::{amount_ok, div_nearest, quotient};

verus! {

/// By how much a price is off another, in basis points (amounts of them), for a
/// base other than zero.
pub open spec fn bps(now: int, base: int) -> int {
    quotient((now - base) * 10_000_000_000, base)
}

/// The largest magnitude of a return, in millionths of a basis point.
pub const MAX_BPS: i128 = 60_000_000_000_000_000_000_000_000_000;

/// By how much a price is off another, in basis points.
pub fn bps_return(now: i64, base: i64) -> (r: i128)
    requires
        amount_ok(now as int),
        amount_ok(base as int),
        base != 0,
    ensures
        r == bps(now as int, base as int),
        -MAX_BPS <= r <= MAX_BPS,
{
    div_nearest((now as i128 - base as i128) * 10_000_000_000, base as i128)
}

/// By how much a price is off any other, in basis points: from a base of zero
/// without bound, in the direction of the price, and undefined for zero itself.
pub open spec fn bps_from(now: int, base: int) -> Extended {
    if base != 0 {
        Extended::Number(bps(now, base) as i128)
    } else if now > 0 {
        Extended::Above
    } else if now < 0 {
        Extended::Below
    } else {
        Extended::Undefined
    }
}

/// By how much a price is off any other, in basis points.
pub fn return_from(now: i64, base: i64) -> (r: Extended)
    requires
        amount_ok(now as int),
        amount_ok(base as int),
    ensures
        r == bps_from(now as int, base as int),
        r.within(MAX_BPS as int),
{
    if base != 0 {
        Extended::Number(bps_return(now, base))
    } else if now > 0 {
        Extended::Above
    } else if now < 0 {
        Extended::Below
    } else {
        Extended::Undefined
    }
}

/// The move from one mid to another in basis points; zero from a mid of zero.
pub fn compute_move_bps(mid_now: i64, mid_then: i64) -> (r: i128)
    requires
        amount_ok(mid_now as int),
        amount_ok(mid_then as int),
    ensures
        r == if mid_then == 0 {
            0
        } else {
            bps(mid_now as int, mid_then as int)
        },
        mid_then > 0 ==> -mid_then <= 2 * (r * mid_then) - 2 * (mid_now - mid_then) * 10_000_000_000 <= mid_then,
{
    if mid_then == 0 {
        return 0;
    }
    proof {
        returns_are_relative_changes(mid_now as int, mid_then as int);
    }
    bps_return(mid_now, mid_then)
}

/// The exchange's premium over the oracle in basis points; zero for an oracle
/// price of zero.
pub fn compute_basis_bps(binance_mid: i64, chainlink_price: i64) -> (r: i128)
    requires
        amount_ok(binance_mid as int),
        amount_ok(chainlink_price as int),
    ensures
        r == if chainlink_price == 0 {
            0
        } else {
            bps(binance_mid as int, chainlink_price as int)
        },
        chainlink_price > 0 ==> -chainlink_price <= 2 * (r * chainlink_price) - 2 * (binance_mid - chainlink_price) * 10_000_000_000 <= chainlink_price,
{
    if chainlink_price == 0 {
        return 0;
    }
    proof {
        returns_are_relative_changes(binance_mid as int, chainlink_price as int);
    }
    bps_return(binance_mid, chainlink_price)
}

/// A price above its base gives no negative return, one below no positive one,
/// and the base itself none.
pub proof fn returns_point_the_right_way(now: int, base: int)
    requires
        base > 0,
    ensures
        now >= base ==> bps(now, base) >= 0,
        now <= base ==> bps(now, base) <= 0,
        bps(base, base) == 0,
{
    crate::fixed::rounding_keeps_bounds(0, base, 0, 0);
    if now <= base {
        crate::fixed::lemma_rounding_grows((now - base) * 10_000_000_000, 0, base);
    } else {
        crate::fixed::lemma_rounding_grows(0, (now - base) * 10_000_000_000, base);
    }
}

/// A return in basis points is the change over the base times ten thousand, up to
/// half a millionth of a basis point; a base of zero gives the direction of the price.
pub proof fn returns_are_relative_changes(now: int, base: int)
    ensures
        base != 0 ==> -crate::fixed::magnitude(base) <= 2 * (bps(now, base) * base) - 2 * (now - base)
            * 10_000_000_000 <= crate::fixed::magnitude(base),
        now > 0 ==> bps_from(now, 0) == Extended::Above,
        now < 0 ==> bps_from(now, 0) == Extended::Below,
        bps_from(0, 0) == Extended::Undefined,
        base != 0 ==> bps_from(now, base) == Extended::Number(bps(now, base) as i128),
{
    let n = (now - base) * 10_000_000_000;
    if base > 0 {
        crate::fixed::rounding_is_nearest(n, base);
    }
    if base < 0 {
        crate::fixed::rounding_is_nearest(-n, -base);
        let q = bps(now, base);
        assert(q * (-base) == -(q * base)) by (nonlinear_arith);
    }
}

} // verus!
