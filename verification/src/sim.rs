//! Replaying recorded events at their pace.

use vstd::prelude::*;

use crate::fixed::MICRO;

verus! {

/// A quotient rounded towards zero.
pub open spec fn cut_off(n: int, d: int) -> int {
    if (n >= 0) == (d > 0) {
        crate::fixed::magnitude(n) / crate::fixed::magnitude(d)
    } else {
        -(crate::fixed::magnitude(n) / crate::fixed::magnitude(d))
    }
}

/// How long to wait before an event, in microseconds: until as much time has
/// passed since the start of the replay as between the first event and this one,
/// divided by the speed-up; nothing where it is late.
pub open spec fn wait_for(
    event_us: int,
    first_us: int,
    wall_start_us: int,
    now_us: int,
    speedup: int,
) -> int {
    let due = wall_start_us + cut_off((event_us - first_us) * MICRO, speedup);
    if due > now_us {
        due - now_us
    } else {
        0
    }
}

/// How long to wait before an event, in microseconds. The speed-up counts
/// millionths.
pub fn wait_us(event_us: i64, first_us: i64, wall_start_us: i64, now_us: i64, speedup: i64) -> (r:
    u128)
    requires
        speedup != 0,
    ensures
        r == wait_for(
            event_us as int,
            first_us as int,
            wall_start_us as int,
            now_us as int,
            speedup as int,
        ),
{
    let n: i128 = (event_us as i128 - first_us as i128) * 1_000_000;
    let d: i128 = speedup as i128;
    let q: i128 = crate::fixed::abs(n) / crate::fixed::abs(d);
    proof {
        let m = crate::fixed::magnitude(n as int);
        let k = crate::fixed::magnitude(d as int);
        vstd::arithmetic::div_mod::lemma_div_is_ordered_by_denominator(m, 1, k);
        vstd::arithmetic::div_mod::lemma_div_basics(m);
        vstd::arithmetic::div_mod::lemma_div_pos_is_pos(m, k);
    }
    let offset: i128 = if (n >= 0) == (d > 0) {
        q
    } else {
        -q
    };
    let due: i128 = wall_start_us as i128 + offset;
    if due > now_us as i128 {
        (due - now_us as i128) as u128
    } else {
        0
    }
}

/// The first event waits for nothing once the replay has started, and at double
/// speed a wait is never longer.
pub proof fn replay_keeps_pace(
    event_us: int,
    first_us: int,
    wall_start_us: int,
    now_us: int,
    speedup: int,
    faster: int,
)
    requires
        wall_start_us <= now_us,
        first_us <= event_us,
        0 < speedup <= faster,
    ensures
        wait_for(first_us, first_us, wall_start_us, now_us, speedup) == 0,
        wait_for(event_us, first_us, wall_start_us, now_us, faster) <= wait_for(
            event_us,
            first_us,
            wall_start_us,
            now_us,
            speedup,
        ),
{
    assert(0int / speedup == 0) by (nonlinear_arith)
        requires
            speedup > 0,
    ;
    vstd::arithmetic::div_mod::lemma_div_is_ordered_by_denominator(
        (event_us - first_us) * MICRO,
        speedup,
        faster,
    );
}

/// A wait ends when as much time has passed since the start as the recording took
/// at the speed-up, to the microsecond; a late event waits for nothing.
pub proof fn waits_end_when_due(
    event_us: int,
    first_us: int,
    wall_start_us: int,
    now_us: int,
    speedup: int,
)
    requires
        first_us <= event_us,
        speedup > 0,
    ensures
        ({
            let wait = wait_for(event_us, first_us, wall_start_us, now_us, speedup);
            let passed = now_us + wait - wall_start_us;
            &&& wait >= 0
            &&& wait > 0 ==> passed * speedup <= (event_us - first_us) * 1_000_000 < (passed + 1)
                * speedup
            &&& wait == 0 ==> (event_us - first_us) * 1_000_000 < (passed + 1) * speedup
        }),
{
    let n = (event_us - first_us) * 1_000_000;
    let q = n / speedup;
    vstd::arithmetic::div_mod::lemma_fundamental_div_mod(n, speedup);
    assert(speedup * q <= n < speedup * q + speedup);
    let passed = now_us + wait_for(event_us, first_us, wall_start_us, now_us, speedup)
        - wall_start_us;
    assert(passed >= q);
    assert(n < (passed + 1) * speedup) by (nonlinear_arith)
        requires
            n < speedup * q + speedup,
            passed >= q,
            speedup > 0,
    ;
    assert(passed == q ==> passed * speedup <= n) by (nonlinear_arith)
        requires
            speedup * q <= n,
    ;
}

} // verus!
