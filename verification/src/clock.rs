//! Times.

use vstd::prelude::*;

verus! {

/// A time in milliseconds in whole seconds, rounded towards zero.
pub open spec fn seconds_of(ms: int) -> int {
    if ms >= 0 {
        ms / 1000
    } else {
        -((-ms) / 1000)
    }
}

/// A time in milliseconds in whole seconds, rounded towards zero.
pub fn whole_seconds(ms: i64) -> (r: i128)
    ensures
        r == seconds_of(ms as int),
{
    let wide: i128 = ms as i128;
    if wide >= 0 {
        wide / 1000
    } else {
        let up: i128 = -wide;
        -(up / 1000)
    }
}

/// Whole seconds since a window opened; negative before.
pub open spec fn elapsed(now_ms: int, window_start_ts: int) -> int {
    seconds_of(now_ms) - window_start_ts
}

/// Whole seconds since a window opened; negative before.
pub fn elapsed_s(now_ms: i64, window_start_ts: i64) -> (r: i128)
    ensures
        r == elapsed(now_ms as int, window_start_ts as int),
        -0x2_0000_0000_0000_0000 < r < 0x2_0000_0000_0000_0000,
{
    whole_seconds(now_ms) - window_start_ts as i128
}

/// A number of 64 bits read as a signed one.
pub open spec fn signed_of(n: u64) -> int {
    if n <= i64::MAX {
        n as int
    } else {
        n - 0x1_0000_0000_0000_0000
    }
}

/// Reads a number of 64 bits as a signed one.
pub fn to_signed(n: u64) -> (r: i128)
    ensures
        r == signed_of(n),
{
    if n <= i64::MAX as u64 {
        n as i128
    } else {
        n as i128 - 0x1_0000_0000_0000_0000
    }
}

/// The length of a window, in seconds.
pub const WINDOW_SECONDS: i64 = 300;

/// The start of the window that a time in seconds is in; for a time before the
/// epoch, the start of the next.
pub open spec fn window_start(now: int) -> int {
    if now >= 0 {
        now - now % 300
    } else {
        now + (-now) % 300
    }
}

/// The start of the window that a time in seconds is in.
pub fn current_window(now: i64) -> (r: i64)
    ensures
        r == window_start(now as int),
{
    if now >= 0 {
        now - now % WINDOW_SECONDS
    } else {
        let wide: i128 = -(now as i128);
        (now as i128 + wide % 300) as i64
    }
}

/// A window starts at a multiple of its length, and the time is within it; a
/// window later than the epoch's is entered at its start.
pub proof fn windows_tile_time(now: int)
    requires
        now >= 0,
    ensures
        window_start(now) % 300 == 0,
        window_start(now) <= now < window_start(now) + 300,
        window_start(window_start(now)) == window_start(now),
{
}

/// A time in whole seconds is the time in milliseconds without its last three
/// digits; a window has lasted for as many seconds as lie between.
pub proof fn seconds_drop_the_milliseconds(ms: int, window_start_ts: int)
    ensures
        ms >= 0 ==> 1000 * seconds_of(ms) <= ms < 1000 * seconds_of(ms) + 1000,
        seconds_of(-ms) == -seconds_of(ms),
        elapsed(ms, window_start_ts) + window_start_ts == seconds_of(ms),
{
}

/// Below the middle of its range a number of 64 bits reads as itself, and above it
/// as what it lacks to the end of the range.
pub proof fn signed_numbers_wrap_once(n: u64)
    ensures
        n <= 0x7fff_ffff_ffff_ffff ==> signed_of(n) == n,
        n > 0x7fff_ffff_ffff_ffff ==> signed_of(n) < 0 && signed_of(n) + 0xffff_ffff_ffff_ffff + 1
            == n,
{
}

/// Before the epoch the windows mirror those after it.
pub proof fn windows_mirror_at_the_epoch(now: int)
    requires
        now >= 0,
    ensures
        window_start(-now) == -window_start(now),
{
}

} // verus!
