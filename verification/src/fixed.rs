//! Fixed-point amounts.
//!
//! Prices, sizes, basis points, scores and dollar amounts are integers that
//! count millionths: `650_000` is a price of 65 cents, `20_000_000` is a size of
//! twenty shares. Venue prices have a handful of decimals, so they are exact.

use vstd::arithmetic::power::pow;
use vstd::prelude::*;
use vstd::string::StringExecFns;

use crate::text::{
    all_digits, chars_of, digit, digit_value, digits_value, lemma_digits_value_grows, nat_string,
    nat_text, read_digits, };

verus! {

/// One whole unit (a dollar, a share, a basis point).
pub const MICRO: i64 = 1_000_000;

/// One cent.
pub const CENT: i64 = 10_000;

/// The largest magnitude of an amount that a feed may deliver: three trillion
/// units, of which sums of three fit in 64 bits.
pub const MAX_AMOUNT: i64 = 3_000_000_000_000_000_000;

/// The largest magnitude of a numerator or denominator of the divisions below.
pub const WIDE: i128 = 10_000_000_000_000_000_000_000_000_000_000_000_000;

/// Whether an amount is within the range that the arithmetic admits.
pub open spec fn amount_ok(x: int) -> bool {
    -MAX_AMOUNT <= x <= MAX_AMOUNT
}

/// Whether an optional amount, where present, is within range.
pub open spec fn opt_amount_ok(x: Option<i64>) -> bool {
    match x {
        Some(v) => amount_ok(v as int),
        None => true,
    }
}

// ── Division ────────────────────────────────────────────────────

/// `n / d` rounded to the nearest integer, halves away from zero.
pub open spec fn rounded(n: int, d: int) -> int {
    if n >= 0 {
        (2 * n + d) / (2 * d)
    } else {
        -((-2 * n + d) / (2 * d))
    }
}

/// Divides and rounds to the nearest integer, halves away from zero.
pub fn div_round(n: i128, d: i128) -> (r: i128)
    requires
        0 < d <= WIDE,
        -WIDE <= n <= WIDE,
    ensures
        r == rounded(n as int, d as int),
{
    if n >= 0 {
        (2 * n + d) / (2 * d)
    } else {
        let m: i128 = -n;
        -((2 * m + d) / (2 * d))
    }
}

/// Divides and rounds down.
pub fn div_floor(n: i128, d: i128) -> (r: i128)
    requires
        0 < d <= WIDE,
        -WIDE <= n <= WIDE,
    ensures
        r == n as int / d as int,
{
    if n >= 0 {
        n / d
    } else {
        let up: i128 = (-n + d - 1) / d;
        proof {
            lemma_floor_of_negative(-n as int, d as int);
        }
        -up
    }
}

proof fn lemma_floor_of_negative(m: int, d: int)
    requires
        d > 0,
        m > 0,
    ensures
        -((m + d - 1) / d) == (-m) / d,
{
    let q = (m + d - 1) / d;
    let r = (m + d - 1) % d;
    vstd::arithmetic::div_mod::lemma_fundamental_div_mod(m + d - 1, d);
    assert(d * q + r == m + d - 1);
    assert(0 <= r < d);
    let rem = r - (d - 1) + d - 1;
    // -m == d * (-q) + (d - 1 - r)
    assert(-m == (-q) * d + (d - 1 - r)) by (nonlinear_arith)
        requires
            d * q + r == m + d - 1,
    ;
    vstd::arithmetic::div_mod::lemma_fundamental_div_mod_converse(-m, d, -q, d - 1 - r);
}

/// The bounds of a rounded quotient.
pub proof fn rounding_is_nearest(n: int, d: int)
    requires
        d > 0,
    ensures
        2 * n - d <= 2 * (rounded(n, d) * d) <= 2 * n + d,
{
    if n >= 0 {
        let q = (2 * n + d) / (2 * d);
        let r = (2 * n + d) % (2 * d);
        vstd::arithmetic::div_mod::lemma_fundamental_div_mod(2 * n + d, 2 * d);
        assert((2 * d) * q == 2 * (q * d)) by (nonlinear_arith);
    } else {
        let q = (-2 * n + d) / (2 * d);
        let r = (-2 * n + d) % (2 * d);
        vstd::arithmetic::div_mod::lemma_fundamental_div_mod(-2 * n + d, 2 * d);
        assert((2 * d) * q == 2 * (q * d)) by (nonlinear_arith);
        assert((-q) * d == -(q * d)) by (nonlinear_arith);
    }
}

/// A rounded quotient lies between integer bounds that the quotient lies between.
pub proof fn rounding_keeps_bounds(n: int, d: int, lo: int, hi: int)
    requires
        d > 0,
        lo * d <= n <= hi * d,
    ensures
        lo <= rounded(n, d) <= hi,
{
    rounding_is_nearest(n, d);
    let q = rounded(n, d);
    assert(lo <= q) by (nonlinear_arith)
        requires
            d > 0,
            lo * d <= n,
            2 * n - d <= 2 * (q * d),
    ;
    assert(q <= hi) by (nonlinear_arith)
        requires
            d > 0,
            n <= hi * d,
            2 * (q * d) <= 2 * n + d,
    ;
}

/// Rounding keeps the sign: the quotient of opposite numbers is opposite.
pub proof fn rounding_is_odd(n: int, d: int)
    requires
        d > 0,
    ensures
        rounded(-n, d) == -rounded(n, d),
{
    if n == 0 {
        assert(d / (2 * d) == 0) by (nonlinear_arith)
            requires
                d > 0,
        ;
    }
}

/// A larger number has no smaller rounded quotient.
pub proof fn lemma_rounding_grows(n: int, more: int, d: int)
    requires
        d > 0,
        n <= more,
    ensures
        rounded(n, d) <= rounded(more, d),
{
    if n >= 0 {
        vstd::arithmetic::div_mod::lemma_div_is_ordered(2 * n + d, 2 * more + d, 2 * d);
    } else if more < 0 {
        vstd::arithmetic::div_mod::lemma_div_is_ordered(-2 * more + d, -2 * n + d, 2 * d);
    } else {
        vstd::arithmetic::div_mod::lemma_div_pos_is_pos(2 * more + d, 2 * d);
        vstd::arithmetic::div_mod::lemma_div_pos_is_pos(-2 * n + d, 2 * d);
    }
}

/// `n / d` rounded to the nearest integer, halves away from zero, for a divisor
/// of either sign.
pub open spec fn quotient(n: int, d: int) -> int {
    if d > 0 {
        rounded(n, d)
    } else {
        rounded(-n, -d)
    }
}

/// Divides by a number of either sign and rounds to the nearest.
pub fn div_nearest(n: i128, d: i128) -> (r: i128)
    requires
        d != 0,
        -WIDE <= d <= WIDE,
        -WIDE <= n <= WIDE,
    ensures
        r == quotient(n as int, d as int),
        -magnitude(n as int) <= r <= magnitude(n as int),
{
    proof {
        lemma_quotient_bounds(n as int, d as int);
    }
    if d > 0 {
        div_round(n, d)
    } else {
        div_round(-n, -d)
    }
}

/// A quotient is no larger than its numerator.
pub proof fn lemma_quotient_bounds(n: int, d: int)
    requires
        d != 0,
    ensures
        -magnitude(n) <= quotient(n, d) <= magnitude(n),
{
    let k = magnitude(d);
    let m = if d > 0 {
        n
    } else {
        -n
    };
    let b = magnitude(n);
    assert(-b * k <= m <= b * k) by (nonlinear_arith)
        requires
            k >= 1,
            -b <= m <= b,
    ;
    rounding_keeps_bounds(m, k, -b, b);
}

/// The magnitude of a product of bounded factors.
pub proof fn lemma_product_bounds(a: int, b: int, m: int, k: int)
    requires
        -m <= a <= m,
        -k <= b <= k,
    ensures
        -(m * k) <= a * b <= m * k,
{
    assert(-(m * k) <= a * b <= m * k) by (nonlinear_arith)
        requires
            -m <= a <= m,
            -k <= b <= k,
    ;
}

/// The product of two amounts, in millionths.
pub open spec fn product(a: int, b: int) -> int {
    rounded(a * b, MICRO as int)
}

/// The magnitude of a number.
pub open spec fn magnitude(x: int) -> int {
    if x < 0 {
        -x
    } else {
        x
    }
}

/// The magnitude of a number.
pub fn abs(x: i128) -> (r: i128)
    requires
        x > i128::MIN,
    ensures
        r == magnitude(x as int),
{
    if x < 0 {
        -x
    } else {
        x
    }
}

/// `x` moved into the range from `lo` to `hi`: first up to `lo`, then down to `hi`.
pub open spec fn clamped(x: int, lo: int, hi: int) -> int {
    let up = if x > lo {
        x
    } else {
        lo
    };
    if up < hi {
        up
    } else {
        hi
    }
}

/// Moves a number into a range.
pub fn clamp(x: i128, lo: i128, hi: i128) -> (r: i128)
    ensures
        r == clamped(x as int, lo as int, hi as int),
{
    let up: i128 = if x > lo {
        x
    } else {
        lo
    };
    if up < hi {
        up
    } else {
        hi
    }
}

pub open spec fn min_of(a: int, b: int) -> int {
    if a < b {
        a
    } else {
        b
    }
}

pub open spec fn max_of(a: int, b: int) -> int {
    if a > b {
        a
    } else {
        b
    }
}

/// The smaller of two numbers.
pub fn min(a: i128, b: i128) -> (r: i128)
    ensures
        r == min_of(a as int, b as int),
{
    if a < b {
        a
    } else {
        b
    }
}

/// The larger of two numbers.
pub fn max(a: i128, b: i128) -> (r: i128)
    ensures
        r == max_of(a as int, b as int),
{
    if a > b {
        a
    } else {
        b
    }
}

/// A price rounded to whole cents.
pub open spec fn to_cents(x: int) -> int {
    rounded(x, CENT as int) * CENT
}

/// Rounds a price to whole cents.
pub fn round_cents(x: i128) -> (r: i128)
    requires
        -4 * MAX_AMOUNT <= x <= 4 * MAX_AMOUNT,
    ensures
        r == to_cents(x as int),
        x - CENT < r < x + CENT,
{
    proof {
        rounding_is_nearest(x as int, CENT as int);
    }
    div_round(x, CENT as i128) * CENT as i128
}

/// A price rounded to cents is a number of whole cents.
pub proof fn lemma_whole_cents(x: int)
    ensures
        to_cents(x) % (CENT as int) == 0,
{
    let q = rounded(x, CENT as int);
    assert((q * CENT) % (CENT as int) == 0) by (nonlinear_arith)
        requires
            CENT == 10_000,
    ;
}

/// Whole cents stay as they are.
pub proof fn lemma_cents_are_fixed(n: int)
    ensures
        to_cents(n * CENT) == n * CENT,
{
    rounding_keeps_bounds(n * CENT, CENT as int, n, n);
}

/// A higher price rounds to no fewer cents.
pub proof fn lemma_cents_grow(x: int, y: int)
    requires
        x <= y,
    ensures
        to_cents(x) <= to_cents(y),
{
    lemma_rounding_grows(x, y, CENT as int);
}

// ── Reading decimals ────────────────────────────────────────────

/// The pieces of a decimal numeral: sign, digits before and behind the point,
/// and the power of ten of its exponent.
pub ghost struct Decimal {
    pub negative: bool,
    pub whole: Seq<char>,
    pub fraction: Seq<char>,
    pub exponent: int,
}

/// The position of the first character that `stop` accepts, or the length.
pub open spec fn first_where(s: Seq<char>, stop: spec_fn(char) -> bool) -> int
    decreases s.len(),
{
    if s.len() == 0 {
        0
    } else if stop(s[0]) {
        0
    } else {
        1 + first_where(s.skip(1), stop)
    }
}

/// Whether a character introduces an exponent.
pub open spec fn is_exponent_mark(c: char) -> bool {
    c == 'e' || c == 'E'
}

/// Whether a character is the decimal point.
pub open spec fn is_point(c: char) -> bool {
    c == '.'
}

pub open spec fn exponent_at(s: Seq<char>) -> int {
    first_where(s, |c: char| is_exponent_mark(c))
}

pub open spec fn point_at(s: Seq<char>) -> int {
    first_where(s, |c: char| is_point(c))
}

/// Reads a mantissa (digits with an optional point, at least one digit).
pub open spec fn mantissa(s: Seq<char>) -> Option<(Seq<char>, Seq<char>)> {
    let p = point_at(s);
    let whole = s.take(p);
    let fraction = if p < s.len() {
        s.skip(p + 1)
    } else {
        Seq::<char>::empty()
    };
    if all_digits(whole) && all_digits(fraction) && whole.len() + fraction.len() > 0 {
        Some((whole, fraction))
    } else {
        None
    }
}

/// The sign in front of a text, and the rest.
pub open spec fn signed_rest(s: Seq<char>) -> (bool, Seq<char>) {
    if s.len() > 0 && s[0] == '-' {
        (true, s.skip(1))
    } else if s.len() > 0 && s[0] == '+' {
        (false, s.skip(1))
    } else {
        (false, s)
    }
}

/// The exponent that a text (without its mark) stands for.
pub open spec fn exponent_value(s: Seq<char>) -> Option<int> {
    let (negative, digits) = signed_rest(s);
    if digits.len() == 0 || !all_digits(digits) {
        None
    } else if negative {
        Some(-(digits_value(digits) as int))
    } else {
        Some(digits_value(digits) as int)
    }
}

/// The decimal numeral that a text is, if it is one: an optional sign, digits
/// with an optional point, and an optional exponent.
pub open spec fn decimal(s: Seq<char>) -> Option<Decimal> {
    let (negative, body) = signed_rest(s);
    let e = exponent_at(body);
    match mantissa(body.take(e)) {
        None => None,
        Some((whole, fraction)) => if e < body.len() {
            match exponent_value(body.skip(e + 1)) {
                None => None,
                Some(exponent) => Some(Decimal { negative, whole, fraction, exponent }),
            }
        } else {
            Some(Decimal { negative, whole, fraction, exponent: 0 })
        },
    }
}

/// The first `k` digits of `digits` as a number, continued by zeros where there
/// are fewer, and counted up by one where the next digit is five or more.
pub open spec fn leading_value(digits: Seq<char>, k: int) -> int {
    if k < 0 {
        0
    } else if k >= digits.len() {
        digits_value(digits) * pow(10, (k - digits.len()) as nat)
    } else {
        digits_value(digits.take(k)) + if digit_value(digits[k])->0 >= 5 {
            1int
        } else {
            0int
        }
    }
}

/// The amount, in millionths, that a decimal numeral stands for: rounded to the
/// nearest, halves away from zero.
pub open spec fn decimal_amount(d: Decimal) -> int {
    let size = leading_value(d.whole + d.fraction, d.whole.len() + d.exponent + 6);
    if d.negative {
        -size
    } else {
        size
    }
}

/// The amount that a text stands for: nothing where the text is no decimal
/// numeral, or stands for more than the largest amount.
pub open spec fn amount_of(s: Seq<char>) -> Option<i64> {
    match decimal(s) {
        None => None,
        Some(d) => if amount_ok(decimal_amount(d)) {
            Some(decimal_amount(d) as i64)
        } else {
            None
        },
    }
}

proof fn lemma_first_where(s: Seq<char>, stop: spec_fn(char) -> bool, k: int)
    requires
        0 <= k <= s.len(),
        forall|j: int| 0 <= j < k ==> !stop(#[trigger] s[j]),
        k < s.len() ==> stop(s[k]),
    ensures
        first_where(s, stop) == k,
    decreases s.len(),
{
    if s.len() > 0 && k > 0 {
        assert(!stop(s[0]));
        assert forall|j: int| 0 <= j < k - 1 implies !stop(#[trigger] s.skip(1)[j]) by {
            assert(s.skip(1)[j] == s[j + 1]);
        }
        lemma_first_where(s.skip(1), stop, k - 1);
    }
}

fn find_exponent(s: &[char]) -> (r: usize)
    ensures
        r == exponent_at(s@),
        r <= s@.len(),
{
    let mut i: usize = 0;
    while i < s.len() && s[i] != 'e' && s[i] != 'E'
        invariant
            i <= s@.len(),
            forall|j: int| 0 <= j < i ==> !is_exponent_mark(#[trigger] s@[j]),
        decreases s@.len() - i,
    {
        i = i + 1;
    }
    proof {
        lemma_first_where(s@, |c: char| is_exponent_mark(c), i as int);
    }
    i
}

fn find_point(s: &[char]) -> (r: usize)
    ensures
        r == point_at(s@),
        r <= s@.len(),
{
    let mut i: usize = 0;
    while i < s.len() && s[i] != '.'
        invariant
            i <= s@.len(),
            forall|j: int| 0 <= j < i ==> !is_point(#[trigger] s@[j]),
        decreases s@.len() - i,
    {
        i = i + 1;
    }
    proof {
        lemma_first_where(s@, |c: char| is_point(c), i as int);
    }
    i
}

fn only_digits(s: &[char]) -> (r: bool)
    ensures
        r == all_digits(s@),
{
    let mut i: usize = 0;
    while i < s.len()
        invariant
            i <= s@.len(),
            forall|j: int| 0 <= j < i ==> digit_value(#[trigger] s@[j]) is Some,
        decreases s@.len() - i,
    {
        if digit(s[i]).is_none() {
            assert(digit_value(s@[i as int]) is None);
            return false;
        }
        i = i + 1;
    }
    true
}

/// The digits of a mantissa in one run, and how many stand before the point.
fn read_mantissa(s: &[char]) -> (r: Option<(Vec<char>, usize)>)
    ensures
        match r {
            Some((digits, whole)) => match mantissa(s@) {
                Some((w, f)) => digits@ == w + f && whole == w.len() && all_digits(digits@)
                    && digits@.len() <= s@.len(),
                None => false,
            },
            None => mantissa(s@) is None,
        },
{
    let p: usize = find_point(s);
    let whole: &[char] = vstd::slice::slice_subrange(s, 0, p);
    let fraction: &[char] = if p < s.len() {
        vstd::slice::slice_subrange(s, p + 1, s.len())
    } else {
        vstd::slice::slice_subrange(s, p, s.len())
    };
    proof {
        assert(whole@ =~= s@.take(p as int));
        if p < s@.len() {
            assert(fraction@ =~= s@.skip(p as int + 1));
        } else {
            assert(fraction@ =~= Seq::<char>::empty());
        }
    }
    if !only_digits(whole) || !only_digits(fraction) || (whole.len() == 0 && fraction.len() == 0) {
        return None;
    }
    let mut digits: Vec<char> = Vec::new();
    let mut i: usize = 0;
    while i < whole.len()
        invariant
            i <= whole@.len(),
            digits@ =~= whole@.take(i as int),
        decreases whole@.len() - i,
    {
        digits.push(whole[i]);
        i = i + 1;
    }
    let mut k: usize = 0;
    while k < fraction.len()
        invariant
            k <= fraction@.len(),
            digits@ =~= whole@ + fraction@.take(k as int),
        decreases fraction@.len() - k,
    {
        digits.push(fraction[k]);
        k = k + 1;
    }
    proof {
        assert(digits@ =~= whole@ + fraction@);
        assert(all_digits(digits@)) by {
            assert forall|j: int| 0 <= j < digits@.len() implies digit_value(
                #[trigger] digits@[j],
            ) is Some by {
                if j < whole@.len() {
                    assert(digits@[j] == whole@[j]);
                } else {
                    assert(digits@[j] == fraction@[j - whole@.len()]);
                }
            }
        }
    }
    Some((digits, p))
}

proof fn lemma_zero_digits(digits: Seq<char>, k: int)
    requires
        all_digits(digits),
        digits_value(digits) == 0,
    ensures
        leading_value(digits, k) == 0,
{
    assert(0 * pow(10, (k - digits.len()) as nat) == 0);
    if 0 <= k < digits.len() {
        lemma_digits_value_grows(digits, k);
        lemma_digits_value_grows(digits, k + 1);
        assert(digits.take(k + 1).drop_last() =~= digits.take(k));
        assert(digits.take(k + 1).last() == digits[k]);
        assert(digit_value(digits[k]) is Some);
    }
}

proof fn lemma_scaled_up(digits: Seq<char>, k: int)
    requires
        digits_value(digits) >= 1,
        k >= digits.len() + 19,
    ensures
        leading_value(digits, k) > MAX_AMOUNT,
{
    let n = (k - digits.len()) as nat;
    vstd::arithmetic::power::lemma_pow_increases(10, 19, n);
    assert(pow(10, 19) == 10_000_000_000_000_000_000) by {
        reveal(pow);
        reveal_with_fuel(pow, 21);
    }
    assert(digits_value(digits) * pow(10, n) >= pow(10, n)) by (nonlinear_arith)
        requires
            digits_value(digits) >= 1,
            pow(10, n) >= 0,
    ;
}

/// Appends `zeros` zeros to `v`; nothing where that exceeds the largest amount.
fn scale_up(v: u64, zeros: u128) -> (r: Option<u64>)
    requires
        1 <= v <= MAX_AMOUNT,
    ensures
        match r {
            Some(x) => x == v * pow(10, zeros as nat) && x <= MAX_AMOUNT,
            None => v * pow(10, zeros as nat) > MAX_AMOUNT,
        },
{
    let mut x: u64 = v;
    let mut left: u128 = zeros;
    while left > 0
        invariant
            1 <= x <= MAX_AMOUNT,
            x * pow(10, left as nat) == v * pow(10, zeros as nat),
        decreases left,
    {
        let ghost before = x as int;
        let ghost p = pow(10, (left - 1) as nat);
        proof {
            reveal(pow);
            assert(pow(10, left as nat) == 10 * p);
            vstd::arithmetic::power::lemma_pow_positive(10, (left - 1) as nat);
            assert(before * (10 * p) == (before * 10) * p) by (nonlinear_arith);
        }
        if x > MAX_AMOUNT as u64 / 10 {
            proof {
                assert((before * 10) * p >= before * 10) by (nonlinear_arith)
                    requires
                        p >= 1,
                        before >= 0,
                ;
            }
            return None;
        }
        x = x * 10;
        left = left - 1;
    }
    proof {
        reveal(pow);
        assert(pow(10, 0) == 1);
    }
    Some(x)
}

/// The first `k` digits as a number, with the rounding of `leading_value`.
fn read_leading(digits: &[char], k: i128) -> (r: Option<u64>)
    requires
        all_digits(digits@),
    ensures
        match r {
            Some(x) => x == leading_value(digits@, k as int) && x <= MAX_AMOUNT,
            None => leading_value(digits@, k as int) > MAX_AMOUNT,
        },
{
    if k < 0 {
        return Some(0);
    }
    let size: usize = digits.len();
    if k >= size as i128 {
        if size == 0 {
            proof {
                assert(digits@ =~= Seq::<char>::empty());
                assert(digits_value(digits@) == 0);
                lemma_zero_digits(digits@, k as int);
            }
            return Some(0);
        }
        match read_digits(digits, MAX_AMOUNT as u64) {
            None => {
                proof {
                    let n = (k - digits@.len()) as nat;
                    let p = pow(10, n);
                    vstd::arithmetic::power::lemma_pow_positive(10, n);
                    let v = digits_value(digits@);
                    assert(v * p >= v) by (nonlinear_arith)
                        requires
                            p >= 1,
                            v >= 0,
                    ;
                }
                None
            },
            Some(v) => if v == 0 {
                proof {
                    lemma_zero_digits(digits@, k as int);
                }
                Some(0)
            } else {
                scale_up(v, (k - size as i128) as u128)
            },
        }
    } else {
        let cut: usize = k as usize;
        let head: &[char] = vstd::slice::slice_subrange(digits, 0, cut);
        proof {
            assert(head@ =~= digits@.take(k as int));
            assert(digit_value(digits@[k as int]) is Some);
        }
        let bump: u64 = match digit(digits[cut]) {
            Some(d) => if d >= 5 {
                1
            } else {
                0
            },
            None => 0,
        };
        if cut == 0 {
            return Some(bump);
        }
        proof {
            assert(all_digits(head@)) by {
                assert forall|j: int| 0 <= j < head@.len() implies digit_value(
                    #[trigger] head@[j],
                ) is Some by {
                    assert(head@[j] == digits@[j]);
                }
            }
        }
        match read_digits(head, MAX_AMOUNT as u64) {
            None => None,
            Some(v) => if v + bump > MAX_AMOUNT as u64 {
                None
            } else {
                Some(v + bump)
            },
        }
    }
}

/// An exponent as it was read: a number, or one beyond every 64-bit number.
enum Exponent {
    Fits(i128),
    Beyond(bool),
}

/// Reads the exponent that stands behind its mark.
fn read_exponent(tail: &[char]) -> (r: Option<Exponent>)
    ensures
        match r {
            None => exponent_value(tail@) is None,
            Some(Exponent::Fits(v)) => exponent_value(tail@) == Some(v as int) && -0x1_0000_0000_0000_0000
                < v < 0x1_0000_0000_0000_0000,
            Some(Exponent::Beyond(negative)) => exponent_value(tail@) is Some && tail@.len() >= 20
                && (if negative {
                exponent_value(tail@)->0 < -(u64::MAX as int)
            } else {
                exponent_value(tail@)->0 > u64::MAX
            }),
        },
{
    let signed: bool = tail.len() > 0 && (tail[0] == '-' || tail[0] == '+');
    let negative: bool = tail.len() > 0 && tail[0] == '-';
    let from: usize = if signed {
        1
    } else {
        0
    };
    let power: &[char] = vstd::slice::slice_subrange(tail, from, tail.len());
    assert(power@ =~= signed_rest(tail@).1);
    if power.len() == 0 || !only_digits(power) {
        return None;
    }
    match read_digits(power, u64::MAX) {
        Some(v) => if negative {
            Some(Exponent::Fits(-(v as i128)))
        } else {
            Some(Exponent::Fits(v as i128))
        },
        None => {
            proof {
                lemma_many_digits(power@);
            }
            Some(Exponent::Beyond(negative))
        },
    }
}

/// Reads an amount, as std's `parse::<f64>` reads a number: a decimal numeral
/// with an optional sign, point and exponent. Numbers that are not finite, or
/// larger than the largest amount, are no amounts.
pub fn parse_amount(text: &str) -> (r: Option<i64>)
    ensures
        r == amount_of(text@),
        opt_amount_ok(r),
{
    let chars: Vec<char> = chars_of(text);
    let total: usize = chars.len();
    let signed: bool = total > 0 && (chars[0] == '-' || chars[0] == '+');
    let negative: bool = total > 0 && chars[0] == '-';
    let from: usize = if signed {
        1
    } else {
        0
    };
    let body: &[char] = vstd::slice::slice_subrange(chars.as_slice(), from, total);
    assert(body@ =~= signed_rest(text@).1);
    let e: usize = find_exponent(body);
    let head: &[char] = vstd::slice::slice_subrange(body, 0, e);
    assert(head@ =~= body@.take(e as int));
    let (digits, whole): (Vec<char>, usize) = match read_mantissa(head) {
        None => {
            return None;
        },
        Some(m) => m,
    };
    let exponent: Exponent = if e < body.len() {
        let tail: &[char] = vstd::slice::slice_subrange(body, e + 1, body.len());
        assert(tail@ =~= body@.skip(e as int + 1));
        match read_exponent(tail) {
            None => {
                return None;
            },
            Some(x) => x,
        }
    } else {
        Exponent::Fits(0)
    };
    let ghost d = decimal(text@)->0;
    assert(d.whole + d.fraction == digits@);
    assert(d.whole.len() == whole);
    let ghost k = d.whole.len() + d.exponent + 6;
    let size: Option<u64> = match exponent {
        Exponent::Fits(x) => read_leading(digits.as_slice(), whole as i128 + x + 6),
        Exponent::Beyond(downward) => if downward {
            assert(k < 0);
            Some(0)
        } else {
            match read_digits(digits.as_slice(), 0) {
                Some(_) => {
                    proof {
                        lemma_zero_digits(digits@, k);
                    }
                    Some(0)
                },
                None => {
                    proof {
                        lemma_scaled_up(digits@, k);
                    }
                    None
                },
            }
        },
    };
    assert(match size {
        Some(x) => x == leading_value(digits@, k) && x <= MAX_AMOUNT,
        None => leading_value(digits@, k) > MAX_AMOUNT,
    });
    match size {
        None => None,
        Some(x) => if negative {
            Some(-(x as i64))
        } else {
            Some(x as i64)
        },
    }
}

/// A run of digits that stands for more than every 64-bit number has at least
/// twenty of them.
proof fn lemma_many_digits(s: Seq<char>)
    requires
        all_digits(s),
        digits_value(s) > u64::MAX,
    ensures
        s.len() >= 20,
{
    lemma_digits_bound(s);
    if s.len() < 20 {
        vstd::arithmetic::power::lemma_pow_increases(10, s.len(), 19);
        assert(pow(10, 19) == 10_000_000_000_000_000_000) by {
            reveal(pow);
            reveal_with_fuel(pow, 21);
        }
    }
}

proof fn lemma_digits_bound(s: Seq<char>)
    ensures
        digits_value(s) < pow(10, s.len()),
    decreases s.len(),
{
    reveal(pow);
    if s.len() > 0 {
        lemma_digits_bound(s.drop_last());
        assert(pow(10, s.len()) == 10 * pow(10, (s.len() - 1) as nat));
    }
}

// ── Writing decimals ────────────────────────────────────────────

/// Ten to the power of `digits`, for up to six digits.
pub open spec fn ten_to(digits: int) -> int {
    if digits <= 0 {
        1
    } else if digits == 1 {
        10
    } else if digits == 2 {
        100
    } else if digits == 3 {
        1_000
    } else if digits == 4 {
        10_000
    } else if digits == 5 {
        100_000
    } else {
        1_000_000
    }
}

fn power_of_ten(digits: u8) -> (r: i128)
    ensures
        r == ten_to(digits as int),
{
    if digits == 0 {
        1
    } else if digits == 1 {
        10
    } else if digits == 2 {
        100
    } else if digits == 3 {
        1_000
    } else if digits == 4 {
        10_000
    } else if digits == 5 {
        100_000
    } else {
        1_000_000
    }
}

/// A numeral with zeros in front, `width` characters wide.
pub open spec fn padded(n: nat, width: nat) -> Seq<char>
    decreases width,
{
    if width == 0 {
        Seq::<char>::empty()
    } else {
        padded(n / 10, (width - 1) as nat).push(crate::text::digit_char(n % 10))
    }
}

/// Five to the sixth: a multiple of so many millionths is a binary fraction.
pub const BINARY_STEP: i128 = 15_625;

/// A magnitude in units, as it is printed: to the nearest. A half goes to the even
/// neighbour where it is a binary fraction, and else away from zero.
pub open spec fn printed_units(m: int, unit: int) -> int {
    let q = rounded(m, unit);
    if 2 * (m % unit) == unit && m % (BINARY_STEP as int) == 0 && q % 2 == 1 {
        q - 1
    } else {
        q
    }
}

/// An amount written with a fixed number of digits behind the point, rounded to
/// the nearest. A negative amount keeps its sign.
pub open spec fn fixed_text(x: int, digits: int) -> Seq<char> {
    let scaled = printed_units(magnitude(x), ten_to(6 - digits));
    let sign = if x < 0 {
        seq!['-']
    } else {
        Seq::<char>::empty()
    };
    let whole = nat_text((scaled / ten_to(digits)) as nat);
    if digits == 0 {
        sign + whole
    } else {
        sign + whole + seq!['.'] + padded((scaled % ten_to(digits)) as nat, digits as nat)
    }
}

fn padded_string(n: u128, width: u8) -> (r: String)
    ensures
        r@ == padded(n as nat, width as nat),
    decreases width,
{
    if width == 0 {
        String::new()
    } else {
        let mut s: String = padded_string(n / 10, width - 1);
        let last: String = nat_string(n % 10);
        s.append(last.as_str());
        proof {
            assert(s@ =~= padded(n as nat / 10, (width - 1) as nat).push(
                crate::text::digit_char(n as nat % 10),
            ));
        }
        s
    }
}

/// Writes an amount with a fixed number of digits behind the point.
pub fn fixed_string(x: i128, digits: u8) -> (r: String)
    requires
        digits <= 6,
        -WIDE <= x <= WIDE,
    ensures
        r@ == fixed_text(x as int, digits as int),
{
    let m: i128 = abs(x);
    let unit: i128 = power_of_ten(6 - digits);
    let base: i128 = power_of_ten(digits);
    let nearest: i128 = div_round(m, unit);
    proof {
        rounding_keeps_bounds(m as int, unit as int, 0, m as int);
    }
    let half: bool = 2 * (m % unit) == unit;
    let scaled: i128 = if half && m % BINARY_STEP == 0 && nearest % 2 == 1 {
        nearest - 1
    } else {
        nearest
    };
    let mut s: String = String::new();
    if x < 0 {
        s.push('-');
    }
    let whole: String = nat_string((scaled / base) as u128);
    s.append(whole.as_str());
    if digits > 0 {
        s.push('.');
        let rest: String = padded_string((scaled % base) as u128, digits);
        s.append(rest.as_str());
    }
    proof {
        assert(s@ =~= fixed_text(x as int, digits as int));
    }
    s
}

/// What the small helpers give: the larger and the smaller of two numbers, the
/// distance from zero, and the nearest number of a range.
pub proof fn helpers_pick_from_their_arguments(a: int, b: int, x: int)
    requires
        a <= b,
    ensures
        min_of(a, b) == a && min_of(b, a) == a,
        max_of(a, b) == b && max_of(b, a) == b,
        magnitude(b - a) == b - a && magnitude(a - b) == b - a,
        a <= x <= b ==> clamped(x, a, b) == x,
        x <= a ==> clamped(x, a, b) == a,
        x >= b ==> clamped(x, a, b) == b,
{
}

/// A price in cents is a multiple of a cent, and none is nearer to the price.
pub proof fn cents_are_nearest(x: int)
    ensures
        to_cents(x) % 10_000 == 0,
        x - 5_000 <= to_cents(x) <= x + 5_000,
{
    lemma_whole_cents(x);
    rounding_is_nearest(x, CENT as int);
}

/// A printed magnitude is the nearest number of units: a half goes to the even
/// neighbour where the magnitude is a binary fraction, and up where it is none.
pub proof fn printed_units_are_nearest(m: int, unit: int)
    requires
        m >= 0,
        unit > 0,
    ensures
        2 * m - unit <= 2 * (printed_units(m, unit) * unit) <= 2 * m + unit,
        2 * (m % unit) == unit && m % 15_625 == 0 ==> printed_units(m, unit) % 2 == 0,
        2 * (m % unit) == unit && m % 15_625 != 0 ==> 2 * (printed_units(m, unit) * unit) == 2 * m
            + unit,
        2 * (m % unit) != unit ==> printed_units(m, unit) == rounded(m, unit),
{
    rounding_is_nearest(m, unit);
    if 2 * (m % unit) == unit {
        let k = m / unit;
        vstd::arithmetic::div_mod::lemma_fundamental_div_mod(m, unit);
        assert(2 * m + unit == (2 * unit) * (k + 1)) by (nonlinear_arith)
            requires
                m == unit * k + m % unit,
                2 * (m % unit) == unit,
        ;
        vstd::arithmetic::div_mod::lemma_div_multiples_vanish(k + 1, 2 * unit);
        assert(rounded(m, unit) == k + 1);
        assert(2 * ((k + 1) * unit) == 2 * m + unit) by (nonlinear_arith)
            requires
                2 * m + unit == (2 * unit) * (k + 1),
        ;
        assert(2 * (k * unit) == 2 * m - unit) by (nonlinear_arith)
            requires
                2 * m + unit == (2 * unit) * (k + 1),
        ;
    }
}

/// A numeral stands for its digits, shifted by its exponent against those behind
/// its point, and counted in millionths: exactly where it has no finer ones. A sign
/// turns it around.
pub proof fn numerals_stand_for_their_digits(d: Decimal)
    requires
        d.exponent + 6 >= d.fraction.len(),
    ensures
        decimal_amount(d) == if d.negative {
            -(digits_value(d.whole + d.fraction) * pow(
                10,
                (d.exponent + 6 - d.fraction.len()) as nat,
            ))
        } else {
            digits_value(d.whole + d.fraction) * pow(
                10,
                (d.exponent + 6 - d.fraction.len()) as nat,
            )
        },
{
    assert(d.whole.len() + d.exponent + 6 - (d.whole + d.fraction).len() == d.exponent + 6
        - d.fraction.len());
}

/// A number that is cut counts up by one where the first digit left out is five or
/// more; in front of all digits it is zero.
pub proof fn cut_numbers_round(digits: Seq<char>, k: int)
    requires
        k < digits.len(),
    ensures
        k < 0 ==> leading_value(digits, k) == 0,
        k >= 0 && digit_value(digits[k])->0 >= 5 ==> leading_value(digits, k) == digits_value(
            digits.take(k),
        ) + 1,
        k >= 0 && digit_value(digits[k])->0 < 5 ==> leading_value(digits, k) == digits_value(
            digits.take(k),
        ),
{
}

/// A mantissa is made of digits on both sides of its point, and has one at least.
pub proof fn mantissas_are_digits(s: Seq<char>)
    ensures
        mantissa(s) matches Some((whole, fraction)) ==> {
            &&& all_digits(whole)
            &&& all_digits(fraction)
            &&& whole.len() > 0 || fraction.len() > 0
        },
{
}

/// Each further digit is worth ten times as much, up to six.
pub proof fn digits_are_worth_tenfold(digits: int)
    requires
        0 <= digits < 6,
    ensures
        ten_to(0) == 1,
        ten_to(digits + 1) == 10 * ten_to(digits),
{
}

} // verus!
