//! Text helpers: characters, decimal numerals and substring search.

use vstd::prelude::*;
use vstd::string::{StrSliceExecFns, StringExecFns};

verus! {

/// `String::push` of std: appends one character to the end of the string.
pub assume_specification[ String::push ](s: &mut String, c: char)
    ensures
        final(s)@ == old(s)@.push(c),
;

/// The result of std's Unicode lower-casing of a text.
pub uninterp spec fn lowercase(text: Seq<char>) -> Seq<char>;

/// Calls `str::to_lowercase` of std. The contract only names the result: which
/// characters change, and into what, is given by the Unicode tables of std.
#[verifier::external_body]
pub(crate) fn to_lower(text: &str) -> (r: String)
    ensures
        r@ == lowercase(text@),
{
    text.to_lowercase()
}

/// What std prints for an optional text under `{:?}`.
pub uninterp spec fn debug_text(text: Option<Seq<char>>) -> Seq<char>;

/// std's `Debug` of an `Option<String>`. The contract names the outcome, and
/// claims that it depends on the value alone.
#[verifier::external_body]
pub(crate) fn debug_of(text: &Option<String>) -> (r: String)
    ensures
        r@ == debug_text(
            match *text {
                Some(t) => Some(t@),
                None => None,
            },
        ),
{
    format!("{:?}", text)
}

/// The characters of a text, in order.
pub fn chars_of(text: &str) -> (r: Vec<char>)
    ensures
        r@ == text@,
{
    let n: usize = text.unicode_len();
    let mut out: Vec<char> = Vec::new();
    let mut i: usize = 0;
    while i < n
        invariant
            n == text@.len(),
            i <= n,
            out@ == text@.take(i as int),
        decreases n - i,
    {
        let c: char = text.get_char(i);
        proof {
            assert(text@.take(i as int + 1) =~= text@.take(i as int).push(c));
        }
        out.push(c);
        i = i + 1;
    }
    proof {
        assert(text@.take(n as int) =~= text@);
    }
    out
}

/// A text made of the given characters.
pub fn text_of(chars: &[char]) -> (r: String)
    ensures
        r@ == chars@,
{
    let mut out: String = String::new();
    let mut i: usize = 0;
    while i < chars.len()
        invariant
            i <= chars@.len(),
            out@ == chars@.take(i as int),
        decreases chars@.len() - i,
    {
        proof {
            assert(chars@.take(i as int + 1) =~= chars@.take(i as int).push(chars@[i as int]));
        }
        out.push(chars[i]);
        i = i + 1;
    }
    proof {
        assert(chars@.take(i as int) =~= chars@);
    }
    out
}

/// Whether two texts hold the same characters.
pub fn same(a: &str, b: &str) -> (r: bool)
    ensures
        r == (a@ == b@),
{
    a.to_owned() == b.to_owned()
}

// ── Numerals ────────────────────────────────────────────────────

/// The character of a decimal digit.
pub open spec fn digit_char(d: nat) -> char {
    if d == 0 {
        '0'
    } else if d == 1 {
        '1'
    } else if d == 2 {
        '2'
    } else if d == 3 {
        '3'
    } else if d == 4 {
        '4'
    } else if d == 5 {
        '5'
    } else if d == 6 {
        '6'
    } else if d == 7 {
        '7'
    } else if d == 8 {
        '8'
    } else {
        '9'
    }
}

/// The value of a digit character, or nothing for another character.
pub open spec fn digit_value(c: char) -> Option<nat> {
    if '0' <= c && c <= '9' {
        Some((c as nat - '0' as nat) as nat)
    } else {
        None
    }
}

/// The decimal numeral of a natural number, without leading zeros.
pub open spec fn nat_text(n: nat) -> Seq<char>
    decreases n,
{
    if n < 10 {
        seq![digit_char(n)]
    } else {
        nat_text(n / 10).push(digit_char(n % 10))
    }
}

/// The decimal numeral of an integer, with a minus sign where it is negative.
pub open spec fn int_text(n: int) -> Seq<char> {
    if n < 0 {
        seq!['-'] + nat_text((-n) as nat)
    } else {
        nat_text(n as nat)
    }
}

/// Whether every character is a decimal digit.
pub open spec fn all_digits(s: Seq<char>) -> bool {
    forall|i: int| 0 <= i < s.len() ==> digit_value(#[trigger] s[i]) is Some
}

/// The number that a run of digits stands for.
pub open spec fn digits_value(s: Seq<char>) -> nat
    decreases s.len(),
{
    if s.len() == 0 {
        0
    } else {
        match digit_value(s.last()) {
            Some(d) => digits_value(s.drop_last()) * 10 + d,
            None => digits_value(s.drop_last()) * 10,
        }
    }
}

fn digit_of(d: u128) -> (c: char)
    requires
        d < 10,
    ensures
        c == digit_char(d as nat),
{
    if d == 0 {
        '0'
    } else if d == 1 {
        '1'
    } else if d == 2 {
        '2'
    } else if d == 3 {
        '3'
    } else if d == 4 {
        '4'
    } else if d == 5 {
        '5'
    } else if d == 6 {
        '6'
    } else if d == 7 {
        '7'
    } else if d == 8 {
        '8'
    } else {
        '9'
    }
}

/// Writes a natural number as a decimal numeral.
pub fn nat_string(n: u128) -> (r: String)
    ensures
        r@ == nat_text(n as nat),
    decreases n,
{
    if n < 10 {
        let mut s: String = String::new();
        s.push(digit_of(n));
        proof {
            assert(s@ =~= seq![digit_char(n as nat)]);
        }
        s
    } else {
        let mut s: String = nat_string(n / 10);
        s.push(digit_of(n % 10));
        s
    }
}

/// Writes an integer as a decimal numeral.
pub fn int_string(n: i128) -> (r: String)
    requires
        n > i128::MIN,
    ensures
        r@ == int_text(n as int),
{
    if n < 0 {
        let digits: String = nat_string((-n) as u128);
        let mut s: String = String::new();
        s.push('-');
        s.append(digits.as_str());
        proof {
            assert(s@ =~= seq!['-'] + nat_text((-n) as nat));
        }
        s
    } else {
        nat_string(n as u128)
    }
}

/// The value of one digit character.
pub fn digit(c: char) -> (r: Option<u8>)
    ensures
        match r {
            Some(d) => digit_value(c) == Some(d as nat) && d < 10,
            None => digit_value(c) is None,
        },
{
    if '0' <= c && c <= '9' {
        Some((c as u32 - '0' as u32) as u8)
    } else {
        None
    }
}

/// A numeral and its value agree: what is written is read back.
pub proof fn numeral_reads_back(n: nat)
    ensures
        all_digits(nat_text(n)),
        nat_text(n).len() > 0,
        digits_value(nat_text(n)) == n,
    decreases n,
{
    reveal_with_fuel(digits_value, 2);
    if n < 10 {
        assert(nat_text(n).drop_last() =~= Seq::<char>::empty());
        assert(nat_text(n).last() == digit_char(n));
    } else {
        numeral_reads_back(n / 10);
        let s = nat_text(n / 10);
        assert(nat_text(n) == s.push(digit_char(n % 10)));
        assert(nat_text(n).drop_last() =~= s);
        assert forall|i: int| 0 <= i < nat_text(n).len() implies digit_value(
            #[trigger] nat_text(n)[i],
        ) is Some by {
            if i < s.len() {
                assert(nat_text(n)[i] == s[i]);
            }
        }
    }
}

/// What a signed decimal integer numeral stands for, if the text is one: an
/// optional sign followed by at least one digit.
pub open spec fn signed_value(s: Seq<char>) -> Option<int> {
    let signed = s.len() > 0 && (s[0] == '+' || s[0] == '-');
    let digits = if signed {
        s.skip(1)
    } else {
        s
    };
    if digits.len() == 0 || !all_digits(digits) {
        None
    } else if signed && s[0] == '-' {
        Some(-(digits_value(digits) as int))
    } else {
        Some(digits_value(digits) as int)
    }
}

/// Reading an integer numeral gives back the integer that was written.
pub proof fn integer_reads_back(n: int)
    ensures
        signed_value(int_text(n)) == Some(n),
{
    if n < 0 {
        numeral_reads_back((-n) as nat);
        assert(int_text(n).skip(1) =~= nat_text((-n) as nat));
    } else {
        numeral_reads_back(n as nat);
        let s = nat_text(n as nat);
        assert(digit_value(s[0]) is Some);
    }
}

/// A longer run of digits stands for at least as much as a shorter prefix of it.
pub proof fn lemma_digits_value_grows(s: Seq<char>, k: int)
    requires
        0 <= k <= s.len(),
    ensures
        digits_value(s.take(k)) <= digits_value(s),
    decreases s.len() - k,
{
    if k < s.len() {
        lemma_digits_value_grows(s, k + 1);
        assert(s.take(k + 1).drop_last() =~= s.take(k));
    } else {
        assert(s.take(k) =~= s);
    }
}

/// Reads a run of digits; nothing where the text is no run of digits, is empty,
/// or stands for more than `limit`.
pub fn read_digits(chars: &[char], limit: u64) -> (r: Option<u64>)
    ensures
        match r {
            Some(v) => chars@.len() > 0 && all_digits(chars@) && v == digits_value(chars@) && v
                <= limit,
            None => chars@.len() == 0 || !all_digits(chars@) || digits_value(chars@) > limit,
        },
{
    if chars.len() == 0 {
        return None;
    }
    let mut total: u64 = 0;
    let mut over: bool = false;
    let mut i: usize = 0;
    while i < chars.len()
        invariant
            i <= chars@.len(),
            chars@.len() > 0,
            forall|j: int| 0 <= j < i ==> digit_value(#[trigger] chars@[j]) is Some,
            !over ==> total == digits_value(chars@.take(i as int)) && total <= limit,
            over ==> digits_value(chars@.take(i as int)) > limit,
        decreases chars@.len() - i,
    {
        match digit(chars[i]) {
            None => {
                assert(digit_value(chars@[i as int]) is None);
                return None;
            },
            Some(d) => {
                proof {
                    assert(chars@.take(i as int + 1).drop_last() =~= chars@.take(i as int));
                    assert(chars@.take(i as int + 1).last() == chars@[i as int]);
                }
                if !over {
                    let wide: u128 = total as u128 * 10 + d as u128;
                    if wide > limit as u128 {
                        over = true;
                    } else {
                        total = wide as u64;
                    }
                }
            },
        }
        i = i + 1;
    }
    proof {
        assert(chars@.take(i as int) =~= chars@);
    }
    if over {
        None
    } else {
        Some(total)
    }
}

/// Reads a signed integer, as std's `parse::<i64>` does.
pub fn parse_i64(text: &str) -> (r: Option<i64>)
    ensures
        match r {
            Some(v) => signed_value(text@) == Some(v as int),
            None => match signed_value(text@) {
                Some(n) => n < i64::MIN || n > i64::MAX,
                None => true,
            },
        },
{
    let chars: Vec<char> = chars_of(text);
    if chars.len() > 0 && (chars[0] == '+' || chars[0] == '-') {
        let rest: &[char] = vstd::slice::slice_subrange(chars.as_slice(), 1, chars.len());
        proof {
            assert(rest@ =~= text@.skip(1));
        }
        let limit: u64 = if chars[0] == '-' {
            9223372036854775808
        } else {
            9223372036854775807
        };
        match read_digits(rest, limit) {
            None => None,
            Some(v) => if chars[0] == '-' {
                Some((-(v as i128)) as i64)
            } else {
                Some(v as i64)
            },
        }
    } else {
        match read_digits(chars.as_slice(), 9223372036854775807) {
            None => None,
            Some(v) => Some(v as i64),
        }
    }
}

// ── Searching ───────────────────────────────────────────────────

/// Whether `needle` stands in `hay` at position `i`.
pub open spec fn stands_at(hay: Seq<char>, needle: Seq<char>, i: int) -> bool {
    0 <= i && i + needle.len() <= hay.len() && hay.subrange(i, i + needle.len()) == needle
}

/// Whether `needle` occurs somewhere in `hay`.
pub open spec fn occurs(hay: Seq<char>, needle: Seq<char>) -> bool {
    exists|i: int| stands_at(hay, needle, i)
}

fn matches_at(hay: &[char], needle: &[char], at: usize) -> (r: bool)
    requires
        at + needle@.len() <= hay@.len(),
    ensures
        r == stands_at(hay@, needle@, at as int),
{
    let mut k: usize = 0;
    let size: usize = hay.len();
    while k < needle.len()
        invariant
            k <= needle@.len(),
            size == hay@.len(),
            at + needle@.len() <= hay@.len(),
            forall|j: int| 0 <= j < k ==> hay@[at + j] == #[trigger] needle@[j],
        decreases needle@.len() - k,
    {
        if hay[at + k] != needle[k] {
            proof {
                assert(hay@.subrange(at as int, at + needle@.len())[k as int] != needle@[k as int]);
            }
            return false;
        }
        k = k + 1;
    }
    proof {
        assert(hay@.subrange(at as int, at + needle@.len()) =~= needle@);
    }
    true
}

/// Whether a text contains another.
pub fn contains(hay: &str, needle: &str) -> (r: bool)
    ensures
        r == occurs(hay@, needle@),
{
    let h: Vec<char> = chars_of(hay);
    let n: Vec<char> = chars_of(needle);
    if n.len() > h.len() {
        return false;
    }
    let last: usize = h.len() - n.len();
    let mut i: usize = 0;
    while i < last
        invariant
            h@ == hay@,
            n@ == needle@,
            n@.len() <= h@.len(),
            last == h@.len() - n@.len(),
            i <= last,
            forall|j: int| 0 <= j < i ==> !stands_at(hay@, needle@, j),
        decreases last - i,
    {
        if matches_at(h.as_slice(), n.as_slice(), i) {
            return true;
        }
        i = i + 1;
    }
    matches_at(h.as_slice(), n.as_slice(), last)
}

/// The part of a text behind the last occurrence of `mark`, or the whole text
/// where `mark` does not occur.
pub open spec fn after_last(s: Seq<char>, mark: char) -> Seq<char>
    decreases s.len(),
{
    if s.len() == 0 || s.last() == mark {
        Seq::<char>::empty()
    } else {
        after_last(s.drop_last(), mark).push(s.last())
    }
}

pub proof fn lemma_after_last(s: Seq<char>, mark: char, k: int)
    requires
        0 <= k <= s.len(),
        forall|j: int| k <= j < s.len() ==> s[j] != mark,
        k == 0 || s[k - 1] == mark,
    ensures
        after_last(s, mark) == s.skip(k),
    decreases s.len(),
{
    if s.len() == 0 || s.last() == mark {
        if s.len() > 0 {
            assert(k == s.len());
        }
        assert(s.skip(k) =~= Seq::<char>::empty());
    } else {
        if k == s.len() {
            assert(s[k - 1] == mark);
        }
        assert forall|j: int| k <= j < s.drop_last().len() implies s.drop_last()[j] != mark by {
            assert(s[j] != mark);
        }
        lemma_after_last(s.drop_last(), mark, k);
        assert(s.skip(k) =~= s.drop_last().skip(k).push(s.last()));
    }
}

/// The last piece of a text that `mark` cuts into pieces.
pub fn last_piece(text: &str, mark: char) -> (r: String)
    ensures
        r@ == after_last(text@, mark),
{
    let chars: Vec<char> = chars_of(text);
    let mut k: usize = chars.len();
    while k > 0 && chars[k - 1] != mark
        invariant
            k <= chars@.len(),
            forall|j: int| k <= j < chars@.len() ==> chars@[j] != mark,
        decreases k,
    {
        k = k - 1;
    }
    proof {
        lemma_after_last(chars@, mark, k as int);
        assert(chars@.subrange(k as int, chars@.len() as int) =~= chars@.skip(k as int));
    }
    text_of(vstd::slice::slice_subrange(chars.as_slice(), k, chars.len()))
}

/// The characters of a text without those equal to `unwanted`.
pub open spec fn without_char(s: Seq<char>, unwanted: char) -> Seq<char>
    decreases s.len(),
{
    if s.len() == 0 {
        s
    } else if s.last() == unwanted {
        without_char(s.drop_last(), unwanted)
    } else {
        without_char(s.drop_last(), unwanted).push(s.last())
    }
}

/// Leaves out every occurrence of a character.
pub fn remove_char(text: &str, unwanted: char) -> (r: String)
    ensures
        r@ == without_char(text@, unwanted),
{
    let chars: Vec<char> = chars_of(text);
    let mut out: String = String::new();
    let mut i: usize = 0;
    while i < chars.len()
        invariant
            i <= chars@.len(),
            out@ == without_char(chars@.take(i as int), unwanted),
        decreases chars@.len() - i,
    {
        proof {
            assert(chars@.take(i as int + 1).drop_last() =~= chars@.take(i as int));
        }
        if chars[i] != unwanted {
            out.push(chars[i]);
        }
        i = i + 1;
    }
    proof {
        assert(chars@.take(i as int) =~= chars@);
    }
    out
}

/// A text with every occurrence of one character replaced by another.
pub open spec fn with_replaced(s: Seq<char>, from: char, to: char) -> Seq<char> {
    Seq::new(
        s.len(),
        |i: int|
            if s[i] == from {
                to
            } else {
                s[i]
            },
    )
}

/// Replaces every occurrence of a character by another.
pub fn replace_char(text: &str, from: char, to: char) -> (r: String)
    ensures
        r@ == with_replaced(text@, from, to),
{
    let chars: Vec<char> = chars_of(text);
    let mut out: String = String::new();
    let mut i: usize = 0;
    while i < chars.len()
        invariant
            i <= chars@.len(),
            out@ =~= with_replaced(chars@, from, to).take(i as int),
        decreases chars@.len() - i,
    {
        let c: char = if chars[i] == from {
            to
        } else {
            chars[i]
        };
        proof {
            assert(with_replaced(chars@, from, to).take(i as int + 1) =~= with_replaced(
                chars@,
                from,
                to,
            ).take(i as int).push(c));
        }
        out.push(c);
        i = i + 1;
    }
    proof {
        assert(with_replaced(chars@, from, to).take(i as int) =~= with_replaced(chars@, from, to));
    }
    out
}

/// Joins two texts.
pub fn join(a: &str, b: &str) -> (r: String)
    ensures
        r@ == a@ + b@,
{
    a.to_owned().concat(b)
}

/// Joins three texts.
pub fn join3(a: &str, b: &str, c: &str) -> (r: String)
    ensures
        r@ == a@ + b@ + c@,
{
    a.to_owned().concat(b).concat(c)
}

/// A text occurs between any two others, and where it occurs the characters agree
/// one by one.
pub proof fn parts_occur(front: Seq<char>, needle: Seq<char>, back: Seq<char>)
    ensures
        occurs(front + needle + back, needle),
        stands_at(front + needle + back, needle, front.len() as int),
{
    let hay = front + needle + back;
    assert(hay.subrange(front.len() as int, (front.len() + needle.len()) as int) =~= needle);
    assert(stands_at(hay, needle, front.len() as int));
}

/// Where a text stands, it lies within the other, and the characters agree one by
/// one.
pub proof fn occurrences_agree(hay: Seq<char>, needle: Seq<char>, i: int, j: int)
    requires
        stands_at(hay, needle, i),
        0 <= j < needle.len(),
    ensures
        0 <= i,
        i + needle.len() <= hay.len(),
        hay[i + j] == needle[j],
{
    assert(hay.subrange(i, i + needle.len())[j] == hay[i + j]);
}

/// A minus sign in front of digits turns their value around, a plus sign keeps it,
/// and no text without digits is a number.
pub proof fn signs_stand_in_front(digits: Seq<char>)
    requires
        all_digits(digits),
    ensures
        digits.len() > 0 ==> signed_value(digits) == Some(digits_value(digits) as int),
        digits.len() > 0 ==> signed_value(seq!['+'] + digits) == Some(digits_value(digits) as int),
        digits.len() > 0 ==> signed_value(seq!['-'] + digits) == Some(
            -(digits_value(digits) as int),
        ),
        digits.len() == 0 ==> signed_value(digits) is None && signed_value(seq!['-'] + digits) is None
            && signed_value(seq!['+'] + digits) is None,
{
    assert((seq!['-'] + digits).skip(1) =~= digits);
    assert((seq!['+'] + digits).skip(1) =~= digits);
    if digits.len() > 0 {
        assert(digit_value(digits[0]) is Some);
    }
}

} // verus!
