//! Text as sequences of characters: splitting, trimming, reading numbers and
//! writing them.

use vstd::prelude::*;
use crate::math::{min2, UNIT};

verus! {

/// The largest magnitude that `parse_decimal` hands out; larger numbers are
/// cut to it.
pub const NUMBER_CAP: i64 = 1_000_000_000_000_000;

/// `String::push` appends one character to the end of the string.
pub assume_specification[ String::push ](s: &mut String, ch: char)
    ensures
        final(s)@ == old(s)@.push(ch),
;

/// The characters of a string, in order.
pub fn to_chars(s: &str) -> (v: Vec<char>)
    ensures
        v@ == s@,
{
    let mut v: Vec<char> = Vec::new();
    for c in it: s.chars()
        invariant
            v@ == it.seq().take(it.index() as int),
            it.seq() == s@,
    {
        v.push(c);
    }
    v
}

/// The string made of the given characters.
pub fn from_chars(v: &Vec<char>) -> (s: String)
    ensures
        s@ == v@,
{
    let mut s: String = String::new();
    let mut i: usize = 0;
    while i < v.len()
        invariant
            i <= v.len(),
            s@ == v@.take(i as int),
        decreases v.len() - i,
    {
        s.push(v[i]);
        i += 1;
    }
    s
}

/// Whether two character vectors hold the same text.
pub fn chars_eq(a: &Vec<char>, b: &Vec<char>) -> (r: bool)
    ensures
        r == (a@ == b@),
{
    if a.len() != b.len() {
        return false;
    }
    let mut i: usize = 0;
    while i < a.len()
        invariant
            i <= a.len(),
            a.len() == b.len(),
            a@.take(i as int) == b@.take(i as int),
        decreases a.len() - i,
    {
        if a[i] != b[i] {
            assert(a@[i as int] != b@[i as int]);
            return false;
        }
        assert(a@.take(i + 1) == a@.take(i as int).push(a@[i as int]));
        assert(b@.take(i + 1) == b@.take(i as int).push(b@[i as int]));
        i += 1;
    }
    assert(a@.take(a.len() as int) == a@);
    assert(b@.take(b.len() as int) == b@);
    true
}

/// Whether two strings hold the same text.
pub fn str_eq(a: &str, b: &str) -> (r: bool)
    ensures
        r == (a@ == b@),
{
    let x: Vec<char> = to_chars(a);
    let y: Vec<char> = to_chars(b);
    chars_eq(&x, &y)
}

/// Whether `s` begins with `prefix`.
pub open spec fn starts_with_spec(s: Seq<char>, prefix: Seq<char>) -> bool {
    prefix.len() <= s.len() && s.take(prefix.len() as int) == prefix
}

/// Whether the text begins with `prefix`.
pub fn starts_with(s: &Vec<char>, prefix: &str) -> (r: bool)
    ensures
        r == starts_with_spec(s@, prefix@),
{
    let p: Vec<char> = to_chars(prefix);
    if p.len() > s.len() {
        return false;
    }
    let head: Vec<char> = slice_chars(s, 0, p.len());
    chars_eq(&head, &p)
}

/// A copy of the characters from `from` up to, not counting, `to`.
pub fn slice_chars(s: &Vec<char>, from: usize, to: usize) -> (r: Vec<char>)
    requires
        from <= to <= s.len(),
    ensures
        r@ == s@.subrange(from as int, to as int),
{
    let mut r: Vec<char> = Vec::new();
    let mut i: usize = from;
    while i < to
        invariant
            from <= i <= to <= s.len(),
            r@ == s@.subrange(from as int, i as int),
        decreases to - i,
    {
        r.push(s[i]);
        assert(s@.subrange(from as int, i + 1) == s@.subrange(from as int, i as int).push(
            s@[i as int],
        ));
        i += 1;
    }
    r
}

/// The place of the first `c` in `s`, or the length of `s` where it holds none.
pub open spec fn index_of(s: Seq<char>, c: char) -> int
    decreases s.len(),
{
    if s.len() == 0 {
        0
    } else if s[0] == c {
        0
    } else {
        1 + index_of(s.drop_first(), c)
    }
}

/// `index_of` is the one place below which no `c` stands and at which one
/// does, or the text ends.
pub proof fn lemma_index_of(s: Seq<char>, c: char, k: int)
    requires
        0 <= k <= s.len(),
        forall|j: int| 0 <= j < k ==> s[j] != c,
        k < s.len() ==> s[k] == c,
    ensures
        index_of(s, c) == k,
    decreases s.len(),
{
    if s.len() != 0 && s[0] != c {
        let t = s.drop_first();
        assert forall|j: int| 0 <= j < k - 1 implies t[j] != c by {
            assert(t[j] == s[j + 1]);
        }
        lemma_index_of(t, c, k - 1);
    }
}

/// Whether `c` occurs in `s`.
pub open spec fn contains_char(s: Seq<char>, c: char) -> bool {
    index_of(s, c) < s.len()
}

/// The place of the first `c` in the text at or after `from`, or the length
/// of the text where none follows.
pub fn find_char(s: &Vec<char>, from: usize, c: char) -> (k: usize)
    requires
        from <= s.len(),
    ensures
        from <= k <= s.len(),
        k - from == index_of(s@.subrange(from as int, s.len() as int), c),
{
    let mut k: usize = from;
    while k < s.len() && s[k] != c
        invariant
            from <= k <= s.len(),
            forall|j: int| from <= j < k ==> s@[j] != c,
        decreases s.len() - k,
    {
        k += 1;
    }
    proof {
        let rest = s@.subrange(from as int, s.len() as int);
        assert forall|j: int| 0 <= j < k - from implies rest[j] != c by {
            assert(rest[j] == s@[from + j]);
        }
        lemma_index_of(rest, c, k - from);
    }
    k
}

/// The pieces of `s` between the occurrences of `sep`. A text without `sep`
/// is one piece; two neighbouring separators hold an empty piece.
pub open spec fn split_spec(s: Seq<char>, sep: char) -> Seq<Seq<char>>
    decreases s.len(),
{
    let k = index_of(s, sep);
    if 0 <= k < s.len() {
        seq![s.take(k)] + split_spec(s.skip(k + 1), sep)
    } else {
        seq![s]
    }
}

/// The views of a vector of character vectors.
pub open spec fn views(v: Seq<Vec<char>>) -> Seq<Seq<char>> {
    Seq::new(v.len(), |i: int| v[i]@)
}

/// Cuts the text at every `sep`.
pub fn split(s: &Vec<char>, sep: char) -> (parts: Vec<Vec<char>>)
    ensures
        views(parts@) == split_spec(s@, sep),
        parts.len() >= 1,
{
    let mut parts: Vec<Vec<char>> = Vec::new();
    let mut start: usize = 0;
    proof {
        assert(s@.subrange(0, s.len() as int) == s@);
        assert(views(parts@) + split_spec(s@, sep) == split_spec(s@, sep));
    }
    loop
        invariant
            start <= s.len(),
            split_spec(s@, sep) == views(parts@) + split_spec(
                s@.subrange(start as int, s.len() as int),
                sep,
            ),
        decreases s.len() - start,
    {
        let ghost rest = s@.subrange(start as int, s.len() as int);
        let k: usize = find_char(s, start, sep);
        let piece: Vec<char> = slice_chars(s, start, k);
        let ghost before = views(parts@);
        parts.push(piece);
        proof {
            assert(piece@ == rest.take(k - start));
            assert(views(parts@) == before.push(piece@));
        }
        if k == s.len() {
            proof {
                assert(rest.take(k - start) == rest);
                assert(split_spec(rest, sep) == seq![rest]);
                assert(before + seq![rest] == before.push(rest));
            }
            return parts;
        }
        proof {
            assert(rest.skip(k - start + 1) == s@.subrange(k + 1, s.len() as int));
            assert(split_spec(rest, sep) == seq![rest.take(k - start)] + split_spec(
                rest.skip(k - start + 1),
                sep,
            ));
            assert(before + (seq![piece@] + split_spec(rest.skip(k - start + 1), sep))
                == before.push(piece@) + split_spec(rest.skip(k - start + 1), sep));
        }
        start = k + 1;
    }
}

/// Whether `c` is white space: a character with the Unicode property
/// `White_Space`.
pub open spec fn is_space(c: char) -> bool {
    let n = c as int;
    (0x09 <= n <= 0x0d) || n == 0x20 || n == 0x85 || n == 0xa0 || n == 0x1680 || (0x2000 <= n
        <= 0x200a) || n == 0x2028 || n == 0x2029 || n == 0x202f || n == 0x205f || n == 0x3000
}

/// `s` without the white space at its start.
pub open spec fn trim_start_spec(s: Seq<char>) -> Seq<char>
    decreases s.len(),
{
    if s.len() > 0 && is_space(s[0]) {
        trim_start_spec(s.drop_first())
    } else {
        s
    }
}

/// `s` without the white space at its end.
pub open spec fn trim_end_spec(s: Seq<char>) -> Seq<char>
    decreases s.len(),
{
    if s.len() > 0 && is_space(s.last()) {
        trim_end_spec(s.drop_last())
    } else {
        s
    }
}

/// `s` without the white space at its two ends.
pub open spec fn trim_spec(s: Seq<char>) -> Seq<char> {
    trim_end_spec(trim_start_spec(s))
}

/// Whether the character is white space.
pub fn char_is_space(c: char) -> (r: bool)
    ensures
        r == is_space(c),
{
    let n: u32 = c as u32;
    (0x09 <= n && n <= 0x0d) || n == 0x20 || n == 0x85 || n == 0xa0 || n == 0x1680 || (0x2000 <= n
        && n <= 0x200a) || n == 0x2028 || n == 0x2029 || n == 0x202f || n == 0x205f || n
        == 0x3000
}

proof fn lemma_trim_start(s: Seq<char>, k: int)
    requires
        0 <= k <= s.len(),
        forall|j: int| 0 <= j < k ==> is_space(s[j]),
        k < s.len() ==> !is_space(s[k]),
    ensures
        trim_start_spec(s) == s.skip(k),
    decreases s.len(),
{
    if k == 0 {
        assert(s.skip(0) == s);
    } else {
        let t = s.drop_first();
        assert forall|j: int| 0 <= j < k - 1 implies is_space(t[j]) by {
            assert(t[j] == s[j + 1]);
        }
        lemma_trim_start(t, k - 1);
        assert(t.skip(k - 1) == s.skip(k));
    }
}

proof fn lemma_trim_end(s: Seq<char>, k: int)
    requires
        0 <= k <= s.len(),
        forall|j: int| k <= j < s.len() ==> is_space(s[j]),
        k > 0 ==> !is_space(s[k - 1]),
    ensures
        trim_end_spec(s) == s.take(k),
    decreases s.len(),
{
    if k == s.len() {
        assert(s.take(k) == s);
    } else {
        let t = s.drop_last();
        lemma_trim_end(t, k);
        assert(t.take(k) == s.take(k));
    }
}

/// The text without the white space at its two ends.
pub fn trim(s: &Vec<char>) -> (r: Vec<char>)
    ensures
        r@ == trim_spec(s@),
{
    let mut a: usize = 0;
    while a < s.len() && char_is_space(s[a])
        invariant
            a <= s.len(),
            forall|j: int| 0 <= j < a ==> is_space(s@[j]),
        decreases s.len() - a,
    {
        a += 1;
    }
    let mut b: usize = s.len();
    while b > a && char_is_space(s[b - 1])
        invariant
            a <= b <= s.len(),
            forall|j: int| b <= j < s.len() ==> is_space(s@[j]),
        decreases b,
    {
        b -= 1;
    }
    proof {
        lemma_trim_start(s@, a as int);
        let t = s@.skip(a as int);
        assert forall|j: int| b - a <= j < t.len() implies is_space(t[j]) by {
            assert(t[j] == s@[a + j]);
        }
        if b > a {
            assert(t[b - a - 1] == s@[b - 1]);
        }
        lemma_trim_end(t, b - a);
        assert(t.take(b - a) == s@.subrange(a as int, b as int));
    }
    slice_chars(s, a, b)
}

/// Whether `c` is one of the ten decimal digits.
pub open spec fn is_digit(c: char) -> bool {
    '0' <= c <= '9'
}

/// The number that a decimal digit stands for.
pub open spec fn digit_value(c: char) -> int {
    c as int - 48
}

/// Whether every character of `s` is a decimal digit.
pub open spec fn all_digits(s: Seq<char>) -> bool {
    forall|i: int| 0 <= i < s.len() ==> is_digit(#[trigger] s[i])
}

/// The number that a run of decimal digits stands for; 0 for the empty run.
pub open spec fn digits_value(s: Seq<char>) -> int
    decreases s.len(),
{
    if s.len() == 0 {
        0
    } else {
        digits_value(s.drop_last()) * 10 + digit_value(s.last())
    }
}

/// The digit at place `i` of a fraction, 0 beyond its end.
pub open spec fn fraction_digit(s: Seq<char>, i: int) -> int {
    if 0 <= i < s.len() {
        digit_value(s[i])
    } else {
        0
    }
}

/// The first four digits of a fraction in fixed-point steps; further digits
/// are dropped.
pub open spec fn fraction_value(s: Seq<char>) -> int {
    fraction_digit(s, 0) * 1000 + fraction_digit(s, 1) * 100 + fraction_digit(s, 2) * 10
        + fraction_digit(s, 3)
}

/// Whether the text opens with a plus or minus sign.
pub open spec fn has_sign(s: Seq<char>) -> bool {
    s.len() > 0 && (s[0] == '-' || s[0] == '+')
}

/// The text after its sign, if it has one.
pub open spec fn unsigned_part(s: Seq<char>) -> Seq<char> {
    if has_sign(s) {
        s.drop_first()
    } else {
        s
    }
}

/// The fixed-point value of a decimal number: an optional sign, digits, and
/// optionally a point and more digits, with a digit on at least one side of
/// the point. `None` for any other text.
pub open spec fn parse_decimal_spec(s: Seq<char>) -> Option<int> {
    let body = unsigned_part(s);
    let dot = index_of(body, '.');
    let whole = body.take(dot);
    let fraction = if dot < body.len() {
        body.skip(dot + 1)
    } else {
        Seq::<char>::empty()
    };
    if all_digits(whole) && all_digits(fraction) && whole.len() + fraction.len() > 0 {
        let magnitude = digits_value(whole) * UNIT + fraction_value(fraction);
        if s[0] == '-' {
            Some(-magnitude)
        } else {
            Some(magnitude)
        }
    } else {
        None
    }
}

/// The value of a run of digits is not negative and grows with each digit.
pub proof fn lemma_digits_value_grows(s: Seq<char>)
    requires
        all_digits(s),
    ensures
        0 <= digits_value(s),
        s.len() > 0 ==> digits_value(s.drop_last()) <= digits_value(s),
    decreases s.len(),
{
    if s.len() > 0 {
        let t = s.drop_last();
        assert forall|i: int| 0 <= i < t.len() implies is_digit(#[trigger] t[i]) by {
            assert(t[i] == s[i]);
        }
        lemma_digits_value_grows(t);
        assert(is_digit(s[s.len() - 1]));
    }
}

/// Reads the digits of the text from `from` up to `to`. `None` if one of the
/// characters is no digit; otherwise their value, or `limit` where the value
/// is larger.
pub fn read_digits(s: &Vec<char>, from: usize, to: usize, limit: u64) -> (r: Option<u64>)
    requires
        from <= to <= s.len(),
        limit <= 1_000_000_000_000_000_000,
    ensures
        r is Some <==> all_digits(s@.subrange(from as int, to as int)),
        r matches Some(v) ==> v == min2(
            digits_value(s@.subrange(from as int, to as int)),
            limit as int,
        ),
{
    let mut acc: u64 = 0;
    let mut i: usize = from;
    while i < to
        invariant
            from <= i <= to <= s.len(),
            limit <= 1_000_000_000_000_000_000,
            all_digits(s@.subrange(from as int, i as int)),
            acc == min2(digits_value(s@.subrange(from as int, i as int)), limit as int),
        decreases to - i,
    {
        let c: char = s[i];
        let ghost before = s@.subrange(from as int, i as int);
        let ghost after = s@.subrange(from as int, i + 1);
        proof {
            assert(after.drop_last() == before);
            assert(after.last() == c);
            lemma_digits_value_grows(before);
        }
        if !(c >= '0' && c <= '9') {
            proof {
                let whole = s@.subrange(from as int, to as int);
                assert(whole[i - from] == c);
                assert(!is_digit(whole[i - from]));
            }
            return None;
        }
        let d: u64 = (c as u32 - 48) as u64;
        acc = if acc >= limit / 10 + 1 {
            limit
        } else {
            let next: u64 = acc * 10 + d;
            if next > limit {
                limit
            } else {
                next
            }
        };
        proof {
            assert forall|j: int| 0 <= j < after.len() implies is_digit(#[trigger] after[j]) by {
                if j < before.len() {
                    assert(after[j] == before[j]);
                }
            }
        }
        i += 1;
    }
    Some(acc)
}

/// Reads the digits after the point, from `from` to the end of the text.
/// `None` if one of the characters is no digit.
pub fn read_fraction(s: &Vec<char>, from: usize) -> (r: Option<u64>)
    requires
        from <= s.len(),
    ensures
        r is Some <==> all_digits(s@.subrange(from as int, s.len() as int)),
        r matches Some(v) ==> v == fraction_value(s@.subrange(from as int, s.len() as int)),
{
    let n: usize = s.len();
    let ghost fraction = s@.subrange(from as int, n as int);
    let mut value: u64 = 0;
    let mut weight: u64 = 1000;
    let mut i: usize = from;
    while i < n
        invariant
            from <= i <= n,
            n == s.len(),
            fraction == s@.subrange(from as int, n as int),
            forall|j: int| 0 <= j < i - from ==> is_digit(#[trigger] fraction[j]),
            i - from == 0 ==> weight == 1000 && value == 0,
            i - from == 1 ==> weight == 100 && value == fraction_digit(fraction, 0) * 1000,
            i - from == 2 ==> weight == 10 && value == fraction_digit(fraction, 0) * 1000
                + fraction_digit(fraction, 1) * 100,
            i - from == 3 ==> weight == 1 && value == fraction_digit(fraction, 0) * 1000
                + fraction_digit(fraction, 1) * 100 + fraction_digit(fraction, 2) * 10,
            i - from >= 4 ==> weight == 0 && value == fraction_value(fraction),
        decreases n - i,
    {
        let c: char = s[i];
        assert(fraction[i - from] == c);
        if !(c >= '0' && c <= '9') {
            assert(!is_digit(fraction[i - from]));
            return None;
        }
        let d: u64 = (c as u32 - 48) as u64;
        value = value + d * weight;
        weight = weight / 10;
        i += 1;
    }
    Some(value)
}

/// The fixed-point value of a decimal number as this crate reads it: a
/// magnitude above `NUMBER_CAP` is cut to it.
pub open spec fn parse_number_spec(s: Seq<char>) -> Option<i64> {
    match parse_decimal_spec(s) {
        Some(v) => Some(crate::math::clamp_spec(-NUMBER_CAP, v, NUMBER_CAP as int) as i64),
        None => None,
    }
}

/// Reads a decimal number as a fixed-point value. `None` where the text is no
/// number; a magnitude above `NUMBER_CAP` is cut to it.
pub fn parse_decimal(s: &Vec<char>) -> (r: Option<i64>)
    ensures
        r == parse_number_spec(s@),
        r matches Some(v) ==> -NUMBER_CAP <= v <= NUMBER_CAP,
{
    let n: usize = s.len();
    let signed: bool = n > 0 && (s[0] == '-' || s[0] == '+');
    let negative: bool = n > 0 && s[0] == '-';
    let start: usize = if signed {
        1
    } else {
        0
    };
    let dot: usize = find_char(s, start, '.');
    let frac_start: usize = if dot < n {
        dot + 1
    } else {
        n
    };
    let ghost body = unsigned_part(s@);
    let ghost whole = body.take(dot - start);
    let ghost fraction = if dot - start < body.len() {
        body.skip(dot - start + 1)
    } else {
        Seq::<char>::empty()
    };
    proof {
        assert(body == s@.subrange(start as int, n as int));
        assert(whole == s@.subrange(start as int, dot as int));
        assert(fraction == s@.subrange(frac_start as int, n as int));
    }
    let whole_limit: u64 = 100_000_000_000;
    let whole_value: u64 = match read_digits(s, start, dot, whole_limit) {
        Some(v) => v,
        None => {
            return None;
        },
    };
    let frac_value: u64 = match read_fraction(s, frac_start) {
        Some(v) => v,
        None => {
            return None;
        },
    };
    if dot == start && frac_start == n {
        return None;
    }
    proof {
        lemma_digits_value_grows(whole);
    }
    let magnitude: i64 = if whole_value >= whole_limit {
        NUMBER_CAP
    } else {
        (whole_value * 10_000 + frac_value) as i64
    };
    if negative {
        Some(-magnitude)
    } else {
        Some(magnitude)
    }
}

/// The value of an unsigned whole number of at most 255: an optional plus
/// sign and at least one digit. `None` for any other text.
pub open spec fn parse_u8_spec(s: Seq<char>) -> Option<u8> {
    let body = if s.len() > 0 && s[0] == '+' {
        s.drop_first()
    } else {
        s
    };
    if body.len() > 0 && all_digits(body) && digits_value(body) <= 255 {
        Some(digits_value(body) as u8)
    } else {
        None
    }
}

/// Reads an unsigned whole number of at most 255.
pub fn parse_u8(s: &Vec<char>) -> (r: Option<u8>)
    ensures
        r == parse_u8_spec(s@),
{
    let n: usize = s.len();
    let start: usize = if n > 0 && s[0] == '+' {
        1
    } else {
        0
    };
    proof {
        let body = if s@.len() > 0 && s@[0] == '+' {
            s@.drop_first()
        } else {
            s@
        };
        assert(body == s@.subrange(start as int, n as int));
    }
    if start == n {
        return None;
    }
    match read_digits(s, start, n, 256) {
        Some(v) => if v <= 255 {
            Some(v as u8)
        } else {
            None
        },
        None => None,
    }
}

/// The value of a signed whole number that fits 32 bits: an optional sign and
/// at least one digit. `None` for any other text.
pub open spec fn parse_i32_spec(s: Seq<char>) -> Option<i32> {
    let body = unsigned_part(s);
    let value = if s.len() > 0 && s[0] == '-' {
        -digits_value(body)
    } else {
        digits_value(body)
    };
    if body.len() > 0 && all_digits(body) && -0x8000_0000 <= value <= 0x7fff_ffff {
        Some(value as i32)
    } else {
        None
    }
}

/// Reads a signed whole number that fits 32 bits.
pub fn parse_i32(s: &Vec<char>) -> (r: Option<i32>)
    ensures
        r == parse_i32_spec(s@),
{
    let n: usize = s.len();
    let signed: bool = n > 0 && (s[0] == '-' || s[0] == '+');
    let negative: bool = n > 0 && s[0] == '-';
    let start: usize = if signed {
        1
    } else {
        0
    };
    proof {
        assert(unsigned_part(s@) == s@.subrange(start as int, n as int));
    }
    if start == n {
        return None;
    }
    match read_digits(s, start, n, 0x8000_0001) {
        Some(v) => if negative {
            if v <= 0x8000_0000 {
                Some((-(v as i64)) as i32)
            } else {
                None
            }
        } else {
            if v <= 0x7fff_ffff {
                Some(v as i32)
            } else {
                None
            }
        },
        None => None,
    }
}

/// The character of a digit below 16: `0` to `9`, and `a` to `f`.
pub open spec fn digit_char(d: int) -> char {
    if d < 10 {
        (d + 48) as char
    } else {
        (d + 87) as char
    }
}

/// `n` in decimal, without leading zeros; one `0` for zero.
pub open spec fn decimal(n: nat) -> Seq<char>
    decreases n,
{
    if n < 10 {
        seq![digit_char(n as int)]
    } else {
        decimal(n / 10).push(digit_char((n % 10) as int))
    }
}

/// `n` in lower-case hexadecimal, without leading zeros; one `0` for zero.
pub open spec fn hexadecimal(n: nat) -> Seq<char>
    decreases n,
{
    if n < 16 {
        seq![digit_char(n as int)]
    } else {
        hexadecimal(n / 16).push(digit_char((n % 16) as int))
    }
}

/// `count` zeros.
pub open spec fn zeros(count: nat) -> Seq<char> {
    Seq::new(count, |i: int| '0')
}

/// `n` in lower-case hexadecimal, with zeros in front up to `width`
/// characters; longer where the number needs more.
pub open spec fn hex_padded(n: nat, width: nat) -> Seq<char> {
    let digits = hexadecimal(n);
    if digits.len() < width {
        zeros((width - digits.len()) as nat) + digits
    } else {
        digits
    }
}

/// A fixed-point value that is not negative, rounded to hundredths (halves
/// upward) and written with two digits after the point.
pub open spec fn fixed2(v: int) -> Seq<char> {
    let hundredths = (v + 50) / 100;
    decimal((hundredths / 100) as nat) + seq!['.', digit_char(hundredths / 10 % 10), digit_char(
        hundredths % 10,
    )]
}

/// The character of a digit below 16.
pub fn char_of_digit(d: u8) -> (c: char)
    requires
        d < 16,
    ensures
        c == digit_char(d as int),
{
    if d < 10 {
        (d + 48) as char
    } else {
        (d + 87) as char
    }
}

/// Appends `n` in decimal.
pub fn push_decimal(out: &mut String, n: u64)
    ensures
        final(out)@ == old(out)@ + decimal(n as nat),
    decreases n,
{
    if n >= 10 {
        push_decimal(out, n / 10);
    }
    let ghost before = out@;
    out.push(char_of_digit((n % 10) as u8));
    proof {
        if n >= 10 {
            assert(old(out)@ + decimal((n / 10) as nat).push(digit_char((n % 10) as int))
                == before.push(digit_char((n % 10) as int)));
        } else {
            assert(old(out)@ + seq![digit_char(n as int)] == old(out)@.push(digit_char(n as int)));
        }
    }
}

/// Appends `n` in lower-case hexadecimal.
pub fn push_hexadecimal(out: &mut String, n: u64)
    ensures
        final(out)@ == old(out)@ + hexadecimal(n as nat),
    decreases n,
{
    if n >= 16 {
        push_hexadecimal(out, n / 16);
    }
    let ghost before = out@;
    out.push(char_of_digit((n % 16) as u8));
    proof {
        if n >= 16 {
            assert(old(out)@ + hexadecimal((n / 16) as nat).push(digit_char((n % 16) as int))
                == before.push(digit_char((n % 16) as int)));
        } else {
            assert(old(out)@ + seq![digit_char(n as int)] == old(out)@.push(digit_char(n as int)));
        }
    }
}

/// The number of hexadecimal digits of `n`.
pub fn count_hex_digits(n: u64) -> (k: u64)
    ensures
        k == hexadecimal(n as nat).len(),
        1 <= k <= 1 + n / 16,
    decreases n,
{
    if n >= 16 {
        let k: u64 = count_hex_digits(n / 16);
        k + 1
    } else {
        1
    }
}

/// Appends `n` in lower-case hexadecimal, with zeros in front up to `width`
/// characters.
pub fn push_hex_padded(out: &mut String, n: u64, width: usize)
    ensures
        final(out)@ == old(out)@ + hex_padded(n as nat, width as nat),
{
    let len: u64 = count_hex_digits(n);
    let mut i: u64 = len;
    while i < width as u64
        invariant
            len <= i,
            len < width ==> i <= width,
            len >= width ==> out@ == old(out)@,
            len < width ==> out@ == old(out)@ + zeros((i - len) as nat),
        decreases width - i,
    {
        let ghost before = out@;
        out.push('0');
        proof {
            assert(zeros((i - len) as nat).push('0') == zeros((i + 1 - len) as nat));
            assert(before.push('0') == old(out)@ + zeros((i - len) as nat).push('0'));
        }
        i += 1;
    }
    proof {
        if len >= width {
            assert(old(out)@ + zeros(0) == old(out)@);
        }
    }
    push_hexadecimal(out, n);
    proof {
        let digits = hexadecimal(n as nat);
        if len < width {
            assert(old(out)@ + zeros((width - len) as nat) + digits == old(out)@ + (zeros(
                (width - len) as nat,
            ) + digits));
        }
    }
}

/// Appends a fixed-point value, rounded to hundredths, with two digits after
/// the point.
pub fn push_fixed2(out: &mut String, v: i64)
    requires
        0 <= v <= NUMBER_CAP,
    ensures
        final(out)@ == old(out)@ + fixed2(v as int),
{
    let hundredths: u64 = ((v + 50) / 100) as u64;
    push_decimal(out, hundredths / 100);
    let ghost whole = out@;
    out.push('.');
    out.push(char_of_digit((hundredths / 10 % 10) as u8));
    out.push(char_of_digit((hundredths % 10) as u8));
    proof {
        let h = (v + 50) / 100;
        let tail = seq!['.', digit_char(h / 10 % 10), digit_char(h % 10)];
        assert(out@ == whole + tail);
        assert(old(out)@ + decimal((h / 100) as nat) + tail == old(out)@ + (decimal(
            (h / 100) as nat,
        ) + tail));
    }
}

/// Appends the characters of `text`.
pub fn push_str(out: &mut String, text: &str)
    ensures
        final(out)@ == old(out)@ + text@,
{
    out.append(text);
}

} // verus!
