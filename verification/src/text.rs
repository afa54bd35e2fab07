//! Text helpers: decimal numbers and searching in character sequences.

use vstd::prelude::*;
use vstd::string::*;

verus! {

/// The views of the items of `items`, in the same order.
pub open spec fn views_of<T: View>(items: Seq<T>) -> Seq<T::V> {
    Seq::new(items.len(), |i: int| items[i]@)
}

/// The views of a sequence with one more item are the views of the
/// sequence with the view of that item.
pub proof fn lemma_views_push<T: View>(items: Seq<T>, item: T)
    ensures
        views_of(items.push(item)) == views_of(items).push(item@),
{
    assert(views_of(items.push(item)) =~= views_of(items).push(item@));
}

/// The character that stands for the digit `d`.
pub open spec fn digit_char(d: nat) -> char {
    if d == 0 {
        '0'
    } else if d == 1 {
        '1'
    } else if d == 2 {
        '2'
    } else if d == 3 {
        '3'
    } else if d == 4 {
        '4'
    } else if d == 5 {
        '5'
    } else if d == 6 {
        '6'
    } else if d == 7 {
        '7'
    } else if d == 8 {
        '8'
    } else {
        '9'
    }
}

/// Whether `c` is one of the ASCII digits `0` to `9`.
pub open spec fn is_digit(c: char) -> bool {
    '0' <= c <= '9'
}

/// The value of the ASCII digit `c`.
pub open spec fn digit_value(c: char) -> nat
    recommends
        is_digit(c),
{
    (c as u32 - '0' as u32) as nat
}

/// The decimal notation of `n`, without sign or leading zeros.
pub open spec fn decimal(n: nat) -> Seq<char>
    decreases n,
{
    if n < 10 {
        seq![digit_char(n)]
    } else {
        decimal(n / 10).push(digit_char(n % 10))
    }
}

/// The decimal notation of `v`, with a leading `-` when `v` is negative.
pub open spec fn signed_decimal(v: int) -> Seq<char> {
    if v < 0 {
        seq!['-'] + decimal((-v) as nat)
    } else {
        decimal(v as nat)
    }
}

/// Whether every character of `s` is an ASCII digit.
pub open spec fn all_digits(s: Seq<char>) -> bool {
    forall|i: int| 0 <= i < s.len() ==> is_digit(#[trigger] s[i])
}

/// The number that the digits of `s` denote, read in base ten.
pub open spec fn digits_value(s: Seq<char>) -> nat
    decreases s.len(),
{
    if s.len() == 0 {
        0
    } else {
        digits_value(s.drop_last()) * 10 + digit_value(s.last())
    }
}

/// Reads an unsigned decimal number no larger than `max`: an optional `+`,
/// then one or more digits.
pub open spec fn parse_unsigned(s: Seq<char>, max: nat) -> Option<nat> {
    let digits = if s.len() > 0 && s[0] == '+' {
        s.skip(1)
    } else {
        s
    };
    if digits.len() > 0 && all_digits(digits) && digits_value(digits) <= max {
        Some(digits_value(digits))
    } else {
        None
    }
}

/// Reads a signed decimal number in `[min, max]`: an optional `+` or `-`,
/// then one or more digits.
pub open spec fn parse_signed(s: Seq<char>, min: int, max: int) -> Option<int> {
    let negative = s.len() > 0 && s[0] == '-';
    let digits = if s.len() > 0 && (s[0] == '+' || s[0] == '-') {
        s.skip(1)
    } else {
        s
    };
    let value = if negative {
        -(digits_value(digits) as int)
    } else {
        digits_value(digits) as int
    };
    if digits.len() > 0 && all_digits(digits) && min <= value <= max {
        Some(value)
    } else {
        None
    }
}

/// Index of the first occurrence of `x` in `s`, or the length of `s` where
/// `x` does not occur.
pub open spec fn position<T>(s: Seq<T>, x: T) -> int
    decreases s.len(),
{
    if s.len() == 0 {
        0
    } else if s[0] == x {
        0
    } else {
        1 + position(s.skip(1), x)
    }
}

/// Whether `x` occurs in `s`.
pub open spec fn occurs<T>(s: Seq<T>, x: T) -> bool {
    position(s, x) < s.len()
}

/// What stands in `s` before the first occurrence of `x`: all of `s` where
/// `x` does not occur.
pub open spec fn before<T>(s: Seq<T>, x: T) -> Seq<T> {
    s.subrange(0, position(s, x))
}

/// What stands in `s` after the first occurrence of `x`: nothing where `x`
/// does not occur.
pub open spec fn after<T>(s: Seq<T>, x: T) -> Seq<T> {
    if occurs(s, x) {
        s.skip(position(s, x) + 1)
    } else {
        Seq::empty()
    }
}

/// The fields of `s` between occurrences of `sep`. At most `limit` fields
/// are made: the last one holds the rest of `s`, separators included.
pub open spec fn split_limit(s: Seq<char>, sep: char, limit: nat) -> Seq<Seq<char>>
    decreases limit,
{
    if limit <= 1 || !occurs(s, sep) {
        seq![s]
    } else {
        seq![before(s, sep)] + split_limit(after(s, sep), sep, (limit - 1) as nat)
    }
}

/// The first occurrence of `x` is where `x` stands with no `x` before it.
pub proof fn lemma_position<T>(s: Seq<T>, x: T, k: int)
    requires
        0 <= k <= s.len(),
        forall|j: int| 0 <= j < k ==> s[j] != x,
        k < s.len() ==> s[k] == x,
    ensures
        position(s, x) == k,
    decreases s.len(),
{
    if s.len() > 0 && k > 0 {
        let rest = s.skip(1);
        assert forall|j: int| 0 <= j < k - 1 implies rest[j] != x by {
            assert(rest[j] == s[j + 1]);
        }
        lemma_position(rest, x, k - 1);
    }
}

/// `position` stays within `s`, points at `x` when inside, and has no `x`
/// before it.
pub proof fn lemma_position_bounds<T>(s: Seq<T>, x: T)
    ensures
        0 <= position(s, x) <= s.len(),
        occurs(s, x) ==> s[position(s, x)] == x,
        forall|j: int| 0 <= j < position(s, x) ==> s[j] != x,
    decreases s.len(),
{
    if s.len() > 0 && s[0] != x {
        let rest = s.skip(1);
        lemma_position_bounds(rest, x);
        assert forall|j: int| 0 <= j < position(s, x) implies s[j] != x by {
            if j > 0 {
                assert(rest[j - 1] == s[j]);
            }
        }
    }
}

/// Whether no item of `s` is `x`.
pub open spec fn free_of<T>(s: Seq<T>, x: T) -> bool {
    forall|i: int| 0 <= i < s.len() ==> s[i] != x
}

/// A sequence is free of `x` where `x` does not occur in it.
pub proof fn lemma_free_of<T>(s: Seq<T>, x: T)
    ensures
        free_of(s, x) <==> !occurs(s, x),
{
    lemma_position_bounds(s, x);
    if free_of(s, x) {
        lemma_position(s, x, s.len() as int);
    }
}

/// The one-character text of the digit `d`.
fn digit_str(d: u8) -> (s: &'static str)
    requires
        d < 10,
    ensures
        s@ == seq![digit_char(d as nat)],
{
    proof {
        reveal_strlit("0");
        reveal_strlit("1");
        reveal_strlit("2");
        reveal_strlit("3");
        reveal_strlit("4");
        reveal_strlit("5");
        reveal_strlit("6");
        reveal_strlit("7");
        reveal_strlit("8");
        reveal_strlit("9");
    }
    let s = if d == 0 {
        "0"
    } else if d == 1 {
        "1"
    } else if d == 2 {
        "2"
    } else if d == 3 {
        "3"
    } else if d == 4 {
        "4"
    } else if d == 5 {
        "5"
    } else if d == 6 {
        "6"
    } else if d == 7 {
        "7"
    } else if d == 8 {
        "8"
    } else {
        "9"
    };
    assert(s@ =~= seq![digit_char(d as nat)]);
    s
}

/// Writes `n` in decimal notation.
pub fn decimal_string(n: u64) -> (s: String)
    ensures
        s@ == decimal(n as nat),
    decreases n,
{
    if n < 10 {
        digit_str(n as u8).to_string()
    } else {
        let mut s = decimal_string(n / 10);
        s.append(digit_str((n % 10) as u8));
        s
    }
}

/// Writes `v` in decimal notation, with a leading `-` when it is negative.
pub fn signed_decimal_string(v: i64) -> (s: String)
    ensures
        s@ == signed_decimal(v as int),
{
    if v < 0 {
        let magnitude: u64 = if v == i64::MIN {
            9223372036854775808u64
        } else {
            (-v) as u64
        };
        let mut s = "-".to_string();
        proof {
            reveal_strlit("-");
        }
        let digits = decimal_string(magnitude);
        s.append(digits.as_str());
        assert(s@ =~= signed_decimal(v as int));
        s
    } else {
        decimal_string(v as u64)
    }
}

/// The characters of `s`, one by one.
pub fn chars_of(s: &str) -> (chars: Vec<char>)
    ensures
        chars@ == s@,
{
    let mut chars: Vec<char> = Vec::new();
    for c in it: s.chars()
        invariant
            chars@ == it.seq().subrange(0, it.index as int),
    {
        chars.push(c);
    }
    chars
}

/// Index of the first `c` in `chars` at or after `from`, or the length of
/// `chars` where there is none.
pub fn find_char(chars: &Vec<char>, from: usize, c: char) -> (at: usize)
    requires
        from <= chars.len(),
    ensures
        at == from + position(chars@.skip(from as int), c),
        from <= at <= chars.len(),
{
    let mut at: usize = from;
    while at < chars.len() && chars[at] != c
        invariant
            from <= at <= chars.len(),
            forall|j: int| from <= j < at ==> chars@[j] != c,
        decreases chars.len() - at,
    {
        at += 1;
    }
    proof {
        let rest = chars@.skip(from as int);
        assert forall|j: int| 0 <= j < at - from implies rest[j] != c by {
            assert(rest[j] == chars@[from + j]);
        }
        lemma_position(rest, c, at - from);
    }
    at
}

/// Index of the first `b` in `bytes` at or after `from`, or the length of
/// `bytes` where there is none.
pub fn find_byte(bytes: &Vec<u8>, from: usize, b: u8) -> (at: usize)
    requires
        from <= bytes.len(),
    ensures
        at == from + position(bytes@.skip(from as int), b),
        from <= at <= bytes.len(),
{
    let mut at: usize = from;
    while at < bytes.len() && bytes[at] != b
        invariant
            from <= at <= bytes.len(),
            forall|j: int| from <= j < at ==> bytes@[j] != b,
        decreases bytes.len() - at,
    {
        at += 1;
    }
    proof {
        let rest = bytes@.skip(from as int);
        assert forall|j: int| 0 <= j < at - from implies rest[j] != b by {
            assert(rest[j] == bytes@[from + j]);
        }
        lemma_position(rest, b, at - from);
    }
    at
}

/// Tells whether `a` and `b` hold the same characters.
pub fn same_text(a: &str, b: &str) -> (same: bool)
    ensures
        same == (a@ == b@),
{
    let left = chars_of(a);
    let right = chars_of(b);
    if left.len() != right.len() {
        return false;
    }
    let mut i: usize = 0;
    while i < left.len()
        invariant
            left@ == a@,
            right@ == b@,
            left.len() == right.len(),
            i <= left.len(),
            forall|j: int| 0 <= j < i ==> left@[j] == right@[j],
        decreases left.len() - i,
    {
        if left[i] != right[i] {
            assert(a@[i as int] != b@[i as int]);
            return false;
        }
        i += 1;
    }
    assert(left@ =~= right@);
    true
}

/// The characters of `s` from index `from` up to, not including, `to`.
pub fn substring(s: &str, from: usize, to: usize) -> (part: String)
    requires
        from <= to <= s@.len(),
    ensures
        part@ == s@.subrange(from as int, to as int),
{
    s.substring_char(from, to).to_string()
}

/// Cuts `s` at occurrences of `sep` into at most `limit` fields.
pub fn split_fields(s: &str, sep: char, limit: usize) -> (fields: Vec<String>)
    ensures
        views_of(fields@) == split_limit(s@, sep, limit as nat),
        fields.len() >= 1,
{
    let chars = chars_of(s);
    let mut fields: Vec<String> = Vec::new();
    let mut start: usize = 0;
    let mut left: usize = limit;
    proof {
        assert(s@.skip(0) =~= s@);
        assert(views_of(fields@) + split_limit(s@, sep, limit as nat)
            =~= split_limit(s@, sep, limit as nat));
    }
    loop
        invariant
            chars@ == s@,
            start <= chars.len(),
            split_limit(s@, sep, limit as nat) == views_of(fields@) + split_limit(
                s@.skip(start as int),
                sep,
                left as nat,
            ),
        decreases chars.len() - start,
    {
        let ghost rest = s@.skip(start as int);
        let ghost done = views_of(fields@);
        let at = find_char(&chars, start, sep);
        if left <= 1 || at == chars.len() {
            let field = substring(s, start, chars.len());
            assert(field@ =~= rest);
            fields.push(field);
            assert(views_of(fields@) =~= done + seq![rest]);
            return fields;
        }
        let field = substring(s, start, at);
        proof {
            assert(occurs(rest, sep));
            assert(field@ =~= before(rest, sep));
            assert(s@.skip(at + 1) =~= after(rest, sep));
        }
        fields.push(field);
        assert(views_of(fields@) =~= done + seq![before(rest, sep)]);
        start = at + 1;
        left = left - 1;
    }
}

/// The digits of a prefix denote no more than the digits of the whole.
pub proof fn lemma_digits_value_prefix(s: Seq<char>, k: int)
    requires
        0 <= k <= s.len(),
    ensures
        digits_value(s.subrange(0, k)) <= digits_value(s),
    decreases s.len(),
{
    if k == s.len() {
        assert(s.subrange(0, k) =~= s);
    } else {
        lemma_digits_value_prefix(s.drop_last(), k);
        assert(s.drop_last().subrange(0, k) =~= s.subrange(0, k));
    }
}

/// Reads the digits of `chars` from `start` to the end as a number no
/// larger than `max`.
fn digits_from(chars: &Vec<char>, start: usize, max: u64) -> (value: Option<u64>)
    requires
        start <= chars.len(),
    ensures
        value == (if chars@.skip(start as int).len() > 0 && all_digits(chars@.skip(start as int))
            && digits_value(chars@.skip(start as int)) <= max {
            Some(digits_value(chars@.skip(start as int)) as u64)
        } else {
            None
        }),
{
    let ghost digits = chars@.skip(start as int);
    if start == chars.len() {
        return None;
    }
    let mut acc: u64 = 0;
    let mut i: usize = start;
    while i < chars.len()
        invariant
            start <= i <= chars.len(),
            digits == chars@.skip(start as int),
            all_digits(digits.subrange(0, i - start)),
            acc == digits_value(digits.subrange(0, i - start)),
            acc <= max,
        decreases chars.len() - i,
    {
        let c = chars[i];
        let ghost before = digits.subrange(0, i - start);
        let ghost after = digits.subrange(0, i - start + 1);
        assert(after.drop_last() =~= before);
        assert(after.last() == c);
        if !('0' <= c && c <= '9') {
            assert(!is_digit(digits[i - start]));
            return None;
        }
        let d: u64 = (c as u32 - '0' as u32) as u64;
        if d > max || acc > (max - d) / 10 {
            proof {
                assert(digits_value(after) > max);
                lemma_digits_value_prefix(digits, i - start + 1);
            }
            return None;
        }
        acc = acc * 10 + d;
        i += 1;
        assert forall|j: int| 0 <= j < after.len() implies is_digit(#[trigger] after[j]) by {
            if j < before.len() {
                assert(after[j] == before[j]);
            }
        }
    }
    assert(digits.subrange(0, i - start) =~= digits);
    Some(acc)
}

/// Reads `s` as an unsigned decimal number no larger than `max`.
pub fn parse_bounded(s: &str, max: u64) -> (value: Option<u64>)
    ensures
        value == match parse_unsigned(s@, max as nat) {
            Some(n) => Some(n as u64),
            None => None,
        },
{
    let chars = chars_of(s);
    let start: usize = if chars.len() > 0 && chars[0] == '+' {
        1
    } else {
        0
    };
    assert(chars@.skip(0) =~= chars@);
    digits_from(&chars, start, max)
}

/// Reads `s` as an unsigned 32-bit decimal number.
pub fn parse_u32(s: &str) -> (value: Option<u32>)
    ensures
        value == match parse_unsigned(s@, u32::MAX as nat) {
            Some(n) => Some(n as u32),
            None => None,
        },
{
    match parse_bounded(s, u32::MAX as u64) {
        Some(n) => Some(n as u32),
        None => None,
    }
}

/// Reads `s` as an unsigned 16-bit decimal number.
pub fn parse_u16(s: &str) -> (value: Option<u16>)
    ensures
        value == match parse_unsigned(s@, u16::MAX as nat) {
            Some(n) => Some(n as u16),
            None => None,
        },
{
    match parse_bounded(s, u16::MAX as u64) {
        Some(n) => Some(n as u16),
        None => None,
    }
}

/// Reads `s` as an unsigned 8-bit decimal number.
pub fn parse_u8(s: &str) -> (value: Option<u8>)
    ensures
        value == match parse_unsigned(s@, u8::MAX as nat) {
            Some(n) => Some(n as u8),
            None => None,
        },
{
    match parse_bounded(s, u8::MAX as u64) {
        Some(n) => Some(n as u8),
        None => None,
    }
}

/// Reads `s` as a signed 8-bit decimal number.
pub fn parse_i8(s: &str) -> (value: Option<i8>)
    ensures
        value == match parse_signed(s@, i8::MIN as int, i8::MAX as int) {
            Some(n) => Some(n as i8),
            None => None,
        },
{
    let chars = chars_of(s);
    if chars.len() > 0 && chars[0] == '-' {
        match digits_from(&chars, 1, 128) {
            Some(n) => Some((-(n as i16)) as i8),
            None => None,
        }
    } else {
        let start: usize = if chars.len() > 0 && chars[0] == '+' {
            1
        } else {
            0
        };
        assert(chars@.skip(0) =~= chars@);
        match digits_from(&chars, start, 127) {
            Some(n) => Some(n as i8),
            None => None,
        }
    }
}

} // verus!
