//! Decimal integers in text: the notation `i32::to_string` and
//! `u32::to_string` write, and the parse of `str::parse` for those types.

use vstd::prelude::*;
use crate::text::{decimal, digit_char, push_char, u64_text};

verus! {

/// Why a text is not a decimal integer of the wanted type (`core::num::IntErrorKind`).
#[derive(Clone, Copy, Debug, PartialEq, Eq, Structural)]
pub enum IntErrorKind {
    Empty,
    InvalidDigit,
    PosOverflow,
    NegOverflow,
}

/// The message of a parse error (`ParseIntError`'s `Display`).
pub open spec fn int_error_text(k: IntErrorKind) -> Seq<char> {
    match k {
        IntErrorKind::Empty => "cannot parse integer from empty string"@,
        IntErrorKind::InvalidDigit => "invalid digit found in string"@,
        IntErrorKind::PosOverflow => "number too large to fit in target type"@,
        IntErrorKind::NegOverflow => "number too small to fit in target type"@,
    }
}

impl IntErrorKind {
    /// The message of this parse error.
    pub fn text(&self) -> (s: String)
        ensures
            s@ == int_error_text(*self),
    {
        match self {
            IntErrorKind::Empty => String::from_str("cannot parse integer from empty string"),
            IntErrorKind::InvalidDigit => String::from_str("invalid digit found in string"),
            IntErrorKind::PosOverflow => String::from_str("number too large to fit in target type"),
            IntErrorKind::NegOverflow => String::from_str("number too small to fit in target type"),
        }
    }
}

pub open spec fn is_digit(c: char) -> bool {
    '0' <= c <= '9'
}

pub open spec fn digit_value(c: char) -> int {
    c as int - 48
}

/// Reads the digits `d` from the left onto the value `acc` read so far,
/// subtracting each digit instead of adding it when `neg`, and stops at the
/// first character that is no digit or the first value outside `[min, max]`.
pub open spec fn scan(d: Seq<char>, acc: int, neg: bool, min: int, max: int) -> Result<int, IntErrorKind>
    decreases d.len(),
{
    if d.len() == 0 {
        Ok(acc)
    } else if !is_digit(d[0]) {
        Err(IntErrorKind::InvalidDigit)
    } else {
        let next = if neg { acc * 10 - digit_value(d[0]) } else { acc * 10 + digit_value(d[0]) };
        if next > max {
            Err(IntErrorKind::PosOverflow)
        } else if next < min {
            Err(IntErrorKind::NegOverflow)
        } else {
            scan(d.drop_first(), next, neg, min, max)
        }
    }
}

/// `str::parse` of a decimal integer in `[min, max]`; a leading `-` is a sign
/// only when `signed`.
pub open spec fn parse_int(s: Seq<char>, min: int, max: int, signed: bool) -> Result<int, IntErrorKind> {
    if s.len() == 0 {
        Err(IntErrorKind::Empty)
    } else if (s[0] == '+' || s[0] == '-') && s.len() == 1 {
        Err(IntErrorKind::InvalidDigit)
    } else if s[0] == '+' {
        scan(s.drop_first(), 0, false, min, max)
    } else if s[0] == '-' && signed {
        scan(s.drop_first(), 0, true, min, max)
    } else {
        scan(s, 0, false, min, max)
    }
}

pub open spec fn parse_i32(s: Seq<char>) -> Result<int, IntErrorKind> {
    parse_int(s, i32::MIN as int, i32::MAX as int, true)
}

pub open spec fn parse_u32(s: Seq<char>) -> Result<int, IntErrorKind> {
    parse_int(s, 0, u32::MAX as int, false)
}

/// Decimal notation of an integer, with a `-` before negative ones.
pub open spec fn int_text(n: int) -> Seq<char> {
    if n < 0 {
        seq!['-'] + decimal((-n) as nat)
    } else {
        decimal(n as nat)
    }
}

fn scan_exec(d: &[char], start: usize, neg: bool, min: i64, max: i64) -> (r: Result<i64, IntErrorKind>)
    requires
        start <= d@.len(),
        -0x1_0000_0000 <= min <= 0 <= max <= 0x1_0000_0000,
    ensures
        r matches Ok(v) ==> min <= v <= max
            && scan(d@.skip(start as int), 0, neg, min as int, max as int) == Ok::<int, IntErrorKind>(v as int),
        r matches Err(k) ==> scan(d@.skip(start as int), 0, neg, min as int, max as int) == Err::<int, IntErrorKind>(k),
{
    let mut acc: i64 = 0;
    let mut i: usize = start;
    while i < d.len()
        invariant
            start <= i <= d@.len(),
            -0x1_0000_0000 <= min <= 0 <= max <= 0x1_0000_0000,
            min <= acc <= max,
            scan(d@.skip(start as int), 0, neg, min as int, max as int)
                == scan(d@.skip(i as int), acc as int, neg, min as int, max as int),
        decreases d@.len() - i,
    {
        let c = d[i];
        assert(d@.skip(i as int)[0] == c);
        assert(d@.skip(i as int).drop_first() =~= d@.skip(i + 1));
        if !('0' <= c && c <= '9') {
            return Err(IntErrorKind::InvalidDigit);
        }
        let v: i64 = (c as u32 - 48) as i64;
        let next: i64 = if neg { acc * 10 - v } else { acc * 10 + v };
        if next > max {
            return Err(IntErrorKind::PosOverflow);
        }
        if next < min {
            return Err(IntErrorKind::NegOverflow);
        }
        acc = next;
        i = i + 1;
    }
    assert(d@.skip(i as int).len() == 0);
    Ok(acc)
}

fn parse_int_exec(s: &[char], min: i64, max: i64, signed: bool) -> (r: Result<i64, IntErrorKind>)
    requires
        -0x1_0000_0000 <= min <= 0 <= max <= 0x1_0000_0000,
    ensures
        r matches Ok(v) ==> min <= v <= max
            && parse_int(s@, min as int, max as int, signed) == Ok::<int, IntErrorKind>(v as int),
        r matches Err(k) ==> parse_int(s@, min as int, max as int, signed) == Err::<int, IntErrorKind>(k),
{
    if s.len() == 0 {
        return Err(IntErrorKind::Empty);
    }
    assert(s@.skip(0) =~= s@);
    assert(s@.skip(1) =~= s@.drop_first());
    if (s[0] == '+' || s[0] == '-') && s.len() == 1 {
        Err(IntErrorKind::InvalidDigit)
    } else if s[0] == '+' {
        scan_exec(s, 1, false, min, max)
    } else if s[0] == '-' && signed {
        scan_exec(s, 1, true, min, max)
    } else {
        scan_exec(s, 0, false, min, max)
    }
}

/// `s.parse::<i32>()`.
pub fn parse_i32_chars(s: &[char]) -> (r: Result<i32, IntErrorKind>)
    ensures
        r matches Ok(v) ==> parse_i32(s@) == Ok::<int, IntErrorKind>(v as int),
        r matches Err(k) ==> parse_i32(s@) == Err::<int, IntErrorKind>(k),
{
    match parse_int_exec(s, i32::MIN as i64, i32::MAX as i64, true) {
        Ok(v) => Ok(v as i32),
        Err(k) => Err(k),
    }
}

/// `s.parse::<u32>()`.
pub fn parse_u32_chars(s: &[char]) -> (r: Result<u32, IntErrorKind>)
    ensures
        r matches Ok(v) ==> parse_u32(s@) == Ok::<int, IntErrorKind>(v as int),
        r matches Err(k) ==> parse_u32(s@) == Err::<int, IntErrorKind>(k),
{
    match parse_int_exec(s, 0, u32::MAX as i64, false) {
        Ok(v) => Ok(v as u32),
        Err(k) => Err(k),
    }
}

/// `n.to_string()` for an `i32`.
pub fn i32_text(n: i32) -> (s: String)
    ensures
        s@ == int_text(n as int),
{
    if n < 0 {
        let mut s = String::new();
        push_char(&mut s, '-');
        let m = u64_text((-(n as i64)) as u64);
        assert(seq!['-'] =~= Seq::<char>::empty().push('-'));
        s.append(m.as_str());
        s
    } else {
        u64_text(n as u64)
    }
}

/// Reading digits that continue a text: the value read from `a + b` is the
/// value read from `b` onto the value read from `a`.
proof fn lemma_scan_concat(a: Seq<char>, b: Seq<char>, acc: int, neg: bool, min: int, max: int)
    ensures
        scan(a + b, acc, neg, min, max) == (match scan(a, acc, neg, min, max) {
            Ok(x) => scan(b, x, neg, min, max),
            Err(k) => Err(k),
        }),
    decreases a.len(),
{
    if a.len() == 0 {
        assert(a + b =~= b);
    } else {
        assert((a + b)[0] == a[0]);
        assert((a + b).drop_first() =~= a.drop_first() + b);
        if is_digit(a[0]) {
            let next = if neg { acc * 10 - digit_value(a[0]) } else { acc * 10 + digit_value(a[0]) };
            lemma_scan_concat(a.drop_first(), b, next, neg, min, max);
        }
    }
}

proof fn lemma_decimal_starts_with_digit(n: nat)
    ensures
        decimal(n).len() > 0,
        is_digit(decimal(n)[0]),
        forall|i: int| 0 <= i < decimal(n).len() ==> is_digit(#[trigger] decimal(n)[i]),
    decreases n,
{
    if n >= 10 {
        lemma_decimal_starts_with_digit(n / 10);
    }
}

/// The digits of `n` read back give `n`, positive or negated.
proof fn lemma_scan_decimal(n: nat, neg: bool, min: int, max: int)
    requires
        min <= 0 <= max,
        neg ==> min <= -(n as int),
        !neg ==> n <= max,
    ensures
        scan(decimal(n), 0, neg, min, max) == Ok::<int, IntErrorKind>(if neg { -(n as int) } else { n as int }),
    decreases n,
{
    let d = seq![digit_char((n % 10) as int)];
    let c = digit_char((n % 10) as int);
    assert(c as int == (n % 10) + 48);
    assert(is_digit(c) && digit_value(c) == n % 10);
    assert(n as int == (n / 10) * 10 + n % 10) by (nonlinear_arith);
    let x: int = if n < 10 { 0 } else if neg { -((n / 10) as int) } else { (n / 10) as int };
    let next: int = if neg { x * 10 - digit_value(c) } else { x * 10 + digit_value(c) };
    assert(next == if neg { -(n as int) } else { n as int });
    assert(d.drop_first().len() == 0);
    assert(scan(d.drop_first(), next, neg, min, max) == Ok::<int, IntErrorKind>(next));
    assert(scan(d, x, neg, min, max) == Ok::<int, IntErrorKind>(next));
    if n < 10 {
        assert(decimal(n) =~= d);
    } else {
        lemma_scan_decimal(n / 10, neg, min, max);
        lemma_scan_concat(decimal(n / 10), d, 0, neg, min, max);
        assert(decimal(n) =~= decimal(n / 10) + d);
    }
}

/// Law: an `i32` written in decimal reads back as itself.
pub proof fn lemma_i32_text_roundtrip(n: i32)
    ensures
        parse_i32(int_text(n as int)) == Ok::<int, IntErrorKind>(n as int),
{
    let m: nat = if n < 0 { (-(n as int)) as nat } else { n as nat };
    lemma_decimal_starts_with_digit(m);
    if n < 0 {
        let t = int_text(n as int);
        assert(t.drop_first() =~= decimal(m));
        lemma_scan_decimal(m, true, i32::MIN as int, i32::MAX as int);
    } else {
        lemma_scan_decimal(m, false, i32::MIN as int, i32::MAX as int);
    }
}

} // verus!
