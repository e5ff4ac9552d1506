//! Decimal fields and event timestamps as rendered in event XML.

use vstd::prelude::*;
use vstd::utf8::{encode_utf8, is_char_boundary};

verus! {

/// `b` is an ASCII decimal digit.
pub open spec fn is_digit_byte(b: u8) -> bool {
    48 <= b <= 57
}

/// The decimal value of a run of digit bytes.
pub open spec fn digits_value(b: Seq<u8>) -> nat
    decreases b.len(),
{
    if b.len() == 0 {
        0
    } else {
        digits_value(b.drop_last()) * 10 + (b.last() - 48) as nat
    }
}

/// All bytes are decimal digits, and there is at least one.
pub open spec fn all_digits(b: Seq<u8>) -> bool {
    b.len() > 0 && forall|i: int| 0 <= i < b.len() ==> is_digit_byte(#[trigger] b[i])
}

/// The value of an unsigned decimal text as the standard parser reads it:
/// an optional `+`, then one or more digits; `None` when malformed or above `max`.
pub open spec fn unsigned_text(b: Seq<u8>, max: nat) -> Option<nat> {
    let digits = if b.len() > 0 && b[0] == 43 { b.drop_first() } else { b };
    if all_digits(digits) && digits_value(digits) <= max {
        Some(digits_value(digits))
    } else {
        None
    }
}

/// The value of a signed decimal text as the standard parser reads it: an
/// optional `+` or `-`, then one or more digits, within `i32`.
pub open spec fn signed_text(b: Seq<u8>) -> Option<int> {
    if b.len() > 0 && b[0] == 45 {
        let d = b.drop_first();
        if all_digits(d) && digits_value(d) <= 0x8000_0000 {
            Some(-(digits_value(d) as int))
        } else {
            None
        }
    } else {
        match unsigned_text(b, 0x7fff_ffff) {
            Some(v) => Some(v as int),
            None => None,
        }
    }
}

/// Reads the digits of `b[start..end]` as a number, stopping with `None` at
/// a non-digit or once the value passes `max`.
fn read_digits(b: &[u8], start: usize, end: usize, max: u64) -> (r: Option<u64>)
    requires
        start <= end <= b@.len(),
    ensures
        match r {
            Some(v) => all_digits(b@.subrange(start as int, end as int)) && v == digits_value(
                b@.subrange(start as int, end as int),
            ) && v <= max,
            None => !(all_digits(b@.subrange(start as int, end as int)) && digits_value(
                b@.subrange(start as int, end as int),
            ) <= max),
        },
{
    if start == end {
        return None;
    }
    let mut v: u64 = 0;
    let mut i: usize = start;
    while i < end
        invariant
            start <= i <= end <= b@.len(),
            start < end,
            v <= max,
            forall|k: int| start <= k < i ==> is_digit_byte(#[trigger] b@[k]),
            v == digits_value(b@.subrange(start as int, i as int)),
        decreases end - i,
    {
        let c = b[i];
        let ghost sub = b@.subrange(start as int, i + 1);
        assert(sub.drop_last() == b@.subrange(start as int, i as int));
        if c < 48 || c > 57 {
            assert(!is_digit_byte(b@.subrange(start as int, end as int)[i - start]));
            return None;
        }
        let nv: u128 = (v as u128) * 10 + (c - 48) as u128;
        if nv > max as u128 {
            proof {
                lemma_digits_value_grows(b@.subrange(start as int, end as int), (i + 1 - start) as nat);
                assert(b@.subrange(start as int, end as int).subrange(0, i + 1 - start) == sub);
            }
            return None;
        }
        v = nv as u64;
        i = i + 1;
    }
    Some(v)
}

/// The value of a digit run never shrinks as digits are added.
pub proof fn lemma_digits_value_grows(b: Seq<u8>, k: nat)
    requires
        k <= b.len(),
    ensures
        digits_value(b.subrange(0, k as int)) <= digits_value(b),
    decreases b.len() - k,
{
    if k < b.len() {
        lemma_digits_value_grows(b, k + 1);
        assert(b.subrange(0, (k + 1) as int).drop_last() == b.subrange(0, k as int));
    } else {
        assert(b.subrange(0, k as int) == b);
    }
}

/// Parses an unsigned decimal text within `max`; see [`unsigned_text`].
pub fn parse_unsigned(b: &[u8], max: u64) -> (r: Option<u64>)
    ensures
        match unsigned_text(b@, max as nat) {
            Some(v) => r == Some(v as u64),
            None => r is None,
        },
{
    let start: usize = if b.len() > 0 && b[0] == 43 { 1 } else { 0 };
    assert(b@.subrange(start as int, b@.len() as int) == if b@.len() > 0 && b@[0] == 43 { b@.drop_first() } else { b@ });
    read_digits(b, start, b.len(), max)
}

/// Parses a signed decimal text within `i32`; see [`signed_text`].
pub fn parse_signed(b: &[u8]) -> (r: Option<i64>)
    ensures
        match signed_text(b@) {
            Some(v) => r == Some(v as i64),
            None => r is None,
        },
{
    if b.len() > 0 && b[0] == 45 {
        assert(b@.subrange(1, b@.len() as int) == b@.drop_first());
        match read_digits(b, 1, b.len(), 0x8000_0000) {
            Some(v) => Some(-(v as i64)),
            None => None,
        }
    } else {
        match parse_unsigned(b, 0x7fff_ffff) {
            Some(v) => Some(v as i64),
            None => None,
        }
    }
}

/// Whether a year is a leap year.
pub open spec fn leap(year: int) -> bool {
    (year % 4 == 0 && year % 100 != 0) || year % 400 == 0
}

/// Divisibility does not depend on the sign.
proof fn lemma_divides_neg(a: int, d: int)
    requires
        d > 0,
    ensures
        (a % d == 0) == ((-a) % d == 0),
{
    vstd::arithmetic::div_mod::lemma_fundamental_div_mod(a, d);
    vstd::arithmetic::div_mod::lemma_fundamental_div_mod(-a, d);
    if a % d == 0 {
        assert(-a == (-(a / d)) * d) by (nonlinear_arith)
            requires
                a == d * (a / d),
        ;
        vstd::arithmetic::div_mod::lemma_mod_multiples_basic(-(a / d), d);
    }
    if (-a) % d == 0 {
        assert(a == (-((-a) / d)) * d) by (nonlinear_arith)
            requires
                -a == d * ((-a) / d),
        ;
        vstd::arithmetic::div_mod::lemma_mod_multiples_basic(-((-a) / d), d);
    }
}

/// Check if a year is a leap year.
pub fn is_leap_year(year: i32) -> (r: bool)
    ensures
        r == leap(year as int),
{
    let a: u32 = if year < 0 {
        (0i64 - year as i64) as u32
    } else {
        year as u32
    };
    proof {
        if year < 0 {
            lemma_divides_neg(year as int, 4);
            lemma_divides_neg(year as int, 100);
            lemma_divides_neg(year as int, 400);
        }
    }
    (a % 4 == 0 && a % 100 != 0) || a % 400 == 0
}

/// Days from 1970-01-01 to the first day of `year` (none before 1970).
pub open spec fn days_before_year(year: int) -> nat
    decreases year - 1970,
{
    if year <= 1970 {
        0
    } else {
        days_before_year(year - 1) + if leap(year - 1) { 366nat } else { 365nat }
    }
}

/// Days in a month of a common year (1-based).
pub open spec fn month_days(m: int) -> nat {
    if m == 2 {
        28
    } else if m == 4 || m == 6 || m == 9 || m == 11 {
        30
    } else {
        31
    }
}

/// Days from the first of the year to the first day of `month`.
pub open spec fn days_before_month(month: int, year: int) -> nat
    decreases month,
{
    if month <= 1 {
        0
    } else {
        days_before_month(month - 1, year) + month_days(month - 1) + if month - 1 == 2 && leap(year) {
            1nat
        } else {
            0nat
        }
    }
}

/// `b[a..e]` lies on character boundaries of the text.
pub open spec fn window_ok(b: Seq<u8>, a: int, e: int) -> bool {
    is_char_boundary(b, a) && is_char_boundary(b, e)
}

/// The fields of an ISO 8601 timestamp `YYYY-MM-DDTHH:MM:SS[.ffffff]Z`:
/// year, month, day, hour, minute, second and microseconds, read from fixed
/// positions as the standard parsers read them.
pub open spec fn iso_fields(b: Seq<u8>) -> Option<(int, nat, nat, nat, nat, nat, nat)> {
    if b.len() < 20 {
        None
    } else if !(window_ok(b, 0, 4) && window_ok(b, 5, 7) && window_ok(b, 8, 10) && window_ok(b, 11, 13)
        && window_ok(b, 14, 16) && window_ok(b, 17, 19)) {
        None
    } else {
        match (
            signed_text(b.subrange(0, 4)),
            unsigned_text(b.subrange(5, 7), 0xffff_ffff),
            unsigned_text(b.subrange(8, 10), 0xffff_ffff),
            unsigned_text(b.subrange(11, 13), 0xffff_ffff),
            unsigned_text(b.subrange(14, 16), 0xffff_ffff),
            unsigned_text(b.subrange(17, 19), 0xffff_ffff),
        ) {
            (Some(y), Some(mo), Some(d), Some(h), Some(mi), Some(s)) => {
                if b.len() > 20 && b[19] == 46 {
                    if b.len() < 26 || !window_ok(b, 20, 26) {
                        None
                    } else {
                        let us = match unsigned_text(b.subrange(20, 26), 0xffff_ffff) {
                            Some(v) => v,
                            None => 0,
                        };
                        Some((y, mo, d, h, mi, s, us))
                    }
                } else {
                    Some((y, mo, d, h, mi, s, 0))
                }
            },
            _ => None,
        }
    }
}

/// The timestamp's fields hold a day of 0 or a month past 13, for which the
/// day count cannot be computed.
pub open spec fn iso_out_of_range(b: Seq<u8>) -> bool {
    match iso_fields(b) {
        Some((_, mo, d, _, _, _, _)) => d == 0 || mo > 13,
        None => false,
    }
}

/// 100-nanosecond intervals from 1601-01-01 to 1970-01-01.
pub const FILETIME_UNIX_EPOCH: u64 = 116_444_736_000_000_000;

/// The time of a timestamp as 100-nanosecond intervals since 1601-01-01.
pub open spec fn iso_ticks(b: Seq<u8>) -> Option<nat> {
    match iso_fields(b) {
        Some((y, mo, d, h, mi, s, us)) => {
            let days = days_before_year(y) + days_before_month(mo as int, y) + (d - 1);
            let secs = days * 86400 + h * 3600 + mi * 60 + s;
            Some((FILETIME_UNIX_EPOCH + secs * 10_000_000 + us * 10) as nat)
        },
        None => None,
    }
}

/// Reads the field at `b[a..e]` as the standard parsers do.
fn field_u(b: &[u8], a: usize, e: usize) -> (r: Option<u64>)
    requires
        a <= e <= b@.len(),
    ensures
        match unsigned_text(b@.subrange(a as int, e as int), 0xffff_ffff) {
            Some(v) => r == Some(v as u64),
            None => r is None,
        },
{
    let mut w: Vec<u8> = Vec::new();
    let mut i: usize = a;
    while i < e
        invariant
            a <= i <= e <= b@.len(),
            w@ =~= b@.subrange(a as int, i as int),
        decreases e - i,
    {
        w.push(b[i]);
        i = i + 1;
    }
    parse_unsigned(w.as_slice(), 0xffff_ffff)
}

/// The fields of an event timestamp (`2024-01-15T10:30:45.123456Z`) as the
/// standard parsers read them; see [`iso_fields`].
pub fn iso_timestamp_fields(time_str: &str) -> (r: Option<(i64, u64, u64, u64, u64, u64, u64)>)
    ensures
        match iso_fields(encode_utf8(time_str@)) {
            Some((y, mo, d, h, mi, s, us)) => r == Some(
                (y as i64, mo as u64, d as u64, h as u64, mi as u64, s as u64, us as u64),
            ),
            None => r is None,
        },
        r matches Some((y, mo, d, h, mi, s, us)) ==> -0x8000_0000 <= y <= 9999 && mo <= 99 && d <= 99
            && h <= 99 && mi <= 99 && s <= 99 && us < 1_000_000,
{
    let b = time_str.as_bytes();
    if b.len() < 20 {
        return None;
    }
    let t = time_str;
    if !(t.is_char_boundary(0) && t.is_char_boundary(4) && t.is_char_boundary(5) && t.is_char_boundary(7)
        && t.is_char_boundary(8) && t.is_char_boundary(10) && t.is_char_boundary(11) && t.is_char_boundary(13)
        && t.is_char_boundary(14) && t.is_char_boundary(16) && t.is_char_boundary(17) && t.is_char_boundary(19)) {
        return None;
    }
    let mut yw: Vec<u8> = Vec::new();
    yw.push(b[0]);
    yw.push(b[1]);
    yw.push(b[2]);
    yw.push(b[3]);
    assert(yw@ =~= b@.subrange(0, 4));
    let year = match parse_signed(yw.as_slice()) {
        Some(v) => v,
        None => return None,
    };
    let month = match field_u(b, 5, 7) {
        Some(v) => v,
        None => return None,
    };
    let day = match field_u(b, 8, 10) {
        Some(v) => v,
        None => return None,
    };
    let hour = match field_u(b, 11, 13) {
        Some(v) => v,
        None => return None,
    };
    let minute = match field_u(b, 14, 16) {
        Some(v) => v,
        None => return None,
    };
    let second = match field_u(b, 17, 19) {
        Some(v) => v,
        None => return None,
    };
    let micros: u64 = if b.len() > 20 && b[19] == 46 {
        if b.len() < 26 || !(t.is_char_boundary(20) && t.is_char_boundary(26)) {
            return None;
        }
        match field_u(b, 20, 26) {
            Some(v) => v,
            None => 0,
        }
    } else {
        0
    };
    proof {
        lemma_unsigned_bound(b@.subrange(5, 7), 0xffff_ffff);
        lemma_unsigned_bound(b@.subrange(8, 10), 0xffff_ffff);
        lemma_unsigned_bound(b@.subrange(11, 13), 0xffff_ffff);
        lemma_unsigned_bound(b@.subrange(14, 16), 0xffff_ffff);
        lemma_unsigned_bound(b@.subrange(17, 19), 0xffff_ffff);
        if b@.len() >= 26 {
            lemma_unsigned_bound(b@.subrange(20, 26), 0xffff_ffff);
        }
        lemma_signed_bound(b@.subrange(0, 4));
        reveal_with_fuel(pow10, 7);
    }
    Some((year, month, day, hour, minute, second, micros))
}

/// Parses an event timestamp (`2024-01-15T10:30:45.123456Z`) into
/// 100-nanosecond intervals since 1601-01-01; see [`iso_ticks`].
pub fn parse_iso8601_timestamp(time_str: &str) -> (r: Option<u64>)
    requires
        !iso_out_of_range(encode_utf8(time_str@)),
    ensures
        match iso_ticks(encode_utf8(time_str@)) {
            Some(t) => r == Some(t as u64),
            None => r is None,
        },
{
    let (year, month, day, hour, minute, second, micros) = match iso_timestamp_fields(time_str) {
        Some(f) => f,
        None => return None,
    };
    let mut days: u64 = 0;
    let mut y: i64 = 1970;
    while y < year
        invariant
            1970 <= y,
            y <= year || year < 1970,
            year < 1970 ==> y == 1970,
            year <= 9999,
            days == days_before_year(y as int),
            days <= 366 * (y - 1970),
        decreases year - y,
    {
        let leap_y = is_leap_year(y as i32);
        days = days + if leap_y { 366 } else { 365 };
        y = y + 1;
    }
    assert(days == days_before_year(year as int));
    assert(days <= 366 * 8029);
    let mut m: u64 = 1;
    let mut md: u64 = 0;
    while m < month
        invariant
            1 <= m,
            m <= month || month < 1,
            month < 1 ==> m == 1,
            month <= 13,
            -0x8000_0000 <= year <= 9999,
            md == days_before_month(m as int, year as int),
            md <= 31 * m,
        decreases month - m,
    {
        let dim: u64 = if m == 2 {
            28
        } else if m == 4 || m == 6 || m == 9 || m == 11 {
            30
        } else {
            31
        };
        md = md + dim;
        if m == 2 && is_leap_year(year as i32) {
            md = md + 1;
        }
        m = m + 1;
    }
    assert(md == days_before_month(month as int, year as int)) by {
        if month >= 1 {
            assert(m == month);
        } else {
            assert(days_before_month(month as int, year as int) == 0);
            assert(days_before_month(m as int, year as int) == 0);
        }
    }
    let total_days = days + md + (day - 1);
    let secs = total_days * 86400 + hour * 3600 + minute * 60 + second;
    Some(FILETIME_UNIX_EPOCH + secs * 10_000_000 + micros * 10)
}

/// A present unsigned field is below ten to the power of its width.
pub proof fn lemma_unsigned_bound(b: Seq<u8>, max: nat)
    ensures
        unsigned_text(b, max) matches Some(v) ==> v < pow10(b.len()),
{
    let digits = if b.len() > 0 && b[0] == 43 { b.drop_first() } else { b };
    if all_digits(digits) {
        lemma_digit_bounds(digits);
        lemma_pow10_grows(digits.len(), b.len());
    }
}

/// A present signed field is below ten to the power of its width.
pub proof fn lemma_signed_bound(b: Seq<u8>)
    ensures
        signed_text(b) matches Some(v) ==> v < pow10(b.len()),
{
    lemma_unsigned_bound(b, 0x7fff_ffff);
    lemma_pow10_grows(0, b.len());
}

/// Ten to a power grows with the exponent.
pub proof fn lemma_pow10_grows(a: nat, b: nat)
    requires
        a <= b,
    ensures
        pow10(a) <= pow10(b),
    decreases b,
{
    if a < b {
        lemma_pow10_grows(a, (b - 1) as nat);
    }
}

/// Ten to the power `n`.
pub open spec fn pow10(n: nat) -> nat
    decreases n,
{
    if n == 0 {
        1
    } else {
        10 * pow10((n - 1) as nat)
    }
}

/// A run of `n` digits has a value below `10^n`.
pub proof fn lemma_digit_bounds(b: Seq<u8>)
    requires
        forall|i: int| 0 <= i < b.len() ==> is_digit_byte(#[trigger] b[i]),
    ensures
        digits_value(b) < pow10(b.len()),
    decreases b.len(),
{
    if b.len() > 0 {
        let p = b.drop_last();
        assert forall|i: int| 0 <= i < p.len() implies is_digit_byte(#[trigger] p[i]) by {
            assert(p[i] == b[i]);
        }
        lemma_digit_bounds(p);
        assert(is_digit_byte(b[b.len() - 1]));
    }
}

} // verus!
