//! Character-level text helpers: ASCII case folding, substring search,
//! UTF-16 and UTF-8 decoding, and decimal / hexadecimal rendering.

use vstd::prelude::*;
use vstd::utf8::*;

verus! {

// ---------------------------------------------------------------------------
// Specifications
// ---------------------------------------------------------------------------

/// ASCII lowercase of one character (non-ASCII characters are unchanged).
pub open spec fn ascii_lower_char(c: char) -> char {
    if 'A' <= c && c <= 'Z' {
        ((c as u32) + 32) as char
    } else {
        c
    }
}

/// ASCII uppercase of one character (non-ASCII characters are unchanged).
pub open spec fn ascii_upper_char(c: char) -> char {
    if 'a' <= c && c <= 'z' {
        ((c as u32) - 32) as char
    } else {
        c
    }
}

/// ASCII lowercase of a whole text.
pub open spec fn ascii_lower(s: Seq<char>) -> Seq<char> {
    Seq::new(s.len(), |i: int| ascii_lower_char(s[i]))
}

/// Two texts are equal when ASCII letters are compared without regard to case.
pub open spec fn eq_ascii_ci(a: Seq<char>, b: Seq<char>) -> bool {
    ascii_lower(a) == ascii_lower(b)
}

/// `needle` occurs in `hay` starting at position `i`.
pub open spec fn occurs_at(hay: Seq<char>, needle: Seq<char>, i: int) -> bool {
    0 <= i && i + needle.len() <= hay.len() && hay.subrange(i, i + needle.len()) == needle
}

/// `needle` occurs somewhere in `hay`.
pub open spec fn contains_seq(hay: Seq<char>, needle: Seq<char>) -> bool {
    exists|i: int| occurs_at(hay, needle, i)
}

/// `hay` begins with `prefix`.
pub open spec fn starts_with_seq(hay: Seq<char>, prefix: Seq<char>) -> bool {
    occurs_at(hay, prefix, 0)
}

/// `hay` ends with `suffix`.
pub open spec fn ends_with_seq(hay: Seq<char>, suffix: Seq<char>) -> bool {
    suffix.len() <= hay.len() && occurs_at(hay, suffix, hay.len() - suffix.len())
}

/// `c` occurs in `s`.
pub open spec fn has_char(s: Seq<char>, c: char) -> bool {
    exists|i: int| 0 <= i < s.len() && s[i] == c
}

/// Removes every trailing NUL character.
pub open spec fn trim_trailing_nul(s: Seq<char>) -> Seq<char>
    decreases s.len(),
{
    if s.len() > 0 && s.last() == '\0' {
        trim_trailing_nul(s.drop_last())
    } else {
        s
    }
}

/// Full Unicode lowercase mapping of a text, as computed by the standard library.
pub uninterp spec fn unicode_lowercase(s: Seq<char>) -> Seq<char>;

/// The character of a scalar value below the surrogate range or above it.
pub open spec fn is_scalar_value(v: u32) -> bool {
    v < 0xD800 || (0xE000 <= v && v <= 0x10FFFF)
}

/// UTF-16 decoding. Unpaired surrogates become U+FFFD when `lossy` holds and
/// are dropped otherwise.
pub open spec fn utf16_decode(s: Seq<u16>, lossy: bool) -> Seq<char>
    decreases s.len(),
{
    if s.len() == 0 {
        Seq::empty()
    } else if s[0] < 0xD800 || s[0] > 0xDFFF {
        seq![s[0] as char] + utf16_decode(s.drop_first(), lossy)
    } else if s[0] <= 0xDBFF && s.len() >= 2 && 0xDC00 <= s[1] && s[1] <= 0xDFFF {
        seq![(0x10000 + (s[0] - 0xD800) * 0x400 + (s[1] - 0xDC00)) as char]
            + utf16_decode(s.subrange(2, s.len() as int), lossy)
    } else if lossy {
        seq!['\u{FFFD}'] + utf16_decode(s.drop_first(), lossy)
    } else {
        utf16_decode(s.drop_first(), lossy)
    }
}

/// Texts joined with a separator.
pub open spec fn join_with(parts: Seq<Seq<char>>, sep: Seq<char>) -> Seq<char>
    decreases parts.len(),
{
    if parts.len() == 0 {
        Seq::empty()
    } else if parts.len() == 1 {
        parts[0]
    } else {
        join_with(parts.drop_last(), sep) + sep + parts.last()
    }
}


/// A UTF-16 sequence holds no unpaired surrogate.
pub open spec fn utf16_valid(s: Seq<u16>) -> bool
    decreases s.len(),
{
    if s.len() == 0 {
        true
    } else if s[0] < 0xD800 || s[0] > 0xDFFF {
        utf16_valid(s.drop_first())
    } else if s[0] <= 0xDBFF && s.len() >= 2 && 0xDC00 <= s[1] && s[1] <= 0xDFFF {
        utf16_valid(s.subrange(2, s.len() as int))
    } else {
        false
    }
}

/// The decimal digit character for `d < 10`.
pub open spec fn digit_char(d: nat) -> char {
    ((d + 48) as u32) as char
}

/// Decimal rendering of a natural number, without leading zeros.
pub open spec fn dec(n: nat) -> Seq<char>
    decreases n,
{
    if n < 10 {
        seq![digit_char(n)]
    } else {
        dec(n / 10).push(digit_char(n % 10))
    }
}

/// Decimal rendering of a signed number.
pub open spec fn dec_signed(n: int) -> Seq<char> {
    if n < 0 {
        seq!['-'] + dec((-n) as nat)
    } else {
        dec(n as nat)
    }
}

/// The uppercase hexadecimal digit character for `d < 16`.
pub open spec fn hex_char(d: nat) -> char {
    if d < 10 {
        ((d + 48) as u32) as char
    } else {
        ((d + 55) as u32) as char
    }
}

/// The `width` lowest hexadecimal digits of `v`, most significant first.
pub open spec fn hex_fixed(v: nat, width: nat) -> Seq<char>
    decreases width,
{
    if width == 0 {
        Seq::empty()
    } else {
        hex_fixed(v / 16, (width - 1) as nat).push(hex_char(v % 16))
    }
}

/// The bit pattern of an `i32` read as an unsigned number.
pub open spec fn i32_bits(v: i32) -> nat {
    if v < 0 {
        (v + 0x1_0000_0000) as nat
    } else {
        v as nat
    }
}

/// `"0x"` followed by the eight uppercase hexadecimal digits of an `i32` bit pattern.
pub open spec fn hex_code(v: i32) -> Seq<char> {
    seq!['0', 'x'] + hex_fixed(i32_bits(v), 8)
}

// ---------------------------------------------------------------------------
// Calls into the standard library
// ---------------------------------------------------------------------------

/// `String::push`: appends one character.
#[verifier::external_body]
pub fn push_char(s: &mut String, c: char)
    ensures
        final(s)@ == old(s)@.push(c),
{
    s.push(c)
}

/// `char::from_u32`: the character of a Unicode scalar value, or `None`.
#[verifier::external_body]
pub fn char_from_u32(v: u32) -> (r: Option<char>)
    ensures
        is_scalar_value(v) ==> r == Some(v as char),
        !is_scalar_value(v) ==> r is None,
{
    char::from_u32(v)
}

/// `String::from_utf8`: decodes bytes that are valid UTF-8.
#[verifier::external_body]
pub fn string_from_utf8(bytes: Vec<u8>) -> (r: Option<String>)
    ensures
        r is Some <==> valid_utf8(bytes@),
        r matches Some(s) ==> s@ == decode_utf8(bytes@),
{
    String::from_utf8(bytes).ok()
}

/// The text `String::from_utf8_lossy` makes of some bytes.
pub uninterp spec fn utf8_lossy_text(bytes: Seq<u8>) -> Seq<char>;

/// `String::from_utf8_lossy`: the bytes read as UTF-8, each invalid sequence
/// replaced by U+FFFD; valid UTF-8 comes out as the text it encodes.
#[verifier::external_body]
pub fn utf8_lossy(bytes: &[u8]) -> (r: String)
    ensures
        r@ == utf8_lossy_text(bytes@),
        valid_utf8(bytes@) ==> r@ == decode_utf8(bytes@),
{
    String::from_utf8_lossy(bytes).into_owned()
}

/// `str::to_lowercase`: the full Unicode lowercase mapping.
#[verifier::external_body]
pub fn to_unicode_lowercase(s: &str) -> (r: String)
    ensures
        r@ == unicode_lowercase(s@),
{
    s.to_lowercase()
}

// ---------------------------------------------------------------------------
// Executable helpers
// ---------------------------------------------------------------------------

/// Copies a string slice into a new `String`.
pub fn str_to_string(s: &str) -> (r: String)
    ensures
        r@ == s@,
{
    String::from_str(s)
}

/// ASCII lowercase of one character.
pub fn lower_char(c: char) -> (r: char)
    ensures
        r == ascii_lower_char(c),
{
    if 'A' <= c && c <= 'Z' {
        let v: u32 = (c as u32) + 32;
        let r = char_from_u32(v);
        match r {
            Some(x) => x,
            None => c,
        }
    } else {
        c
    }
}

/// ASCII uppercase of one character.
pub fn upper_char(c: char) -> (r: char)
    ensures
        r == ascii_upper_char(c),
{
    if 'a' <= c && c <= 'z' {
        let v: u32 = (c as u32) - 32;
        let r = char_from_u32(v);
        match r {
            Some(x) => x,
            None => c,
        }
    } else {
        c
    }
}

/// The characters of a string slice.
pub fn chars_of(s: &str) -> (r: Vec<char>)
    ensures
        r@ == s@,
{
    let n = s.unicode_len();
    let mut out: Vec<char> = Vec::new();
    let mut i: usize = 0;
    while i < n
        invariant
            n == s@.len(),
            i <= n,
            out@ == s@.subrange(0, i as int),
        decreases n - i,
    {
        out.push(s.get_char(i));
        i = i + 1;
    }
    assert(out@ == s@);
    out
}

/// Builds a `String` from characters.
pub fn string_from_chars(cs: &[char]) -> (r: String)
    ensures
        r@ == cs@,
{
    let mut out = String::new();
    let mut i: usize = 0;
    while i < cs.len()
        invariant
            i <= cs.len(),
            out@ == cs@.subrange(0, i as int),
        decreases cs.len() - i,
    {
        push_char(&mut out, cs[i]);
        i = i + 1;
    }
    assert(out@ == cs@);
    out
}

/// ASCII lowercase of a character sequence.
pub fn lower_chars(cs: &[char]) -> (r: Vec<char>)
    ensures
        r@ == ascii_lower(cs@),
{
    let mut out: Vec<char> = Vec::new();
    let mut i: usize = 0;
    while i < cs.len()
        invariant
            i <= cs.len(),
            out@ == ascii_lower(cs@.subrange(0, i as int)),
        decreases cs.len() - i,
    {
        let c = lower_char(cs[i]);
        out.push(c);
        i = i + 1;
        assert(ascii_lower(cs@.subrange(0, i as int)) == ascii_lower(cs@.subrange(0, i - 1)).push(c));
    }
    assert(cs@.subrange(0, cs@.len() as int) == cs@);
    out
}

/// Compares two character sequences, ASCII letters without regard to case.
pub fn chars_eq_ascii_ci(a: &[char], b: &[char]) -> (r: bool)
    ensures
        r == eq_ascii_ci(a@, b@),
{
    if a.len() != b.len() {
        assert(ascii_lower(a@).len() != ascii_lower(b@).len());
        return false;
    }
    let mut i: usize = 0;
    while i < a.len()
        invariant
            a.len() == b.len(),
            i <= a.len(),
            forall|k: int| 0 <= k < i ==> ascii_lower_char(a@[k]) == ascii_lower_char(b@[k]),
        decreases a.len() - i,
    {
        if lower_char(a[i]) != lower_char(b[i]) {
            assert(ascii_lower(a@)[i as int] != ascii_lower(b@)[i as int]);
            return false;
        }
        i = i + 1;
    }
    assert(ascii_lower(a@) =~= ascii_lower(b@));
    true
}

/// Compares two string slices, ASCII letters without regard to case.
pub fn str_eq_ascii_ci(a: &str, b: &str) -> (r: bool)
    ensures
        r == eq_ascii_ci(a@, b@),
{
    let ac = chars_of(a);
    let bc = chars_of(b);
    chars_eq_ascii_ci(ac.as_slice(), bc.as_slice())
}

/// Whether `needle` occurs in `hay` at position `i`.
pub fn chars_occur_at(hay: &[char], needle: &[char], i: usize) -> (r: bool)
    ensures
        r == occurs_at(hay@, needle@, i as int),
{
    if needle.len() > hay.len() || i > hay.len() - needle.len() {
        return false;
    }
    let mut k: usize = 0;
    while k < needle.len()
        invariant
            i + needle.len() <= hay.len(),
            k <= needle.len(),
            forall|j: int| 0 <= j < k ==> hay@[i + j] == needle@[j],
        decreases needle.len() - k,
    {
        if hay[i + k] != needle[k] {
            assert(hay@.subrange(i as int, i + needle@.len())[k as int] != needle@[k as int]);
            return false;
        }
        k = k + 1;
    }
    assert(hay@.subrange(i as int, i + needle@.len()) =~= needle@);
    true
}

/// Whether two texts are equal.
pub fn str_eq(a: &str, b: &str) -> (r: bool)
    ensures
        r == (a@ == b@),
{
    let ac = chars_of(a);
    let bc = chars_of(b);
    if ac.len() != bc.len() {
        return false;
    }
    let mut i: usize = 0;
    while i < ac.len()
        invariant
            i <= ac@.len(),
            ac@.len() == bc@.len(),
            ac@ == a@,
            bc@ == b@,
            forall|k: int| 0 <= k < i ==> ac@[k] == bc@[k],
        decreases ac@.len() - i,
    {
        if ac[i] != bc[i] {
            assert(a@[i as int] != b@[i as int]);
            return false;
        }
        i = i + 1;
    }
    assert(a@ =~= b@);
    true
}

/// Whether `needle` occurs anywhere in `hay`.
pub fn chars_contain(hay: &[char], needle: &[char]) -> (r: bool)
    ensures
        r == contains_seq(hay@, needle@),
{
    if needle.len() > hay.len() {
        assert forall|i: int| !occurs_at(hay@, needle@, i) by {}
        return false;
    }
    let last = hay.len() - needle.len();
    let mut i: usize = 0;
    while i <= last
        invariant
            last == hay.len() - needle.len(),
            needle.len() <= hay.len(),
            forall|j: int| 0 <= j < i ==> !occurs_at(hay@, needle@, j),
        decreases last + 1 - i,
    {
        if chars_occur_at(hay, needle, i) {
            return true;
        }
        if i == last {
            assert forall|j: int| !occurs_at(hay@, needle@, j) by {
                if 0 <= j && j < i {
                } else if j == i {
                } else {
                }
            }
            return false;
        }
        i = i + 1;
    }
    false
}

/// Whether character `c` occurs in `s`.
pub fn chars_have(s: &[char], c: char) -> (r: bool)
    ensures
        r == has_char(s@, c),
{
    let mut i: usize = 0;
    while i < s.len()
        invariant
            i <= s.len(),
            forall|j: int| 0 <= j < i ==> s@[j] != c,
        decreases s.len() - i,
    {
        if s[i] == c {
            return true;
        }
        i = i + 1;
    }
    false
}

/// Drops every trailing NUL character.
pub fn trim_nul_end(cs: &[char]) -> (r: Vec<char>)
    ensures
        r@ == trim_trailing_nul(cs@),
{
    let mut end: usize = cs.len();
    assert(cs@.subrange(0, end as int) == cs@);
    while end > 0 && cs[end - 1] == '\0'
        invariant
            end <= cs.len(),
            trim_trailing_nul(cs@) == trim_trailing_nul(cs@.subrange(0, end as int)),
        decreases end,
    {
        assert(cs@.subrange(0, end - 1) == cs@.subrange(0, end as int).drop_last());
        end = end - 1;
    }
    let mut out: Vec<char> = Vec::new();
    let mut i: usize = 0;
    while i < end
        invariant
            end <= cs.len(),
            i <= end,
            out@ == cs@.subrange(0, i as int),
        decreases end - i,
    {
        out.push(cs[i]);
        i = i + 1;
    }
    assert(out@ == cs@.subrange(0, end as int));
    out
}

/// Appends the decimal rendering of `n`.
pub fn push_dec(s: &mut String, n: u64)
    ensures
        final(s)@ == old(s)@ + dec(n as nat),
    decreases n,
{
    if n < 10 {
        let c = digit(n);
        push_char(s, c);
        assert(old(s)@.push(c) == old(s)@ + seq![c]);
    } else {
        push_dec(s, n / 10);
        let c = digit(n % 10);
        push_char(s, c);
        assert(dec(n as nat) == dec((n / 10) as nat).push(c));
        assert(old(s)@ + dec((n / 10) as nat) + seq![c] == old(s)@ + dec((n / 10) as nat).push(c));
    }
}

/// Appends the decimal rendering of a signed number.
pub fn push_dec_signed(s: &mut String, n: i64)
    ensures
        final(s)@ == old(s)@ + dec_signed(n as int),
{
    if n < 0 {
        push_char(s, '-');
        let m: u64 = if n == i64::MIN {
            0x8000_0000_0000_0000u64
        } else {
            (-n) as u64
        };
        push_dec(s, m);
        assert(old(s)@.push('-') + dec(m as nat) == old(s)@ + (seq!['-'] + dec(m as nat)));
    } else {
        push_dec(s, n as u64);
    }
}

/// The decimal digit character of `d < 10`.
pub fn digit(d: u64) -> (c: char)
    requires
        d < 10,
    ensures
        c == digit_char(d as nat),
{
    let v: u32 = (d as u32) + 48;
    match char_from_u32(v) {
        Some(c) => c,
        None => '0',
    }
}

/// The uppercase hexadecimal digit character of `d < 16`.
pub fn hex_digit(d: u64) -> (c: char)
    requires
        d < 16,
    ensures
        c == hex_char(d as nat),
{
    let v: u32 = if d < 10 {
        (d as u32) + 48
    } else {
        (d as u32) + 55
    };
    match char_from_u32(v) {
        Some(c) => c,
        None => '0',
    }
}

/// Appends the `width` lowest uppercase hexadecimal digits of `v`.
pub fn push_hex_fixed(s: &mut String, v: u64, width: u32)
    ensures
        final(s)@ == old(s)@ + hex_fixed(v as nat, width as nat),
    decreases width,
{
    if width == 0 {
        assert(old(s)@ + Seq::<char>::empty() == old(s)@);
    } else {
        push_hex_fixed(s, v / 16, width - 1);
        let c = hex_digit(v % 16);
        push_char(s, c);
        assert(hex_fixed(v as nat, width as nat) == hex_fixed((v / 16) as nat, (width - 1) as nat).push(c));
        assert(old(s)@ + hex_fixed((v / 16) as nat, (width - 1) as nat) + seq![c]
            == old(s)@ + hex_fixed((v / 16) as nat, (width - 1) as nat).push(c));
    }
}

/// Appends `0x` and the eight hexadecimal digits of an `i32` bit pattern.
pub fn push_hex_code(s: &mut String, code: i32)
    ensures
        final(s)@ == old(s)@ + hex_code(code),
{
    s.append("0x");
    proof {
        reveal_strlit("0x");
    }
    let bits: u64 = if code < 0 {
        ((code as i64) + 0x1_0000_0000i64) as u64
    } else {
        code as u64
    };
    push_hex_fixed(s, bits, 8);
    assert(old(s)@ + "0x"@ + hex_fixed(bits as nat, 8) == old(s)@ + hex_code(code));
}

/// Whether a UTF-16 sequence holds no unpaired surrogate.
pub fn utf16_is_valid(units: &[u16]) -> (r: bool)
    ensures
        r == utf16_valid(units@),
{
    let mut i: usize = 0;
    assert(units@.subrange(0, units@.len() as int) == units@);
    while i < units.len()
        invariant
            i <= units.len(),
            utf16_valid(units@) == utf16_valid(units@.subrange(i as int, units@.len() as int)),
        decreases units.len() - i,
    {
        let ghost rest = units@.subrange(i as int, units@.len() as int);
        let u = units[i];
        if u < 0xD800 || u > 0xDFFF {
            assert(rest.drop_first() == units@.subrange(i + 1, units@.len() as int));
            i = i + 1;
        } else if u <= 0xDBFF && i + 1 < units.len() && 0xDC00 <= units[i + 1] && units[i + 1] <= 0xDFFF {
            assert(rest.subrange(2, rest.len() as int) == units@.subrange(i + 2, units@.len() as int));
            i = i + 2;
        } else {
            return false;
        }
    }
    true
}

/// Appends text characters.
pub fn push_chars(s: &mut String, cs: &[char])
    ensures
        final(s)@ == old(s)@ + cs@,
{
    let mut i: usize = 0;
    while i < cs.len()
        invariant
            i <= cs.len(),
            s@ == old(s)@ + cs@.subrange(0, i as int),
        decreases cs.len() - i,
    {
        push_char(s, cs[i]);
        i = i + 1;
        assert(cs@.subrange(0, i as int) == cs@.subrange(0, i - 1).push(cs@[i - 1]));
    }
    assert(cs@.subrange(0, cs@.len() as int) == cs@);
}

/// UTF-16 decoding; see [`utf16_decode`].
pub fn decode_utf16(units: &[u16], lossy: bool) -> (r: String)
    ensures
        r@ == utf16_decode(units@, lossy),
{
    let mut out = String::new();
    let mut i: usize = 0;
    assert(units@.subrange(0, units@.len() as int) == units@);
    assert(out@ + utf16_decode(units@, lossy) == utf16_decode(units@, lossy));
    while i < units.len()
        invariant
            i <= units.len(),
            utf16_decode(units@, lossy) == out@ + utf16_decode(units@.subrange(i as int, units@.len() as int), lossy),
        decreases units.len() - i,
    {
        let ghost rest = units@.subrange(i as int, units@.len() as int);
        let u = units[i];
        if u < 0xD800 || u > 0xDFFF {
            let c = char_from_u32(u as u32);
            proof {
                assert(is_scalar_value(u as u32));
                assert(rest.drop_first() == units@.subrange(i + 1, units@.len() as int));
            }
            match c {
                Some(ch) => push_char(&mut out, ch),
                None => {},
            }
            i = i + 1;
        } else if u <= 0xDBFF && i + 1 < units.len() && 0xDC00 <= units[i + 1] && units[i + 1] <= 0xDFFF {
            let hi: u32 = (u as u32) - 0xD800;
            let lo: u32 = (units[i + 1] as u32) - 0xDC00;
            let v: u32 = 0x10000 + hi * 0x400 + lo;
            proof {
                assert(is_scalar_value(v)) by (nonlinear_arith)
                    requires hi < 0x400, lo < 0x400, v == 0x10000 + hi * 0x400 + lo;
                assert(rest.subrange(2, rest.len() as int) == units@.subrange(i + 2, units@.len() as int));
            }
            let c = char_from_u32(v);
            match c {
                Some(ch) => push_char(&mut out, ch),
                None => {},
            }
            i = i + 2;
        } else {
            proof {
                assert(rest.drop_first() == units@.subrange(i + 1, units@.len() as int));
            }
            if lossy {
                push_char(&mut out, '\u{FFFD}');
            }
            i = i + 1;
        }
    }
    assert(units@.subrange(i as int, units@.len() as int) == Seq::<u16>::empty());
    out
}

// ---------------------------------------------------------------------------
// Whitespace trimming and splitting
// ---------------------------------------------------------------------------

/// `char::is_whitespace`: the Unicode White_Space property.
pub open spec fn is_white_space(c: char) -> bool {
    let v = c as u32;
    (9 <= v && v <= 13) || v == 32 || v == 0x85 || v == 0xA0 || v == 0x1680 || (0x2000 <= v && v
        <= 0x200A) || v == 0x2028 || v == 0x2029 || v == 0x202F || v == 0x205F || v == 0x3000
}

/// Whether a character is Unicode white space.
pub fn char_is_white_space(c: char) -> (r: bool)
    ensures
        r == is_white_space(c),
{
    let v = c as u32;
    (9 <= v && v <= 13) || v == 32 || v == 0x85 || v == 0xA0 || v == 0x1680 || (0x2000 <= v && v
        <= 0x200A) || v == 0x2028 || v == 0x2029 || v == 0x202F || v == 0x205F || v == 0x3000
}

/// The text without its leading white space.
pub open spec fn trim_start_ws(s: Seq<char>) -> Seq<char>
    decreases s.len(),
{
    if s.len() > 0 && is_white_space(s[0]) {
        trim_start_ws(s.drop_first())
    } else {
        s
    }
}

/// The text without its trailing white space.
pub open spec fn trim_end_ws(s: Seq<char>) -> Seq<char>
    decreases s.len(),
{
    if s.len() > 0 && is_white_space(s.last()) {
        trim_end_ws(s.drop_last())
    } else {
        s
    }
}

/// `str::trim`: the text without leading and trailing white space.
pub open spec fn trim_ws(s: Seq<char>) -> Seq<char> {
    trim_end_ws(trim_start_ws(s))
}

/// Trims white space from both ends; see [`trim_ws`].
pub fn trim_chars(cs: &[char]) -> (r: Vec<char>)
    ensures
        r@ == trim_ws(cs@),
{
    let n = cs.len();
    let mut a: usize = 0;
    assert(cs@.subrange(0, n as int) == cs@);
    while a < n && char_is_white_space(cs[a])
        invariant
            a <= n == cs@.len(),
            trim_start_ws(cs@) == trim_start_ws(cs@.subrange(a as int, n as int)),
        decreases n - a,
    {
        assert(cs@.subrange(a as int, n as int).drop_first() == cs@.subrange(a + 1, n as int));
        a = a + 1;
    }
    let mut e: usize = n;
    while e > a && char_is_white_space(cs[e - 1])
        invariant
            a <= e <= n == cs@.len(),
            trim_start_ws(cs@) == trim_start_ws(cs@.subrange(a as int, n as int)),
            a < n ==> !is_white_space(cs@[a as int]),
            trim_ws(cs@) == trim_end_ws(cs@.subrange(a as int, e as int)),
        decreases e - a,
    {
        assert(cs@.subrange(a as int, e as int).drop_last() == cs@.subrange(a as int, e - 1));
        e = e - 1;
    }
    let mut out: Vec<char> = Vec::new();
    let mut i: usize = a;
    while i < e
        invariant
            a <= i <= e <= n == cs@.len(),
            out@ == cs@.subrange(a as int, i as int),
        decreases e - i,
    {
        out.push(cs[i]);
        i = i + 1;
    }
    out
}

/// `str::split` on one character: the pieces between separators, empty
/// ones included, built up left to right.
pub open spec fn split_on(s: Seq<char>, sep: char) -> Seq<Seq<char>>
    decreases s.len(),
{
    if s.len() == 0 {
        seq![Seq::empty()]
    } else {
        let p = split_on(s.drop_last(), sep);
        if s.last() == sep {
            p.push(Seq::empty())
        } else {
            p.update(p.len() - 1, p.last().push(s.last()))
        }
    }
}

/// Splitting always yields at least one piece.
pub proof fn lemma_split_on_nonempty(s: Seq<char>, sep: char)
    ensures
        split_on(s, sep).len() >= 1,
    decreases s.len(),
{
    if s.len() > 0 {
        lemma_split_on_nonempty(s.drop_last(), sep);
    }
}

/// The pieces of a text as plain character sequences.
pub open spec fn pieces_view(v: Seq<Vec<char>>) -> Seq<Seq<char>> {
    v.map_values(|p: Vec<char>| p@)
}

/// Splits on a separator character; see [`split_on`].
pub fn split_chars(cs: &[char], sep: char) -> (r: Vec<Vec<char>>)
    ensures
        pieces_view(r@) == split_on(cs@, sep),
{
    let mut done: Vec<Vec<char>> = Vec::new();
    let mut cur: Vec<char> = Vec::new();
    let mut i: usize = 0;
    assert(cs@.subrange(0, 0) == Seq::<char>::empty());
    assert(pieces_view(done@).push(cur@) == split_on(cs@.subrange(0, 0), sep));
    while i < cs.len()
        invariant
            i <= cs@.len(),
            pieces_view(done@).push(cur@) == split_on(cs@.subrange(0, i as int), sep),
        decreases cs.len() - i,
    {
        let ghost before = pieces_view(done@).push(cur@);
        assert(cs@.subrange(0, i + 1).drop_last() == cs@.subrange(0, i as int));
        if cs[i] == sep {
            done.push(cur);
            cur = Vec::new();
            assert(pieces_view(done@).push(cur@) =~= before.push(Seq::empty()));
        } else {
            cur.push(cs[i]);
            assert(pieces_view(done@).push(cur@) =~= before.update(
                before.len() - 1,
                before.last().push(cs@[i as int]),
            ));
        }
        i = i + 1;
    }
    assert(cs@.subrange(0, cs@.len() as int) == cs@);
    done.push(cur);
    assert(pieces_view(done@) =~= split_on(cs@, sep));
    done
}

/// Where `c` first occurs in `s`, or -1.
pub open spec fn index_of_char(s: Seq<char>, c: char) -> int
    decreases s.len(),
{
    if s.len() == 0 {
        -1
    } else if s[0] == c {
        0
    } else {
        let r = index_of_char(s.drop_first(), c);
        if r < 0 {
            -1
        } else {
            r + 1
        }
    }
}

/// Finds the first occurrence of a character; see [`index_of_char`].
pub fn find_char(cs: &[char], c: char) -> (r: Option<usize>)
    ensures
        match r {
            Some(i) => i as int == index_of_char(cs@, c),
            None => index_of_char(cs@, c) == -1,
        },
        r matches Some(i) ==> i < cs@.len(),
{
    let mut i: usize = 0;
    assert(cs@.subrange(0, cs@.len() as int) == cs@);
    while i < cs.len()
        invariant
            i <= cs@.len(),
            index_of_char(cs@, c) == if index_of_char(cs@.subrange(i as int, cs@.len() as int), c)
                < 0 {
                -1
            } else {
                index_of_char(cs@.subrange(i as int, cs@.len() as int), c) + i
            },
        decreases cs.len() - i,
    {
        assert(cs@.subrange(i as int, cs@.len() as int).drop_first() == cs@.subrange(
            i + 1,
            cs@.len() as int,
        ));
        if cs[i] == c {
            return Some(i);
        }
        i = i + 1;
    }
    None
}

/// Copies `cs[a..e]`.
pub fn chars_range(cs: &[char], a: usize, e: usize) -> (r: Vec<char>)
    requires
        a <= e <= cs@.len(),
    ensures
        r@ == cs@.subrange(a as int, e as int),
{
    let mut out: Vec<char> = Vec::new();
    let mut i: usize = a;
    while i < e
        invariant
            a <= i <= e <= cs@.len(),
            out@ == cs@.subrange(a as int, i as int),
        decreases e - i,
    {
        out.push(cs[i]);
        i = i + 1;
    }
    out
}

/// Texts as plain character sequences.
pub open spec fn strings_view(v: Seq<String>) -> Seq<Seq<char>> {
    v.map_values(|s: String| s@)
}

/// Joins texts with a separator between each two; see [`join_with`].
pub fn join_strings(parts: &[String], sep: &str) -> (r: String)
    ensures
        r@ == join_with(strings_view(parts@), sep@),
{
    let ghost p = strings_view(parts@);
    let mut out = String::new();
    let mut i: usize = 0;
    while i < parts.len()
        invariant
            p == strings_view(parts@),
            i <= parts@.len(),
            out@ == join_with(p.subrange(0, i as int), sep@),
        decreases parts.len() - i,
    {
        assert(p.subrange(0, i + 1).drop_last() == p.subrange(0, i as int));
        if i > 0 {
            out.append(sep);
        }
        out.append(parts[i].as_str());
        i = i + 1;
    }
    assert(p.subrange(0, parts@.len() as int) == p);
    out
}

} // verus!
