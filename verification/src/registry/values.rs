//! Registry value data: the typed values a key stores and their encodings.

use vstd::prelude::*;

use crate::bytes::{le2, le4, le8, read_u16_le, read_u32_le, read_u64_le, copy_range};
use crate::desktop::{encode_utf16, lemma_utf16_encode_no_zero, lemma_utf16_round_trip, utf16_encode};
use crate::error::{Error, RegistryError, RegistryInvalidTypeError};
use crate::text::{decode_utf16, dec, push_dec, str_to_string, utf16_decode};

verus! {

/// `REG_SZ`.
pub const REG_SZ: u32 = 1;
/// `REG_EXPAND_SZ`.
pub const REG_EXPAND_SZ: u32 = 2;
/// `REG_BINARY`.
pub const REG_BINARY: u32 = 3;
/// `REG_DWORD`.
pub const REG_DWORD: u32 = 4;
/// `REG_MULTI_SZ`.
pub const REG_MULTI_SZ: u32 = 7;
/// `REG_QWORD`.
pub const REG_QWORD: u32 = 11;

/// Units a string value is read into.
pub const STRING_READ_UNITS: usize = 1024;
/// Units a multi-string value is read into.
pub const MULTI_STRING_READ_UNITS: usize = 4096;
/// Bytes a binary value is read into.
pub const BINARY_READ_BYTES: usize = 4096;

/// The little-endian UTF-16 units of a byte sequence (a trailing odd byte is ignored).
pub open spec fn units_of(d: Seq<u8>) -> Seq<u16> {
    Seq::new(d.len() / 2, |i: int| le2(d, 2 * i) as u16)
}

/// The little-endian bytes of UTF-16 units.
pub open spec fn bytes_of(u: Seq<u16>) -> Seq<u8> {
    Seq::new(2 * u.len(), |i: int| if i % 2 == 0 { (u[i / 2] % 256) as u8 } else { (u[i / 2] / 256) as u8 })
}

/// The wrong-type error of reading a value as `expected`.
pub open spec fn invalid_type_spec(expected: Seq<char>, kind: u32, name: Seq<char>, e: Error) -> bool {
    e matches Error::Registry(RegistryError::InvalidType(t)) && t.expected@ == expected && t.found@ == "REG type "@
        + dec(kind as nat) && (t.value_name matches Some(n) && n@ == name)
}

/// The wrong-type error of reading a value as `expected`.
fn invalid_type(expected: &str, kind: u32, name: &str) -> (r: Error)
    ensures
        invalid_type_spec(expected@, kind, name@, r),
{
    let mut found = str_to_string("REG type ");
    push_dec(&mut found, kind as u64);
    Error::Registry(RegistryError::InvalidType(RegistryInvalidTypeError::with_name(expected, found.as_str(), name)))
}

/// Reads UTF-16 units from little-endian bytes.
pub fn units_from_bytes(data: &[u8]) -> (r: Vec<u16>)
    ensures
        r@ == units_of(data@),
{
    let len = data.len();
    let n = len / 2;
    let mut out: Vec<u16> = Vec::new();
    let mut i: usize = 0;
    while i < n
        invariant
            len == data@.len(),
            n == data@.len() / 2,
            i <= n,
            out@ =~= units_of(data@).subrange(0, i as int),
        decreases n - i,
    {
        out.push(read_u16_le(data, 2 * i));
        i = i + 1;
    }
    out
}

/// Writes UTF-16 units as little-endian bytes.
pub fn bytes_from_units(units: &[u16]) -> (r: Vec<u8>)
    requires
        2 * units@.len() <= usize::MAX,
    ensures
        r@ == bytes_of(units@),
{
    let mut out: Vec<u8> = Vec::new();
    let mut i: usize = 0;
    while i < units.len()
        invariant
            i <= units@.len(),
            out@ =~= bytes_of(units@).subrange(0, 2 * i as int),
            2 * units@.len() <= usize::MAX,
        decreases units@.len() - i,
    {
        let u = units[i];
        out.push((u % 256) as u8);
        out.push((u / 256) as u8);
        i = i + 1;
        assert(out@ =~= bytes_of(units@).subrange(0, 2 * i as int));
    }
    out
}

/// The text of a string value: the units before the terminator (one unit
/// fewer than the data holds), decoded with unpaired surrogates replaced.
pub open spec fn string_value_spec(data: Seq<u8>) -> Seq<char> {
    let n = units_of(data).len();
    let keep = if n == 0 { 0 } else if n - 1 < STRING_READ_UNITS { n - 1 } else { STRING_READ_UNITS as int };
    utf16_decode(units_of(data).subrange(0, keep), true)
}

/// Reads a string value (`REG_SZ` or `REG_EXPAND_SZ`) from its data.
pub fn read_string_value(kind: u32, data: &[u8], name: &str) -> (r: Result<String, Error>)
    ensures
        kind != REG_SZ && kind != REG_EXPAND_SZ ==> (r matches Err(e) && invalid_type_spec(
            "String (REG_SZ or REG_EXPAND_SZ)"@,
            kind,
            name@,
            e,
        )),
        kind == REG_SZ || kind == REG_EXPAND_SZ ==> (r matches Ok(s) && s@ == string_value_spec(data@)),
{
    if kind != REG_SZ && kind != REG_EXPAND_SZ {
        return Err(invalid_type("String (REG_SZ or REG_EXPAND_SZ)", kind, name));
    }
    let units = units_from_bytes(data);
    let n = units.len();
    let keep: usize = if n == 0 { 0 } else if n - 1 < STRING_READ_UNITS { n - 1 } else { STRING_READ_UNITS };
    let mut kept: Vec<u16> = Vec::new();
    let mut i: usize = 0;
    while i < keep
        invariant
            keep <= units@.len(),
            i <= keep,
            kept@ =~= units@.subrange(0, i as int),
        decreases keep - i,
    {
        kept.push(units[i]);
        i = i + 1;
    }
    Ok(decode_utf16(kept.as_slice(), true))
}

/// The data of a string value: its UTF-16 units and a terminating zero.
pub fn write_string_value(value: &str) -> (r: Vec<u8>)
    requires
        2 * (utf16_encode(value@).len() + 1) <= usize::MAX,
    ensures
        r@ == bytes_of(utf16_encode(value@).push(0u16)),
{
    let mut units = encode_utf16(value);
    units.push(0);
    bytes_from_units(units.as_slice())
}

/// The four little-endian bytes of a `REG_DWORD` value.
pub open spec fn dword_bytes(v: u32) -> Seq<u8> {
    seq![(v % 256) as u8, ((v / 256) % 256) as u8, ((v / 65536) % 256) as u8, (v / 16777216) as u8]
}

/// The eight little-endian bytes of a `REG_QWORD` value.
pub open spec fn qword_bytes(v: u64) -> Seq<u8> {
    dword_bytes((v % 4294967296) as u32) + dword_bytes((v / 4294967296) as u32)
}

/// The data of a `REG_DWORD` value.
pub fn write_u32_value(v: u32) -> (r: Vec<u8>)
    ensures
        r@ == dword_bytes(v),
{
    let mut out: Vec<u8> = Vec::new();
    out.push((v % 256) as u8);
    out.push(((v / 256) % 256) as u8);
    out.push(((v / 65536) % 256) as u8);
    out.push((v / 16777216) as u8);
    assert(out@ =~= dword_bytes(v));
    out
}

/// The data of a `REG_QWORD` value.
pub fn write_u64_value(v: u64) -> (r: Vec<u8>)
    ensures
        r@ == qword_bytes(v),
{
    let mut out = write_u32_value((v % 4294967296) as u32);
    let mut high = write_u32_value((v / 4294967296) as u32);
    out.append(&mut high);
    out
}

/// The data of a boolean, stored as a `REG_DWORD` of 1 or 0.
pub fn write_bool_value(v: bool) -> (r: Vec<u8>)
    ensures
        r@ == dword_bytes(if v { 1u32 } else { 0u32 }),
{
    write_u32_value(if v { 1 } else { 0 })
}

/// Reading a `REG_DWORD` gives back the value written.
pub proof fn lemma_dword_round_trip(v: u32)
    ensures
        dword_bytes(v).len() == 4,
        le4(dword_bytes(v), 0) == v,
{
    let b = dword_bytes(v);
    assert(b[0] as nat + b[1] as nat * 256 + b[2] as nat * 65536 + b[3] as nat * 16777216 == v);
}

/// Reading a `REG_QWORD` gives back the value written.
pub proof fn lemma_qword_round_trip(v: u64)
    ensures
        qword_bytes(v).len() == 8,
        le8(qword_bytes(v), 0) == v,
{
    let lo = (v % 4294967296) as u32;
    let hi = (v / 4294967296) as u32;
    lemma_dword_round_trip(lo);
    lemma_dword_round_trip(hi);
    let b = qword_bytes(v);
    assert(b.subrange(0, 4) =~= dword_bytes(lo));
    assert(b.subrange(4, 8) =~= dword_bytes(hi));
    assert(le4(b, 0) == le4(dword_bytes(lo), 0));
    assert(le4(b, 4) == le4(dword_bytes(hi), 0));
}

/// Reading a boolean gives back the boolean written.
pub proof fn lemma_bool_round_trip(v: bool)
    ensures
        (le4(dword_bytes(if v { 1u32 } else { 0u32 }), 0) != 0) == v,
{
    lemma_dword_round_trip(if v { 1u32 } else { 0u32 });
}

/// Reading units from the bytes they were written as gives them back.
pub proof fn lemma_units_round_trip(u: Seq<u16>)
    ensures
        units_of(bytes_of(u)) == u,
{
    let b = bytes_of(u);
    assert forall|i: int| 0 <= i < u.len() implies units_of(b)[i] == u[i] by {
        assert(b[2 * i] == (u[i] % 256) as u8);
        assert(b[2 * i + 1] == (u[i] / 256) as u8);
    }
    assert(units_of(b) =~= u);
}

/// Reading a string value gives back the string written, when its units
/// fit the read buffer.
pub proof fn lemma_string_value_round_trip(s: Seq<char>)
    requires
        utf16_encode(s).len() <= STRING_READ_UNITS,
    ensures
        string_value_spec(bytes_of(utf16_encode(s).push(0u16))) == s,
{
    let u = utf16_encode(s).push(0u16);
    lemma_units_round_trip(u);
    assert(u.subrange(0, u.len() - 1) =~= utf16_encode(s));
    lemma_utf16_round_trip(s, true);
}

/// Reads a `REG_DWORD` value from its data.
pub fn read_u32_value(kind: u32, data: &[u8], name: &str) -> (r: Result<u32, Error>)
    requires
        data@.len() >= 4,
    ensures
        kind != REG_DWORD ==> (r matches Err(e) && invalid_type_spec("u32 (REG_DWORD)"@, kind, name@, e)),
        kind == REG_DWORD ==> r == Ok::<u32, Error>(le4(data@, 0) as u32),
{
    if kind != REG_DWORD {
        return Err(invalid_type("u32 (REG_DWORD)", kind, name));
    }
    Ok(read_u32_le(data, 0))
}

/// Reads a `REG_QWORD` value from its data.
pub fn read_u64_value(kind: u32, data: &[u8], name: &str) -> (r: Result<u64, Error>)
    requires
        data@.len() >= 8,
    ensures
        kind != REG_QWORD ==> (r matches Err(e) && invalid_type_spec("u64 (REG_QWORD)"@, kind, name@, e)),
        kind == REG_QWORD ==> r == Ok::<u64, Error>(le8(data@, 0) as u64),
{
    if kind != REG_QWORD {
        return Err(invalid_type("u64 (REG_QWORD)", kind, name));
    }
    Ok(read_u64_le(data, 0))
}

/// Reads a boolean stored as a `REG_DWORD`: any non-zero value is true.
pub fn read_bool_value(kind: u32, data: &[u8], name: &str) -> (r: Result<bool, Error>)
    requires
        data@.len() >= 4,
    ensures
        kind != REG_DWORD ==> (r matches Err(e) && invalid_type_spec("u32 (REG_DWORD)"@, kind, name@, e)),
        kind == REG_DWORD ==> r == Ok::<bool, Error>(le4(data@, 0) != 0),
{
    match read_u32_value(kind, data, name) {
        Ok(v) => Ok(v != 0),
        Err(e) => Err(e),
    }
}

/// Reads a `REG_BINARY` value from its data.
pub fn read_binary_value(kind: u32, data: &[u8], name: &str) -> (r: Result<Vec<u8>, Error>)
    ensures
        kind != REG_BINARY ==> (r matches Err(e) && invalid_type_spec("Vec<u8> (REG_BINARY)"@, kind, name@, e)),
        kind == REG_BINARY ==> (r matches Ok(v) && v@ == data@),
{
    if kind != REG_BINARY {
        return Err(invalid_type("Vec<u8> (REG_BINARY)", kind, name));
    }
    let v = copy_range(data, 0, data.len());
    assert(data@.subrange(0, data@.len() as int) == data@);
    Ok(v)
}

/// The unit at `i` of a read buffer of `cap` units whose first units are
/// `u` and the rest zero.
pub open spec fn padded(u: Seq<u16>, i: int) -> u16 {
    if 0 <= i < u.len() { u[i] } else { 0 }
}

/// The strings of a multi-string buffer: scanning the `n` units read, each
/// zero ends a string (empty ones are skipped), and a zero followed by
/// another zero inside the buffer of `cap` units ends the list.
pub open spec fn multi_from(u: Seq<u16>, cap: int, i: int, start: int) -> Seq<Seq<char>>
    decreases u.len() - i,
{
    if i >= u.len() || i < 0 {
        Seq::empty()
    } else if u[i] == 0 {
        let head: Seq<Seq<char>> = if i > start {
            seq![utf16_decode(u.subrange(start, i), true)]
        } else {
            Seq::empty()
        };
        if i + 1 < cap && padded(u, i + 1) == 0 {
            head
        } else {
            head + multi_from(u, cap, i + 1, i + 1)
        }
    } else {
        multi_from(u, cap, i + 1, start)
    }
}

/// The strings of a `REG_MULTI_SZ` value's data.
pub open spec fn multi_string_spec(data: Seq<u8>) -> Seq<Seq<char>> {
    multi_from(units_of(data), MULTI_STRING_READ_UNITS as int, 0, 0)
}

/// The views of a list of strings.
pub open spec fn string_views(v: Seq<String>) -> Seq<Seq<char>> {
    Seq::new(v.len(), |i: int| v[i]@)
}

/// Reads a `REG_MULTI_SZ` value from its data; see [`multi_string_spec`].
pub fn read_multi_string_value(kind: u32, data: &[u8], name: &str) -> (r: Result<Vec<String>, Error>)
    requires
        data@.len() / 2 <= MULTI_STRING_READ_UNITS,
    ensures
        kind != REG_MULTI_SZ ==> (r matches Err(e) && invalid_type_spec("Vec<String> (REG_MULTI_SZ)"@, kind, name@, e)),
        kind == REG_MULTI_SZ ==> (r matches Ok(v) && string_views(v@) == multi_string_spec(data@)),
{
    if kind != REG_MULTI_SZ {
        return Err(invalid_type("Vec<String> (REG_MULTI_SZ)", kind, name));
    }
    let u = units_from_bytes(data);
    let n = u.len();
    let mut strings: Vec<String> = Vec::new();
    let mut start: usize = 0;
    let mut i: usize = 0;
    while i < n
        invariant
            kind == REG_MULTI_SZ,
            u@ == units_of(data@),
            n == u@.len(),
            n <= MULTI_STRING_READ_UNITS,
            start <= i <= n,
            multi_from(u@, MULTI_STRING_READ_UNITS as int, 0, 0) == string_views(strings@) + multi_from(
                u@,
                MULTI_STRING_READ_UNITS as int,
                i as int,
                start as int,
            ),
        decreases n - i,
    {
        if u[i] == 0 {
            let ghost before = string_views(strings@);
            if i > start {
                let mut seg: Vec<u16> = Vec::new();
                let mut k: usize = start;
                while k < i
                    invariant
                        start <= k <= i < u@.len(),
                        seg@ =~= u@.subrange(start as int, k as int),
                    decreases i - k,
                {
                    seg.push(u[k]);
                    k = k + 1;
                }
                strings.push(decode_utf16(seg.as_slice(), true));
                assert(string_views(strings@) =~= before.push(utf16_decode(u@.subrange(start as int, i as int), true)));
            }
            let stop = i + 1 < MULTI_STRING_READ_UNITS && (i + 1 >= n || u[i + 1] == 0);
            if stop {
                assert(string_views(strings@) + Seq::<Seq<char>>::empty() == string_views(strings@));
                return Ok(strings);
            }
            start = i + 1;
        }
        i = i + 1;
    }
    assert(string_views(strings@) + Seq::<Seq<char>>::empty() == string_views(strings@));
    Ok(strings)
}

/// The units of a multi-string: each string's UTF-16 units and a zero,
/// then a final zero.
pub open spec fn multi_units(v: Seq<Seq<char>>) -> Seq<u16>
    decreases v.len(),
{
    if v.len() == 0 {
        seq![0u16]
    } else {
        utf16_encode(v[0]).push(0u16) + multi_units(v.drop_first())
    }
}

/// No unit among `u[i..j]` is zero, so the scan passes them.
pub proof fn lemma_multi_from_skip(u: Seq<u16>, cap: int, i: int, j: int, start: int)
    requires
        0 <= i <= j <= u.len(),
        forall|k: int| i <= k < j ==> u[k] != 0,
    ensures
        multi_from(u, cap, i, start) == multi_from(u, cap, j, start),
    decreases j - i,
{
    if i < j {
        lemma_multi_from_skip(u, cap, i + 1, j, start);
    }
}

/// A string that holds no NUL character.
pub open spec fn has_no_nul(s: Seq<char>) -> bool {
    forall|k: int| 0 <= k < s.len() ==> s[k] != '\0'
}

/// The scan of a multi-string written after any units `p` gives back the
/// strings written, when each is non-empty and holds no NUL.
pub proof fn lemma_multi_from_units(p: Seq<u16>, v: Seq<Seq<char>>, cap: int)
    requires
        forall|i: int| 0 <= i < v.len() ==> #[trigger] v[i].len() > 0 && has_no_nul(v[i]),
        p.len() + multi_units(v).len() <= cap,
    ensures
        multi_from(p + multi_units(v), cap, p.len() as int, p.len() as int) == v,
    decreases v.len(),
{
    let u = p + multi_units(v);
    let a = p.len() as int;
    if v.len() == 0 {
        assert(u[a] == 0);
        assert(padded(u, a + 1) == 0);
        assert(multi_from(u, cap, a + 1, a + 1) == Seq::<Seq<char>>::empty());
        assert(v =~= Seq::<Seq<char>>::empty());
    } else {
        let w = utf16_encode(v[0]);
        let tail = v.drop_first();
        let m = multi_units(tail);
        assert(v[0].len() > 0 && has_no_nul(v[0]));
        lemma_utf16_encode_no_zero(v[0]);
        lemma_utf16_round_trip(v[0], true);
        let e = a + w.len();
        assert(u =~= p + w + seq![0u16] + m);
        assert forall|k: int| a <= k < e implies u[k] != 0 by {
            assert(u[k] == w[k - a]);
        }
        lemma_multi_from_skip(u, cap, a, e, a);
        assert(u[e] == 0);
        assert(u.subrange(a, e) =~= w);
        let p2 = p + w.push(0u16);
        assert(u =~= p2 + m);
        assert(p2.len() == e + 1);
        assert forall|i: int| 0 <= i < tail.len() implies #[trigger] tail[i].len() > 0 && has_no_nul(tail[i]) by {
            assert(tail[i] == v[i + 1]);
        }
        lemma_multi_from_units(p2, tail, cap);
        if tail.len() == 0 {
            assert(m == seq![0u16]);
            assert(padded(u, e + 1) == 0);
            assert(v =~= seq![v[0]]);
        } else {
            let w1 = utf16_encode(tail[0]);
            assert(tail[0].len() > 0 && has_no_nul(tail[0]));
            lemma_utf16_encode_no_zero(tail[0]);
            assert(m =~= w1.push(0u16) + multi_units(tail.drop_first()));
            assert(u[e + 1] == w1[0]);
            assert(padded(u, e + 1) != 0);
            assert(seq![v[0]] + tail =~= v);
        }
    }
}

/// Reading a multi-string value gives back the strings written, when each
/// is non-empty, holds no NUL, and all fit the read buffer.
pub proof fn lemma_multi_string_round_trip(v: Seq<Seq<char>>)
    requires
        forall|i: int| 0 <= i < v.len() ==> #[trigger] v[i].len() > 0 && has_no_nul(v[i]),
        multi_units(v).len() <= MULTI_STRING_READ_UNITS,
    ensures
        multi_string_spec(bytes_of(multi_units(v))) == v,
{
    lemma_units_round_trip(multi_units(v));
    assert(Seq::<u16>::empty() + multi_units(v) =~= multi_units(v));
    lemma_multi_from_units(Seq::<u16>::empty(), v, MULTI_STRING_READ_UNITS as int);
}

/// The units of a multi-string; see [`multi_units`].
pub fn encode_multi_string(values: &[String]) -> (r: Vec<u16>)
    ensures
        r@ == multi_units(string_views(values@)),
{
    let ghost all = string_views(values@);
    let mut out: Vec<u16> = Vec::new();
    let mut i: usize = values.len();
    let mut tail: Vec<u16> = Vec::new();
    tail.push(0);
    assert(all.subrange(values@.len() as int, values@.len() as int) =~= Seq::<Seq<char>>::empty());
    while i > 0
        invariant
            i <= values@.len(),
            all == string_views(values@),
            tail@ == multi_units(all.subrange(i as int, values@.len() as int)),
        decreases i,
    {
        i = i - 1;
        let mut piece = encode_utf16(values[i].as_str());
        piece.push(0);
        let ghost sub = all.subrange(i as int, values@.len() as int);
        assert(sub.drop_first() =~= all.subrange(i + 1, values@.len() as int));
        let mut joined = piece;
        let mut k: usize = 0;
        let ghost p = joined@;
        while k < tail.len()
            invariant
                k <= tail@.len(),
                joined@ == p + tail@.subrange(0, k as int),
            decreases tail@.len() - k,
        {
            joined.push(tail[k]);
            k = k + 1;
            assert(joined@ =~= p + tail@.subrange(0, k as int));
        }
        assert(tail@.subrange(0, tail@.len() as int) == tail@);
        tail = joined;
    }
    assert(all.subrange(0, values@.len() as int) == all);
    out = tail;
    out
}

/// The data of a `REG_MULTI_SZ` value.
pub fn write_multi_string_value(values: &[String]) -> (r: Vec<u8>)
    requires
        2 * multi_units(string_views(values@)).len() <= usize::MAX,
    ensures
        r@ == bytes_of(multi_units(string_views(values@))),
{
    let units = encode_multi_string(values);
    bytes_from_units(units.as_slice())
}

/// `d` followed by zero bytes up to `n` bytes, or `d` itself where it is
/// that long already: a value read into a zeroed buffer of `n` bytes.
pub open spec fn zero_padded(d: Seq<u8>, n: nat) -> Seq<u8> {
    if d.len() < n {
        d + Seq::new((n - d.len()) as nat, |i: int| 0u8)
    } else {
        d
    }
}

/// Copies `data`, padded with zeros to `n` bytes; see [`zero_padded`].
fn pad_with_zeros(data: &[u8], n: usize) -> (r: Vec<u8>)
    ensures
        r@ == zero_padded(data@, n as nat),
{
    let mut out = copy_range(data, 0, data.len());
    assert(data@.subrange(0, data@.len() as int) == data@);
    let ghost d = data@;
    while out.len() < n
        invariant
            d == data@,
            d.len() <= out@.len(),
            out@.subrange(0, d.len() as int) == d,
            forall|i: int| d.len() <= i < out@.len() ==> out@[i] == 0u8,
            out@.len() > d.len() ==> out@.len() <= n,
        decreases n - out.len(),
    {
        out.push(0);
    }
    if data.len() < n {
        assert(out@ =~= zero_padded(d, n as nat));
    } else {
        assert(out@ =~= d);
    }
    out
}

/// A type that registry value data is read as and written from.
pub trait RegistryValue: Sized {
    /// Reads a value of this type from the data read for the value `name`,
    /// of registry type `kind`.
    fn read_from_data(kind: u32, data: &[u8], name: &str) -> Result<Self, Error>;

    /// The registry type and the data this value is written as; `None` where
    /// the data would not fit in memory.
    fn write_to_data(self) -> Option<(u32, Vec<u8>)>;
}

impl RegistryValue for String {
    /// See [`read_string_value`].
    fn read_from_data(kind: u32, data: &[u8], name: &str) -> (r: Result<String, Error>)
        ensures
            kind != REG_SZ && kind != REG_EXPAND_SZ ==> (r matches Err(e) && invalid_type_spec(
                "String (REG_SZ or REG_EXPAND_SZ)"@,
                kind,
                name@,
                e,
            )),
            kind == REG_SZ || kind == REG_EXPAND_SZ ==> (r matches Ok(s) && s@ == string_value_spec(data@)),
    {
        read_string_value(kind, data, name)
    }

    /// A `REG_SZ` value; see [`write_string_value`].
    fn write_to_data(self) -> (r: Option<(u32, Vec<u8>)>)
        ensures
            2 * (utf16_encode(self@).len() + 1) <= usize::MAX ==> (r matches Some((k, d)) && k == REG_SZ && d@
                == bytes_of(utf16_encode(self@).push(0u16))),
            2 * (utf16_encode(self@).len() + 1) > usize::MAX ==> r is None,
    {
        let units = encode_utf16(self.as_str());
        if units.len() >= usize::MAX / 2 {
            return None;
        }
        Some((REG_SZ, write_string_value(self.as_str())))
    }
}

impl RegistryValue for u32 {
    /// A `REG_DWORD`, its data read into a zeroed four-byte buffer.
    fn read_from_data(kind: u32, data: &[u8], name: &str) -> (r: Result<u32, Error>)
        ensures
            kind != REG_DWORD ==> (r matches Err(e) && invalid_type_spec("u32 (REG_DWORD)"@, kind, name@, e)),
            kind == REG_DWORD ==> r == Ok::<u32, Error>(le4(zero_padded(data@, 4), 0) as u32),
    {
        let d = pad_with_zeros(data, 4);
        read_u32_value(kind, d.as_slice(), name)
    }

    /// A `REG_DWORD`; see [`write_u32_value`].
    fn write_to_data(self) -> (r: Option<(u32, Vec<u8>)>)
        ensures
            r matches Some((k, d)) && k == REG_DWORD && d@ == dword_bytes(self),
    {
        Some((REG_DWORD, write_u32_value(self)))
    }
}

impl RegistryValue for u64 {
    /// A `REG_QWORD`, its data read into a zeroed eight-byte buffer.
    fn read_from_data(kind: u32, data: &[u8], name: &str) -> (r: Result<u64, Error>)
        ensures
            kind != REG_QWORD ==> (r matches Err(e) && invalid_type_spec("u64 (REG_QWORD)"@, kind, name@, e)),
            kind == REG_QWORD ==> r == Ok::<u64, Error>(le8(zero_padded(data@, 8), 0) as u64),
    {
        let d = pad_with_zeros(data, 8);
        read_u64_value(kind, d.as_slice(), name)
    }

    /// A `REG_QWORD`; see [`write_u64_value`].
    fn write_to_data(self) -> (r: Option<(u32, Vec<u8>)>)
        ensures
            r matches Some((k, d)) && k == REG_QWORD && d@ == qword_bytes(self),
    {
        Some((REG_QWORD, write_u64_value(self)))
    }
}

impl RegistryValue for bool {
    /// A `REG_DWORD` read as a `u32`: any non-zero value is true.
    fn read_from_data(kind: u32, data: &[u8], name: &str) -> (r: Result<bool, Error>)
        ensures
            kind != REG_DWORD ==> (r matches Err(e) && invalid_type_spec("u32 (REG_DWORD)"@, kind, name@, e)),
            kind == REG_DWORD ==> r == Ok::<bool, Error>(le4(zero_padded(data@, 4), 0) != 0),
    {
        let d = pad_with_zeros(data, 4);
        read_bool_value(kind, d.as_slice(), name)
    }

    /// A `REG_DWORD` of 1 or 0; see [`write_bool_value`].
    fn write_to_data(self) -> (r: Option<(u32, Vec<u8>)>)
        ensures
            r matches Some((k, d)) && k == REG_DWORD && d@ == dword_bytes(if self { 1u32 } else { 0u32 }),
    {
        Some((REG_DWORD, write_bool_value(self)))
    }
}

impl RegistryValue for Vec<u8> {
    /// See [`read_binary_value`].
    fn read_from_data(kind: u32, data: &[u8], name: &str) -> (r: Result<Vec<u8>, Error>)
        ensures
            kind != REG_BINARY ==> (r matches Err(e) && invalid_type_spec("Vec<u8> (REG_BINARY)"@, kind, name@, e)),
            kind == REG_BINARY ==> (r matches Ok(v) && v@ == data@),
    {
        read_binary_value(kind, data, name)
    }

    /// A `REG_BINARY` value holding the bytes.
    fn write_to_data(self) -> (r: Option<(u32, Vec<u8>)>)
        ensures
            r matches Some((k, d)) && k == REG_BINARY && d@ == self@,
    {
        Some((REG_BINARY, self))
    }
}

impl RegistryValue for Vec<String> {
    /// A `REG_MULTI_SZ` value; data past the read buffer of
    /// [`MULTI_STRING_READ_UNITS`] units is not read. See
    /// [`read_multi_string_value`].
    fn read_from_data(kind: u32, data: &[u8], name: &str) -> (r: Result<Vec<String>, Error>)
        ensures
            kind != REG_MULTI_SZ ==> (r matches Err(e) && invalid_type_spec(
                "Vec<String> (REG_MULTI_SZ)"@,
                kind,
                name@,
                e,
            )),
            kind == REG_MULTI_SZ ==> (r matches Ok(v) && string_views(v@) == multi_string_spec(
                if data@.len() <= 2 * MULTI_STRING_READ_UNITS {
                    data@
                } else {
                    data@.subrange(0, 2 * MULTI_STRING_READ_UNITS)
                },
            )),
    {
        let cap: usize = 2 * MULTI_STRING_READ_UNITS;
        if data.len() <= cap {
            read_multi_string_value(kind, data, name)
        } else {
            let head = copy_range(data, 0, cap);
            read_multi_string_value(kind, head.as_slice(), name)
        }
    }

    /// A `REG_MULTI_SZ` value; see [`write_multi_string_value`].
    fn write_to_data(self) -> (r: Option<(u32, Vec<u8>)>)
        ensures
            2 * multi_units(string_views(self@)).len() <= usize::MAX ==> (r matches Some((k, d)) && k
                == REG_MULTI_SZ && d@ == bytes_of(multi_units(string_views(self@)))),
            2 * multi_units(string_views(self@)).len() > usize::MAX ==> r is None,
    {
        let units = encode_multi_string(self.as_slice());
        if units.len() > usize::MAX / 2 {
            return None;
        }
        Some((REG_MULTI_SZ, write_multi_string_value(self.as_slice())))
    }
}

} // verus!
