//! Schema-driven parsing of ETW event payloads into named fields.
//!
//! A provider schema lists, for every property of an event, its input type,
//! its output type, a declared byte length and an element count, either of
//! which may instead be read from an earlier property of the same event.

use vstd::prelude::*;
use vstd::utf8::*;

use super::event::{
    EventField, EventFieldValue, FieldModel, FieldValueModel, Guid, GuidModel, IpAddress,
    IpModel, fields_view,
};
use crate::bytes::{
    lemma_first_zero_bounds, copy_range, find_zero, first_zero, le2, le4, le8, read_array16, read_array4, read_array8,
    read_u16_le, read_u32_le, read_u64_le,
};
use crate::text::{
    join_with,
    decode_utf16, eq_ascii_ci, hex_fixed, push_char, push_hex_fixed, str_eq_ascii_ci,
    string_from_utf8, utf16_decode,
};

verus! {

/// Input type: NUL-terminated or sized UTF-16 string.
pub const TDH_INTYPE_UNICODESTRING: i32 = 1;
/// Input type: NUL-terminated or sized 8-bit string.
pub const TDH_INTYPE_ANSISTRING: i32 = 2;
/// Input type: unsigned 8-bit integer.
pub const TDH_INTYPE_UINT8: i32 = 4;
/// Input type: unsigned 16-bit integer.
pub const TDH_INTYPE_UINT16: i32 = 6;
/// Input type: signed 32-bit integer.
pub const TDH_INTYPE_INT32: i32 = 7;
/// Input type: unsigned 32-bit integer.
pub const TDH_INTYPE_UINT32: i32 = 8;
/// Input type: signed 64-bit integer.
pub const TDH_INTYPE_INT64: i32 = 9;
/// Input type: unsigned 64-bit integer.
pub const TDH_INTYPE_UINT64: i32 = 10;
/// Input type: 32-bit boolean.
pub const TDH_INTYPE_BOOLEAN: i32 = 13;
/// Input type: GUID.
pub const TDH_INTYPE_GUID: i32 = 15;
/// Input type: pointer.
pub const TDH_INTYPE_POINTER: i32 = 16;
/// Input type code treated as a raw IPv4 address.
pub const TDH_INTYPE_IPV4_VALUE: i32 = 19;
/// Input type code treated as a raw IPv6 address.
pub const TDH_INTYPE_IPV6_VALUE: i32 = 20;

/// Output type: string.
pub const TDH_OUTTYPE_STRING: i32 = 1;
/// Output type: boolean.
pub const TDH_OUTTYPE_BOOLEAN: i32 = 13;
/// Output type: 8-bit hexadecimal.
pub const TDH_OUTTYPE_HEXINT8: i32 = 16;
/// Output type: 16-bit hexadecimal.
pub const TDH_OUTTYPE_HEXINT16: i32 = 17;
/// Output type: 32-bit hexadecimal.
pub const TDH_OUTTYPE_HEXINT32: i32 = 18;
/// Output type: 64-bit hexadecimal.
pub const TDH_OUTTYPE_HEXINT64: i32 = 19;
/// Output type: process identifier.
pub const TDH_OUTTYPE_PID: i32 = 20;
/// Output type: thread identifier.
pub const TDH_OUTTYPE_TID: i32 = 21;
/// Output type: port number.
pub const TDH_OUTTYPE_PORT: i32 = 22;
/// Output type: IPv4 address.
pub const TDH_OUTTYPE_IPV4: i32 = 23;
/// Output type: IPv6 address.
pub const TDH_OUTTYPE_IPV6: i32 = 24;
/// Output type: socket address.
pub const TDH_OUTTYPE_SOCKETADDRESS: i32 = 25;
/// Output type: XML text.
pub const TDH_OUTTYPE_XML: i32 = 28;
/// Output type: Win32 error code.
pub const TDH_OUTTYPE_WIN32ERROR: i32 = 30;
/// Output type: NTSTATUS code.
pub const TDH_OUTTYPE_NTSTATUS: i32 = 31;
/// Output type: HRESULT code.
pub const TDH_OUTTYPE_HRESULT: i32 = 32;
/// Output type: JSON text.
pub const TDH_OUTTYPE_JSON: i32 = 34;
/// Output type: UTF-8 text.
pub const TDH_OUTTYPE_UTF8: i32 = 35;
/// Output type: reduced string.
pub const TDH_OUTTYPE_REDUCEDSTRING: i32 = 300;

/// Schema metadata of one event property.
#[derive(Debug, Clone)]
pub struct PropertyMeta {
    /// Property name.
    pub name: String,
    /// Input (wire) type code.
    pub in_type: i32,
    /// Output (rendering) type code.
    pub out_type: i32,
    /// Declared byte length (0 when not fixed).
    pub length: u16,
    /// Declared element count.
    pub count: u16,
    /// Index of an earlier property that holds the element count.
    pub count_property_index: Option<usize>,
    /// Index of an earlier property that holds the byte length.
    pub length_property_index: Option<usize>,
    /// Name of a value map used to render the property.
    pub map_name: Option<String>,
}

/// The parsed schema of one event kind.
#[derive(Debug, Clone)]
pub struct CachedSchema {
    /// Properties in payload order.
    pub props: Vec<PropertyMeta>,
}

/// Kind of a value map.
#[derive(Debug, Clone, Copy, PartialEq, Eq, Structural)]
pub enum MapKind {
    /// One label per exact value.
    Value,
    /// One label per bit.
    Bitmap,
}

/// Key of a value map entry.
#[derive(Debug, Clone)]
pub enum MapKey {
    /// Numeric key.
    Numeric(u64),
    /// Text key, compared without regard to ASCII case.
    Text(String),
}

/// One entry of a value map.
#[derive(Debug, Clone)]
pub struct MapEntry {
    /// Entry key.
    pub key: MapKey,
    /// Rendered label.
    pub label: String,
}

/// A provider value map.
#[derive(Debug, Clone)]
pub struct MapDefinition {
    /// Value or bitmap semantics.
    pub kind: MapKind,
    /// Entries in schema order.
    pub entries: Vec<MapEntry>,
}

// ---------------------------------------------------------------------------
// Specifications
// ---------------------------------------------------------------------------

/// UTF-16 code units read from byte pairs at `i`, `i + 2`, ... while a whole
/// pair lies before `end`, stopping before the first zero unit.
pub open spec fn utf16_units(d: Seq<u8>, i: int, end: int) -> Seq<u16>
    decreases end - i,
{
    if i + 1 < end {
        if le2(d, i) == 0 {
            Seq::empty()
        } else {
            seq![le2(d, i) as u16] + utf16_units(d, i + 2, end)
        }
    } else {
        Seq::empty()
    }
}

/// Offset just past the first zero UTF-16 unit at or after `i`, or the offset
/// where no whole pair remains.
pub open spec fn utf16_terminator_end(d: Seq<u8>, i: int) -> int
    decreases d.len() - i,
{
    if i + 1 < d.len() {
        if le2(d, i) == 0 {
            i + 2
        } else {
            utf16_terminator_end(d, i + 2)
        }
    } else {
        i
    }
}

/// A sized UTF-16 string of `n` bytes (decoding stops at a zero unit).
pub open spec fn utf16_sized_spec(d: Seq<u8>, n: nat) -> Option<(FieldValueModel, nat)> {
    if n == 0 || n > d.len() || n % 2 != 0 {
        None
    } else {
        Some((FieldValueModel::Text(utf16_decode(utf16_units(d, 0, n as int), true)), n))
    }
}

/// A NUL-terminated UTF-16 string.
pub open spec fn utf16_cstr_spec(d: Seq<u8>) -> Option<(FieldValueModel, nat)> {
    if d.len() < 2 {
        None
    } else {
        Some((
            FieldValueModel::Text(utf16_decode(utf16_units(d, 0, d.len() as int), true)),
            utf16_terminator_end(d, 0) as nat,
        ))
    }
}

/// A sized 8-bit string of `n` bytes, decoded as UTF-8 up to its first NUL.
pub open spec fn sized_utf8_spec(d: Seq<u8>, n: nat) -> Option<(FieldValueModel, nat)> {
    if n == 0 || n > d.len() {
        None
    } else {
        let raw = d.subrange(0, n as int);
        let text = raw.subrange(0, first_zero(raw, 0));
        if valid_utf8(text) {
            Some((FieldValueModel::Text(decode_utf8(text)), n))
        } else {
            None
        }
    }
}

/// A NUL-terminated 8-bit string decoded as UTF-8.
pub open spec fn ascii_cstr_spec(d: Seq<u8>) -> Option<(FieldValueModel, nat)> {
    let end = first_zero(d, 0);
    let text = d.subrange(0, end);
    if valid_utf8(text) {
        Some((FieldValueModel::Text(decode_utf8(text)), if end < d.len() { (end + 1) as nat } else { end as nat }))
    } else {
        None
    }
}

/// The first `n` bytes as a binary value.
pub open spec fn blob(d: Seq<u8>, n: nat) -> FieldValueModel {
    FieldValueModel::Binary(d.subrange(0, n as int))
}

/// `"0x"` followed by `width` hexadecimal digits.
pub open spec fn hex_text(v: nat, width: nat) -> FieldValueModel {
    FieldValueModel::Text(seq!['0', 'x'] + hex_fixed(v, width))
}

/// A socket address: family 2 gives IPv4, family 23 gives IPv6.
pub open spec fn socket_address_spec(d: Seq<u8>) -> Option<(FieldValueModel, nat)> {
    if d.len() < 8 {
        None
    } else if le2(d, 0) == 2 {
        Some((FieldValueModel::Ip(IpModel::V4(d.subrange(4, 8))), 8))
    } else if le2(d, 0) == 23 {
        if d.len() >= 24 {
            Some((FieldValueModel::Ip(IpModel::V6(d.subrange(8, 24))), 24))
        } else {
            None
        }
    } else {
        None
    }
}

/// A socket address is read where the sockaddr layouts keep the address,
/// after the family (little-endian, first two bytes) and the port (next
/// two): for the IPv4 family 2 the four bytes at 4 to 7, reading 8 bytes;
/// for the IPv6 family 23 the sixteen bytes at 8 to 23, after the four
/// bytes of flow information, reading 24 bytes. Other families, and data
/// too short for its family, give no socket address. A property whose output
/// type is a socket address takes this value whatever its input type, when
/// there is one.
pub proof fn lemma_socket_address_layout(in_type: i32, length: u16, d: Seq<u8>)
    ensures
        socket_address_spec(d) is Some ==> one_value_spec(in_type, TDH_OUTTYPE_SOCKETADDRESS, length, d)
            == socket_address_spec(d),
        d.len() >= 8 && d[0] == 2 && d[1] == 0 ==> (socket_address_spec(d) matches Some(
            (FieldValueModel::Ip(IpModel::V4(a)), n),
        ) && n == 8 && a.len() == 4 && forall|i: int| 0 <= i < 4 ==> #[trigger] a[i] == d[4 + i]),
        d.len() >= 24 && d[0] == 23 && d[1] == 0 ==> (socket_address_spec(d) matches Some(
            (FieldValueModel::Ip(IpModel::V6(a)), n),
        ) && n == 24 && a.len() == 16 && forall|i: int| 0 <= i < 16 ==> #[trigger] a[i] == d[8 + i]),
        d.len() < 24 && d.len() >= 2 && d[0] == 23 && d[1] == 0 ==> socket_address_spec(d) is None,
        d.len() >= 2 && !(d[0] == 2 && d[1] == 0) && !(d[0] == 23 && d[1] == 0) ==> socket_address_spec(d) is None,
        d.len() < 8 ==> socket_address_spec(d) is None,
{
}

/// Whether the output type selects a text rendering of sized 8-bit data.
pub open spec fn is_text_out_type(out_type: i32) -> bool {
    out_type == TDH_OUTTYPE_UTF8 || out_type == TDH_OUTTYPE_STRING || out_type == TDH_OUTTYPE_JSON
        || out_type == TDH_OUTTYPE_XML || out_type == TDH_OUTTYPE_REDUCEDSTRING
}

/// Parse selected by the output type alone, when it decides the value.
pub open spec fn out_type_spec(out_type: i32, length: u16, d: Seq<u8>) -> Option<(FieldValueModel, nat)> {
    let sh = length as nat;
    if out_type == TDH_OUTTYPE_HEXINT8 {
        if d.len() >= 1 { Some((hex_text(d[0] as nat, 2), 1)) } else { None }
    } else if out_type == TDH_OUTTYPE_HEXINT16 {
        if d.len() >= 2 { Some((hex_text(le2(d, 0), 4), 2)) } else { None }
    } else if out_type == TDH_OUTTYPE_HEXINT32 {
        if d.len() >= 4 { Some((hex_text(le4(d, 0), 8), 4)) } else { None }
    } else if out_type == TDH_OUTTYPE_HEXINT64 {
        if d.len() >= 8 { Some((hex_text(le8(d, 0), 16), 8)) } else { None }
    } else if out_type == TDH_OUTTYPE_HRESULT || out_type == TDH_OUTTYPE_NTSTATUS
        || out_type == TDH_OUTTYPE_WIN32ERROR {
        if d.len() >= 4 { Some((hex_text(le4(d, 0), 8), 4)) } else { None }
    } else if out_type == TDH_OUTTYPE_PORT {
        if d.len() >= 2 { Some((FieldValueModel::U16(le2(d, 0) as u16), 2)) } else { None }
    } else if out_type == TDH_OUTTYPE_PID || out_type == TDH_OUTTYPE_TID {
        if d.len() >= 4 { Some((FieldValueModel::U32(le4(d, 0) as u32), 4)) } else { None }
    } else if out_type == TDH_OUTTYPE_IPV4 {
        if d.len() >= 4 { Some((FieldValueModel::Ip(IpModel::V4(d.subrange(0, 4))), 4)) } else { None }
    } else if out_type == TDH_OUTTYPE_IPV6 {
        if d.len() >= 16 { Some((FieldValueModel::Ip(IpModel::V6(d.subrange(0, 16))), 16)) } else { None }
    } else if out_type == TDH_OUTTYPE_SOCKETADDRESS {
        socket_address_spec(d)
    } else if out_type == TDH_OUTTYPE_BOOLEAN {
        if sh >= 4 && sh <= d.len() {
            Some((FieldValueModel::Bool(le4(d, 0) != 0), 4))
        } else if d.len() >= 1 {
            Some((FieldValueModel::Bool(d[0] != 0), 1))
        } else {
            None
        }
    } else if is_text_out_type(out_type) && sh > 0 && sh <= d.len() {
        sized_utf8_spec(d, sh)
    } else {
        None
    }
}

/// A scalar of `size` bytes, or the declared-length blob when the declared
/// length is larger than the scalar and fits the data.
pub open spec fn scalar_or_blob(sh: nat, size: nat, d: Seq<u8>, v: FieldValueModel) -> Option<(FieldValueModel, nat)> {
    if sh > size && sh <= d.len() {
        Some((blob(d, sh), sh))
    } else if d.len() >= size {
        Some((v, size))
    } else {
        None
    }
}

/// The GUID stored in the first sixteen bytes.
pub open spec fn guid_at(d: Seq<u8>) -> GuidModel {
    GuidModel {
        data1: le4(d, 0) as u32,
        data2: le2(d, 4) as u16,
        data3: le2(d, 6) as u16,
        data4: d.subrange(8, 16),
    }
}

/// Parse selected by the input type.
pub open spec fn in_type_spec(in_type: i32, length: u16, d: Seq<u8>) -> Option<(FieldValueModel, nat)> {
    let sh = length as nat;
    if in_type == TDH_INTYPE_UINT8 {
        scalar_or_blob(sh, 1, d, FieldValueModel::U8(d[0]))
    } else if in_type == TDH_INTYPE_UINT16 {
        scalar_or_blob(sh, 2, d, FieldValueModel::U16(le2(d, 0) as u16))
    } else if in_type == TDH_INTYPE_UINT32 {
        scalar_or_blob(sh, 4, d, FieldValueModel::U32(le4(d, 0) as u32))
    } else if in_type == TDH_INTYPE_UINT64 {
        scalar_or_blob(sh, 8, d, FieldValueModel::U64(le8(d, 0) as u64))
    } else if in_type == TDH_INTYPE_INT32 {
        scalar_or_blob(sh, 4, d, FieldValueModel::I32((le4(d, 0) as u32) as i32))
    } else if in_type == TDH_INTYPE_INT64 {
        scalar_or_blob(sh, 8, d, FieldValueModel::I64((le8(d, 0) as u64) as i64))
    } else if in_type == TDH_INTYPE_BOOLEAN {
        if d.len() >= 4 { Some((FieldValueModel::Bool(le4(d, 0) != 0), 4)) } else { None }
    } else if in_type == TDH_INTYPE_GUID {
        if d.len() >= 16 { Some((FieldValueModel::Guid(guid_at(d)), 16)) } else { None }
    } else if in_type == TDH_INTYPE_POINTER {
        if sh == 4 {
            if d.len() >= 4 { Some((FieldValueModel::Pointer(le4(d, 0) as u64), 4)) } else { None }
        } else {
            if d.len() >= 8 { Some((FieldValueModel::Pointer(le8(d, 0) as u64), 8)) } else { None }
        }
    } else if in_type == TDH_INTYPE_IPV4_VALUE {
        if d.len() >= 4 { Some((FieldValueModel::Ip(IpModel::V4(d.subrange(0, 4))), 4)) } else { None }
    } else if in_type == TDH_INTYPE_IPV6_VALUE {
        if d.len() >= 16 { Some((FieldValueModel::Ip(IpModel::V6(d.subrange(0, 16))), 16)) } else { None }
    } else if in_type == TDH_INTYPE_UNICODESTRING {
        if sh >= 2 && sh <= d.len() { utf16_sized_spec(d, sh) } else { utf16_cstr_spec(d) }
    } else if in_type == TDH_INTYPE_ANSISTRING {
        if sh > 0 && sh <= d.len() { sized_utf8_spec(d, sh) } else { ascii_cstr_spec(d) }
    } else {
        let take = if sh > 0 { if sh < d.len() { sh } else { d.len() } } else { d.len() };
        Some((blob(d, take), take))
    }
}

/// Parse of one (non-array) property value from the front of `d`: the output
/// type decides first when it can, the input type otherwise.
pub open spec fn one_value_spec(in_type: i32, out_type: i32, length: u16, d: Seq<u8>) -> Option<(FieldValueModel, nat)> {
    match out_type_spec(out_type, length, d) {
        Some(r) => Some(r),
        None => in_type_spec(in_type, length, d),
    }
}

/// Element size implied by the types, when fixed.
pub open spec fn element_size_spec(in_type: i32, out_type: i32) -> Option<nat> {
    if out_type == TDH_OUTTYPE_IPV4 {
        Some(4)
    } else if out_type == TDH_OUTTYPE_IPV6 {
        Some(16)
    } else if in_type == TDH_INTYPE_UINT8 {
        Some(1)
    } else if in_type == TDH_INTYPE_UINT16 {
        Some(2)
    } else if in_type == TDH_INTYPE_UINT32 || in_type == TDH_INTYPE_INT32 || in_type == TDH_INTYPE_BOOLEAN
        || in_type == TDH_INTYPE_IPV4_VALUE {
        Some(4)
    } else if in_type == TDH_INTYPE_UINT64 || in_type == TDH_INTYPE_INT64 || in_type == TDH_INTYPE_POINTER {
        Some(8)
    } else if in_type == TDH_INTYPE_GUID || in_type == TDH_INTYPE_IPV6_VALUE {
        Some(16)
    } else {
        None
    }
}

/// Parse of an array property of `count` elements as one binary value.
pub open spec fn counted_value_spec(in_type: i32, out_type: i32, length: u16, count: u16, d: Seq<u8>) -> Option<(FieldValueModel, nat)> {
    let n = count as nat;
    let len = length as nat;
    let declared = if len >= n { len } else { len * n };
    if n == 0 {
        Some((FieldValueModel::Binary(Seq::empty()), 0))
    } else if len > 0 && declared > 0 && declared <= d.len() {
        Some((blob(d, declared), declared))
    } else {
        match element_size_spec(in_type, out_type) {
            None => None,
            Some(es) => if es * n > d.len() { None } else { Some((blob(d, es * n), es * n)) },
        }
    }
}

/// The numeric reading of a value, when it has one.
pub open spec fn numeric_of(v: FieldValueModel) -> Option<u64> {
    match v {
        FieldValueModel::U8(x) => Some(x as u64),
        FieldValueModel::U16(x) => Some(x as u64),
        FieldValueModel::U32(x) => Some(x as u64),
        FieldValueModel::U64(x) => Some(x),
        FieldValueModel::I32(x) => if x >= 0 { Some(x as u64) } else { None },
        FieldValueModel::I64(x) => if x >= 0 { Some(x as u64) } else { None },
        FieldValueModel::Pointer(x) => Some(x),
        FieldValueModel::Bool(b) => Some(if b { 1u64 } else { 0u64 }),
        _ => None,
    }
}

/// The numeric value recorded for property `idx`, if any.
pub open spec fn recorded(numeric: Seq<Option<u64>>, idx: usize) -> Option<u64> {
    if idx < numeric.len() {
        numeric[idx as int]
    } else {
        None
    }
}

/// Element count of a property given the numeric values parsed so far.
pub open spec fn resolve_count_spec(p: PropertyMeta, numeric: Seq<Option<u64>>) -> u16 {
    match p.count_property_index {
        Some(idx) => match recorded(numeric, idx) {
            Some(v) => if 1 <= v && v <= 65535 { v as u16 } else { 1 },
            None => 1,
        },
        None => if p.count >= 1 { p.count } else { 1 },
    }
}

/// Byte length of a property given the numeric values parsed so far.
pub open spec fn resolve_length_spec(p: PropertyMeta, numeric: Seq<Option<u64>>) -> u16 {
    match p.length_property_index {
        Some(idx) => match recorded(numeric, idx) {
            Some(v) => if v <= 65535 { v as u16 } else { p.length },
            None => p.length,
        },
        None => p.length,
    }
}

/// State of a payload parse after some properties.
pub ghost struct ValuesState {
    pub fields: Seq<FieldModel>,
    pub offset: nat,
    pub numeric: Seq<Option<u64>>,
    pub stopped: bool,
}

/// Parse of the value of property `p` at `offset`.
pub open spec fn prop_value_spec(p: PropertyMeta, numeric: Seq<Option<u64>>, data: Seq<u8>, offset: nat) -> Option<(FieldValueModel, nat)> {
    let rc = resolve_count_spec(p, numeric);
    let rl = resolve_length_spec(p, numeric);
    let d = data.subrange(offset as int, data.len() as int);
    if rc > 1 {
        counted_value_spec(p.in_type, p.out_type, rl, rc, d)
    } else {
        one_value_spec(p.in_type, p.out_type, rl, d)
    }
}

/// The parse state after the first `k` properties: parsing stops at the end of
/// the data or at the first property whose value cannot be read.
pub open spec fn values_after(props: Seq<PropertyMeta>, data: Seq<u8>, k: nat) -> ValuesState
    decreases k,
{
    if k == 0 {
        ValuesState {
            fields: Seq::empty(),
            offset: 0,
            numeric: Seq::new(props.len(), |i: int| None),
            stopped: false,
        }
    } else {
        let s = values_after(props, data, (k - 1) as nat);
        if s.stopped || s.offset >= data.len() {
            ValuesState { fields: s.fields, offset: s.offset, numeric: s.numeric, stopped: true }
        } else {
            let p = props[k - 1];
            match prop_value_spec(p, s.numeric, data, s.offset) {
                Some((v, c)) => ValuesState {
                    fields: s.fields.push(FieldModel { name: p.name@, value: v }),
                    offset: s.offset + c,
                    numeric: s.numeric.update(k - 1, numeric_of(v)),
                    stopped: false,
                },
                None => ValuesState { fields: s.fields, offset: s.offset, numeric: s.numeric, stopped: true },
            }
        }
    }
}

/// The fields parsed from a payload under a schema.
pub open spec fn parse_values_spec(props: Seq<PropertyMeta>, data: Seq<u8>) -> Seq<FieldModel> {
    values_after(props, data, props.len()).fields
}

/// Whether an executable parse result matches its specification.
pub open spec fn parsed_as(r: Option<(EventFieldValue, usize)>, s: Option<(FieldValueModel, nat)>) -> bool {
    match (r, s) {
        (None, None) => true,
        (Some((v, c)), Some((m, k))) => v@ == m && c as nat == k,
        _ => false,
    }
}

/// Labels of the first entry with the given numeric key.
pub open spec fn first_numeric_label(entries: Seq<MapEntry>, value: u64) -> Option<Seq<char>>
    decreases entries.len(),
{
    if entries.len() == 0 {
        None
    } else {
        match entries[0].key {
            MapKey::Numeric(k) => if k == value {
                Some(entries[0].label@)
            } else {
                first_numeric_label(entries.drop_first(), value)
            },
            MapKey::Text(_) => first_numeric_label(entries.drop_first(), value),
        }
    }
}

/// Labels of the non-zero bit entries all of whose bits are set in `value`.
pub open spec fn bitmap_labels(entries: Seq<MapEntry>, value: u64) -> Seq<Seq<char>>
    decreases entries.len(),
{
    if entries.len() == 0 {
        Seq::empty()
    } else {
        let rest = bitmap_labels(entries.drop_first(), value);
        match entries[0].key {
            MapKey::Numeric(bit) => if bit != 0 && (value & bit) == bit {
                seq![entries[0].label@] + rest
            } else {
                rest
            },
            MapKey::Text(_) => rest,
        }
    }
}

/// Rendering of a numeric value through a map.
pub open spec fn render_numeric_spec(map: MapDefinition, value: u64) -> Option<Seq<char>> {
    match map.kind {
        MapKind::Value => first_numeric_label(map.entries@, value),
        MapKind::Bitmap => {
            let labels = bitmap_labels(map.entries@, value);
            if labels.len() == 0 {
                first_numeric_label(map.entries@, value)
            } else {
                Some(join_with(labels, seq!['|']))
            }
        },
    }
}

/// Rendering of a text value through a map.
pub open spec fn render_text_spec(entries: Seq<MapEntry>, value: Seq<char>) -> Option<Seq<char>>
    decreases entries.len(),
{
    if entries.len() == 0 {
        None
    } else {
        match entries[0].key {
            MapKey::Text(k) => if eq_ascii_ci(k@, value) {
                Some(entries[0].label@)
            } else {
                render_text_spec(entries.drop_first(), value)
            },
            MapKey::Numeric(_) => render_text_spec(entries.drop_first(), value),
        }
    }
}

/// Rendering of a field value through a map: numerically when the value has
/// a numeric reading that the map knows, as text otherwise.
pub open spec fn map_value_spec(map: MapDefinition, v: FieldValueModel) -> Option<Seq<char>> {
    let numeric = match numeric_of(v) {
        Some(n) => render_numeric_spec(map, n),
        None => None,
    };
    match numeric {
        Some(t) => Some(t),
        None => match v {
            FieldValueModel::Text(t) => render_text_spec(map.entries@, t),
            _ => None,
        },
    }
}

// ---------------------------------------------------------------------------
// Executable parsing
// ---------------------------------------------------------------------------

/// Builds `"0x"` followed by `width` hexadecimal digits of `v`.
fn hex_string(v: u64, width: u32) -> (r: EventFieldValue)
    ensures
        r@ == hex_text(v as nat, width as nat),
{
    let mut s = String::new();
    push_char(&mut s, '0');
    push_char(&mut s, 'x');
    push_hex_fixed(&mut s, v, width);
    assert(s@ == seq!['0', 'x'] + hex_fixed(v as nat, width as nat));
    EventFieldValue::String(s)
}

/// Reads UTF-16 units from byte pairs starting at `i` while a whole pair lies
/// before `end`, stopping before a zero unit.
pub fn read_utf16_units(data: &[u8], i: usize, end: usize) -> (r: Vec<u16>)
    requires
        i <= end <= data@.len(),
    ensures
        r@ == utf16_units(data@, i as int, end as int),
{
    let mut units: Vec<u16> = Vec::new();
    let mut k: usize = i;
    while end - k >= 2
        invariant
            i <= k <= end <= data@.len(),
            utf16_units(data@, i as int, end as int) == units@ + utf16_units(data@, k as int, end as int),
        decreases end - k,
    {
        let u = read_u16_le(data, k);
        if u == 0 {
            assert(units@ + utf16_units(data@, k as int, end as int) == units@);
            return units;
        }
        units.push(u);
        k = k + 2;
        assert(units@ + utf16_units(data@, k as int, end as int)
            == units@.drop_last() + utf16_units(data@, (k - 2) as int, end as int));
    }
    assert(units@ + utf16_units(data@, k as int, end as int) == units@);
    units
}

/// Offset just past the first zero UTF-16 unit at or after `i`.
pub fn utf16_end_offset(data: &[u8], i: usize) -> (r: usize)
    requires
        i <= data@.len(),
    ensures
        r as int == utf16_terminator_end(data@, i as int),
        r <= data@.len(),
{
    let mut k: usize = i;
    while data.len() - k >= 2
        invariant
            k <= data@.len(),
            utf16_terminator_end(data@, i as int) == utf16_terminator_end(data@, k as int),
        decreases data@.len() - k,
    {
        if read_u16_le(data, k) == 0 {
            return k + 2;
        }
        k = k + 2;
    }
    k
}

/// Decodes a sized UTF-16 string of `byte_len` bytes.
pub fn parse_utf16_sized(data: &[u8], byte_len: usize) -> (r: Option<(EventFieldValue, usize)>)
    ensures
        parsed_as(r, utf16_sized_spec(data@, byte_len as nat)),
{
    if byte_len == 0 || byte_len > data.len() || byte_len % 2 != 0 {
        return None;
    }
    let units = read_utf16_units(data, 0, byte_len);
    let s = decode_utf16(units.as_slice(), true);
    Some((EventFieldValue::String(s), byte_len))
}

/// Decodes a NUL-terminated UTF-16 string.
pub fn parse_utf16_cstr(data: &[u8]) -> (r: Option<(EventFieldValue, usize)>)
    ensures
        parsed_as(r, utf16_cstr_spec(data@)),
{
    if data.len() < 2 {
        return None;
    }
    let units = read_utf16_units(data, 0, data.len());
    let consumed = utf16_end_offset(data, 0);
    let s = decode_utf16(units.as_slice(), true);
    Some((EventFieldValue::String(s), consumed))
}

/// Decodes a sized 8-bit string of `byte_len` bytes as UTF-8 up to its first NUL.
pub fn parse_utf8_sized(data: &[u8], byte_len: usize) -> (r: Option<(EventFieldValue, usize)>)
    ensures
        parsed_as(r, sized_utf8_spec(data@, byte_len as nat)),
{
    if byte_len == 0 || byte_len > data.len() {
        return None;
    }
    let end = find_zero(data, 0, byte_len);
    let raw = copy_range(data, 0, end);
    proof {
        let rawspec = data@.subrange(0, byte_len as int);
        assert(raw@ == rawspec.subrange(0, first_zero(rawspec, 0)));
    }
    match string_from_utf8(raw) {
        Some(s) => Some((EventFieldValue::String(s), byte_len)),
        None => None,
    }
}

/// Decodes a sized 8-bit string (same rules as [`parse_utf8_sized`]).
pub fn parse_ascii_sized(data: &[u8], byte_len: usize) -> (r: Option<(EventFieldValue, usize)>)
    ensures
        parsed_as(r, sized_utf8_spec(data@, byte_len as nat)),
{
    parse_utf8_sized(data, byte_len)
}

/// Decodes a NUL-terminated 8-bit string as UTF-8.
pub fn parse_ascii_cstr(data: &[u8]) -> (r: Option<(EventFieldValue, usize)>)
    ensures
        parsed_as(r, ascii_cstr_spec(data@)),
{
    let end = find_zero(data, 0, data.len());
    assert(data@.subrange(0, data@.len() as int) == data@);
    let raw = copy_range(data, 0, end);
    match string_from_utf8(raw) {
        Some(s) => {
            let consumed = if end < data.len() { end + 1 } else { end };
            Some((EventFieldValue::String(s), consumed))
        },
        None => None,
    }
}

/// Decodes a socket address (IPv4 for family 2, IPv6 for family 23).
pub fn parse_socket_address(data: &[u8]) -> (r: Option<(EventFieldValue, usize)>)
    ensures
        parsed_as(r, socket_address_spec(data@)),
{
    if data.len() < 8 {
        return None;
    }
    let family = read_u16_le(data, 0);
    if family == 2 {
        let a = read_array4(data, 4);
        Some((EventFieldValue::IpAddr(IpAddress::V4(a)), 8))
    } else if family == 23 {
        if data.len() >= 24 {
            let a = read_array16(data, 8);
            Some((EventFieldValue::IpAddr(IpAddress::V6(a)), 24))
        } else {
            None
        }
    } else {
        None
    }
}

/// Reads a GUID from the first sixteen bytes.
pub fn parse_guid(data: &[u8]) -> (r: Option<Guid>)
    ensures
        data@.len() >= 16 ==> (r matches Some(g) && g@ == guid_at(data@)),
        data@.len() < 16 ==> r is None,
{
    if data.len() < 16 {
        return None;
    }
    let d1 = read_u32_le(data, 0);
    let d2 = read_u16_le(data, 4);
    let d3 = read_u16_le(data, 6);
    let d4 = read_array8(data, 8);
    Some(Guid { data1: d1, data2: d2, data3: d3, data4: d4 })
}

/// Parse selected by the output type, when it decides the value.
pub fn parse_out_type_override(prop: &PropertyMeta, data: &[u8]) -> (r: Option<(EventFieldValue, usize)>)
    ensures
        parsed_as(r, out_type_spec(prop.out_type, prop.length, data@)),
{
    let size_hint = prop.length as usize;
    let out_type = prop.out_type;
    if out_type == TDH_OUTTYPE_HEXINT8 {
        if data.len() >= 1 {
            return Some((hex_string(data[0] as u64, 2), 1));
        }
        return None;
    }
    if out_type == TDH_OUTTYPE_HEXINT16 {
        if data.len() >= 2 {
            return Some((hex_string(read_u16_le(data, 0) as u64, 4), 2));
        }
        return None;
    }
    if out_type == TDH_OUTTYPE_HEXINT32 {
        if data.len() >= 4 {
            return Some((hex_string(read_u32_le(data, 0) as u64, 8), 4));
        }
        return None;
    }
    if out_type == TDH_OUTTYPE_HEXINT64 {
        if data.len() >= 8 {
            return Some((hex_string(read_u64_le(data, 0), 16), 8));
        }
        return None;
    }
    if out_type == TDH_OUTTYPE_HRESULT || out_type == TDH_OUTTYPE_NTSTATUS || out_type == TDH_OUTTYPE_WIN32ERROR {
        if data.len() >= 4 {
            return Some((hex_string(read_u32_le(data, 0) as u64, 8), 4));
        }
        return None;
    }
    if out_type == TDH_OUTTYPE_PORT {
        if data.len() >= 2 {
            return Some((EventFieldValue::U16(read_u16_le(data, 0)), 2));
        }
        return None;
    }
    if out_type == TDH_OUTTYPE_PID || out_type == TDH_OUTTYPE_TID {
        if data.len() >= 4 {
            return Some((EventFieldValue::U32(read_u32_le(data, 0)), 4));
        }
        return None;
    }
    if out_type == TDH_OUTTYPE_IPV4 {
        if data.len() >= 4 {
            return Some((EventFieldValue::IpAddr(IpAddress::V4(read_array4(data, 0))), 4));
        }
        return None;
    }
    if out_type == TDH_OUTTYPE_IPV6 {
        if data.len() >= 16 {
            return Some((EventFieldValue::IpAddr(IpAddress::V6(read_array16(data, 0))), 16));
        }
        return None;
    }
    if out_type == TDH_OUTTYPE_SOCKETADDRESS {
        return parse_socket_address(data);
    }
    if out_type == TDH_OUTTYPE_BOOLEAN {
        if size_hint >= 4 && size_hint <= data.len() {
            return Some((EventFieldValue::Bool(read_u32_le(data, 0) != 0), 4));
        }
        if data.len() >= 1 {
            return Some((EventFieldValue::Bool(data[0] != 0), 1));
        }
        return None;
    }
    if (out_type == TDH_OUTTYPE_UTF8 || out_type == TDH_OUTTYPE_STRING || out_type == TDH_OUTTYPE_JSON
        || out_type == TDH_OUTTYPE_XML || out_type == TDH_OUTTYPE_REDUCEDSTRING) && size_hint > 0
        && size_hint <= data.len() {
        return parse_utf8_sized(data, size_hint);
    }
    None
}

/// A scalar value, or the declared-length blob when that is longer and fits.
fn scalar_or_blob_exec(size_hint: usize, size: usize, data: &[u8], v: EventFieldValue) -> (r: Option<(EventFieldValue, usize)>)
    ensures
        parsed_as(r, scalar_or_blob(size_hint as nat, size as nat, data@, v@)),
{
    if size_hint > size && size_hint <= data.len() {
        Some((EventFieldValue::Binary(copy_range(data, 0, size_hint)), size_hint))
    } else if data.len() >= size {
        Some((v, size))
    } else {
        None
    }
}

/// Parses one (non-array) property value from the front of `data` and reports
/// the number of bytes it takes.
pub fn parse_one_value(prop: &PropertyMeta, data: &[u8]) -> (r: Option<(EventFieldValue, usize)>)
    ensures
        parsed_as(r, one_value_spec(prop.in_type, prop.out_type, prop.length, data@)),
        r matches Some((_, c)) ==> c <= data@.len(),
{
    let o = parse_out_type_override(prop, data);
    if o.is_some() {
        proof {
            lemma_consumed_within(prop.in_type, prop.out_type, prop.length, data@);
        }
        return o;
    }
    let r = parse_in_type(prop, data);
    proof {
        lemma_consumed_within(prop.in_type, prop.out_type, prop.length, data@);
    }
    r
}

/// Parse selected by the input type.
pub fn parse_in_type(prop: &PropertyMeta, data: &[u8]) -> (r: Option<(EventFieldValue, usize)>)
    ensures
        parsed_as(r, in_type_spec(prop.in_type, prop.length, data@)),
{
    let size_hint = prop.length as usize;
    let t = prop.in_type;
    let n = data.len();
    if t == TDH_INTYPE_UINT8 {
        let v = if n >= 1 { data[0] } else { 0 };
        let r = scalar_or_blob_exec(size_hint, 1, data, EventFieldValue::U8(v));
        return r;
    }
    if t == TDH_INTYPE_UINT16 {
        let v = if n >= 2 { read_u16_le(data, 0) } else { 0 };
        return scalar_or_blob_exec(size_hint, 2, data, EventFieldValue::U16(v));
    }
    if t == TDH_INTYPE_UINT32 {
        let v = if n >= 4 { read_u32_le(data, 0) } else { 0 };
        return scalar_or_blob_exec(size_hint, 4, data, EventFieldValue::U32(v));
    }
    if t == TDH_INTYPE_UINT64 {
        let v = if n >= 8 { read_u64_le(data, 0) } else { 0 };
        return scalar_or_blob_exec(size_hint, 8, data, EventFieldValue::U64(v));
    }
    if t == TDH_INTYPE_INT32 {
        let v = if n >= 4 { read_u32_le(data, 0) } else { 0 };
        return scalar_or_blob_exec(size_hint, 4, data, EventFieldValue::I32(v as i32));
    }
    if t == TDH_INTYPE_INT64 {
        let v = if n >= 8 { read_u64_le(data, 0) } else { 0 };
        return scalar_or_blob_exec(size_hint, 8, data, EventFieldValue::I64(v as i64));
    }
    if t == TDH_INTYPE_BOOLEAN {
        if n >= 4 {
            return Some((EventFieldValue::Bool(read_u32_le(data, 0) != 0), 4));
        }
        return None;
    }
    if t == TDH_INTYPE_GUID {
        match parse_guid(data) {
            Some(g) => return Some((EventFieldValue::Guid(g), 16)),
            None => return None,
        }
    }
    if t == TDH_INTYPE_POINTER {
        if size_hint == 4 {
            if n >= 4 {
                return Some((EventFieldValue::Pointer(read_u32_le(data, 0) as u64), 4));
            }
            return None;
        }
        if n >= 8 {
            return Some((EventFieldValue::Pointer(read_u64_le(data, 0)), 8));
        }
        return None;
    }
    if t == TDH_INTYPE_IPV4_VALUE {
        if n >= 4 {
            return Some((EventFieldValue::IpAddr(IpAddress::V4(read_array4(data, 0))), 4));
        }
        return None;
    }
    if t == TDH_INTYPE_IPV6_VALUE {
        if n >= 16 {
            return Some((EventFieldValue::IpAddr(IpAddress::V6(read_array16(data, 0))), 16));
        }
        return None;
    }
    if t == TDH_INTYPE_UNICODESTRING {
        if size_hint >= 2 && size_hint <= n {
            return parse_utf16_sized(data, size_hint);
        }
        return parse_utf16_cstr(data);
    }
    if t == TDH_INTYPE_ANSISTRING {
        if size_hint > 0 && size_hint <= n {
            return parse_ascii_sized(data, size_hint);
        }
        return parse_ascii_cstr(data);
    }
    let take = if size_hint > 0 {
        if size_hint < n { size_hint } else { n }
    } else {
        n
    };
    Some((EventFieldValue::Binary(copy_range(data, 0, take)), take))
}

/// Every successful parse takes no more bytes than it was given.
pub proof fn lemma_consumed_within(in_type: i32, out_type: i32, length: u16, d: Seq<u8>)
    ensures
        one_value_spec(in_type, out_type, length, d) matches Some((_, c)) ==> c <= d.len(),
{
    lemma_utf16_end_within(d, 0);
    lemma_first_zero_bounds(d, 0);
}

/// The UTF-16 terminator offset never passes the end of the data.
pub proof fn lemma_utf16_end_within(d: Seq<u8>, i: int)
    requires
        0 <= i <= d.len(),
    ensures
        i <= utf16_terminator_end(d, i) <= d.len(),
    decreases d.len() - i,
{
    if i + 1 < d.len() && le2(d, i) != 0 {
        lemma_utf16_end_within(d, i + 2);
    }
}

/// Element size implied by a property's types, when fixed.
pub fn element_size_hint(prop: &PropertyMeta) -> (r: Option<usize>)
    ensures
        match (r, element_size_spec(prop.in_type, prop.out_type)) {
            (None, None) => true,
            (Some(a), Some(b)) => a as nat == b,
            _ => false,
        },
        r matches Some(a) ==> a <= 16,
{
    let o = prop.out_type;
    let t = prop.in_type;
    if o == TDH_OUTTYPE_IPV4 {
        Some(4)
    } else if o == TDH_OUTTYPE_IPV6 {
        Some(16)
    } else if t == TDH_INTYPE_UINT8 {
        Some(1)
    } else if t == TDH_INTYPE_UINT16 {
        Some(2)
    } else if t == TDH_INTYPE_UINT32 || t == TDH_INTYPE_INT32 || t == TDH_INTYPE_BOOLEAN || t == TDH_INTYPE_IPV4_VALUE {
        Some(4)
    } else if t == TDH_INTYPE_UINT64 || t == TDH_INTYPE_INT64 || t == TDH_INTYPE_POINTER {
        Some(8)
    } else if t == TDH_INTYPE_GUID || t == TDH_INTYPE_IPV6_VALUE {
        Some(16)
    } else {
        None
    }
}

/// Parses an array property of `count` elements as one binary value.
pub fn parse_counted_value(prop: &PropertyMeta, count: u16, data: &[u8]) -> (r: Option<(EventFieldValue, usize)>)
    ensures
        parsed_as(r, counted_value_spec(prop.in_type, prop.out_type, prop.length, count, data@)),
        r matches Some((_, c)) ==> c <= data@.len(),
{
    let n = count as usize;
    if n == 0 {
        return Some((EventFieldValue::Binary(Vec::new()), 0));
    }
    let len = prop.length as usize;
    if len > 0 {
        let declared: usize = if len >= n { len } else {
            assert(len * n <= 65535 * 65535) by (nonlinear_arith)
                requires len <= 65535, n <= 65535;
            len * n
        };
        if declared > 0 && declared <= data.len() {
            return Some((EventFieldValue::Binary(copy_range(data, 0, declared)), declared));
        }
    }
    match element_size_hint(prop) {
        None => None,
        Some(es) => {
            assert(es * n <= 16 * 65535) by (nonlinear_arith)
                requires es <= 16, n <= 65535;
            let take = es * n;
            if take > data.len() {
                None
            } else {
                Some((EventFieldValue::Binary(copy_range(data, 0, take)), take))
            }
        },
    }
}

/// The numeric reading of a value, when it has one.
pub fn extract_numeric_value(value: &EventFieldValue) -> (r: Option<u64>)
    ensures
        r == numeric_of(value@),
{
    match value {
        EventFieldValue::U8(v) => Some(*v as u64),
        EventFieldValue::U16(v) => Some(*v as u64),
        EventFieldValue::U32(v) => Some(*v as u64),
        EventFieldValue::U64(v) => Some(*v),
        EventFieldValue::I32(v) => if *v >= 0 { Some(*v as u64) } else { None },
        EventFieldValue::I64(v) => if *v >= 0 { Some(*v as u64) } else { None },
        EventFieldValue::Pointer(v) => Some(*v),
        EventFieldValue::Bool(v) => Some(if *v { 1u64 } else { 0u64 }),
        _ => None,
    }
}

/// The text of a string value.
pub fn extract_text_value(value: &EventFieldValue) -> (r: Option<&str>)
    ensures
        match value@ {
            FieldValueModel::Text(t) => r matches Some(s) && s@ == t,
            _ => r is None,
        },
{
    match value {
        EventFieldValue::String(v) => Some(v.as_str()),
        _ => None,
    }
}

/// Element count of a property given the numeric values parsed so far.
pub fn resolve_count(prop: &PropertyMeta, parsed_numeric: &[Option<u64>]) -> (r: u16)
    ensures
        r == resolve_count_spec(*prop, parsed_numeric@),
        r >= 1,
{
    match prop.count_property_index {
        Some(idx) => {
            let v = if idx < parsed_numeric.len() { parsed_numeric[idx] } else { None };
            match v {
                Some(x) => if 1 <= x && x <= 65535 { x as u16 } else { 1 },
                None => 1,
            }
        },
        None => if prop.count >= 1 { prop.count } else { 1 },
    }
}

/// Byte length of a property given the numeric values parsed so far.
pub fn resolve_length(prop: &PropertyMeta, parsed_numeric: &[Option<u64>]) -> (r: u16)
    ensures
        r == resolve_length_spec(*prop, parsed_numeric@),
{
    match prop.length_property_index {
        Some(idx) => {
            let v = if idx < parsed_numeric.len() { parsed_numeric[idx] } else { None };
            match v {
                Some(x) => if x <= 65535 { x as u16 } else { prop.length },
                None => prop.length,
            }
        },
        None => prop.length,
    }
}

/// Parses a payload under a schema into named fields, in schema order,
/// stopping at the end of the data or at the first unreadable property.
pub fn parse_values(schema: &CachedSchema, data: &[u8]) -> (r: Vec<EventField>)
    ensures
        fields_view(r@) == parse_values_spec(schema.props@, data@),
{
    let props = &schema.props;
    let mut fields: Vec<EventField> = Vec::new();
    let mut offset: usize = 0;
    let mut parsed_numeric: Vec<Option<u64>> = Vec::new();
    let mut z: usize = 0;
    while z < props.len()
        invariant
            z <= props@.len(),
            parsed_numeric@ == Seq::new(z as nat, |i: int| None::<u64>),
        decreases props@.len() - z,
    {
        parsed_numeric.push(None);
        z = z + 1;
        assert(parsed_numeric@ == Seq::new(z as nat, |i: int| None::<u64>));
    }
    assert(parsed_numeric@ == values_after(props@, data@, 0).numeric);
    let mut idx: usize = 0;
    while idx < props.len()
        invariant
            idx <= props@.len(),
            props@ == schema.props@,
            !values_after(props@, data@, idx as nat).stopped,
            fields_view(fields@) == values_after(props@, data@, idx as nat).fields,
            offset as nat == values_after(props@, data@, idx as nat).offset,
            offset <= data@.len(),
            parsed_numeric@ == values_after(props@, data@, idx as nat).numeric,
            parsed_numeric@.len() == props@.len(),
        decreases props@.len() - idx,
    {
        let ghost before = values_after(props@, data@, idx as nat);
        if offset >= data.len() {
            proof {
                lemma_stopped_stays(props@, data@, (idx + 1) as nat, props@.len());
            }
            return fields;
        }
        let prop = &props[idx];
        let rc = resolve_count(prop, parsed_numeric.as_slice());
        let rl = resolve_length(prop, parsed_numeric.as_slice());
        let runtime_prop = PropertyMeta {
            name: prop.name.clone(),
            in_type: prop.in_type,
            out_type: prop.out_type,
            length: rl,
            count: prop.count,
            count_property_index: prop.count_property_index,
            length_property_index: prop.length_property_index,
            map_name: None,
        };
        let rest = copy_range(data, offset, data.len());
        let parsed = if rc > 1 {
            parse_counted_value(&runtime_prop, rc, rest.as_slice())
        } else {
            parse_one_value(&runtime_prop, rest.as_slice())
        };
        match parsed {
            Some((value, consumed)) => {
                let num = extract_numeric_value(&value);
                parsed_numeric.set(idx, num);
                let ghost vm = value@;
                let name = prop.name.clone();
                fields.push(EventField { name, value });
                offset = offset + consumed;
                proof {
                    assert(fields_view(fields@) =~= before.fields.push(FieldModel { name: props@[idx as int].name@, value: vm }));
                }
                idx = idx + 1;
            },
            None => {
                proof {
                    lemma_stopped_stays(props@, data@, (idx + 1) as nat, props@.len());
                }
                return fields;
            },
        }
    }
    fields
}

/// Once the parse has stopped, it stays stopped with the same fields.
pub proof fn lemma_stopped_stays(props: Seq<PropertyMeta>, data: Seq<u8>, k: nat, m: nat)
    requires
        k <= m,
        values_after(props, data, k).stopped,
    ensures
        values_after(props, data, m).stopped,
        values_after(props, data, m).fields == values_after(props, data, k).fields,
    decreases m - k,
{
    if k < m {
        lemma_stopped_stays(props, data, (k + 1) as nat, m);
    }
}

impl MapDefinition {
    /// Renders a numeric value: the label of the exact match for a value map;
    /// for a bitmap, the labels of all set non-zero bit entries joined by `|`,
    /// or the exact match when no bit entry applies.
    pub fn render_numeric(&self, value: u64) -> (r: Option<String>)
        ensures
            match (r, render_numeric_spec(*self, value)) {
                (None, None) => true,
                (Some(s), Some(t)) => s@ == t,
                _ => false,
            },
    {
        match self.kind {
            MapKind::Value => self.first_numeric(value),
            MapKind::Bitmap => {
                let mut joined = String::new();
                let entries = &self.entries;
                assert(entries@.subrange(0, entries@.len() as int) == entries@);
                let mut labels: Vec<String> = Vec::new();
                let mut k: usize = 0;
                while k < entries.len()
                    invariant
                        k <= entries@.len(),
                        entries@ == self.entries@,
                        bitmap_labels(entries@, value) == Seq::new(labels@.len(), |j: int| labels@[j]@)
                            + bitmap_labels(entries@.subrange(k as int, entries@.len() as int), value),
                    decreases entries@.len() - k,
                {
                    let ghost tail = entries@.subrange(k as int, entries@.len() as int);
                    assert(tail.drop_first() == entries@.subrange(k + 1, entries@.len() as int));
                    let ghost before = Seq::new(labels@.len(), |j: int| labels@[j]@);
                    match &entries[k].key {
                        MapKey::Numeric(bit) => {
                            if *bit != 0 && (value & *bit) == *bit {
                                labels.push(entries[k].label.clone());
                                assert(Seq::new(labels@.len(), |j: int| labels@[j]@) == before.push(entries@[k as int].label@));
                            }
                        },
                        MapKey::Text(_) => {},
                    }
                    k = k + 1;
                }
                assert(entries@.subrange(entries@.len() as int, entries@.len() as int) == Seq::<MapEntry>::empty());
                let ghost parts = Seq::new(labels@.len(), |j: int| labels@[j]@);
                if labels.len() == 0 {
                    return self.first_numeric(value);
                }
                let mut j: usize = 0;
                while j < labels.len()
                    invariant
                        j <= labels@.len(),
                        labels@.len() > 0,
                        parts == Seq::new(labels@.len(), |x: int| labels@[x]@),
                        j > 0 ==> joined@ == join_with(parts.subrange(0, j as int), seq!['|']),
                        j == 0 ==> joined@ == Seq::<char>::empty(),
                    decreases labels@.len() - j,
                {
                    if j > 0 {
                        push_char(&mut joined, '|');
                    }
                    joined.append(labels[j].as_str());
                    proof {
                        let pj = parts.subrange(0, j + 1);
                        if j == 0 {
                            assert(pj.len() == 1);
                        } else {
                            assert(pj.drop_last() == parts.subrange(0, j as int));
                        }
                    }
                    j = j + 1;
                }
                assert(parts.subrange(0, labels@.len() as int) == parts);
                Some(joined)
            },
        }
    }

    /// The label of the first entry with the given numeric key.
    fn first_numeric(&self, value: u64) -> (r: Option<String>)
        ensures
            match (r, first_numeric_label(self.entries@, value)) {
                (None, None) => true,
                (Some(s), Some(t)) => s@ == t,
                _ => false,
            },
    {
        let entries = &self.entries;
        assert(entries@.subrange(0, entries@.len() as int) == entries@);
        let mut k: usize = 0;
        while k < entries.len()
            invariant
                k <= entries@.len(),
                entries@ == self.entries@,
                first_numeric_label(entries@, value)
                    == first_numeric_label(entries@.subrange(k as int, entries@.len() as int), value),
            decreases entries@.len() - k,
        {
            let ghost tail = entries@.subrange(k as int, entries@.len() as int);
            assert(tail.drop_first() == entries@.subrange(k + 1, entries@.len() as int));
            match &entries[k].key {
                MapKey::Numeric(key) => {
                    if *key == value {
                        return Some(entries[k].label.clone());
                    }
                },
                MapKey::Text(_) => {},
            }
            k = k + 1;
        }
        None
    }

    /// Renders a text value: the label of the first text entry equal to it
    /// without regard to ASCII case.
    pub fn render_text(&self, value: &str) -> (r: Option<String>)
        ensures
            match (r, render_text_spec(self.entries@, value@)) {
                (None, None) => true,
                (Some(s), Some(t)) => s@ == t,
                _ => false,
            },
    {
        let entries = &self.entries;
        assert(entries@.subrange(0, entries@.len() as int) == entries@);
        let mut k: usize = 0;
        while k < entries.len()
            invariant
                k <= entries@.len(),
                entries@ == self.entries@,
                render_text_spec(entries@, value@)
                    == render_text_spec(entries@.subrange(k as int, entries@.len() as int), value@),
            decreases entries@.len() - k,
        {
            let ghost tail = entries@.subrange(k as int, entries@.len() as int);
            assert(tail.drop_first() == entries@.subrange(k + 1, entries@.len() as int));
            match &entries[k].key {
                MapKey::Text(key) => {
                    if str_eq_ascii_ci(key.as_str(), value) {
                        return Some(entries[k].label.clone());
                    }
                },
                MapKey::Numeric(_) => {},
            }
            k = k + 1;
        }
        None
    }
}

/// Renders a field value through a map: numerically when it has a numeric
/// reading the map knows, as text otherwise.
pub fn map_field_value(map: &MapDefinition, value: &EventFieldValue) -> (r: Option<String>)
    ensures
        match (r, map_value_spec(*map, value@)) {
            (None, None) => true,
            (Some(s), Some(t)) => s@ == t,
            _ => false,
        },
{
    let numeric = match extract_numeric_value(value) {
        Some(n) => map.render_numeric(n),
        None => None,
    };
    match numeric {
        Some(t) => Some(t),
        None => match extract_text_value(value) {
            Some(t) => map.render_text(t),
            None => None,
        },
    }
}

/// Replaces a field's value by its map rendering when the map renders it.
pub fn apply_map_to_field(map: &MapDefinition, field: &mut EventField)
    ensures
        final(field).name == old(field).name,
        match map_value_spec(*map, old(field).value@) {
            Some(t) => final(field).value@ == FieldValueModel::Text(t),
            None => final(field).value == old(field).value,
        },
{
    match map_field_value(map, &field.value) {
        Some(t) => {
            field.value = EventFieldValue::String(t);
        },
        None => {},
    }
}

} // verus!
