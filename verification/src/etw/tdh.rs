//! Reading the event schema and value maps that TDH reports: a
//! `TRACE_EVENT_INFO` block (its header, then one `EVENT_PROPERTY_INFO` per
//! property) and an `EVENT_MAP_INFO` block (its header, then one
//! `EVENT_MAP_ENTRY` per entry), strings given as offsets of NUL-terminated
//! UTF-16 text within the block.

use vstd::prelude::*;

use super::event::{EventField, EventFieldValue, FieldValueModel};
use super::schema::{
    CachedSchema, MapDefinition, MapEntry, MapKey, MapKind, PropertyMeta, map_field_value, map_value_spec,
    read_utf16_units, utf16_units,
};
use crate::bytes::{le2, le4, read_u16_le, read_u32_le};
use crate::text::{decode_utf16, str_eq, str_to_string, utf16_decode};

verus! {

/// Where `PropertyCount` lies in `TRACE_EVENT_INFO`.
pub const TRACE_EVENT_INFO_PROPERTY_COUNT: usize = 100;
/// Where `EventPropertyInfoArray` starts in `TRACE_EVENT_INFO`.
pub const TRACE_EVENT_INFO_PROPERTIES: usize = 112;
/// Bytes of one `EVENT_PROPERTY_INFO`.
pub const EVENT_PROPERTY_INFO_SIZE: usize = 24;
/// `PropertyStruct`.
pub const PROPERTY_STRUCT: u32 = 0x1;
/// `PropertyParamLength`.
pub const PROPERTY_PARAM_LENGTH: u32 = 0x2;
/// `PropertyParamCount`.
pub const PROPERTY_PARAM_COUNT: u32 = 0x4;
/// `PropertyParamFixedLength`.
pub const PROPERTY_PARAM_FIXED_LENGTH: u32 = 0x10;
/// `PropertyParamFixedCount`.
pub const PROPERTY_PARAM_FIXED_COUNT: u32 = 0x20;

/// Bytes of the `EVENT_MAP_INFO` header.
pub const EVENT_MAP_INFO_ENTRIES: usize = 16;
/// Bytes of one `EVENT_MAP_ENTRY`.
pub const EVENT_MAP_ENTRY_SIZE: usize = 8;
/// `EVENTMAP_ENTRY_VALUETYPE_ULONG`.
pub const EVENTMAP_ENTRY_VALUETYPE_ULONG: u32 = 0;
/// `EVENTMAP_ENTRY_VALUETYPE_STRING`.
pub const EVENTMAP_ENTRY_VALUETYPE_STRING: u32 = 1;
/// `EVENTMAP_INFO_FLAG_MANIFEST_VALUEMAP`.
pub const EVENTMAP_INFO_FLAG_MANIFEST_VALUEMAP: u32 = 0x1;
/// `EVENTMAP_INFO_FLAG_MANIFEST_BITMAP`.
pub const EVENTMAP_INFO_FLAG_MANIFEST_BITMAP: u32 = 0x2;
/// `EVENTMAP_INFO_FLAG_MANIFEST_PATTERNMAP`.
pub const EVENTMAP_INFO_FLAG_MANIFEST_PATTERNMAP: u32 = 0x4;
/// `EVENTMAP_INFO_FLAG_WBEM_VALUEMAP`.
pub const EVENTMAP_INFO_FLAG_WBEM_VALUEMAP: u32 = 0x8;
/// `EVENTMAP_INFO_FLAG_WBEM_BITMAP`.
pub const EVENTMAP_INFO_FLAG_WBEM_BITMAP: u32 = 0x10;
/// `EVENTMAP_INFO_FLAG_WBEM_FLAG`.
pub const EVENTMAP_INFO_FLAG_WBEM_FLAG: u32 = 0x20;

/// The text at `off` of a block: its UTF-16 units up to a NUL or the last
/// whole pair, unpaired surrogates as U+FFFD; none where fewer than two
/// bytes lie at `off`.
pub open spec fn cstr_at(b: Seq<u8>, off: int) -> Option<Seq<char>> {
    if off < 0 || off >= b.len() || b.len() - off < 2 {
        None
    } else {
        Some(utf16_decode(utf16_units(b, off, b.len() as int), true))
    }
}

/// Reads the text at `offset` of a block; see [`cstr_at`].
pub fn read_utf16_cstr_at(buffer: &[u8], offset: usize) -> (r: Option<String>)
    ensures
        match cstr_at(buffer@, offset as int) {
            Some(t) => r matches Some(s) && s@ == t,
            None => r is None,
        },
{
    if offset >= buffer.len() || buffer.len() - offset < 2 {
        return None;
    }
    let units = read_utf16_units(buffer, offset, buffer.len());
    Some(decode_utf16(units.as_slice(), true))
}

/// Whether a flag is set in a property's flags.
pub open spec fn has_flag(flags: u32, flag: u32) -> bool {
    flags & flag != 0
}

/// The property at byte `off` of a `TRACE_EVENT_INFO` block, as the schema
/// holds it: its name (empty where unreadable), in and out types, length,
/// count (the fixed count, at least 1, or 1), the indexes of the properties
/// holding its count and length (where those are given by another
/// property), and its map name (for a non-struct property with one).
pub open spec fn property_at(b: Seq<u8>, off: int, p: PropertyMeta) -> bool {
    let flags = le4(b, off) as u32;
    let param_count = has_flag(flags, PROPERTY_PARAM_COUNT);
    let fixed_count = has_flag(flags, PROPERTY_PARAM_FIXED_COUNT);
    let param_length = has_flag(flags, PROPERTY_PARAM_LENGTH);
    let fixed_length = has_flag(flags, PROPERTY_PARAM_FIXED_LENGTH);
    let count_field = le2(b, off + 16) as u16;
    let length_field = le2(b, off + 18) as u16;
    let map_offset = le4(b, off + 12);
    &&& p.name@ == match cstr_at(b, le4(b, off + 4) as int) {
        Some(t) => t,
        None => Seq::empty(),
    }
    &&& p.in_type == le2(b, off + 8) as i32
    &&& p.out_type == le2(b, off + 10) as i32
    &&& p.length == length_field
    &&& p.count == if param_count && fixed_count {
        if count_field < 1 { 1u16 } else { count_field }
    } else {
        1u16
    }
    &&& p.count_property_index == if param_count && !fixed_count {
        Some(count_field as usize)
    } else {
        None
    }
    &&& p.length_property_index == if param_length && !fixed_length {
        Some(length_field as usize)
    } else {
        None
    }
    &&& match p.map_name {
        Some(m) => !has_flag(flags, PROPERTY_STRUCT) && map_offset > 0 && cstr_at(b, map_offset as int) == Some(
            m@,
        ),
        None => has_flag(flags, PROPERTY_STRUCT) || map_offset == 0 || cstr_at(b, map_offset as int) is None,
    }
}

/// How many properties a `TRACE_EVENT_INFO` block describes in full: its
/// `PropertyCount`, or fewer where the block ends first.
pub open spec fn property_records(b: Seq<u8>) -> nat {
    let count = le4(b, TRACE_EVENT_INFO_PROPERTY_COUNT as int);
    let fit = if b.len() < TRACE_EVENT_INFO_PROPERTIES {
        0
    } else {
        ((b.len() - TRACE_EVENT_INFO_PROPERTIES) / (EVENT_PROPERTY_INFO_SIZE as int)) as nat
    };
    if count < fit {
        count
    } else {
        fit
    }
}

/// The schema of an event from its `TRACE_EVENT_INFO` block: one property
/// per property record, in order; none where the block is too short to hold
/// the property count.
pub fn build_schema(info: &[u8]) -> (r: Option<CachedSchema>)
    ensures
        info@.len() < TRACE_EVENT_INFO_PROPERTY_COUNT + 4 ==> r is None,
        info@.len() >= TRACE_EVENT_INFO_PROPERTY_COUNT + 4 ==> (r matches Some(s) && s.props@.len()
            == property_records(info@) && forall|k: int|
            0 <= k < s.props@.len() ==> property_at(
                info@,
                TRACE_EVENT_INFO_PROPERTIES + EVENT_PROPERTY_INFO_SIZE * k,
                #[trigger] s.props@[k],
            )),
{
    if info.len() < TRACE_EVENT_INFO_PROPERTY_COUNT + 4 {
        return None;
    }
    let count = read_u32_le(info, TRACE_EVENT_INFO_PROPERTY_COUNT);
    let mut props: Vec<PropertyMeta> = Vec::new();
    let mut i: u32 = 0;
    let mut offset: usize = TRACE_EVENT_INFO_PROPERTIES;
    while i < count && info.len() >= offset && info.len() - offset >= EVENT_PROPERTY_INFO_SIZE
        invariant
            count == le4(info@, TRACE_EVENT_INFO_PROPERTY_COUNT as int),
            info@.len() >= TRACE_EVENT_INFO_PROPERTY_COUNT + 4,
            i <= count,
            offset == TRACE_EVENT_INFO_PROPERTIES + EVENT_PROPERTY_INFO_SIZE * i,
            i <= property_records(info@),
            props@.len() == i,
            forall|k: int|
                0 <= k < i ==> property_at(
                    info@,
                    TRACE_EVENT_INFO_PROPERTIES + EVENT_PROPERTY_INFO_SIZE * k,
                    #[trigger] props@[k],
                ),
        decreases count - i,
    {
        let flags = read_u32_le(info, offset);
        let name = match read_utf16_cstr_at(info, read_u32_le(info, offset + 4) as usize) {
            Some(s) => s,
            None => String::new(),
        };
        let in_type = read_u16_le(info, offset + 8) as i32;
        let out_type = read_u16_le(info, offset + 10) as i32;
        let map_offset = read_u32_le(info, offset + 12);
        let count_field = read_u16_le(info, offset + 16);
        let length_field = read_u16_le(info, offset + 18);
        let param_count = flags & PROPERTY_PARAM_COUNT != 0;
        let fixed_count = flags & PROPERTY_PARAM_FIXED_COUNT != 0;
        let param_length = flags & PROPERTY_PARAM_LENGTH != 0;
        let fixed_length = flags & PROPERTY_PARAM_FIXED_LENGTH != 0;
        let prop_count: u16 = if param_count && fixed_count {
            if count_field < 1 { 1 } else { count_field }
        } else {
            1
        };
        let map_name = if flags & PROPERTY_STRUCT == 0 && map_offset > 0 {
            read_utf16_cstr_at(info, map_offset as usize)
        } else {
            None
        };
        let p = PropertyMeta {
            name,
            in_type,
            out_type,
            length: length_field,
            count: prop_count,
            count_property_index: if param_count && !fixed_count {
                Some(count_field as usize)
            } else {
                None
            },
            length_property_index: if param_length && !fixed_length {
                Some(length_field as usize)
            } else {
                None
            },
            map_name,
        };
        assert(property_at(info@, offset as int, p));
        props.push(p);
        i = i + 1;
        offset = offset + EVENT_PROPERTY_INFO_SIZE;
    }
    Some(CachedSchema { props })
}

/// The kind of a value map by its `EVENT_MAP_INFO` flag: a bitmap for the
/// bitmap and flag kinds, a value map for the value and pattern kinds.
pub open spec fn map_kind_of(flag: u32) -> Option<MapKind> {
    if flag == EVENTMAP_INFO_FLAG_MANIFEST_BITMAP || flag == EVENTMAP_INFO_FLAG_WBEM_BITMAP || flag
        == EVENTMAP_INFO_FLAG_WBEM_FLAG {
        Some(MapKind::Bitmap)
    } else if flag == EVENTMAP_INFO_FLAG_MANIFEST_VALUEMAP || flag == EVENTMAP_INFO_FLAG_WBEM_VALUEMAP || flag
        == EVENTMAP_INFO_FLAG_MANIFEST_PATTERNMAP {
        Some(MapKind::Value)
    } else {
        None
    }
}

/// Byte offset of map entry `k`.
pub open spec fn map_entry_offset(k: int) -> int {
    EVENT_MAP_INFO_ENTRIES + EVENT_MAP_ENTRY_SIZE * k
}

/// Whether map entry `k` can be read: its label, and for text keys its key.
pub open spec fn map_entry_readable(b: Seq<u8>, k: int, numeric: bool) -> bool {
    let off = map_entry_offset(k);
    &&& cstr_at(b, le4(b, off) as int) is Some
    &&& (numeric || cstr_at(b, le4(b, off + 4) as int) is Some)
}

/// Map entry `k` as read: a numeric key from its value, or a text key from
/// its input offset, and the label at its output offset.
pub open spec fn map_entry_at(b: Seq<u8>, k: int, numeric: bool, e: MapEntry) -> bool {
    let off = map_entry_offset(k);
    &&& cstr_at(b, le4(b, off) as int) == Some(e.label@)
    &&& if numeric {
        e.key matches MapKey::Numeric(v) && v == le4(b, off + 4)
    } else {
        e.key matches MapKey::Text(t) && cstr_at(b, le4(b, off + 4) as int) == Some(t@)
    }
}

/// Whether an `EVENT_MAP_INFO` block can be read as a map: a whole header,
/// numeric or text values, a known map kind, all its entries present and
/// readable.
pub open spec fn map_readable(b: Seq<u8>) -> bool {
    let value_type = le4(b, 12) as u32;
    let numeric = value_type == EVENTMAP_ENTRY_VALUETYPE_ULONG;
    let count = le4(b, 8) as int;
    &&& b.len() >= EVENT_MAP_INFO_ENTRIES
    &&& (numeric || value_type == EVENTMAP_ENTRY_VALUETYPE_STRING)
    &&& map_kind_of(le4(b, 4) as u32) is Some
    &&& map_entry_offset(count) <= b.len()
    &&& forall|k: int| 0 <= k < count ==> #[trigger] map_entry_readable(b, k, numeric)
}

/// Reads a value map from its `EVENT_MAP_INFO` block; none where it cannot
/// be read (see [`map_readable`]).
pub fn load_event_map(map_info: &[u8]) -> (r: Option<MapDefinition>)
    ensures
        r is Some <==> map_readable(map_info@),
        r matches Some(m) ==> ({
            let numeric = le4(map_info@, 12) == EVENTMAP_ENTRY_VALUETYPE_ULONG;
            &&& Some(m.kind) == map_kind_of(le4(map_info@, 4) as u32)
            &&& m.entries@.len() == le4(map_info@, 8)
            &&& forall|k: int| 0 <= k < m.entries@.len() ==> map_entry_at(map_info@, k, numeric, #[trigger] m.entries@[k])
        }),
{
    let b = map_info;
    if b.len() < EVENT_MAP_INFO_ENTRIES {
        return None;
    }
    let value_type = read_u32_le(b, 12);
    let numeric = value_type == EVENTMAP_ENTRY_VALUETYPE_ULONG;
    if !numeric && value_type != EVENTMAP_ENTRY_VALUETYPE_STRING {
        return None;
    }
    let flag = read_u32_le(b, 4);
    let kind = if flag == EVENTMAP_INFO_FLAG_MANIFEST_BITMAP || flag == EVENTMAP_INFO_FLAG_WBEM_BITMAP || flag
        == EVENTMAP_INFO_FLAG_WBEM_FLAG {
        MapKind::Bitmap
    } else if flag == EVENTMAP_INFO_FLAG_MANIFEST_VALUEMAP || flag == EVENTMAP_INFO_FLAG_WBEM_VALUEMAP || flag
        == EVENTMAP_INFO_FLAG_MANIFEST_PATTERNMAP {
        MapKind::Value
    } else {
        return None;
    };
    let count = read_u32_le(b, 8);
    if (count as u64) * 8 > (b.len() - EVENT_MAP_INFO_ENTRIES) as u64 {
        return None;
    }
    let n = b.len();
    let mut entries: Vec<MapEntry> = Vec::new();
    let mut k: u32 = 0;
    while k < count
        invariant
            n == b@.len(),
            b@ == map_info@,
            b@.len() >= EVENT_MAP_INFO_ENTRIES,
            value_type == le4(b@, 12),
            count == le4(b@, 8),
            numeric == (le4(b@, 12) == EVENTMAP_ENTRY_VALUETYPE_ULONG),
            map_entry_offset(count as int) <= b@.len(),
            k <= count,
            entries@.len() == k,
            forall|j: int| 0 <= j < k ==> map_entry_readable(b@, j, numeric),
            forall|j: int| 0 <= j < k ==> map_entry_at(b@, j, numeric, #[trigger] entries@[j]),
        decreases count - k,
    {
        let off: usize = EVENT_MAP_INFO_ENTRIES + EVENT_MAP_ENTRY_SIZE * (k as usize);
        let output_offset = read_u32_le(b, off);
        let value = read_u32_le(b, off + 4);
        let key = if numeric {
            MapKey::Numeric(value as u64)
        } else {
            match read_utf16_cstr_at(b, value as usize) {
                Some(t) => MapKey::Text(t),
                None => {
                    assert(!map_entry_readable(b@, k as int, numeric));
                    assert(!map_readable(b@));
                    return None;
                },
            }
        };
        let label = match read_utf16_cstr_at(b, output_offset as usize) {
            Some(t) => t,
            None => {
                assert(!map_entry_readable(b@, k as int, numeric));
                assert(!map_readable(b@));
                return None;
            },
        };
        let e = MapEntry { key, label };
        assert(map_entry_at(b@, k as int, numeric, e));
        entries.push(e);
        k = k + 1;
    }
    Some(MapDefinition { kind, entries })
}

/// The map cached under a name: the first entry for it.
pub open spec fn cached_map(maps: Seq<(String, MapDefinition)>, name: Seq<char>) -> Option<MapDefinition>
    decreases maps.len(),
{
    if maps.len() == 0 {
        None
    } else if maps[0].0@ == name {
        Some(maps[0].1)
    } else {
        cached_map(maps.drop_first(), name)
    }
}

/// Finds the map cached under a name; see [`cached_map`].
pub fn get_cached_map<'a>(maps: &'a Vec<(String, MapDefinition)>, name: &str) -> (r: Option<&'a MapDefinition>)
    ensures
        match cached_map(maps@, name@) {
            Some(m) => r matches Some(x) && *x == m,
            None => r is None,
        },
{
    let ghost all = maps@;
    let mut i: usize = 0;
    assert(all.subrange(0, all.len() as int) == all);
    while i < maps.len()
        invariant
            all == maps@,
            i <= all.len(),
            cached_map(all, name@) == cached_map(all.subrange(i as int, all.len() as int), name@),
        decreases maps.len() - i,
    {
        assert(all.subrange(i as int, all.len() as int).drop_first() == all.subrange(i + 1, all.len() as int));
        if str_eq(maps[i].0.as_str(), name) {
            return Some(&maps[i].1);
        }
        i = i + 1;
    }
    None
}

/// The map that applies to field `i`: that of its property's map name,
/// when the property has one and the map is cached.
pub open spec fn field_map(schema: CachedSchema, maps: Seq<(String, MapDefinition)>, i: int) -> Option<MapDefinition> {
    if 0 <= i < schema.props@.len() {
        match schema.props@[i].map_name {
            Some(n) => cached_map(maps, n@),
            None => None,
        }
    } else {
        None
    }
}

/// Renders each field whose property names a cached map through that map
/// (see [`map_value_spec`]); other fields, and fields past the schema's
/// properties, are left as they are.
pub fn apply_map_values(schema: &CachedSchema, fields: &mut Vec<EventField>, maps: &Vec<(String, MapDefinition)>)
    ensures
        final(fields)@.len() == old(fields)@.len(),
        forall|i: int|
            0 <= i < old(fields)@.len() ==> ({
                let before = old(fields)@[i];
                let after = #[trigger] final(fields)@[i];
                &&& after.name@ == before.name@
                &&& match field_map(*schema, maps@, i) {
                    Some(m) => match map_value_spec(m, before.value@) {
                        Some(t) => after.value@ == FieldValueModel::Text(t),
                        None => after == before,
                    },
                    None => after == before,
                }
            }),
{
    let mut i: usize = 0;
    while i < fields.len() && i < schema.props.len()
        invariant
            i <= fields@.len(),
            fields@.len() == old(fields)@.len(),
            forall|j: int|
                i <= j < fields@.len() ==> fields@[j] == old(fields)@[j],
            forall|j: int|
                0 <= j < i ==> ({
                    let before = old(fields)@[j];
                    let after = #[trigger] fields@[j];
                    &&& after.name@ == before.name@
                    &&& match field_map(*schema, maps@, j) {
                        Some(m) => match map_value_spec(m, before.value@) {
                            Some(t) => after.value@ == FieldValueModel::Text(t),
                            None => after == before,
                        },
                        None => after == before,
                    }
                }),
        decreases fields@.len() - i,
    {
        let mapped = match &schema.props[i].map_name {
            Some(n) => match get_cached_map(maps, n.as_str()) {
                Some(m) => map_field_value(m, &fields[i].value),
                None => None,
            },
            None => None,
        };
        if let Some(t) = mapped {
            let name = str_to_string(fields[i].name.as_str());
            fields.set(i, EventField { name, value: EventFieldValue::String(t) });
        }
        i = i + 1;
    }
}

} // verus!
