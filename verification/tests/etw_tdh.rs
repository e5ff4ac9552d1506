use windows_erg::etw::event::{EventField, EventFieldValue};
use windows_erg::etw::schema::{parse_values, MapKey, MapKind};
use windows_erg::etw::tdh::{apply_map_values, build_schema, load_event_map, read_utf16_cstr_at};

fn put_u16(b: &mut [u8], at: usize, v: u16) {
    b[at..at + 2].copy_from_slice(&v.to_le_bytes());
}

fn put_u32(b: &mut [u8], at: usize, v: u32) {
    b[at..at + 4].copy_from_slice(&v.to_le_bytes());
}

fn push_text(b: &mut Vec<u8>, s: &str) -> u32 {
    let at = b.len() as u32;
    for u in s.encode_utf16().chain([0u16]) {
        b.extend(u.to_le_bytes());
    }
    at
}

/// A TRACE_EVENT_INFO block with two properties: `ProcessId` (UInt32, in
/// type 8, mapped by `ProcMap`) and `Data` (binary, length given by property 0).
fn event_info() -> Vec<u8> {
    let mut b = vec![0u8; 112 + 2 * 24];
    put_u32(&mut b, 100, 2);
    let name0 = push_text(&mut b, "ProcessId");
    let map0 = push_text(&mut b, "ProcMap");
    let name1 = push_text(&mut b, "Data");
    // Property 0: no flags.
    put_u32(&mut b, 112, 0);
    put_u32(&mut b, 116, name0);
    put_u16(&mut b, 120, 8);
    put_u16(&mut b, 122, 0);
    put_u32(&mut b, 124, map0);
    put_u16(&mut b, 128, 0);
    put_u16(&mut b, 130, 0);
    // Property 1: length from property 0 (PropertyParamLength).
    put_u32(&mut b, 136, 0x2);
    put_u32(&mut b, 140, name1);
    put_u16(&mut b, 144, 14);
    put_u16(&mut b, 146, 0);
    put_u32(&mut b, 148, 0);
    put_u16(&mut b, 152, 0);
    put_u16(&mut b, 154, 0);
    b
}

#[test]
fn schema_from_event_info() {
    let schema = build_schema(&event_info()).unwrap();
    assert_eq!(schema.props.len(), 2);
    let p0 = &schema.props[0];
    assert_eq!(p0.name, "ProcessId");
    assert_eq!(p0.in_type, 8);
    assert_eq!(p0.count, 1);
    assert_eq!(p0.count_property_index, None);
    assert_eq!(p0.length_property_index, None);
    assert_eq!(p0.map_name.as_deref(), Some("ProcMap"));
    let p1 = &schema.props[1];
    assert_eq!(p1.name, "Data");
    assert_eq!(p1.in_type, 14);
    assert_eq!(p1.length_property_index, Some(0));
    assert_eq!(p1.map_name, None);
}

#[test]
fn schema_fixed_count_and_struct() {
    let mut b = vec![0u8; 112 + 24];
    put_u32(&mut b, 100, 5);
    // Param count + fixed count, struct flag, count field 0 reads as 1.
    put_u32(&mut b, 112, 0x4 | 0x20 | 0x1);
    put_u32(&mut b, 124, 140);
    let schema = build_schema(&b).unwrap();
    // Only one whole record fits.
    assert_eq!(schema.props.len(), 1);
    assert_eq!(schema.props[0].count, 1);
    assert_eq!(schema.props[0].name, "");
    assert_eq!(schema.props[0].map_name, None);
}

#[test]
fn schema_too_short() {
    assert!(build_schema(&[0u8; 103]).is_none());
    assert_eq!(build_schema(&[0u8; 104]).unwrap().props.len(), 0);
}

fn value_map(flag: u32, value_type: u32) -> Vec<u8> {
    let mut b = vec![0u8; 16 + 2 * 8];
    put_u32(&mut b, 4, flag);
    put_u32(&mut b, 8, 2);
    put_u32(&mut b, 12, value_type);
    let l0 = push_text(&mut b, "Started");
    let l1 = push_text(&mut b, "Stopped");
    let k0 = push_text(&mut b, "up");
    let k1 = push_text(&mut b, "down");
    put_u32(&mut b, 16, l0);
    put_u32(&mut b, 20, if value_type == 0 { 1 } else { k0 });
    put_u32(&mut b, 24, l1);
    put_u32(&mut b, 28, if value_type == 0 { 2 } else { k1 });
    b
}

#[test]
fn numeric_value_map() {
    let map = load_event_map(&value_map(0x1, 0)).unwrap();
    assert_eq!(map.kind, MapKind::Value);
    assert_eq!(map.entries.len(), 2);
    assert!(matches!(map.entries[1].key, MapKey::Numeric(2)));
    assert_eq!(map.entries[1].label, "Stopped");
    assert_eq!(map.render_numeric(1).as_deref(), Some("Started"));
}

#[test]
fn text_bitmap_map() {
    let map = load_event_map(&value_map(0x10, 1)).unwrap();
    assert_eq!(map.kind, MapKind::Bitmap);
    match &map.entries[0].key {
        MapKey::Text(k) => assert_eq!(k, "up"),
        _ => panic!("expected a text key"),
    }
}

#[test]
fn unreadable_maps() {
    assert!(load_event_map(&[0u8; 15]).is_none());
    assert!(load_event_map(&value_map(0x1, 7)).is_none());
    assert!(load_event_map(&value_map(0x40, 0)).is_none());
    let mut truncated = value_map(0x1, 0);
    put_u32(&mut truncated, 8, 1000);
    assert!(load_event_map(&truncated).is_none());
    let mut bad_label = value_map(0x1, 0);
    put_u32(&mut bad_label, 16, 10_000);
    assert!(load_event_map(&bad_label).is_none());
}

#[test]
fn cstr_reads() {
    let mut b = vec![0u8; 2];
    let at = push_text(&mut b, "abc");
    assert_eq!(read_utf16_cstr_at(&b, at as usize).as_deref(), Some("abc"));
    assert_eq!(read_utf16_cstr_at(&b, b.len()), None);
    assert_eq!(read_utf16_cstr_at(&b, b.len() - 1), None);
}

#[test]
fn maps_apply_to_fields() {
    let schema = build_schema(&event_info()).unwrap();
    let map = load_event_map(&value_map(0x1, 0)).unwrap();
    let mut data = Vec::new();
    data.extend(2u32.to_le_bytes());
    data.extend([9u8, 9]);
    let mut fields = parse_values(&schema, &data);
    assert!(matches!(fields[0].value, EventFieldValue::U32(2)));
    apply_map_values(&schema, &mut fields, &vec![("ProcMap".to_string(), map)]);
    assert_eq!(fields[0].name, "ProcessId");
    match &fields[0].value {
        EventFieldValue::String(s) => assert_eq!(s, "Stopped"),
        other => panic!("unexpected {:?}", other),
    }
    let mut unmapped = vec![EventField { name: "ProcessId".to_string(), value: EventFieldValue::U32(7) }];
    apply_map_values(&schema, &mut unmapped, &Vec::new());
    assert!(matches!(unmapped[0].value, EventFieldValue::U32(7)));
}
