use windows_erg::etw::schema::{
    parse_one_value, parse_values, CachedSchema, MapDefinition, MapEntry, MapKey, MapKind,
    PropertyMeta, TDH_INTYPE_ANSISTRING, TDH_INTYPE_IPV4_VALUE, TDH_INTYPE_IPV6_VALUE,
    TDH_INTYPE_POINTER, TDH_INTYPE_UINT16, TDH_INTYPE_UINT32, TDH_INTYPE_UINT8,
    TDH_INTYPE_UNICODESTRING, TDH_OUTTYPE_HEXINT16, TDH_OUTTYPE_HRESULT, TDH_OUTTYPE_IPV4,
    TDH_OUTTYPE_PORT, TDH_OUTTYPE_SOCKETADDRESS, TDH_OUTTYPE_UTF8,
};
use windows_erg::etw::{EventFieldValue, IpAddress};

fn prop(name: &str, in_type: i32, out_type: i32, length: u16) -> PropertyMeta {
    PropertyMeta {
        name: name.to_string(),
        in_type,
        out_type,
        length,
        count: 1,
        count_property_index: None,
        length_property_index: None,
        map_name: None,
    }
}

#[test]
fn parse_ipv4_value() {
    let prop = prop("SourceIp", TDH_INTYPE_IPV4_VALUE, 0, 4);
    let data = [192, 168, 1, 10];
    let (value, consumed) = parse_one_value(&prop, &data).expect("expected ipv4 value");
    assert_eq!(consumed, 4);
    match value {
        EventFieldValue::IpAddr(ip) => assert_eq!(ip, IpAddress::V4([192, 168, 1, 10])),
        _ => panic!("expected EventFieldValue::IpAddr for IPv4"),
    }
}

#[test]
fn parse_ipv6_value() {
    let prop = prop("DestinationIp", TDH_INTYPE_IPV6_VALUE, 0, 16);
    let data: [u8; 16] = [0x20, 0x01, 0x0d, 0xb8, 0, 0, 0, 0, 0, 0, 0, 0, 0, 0, 0, 1];
    let (value, consumed) = parse_one_value(&prop, &data).expect("expected ipv6 value");
    assert_eq!(consumed, 16);
    match value {
        EventFieldValue::IpAddr(ip) => assert_eq!(ip, IpAddress::V6(data)),
        _ => panic!("expected EventFieldValue::IpAddr for IPv6"),
    }
}

#[test]
fn parse_unicode_string_with_fixed_length_no_null() {
    let prop = prop("Image", TDH_INTYPE_UNICODESTRING, 0, 8);
    let data = [b'T', 0, b'e', 0, b's', 0, b't', 0];
    let (value, consumed) = parse_one_value(&prop, &data).expect("expected unicode string");
    assert_eq!(consumed, 8);
    match value {
        EventFieldValue::String(s) => assert_eq!(s, "Test"),
        _ => panic!("expected EventFieldValue::String"),
    }
}

#[test]
fn parse_ansi_string_with_fixed_length_no_null() {
    let prop = prop("Name", TDH_INTYPE_ANSISTRING, 0, 4);
    let data = *b"PING";
    let (value, consumed) = parse_one_value(&prop, &data).expect("expected ansi string");
    assert_eq!(consumed, 4);
    match value {
        EventFieldValue::String(s) => assert_eq!(s, "PING"),
        _ => panic!("expected EventFieldValue::String"),
    }
}

#[test]
fn parse_uint8_array_as_binary_blob() {
    let prop = prop("ByteArray", TDH_INTYPE_UINT8, 0, 6);
    let data = [1u8, 2, 3, 4, 5, 6, 99, 100];
    let (value, consumed) = parse_one_value(&prop, &data).expect("expected binary blob");
    assert_eq!(consumed, 6);
    match value {
        EventFieldValue::Binary(bytes) => assert_eq!(bytes, vec![1, 2, 3, 4, 5, 6]),
        _ => panic!("expected EventFieldValue::Binary"),
    }
}

#[test]
fn parse_pointer_uses_declared_32bit_length() {
    let prop = prop("Ptr", TDH_INTYPE_POINTER, 0, 4);
    let data = [0x78u8, 0x56, 0x34, 0x12, 0xaa, 0xbb, 0xcc, 0xdd];
    let (value, consumed) = parse_one_value(&prop, &data).expect("expected pointer value");
    assert_eq!(consumed, 4);
    match value {
        EventFieldValue::Pointer(ptr) => assert_eq!(ptr, 0x1234_5678),
        _ => panic!("expected EventFieldValue::Pointer"),
    }
}

#[test]
fn parse_outtype_ipv4_from_scalar_bytes() {
    let prop = prop("RemoteAddress", TDH_INTYPE_UINT32, TDH_OUTTYPE_IPV4, 4);
    let data = [8u8, 8, 4, 4, 1, 2, 3, 4];
    let (value, consumed) = parse_one_value(&prop, &data).expect("expected ipv4 out-type parse");
    assert_eq!(consumed, 4);
    match value {
        EventFieldValue::IpAddr(ip) => assert_eq!(ip, IpAddress::V4([8, 8, 4, 4])),
        _ => panic!("expected EventFieldValue::IpAddr"),
    }
}

#[test]
fn parse_outtype_utf8_with_fixed_length() {
    let prop = prop("Payload", TDH_INTYPE_UINT8, TDH_OUTTYPE_UTF8, 5);
    let data = [b'H', b'e', b'l', b'l', b'o', 0, b'!'];
    let (value, consumed) = parse_one_value(&prop, &data).expect("expected utf8 out-type parse");
    assert_eq!(consumed, 5);
    match value {
        EventFieldValue::String(s) => assert_eq!(s, "Hello"),
        _ => panic!("expected EventFieldValue::String"),
    }
}

#[test]
fn parse_outtype_socketaddress_ipv4() {
    let prop = prop("SockAddr", TDH_INTYPE_UINT8, TDH_OUTTYPE_SOCKETADDRESS, 16);
    let data = [2u8, 0, 0, 0, 127, 0, 0, 1, 0, 0, 0, 0, 0, 0, 0, 0];
    let (value, consumed) = parse_one_value(&prop, &data).expect("expected sockaddr parse");
    assert_eq!(consumed, 8);
    match value {
        EventFieldValue::IpAddr(ip) => assert_eq!(ip, IpAddress::V4([127, 0, 0, 1])),
        _ => panic!("expected EventFieldValue::IpAddr"),
    }
}

#[test]
fn parse_values_uses_count_property_index_for_arrays() {
    let mut values = prop("Values", TDH_INTYPE_UINT32, 0, 0);
    values.count_property_index = Some(0);
    let schema = CachedSchema {
        props: vec![prop("Count", TDH_INTYPE_UINT8, 0, 1), values, prop("Tail", TDH_INTYPE_UINT8, 0, 1)],
    };
    let data = [2u8, 0x11, 0x00, 0x00, 0x00, 0x22, 0x00, 0x00, 0x00, 9u8];
    let fields = parse_values(&schema, &data);
    assert_eq!(fields.len(), 3);
    match &fields[1].value {
        EventFieldValue::Binary(bytes) => {
            assert_eq!(bytes, &vec![0x11, 0x00, 0x00, 0x00, 0x22, 0x00, 0x00, 0x00]);
        }
        _ => panic!("expected Values to be parsed as binary array payload"),
    }
    match &fields[2].value {
        EventFieldValue::U8(v) => assert_eq!(*v, 9),
        _ => panic!("expected Tail to remain aligned and parsed as u8"),
    }
}

#[test]
fn parse_values_uses_length_property_index_for_sized_string() {
    let mut name = prop("Name", TDH_INTYPE_ANSISTRING, TDH_OUTTYPE_UTF8, 0);
    name.length_property_index = Some(0);
    let schema = CachedSchema {
        props: vec![prop("Len", TDH_INTYPE_UINT8, 0, 1), name, prop("Tail", TDH_INTYPE_UINT8, 0, 1)],
    };
    let data = [4u8, b'T', b'e', b's', b't', 7u8];
    let fields = parse_values(&schema, &data);
    assert_eq!(fields.len(), 3);
    match &fields[1].value {
        EventFieldValue::String(v) => assert_eq!(v, "Test"),
        _ => panic!("expected Name as UTF-8 string with dynamic length"),
    }
    match &fields[2].value {
        EventFieldValue::U8(v) => assert_eq!(*v, 7),
        _ => panic!("expected Tail to remain aligned and parsed as u8"),
    }
}

fn numeric_entry(key: u64, label: &str) -> MapEntry {
    MapEntry { key: MapKey::Numeric(key), label: label.to_string() }
}

#[test]
fn map_definition_renders_value_map_exact_match() {
    let map = MapDefinition {
        kind: MapKind::Value,
        entries: vec![numeric_entry(1, "One"), numeric_entry(2, "Two")],
    };
    assert_eq!(map.render_numeric(2).as_deref(), Some("Two"));
    assert!(map.render_numeric(3).is_none());
}

#[test]
fn map_definition_renders_bitmap_as_joined_labels() {
    let map = MapDefinition {
        kind: MapKind::Bitmap,
        entries: vec![numeric_entry(0x1, "Read"), numeric_entry(0x2, "Write"), numeric_entry(0x4, "Execute")],
    };
    assert_eq!(map.render_numeric(0x3).as_deref(), Some("Read|Write"));
}

#[test]
fn map_definition_renders_string_key_maps_case_insensitively() {
    let map = MapDefinition {
        kind: MapKind::Value,
        entries: vec![MapEntry { key: MapKey::Text("start".to_string()), label: "StartLabel".to_string() }],
    };
    assert_eq!(map.render_text("START").as_deref(), Some("StartLabel"));
}

#[test]
fn parse_outtype_hresult_formats_hex_string() {
    let prop = prop("Result", TDH_INTYPE_UINT32, TDH_OUTTYPE_HRESULT, 4);
    let data = [0x57u8, 0x00, 0x07, 0x80];
    let (value, consumed) = parse_one_value(&prop, &data).expect("expected HRESULT parse");
    assert_eq!(consumed, 4);
    match value {
        EventFieldValue::String(s) => assert_eq!(s, "0x80070057"),
        _ => panic!("expected EventFieldValue::String"),
    }
}

#[test]
fn parse_outtype_hexint16_formats_hex_string() {
    let prop = prop("Flags", TDH_INTYPE_UINT16, TDH_OUTTYPE_HEXINT16, 2);
    let data = [0x34u8, 0x12];
    let (value, consumed) = parse_one_value(&prop, &data).expect("expected hexint16 parse");
    assert_eq!(consumed, 2);
    match value {
        EventFieldValue::String(s) => assert_eq!(s, "0x1234"),
        _ => panic!("expected EventFieldValue::String"),
    }
}

#[test]
fn parse_outtype_port_returns_u16() {
    let prop = prop("Port", TDH_INTYPE_UINT16, TDH_OUTTYPE_PORT, 2);
    let data = [0xBBu8, 0x01];
    let (value, consumed) = parse_one_value(&prop, &data).expect("expected port parse");
    assert_eq!(consumed, 2);
    match value {
        EventFieldValue::U16(v) => assert_eq!(v, 443),
        _ => panic!("expected EventFieldValue::U16"),
    }
}

#[test]
fn bitmap_without_set_bits_falls_back_to_exact_match() {
    let map = MapDefinition {
        kind: MapKind::Bitmap,
        entries: vec![numeric_entry(0, "None"), numeric_entry(0x1, "Read")],
    };
    assert_eq!(map.render_numeric(0).as_deref(), Some("None"));
    assert!(map.render_numeric(0x8).is_none());
}
