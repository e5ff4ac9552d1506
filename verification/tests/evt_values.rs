use windows_erg::evt::values::{
    extract_string_from_variant, extract_systemtime_from_variant, extract_u16_from_variant, extract_u8_from_variant,
    render_event, render_event_values, render_event_xml, EvtValue,
};
use windows_erg::evt::{intern_field_name, EventLevel, FieldName, RenderFormat};

fn text(s: &str) -> EvtValue {
    EvtValue::String(Some(s.encode_utf16().chain([0u16]).collect()))
}

fn system_values() -> Vec<EvtValue> {
    vec![
        EvtValue::UInt32(4688),
        EvtValue::Byte(2),
        text("Microsoft-Windows-Security-Auditing"),
        text("Security"),
        text("HOST01"),
        EvtValue::FileTime(133_497_882_451_234_560),
        EvtValue::UInt64(99),
        EvtValue::UInt32(4),
        EvtValue::UInt32(88),
    ]
}

#[test]
fn values_fill_the_system_fields() {
    let event = render_event_values(Some(system_values())).unwrap();
    assert_eq!(event.id.0, 4688);
    assert_eq!(event.level, EventLevel::Critical);
    assert_eq!(event.provider, "Microsoft-Windows-Security-Auditing");
    assert_eq!(event.channel, "Security");
    assert_eq!(event.computer, "HOST01");
    assert_eq!(event.timestamp, Some(133_497_882_451_234_560));
    assert_eq!(event.record_id.map(|r| r.0), Some(99));
    assert_eq!(event.process_id.map(|p| p.0), Some(4));
    assert_eq!(event.thread_id.map(|t| t.0), Some(88));
    assert!(event.data.is_none());
}

#[test]
fn values_of_other_types_fall_back() {
    let vals = vec![
        EvtValue::UInt16(7),
        EvtValue::UInt32(2),
        EvtValue::String(None),
        EvtValue::Other(0),
        text("PC"),
        EvtValue::FileTime(100),
    ];
    let event = render_event_values(Some(vals)).unwrap();
    assert_eq!(event.id.0, 0);
    // A level that is not a byte reads as code 4.
    assert_eq!(event.level, EventLevel::Warning);
    assert_eq!(event.provider, "");
    assert_eq!(event.computer, "PC");
    assert_eq!(event.timestamp, None);
    assert!(event.record_id.is_none());
}

#[test]
fn values_unknown_level_and_extra_values() {
    let mut vals = system_values();
    vals[1] = EvtValue::Byte(200);
    vals.push(EvtValue::Other(1));
    let event = render_event_values(Some(vals)).unwrap();
    assert_eq!(event.level, EventLevel::Verbose);
    assert_eq!(event.data, Some(Vec::new()));
}

#[test]
fn values_empty_and_failed() {
    let event = render_event_values(Some(Vec::new())).unwrap();
    assert_eq!(event.id.0, 0);
    assert_eq!(event.level, EventLevel::Informational);
    let failed = render_event_values(None).unwrap_err();
    assert_eq!(failed.component, "EvtRender_Values");
    assert_eq!(failed.reason, "Failed to render event values");
    assert_eq!(failed.record_id, None);
}

#[test]
fn variant_extraction() {
    assert_eq!(extract_u8_from_variant(&EvtValue::Byte(3)), Some(3));
    assert_eq!(extract_u8_from_variant(&EvtValue::UInt32(3)), None);
    assert_eq!(extract_u16_from_variant(&EvtValue::UInt16(65535)), Some(65535));
    assert_eq!(extract_string_from_variant(&EvtValue::String(Some(vec![104, 105, 0, 120]))).as_deref(), Some("hi"));
    assert_eq!(extract_string_from_variant(&EvtValue::String(None)), None);
    assert_eq!(extract_systemtime_from_variant(&EvtValue::FileTime(116_444_736_000_000_000)), None);
    assert_eq!(extract_systemtime_from_variant(&EvtValue::FileTime(116_444_736_000_000_001)), Some(116_444_736_000_000_001));
}

const XML: &str = "<Event><System><EventID>1</EventID><Level>3</Level></System>\
<EventData><Data Name='Param'>v</Data></EventData></Event>";

#[test]
fn xml_rendering_with_data_and_message() {
    let event = render_event(RenderFormat::Xml, None, Some(XML), true, Some(XML), true, Some("Hello".to_string()))
        .unwrap()
        .unwrap();
    assert_eq!(event.id.0, 1);
    assert_eq!(event.level, EventLevel::Error);
    assert_eq!(event.data, Some(vec![("Param".to_string(), "v".to_string())]));
    assert_eq!(event.formatted_message.as_deref(), Some("Hello"));
}

#[test]
fn values_rendering_fills_data_from_second_xml() {
    let event = render_event(RenderFormat::Values, Some(system_values()), None, true, Some(XML), false, None)
        .unwrap()
        .unwrap();
    assert_eq!(event.data, Some(vec![("Param".to_string(), "v".to_string())]));
    assert!(event.formatted_message.is_none());
    let without = render_event(RenderFormat::Values, Some(system_values()), None, false, Some(XML), false, None)
        .unwrap()
        .unwrap();
    assert!(without.data.is_none());
}

#[test]
fn failed_renderings() {
    let c = render_event(RenderFormat::Xml, None, None, false, None, false, None).unwrap().unwrap_err();
    assert_eq!(c.component, "EvtRender_Xml");
    assert_eq!(c.reason, "Failed to render event as XML");
    let c = render_event_xml(None).unwrap().unwrap_err();
    assert_eq!(c.component, "EvtRender_Xml");
    let c = render_event(RenderFormat::Values, None, Some(XML), false, None, false, None).unwrap().unwrap_err();
    assert_eq!(c.component, "EvtRender_Values");
}

#[test]
fn common_field_names_are_shared() {
    match intern_field_name("ProcessId") {
        FieldName::Shared(s) => assert_eq!(s, "ProcessId"),
        other => panic!("unexpected {other:?}"),
    }
    match intern_field_name("processid") {
        FieldName::Owned(s) => assert_eq!(s, "processid"),
        other => panic!("unexpected {other:?}"),
    }
    assert_eq!(intern_field_name("Data").as_str(), "Data");
    assert_eq!(intern_field_name("Custom").into_string(), "Custom");
}
