use windows_erg::evt::render::{extract_event_data_from_xml, parse_event_xml_with_quick_xml, stamp_in_range};
use windows_erg::evt::timestamp::{is_leap_year, iso_timestamp_fields, parse_iso8601_timestamp};
use windows_erg::evt::EventLevel;

const SECURITY_EVENT: &str = "<Event xmlns='http://schemas.microsoft.com/win/2004/08/events/event'>\
<System><Provider Name='Microsoft-Windows-Security-Auditing'></Provider>\
<EventID>4624</EventID><Version>2</Version><Level>0</Level>\
<TimeCreated SystemTime='2024-01-15T10:30:45.123456Z'></TimeCreated>\
<EventRecordID>123456</EventRecordID><Correlation/>\
<Execution ProcessID='812' ThreadID='1234'/>\
<Channel>Security</Channel><Computer>DESKTOP-ABC</Computer><Security/></System>\
<EventData><Data Name='SubjectUserName'>SYSTEM</Data><Data Name='LogonType'>5</Data></EventData></Event>";

#[test]
fn parses_system_fields() {
    let event = parse_event_xml_with_quick_xml(SECURITY_EVENT).unwrap().unwrap();
    assert_eq!(event.id.0, 4624);
    assert_eq!(event.level, EventLevel::AuditSuccess);
    assert_eq!(event.provider, "Microsoft-Windows-Security-Auditing");
    assert_eq!(event.channel, "Security");
    assert_eq!(event.computer, "DESKTOP-ABC");
    assert_eq!(event.timestamp, Some(133_497_882_451_234_560));
    assert_eq!(event.record_id.map(|r| r.0), Some(123456));
    assert_eq!(event.process_id.map(|p| p.0), Some(812));
    assert_eq!(event.thread_id.map(|t| t.0), Some(1234));
    assert!(event.data.is_none());
}

#[test]
fn self_closing_provider_and_time_are_not_read() {
    let xml = "<Event><System><Provider Name='Service Control Manager'/><EventID>7036</EventID>\
<Level>4</Level><TimeCreated SystemTime='2024-01-15T10:30:45.123456Z'/></System></Event>";
    let event = parse_event_xml_with_quick_xml(xml).unwrap().unwrap();
    assert_eq!(event.id.0, 7036);
    assert_eq!(event.level, EventLevel::Warning);
    assert_eq!(event.provider, "");
    assert_eq!(event.timestamp, None);
}

#[test]
fn unparsable_numbers_fall_back() {
    let xml = "<Event><System><EventID>abc</EventID><Level>zz</Level>\
<EventRecordID>-1</EventRecordID><Execution ProcessID='x' ThreadID='9'/></System></Event>";
    let event = parse_event_xml_with_quick_xml(xml).unwrap().unwrap();
    assert_eq!(event.id.0, 0);
    // An unreadable level reads as 4, a warning.
    assert_eq!(event.level, EventLevel::Warning);
    assert!(event.record_id.is_none());
    assert!(event.process_id.is_none());
    assert_eq!(event.thread_id.map(|t| t.0), Some(9));
}

#[test]
fn unknown_level_code_is_verbose() {
    let xml = "<Event><System><Level>9</Level></System></Event>";
    let event = parse_event_xml_with_quick_xml(xml).unwrap().unwrap();
    assert_eq!(event.level, EventLevel::Verbose);
}

#[test]
fn fields_outside_system_are_ignored() {
    let xml = "<Event><EventID>5</EventID><System></System><Channel>X</Channel></Event>";
    let event = parse_event_xml_with_quick_xml(xml).unwrap().unwrap();
    assert_eq!(event.id.0, 0);
    assert_eq!(event.channel, "");
}

#[test]
fn malformed_xml_is_a_corrupted_event() {
    let xml = "<Event><System><EventRecordID>77</EventRecordID></Syst></Event>";
    let corrupted = parse_event_xml_with_quick_xml(xml).unwrap().unwrap_err();
    assert_eq!(corrupted.record_id, Some(77));
    assert_eq!(corrupted.component, "quick-xml");
    assert_eq!(corrupted.reason, "XML parsing error");
}

#[test]
fn out_of_range_stamp_gives_none() {
    let xml = "<Event><System><TimeCreated SystemTime='2024-14-15T10:30:45.123456Z'></TimeCreated></System></Event>";
    assert!(parse_event_xml_with_quick_xml(xml).is_none());
    assert!(!stamp_in_range("2024-14-15T10:30:45.123456Z"));
    assert!(!stamp_in_range("2024-01-00T10:30:45.123456Z"));
    assert!(stamp_in_range("2024-13-15T10:30:45.123456Z"));
    assert!(stamp_in_range("not a stamp"));
}

#[test]
fn event_data_fields() {
    let data = extract_event_data_from_xml(SECURITY_EVENT).unwrap();
    assert_eq!(
        data,
        vec![
            ("SubjectUserName".to_string(), "SYSTEM".to_string()),
            ("LogonType".to_string(), "5".to_string())
        ]
    );
}

#[test]
fn event_data_absent_is_none() {
    assert!(extract_event_data_from_xml("<Event><System></System></Event>").is_none());
    assert!(extract_event_data_from_xml("<Event><EventData></EventData></Event>").is_none());
}

#[test]
fn event_data_later_field_replaces_and_unnamed_skipped() {
    let xml = "<Event><EventData><Data Name='A'>1</Data><Data>x</Data><Data Name='A'>2</Data></EventData></Event>";
    let data = extract_event_data_from_xml(xml).unwrap();
    assert_eq!(data, vec![("A".to_string(), "2".to_string())]);
}

#[test]
fn event_data_keeps_fields_before_an_error() {
    let xml = "<Event><EventData><Data Name='A'>1</Data></Oops><Data Name='B'>2</Data></EventData></Event>";
    let data = extract_event_data_from_xml(xml).unwrap();
    assert_eq!(data, vec![("A".to_string(), "1".to_string())]);
}

#[test]
fn timestamp_with_microseconds() {
    assert_eq!(parse_iso8601_timestamp("2024-01-15T10:30:45.123456Z"), Some(133_497_882_451_234_560));
}

#[test]
fn timestamp_leap_day_without_fraction() {
    assert_eq!(parse_iso8601_timestamp("2000-02-29T00:00:00Z"), Some(125_962_560_000_000_000));
    // A fraction shorter than six digits is not read.
    assert_eq!(parse_iso8601_timestamp("2000-02-29T00:00:00.0Z"), None);
}

#[test]
fn timestamp_unix_epoch() {
    assert_eq!(parse_iso8601_timestamp("1970-01-01T00:00:00.000000Z"), Some(116_444_736_000_000_000));
}

#[test]
fn timestamp_rejects_bad_fields() {
    assert_eq!(parse_iso8601_timestamp("2024-01-15"), None);
    assert_eq!(parse_iso8601_timestamp("2024-xx-15T10:30:45.123456Z"), None);
    assert_eq!(iso_timestamp_fields("2024-01-15T10:30:45.123456Z"), Some((2024, 1, 15, 10, 30, 45, 123456)));
}

#[test]
fn leap_years() {
    assert!(is_leap_year(2000));
    assert!(is_leap_year(2024));
    assert!(!is_leap_year(1900));
    assert!(!is_leap_year(2023));
    assert!(is_leap_year(-400));
}
