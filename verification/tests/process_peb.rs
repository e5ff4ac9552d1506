use std::mem::size_of;
use windows_erg::process::peb::{
    command_line_location, environment_address, image_path_location, parse_environment_block,
    peb_base_address, process_parameters_address, read_unicode_string_text, string_needs_read,
    RTL_USER_PROCESS_PARAMETERS_PARTIAL, UNICODE_STRING,
};
use windows_erg::text::decode_utf16;

/// Helper to convert a string to UTF-16 u16 vector
fn str_to_u16_vec(s: &str) -> Vec<u16> {
    s.encode_utf16().collect()
}

/// Helper to create environment block bytes (KEY=VALUE\0KEY=VALUE\0\0)
fn create_env_block(pairs: &[(&str, &str)]) -> Vec<u8> {
    let mut block = Vec::new();
    for (key, value) in pairs {
        let entry = format!("{}={}", key, value);
        for u16_val in entry.encode_utf16() {
            block.push((u16_val & 0xFF) as u8);
            block.push(((u16_val >> 8) & 0xFF) as u8);
        }
        block.push(0);
        block.push(0);
    }
    block.push(0);
    block.push(0);
    block
}

fn get<'a>(map: &'a [(String, String)], key: &str) -> Option<&'a str> {
    map.iter().find(|(k, _)| k == key).map(|(_, v)| v.as_str())
}

#[test]
fn test_parse_simple_environment() {
    let env_block = create_env_block(&[("PATH", "C:\\Windows"), ("TEMP", "C:\\Temp")]);
    let env_vars = parse_environment_block(&env_block, env_block.len());
    assert_eq!(get(&env_vars, "PATH"), Some("C:\\Windows"));
    assert_eq!(get(&env_vars, "TEMP"), Some("C:\\Temp"));
}

#[test]
fn test_parse_environment_with_equals_in_value() {
    let env_block = create_env_block(&[("URL", "https://example.com?foo=bar")]);
    let env_vars = parse_environment_block(&env_block, env_block.len());
    assert_eq!(get(&env_vars, "URL"), Some("https://example.com?foo=bar"));
}

#[test]
fn test_parse_environment_many_variables() {
    let pairs = vec![
        ("PATH", "C:\\Windows"),
        ("TEMP", "C:\\Temp"),
        ("WINDIR", "C:\\Windows"),
        ("USERNAME", "Admin"),
        ("COMPUTERNAME", "DESKTOP"),
        ("PROCESSOR_ARCHITECTURE", "AMD64"),
    ];
    let env_block = create_env_block(&pairs);
    let env_vars = parse_environment_block(&env_block, env_block.len());
    assert_eq!(env_vars.len(), 6);
    assert_eq!(get(&env_vars, "PATH"), Some("C:\\Windows"));
    assert_eq!(get(&env_vars, "USERNAME"), Some("Admin"));
    assert_eq!(get(&env_vars, "PROCESSOR_ARCHITECTURE"), Some("AMD64"));
}

#[test]
fn test_parse_environment_unicode_values() {
    let env_block = create_env_block(&[("TEST", "Hello🌍World")]);
    let env_vars = parse_environment_block(&env_block, env_block.len());
    assert_eq!(get(&env_vars, "TEST"), Some("Hello🌍World"));
}

#[test]
fn test_unicode_string_struct_layout() {
    assert_eq!(size_of::<UNICODE_STRING>(), 16, "UNICODE_STRING should be 16 bytes");
}

#[test]
fn test_rtl_user_process_parameters_partial_layout() {
    assert!(
        size_of::<RTL_USER_PROCESS_PARAMETERS_PARTIAL>() >= 0x6C,
        "RTL_USER_PROCESS_PARAMETERS_PARTIAL should be at least 0x6C bytes"
    );
}

#[test]
fn test_str_to_u16_conversion() {
    let s = "PATH";
    let u16_vec = str_to_u16_vec(s);
    let recovered = decode_utf16(&u16_vec, true);
    assert_eq!(recovered, s);
}

#[test]
fn test_environment_block_structure() {
    let block = create_env_block(&[("A", "B"), ("C", "D")]);
    assert!(!block.is_empty(), "Block should not be empty");
    if block.len() >= 6 {
        let a_char = u16::from_le_bytes([block[0], block[1]]);
        let eq_char = u16::from_le_bytes([block[2], block[3]]);
        let b_char = u16::from_le_bytes([block[4], block[5]]);
        assert_eq!(a_char, b'A' as u16, "First char should be 'A'");
        assert_eq!(eq_char, b'=' as u16, "Second should be '='");
        assert_eq!(b_char, b'B' as u16, "Third should be 'B'");
    }
    let env_vars = parse_environment_block(&block, block.len());
    assert_eq!(env_vars, vec![("A".to_string(), "B".to_string()), ("C".to_string(), "D".to_string())]);
}

#[test]
fn environment_later_entry_replaces_and_stops_at_empty_entry() {
    let mut block = create_env_block(&[("A", "1"), ("NOEQUALS", ""), ("A", "2")]);
    block.extend(create_env_block(&[("B", "3")]));
    let env_vars = parse_environment_block(&block, block.len());
    // The block ends at the first empty entry, so B is never reached.
    assert_eq!(get(&env_vars, "A"), Some("2"));
    assert_eq!(get(&env_vars, "NOEQUALS"), Some(""));
    assert_eq!(get(&env_vars, "B"), None);
    assert_eq!(env_vars.len(), 2);
}

#[test]
fn environment_entry_without_equals_is_skipped() {
    let mut block: Vec<u8> = Vec::new();
    for u in "JUNK".encode_utf16().chain([0u16]).chain("K=V".encode_utf16()).chain([0u16, 0u16]) {
        block.extend(u.to_le_bytes());
    }
    let env_vars = parse_environment_block(&block, block.len());
    assert_eq!(env_vars, vec![("K".to_string(), "V".to_string())]);
}

#[test]
fn environment_only_bytes_read_count() {
    let block = create_env_block(&[("A", "B"), ("C", "D")]);
    // Only "A=B" and its NUL were read.
    let env_vars = parse_environment_block(&block, 8);
    assert_eq!(env_vars, vec![("A".to_string(), "B".to_string())]);
}

#[test]
fn peb_addresses_from_little_endian_fields() {
    let mut info = vec![0u8; 48];
    info[8..16].copy_from_slice(&0x0000_7ff6_1234_5000u64.to_le_bytes());
    assert_eq!(peb_base_address(&info), 0x0000_7ff6_1234_5000);

    let mut peb = vec![0u8; 0x28];
    peb[0x20..0x28].copy_from_slice(&0x1122_3344_5566_7788u64.to_le_bytes());
    assert_eq!(process_parameters_address(&peb), 0x1122_3344_5566_7788);
}

#[test]
fn process_parameter_string_locations() {
    let mut params = vec![0u8; 128];
    params[0x60..0x62].copy_from_slice(&20u16.to_le_bytes());
    params[0x68..0x70].copy_from_slice(&0xAAAAu64.to_le_bytes());
    params[0x70..0x72].copy_from_slice(&12u16.to_le_bytes());
    params[0x78..0x80].copy_from_slice(&0xBBBBu64.to_le_bytes());
    let image = image_path_location(&params);
    assert_eq!((image.length, image.address), (20, 0xAAAA));
    let cmd = command_line_location(&params);
    assert_eq!((cmd.length, cmd.address), (12, 0xBBBB));
    assert_eq!(environment_address(&params), 0xAAAA);
    assert!(string_needs_read(cmd));
}

#[test]
fn unicode_string_text_stops_at_nul() {
    let mut data: Vec<u8> = Vec::new();
    for u in "ab".encode_utf16().chain([0u16]).chain("cd".encode_utf16()) {
        data.extend(u.to_le_bytes());
    }
    assert_eq!(read_unicode_string_text(&data, data.len()), "ab");
    assert_eq!(read_unicode_string_text(&data, 2), "a");
}
