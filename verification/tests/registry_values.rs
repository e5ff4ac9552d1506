use windows_erg::error::RegistryError;
use windows_erg::registry::builder::{open_failure, ERROR_FILE_NOT_FOUND};
use windows_erg::registry::values::{
    read_binary_value, read_bool_value, read_multi_string_value, read_string_value, read_u32_value,
    read_u64_value, write_bool_value, write_multi_string_value, write_string_value, write_u32_value,
    write_u64_value, RegistryValue, REG_BINARY, REG_DWORD, REG_EXPAND_SZ, REG_MULTI_SZ, REG_QWORD, REG_SZ,
};
use windows_erg::registry::{Access, Hive, RegistryKeyBuilder};
use windows_erg::Error;

#[test]
fn test_convenience_read_write_string() {
    let data = write_string_value("test");
    let value = read_string_value(REG_SZ, &data, "ConvString").unwrap();
    assert_eq!(value, "test");
}

#[test]
fn test_convenience_read_write_u32() {
    let data = write_u32_value(123);
    let value = read_u32_value(REG_DWORD, &data, "ConvU32").unwrap();
    assert_eq!(value, 123);
}

#[test]
fn test_convenience_read_write_bool() {
    let data = write_bool_value(true);
    let value = read_bool_value(REG_DWORD, &data, "ConvBool").unwrap();
    assert!(value);
}

#[test]
fn test_key_not_found_error() {
    let path = r"Software\NonExistentKey12345";
    let result: Result<(), Error> = Err(open_failure(path, ERROR_FILE_NOT_FOUND, "The system cannot find the file specified."));
    assert!(result.is_err());
    match result {
        Err(Error::Registry(RegistryError::KeyNotFound(e))) => assert_eq!(e.key_path, path),
        _ => panic!("expected KeyNotFound"),
    }
}

#[test]
fn test_string_value() {
    let data = write_string_value("Hello, World!");
    let value = read_string_value(REG_SZ, &data, "TestString").unwrap();
    assert_eq!(value, "Hello, World!");
}

#[test]
fn test_u32_value() {
    let data = write_u32_value(42);
    assert_eq!(data, vec![42, 0, 0, 0]);
    let value = read_u32_value(REG_DWORD, &data, "TestU32").unwrap();
    assert_eq!(value, 42);
}

#[test]
fn test_u64_value() {
    let data = write_u64_value(0x123456789ABCDEF0u64);
    assert_eq!(data, 0x123456789ABCDEF0u64.to_le_bytes().to_vec());
    let value = read_u64_value(REG_QWORD, &data, "TestU64").unwrap();
    assert_eq!(value, 0x123456789ABCDEF0u64);
}

#[test]
fn test_bool_value() {
    let data = write_bool_value(true);
    assert!(read_bool_value(REG_DWORD, &data, "TestBoolTrue").unwrap());
    let data = write_bool_value(false);
    assert!(!read_bool_value(REG_DWORD, &data, "TestBoolFalse").unwrap());
}

#[test]
fn test_binary_value() {
    let data = vec![1u8, 2, 3, 4, 5];
    let value = read_binary_value(REG_BINARY, &data, "TestBinary").unwrap();
    assert_eq!(value, data);
}

#[test]
fn test_multi_string_value() {
    let strings = vec!["First".to_string(), "Second".to_string(), "Third".to_string()];
    let data = write_multi_string_value(&strings);
    let value = read_multi_string_value(REG_MULTI_SZ, &data, "TestMultiString").unwrap();
    assert_eq!(value, strings);
}

#[test]
fn test_type_mismatch_error() {
    let data = write_string_value("text");
    let result = read_u32_value(REG_SZ, &data, "StringValue");
    assert!(result.is_err());
    match result {
        Err(Error::Registry(RegistryError::InvalidType(e))) => {
            assert_eq!(e.expected, "u32 (REG_DWORD)");
            assert_eq!(e.found, "REG type 1");
            assert_eq!(e.value_name.as_deref(), Some("StringValue"));
        }
        _ => panic!("expected InvalidType"),
    }
}

#[test]
fn string_value_utf16_and_expand_sz() {
    let data = write_string_value("Grüße 🌍");
    assert_eq!(read_string_value(REG_EXPAND_SZ, &data, "v").unwrap(), "Grüße 🌍");
    // Data without a terminator loses its last unit, as the reader expects one.
    let units: Vec<u8> = "abc".encode_utf16().flat_map(|u| u.to_le_bytes()).collect();
    assert_eq!(read_string_value(REG_SZ, &units, "v").unwrap(), "ab");
}

#[test]
fn multi_string_skips_empty_strings() {
    let strings = vec!["a".to_string(), String::new(), "b".to_string()];
    let data = write_multi_string_value(&strings);
    let value = read_multi_string_value(REG_MULTI_SZ, &data, "v").unwrap();
    // An empty string reads as the end of the list.
    assert_eq!(value, vec!["a".to_string()]);
}

#[test]
fn binary_wrong_type() {
    match read_binary_value(REG_DWORD, &[0, 0, 0, 0], "b") {
        Err(Error::Registry(RegistryError::InvalidType(e))) => assert_eq!(e.found, "REG type 4"),
        _ => panic!("expected InvalidType"),
    }
}

#[test]
fn open_failure_other_code() {
    match open_failure(r"Software\X", 5, "Access is denied.") {
        Error::WindowsApi(e) => assert_eq!(e.error_code, 5),
        _ => panic!("expected WindowsApi"),
    }
}

#[test]
fn registry_builder_requires_hive_and_path() {
    match RegistryKeyBuilder::new().open() {
        Err(Error::InvalidParameter(e)) => assert_eq!(e.parameter, "hive"),
        _ => panic!("expected missing hive"),
    }
    match RegistryKeyBuilder::new().hive(Hive::CurrentUser).open() {
        Err(Error::InvalidParameter(e)) => assert_eq!(e.parameter, "path"),
        _ => panic!("expected missing path"),
    }
    let plan = RegistryKeyBuilder::new().hive(Hive::CurrentUser).path(r"Software\App").read_write().open().unwrap();
    assert_eq!(plan.path, r"Software\App");
    assert_eq!(plan.sam_flags, Access::ReadWrite.to_sam_flags());
}

fn round_trip<T: RegistryValue>(value: T) -> T {
    let (kind, data) = value.write_to_data().unwrap();
    T::read_from_data(kind, &data, "v").unwrap()
}

#[test]
fn registry_value_trait_round_trips() {
    assert_eq!(round_trip("Hello, World!".to_string()), "Hello, World!");
    assert_eq!(round_trip(42u32), 42);
    assert_eq!(round_trip(0x123456789ABCDEF0u64), 0x123456789ABCDEF0u64);
    assert!(round_trip(true));
    assert!(!round_trip(false));
    assert_eq!(round_trip(vec![1u8, 2, 3]), vec![1u8, 2, 3]);
    let strings = vec!["First".to_string(), "Second".to_string()];
    assert_eq!(round_trip(strings.clone()), strings);
}

#[test]
fn registry_value_short_dword_reads_zero_padded() {
    assert_eq!(<u32 as RegistryValue>::read_from_data(REG_DWORD, &[0x34, 0x12], "v").unwrap(), 0x1234);
    assert_eq!(<u64 as RegistryValue>::read_from_data(REG_QWORD, &[1], "v").unwrap(), 1);
    assert!(<bool as RegistryValue>::read_from_data(REG_SZ, &[1, 0, 0, 0], "v").is_err());
}
