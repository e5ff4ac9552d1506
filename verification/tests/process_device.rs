use windows_erg::process::device::{device_name, device_path_to_drive_path_u16, insert_device, lookup_device};

fn utf16(s: &str) -> Vec<u16> {
    s.encode_utf16().collect()
}

/// A device table as `QueryDosDeviceW` would fill it on a machine with two volumes.
fn sample_cache() -> Vec<(Vec<u16>, char)> {
    let mut cache = Vec::new();
    insert_device(&mut cache, utf16(r"\Device\HarddiskVolume1"), 'C');
    insert_device(&mut cache, utf16(r"\Device\HarddiskVolume2"), 'D');
    cache
}

fn convert(path: &str) -> String {
    device_path_to_drive_path_u16(&utf16(path), &sample_cache())
}

#[test]
fn test_device_path_to_drive_path_passthrough_non_device_path() {
    let path = "C:\\Windows\\System32\\file.exe";
    let result = convert(path);
    assert_eq!(result, path);
}

#[test]
fn test_device_path_to_drive_path_initializes_cache() {
    let path = r"\Device\HarddiskVolume1\Windows\System32\kernel32.dll";
    let result = convert(path);
    assert!(!result.is_empty(), "Should return a valid path");
    assert_eq!(result, r"C:\Windows\System32\kernel32.dll");
}

#[test]
fn test_device_path_to_drive_path_consistent_mapping() {
    let path1 = r"\Device\HarddiskVolume1\Windows\System32\kernel32.dll";
    let path2 = r"\Device\HarddiskVolume1\Program Files\app.exe";
    let result1 = convert(path1);
    let result2 = convert(path2);
    let is_device_1 = result1.starts_with(r"\Device\");
    let is_device_2 = result2.starts_with(r"\Device\");
    assert_eq!(is_device_1, is_device_2, "Consistent mapping for same device");
}

#[test]
fn test_device_path_to_drive_path_root_path() {
    let path = r"\Device\HarddiskVolume1";
    let result = convert(path);
    assert!(!result.is_empty(), "Should return a valid path");
    assert_eq!(result, r"C:\");
}

#[test]
fn test_device_path_to_drive_path_long_path() {
    let path = r"\Device\HarddiskVolume1\Windows\System32\Drivers\etc\hosts";
    let result = convert(path);
    assert!(
        result.contains("hosts") || result.starts_with(r"\Device\"),
        "Should process path correctly"
    );
}

#[test]
fn test_device_path_to_drive_path_multiple_backslashes() {
    let path = r"\Device\HarddiskVolume2\Users\Admin\Documents\file.txt";
    let result = convert(path);
    assert!(!result.is_empty(), "Should return a valid path");
    assert_eq!(result, r"D:\Users\Admin\Documents\file.txt");
}

#[test]
fn test_device_path_to_drive_path_preserves_case() {
    let path = r"\Device\HarddiskVolume1\Program Files\MyApp\config.ini";
    let result = convert(path);
    assert!(
        result.to_lowercase().contains("program files") || result.starts_with(r"\Device\"),
        "Should handle case appropriately"
    );
    assert_eq!(result, r"C:\Program Files\MyApp\config.ini");
}

#[test]
fn test_device_path_cache_is_singleton() {
    // The same answers give the same table, however often it is built.
    let cache1 = sample_cache();
    let cache2 = sample_cache();
    assert_eq!(cache1.len(), cache2.len(), "Cache should be consistent");
    assert_eq!(cache1, cache2);
}

#[test]
fn test_device_path_conversion_with_special_characters() {
    let path = r"\Device\HarddiskVolume1\Program Files (x86)\app.exe";
    let result = convert(path);
    assert!(!result.is_empty(), "Should handle special characters");
}

#[test]
fn test_device_path_unknown_device_fallback() {
    let path = r"\Device\HarddiskVolume999\unknown\path";
    let result = convert(path);
    assert!(
        result.contains("unknown") || result.starts_with(r"\Device\"),
        "Should handle unknown device gracefully"
    );
    assert_eq!(result, path);
}

#[test]
fn test_device_path_empty_subdirectory() {
    let path = r"\Device\HarddiskVolume1\";
    let result = convert(path);
    assert!(!result.is_empty(), "Should handle trailing backslash");
    assert_eq!(result, r"C:\");
}

#[test]
fn test_device_path_c_drive_common_paths() {
    let paths = vec![
        r"\Device\HarddiskVolume1\Windows\System32\kernel32.dll",
        r"\Device\HarddiskVolume1\Program Files\app.exe",
        r"\Device\HarddiskVolume1\Users\Admin\Desktop\file.txt",
    ];
    for path in paths {
        let result = convert(path);
        assert!(!result.is_empty(), "Should process path without error");
        assert!(result.starts_with(r"C:\"));
    }
}

#[test]
fn device_path_empty_buffer() {
    assert_eq!(device_path_to_drive_path_u16(&[], &sample_cache()), "");
}

#[test]
fn device_path_volume_prefix_is_not_a_match() {
    // HarddiskVolume10 is another device than HarddiskVolume1.
    let path = r"\Device\HarddiskVolume10\x";
    assert_eq!(convert(path), path);
}

#[test]
fn device_table_insert_replaces_drive() {
    let mut cache = sample_cache();
    insert_device(&mut cache, utf16(r"\Device\HarddiskVolume2"), 'E');
    assert_eq!(cache.len(), 2);
    assert_eq!(lookup_device(&cache, &utf16(r"\Device\HarddiskVolume2")), Some('E'));
    assert_eq!(lookup_device(&cache, &utf16(r"\Device\HarddiskVolume1")), Some('C'));
    assert_eq!(lookup_device(&cache, &utf16(r"\Device\Floppy0")), None);
}

#[test]
fn device_name_trims_trailing_nuls() {
    let mut buffer = utf16(r"\Device\HarddiskVolume3");
    let n = buffer.len();
    buffer.extend([0u16, 0u16, 0u16, 7u16]);
    assert_eq!(device_name(&buffer, n + 3), utf16(r"\Device\HarddiskVolume3"));
    assert_eq!(device_name(&buffer, 0), Vec::<u16>::new());
}
