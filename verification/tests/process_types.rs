use windows_erg::process::ImagePath;
use windows_erg::{ProcessId, ThreadId};

#[test]
fn test_image_path_cache_hit() {
    let path = ImagePath::from_str("C:\\Windows\\System32\\kernel32.dll");
    assert!(path.is_cached(), "kernel32.dll should be cached");
    match path {
        ImagePath::Cached(s) => assert_eq!(s, "C:\\Windows\\System32\\kernel32.dll"),
        _ => panic!("Expected Cached variant"),
    }
}

#[test]
fn test_image_path_cache_miss() {
    let path = ImagePath::from_str("C:\\Unknown\\Path\\custom.dll");
    assert!(!path.is_cached(), "Unknown path should not be cached");
    match path {
        ImagePath::Owned(s) => assert_eq!(s, "C:\\Unknown\\Path\\custom.dll"),
        _ => panic!("Expected Owned variant"),
    }
}

#[test]
fn test_image_path_case_insensitive_cache_hit() {
    let path_upper = ImagePath::from_str("C:\\WINDOWS\\SYSTEM32\\KERNEL32.DLL");
    let path_mixed = ImagePath::from_str("c:\\windows\\system32\\kernel32.dll");
    assert!(path_upper.is_cached(), "Uppercase path should be cached");
    assert!(path_mixed.is_cached(), "Lowercase path should be cached");
}

#[test]
fn test_image_path_new_allocates_then_caches() {
    let path = ImagePath::new("C:\\Windows\\System32\\ntdll.dll");
    assert!(path.is_cached(), "Common path should be cached with new()");
}

#[test]
fn test_image_path_from_utf16() {
    let utf16: Vec<u16> = "C:\\Windows\\System32\\advapi32.dll".encode_utf16().collect();
    let path = ImagePath::from_utf16(&utf16);
    assert!(path.is_cached(), "UTF-16 common path should be cached");
    assert_eq!(path.as_str(), "C:\\Windows\\System32\\advapi32.dll");
}

#[test]
fn test_image_path_from_utf16_case_insensitive() {
    let utf16: Vec<u16> = "C:\\WINDOWS\\SYSTEM32\\USER32.DLL".encode_utf16().collect();
    let path = ImagePath::from_utf16(&utf16);
    assert!(path.is_cached(), "UTF-16 uppercase path should be cached");
}

#[test]
fn test_image_path_from_utf8() {
    let path = ImagePath::from_utf8(b"C:\\Windows\\System32\\shell32.dll");
    assert!(path.is_some(), "Valid UTF-8 should succeed");
    let path = path.unwrap();
    assert!(path.is_cached(), "UTF-8 common path should be cached");
}

#[test]
fn test_image_path_from_utf8_invalid() {
    let invalid_utf8 = [0xFF, 0xFE];
    let path = ImagePath::from_utf8(&invalid_utf8);
    assert!(path.is_none(), "Invalid UTF-8 should return None");
}

#[test]
fn test_image_path_display() {
    let path = ImagePath::from_str("C:\\Windows\\System32\\kernel32.dll");
    assert_eq!(path.to_string(), "C:\\Windows\\System32\\kernel32.dll");
}

#[test]
fn test_image_path_partial_eq_self() {
    let path1 = ImagePath::from_str("C:\\Windows\\System32\\kernel32.dll");
    let path2 = ImagePath::from_str("C:\\Windows\\System32\\kernel32.dll");
    assert_eq!(path1, path2, "Same paths should be equal");
}

#[test]
fn test_image_path_partial_eq_different_case() {
    let path1 = ImagePath::from_str("C:\\Windows\\System32\\kernel32.dll");
    let path2 = ImagePath::from_str("c:\\windows\\system32\\kernel32.dll");
    assert_eq!(path1, path2, "Different case should be equal (case-insensitive)");
}

#[test]
fn test_image_path_eq_str() {
    let path = ImagePath::from_str("C:\\Windows\\System32\\kernel32.dll");
    assert_eq!(&path, "C:\\Windows\\System32\\kernel32.dll");
    assert_eq!(&path, "c:\\windows\\system32\\kernel32.dll");
}

#[test]
fn test_image_path_eq_owned_vs_cached() {
    let cached = ImagePath::from_str("C:\\Windows\\System32\\kernel32.dll");
    let owned = ImagePath::from_str("C:\\Windows\\System32\\kernel32.dll");
    assert!(cached.is_cached());
    assert!(owned.is_cached());
    assert_eq!(cached, owned);
}

#[test]
fn test_image_path_file_name() {
    let path = ImagePath::from_str("C:\\Windows\\System32\\kernel32.dll");
    assert_eq!(path.file_name(), "kernel32.dll");
}

#[test]
fn test_image_path_file_name_no_path() {
    let path = ImagePath::from_str("kernel32.dll");
    assert_eq!(path.file_name(), "kernel32.dll");
}

#[test]
fn test_image_path_is_system_path() {
    let sys_path = ImagePath::from_str("C:\\Windows\\System32\\kernel32.dll");
    assert!(sys_path.is_system_path(), "Should detect Windows path");
    let other_path = ImagePath::from_str("C:\\Program Files\\app.exe");
    assert!(!other_path.is_system_path(), "Should not detect non-Windows path");
}

#[test]
fn test_image_path_is_system_path_case_insensitive() {
    let sys_path = ImagePath::from_str("C:\\WINDOWS\\SYSTEM32\\kernel32.dll");
    assert!(sys_path.is_system_path(), "Should detect Windows path (uppercase)");
}

#[test]
fn test_image_path_is_wow64() {
    let wow64_path = ImagePath::from_str("C:\\Windows\\SysWOW64\\kernel32.dll");
    assert!(wow64_path.is_wow64(), "Should detect SysWOW64 path");
    let normal_path = ImagePath::from_str("C:\\Windows\\System32\\kernel32.dll");
    assert!(!normal_path.is_wow64(), "Should not detect System32 as WOW64");
}

#[test]
fn test_image_path_is_wow64_case_insensitive() {
    let wow64_path = ImagePath::from_str("C:\\WINDOWS\\SYSWOW64\\kernel32.dll");
    assert!(wow64_path.is_wow64(), "Should detect SysWOW64 path (uppercase)");
}

#[test]
fn test_image_path_ends_with_case_insensitive() {
    let path = ImagePath::from_str("C:\\Windows\\System32\\kernel32.dll");
    assert!(path.ends_with_case_insensitive(".dll"), "Should end with .dll");
    assert!(path.ends_with_case_insensitive(".DLL"), "Should end with .DLL (case-insensitive)");
    assert!(!path.ends_with_case_insensitive(".exe"), "Should not end with .exe");
}

#[test]
fn test_image_path_contains_case_insensitive() {
    let path = ImagePath::from_str("C:\\Windows\\System32\\kernel32.dll");
    assert!(path.contains_case_insensitive("system32"), "Should contain system32");
    assert!(path.contains_case_insensitive("SYSTEM32"), "Should contain SYSTEM32 (case-insensitive)");
    assert!(path.contains_case_insensitive("kernel32"), "Should contain kernel32");
    assert!(!path.contains_case_insensitive("syswow64"), "Should not contain syswow64");
}

#[test]
fn test_image_path_eq_case_insensitive() {
    let path = ImagePath::from_str("C:\\Windows\\System32\\kernel32.dll");
    assert!(path.eq_case_insensitive("C:\\Windows\\System32\\kernel32.dll"));
    assert!(path.eq_case_insensitive("c:\\windows\\system32\\kernel32.dll"));
    assert!(path.eq_case_insensitive("C:\\WINDOWS\\SYSTEM32\\KERNEL32.DLL"));
}

#[test]
fn test_image_path_clone() {
    let path1 = ImagePath::from_str("C:\\Windows\\System32\\kernel32.dll");
    let path2 = path1.clone();
    assert_eq!(path1, path2);
    assert_eq!(path1.as_str(), path2.as_str());
}

#[test]
fn test_cache_initialization() {
    let path1 = ImagePath::from_str("C:\\Windows\\System32\\kernel32.dll");
    assert!(path1.is_cached());
    let path2 = ImagePath::from_str("C:\\Windows\\System32\\ntdll.dll");
    assert!(path2.is_cached());
}

#[test]
fn test_multiple_cache_hits() {
    let paths = vec![
        "C:\\Windows\\System32\\kernel32.dll",
        "C:\\Windows\\System32\\ntdll.dll",
        "C:\\Windows\\System32\\msvcrt.dll",
        "C:\\Windows\\SysWOW64\\kernel32.dll",
    ];
    for p in paths {
        let image_path = ImagePath::from_str(p);
        assert!(image_path.is_cached(), "Path {} should be cached", p);
        assert_eq!(image_path.as_str(), p);
    }
}

#[test]
fn test_cache_with_owned_allocation() {
    let cached = ImagePath::from_str("C:\\Windows\\System32\\kernel32.dll");
    let owned = ImagePath::from_str("C:\\Custom\\unknown.dll");
    assert!(cached.is_cached());
    assert!(!owned.is_cached());
    assert_eq!(cached.as_str(), "C:\\Windows\\System32\\kernel32.dll");
    assert_eq!(owned.as_str(), "C:\\Custom\\unknown.dll");
}

#[test]
fn test_process_id_from_u32() {
    let id = ProcessId::from(1234u32);
    assert_eq!(id.as_u32(), 1234);
}

#[test]
fn test_thread_id_from_u32() {
    let id = ThreadId::from(5678u32);
    assert_eq!(id.as_u32(), 5678);
}

#[test]
fn test_image_path_with_null_terminator() {
    let path_with_null = "C:\\Windows\\System32\\kernel32.dll\0";
    let image_path = ImagePath::from_str(path_with_null);
    assert_eq!(image_path.as_str(), "C:\\Windows\\System32\\kernel32.dll");
    assert!(!image_path.as_str().ends_with('\0'), "Null terminator should be stripped");
    assert!(image_path.is_cached(), "Should be cached after null terminator is stripped");
    let path_without_null = ImagePath::from_str("C:\\Windows\\System32\\kernel32.dll");
    assert_eq!(image_path, path_without_null);
}

#[test]
fn file_name_of_trailing_separator_is_empty() {
    assert_eq!(ImagePath::from_str("C:\\Temp\\").file_name(), "");
    let lower: Vec<u16> = "c:\\windows\\system32\\cmd.exe".encode_utf16().collect();
    let p = ImagePath::from_utf16(&lower);
    assert_eq!(p.as_str(), "C:\\Windows\\System32\\cmd.exe");
}
