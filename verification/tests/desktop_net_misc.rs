use windows_erg::desktop::{
    build_window_info, cloak_state_from_query, copied_window_text, copy_text_to_fixed, encode_utf16,
    validate_window_name, BalloonIcon, CloakState, TrayIconBuilder, TrayIconId, TrayNotification, WindowHandle,
    WindowRect,
};
use windows_erg::ProcessId;
use windows_erg::elevation::token_is_elevated;
use windows_erg::net::parse_ipv4;
use windows_erg::{require_elevation, Error};

#[test]
fn cloak_state_from_raw() {
    assert_eq!(CloakState::from_raw(0), CloakState::NotCloaked);
    assert_eq!(CloakState::from_raw(1), CloakState::App);
    assert_eq!(CloakState::from_raw(3), CloakState::App);
    assert_eq!(CloakState::from_raw(2), CloakState::Shell);
    assert_eq!(CloakState::from_raw(4), CloakState::Inherited);
    assert_eq!(CloakState::from_raw(8), CloakState::Unknown(8));
    assert!(!CloakState::NotCloaked.is_cloaked());
    assert!(CloakState::Unknown(8).is_cloaked());
}

#[test]
fn window_rect_size() {
    let r = WindowRect { left: 10, top: 20, right: 110, bottom: 70 };
    assert_eq!(r.width(), 100);
    assert_eq!(r.height(), 50);
}

#[test]
fn tray_builder_defaults_and_validation() {
    let b = TrayIconBuilder::new(TrayIconId::new(1), "tip");
    assert_eq!(b.window_class_name, "windows_erg_tray_window");
    assert!(b.validate().is_ok());
    match b.clone().window_class_name("").validate() {
        Err(Error::InvalidParameter(e)) => {
            assert_eq!(e.parameter, "window_class_name");
            assert_eq!(e.reason, "value cannot be empty");
        }
        _ => panic!("expected empty class name"),
    }
    match b.window_name("a\0b").validate() {
        Err(Error::InvalidParameter(e)) => {
            assert_eq!(e.parameter, "window_name");
            assert_eq!(e.reason, "value cannot contain NUL characters");
        }
        _ => panic!("expected NUL in window name"),
    }
    assert!(validate_window_name("x", "ok").is_ok());
    let owned = TrayIconBuilder::new(TrayIconId::new(2), "t").owner_window(WindowHandle::new(0x1234));
    assert_eq!(owned.owner, Some(WindowHandle::new(0x1234)));
}

#[test]
fn notification_payload() {
    let n = TrayNotification::new("Title", "Body", BalloonIcon::NoIcon);
    assert_eq!(n.title, "Title");
    assert_eq!(n.body, "Body");
    assert_eq!(n.icon, BalloonIcon::NoIcon);
}

#[test]
fn fixed_text_buffers() {
    assert_eq!(copy_text_to_fixed("abc", 5), vec![97, 98, 99, 0, 0]);
    assert_eq!(copy_text_to_fixed("abcdef", 4), vec![97, 98, 99, 0]);
    assert_eq!(copy_text_to_fixed("abc", 0), Vec::<u16>::new());
    assert_eq!(encode_utf16("a🌍"), "a🌍".encode_utf16().collect::<Vec<u16>>());
}

#[test]
fn ipv4_addresses() {
    let p = |s: &str| parse_ipv4(&s.chars().collect::<Vec<char>>());
    assert_eq!(p("192.168.0.1"), Some([192, 168, 0, 1]));
    assert_eq!(p("0.0.0.0"), Some([0, 0, 0, 0]));
    assert_eq!(p("256.1.1.1"), None);
    assert_eq!(p("01.1.1.1"), None);
    assert_eq!(p("1.1.1"), None);
    assert_eq!(p("1.1.1.1.1"), None);
    assert_eq!(p("1.1.1.1 "), None);
    assert_eq!(p(""), None);
}

#[test]
fn elevation_checks() {
    assert!(token_is_elevated(1));
    assert!(!token_is_elevated(0));
    assert!(require_elevation(true).is_ok());
    match require_elevation(false) {
        Err(Error::AccessDenied(e)) => {
            assert_eq!(e.resource, "operation");
            assert_eq!(e.operation, "elevation");
            assert_eq!(e.reason, None);
        }
        _ => panic!("expected access denied"),
    }
}

#[test]
fn window_queries() {
    let buffer: Vec<u16> = "Notepad\0junk".encode_utf16().collect();
    assert_eq!(copied_window_text(&buffer, 7), "Notepad");
    assert_eq!(copied_window_text(&buffer, 0), "");
    assert_eq!(copied_window_text(&buffer, -1), "");
    assert_eq!(cloak_state_from_query(true, 2), CloakState::Shell);
    assert_eq!(cloak_state_from_query(false, 2), CloakState::NotCloaked);
}

#[test]
fn window_info_defaults() {
    let info = build_window_info(
        WindowHandle::new(0x10),
        Some(0),
        300,
        "Notepad".to_string(),
        "Untitled".to_string(),
        None,
        true,
        CloakState::NotCloaked,
    );
    assert_eq!(info.parent, None);
    assert_eq!(info.process_id, ProcessId::new(300));
    assert_eq!(info.rect, WindowRect { left: 0, top: 0, right: 0, bottom: 0 });
    let child = build_window_info(
        WindowHandle::new(0x20),
        Some(0x10),
        300,
        String::new(),
        String::new(),
        Some(WindowRect { left: 1, top: 2, right: 3, bottom: 4 }),
        false,
        CloakState::App,
    );
    assert_eq!(child.parent, Some(WindowHandle::new(0x10)));
    assert_eq!(child.rect.right, 3);
    assert!(!child.is_visible);
}
