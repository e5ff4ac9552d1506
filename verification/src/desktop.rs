//! Desktop value types: window handles and rectangles, cloaking, and tray
//! icon configuration.

use vstd::prelude::*;

use crate::error::{Error, InvalidParameterError};
use crate::text::{chars_have, chars_of, decode_utf16, has_char, str_to_string, utf16_decode};
use crate::types::ProcessId;

verus! {

/// Window handle, held as its raw value.
#[derive(Debug, Clone, Copy, PartialEq, Eq, Hash, Structural)]
pub struct WindowHandle(pub usize);

impl WindowHandle {
    /// Wrap a raw window handle value.
    pub fn new(raw: usize) -> (r: Self)
        ensures
            r.0 == raw,
    {
        WindowHandle(raw)
    }

    /// The raw handle value.
    pub fn as_raw(self) -> (r: usize)
        ensures
            r == self.0,
    {
        self.0
    }
}

/// Identifier of a notification area icon.
#[derive(Debug, Clone, Copy, PartialEq, Eq, Hash, Structural)]
pub struct TrayIconId(pub u32);

impl TrayIconId {
    /// Create a tray icon identifier.
    pub fn new(id: u32) -> (r: Self)
        ensures
            r.0 == id,
    {
        TrayIconId(id)
    }

    /// The raw identifier.
    pub fn as_u32(self) -> (r: u32)
        ensures
            r == self.0,
    {
        self.0
    }
}

/// Window rectangle in screen coordinates.
#[derive(Debug, Clone, Copy, PartialEq, Eq, Structural)]
pub struct WindowRect {
    /// Left edge.
    pub left: i32,
    /// Top edge.
    pub top: i32,
    /// Right edge.
    pub right: i32,
    /// Bottom edge.
    pub bottom: i32,
}

impl WindowRect {
    /// Width: right minus left.
    pub fn width(self) -> (r: i32)
        requires
            i32::MIN <= self.right - self.left <= i32::MAX,
        ensures
            r == self.right - self.left,
    {
        self.right - self.left
    }

    /// Height: bottom minus top.
    pub fn height(self) -> (r: i32)
        requires
            i32::MIN <= self.bottom - self.top <= i32::MAX,
        ensures
            r == self.bottom - self.top,
    {
        self.bottom - self.top
    }
}

/// Why a window is cloaked (hidden by the desktop window manager).
#[derive(Debug, Clone, Copy, PartialEq, Eq, Structural)]
pub enum CloakState {
    /// The window is not cloaked.
    NotCloaked,
    /// Cloaked by its owner application.
    App,
    /// Cloaked by the shell.
    Shell,
    /// Cloaked because its owner window is.
    Inherited,
    /// Cloaked for a reason not known here.
    Unknown(u32),
}

/// The cloak state of a raw attribute value: none when zero, else the
/// lowest of the app, shell and inherited bits that is set.
pub open spec fn cloak_of(raw: u32) -> CloakState {
    if raw == 0 {
        CloakState::NotCloaked
    } else if raw & 1 != 0 {
        CloakState::App
    } else if raw & 2 != 0 {
        CloakState::Shell
    } else if raw & 4 != 0 {
        CloakState::Inherited
    } else {
        CloakState::Unknown(raw)
    }
}

impl CloakState {
    /// Interpret a raw cloak attribute value; see [`cloak_of`].
    pub fn from_raw(raw: u32) -> (r: Self)
        ensures
            r == cloak_of(raw),
    {
        if raw == 0 {
            return CloakState::NotCloaked;
        }
        if raw & 1 != 0 {
            return CloakState::App;
        }
        if raw & 2 != 0 {
            return CloakState::Shell;
        }
        if raw & 4 != 0 {
            return CloakState::Inherited;
        }
        CloakState::Unknown(raw)
    }

    /// Whether the window is cloaked for any reason.
    pub fn is_cloaked(self) -> (r: bool)
        ensures
            r == !(self is NotCloaked),
    {
        match self {
            CloakState::NotCloaked => false,
            _ => true,
        }
    }
}

/// Icon style of a balloon notification.
#[derive(Debug, Clone, Copy, PartialEq, Eq, Structural)]
pub enum BalloonIcon {
    /// No icon (named `None` in the Windows API).
    NoIcon,
    /// Information icon.
    Info,
    /// Warning icon.
    Warning,
    /// Error icon.
    Error,
}

/// Information about a top-level or child window.
#[derive(Debug, Clone)]
pub struct WindowInfo {
    /// Window handle.
    pub handle: WindowHandle,
    /// Parent window, if any.
    pub parent: Option<WindowHandle>,
    /// Owning process.
    pub process_id: ProcessId,
    /// Window class name.
    pub class_name: String,
    /// Window title.
    pub title: String,
    /// Window rectangle.
    pub rect: WindowRect,
    /// Whether the window is visible.
    pub is_visible: bool,
    /// Cloak state.
    pub cloak_state: CloakState,
}

/// The text a `GetWindowTextW` or `GetClassNameW` call copied: the first
/// `copied` units of the buffer (unpaired surrogates as U+FFFD), or nothing
/// where it copied none.
pub fn copied_window_text(buffer: &[u16], copied: i32) -> (r: String)
    requires
        copied <= buffer@.len(),
    ensures
        copied <= 0 ==> r@.len() == 0,
        copied > 0 ==> r@ == utf16_decode(buffer@.subrange(0, copied as int), true),
{
    if copied <= 0 {
        return String::new();
    }
    let n = copied as usize;
    let mut units: Vec<u16> = Vec::new();
    let mut i: usize = 0;
    while i < n
        invariant
            n == copied as usize,
            n <= buffer@.len(),
            i <= n,
            units@ == buffer@.subrange(0, i as int),
        decreases n - i,
    {
        units.push(buffer[i]);
        i = i + 1;
    }
    decode_utf16(units.as_slice(), true)
}

/// The cloak state a `DwmGetWindowAttribute(DWMWA_CLOAKED)` query gives:
/// the state of the raw value when the query succeeded, not cloaked when it
/// failed.
pub fn cloak_state_from_query(succeeded: bool, raw: u32) -> (r: CloakState)
    ensures
        succeeded ==> r == cloak_of(raw),
        !succeeded ==> r == CloakState::NotCloaked,
{
    if succeeded {
        CloakState::from_raw(raw)
    } else {
        CloakState::NotCloaked
    }
}

/// The information of a window from what was queried of it: a null parent
/// (0) is no parent, and a rectangle that could not be read is all zeros.
pub fn build_window_info(
    handle: WindowHandle,
    parent_raw: Option<usize>,
    process_id: u32,
    class_name: String,
    title: String,
    rect: Option<WindowRect>,
    is_visible: bool,
    cloak_state: CloakState,
) -> (r: WindowInfo)
    ensures
        r.handle == handle,
        r.parent == match parent_raw {
            Some(p) => if p == 0 {
                None
            } else {
                Some(WindowHandle(p))
            },
            None => None,
        },
        r.process_id == ProcessId(process_id),
        r.class_name@ == class_name@,
        r.title@ == title@,
        r.rect == match rect {
            Some(x) => x,
            None => WindowRect { left: 0, top: 0, right: 0, bottom: 0 },
        },
        r.is_visible == is_visible,
        r.cloak_state == cloak_state,
{
    WindowInfo {
        handle,
        parent: match parent_raw {
            Some(p) => if p == 0 {
                None
            } else {
                Some(WindowHandle::new(p))
            },
            None => None,
        },
        process_id: ProcessId::new(process_id),
        class_name,
        title,
        rect: match rect {
            Some(x) => x,
            None => WindowRect { left: 0, top: 0, right: 0, bottom: 0 },
        },
        is_visible,
        cloak_state,
    }
}

/// Balloon notification payload for a tray icon.
#[derive(Debug, Clone)]
pub struct TrayNotification {
    /// Notification title.
    pub title: String,
    /// Notification body text.
    pub body: String,
    /// Notification icon style.
    pub icon: BalloonIcon,
}

impl TrayNotification {
    /// Create a notification payload.
    pub fn new(title: &str, body: &str, icon: BalloonIcon) -> (r: Self)
        ensures
            r.title@ == title@,
            r.body@ == body@,
            r.icon == icon,
    {
        TrayNotification { title: str_to_string(title), body: str_to_string(body), icon }
    }
}

/// Default class and window name of the hidden window that owns a tray icon.
pub const DEFAULT_TRAY_WINDOW_NAME: &'static str = "windows_erg_tray_window";

/// Builder for a notification area icon.
#[derive(Debug, Clone)]
pub struct TrayIconBuilder {
    /// Icon identifier.
    pub id: TrayIconId,
    /// Tooltip text.
    pub tooltip: String,
    /// Existing owner window; none means a hidden window is created.
    pub owner: Option<WindowHandle>,
    /// Class name of the hidden owner window.
    pub window_class_name: String,
    /// Name of the hidden owner window.
    pub window_name: String,
}

impl TrayIconBuilder {
    /// A builder for an icon owned by a hidden window with the default names.
    pub fn new(id: TrayIconId, tooltip: &str) -> (r: Self)
        ensures
            r.id == id,
            r.tooltip@ == tooltip@,
            r.owner is None,
            r.window_class_name@ == DEFAULT_TRAY_WINDOW_NAME@,
            r.window_name@ == DEFAULT_TRAY_WINDOW_NAME@,
    {
        TrayIconBuilder {
            id,
            tooltip: str_to_string(tooltip),
            owner: None,
            window_class_name: str_to_string(DEFAULT_TRAY_WINDOW_NAME),
            window_name: str_to_string(DEFAULT_TRAY_WINDOW_NAME),
        }
    }

    /// Bind the icon to an existing owner window.
    pub fn owner_window(self, owner: WindowHandle) -> (r: Self)
        ensures
            r == (TrayIconBuilder { owner: Some(owner), ..self }),
    {
        TrayIconBuilder { owner: Some(owner), ..self }
    }

    /// Set the class name of the hidden owner window.
    pub fn window_class_name(self, name: &str) -> (r: Self)
        ensures
            r.window_class_name@ == name@,
            r == (TrayIconBuilder { window_class_name: r.window_class_name, ..self }),
    {
        TrayIconBuilder { window_class_name: str_to_string(name), ..self }
    }

    /// Set the name of the hidden owner window.
    pub fn window_name(self, name: &str) -> (r: Self)
        ensures
            r.window_name@ == name@,
            r == (TrayIconBuilder { window_name: r.window_name, ..self }),
    {
        TrayIconBuilder { window_name: str_to_string(name), ..self }
    }

    /// Checks the hidden window's names before it is created: neither may be
    /// empty or hold a NUL; the class name is checked first.
    pub fn validate(&self) -> (r: Result<(), Error>)
        ensures
            match window_name_error(self.window_class_name@) {
                Some(reason) => r matches Err(Error::InvalidParameter(e)) && e.parameter@ == "window_class_name"@
                    && e.reason@ == reason,
                None => match window_name_error(self.window_name@) {
                    Some(reason) => r matches Err(Error::InvalidParameter(e)) && e.parameter@ == "window_name"@
                        && e.reason@ == reason,
                    None => r is Ok,
                },
            },
    {
        validate_window_name("window_class_name", self.window_class_name.as_str())?;
        validate_window_name("window_name", self.window_name.as_str())
    }
}

/// Why a window name is refused, if it is.
pub open spec fn window_name_error(value: Seq<char>) -> Option<Seq<char>> {
    if value.len() == 0 {
        Some("value cannot be empty"@)
    } else if has_char(value, '\0') {
        Some("value cannot contain NUL characters"@)
    } else {
        None
    }
}

/// Checks a window name: not empty and without NUL characters.
pub fn validate_window_name(field: &str, value: &str) -> (r: Result<(), Error>)
    ensures
        match window_name_error(value@) {
            Some(reason) => r matches Err(Error::InvalidParameter(e)) && e.parameter@ == field@ && e.reason@
                == reason,
            None => r is Ok,
        },
{
    if value.is_empty() {
        return Err(Error::InvalidParameter(InvalidParameterError::new(field, "value cannot be empty")));
    }
    let cs = chars_of(value);
    if chars_have(cs.as_slice(), '\0') {
        return Err(Error::InvalidParameter(InvalidParameterError::new(field, "value cannot contain NUL characters")));
    }
    Ok(())
}

/// UTF-16 encoding of a text.
pub open spec fn utf16_encode(s: Seq<char>) -> Seq<u16>
    decreases s.len(),
{
    if s.len() == 0 {
        Seq::empty()
    } else {
        let c = s[0] as u32;
        let head: Seq<u16> = if c < 0x10000 {
            seq![c as u16]
        } else {
            seq![(0xD800 + (c - 0x10000) / 0x400) as u16, (0xDC00 + (c - 0x10000) % 0x400) as u16]
        };
        head + utf16_encode(s.drop_first())
    }
}

/// Decoding the UTF-16 encoding of a text gives the text back.
pub proof fn lemma_utf16_round_trip(s: Seq<char>, lossy: bool)
    ensures
        utf16_decode(utf16_encode(s), lossy) == s,
    decreases s.len(),
{
    if s.len() > 0 {
        let c = s[0] as u32;
        let rest = utf16_encode(s.drop_first());
        let e = utf16_encode(s);
        vstd::utf8::char_is_scalar(s[0]);
        vstd::utf8::char_u32_cast(s[0], c);
        lemma_utf16_round_trip(s.drop_first(), lossy);
        if c < 0x10000 {
            assert(e == seq![c as u16] + rest);
            assert(e.drop_first() =~= rest);
            assert(e[0] as u32 == c);
            assert(e[0] as char == s[0]);
            assert(utf16_decode(e, lossy) == seq![s[0]] + s.drop_first());
        } else {
            let hi = (0xD800 + (c - 0x10000) / 0x400) as u16;
            let lo = (0xDC00 + (c - 0x10000) % 0x400) as u16;
            assert(e == seq![hi, lo] + rest);
            assert(e.subrange(2, e.len() as int) =~= rest);
            assert(0xD800 <= hi <= 0xDBFF);
            assert(0xDC00 <= lo <= 0xDFFF);
            assert(0x10000 + (hi - 0xD800) * 0x400 + (lo - 0xDC00) == c);
            assert((0x10000 + (e[0] - 0xD800) * 0x400 + (e[1] - 0xDC00)) == c);
            assert((0x10000 + (e[0] - 0xD800) * 0x400 + (e[1] - 0xDC00)) as char == s[0]);
            assert(utf16_decode(e, lossy) == seq![s[0]] + s.drop_first());
        }
        assert(seq![s[0]] + s.drop_first() =~= s);
    }
}

/// A text with no NUL character encodes to units that hold no zero, and
/// a non-empty text to non-empty units.
pub proof fn lemma_utf16_encode_no_zero(s: Seq<char>)
    requires
        forall|k: int| 0 <= k < s.len() ==> s[k] != '\0',
    ensures
        forall|k: int| 0 <= k < utf16_encode(s).len() ==> utf16_encode(s)[k] != 0,
        s.len() > 0 ==> utf16_encode(s).len() > 0,
    decreases s.len(),
{
    if s.len() > 0 {
        let c = s[0] as u32;
        let rest = utf16_encode(s.drop_first());
        let e = utf16_encode(s);
        vstd::utf8::char_is_scalar(s[0]);
        lemma_utf16_encode_no_zero(s.drop_first());
        assert(s[0] != '\0');
        if c == 0 {
            vstd::utf8::char_u32_cast(s[0], c);
            vstd::utf8::char_u32_cast('\0', 0u32);
        }
        assert(c != 0);
        assert(forall|k: int| 0 <= k < s.drop_first().len() ==> s.drop_first()[k] != '\0');
        if c < 0x10000 {
            assert(e == seq![c as u16] + rest);
            assert forall|k: int| 0 <= k < e.len() implies e[k] != 0 by {
                if k > 0 {
                    assert(e[k] == rest[k - 1]);
                }
            }
        } else {
            let hi = (0xD800 + (c - 0x10000) / 0x400) as u16;
            let lo = (0xDC00 + (c - 0x10000) % 0x400) as u16;
            assert(e == seq![hi, lo] + rest);
            assert forall|k: int| 0 <= k < e.len() implies e[k] != 0 by {
                if k > 1 {
                    assert(e[k] == rest[k - 2]);
                }
            }
        }
    }
}

/// UTF-16 encoding of a text.
pub fn encode_utf16(s: &str) -> (r: Vec<u16>)
    ensures
        r@ == utf16_encode(s@),
{
    let cs = chars_of(s);
    let mut out: Vec<u16> = Vec::new();
    let mut i: usize = 0;
    assert(cs@.subrange(0, cs@.len() as int) == cs@);
    while i < cs.len()
        invariant
            i <= cs@.len(),
            utf16_encode(cs@) == out@ + utf16_encode(cs@.subrange(i as int, cs@.len() as int)),
        decreases cs@.len() - i,
    {
        let ghost rest = cs@.subrange(i as int, cs@.len() as int);
        assert(rest.drop_first() == cs@.subrange(i + 1, cs@.len() as int));
        let c = cs[i] as u32;
        let ghost before = out@;
        if c < 0x10000 {
            out.push(c as u16);
            assert(before + (seq![c as u16] + utf16_encode(rest.drop_first())) == out@ + utf16_encode(rest.drop_first()));
        } else {
            let hi: u16 = (0xD800 + (c - 0x10000) / 0x400) as u16;
            let lo: u16 = (0xDC00 + (c - 0x10000) % 0x400) as u16;
            out.push(hi);
            out.push(lo);
            assert(before + (seq![hi, lo] + utf16_encode(rest.drop_first())) == out@ + utf16_encode(rest.drop_first()));
        }
        i = i + 1;
    }
    assert(cs@.subrange(i as int, cs@.len() as int) =~= Seq::<char>::empty());
    assert(out@ + Seq::<u16>::empty() == out@);
    out
}

/// A fixed buffer of `n` units holding as much of the UTF-16 text as fits
/// before a final terminating zero; the rest is zeros.
pub open spec fn fixed_text(units: Seq<u16>, n: nat) -> Seq<u16> {
    let keep = if n == 0 { 0 } else if units.len() < n - 1 { units.len() as int } else { n - 1 };
    Seq::new(n, |i: int| if i < keep { units[i] } else { 0u16 })
}

/// Copies text into a zero-filled buffer of `n` UTF-16 units, leaving at
/// least the last unit zero.
pub fn copy_text_to_fixed(text: &str, n: usize) -> (r: Vec<u16>)
    ensures
        r@ == fixed_text(utf16_encode(text@), n as nat),
{
    let units = encode_utf16(text);
    let keep: usize = if n == 0 {
        0
    } else if units.len() < n - 1 {
        units.len()
    } else {
        n - 1
    };
    let mut out: Vec<u16> = Vec::new();
    let mut i: usize = 0;
    while i < n
        invariant
            i <= n,
            keep <= units@.len(),
            keep == if n == 0 { 0 } else if units@.len() < n - 1 { units@.len() as int } else { n - 1 },
            out@.len() == i,
            forall|k: int| 0 <= k < i ==> out@[k] == if k < keep { units@[k] } else { 0u16 },
        decreases n - i,
    {
        if i < keep {
            out.push(units[i]);
        } else {
            out.push(0);
        }
        i = i + 1;
    }
    assert(out@ =~= fixed_text(units@, n as nat));
    out
}

} // verus!
