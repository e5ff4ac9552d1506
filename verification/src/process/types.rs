//! Process-related value types: image paths, access rights and the
//! records that process queries return.

use vstd::prelude::*;
use vstd::std_specs::cmp::PartialEqSpecImpl;
use vstd::utf8::*;

use crate::text::{
    chars_contain, chars_of, contains_seq, decode_utf16, ends_with_seq, eq_ascii_ci, occurs_at,
    str_eq_ascii_ci, str_to_string, string_from_chars, string_from_utf8, to_unicode_lowercase,
    trim_nul_end, trim_trailing_nul, unicode_lowercase, utf16_decode,
};
use crate::types::{ProcessId, ThreadId};

verus! {

/// Number of image paths that are shared rather than copied.
pub const COMMON_PATH_COUNT: usize = 64;

/// The image paths that are shared rather than copied.
pub open spec fn common_paths() -> Seq<Seq<char>> {
    seq![
        "C:\\Windows\\System32\\kernel32.dll"@,
        "C:\\Windows\\System32\\ntdll.dll"@,
        "C:\\Windows\\System32\\msvcrt.dll"@,
        "C:\\Windows\\System32\\advapi32.dll"@,
        "C:\\Windows\\System32\\user32.dll"@,
        "C:\\Windows\\System32\\gdi32.dll"@,
        "C:\\Windows\\System32\\ws2_32.dll"@,
        "C:\\Windows\\System32\\shell32.dll"@,
        "C:\\Windows\\System32\\ole32.dll"@,
        "C:\\Windows\\System32\\oleaut32.dll"@,
        "C:\\Windows\\System32\\comctl32.dll"@,
        "C:\\Windows\\System32\\comdlg32.dll"@,
        "C:\\Windows\\System32\\winmm.dll"@,
        "C:\\Windows\\System32\\shlwapi.dll"@,
        "C:\\Windows\\System32\\urlmon.dll"@,
        "C:\\Windows\\System32\\wininet.dll"@,
        "C:\\Windows\\System32\\msi.dll"@,
        "C:\\Windows\\System32\\crypt32.dll"@,
        "C:\\Windows\\System32\\cryptbase.dll"@,
        "C:\\Windows\\System32\\cryptnet.dll"@,
        "C:\\Windows\\System32\\ncrypt.dll"@,
        "C:\\Windows\\System32\\bcryptprimitives.dll"@,
        "C:\\Windows\\System32\\secur32.dll"@,
        "C:\\Windows\\System32\\sspicli.dll"@,
        "C:\\Windows\\System32\\ntsecapi.dll"@,
        "C:\\Windows\\System32\\wlanapi.dll"@,
        "C:\\Windows\\System32\\netapi32.dll"@,
        "C:\\Windows\\System32\\iphlpapi.dll"@,
        "C:\\Windows\\System32\\dnsapi.dll"@,
        "C:\\Windows\\System32\\nsi.dll"@,
        "C:\\Windows\\System32\\setupapi.dll"@,
        "C:\\Windows\\System32\\cfgmgr32.dll"@,
        "C:\\Windows\\System32\\regapi.dll"@,
        "C:\\Windows\\System32\\opengl32.dll"@,
        "C:\\Windows\\System32\\services.exe"@,
        "C:\\Windows\\System32\\lsass.exe"@,
        "C:\\Windows\\System32\\csrss.exe"@,
        "C:\\Windows\\System32\\svchost.exe"@,
        "C:\\Windows\\System32\\rundll32.exe"@,
        "C:\\Windows\\System32\\cmd.exe"@,
        "C:\\Windows\\System32\\notepad.exe"@,
        "C:\\Windows\\System32\\regedit.exe"@,
        "C:\\Windows\\System32\\conhost.exe"@,
        "C:\\Windows\\SysWOW64\\kernel32.dll"@,
        "C:\\Windows\\SysWOW64\\ntdll.dll"@,
        "C:\\Windows\\SysWOW64\\msvcrt.dll"@,
        "C:\\Windows\\SysWOW64\\advapi32.dll"@,
        "C:\\Windows\\SysWOW64\\user32.dll"@,
        "C:\\Windows\\SysWOW64\\gdi32.dll"@,
        "C:\\Windows\\SysWOW64\\ws2_32.dll"@,
        "C:\\Windows\\SysWOW64\\shell32.dll"@,
        "C:\\Windows\\SysWOW64\\ole32.dll"@,
        "C:\\Windows\\SysWOW64\\oleaut32.dll"@,
        "C:\\Windows\\SysWOW64\\comctl32.dll"@,
        "C:\\Windows\\SysWOW64\\comdlg32.dll"@,
        "C:\\Windows\\SysWOW64\\crypt32.dll"@,
        "C:\\Windows\\SysWOW64\\cryptbase.dll"@,
        "C:\\Windows\\SysWOW64\\secur32.dll"@,
        "C:\\Windows\\SysWOW64\\setupapi.dll"@,
        "C:\\Program Files\\"@,
        "C:\\Program Files (x86)\\"@,
        "C:\\Windows\\"@,
        "C:\\Windows\\System32\\"@,
        "C:\\Windows\\SysWOW64\\"@
    ]
}

/// The views of a list of string slices.
pub open spec fn str_views(s: Seq<&str>) -> Seq<Seq<char>> {
    Seq::new(s.len(), |i: int| s[i]@)
}

/// The first entry of `list` equal to `p` up to ASCII case.
pub open spec fn first_ci_match(list: Seq<Seq<char>>, p: Seq<char>) -> Option<Seq<char>>
    decreases list.len(),
{
    if list.len() == 0 {
        None
    } else if eq_ascii_ci(list[0], p) {
        Some(list[0])
    } else {
        first_ci_match(list.drop_first(), p)
    }
}

/// The shared path that equals `p` up to ASCII case, if any.
pub open spec fn common_match(p: Seq<char>) -> Option<Seq<char>> {
    first_ci_match(common_paths(), p)
}

/// The shared paths.
fn common_path_table() -> (r: [&'static str; 64])
    ensures
        str_views(r@) == common_paths(),
{
    let r: [&'static str; 64] = [
        "C:\\Windows\\System32\\kernel32.dll",
        "C:\\Windows\\System32\\ntdll.dll",
        "C:\\Windows\\System32\\msvcrt.dll",
        "C:\\Windows\\System32\\advapi32.dll",
        "C:\\Windows\\System32\\user32.dll",
        "C:\\Windows\\System32\\gdi32.dll",
        "C:\\Windows\\System32\\ws2_32.dll",
        "C:\\Windows\\System32\\shell32.dll",
        "C:\\Windows\\System32\\ole32.dll",
        "C:\\Windows\\System32\\oleaut32.dll",
        "C:\\Windows\\System32\\comctl32.dll",
        "C:\\Windows\\System32\\comdlg32.dll",
        "C:\\Windows\\System32\\winmm.dll",
        "C:\\Windows\\System32\\shlwapi.dll",
        "C:\\Windows\\System32\\urlmon.dll",
        "C:\\Windows\\System32\\wininet.dll",
        "C:\\Windows\\System32\\msi.dll",
        "C:\\Windows\\System32\\crypt32.dll",
        "C:\\Windows\\System32\\cryptbase.dll",
        "C:\\Windows\\System32\\cryptnet.dll",
        "C:\\Windows\\System32\\ncrypt.dll",
        "C:\\Windows\\System32\\bcryptprimitives.dll",
        "C:\\Windows\\System32\\secur32.dll",
        "C:\\Windows\\System32\\sspicli.dll",
        "C:\\Windows\\System32\\ntsecapi.dll",
        "C:\\Windows\\System32\\wlanapi.dll",
        "C:\\Windows\\System32\\netapi32.dll",
        "C:\\Windows\\System32\\iphlpapi.dll",
        "C:\\Windows\\System32\\dnsapi.dll",
        "C:\\Windows\\System32\\nsi.dll",
        "C:\\Windows\\System32\\setupapi.dll",
        "C:\\Windows\\System32\\cfgmgr32.dll",
        "C:\\Windows\\System32\\regapi.dll",
        "C:\\Windows\\System32\\opengl32.dll",
        "C:\\Windows\\System32\\services.exe",
        "C:\\Windows\\System32\\lsass.exe",
        "C:\\Windows\\System32\\csrss.exe",
        "C:\\Windows\\System32\\svchost.exe",
        "C:\\Windows\\System32\\rundll32.exe",
        "C:\\Windows\\System32\\cmd.exe",
        "C:\\Windows\\System32\\notepad.exe",
        "C:\\Windows\\System32\\regedit.exe",
        "C:\\Windows\\System32\\conhost.exe",
        "C:\\Windows\\SysWOW64\\kernel32.dll",
        "C:\\Windows\\SysWOW64\\ntdll.dll",
        "C:\\Windows\\SysWOW64\\msvcrt.dll",
        "C:\\Windows\\SysWOW64\\advapi32.dll",
        "C:\\Windows\\SysWOW64\\user32.dll",
        "C:\\Windows\\SysWOW64\\gdi32.dll",
        "C:\\Windows\\SysWOW64\\ws2_32.dll",
        "C:\\Windows\\SysWOW64\\shell32.dll",
        "C:\\Windows\\SysWOW64\\ole32.dll",
        "C:\\Windows\\SysWOW64\\oleaut32.dll",
        "C:\\Windows\\SysWOW64\\comctl32.dll",
        "C:\\Windows\\SysWOW64\\comdlg32.dll",
        "C:\\Windows\\SysWOW64\\crypt32.dll",
        "C:\\Windows\\SysWOW64\\cryptbase.dll",
        "C:\\Windows\\SysWOW64\\secur32.dll",
        "C:\\Windows\\SysWOW64\\setupapi.dll",
        "C:\\Program Files\\",
        "C:\\Program Files (x86)\\",
        "C:\\Windows\\",
        "C:\\Windows\\System32\\",
        "C:\\Windows\\SysWOW64\\"
    ];
    assert(str_views(r@) =~= common_paths());
    r
}

/// Finds the shared path equal to `path` up to ASCII case.
fn find_cached_str(path: &str) -> (r: Option<&'static str>)
    ensures
        match (r, common_match(path@)) {
            (None, None) => true,
            (Some(s), Some(t)) => s@ == t,
            _ => false,
        },
{
    let table = common_path_table();
    let ghost views = str_views(table@);
    let mut i: usize = 0;
    assert(views.subrange(0, 64) == views);
    while i < 64
        invariant
            i <= 64,
            views == str_views(table@),
            views == common_paths(),
            table@.len() == 64,
            common_match(path@) == first_ci_match(views.subrange(i as int, 64 as int), path@),
        decreases 64 - i,
    {
        let ghost rest = views.subrange(i as int, 64 as int);
        assert(rest.drop_first() == views.subrange(i + 1, 64 as int));
        if str_eq_ascii_ci(table[i], path) {
            return Some(table[i]);
        }
        i = i + 1;
    }
    assert(views.subrange(64 as int, 64 as int) =~= Seq::<Seq<char>>::empty());
    None
}

/// Image path of an executable or a library: a shared entry of the common
/// paths, or an owned copy.
#[derive(Debug, Clone)]
pub enum ImagePath {
    /// Reference to a shared path.
    Cached(&'static str),
    /// Owned path.
    Owned(String),
}

/// The text after the last backslash (all of it when there is none).
pub open spec fn file_name_spec(t: Seq<char>) -> Seq<char>
    decreases t.len(),
{
    if t.len() == 0 {
        t
    } else if t.last() == '\\' {
        Seq::empty()
    } else {
        file_name_spec(t.drop_last()).push(t.last())
    }
}

/// `r` holds the shared entry matching `lookup`, else an owned `text`.
pub open spec fn resolves_to(lookup: Seq<char>, text: Seq<char>, r: ImagePath) -> bool {
    match common_match(lookup) {
        Some(e) => r matches ImagePath::Cached(s) && s@ == e,
        None => r matches ImagePath::Owned(s) && s@ == text,
    }
}

/// The image path for a text: the shared entry equal to it up to ASCII
/// case, else an owned copy of it.
fn resolve(lookup: &str, text: &str) -> (r: ImagePath)
    ensures
        resolves_to(lookup@, text@, r),
{
    match find_cached_str(lookup) {
        Some(s) => ImagePath::Cached(s),
        None => ImagePath::Owned(str_to_string(text)),
    }
}

/// The text with every trailing NUL removed.
fn trim_nuls(s: &str) -> (r: String)
    ensures
        r@ == trim_trailing_nul(s@),
{
    let cs = chars_of(s);
    let t = trim_nul_end(cs.as_slice());
    string_from_chars(t.as_slice())
}

impl ImagePath {
    /// The text of the path.
    pub open spec fn text(&self) -> Seq<char> {
        match self {
            ImagePath::Cached(s) => s@,
            ImagePath::Owned(s) => s@,
        }
    }

    /// Create an image path, sharing a common entry when one matches.
    pub fn new(path: &str) -> (r: Self)
        ensures
            resolves_to(path@, path@, r),
    {
        resolve(path, path)
    }

    /// Create an image path from text with trailing NULs removed, sharing a
    /// common entry when one matches.
    pub fn from_str(path: &str) -> (r: Self)
        ensures
            resolves_to(trim_trailing_nul(path@), trim_trailing_nul(path@), r),
    {
        let t = trim_nuls(path);
        resolve(t.as_str(), t.as_str())
    }

    /// Create an image path from UTF-16 units: decoded with unpaired
    /// surrogates replaced, trailing NULs removed, and the lowercase form
    /// looked up among the common entries.
    pub fn from_utf16(utf16_data: &[u16]) -> (r: Self)
        ensures
            ({
                let t = trim_trailing_nul(utf16_decode(utf16_data@, true));
                resolves_to(unicode_lowercase(t), t, r)
            }),
    {
        let decoded = decode_utf16(utf16_data, true);
        let t = trim_nuls(decoded.as_str());
        let lower = to_unicode_lowercase(t.as_str());
        resolve(lower.as_str(), t.as_str())
    }

    /// Create an image path from UTF-8 bytes with trailing NULs removed;
    /// `None` when the bytes are not valid UTF-8.
    pub fn from_utf8(utf8_data: &[u8]) -> (r: Option<Self>)
        ensures
            r is Some <==> valid_utf8(utf8_data@),
            r matches Some(p) ==> ({
                let t = trim_trailing_nul(decode_utf8(utf8_data@));
                resolves_to(t, t, p)
            }),
    {
        let mut bytes: Vec<u8> = Vec::new();
        let mut i: usize = 0;
        while i < utf8_data.len()
            invariant
                i <= utf8_data@.len(),
                bytes@ == utf8_data@.subrange(0, i as int),
            decreases utf8_data@.len() - i,
        {
            bytes.push(utf8_data[i]);
            i = i + 1;
        }
        assert(utf8_data@.subrange(0, utf8_data@.len() as int) == utf8_data@);
        match string_from_utf8(bytes) {
            Some(s) => {
                let t = trim_nuls(s.as_str());
                Some(resolve(t.as_str(), t.as_str()))
            },
            None => None,
        }
    }

    /// Get the path as a string slice.
    pub fn as_str(&self) -> (r: &str)
        ensures
            r@ == self.text(),
    {
        match self {
            ImagePath::Cached(s) => s,
            ImagePath::Owned(s) => s.as_str(),
        }
    }

    /// Renders the path.
    pub fn to_string(&self) -> (r: String)
        ensures
            r@ == self.text(),
    {
        str_to_string(self.as_str())
    }

    /// Whether the path equals `other` up to ASCII case.
    pub fn eq_case_insensitive(&self, other: &str) -> (r: bool)
        ensures
            r == eq_ascii_ci(self.text(), other@),
    {
        str_eq_ascii_ci(self.as_str(), other)
    }

    /// Whether the lowercase path contains the lowercase `needle`.
    pub fn contains_case_insensitive(&self, needle: &str) -> (r: bool)
        ensures
            r == contains_seq(unicode_lowercase(self.text()), unicode_lowercase(needle@)),
    {
        let hay = to_unicode_lowercase(self.as_str());
        let pat = to_unicode_lowercase(needle);
        let hc = chars_of(hay.as_str());
        let pc = chars_of(pat.as_str());
        chars_contain(hc.as_slice(), pc.as_slice())
    }

    /// Whether the lowercase path ends with the lowercase `suffix`.
    pub fn ends_with_case_insensitive(&self, suffix: &str) -> (r: bool)
        ensures
            r == ends_with_seq(unicode_lowercase(self.text()), unicode_lowercase(suffix@)),
    {
        let hay = to_unicode_lowercase(self.as_str());
        let pat = to_unicode_lowercase(suffix);
        let hc = chars_of(hay.as_str());
        let pc = chars_of(pat.as_str());
        if pc.len() > hc.len() {
            return false;
        }
        let n = hc.len();
        let start = n - pc.len();
        let mut i: usize = 0;
        while i < pc.len()
            invariant
                n == hc@.len(),
                hc@ == unicode_lowercase(self.text()),
                pc@ == unicode_lowercase(suffix@),
                pc@.len() <= hc@.len(),
                start == hc@.len() - pc@.len(),
                i <= pc@.len(),
                forall|k: int| 0 <= k < i ==> hc@[start + k] == pc@[k],
            decreases pc@.len() - i,
        {
            if hc[start + i] != pc[i] {
                assert(hc@.subrange(start as int, start + pc@.len())[i as int] != pc@[i as int]);
                assert(hc@.subrange(start as int, start + pc@.len()) != pc@);
                return false;
            }
            i = i + 1;
        }
        assert(hc@.subrange(start as int, hc@.len() as int) =~= pc@);
        true
    }

    /// Whether the lowercase path lies under a `\windows\` or `\winnt\` directory.
    pub fn is_system_path(&self) -> (r: bool)
        ensures
            r == (contains_seq(unicode_lowercase(self.text()), "\\windows\\"@) || contains_seq(
                unicode_lowercase(self.text()),
                "\\winnt\\"@,
            )),
    {
        let lower = to_unicode_lowercase(self.as_str());
        let hc = chars_of(lower.as_str());
        let a = chars_of("\\windows\\");
        let b = chars_of("\\winnt\\");
        chars_contain(hc.as_slice(), a.as_slice()) || chars_contain(hc.as_slice(), b.as_slice())
    }

    /// Whether this is a 32-bit module under `\SysWOW64\`.
    pub fn is_wow64(&self) -> (r: bool)
        ensures
            r == contains_seq(unicode_lowercase(self.text()), unicode_lowercase("\\SysWOW64\\"@)),
    {
        self.contains_case_insensitive("\\SysWOW64\\")
    }

    /// The file name: the text after the last backslash.
    pub fn file_name(&self) -> (r: String)
        ensures
            r@ == file_name_spec(self.text()),
    {
        let cs = chars_of(self.as_str());
        let mut start: usize = cs.len();
        assert(cs@.subrange(0, start as int) == cs@);
        assert(cs@.subrange(start as int, start as int) =~= Seq::<char>::empty());
        assert(file_name_spec(cs@) + Seq::<char>::empty() == file_name_spec(cs@));
        while start > 0 && cs[start - 1] != '\\'
            invariant
                start <= cs@.len(),
                file_name_spec(cs@) == file_name_spec(cs@.subrange(0, start as int)) + cs@.subrange(
                    start as int,
                    cs@.len() as int,
                ),
            decreases start,
        {
            let ghost pre = cs@.subrange(0, start as int);
            assert(pre.drop_last() == cs@.subrange(0, start - 1));
            assert(cs@.subrange(start - 1, cs@.len() as int) == seq![cs@[start - 1]] + cs@.subrange(
                start as int,
                cs@.len() as int,
            ));
            assert(file_name_spec(pre) == file_name_spec(pre.drop_last()).push(pre.last()));
            assert(file_name_spec(pre.drop_last()).push(pre.last()) + cs@.subrange(start as int, cs@.len() as int)
                == file_name_spec(cs@.subrange(0, start - 1)) + (seq![cs@[start - 1]] + cs@.subrange(
                start as int,
                cs@.len() as int,
            )));
            start = start - 1;
        }
        assert(file_name_spec(cs@.subrange(0, start as int)) == Seq::<char>::empty());
        let mut out = String::new();
        let mut i: usize = start;
        while i < cs.len()
            invariant
                start <= i <= cs@.len(),
                out@ == cs@.subrange(start as int, i as int),
            decreases cs@.len() - i,
        {
            crate::text::push_char(&mut out, cs[i]);
            i = i + 1;
        }
        assert(Seq::<char>::empty() + cs@.subrange(start as int, cs@.len() as int) == cs@.subrange(
            start as int,
            cs@.len() as int,
        ));
        out
    }

    /// Add a path to the shared entries: the shared entries are fixed, so
    /// this has no effect.
    pub fn cache_path(_path: &'static str) {
    }

    /// Whether the path is a shared entry.
    pub fn is_cached(&self) -> (r: bool)
        ensures
            r == (self is Cached),
    {
        match self {
            ImagePath::Cached(_) => true,
            ImagePath::Owned(_) => false,
        }
    }
}

impl PartialEq for ImagePath {
    fn eq(&self, other: &Self) -> (r: bool) {
        self.eq_case_insensitive(other.as_str())
    }
}

impl PartialEqSpecImpl for ImagePath {
    open spec fn obeys_eq_spec() -> bool {
        true
    }

    open spec fn eq_spec(&self, other: &Self) -> bool {
        eq_ascii_ci(self.text(), other.text())
    }
}

impl PartialEq<str> for ImagePath {
    fn eq(&self, other: &str) -> (r: bool) {
        self.eq_case_insensitive(other)
    }
}

impl PartialEqSpecImpl<str> for ImagePath {
    open spec fn obeys_eq_spec() -> bool {
        true
    }

    open spec fn eq_spec(&self, other: &str) -> bool {
        eq_ascii_ci(self.text(), other@)
    }
}

/// Process access rights.
#[derive(Debug, Clone, Copy, PartialEq, Eq, Structural)]
pub enum ProcessAccess {
    /// Query basic information.
    QueryInformation,
    /// Query limited information.
    QueryLimitedInformation,
    /// Read process memory.
    VmRead,
    /// Write process memory.
    VmWrite,
    /// Terminate the process.
    Terminate,
    /// Create threads.
    CreateThread,
    /// All access rights.
    AllAccess,
    /// Custom access rights.
    Custom(u32),
}

/// `SYNCHRONIZE`, added to each specific right so that the handle can be waited on.
pub const PROCESS_SYNCHRONIZE: u32 = 0x0010_0000;
/// `PROCESS_QUERY_INFORMATION`.
pub const PROCESS_QUERY_INFORMATION: u32 = 0x0400;
/// `PROCESS_QUERY_LIMITED_INFORMATION`.
pub const PROCESS_QUERY_LIMITED_INFORMATION: u32 = 0x1000;
/// `PROCESS_VM_READ`.
pub const PROCESS_VM_READ: u32 = 0x0010;
/// `PROCESS_VM_WRITE`.
pub const PROCESS_VM_WRITE: u32 = 0x0020;
/// `PROCESS_TERMINATE`.
pub const PROCESS_TERMINATE: u32 = 0x0001;
/// `PROCESS_CREATE_THREAD`.
pub const PROCESS_CREATE_THREAD: u32 = 0x0002;
/// `PROCESS_ALL_ACCESS`.
pub const PROCESS_ALL_ACCESS: u32 = 0x001F_FFFF;

impl ProcessAccess {
    /// The access mask of a right.
    pub open spec fn mask(self) -> u32 {
        match self {
            ProcessAccess::QueryInformation => PROCESS_QUERY_INFORMATION | PROCESS_SYNCHRONIZE,
            ProcessAccess::QueryLimitedInformation => PROCESS_QUERY_LIMITED_INFORMATION | PROCESS_SYNCHRONIZE,
            ProcessAccess::VmRead => PROCESS_VM_READ | PROCESS_SYNCHRONIZE,
            ProcessAccess::VmWrite => PROCESS_VM_WRITE | PROCESS_SYNCHRONIZE,
            ProcessAccess::Terminate => PROCESS_TERMINATE | PROCESS_SYNCHRONIZE,
            ProcessAccess::CreateThread => PROCESS_CREATE_THREAD | PROCESS_SYNCHRONIZE,
            ProcessAccess::AllAccess => PROCESS_ALL_ACCESS,
            ProcessAccess::Custom(rights) => rights,
        }
    }

    /// The Windows access mask to open a process with.
    pub fn to_windows(self) -> (r: u32)
        ensures
            r == self.mask(),
    {
        match self {
            ProcessAccess::QueryInformation => PROCESS_QUERY_INFORMATION | PROCESS_SYNCHRONIZE,
            ProcessAccess::QueryLimitedInformation => PROCESS_QUERY_LIMITED_INFORMATION | PROCESS_SYNCHRONIZE,
            ProcessAccess::VmRead => PROCESS_VM_READ | PROCESS_SYNCHRONIZE,
            ProcessAccess::VmWrite => PROCESS_VM_WRITE | PROCESS_SYNCHRONIZE,
            ProcessAccess::Terminate => PROCESS_TERMINATE | PROCESS_SYNCHRONIZE,
            ProcessAccess::CreateThread => PROCESS_CREATE_THREAD | PROCESS_SYNCHRONIZE,
            ProcessAccess::AllAccess => PROCESS_ALL_ACCESS,
            ProcessAccess::Custom(rights) => rights,
        }
    }
}

/// Basic process information.
#[derive(Debug, Clone)]
pub struct ProcessInfo {
    /// Process ID.
    pub pid: ProcessId,
    /// Parent process ID.
    pub parent_pid: Option<ProcessId>,
    /// Process name (executable file name).
    pub name: String,
    /// Number of threads.
    pub thread_count: u32,
}

/// Thread information.
#[derive(Debug, Clone)]
pub struct ThreadInfo {
    /// Thread ID.
    pub tid: ThreadId,
    /// Owning process ID.
    pub pid: ProcessId,
    /// Base priority.
    pub base_priority: i32,
}

/// Module (DLL) information.
#[derive(Debug, Clone)]
pub struct ModuleInfo {
    /// Module name (e.g., "kernel32.dll").
    pub name: String,
    /// Full path to the module.
    pub path: ImagePath,
    /// Base address in process memory.
    pub base_address: usize,
    /// Module size in bytes.
    pub size: u32,
}

/// Process parameters from the process environment block.
#[derive(Debug, Clone)]
pub struct ProcessParameters {
    /// Command line.
    pub command_line: String,
    /// Current directory.
    pub current_directory: String,
    /// Image path.
    pub image_path: ImagePath,
}

/// Memory usage information.
#[derive(Debug, Clone, Copy)]
pub struct MemoryInfo {
    /// Working set size in bytes.
    pub working_set: usize,
    /// Peak working set size in bytes.
    pub peak_working_set: usize,
    /// Page fault count.
    pub page_fault_count: u32,
}

/// Process CPU time counters, cumulative from process start, in 100-nanosecond units.
#[derive(Debug, Clone, Copy, Default)]
pub struct ProcessCpuTimes {
    /// Cumulative time spent in user mode.
    pub user_time_100ns: u64,
    /// Cumulative time spent in kernel mode.
    pub kernel_time_100ns: u64,
    /// Sum of user and kernel times.
    pub total_time_100ns: u64,
}

/// Extended process memory metrics.
#[derive(Debug, Clone, Copy, Default)]
pub struct ProcessMemoryMetrics {
    /// Working set size in bytes.
    pub working_set_bytes: usize,
    /// Peak working set size in bytes.
    pub peak_working_set_bytes: usize,
    /// Page fault count.
    pub page_fault_count: u32,
    /// Private memory usage in bytes.
    pub private_usage_bytes: usize,
    /// Commit charge (pagefile usage) in bytes.
    pub commit_usage_bytes: usize,
    /// Peak commit charge in bytes.
    pub peak_commit_usage_bytes: usize,
}

/// Point-in-time metrics for a process.
#[derive(Debug, Clone, Copy, Default)]
pub struct ProcessMetrics {
    /// Memory metrics.
    pub memory: ProcessMemoryMetrics,
    /// CPU time counters.
    pub cpu: ProcessCpuTimes,
}

/// Point-in-time memory metrics for the host.
#[derive(Debug, Clone, Copy, Default)]
pub struct HostMemoryMetrics {
    /// Total visible physical memory in bytes.
    pub total_physical_bytes: u64,
    /// Available physical memory in bytes.
    pub available_physical_bytes: u64,
    /// Total virtual memory available to the process in bytes.
    pub total_virtual_bytes: u64,
    /// Available virtual memory in bytes.
    pub available_virtual_bytes: u64,
    /// Percentage of physical memory in use.
    pub memory_load_percent: u32,
}

/// Point-in-time metrics for the host.
#[derive(Debug, Clone, Copy, Default)]
pub struct HostMetrics {
    /// Number of logical processors visible to the current process.
    pub logical_cpu_count: u32,
    /// Host memory metrics.
    pub memory: HostMemoryMetrics,
}

} // verus!
