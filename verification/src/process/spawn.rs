//! Process spawning: the builder, the command line and creation flags it
//! leads to, and the reading of the profile directory out of an
//! environment block.

use vstd::prelude::*;

use crate::error::{Error, InvalidParameterError, ProcessError, ProcessSpawnError};
use crate::process::peb::next_nul;
use crate::text::{
    chars_of, join_strings, join_with, str_to_string, strings_view, trim_chars, trim_ws,
};
use crate::types::{ProcessId, ThreadId};

verus! {

/// `EXTENDED_STARTUPINFO_PRESENT`.
pub const EXTENDED_STARTUPINFO_PRESENT: u32 = 0x0008_0000;
/// `CREATE_DEFAULT_ERROR_MODE`.
pub const CREATE_DEFAULT_ERROR_MODE: u32 = 0x0400_0000;
/// `CREATE_NEW_CONSOLE`.
pub const CREATE_NEW_CONSOLE: u32 = 0x0000_0010;
/// `CREATE_SUSPENDED`.
pub const CREATE_SUSPENDED: u32 = 0x0000_0004;
/// `CREATE_UNICODE_ENVIRONMENT`.
pub const CREATE_UNICODE_ENVIRONMENT: u32 = 0x0000_0400;

/// The desktop a process launched under another user's token gets when
/// none is named.
pub open spec fn default_desktop() -> Seq<char> {
    "winsta0\\default"@
}

/// The command line of an executable and its arguments: the path in
/// quotes, then the arguments joined by spaces.
pub open spec fn command_line_text(exe: Seq<char>, args: Seq<Seq<char>>) -> Seq<char> {
    if args.len() == 0 {
        "\""@ + exe + "\""@
    } else {
        "\""@ + exe + "\" "@ + join_with(args, " "@)
    }
}

/// Builds the command line; see [`command_line_text`].
pub fn format_command_line(exe_path: &str, args: &[String]) -> (r: String)
    ensures
        r@ == command_line_text(exe_path@, strings_view(args@)),
{
    let mut s = str_to_string("\"");
    s.append(exe_path);
    if args.len() == 0 {
        s.append("\"");
    } else {
        s.append("\" ");
        let joined = join_strings(args, " ");
        s.append(joined.as_str());
    }
    s
}

/// The error of a failed step of spawning `command`.
pub fn spawn_error(command: &str, reason: &str, error_code: i32) -> (r: Error)
    ensures
        r matches Error::Process(ProcessError::SpawnFailed(e)) && e.command@ == command@
            && e.reason@ == reason@ && e.error_code == Some(error_code),
{
    Error::Process(ProcessError::SpawnFailed(ProcessSpawnError::with_code(command, reason, error_code)))
}

/// The reason given when a privilege could not be enabled.
pub fn privilege_not_assigned_reason(privilege_name: &str) -> (r: String)
    ensures
        r@ == "Privilege '"@ + privilege_name@ + "' was not assigned to current token"@,
{
    let mut s = str_to_string("Privilege '");
    s.append(privilege_name);
    s.append("' was not assigned to current token");
    s
}

/// The outcome of `ResumeThread`: its result is `u32::MAX` on failure, with
/// `error_code` the thread's last error.
pub fn resume_outcome(result: u32, error_code: i32) -> (r: Result<(), Error>)
    ensures
        result != u32::MAX ==> r is Ok,
        result == u32::MAX ==> (r matches Err(Error::Process(ProcessError::SpawnFailed(e)))
            && e.command@ == "<resume-thread>"@ && e.reason@
            == "Failed to resume spawned process thread"@ && e.error_code == Some(error_code)),
{
    if result == u32::MAX {
        return Err(spawn_error("<resume-thread>", "Failed to resume spawned process thread", error_code));
    }
    Ok(())
}

/// Builder for spawning processes with optional parent reparenting and token source.
#[derive(Debug, Clone)]
pub struct ProcessSpawner {
    exe_path: String,
    args: Vec<String>,
    parent_pid: Option<ProcessId>,
    token_source_pid: Option<ProcessId>,
    suspended: bool,
    desktop: Option<String>,
}

/// What a spawn does: the command line, the creation flags, the desktop,
/// the parent to reparent under, the process whose token to launch with,
/// and the privileges enabled first, in order.
pub struct SpawnPlan {
    pub command: String,
    pub creation_flags: u32,
    pub desktop: Option<String>,
    pub parent_pid: Option<ProcessId>,
    pub token_source_pid: Option<ProcessId>,
    pub privileges: Vec<String>,
}

impl ProcessSpawner {
    /// The executable path.
    pub closed spec fn spec_exe_path(&self) -> Seq<char> {
        self.exe_path@
    }

    /// The arguments.
    pub closed spec fn spec_args(&self) -> Seq<Seq<char>> {
        strings_view(self.args@)
    }

    /// The process to reparent under.
    pub closed spec fn spec_parent(&self) -> Option<ProcessId> {
        self.parent_pid
    }

    /// The process whose token to launch with.
    pub closed spec fn spec_token_source(&self) -> Option<ProcessId> {
        self.token_source_pid
    }

    /// Whether the process starts suspended.
    pub closed spec fn spec_suspended(&self) -> bool {
        self.suspended
    }

    /// The desktop named for the process.
    pub closed spec fn spec_desktop(&self) -> Option<Seq<char>> {
        match self.desktop {
            Some(d) => Some(d@),
            None => None,
        }
    }

    /// Create a new process spawner for an executable path.
    pub fn new(exe_path: &str) -> (r: Self)
        ensures
            r.spec_exe_path() == exe_path@,
            r.spec_args().len() == 0,
            r.spec_parent() is None,
            r.spec_token_source() is None,
            !r.spec_suspended(),
            r.spec_desktop() is None,
    {
        ProcessSpawner {
            exe_path: str_to_string(exe_path),
            args: Vec::new(),
            parent_pid: None,
            token_source_pid: None,
            suspended: false,
            desktop: None,
        }
    }

    /// Set command-line arguments for the spawned process.
    pub fn args(self, args: Vec<String>) -> (r: Self)
        ensures
            r.spec_args() == strings_view(args@),
            r.spec_exe_path() == self.spec_exe_path(),
            r.spec_parent() == self.spec_parent(),
            r.spec_token_source() == self.spec_token_source(),
            r.spec_suspended() == self.spec_suspended(),
            r.spec_desktop() == self.spec_desktop(),
    {
        ProcessSpawner { args, ..self }
    }

    /// Set the parent process for reparenting via process attributes.
    pub fn parent(self, pid: ProcessId) -> (r: Self)
        ensures
            r.spec_parent() == Some(pid),
            r.spec_args() == self.spec_args(),
            r.spec_exe_path() == self.spec_exe_path(),
            r.spec_token_source() == self.spec_token_source(),
            r.spec_suspended() == self.spec_suspended(),
            r.spec_desktop() == self.spec_desktop(),
    {
        ProcessSpawner { parent_pid: Some(pid), ..self }
    }

    /// Launch under a duplicated primary token from another process ID.
    pub fn as_user_of(self, pid: ProcessId) -> (r: Self)
        ensures
            r.spec_token_source() == Some(pid),
            r.spec_args() == self.spec_args(),
            r.spec_exe_path() == self.spec_exe_path(),
            r.spec_parent() == self.spec_parent(),
            r.spec_suspended() == self.spec_suspended(),
            r.spec_desktop() == self.spec_desktop(),
    {
        ProcessSpawner { token_source_pid: Some(pid), ..self }
    }

    /// Spawn the process in suspended state.
    pub fn suspended(self) -> (r: Self)
        ensures
            r.spec_suspended(),
            r.spec_args() == self.spec_args(),
            r.spec_exe_path() == self.spec_exe_path(),
            r.spec_parent() == self.spec_parent(),
            r.spec_token_source() == self.spec_token_source(),
            r.spec_desktop() == self.spec_desktop(),
    {
        ProcessSpawner { suspended: true, ..self }
    }

    /// Set an explicit desktop for process creation (e.g. "winsta0\\default").
    pub fn desktop(self, desktop: &str) -> (r: Self)
        ensures
            r.spec_desktop() == Some(desktop@),
            r.spec_args() == self.spec_args(),
            r.spec_exe_path() == self.spec_exe_path(),
            r.spec_parent() == self.spec_parent(),
            r.spec_token_source() == self.spec_token_source(),
            r.spec_suspended() == self.spec_suspended(),
    {
        ProcessSpawner { desktop: Some(str_to_string(desktop)), ..self }
    }

    /// What spawning does: an error where the executable path is blank;
    /// otherwise the quoted command line, the creation flags (suspended and
    /// a Unicode environment where asked for), the named desktop (or the
    /// default one when launching under another process's token), and the
    /// two privileges a token launch enables first.
    pub fn plan(&self) -> (r: Result<SpawnPlan, Error>)
        ensures
            trim_ws(self.spec_exe_path()).len() == 0 ==> (r matches Err(
                Error::InvalidParameter(e),
            ) && e.parameter@ == "exe_path"@ && e.reason@ == "Executable path cannot be empty"@),
            trim_ws(self.spec_exe_path()).len() > 0 ==> (r matches Ok(p) && p.command@
                == command_line_text(self.spec_exe_path(), self.spec_args()) && p.creation_flags
                == EXTENDED_STARTUPINFO_PRESENT | CREATE_DEFAULT_ERROR_MODE | CREATE_NEW_CONSOLE | (
            if self.spec_suspended() {
                CREATE_SUSPENDED
            } else {
                0
            }) | (if self.spec_token_source() is Some {
                CREATE_UNICODE_ENVIRONMENT
            } else {
                0
            }) && match p.desktop {
                Some(d) => d@ == match self.spec_desktop() {
                    Some(n) => n,
                    None => default_desktop(),
                } && (self.spec_desktop() is Some || self.spec_token_source() is Some),
                None => self.spec_desktop() is None && self.spec_token_source() is None,
            } && p.parent_pid == self.spec_parent() && p.token_source_pid
                == self.spec_token_source() && strings_view(p.privileges@) == if self.spec_token_source() is Some {
                seq!["SeAssignPrimaryTokenPrivilege"@, "SeIncreaseQuotaPrivilege"@]
            } else {
                Seq::empty()
            }),
    {
        let cs = chars_of(self.exe_path.as_str());
        if trim_chars(cs.as_slice()).len() == 0 {
            return Err(
                Error::InvalidParameter(
                    InvalidParameterError::new("exe_path", "Executable path cannot be empty"),
                ),
            );
        }
        let command = format_command_line(self.exe_path.as_str(), self.args.as_slice());
        let token = self.token_source_pid.is_some();
        let creation_flags: u32 = EXTENDED_STARTUPINFO_PRESENT | CREATE_DEFAULT_ERROR_MODE
            | CREATE_NEW_CONSOLE | (if self.suspended {
            CREATE_SUSPENDED
        } else {
            0
        }) | (if token {
            CREATE_UNICODE_ENVIRONMENT
        } else {
            0
        });
        let desktop = match &self.desktop {
            Some(d) => Some(str_to_string(d.as_str())),
            None => if token {
                Some(str_to_string("winsta0\\default"))
            } else {
                None
            },
        };
        let mut privileges: Vec<String> = Vec::new();
        if token {
            privileges.push(str_to_string("SeAssignPrimaryTokenPrivilege"));
            privileges.push(str_to_string("SeIncreaseQuotaPrivilege"));
        }
        assert(strings_view(privileges@) =~= if token {
            seq!["SeAssignPrimaryTokenPrivilege"@, "SeIncreaseQuotaPrivilege"@]
        } else {
            Seq::empty()
        });
        Ok(
            SpawnPlan {
                command,
                creation_flags,
                desktop,
                parent_pid: self.parent_pid,
                token_source_pid: self.token_source_pid,
                privileges,
            },
        )
    }
}

/// A spawned process: its IDs and its process and thread handles, held as
/// their raw values.
#[derive(Debug)]
pub struct SpawnedProcess {
    pid: ProcessId,
    thread_id: ThreadId,
    process: usize,
    thread: usize,
}

impl SpawnedProcess {
    /// The process ID.
    pub closed spec fn spec_pid(&self) -> ProcessId {
        self.pid
    }

    /// The primary thread ID.
    pub closed spec fn spec_thread_id(&self) -> ThreadId {
        self.thread_id
    }

    /// The process and thread handles.
    pub closed spec fn spec_handles(&self) -> (usize, usize) {
        (self.process, self.thread)
    }

    /// A spawned process from what process creation reported.
    pub fn from_raw(pid: ProcessId, thread_id: ThreadId, process: usize, thread: usize) -> (r: Self)
        ensures
            r.spec_pid() == pid,
            r.spec_thread_id() == thread_id,
            r.spec_handles() == (process, thread),
    {
        SpawnedProcess { pid, thread_id, process, thread }
    }

    /// Process ID for the newly spawned process.
    pub fn pid(&self) -> (r: ProcessId)
        ensures
            r == self.spec_pid(),
    {
        self.pid
    }

    /// Primary thread ID for the newly spawned process.
    pub fn thread_id(&self) -> (r: ThreadId)
        ensures
            r == self.spec_thread_id(),
    {
        self.thread_id
    }

    /// The raw process handle.
    pub fn process_handle(&self) -> (r: usize)
        ensures
            r == self.spec_handles().0,
    {
        self.process
    }

    /// The raw primary thread handle.
    pub fn thread_handle(&self) -> (r: usize)
        ensures
            r == self.spec_handles().1,
    {
        self.thread
    }
}

/// `USERPROFILE=` as UTF-16 code units.
pub open spec fn userprofile_prefix() -> Seq<u16> {
    seq![85u16, 83, 69, 82, 80, 82, 79, 70, 73, 76, 69, 61]
}

/// The profile directory in an environment block from unit `pos` on: the
/// value of the first entry that begins with `USERPROFILE=`, NUL-terminated;
/// none where the block ends first (an empty entry or the end of the units).
pub open spec fn userprofile_from(u: Seq<u16>, pos: int) -> Option<Seq<u16>>
    decreases u.len() - pos,
{
    if pos < 0 || pos >= u.len() || u[pos] == 0 {
        None
    } else {
        let end = next_nul(u, pos);
        let entry = u.subrange(pos, end);
        if entry.len() >= 12 && entry.subrange(0, 12) == userprofile_prefix() {
            Some(entry.subrange(12, entry.len() as int).push(0))
        } else if end >= u.len() {
            None
        } else {
            proof {
                crate::process::peb::lemma_next_nul_bounds(u, pos);
            }
            userprofile_from(u, end + 1)
        }
    }
}

/// Finds the profile directory in an environment block; see
/// [`userprofile_from`].
pub fn get_userprofile_from_env_block(block: &[u16]) -> (r: Option<Vec<u16>>)
    ensures
        match userprofile_from(block@, 0) {
            Some(v) => r matches Some(x) && x@ == v,
            None => r is None,
        },
{
    let ghost u = block@;
    let mut pos: usize = 0;
    while pos < block.len() && block[pos] != 0
        invariant
            u == block@,
            pos <= u.len(),
            userprofile_from(u, 0) == userprofile_from(u, pos as int),
        decreases block.len() - pos,
    {
        let start = pos;
        let mut end: usize = pos;
        while end < block.len() && block[end] != 0
            invariant
                u == block@,
                start <= end <= u.len(),
                next_nul(u, start as int) == next_nul(u, end as int),
            decreases block.len() - end,
        {
            end = end + 1;
        }
        if end - start >= 12 && block[start] == 85 && block[start + 1] == 83 && block[start + 2] == 69
            && block[start + 3] == 82 && block[start + 4] == 80 && block[start + 5] == 82 && block[start
            + 6] == 79 && block[start + 7] == 70 && block[start + 8] == 73 && block[start + 9] == 76
            && block[start + 10] == 69 && block[start + 11] == 61 {
            assert(u.subrange(start as int, end as int).subrange(0, 12) =~= userprofile_prefix());
            let mut out: Vec<u16> = Vec::new();
            let mut i: usize = start + 12;
            while i < end
                invariant
                    u == block@,
                    start + 12 <= i <= end <= u.len(),
                    out@ == u.subrange(start + 12, i as int),
                decreases end - i,
            {
                out.push(block[i]);
                i = i + 1;
            }
            out.push(0);
            assert(out@ =~= u.subrange(start as int, end as int).subrange(12, (end - start) as int).push(0));
            return Some(out);
        }
        proof {
            if end - start >= 12 {
                assert(u.subrange(start as int, end as int).subrange(0, 12) != userprofile_prefix()) by {
                    let e = u.subrange(start as int, end as int).subrange(0, 12);
                    if e == userprofile_prefix() {
                        assert(e[0] == block@[start as int]);
                        assert(e[1] == block@[start + 1]);
                        assert(e[2] == block@[start + 2]);
                        assert(e[3] == block@[start + 3]);
                        assert(e[4] == block@[start + 4]);
                        assert(e[5] == block@[start + 5]);
                        assert(e[6] == block@[start + 6]);
                        assert(e[7] == block@[start + 7]);
                        assert(e[8] == block@[start + 8]);
                        assert(e[9] == block@[start + 9]);
                        assert(e[10] == block@[start + 10]);
                        assert(e[11] == block@[start + 11]);
                    }
                }
            }
        }
        if end >= block.len() {
            return None;
        }
        pos = end + 1;
    }
    None
}

} // verus!
