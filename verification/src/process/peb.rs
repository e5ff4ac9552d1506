//! Reading a process's parameters out of its Process Environment Block: the
//! 64-bit layouts the addresses are taken from, and the decoding of what is
//! read from the process's memory.

use vstd::prelude::*;

use crate::bytes::{copy_range, le2, le8, read_u16_le, read_u64_le};
use crate::pairs::{insert_pair, keys_distinct, lemma_pairs_insert, pairs_insert, pairs_view};
use crate::process::types::{ImagePath, ProcessParameters, resolves_to};
use crate::registry::values::{units_from_bytes, units_of};
use crate::text::{
    decode_utf16, index_of_char, str_to_string, string_from_chars, trim_trailing_nul, utf16_decode,
    chars_of, chars_range, find_char,
};

verus! {

/// `UNICODE_STRING`: a counted UTF-16 string in another process, its buffer
/// given by address.
#[allow(non_camel_case_types)]
pub struct UNICODE_STRING {
    pub length: u16,
    pub maximum_length: u16,
    pub buffer: usize,
}

/// The leading part of `RTL_USER_PROCESS_PARAMETERS` up to the field this
/// crate reads the environment address from, addresses given as integers.
#[allow(non_camel_case_types)]
pub struct RTL_USER_PROCESS_PARAMETERS_PARTIAL {
    pub reserved1: [u8; 32],
    pub flags: u32,
    pub reserved2: [u8; 8],
    pub stdin: usize,
    pub stdout: usize,
    pub stderr: usize,
    pub image_path_name: UNICODE_STRING,
    pub command_line: UNICODE_STRING,
    pub environment: usize,
}

/// Bytes of `PROCESS_BASIC_INFORMATION`.
pub const PROCESS_BASIC_INFORMATION_SIZE: usize = 48;
/// Bytes of `RTL_USER_PROCESS_PARAMETERS` as read from the process.
pub const RTL_USER_PROCESS_PARAMETERS_SIZE: usize = 128;
/// Bytes of environment read from the process at most.
pub const ENVIRONMENT_READ_SIZE: usize = 65536;
/// Where `PebBaseAddress` lies in `PROCESS_BASIC_INFORMATION`.
pub const PEB_BASE_ADDRESS_OFFSET: usize = 8;
/// Where `ProcessParameters` lies in the PEB.
pub const PROCESS_PARAMETERS_OFFSET: usize = 0x20;
/// Where `ImagePathName` lies in `RTL_USER_PROCESS_PARAMETERS`.
pub const IMAGE_PATH_NAME_OFFSET: usize = 0x60;
/// Where `CommandLine` lies in `RTL_USER_PROCESS_PARAMETERS`.
pub const COMMAND_LINE_OFFSET: usize = 0x70;
/// Where [`RTL_USER_PROCESS_PARAMETERS_PARTIAL`] places `environment`.
pub const PARTIAL_ENVIRONMENT_OFFSET: usize = 0x68;

/// The PEB address in a `PROCESS_BASIC_INFORMATION` read.
pub fn peb_base_address(info: &[u8]) -> (r: u64)
    requires
        PEB_BASE_ADDRESS_OFFSET + 8 <= info@.len(),
    ensures
        r as nat == le8(info@, PEB_BASE_ADDRESS_OFFSET as int),
{
    read_u64_le(info, PEB_BASE_ADDRESS_OFFSET)
}

/// The `RTL_USER_PROCESS_PARAMETERS` address in a PEB read.
pub fn process_parameters_address(peb: &[u8]) -> (r: u64)
    requires
        PROCESS_PARAMETERS_OFFSET + 8 <= peb@.len(),
    ensures
        r as nat == le8(peb@, PROCESS_PARAMETERS_OFFSET as int),
{
    read_u64_le(peb, PROCESS_PARAMETERS_OFFSET)
}

/// Where a counted string lies in another process: its length in bytes and
/// the address of its buffer.
#[derive(Debug, Clone, Copy, PartialEq, Eq, Structural)]
pub struct StringLocation {
    pub length: u16,
    pub address: u64,
}

/// The `UNICODE_STRING` at `offset` of a read block.
pub fn unicode_string_at(block: &[u8], offset: usize) -> (r: StringLocation)
    requires
        offset + 16 <= block@.len(),
    ensures
        r.length as nat == le2(block@, offset as int),
        r.address as nat == le8(block@, offset + 8),
{
    let n = block.len();
    assert(offset + 8 < n);
    StringLocation { length: read_u16_le(block, offset), address: read_u64_le(block, offset + 8) }
}

/// The command line's location in a parameters read.
pub fn command_line_location(params: &[u8]) -> (r: StringLocation)
    requires
        RTL_USER_PROCESS_PARAMETERS_SIZE <= params@.len(),
    ensures
        r.length as nat == le2(params@, COMMAND_LINE_OFFSET as int),
        r.address as nat == le8(params@, COMMAND_LINE_OFFSET + 8),
{
    unicode_string_at(params, COMMAND_LINE_OFFSET)
}

/// The image path's location in a parameters read.
pub fn image_path_location(params: &[u8]) -> (r: StringLocation)
    requires
        RTL_USER_PROCESS_PARAMETERS_SIZE <= params@.len(),
    ensures
        r.length as nat == le2(params@, IMAGE_PATH_NAME_OFFSET as int),
        r.address as nat == le8(params@, IMAGE_PATH_NAME_OFFSET + 8),
{
    unicode_string_at(params, IMAGE_PATH_NAME_OFFSET)
}

/// The environment block address in a parameters read, where
/// [`RTL_USER_PROCESS_PARAMETERS_PARTIAL`] places it.
pub fn environment_address(params: &[u8]) -> (r: u64)
    requires
        PARTIAL_ENVIRONMENT_OFFSET + 8 <= params@.len(),
    ensures
        r as nat == le8(params@, PARTIAL_ENVIRONMENT_OFFSET as int),
{
    read_u64_le(params, PARTIAL_ENVIRONMENT_OFFSET)
}

/// Whether a counted string has anything to read: an address and a length.
pub fn string_needs_read(loc: StringLocation) -> (r: bool)
    ensures
        r == (loc.address != 0 && loc.length != 0),
{
    loc.address != 0 && loc.length != 0
}

/// The units before the first NUL, or all of them.
pub open spec fn before_nul(u: Seq<u16>) -> Seq<u16>
    decreases u.len(),
{
    if u.len() == 0 {
        u
    } else if u[0] == 0 {
        Seq::empty()
    } else {
        seq![u[0]] + before_nul(u.drop_first())
    }
}

/// The text of a counted string whose first `bytes_read` bytes were read:
/// the UTF-16 units up to the first NUL, unpaired surrogates as U+FFFD.
pub open spec fn unicode_string_text(data: Seq<u8>, bytes_read: nat) -> Seq<char> {
    utf16_decode(before_nul(units_of(data.subrange(0, bytes_read as int))), true)
}

/// Decodes a counted string read from another process; see
/// [`unicode_string_text`].
pub fn read_unicode_string_text(data: &[u8], bytes_read: usize) -> (r: String)
    requires
        bytes_read <= data@.len(),
    ensures
        r@ == unicode_string_text(data@, bytes_read as nat),
{
    let read = copy_range(data, 0, bytes_read);
    let units = units_from_bytes(read.as_slice());
    let ghost u = units@;
    let mut end: usize = 0;
    while end < units.len() && units[end] != 0
        invariant
            u == units@,
            end <= u.len(),
            forall|k: int| 0 <= k < end ==> u[k] != 0,
        decreases units.len() - end,
    {
        end = end + 1;
    }
    proof {
        lemma_before_nul(u, end as int);
    }
    let mut head: Vec<u16> = Vec::new();
    let mut i: usize = 0;
    while i < end
        invariant
            u == units@,
            i <= end <= u.len(),
            head@ == u.subrange(0, i as int),
        decreases end - i,
    {
        head.push(units[i]);
        i = i + 1;
    }
    decode_utf16(head.as_slice(), true)
}

/// The units before the first NUL are those up to the first zero at `end`.
pub proof fn lemma_before_nul(u: Seq<u16>, end: int)
    requires
        0 <= end <= u.len(),
        forall|k: int| 0 <= k < end ==> u[k] != 0,
        end == u.len() || u[end] == 0,
    ensures
        before_nul(u) == u.subrange(0, end),
    decreases u.len(),
{
    if u.len() > 0 && u[0] != 0 {
        assert forall|k: int| 0 <= k < end - 1 implies u.drop_first()[k] != 0 by {
            assert(u.drop_first()[k] == u[k + 1]);
        }
        lemma_before_nul(u.drop_first(), end - 1);
        assert(seq![u[0]] + u.drop_first().subrange(0, end - 1) =~= u.subrange(0, end));
    } else if u.len() > 0 {
        assert(end == 0);
    }
}

/// The first zero unit at or after `i`, or the end.
pub open spec fn next_nul(u: Seq<u16>, i: int) -> int
    decreases u.len() - i,
{
    if i >= u.len() || u[i] == 0 {
        i
    } else {
        next_nul(u, i + 1)
    }
}

/// The next zero is at or after where the search starts.
pub proof fn lemma_next_nul_bounds(u: Seq<u16>, i: int)
    requires
        0 <= i,
    ensures
        i <= next_nul(u, i),
        i <= u.len() ==> next_nul(u, i) <= u.len(),
    decreases u.len() - i,
{
    if !(i >= u.len() || u[i] == 0) {
        lemma_next_nul_bounds(u, i + 1);
    }
}

/// What an environment entry adds: `KEY=VALUE` split at the first `=` sets
/// the key; an entry without `=` adds nothing.
pub open spec fn env_entry_insert(m: Seq<(Seq<char>, Seq<char>)>, text: Seq<char>) -> Seq<
    (Seq<char>, Seq<char>),
> {
    let i = index_of_char(text, '=');
    if i >= 0 {
        pairs_insert(m, text.subrange(0, i), text.subrange(i + 1, text.len() as int))
    } else {
        m
    }
}

/// The variables of an environment block from unit `pos` on: entries end
/// at a NUL, an empty entry ends the block, each entry's text has unpaired
/// surrogates as U+FFFD, and a later entry for a key replaces the value.
pub open spec fn env_parse(u: Seq<u16>, pos: int, m: Seq<(Seq<char>, Seq<char>)>) -> Seq<
    (Seq<char>, Seq<char>),
>
    decreases u.len() - pos,
{
    if pos < 0 || pos >= u.len() {
        m
    } else {
        let end = next_nul(u, pos);
        if end <= pos {
            m
        } else {
            proof {
                lemma_next_nul_bounds(u, pos);
            }
            let m2 = env_entry_insert(m, utf16_decode(u.subrange(pos, end), true));
            if end >= u.len() {
                m2
            } else {
                env_parse(u, end + 1, m2)
            }
        }
    }
}

/// An environment block gives each variable once.
pub proof fn lemma_env_parse_keys_distinct(u: Seq<u16>, pos: int, m: Seq<(Seq<char>, Seq<char>)>)
    requires
        keys_distinct(m),
    ensures
        keys_distinct(env_parse(u, pos, m)),
    decreases u.len() - pos,
{
    if !(pos < 0 || pos >= u.len()) {
        let end = next_nul(u, pos);
        if end > pos {
            lemma_next_nul_bounds(u, pos);
            let text = utf16_decode(u.subrange(pos, end), true);
            let i = index_of_char(text, '=');
            if i >= 0 {
                let k = text.subrange(0, i);
                lemma_pairs_insert(m, k, text.subrange(i + 1, text.len() as int), k);
            }
            let m2 = env_entry_insert(m, text);
            if end < u.len() {
                lemma_env_parse_keys_distinct(u, end + 1, m2);
            }
        }
    }
}

/// The variables of an environment block of which `bytes_read` bytes were read.
pub open spec fn environment_of(data: Seq<u8>, bytes_read: nat) -> Seq<(Seq<char>, Seq<char>)> {
    env_parse(units_of(data.subrange(0, bytes_read as int)), 0, Seq::empty())
}

/// Parses an environment block read from another process; see
/// [`environment_of`].
pub fn parse_environment_block(data: &[u8], bytes_read: usize) -> (r: Vec<(String, String)>)
    requires
        bytes_read <= data@.len(),
    ensures
        pairs_view(r@) == environment_of(data@, bytes_read as nat),
        keys_distinct(pairs_view(r@)),
{
    proof {
        lemma_env_parse_keys_distinct(units_of(data@.subrange(0, bytes_read as int)), 0, Seq::empty());
    }
    let read = copy_range(data, 0, bytes_read);
    let units = units_from_bytes(read.as_slice());
    let ghost u = units@;
    let mut vars: Vec<(String, String)> = Vec::new();
    let mut pos: usize = 0;
    assert(pairs_view(vars@) =~= Seq::<(Seq<char>, Seq<char>)>::empty());
    assert(u == units_of(data@.subrange(0, bytes_read as int)));
    while pos < units.len()
        invariant
            u == units@,
            u == units_of(data@.subrange(0, bytes_read as int)),
            pos <= u.len(),
            env_parse(u, 0, Seq::empty()) == env_parse(u, pos as int, pairs_view(vars@)),
            keys_distinct(env_parse(u, 0, Seq::empty())),
        decreases units.len() - pos,
    {
        let start = pos;
        let mut end: usize = pos;
        while end < units.len() && units[end] != 0
            invariant
                u == units@,
                start <= end <= u.len(),
                next_nul(u, start as int) == next_nul(u, end as int),
            decreases units.len() - end,
        {
            end = end + 1;
        }
        if end == start {
            return vars;
        }
        let mut entry: Vec<u16> = Vec::new();
        let mut i: usize = start;
        while i < end
            invariant
                u == units@,
                start <= i <= end <= u.len(),
                entry@ == u.subrange(start as int, i as int),
            decreases end - i,
        {
            entry.push(units[i]);
            i = i + 1;
        }
        let text = decode_utf16(entry.as_slice(), true);
        let cs = chars_of(text.as_str());
        let n = cs.len();
        match find_char(cs.as_slice(), '=') {
            Some(eq) => {
                let key = chars_range(cs.as_slice(), 0, eq);
                let value = chars_range(cs.as_slice(), eq + 1, n);
                insert_pair(&mut vars, string_from_chars(key.as_slice()), string_from_chars(value.as_slice()));
            },
            None => {},
        }
        if end >= units.len() {
            return vars;
        }
        pos = end + 1;
    }
    vars
}

/// The parameters of a process from its command line and image path text;
/// the current directory is not read.
pub fn process_parameters_from(command_line: String, image_path: &str) -> (r: ProcessParameters)
    ensures
        r.command_line@ == command_line@,
        r.current_directory@.len() == 0,
        resolves_to(trim_trailing_nul(image_path@), trim_trailing_nul(image_path@), r.image_path),
{
    ProcessParameters {
        command_line,
        current_directory: String::new(),
        image_path: ImagePath::from_str(image_path),
    }
}

} // verus!
