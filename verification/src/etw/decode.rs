//! Direct decoders for the kernel process and image-load payloads.
//!
//! Pointer-sized payload fields are read as eight little-endian bytes, the
//! layout that 64-bit systems log.

use vstd::prelude::*;
use vstd::utf8::*;

use super::event::{
    DecodedEvent, EventField, FieldModel, Guid, GuidModel, fields_view, ImageLoadEvent, ImageModel, ImageUnloadEvent, ProcessEndEvent, ProcessModel,
    ProcessStartEvent,
};
use super::generic_map::{
    copy_fields, decode_from_generic, generic_event_spec, guid_eq, image_load_guid,
    image_load_provider, process_guid, process_provider,
};
use super::schema::{read_utf16_units, utf16_end_offset, utf16_terminator_end, utf16_units};
use crate::bytes::{
    be2, be4, copy_range, find_zero, first_zero, lemma_first_zero_bounds, le4, le8, read_u16_be,
    read_u32_be, read_u32_le, read_u64_le,
};
use crate::text::{
    dec, decode_utf16, push_char, push_dec, str_to_string, string_from_utf8, utf16_decode,
    utf16_is_valid, utf16_valid,
};
use crate::types::ProcessId;

verus! {

/// Opcode of a process start event.
pub const PROCESS_START: u8 = 1;
/// Opcode of a process end event.
pub const PROCESS_END: u8 = 2;
/// Opcode of an image load event.
pub const IMAGE_LOAD: u8 = 10;
/// Opcode of an image unload event.
pub const IMAGE_UNLOAD: u8 = 2;
/// Size of a pointer-sized payload field.
pub const POINTER_SIZE: usize = 8;
/// Smallest process payload accepted for layout 0 (`10 + 2 * POINTER_SIZE`).
pub const REQUIRED_SIZE_V0: usize = 26;
/// Smallest process payload accepted for layouts 1 to 4 (`11 * 4 + 4 * POINTER_SIZE`).
pub const REQUIRED_SIZE_V1_TO_V4: usize = 76;
/// Smallest image payload accepted (`12 * 4 + 4 * POINTER_SIZE`).
pub const REQUIRED_SIZE_IMAGE: usize = 80;

// ---------------------------------------------------------------------------
// Specification
// ---------------------------------------------------------------------------

/// A NUL-terminated UTF-8 string at the front of `d` and the bytes it takes:
/// the text, and the terminator when there is one.
pub open spec fn ascii_until_null_spec(d: Seq<u8>) -> Option<(Seq<char>, nat)> {
    let end = first_zero(d, 0);
    let text = d.subrange(0, end);
    if valid_utf8(text) {
        Some((decode_utf8(text), if end < d.len() { (end + 1) as nat } else { end as nat }))
    } else {
        None
    }
}

/// A NUL-terminated UTF-16LE string at the front of `d` and the bytes read;
/// `None` when the units hold an unpaired surrogate.
pub open spec fn utf16_until_null_spec(d: Seq<u8>) -> Option<(Seq<char>, nat)> {
    let units = utf16_units(d, 0, d.len() as int);
    if utf16_valid(units) {
        Some((utf16_decode(units, false), utf16_terminator_end(d, 0) as nat))
    } else {
        None
    }
}

/// The 48-bit identifier authority of a binary SID.
pub open spec fn sid_authority(d: Seq<u8>) -> nat {
    be2(d, 2) * 0x1_0000_0000 + be4(d, 4)
}

/// `-{sub-authority}` for each of up to `remaining` whole sub-authorities from `start`.
pub open spec fn sid_tail(d: Seq<u8>, start: nat, remaining: nat) -> Seq<char>
    decreases remaining,
{
    if remaining == 0 || start + 4 > d.len() {
        Seq::empty()
    } else {
        seq!['-'] + dec(le4(d, start as int)) + sid_tail(d, start + 4, (remaining - 1) as nat)
    }
}

/// Offset just past the sub-authorities that [`sid_tail`] renders.
pub open spec fn sid_end(d: Seq<u8>, start: nat, remaining: nat) -> nat
    decreases remaining,
{
    if remaining == 0 || start + 4 > d.len() {
        start
    } else {
        sid_end(d, start + 4, (remaining - 1) as nat)
    }
}

/// A binary SID in `S-R-A-S1-...` form and the bytes it takes.
pub open spec fn sid_spec(d: Seq<u8>) -> Option<(Seq<char>, nat)> {
    if d.len() < 8 {
        None
    } else {
        Some((
            "S-"@ + dec(d[0] as nat) + "-"@ + dec(sid_authority(d)) + sid_tail(d, 8, d[1] as nat),
            sid_end(d, 8, d[1] as nat),
        ))
    }
}

/// SID, image name and (when asked for) command line that follow the fixed
/// part of a process payload.
pub open spec fn process_tail_spec(rest: Seq<u8>, with_command_line: bool) -> Option<
    (Seq<char>, Seq<char>, Option<Seq<char>>),
> {
    match sid_spec(rest) {
        None => None,
        Some((sid, n1)) => {
            let r2 = rest.subrange(n1 as int, rest.len() as int);
            match ascii_until_null_spec(r2) {
                None => None,
                Some((name, n2)) => {
                    if first_zero(r2, 0) >= r2.len() {
                        None
                    } else if !with_command_line {
                        Some((sid, name, None))
                    } else {
                        let r3 = r2.subrange(n2 as int, r2.len() as int);
                        match utf16_until_null_spec(r3) {
                            None => None,
                            Some((cmd, _)) => Some((sid, name, Some(cmd))),
                        }
                    }
                },
            }
        },
    }
}

/// Offset of the SID in a process payload of the given layout.
pub open spec fn process_sid_offset(version: u8) -> nat {
    if version == 0 {
        28
    } else if version == 1 || version == 2 {
        44
    } else {
        52
    }
}

/// The fields of a process payload of the given layout.
pub open spec fn process_spec(version: u8, d: Seq<u8>) -> Option<ProcessModel> {
    if version == 0 {
        if d.len() < 28 {
            None
        } else {
            match process_tail_spec(d.subrange(28, d.len() as int), false) {
                None => None,
                Some((sid, name, _)) => Some(
                    ProcessModel {
                        process_id: le4(d, 0) as u32,
                        parent_process_id: le4(d, 4) as u32,
                        session_id: None,
                        exit_status: None,
                        unique_process_key: None,
                        directory_table_base: None,
                        image_file_name: name,
                        command_line: None,
                        user_sid: Some(sid),
                    },
                ),
            }
        }
    } else if 1 <= version <= 4 {
        if d.len() < REQUIRED_SIZE_V1_TO_V4 {
            None
        } else {
            let off = process_sid_offset(version);
            match process_tail_spec(d.subrange(off as int, d.len() as int), true) {
                None => None,
                Some((sid, name, cmd)) => Some(
                    ProcessModel {
                        process_id: le4(d, 8) as u32,
                        parent_process_id: le4(d, 12) as u32,
                        session_id: Some(le4(d, 16) as u32),
                        exit_status: Some(le4(d, 20) as u32),
                        unique_process_key: if version == 1 {
                            None
                        } else {
                            Some(le8(d, 0) as u64)
                        },
                        directory_table_base: if version == 1 {
                            Some(le8(d, 0) as u64)
                        } else if version == 2 {
                            None
                        } else {
                            Some(le8(d, 24) as u64)
                        },
                        image_file_name: name,
                        command_line: cmd,
                        user_sid: Some(sid),
                    },
                ),
            }
        }
    } else {
        None
    }
}

/// The decoded process event for a payload, by opcode.
pub open spec fn process_event_spec(version: u8, opcode: u8, d: Seq<u8>, r: Option<DecodedEvent>) -> bool {
    if opcode != PROCESS_START && opcode != PROCESS_END {
        r is None
    } else {
        match process_spec(version, d) {
            None => r is None,
            Some(m) => if opcode == PROCESS_START {
                r matches Some(DecodedEvent::ProcessStart(e)) && e.model() == m && e.version == version
            } else {
                r matches Some(DecodedEvent::ProcessEnd(e)) && e.model() == m && e.version == version
            },
        }
    }
}

/// The fields of an image payload of layouts 2 to 4.
pub open spec fn image_spec(version: u8, d: Seq<u8>) -> Option<ImageModel> {
    if !(2 <= version <= 4) || d.len() < REQUIRED_SIZE_IMAGE {
        None
    } else {
        match utf16_until_null_spec(d.subrange(56, d.len() as int)) {
            None => None,
            Some((name, _)) => Some(
                ImageModel {
                    process_id: le4(d, 16) as u32,
                    image_base: le8(d, 0) as u64,
                    image_size: le8(d, 8) as u64,
                    checksum: le4(d, 20) as u32,
                    timestamp: le4(d, 24) as u32,
                    default_base: le8(d, 32) as u64,
                    file_name: name,
                },
            ),
        }
    }
}

/// The decoded image event for a payload, by opcode.
pub open spec fn image_event_spec(version: u8, opcode: u8, d: Seq<u8>, r: Option<DecodedEvent>) -> bool {
    match image_spec(version, d) {
        None => r is None,
        Some(m) => if opcode == IMAGE_LOAD {
            r matches Some(DecodedEvent::ImageLoad(e)) && e.model() == m && e.version == version
        } else if opcode == IMAGE_UNLOAD {
            r matches Some(DecodedEvent::ImageUnload(e)) && e.model() == m && e.version == version
        } else {
            r is None
        },
    }
}

// ---------------------------------------------------------------------------
// Lemmas
// ---------------------------------------------------------------------------

/// The SID's end offset never passes the end of the data.
pub proof fn lemma_sid_end_within(d: Seq<u8>, start: nat, remaining: nat)
    requires
        start <= d.len(),
    ensures
        start <= sid_end(d, start, remaining) <= d.len(),
    decreases remaining,
{
    if remaining != 0 && start + 4 <= d.len() {
        lemma_sid_end_within(d, start + 4, (remaining - 1) as nat);
    }
}

/// The little-endian 32-bit value of the four bytes at `i`, spelled out.
pub open spec fn bytes_u32_le(d: Seq<u8>, i: int) -> int {
    d[i] + d[i + 1] * 256 + d[i + 2] * 65536 + d[i + 3] * 16777216
}

/// The identifiers of a decoded process event: process, parent, session
/// and exit status.
pub open spec fn process_event_ids(r: Option<DecodedEvent>) -> (u32, u32, Option<u32>, Option<u32>) {
    match r {
        Some(DecodedEvent::ProcessStart(e)) => (e.process_id.0, e.parent_process_id.0, e.session_id, e.exit_status),
        Some(DecodedEvent::ProcessEnd(e)) => (e.process_id.0, e.parent_process_id.0, e.session_id, e.exit_status),
        _ => (0, 0, None, None),
    }
}

/// A decoded process event carries the identifiers where the kernel writes
/// them. Opcode 1 is a start and opcode 2 an end, and only layouts 0 to 4
/// decode. In layout 0 the process ID is the little-endian `u32` at byte 0
/// and the parent's at byte 4, with no session or exit status. In layouts 1
/// to 4 the process ID is the `u32` at byte 8 (after the 8-byte key), the
/// parent's at byte 12, the session ID at byte 16 and the exit status at
/// byte 20.
pub proof fn lemma_process_event_fields(version: u8, opcode: u8, d: Seq<u8>, r: Option<DecodedEvent>)
    requires
        process_event_spec(version, opcode, d, r),
        r is Some,
    ensures
        opcode == 1 ==> r matches Some(DecodedEvent::ProcessStart(_)),
        opcode == 2 ==> r matches Some(DecodedEvent::ProcessEnd(_)),
        opcode == 1 || opcode == 2,
        version <= 4,
        version == 0 ==> d.len() >= 8 && process_event_ids(r).0 == bytes_u32_le(d, 0) && process_event_ids(r).1
            == bytes_u32_le(d, 4) && process_event_ids(r).2 is None && process_event_ids(r).3 is None,
        1 <= version <= 4 ==> d.len() >= 24 && process_event_ids(r).0 == bytes_u32_le(d, 8)
            && process_event_ids(r).1 == bytes_u32_le(d, 12) && process_event_ids(r).2 == Some(
            bytes_u32_le(d, 16) as u32,
        ) && process_event_ids(r).3 == Some(bytes_u32_le(d, 20) as u32),
{
    let m = process_spec(version, d)->0;
    if version == 0 {
        lemma_le4_in_range(d, 0);
        lemma_le4_in_range(d, 4);
    } else {
        lemma_le4_in_range(d, 8);
        lemma_le4_in_range(d, 12);
        lemma_le4_in_range(d, 16);
        lemma_le4_in_range(d, 20);
    }
}

/// The four-byte little-endian value is the spelled-out sum, and fits a `u32`.
pub proof fn lemma_le4_in_range(d: Seq<u8>, i: int)
    requires
        0 <= i,
        i + 4 <= d.len(),
    ensures
        le4(d, i) == bytes_u32_le(d, i),
        le4(d, i) <= u32::MAX,
{
}

/// A decoded image event is a load for opcode 10 and an unload for opcode 2,
/// from layouts 2 to 4, and carries the process ID from the little-endian
/// `u32` at byte 16, the checksum from byte 20 and the timestamp from
/// byte 24.
pub proof fn lemma_image_event_fields(version: u8, opcode: u8, d: Seq<u8>, r: Option<DecodedEvent>)
    requires
        image_event_spec(version, opcode, d, r),
        r is Some,
    ensures
        2 <= version <= 4,
        d.len() >= 28,
        opcode == 10 || opcode == 2,
        opcode == 10 ==> (r matches Some(DecodedEvent::ImageLoad(e)) && e.process_id.0 == bytes_u32_le(d, 16)
            && e.checksum == bytes_u32_le(d, 20) && e.timestamp == bytes_u32_le(d, 24)),
        opcode == 2 ==> (r matches Some(DecodedEvent::ImageUnload(e)) && e.process_id.0 == bytes_u32_le(d, 16)
            && e.checksum == bytes_u32_le(d, 20) && e.timestamp == bytes_u32_le(d, 24)),
{
    lemma_le4_in_range(d, 16);
    lemma_le4_in_range(d, 20);
    lemma_le4_in_range(d, 24);
}

// ---------------------------------------------------------------------------
// Helpers
// ---------------------------------------------------------------------------

/// Reads a NUL-terminated UTF-8 string from the front of `data`.
pub fn ascii_string_until_null(data: &[u8]) -> (r: Option<(String, usize)>)
    ensures
        match (r, ascii_until_null_spec(data@)) {
            (None, None) => true,
            (Some((s, n)), Some((t, m))) => s@ == t && n as nat == m,
            _ => false,
        },
{
    let end = find_zero(data, 0, data.len());
    assert(data@.subrange(0, data@.len() as int) == data@);
    let raw = copy_range(data, 0, end);
    match string_from_utf8(raw) {
        Some(s) => Some((s, if end < data.len() { end + 1 } else { end })),
        None => None,
    }
}

/// Reads a NUL-terminated UTF-16LE string from the front of `data`, strictly:
/// an unpaired surrogate gives `None`.
pub fn utf16_until_null(data: &[u8]) -> (r: Option<(String, usize)>)
    ensures
        match (r, utf16_until_null_spec(data@)) {
            (None, None) => true,
            (Some((s, n)), Some((t, m))) => s@ == t && n as nat == m,
            _ => false,
        },
{
    let units = read_utf16_units(data, 0, data.len());
    let consumed = utf16_end_offset(data, 0);
    if !utf16_is_valid(units.as_slice()) {
        return None;
    }
    let s = decode_utf16(units.as_slice(), false);
    Some((s, consumed))
}

/// Converts a binary SID to its string form and reports the bytes it takes:
/// the header and every whole sub-authority that the data holds.
pub fn sid_to_string_with_size(sid: &[u8]) -> (r: Option<(String, usize)>)
    ensures
        match (r, sid_spec(sid@)) {
            (None, None) => true,
            (Some((s, n)), Some((t, m))) => s@ == t && n as nat == m,
            _ => false,
        },
{
    if sid.len() < 8 {
        return None;
    }
    let count = sid[1];
    let hi = read_u16_be(sid, 2);
    let lo = read_u32_be(sid, 4);
    let authority: u64 = (hi as u64) * 0x1_0000_0000 + (lo as u64);
    let mut id = str_to_string("S-");
    push_dec(&mut id, sid[0] as u64);
    id.append("-");
    push_dec(&mut id, authority);
    let ghost head = id@;
    let ghost total = count as nat;
    let mut start: usize = 8;
    let mut k: u8 = 0;
    while k < count && sid.len() - start >= 4
        invariant
            8 <= start <= sid@.len(),
            k <= count,
            total == count as nat,
            head + sid_tail(sid@, 8, total) == id@ + sid_tail(sid@, start as nat, (total - k) as nat),
            sid_end(sid@, 8, total) == sid_end(sid@, start as nat, (total - k) as nat),
        decreases count - k,
    {
        let authority = read_u32_le(sid, start);
        let ghost before = id@;
        push_char(&mut id, '-');
        push_dec(&mut id, authority as u64);
        proof {
            let rest = sid_tail(sid@, (start + 4) as nat, (total - k - 1) as nat);
            assert(sid_tail(sid@, start as nat, (total - k) as nat)
                == seq!['-'] + dec(le4(sid@, start as int)) + rest);
            assert(before + (seq!['-'] + dec(le4(sid@, start as int)) + rest)
                == before.push('-') + dec(authority as nat) + rest);
        }
        start = start + 4;
        k = k + 1;
    }
    assert(id@ + sid_tail(sid@, start as nat, (total - k) as nat) == id@);
    Some((id, start))
}

/// Reads the SID, the image name and optionally the command line that follow
/// the fixed part of a process payload.
fn process_tail(rest: &[u8], with_command_line: bool) -> (r: Option<(String, String, Option<String>)>)
    ensures
        match (r, process_tail_spec(rest@, with_command_line)) {
            (None, None) => true,
            (Some((s, n, c)), Some((t, m, d))) => s@ == t && n@ == m && match (c, d) {
                (None, None) => true,
                (Some(x), Some(y)) => x@ == y,
                _ => false,
            },
            _ => false,
        },
{
    let (user_sid, sid_size) = match sid_to_string_with_size(rest) {
        Some(v) => v,
        None => return None,
    };
    proof {
        lemma_sid_end_within(rest@, 8, rest@[1] as nat);
    }
    let r2 = copy_range(rest, sid_size, rest.len());
    let (name, name_size) = match ascii_string_until_null(r2.as_slice()) {
        Some(v) => v,
        None => return None,
    };
    let terminator = find_zero(r2.as_slice(), 0, r2.len());
    assert(r2@.subrange(0, r2@.len() as int) == r2@);
    if terminator >= r2.len() {
        return None;
    }
    if !with_command_line {
        return Some((user_sid, name, None));
    }
    let r3 = copy_range(r2.as_slice(), name_size, r2.len());
    match utf16_until_null(r3.as_slice()) {
        Some((cmd, _)) => Some((user_sid, name, Some(cmd))),
        None => None,
    }
}

/// Decodes process payload bytes into typed process start/end events.
///
/// Supports the payload layouts 0 through 4; `None` when the opcode or the
/// layout is not recognized or when the payload is truncated.
pub fn decode_process_parts(version: u8, opcode: u8, data: &[u8]) -> (r: Option<DecodedEvent>)
    ensures
        process_event_spec(version, opcode, data@, r),
{
    if opcode != PROCESS_START && opcode != PROCESS_END {
        return None;
    }
    let pid: u32;
    let ppid: u32;
    let mut session_id: Option<u32> = None;
    let mut exit_status: Option<u32> = None;
    let mut unique_process_key: Option<u64> = None;
    let mut directory_table_base: Option<u64> = None;
    let tail;
    if version == 0 {
        if data.len() < REQUIRED_SIZE_V0 || data.len() < 28 {
            return None;
        }
        pid = read_u32_le(data, 0);
        ppid = read_u32_le(data, 4);
        let rest = copy_range(data, 28, data.len());
        tail = process_tail(rest.as_slice(), false);
    } else if 1 <= version && version <= 4 {
        if data.len() < REQUIRED_SIZE_V1_TO_V4 {
            return None;
        }
        let first = read_u64_le(data, 0);
        pid = read_u32_le(data, 8);
        ppid = read_u32_le(data, 12);
        session_id = Some(read_u32_le(data, 16));
        exit_status = Some(read_u32_le(data, 20));
        let off: usize;
        if version == 1 {
            directory_table_base = Some(first);
            off = 44;
        } else if version == 2 {
            unique_process_key = Some(first);
            off = 44;
        } else {
            unique_process_key = Some(first);
            directory_table_base = Some(read_u64_le(data, 24));
            off = 52;
        }
        let rest = copy_range(data, off, data.len());
        tail = process_tail(rest.as_slice(), true);
    } else {
        return None;
    }
    let (user_sid, image_file_name, command_line) = match tail {
        Some(t) => t,
        None => return None,
    };
    if opcode == PROCESS_START {
        Some(DecodedEvent::ProcessStart(ProcessStartEvent {
            process_id: ProcessId::new(pid),
            parent_process_id: ProcessId::new(ppid),
            session_id,
            exit_status,
            unique_process_key,
            directory_table_base,
            image_file_name,
            command_line,
            user_sid: Some(user_sid),
            version,
        }))
    } else {
        Some(DecodedEvent::ProcessEnd(ProcessEndEvent {
            process_id: ProcessId::new(pid),
            parent_process_id: ProcessId::new(ppid),
            session_id,
            exit_status,
            unique_process_key,
            directory_table_base,
            image_file_name,
            command_line,
            user_sid: Some(user_sid),
            version,
        }))
    }
}

/// Decodes image payload bytes into typed load/unload events.
///
/// Supports the payload layouts 2, 3 and 4; `None` for other layouts,
/// unknown opcodes, or truncated payloads.
pub fn decode_image_parts(version: u8, opcode: u8, data: &[u8]) -> (r: Option<DecodedEvent>)
    ensures
        image_event_spec(version, opcode, data@, r),
{
    if !(2 <= version && version <= 4) || data.len() < REQUIRED_SIZE_IMAGE {
        return None;
    }
    let image_base = read_u64_le(data, 0);
    let image_size = read_u64_le(data, 8);
    let pid = read_u32_le(data, 16);
    let checksum = read_u32_le(data, 20);
    let timestamp = read_u32_le(data, 24);
    let default_base = read_u64_le(data, 32);
    let rest = copy_range(data, 56, data.len());
    let (file_name, _) = match utf16_until_null(rest.as_slice()) {
        Some(v) => v,
        None => return None,
    };
    if opcode == IMAGE_LOAD {
        Some(DecodedEvent::ImageLoad(ImageLoadEvent {
            process_id: ProcessId::new(pid),
            image_base,
            image_size,
            checksum,
            timestamp,
            default_base,
            file_name,
            version,
        }))
    } else if opcode == IMAGE_UNLOAD {
        Some(DecodedEvent::ImageUnload(ImageUnloadEvent {
            process_id: ProcessId::new(pid),
            image_base,
            image_size,
            checksum,
            timestamp,
            default_base,
            file_name,
            version,
        }))
    } else {
        None
    }
}

/// The event that a record decodes to: the process or image decoder for
/// those providers when it recognizes the payload, else the field-mapped
/// providers, else the fields themselves, else nothing known.
pub open spec fn record_spec(
    provider: GuidModel,
    version: u8,
    opcode: u8,
    d: Seq<u8>,
    fields: Option<Seq<FieldModel>>,
    r: DecodedEvent,
) -> bool {
    if provider == process_guid() && (opcode == PROCESS_START || opcode == PROCESS_END)
        && process_spec(version, d) is Some {
        process_event_spec(version, opcode, d, Some(r))
    } else if provider == image_load_guid() && (opcode == IMAGE_LOAD || opcode == IMAGE_UNLOAD)
        && image_spec(version, d) is Some {
        image_event_spec(version, opcode, d, Some(r))
    } else {
        match fields {
            Some(f) => if generic_event_spec(provider, opcode, f, None) {
                r matches DecodedEvent::Generic(v) && fields_view(v@) == f
            } else {
                generic_event_spec(provider, opcode, f, Some(r))
            },
            None => r is Unknown,
        }
    }
}

/// Decodes an event payload from its provider, layout version, opcode,
/// bytes and (when the schema gave them) parsed fields.
pub fn decode_from_record_parts(
    provider_guid: &Guid,
    version: u8,
    opcode: u8,
    data: &[u8],
    fields: Option<&[EventField]>,
) -> (r: DecodedEvent)
    ensures
        record_spec(
            provider_guid@,
            version,
            opcode,
            data@,
            match fields {
                Some(f) => Some(fields_view(f@)),
                None => None,
            },
            r,
        ),
{
    if guid_eq(provider_guid, &process_provider()) {
        if let Some(decoded) = decode_process_parts(version, opcode, data) {
            return decoded;
        }
    }
    if guid_eq(provider_guid, &image_load_provider()) {
        if let Some(decoded) = decode_image_parts(version, opcode, data) {
            return decoded;
        }
    }
    match fields {
        Some(f) => match decode_from_generic(provider_guid, opcode, f) {
            Some(decoded) => decoded,
            None => DecodedEvent::Generic(copy_fields(f)),
        },
        None => DecodedEvent::Unknown,
    }
}

} // verus!
