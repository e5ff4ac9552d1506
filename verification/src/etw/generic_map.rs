//! Typed TCP/IP, Registry and File I/O events from schema-decoded fields.
//!
//! Fields are looked up by a list of accepted names, in order, each compared
//! without regard to ASCII case; the first field that matches a name wins.

use vstd::prelude::*;

use super::event::{
    DecodedEvent, Guid, GuidModel, EventField, EventFieldValue, FieldModel, FieldValueModel, FileIoEvent, FileIoOperation,
    IpAddress, IpModel, RegistryEvent, RegistryOperation, TcpEvent, TcpOperation, fields_view,
    opt_text,
};
use crate::bytes::copy_range;
use crate::net::{ipv4_text, parse_ipv4};
use crate::text::{
    ascii_lower, chars_contain, chars_of, contains_seq, eq_ascii_ci, lower_chars, str_eq_ascii_ci,
    str_to_string,
};
use crate::types::ProcessId;

verus! {

// ---------------------------------------------------------------------------
// Specification
// ---------------------------------------------------------------------------

/// The views of a list of names.
pub open spec fn names_view(names: Seq<&str>) -> Seq<Seq<char>> {
    Seq::new(names.len(), |i: int| names[i]@)
}

/// The value of the first field whose name equals `name` up to ASCII case.
pub open spec fn find_by_name(fields: Seq<FieldModel>, name: Seq<char>) -> Option<FieldValueModel>
    decreases fields.len(),
{
    if fields.len() == 0 {
        None
    } else if eq_ascii_ci(fields[0].name, name) {
        Some(fields[0].value)
    } else {
        find_by_name(fields.drop_first(), name)
    }
}

/// The value found for the first of `names` that some field carries.
pub open spec fn find_by_names(fields: Seq<FieldModel>, names: Seq<Seq<char>>) -> Option<FieldValueModel>
    decreases names.len(),
{
    if names.len() == 0 {
        None
    } else {
        match find_by_name(fields, names[0]) {
            Some(v) => Some(v),
            None => find_by_names(fields, names.drop_first()),
        }
    }
}

/// A value read as text.
pub open spec fn string_of(v: FieldValueModel) -> Option<Seq<char>> {
    match v {
        FieldValueModel::Text(t) => Some(t),
        _ => None,
    }
}

/// A value read as a `u16`, when it fits.
pub open spec fn u16_of(v: FieldValueModel) -> Option<u16> {
    match v {
        FieldValueModel::U16(x) => Some(x),
        FieldValueModel::U32(x) => if x <= u16::MAX { Some(x as u16) } else { None },
        FieldValueModel::U64(x) => if x <= u16::MAX { Some(x as u16) } else { None },
        _ => None,
    }
}

/// A value read as a `u32`, when it fits.
pub open spec fn u32_of(v: FieldValueModel) -> Option<u32> {
    match v {
        FieldValueModel::U8(x) => Some(x as u32),
        FieldValueModel::U16(x) => Some(x as u32),
        FieldValueModel::U32(x) => Some(x),
        FieldValueModel::U64(x) => if x <= u32::MAX { Some(x as u32) } else { None },
        FieldValueModel::I32(x) => if x >= 0 { Some(x as u32) } else { None },
        FieldValueModel::I64(x) => if 0 <= x <= u32::MAX { Some(x as u32) } else { None },
        _ => None,
    }
}

/// A value read as a `u64`, when it fits.
pub open spec fn u64_of(v: FieldValueModel) -> Option<u64> {
    match v {
        FieldValueModel::U8(x) => Some(x as u64),
        FieldValueModel::U16(x) => Some(x as u64),
        FieldValueModel::U32(x) => Some(x as u64),
        FieldValueModel::U64(x) => Some(x),
        FieldValueModel::Pointer(x) => Some(x),
        FieldValueModel::I32(x) => if x >= 0 { Some(x as u64) } else { None },
        FieldValueModel::I64(x) => if x >= 0 { Some(x as u64) } else { None },
        _ => None,
    }
}

/// The four little-endian bytes of the low 32 bits of `x`.
pub open spec fn le_octets(x: nat) -> Seq<u8> {
    seq![(x % 256) as u8, ((x / 256) % 256) as u8, ((x / 65536) % 256) as u8, ((x / 16777216) % 256) as u8]
}

/// A value read as an IP address: an address, dotted-quad text, a 32-bit
/// number or the low 32 bits of a 64-bit number holding the octets in
/// little-endian order, or a four- or sixteen-byte binary blob.
pub open spec fn ip_of(v: FieldValueModel) -> Option<IpModel> {
    match v {
        FieldValueModel::Ip(a) => Some(a),
        FieldValueModel::Text(t) => match ipv4_text(t) {
            Some(o) => Some(IpModel::V4(o)),
            None => None,
        },
        FieldValueModel::U32(x) => Some(IpModel::V4(le_octets(x as nat))),
        FieldValueModel::U64(x) => Some(IpModel::V4(le_octets(x as nat))),
        FieldValueModel::Binary(b) => if b.len() == 4 {
            Some(IpModel::V4(b))
        } else if b.len() == 16 {
            Some(IpModel::V6(b))
        } else {
            None
        },
        _ => None,
    }
}

/// The lowercase name mentions an address.
pub open spec fn addr_like(lower: Seq<char>) -> bool {
    contains_seq(lower, "ip"@) || contains_seq(lower, "addr"@) || contains_seq(lower, "address"@)
}

/// The lowercase name marks a source (or local) address.
pub open spec fn source_like(lower: Seq<char>) -> bool {
    contains_seq(lower, "src"@) || (lower.len() > 0 && lower[0] == 's') || contains_seq(lower, "local"@)
}

/// The lowercase name marks a destination (or remote) address.
pub open spec fn destination_like(lower: Seq<char>) -> bool {
    contains_seq(lower, "dst"@) || (lower.len() > 0 && lower[0] == 'd') || contains_seq(lower, "remote"@)
}

/// The address of the first field whose name looks like a source (or
/// destination) address and whose value reads as an address.
pub open spec fn ip_by_pattern(fields: Seq<FieldModel>, source: bool) -> Option<IpModel>
    decreases fields.len(),
{
    if fields.len() == 0 {
        None
    } else {
        let lower = ascii_lower(fields[0].name);
        let side = if source { source_like(lower) } else { destination_like(lower) };
        if addr_like(lower) && side && ip_of(fields[0].value) is Some {
            ip_of(fields[0].value)
        } else {
            ip_by_pattern(fields.drop_first(), source)
        }
    }
}

/// Lifts a reading over an optional value.
pub open spec fn and_then_u16(v: Option<FieldValueModel>) -> Option<u16> {
    match v {
        Some(x) => u16_of(x),
        None => None,
    }
}

/// Lifts a reading over an optional value.
pub open spec fn and_then_u32(v: Option<FieldValueModel>) -> Option<u32> {
    match v {
        Some(x) => u32_of(x),
        None => None,
    }
}

/// Lifts a reading over an optional value.
pub open spec fn and_then_u64(v: Option<FieldValueModel>) -> Option<u64> {
    match v {
        Some(x) => u64_of(x),
        None => None,
    }
}

/// Lifts a reading over an optional value.
pub open spec fn and_then_string(v: Option<FieldValueModel>) -> Option<Seq<char>> {
    match v {
        Some(x) => string_of(x),
        None => None,
    }
}

/// Lifts a reading over an optional value.
pub open spec fn and_then_ip(v: Option<FieldValueModel>) -> Option<IpModel> {
    match v {
        Some(x) => ip_of(x),
        None => None,
    }
}

/// The view of an optional address.
pub open spec fn opt_ip(v: Option<IpAddress>) -> Option<IpModel> {
    match v {
        Some(a) => Some(a@),
        None => None,
    }
}

/// The view of an optional process identifier.
pub open spec fn opt_pid(v: Option<ProcessId>) -> Option<u32> {
    match v {
        Some(p) => Some(p.0),
        None => None,
    }
}

/// TCP operation of an opcode (classic and newer opcode numbers alike).
pub open spec fn tcp_operation(opcode: u8) -> TcpOperation {
    if opcode == 10 || opcode == 26 {
        TcpOperation::Send
    } else if opcode == 11 || opcode == 27 {
        TcpOperation::Receive
    } else if opcode == 12 || opcode == 28 {
        TcpOperation::Connect
    } else if opcode == 13 || opcode == 29 {
        TcpOperation::Disconnect
    } else if opcode == 14 || opcode == 30 {
        TcpOperation::Retransmit
    } else if opcode == 15 || opcode == 31 {
        TcpOperation::Accept
    } else if opcode == 16 || opcode == 32 {
        TcpOperation::Reconnect
    } else if opcode == 18 || opcode == 34 {
        TcpOperation::Copy
    } else {
        TcpOperation::Unknown
    }
}

/// Registry operation of an opcode.
pub open spec fn registry_operation(opcode: u8) -> RegistryOperation {
    if opcode == 10 {
        RegistryOperation::Create
    } else if opcode == 11 || opcode == 27 {
        RegistryOperation::Open
    } else if opcode == 12 || opcode == 23 {
        RegistryOperation::DeleteKey
    } else if opcode == 13 {
        RegistryOperation::QueryKey
    } else if opcode == 14 {
        RegistryOperation::SetValue
    } else if opcode == 15 {
        RegistryOperation::DeleteValue
    } else if opcode == 16 || opcode == 19 {
        RegistryOperation::QueryValue
    } else if opcode == 17 || opcode == 24 || opcode == 25 {
        RegistryOperation::EnumerateKey
    } else if opcode == 18 {
        RegistryOperation::EnumerateValue
    } else if opcode == 20 {
        RegistryOperation::SetInformation
    } else {
        RegistryOperation::Unknown
    }
}

/// File I/O operation of an opcode.
pub open spec fn file_operation(opcode: u8) -> FileIoOperation {
    if opcode == 0 {
        FileIoOperation::Name
    } else if opcode == 32 || opcode == 64 {
        FileIoOperation::Create
    } else if opcode == 36 {
        FileIoOperation::Rundown
    } else if opcode == 65 {
        FileIoOperation::Cleanup
    } else if opcode == 66 {
        FileIoOperation::Close
    } else if opcode == 69 {
        FileIoOperation::SetInformation
    } else if opcode == 72 {
        FileIoOperation::DirectoryEnumeration
    } else if opcode == 73 {
        FileIoOperation::Flush
    } else if opcode == 74 {
        FileIoOperation::QueryInformation
    } else if opcode == 75 {
        FileIoOperation::FileSystemControl
    } else if opcode == 76 {
        FileIoOperation::OperationEnd
    } else if opcode == 77 {
        FileIoOperation::DirectoryNotification
    } else if opcode == 67 {
        FileIoOperation::Read
    } else if opcode == 68 {
        FileIoOperation::Write
    } else if opcode == 35 || opcode == 70 {
        FileIoOperation::Delete
    } else if opcode == 71 {
        FileIoOperation::Rename
    } else {
        FileIoOperation::Unknown
    }
}

/// The process identifier names.
pub open spec fn pid_names() -> Seq<Seq<char>> {
    seq!["PID"@, "ProcessId"@]
}

/// The source address names.
pub open spec fn source_ip_names() -> Seq<Seq<char>> {
    seq!["saddr"@, "saddrv4"@, "saddrv6"@, "SourceIp"@, "SourceAddress"@, "LocalAddress"@, "srcaddr"@, "srcip"@]
}

/// The destination address names.
pub open spec fn destination_ip_names() -> Seq<Seq<char>> {
    seq![
        "daddr"@,
        "daddrv4"@,
        "daddrv6"@,
        "DestinationIp"@,
        "DestinationAddress"@,
        "RemoteAddress"@,
        "dstaddr"@,
        "dstip"@,
    ]
}

/// An address by its names, else by the naming pattern.
pub open spec fn ip_field(fields: Seq<FieldModel>, names: Seq<Seq<char>>, source: bool) -> Option<IpModel> {
    match and_then_ip(find_by_names(fields, names)) {
        Some(a) => Some(a),
        None => ip_by_pattern(fields, source),
    }
}

/// The TCP event that a field set maps to.
pub open spec fn tcp_matches(e: TcpEvent, opcode: u8, f: Seq<FieldModel>) -> bool {
    &&& e.operation == tcp_operation(opcode)
    &&& opt_pid(e.process_id) == and_then_u32(find_by_names(f, pid_names()))
    &&& opt_ip(e.source_ip) == ip_field(f, source_ip_names(), true)
    &&& e.source_port == and_then_u16(find_by_names(f, seq!["sport"@, "SourcePort"@]))
    &&& opt_ip(e.destination_ip) == ip_field(f, destination_ip_names(), false)
    &&& e.destination_port == and_then_u16(find_by_names(f, seq!["dport"@, "DestinationPort"@]))
    &&& e.size == and_then_u32(find_by_names(f, seq!["size"@]))
    &&& e.sequence_number == and_then_u32(find_by_names(f, seq!["seqnum"@]))
}

/// The Registry event that a field set maps to.
pub open spec fn registry_matches(e: RegistryEvent, opcode: u8, f: Seq<FieldModel>) -> bool {
    &&& e.operation == registry_operation(opcode)
    &&& opt_pid(e.process_id) == and_then_u32(find_by_names(f, pid_names()))
    &&& opt_text(e.key_name) == and_then_string(find_by_names(f, seq!["KeyName"@, "registry_key_name"@]))
    &&& opt_text(e.relative_name) == and_then_string(
        find_by_names(f, seq!["RelativeName"@, "registry_relative_name"@]),
    )
    &&& opt_text(e.value_name) == and_then_string(find_by_names(f, seq!["ValueName"@, "registry_value_name"@]))
    &&& e.status == and_then_u32(find_by_names(f, seq!["Status"@, "status"@]))
    &&& e.key_handle == and_then_u64(find_by_names(f, seq!["KeyHandle"@, "registry_key_handle"@]))
}

/// The File I/O event that a field set maps to.
pub open spec fn file_matches(e: FileIoEvent, opcode: u8, f: Seq<FieldModel>) -> bool {
    &&& e.operation == file_operation(opcode)
    &&& opt_pid(e.process_id) == and_then_u32(find_by_names(f, pid_names()))
    &&& e.file_object == and_then_u64(find_by_names(f, seq!["FileObject"@]))
    &&& e.irp_ptr == and_then_u64(find_by_names(f, seq!["IrpPtr"@]))
    &&& e.file_key == and_then_u64(find_by_names(f, seq!["FileKey"@]))
    &&& opt_text(e.open_path) == and_then_string(find_by_names(f, seq!["OpenPath"@, "file.path"@]))
    &&& e.create_options == and_then_u32(find_by_names(f, seq!["CreateOptions"@]))
    &&& e.file_attributes == and_then_u32(find_by_names(f, seq!["FileAttributes"@]))
    &&& e.share_access == and_then_u32(find_by_names(f, seq!["ShareAccess"@]))
}

// ---------------------------------------------------------------------------
// Field lookup
// ---------------------------------------------------------------------------

/// The value of the first field carrying the first of `names` that any field carries.
pub fn field_by_name<'a>(fields: &'a [EventField], names: &[&str]) -> (r: Option<&'a EventFieldValue>)
    ensures
        match (r, find_by_names(fields_view(fields@), names_view(names@))) {
            (None, None) => true,
            (Some(v), Some(m)) => v@ == m,
            _ => false,
        },
{
    let ghost fv = fields_view(fields@);
    let mut j: usize = 0;
    assert(names_view(names@).subrange(0, names@.len() as int) == names_view(names@));
    while j < names.len()
        invariant
            j <= names@.len(),
            fv == fields_view(fields@),
            find_by_names(fv, names_view(names@)) == find_by_names(
                fv,
                names_view(names@).subrange(j as int, names@.len() as int),
            ),
        decreases names@.len() - j,
    {
        let ghost tail = names_view(names@).subrange(j as int, names@.len() as int);
        assert(tail.drop_first() == names_view(names@).subrange(j + 1, names@.len() as int));
        let name = names[j];
        let mut i: usize = 0;
        assert(fv.subrange(0, fields@.len() as int) == fv);
        while i < fields.len()
            invariant
                i <= fields@.len(),
                fv == fields_view(fields@),
                name@ == tail[0],
                tail.len() > 0,
                find_by_names(fv, names_view(names@)) == find_by_names(fv, tail),
                find_by_name(fv, name@) == find_by_name(fv.subrange(i as int, fields@.len() as int), name@),
            decreases fields@.len() - i,
        {
            let ghost rest = fv.subrange(i as int, fields@.len() as int);
            assert(rest.drop_first() == fv.subrange(i + 1, fields@.len() as int));
            if str_eq_ascii_ci(fields[i].name.as_str(), name) {
                proof {
                    assert(fv[i as int] == fields@[i as int]@);
                    assert(rest[0] == fv[i as int]);
                    assert(find_by_name(rest, name@) == Some(fv[i as int].value));
                    assert(find_by_names(fv, tail) == Some(fields@[i as int].value@));
                }
                return Some(&fields[i].value);
            }
            i = i + 1;
        }
        assert(fv.subrange(fields@.len() as int, fields@.len() as int) =~= Seq::<FieldModel>::empty());
        assert(find_by_name(fv, name@) is None);
        j = j + 1;
    }
    assert(names_view(names@).subrange(names@.len() as int, names@.len() as int) =~= Seq::<Seq<char>>::empty());
    None
}

/// The text of the named field.
pub fn field_string(fields: &[EventField], names: &[&str]) -> (r: Option<String>)
    ensures
        opt_text(r) == and_then_string(find_by_names(fields_view(fields@), names_view(names@))),
{
    match field_by_name(fields, names) {
        Some(EventFieldValue::String(v)) => Some(str_to_string(v.as_str())),
        _ => None,
    }
}

/// The named field read as a `u16`.
pub fn field_u16(fields: &[EventField], names: &[&str]) -> (r: Option<u16>)
    ensures
        r == and_then_u16(find_by_names(fields_view(fields@), names_view(names@))),
{
    match field_by_name(fields, names) {
        Some(EventFieldValue::U16(v)) => Some(*v),
        Some(EventFieldValue::U32(v)) => if *v <= 0xFFFF { Some(*v as u16) } else { None },
        Some(EventFieldValue::U64(v)) => if *v <= 0xFFFF { Some(*v as u16) } else { None },
        _ => None,
    }
}

/// The named field read as a `u32`.
pub fn field_u32(fields: &[EventField], names: &[&str]) -> (r: Option<u32>)
    ensures
        r == and_then_u32(find_by_names(fields_view(fields@), names_view(names@))),
{
    match field_by_name(fields, names) {
        Some(EventFieldValue::U8(v)) => Some(*v as u32),
        Some(EventFieldValue::U16(v)) => Some(*v as u32),
        Some(EventFieldValue::U32(v)) => Some(*v),
        Some(EventFieldValue::U64(v)) => if *v <= 0xFFFF_FFFF { Some(*v as u32) } else { None },
        Some(EventFieldValue::I32(v)) => if *v >= 0 { Some(*v as u32) } else { None },
        Some(EventFieldValue::I64(v)) => if *v >= 0 && *v <= 0xFFFF_FFFF { Some(*v as u32) } else { None },
        _ => None,
    }
}

/// The named field read as a `u64`.
pub fn field_u64(fields: &[EventField], names: &[&str]) -> (r: Option<u64>)
    ensures
        r == and_then_u64(find_by_names(fields_view(fields@), names_view(names@))),
{
    match field_by_name(fields, names) {
        Some(EventFieldValue::U8(v)) => Some(*v as u64),
        Some(EventFieldValue::U16(v)) => Some(*v as u64),
        Some(EventFieldValue::U32(v)) => Some(*v as u64),
        Some(EventFieldValue::U64(v)) => Some(*v),
        Some(EventFieldValue::Pointer(v)) => Some(*v),
        Some(EventFieldValue::I32(v)) => if *v >= 0 { Some(*v as u64) } else { None },
        Some(EventFieldValue::I64(v)) => if *v >= 0 { Some(*v as u64) } else { None },
        _ => None,
    }
}

/// The named field read as a process identifier.
pub fn field_process_id(fields: &[EventField], names: &[&str]) -> (r: Option<ProcessId>)
    ensures
        opt_pid(r) == and_then_u32(find_by_names(fields_view(fields@), names_view(names@))),
{
    match field_u32(fields, names) {
        Some(v) => Some(ProcessId::new(v)),
        None => None,
    }
}

/// Reads a value as an IP address; see [`ip_of`].
pub fn parse_ip_value(value: &EventFieldValue) -> (r: Option<IpAddress>)
    ensures
        opt_ip(r) == ip_of(value@),
{
    match value {
        EventFieldValue::IpAddr(v) => Some(*v),
        EventFieldValue::String(v) => {
            let cs = chars_of(v.as_str());
            match parse_ipv4(cs.as_slice()) {
                Some(a) => Some(IpAddress::V4(a)),
                None => None,
            }
        },
        EventFieldValue::U32(v) => {
            let x = *v;
            let a: [u8; 4] = [
                (x % 256) as u8,
                ((x / 256) % 256) as u8,
                ((x / 65536) % 256) as u8,
                ((x / 16777216) % 256) as u8,
            ];
            assert(a@ == le_octets(x as nat));
            Some(IpAddress::V4(a))
        },
        EventFieldValue::U64(v) => {
            let x = *v;
            let a: [u8; 4] = [
                (x % 256) as u8,
                ((x / 256) % 256) as u8,
                ((x / 65536) % 256) as u8,
                ((x / 16777216) % 256) as u8,
            ];
            assert(a@ == le_octets(x as nat));
            Some(IpAddress::V4(a))
        },
        EventFieldValue::Binary(v) => {
            if v.len() == 4 {
                let a: [u8; 4] = [v[0], v[1], v[2], v[3]];
                assert(a@ == v@);
                Some(IpAddress::V4(a))
            } else if v.len() == 16 {
                let a: [u8; 16] = [
                    v[0], v[1], v[2], v[3], v[4], v[5], v[6], v[7], v[8], v[9], v[10], v[11],
                    v[12], v[13], v[14], v[15],
                ];
                assert(a@ == v@);
                Some(IpAddress::V6(a))
            } else {
                None
            }
        },
        _ => None,
    }
}

/// The named field read as an IP address.
pub fn field_ip(fields: &[EventField], names: &[&str]) -> (r: Option<IpAddress>)
    ensures
        opt_ip(r) == and_then_ip(find_by_names(fields_view(fields@), names_view(names@))),
{
    match field_by_name(fields, names) {
        Some(v) => parse_ip_value(v),
        None => None,
    }
}

/// The first address whose field name looks like a source (or destination).
pub fn field_ip_by_pattern(fields: &[EventField], source: bool) -> (r: Option<IpAddress>)
    ensures
        opt_ip(r) == ip_by_pattern(fields_view(fields@), source),
{
    let ghost fv = fields_view(fields@);
    let ip = chars_of("ip");
    let addr = chars_of("addr");
    let address = chars_of("address");
    let src = chars_of("src");
    let local = chars_of("local");
    let dst = chars_of("dst");
    let remote = chars_of("remote");
    let mut i: usize = 0;
    assert(fv.subrange(0, fields@.len() as int) == fv);
    while i < fields.len()
        invariant
            i <= fields@.len(),
            fv == fields_view(fields@),
            ip@ == "ip"@,
            addr@ == "addr"@,
            address@ == "address"@,
            src@ == "src"@,
            local@ == "local"@,
            dst@ == "dst"@,
            remote@ == "remote"@,
            ip_by_pattern(fv, source) == ip_by_pattern(fv.subrange(i as int, fields@.len() as int), source),
        decreases fields@.len() - i,
    {
        let ghost rest = fv.subrange(i as int, fields@.len() as int);
        assert(rest.drop_first() == fv.subrange(i + 1, fields@.len() as int));
        let name = chars_of(fields[i].name.as_str());
        let lower = lower_chars(name.as_slice());
        let l = lower.as_slice();
        let addr_like = chars_contain(l, ip.as_slice()) || chars_contain(l, addr.as_slice())
            || chars_contain(l, address.as_slice());
        let side = if source {
            chars_contain(l, src.as_slice()) || (l.len() > 0 && l[0] == 's') || chars_contain(
                l,
                local.as_slice(),
            )
        } else {
            chars_contain(l, dst.as_slice()) || (l.len() > 0 && l[0] == 'd') || chars_contain(
                l,
                remote.as_slice(),
            )
        };
        if addr_like && side {
            let parsed = parse_ip_value(&fields[i].value);
            if parsed.is_some() {
                return parsed;
            }
        }
        i = i + 1;
    }
    None
}

/// An address by its names, else by the naming pattern.
fn ip_field_exec(fields: &[EventField], names: &[&str], source: bool) -> (r: Option<IpAddress>)
    ensures
        opt_ip(r) == ip_field(fields_view(fields@), names_view(names@), source),
{
    match field_ip(fields, names) {
        Some(a) => Some(a),
        None => field_ip_by_pattern(fields, source),
    }
}

// ---------------------------------------------------------------------------
// Mapping
// ---------------------------------------------------------------------------

/// TCP operation of an opcode.
pub fn tcp_operation_of(opcode: u8) -> (r: TcpOperation)
    ensures
        r == tcp_operation(opcode),
{
    match opcode {
        10 | 26 => TcpOperation::Send,
        11 | 27 => TcpOperation::Receive,
        12 | 28 => TcpOperation::Connect,
        13 | 29 => TcpOperation::Disconnect,
        14 | 30 => TcpOperation::Retransmit,
        15 | 31 => TcpOperation::Accept,
        16 | 32 => TcpOperation::Reconnect,
        18 | 34 => TcpOperation::Copy,
        _ => TcpOperation::Unknown,
    }
}

/// Registry operation of an opcode.
pub fn registry_operation_of(opcode: u8) -> (r: RegistryOperation)
    ensures
        r == registry_operation(opcode),
{
    match opcode {
        10 => RegistryOperation::Create,
        11 | 27 => RegistryOperation::Open,
        12 | 23 => RegistryOperation::DeleteKey,
        13 => RegistryOperation::QueryKey,
        14 => RegistryOperation::SetValue,
        15 => RegistryOperation::DeleteValue,
        16 | 19 => RegistryOperation::QueryValue,
        17 | 24 | 25 => RegistryOperation::EnumerateKey,
        18 => RegistryOperation::EnumerateValue,
        20 => RegistryOperation::SetInformation,
        _ => RegistryOperation::Unknown,
    }
}

/// File I/O operation of an opcode.
pub fn file_operation_of(opcode: u8) -> (r: FileIoOperation)
    ensures
        r == file_operation(opcode),
{
    match opcode {
        0 => FileIoOperation::Name,
        32 | 64 => FileIoOperation::Create,
        36 => FileIoOperation::Rundown,
        65 => FileIoOperation::Cleanup,
        66 => FileIoOperation::Close,
        69 => FileIoOperation::SetInformation,
        72 => FileIoOperation::DirectoryEnumeration,
        73 => FileIoOperation::Flush,
        74 => FileIoOperation::QueryInformation,
        75 => FileIoOperation::FileSystemControl,
        76 => FileIoOperation::OperationEnd,
        77 => FileIoOperation::DirectoryNotification,
        67 => FileIoOperation::Read,
        68 => FileIoOperation::Write,
        35 | 70 => FileIoOperation::Delete,
        71 => FileIoOperation::Rename,
        _ => FileIoOperation::Unknown,
    }
}

/// Maps TCP/IP fields to a typed event.
pub fn map_tcp(opcode: u8, fields: &[EventField]) -> (r: TcpEvent)
    ensures
        tcp_matches(r, opcode, fields_view(fields@)),
{
    let pid: [&str; 2] = ["PID", "ProcessId"];
    let saddr: [&str; 8] = [
        "saddr",
        "saddrv4",
        "saddrv6",
        "SourceIp",
        "SourceAddress",
        "LocalAddress",
        "srcaddr",
        "srcip",
    ];
    let daddr: [&str; 8] = [
        "daddr",
        "daddrv4",
        "daddrv6",
        "DestinationIp",
        "DestinationAddress",
        "RemoteAddress",
        "dstaddr",
        "dstip",
    ];
    let sport: [&str; 2] = ["sport", "SourcePort"];
    let dport: [&str; 2] = ["dport", "DestinationPort"];
    let size: [&str; 1] = ["size"];
    let seqnum: [&str; 1] = ["seqnum"];
    assert(names_view(pid@) == pid_names());
    assert(names_view(saddr@) == source_ip_names());
    assert(names_view(daddr@) == destination_ip_names());
    assert(names_view(sport@) == seq!["sport"@, "SourcePort"@]);
    assert(names_view(dport@) == seq!["dport"@, "DestinationPort"@]);
    assert(names_view(size@) == seq!["size"@]);
    assert(names_view(seqnum@) == seq!["seqnum"@]);
    TcpEvent {
        operation: tcp_operation_of(opcode),
        process_id: field_process_id(fields, &pid),
        source_ip: ip_field_exec(fields, &saddr, true),
        source_port: field_u16(fields, &sport),
        destination_ip: ip_field_exec(fields, &daddr, false),
        destination_port: field_u16(fields, &dport),
        size: field_u32(fields, &size),
        sequence_number: field_u32(fields, &seqnum),
    }
}

/// Maps Registry fields to a typed event.
pub fn map_registry(opcode: u8, fields: &[EventField]) -> (r: RegistryEvent)
    ensures
        registry_matches(r, opcode, fields_view(fields@)),
{
    let pid: [&str; 2] = ["PID", "ProcessId"];
    let key: [&str; 2] = ["KeyName", "registry_key_name"];
    let rel: [&str; 2] = ["RelativeName", "registry_relative_name"];
    let val: [&str; 2] = ["ValueName", "registry_value_name"];
    let status: [&str; 2] = ["Status", "status"];
    let handle: [&str; 2] = ["KeyHandle", "registry_key_handle"];
    assert(names_view(pid@) == pid_names());
    assert(names_view(key@) == seq!["KeyName"@, "registry_key_name"@]);
    assert(names_view(rel@) == seq!["RelativeName"@, "registry_relative_name"@]);
    assert(names_view(val@) == seq!["ValueName"@, "registry_value_name"@]);
    assert(names_view(status@) == seq!["Status"@, "status"@]);
    assert(names_view(handle@) == seq!["KeyHandle"@, "registry_key_handle"@]);
    RegistryEvent {
        operation: registry_operation_of(opcode),
        process_id: field_process_id(fields, &pid),
        key_name: field_string(fields, &key),
        relative_name: field_string(fields, &rel),
        value_name: field_string(fields, &val),
        status: field_u32(fields, &status),
        key_handle: field_u64(fields, &handle),
    }
}

/// Maps File I/O fields to a typed event.
pub fn map_file(opcode: u8, fields: &[EventField]) -> (r: FileIoEvent)
    ensures
        file_matches(r, opcode, fields_view(fields@)),
{
    let pid: [&str; 2] = ["PID", "ProcessId"];
    let fo: [&str; 1] = ["FileObject"];
    let irp: [&str; 1] = ["IrpPtr"];
    let fk: [&str; 1] = ["FileKey"];
    let path: [&str; 2] = ["OpenPath", "file.path"];
    let co: [&str; 1] = ["CreateOptions"];
    let fa: [&str; 1] = ["FileAttributes"];
    let sa: [&str; 1] = ["ShareAccess"];
    assert(names_view(pid@) == pid_names());
    assert(names_view(fo@) == seq!["FileObject"@]);
    assert(names_view(irp@) == seq!["IrpPtr"@]);
    assert(names_view(fk@) == seq!["FileKey"@]);
    assert(names_view(path@) == seq!["OpenPath"@, "file.path"@]);
    assert(names_view(co@) == seq!["CreateOptions"@]);
    assert(names_view(fa@) == seq!["FileAttributes"@]);
    assert(names_view(sa@) == seq!["ShareAccess"@]);
    FileIoEvent {
        operation: file_operation_of(opcode),
        process_id: field_process_id(fields, &pid),
        file_object: field_u64(fields, &fo),
        irp_ptr: field_u64(fields, &irp),
        file_key: field_u64(fields, &fk),
        open_path: field_string(fields, &path),
        create_options: field_u32(fields, &co),
        file_attributes: field_u32(fields, &fa),
        share_access: field_u32(fields, &sa),
    }
}



// ---------------------------------------------------------------------------
// Provider identities
// ---------------------------------------------------------------------------

/// A GUID model from its canonical parts.
pub open spec fn guid_model(d1: u32, d2: u16, d3: u16, d4: Seq<u8>) -> GuidModel {
    GuidModel { data1: d1, data2: d2, data3: d3, data4: d4 }
}

/// The kernel process provider.
pub open spec fn process_guid() -> GuidModel {
    guid_model(0x3d6fa8d0, 0xfe05, 0x11d0, seq![0x9du8, 0xda, 0x00, 0xc0, 0x4f, 0xd7, 0xba, 0x7c])
}

/// The kernel image-load provider.
pub open spec fn image_load_guid() -> GuidModel {
    guid_model(0x2cb15d1d, 0x5fc1, 0x11d2, seq![0xabu8, 0xe1, 0x00, 0xa0, 0xc9, 0x11, 0xf5, 0x18])
}

/// The kernel TCP/IP provider.
pub open spec fn tcpip_guid() -> GuidModel {
    guid_model(0x9a280ac0, 0xc8e0, 0x11d1, seq![0x84u8, 0xe2, 0x00, 0xc0, 0x4f, 0xb9, 0x98, 0xa2])
}

/// The kernel registry provider.
pub open spec fn registry_guid() -> GuidModel {
    guid_model(0xae53722e, 0xc863, 0x11d2, seq![0x86u8, 0x59, 0x00, 0xc0, 0x4f, 0xa3, 0x21, 0xa1])
}

/// The kernel file I/O provider.
pub open spec fn file_io_guid() -> GuidModel {
    guid_model(0x90cbdc39, 0x4a3e, 0x11d1, seq![0x84u8, 0xf4, 0x00, 0x00, 0xf8, 0x04, 0x64, 0xe3])
}

/// The kernel process provider.
pub fn process_provider() -> (r: Guid)
    ensures
        r@ == process_guid(),
{
    let r = Guid { data1: 0x3d6fa8d0, data2: 0xfe05, data3: 0x11d0, data4: [0x9d, 0xda, 0x00, 0xc0, 0x4f, 0xd7, 0xba, 0x7c] };
    assert(r.data4@ == seq![0x9du8, 0xda, 0x00, 0xc0, 0x4f, 0xd7, 0xba, 0x7c]);
    r
}

/// The kernel image-load provider.
pub fn image_load_provider() -> (r: Guid)
    ensures
        r@ == image_load_guid(),
{
    let r = Guid { data1: 0x2cb15d1d, data2: 0x5fc1, data3: 0x11d2, data4: [0xab, 0xe1, 0x00, 0xa0, 0xc9, 0x11, 0xf5, 0x18] };
    assert(r.data4@ == seq![0xabu8, 0xe1, 0x00, 0xa0, 0xc9, 0x11, 0xf5, 0x18]);
    r
}

/// The kernel TCP/IP provider.
pub fn tcpip_provider() -> (r: Guid)
    ensures
        r@ == tcpip_guid(),
{
    let r = Guid { data1: 0x9a280ac0, data2: 0xc8e0, data3: 0x11d1, data4: [0x84, 0xe2, 0x00, 0xc0, 0x4f, 0xb9, 0x98, 0xa2] };
    assert(r.data4@ == seq![0x84u8, 0xe2, 0x00, 0xc0, 0x4f, 0xb9, 0x98, 0xa2]);
    r
}

/// The kernel registry provider.
pub fn registry_provider() -> (r: Guid)
    ensures
        r@ == registry_guid(),
{
    let r = Guid { data1: 0xae53722e, data2: 0xc863, data3: 0x11d2, data4: [0x86, 0x59, 0x00, 0xc0, 0x4f, 0xa3, 0x21, 0xa1] };
    assert(r.data4@ == seq![0x86u8, 0x59, 0x00, 0xc0, 0x4f, 0xa3, 0x21, 0xa1]);
    r
}

/// The kernel file I/O provider.
pub fn file_io_provider() -> (r: Guid)
    ensures
        r@ == file_io_guid(),
{
    let r = Guid { data1: 0x90cbdc39, data2: 0x4a3e, data3: 0x11d1, data4: [0x84, 0xf4, 0x00, 0x00, 0xf8, 0x04, 0x64, 0xe3] };
    assert(r.data4@ == seq![0x84u8, 0xf4, 0x00, 0x00, 0xf8, 0x04, 0x64, 0xe3]);
    r
}

/// Whether two GUIDs are equal.
pub fn guid_eq(a: &Guid, b: &Guid) -> (r: bool)
    ensures
        r == (a@ == b@),
{
    if a.data1 != b.data1 || a.data2 != b.data2 || a.data3 != b.data3 {
        return false;
    }
    let mut i: usize = 0;
    while i < 8
        invariant
            i <= 8,
            forall|k: int| 0 <= k < i ==> a.data4@[k] == b.data4@[k],
        decreases 8 - i,
    {
        if a.data4[i] != b.data4[i] {
            assert(a.data4@[i as int] != b.data4@[i as int]);
            return false;
        }
        i = i + 1;
    }
    assert(a.data4@ =~= b.data4@);
    true
}

// ---------------------------------------------------------------------------
// Copies and dispatch
// ---------------------------------------------------------------------------

/// A copy of a field value.
pub fn copy_value(v: &EventFieldValue) -> (r: EventFieldValue)
    ensures
        r@ == v@,
{
    match v {
        EventFieldValue::String(s) => EventFieldValue::String(str_to_string(s.as_str())),
        EventFieldValue::IpAddr(a) => EventFieldValue::IpAddr(*a),
        EventFieldValue::U8(x) => EventFieldValue::U8(*x),
        EventFieldValue::U16(x) => EventFieldValue::U16(*x),
        EventFieldValue::U32(x) => EventFieldValue::U32(*x),
        EventFieldValue::U64(x) => EventFieldValue::U64(*x),
        EventFieldValue::I32(x) => EventFieldValue::I32(*x),
        EventFieldValue::I64(x) => EventFieldValue::I64(*x),
        EventFieldValue::Bool(x) => EventFieldValue::Bool(*x),
        EventFieldValue::Guid(g) => EventFieldValue::Guid(*g),
        EventFieldValue::Binary(b) => {
            let c = copy_range(b.as_slice(), 0, b.len());
            assert(b@.subrange(0, b@.len() as int) == b@);
            EventFieldValue::Binary(c)
        },
        EventFieldValue::Pointer(x) => EventFieldValue::Pointer(*x),
    }
}

/// A copy of a list of fields.
pub fn copy_fields(fields: &[EventField]) -> (r: Vec<EventField>)
    ensures
        fields_view(r@) == fields_view(fields@),
{
    let mut out: Vec<EventField> = Vec::new();
    let mut i: usize = 0;
    while i < fields.len()
        invariant
            i <= fields@.len(),
            out@.len() == i,
            forall|k: int| 0 <= k < i ==> #[trigger] out@[k]@ == fields@[k]@,
        decreases fields@.len() - i,
    {
        let f = EventField { name: str_to_string(fields[i].name.as_str()), value: copy_value(&fields[i].value) };
        out.push(f);
        i = i + 1;
    }
    out
}

/// The typed event of a field-mapped provider.
pub open spec fn generic_event_spec(provider: GuidModel, opcode: u8, f: Seq<FieldModel>, r: Option<DecodedEvent>) -> bool {
    if provider == tcpip_guid() {
        r matches Some(DecodedEvent::Tcp(e)) && tcp_matches(e, opcode, f)
    } else if provider == registry_guid() {
        r matches Some(DecodedEvent::Registry(e)) && registry_matches(e, opcode, f)
    } else if provider == file_io_guid() {
        r matches Some(DecodedEvent::FileIo(e)) && file_matches(e, opcode, f)
    } else {
        r is None
    }
}

/// Decodes field-based events of the TCP/IP, Registry and File I/O providers.
pub fn decode_from_generic(provider_guid: &Guid, opcode: u8, fields: &[EventField]) -> (r: Option<DecodedEvent>)
    ensures
        generic_event_spec(provider_guid@, opcode, fields_view(fields@), r),
{
    if guid_eq(provider_guid, &tcpip_provider()) {
        return Some(DecodedEvent::Tcp(map_tcp(opcode, fields)));
    }
    if guid_eq(provider_guid, &registry_provider()) {
        return Some(DecodedEvent::Registry(map_registry(opcode, fields)));
    }
    if guid_eq(provider_guid, &file_io_provider()) {
        return Some(DecodedEvent::FileIo(map_file(opcode, fields)));
    }
    None
}

} // verus!
