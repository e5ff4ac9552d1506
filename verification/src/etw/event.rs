//! Decoded ETW event values and their mathematical models.

use vstd::prelude::*;

use crate::types::ProcessId;

verus! {

/// An IP address held as its network-order octets.
#[derive(Debug, Clone, Copy, PartialEq, Eq)]
pub enum IpAddress {
    /// IPv4 address.
    V4([u8; 4]),
    /// IPv6 address.
    V6([u8; 16]),
}

/// Model of an [`IpAddress`]: the version and the octets.
pub ghost enum IpModel {
    V4(Seq<u8>),
    V6(Seq<u8>),
}

impl View for IpAddress {
    type V = IpModel;

    open spec fn view(&self) -> IpModel {
        match self {
            IpAddress::V4(a) => IpModel::V4(a@),
            IpAddress::V6(a) => IpModel::V6(a@),
        }
    }
}

/// A GUID in its canonical field layout.
#[derive(Debug, Clone, Copy, PartialEq, Eq)]
pub struct Guid {
    /// First 32-bit group.
    pub data1: u32,
    /// Second 16-bit group.
    pub data2: u16,
    /// Third 16-bit group.
    pub data3: u16,
    /// Final eight bytes.
    pub data4: [u8; 8],
}

/// Model of a [`Guid`].
pub ghost struct GuidModel {
    pub data1: u32,
    pub data2: u16,
    pub data3: u16,
    pub data4: Seq<u8>,
}

impl View for Guid {
    type V = GuidModel;

    open spec fn view(&self) -> GuidModel {
        GuidModel { data1: self.data1, data2: self.data2, data3: self.data3, data4: self.data4@ }
    }
}

/// Typed value for a schema-decoded ETW field.
#[derive(Debug, Clone, PartialEq)]
pub enum EventFieldValue {
    /// Text value.
    String(String),
    /// IP address value (IPv4 or IPv6).
    IpAddr(IpAddress),
    /// Unsigned 8-bit integer.
    U8(u8),
    /// Unsigned 16-bit integer.
    U16(u16),
    /// Unsigned 32-bit integer.
    U32(u32),
    /// Unsigned 64-bit integer.
    U64(u64),
    /// Signed 32-bit integer.
    I32(i32),
    /// Signed 64-bit integer.
    I64(i64),
    /// Boolean value.
    Bool(bool),
    /// GUID value.
    Guid(Guid),
    /// Opaque binary payload.
    Binary(Vec<u8>),
    /// Pointer-sized address represented as u64.
    Pointer(u64),
}

/// Model of an [`EventFieldValue`].
pub ghost enum FieldValueModel {
    Text(Seq<char>),
    Ip(IpModel),
    U8(u8),
    U16(u16),
    U32(u32),
    U64(u64),
    I32(i32),
    I64(i64),
    Bool(bool),
    Guid(GuidModel),
    Binary(Seq<u8>),
    Pointer(u64),
}

impl View for EventFieldValue {
    type V = FieldValueModel;

    open spec fn view(&self) -> FieldValueModel {
        match self {
            EventFieldValue::String(s) => FieldValueModel::Text(s@),
            EventFieldValue::IpAddr(a) => FieldValueModel::Ip(a@),
            EventFieldValue::U8(v) => FieldValueModel::U8(*v),
            EventFieldValue::U16(v) => FieldValueModel::U16(*v),
            EventFieldValue::U32(v) => FieldValueModel::U32(*v),
            EventFieldValue::U64(v) => FieldValueModel::U64(*v),
            EventFieldValue::I32(v) => FieldValueModel::I32(*v),
            EventFieldValue::I64(v) => FieldValueModel::I64(*v),
            EventFieldValue::Bool(v) => FieldValueModel::Bool(*v),
            EventFieldValue::Guid(g) => FieldValueModel::Guid(g@),
            EventFieldValue::Binary(b) => FieldValueModel::Binary(b@),
            EventFieldValue::Pointer(v) => FieldValueModel::Pointer(*v),
        }
    }
}

/// A named field decoded from ETW payload data.
#[derive(Debug, Clone, PartialEq)]
pub struct EventField {
    /// Field name from the provider schema.
    pub name: String,
    /// Decoded value.
    pub value: EventFieldValue,
}

/// Model of an [`EventField`]: its name and the model of its value.
pub ghost struct FieldModel {
    pub name: Seq<char>,
    pub value: FieldValueModel,
}

impl View for EventField {
    type V = FieldModel;

    open spec fn view(&self) -> FieldModel {
        FieldModel { name: self.name@, value: self.value@ }
    }
}

/// The models of a sequence of fields.
pub open spec fn fields_view(fields: Seq<EventField>) -> Seq<FieldModel> {
    Seq::new(fields.len(), |i: int| fields[i]@)
}

/// Decoded operation kind for TCP kernel provider events.
#[derive(Debug, Clone, Copy, PartialEq, Eq, Structural)]
pub enum TcpOperation {
    /// Outbound data send.
    Send,
    /// Inbound data receive.
    Receive,
    /// Connection establishment.
    Connect,
    /// Connection teardown.
    Disconnect,
    /// Retransmitted segment.
    Retransmit,
    /// Accepted incoming connection.
    Accept,
    /// Reconnect attempt or completion.
    Reconnect,
    /// Data copy operation.
    Copy,
    /// Opcode did not match a known TCP operation.
    Unknown,
}

/// Typed representation of a decoded TCP event.
#[derive(Debug, Clone)]
pub struct TcpEvent {
    /// Operation decoded from the opcode.
    pub operation: TcpOperation,
    /// Process that owns the connection.
    pub process_id: Option<ProcessId>,
    /// Source address.
    pub source_ip: Option<IpAddress>,
    /// Source port.
    pub source_port: Option<u16>,
    /// Destination address.
    pub destination_ip: Option<IpAddress>,
    /// Destination port.
    pub destination_port: Option<u16>,
    /// Transfer size.
    pub size: Option<u32>,
    /// TCP sequence number.
    pub sequence_number: Option<u32>,
}

/// Decoded operation kind for Registry kernel provider events.
#[derive(Debug, Clone, Copy, PartialEq, Eq, Structural)]
pub enum RegistryOperation {
    /// Create key operation.
    Create,
    /// Open key operation.
    Open,
    /// Delete key operation.
    DeleteKey,
    /// Query key metadata.
    QueryKey,
    /// Set value data.
    SetValue,
    /// Delete value data.
    DeleteValue,
    /// Query value data.
    QueryValue,
    /// Enumerate subkeys.
    EnumerateKey,
    /// Enumerate values.
    EnumerateValue,
    /// Set key information metadata.
    SetInformation,
    /// Opcode did not match a known registry operation.
    Unknown,
}

/// Typed representation of a decoded Registry event.
#[derive(Debug, Clone)]
pub struct RegistryEvent {
    /// Operation decoded from the opcode.
    pub operation: RegistryOperation,
    /// Process that issued the operation.
    pub process_id: Option<ProcessId>,
    /// Key name.
    pub key_name: Option<String>,
    /// Relative key name.
    pub relative_name: Option<String>,
    /// Value name.
    pub value_name: Option<String>,
    /// Status code.
    pub status: Option<u32>,
    /// Kernel key handle.
    pub key_handle: Option<u64>,
}

/// Decoded operation kind for File I/O kernel provider events.
#[derive(Debug, Clone, Copy, PartialEq, Eq, Structural)]
pub enum FileIoOperation {
    /// File name event (type 0).
    Name,
    /// File create/open event (types 32, 64).
    Create,
    /// File rundown event (type 36).
    Rundown,
    /// Cleanup when the last handle is released (type 65).
    Cleanup,
    /// Close when file object is freed (type 66).
    Close,
    /// Set file information (type 69).
    SetInformation,
    /// Directory enumeration (type 72).
    DirectoryEnumeration,
    /// File buffer flush (type 73).
    Flush,
    /// Query file information (type 74).
    QueryInformation,
    /// File system control operation (type 75).
    FileSystemControl,
    /// End-of-operation event (type 76).
    OperationEnd,
    /// Directory change notification (type 77).
    DirectoryNotification,
    /// File read operation (type 67).
    Read,
    /// File write operation (type 68).
    Write,
    /// File delete operation (types 35, 70).
    Delete,
    /// File rename operation (type 71).
    Rename,
    /// Opcode did not match a known File I/O operation.
    Unknown,
}

/// Typed representation of a decoded File I/O event.
#[derive(Debug, Clone)]
pub struct FileIoEvent {
    /// Operation decoded from the opcode.
    pub operation: FileIoOperation,
    /// Process that issued the operation.
    pub process_id: Option<ProcessId>,
    /// Kernel file object.
    pub file_object: Option<u64>,
    /// I/O request packet pointer.
    pub irp_ptr: Option<u64>,
    /// File key.
    pub file_key: Option<u64>,
    /// Opened path.
    pub open_path: Option<String>,
    /// Create options.
    pub create_options: Option<u32>,
    /// File attributes.
    pub file_attributes: Option<u32>,
    /// Share access flags.
    pub share_access: Option<u32>,
}

/// Typed representation of a decoded process start event.
#[derive(Debug, Clone)]
pub struct ProcessStartEvent {
    /// Started process.
    pub process_id: ProcessId,
    /// Parent process.
    pub parent_process_id: ProcessId,
    /// Session identifier (layouts 1 to 4).
    pub session_id: Option<u32>,
    /// Exit status (layouts 1 to 4).
    pub exit_status: Option<u32>,
    /// Unique process key (layouts 2 to 4).
    pub unique_process_key: Option<u64>,
    /// Directory table base (layouts 1, 3 and 4).
    pub directory_table_base: Option<u64>,
    /// Image file name.
    pub image_file_name: String,
    /// Command line (layouts 1 to 4).
    pub command_line: Option<String>,
    /// User SID in string form.
    pub user_sid: Option<String>,
    /// Payload layout version.
    pub version: u8,
}

/// Typed representation of a decoded process end event.
#[derive(Debug, Clone)]
pub struct ProcessEndEvent {
    /// Ended process.
    pub process_id: ProcessId,
    /// Parent process.
    pub parent_process_id: ProcessId,
    /// Session identifier (layouts 1 to 4).
    pub session_id: Option<u32>,
    /// Exit status (layouts 1 to 4).
    pub exit_status: Option<u32>,
    /// Unique process key (layouts 2 to 4).
    pub unique_process_key: Option<u64>,
    /// Directory table base (layouts 1, 3 and 4).
    pub directory_table_base: Option<u64>,
    /// Image file name.
    pub image_file_name: String,
    /// Command line (layouts 1 to 4).
    pub command_line: Option<String>,
    /// User SID in string form.
    pub user_sid: Option<String>,
    /// Payload layout version.
    pub version: u8,
}

/// Typed representation of a decoded image load event.
#[derive(Debug, Clone)]
pub struct ImageLoadEvent {
    /// Process the image was mapped into.
    pub process_id: ProcessId,
    /// Base address.
    pub image_base: u64,
    /// Mapped size.
    pub image_size: u64,
    /// Image checksum.
    pub checksum: u32,
    /// Link timestamp.
    pub timestamp: u32,
    /// Preferred base address.
    pub default_base: u64,
    /// Image file name.
    pub file_name: String,
    /// Payload layout version.
    pub version: u8,
}

/// Typed representation of a decoded image unload event.
#[derive(Debug, Clone)]
pub struct ImageUnloadEvent {
    /// Process the image was unmapped from.
    pub process_id: ProcessId,
    /// Base address.
    pub image_base: u64,
    /// Mapped size.
    pub image_size: u64,
    /// Image checksum.
    pub checksum: u32,
    /// Link timestamp.
    pub timestamp: u32,
    /// Preferred base address.
    pub default_base: u64,
    /// Image file name.
    pub file_name: String,
    /// Payload layout version.
    pub version: u8,
}

/// The view of an optional text.
pub open spec fn opt_text(o: Option<String>) -> Option<Seq<char>> {
    match o {
        Some(s) => Some(s@),
        None => None,
    }
}

/// Model of the fields shared by process start and end events.
pub ghost struct ProcessModel {
    pub process_id: u32,
    pub parent_process_id: u32,
    pub session_id: Option<u32>,
    pub exit_status: Option<u32>,
    pub unique_process_key: Option<u64>,
    pub directory_table_base: Option<u64>,
    pub image_file_name: Seq<char>,
    pub command_line: Option<Seq<char>>,
    pub user_sid: Option<Seq<char>>,
}

impl ProcessStartEvent {
    /// The model of this event's fields.
    pub open spec fn model(&self) -> ProcessModel {
        ProcessModel {
            process_id: self.process_id.0,
            parent_process_id: self.parent_process_id.0,
            session_id: self.session_id,
            exit_status: self.exit_status,
            unique_process_key: self.unique_process_key,
            directory_table_base: self.directory_table_base,
            image_file_name: self.image_file_name@,
            command_line: opt_text(self.command_line),
            user_sid: opt_text(self.user_sid),
        }
    }
}

impl ProcessEndEvent {
    /// The model of this event's fields.
    pub open spec fn model(&self) -> ProcessModel {
        ProcessModel {
            process_id: self.process_id.0,
            parent_process_id: self.parent_process_id.0,
            session_id: self.session_id,
            exit_status: self.exit_status,
            unique_process_key: self.unique_process_key,
            directory_table_base: self.directory_table_base,
            image_file_name: self.image_file_name@,
            command_line: opt_text(self.command_line),
            user_sid: opt_text(self.user_sid),
        }
    }
}

/// Model of the fields shared by image load and unload events.
pub ghost struct ImageModel {
    pub process_id: u32,
    pub image_base: u64,
    pub image_size: u64,
    pub checksum: u32,
    pub timestamp: u32,
    pub default_base: u64,
    pub file_name: Seq<char>,
}

impl ImageLoadEvent {
    /// The model of this event's fields.
    pub open spec fn model(&self) -> ImageModel {
        ImageModel {
            process_id: self.process_id.0,
            image_base: self.image_base,
            image_size: self.image_size,
            checksum: self.checksum,
            timestamp: self.timestamp,
            default_base: self.default_base,
            file_name: self.file_name@,
        }
    }
}

impl ImageUnloadEvent {
    /// The model of this event's fields.
    pub open spec fn model(&self) -> ImageModel {
        ImageModel {
            process_id: self.process_id.0,
            image_base: self.image_base,
            image_size: self.image_size,
            checksum: self.checksum,
            timestamp: self.timestamp,
            default_base: self.default_base,
            file_name: self.file_name@,
        }
    }
}

/// A decoded ETW event with typed fields.
#[derive(Debug, Clone)]
pub enum DecodedEvent {
    /// Process start event (opcode 1).
    ProcessStart(ProcessStartEvent),
    /// Process end event (opcode 2).
    ProcessEnd(ProcessEndEvent),
    /// Image load event (opcode 10).
    ImageLoad(ImageLoadEvent),
    /// Image unload event (opcode 2).
    ImageUnload(ImageUnloadEvent),
    /// TCP/IP kernel event.
    Tcp(TcpEvent),
    /// Registry kernel event.
    Registry(RegistryEvent),
    /// File I/O kernel event.
    FileIo(FileIoEvent),
    /// Generic schema-decoded fields.
    Generic(Vec<EventField>),
    /// Event was not recognized by the direct decoders.
    Unknown,
}

} // verus!
