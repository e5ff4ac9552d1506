//! Event Tracing for Windows: payload decoding, schema-driven field parsing
//! and trace session configuration.

pub mod event;
pub mod schema;
pub mod decode;
pub mod generic_map;
pub mod session;
pub mod tdh;
pub mod trace;
pub mod consumer;

pub use event::{
    DecodedEvent, EventField, EventFieldValue, FileIoEvent, FileIoOperation, Guid, ImageLoadEvent,
    ImageUnloadEvent, IpAddress, ProcessEndEvent, ProcessStartEvent, RegistryEvent,
    RegistryOperation, TcpEvent, TcpOperation,
};
