//! Windows Event Log: value types, queries and record parsing.

pub mod log;
pub mod query;
pub mod render;
pub mod timestamp;
pub mod types;
pub mod values;
pub mod xml;

pub use query::QueryBuilder;
pub use types::{
    ChannelFilter, CorruptedEvent, Event, EventId, EventLevel, EventQueryResult, RecordId,
    FieldName, RenderFormat, intern_channel, intern_field_name, intern_provider,
};
