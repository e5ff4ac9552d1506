//! Identifier newtypes shared across modules.

use vstd::prelude::*;

verus! {

/// A Windows process identifier.
#[derive(Debug, Clone, Copy, PartialEq, Eq, Hash, Structural)]
pub struct ProcessId(pub u32);

impl ProcessId {
    /// Wraps a raw process identifier.
    pub fn new(id: u32) -> (r: Self)
        ensures
            r.0 == id,
    {
        ProcessId(id)
    }

    /// The raw process identifier.
    pub fn as_u32(&self) -> (r: u32)
        ensures
            r == self.0,
    {
        self.0
    }
}

impl From<u32> for ProcessId {
    fn from(id: u32) -> (r: Self) {
        ProcessId(id)
    }
}

impl vstd::std_specs::convert::FromSpecImpl<u32> for ProcessId {
    open spec fn obeys_from_spec() -> bool {
        true
    }

    open spec fn from_spec(id: u32) -> Self {
        ProcessId(id)
    }
}

/// A Windows thread identifier.
#[derive(Debug, Clone, Copy, PartialEq, Eq, Hash, Structural)]
pub struct ThreadId(pub u32);

impl ThreadId {
    /// Wraps a raw thread identifier.
    pub fn new(id: u32) -> (r: Self)
        ensures
            r.0 == id,
    {
        ThreadId(id)
    }

    /// The raw thread identifier.
    pub fn as_u32(&self) -> (r: u32)
        ensures
            r == self.0,
    {
        self.0
    }
}

impl From<u32> for ThreadId {
    fn from(id: u32) -> (r: Self) {
        ThreadId(id)
    }
}

impl vstd::std_specs::convert::FromSpecImpl<u32> for ThreadId {
    open spec fn obeys_from_spec() -> bool {
        true
    }

    open spec fn from_spec(id: u32) -> Self {
        ThreadId(id)
    }
}

} // verus!
