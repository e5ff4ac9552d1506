//! Whether the current process runs elevated, and what an operation that
//! needs elevation answers when it does not.

use vstd::prelude::*;

use crate::error::{AccessDeniedError, Error};

verus! {

/// Whether a `TOKEN_ELEVATION.TokenIsElevated` value means elevated: any
/// value but 0.
pub fn token_is_elevated(token_is_elevated_value: u32) -> (r: bool)
    ensures
        r == (token_is_elevated_value != 0),
{
    token_is_elevated_value != 0
}

/// Ensure the current process has elevated privileges, returning an error
/// if not; `elevated` is what the process token reports.
pub fn require_elevation(elevated: bool) -> (r: Result<(), Error>)
    ensures
        elevated ==> r is Ok,
        !elevated ==> (r matches Err(Error::AccessDenied(e)) && e.resource@ == "operation"@
            && e.operation@ == "elevation"@ && e.reason is None),
{
    if !elevated {
        return Err(Error::AccessDenied(AccessDeniedError::new("operation", "elevation")));
    }
    Ok(())
}

} // verus!
