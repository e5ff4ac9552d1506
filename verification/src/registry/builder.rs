//! Registry key open options.

use vstd::prelude::*;

use super::types::{Access, Hive, Wow64View};
use crate::error::{Error, InvalidParameterError, RegistryError, RegistryKeyNotFoundError, WindowsApiError};
use crate::text::str_to_string;

verus! {

/// `ERROR_FILE_NOT_FOUND`.
pub const ERROR_FILE_NOT_FOUND: i32 = 2;

/// Builder for opening a registry key.
#[derive(Debug, Clone)]
pub struct RegistryKeyBuilder {
    /// Root key.
    pub hive: Option<Hive>,
    /// Subkey path.
    pub path: Option<String>,
    /// Access level.
    pub access: Access,
    /// Registry view, if one is forced.
    pub wow64: Option<Wow64View>,
}

/// What opening a key does: the hive, the subkey and the access mask.
#[derive(Debug, Clone)]
pub struct RegistryOpenPlan {
    /// Root key.
    pub hive: Hive,
    /// Subkey path.
    pub path: String,
    /// Access mask, with the view bit when a view is forced.
    pub sam_flags: u32,
}

/// The access mask of an access level and an optional view.
pub open spec fn sam_of(access: Access, wow64: Option<Wow64View>) -> u32 {
    match wow64 {
        Some(v) => access.mask() | v.mask(),
        None => access.mask(),
    }
}

impl RegistryKeyBuilder {
    /// A builder with no hive or path, read access and the default view.
    pub fn new() -> (r: Self)
        ensures
            r.hive is None,
            r.path is None,
            r.access == Access::Read,
            r.wow64 is None,
    {
        RegistryKeyBuilder { hive: None, path: None, access: Access::Read, wow64: None }
    }

    /// Set the root key.
    pub fn hive(self, hive: Hive) -> (r: Self)
        ensures
            r == (RegistryKeyBuilder { hive: Some(hive), ..self }),
    {
        RegistryKeyBuilder { hive: Some(hive), ..self }
    }

    /// Set the subkey path.
    pub fn path(self, path: &str) -> (r: Self)
        ensures
            r.path matches Some(p) && p@ == path@,
            r == (RegistryKeyBuilder { path: r.path, ..self }),
    {
        RegistryKeyBuilder { path: Some(str_to_string(path)), ..self }
    }

    /// Open for reading.
    pub fn read(self) -> (r: Self)
        ensures
            r == (RegistryKeyBuilder { access: Access::Read, ..self }),
    {
        RegistryKeyBuilder { access: Access::Read, ..self }
    }

    /// Open for writing (which also reads).
    pub fn write(self) -> (r: Self)
        ensures
            r == (RegistryKeyBuilder { access: Access::ReadWrite, ..self }),
    {
        RegistryKeyBuilder { access: Access::ReadWrite, ..self }
    }

    /// Open for reading and writing.
    pub fn read_write(self) -> (r: Self)
        ensures
            r == (RegistryKeyBuilder { access: Access::ReadWrite, ..self }),
    {
        RegistryKeyBuilder { access: Access::ReadWrite, ..self }
    }

    /// Use the 32-bit registry view.
    pub fn wow64_32(self) -> (r: Self)
        ensures
            r == (RegistryKeyBuilder { wow64: Some(Wow64View::Key32), ..self }),
    {
        RegistryKeyBuilder { wow64: Some(Wow64View::Key32), ..self }
    }

    /// Use the 64-bit registry view.
    pub fn wow64_64(self) -> (r: Self)
        ensures
            r == (RegistryKeyBuilder { wow64: Some(Wow64View::Key64), ..self }),
    {
        RegistryKeyBuilder { wow64: Some(Wow64View::Key64), ..self }
    }

    /// Validate the options into the plan of opening the key: the hive, then
    /// the path, must be set.
    pub fn open(self) -> (r: Result<RegistryOpenPlan, Error>)
        ensures
            self.hive is None ==> (r matches Err(Error::InvalidParameter(e)) && e.parameter@ == "hive"@
                && e.reason@ == "Registry hive must be specified"@),
            self.hive is Some && self.path is None ==> (r matches Err(Error::InvalidParameter(e))
                && e.parameter@ == "path"@ && e.reason@ == "Registry path must be specified"@),
            self.hive is Some && self.path is Some ==> (r matches Ok(p) && p.hive == self.hive->0 && p.path
                == self.path->0 && p.sam_flags == sam_of(self.access, self.wow64)),
    {
        let hive = match self.hive {
            Some(h) => h,
            None => {
                return Err(Error::InvalidParameter(InvalidParameterError::new("hive", "Registry hive must be specified")));
            },
        };
        let path = match self.path {
            Some(p) => p,
            None => {
                return Err(Error::InvalidParameter(InvalidParameterError::new("path", "Registry path must be specified")));
            },
        };
        let mut sam_flags = self.access.to_sam_flags();
        if let Some(v) = self.wow64 {
            sam_flags = sam_flags | v.to_sam_flags();
        }
        Ok(RegistryOpenPlan { hive, path, sam_flags })
    }
}

/// The error of a failed key open: a missing key is reported by path, any
/// other code as a Windows API error of `RegOpenKeyExW`.
pub fn open_failure(path: &str, code: i32, message: &str) -> (r: Error)
    ensures
        code == ERROR_FILE_NOT_FOUND ==> (r matches Error::Registry(RegistryError::KeyNotFound(e)) && e.key_path@
            == path@ && e.error_code is None),
        code != ERROR_FILE_NOT_FOUND ==> (r matches Error::WindowsApi(e) && e.error_code == code && e.inner@
            == message@ && (e.context matches Some(c) && c@ == "RegOpenKeyExW"@)),
{
    if code == ERROR_FILE_NOT_FOUND {
        Error::Registry(RegistryError::KeyNotFound(RegistryKeyNotFoundError::new(path)))
    } else {
        Error::WindowsApi(WindowsApiError::with_context(code, message, "RegOpenKeyExW"))
    }
}

} // verus!
