//! Registry hives, access rights and registry views.

use vstd::prelude::*;

verus! {

/// A registry root key.
#[derive(Debug, Clone, Copy, PartialEq, Eq, Structural)]
pub enum Hive {
    /// `HKEY_CLASSES_ROOT`.
    ClassesRoot,
    /// `HKEY_CURRENT_USER`.
    CurrentUser,
    /// `HKEY_LOCAL_MACHINE`.
    LocalMachine,
    /// `HKEY_USERS`.
    Users,
    /// `HKEY_CURRENT_CONFIG`.
    CurrentConfig,
}

impl Hive {
    /// The predefined handle value of a hive.
    pub open spec fn handle(self) -> u32 {
        match self {
            Hive::ClassesRoot => 0x8000_0000,
            Hive::CurrentUser => 0x8000_0001,
            Hive::LocalMachine => 0x8000_0002,
            Hive::Users => 0x8000_0003,
            Hive::CurrentConfig => 0x8000_0005,
        }
    }

    /// The predefined handle value (`HKEY_*`) of this hive.
    pub fn as_hkey(&self) -> (r: u32)
        ensures
            r == self.handle(),
    {
        match self {
            Hive::ClassesRoot => 0x8000_0000,
            Hive::CurrentUser => 0x8000_0001,
            Hive::LocalMachine => 0x8000_0002,
            Hive::Users => 0x8000_0003,
            Hive::CurrentConfig => 0x8000_0005,
        }
    }
}

/// `KEY_READ`.
pub const KEY_READ: u32 = 0x0002_0019;
/// `KEY_WRITE`.
pub const KEY_WRITE: u32 = 0x0002_0006;
/// `KEY_ALL_ACCESS`.
pub const KEY_ALL_ACCESS: u32 = 0x000F_003F;
/// `KEY_WOW64_32KEY`.
pub const KEY_WOW64_32KEY: u32 = 0x0200;
/// `KEY_WOW64_64KEY`.
pub const KEY_WOW64_64KEY: u32 = 0x0100;

/// Access rights to open a key with.
#[derive(Debug, Clone, Copy, PartialEq, Eq, Structural)]
pub enum Access {
    /// Read values and enumerate subkeys.
    Read,
    /// Write values and create subkeys.
    Write,
    /// Read and write.
    ReadWrite,
    /// Every right.
    AllAccess,
}

impl Access {
    /// The security access mask of an access level.
    pub open spec fn mask(self) -> u32 {
        match self {
            Access::Read => KEY_READ,
            Access::Write => KEY_WRITE,
            Access::ReadWrite => KEY_READ | KEY_WRITE,
            Access::AllAccess => KEY_ALL_ACCESS,
        }
    }

    /// The security access mask of this access level.
    pub fn to_sam_flags(self) -> (r: u32)
        ensures
            r == self.mask(),
    {
        match self {
            Access::Read => KEY_READ,
            Access::Write => KEY_WRITE,
            Access::ReadWrite => KEY_READ | KEY_WRITE,
            Access::AllAccess => KEY_ALL_ACCESS,
        }
    }
}

/// Which registry view a 64-bit system shows.
#[derive(Debug, Clone, Copy, PartialEq, Eq, Structural)]
pub enum Wow64View {
    /// The 32-bit view.
    Key32,
    /// The 64-bit view.
    Key64,
}

impl Wow64View {
    /// The access mask bit of a view.
    pub open spec fn mask(self) -> u32 {
        match self {
            Wow64View::Key32 => KEY_WOW64_32KEY,
            Wow64View::Key64 => KEY_WOW64_64KEY,
        }
    }

    /// The access mask bit of this view.
    pub fn to_sam_flags(self) -> (r: u32)
        ensures
            r == self.mask(),
    {
        match self {
            Wow64View::Key32 => KEY_WOW64_32KEY,
            Wow64View::Key64 => KEY_WOW64_64KEY,
        }
    }
}

} // verus!
