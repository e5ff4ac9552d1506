//! Volume paths, retrieval pointer buffers and work buffers for raw reads.

use vstd::prelude::*;

use crate::bytes::{le4, le8, read_u32_le, read_u64_le};
use crate::error::{Error, FileOperationError, InvalidParameterError};
use crate::text::{ascii_upper_char, chars_of, push_char, str_to_string, upper_char};

verus! {

/// `c` is an ASCII letter.
pub open spec fn is_ascii_alpha(c: char) -> bool {
    ('a' <= c && c <= 'z') || ('A' <= c && c <= 'Z')
}

/// The volume device path and root directory of a drive path, or the
/// reason the path has no drive prefix.
pub open spec fn drive_and_disk_spec(p: Seq<char>) -> Result<(Seq<char>, Seq<char>), Seq<char>> {
    if p.len() == 0 {
        Err("Path cannot be empty"@)
    } else if p.len() == 1 {
        Err("Path must include a drive separator"@)
    } else if p[1] != ':' || !is_ascii_alpha(p[0]) {
        Err("Path must start with a drive letter (for example C:\\...)"@)
    } else {
        let d = ascii_upper_char(p[0]);
        Ok((seq!['\\', '\\', '.', '\\', d, ':'], seq![d, ':', '\\']))
    }
}

/// Splits a drive path into the volume device path (`\\.\C:`) and the root
/// directory (`C:\`), with the drive letter in uppercase.
pub fn get_drive_and_disk(path: &str) -> (r: Result<(String, String), Error>)
    ensures
        match drive_and_disk_spec(path@) {
            Ok((drive, disk)) => r matches Ok((a, b)) && a@ == drive && b@ == disk,
            Err(reason) => r matches Err(Error::InvalidParameter(e)) && e.parameter@ == "path"@ && e.reason@
                == reason,
        },
{
    let cs = chars_of(path);
    if cs.len() == 0 {
        return Err(Error::InvalidParameter(InvalidParameterError::new("path", "Path cannot be empty")));
    }
    if cs.len() == 1 {
        return Err(Error::InvalidParameter(InvalidParameterError::new("path", "Path must include a drive separator")));
    }
    let drive = cs[0];
    let alpha = ('a' <= drive && drive <= 'z') || ('A' <= drive && drive <= 'Z');
    if cs[1] != ':' || !alpha {
        return Err(
            Error::InvalidParameter(
                InvalidParameterError::new("path", "Path must start with a drive letter (for example C:\\...)"),
            ),
        );
    }
    let d = upper_char(drive);
    let mut device = String::new();
    push_char(&mut device, '\\');
    push_char(&mut device, '\\');
    push_char(&mut device, '.');
    push_char(&mut device, '\\');
    push_char(&mut device, d);
    push_char(&mut device, ':');
    let mut root = String::new();
    push_char(&mut root, d);
    push_char(&mut root, ':');
    push_char(&mut root, '\\');
    assert(device@ =~= seq!['\\', '\\', '.', '\\', d, ':']);
    assert(root@ =~= seq![d, ':', '\\']);
    Ok((device, root))
}

/// One extent of a file's retrieval pointers.
#[derive(Debug, Clone, Copy, PartialEq, Eq, Structural)]
pub struct PointerExtent {
    /// First virtual cluster after this extent.
    pub next_vcn: i64,
    /// First logical cluster of this extent on the volume.
    pub lcn: i64,
}

/// A file's retrieval pointers: where its clusters lie on the volume.
#[derive(Debug, Clone)]
pub struct RetrievalPointersBuffer {
    /// Number of extents reported.
    pub extent_count: u32,
    /// First virtual cluster of the first extent.
    pub starting_vcn: i64,
    /// The extents in order.
    pub extents: Vec<PointerExtent>,
}

/// The extent at index `k` of a retrieval pointer buffer.
pub open spec fn extent_at(b: Seq<u8>, k: int) -> PointerExtent {
    PointerExtent {
        next_vcn: (le8(b, 16 + 16 * k) as u64) as i64,
        lcn: (le8(b, 24 + 16 * k) as u64) as i64,
    }
}

/// A retrieval pointer buffer holds its header and every extent it counts.
pub open spec fn retrieval_buffer_complete(b: Seq<u8>) -> bool {
    b.len() >= 16 && 16 + 16 * le4(b, 0) <= b.len()
}

/// Parses a retrieval pointer buffer: a 16-byte header with the extent
/// count and the starting virtual cluster, then 16 bytes per extent.
pub fn buffer_to_retrieval_pointers(buffer: &[u8]) -> (r: Result<RetrievalPointersBuffer, Error>)
    ensures
        buffer@.len() < 16 ==> (r matches Err(Error::FileOperation(e)) && e.path@ == "source file"@
            && e.operation@ == "parse retrieval pointers"@ && e.error_code is None),
        buffer@.len() >= 16 && !retrieval_buffer_complete(buffer@) ==> (r matches Err(Error::FileOperation(e))
            && e.path@ == "source file"@ && e.operation@ == "parse retrieval pointer extents"@ && e.error_code is None),
        retrieval_buffer_complete(buffer@) ==> (r matches Ok(p) && p.extent_count == le4(buffer@, 0)
            && p.starting_vcn == (le8(buffer@, 8) as u64) as i64 && p.extents@.len() == le4(buffer@, 0)
            && forall|k: int| 0 <= k < p.extents@.len() ==> #[trigger] p.extents@[k] == extent_at(buffer@, k)),
{
    if buffer.len() < 16 {
        return Err(Error::FileOperation(FileOperationError::new("source file", "parse retrieval pointers")));
    }
    let extent_count = read_u32_le(buffer, 0);
    let starting_vcn = read_u64_le(buffer, 8) as i64;
    let mut extents: Vec<PointerExtent> = Vec::new();
    let mut offset: usize = 16;
    let mut k: u32 = 0;
    while k < extent_count
        invariant
            k <= extent_count,
            extent_count == le4(buffer@, 0),
            buffer@.len() >= 16,
            offset == 16 + 16 * k,
            extents@.len() == k,
            forall|j: int| 0 <= j < k ==> #[trigger] extents@[j] == extent_at(buffer@, j),
            16 + 16 * k <= buffer@.len(),
        decreases extent_count - k,
    {
        if buffer.len() - offset < 16 {
            assert(!retrieval_buffer_complete(buffer@));
            return Err(
                Error::FileOperation(FileOperationError::new("source file", "parse retrieval pointer extents")),
            );
        }
        let next_vcn = read_u64_le(buffer, offset) as i64;
        let lcn = read_u64_le(buffer, offset + 8) as i64;
        extents.push(PointerExtent { next_vcn, lcn });
        offset = offset + 16;
        k = k + 1;
    }
    Ok(RetrievalPointersBuffer { extent_count, starting_vcn, extents })
}

/// Reusable work buffers for metadata queries.
#[derive(Debug, Clone)]
pub struct Buffer {
    u8_buffer: Vec<u8>,
    u16_buffer: Vec<u16>,
}

impl Buffer {
    /// The byte buffer.
    pub closed spec fn bytes(&self) -> Seq<u8> {
        self.u8_buffer@
    }

    /// The UTF-16 buffer.
    pub closed spec fn units(&self) -> Seq<u16> {
        self.u16_buffer@
    }

    /// Buffers of 1024 zeroed elements each.
    pub fn new() -> (r: Self)
        ensures
            r.bytes() == Seq::new(1024, |i: int| 0u8),
            r.units() == Seq::new(1024, |i: int| 0u16),
    {
        Buffer::with_capacity(1024)
    }

    /// Buffers of `size` zeroed elements each.
    pub fn with_capacity(size: usize) -> (r: Self)
        ensures
            r.bytes() == Seq::new(size as nat, |i: int| 0u8),
            r.units() == Seq::new(size as nat, |i: int| 0u16),
    {
        let mut a: Vec<u8> = Vec::new();
        let mut b: Vec<u16> = Vec::new();
        let mut i: usize = 0;
        while i < size
            invariant
                i <= size,
                a@ == Seq::new(i as nat, |k: int| 0u8),
                b@ == Seq::new(i as nat, |k: int| 0u16),
            decreases size - i,
        {
            a.push(0);
            b.push(0);
            i = i + 1;
            assert(a@ =~= Seq::new(i as nat, |k: int| 0u8));
            assert(b@ =~= Seq::new(i as nat, |k: int| 0u16));
        }
        Buffer { u8_buffer: a, u16_buffer: b }
    }

    /// The byte buffer, for filling.
    pub fn u8(&mut self) -> (r: &mut Vec<u8>)
        ensures
            r@ == old(self).bytes(),
            final(self).bytes() == final(r)@,
            final(self).units() == old(self).units(),
    {
        &mut self.u8_buffer
    }

    /// The UTF-16 buffer, for filling.
    pub fn u16_vec(&mut self) -> (r: &mut Vec<u16>)
        ensures
            r@ == old(self).units(),
            final(self).units() == final(r)@,
            final(self).bytes() == old(self).bytes(),
    {
        &mut self.u16_buffer
    }
}

} // verus!
