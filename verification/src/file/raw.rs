//! Reading a file through its clusters on the volume: the cursor that walks
//! the file's extents and says, for each read, where on the disk to read and
//! how much, and what the read then counts for.

use vstd::prelude::*;

use crate::file::win::{PointerExtent, RetrievalPointersBuffer};

verus! {

/// What the next read of a raw file does.
#[derive(Debug, Clone, Copy, PartialEq, Eq, Structural)]
pub enum RawReadPlan {
    /// The output buffer is smaller than one cluster.
    BufferTooSmall,
    /// The file has been read to its end.
    EndOfData,
    /// An extent ends before the one before it.
    NotMonotonic,
    /// The disk offset of the next read is beyond what a 64-bit offset holds.
    OffsetOverflow,
    /// Read `bytes_to_read` bytes at `disk_offset`, then commit the read.
    Read { disk_offset: i64, bytes_to_read: u32, clusters_to_read: usize, clusters_available: usize },
}

/// `ERROR_INSUFFICIENT_BUFFER`, the OS error of a buffer smaller than one
/// cluster.
pub const ERROR_INSUFFICIENT_BUFFER: i32 = 122;

/// Why a raw read failed.
#[derive(Debug, Clone, Copy, PartialEq, Eq, Structural)]
pub enum RawReadError {
    /// An OS error code: [`ERROR_INSUFFICIENT_BUFFER`] for too small a
    /// buffer, or the code of a failed disk seek or read.
    Os(i32),
    /// Retrieval pointers are not monotonic.
    NotMonotonic,
    /// The disk offset of the next read is beyond what a 64-bit offset holds.
    OffsetOverflow,
}

/// Where a raw read stands: the file's extents, its size, the cluster size
/// and how far it has been read.
pub struct RawReadCursor {
    file_size: u64,
    starting_vcn: i64,
    extents: Vec<PointerExtent>,
    bytes_per_cluster: usize,
    extent_index: usize,
    bytes_read: usize,
    cluster_index: usize,
}

/// The first virtual cluster of the extent at `idx`.
pub open spec fn previous_vcn(extents: Seq<PointerExtent>, starting_vcn: i64, idx: int) -> int {
    if idx > 0 {
        extents[idx - 1].next_vcn as int
    } else {
        starting_vcn as int
    }
}

/// The plan of the next read from extent `idx`, cluster `ci` on: extents
/// whose clusters are all read are passed; then the clusters left in the
/// extent, as many as fit the buffer. Returns the plan and where the cursor
/// then stands.
pub open spec fn plan_from(
    extents: Seq<PointerExtent>,
    starting_vcn: i64,
    bpc: nat,
    buffer_len: nat,
    idx: int,
    ci: nat,
) -> (RawReadPlan, int, nat)
    decreases extents.len() - idx,
{
    if idx < 0 || idx >= extents.len() {
        (RawReadPlan::EndOfData, idx, ci)
    } else {
        let e = extents[idx];
        let prev = previous_vcn(extents, starting_vcn, idx);
        if (e.next_vcn as int) < prev {
            (RawReadPlan::NotMonotonic, idx, ci)
        } else {
            let count = ((e.next_vcn - prev) as usize) as nat;
            if ci >= count {
                plan_from(extents, starting_vcn, bpc, buffer_len, idx + 1, 0)
            } else {
                let available = (count - ci) as nat;
                let capacity = buffer_len / bpc;
                let to_read = if available < capacity {
                    available
                } else {
                    capacity
                };
                if to_read == 0 {
                    (RawReadPlan::EndOfData, idx, ci)
                } else {
                    let offset = (e.lcn + ci) * bpc;
                    if offset < i64::MIN || offset > i64::MAX {
                        (RawReadPlan::OffsetOverflow, idx, ci)
                    } else {
                        (
                            RawReadPlan::Read {
                                disk_offset: offset as i64,
                                bytes_to_read: (to_read * bpc) as u32,
                                clusters_to_read: to_read as usize,
                                clusters_available: available as usize,
                            },
                            idx,
                            ci,
                        )
                    }
                }
            }
        }
    }
}

/// A planned read asks for at least one cluster, for no more clusters than
/// the extent has left, so that the cursor's cluster index stays within the
/// extent's cluster count, and for no more bytes than the buffer holds.
pub proof fn planned_read_fits(
    extents: Seq<PointerExtent>,
    starting_vcn: i64,
    bpc: nat,
    buffer_len: nat,
    idx: int,
    ci: nat,
)
    requires
        bpc > 0,
    ensures
        ({
            let p = plan_from(extents, starting_vcn, bpc, buffer_len, idx, ci);
            p.0 matches RawReadPlan::Read { bytes_to_read, clusters_to_read, clusters_available, .. } ==> {
                &&& 0 < clusters_to_read <= clusters_available
                &&& p.2 + clusters_to_read <= usize::MAX
                &&& bytes_to_read <= buffer_len
            }
        }),
    decreases extents.len() - idx,
{
    if 0 <= idx < extents.len() {
        let e = extents[idx];
        let prev = previous_vcn(extents, starting_vcn, idx);
        if (e.next_vcn as int) >= prev {
            let count = ((e.next_vcn - prev) as usize) as nat;
            if ci >= count {
                planned_read_fits(extents, starting_vcn, bpc, buffer_len, idx + 1, 0);
            } else {
                let available = (count - ci) as nat;
                let capacity = buffer_len / bpc;
                let to_read = if available < capacity { available } else { capacity };
                if to_read > 0 {
                    assert(to_read * bpc <= buffer_len) by (nonlinear_arith)
                        requires
                            to_read <= capacity,
                            capacity == buffer_len / bpc,
                            bpc > 0,
                    ;
                }
            }
        }
    }
}

impl RawReadCursor {
    /// The file size in bytes.
    pub closed spec fn spec_file_size(&self) -> u64 {
        self.file_size
    }

    /// The file's extents.
    pub closed spec fn spec_extents(&self) -> Seq<PointerExtent> {
        self.extents@
    }

    /// The first virtual cluster of the first extent.
    pub closed spec fn spec_starting_vcn(&self) -> i64 {
        self.starting_vcn
    }

    /// Bytes per cluster.
    pub closed spec fn spec_bytes_per_cluster(&self) -> usize {
        self.bytes_per_cluster
    }

    /// The extent being read.
    pub closed spec fn spec_extent_index(&self) -> usize {
        self.extent_index
    }

    /// The cluster within the extent being read.
    pub closed spec fn spec_cluster_index(&self) -> usize {
        self.cluster_index
    }

    /// Bytes read so far.
    pub closed spec fn spec_bytes_read(&self) -> usize {
        self.bytes_read
    }

    #[verifier::type_invariant]
    spec fn read_within_file(&self) -> bool {
        &&& self.file_size as int <= usize::MAX
        &&& self.bytes_read as int <= self.file_size as int
        &&& self.extent_index <= self.extents@.len()
    }

    /// A cursor at the start of a file of `file_size` bytes whose clusters
    /// `pointers` lists, on a volume of the given sector and cluster sizes.
    pub fn new(file_size: u64, pointers: RetrievalPointersBuffer, bytes_per_sector: u32, sectors_per_cluster: u32) -> (r:
        Self)
        requires
            bytes_per_sector as int * sectors_per_cluster as int <= usize::MAX,
            file_size as int <= usize::MAX,
        ensures
            r.spec_file_size() == file_size,
            r.spec_extents() == pointers.extents@,
            r.spec_starting_vcn() == pointers.starting_vcn,
            r.spec_bytes_per_cluster() == bytes_per_sector as int * sectors_per_cluster as int,
            r.spec_extent_index() == 0,
            r.spec_cluster_index() == 0,
            r.spec_bytes_read() == 0,
    {
        let bpc = (bytes_per_sector as u64 * sectors_per_cluster as u64) as usize;
        RawReadCursor {
            file_size,
            starting_vcn: pointers.starting_vcn,
            extents: pointers.extents,
            bytes_per_cluster: bpc,
            extent_index: 0,
            bytes_read: 0,
            cluster_index: 0,
        }
    }

    /// Bytes per cluster.
    pub fn bytes_per_cluster(&self) -> (r: usize)
        ensures
            r == self.spec_bytes_per_cluster(),
    {
        self.bytes_per_cluster
    }

    /// What the next read into a buffer of `buffer_len` bytes does: too
    /// small a buffer, the end of the data, a broken extent list, an offset
    /// out of range, or a read at a disk offset; see [`plan_from`]. The
    /// cursor passes the extents that are fully read.
    pub fn plan_read(&mut self, buffer_len: usize) -> (r: RawReadPlan)
        requires
            old(self).spec_bytes_per_cluster() > 0,
        ensures
            final(self).spec_file_size() == old(self).spec_file_size(),
            final(self).spec_extents() == old(self).spec_extents(),
            final(self).spec_starting_vcn() == old(self).spec_starting_vcn(),
            final(self).spec_bytes_per_cluster() == old(self).spec_bytes_per_cluster(),
            final(self).spec_bytes_read() == old(self).spec_bytes_read(),
            buffer_len < old(self).spec_bytes_per_cluster() ==> r == RawReadPlan::BufferTooSmall
                && final(self).spec_extent_index() == old(self).spec_extent_index()
                && final(self).spec_cluster_index() == old(self).spec_cluster_index(),
            buffer_len >= old(self).spec_bytes_per_cluster() && old(self).spec_bytes_read() >= old(
                self,
            ).spec_file_size() as usize ==> r == RawReadPlan::EndOfData && final(self).spec_extent_index()
                == old(self).spec_extent_index() && final(self).spec_cluster_index() == old(
                self,
            ).spec_cluster_index(),
            buffer_len >= old(self).spec_bytes_per_cluster() && old(self).spec_bytes_read() < old(
                self,
            ).spec_file_size() as usize ==> ({
                let p = plan_from(
                    old(self).spec_extents(),
                    old(self).spec_starting_vcn(),
                    old(self).spec_bytes_per_cluster() as nat,
                    buffer_len as nat,
                    old(self).spec_extent_index() as int,
                    old(self).spec_cluster_index() as nat,
                );
                r == p.0 && final(self).spec_extent_index() == p.1 && final(self).spec_cluster_index()
                    == p.2
            }),
    {
        proof {
            use_type_invariant(&*self);
        }
        let bpc = self.bytes_per_cluster;
        if buffer_len < bpc {
            return RawReadPlan::BufferTooSmall;
        }
        if self.bytes_read >= self.file_size as usize {
            return RawReadPlan::EndOfData;
        }
        let ghost target = plan_from(
            self.extents@,
            self.starting_vcn,
            bpc as nat,
            buffer_len as nat,
            self.extent_index as int,
            self.cluster_index as nat,
        );
        while self.extent_index < self.extents.len()
            invariant
                plan_from(
                    self.extents@,
                    self.starting_vcn,
                    bpc as nat,
                    buffer_len as nat,
                    self.extent_index as int,
                    self.cluster_index as nat,
                ) == target,
                target == plan_from(
                    old(self).extents@,
                    old(self).starting_vcn,
                    bpc as nat,
                    buffer_len as nat,
                    old(self).extent_index as int,
                    old(self).cluster_index as nat,
                ),
                bpc == self.bytes_per_cluster,
                bpc > 0,
                buffer_len >= bpc,
                self.file_size == old(self).file_size,
                self.extents@ == old(self).extents@,
                self.starting_vcn == old(self).starting_vcn,
                self.bytes_per_cluster == old(self).bytes_per_cluster,
                self.bytes_read == old(self).bytes_read,
                self.bytes_read < self.file_size as usize,
                self.file_size as int <= usize::MAX,
                self.bytes_read as int <= self.file_size as int,
                self.extent_index <= self.extents@.len(),
            decreases self.extents@.len() - self.extent_index,
        {
            let idx = self.extent_index;
            let e = self.extents[idx];
            let prev: i64 = if idx > 0 {
                self.extents[idx - 1].next_vcn
            } else {
                self.starting_vcn
            };
            let ghost ci = self.cluster_index as nat;
            assert(prev == previous_vcn(self.extents@, self.starting_vcn, idx as int));
            if e.next_vcn < prev {
                assert(target == (RawReadPlan::NotMonotonic, idx as int, ci));
                return RawReadPlan::NotMonotonic;
            }
            let count = ((e.next_vcn as i128) - (prev as i128)) as usize;
            if self.cluster_index >= count {
                self.extent_index = idx + 1;
                self.cluster_index = 0;
                continue;
            }
            let available = count - self.cluster_index;
            let capacity = buffer_len / bpc;
            let to_read = if available < capacity {
                available
            } else {
                capacity
            };
            if to_read == 0 {
                assert(target == (RawReadPlan::EndOfData, idx as int, ci));
                return RawReadPlan::EndOfData;
            }
            let first_cluster: i128 = (e.lcn as i128) + (self.cluster_index as i128);
            let offset: i128 = match first_cluster.checked_mul(bpc as i128) {
                Some(v) => v,
                None => {
                    assert(target == (RawReadPlan::OffsetOverflow, idx as int, ci));
                    return RawReadPlan::OffsetOverflow;
                },
            };
            if offset < i64::MIN as i128 || offset > i64::MAX as i128 {
                return RawReadPlan::OffsetOverflow;
            }
            assert(to_read as int * bpc as int <= buffer_len as int) by (nonlinear_arith)
                requires
                    to_read <= capacity,
                    capacity == buffer_len / bpc,
                    bpc > 0,
            ;
            let bytes = (to_read as u128 * bpc as u128) as u32;
            assert(bytes == (to_read as nat * bpc as nat) as u32) by {
                assert((to_read as u128 * bpc as u128) as int == to_read as int * bpc as int);
            }
            return RawReadPlan::Read {
                disk_offset: offset as i64,
                bytes_to_read: bytes,
                clusters_to_read: to_read,
                clusters_available: available,
            };
        }
        RawReadPlan::EndOfData
    }

    /// Counts a read of `read_bytes` bytes done as a plan said: no more than
    /// the file holds counts, and the cursor moves past the clusters read.
    /// Returns the bytes that count.
    pub fn commit_read(&mut self, read_bytes: u32, clusters_to_read: usize, clusters_available: usize) -> (r: usize)
        requires
            clusters_to_read <= clusters_available,
            old(self).spec_cluster_index() + clusters_to_read <= usize::MAX,
        ensures
            r as int == if old(self).spec_bytes_read() + read_bytes > old(self).spec_file_size() as usize {
                ((old(self).spec_file_size() - old(self).spec_bytes_read() as u64) as u32) as int
            } else {
                read_bytes as int
            },
            final(self).spec_bytes_read() == old(self).spec_bytes_read() + r,
            final(self).spec_bytes_read() <= final(self).spec_file_size() as usize,
            clusters_to_read == clusters_available ==> final(self).spec_extent_index() == if old(
                self,
            ).spec_extent_index() < old(self).spec_extents().len() {
                old(self).spec_extent_index() + 1
            } else {
                old(self).spec_extent_index() as int
            } && final(self).spec_cluster_index() == 0,
            clusters_to_read != clusters_available ==> final(self).spec_extent_index() == old(
                self,
            ).spec_extent_index() && final(self).spec_cluster_index() == old(self).spec_cluster_index()
                + clusters_to_read,
            final(self).spec_file_size() == old(self).spec_file_size(),
            final(self).spec_extents() == old(self).spec_extents(),
            final(self).spec_starting_vcn() == old(self).spec_starting_vcn(),
            final(self).spec_bytes_per_cluster() == old(self).spec_bytes_per_cluster(),
    {
        proof {
            use_type_invariant(&*self);
        }
        let limit = self.file_size as usize;
        let counted: u32 = if self.bytes_read as u128 + read_bytes as u128 > limit as u128 {
            (self.file_size - self.bytes_read as u64) as u32
        } else {
            read_bytes
        };
        let new_read = self.bytes_read + counted as usize;

        self.bytes_read = new_read;
        if clusters_to_read == clusters_available {
            if self.extent_index < self.extents.len() {
                self.extent_index = self.extent_index + 1;
            }
            self.cluster_index = 0;
        } else {
            self.cluster_index = self.cluster_index + clusters_to_read;
        }
        counted as usize
    }

    /// Bytes read so far: never more than the file holds.
    pub fn bytes_read(&self) -> (r: usize)
        ensures
            r == self.spec_bytes_read(),
            r <= self.spec_file_size(),
    {
        proof {
            use_type_invariant(self);
        }
        self.bytes_read
    }

    /// What a read returns once its plan is known and, for a planned read,
    /// the disk has been read (`Ok` with the bytes the disk gave, or the OS
    /// error of the seek or read): too small a buffer is OS error
    /// [`ERROR_INSUFFICIENT_BUFFER`], the end of the data reads 0 bytes, and
    /// a disk read counts as [`RawReadCursor::commit_read`] says. A read that
    /// fails leaves the cursor as it was; no read counts more bytes than the
    /// file has left.
    pub fn complete_read(&mut self, plan: RawReadPlan, disk: Result<u32, i32>) -> (r: Result<usize, RawReadError>)
        requires
            plan matches RawReadPlan::Read { clusters_to_read, clusters_available, .. } ==> clusters_to_read
                <= clusters_available && old(self).spec_cluster_index() + clusters_to_read <= usize::MAX,
        ensures
            final(self).spec_file_size() == old(self).spec_file_size(),
            final(self).spec_extents() == old(self).spec_extents(),
            final(self).spec_starting_vcn() == old(self).spec_starting_vcn(),
            final(self).spec_bytes_per_cluster() == old(self).spec_bytes_per_cluster(),
            final(self).spec_bytes_read() <= final(self).spec_file_size(),
            r is Err ==> final(self).spec_bytes_read() == old(self).spec_bytes_read()
                && final(self).spec_extent_index() == old(self).spec_extent_index()
                && final(self).spec_cluster_index() == old(self).spec_cluster_index(),
            plan == RawReadPlan::BufferTooSmall ==> r == Err::<usize, RawReadError>(
                RawReadError::Os(ERROR_INSUFFICIENT_BUFFER),
            ),
            plan == RawReadPlan::EndOfData ==> r == Ok::<usize, RawReadError>(0)
                && final(self).spec_bytes_read() == old(self).spec_bytes_read()
                && final(self).spec_extent_index() == old(self).spec_extent_index()
                && final(self).spec_cluster_index() == old(self).spec_cluster_index(),
            plan == RawReadPlan::NotMonotonic ==> r == Err::<usize, RawReadError>(RawReadError::NotMonotonic),
            plan == RawReadPlan::OffsetOverflow ==> r == Err::<usize, RawReadError>(RawReadError::OffsetOverflow),
            plan matches RawReadPlan::Read { clusters_to_read, clusters_available, .. } ==> match disk {
                Err(code) => r == Err::<usize, RawReadError>(RawReadError::Os(code)),
                Ok(n) => r matches Ok(k) && k == final(self).spec_bytes_read() - old(self).spec_bytes_read()
                    && k == if old(self).spec_bytes_read() + n > old(self).spec_file_size() {
                    old(self).spec_file_size() - old(self).spec_bytes_read()
                } else {
                    n as int
                } && (clusters_to_read == clusters_available ==> final(self).spec_cluster_index() == 0
                    && final(self).spec_extent_index() == if old(self).spec_extent_index() < old(
                    self,
                ).spec_extents().len() {
                    old(self).spec_extent_index() + 1
                } else {
                    old(self).spec_extent_index() as int
                })
                    && (clusters_to_read != clusters_available ==> final(self).spec_cluster_index() == old(
                    self,
                ).spec_cluster_index() + clusters_to_read
                    && final(self).spec_extent_index() == old(self).spec_extent_index()),
            },
    {
        proof {
            use_type_invariant(&*self);
        }
        match plan {
            RawReadPlan::BufferTooSmall => Err(RawReadError::Os(ERROR_INSUFFICIENT_BUFFER)),
            RawReadPlan::EndOfData => Ok(0),
            RawReadPlan::NotMonotonic => Err(RawReadError::NotMonotonic),
            RawReadPlan::OffsetOverflow => Err(RawReadError::OffsetOverflow),
            RawReadPlan::Read { clusters_to_read, clusters_available, .. } => match disk {
                Err(code) => Err(RawReadError::Os(code)),
                Ok(n) => {
                    let k = self.commit_read(n, clusters_to_read, clusters_available);
                    Ok(k)
                },
            },
        }
    }
}

} // verus!
