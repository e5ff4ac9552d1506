//! Little-endian integer reads and sub-slice copies over byte buffers.

use vstd::prelude::*;

verus! {

/// Little-endian value of the two bytes at `i`.
pub open spec fn le2(s: Seq<u8>, i: int) -> nat {
    s[i] as nat + s[i + 1] as nat * 256
}

/// Little-endian value of the four bytes at `i`.
pub open spec fn le4(s: Seq<u8>, i: int) -> nat {
    le2(s, i) + le2(s, i + 2) * 65536
}

/// Little-endian value of the eight bytes at `i`.
pub open spec fn le8(s: Seq<u8>, i: int) -> nat {
    le4(s, i) + le4(s, i + 4) * 4294967296
}

/// Big-endian value of the two bytes at `i`.
pub open spec fn be2(s: Seq<u8>, i: int) -> nat {
    s[i] as nat * 256 + s[i + 1] as nat
}

/// Big-endian value of the four bytes at `i`.
pub open spec fn be4(s: Seq<u8>, i: int) -> nat {
    be2(s, i) * 65536 + be2(s, i + 2)
}

/// Index of the first zero byte at or after `i`, or the length when there is none.
pub open spec fn first_zero(s: Seq<u8>, i: int) -> int
    decreases s.len() - i,
{
    if i >= s.len() {
        s.len() as int
    } else if s[i] == 0 {
        i
    } else {
        first_zero(s, i + 1)
    }
}

/// The first zero at or after `i` lies between `i` and the end.
pub proof fn lemma_first_zero_bounds(s: Seq<u8>, i: int)
    requires
        0 <= i <= s.len(),
    ensures
        i <= first_zero(s, i) <= s.len(),
    decreases s.len() - i,
{
    if i < s.len() && s[i] != 0 {
        lemma_first_zero_bounds(s, i + 1);
    }
}

/// Reads a little-endian `u16` at `i`.
pub fn read_u16_le(data: &[u8], i: usize) -> (r: u16)
    requires
        i + 2 <= data@.len(),
    ensures
        r as nat == le2(data@, i as int),
{
    (data[i] as u16) + (data[i + 1] as u16) * 256
}

/// Reads a little-endian `u32` at `i`.
pub fn read_u32_le(data: &[u8], i: usize) -> (r: u32)
    requires
        i + 4 <= data@.len(),
    ensures
        r as nat == le4(data@, i as int),
{
    let n = data.len();
    assert(i + 2 < n);
    let lo = read_u16_le(data, i);
    let hi = read_u16_le(data, i + 2);
    (lo as u32) + (hi as u32) * 65536
}

/// Reads a little-endian `u64` at `i`.
pub fn read_u64_le(data: &[u8], i: usize) -> (r: u64)
    requires
        i + 8 <= data@.len(),
    ensures
        r as nat == le8(data@, i as int),
{
    let n = data.len();
    assert(i + 4 < n);
    let lo = read_u32_le(data, i);
    let hi = read_u32_le(data, i + 4);
    (lo as u64) + (hi as u64) * 4294967296
}

/// Reads a big-endian `u16` at `i`.
pub fn read_u16_be(data: &[u8], i: usize) -> (r: u16)
    requires
        i + 2 <= data@.len(),
    ensures
        r as nat == be2(data@, i as int),
{
    (data[i] as u16) * 256 + (data[i + 1] as u16)
}

/// Reads a big-endian `u32` at `i`.
pub fn read_u32_be(data: &[u8], i: usize) -> (r: u32)
    requires
        i + 4 <= data@.len(),
    ensures
        r as nat == be4(data@, i as int),
{
    let n = data.len();
    assert(i + 2 < n);
    let hi = read_u16_be(data, i);
    let lo = read_u16_be(data, i + 2);
    (hi as u32) * 65536 + (lo as u32)
}

/// Whether two byte strings are equal.
pub fn bytes_eq(a: &[u8], b: &[u8]) -> (r: bool)
    ensures
        r == (a@ == b@),
{
    if a.len() != b.len() {
        return false;
    }
    let mut i: usize = 0;
    while i < a.len()
        invariant
            a@.len() == b@.len(),
            i <= a@.len(),
            forall|k: int| 0 <= k < i ==> a@[k] == b@[k],
        decreases a.len() - i,
    {
        if a[i] != b[i] {
            return false;
        }
        i = i + 1;
    }
    assert(a@ =~= b@);
    true
}

/// Copies `data[start..end]`.
pub fn copy_range(data: &[u8], start: usize, end: usize) -> (r: Vec<u8>)
    requires
        start <= end <= data@.len(),
    ensures
        r@ == data@.subrange(start as int, end as int),
{
    let mut out: Vec<u8> = Vec::new();
    let mut i: usize = start;
    while i < end
        invariant
            start <= i <= end <= data@.len(),
            out@ == data@.subrange(start as int, i as int),
        decreases end - i,
    {
        out.push(data[i]);
        i = i + 1;
    }
    out
}

/// Index of the first zero byte in `data[i..end]`, or `end`.
pub fn find_zero(data: &[u8], i: usize, end: usize) -> (r: usize)
    requires
        i <= end <= data@.len(),
    ensures
        r as int == first_zero(data@.subrange(0, end as int), i as int),
        i <= r <= end,
{
    let ghost s = data@.subrange(0, end as int);
    let mut k: usize = i;
    while k < end
        invariant
            i <= k <= end <= data@.len(),
            s == data@.subrange(0, end as int),
            first_zero(s, i as int) == first_zero(s, k as int),
        decreases end - k,
    {
        if data[k] == 0 {
            return k;
        }
        k = k + 1;
    }
    k
}

/// Reads a fixed array of four bytes at `i`.
pub fn read_array4(data: &[u8], i: usize) -> (r: [u8; 4])
    requires
        i + 4 <= data@.len(),
    ensures
        r@ == data@.subrange(i as int, i + 4),
{
    let r = [data[i], data[i + 1], data[i + 2], data[i + 3]];
    assert(r@ =~= data@.subrange(i as int, i + 4));
    r
}

/// Reads a fixed array of eight bytes at `i`.
pub fn read_array8(data: &[u8], i: usize) -> (r: [u8; 8])
    requires
        i + 8 <= data@.len(),
    ensures
        r@ == data@.subrange(i as int, i + 8),
{
    let r = [
        data[i],
        data[i + 1],
        data[i + 2],
        data[i + 3],
        data[i + 4],
        data[i + 5],
        data[i + 6],
        data[i + 7],
    ];
    assert(r@ =~= data@.subrange(i as int, i + 8));
    r
}

/// Reads a fixed array of sixteen bytes at `i`.
pub fn read_array16(data: &[u8], i: usize) -> (r: [u8; 16])
    requires
        i + 16 <= data@.len(),
    ensures
        r@ == data@.subrange(i as int, i + 16),
{
    let r = [
        data[i],
        data[i + 1],
        data[i + 2],
        data[i + 3],
        data[i + 4],
        data[i + 5],
        data[i + 6],
        data[i + 7],
        data[i + 8],
        data[i + 9],
        data[i + 10],
        data[i + 11],
        data[i + 12],
        data[i + 13],
        data[i + 14],
        data[i + 15],
    ];
    assert(r@ =~= data@.subrange(i as int, i + 16));
    r
}

} // verus!
