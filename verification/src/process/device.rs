//! Turning NT device paths (`\Device\HarddiskVolume3\Windows\...`) into
//! drive-letter paths (`C:\Windows\...`) with a table of the devices behind
//! each drive letter, as `QueryDosDeviceW` reports them.

use vstd::prelude::*;

use crate::text::{decode_utf16, push_char, utf16_decode};

verus! {

/// `\Device\` as UTF-16 code units.
pub open spec fn device_prefix() -> Seq<u16> {
    seq![92u16, 68, 101, 118, 105, 99, 101, 92]
}

/// Whether a buffer begins with `\Device\`.
pub fn has_device_prefix(b: &[u16]) -> (r: bool)
    ensures
        r == (b@.len() >= 8 && b@.subrange(0, 8) == device_prefix()),
{
    if b.len() < 8 {
        return false;
    }
    let r = b[0] == 92 && b[1] == 68 && b[2] == 101 && b[3] == 118 && b[4] == 105 && b[5] == 99
        && b[6] == 101 && b[7] == 92;
    assert(r == (b@.subrange(0, 8) =~= device_prefix()));
    r
}

/// The drive letter the table gives a device, the first entry for it.
pub open spec fn device_lookup(m: Seq<(Seq<u16>, char)>, k: Seq<u16>) -> Option<char>
    decreases m.len(),
{
    if m.len() == 0 {
        None
    } else if m[0].0 == k {
        Some(m[0].1)
    } else {
        device_lookup(m.drop_first(), k)
    }
}

/// Where the device root ends: the first backslash at or after `i`, or the end.
pub open spec fn root_end(b: Seq<u16>, i: int) -> int
    decreases b.len() - i,
{
    if i >= b.len() || b[i] == 92 {
        i
    } else {
        root_end(b, i + 1)
    }
}

/// A device table as plain values.
pub open spec fn table_view(m: Seq<(Vec<u16>, char)>) -> Seq<(Seq<u16>, char)> {
    m.map_values(|e: (Vec<u16>, char)| (e.0@, e.1))
}

/// The drive-letter form of a path: a `\Device\<volume>` path whose volume
/// the table knows becomes `<drive>:\` and the rest (unpaired surrogates
/// dropped); any other path is its text, unpaired surrogates as U+FFFD.
pub open spec fn device_path_text(b: Seq<u16>, m: Seq<(Seq<u16>, char)>) -> Seq<char> {
    if b.len() == 0 {
        Seq::empty()
    } else if b[0] != 92 || b.len() < 8 || b.subrange(0, 8) != device_prefix() {
        utf16_decode(b, true)
    } else {
        let e = root_end(b, 8);
        match device_lookup(m, b.subrange(0, e)) {
            Some(d) => if e >= b.len() {
                seq![d, ':', '\\']
            } else {
                seq![d, ':', '\\'] + utf16_decode(b.subrange(e + 1, b.len() as int), false)
            },
            None => utf16_decode(b, true),
        }
    }
}

/// Whether two code unit strings are equal.
pub fn units_eq(a: &[u16], b: &[u16]) -> (r: bool)
    ensures
        r == (a@ == b@),
{
    if a.len() != b.len() {
        return false;
    }
    let mut i: usize = 0;
    while i < a.len()
        invariant
            a@.len() == b@.len(),
            i <= a@.len(),
            forall|k: int| 0 <= k < i ==> a@[k] == b@[k],
        decreases a.len() - i,
    {
        if a[i] != b[i] {
            return false;
        }
        i = i + 1;
    }
    assert(a@ =~= b@);
    true
}

/// Looks a device up in the table; see [`device_lookup`].
pub fn lookup_device(m: &Vec<(Vec<u16>, char)>, k: &[u16]) -> (r: Option<char>)
    ensures
        r == device_lookup(table_view(m@), k@),
{
    let ghost t = table_view(m@);
    let mut i: usize = 0;
    assert(t.subrange(0, t.len() as int) == t);
    while i < m.len()
        invariant
            t == table_view(m@),
            i <= m@.len(),
            device_lookup(t, k@) == device_lookup(t.subrange(i as int, t.len() as int), k@),
        decreases m.len() - i,
    {
        assert(t.subrange(i as int, t.len() as int).drop_first() == t.subrange(i + 1, t.len() as int));
        if units_eq(m[i].0.as_slice(), k) {
            return Some(m[i].1);
        }
        i = i + 1;
    }
    None
}

/// Converts a device path to a drive-letter path; see [`device_path_text`].
pub fn device_path_to_drive_path_u16(buffer_u16: &[u16], cache: &Vec<(Vec<u16>, char)>) -> (r:
    String)
    ensures
        r@ == device_path_text(buffer_u16@, table_view(cache@)),
{
    let b = buffer_u16;
    if b.len() == 0 {
        return String::new();
    }
    if b[0] != 92 || b.len() < 8 || !has_device_prefix(b) {
        return decode_utf16(b, true);
    }
    let mut e: usize = 8;
    while e < b.len() && b[e] != 92
        invariant
            8 <= e <= b@.len(),
            root_end(b@, 8) == root_end(b@, e as int),
        decreases b.len() - e,
    {
        e = e + 1;
    }
    let mut root: Vec<u16> = Vec::new();
    let mut i: usize = 0;
    while i < e
        invariant
            i <= e <= b@.len(),
            root@ == b@.subrange(0, i as int),
        decreases e - i,
    {
        root.push(b[i]);
        i = i + 1;
    }
    match lookup_device(cache, root.as_slice()) {
        Some(d) => {
            let mut out = String::new();
            push_char(&mut out, d);
            push_char(&mut out, ':');
            push_char(&mut out, '\\');
            if e >= b.len() {
                assert(out@ =~= seq![d, ':', '\\']);
                return out;
            }
            let mut rest: Vec<u16> = Vec::new();
            let mut j: usize = e + 1;
            while j < b.len()
                invariant
                    e + 1 <= j <= b@.len(),
                    rest@ == b@.subrange(e + 1, j as int),
                decreases b.len() - j,
            {
                rest.push(b[j]);
                j = j + 1;
            }
            let tail = decode_utf16(rest.as_slice(), false);
            out.append(tail.as_str());
            assert(out@ =~= seq![d, ':', '\\'] + utf16_decode(b@.subrange(e + 1, b@.len() as int), false));
            out
        },
        None => decode_utf16(b, true),
    }
}

/// The device name a `QueryDosDeviceW` answer of `len` units holds: the
/// units without their trailing NULs.
pub open spec fn device_name_of(buffer: Seq<u16>, len: nat) -> Seq<u16>
    decreases len,
{
    if len == 0 {
        Seq::empty()
    } else if buffer[len - 1] == 0 {
        device_name_of(buffer, (len - 1) as nat)
    } else {
        buffer.subrange(0, len as int)
    }
}

/// The device name of a `QueryDosDeviceW` answer; see [`device_name_of`].
pub fn device_name(buffer: &[u16], len: usize) -> (r: Vec<u16>)
    requires
        len <= buffer@.len(),
    ensures
        r@ == device_name_of(buffer@, len as nat),
{
    let mut n: usize = len;
    while n > 0 && buffer[n - 1] == 0
        invariant
            n <= len <= buffer@.len(),
            device_name_of(buffer@, len as nat) == device_name_of(buffer@, n as nat),
        decreases n,
    {
        n = n - 1;
    }
    let mut out: Vec<u16> = Vec::new();
    let mut i: usize = 0;
    while i < n
        invariant
            i <= n <= buffer@.len(),
            out@ == buffer@.subrange(0, i as int),
        decreases n - i,
    {
        out.push(buffer[i]);
        i = i + 1;
    }
    out
}

/// The table after recording `drive` for `device`: the device's entry takes
/// the new drive where it is present; a new last entry is added where not.
pub open spec fn table_insert(m: Seq<(Seq<u16>, char)>, device: Seq<u16>, drive: char) -> Seq<
    (Seq<u16>, char),
>
    decreases m.len(),
{
    if m.len() == 0 {
        seq![(device, drive)]
    } else if m[0].0 == device {
        m.update(0, (device, drive))
    } else {
        seq![m[0]] + table_insert(m.drop_first(), device, drive)
    }
}

/// After recording `drive` for `device`, the table gives that drive for the
/// device and what it gave before for every other device.
pub proof fn lemma_table_insert_lookup(
    m: Seq<(Seq<u16>, char)>,
    device: Seq<u16>,
    drive: char,
    other: Seq<u16>,
)
    ensures
        device_lookup(table_insert(m, device, drive), device) == Some(drive),
        other != device ==> device_lookup(table_insert(m, device, drive), other) == device_lookup(
            m,
            other,
        ),
    decreases m.len(),
{
    let t = table_insert(m, device, drive);
    if m.len() == 0 {
        assert(t.drop_first() =~= Seq::<(Seq<u16>, char)>::empty());
        assert(device_lookup(t.drop_first(), other) == None::<char>);
    } else if m[0].0 == device {
        assert(t.drop_first() =~= m.drop_first());
    } else {
        lemma_table_insert_lookup(m.drop_first(), device, drive, other);
        assert(t.drop_first() =~= table_insert(m.drop_first(), device, drive));
    }
}

/// Records the drive letter of a device; see [`table_insert`].
pub fn insert_device(cache: &mut Vec<(Vec<u16>, char)>, device: Vec<u16>, drive: char)
    ensures
        table_view(final(cache)@) == table_insert(table_view(old(cache)@), device@, drive),
{
    let ghost t = table_view(cache@);
    let mut i: usize = 0;
    assert(t.subrange(0, 0) + t.subrange(0, t.len() as int) =~= t);
    assert(t.subrange(0, t.len() as int) == t);
    while i < cache.len()
        invariant
            t == table_view(cache@),
            cache@ == old(cache)@,
            i <= cache@.len(),
            table_insert(t, device@, drive) == t.subrange(0, i as int) + table_insert(
                t.subrange(i as int, t.len() as int),
                device@,
                drive,
            ),
        decreases cache.len() - i,
    {
        let ghost rest = t.subrange(i as int, t.len() as int);
        assert(rest.drop_first() == t.subrange(i + 1, t.len() as int));
        if units_eq(cache[i].0.as_slice(), device.as_slice()) {
            cache.set(i, (device, drive));
            assert(table_view(cache@) =~= t.subrange(0, i as int) + rest.update(0, (device@, drive)));
            return;
        }
        assert(t.subrange(0, i + 1) == t.subrange(0, i as int) + seq![rest[0]]);
        assert(t.subrange(0, i as int) + (seq![rest[0]] + table_insert(rest.drop_first(), device@, drive))
            =~= t.subrange(0, i + 1) + table_insert(t.subrange(i + 1, t.len() as int), device@, drive));
        i = i + 1;
    }
    assert(t.subrange(i as int, t.len() as int) =~= Seq::<(Seq<u16>, char)>::empty());
    cache.push((device, drive));
    assert(table_view(cache@) =~= t + seq![(device@, drive)]);
    assert(t.subrange(0, i as int) == t);
}

} // verus!
