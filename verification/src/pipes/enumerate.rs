//! Named pipe enumeration: reading the pipe directory's entries, and
//! diffing successive snapshots of the pipes present.

use vstd::prelude::*;

use crate::bytes::{le4, le8, read_u32_le, read_u64_le};
use crate::error::{Error, PipeError, PipeIoError};
use crate::pipes::types::{NamedPipeChange, NamedPipeInfo, PipeName};
use crate::text::{chars_of, decode_utf16, str_to_string, utf16_decode};

verus! {

// ---------------------------------------------------------------------------
// Ordering pipe names
// ---------------------------------------------------------------------------

/// Texts in lexicographic order of code points, the order `str::cmp` gives
/// (it compares UTF-8 bytes, which keeps code point order).
pub open spec fn text_lt(a: Seq<char>, b: Seq<char>) -> bool
    decreases a.len(),
{
    if a.len() == 0 {
        b.len() > 0
    } else if b.len() == 0 {
        false
    } else if (a[0] as u32) < (b[0] as u32) {
        true
    } else if a[0] == b[0] {
        text_lt(a.drop_first(), b.drop_first())
    } else {
        false
    }
}

/// No text comes before itself.
pub proof fn lemma_text_lt_irreflexive(a: Seq<char>)
    ensures
        !text_lt(a, a),
    decreases a.len(),
{
    if a.len() > 0 {
        lemma_text_lt_irreflexive(a.drop_first());
    }
}

/// Of two distinct texts one comes before the other, and not both ways.
pub proof fn lemma_text_lt_total(a: Seq<char>, b: Seq<char>)
    ensures
        a != b ==> (text_lt(a, b) || text_lt(b, a)),
        !(text_lt(a, b) && text_lt(b, a)),
    decreases a.len(),
{
    if a.len() > 0 && b.len() > 0 {
        lemma_text_lt_total(a.drop_first(), b.drop_first());
        if a[0] != b[0] {
            vstd::utf8::char_u32_cast(a[0], a[0] as u32);
            vstd::utf8::char_u32_cast(b[0], b[0] as u32);
        }
        if a != b && a[0] == b[0] {
            assert(a.drop_first() != b.drop_first()) by {
                if a.drop_first() == b.drop_first() {
                    assert(a =~= seq![a[0]] + a.drop_first());
                    assert(b =~= seq![b[0]] + b.drop_first());
                }
            }
        }
    } else if a.len() == 0 && b.len() == 0 {
        assert(a =~= b);
    }
}

/// The order is transitive.
pub proof fn lemma_text_lt_transitive(a: Seq<char>, b: Seq<char>, c: Seq<char>)
    requires
        text_lt(a, b),
        text_lt(b, c),
    ensures
        text_lt(a, c),
    decreases a.len(),
{
    if a.len() > 0 && b.len() > 0 && c.len() > 0 && a[0] == b[0] && b[0] == c[0] {
        lemma_text_lt_transitive(a.drop_first(), b.drop_first(), c.drop_first());
    }
}

/// Whether `a` comes before `b`; see [`text_lt`].
pub fn str_lt(a: &str, b: &str) -> (r: bool)
    ensures
        r == text_lt(a@, b@),
{
    let ac = chars_of(a);
    let bc = chars_of(b);
    let mut i: usize = 0;
    assert(a@.subrange(0, a@.len() as int) == a@);
    assert(b@.subrange(0, b@.len() as int) == b@);
    while i < ac.len() && i < bc.len() && ac[i] == bc[i]
        invariant
            i <= ac@.len(),
            i <= bc@.len(),
            ac@ == a@,
            bc@ == b@,
            text_lt(a@, b@) == text_lt(a@.subrange(i as int, a@.len() as int), b@.subrange(i as int, b@.len() as int)),
        decreases ac.len() - i,
    {
        assert(a@.subrange(i as int, a@.len() as int).drop_first() == a@.subrange(i + 1, a@.len() as int));
        assert(b@.subrange(i as int, b@.len() as int).drop_first() == b@.subrange(i + 1, b@.len() as int));
        i = i + 1;
    }
    if i == ac.len() {
        return i < bc.len();
    }
    if i == bc.len() {
        return false;
    }
    (ac[i] as u32) < (bc[i] as u32)
}

// ---------------------------------------------------------------------------
// Snapshots keyed by pipe name
// ---------------------------------------------------------------------------

/// The pipe names of a snapshot, in order.
pub open spec fn names_of(m: Seq<NamedPipeInfo>) -> Seq<Seq<char>> {
    m.map_values(|i: NamedPipeInfo| i.pipe_name@)
}

/// Where the first entry named `n` stands, or -1.
pub open spec fn name_index(m: Seq<NamedPipeInfo>, n: Seq<char>) -> int
    decreases m.len(),
{
    if m.len() == 0 {
        -1
    } else if m[0].pipe_name@ == n {
        0
    } else {
        let r = name_index(m.drop_first(), n);
        if r < 0 {
            -1
        } else {
            r + 1
        }
    }
}

/// `name_index` finds the first entry with the name, or reports none.
pub proof fn lemma_name_index(m: Seq<NamedPipeInfo>, n: Seq<char>)
    ensures
        -1 <= name_index(m, n) < m.len(),
        name_index(m, n) >= 0 ==> m[name_index(m, n)].pipe_name@ == n,
        name_index(m, n) >= 0 ==> forall|j: int| 0 <= j < name_index(m, n) ==> m[j].pipe_name@ != n,
        name_index(m, n) < 0 <==> !names_of(m).contains(n),
    decreases m.len(),
{
    if m.len() > 0 {
        lemma_name_index(m.drop_first(), n);
        assert forall|j: int| 1 <= j < m.len() implies m[j] == m.drop_first()[j - 1] by {}
        if m[0].pipe_name@ != n {
            if names_of(m).contains(n) {
                let k = choose|k: int| 0 <= k < names_of(m).len() && names_of(m)[k] == n;
                assert(names_of(m.drop_first())[k - 1] == n);
            }
            if names_of(m.drop_first()).contains(n) {
                let k = choose|k: int| 0 <= k < names_of(m.drop_first()).len() && names_of(m.drop_first())[k] == n;
                assert(names_of(m)[k + 1] == n);
            }
        } else {
            assert(names_of(m)[0] == n);
        }
    }
}

/// The snapshot after listing `x`: an entry of the same name is replaced in
/// place, a new name is added last.
pub open spec fn info_insert(m: Seq<NamedPipeInfo>, x: NamedPipeInfo) -> Seq<NamedPipeInfo> {
    let i = name_index(m, x.pipe_name@);
    if i < 0 {
        m.push(x)
    } else {
        m.update(i, x)
    }
}

/// The snapshot of a listing, entries taken in order.
pub open spec fn snapshot_of(list: Seq<NamedPipeInfo>) -> Seq<NamedPipeInfo>
    decreases list.len(),
{
    if list.len() == 0 {
        Seq::empty()
    } else {
        info_insert(snapshot_of(list.drop_last()), list.last())
    }
}

/// Each name occurs once.
pub open spec fn names_distinct(m: Seq<NamedPipeInfo>) -> bool {
    names_of(m).no_duplicates()
}

/// Inserting keeps names distinct and adds exactly the new name.
pub proof fn lemma_info_insert(m: Seq<NamedPipeInfo>, x: NamedPipeInfo)
    requires
        names_distinct(m),
    ensures
        names_distinct(info_insert(m, x)),
        forall|n: Seq<char>| #[trigger] names_of(info_insert(m, x)).contains(n) <==> (names_of(m).contains(n) || n == x.pipe_name@),
{
    lemma_name_index(m, x.pipe_name@);
    let t = info_insert(m, x);
    let i = name_index(m, x.pipe_name@);
    let nm = names_of(m);
    let nt = names_of(t);
    if i < 0 {
        assert(nt =~= nm.push(x.pipe_name@));
        assert forall|a: int, b: int| 0 <= a < nt.len() && 0 <= b < nt.len() && a != b implies nt[a] != nt[b] by {
            if a < nm.len() && b < nm.len() {
            } else if a == nm.len() {
                assert(nm[b] == nt[b]);
            } else {
                assert(nm[a] == nt[a]);
            }
        }
        assert forall|n: Seq<char>| #[trigger] nt.contains(n) <==> (nm.contains(n) || n == x.pipe_name@) by {
            if nm.contains(n) {
                let k = choose|k: int| 0 <= k < nm.len() && nm[k] == n;
                assert(nt[k] == n);
            }
            if n == x.pipe_name@ {
                assert(nt[nm.len() as int] == n);
            }
            if nt.contains(n) {
                let k = choose|k: int| 0 <= k < nt.len() && nt[k] == n;
                if k < nm.len() {
                    assert(nm[k] == n);
                }
            }
        }
    } else {
        assert(nm[i] == x.pipe_name@);
        assert(nt =~= nm.update(i, x.pipe_name@));
        assert(nt =~= nm);
        assert forall|n: Seq<char>| #[trigger] nt.contains(n) <==> (nm.contains(n) || n == x.pipe_name@) by {
            if n == x.pipe_name@ {
                assert(nt[i] == n);
            }
        }
    }
}

/// Adds one listed pipe to a snapshot; see [`info_insert`].
pub fn insert_info(m: &mut Vec<NamedPipeInfo>, x: NamedPipeInfo)
    ensures
        final(m)@ == info_insert(old(m)@, x),
{
    let ghost s = m@;
    let mut i: usize = 0;
    while i < m.len()
        invariant
            m@ == s,
            s == old(m)@,
            i <= s.len(),
            forall|j: int| 0 <= j < i ==> s[j].pipe_name@ != x.pipe_name@,
        decreases m.len() - i,
    {
        if crate::text::str_eq(m[i].pipe_name.as_str(), x.pipe_name.as_str()) {
            proof {
                lemma_name_index(s, x.pipe_name@);
                if name_index(s, x.pipe_name@) != i {
                    if name_index(s, x.pipe_name@) < 0 {
                        assert(names_of(s)[i as int] == x.pipe_name@);
                    }
                }
            }
            m.set(i, x);
            return;
        }
        i = i + 1;
    }
    proof {
        lemma_name_index(s, x.pipe_name@);
        if name_index(s, x.pipe_name@) >= 0 {
            assert(s[name_index(s, x.pipe_name@)].pipe_name@ == x.pipe_name@);
        }
    }
    m.push(x);
}

/// The snapshot of a listing; see [`snapshot_of`].
pub fn snapshot_from(list: Vec<NamedPipeInfo>) -> (r: Vec<NamedPipeInfo>)
    ensures
        r@ == snapshot_of(list@),
        names_distinct(r@),
{
    let ghost l = list@;
    let mut m: Vec<NamedPipeInfo> = Vec::new();
    let mut rest = list;
    let mut i: usize = 0;
    let n = rest.len();
    assert(names_of(m@) =~= Seq::<Seq<char>>::empty());
    assert(l.subrange(0, n as int) == l);
    while i < n
        invariant
            n == l.len(),
            i <= n,
            rest@ == l.subrange(i as int, n as int),
            m@ == snapshot_of(l.subrange(0, i as int)),
            names_distinct(m@),
        decreases n - i,
    {
        let x = rest.remove(0);
        assert(x == l[i as int]);
        assert(rest@ =~= l.subrange(i + 1, n as int));
        assert(l.subrange(0, i + 1).drop_last() == l.subrange(0, i as int));
        proof {
            lemma_info_insert(m@, x);
        }
        insert_info(&mut m, x);
        i = i + 1;
    }
    assert(l.subrange(0, n as int) == l);
    m
}

/// Two pipe records agree in everything they hold.
pub open spec fn info_same(a: NamedPipeInfo, b: NamedPipeInfo) -> bool {
    &&& a.pipe_name@ == b.pipe_name@
    &&& a.relative_name@ == b.relative_name@
    &&& a.creation_time == b.creation_time
    &&& a.last_access_time == b.last_access_time
    &&& a.last_write_time == b.last_write_time
    &&& a.change_time == b.change_time
    &&& a.end_of_file == b.end_of_file
    &&& a.allocation_size == b.allocation_size
    &&& a.file_attributes == b.file_attributes
    &&& a.file_index == b.file_index
    &&& a.local_info == b.local_info
}

/// A second record with the same contents.
pub fn duplicate_info(i: &NamedPipeInfo) -> (r: NamedPipeInfo)
    ensures
        info_same(r, *i),
{
    NamedPipeInfo {
        pipe_name: i.pipe_name.duplicate(),
        relative_name: str_to_string(i.relative_name.as_str()),
        creation_time: i.creation_time,
        last_access_time: i.last_access_time,
        last_write_time: i.last_write_time,
        change_time: i.change_time,
        end_of_file: i.end_of_file,
        allocation_size: i.allocation_size,
        file_attributes: i.file_attributes,
        file_index: i.file_index,
        local_info: i.local_info,
    }
}

// ---------------------------------------------------------------------------
// Diffing snapshots
// ---------------------------------------------------------------------------

/// The pipe name a change is about.
pub open spec fn change_name(c: NamedPipeChange) -> Seq<char> {
    match c {
        NamedPipeChange::Appeared(i) => i.pipe_name@,
        NamedPipeChange::Removed(i) => i.pipe_name@,
    }
}

/// Changes in ascending order of pipe name.
pub open spec fn sorted_by_name(v: Seq<NamedPipeChange>) -> bool {
    forall|a: int, b: int| 0 <= a < b < v.len() ==> text_lt(change_name(v[a]), change_name(v[b]))
}

/// A change reports a pipe of the new snapshot that the baseline lacked,
/// with its record, or a pipe of the baseline that the new snapshot lacks,
/// with the baseline's record.
pub open spec fn change_ok(c: NamedPipeChange, old: Seq<NamedPipeInfo>, new: Seq<NamedPipeInfo>) -> bool {
    match c {
        NamedPipeChange::Appeared(i) => names_of(new).contains(i.pipe_name@) && !names_of(old).contains(
            i.pipe_name@,
        ) && info_same(i, new[name_index(new, i.pipe_name@)]),
        NamedPipeChange::Removed(i) => names_of(old).contains(i.pipe_name@) && !names_of(new).contains(
            i.pipe_name@,
        ) && i == old[name_index(old, i.pipe_name@)],
    }
}

/// Every name that appeared or disappeared has its change.
pub open spec fn changes_complete(v: Seq<NamedPipeChange>, old: Seq<NamedPipeInfo>, new: Seq<NamedPipeInfo>) -> bool {
    &&& forall|n: Seq<char>|
        #[trigger] names_of(new).contains(n) && !names_of(old).contains(n) ==> exists|k: int|
            0 <= k < v.len() && v[k] is Appeared && change_name(v[k]) == n
    &&& forall|n: Seq<char>|
        #[trigger] names_of(old).contains(n) && !names_of(new).contains(n) ==> exists|k: int|
            0 <= k < v.len() && v[k] is Removed && change_name(v[k]) == n
}

/// Puts a change in its place by name.
fn insert_sorted(v: &mut Vec<NamedPipeChange>, c: NamedPipeChange)
    requires
        sorted_by_name(old(v)@),
        forall|k: int| 0 <= k < old(v)@.len() ==> change_name(#[trigger] old(v)@[k]) != change_name(c),
    ensures
        sorted_by_name(final(v)@),
        final(v)@.len() == old(v)@.len() + 1,
        forall|x: NamedPipeChange| #[trigger] final(v)@.contains(x) <==> (old(v)@.contains(x) || x == c),
{
    let ghost s = v@;
    let name = match &c {
        NamedPipeChange::Appeared(i) => i.pipe_name.as_str(),
        NamedPipeChange::Removed(i) => i.pipe_name.as_str(),
    };
    let mut p: usize = 0;
    let mut found = false;
    while p < v.len() && !found
        invariant
            v@ == s,
            p <= s.len(),
            name@ == change_name(c),
            forall|k: int| 0 <= k < s.len() ==> change_name(#[trigger] s[k]) != change_name(c),
            forall|k: int| 0 <= k < p ==> text_lt(change_name(#[trigger] s[k]), change_name(c)),
            found ==> p < s.len() && text_lt(change_name(c), change_name(s[p as int])),
        decreases v.len() - p + (if found { 0int } else { 1int }),
    {
        let other = match &v[p] {
            NamedPipeChange::Appeared(i) => i.pipe_name.as_str(),
            NamedPipeChange::Removed(i) => i.pipe_name.as_str(),
        };
        if str_lt(name, other) {
            found = true;
        } else {
            proof {
                lemma_text_lt_total(change_name(s[p as int]), change_name(c));
            }
            p = p + 1;
        }
    }
    v.insert(p, c);
    proof {
        let t = v@;
        assert(t =~= s.insert(p as int, c));
        assert forall|a: int, b: int| 0 <= a < b < t.len() implies text_lt(change_name(t[a]), change_name(t[b])) by {
            if b < p {
            } else if a < p && b == p {
            } else if a < p && b > p {
                assert(t[b] == s[b - 1]);
                assert(text_lt(change_name(c), change_name(s[p as int])));
                if b - 1 > p {
                    lemma_text_lt_transitive(change_name(c), change_name(s[p as int]), change_name(s[b - 1]));
                }
                lemma_text_lt_transitive(change_name(s[a]), change_name(c), change_name(s[b - 1]));
            } else if a == p {
                assert(t[b] == s[b - 1]);
                if b - 1 > p {
                    lemma_text_lt_transitive(change_name(c), change_name(s[p as int]), change_name(s[b - 1]));
                }
            } else {
                assert(t[a] == s[a - 1] && t[b] == s[b - 1]);
            }
        }
        assert forall|x: NamedPipeChange| #[trigger] t.contains(x) <==> (s.contains(x) || x == c) by {
            if s.contains(x) {
                let k = choose|k: int| 0 <= k < s.len() && s[k] == x;
                if k < p {
                    assert(t[k] == x);
                } else {
                    assert(t[k + 1] == x);
                }
            }
            if x == c {
                assert(t[p as int] == x);
            }
            if t.contains(x) {
                let k = choose|k: int| 0 <= k < t.len() && t[k] == x;
                if k < p {
                    assert(s[k] == x);
                } else if k > p {
                    assert(s[k - 1] == x);
                }
            }
        }
    }
}

/// Whether a snapshot lists a pipe name.
fn lists_name(m: &Vec<NamedPipeInfo>, name: &str) -> (r: bool)
    ensures
        r == names_of(m@).contains(name@),
{
    let mut i: usize = 0;
    while i < m.len()
        invariant
            i <= m@.len(),
            forall|k: int| 0 <= k < i ==> m@[k].pipe_name@ != name@,
        decreases m.len() - i,
    {
        if crate::text::str_eq(m[i].pipe_name.as_str(), name) {
            assert(names_of(m@)[i as int] == name@);
            return true;
        }
        i = i + 1;
    }
    assert forall|k: int| 0 <= k < names_of(m@).len() implies names_of(m@)[k] != name@ by {
        assert(names_of(m@)[k] == m@[k].pipe_name@);
    }
    false
}

/// Stateful helper that diffs successive named-pipe snapshots.
#[derive(Debug)]
pub struct NamedPipePoller {
    known_pipes: Vec<NamedPipeInfo>,
}

impl NamedPipePoller {
    /// The baseline snapshot, one entry per pipe name.
    pub closed spec fn known(&self) -> Seq<NamedPipeInfo> {
        self.known_pipes@
    }

    #[verifier::type_invariant]
    spec fn baseline_names_distinct(&self) -> bool {
        names_distinct(self.known_pipes@)
    }

    /// Create a poller with an empty baseline.
    pub fn new() -> (r: Self)
        ensures
            r.known() == Seq::<NamedPipeInfo>::empty(),
    {
        NamedPipePoller { known_pipes: Vec::new() }
    }

    /// Make a listing the baseline without reporting changes; returns the
    /// number of distinct pipes in it.
    pub fn seed_with(&mut self, current: Vec<NamedPipeInfo>) -> (r: usize)
        ensures
            final(self).known() == snapshot_of(current@),
            r == snapshot_of(current@).len(),
    {
        let snap = snapshot_from(current);
        self.known_pipes = snap;
        self.known_pipes.len()
    }

    /// Make a listing the baseline and return what changed since the
    /// previous one: each pipe that appeared and each that was removed,
    /// in ascending order of name.
    pub fn poll_with(&mut self, current: Vec<NamedPipeInfo>) -> (r: Vec<NamedPipeChange>)
        ensures
            final(self).known() == snapshot_of(current@),
            sorted_by_name(r@),
            forall|k: int| 0 <= k < r@.len() ==> change_ok(#[trigger] r@[k], old(self).known(), snapshot_of(current@)),
            changes_complete(r@, old(self).known(), snapshot_of(current@)),
    {
        proof {
            use_type_invariant(&*self);
        }
        let snap = snapshot_from(current);
        let ghost new = snap@;
        let mut old_known: Vec<NamedPipeInfo> = Vec::new();
        std::mem::swap(&mut old_known, &mut self.known_pipes);
        let ghost old = old_known@;
        let mut changes: Vec<NamedPipeChange> = Vec::new();
        let mut j: usize = 0;
        while j < snap.len()
            invariant
                snap@ == new,
                names_distinct(new),
                names_distinct(old),
                old_known@ == old,
                j <= new.len(),
                sorted_by_name(changes@),
                forall|k: int| 0 <= k < changes@.len() ==> change_ok(#[trigger] changes@[k], old, new),
                forall|k: int| 0 <= k < changes@.len() ==> changes@[k] is Appeared,
                forall|k: int| 0 <= k < changes@.len() ==> names_of(new.subrange(0, j as int)).contains(change_name(#[trigger] changes@[k])),
                forall|t: int|
                    0 <= t < j && !names_of(old).contains(#[trigger] new[t].pipe_name@) ==> exists|k: int|
                        0 <= k < changes@.len() && changes@[k] is Appeared && change_name(changes@[k]) == new[t].pipe_name@,
            decreases snap.len() - j,
        {
            if !lists_name(&old_known, snap[j].pipe_name.as_str()) {
                let info = duplicate_info(&snap[j]);
                let c = NamedPipeChange::Appeared(info);
                proof {
                    lemma_name_index(new, new[j as int].pipe_name@);
                    assert(names_of(new)[j as int] == new[j as int].pipe_name@);
                    if name_index(new, new[j as int].pipe_name@) != j {
                        assert(names_of(new)[name_index(new, new[j as int].pipe_name@)] == names_of(new)[j as int]);
                    }
                    assert forall|k: int| 0 <= k < changes@.len() implies change_name(#[trigger] changes@[k]) != change_name(c) by {
                        let n = change_name(changes@[k]);
                        let t = choose|t: int| 0 <= t < j && names_of(new.subrange(0, j as int))[t] == n;
                        assert(names_of(new)[t] == n);
                    }
                }
                let ghost before = changes@;
                insert_sorted(&mut changes, c);
                proof {
                    assert forall|k: int| 0 <= k < changes@.len() implies change_ok(#[trigger] changes@[k], old, new)
                        && changes@[k] is Appeared
                        && names_of(new.subrange(0, j + 1)).contains(change_name(changes@[k])) by {
                        assert(changes@.contains(changes@[k]));
                        if before.contains(changes@[k]) {
                            let m = choose|m: int| 0 <= m < before.len() && before[m] == changes@[k];
                            let n = change_name(before[m]);
                            let t = choose|t: int| 0 <= t < j && names_of(new.subrange(0, j as int))[t] == n;
                            assert(names_of(new.subrange(0, j + 1))[t] == n);
                        } else {
                            assert(names_of(new.subrange(0, j + 1))[j as int] == change_name(c));
                            assert(names_of(new)[j as int] == new[j as int].pipe_name@);
                        }
                    }
                    assert forall|t: int|
                        0 <= t < j + 1 && !names_of(old).contains(#[trigger] new[t].pipe_name@) implies exists|k: int|
                            0 <= k < changes@.len() && changes@[k] is Appeared && change_name(changes@[k]) == new[t].pipe_name@ by {
                        if t < j {
                            let k = choose|k: int|
                                0 <= k < before.len() && before[k] is Appeared && change_name(before[k]) == new[t].pipe_name@;
                            assert(changes@.contains(before[k]));
                        } else {
                            assert(changes@.contains(c));
                        }
                    }
                }
            } else {
                proof {
                    assert forall|k: int| 0 <= k < changes@.len() implies names_of(new.subrange(0, j + 1)).contains(change_name(#[trigger] changes@[k])) by {
                        let n = change_name(changes@[k]);
                        let t = choose|t: int| 0 <= t < j && names_of(new.subrange(0, j as int))[t] == n;
                        assert(names_of(new.subrange(0, j + 1))[t] == n);
                    }
                }
            }
            j = j + 1;
        }
        let ghost appeared = changes@;
        let mut rest = old_known;
        let mut m: usize = 0;
        let total = rest.len();
        while m < total
            invariant
                snap@ == new,
                names_distinct(new),
                names_distinct(old),
                total == old.len(),
                m <= total,
                rest@ == old.subrange(m as int, total as int),
                sorted_by_name(changes@),
                forall|k: int| 0 <= k < changes@.len() ==> change_ok(#[trigger] changes@[k], old, new),
                forall|k: int|
                    0 <= k < changes@.len() && #[trigger] changes@[k] is Removed ==> names_of(old.subrange(0, m as int)).contains(change_name(changes@[k])),
                forall|x: NamedPipeChange| appeared.contains(x) ==> #[trigger] changes@.contains(x),
                forall|n: Seq<char>|
                    #[trigger] names_of(new).contains(n) && !names_of(old).contains(n) ==> exists|k: int|
                        0 <= k < appeared.len() && appeared[k] is Appeared && change_name(appeared[k]) == n,
                forall|t: int|
                    0 <= t < m && !names_of(new).contains(#[trigger] old[t].pipe_name@) ==> exists|k: int|
                        0 <= k < changes@.len() && changes@[k] is Removed && change_name(changes@[k]) == old[t].pipe_name@,
            decreases total - m,
        {
            let entry = rest.remove(0);
            assert(entry == old[m as int]);
            assert(rest@ =~= old.subrange(m + 1, total as int));
            if !lists_name(&snap, entry.pipe_name.as_str()) {
                let c = NamedPipeChange::Removed(entry);
                proof {
                    lemma_name_index(old, old[m as int].pipe_name@);
                    assert(names_of(old)[m as int] == old[m as int].pipe_name@);
                    if name_index(old, old[m as int].pipe_name@) != m {
                        assert(names_of(old)[name_index(old, old[m as int].pipe_name@)] == names_of(old)[m as int]);
                    }
                    assert forall|k: int| 0 <= k < changes@.len() implies change_name(#[trigger] changes@[k]) != change_name(c) by {
                        if changes@[k] is Removed {
                            let n = change_name(changes@[k]);
                            let t = choose|t: int| 0 <= t < m && names_of(old.subrange(0, m as int))[t] == n;
                            assert(names_of(old)[t] == n);
                        } else {
                            assert(change_ok(changes@[k], old, new));
                        }
                    }
                }
                let ghost before = changes@;
                insert_sorted(&mut changes, c);
                proof {
                    assert forall|k: int| 0 <= k < changes@.len() implies change_ok(#[trigger] changes@[k], old, new) by {
                        assert(changes@.contains(changes@[k]));
                        if before.contains(changes@[k]) {
                            let q = choose|q: int| 0 <= q < before.len() && before[q] == changes@[k];
                            assert(change_ok(before[q], old, new));
                        }
                    }
                    assert forall|k: int|
                        0 <= k < changes@.len() && #[trigger] changes@[k] is Removed implies names_of(old.subrange(0, m + 1)).contains(change_name(changes@[k])) by {
                        assert(changes@.contains(changes@[k]));
                        if before.contains(changes@[k]) {
                            let q = choose|q: int| 0 <= q < before.len() && before[q] == changes@[k];
                            let n = change_name(before[q]);
                            let t = choose|t: int| 0 <= t < m && names_of(old.subrange(0, m as int))[t] == n;
                            assert(names_of(old.subrange(0, m + 1))[t] == n);
                        } else {
                            assert(names_of(old.subrange(0, m + 1))[m as int] == change_name(c));
                        }
                    }
                    assert forall|x: NamedPipeChange| appeared.contains(x) implies #[trigger] changes@.contains(x) by {
                        assert(before.contains(x));
                    }
                    assert forall|t: int|
                        0 <= t < m + 1 && !names_of(new).contains(#[trigger] old[t].pipe_name@) implies exists|k: int|
                            0 <= k < changes@.len() && changes@[k] is Removed && change_name(changes@[k]) == old[t].pipe_name@ by {
                        if t < m {
                            let k = choose|k: int|
                                0 <= k < before.len() && before[k] is Removed && change_name(before[k]) == old[t].pipe_name@;
                            assert(changes@.contains(before[k]));
                        } else {
                            assert(changes@.contains(c));
                        }
                    }
                }
            } else {
                proof {
                    assert forall|k: int|
                        0 <= k < changes@.len() && #[trigger] changes@[k] is Removed implies names_of(old.subrange(0, m + 1)).contains(change_name(changes@[k])) by {
                        let n = change_name(changes@[k]);
                        let t = choose|t: int| 0 <= t < m && names_of(old.subrange(0, m as int))[t] == n;
                        assert(names_of(old.subrange(0, m + 1))[t] == n);
                    }
                }
            }
            m = m + 1;
        }
        proof {
            assert forall|n: Seq<char>|
                #[trigger] names_of(new).contains(n) && !names_of(old).contains(n) implies exists|k: int|
                    0 <= k < changes@.len() && changes@[k] is Appeared && change_name(changes@[k]) == n by {
                let k = choose|k: int| 0 <= k < appeared.len() && appeared[k] is Appeared && change_name(appeared[k]) == n;
                assert(changes@.contains(appeared[k]));
            }
            assert forall|n: Seq<char>|
                #[trigger] names_of(old).contains(n) && !names_of(new).contains(n) implies exists|k: int|
                    0 <= k < changes@.len() && changes@[k] is Removed && change_name(changes@[k]) == n by {
                let t = choose|t: int| 0 <= t < names_of(old).len() && names_of(old)[t] == n;
                assert(old[t].pipe_name@ == n);
            }
        }
        self.known_pipes = snap;
        changes
    }
}

// ---------------------------------------------------------------------------
// Reading the pipe directory
// ---------------------------------------------------------------------------

/// The pipe directory as the pipe file system names it in errors.
pub open spec fn pipe_directory_resource() -> Seq<char> {
    "\\Device\\NamedPipe"@
}

/// The error of a failed directory operation with NT status `status`:
/// the matching Win32 code (`dos_error`, from `RtlNtStatusToDosError`), or
/// the status itself where there is none.
pub fn directory_status_error(operation: &str, status: i32, dos_error: u32) -> (r: Error)
    ensures
        r matches Error::Pipe(PipeError::Io(e)) && e.pipe_name@ == pipe_directory_resource()
            && e.operation@ == operation@ && e.error_code == Some(
            if dos_error == 0 {
                status
            } else {
                dos_error as i32
            },
        ),
{
    let mapped: i32 = if dos_error == 0 {
        status
    } else {
        dos_error as i32
    };
    Error::Pipe(PipeError::Io(PipeIoError::with_code("\\Device\\NamedPipe", operation, mapped)))
}

/// One entry of the pipe directory as read from a `FILE_DIRECTORY_INFORMATION` record.
pub struct PipeDirectoryEntry {
    pub relative_name: String,
    pub creation_time: i64,
    pub last_access_time: i64,
    pub last_write_time: i64,
    pub change_time: i64,
    pub end_of_file: i64,
    pub allocation_size: i64,
    pub file_attributes: u32,
    pub file_index: u32,
}

/// The plain contents of a [`PipeDirectoryEntry`].
pub struct PipeDirectoryEntryView {
    pub relative_name: Seq<char>,
    pub creation_time: i64,
    pub last_access_time: i64,
    pub last_write_time: i64,
    pub change_time: i64,
    pub end_of_file: i64,
    pub allocation_size: i64,
    pub file_attributes: u32,
    pub file_index: u32,
}

impl View for PipeDirectoryEntry {
    type V = PipeDirectoryEntryView;

    open spec fn view(&self) -> PipeDirectoryEntryView {
        PipeDirectoryEntryView {
            relative_name: self.relative_name@,
            creation_time: self.creation_time,
            last_access_time: self.last_access_time,
            last_write_time: self.last_write_time,
            change_time: self.change_time,
            end_of_file: self.end_of_file,
            allocation_size: self.allocation_size,
            file_attributes: self.file_attributes,
            file_index: self.file_index,
        }
    }
}

/// The signed value of the eight bytes at `i`.
pub open spec fn le8_signed(b: Seq<u8>, i: int) -> i64 {
    (le8(b, i) as u64) as i64
}

/// The record at `off`: the name of `FileNameLength / 2` UTF-16 units after
/// the 64-byte header (unpaired surrogates as U+FFFD), and the header fields.
pub open spec fn entry_at(b: Seq<u8>, off: int) -> PipeDirectoryEntryView {
    let units = le4(b, off + 60) / 2;
    PipeDirectoryEntryView {
        relative_name: utf16_decode(
            crate::registry::values::units_of(b.subrange(off + 64, off + 64 + 2 * units)),
            true,
        ),
        creation_time: le8_signed(b, off + 8),
        last_access_time: le8_signed(b, off + 16),
        last_write_time: le8_signed(b, off + 24),
        change_time: le8_signed(b, off + 32),
        end_of_file: le8_signed(b, off + 40),
        allocation_size: le8_signed(b, off + 48),
        file_attributes: le4(b, off + 56) as u32,
        file_index: le4(b, off + 4) as u32,
    }
}

/// The entries with a name from the record at `off` on, following
/// `NextEntryOffset` until it is 0 or leads past the data; a record whose
/// header or name runs past the data ends the list.
pub open spec fn dir_entries(b: Seq<u8>, off: int) -> Seq<PipeDirectoryEntryView>
    decreases b.len() - off,
{
    if off < 0 || off + 64 > b.len() || off + 64 + 2 * (le4(b, off + 60) / 2) > b.len() {
        Seq::empty()
    } else {
        let e = entry_at(b, off);
        let here = if e.relative_name.len() > 0 {
            seq![e]
        } else {
            Seq::empty()
        };
        let next = le4(b, off);
        if next == 0 || off + next >= b.len() {
            here
        } else {
            here + dir_entries(b, off + next)
        }
    }
}

/// Entries as plain values.
pub open spec fn entries_view(v: Seq<PipeDirectoryEntry>) -> Seq<PipeDirectoryEntryView> {
    v.map_values(|e: PipeDirectoryEntry| e@)
}

/// Reads the entries of a directory query's answer; see [`dir_entries`].
pub fn parse_directory_entries(buffer: &[u8]) -> (r: Vec<PipeDirectoryEntry>)
    ensures
        entries_view(r@) == dir_entries(buffer@, 0),
{
    let b = buffer;
    let n = b.len();
    let mut out: Vec<PipeDirectoryEntry> = Vec::new();
    let mut off: usize = 0;
    assert(entries_view(out@) + dir_entries(b@, 0) =~= dir_entries(b@, 0));
    while off < n
        invariant_except_break
            entries_view(out@) + dir_entries(b@, off as int) == dir_entries(b@, 0),
        invariant
            n == b@.len(),
        ensures
            entries_view(out@) == dir_entries(b@, 0),
        decreases n - off,
    {
        if n - off < 64 {
            assert(dir_entries(b@, off as int) =~= Seq::<PipeDirectoryEntryView>::empty());
            assert(entries_view(out@) + Seq::<PipeDirectoryEntryView>::empty() =~= entries_view(out@));
            break;
        }
        let name_bytes = read_u32_le(b, off + 60) as usize;
        let units = name_bytes / 2;
        if units > (n - off - 64) / 2 {
            assert(dir_entries(b@, off as int) =~= Seq::<PipeDirectoryEntryView>::empty());
            assert(entries_view(out@) + Seq::<PipeDirectoryEntryView>::empty() =~= entries_view(out@));
            break;
        }
        let mut raw: Vec<u8> = Vec::new();
        let mut i: usize = off + 64;
        let end = off + 64 + 2 * units;
        while i < end
            invariant
                off + 64 <= i <= end <= n == b@.len(),
                raw@ == b@.subrange(off + 64, i as int),
            decreases end - i,
        {
            raw.push(b[i]);
            i = i + 1;
        }
        let name_units = crate::registry::values::units_from_bytes(raw.as_slice());
        let name = decode_utf16(name_units.as_slice(), true);
        let entry = PipeDirectoryEntry {
            relative_name: name,
            creation_time: read_u64_le(b, off + 8) as i64,
            last_access_time: read_u64_le(b, off + 16) as i64,
            last_write_time: read_u64_le(b, off + 24) as i64,
            change_time: read_u64_le(b, off + 32) as i64,
            end_of_file: read_u64_le(b, off + 40) as i64,
            allocation_size: read_u64_le(b, off + 48) as i64,
            file_attributes: read_u32_le(b, off + 56),
            file_index: read_u32_le(b, off + 4),
        };
        let ghost e = entry@;
        assert(e == entry_at(b@, off as int));
        let ghost before = entries_view(out@);
        let nonempty = !entry.relative_name.as_str().is_empty();
        if nonempty {
            out.push(entry);
            assert(entries_view(out@) =~= before.push(e));
        }
        let next = read_u32_le(b, off) as usize;
        if next == 0 || next >= n - off {
            proof {
                let here = if e.relative_name.len() > 0 { seq![e] } else { Seq::<PipeDirectoryEntryView>::empty() };
                assert(dir_entries(b@, off as int) == here);
                assert(entries_view(out@) =~= before + here);
            }
            break;
        }
        proof {
            let here = if e.relative_name.len() > 0 { seq![e] } else { Seq::<PipeDirectoryEntryView>::empty() };
            assert(dir_entries(b@, off as int) == here + dir_entries(b@, off + next));
            assert(entries_view(out@) =~= before + here);
        }
        off = off + next;
    }
    out
}

/// The offset between the FILETIME and Unix epochs, in 100-nanosecond intervals.
pub const FILETIME_TO_UNIX_EPOCH: i64 = 116_444_736_000_000_000;

/// The seconds and nanoseconds after the Unix epoch of a FILETIME: none for
/// 0 or below. Seconds before the epoch come out wrapped around, as the
/// unsigned conversion gives them.
pub fn filetime_parts(filetime: i64) -> (r: Option<(u64, u32)>)
    ensures
        filetime <= 0 ==> r is None,
        filetime > 0 ==> r == Some(
            (
                (filetime / 10_000_000 - 11_644_473_600) as u64,
                ((filetime % 10_000_000) * 100) as u32,
            ),
        ),
{
    if filetime <= 0 {
        return None;
    }
    let ft = filetime as u64;
    let whole = (ft / 10_000_000) as i64;
    let secs = (whole - 11_644_473_600) as u64;
    let nanos = ((ft % 10_000_000) as u32) * 100;
    Some((secs, nanos))
}

/// Pipe records in ascending order of name.
pub open spec fn sorted_by_pipe_name(v: Seq<NamedPipeInfo>) -> bool {
    forall|a: int, b: int| 0 <= a < b < v.len() ==> !text_lt(v[b].pipe_name@, v[a].pipe_name@)
}

/// Sorts pipe records by name, records of equal name keeping their order.
pub fn sort_by_pipe_name(v: Vec<NamedPipeInfo>) -> (r: Vec<NamedPipeInfo>)
    ensures
        sorted_by_pipe_name(r@),
        r@.to_multiset() == v@.to_multiset(),
{
    broadcast use vstd::seq_lib::group_to_multiset_ensures, vstd::multiset::group_multiset_axioms;
    let ghost orig = v@;
    let mut rest = v;
    let mut out: Vec<NamedPipeInfo> = Vec::new();
    let n = rest.len();
    let mut i: usize = 0;
    assert(orig.subrange(0, 0) =~= Seq::<NamedPipeInfo>::empty());
    assert(out@ =~= Seq::<NamedPipeInfo>::empty());
    while i < n
        invariant
            n == orig.len(),
            i <= n,
            rest@ == orig.subrange(i as int, n as int),
            sorted_by_pipe_name(out@),
            out@.to_multiset() == orig.subrange(0, i as int).to_multiset(),
        decreases n - i,
    {
        let x = rest.remove(0);
        assert(x == orig[i as int]);
        assert(rest@ =~= orig.subrange(i + 1, n as int));
        let ghost s = out@;
        let mut p: usize = 0;
        let mut found = false;
        while p < out.len() && !found
            invariant
                out@ == s,
                p <= s.len(),
                forall|k: int| 0 <= k < p ==> !text_lt(x.pipe_name@, #[trigger] s[k].pipe_name@),
                found ==> p < s.len() && text_lt(x.pipe_name@, s[p as int].pipe_name@),
            decreases out.len() - p + (if found { 0int } else { 1int }),
        {
            if str_lt(x.pipe_name.as_str(), out[p].pipe_name.as_str()) {
                found = true;
            } else {
                p = p + 1;
            }
        }
        out.insert(p, x);
        proof {
            let t = out@;
            assert(t =~= s.insert(p as int, x));
            assert forall|a: int, b: int| 0 <= a < b < t.len() implies !text_lt(t[b].pipe_name@, t[a].pipe_name@) by {
                if b < p {
                    assert(t[a] == s[a] && t[b] == s[b]);
                } else if a < p && b == p {
                    assert(t[a] == s[a] && t[b] == x);
                } else if a < p && b > p {
                    assert(t[a] == s[a] && t[b] == s[b - 1]);
                } else if a == p {
                    assert(t[a] == x && t[b] == s[b - 1]);
                    assert(found);
                    if text_lt(s[b - 1].pipe_name@, x.pipe_name@) {
                        lemma_text_lt_transitive(s[b - 1].pipe_name@, x.pipe_name@, s[p as int].pipe_name@);
                        if b - 1 == p {
                            lemma_text_lt_irreflexive(s[p as int].pipe_name@);
                        }
                    }
                } else {
                    assert(t[a] == s[a - 1] && t[b] == s[b - 1]);
                }
            }
            assert(orig.subrange(0, i + 1) =~= orig.subrange(0, i as int).push(x));
            vstd::seq_lib::to_multiset_build(orig.subrange(0, i as int), x);
            vstd::seq_lib::to_multiset_insert(s, p as int, x);
            assert(t.to_multiset() == s.to_multiset().insert(x));
            assert(orig.subrange(0, i + 1).to_multiset() == orig.subrange(0, i as int).to_multiset().insert(x));
        }
        i = i + 1;
    }
    assert(orig.subrange(0, n as int) == orig);
    out
}

/// The name of a pipe relative to the pipe namespace, for opening it in the
/// pipe directory: the path after the pipe prefix.
pub fn relative_pipe_name(pipe_name: &PipeName) -> (r: Result<String, Error>)
    ensures
        crate::text::starts_with_seq(pipe_name@, crate::pipes::types::PIPE_PREFIX@) ==> (r matches Ok(s)
            && s@ == pipe_name@.subrange(crate::pipes::types::PIPE_PREFIX@.len() as int, pipe_name@.len() as int)),
        !crate::text::starts_with_seq(pipe_name@, crate::pipes::types::PIPE_PREFIX@) ==> (r matches Err(
            Error::Pipe(PipeError::Io(e)),
        ) && e.pipe_name@ == pipe_directory_resource() && e.operation@ == "derive relative pipe name"@
            && e.error_code is None),
{
    let prefix = chars_of(crate::pipes::types::PIPE_PREFIX);
    let cs = chars_of(pipe_name.as_str());
    if !crate::text::chars_occur_at(cs.as_slice(), prefix.as_slice(), 0) {
        return Err(Error::Pipe(PipeError::Io(PipeIoError::new("\\Device\\NamedPipe", "derive relative pipe name"))));
    }
    let tail = crate::text::chars_range(cs.as_slice(), prefix.len(), cs.len());
    Ok(crate::text::string_from_chars(tail.as_slice()))
}

} // verus!
