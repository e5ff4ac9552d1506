//! Process trees over a process listing: who is whose child, the processes
//! below one, the order to end a tree in (children before parents), and the
//! topmost ancestor of a process.

use vstd::prelude::*;
use vstd::set_lib::lemma_len_subset;

use crate::process::types::ProcessInfo;
use crate::text::decode_utf16;
use crate::types::ProcessId;

verus! {

/// A listing as (process ID, parent ID) links.
pub open spec fn links(procs: Seq<ProcessInfo>) -> Seq<(u32, Option<u32>)> {
    procs.map_values(
        |p: ProcessInfo|
            (
                p.pid.0,
                match p.parent_pid {
                    Some(q) => Some(q.0),
                    None => None,
                },
            ),
    )
}

/// `child` is listed with parent `parent`.
pub open spec fn is_child(l: Seq<(u32, Option<u32>)>, parent: u32, child: u32) -> bool {
    exists|i: int| 0 <= i < l.len() && l[i].0 == child && l[i].1 == Some(parent)
}

/// A chain of `k` parent-to-child steps leads from `x` to `y`.
pub open spec fn path(l: Seq<(u32, Option<u32>)>, x: u32, y: u32, k: nat) -> bool
    decreases k,
{
    if k == 0 {
        x == y
    } else {
        exists|m: u32| #[trigger] is_child(l, x, m) && path(l, m, y, (k - 1) as nat)
    }
}

/// `x` is `root` or lies below it.
pub open spec fn in_tree(l: Seq<(u32, Option<u32>)>, root: u32, x: u32) -> bool {
    exists|k: nat| #[trigger] path(l, root, x, k)
}

/// No process of the tree below `root` lies below itself.
pub open spec fn acyclic_below(l: Seq<(u32, Option<u32>)>, root: u32) -> bool {
    forall|x: u32, k: nat| in_tree(l, root, x) && k >= 1 ==> !#[trigger] path(l, x, x, k)
}

/// The IDs a listing names, and `root`.
pub open spec fn known_ids(l: Seq<(u32, Option<u32>)>, root: u32) -> Seq<u32> {
    seq![root] + l.map_values(|e: (u32, Option<u32>)| e.0)
}

/// A duplicate-free sequence drawn from another is no longer than it.
pub proof fn lemma_distinct_within(a: Seq<u32>, t: Seq<u32>)
    requires
        a.no_duplicates(),
        forall|i: int| 0 <= i < a.len() ==> t.contains(#[trigger] a[i]),
    ensures
        a.len() <= t.len(),
{
    a.unique_seq_to_set();
    t.lemma_cardinality_of_set();
    assert(a.to_set().subset_of(t.to_set())) by {
        assert forall|x: u32| a.to_set().contains(x) implies t.to_set().contains(x) by {
            let i = choose|i: int| 0 <= i < a.len() && a[i] == x;
            assert(t.contains(a[i]));
        }
    }
    vstd::seq_lib::seq_to_set_is_finite(t);
    lemma_len_subset(a.to_set(), t.to_set());
}

/// Whether `x` occurs in `v`.
fn contains_id(v: &Vec<u32>, x: u32) -> (r: bool)
    ensures
        r == v@.contains(x),
{
    let mut i: usize = 0;
    while i < v.len()
        invariant
            i <= v@.len(),
            forall|k: int| 0 <= k < i ==> v@[k] != x,
        decreases v.len() - i,
    {
        if v[i] == x {
            return true;
        }
        i = i + 1;
    }
    false
}

/// Where `x` occurs in `v`, if it does.
fn index_of_id(v: &Vec<u32>, x: u32) -> (r: Option<usize>)
    ensures
        match r {
            Some(i) => i < v@.len() && v@[i as int] == x,
            None => !v@.contains(x),
        },
{
    let mut i: usize = 0;
    while i < v.len()
        invariant
            i <= v@.len(),
            forall|k: int| 0 <= k < i ==> v@[k] != x,
        decreases v.len() - i,
    {
        if v[i] == x {
            return Some(i);
        }
        i = i + 1;
    }
    None
}

/// The (process ID, parent ID) links of a listing.
pub fn process_links(procs: &[ProcessInfo]) -> (r: Vec<(u32, Option<u32>)>)
    ensures
        r@ == links(procs@),
{
    let mut out: Vec<(u32, Option<u32>)> = Vec::new();
    let mut i: usize = 0;
    while i < procs.len()
        invariant
            i <= procs@.len(),
            out@ == links(procs@).subrange(0, i as int),
        decreases procs.len() - i,
    {
        let parent = match procs[i].parent_pid {
            Some(q) => Some(q.0),
            None => None,
        };
        out.push((procs[i].pid.0, parent));
        assert(out@ =~= links(procs@).subrange(0, i + 1));
        i = i + 1;
    }
    out
}

/// A closed set of processes that holds the root holds the whole tree.
proof fn lemma_closed_holds_tree(l: Seq<(u32, Option<u32>)>, root: u32, s: Seq<u32>, x: u32, k: nat)
    requires
        s.contains(root),
        forall|p: u32, c: u32| s.contains(p) && #[trigger] is_child(l, p, c) ==> s.contains(c),
        path(l, root, x, k),
    ensures
        s.contains(x),
    decreases k,
{
    if k > 0 {
        let m = choose|m: u32| #[trigger] is_child(l, root, m) && path(l, m, x, (k - 1) as nat);
        lemma_closed_holds_tree_from(l, m, s, x, (k - 1) as nat);
    }
}

/// Following child steps from a member of a closed set stays in it.
proof fn lemma_closed_holds_tree_from(l: Seq<(u32, Option<u32>)>, start: u32, s: Seq<u32>, x: u32, k: nat)
    requires
        s.contains(start),
        forall|p: u32, c: u32| s.contains(p) && #[trigger] is_child(l, p, c) ==> s.contains(c),
        path(l, start, x, k),
    ensures
        s.contains(x),
    decreases k,
{
    if k > 0 {
        let m = choose|m: u32| #[trigger] is_child(l, start, m) && path(l, m, x, (k - 1) as nat);
        lemma_closed_holds_tree_from(l, m, s, x, (k - 1) as nat);
    }
}

/// A path extended by one child step.
proof fn lemma_path_extend(l: Seq<(u32, Option<u32>)>, x: u32, y: u32, z: u32, k: nat)
    requires
        path(l, x, y, k),
        is_child(l, y, z),
    ensures
        path(l, x, z, k + 1),
    decreases k,
{
    if k == 0 {
        assert(path(l, z, z, 0));
        assert(is_child(l, x, z) && path(l, z, z, 0));
    } else {
        let m = choose|m: u32| #[trigger] is_child(l, x, m) && path(l, m, y, (k - 1) as nat);
        lemma_path_extend(l, m, y, z, (k - 1) as nat);
        assert(is_child(l, x, m) && path(l, m, z, k));
    }
}

/// The processes of the tree below `root`, `root` first, each once.
pub fn tree_members(root: u32, l: &Vec<(u32, Option<u32>)>) -> (r: Vec<u32>)
    ensures
        r@.no_duplicates(),
        r@.len() >= 1,
        r@[0] == root,
        forall|x: u32| r@.contains(x) <==> in_tree(l@, root, x),
{
    let ghost t = known_ids(l@, root);
    let mut members: Vec<u32> = Vec::new();
    members.push(root);
    assert(path(l@, root, root, 0));
    assert(t[0] == root);
    let mut i: usize = 0;
    while i < members.len()
        invariant
            t == known_ids(l@, root),
            members@.no_duplicates(),
            members@.len() >= 1,
            members@[0] == root,
            i <= members@.len(),
            forall|k: int| 0 <= k < members@.len() ==> t.contains(#[trigger] members@[k]),
            forall|k: int| 0 <= k < members@.len() ==> in_tree(l@, root, #[trigger] members@[k]),
            forall|a: int, c: u32| 0 <= a < i && #[trigger] is_child(l@, members@[a], c) ==> members@.contains(c),
        decreases l@.len() + 1 - i,
    {
        proof {
            lemma_distinct_within(members@, t);
        }
        let p = members[i];
        let mut j: usize = 0;
        while j < l.len()
            invariant
                t == known_ids(l@, root),
                members@.no_duplicates(),
                members@.len() >= 1,
                members@[0] == root,
                i < members@.len(),
                p == members@[i as int],
                j <= l@.len(),
                forall|k: int| 0 <= k < members@.len() ==> t.contains(#[trigger] members@[k]),
                forall|k: int| 0 <= k < members@.len() ==> in_tree(l@, root, #[trigger] members@[k]),
                forall|a: int, c: u32| 0 <= a < i && #[trigger] is_child(l@, members@[a], c) ==> members@.contains(c),
                forall|q: int| 0 <= q < j && l@[q].1 == Some(p) ==> members@.contains(#[trigger] l@[q].0),
            decreases l.len() - j,
        {
            let (c, par) = l[j];
            let ghost old_m = members@;
            if par == Some(p) && !contains_id(&members, c) {
                proof {
                    assert(is_child(l@, p, c));
                    let kp = choose|kp: nat| #[trigger] path(l@, root, p, kp);
                    lemma_path_extend(l@, root, p, c, kp);
                    assert(t[j + 1] == c);
                }
                members.push(c);
                assert(members@[members@.len() - 1] == c);
            }
            proof {
                assert forall|x: u32| old_m.contains(x) implies members@.contains(x) by {
                    let k = choose|k: int| 0 <= k < old_m.len() && old_m[k] == x;
                    assert(members@[k] == old_m[k]);
                }
            }
            j = j + 1;
        }
        proof {
            assert forall|a: int, c: u32| 0 <= a < i + 1 && #[trigger] is_child(l@, members@[a], c) implies members@.contains(c) by {
                if a == i {
                    let q = choose|q: int| 0 <= q < l@.len() && l@[q].0 == c && l@[q].1 == Some(members@[a]);
                    assert(l@[q].1 == Some(p));
                }
            }
        }
        i = i + 1;
    }
    proof {
        assert forall|x: u32| in_tree(l@, root, x) implies members@.contains(x) by {
            let k = choose|k: nat| #[trigger] path(l@, root, x, k);
            assert forall|pp: u32, cc: u32| members@.contains(pp) && #[trigger] is_child(l@, pp, cc) implies members@.contains(cc) by {
                let a = choose|a: int| 0 <= a < members@.len() && members@[a] == pp;
                assert(is_child(l@, members@[a], cc));
            }
            lemma_closed_holds_tree(l@, root, members@, x, k);
        }
    }
    members
}

/// Every process of the order comes after its children that are in it.
pub open spec fn children_first(l: Seq<(u32, Option<u32>)>, order: Seq<u32>) -> bool {
    forall|j: int, k: int|
        0 <= j < order.len() && 0 <= k < order.len() && #[trigger] is_child(l, order[j], order[k])
            ==> k < j
}

/// `x` may be ended once its children in `s` are all in `done`.
pub open spec fn ready(l: Seq<(u32, Option<u32>)>, s: Seq<u32>, done: Seq<u32>, x: u32) -> bool {
    forall|c: u32| #[trigger] is_child(l, x, c) && s.contains(c) ==> done.contains(c)
}

/// Each process of `order` comes after its children in `s`.
pub open spec fn ready_prefix(l: Seq<(u32, Option<u32>)>, s: Seq<u32>, order: Seq<u32>) -> bool {
    forall|j: int, c: u32|
        0 <= j < order.len() && #[trigger] is_child(l, order[j], c) && s.contains(c)
            ==> order.subrange(0, j).contains(c)
}

/// A child of `y` in `s` that is not in `done`.
pub open spec fn pending_child(l: Seq<(u32, Option<u32>)>, s: Seq<u32>, done: Seq<u32>, y: u32) -> u32 {
    choose|c: u32| #[trigger] is_child(l, y, c) && s.contains(c) && !done.contains(c)
}

/// `y` has a child in `s` that is not in `done`.
pub open spec fn stuck(l: Seq<(u32, Option<u32>)>, s: Seq<u32>, done: Seq<u32>, y: u32) -> bool {
    exists|c: u32| #[trigger] is_child(l, y, c) && s.contains(c) && !done.contains(c)
}

/// Following pending children from `x` for `n` steps.
pub open spec fn pending_chain(
    l: Seq<(u32, Option<u32>)>,
    s: Seq<u32>,
    done: Seq<u32>,
    x: u32,
    n: nat,
) -> Seq<u32>
    decreases n,
{
    if n == 0 {
        seq![x]
    } else {
        let p = pending_chain(l, s, done, x, (n - 1) as nat);
        p.push(pending_child(l, s, done, p.last()))
    }
}

/// Where every process of `s` not in `done` has a child in `s` not in
/// `done`, the chain of such children stays among them, one step at a time.
proof fn lemma_pending_chain(l: Seq<(u32, Option<u32>)>, s: Seq<u32>, done: Seq<u32>, x: u32, n: nat)
    requires
        s.contains(x),
        !done.contains(x),
        forall|y: u32|
            #![trigger stuck(l, s, done, y)]
            s.contains(y) && !done.contains(y) ==> stuck(l, s, done, y),
    ensures
        pending_chain(l, s, done, x, n).len() == n + 1,
        pending_chain(l, s, done, x, n)[0] == x,
        forall|i: int|
            0 <= i <= n ==> s.contains(#[trigger] pending_chain(l, s, done, x, n)[i]) && !done.contains(
                pending_chain(l, s, done, x, n)[i],
            ),
        forall|i: int|
            0 <= i < n ==> is_child(
                l,
                #[trigger] pending_chain(l, s, done, x, n)[i],
                pending_chain(l, s, done, x, n)[i + 1],
            ),
    decreases n,
{
    if n > 0 {
        lemma_pending_chain(l, s, done, x, (n - 1) as nat);
        let p = pending_chain(l, s, done, x, (n - 1) as nat);
        let y = p.last();
        assert(s.contains(p[n - 1]) && !done.contains(p[n - 1]));
        assert(stuck(l, s, done, y));
        let c = pending_child(l, s, done, y);
        let q = pending_chain(l, s, done, x, n);
        assert(q == p.push(c));
        assert forall|i: int| 0 <= i <= n implies s.contains(#[trigger] q[i]) && !done.contains(q[i]) by {
            if i < n {
                assert(q[i] == p[i]);
            }
        }
        assert forall|i: int| 0 <= i < n implies is_child(l, #[trigger] q[i], q[i + 1]) by {
            if i < n - 1 {
                assert(q[i] == p[i] && q[i + 1] == p[i + 1]);
            }
        }
    }
}

/// Consecutive child steps along a chain make a path.
proof fn lemma_chain_path(l: Seq<(u32, Option<u32>)>, c: Seq<u32>, i: int, j: int)
    requires
        0 <= i <= j < c.len(),
        forall|k: int| 0 <= k < c.len() - 1 ==> is_child(l, #[trigger] c[k], c[k + 1]),
    ensures
        path(l, c[i], c[j], (j - i) as nat),
    decreases j - i,
{
    if i == j {
    } else {
        lemma_chain_path(l, c, i, j - 1);
        assert(is_child(l, c[j - 1], c[j]));
        lemma_path_extend(l, c[i], c[j - 1], c[j], (j - 1 - i) as nat);
    }
}

/// Where no process of the tree lies below itself, some process not yet
/// ended has all its children in the tree ended.
proof fn lemma_stuck_means_cycle(l: Seq<(u32, Option<u32>)>, root: u32, s: Seq<u32>, done: Seq<u32>, x: u32)
    requires
        forall|y: u32| s.contains(y) ==> in_tree(l, root, y),
        s.contains(x),
        !done.contains(x),
        forall|y: u32|
            #![trigger stuck(l, s, done, y)]
            s.contains(y) && !done.contains(y) ==> stuck(l, s, done, y),
    ensures
        !acyclic_below(l, root),
{
    let n = s.len();
    lemma_pending_chain(l, s, done, x, n);
    let c = pending_chain(l, s, done, x, n);
    if c.no_duplicates() {
        assert forall|i: int| 0 <= i < c.len() implies s.contains(#[trigger] c[i]) by {}
        lemma_distinct_within(c, s);
        assert(false);
    }
    let (i, j) = choose|i: int, j: int| 0 <= i < c.len() && 0 <= j < c.len() && i != j && c[i] == c[j];
    let (a, b) = if i < j { (i, j) } else { (j, i) };
    assert forall|k: int| 0 <= k < c.len() - 1 implies is_child(l, #[trigger] c[k], c[k + 1]) by {}
    lemma_chain_path(l, c, a, b);
    assert(s.contains(c[a]));
    assert(in_tree(l, root, c[a]));
    assert(path(l, c[a], c[a], (b - a) as nat));
}

/// Whether `x` may be ended now; see [`ready`].
fn is_ready(l: &Vec<(u32, Option<u32>)>, s: &Vec<u32>, done: &Vec<u32>, x: u32) -> (r: bool)
    ensures
        r == ready(l@, s@, done@, x),
{
    let mut q: usize = 0;
    while q < l.len()
        invariant
            q <= l@.len(),
            forall|k: int| 0 <= k < q && l@[k].1 == Some(x) && s@.contains(l@[k].0) ==> done@.contains(#[trigger] l@[k].0),
        decreases l.len() - q,
    {
        let (c, par) = l[q];
        if par == Some(x) && contains_id(s, c) && !contains_id(done, c) {
            assert(is_child(l@, x, c));
            return false;
        }
        q = q + 1;
    }
    assert forall|c: u32| #[trigger] is_child(l@, x, c) && s@.contains(c) implies done@.contains(c) by {
        let k = choose|k: int| 0 <= k < l@.len() && l@[k].0 == c && l@[k].1 == Some(x);
        assert(done@.contains(l@[k].0));
    }
    true
}

/// The processes of `s` in an order where each comes after its children in
/// `s`, taking every process whose children are all taken, until none is
/// left that can be.
fn emit_ready(l: &Vec<(u32, Option<u32>)>, s: &Vec<u32>) -> (r: Vec<u32>)
    requires
        s@.no_duplicates(),
    ensures
        r@.no_duplicates(),
        forall|k: int| 0 <= k < r@.len() ==> s@.contains(#[trigger] r@[k]),
        ready_prefix(l@, s@, r@),
        forall|y: u32| #![trigger ready(l@, s@, r@, y)] s@.contains(y) && !r@.contains(y) ==> !ready(l@, s@, r@, y),
{
    let mut order: Vec<u32> = Vec::new();
    let mut progress = true;
    while progress
        invariant
            s@.no_duplicates(),
            order@.no_duplicates(),
            forall|k: int| 0 <= k < order@.len() ==> s@.contains(#[trigger] order@[k]),
            ready_prefix(l@, s@, order@),
            !progress ==> forall|y: u32| #![trigger ready(l@, s@, order@, y)] s@.contains(y) && !order@.contains(y) ==> !ready(l@, s@, order@, y),
            order@.len() <= s@.len(),
        decreases s@.len() - order@.len() + (if progress { 1int } else { 0int }),
    {
        progress = false;
        let ghost start_len = order@.len();
        let mut idx: usize = 0;
        while idx < s.len()
            invariant
                s@.no_duplicates(),
                order@.no_duplicates(),
                forall|k: int| 0 <= k < order@.len() ==> s@.contains(#[trigger] order@[k]),
                ready_prefix(l@, s@, order@),
                idx <= s@.len(),
                order@.len() >= start_len,
                progress <==> order@.len() > start_len,
                !progress ==> forall|k: int| 0 <= k < idx && !order@.contains(s@[k]) ==> !ready(l@, s@, order@, #[trigger] s@[k]),
            decreases s.len() - idx,
        {
            let x = s[idx];
            if !contains_id(&order, x) && is_ready(l, s, &order, x) {
                let ghost before = order@;
                order.push(x);
                proof {
                    assert forall|j: int, c: u32|
                        0 <= j < order@.len() && #[trigger] is_child(l@, order@[j], c) && s@.contains(c)
                        implies order@.subrange(0, j).contains(c) by {
                        if j < before.len() {
                            assert(order@.subrange(0, j) == before.subrange(0, j));
                            assert(order@[j] == before[j]);
                        } else {
                            assert(order@.subrange(0, j) == before);
                        }
                    }
                    assert forall|k: int| 0 <= k < order@.len() implies s@.contains(#[trigger] order@[k]) by {
                        if k < before.len() {
                            assert(order@[k] == before[k]);
                        }
                    }
                }
                progress = true;
            }
            idx = idx + 1;
        }
        proof {
            lemma_distinct_within(order@, s@);
            if !progress {
                assert forall|y: u32| #![trigger ready(l@, s@, order@, y)] s@.contains(y) && !order@.contains(y) implies !ready(l@, s@, order@, y) by {
                    let k = choose|k: int| 0 <= k < s@.len() && s@[k] == y;
                    assert(!ready(l@, s@, order@, s@[k]));
                }
            }
        }
    }
    order
}

/// `order` followed by the processes of `s` it lacks, in the order of `s`.
fn append_rest(order: Vec<u32>, s: &Vec<u32>) -> (r: Vec<u32>)
    requires
        order@.no_duplicates(),
        forall|k: int| 0 <= k < order@.len() ==> s@.contains(#[trigger] order@[k]),
    ensures
        r@.no_duplicates(),
        r@.len() >= order@.len(),
        r@.subrange(0, order@.len() as int) == order@,
        forall|x: u32| r@.contains(x) <==> s@.contains(x),
        r@.len() > order@.len() ==> exists|y: u32| s@.contains(y) && !order@.contains(y),
{
    let ghost emitted = order@;
    let mut result = order;
    let mut idx: usize = 0;
    while idx < s.len()
        invariant
            result@.no_duplicates(),
            idx <= s@.len(),
            result@.len() >= emitted.len(),
            result@.subrange(0, emitted.len() as int) == emitted,
            forall|k: int| 0 <= k < result@.len() ==> s@.contains(#[trigger] result@[k]),
            forall|k: int| 0 <= k < idx ==> result@.contains(#[trigger] s@[k]),
            result@.len() > emitted.len() ==> exists|y: u32| s@.contains(y) && !emitted.contains(y),
        decreases s.len() - idx,
    {
        let x = s[idx];
        if !contains_id(&result, x) {
            let ghost before = result@;
            proof {
                if emitted.contains(x) {
                    let k = choose|k: int| 0 <= k < emitted.len() && emitted[k] == x;
                    assert(before.subrange(0, emitted.len() as int)[k] == emitted[k]);
                }
                assert(s@.contains(s@[idx as int]));
            }
            result.push(x);
            proof {
                assert(result@.subrange(0, emitted.len() as int) =~= before.subrange(0, emitted.len() as int));
                assert forall|k: int| 0 <= k < idx + 1 implies result@.contains(#[trigger] s@[k]) by {
                    if k < idx {
                        let m = choose|m: int| 0 <= m < before.len() && before[m] == s@[k];
                        assert(result@[m] == before[m]);
                    } else {
                        assert(result@[result@.len() - 1] == x);
                    }
                }
                assert forall|k: int| 0 <= k < result@.len() implies s@.contains(#[trigger] result@[k]) by {
                    if k < before.len() {
                        assert(result@[k] == before[k]);
                    }
                }
            }
        }
        idx = idx + 1;
    }
    proof {
        assert forall|x: u32| result@.contains(x) <==> s@.contains(x) by {
            if s@.contains(x) {
                let k = choose|k: int| 0 <= k < s@.len() && s@[k] == x;
                assert(result@.contains(s@[k]));
            }
        }
    }
    result
}

/// Without cycles below the root, taking ready processes takes the whole
/// tree.
proof fn lemma_acyclic_all_emitted(l: Seq<(u32, Option<u32>)>, root: u32, s: Seq<u32>, emitted: Seq<u32>, y: u32)
    requires
        acyclic_below(l, root),
        forall|x: u32| s.contains(x) ==> in_tree(l, root, x),
        forall|z: u32| #![trigger ready(l, s, emitted, z)] s.contains(z) && !emitted.contains(z) ==> !ready(l, s, emitted, z),
        s.contains(y),
    ensures
        emitted.contains(y),
{
    if !emitted.contains(y) {
        lemma_not_ready_has_pending(l, s, emitted);
        lemma_stuck_means_cycle(l, root, s, emitted, y);
    }
}

/// A process that is not ready has a child in `s` not yet in `done`.
proof fn lemma_not_ready_has_pending(l: Seq<(u32, Option<u32>)>, s: Seq<u32>, done: Seq<u32>)
    requires
        forall|z: u32|
            #![trigger ready(l, s, done, z)]
            s.contains(z) && !done.contains(z) ==> !ready(l, s, done, z),
    ensures
        forall|z: u32|
            #![trigger stuck(l, s, done, z)]
            s.contains(z) && !done.contains(z) ==> stuck(l, s, done, z),
{
    assert forall|z: u32| #![trigger stuck(l, s, done, z)] s.contains(z) && !done.contains(z) implies stuck(l, s, done, z) by {
        assert(!ready(l, s, done, z));
        let c = choose|c: u32| !(is_child(l, z, c) && s.contains(c) ==> done.contains(c));
        assert(is_child(l, z, c) && s.contains(c) && !done.contains(c));
    }
}

/// A ready prefix of distinct processes is children first.
proof fn lemma_ready_prefix_children_first(l: Seq<(u32, Option<u32>)>, s: Seq<u32>, order: Seq<u32>)
    requires
        order.no_duplicates(),
        ready_prefix(l, s, order),
        forall|k: int| 0 <= k < order.len() ==> s.contains(#[trigger] order[k]),
    ensures
        children_first(l, order),
{
    assert forall|j: int, k: int|
        0 <= j < order.len() && 0 <= k < order.len() && #[trigger] is_child(l, order[j], order[k])
        implies k < j by {
        assert(s.contains(order[k]));
        assert(order.subrange(0, j).contains(order[k]));
        let m = choose|m: int| 0 <= m < j && order.subrange(0, j)[m] == order[k];
        assert(order[m] == order[k]);
    }
}

/// The order to end the tree below `root` in: each process once, every
/// process after its children. Processes of the tree that lie on or above a
/// cycle of the listing come last, in tree order.
pub fn kill_order(root: u32, l: &Vec<(u32, Option<u32>)>) -> (r: Vec<u32>)
    ensures
        r@.no_duplicates(),
        forall|x: u32| r@.contains(x) <==> in_tree(l@, root, x),
        acyclic_below(l@, root) ==> children_first(l@, r@),
{
    let s = tree_members(root, l);
    let order = emit_ready(l, &s);
    let ghost emitted = order@;
    let result = append_rest(order, &s);
    proof {
        if acyclic_below(l@, root) {
            if result@.len() > emitted.len() {
                let y = choose|y: u32| s@.contains(y) && !emitted.contains(y);
                lemma_acyclic_all_emitted(l@, root, s@, emitted, y);
            }
            assert(result@ =~= emitted);
            lemma_ready_prefix_children_first(l@, s@, emitted);
        }
    }
    result
}

/// The parent of `x`: that of the first listing of `x` that names one.
pub open spec fn parent_in(l: Seq<(u32, Option<u32>)>, x: u32) -> Option<u32>
    decreases l.len(),
{
    if l.len() == 0 {
        None
    } else if l[0].0 == x && l[0].1 is Some {
        l[0].1
    } else {
        parent_in(l.drop_first(), x)
    }
}

/// Walking up from `x` past the processes in `visited`: stop at a process
/// without a parent, or at one already passed (a cycle).
pub open spec fn walk_up(l: Seq<(u32, Option<u32>)>, x: u32, visited: Seq<u32>) -> u32
    decreases l.len() + 1 - visited.len(),
{
    match parent_in(l, x) {
        None => x,
        Some(p) => if visited.contains(x) || visited.len() > l.len() {
            x
        } else {
            walk_up(l, p, visited.push(x))
        },
    }
}

/// The topmost ancestor of `x`: the process reached by walking up parent
/// links until one has no parent, or until the walk comes back to a process
/// it passed.
pub open spec fn root_ancestor(l: Seq<(u32, Option<u32>)>, x: u32) -> u32 {
    walk_up(l, x, Seq::empty())
}

/// The IDs listed.
pub open spec fn listed_ids(l: Seq<(u32, Option<u32>)>) -> Seq<u32> {
    l.map_values(|e: (u32, Option<u32>)| e.0)
}

/// A process with a parent is listed.
proof fn lemma_parent_listed(l: Seq<(u32, Option<u32>)>, x: u32)
    requires
        parent_in(l, x) is Some,
    ensures
        listed_ids(l).contains(x),
    decreases l.len(),
{
    if !(l[0].0 == x && l[0].1 is Some) {
        lemma_parent_listed(l.drop_first(), x);
        let k = choose|k: int| 0 <= k < listed_ids(l.drop_first()).len() && listed_ids(l.drop_first())[k] == x;
        assert(listed_ids(l)[k + 1] == x);
    } else {
        assert(listed_ids(l)[0] == x);
    }
}

/// The parent of `x`; see [`parent_in`].
pub fn parent_of(l: &Vec<(u32, Option<u32>)>, x: u32) -> (r: Option<u32>)
    ensures
        r == parent_in(l@, x),
{
    let mut i: usize = 0;
    assert(l@.subrange(0, l@.len() as int) == l@);
    while i < l.len()
        invariant
            i <= l@.len(),
            parent_in(l@, x) == parent_in(l@.subrange(i as int, l@.len() as int), x),
        decreases l.len() - i,
    {
        assert(l@.subrange(i as int, l@.len() as int).drop_first() == l@.subrange(i + 1, l@.len() as int));
        let (pid, par) = l[i];
        if pid == x && par.is_some() {
            return par;
        }
        i = i + 1;
    }
    None
}

/// Find the root ancestor by walking up the parent chain; see
/// [`root_ancestor`].
pub fn find_root_ancestor(pid: u32, l: &Vec<(u32, Option<u32>)>) -> (r: u32)
    ensures
        r == root_ancestor(l@, pid),
{
    let mut x = pid;
    let mut visited: Vec<u32> = Vec::new();
    loop
        invariant
            root_ancestor(l@, pid) == walk_up(l@, x, visited@),
            visited@.no_duplicates(),
            forall|k: int| 0 <= k < visited@.len() ==> listed_ids(l@).contains(#[trigger] visited@[k]),
        decreases l@.len() + 1 - visited@.len(),
    {
        proof {
            lemma_distinct_within(visited@, listed_ids(l@));
        }
        match parent_of(l, x) {
            None => {
                return x;
            },
            Some(p) => {
                if contains_id(&visited, x) {
                    return x;
                }
                proof {
                    lemma_parent_listed(l@, x);
                }
                let ghost before = visited@;
                visited.push(x);
                proof {
                    assert forall|k: int| 0 <= k < visited@.len() implies listed_ids(l@).contains(#[trigger] visited@[k]) by {
                        if k < before.len() {
                            assert(visited@[k] == before[k]);
                        }
                    }
                }
                x = p;
            },
        }
    }
}

/// Whether a listing entry is a child of `parent`.
pub open spec fn child_ids(l: Seq<(u32, Option<u32>)>, parent: u32) -> Seq<u32>
    decreases l.len(),
{
    if l.len() == 0 {
        Seq::empty()
    } else {
        let rest = child_ids(l.drop_last(), parent);
        if l.last().1 == Some(parent) {
            rest.push(l.last().0)
        } else {
            rest
        }
    }
}

/// The immediate children of `pid` in a listing, in listing order.
pub fn children_in(procs: &[ProcessInfo], pid: ProcessId) -> (r: Vec<ProcessId>)
    ensures
        r@.map_values(|p: ProcessId| p.0) == child_ids(links(procs@), pid.0),
{
    let l = process_links(procs);
    let mut out: Vec<ProcessId> = Vec::new();
    let mut i: usize = 0;
    while i < l.len()
        invariant
            l@ == links(procs@),
            i <= l@.len(),
            out@.map_values(|p: ProcessId| p.0) == child_ids(l@.subrange(0, i as int), pid.0),
        decreases l.len() - i,
    {
        assert(l@.subrange(0, i + 1).drop_last() == l@.subrange(0, i as int));
        let (c, par) = l[i];
        if par == Some(pid.0) {
            out.push(ProcessId::new(c));
            assert(out@.map_values(|p: ProcessId| p.0) =~= child_ids(l@.subrange(0, i + 1), pid.0));
        }
        i = i + 1;
    }
    assert(l@.subrange(0, l@.len() as int) == l@);
    out
}

/// The parent listed for `pid`: that of its first listing; `None` where it
/// is not listed or listed without a parent.
pub open spec fn listed_parent(l: Seq<(u32, Option<u32>)>, pid: u32) -> Option<u32>
    decreases l.len(),
{
    if l.len() == 0 {
        None
    } else if l[0].0 == pid {
        l[0].1
    } else {
        listed_parent(l.drop_first(), pid)
    }
}

/// The parent of a process according to a listing; see [`listed_parent`].
pub fn parent_id_in(procs: &[ProcessInfo], pid: ProcessId) -> (r: Option<ProcessId>)
    ensures
        match listed_parent(links(procs@), pid.0) {
            Some(p) => r == Some(ProcessId(p)),
            None => r is None,
        },
{
    let l = process_links(procs);
    let mut i: usize = 0;
    assert(l@.subrange(0, l@.len() as int) == l@);
    while i < l.len()
        invariant
            l@ == links(procs@),
            i <= l@.len(),
            listed_parent(l@, pid.0) == listed_parent(l@.subrange(i as int, l@.len() as int), pid.0),
        decreases l.len() - i,
    {
        assert(l@.subrange(i as int, l@.len() as int).drop_first() == l@.subrange(i + 1, l@.len() as int));
        let (c, par) = l[i];
        if c == pid.0 {
            return match par {
                Some(p) => Some(ProcessId::new(p)),
                None => None,
            };
        }
        i = i + 1;
    }
    None
}

/// A listing entry from a process snapshot entry: the name up to its first
/// NUL (unpaired surrogates as U+FFFD), and no parent where the parent ID is 0.
pub fn process_info_from_entry(pid: u32, parent_pid: u32, exe_file: &[u16], thread_count: u32) -> (r:
    ProcessInfo)
    ensures
        r.pid == ProcessId(pid),
        r.parent_pid == (if parent_pid == 0 {
            None
        } else {
            Some(ProcessId(parent_pid))
        }),
        r.name@ == crate::text::utf16_decode(crate::process::peb::before_nul(exe_file@), true),
        r.thread_count == thread_count,
{
    let mut end: usize = 0;
    while end < exe_file.len() && exe_file[end] != 0
        invariant
            end <= exe_file@.len(),
            forall|k: int| 0 <= k < end ==> exe_file@[k] != 0,
        decreases exe_file.len() - end,
    {
        end = end + 1;
    }
    proof {
        crate::process::peb::lemma_before_nul(exe_file@, end as int);
    }
    let mut name_units: Vec<u16> = Vec::new();
    let mut i: usize = 0;
    while i < end
        invariant
            i <= end <= exe_file@.len(),
            name_units@ == exe_file@.subrange(0, i as int),
        decreases end - i,
    {
        name_units.push(exe_file[i]);
        i = i + 1;
    }
    ProcessInfo {
        pid: ProcessId::new(pid),
        parent_pid: if parent_pid == 0 {
            None
        } else {
            Some(ProcessId::new(parent_pid))
        },
        name: decode_utf16(name_units.as_slice(), true),
        thread_count,
    }
}

} // verus!
