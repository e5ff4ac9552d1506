//! Batches filled from what a source handed over, keeping what a caller's
//! filter accepts.

use vstd::prelude::*;

verus! {

/// The items whose flag is set, in order.
pub open spec fn selected<T>(items: Seq<T>, keep: Seq<bool>) -> Seq<T>
    decreases items.len(),
{
    if items.len() == 0 || keep.len() == 0 {
        Seq::empty()
    } else {
        let rest = selected(items.drop_last(), keep.drop_last());
        if keep.last() {
            rest.push(items.last())
        } else {
            rest
        }
    }
}

/// `out` is what `filter` kept of `items`: for some answers the filter may
/// give, one per item, the items answered `true`, in order.
pub open spec fn kept_by<T, F: Fn(&T) -> bool>(filter: F, items: Seq<T>, out: Seq<T>) -> bool {
    exists|keep: Seq<bool>|
        {
            &&& keep.len() == items.len()
            &&& forall|i: int| 0 <= i < items.len() ==> filter.ensures((&items[i],), #[trigger] keep[i])
            &&& out == selected(items, keep)
        }
}

/// With every flag set, all items are selected.
pub proof fn lemma_select_all<T>(items: Seq<T>, keep: Seq<bool>)
    requires
        keep.len() == items.len(),
        forall|i: int| 0 <= i < keep.len() ==> #[trigger] keep[i],
    ensures
        selected(items, keep) == items,
    decreases items.len(),
{
    if items.len() > 0 {
        lemma_select_all(items.drop_last(), keep.drop_last());
        assert(keep.last());
        assert(items.drop_last().push(items.last()) =~= items);
    }
}

/// Empties `out`, then pushes, in order, each item of `items` that `filter`
/// accepts; returns how many were pushed. The filter is asked once per item,
/// and `out` holds exactly the items it answered `true` for.
pub fn fill_batch<T, F: Fn(&T) -> bool>(out: &mut Vec<T>, items: Vec<T>, filter: &F) -> (r: usize)
    requires
        forall|x: &T| filter.requires((x,)),
    ensures
        kept_by(*filter, items@, final(out)@),
        r == final(out)@.len(),
{
    out.clear();
    let ghost all = items@;
    let ghost mut keep: Seq<bool> = Seq::empty();
    for item in it: items.into_iter()
        invariant
            forall|x: &T| filter.requires((x,)),
            it.seq() == all,
            keep.len() == it.index(),
            forall|k: int| 0 <= k < it.index() ==> filter.ensures((&all[k],), #[trigger] keep[k]),
            out@ == selected(all.subrange(0, it.index() as int), keep),
    {
        let ghost i = it.index();
        let ok = filter(&item);
        proof {
            assert(all.subrange(0, i + 1).drop_last() =~= all.subrange(0, i as int));
            assert(keep.push(ok).drop_last() =~= keep);
        }
        if ok {
            out.push(item);
        }
        proof {
            keep = keep.push(ok);
        }
    }
    proof {
        assert(all.subrange(0, all.len() as int) =~= all);
    }
    out.len()
}

} // verus!
