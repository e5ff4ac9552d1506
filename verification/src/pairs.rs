//! Name and value pairs kept as a map: each key at most once, in the order
//! keys first arrived.

use vstd::prelude::*;

use crate::text::str_eq;

verus! {

/// Name and value pairs as plain text.
pub open spec fn pairs_view(v: Seq<(String, String)>) -> Seq<(Seq<char>, Seq<char>)> {
    v.map_values(|p: (String, String)| (p.0@, p.1@))
}

/// Where the first pair with key `k` stands, or -1.
pub open spec fn key_index(s: Seq<(Seq<char>, Seq<char>)>, k: Seq<char>) -> int
    decreases s.len(),
{
    if s.len() == 0 {
        -1
    } else if s[0].0 == k {
        0
    } else {
        let r = key_index(s.drop_first(), k);
        if r < 0 {
            -1
        } else {
            r + 1
        }
    }
}

/// Sets the value of key `k`: in place where the key is present, as a new
/// last pair where it is not.
pub open spec fn pairs_insert(s: Seq<(Seq<char>, Seq<char>)>, k: Seq<char>, v: Seq<char>) -> Seq<
    (Seq<char>, Seq<char>),
> {
    let i = key_index(s, k);
    if i < 0 {
        s.push((k, v))
    } else {
        s.update(i, (k, v))
    }
}

/// The value for key `k`, if any.
pub open spec fn pairs_lookup(s: Seq<(Seq<char>, Seq<char>)>, k: Seq<char>) -> Option<Seq<char>> {
    let i = key_index(s, k);
    if i < 0 {
        None
    } else {
        Some(s[i].1)
    }
}

/// No key occurs twice.
pub open spec fn keys_distinct(s: Seq<(Seq<char>, Seq<char>)>) -> bool {
    forall|i: int, j: int| 0 <= i < j < s.len() ==> s[i].0 != s[j].0
}

/// `key_index` finds the first pair with the key.
pub proof fn lemma_key_index_found(s: Seq<(Seq<char>, Seq<char>)>, k: Seq<char>, i: int)
    requires
        0 <= i < s.len(),
        s[i].0 == k,
        forall|j: int| 0 <= j < i ==> s[j].0 != k,
    ensures
        key_index(s, k) == i,
    decreases s.len(),
{
    if i > 0 {
        assert(s[0].0 != k);
        assert forall|j: int| 0 <= j < i - 1 implies s.drop_first()[j].0 != k by {
            assert(s.drop_first()[j] == s[j + 1]);
        }
        lemma_key_index_found(s.drop_first(), k, i - 1);
    }
}

/// `key_index` is -1 where no pair has the key.
pub proof fn lemma_key_index_absent(s: Seq<(Seq<char>, Seq<char>)>, k: Seq<char>)
    requires
        forall|j: int| 0 <= j < s.len() ==> s[j].0 != k,
    ensures
        key_index(s, k) == -1,
    decreases s.len(),
{
    if s.len() > 0 {
        assert forall|j: int| 0 <= j < s.len() - 1 implies s.drop_first()[j].0 != k by {
            assert(s.drop_first()[j] == s[j + 1]);
        }
        lemma_key_index_absent(s.drop_first(), k);
    }
}

/// `key_index` points at a pair with the key, and no earlier pair has it.
pub proof fn lemma_key_index_sound(s: Seq<(Seq<char>, Seq<char>)>, k: Seq<char>)
    ensures
        -1 <= key_index(s, k) < s.len(),
        key_index(s, k) >= 0 ==> s[key_index(s, k)].0 == k,
        key_index(s, k) >= 0 ==> forall|j: int| 0 <= j < key_index(s, k) ==> s[j].0 != k,
        key_index(s, k) < 0 ==> forall|j: int| 0 <= j < s.len() ==> s[j].0 != k,
    decreases s.len(),
{
    if s.len() > 0 && s[0].0 != k {
        lemma_key_index_sound(s.drop_first(), k);
        assert forall|j: int| 1 <= j < s.len() implies s[j] == s.drop_first()[j - 1] by {}
    }
}

/// Setting a value makes it the key's value, leaves every other key's value
/// as it was, and keeps keys distinct.
pub proof fn lemma_pairs_insert(
    s: Seq<(Seq<char>, Seq<char>)>,
    k: Seq<char>,
    v: Seq<char>,
    other: Seq<char>,
)
    requires
        keys_distinct(s),
    ensures
        keys_distinct(pairs_insert(s, k, v)),
        pairs_lookup(pairs_insert(s, k, v), k) == Some(v),
        other != k ==> pairs_lookup(pairs_insert(s, k, v), other) == pairs_lookup(s, other),
{
    let t = pairs_insert(s, k, v);
    lemma_key_index_sound(s, k);
    lemma_key_index_sound(s, other);
    lemma_key_index_sound(t, k);
    lemma_key_index_sound(t, other);
    let i = key_index(s, k);
    if i < 0 {
        lemma_key_index_found(t, k, s.len() as int);
        if other != k {
            let o = key_index(s, other);
            if o >= 0 {
                assert forall|j: int| 0 <= j < o implies t[j].0 != other by {
                    assert(t[j] == s[j]);
                }
                lemma_key_index_found(t, other, o);
            } else {
                lemma_key_index_absent(t, other);
            }
        }
    } else {
        lemma_key_index_found(t, k, i);
        if other != k {
            let o = key_index(s, other);
            if o >= 0 {
                assert forall|j: int| 0 <= j < o implies t[j].0 != other by {
                    if j != i {
                        assert(t[j] == s[j]);
                    }
                }
                lemma_key_index_found(t, other, o);
            } else {
                lemma_key_index_absent(t, other);
            }
        }
    }
}

/// Sets the value of a key among name and value pairs; see [`pairs_insert`].
pub fn insert_pair(fields: &mut Vec<(String, String)>, k: String, v: String)
    ensures
        pairs_view(final(fields)@) == pairs_insert(
            pairs_view(old(fields)@),
            k@,
            v@,
        ),
{
    let ghost s = pairs_view(fields@);
    let mut i: usize = 0;
    while i < fields.len()
        invariant
            s == pairs_view(fields@),
            fields@ == old(fields)@,
            i <= fields@.len(),
            forall|j: int| 0 <= j < i ==> s[j].0 != k@,
        decreases fields.len() - i,
    {
        if str_eq(fields[i].0.as_str(), k.as_str()) {
            proof {
                lemma_key_index_found(s, k@, i as int);
            }
            fields.set(i, (k, v));
            assert(pairs_view(fields@) =~= pairs_insert(s, k@, v@));
            return;
        }
        i = i + 1;
    }
    proof {
        lemma_key_index_absent(s, k@);
    }
    fields.push((k, v));
    assert(pairs_view(fields@) =~= pairs_insert(s, k@, v@));
}

} // verus!
