//! Ordered association lists keyed by strings (lookup returns the first match).

use vstd::prelude::*;
use crate::utils::chars::str_eq;

verus! {

/// The index of the first entry whose key is `key`, or -1 when there is none.
pub open spec fn first_key_index<V>(e: Seq<(Seq<char>, V)>, key: Seq<char>) -> int
    decreases e.len(),
{
    if e.len() == 0 {
        -1
    } else if e[0].0 == key {
        0
    } else {
        let r = first_key_index(e.drop_first(), key);
        if r < 0 {
            -1
        } else {
            r + 1
        }
    }
}

/// The value of the first entry whose key is `key`.
pub open spec fn lookup<V>(e: Seq<(Seq<char>, V)>, key: Seq<char>) -> Option<V> {
    let i = first_key_index(e, key);
    if i < 0 {
        None
    } else {
        Some(e[i].1)
    }
}

/// The keys of the entries, in order.
pub open spec fn keys_of<V>(e: Seq<(Seq<char>, V)>) -> Seq<Seq<char>> {
    e.map_values(|p: (Seq<char>, V)| p.0)
}

/// `first_key_index` is the first position holding the key.
pub proof fn lemma_first_key_index<V>(e: Seq<(Seq<char>, V)>, key: Seq<char>, i: int)
    requires
        0 <= i <= e.len(),
        forall|k: int| 0 <= k < i ==> (#[trigger] e[k]).0 != key,
        i == e.len() || e[i].0 == key,
    ensures
        first_key_index(e, key) == (if i == e.len() { -1 } else { i }),
    decreases i,
{
    if i > 0 {
        let t = e.drop_first();
        assert forall|k: int| 0 <= k < i - 1 implies (#[trigger] t[k]).0 != key by {
            assert(t[k] == e[k + 1]);
            assert(e[k + 1].0 != key);
        }
        if i < e.len() {
            assert(t[i - 1] == e[i]);
        }
        assert(e[0].0 != key);
        lemma_first_key_index(t, key, i - 1);
    }
}

/// `first_key_index` is -1 or a position holding the key.
pub proof fn lemma_first_key_index_range<V>(e: Seq<(Seq<char>, V)>, key: Seq<char>)
    ensures
        -1 <= first_key_index(e, key) < e.len(),
        first_key_index(e, key) >= 0 ==> e[first_key_index(e, key)].0 == key,
        first_key_index(e, key) < 0 ==> forall|k: int| 0 <= k < e.len() ==> (#[trigger] e[k]).0 != key,
    decreases e.len(),
{
    if e.len() > 0 && e[0].0 != key {
        let t = e.drop_first();
        lemma_first_key_index_range(t, key);
        if first_key_index(t, key) < 0 {
            assert forall|k: int| 0 <= k < e.len() implies (#[trigger] e[k]).0 != key by {
                if k > 0 {
                    assert(e[k] == t[k - 1]);
                }
            }
        }
    }
}

/// The position of the first entry of `e` whose key is `key`.
pub fn find_key<V>(e: &Vec<(String, V)>, key: &str) -> (r: Option<usize>)
    ensures
        match r {
            Some(i) => i < e@.len() && first_key_index(key_views(e@), key@) == i,
            None => first_key_index(key_views(e@), key@) == -1,
        },
{
    let ghost kv = key_views(e@);
    let mut i: usize = 0;
    while i < e.len()
        invariant
            i <= e@.len(),
            kv == key_views(e@),
            forall|k: int| 0 <= k < i ==> (#[trigger] kv[k]).0 != key@,
        decreases e.len() - i,
    {
        if str_eq(e[i].0.as_str(), key) {
            proof {
                lemma_first_key_index(kv, key@, i as int);
            }
            return Some(i);
        }
        i += 1;
    }
    proof {
        lemma_first_key_index(kv, key@, i as int);
    }
    None
}

/// Entries with their keys taken by view.
pub open spec fn key_views<V>(e: Seq<(String, V)>) -> Seq<(Seq<char>, V)> {
    e.map_values(|p: (String, V)| (p.0@, p.1))
}

/// Sequences with the same keys at the same positions find a key at the same position.
pub proof fn lemma_same_keys<V, W>(a: Seq<(Seq<char>, V)>, b: Seq<(Seq<char>, W)>, key: Seq<char>)
    requires
        a.len() == b.len(),
        forall|i: int| 0 <= i < a.len() ==> (#[trigger] a[i]).0 == b[i].0,
    ensures
        first_key_index(a, key) == first_key_index(b, key),
    decreases a.len(),
{
    if a.len() > 0 {
        let ta = a.drop_first();
        let tb = b.drop_first();
        assert forall|i: int| 0 <= i < ta.len() implies (#[trigger] ta[i]).0 == tb[i].0 by {
            assert(ta[i] == a[i + 1]);
            assert(tb[i] == b[i + 1]);
        }
        assert(a[0].0 == b[0].0);
        lemma_same_keys(ta, tb, key);
    }
}

/// No key occurs twice.
pub open spec fn keys_distinct<V>(e: Seq<(Seq<char>, V)>) -> bool {
    forall|i: int, j: int| #![trigger e[i], e[j]] 0 <= i < j < e.len() ==> e[i].0 != e[j].0
}

/// With distinct keys, looking up the key of an entry finds that entry.
pub proof fn lemma_distinct_lookup<V>(e: Seq<(Seq<char>, V)>, i: int)
    requires
        keys_distinct(e),
        0 <= i < e.len(),
    ensures
        lookup(e, e[i].0) == Some(e[i].1),
{
    assert forall|k: int| 0 <= k < i implies (#[trigger] e[k]).0 != e[i].0 by {
        assert(e[k].0 != e[i].0);
    }
    lemma_first_key_index(e, e[i].0, i);
}

/// A key held by some entry is found.
pub proof fn lemma_present_lookup<V>(e: Seq<(Seq<char>, V)>, i: int)
    requires
        0 <= i < e.len(),
    ensures
        lookup(e, e[i].0) is Some,
{
    lemma_first_key_index_range(e, e[i].0);
}

} // verus!
