//! Lists in which a later entry under a key takes the place of an earlier
//! one.

use vstd::prelude::*;

verus! {

/// No entry after position `k` has the key of the entry at `k`.
pub open spec fn is_last_under_key(keys: Seq<Seq<char>>, k: int) -> bool {
    forall|j: int| k < j < keys.len() ==> keys[j] != keys[k]
}

/// Of the first `n` values, those that no later entry replaces, in order.
pub open spec fn survivors<V>(keys: Seq<Seq<char>>, values: Seq<V>, n: int) -> Seq<V>
    decreases n,
{
    if n <= 0 {
        Seq::empty()
    } else if is_last_under_key(keys, n - 1) {
        survivors(keys, values, n - 1).push(values[n - 1])
    } else {
        survivors(keys, values, n - 1)
    }
}

/// The keys of keyed entries.
pub open spec fn keys_of<V>(found: Seq<(Seq<char>, V)>) -> Seq<Seq<char>> {
    found.map_values(|e: (Seq<char>, V)| e.0)
}

/// The values of keyed entries.
pub open spec fn values_of<V>(found: Seq<(Seq<char>, V)>) -> Seq<V> {
    found.map_values(|e: (Seq<char>, V)| e.1)
}

/// The entries that are the last under their key, in the order in which
/// they came.
pub open spec fn last_under_each_key<V>(found: Seq<(Seq<char>, V)>) -> Seq<V> {
    survivors(keys_of(found), values_of(found), found.len() as int)
}

fn is_last(keys: &Vec<String>, k: usize) -> (r: bool)
    requires
        k < keys.len(),
    ensures
        r == is_last_under_key(keys.deep_view(), k as int),
{
    let mut j: usize = k + 1;
    while j < keys.len()
        invariant
            k < j <= keys.len(),
            forall|i: int| k < i < j ==> keys.deep_view()[i] != keys.deep_view()[k as int],
        decreases keys.len() - j,
    {
        if keys[j] == keys[k] {
            assert(keys.deep_view()[j as int] == keys.deep_view()[k as int]);
            return false;
        }
        j += 1;
    }
    true
}

/// Keeps, of the entries under one key, the last.
pub fn keep_last_under_each_key<T: DeepView>(found: Vec<(String, T)>) -> (kept: Vec<T>)
    ensures
        kept.deep_view() == last_under_each_key(found.deep_view()),
{
    let ghost views = found.deep_view();
    let ghost all = found@;
    let mut keys: Vec<String> = Vec::new();
    let mut i: usize = 0;
    while i < found.len()
        invariant
            i <= found.len(),
            keys.len() == i,
            views == found.deep_view(),
            forall|j: int| 0 <= j < i ==> keys.deep_view()[j] == views[j].0,
        decreases found.len() - i,
    {
        let ghost before = keys.deep_view();
        let key = found[i].0.clone();
        assert(key@ == views[i as int].0);
        keys.push(key);
        assert(keys.deep_view() =~= before.push(views[i as int].0));
        i += 1;
    }
    assert(keys.deep_view() =~= keys_of(views));
    let ghost key_views = keys.deep_view();
    let ghost value_views = values_of(views);
    let count: usize = found.len();
    let mut kept: Vec<T> = Vec::new();
    let mut k: usize = 0;
    assert(kept.deep_view() =~= survivors(key_views, value_views, 0));
    for entry in it: found
        invariant
            it.seq() == all,
            k == it.index(),
            all.len() == count,
            keys.len() == count,
            views.len() == count,
            key_views == keys.deep_view(),
            value_views == values_of(views),
            forall|j: int| 0 <= j < all.len() ==> (#[trigger] all[j]).deep_view() == views[j],
            kept.deep_view() == survivors(key_views, value_views, k as int),
    {
        let ghost before = kept.deep_view();
        assert(entry.deep_view() == views[k as int]);
        if is_last(&keys, k) {
            kept.push(entry.1);
            assert(kept.deep_view() =~= before.push(value_views[k as int]));
        }
        k += 1;
    }
    kept
}

} // verus!
