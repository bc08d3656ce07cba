//! A verified association list: a vector of key/value pairs with unique
//! string keys, viewed as a map from character sequences to values.

use vstd::prelude::*;

use crate::text::str_eq_str;

verus! {

/// The map that an association list stands for; a later pair with the same
/// key wins.
pub open spec fn assoc_view<V>(s: Seq<(String, V)>) -> Map<Seq<char>, V>
    decreases s.len(),
{
    if s.len() == 0 {
        Map::empty()
    } else {
        assoc_view(s.drop_last()).insert(s.last().0@, s.last().1)
    }
}

/// No two pairs share a key.
pub open spec fn assoc_keys_unique<V>(s: Seq<(String, V)>) -> bool {
    forall|i: int, j: int| 0 <= i < j < s.len() ==> #[trigger] s[i].0@ != #[trigger] s[j].0@
}

/// A key is in the view exactly when some pair holds it.
pub proof fn lemma_assoc_contains<V>(s: Seq<(String, V)>, k: Seq<char>)
    ensures
        assoc_view(s).contains_key(k) <==> exists|i: int| 0 <= i < s.len() && #[trigger] s[i].0@
            == k,
    decreases s.len(),
{
    if s.len() > 0 {
        lemma_assoc_contains(s.drop_last(), k);
        if s.last().0@ == k {
            assert(s[s.len() - 1].0@ == k);
        } else if assoc_view(s).contains_key(k) {
            let i = choose|i: int| 0 <= i < s.drop_last().len() && #[trigger] s.drop_last()[i].0@
                == k;
            assert(s[i].0@ == k);
        } else if exists|i: int| 0 <= i < s.len() && #[trigger] s[i].0@ == k {
            let i = choose|i: int| 0 <= i < s.len() && #[trigger] s[i].0@ == k;
            assert(s.drop_last()[i].0@ == k);
        }
    }
}

/// With unique keys, the view maps each stored key to its stored value.
pub proof fn lemma_assoc_get<V>(s: Seq<(String, V)>, i: int)
    requires
        assoc_keys_unique(s),
        0 <= i < s.len(),
    ensures
        assoc_view(s).contains_key(s[i].0@),
        assoc_view(s)[s[i].0@] == s[i].1,
    decreases s.len(),
{
    if i == s.len() - 1 {
    } else {
        lemma_unique_drop_last(s);
        lemma_assoc_get(s.drop_last(), i);
        assert(s[i].0@ != s.last().0@);
        assert(s.drop_last()[i] == s[i]);
    }
}

/// Appending a pair inserts its key.
pub proof fn lemma_assoc_push<V>(s: Seq<(String, V)>, key: String, value: V)
    ensures
        assoc_view(s.push((key, value))) == assoc_view(s).insert(key@, value),
{
    assert(s.push((key, value)).drop_last() =~= s);
    assert(s.push((key, value)).last() == (key, value));
}

/// Removing the pair at `i` removes its key from the view.
pub proof fn lemma_assoc_remove<V>(s: Seq<(String, V)>, i: int)
    requires
        assoc_keys_unique(s),
        0 <= i < s.len(),
    ensures
        assoc_view(s.remove(i)) =~= assoc_view(s).remove(s[i].0@),
    decreases s.len(),
{
    let k = s[i].0@;
    if i == s.len() - 1 {
        assert(s.remove(i) =~= s.drop_last());
        lemma_assoc_contains(s.drop_last(), k);
        assert(forall|j: int| 0 <= j < s.drop_last().len() ==> #[trigger] s.drop_last()[j].0@
            != k);
        assert(!assoc_view(s.drop_last()).contains_key(k));
        assert(assoc_view(s.drop_last()).insert(k, s.last().1).remove(k) =~= assoc_view(
            s.drop_last(),
        ));
    } else {
        lemma_unique_drop_last(s);
        lemma_assoc_remove(s.drop_last(), i);
        assert(s.remove(i).drop_last() =~= s.drop_last().remove(i));
        assert(s.remove(i).last() == s.last());
        assert(k != s.last().0@);
        assert(assoc_view(s.drop_last()).remove(k).insert(s.last().0@, s.last().1) =~= assoc_view(
            s.drop_last(),
        ).insert(s.last().0@, s.last().1).remove(k));
    }
}

/// Dropping the last pair keeps keys unique.
pub proof fn lemma_unique_drop_last<V>(s: Seq<(String, V)>)
    requires
        assoc_keys_unique(s),
        s.len() > 0,
    ensures
        assoc_keys_unique(s.drop_last()),
{
    assert forall|a: int, b: int|
        0 <= a < b < s.drop_last().len() implies #[trigger] s.drop_last()[a].0@ != #[trigger] s.drop_last()[b].0@ by {
        assert(s.drop_last()[a] == s[a]);
        assert(s.drop_last()[b] == s[b]);
    }
}

/// Removing a pair keeps keys unique.
pub proof fn lemma_unique_remove<V>(s: Seq<(String, V)>, i: int)
    requires
        assoc_keys_unique(s),
        0 <= i < s.len(),
    ensures
        assoc_keys_unique(s.remove(i)),
{
    assert forall|a: int, b: int|
        0 <= a < b < s.remove(i).len() implies #[trigger] s.remove(i)[a].0@ != #[trigger] s.remove(
        i,
    )[b].0@ by {
        let a2 = if a < i { a } else { a + 1 };
        let b2 = if b < i { b } else { b + 1 };
        assert(s.remove(i)[a] == s[a2]);
        assert(s.remove(i)[b] == s[b2]);
    }
}

/// No pair of `s` holds `k` once the only pair that held it is removed.
pub proof fn lemma_remove_clears_key<V>(s: Seq<(String, V)>, i: int)
    requires
        assoc_keys_unique(s),
        0 <= i < s.len(),
    ensures
        forall|a: int| 0 <= a < s.remove(i).len() ==> #[trigger] s.remove(i)[a].0@ != s[i].0@,
{
    assert forall|a: int| 0 <= a < s.remove(i).len() implies #[trigger] s.remove(i)[a].0@
        != s[i].0@ by {
        let a2 = if a < i { a } else { a + 1 };
        assert(s.remove(i)[a] == s[a2]);
        assert(a2 != i);
        if a2 < i {
            assert(s[a2].0@ != s[i].0@);
        } else {
            assert(s[i].0@ != s[a2].0@);
        }
    }
}

/// Appending a pair whose key is fresh keeps keys unique.
pub proof fn lemma_unique_push_fresh<V>(s: Seq<(String, V)>, key: String, value: V)
    requires
        assoc_keys_unique(s),
        forall|a: int| 0 <= a < s.len() ==> #[trigger] s[a].0@ != key@,
    ensures
        assoc_keys_unique(s.push((key, value))),
{
    let t = s.push((key, value));
    assert forall|a: int, b: int| 0 <= a < b < t.len() implies #[trigger] t[a].0@ != #[trigger] t[b].0@ by {
        if b < s.len() {
            assert(t[a] == s[a]);
            assert(t[b] == s[b]);
        } else {
            assert(t[a] == s[a]);
            assert(t[b] == (key, value));
        }
    }
}

/// The index of the pair holding `key`, if any.
pub fn assoc_find<V>(v: &Vec<(String, V)>, key: &str) -> (r: Option<usize>)
    ensures
        r matches Some(i) ==> i < v@.len() && v@[i as int].0@ == key@,
        r is None ==> forall|i: int| 0 <= i < v@.len() ==> #[trigger] v@[i].0@ != key@,
{
    let mut i: usize = 0;
    while i < v.len()
        invariant
            i <= v@.len(),
            forall|j: int| 0 <= j < i ==> #[trigger] v@[j].0@ != key@,
        decreases v@.len() - i,
    {
        if str_eq_str(v[i].0.as_str(), key) {
            return Some(i);
        }
        i = i + 1;
    }
    None
}

/// Whether `key` is present.
pub fn assoc_contains_key<V>(v: &Vec<(String, V)>, key: &str) -> (r: bool)
    ensures
        r == assoc_view(v@).contains_key(key@),
{
    let found = assoc_find(v, key);
    proof {
        lemma_assoc_contains(v@, key@);
    }
    found.is_some()
}

/// The value stored under `key`, if any.
pub fn assoc_get<'a, V>(v: &'a Vec<(String, V)>, key: &str) -> (r: Option<&'a V>)
    requires
        assoc_keys_unique(v@),
    ensures
        r is Some <==> assoc_view(v@).contains_key(key@),
        r matches Some(x) ==> assoc_view(v@).contains_key(key@) && *x == assoc_view(v@)[key@],
{
    proof {
        lemma_assoc_contains(v@, key@);
    }
    match assoc_find(v, key) {
        Some(i) => {
            proof {
                lemma_assoc_get(v@, i as int);
            }
            Some(&v[i].1)
        },
        None => None,
    }
}

/// Stores `value` under `key`, replacing any pair that held the key.
pub fn assoc_insert<V>(v: &mut Vec<(String, V)>, key: String, value: V)
    requires
        assoc_keys_unique(old(v)@),
    ensures
        assoc_keys_unique(final(v)@),
        assoc_view(final(v)@) == assoc_view(old(v)@).insert(key@, value),
{
    match assoc_find(v, &key) {
        Some(i) => {
            let ghost pre = v@;
            let _ = v.remove(i);
            proof {
                lemma_assoc_remove(pre, i as int);
                lemma_unique_remove(pre, i as int);
                lemma_remove_clears_key(pre, i as int);
                assert(forall|a: int| 0 <= a < v@.len() ==> #[trigger] v@[a].0@ != key@);
            }
            let ghost mid = v@;
            v.push((key, value));
            proof {
                lemma_assoc_push(mid, key, value);
                lemma_unique_push_fresh(mid, key, value);
                assert(assoc_view(v@) =~= assoc_view(pre).insert(key@, value));
            }
        },
        None => {
            let ghost pre = v@;
            v.push((key, value));
            proof {
                lemma_assoc_push(pre, key, value);
                lemma_unique_push_fresh(pre, key, value);
            }
        },
    }
}

/// Removes the pair stored under `key`, if any.
pub fn assoc_remove_key<V>(v: &mut Vec<(String, V)>, key: &str)
    requires
        assoc_keys_unique(old(v)@),
    ensures
        assoc_keys_unique(final(v)@),
        assoc_view(final(v)@) == assoc_view(old(v)@).remove(key@),
{
    match assoc_find(v, key) {
        Some(i) => {
            let ghost pre = v@;
            let _ = v.remove(i);
            proof {
                lemma_assoc_remove(pre, i as int);
                lemma_unique_remove(pre, i as int);
            }
        },
        None => {
            proof {
                lemma_assoc_contains(v@, key@);
                assert(!assoc_view(v@).contains_key(key@));
                assert(assoc_view(v@).remove(key@) =~= assoc_view(v@));
            }
        },
    }
}

} // verus!
