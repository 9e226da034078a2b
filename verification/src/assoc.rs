//! Name-keyed tables held as vectors of `(name, value)` entries with distinct
//! names, viewed as maps from names to values.

use vstd::prelude::*;
use crate::text::str_eq;

verus! {

/// No two entries share a name.
pub open spec fn keys_unique<V>(s: Seq<(String, V)>) -> bool {
    forall|i: int, j: int|
        0 <= i < s.len() && 0 <= j < s.len() && i != j ==> #[trigger] s[i].0@ != #[trigger] s[j].0@
}

/// The map from names to values that the entries describe; a later entry wins
/// over an earlier one with the same name.
pub open spec fn assoc_map<V>(s: Seq<(String, V)>) -> Map<Seq<char>, V>
    decreases s.len(),
{
    if s.len() == 0 {
        Map::empty()
    } else {
        assoc_map(s.drop_last()).insert(s.last().0@, s.last().1)
    }
}

/// A name is in the map exactly when some entry carries it.
pub proof fn lemma_assoc_contains<V>(s: Seq<(String, V)>, k: Seq<char>)
    ensures
        assoc_map(s).contains_key(k) <==> exists|i: int| 0 <= i < s.len() && #[trigger] s[i].0@
            == k,
    decreases s.len(),
{
    if s.len() > 0 {
        lemma_assoc_contains(s.drop_last(), k);
        if assoc_map(s.drop_last()).contains_key(k) {
            let i = choose|i: int| 0 <= i < s.drop_last().len() && #[trigger] s.drop_last()[i].0@
                == k;
            assert(s[i].0@ == k);
        }
        if exists|i: int| 0 <= i < s.len() && #[trigger] s[i].0@ == k {
            let i = choose|i: int| 0 <= i < s.len() && #[trigger] s[i].0@ == k;
            if i < s.len() - 1 {
                assert(s.drop_last()[i].0@ == k);
            }
        }
    }
}

/// With distinct names, the map gives each entry's value for its name.
pub proof fn lemma_assoc_value<V>(s: Seq<(String, V)>, i: int)
    requires
        keys_unique(s),
        0 <= i < s.len(),
    ensures
        assoc_map(s).contains_key(s[i].0@),
        assoc_map(s)[s[i].0@] == s[i].1,
    decreases s.len(),
{
    if i < s.len() - 1 {
        let t = s.drop_last();
        assert(keys_unique(t)) by {
            assert forall|a: int, b: int|
                0 <= a < t.len() && 0 <= b < t.len() && a != b implies #[trigger] t[a].0@
                    != #[trigger] t[b].0@ by {
                assert(t[a] == s[a] && t[b] == s[b]);
            }
        }
        lemma_assoc_value(t, i);
        assert(t[i] == s[i]);
        assert(s[i].0@ != s[s.len() - 1].0@);
    }
}

/// The position of the entry named `key`, if there is one.
pub fn assoc_find<V>(v: &Vec<(String, V)>, key: &str) -> (r: Option<usize>)
    ensures
        r is None ==> forall|i: int| 0 <= i < v@.len() ==> #[trigger] v@[i].0@ != key@,
        r is Some ==> r->0 < v@.len() && v@[r->0 as int].0@ == key@,
{
    let n = v.len();
    let mut i: usize = 0;
    while i < n
        invariant
            n == v@.len(),
            i <= n,
            forall|j: int| 0 <= j < i ==> #[trigger] v@[j].0@ != key@,
        decreases n - i,
    {
        if str_eq(v[i].0.as_str(), key) {
            return Some(i);
        }
        i = i + 1;
    }
    None
}

/// Looks `key` up in the table.
pub fn assoc_get<'a, V>(v: &'a Vec<(String, V)>, key: &str) -> (r: Option<&'a V>)
    requires
        keys_unique(v@),
    ensures
        r is None <==> !assoc_map(v@).contains_key(key@),
        r is Some ==> *(r->0) == assoc_map(v@)[key@],
{
    proof {
        lemma_assoc_contains(v@, key@);
    }
    match assoc_find(v, key) {
        Some(i) => {
            proof {
                lemma_assoc_value(v@, i as int);
            }
            Some(&v[i].1)
        },
        None => None,
    }
}

/// Sets the value of `key`, replacing the entry of that name or adding one.
pub fn assoc_insert<V>(v: &mut Vec<(String, V)>, key: String, value: V)
    requires
        keys_unique(old(v)@),
    ensures
        keys_unique(final(v)@),
        assoc_map(final(v)@) == assoc_map(old(v)@).insert(key@, value),
{
    let ghost old_s = v@;
    let ghost k = key@;
    match assoc_find(v, key.as_str()) {
        Some(i) => {
            v.set(i, (key, value));
            let ghost s = v@;
            assert(s == old_s.update(i as int, (key, value)));
            assert(keys_unique(s)) by {
                assert forall|a: int, b: int|
                    0 <= a < s.len() && 0 <= b < s.len() && a != b implies #[trigger] s[a].0@
                        != #[trigger] s[b].0@ by {
                    if a == i {
                        assert(old_s[b].0@ != old_s[a].0@);
                    } else if b == i {
                        assert(old_s[b].0@ != old_s[a].0@);
                    }
                }
            }
            assert(assoc_map(s) =~= assoc_map(old_s).insert(k, value)) by {
                assert forall|x: Seq<char>|
                    #[trigger] assoc_map(old_s).insert(k, value).contains_key(x) implies assoc_map(
                    s,
                ).contains_key(x) by {
                    lemma_assoc_contains(s, x);
                    lemma_assoc_contains(old_s, x);
                    if x == k {
                        assert(s[i as int].0@ == x);
                    } else {
                        let j = choose|j: int| 0 <= j < old_s.len() && #[trigger] old_s[j].0@ == x;
                        assert(s[j].0@ == x);
                    }
                }
                assert forall|x: Seq<char>| #[trigger] assoc_map(s).contains_key(x) implies assoc_map(
                    old_s,
                ).insert(k, value).contains_key(x) by {
                    lemma_assoc_contains(s, x);
                    lemma_assoc_contains(old_s, x);
                    if x != k {
                        let j = choose|j: int| 0 <= j < s.len() && #[trigger] s[j].0@ == x;
                        assert(old_s[j].0@ == x);
                    }
                }
                assert forall|x: Seq<char>| #[trigger] assoc_map(s).contains_key(x) implies
                    assoc_map(s)[x] == assoc_map(old_s).insert(k, value)[x] by {
                    lemma_assoc_contains(s, x);
                    let j = choose|j: int| 0 <= j < s.len() && #[trigger] s[j].0@ == x;
                    lemma_assoc_value(s, j);
                    if j != i {
                        lemma_assoc_value(old_s, j);
                    }
                }
            }
        },
        None => {
            v.push((key, value));
            let ghost s = v@;
            assert(s.drop_last() =~= old_s);
            assert(keys_unique(s)) by {
                assert forall|a: int, b: int|
                    0 <= a < s.len() && 0 <= b < s.len() && a != b implies #[trigger] s[a].0@
                        != #[trigger] s[b].0@ by {
                    if a < old_s.len() && b < old_s.len() {
                        assert(s[a] == old_s[a] && s[b] == old_s[b]);
                    } else if a < old_s.len() {
                        assert(s[a] == old_s[a]);
                    } else {
                        assert(s[b] == old_s[b]);
                    }
                }
            }
        },
    }
}

} // verus!
