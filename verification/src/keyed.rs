//! Lists read as maps: a list whose entries carry distinct keys stands for
//! the map from each key to (a value computed from) its entry, and pushing,
//! replacing or removing an entry inserts or removes that key.

use vstd::prelude::*;

verus! {

/// The key of the entry at position `i`.
pub open spec fn key_at<T>(s: Seq<T>, key: spec_fn(T) -> Seq<char>, i: int) -> Seq<char> {
    key(s[i])
}

/// No two entries of `s` share a key.
pub open spec fn keys_distinct<T>(s: Seq<T>, key: spec_fn(T) -> Seq<char>) -> bool {
    forall|i: int, j: int|
        0 <= i < s.len() && 0 <= j < s.len() && i != j ==> key_at(s, key, i) != key_at(s, key, j)
}

/// The entries of `s`, keyed by `key`, each read by `val`.
pub open spec fn keyed_map<T, V>(
    s: Seq<T>,
    key: spec_fn(T) -> Seq<char>,
    val: spec_fn(T) -> V,
) -> Map<Seq<char>, V> {
    Map::new(
        |k: Seq<char>| exists|i: int| 0 <= i < s.len() && #[trigger] key_at(s, key, i) == k,
        |k: Seq<char>| val(s[choose|i: int| 0 <= i < s.len() && #[trigger] key_at(s, key, i) == k]),
    )
}

/// With distinct keys, the entry of the map for the key at position `i` is
/// the entry at position `i`.
pub proof fn lemma_keyed_at<T, V>(s: Seq<T>, key: spec_fn(T) -> Seq<char>, val: spec_fn(T) -> V, i: int)
    requires
        keys_distinct(s, key),
        0 <= i < s.len(),
    ensures
        keyed_map(s, key, val).contains_key(key_at(s, key, i)),
        keyed_map(s, key, val)[key_at(s, key, i)] == val(s[i]),
{
    let k = key_at(s, key, i);
    assert(keyed_map(s, key, val).contains_key(k));
    let j = choose|j: int| 0 <= j < s.len() && #[trigger] key_at(s, key, j) == k;
    assert(j == i);
}

/// Pushing an entry under a new key inserts that key.
pub proof fn lemma_keyed_push<T, V>(s: Seq<T>, key: spec_fn(T) -> Seq<char>, val: spec_fn(T) -> V, e: T)
    requires
        keys_distinct(s, key),
        !keyed_map(s, key, val).contains_key(key(e)),
    ensures
        keys_distinct(s.push(e), key),
        keyed_map(s.push(e), key, val) =~= keyed_map(s, key, val).insert(key(e), val(e)),
{
    let s2 = s.push(e);
    let m = keyed_map(s, key, val);
    let m2 = keyed_map(s2, key, val);
    assert forall|i: int, j: int|
        0 <= i < s2.len() && 0 <= j < s2.len() && i != j implies key_at(s2, key, i) != key_at(
        s2,
        key,
        j,
    ) by {
        if i < s.len() {
            assert(key_at(s2, key, i) == key_at(s, key, i));
        }
        if j < s.len() {
            assert(key_at(s2, key, j) == key_at(s, key, j));
        }
    }
    assert forall|k: Seq<char>| #[trigger]
        m2.contains_key(k) == m.insert(key(e), val(e)).contains_key(k) by {
        if m.contains_key(k) {
            let i = choose|i: int| 0 <= i < s.len() && #[trigger] key_at(s, key, i) == k;
            assert(key_at(s2, key, i) == k);
        }
        if m2.contains_key(k) && k != key(e) {
            let i = choose|i: int| 0 <= i < s2.len() && #[trigger] key_at(s2, key, i) == k;
            assert(key_at(s, key, i) == k);
        }
        assert(key_at(s2, key, s.len() as int) == key(e));
    }
    assert forall|k: Seq<char>| #[trigger] m2.contains_key(k) implies m2[k] == m.insert(
        key(e),
        val(e),
    )[k] by {
        let i = choose|i: int| 0 <= i < s2.len() && #[trigger] key_at(s2, key, i) == k;
        lemma_keyed_at(s2, key, val, i);
        if i < s.len() {
            assert(key_at(s, key, i) == k);
            lemma_keyed_at(s, key, val, i);
        }
    }
}

/// Replacing the entry at position `i` by one with the same key updates
/// that key.
pub proof fn lemma_keyed_update<T, V>(
    s: Seq<T>,
    key: spec_fn(T) -> Seq<char>,
    val: spec_fn(T) -> V,
    i: int,
    e: T,
)
    requires
        keys_distinct(s, key),
        0 <= i < s.len(),
        key(e) == key_at(s, key, i),
    ensures
        keys_distinct(s.update(i, e), key),
        keyed_map(s.update(i, e), key, val) =~= keyed_map(s, key, val).insert(key(e), val(e)),
{
    let s2 = s.update(i, e);
    let m = keyed_map(s, key, val);
    let m2 = keyed_map(s2, key, val);
    assert forall|a: int| 0 <= a < s.len() implies key_at(s2, key, a) == key_at(s, key, a) by {}
    assert forall|k: Seq<char>| #[trigger]
        m2.contains_key(k) == m.insert(key(e), val(e)).contains_key(k) by {
        if m.contains_key(k) {
            let j = choose|j: int| 0 <= j < s.len() && #[trigger] key_at(s, key, j) == k;
            assert(key_at(s2, key, j) == k);
        }
        if m2.contains_key(k) {
            let j = choose|j: int| 0 <= j < s2.len() && #[trigger] key_at(s2, key, j) == k;
            assert(key_at(s, key, j) == k);
        }
        assert(key_at(s, key, i) == key(e));
    }
    assert forall|k: Seq<char>| #[trigger] m2.contains_key(k) implies m2[k] == m.insert(
        key(e),
        val(e),
    )[k] by {
        let j = choose|j: int| 0 <= j < s2.len() && #[trigger] key_at(s2, key, j) == k;
        lemma_keyed_at(s2, key, val, j);
        if j != i {
            assert(key_at(s, key, j) == k);
            lemma_keyed_at(s, key, val, j);
        }
    }
}

/// Removing the entry at position `i` removes its key.
pub proof fn lemma_keyed_remove<T, V>(s: Seq<T>, key: spec_fn(T) -> Seq<char>, val: spec_fn(T) -> V, i: int)
    requires
        keys_distinct(s, key),
        0 <= i < s.len(),
    ensures
        keys_distinct(s.remove(i), key),
        keyed_map(s.remove(i), key, val) =~= keyed_map(s, key, val).remove(key_at(s, key, i)),
{
    let s2 = s.remove(i);
    let gone = key_at(s, key, i);
    let m = keyed_map(s, key, val);
    let m2 = keyed_map(s2, key, val);
    assert forall|a: int| 0 <= a < s2.len() implies key_at(s2, key, a) == key_at(
        s,
        key,
        if a < i {
            a
        } else {
            a + 1
        },
    ) by {}
    assert forall|a: int, b: int|
        0 <= a < s2.len() && 0 <= b < s2.len() && a != b implies key_at(s2, key, a) != key_at(
        s2,
        key,
        b,
    ) by {
        let a1 = if a < i {
            a
        } else {
            a + 1
        };
        let b1 = if b < i {
            b
        } else {
            b + 1
        };
        assert(key_at(s2, key, a) == key_at(s, key, a1));
        assert(key_at(s2, key, b) == key_at(s, key, b1));
    }
    assert forall|k: Seq<char>| #[trigger] m2.contains_key(k) == m.remove(gone).contains_key(k) by {
        if m2.contains_key(k) {
            let a = choose|a: int| 0 <= a < s2.len() && #[trigger] key_at(s2, key, a) == k;
            let a1 = if a < i {
                a
            } else {
                a + 1
            };
            assert(key_at(s, key, a1) == k);
        }
        if m.contains_key(k) && k != gone {
            let a = choose|a: int| 0 <= a < s.len() && #[trigger] key_at(s, key, a) == k;
            assert(a != i);
            let a2 = if a < i {
                a
            } else {
                a - 1
            };
            assert(key_at(s2, key, a2) == k);
        }
    }
    assert forall|k: Seq<char>| #[trigger] m2.contains_key(k) implies m2[k] == m.remove(gone)[k] by {
        let a = choose|a: int| 0 <= a < s2.len() && #[trigger] key_at(s2, key, a) == k;
        lemma_keyed_at(s2, key, val, a);
        let a1 = if a < i {
            a
        } else {
            a + 1
        };
        assert(key_at(s, key, a1) == k);
        lemma_keyed_at(s, key, val, a1);
    }
}

} // verus!
