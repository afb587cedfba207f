//! Reverse lookup with the first-wins rule: among the variants that share a
//! key, the one that comes first in dataset order owns it.

use vstd::hash_map::StringHashMap;
use vstd::prelude::*;
use vstd::string::StringExecFns;

verus! {

/// One column of the table, by ordinal: the key of each variant, or `None`
/// where the variant has no value in that column.
pub type Keys = Seq<Option<Seq<char>>>;

/// Some variant has the key `key`.
pub open spec fn occurs(keys: Keys, key: Seq<char>) -> bool {
    exists|i: int| 0 <= i < keys.len() && #[trigger] keys[i] == Some(key)
}

/// The variant `i` has the key `key`, and no variant before it has.
pub open spec fn first_with(keys: Keys, key: Seq<char>, i: int) -> bool {
    &&& 0 <= i < keys.len()
    &&& keys[i] == Some(key)
    &&& forall|j: int| 0 <= j < i ==> #[trigger] keys[j] != Some(key)
}

/// The variant that `key` resolves to: the first one in dataset order that
/// has it, or `None` where no variant has it.
pub open spec fn find(keys: Keys, key: Seq<char>) -> Option<int> {
    if occurs(keys, key) {
        Some(choose|i: int| first_with(keys, key, i))
    } else {
        None
    }
}

/// The map `map` answers every key as [`find`] does over `keys`.
pub open spec fn indexes(map: Map<Seq<char>, usize>, keys: Keys) -> bool {
    &&& forall|k: Seq<char>| #[trigger] map.contains_key(k) ==> first_with(keys, k, map[k] as int)
    &&& forall|i: int|
        0 <= i < keys.len() ==> match #[trigger] keys[i] {
            Some(k) => map.contains_key(k),
            None => true,
        }
}

/// Among the variants below `n` that have `key`, one comes first.
proof fn lemma_first_below(keys: Keys, key: Seq<char>, n: int)
    requires
        0 <= n < keys.len(),
        keys[n] == Some(key),
    ensures
        exists|i: int| first_with(keys, key, i) && i <= n,
    decreases n,
{
    if exists|j: int| 0 <= j < n && #[trigger] keys[j] == Some(key) {
        let j = choose|j: int| 0 <= j < n && #[trigger] keys[j] == Some(key);
        lemma_first_below(keys, key, j);
    } else {
        assert(first_with(keys, key, n));
    }
}

/// At most one variant is the first with a key, and [`find`] names it.
pub proof fn lemma_find_first(keys: Keys, key: Seq<char>, i: int)
    requires
        first_with(keys, key, i),
    ensures
        find(keys, key) == Some(i),
{
    assert(occurs(keys, key));
    let c = choose|c: int| first_with(keys, key, c);
    assert(first_with(keys, key, c));
    assert(c == i) by {
        if c < i {
            assert(keys[c] != Some(key));
        }
        if i < c {
            assert(keys[i] != Some(key));
        }
    }
}

/// What [`find`] returns is the first variant with the key; it returns
/// `None` exactly where no variant has the key.
pub proof fn lemma_find(keys: Keys, key: Seq<char>)
    ensures
        match find(keys, key) {
            Some(i) => first_with(keys, key, i),
            None => forall|i: int| 0 <= i < keys.len() ==> #[trigger] keys[i] != Some(key),
        },
{
    if occurs(keys, key) {
        let n = choose|i: int| 0 <= i < keys.len() && #[trigger] keys[i] == Some(key);
        lemma_first_below(keys, key, n);
    }
}

/// A variant that has a key resolves, by that key, to itself or to an
/// earlier variant with the same key.
pub proof fn lemma_find_at_most(keys: Keys, i: int)
    requires
        0 <= i < keys.len(),
        keys[i] is Some,
    ensures
        find(keys, keys[i]->0) is Some,
        find(keys, keys[i]->0)->0 <= i,
        keys[find(keys, keys[i]->0)->0] == keys[i],
{
    let key = keys[i]->0;
    lemma_first_below(keys, key, i);
    let f = choose|f: int| first_with(keys, key, f) && f <= i;
    lemma_find_first(keys, key, f);
}

/// What a key resolves to among the first `n` variants, it resolves to in
/// the whole column; a key that none of them has belongs to the variant `n`
/// where that one has it.
pub proof fn lemma_find_prefix(keys: Keys, n: int, key: Seq<char>)
    requires
        0 <= n <= keys.len(),
    ensures
        find(keys.subrange(0, n), key) is Some ==> find(keys, key) == find(
            keys.subrange(0, n),
            key,
        ),
        find(keys.subrange(0, n), key) is None && n < keys.len() && keys[n] == Some(key) ==> find(
            keys,
            key,
        ) == Some(n),
{
    let prefix = keys.subrange(0, n);
    lemma_find(prefix, key);
    match find(prefix, key) {
        Some(f) => {
            assert(prefix[f] == keys[f]);
            assert forall|j: int| 0 <= j < f implies #[trigger] keys[j] != Some(key) by {
                assert(prefix[j] == keys[j]);
            }
            lemma_find_first(keys, key, f);
        },
        None => {
            if n < keys.len() && keys[n] == Some(key) {
                assert forall|j: int| 0 <= j < n implies #[trigger] keys[j] != Some(key) by {
                    assert(prefix[j] == keys[j]);
                }
                lemma_find_first(keys, key, n);
            }
        },
    }
}

/// A map answers as [`find`] does exactly where it holds the keys that
/// occur, each with the first variant that has it.
pub proof fn lemma_indexes(map: Map<Seq<char>, usize>, keys: Keys, key: Seq<char>)
    requires
        indexes(map, keys),
    ensures
        map.contains_key(key) <==> find(keys, key) is Some,
        map.contains_key(key) ==> find(keys, key) == Some(map[key] as int),
{
    lemma_find(keys, key);
    if map.contains_key(key) {
        lemma_find_first(keys, key, map[key] as int);
    }
}

/// Registers `key` for the variant `ordinal`, the next one in dataset order,
/// unless an earlier variant already owns the key.
pub(crate) fn register(
    map: &mut StringHashMap<usize>,
    key: &str,
    ordinal: usize,
    Ghost(keys): Ghost<Keys>,
)
    requires
        indexes(old(map)@, keys),
        ordinal == keys.len(),
    ensures
        indexes(final(map)@, keys.push(Some(key@))),
{
    let ghost more = keys.push(Some(key@));
    let seen = map.contains_key(key);
    if !seen {
        map.insert(String::from_str(key), ordinal);
    }
    proof {
        assert forall|k: Seq<char>| #[trigger] map@.contains_key(k) implies first_with(
            more,
            k,
            map@[k] as int,
        ) by {
            if k == key@ && !seen {
                assert(more[ordinal as int] == Some(k));
                assert forall|j: int| 0 <= j < ordinal implies #[trigger] more[j] != Some(k) by {
                    assert(more[j] == keys[j]);
                }
            } else {
                assert(old(map)@.contains_key(k));
                let i = old(map)@[k] as int;
                assert(first_with(keys, k, i));
                assert(more[i] == keys[i]);
                assert forall|j: int| 0 <= j < i implies #[trigger] more[j] != Some(k) by {
                    assert(more[j] == keys[j]);
                }
            }
        }
        assert forall|i: int| 0 <= i < more.len() implies match #[trigger] more[i] {
            Some(k) => map@.contains_key(k),
            None => true,
        } by {
            if i < keys.len() {
                assert(more[i] == keys[i]);
            }
        }
    }
}

/// Passes over a variant that has no value in this column.
pub(crate) proof fn lemma_skip(map: Map<Seq<char>, usize>, keys: Keys)
    requires
        indexes(map, keys),
    ensures
        indexes(map, keys.push(None)),
{
    let more = keys.push(None);
    assert forall|k: Seq<char>| #[trigger] map.contains_key(k) implies first_with(
        more,
        k,
        map[k] as int,
    ) by {
        let i = map[k] as int;
        assert(first_with(keys, k, i));
        assert(more[i] == keys[i]);
        assert forall|j: int| 0 <= j < i implies #[trigger] more[j] != Some(k) by {
            assert(more[j] == keys[j]);
        }
    }
    assert forall|i: int| 0 <= i < more.len() implies match #[trigger] more[i] {
        Some(k) => map.contains_key(k),
        None => true,
    } by {
        if i < keys.len() {
            assert(more[i] == keys[i]);
        }
    }
}

/// The variant that `key` resolves to.
pub(crate) fn lookup(map: &StringHashMap<usize>, key: &str, Ghost(keys): Ghost<Keys>) -> (r:
    Option<usize>)
    requires
        indexes(map@, keys),
    ensures
        match r {
            Some(i) => find(keys, key@) == Some(i as int),
            None => find(keys, key@) is None,
        },
{
    proof {
        lemma_indexes(map@, keys, key@);
    }
    match map.get(key) {
        Some(i) => Some(*i),
        None => None,
    }
}

} // verus!
