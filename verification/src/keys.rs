//! Entry identity.
//!
//! Every catalog entry, in every schema version, is identified by an
//! [`EntryKey`]: the entry's kind together with the id wrapped by that
//! kind's key struct.  Keys are stable across versions when an entity is
//! carried forward, which is what lets the applier resolve the `old` side
//! of an action against the snapshot it is transforming.

use vstd::prelude::*;

verus! {

/// An identifier drawn from one of the catalog's id namespaces.
#[derive(Clone, Copy, PartialEq, Eq, Structural, Debug)]
pub enum NamespacedId {
    System(u64),
    User(u64),
    Public,
    Predefined(u64),
}

/// The identity of one snapshot entry: its kind and its id.
///
/// Two entries of different kinds never share a key, so "no duplicate
/// keys within a kind" is the same as "no duplicate keys in the
/// snapshot".
#[derive(Clone, Copy, PartialEq, Eq, Structural, Debug)]
pub enum EntryKey {
    Cluster(NamespacedId),
    Role(NamespacedId),
    Database(u64),
    Schedule(u64),
}

/// How many positions of `keys` hold `k`.
pub open spec fn count_key(keys: Seq<EntryKey>, k: EntryKey) -> nat
    decreases keys.len(),
{
    if keys.len() == 0 {
        0
    } else {
        (if keys[0] == k {
            1nat
        } else {
            0nat
        }) + count_key(keys.drop_first(), k)
    }
}

/// The position of `k` in `keys`; meaningful once `k` occurs exactly once.
pub open spec fn the_key_index(keys: Seq<EntryKey>, k: EntryKey) -> int {
    choose|i: int| 0 <= i < keys.len() && keys[i] == k
}

/// No two positions of `keys` hold the same key.
pub open spec fn distinct_keys(keys: Seq<EntryKey>) -> bool {
    forall|i: int, j: int| 0 <= i < j < keys.len() ==> keys[i] != keys[j]
}

/// Counting a suffix one position at a time.
pub proof fn lemma_count_key_skip(keys: Seq<EntryKey>, k: EntryKey, i: int)
    requires
        0 <= i < keys.len(),
    ensures
        count_key(keys.skip(i), k) == (if keys[i] == k {
            1nat
        } else {
            0nat
        }) + count_key(keys.skip(i + 1), k),
{
    assert(keys.skip(i).drop_first() =~= keys.skip(i + 1));
    assert(keys.skip(i)[0] == keys[i]);
}

/// A key that occurs at some position occurs at least once.
pub proof fn lemma_count_key_pos(keys: Seq<EntryKey>, k: EntryKey, i: int)
    requires
        0 <= i < keys.len(),
        keys[i] == k,
    ensures
        count_key(keys, k) >= 1,
    decreases keys.len(),
{
    if i > 0 {
        lemma_count_key_pos(keys.drop_first(), k, i - 1);
    }
}

/// A key that occurs at two positions occurs at least twice.
pub proof fn lemma_count_key_two(keys: Seq<EntryKey>, k: EntryKey, i: int, j: int)
    requires
        0 <= i < j < keys.len(),
        keys[i] == k,
        keys[j] == k,
    ensures
        count_key(keys, k) >= 2,
    decreases keys.len(),
{
    if i == 0 {
        lemma_count_key_pos(keys.drop_first(), k, j - 1);
    } else {
        lemma_count_key_two(keys.drop_first(), k, i - 1, j - 1);
    }
}

/// A key that occurs at no position occurs zero times.
pub proof fn lemma_count_key_zero(keys: Seq<EntryKey>, k: EntryKey)
    requires
        forall|i: int| 0 <= i < keys.len() ==> keys[i] != k,
    ensures
        count_key(keys, k) == 0,
    decreases keys.len(),
{
    if keys.len() > 0 {
        lemma_count_key_zero(keys.drop_first(), k);
    }
}

/// Under distinct keys, each key present occurs exactly once.
pub proof fn lemma_distinct_count(keys: Seq<EntryKey>, k: EntryKey, i: int)
    requires
        distinct_keys(keys),
        0 <= i < keys.len(),
        keys[i] == k,
    ensures
        count_key(keys, k) == 1,
    decreases keys.len(),
{
    if i == 0 {
        assert(forall|j: int| 0 <= j < keys.drop_first().len() ==> keys.drop_first()[j] != k);
        lemma_count_key_zero(keys.drop_first(), k);
    } else {
        assert(distinct_keys(keys.drop_first()));
        assert(keys[0] != k);
        lemma_distinct_count(keys.drop_first(), k, i - 1);
    }
}

/// When a key occurs exactly once, its chosen index is the position it
/// occurs at.
pub proof fn lemma_unique_index(keys: Seq<EntryKey>, k: EntryKey, j: int)
    requires
        count_key(keys, k) == 1,
        0 <= j < keys.len(),
        keys[j] == k,
    ensures
        the_key_index(keys, k) == j,
{
    let i = the_key_index(keys, k);
    assert(0 <= i < keys.len() && keys[i] == k);
    if i < j {
        lemma_count_key_two(keys, k, i, j);
    } else if j < i {
        lemma_count_key_two(keys, k, j, i);
    }
}

/// Exactly-once occurrence of `k` in `keys`, and where.
///
/// Returns the occurrence's position when `k` occurs exactly once, and
/// `None` when it is absent or duplicated.
pub fn find_unique_key(keys: &Vec<EntryKey>, k: EntryKey) -> (r: Option<usize>)
    ensures
        match r {
            Some(i) => count_key(keys@, k) == 1 && i < keys@.len() && keys@[i as int] == k,
            None => count_key(keys@, k) != 1,
        },
{
    let mut idx: usize = 0;
    let mut cnt: usize = 0;
    let mut first: Option<usize> = None;
    proof {
        assert(keys@.skip(0) =~= keys@);
    }
    while idx < keys.len()
        invariant
            idx <= keys.len(),
            cnt <= idx,
            cnt + count_key(keys@.skip(idx as int), k) == count_key(keys@, k),
            match first {
                Some(f) => cnt >= 1 && f < keys@.len() && keys@[f as int] == k,
                None => cnt == 0,
            },
        decreases keys.len() - idx,
    {
        proof {
            lemma_count_key_skip(keys@, k, idx as int);
        }
        if keys[idx] == k {
            cnt = cnt + 1;
            if first.is_none() {
                first = Some(idx);
            }
        }
        idx = idx + 1;
    }
    proof {
        assert(keys@.skip(keys@.len() as int) =~= Seq::<EntryKey>::empty());
    }
    if cnt == 1 {
        first
    } else {
        None
    }
}

} // verus!
