//! The migration chain runner.
//!
//! [`run`] walks the registered upgrade steps in strictly increasing
//! version order, one adjacent pair at a time, folding each step's
//! actions into the evolving snapshot with the applier, until the
//! snapshot reaches the requested target version.  A downgrade request
//! is rejected, a target beyond the newest registered step is a
//! registry gap, a snapshot with colliding keys is a structural
//! violation, and running at the target is a no-op returning the input
//! unchanged.

use vstd::prelude::*;

use crate::action::{CarryForward, Entry, MigrationError};
use crate::apply::{apply, keys_of};
use crate::keys::{distinct_keys, EntryKey};
use crate::objects_v80 as v80;
use crate::objects_v81 as v81;
use crate::objects_v82 as v82;
use crate::v80_to_v81;
use crate::v81_to_v82;
use crate::v81_to_v82::surviving;

verus! {

/// The oldest schema version the chain can start from.
pub const MIN_VERSION: u64 = 80;

/// The newest schema version the chain can reach.
pub const MAX_VERSION: u64 = 82;

/// A complete catalog snapshot tagged with its schema version.
#[derive(PartialEq, Eq, Debug)]
pub enum VersionedSnapshot {
    V80(Vec<v80::StateUpdateKind>),
    V81(Vec<v81::StateUpdateKind>),
    V82(Vec<v82::StateUpdateKind>),
}

impl VersionedSnapshot {
    /// The schema version this snapshot was written at.
    pub open spec fn version(&self) -> u64 {
        match self {
            VersionedSnapshot::V80(_) => 80,
            VersionedSnapshot::V81(_) => 81,
            VersionedSnapshot::V82(_) => 82,
        }
    }

    /// Reads the schema version tag.
    pub fn current_version(&self) -> (v: u64)
        ensures
            v == self.version(),
    {
        match self {
            VersionedSnapshot::V80(_) => 80,
            VersionedSnapshot::V81(_) => 81,
            VersionedSnapshot::V82(_) => 82,
        }
    }

    /// The key sequence of the snapshot's entries.
    pub open spec fn entry_keys(&self) -> Seq<EntryKey> {
        match self {
            VersionedSnapshot::V80(v) => keys_of(v@),
            VersionedSnapshot::V81(v) => keys_of(v@),
            VersionedSnapshot::V82(v) => keys_of(v@),
        }
    }
}

/// The ordered list of registered upgrade step version pairs.
pub open spec fn registry_pairs() -> Seq<(u64, u64)> {
    seq![(80u64, 81u64), (81u64, 82u64)]
}

/// The registered upgrade steps, for startup validation and
/// diagnostics.
pub fn registry() -> (r: Vec<(u64, u64)>)
    ensures
        r@ == registry_pairs(),
{
    let mut r: Vec<(u64, u64)> = Vec::new();
    r.push((80, 81));
    r.push((81, 82));
    proof {
        assert(r@ =~= registry_pairs());
    }
    r
}

/// The registered steps form a contiguous chain with no gaps and no
/// duplicates: the steps advance one version at a time from the oldest
/// supported version to the newest.
pub proof fn lemma_registry_contiguous()
    ensures
        registry_pairs().len() == MAX_VERSION - MIN_VERSION,
        forall|i: int|
            0 <= i < registry_pairs().len() ==> registry_pairs()[i].0 == MIN_VERSION + i
                && registry_pairs()[i].1 == MIN_VERSION + i + 1,
{
    assert forall|i: int|
        0 <= i < registry_pairs().len() implies registry_pairs()[i].0 == MIN_VERSION + i
        && registry_pairs()[i].1 == MIN_VERSION + i + 1 by {
        if i == 0 {
            assert(registry_pairs()[0] == (80u64, 81u64));
        } else {
            assert(registry_pairs()[1] == (81u64, 82u64));
        }
    }
}

/// Whether position `j` repeats a key seen at an earlier position.
pub open spec fn dup_before(keys: Seq<EntryKey>, j: int) -> bool {
    exists|i: int| 0 <= i < j && (#[trigger] keys[i]) == keys[j]
}

/// Whether position `j` repeats an earlier key is settled by the prefix
/// that ends at `j`.
proof fn lemma_dup_before_take(keys: Seq<EntryKey>, j: int)
    requires
        0 <= j < keys.len(),
    ensures
        dup_before(keys.take(j + 1), j) == dup_before(keys, j),
{
    if dup_before(keys.take(j + 1), j) {
        let t = choose|i: int| 0 <= i < j && (#[trigger] keys.take(j + 1)[i]) == keys.take(j + 1)[j];
        assert(keys[t] == keys[j]);
    }
    if dup_before(keys, j) {
        let t = choose|i: int| 0 <= i < j && (#[trigger] keys[i]) == keys[j];
        assert(keys.take(j + 1)[t] == keys.take(j + 1)[j]);
    }
}

/// The first key to occur twice, scanning left to right: the key at the
/// earliest position that repeats an earlier one.  `None` when all keys
/// are distinct.
pub open spec fn first_dup_key(keys: Seq<EntryKey>) -> Option<EntryKey>
    decreases keys.len(),
{
    if keys.len() == 0 {
        None
    } else {
        match first_dup_key(keys.drop_last()) {
            Some(k) => Some(k),
            None => if dup_before(keys, keys.len() - 1) {
                Some(keys.last())
            } else {
                None
            },
        }
    }
}

/// Keys are all distinct exactly when no first duplicate exists.
pub proof fn lemma_first_dup_none(keys: Seq<EntryKey>)
    ensures
        (first_dup_key(keys) is None) <==> distinct_keys(keys),
    decreases keys.len(),
{
    if keys.len() == 0 {
    } else {
        lemma_first_dup_none(keys.drop_last());
        let head = keys.drop_last();
        if first_dup_key(keys) is None {
            assert(distinct_keys(head));
            assert(!dup_before(keys, keys.len() - 1));
            assert forall|i: int, j: int| 0 <= i < j < keys.len() implies keys[i] != keys[j] by {
                if j < keys.len() - 1 {
                    assert(head[i] == keys[i] && head[j] == keys[j]);
                } else {
                    assert(!(0 <= i < j && keys[i] == keys[j]));
                }
            }
        }
        if distinct_keys(keys) {
            assert forall|i: int, j: int| 0 <= i < j < head.len() implies head[i] != head[j] by {
                assert(keys[i] != keys[j]);
            }
            assert(first_dup_key(head) is None);
            assert(!dup_before(keys, keys.len() - 1));
        }
    }
}

/// A prefix whose first duplicate is found settles the whole sequence's
/// first duplicate.
proof fn lemma_first_dup_prefix(keys: Seq<EntryKey>, m: int)
    requires
        0 <= m <= keys.len(),
        first_dup_key(keys.take(m)) is Some,
    ensures
        first_dup_key(keys) == first_dup_key(keys.take(m)),
    decreases keys.len() - m,
{
    if m == keys.len() {
        assert(keys.take(m) =~= keys);
    } else {
        assert(keys.take(m + 1).drop_last() =~= keys.take(m));
        lemma_first_dup_prefix(keys, m + 1);
    }
}

/// Collects each entry's key, in order.
#[verifier::loop_isolation(false)]
fn collect_keys<E: Entry>(v: &Vec<E>) -> (keys: Vec<EntryKey>)
    ensures
        keys@ == keys_of(v@),
{
    let mut keys: Vec<EntryKey> = Vec::new();
    let mut i: usize = 0;
    while i < v.len()
        invariant
            i <= v.len(),
            keys@ =~= keys_of(v@).take(i as int),
        decreases v.len() - i,
    {
        keys.push(v[i].entry_key());
        i = i + 1;
    }
    proof {
        assert(keys@ =~= keys_of(v@));
    }
    keys
}

/// The first duplicated key of `keys`, scanning left to right, or
/// `None` when all keys are distinct.
#[verifier::loop_isolation(false)]
fn find_first_dup(keys: &Vec<EntryKey>) -> (r: Option<EntryKey>)
    ensures
        r == first_dup_key(keys@),
{
    let mut j: usize = 0;
    proof {
        assert(keys@.take(0) =~= Seq::<EntryKey>::empty());
    }
    while j < keys.len()
        invariant
            j <= keys.len(),
            first_dup_key(keys@.take(j as int)) is None,
        decreases keys.len() - j,
    {
        let mut i: usize = 0;
        let mut found: bool = false;
        while i < j
            invariant
                i <= j < keys.len(),
                found == exists|t: int| 0 <= t < i && (#[trigger] keys@[t]) == keys@[j as int],
            decreases j - i,
        {
            if keys[i] == keys[j] {
                found = true;
            }
            i = i + 1;
        }
        proof {
            assert(keys@.take(j + 1).drop_last() =~= keys@.take(j as int));
            assert(keys@.take(j + 1).last() == keys@[j as int]);
            lemma_dup_before_take(keys@, j as int);
        }
        if found {
            proof {
                let t = choose|t: int| 0 <= t < i && (#[trigger] keys@[t]) == keys@[j as int];
                assert(keys@[t] == keys@[j as int]);
                assert(dup_before(keys@, j as int));
                assert(first_dup_key(keys@.take(j + 1)) == Some(keys@[j as int]));
                lemma_first_dup_prefix(keys@, j + 1);
            }
            return Some(keys[j]);
        }
        proof {
            assert(!dup_before(keys@, j as int));
            assert(first_dup_key(keys@.take(j + 1)) is None);
        }
        j = j + 1;
    }
    proof {
        assert(keys@.take(keys@.len() as int) =~= keys@);
    }
    None
}

/// `new` is the entry `old` becomes when migrated across both steps,
/// from version 80 straight to version 82: clusters gain the defaulted
/// `sealed` field, roles and databases are structurally identical.
/// Schedule entries have no version-82 counterpart.
pub open spec fn migrated_entry_80_82(old: v80::StateUpdateKind, new: v82::StateUpdateKind) -> bool {
    match (old, new) {
        (v80::StateUpdateKind::Cluster(c), v82::StateUpdateKind::Cluster(n)) => {
            v80_to_v81::cluster_migrated(c, n)
        },
        (v80::StateUpdateKind::Role(r), v82::StateUpdateKind::Role(n)) => n
            == v80_to_v81::migrate_role(r),
        (v80::StateUpdateKind::Database(d), v82::StateUpdateKind::Database(n)) => n
            == v80_to_v81::migrate_database(d),
        _ => false,
    }
}

/// The version-80 entries that survive to version 82: everything but
/// schedules, in order.
pub open spec fn surviving_v80(snap: Seq<v80::StateUpdateKind>) -> Seq<v80::StateUpdateKind>
    decreases snap.len(),
{
    if snap.len() == 0 {
        Seq::empty()
    } else if snap[0] matches v80::StateUpdateKind::Schedule(_) {
        surviving_v80(snap.drop_first())
    } else {
        seq![snap[0]] + surviving_v80(snap.drop_first())
    }
}

/// Entry-by-entry migration to version 81 maps the surviving entries of
/// a version-80 snapshot onto the surviving entries of its version-81
/// image, preserving order and the migration relation.
proof fn lemma_surviving_aligned(s: Seq<v80::StateUpdateKind>, mid: Seq<v81::StateUpdateKind>)
    requires
        mid.len() == s.len(),
        forall|i: int| 0 <= i < s.len() ==> v80_to_v81::migrated_entry(s[i], mid[i]),
    ensures
        surviving(mid).len() == surviving_v80(s).len(),
        forall|i: int|
            0 <= i < surviving_v80(s).len() ==> v80_to_v81::migrated_entry(
                surviving_v80(s)[i],
                surviving(mid)[i],
            ),
    decreases s.len(),
{
    if s.len() > 0 {
        assert(v80_to_v81::migrated_entry(s[0], mid[0]));
        assert(forall|i: int|
            0 <= i < s.drop_first().len() ==> v80_to_v81::migrated_entry(
                s.drop_first()[i],
                mid.drop_first()[i],
            ));
        lemma_surviving_aligned(s.drop_first(), mid.drop_first());
        if s[0] matches v80::StateUpdateKind::Schedule(_) {
            assert(mid[0] matches v81::StateUpdateKind::Schedule(_));
        } else {
            assert(!(mid[0] matches v81::StateUpdateKind::Schedule(_)));
            let so = surviving_v80(s);
            let mo = surviving(mid);
            assert(so == seq![s[0]] + surviving_v80(s.drop_first()));
            assert(mo == seq![mid[0]] + surviving(mid.drop_first()));
            assert(so[0] == s[0] && mo[0] == mid[0]);
            assert(forall|i: int|
                1 <= i < so.len() ==> so[i] == surviving_v80(s.drop_first())[i - 1] && mo[i]
                    == surviving(mid.drop_first())[i - 1]);
        }
    }
}

/// Chain composition: migrating from version 80 to 82 by the two
/// registered single-step migrations yields exactly what a direct
/// 80-to-82 step would: schedule entries dropped, every other entry
/// migrated once, in order.
pub proof fn lemma_chain_composes(
    s: Seq<v80::StateUpdateKind>,
    mid: Seq<v81::StateUpdateKind>,
    out: Seq<v82::StateUpdateKind>,
)
    requires
        mid.len() == s.len(),
        forall|i: int| 0 <= i < s.len() ==> v80_to_v81::migrated_entry(s[i], mid[i]),
        out.len() == surviving(mid).len(),
        forall|i: int|
            0 <= i < out.len() ==> <v82::StateUpdateKind as CarryForward<
                v81::StateUpdateKind,
            >>::carried(surviving(mid)[i]) == Some(out[i]),
    ensures
        out.len() == surviving_v80(s).len(),
        forall|i: int| 0 <= i < out.len() ==> migrated_entry_80_82(surviving_v80(s)[i], out[i]),
{
    lemma_surviving_aligned(s, mid);
    assert forall|i: int| 0 <= i < out.len() implies migrated_entry_80_82(
        surviving_v80(s)[i],
        out[i],
    ) by {
        assert(v80_to_v81::migrated_entry(surviving_v80(s)[i], surviving(mid)[i]));
        assert(<v82::StateUpdateKind as CarryForward<v81::StateUpdateKind>>::carried(
            surviving(mid)[i],
        ) == Some(out[i]));
    }
}

/// Runs the migration chain from the snapshot's version to `target`.
///
/// Rejects downgrades, refuses targets beyond the newest registered
/// step, returns the snapshot unchanged when it is already at the
/// target, reports the first duplicated key as a structural violation,
/// and otherwise applies each registered step in increasing order,
/// ending at the target version with every entry migrated as the steps
/// prescribe.
#[verifier::rlimit(30)]
pub fn run(snapshot: VersionedSnapshot, target: u64) -> (r: Result<
    VersionedSnapshot,
    MigrationError,
>)
    ensures
        (if snapshot.version() > target {
            r == Err::<VersionedSnapshot, MigrationError>(
                MigrationError::UnsupportedVersion { current: snapshot.version(), target },
            )
        } else if target > MAX_VERSION {
            r == Err::<VersionedSnapshot, MigrationError>(
                MigrationError::RegistryGap { from: MAX_VERSION, to: (MAX_VERSION + 1) as u64 },
            )
        } else if snapshot.version() == target {
            r == Ok::<VersionedSnapshot, MigrationError>(snapshot)
        } else if !distinct_keys(snapshot.entry_keys()) {
            r == Err::<VersionedSnapshot, MigrationError>(
                MigrationError::StructuralViolation {
                    key: first_dup_key(snapshot.entry_keys()).unwrap(),
                },
            )
        } else {
            match (snapshot, r) {
                (VersionedSnapshot::V80(s), Ok(VersionedSnapshot::V81(o))) => {
                    &&& target == 81
                    &&& o@.len() == s@.len()
                    &&& forall|i: int|
                        0 <= i < s@.len() ==> v80_to_v81::migrated_entry(s@[i], o@[i])
                },
                (VersionedSnapshot::V80(s), Ok(VersionedSnapshot::V82(o))) => {
                    &&& target == 82
                    &&& o@.len() == surviving_v80(s@).len()
                    &&& forall|i: int|
                        0 <= i < o@.len() ==> migrated_entry_80_82(surviving_v80(s@)[i], o@[i])
                },
                (VersionedSnapshot::V81(s), Ok(VersionedSnapshot::V82(o))) => {
                    &&& target == 82
                    &&& o@.len() == surviving(s@).len()
                    &&& forall|i: int|
                        0 <= i < o@.len() ==> <v82::StateUpdateKind as CarryForward<
                            v81::StateUpdateKind,
                        >>::carried(surviving(s@)[i]) == Some(o@[i])
                },
                _ => false,
            }
        }),
{
    let current = snapshot.current_version();
    if current > target {
        return Err(MigrationError::UnsupportedVersion { current, target });
    }
    if target > MAX_VERSION {
        return Err(MigrationError::RegistryGap { from: MAX_VERSION, to: MAX_VERSION + 1 });
    }
    if current == target {
        return Ok(snapshot);
    }
    match snapshot {
        VersionedSnapshot::V80(snap) => {
            let keys = collect_keys(&snap);
            proof {
                lemma_first_dup_none(keys@);
            }
            match find_first_dup(&keys) {
                Some(k) => {
                    return Err(MigrationError::StructuralViolation { key: k });
                },
                None => {},
            }
            let ghost s0 = snap@;
            let actions = v80_to_v81::upgrade(&snap);
            let ghost a0 = actions@;
            proof {
                v80_to_v81::lemma_upgrade_applies(s0, a0);
            }
            let out81 = match apply::<v80::StateUpdateKind, v81::StateUpdateKind>(snap, actions) {
                Ok(o) => o,
                // Unreachable: the step lemma shows the fold succeeds on
                // a snapshot with distinct keys.
                Err(e) => {
                    return Err(e);
                },
            };
            if target == 81 {
                return Ok(VersionedSnapshot::V81(out81));
            }
            proof {
                assert forall|i: int| 0 <= i < s0.len() implies out81@[i].key() == s0[i].key() by {
                    v80_to_v81::lemma_migrated_preserves_key(s0[i], out81@[i]);
                }
                assert(keys_of(out81@) =~= keys_of(s0));
            }
            let ghost s1 = out81@;
            let actions2 = v81_to_v82::upgrade(&out81);
            let ghost a1 = actions2@;
            proof {
                v81_to_v82::lemma_upgrade_applies(s1, a1);
            }
            let out82 = match apply::<v81::StateUpdateKind, v82::StateUpdateKind>(out81, actions2) {
                Ok(o) => o,
                // Unreachable: the step lemma shows the fold succeeds on
                // a snapshot with distinct keys.
                Err(e) => {
                    return Err(e);
                },
            };
            proof {
                lemma_chain_composes(s0, s1, out82@);
            }
            Ok(VersionedSnapshot::V82(out82))
        },
        VersionedSnapshot::V81(snap) => {
            let keys = collect_keys(&snap);
            proof {
                lemma_first_dup_none(keys@);
            }
            match find_first_dup(&keys) {
                Some(k) => {
                    return Err(MigrationError::StructuralViolation { key: k });
                },
                None => {},
            }
            let ghost s1 = snap@;
            let actions = v81_to_v82::upgrade(&snap);
            let ghost a1 = actions@;
            proof {
                v81_to_v82::lemma_upgrade_applies(s1, a1);
            }
            let out82 = match apply::<v81::StateUpdateKind, v82::StateUpdateKind>(snap, actions) {
                Ok(o) => o,
                // Unreachable: the step lemma shows the fold succeeds on
                // a snapshot with distinct keys.
                Err(e) => {
                    return Err(e);
                },
            };
            Ok(VersionedSnapshot::V82(out82))
        },
        VersionedSnapshot::V82(_) => {
            // Unreachable: a version-82 snapshot is either at the target
            // (handled above) or asked to downgrade or to pass the newest
            // registered step (both rejected above).
            proof {
                assert(false);
            }
            Err(MigrationError::RegistryGap { from: MAX_VERSION, to: MAX_VERSION + 1 })
        },
    }
}

} // verus!
