//! The snapshot applier.
//!
//! [`apply`] takes the complete snapshot at one version and the ordered
//! action sequence an upgrade step produced, and yields the snapshot at
//! the next version: updates replace their entry in place, deletes
//! remove theirs, inserts append, and every untouched entry is carried
//! forward through the structural cast.  The applier is generic over the
//! two versions' entry types and has no version-specific logic.
//!
//! Its behaviour is pinned by [`apply_spec`], a spec-level fold over the
//! action sequence: the exec code returns `Ok(out)` exactly when the
//! fold does, with the same entries in the same order, and otherwise
//! the fold's offending key wrapped as a structural violation.

use vstd::prelude::*;

use crate::action::{CarryForward, Entry, MigrationAction, MigrationError};
use crate::keys::{count_key, the_key_index, EntryKey};

verus! {

/// The applier's working view of one pre-step snapshot position.
pub enum Slot<Old, New> {
    /// Not referenced by any action so far; carried forward at the end.
    Keep(Old),
    /// Replaced by an update action's new entry.
    Replaced(New),
    /// Removed by a delete action.
    Removed,
}

/// The applier's working state: one slot per pre-step snapshot position,
/// plus the inserted entries, in insertion order.
pub struct ApplyState<Old, New> {
    pub slots: Seq<Slot<Old, New>>,
    pub appended: Seq<New>,
}

/// Whether the slot still holds an entry whose key is `k`.
pub open spec fn slot_has_key<Old: Entry, New: Entry>(slot: Slot<Old, New>, k: EntryKey) -> bool {
    match slot {
        Slot::Keep(o) => o.key() == k,
        Slot::Replaced(n) => n.key() == k,
        Slot::Removed => false,
    }
}

/// Whether some surviving entry of the evolving snapshot has key `k`.
pub open spec fn key_live<Old: Entry, New: Entry>(st: ApplyState<Old, New>, k: EntryKey) -> bool {
    (exists|i: int| 0 <= i < st.slots.len() && slot_has_key(st.slots[i], k)) || (exists|j: int|
        0 <= j < st.appended.len() && st.appended[j].key() == k)
}

/// One action folded into the working state.
///
/// `keys` is the pre-step snapshot's key sequence: update and delete
/// resolve against it, and fail with the referenced key when it is
/// absent or duplicated there, or when the resolved slot was already
/// touched by an earlier action.  Insert fails with the new entry's key
/// when that key is live in the evolving snapshot.
pub open spec fn apply_one<Old: Entry, New: Entry>(
    keys: Seq<EntryKey>,
    st: ApplyState<Old, New>,
    a: MigrationAction<Old, New>,
) -> Result<ApplyState<Old, New>, EntryKey> {
    match a {
        MigrationAction::Insert(new) => {
            if key_live(st, new.key()) {
                Err(new.key())
            } else {
                Ok(ApplyState { slots: st.slots, appended: st.appended.push(new) })
            }
        },
        MigrationAction::Update(old, new) => {
            let k = old.key();
            if count_key(keys, k) != 1 {
                Err(k)
            } else {
                let i = the_key_index(keys, k);
                if st.slots[i] is Keep {
                    Ok(ApplyState { slots: st.slots.update(i, Slot::Replaced(new)), appended: st.appended })
                } else {
                    Err(k)
                }
            }
        },
        MigrationAction::Delete(old) => {
            let k = old.key();
            if count_key(keys, k) != 1 {
                Err(k)
            } else {
                let i = the_key_index(keys, k);
                if st.slots[i] is Keep {
                    Ok(ApplyState { slots: st.slots.update(i, Slot::Removed), appended: st.appended })
                } else {
                    Err(k)
                }
            }
        },
    }
}

/// The whole action sequence folded into the working state, stopping at
/// the first violation.
pub open spec fn apply_all<Old: Entry, New: Entry>(
    keys: Seq<EntryKey>,
    st: ApplyState<Old, New>,
    actions: Seq<MigrationAction<Old, New>>,
) -> Result<ApplyState<Old, New>, EntryKey>
    decreases actions.len(),
{
    if actions.len() == 0 {
        Ok(st)
    } else {
        match apply_one(keys, st, actions[0]) {
            Ok(st2) => apply_all(keys, st2, actions.drop_first()),
            Err(k) => Err(k),
        }
    }
}

/// The final slots read off in order: kept entries carried forward,
/// replaced entries as their replacement, removed entries absent.  Fails
/// with the kept entry's key when the structural cast is undefined for
/// it — such an entry was the step's to account for.
pub open spec fn assemble<Old: Entry, New: CarryForward<Old>>(slots: Seq<Slot<Old, New>>) -> Result<
    Seq<New>,
    EntryKey,
>
    decreases slots.len(),
{
    if slots.len() == 0 {
        Ok(Seq::empty())
    } else {
        match slots[0] {
            Slot::Keep(o) => match New::carried(o) {
                Some(n) => match assemble(slots.drop_first()) {
                    Ok(rest) => Ok(seq![n] + rest),
                    Err(k) => Err(k),
                },
                None => Err(o.key()),
            },
            Slot::Replaced(n) => match assemble(slots.drop_first()) {
                Ok(rest) => Ok(seq![n] + rest),
                Err(k) => Err(k),
            },
            Slot::Removed => assemble(slots.drop_first()),
        }
    }
}

/// The pre-step snapshot's key sequence.
pub open spec fn keys_of<E: Entry>(snap: Seq<E>) -> Seq<EntryKey> {
    snap.map_values(|e: E| e.key())
}

/// The working state before any action: every entry kept, nothing
/// appended.
pub open spec fn initial_state<Old: Entry, New: Entry>(snap: Seq<Old>) -> ApplyState<Old, New> {
    ApplyState { slots: snap.map_values(|e: Old| Slot::Keep(e)), appended: Seq::empty() }
}

/// What applying `actions` to `snap` yields: the assembled slots
/// followed by the inserted entries, or the first offending key.
pub open spec fn apply_spec<Old: Entry, New: CarryForward<Old>>(
    snap: Seq<Old>,
    actions: Seq<MigrationAction<Old, New>>,
) -> Result<Seq<New>, EntryKey> {
    match apply_all(keys_of(snap), initial_state(snap), actions) {
        Ok(st) => match assemble(st.slots) {
            Ok(core) => Ok(core + st.appended),
            Err(k) => Err(k),
        },
        Err(k) => Err(k),
    }
}

/// Whether some slot of `slots` (by its surviving entry) or some entry
/// of `appended` has key `k`.
#[verifier::loop_isolation(false)]
fn key_is_live<Old: Entry, New: Entry>(
    slots: &Vec<Slot<Old, New>>,
    appended: &Vec<New>,
    k: EntryKey,
) -> (b: bool)
    ensures
        b == key_live(ApplyState { slots: slots@, appended: appended@ }, k),
{
    let mut i: usize = 0;
    while i < slots.len()
        invariant
            i <= slots.len(),
            forall|t: int| 0 <= t < i ==> !slot_has_key(slots@[t], k),
        decreases slots.len() - i,
    {
        let hit = match &slots[i] {
            Slot::Keep(o) => o.entry_key() == k,
            Slot::Replaced(n) => n.entry_key() == k,
            Slot::Removed => false,
        };
        if hit {
            proof {
                let st = ApplyState::<Old, New> { slots: slots@, appended: appended@ };
                assert(slot_has_key(st.slots[i as int], k));
            }
            return true;
        }
        i = i + 1;
    }
    let mut j: usize = 0;
    while j < appended.len()
        invariant
            j <= appended.len(),
            forall|t: int| 0 <= t < slots@.len() ==> !slot_has_key(slots@[t], k),
            forall|t: int| 0 <= t < j ==> appended@[t].key() != k,
        decreases appended.len() - j,
    {
        if appended[j].entry_key() == k {
            proof {
                let st = ApplyState::<Old, New> { slots: slots@, appended: appended@ };
                assert(st.appended[j as int].key() == k);
            }
            return true;
        }
        j = j + 1;
    }
    false
}

/// Applies an upgrade step's action sequence to the snapshot it was
/// produced from.
///
/// Succeeds exactly when the fold [`apply_spec`] does, returning its
/// entries in its order; any violation is reported as
/// [`MigrationError::StructuralViolation`] carrying the fold's offending
/// key.
#[verifier::loop_isolation(false)]
pub fn apply<Old: Entry, New: CarryForward<Old>>(
    snapshot: Vec<Old>,
    actions: Vec<MigrationAction<Old, New>>,
) -> (r: Result<Vec<New>, MigrationError>)
    ensures
        match (r, apply_spec::<Old, New>(snapshot@, actions@)) {
            (Ok(v), Ok(out)) => v@ == out,
            (Err(e), Err(k)) => e == MigrationError::StructuralViolation { key: k },
            _ => false,
        },
{
    let ghost snap = snapshot@;
    let ghost acts = actions@;

    let mut keys: Vec<EntryKey> = Vec::new();
    let mut idx: usize = 0;
    while idx < snapshot.len()
        invariant
            idx <= snapshot.len(),
            snapshot@ == snap,
            keys@ =~= keys_of(snap).take(idx as int),
        decreases snapshot.len() - idx,
    {
        keys.push(snapshot[idx].entry_key());
        idx = idx + 1;
    }
    proof {
        assert(keys@ =~= keys_of(snap));
    }

    let mut snapshot = snapshot;
    let mut slots: Vec<Slot<Old, New>> = Vec::new();
    while snapshot.len() > 0
        invariant
            slots@ + snapshot@.map_values(|e: Old| Slot::<Old, New>::Keep(e)) =~= initial_state::<
                Old,
                New,
            >(snap).slots,
        decreases snapshot.len(),
    {
        let ghost before = snapshot@;
        let e = snapshot.remove(0);
        proof {
            assert(before.map_values(|x: Old| Slot::<Old, New>::Keep(x)).drop_first()
                =~= snapshot@.map_values(|x: Old| Slot::<Old, New>::Keep(x)));
            assert(before.map_values(|x: Old| Slot::<Old, New>::Keep(x))[0] == Slot::<
                Old,
                New,
            >::Keep(e));
        }
        slots.push(Slot::Keep(e));
        proof {
            assert(slots@ + snapshot@.map_values(|x: Old| Slot::<Old, New>::Keep(x))
                =~= initial_state::<Old, New>(snap).slots);
        }
    }

    let mut actions = actions;
    let mut appended: Vec<New> = Vec::new();
    proof {
        assert(appended@ =~= initial_state::<Old, New>(snap).appended);
    }
    while actions.len() > 0
        invariant
            keys@ == keys_of(snap),
            slots@.len() == snap.len(),
            apply_all(keys_of(snap), initial_state(snap), acts) == apply_all(
                keys_of(snap),
                ApplyState { slots: slots@, appended: appended@ },
                actions@,
            ),
        decreases actions.len(),
    {
        let ghost st = ApplyState { slots: slots@, appended: appended@ };
        let ghost before = actions@;
        let a = actions.remove(0);
        proof {
            assert(before.drop_first() =~= actions@);
            assert(before[0] == a);
        }
        match a {
            MigrationAction::Insert(new) => {
                let ghost gnew = new;
                let k = new.entry_key();
                if key_is_live(&slots, &appended, k) {
                    proof {
                        assert(apply_one(keys_of(snap), st, before[0]) == Err::<
                            ApplyState<Old, New>,
                            EntryKey,
                        >(k));
                    }
                    return Err(MigrationError::StructuralViolation { key: k });
                }
                appended.push(new);
                proof {
                    let st2 = ApplyState { slots: slots@, appended: appended@ };
                    assert(st2.appended == st.appended.push(gnew));
                    assert(apply_one(keys_of(snap), st, before[0]) == Ok::<
                        ApplyState<Old, New>,
                        EntryKey,
                    >(st2));
                }
            },
            MigrationAction::Update(old, new) => {
                let ghost gold = old;
                let ghost gnew = new;
                let k = old.entry_key();
                match crate::keys::find_unique_key(&keys, k) {
                    None => {
                        proof {
                            assert(apply_one(keys_of(snap), st, before[0]) == Err::<
                                ApplyState<Old, New>,
                                EntryKey,
                            >(k));
                        }
                        return Err(MigrationError::StructuralViolation { key: k });
                    },
                    Some(i) => {
                        proof {
                            crate::keys::lemma_unique_index(keys@, k, i as int);
                            assert(the_key_index(keys_of(snap), gold.key()) == i as int);
                        }
                        let touched = match &slots[i] {
                            Slot::Keep(_) => false,
                            _ => true,
                        };
                        if touched {
                            proof {
                                assert(apply_one(keys_of(snap), st, before[0]) == Err::<
                                    ApplyState<Old, New>,
                                    EntryKey,
                                >(k));
                            }
                            return Err(MigrationError::StructuralViolation { key: k });
                        }
                        slots[i] = Slot::Replaced(new);
                        proof {
                            let st2 = ApplyState { slots: slots@, appended: appended@ };
                            assert(st2.slots == st.slots.update(
                                i as int,
                                Slot::<Old, New>::Replaced(gnew),
                            ));
                            assert(apply_one(keys_of(snap), st, before[0]) == Ok::<
                                ApplyState<Old, New>,
                                EntryKey,
                            >(st2));
                        }
                    },
                }
            },
            MigrationAction::Delete(old) => {
                let ghost gold = old;
                let k = old.entry_key();
                match crate::keys::find_unique_key(&keys, k) {
                    None => {
                        proof {
                            assert(apply_one(keys_of(snap), st, before[0]) == Err::<
                                ApplyState<Old, New>,
                                EntryKey,
                            >(k));
                        }
                        return Err(MigrationError::StructuralViolation { key: k });
                    },
                    Some(i) => {
                        proof {
                            crate::keys::lemma_unique_index(keys@, k, i as int);
                            assert(the_key_index(keys_of(snap), gold.key()) == i as int);
                        }
                        let touched = match &slots[i] {
                            Slot::Keep(_) => false,
                            _ => true,
                        };
                        if touched {
                            proof {
                                assert(apply_one(keys_of(snap), st, before[0]) == Err::<
                                    ApplyState<Old, New>,
                                    EntryKey,
                                >(k));
                            }
                            return Err(MigrationError::StructuralViolation { key: k });
                        }
                        slots[i] = Slot::Removed;
                        proof {
                            let st2 = ApplyState { slots: slots@, appended: appended@ };
                            assert(st2.slots == st.slots.update(
                                i as int,
                                Slot::<Old, New>::Removed,
                            ));
                            assert(apply_one(keys_of(snap), st, before[0]) == Ok::<
                                ApplyState<Old, New>,
                                EntryKey,
                            >(st2));
                        }
                    },
                }
            },
        }
    }
    proof {
        assert(apply_all(
            keys_of(snap),
            ApplyState { slots: slots@, appended: appended@ },
            actions@,
        ) == Ok::<ApplyState<Old, New>, EntryKey>(ApplyState { slots: slots@, appended: appended@ }));
    }

    let ghost all_slots = slots@;
    let mut slots = slots;
    let mut out: Vec<New> = Vec::new();
    while slots.len() > 0
        invariant
            assemble(all_slots) == (match assemble(slots@) {
                Ok(rest) => Ok::<Seq<New>, EntryKey>(out@ + rest),
                Err(k) => Err::<Seq<New>, EntryKey>(k),
            }),
        decreases slots.len(),
    {
        let ghost before = slots@;
        let ghost out_before = out@;
        let s = slots.remove(0);
        proof {
            assert(before.drop_first() =~= slots@);
            assert(before[0] == s);
        }
        match s {
            Slot::Keep(o) => {
                let k = o.entry_key();
                match New::carry(o) {
                    Some(n) => {
                        out.push(n);
                        proof {
                            if let Ok(rest) = assemble(slots@) {
                                assert(out_before + (seq![n] + rest) =~= out@ + rest);
                            }
                        }
                    },
                    None => {
                        return Err(MigrationError::StructuralViolation { key: k });
                    },
                }
            },
            Slot::Replaced(n) => {
                out.push(n);
                proof {
                    if let Ok(rest) = assemble(slots@) {
                        assert(out_before + (seq![n] + rest) =~= out@ + rest);
                    }
                }
            },
            Slot::Removed => {},
        }
    }
    proof {
        assert(slots@ =~= Seq::<Slot<Old, New>>::empty());
        if let Ok(core) = assemble(all_slots) {
            assert(core =~= out@);
        }
    }

    let mut appended = appended;
    let ghost core = out@;
    let ghost inserted = appended@;
    out.append(&mut appended);
    proof {
        assert(out@ == core + inserted);
    }
    Ok(out)
}

} // verus!
