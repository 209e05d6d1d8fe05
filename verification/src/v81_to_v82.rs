//! Migration from version 81 to version 82: removes the standalone
//! schedule kind.
//!
//! Every schedule entry is deleted; every other kind kept its shape and
//! is carried forward by the applier's structural cast, which is the
//! identity here because version 82 reuses version 81's structs for the
//! surviving kinds.

use vstd::prelude::*;

use crate::action::{CarryForward, Entry, MigrationAction};
use crate::apply::{apply_spec, assemble, keys_of, ApplyState, Slot};
use crate::keys::{distinct_keys, EntryKey};
use crate::objects_v81 as v81;
use crate::objects_v82 as v82;

verus! {

impl CarryForward<v81::StateUpdateKind> for v82::StateUpdateKind {
    /// Schedules no longer exist at version 82 and must be accounted for
    /// by the step; every other kind is reinterpreted as-is.
    open spec fn carried(old: v81::StateUpdateKind) -> Option<v82::StateUpdateKind> {
        match old {
            v81::StateUpdateKind::Cluster(c) => Some(v82::StateUpdateKind::Cluster(c)),
            v81::StateUpdateKind::Role(r) => Some(v82::StateUpdateKind::Role(r)),
            v81::StateUpdateKind::Database(d) => Some(v82::StateUpdateKind::Database(d)),
            v81::StateUpdateKind::Schedule(_) => None,
        }
    }

    fn carry(old: v81::StateUpdateKind) -> (r: Option<v82::StateUpdateKind>) {
        match old {
            v81::StateUpdateKind::Cluster(c) => Some(v82::StateUpdateKind::Cluster(c)),
            v81::StateUpdateKind::Role(r) => Some(v82::StateUpdateKind::Role(r)),
            v81::StateUpdateKind::Database(d) => Some(v82::StateUpdateKind::Database(d)),
            v81::StateUpdateKind::Schedule(_) => None,
        }
    }
}

/// The step's whole output, entry by entry: one delete per schedule, in
/// snapshot order, each referencing the schedule entry itself, and
/// nothing else.
pub open spec fn step_actions_match(
    snap: Seq<v81::StateUpdateKind>,
    actions: Seq<MigrationAction<v81::StateUpdateKind, v82::StateUpdateKind>>,
) -> bool
    decreases snap.len(),
{
    if snap.len() == 0 {
        actions.len() == 0
    } else if snap[0] matches v81::StateUpdateKind::Schedule(_) {
        &&& actions.len() > 0
        &&& actions[0] == MigrationAction::<v81::StateUpdateKind, v82::StateUpdateKind>::Delete(
            snap[0],
        )
        &&& step_actions_match(snap.drop_first(), actions.drop_first())
    } else {
        step_actions_match(snap.drop_first(), actions)
    }
}

/// The entries that survive the migration: everything but schedules, in
/// order.
pub open spec fn surviving(snap: Seq<v81::StateUpdateKind>) -> Seq<v81::StateUpdateKind>
    decreases snap.len(),
{
    if snap.len() == 0 {
        Seq::empty()
    } else if snap[0] matches v81::StateUpdateKind::Schedule(_) {
        surviving(snap.drop_first())
    } else {
        seq![snap[0]] + surviving(snap.drop_first())
    }
}

/// Extending a matched prefix with a schedule entry and its delete.
proof fn lemma_match_push_schedule(
    snap: Seq<v81::StateUpdateKind>,
    actions: Seq<MigrationAction<v81::StateUpdateKind, v82::StateUpdateKind>>,
    e: v81::StateUpdateKind,
    a: MigrationAction<v81::StateUpdateKind, v82::StateUpdateKind>,
)
    requires
        step_actions_match(snap, actions),
        e matches v81::StateUpdateKind::Schedule(_),
        a == MigrationAction::<v81::StateUpdateKind, v82::StateUpdateKind>::Delete(e),
    ensures
        step_actions_match(snap.push(e), actions.push(a)),
    decreases snap.len(),
{
    if snap.len() == 0 {
        assert(snap.push(e)[0] == e);
        assert(actions.push(a)[0] == a);
        assert(snap.push(e).drop_first() =~= snap);
        assert(actions.push(a).drop_first() =~= actions);
    } else {
        assert(snap.push(e)[0] == snap[0]);
        if snap[0] matches v81::StateUpdateKind::Schedule(_) {
            lemma_match_push_schedule(snap.drop_first(), actions.drop_first(), e, a);
            assert(snap.push(e).drop_first() =~= snap.drop_first().push(e));
            assert(actions.push(a).drop_first() =~= actions.drop_first().push(a));
            assert(actions.push(a)[0] == actions[0]);
        } else {
            lemma_match_push_schedule(snap.drop_first(), actions, e, a);
            assert(snap.push(e).drop_first() =~= snap.drop_first().push(e));
        }
    }
}

/// Extending a matched prefix with an entry that owes no action.
proof fn lemma_match_push_other(
    snap: Seq<v81::StateUpdateKind>,
    actions: Seq<MigrationAction<v81::StateUpdateKind, v82::StateUpdateKind>>,
    e: v81::StateUpdateKind,
)
    requires
        step_actions_match(snap, actions),
        !(e matches v81::StateUpdateKind::Schedule(_)),
    ensures
        step_actions_match(snap.push(e), actions),
    decreases snap.len(),
{
    if snap.len() == 0 {
        assert(snap.push(e)[0] == e);
        assert(snap.push(e).drop_first() =~= snap);
    } else {
        assert(snap.push(e)[0] == snap[0]);
        if snap[0] matches v81::StateUpdateKind::Schedule(_) {
            lemma_match_push_other(snap.drop_first(), actions.drop_first(), e);
            assert(snap.push(e).drop_first() =~= snap.drop_first().push(e));
        } else {
            lemma_match_push_other(snap.drop_first(), actions, e);
            assert(snap.push(e).drop_first() =~= snap.drop_first().push(e));
        }
    }
}

/// The upgrade step from version 81 to version 82.
///
/// Emits, in snapshot order, one delete action per schedule entry and
/// no other action; all other kinds are carried forward unchanged by
/// the applier.
#[verifier::loop_isolation(false)]
pub fn upgrade(snapshot: &Vec<v81::StateUpdateKind>) -> (r: Vec<
    MigrationAction<v81::StateUpdateKind, v82::StateUpdateKind>,
>)
    ensures
        step_actions_match(snapshot@, r@),
{
    let mut actions: Vec<MigrationAction<v81::StateUpdateKind, v82::StateUpdateKind>> = Vec::new();
    let mut i: usize = 0;
    proof {
        assert(snapshot@.take(0) =~= Seq::<v81::StateUpdateKind>::empty());
    }
    while i < snapshot.len()
        invariant
            i <= snapshot.len(),
            step_actions_match(snapshot@.take(i as int), actions@),
        decreases snapshot.len() - i,
    {
        match &snapshot[i] {
            v81::StateUpdateKind::Schedule(s) => {
                let act = MigrationAction::Delete(v81::StateUpdateKind::Schedule(*s));
                proof {
                    lemma_match_push_schedule(
                        snapshot@.take(i as int),
                        actions@,
                        snapshot@[i as int],
                        act,
                    );
                }
                actions.push(act);
            },
            _ => {
                proof {
                    lemma_match_push_other(snapshot@.take(i as int), actions@, snapshot@[i as int]);
                }
            },
        }
        proof {
            assert(snapshot@.take(i + 1) =~= snapshot@.take(i as int).push(snapshot@[i as int]));
        }
        i = i + 1;
    }
    proof {
        assert(snapshot@.take(snapshot@.len() as int) =~= snapshot@);
    }
    actions
}

/// The fate the applier owes each pre-step position: schedules removed,
/// everything else still kept.
pub open spec fn slot_done(
    e: v81::StateUpdateKind,
    slot: Slot<v81::StateUpdateKind, v82::StateUpdateKind>,
) -> bool {
    if e matches v81::StateUpdateKind::Schedule(_) {
        slot is Removed
    } else {
        slot == Slot::<v81::StateUpdateKind, v82::StateUpdateKind>::Keep(e)
    }
}

proof fn lemma_step_fold(
    snap: Seq<v81::StateUpdateKind>,
    actions: Seq<MigrationAction<v81::StateUpdateKind, v82::StateUpdateKind>>,
    slots: Seq<Slot<v81::StateUpdateKind, v82::StateUpdateKind>>,
    app: Seq<v82::StateUpdateKind>,
    p: int,
)
    requires
        distinct_keys(keys_of(snap)),
        0 <= p <= snap.len(),
        slots.len() == snap.len(),
        forall|i: int| p <= i < snap.len() ==> slots[i] == Slot::<
            v81::StateUpdateKind,
            v82::StateUpdateKind,
        >::Keep(snap[i]),
        forall|i: int| 0 <= i < p ==> slot_done(snap[i], slots[i]),
        step_actions_match(snap.skip(p), actions),
    ensures
        match crate::apply::apply_all(keys_of(snap), ApplyState { slots, appended: app }, actions) {
            Ok(st2) => {
                &&& st2.appended == app
                &&& st2.slots.len() == snap.len()
                &&& forall|i: int| 0 <= i < snap.len() ==> slot_done(snap[i], st2.slots[i])
            },
            Err(_) => false,
        },
    decreases snap.len() - p,
{
    let keys = keys_of(snap);
    if p == snap.len() {
        assert(snap.skip(p) =~= Seq::<v81::StateUpdateKind>::empty());
        assert(actions.len() == 0);
    } else {
        assert(snap.skip(p)[0] == snap[p]);
        assert(snap.skip(p).drop_first() =~= snap.skip(p + 1));
        if snap[p] matches v81::StateUpdateKind::Schedule(_) {
            let a = actions[0];
            match a {
                MigrationAction::Delete(o) => {
                    assert(o == snap[p]);
                    assert(keys[p] == snap[p].key());
                    crate::keys::lemma_distinct_count(keys, o.key(), p);
                    crate::keys::lemma_unique_index(keys, o.key(), p);
                    let slots2 = slots.update(
                        p,
                        Slot::<v81::StateUpdateKind, v82::StateUpdateKind>::Removed,
                    );
                    assert(slot_done(snap[p], slots2[p]));
                    lemma_step_fold(snap, actions.drop_first(), slots2, app, p + 1);
                },
                _ => {
                    assert(false);
                },
            }
        } else {
            lemma_step_fold(snap, actions, slots, app, p + 1);
        }
    }
}

proof fn lemma_step_assemble(
    snap: Seq<v81::StateUpdateKind>,
    slots: Seq<Slot<v81::StateUpdateKind, v82::StateUpdateKind>>,
)
    requires
        slots.len() == snap.len(),
        forall|i: int| 0 <= i < snap.len() ==> slot_done(snap[i], slots[i]),
    ensures
        match assemble::<v81::StateUpdateKind, v82::StateUpdateKind>(slots) {
            Ok(out) => {
                &&& out.len() == surviving(snap).len()
                &&& forall|i: int|
                    0 <= i < out.len()
                        ==> <v82::StateUpdateKind as CarryForward<v81::StateUpdateKind>>::carried(
                        surviving(snap)[i],
                    ) == Some(out[i])
            },
            Err(_) => false,
        },
    decreases slots.len(),
{
    if slots.len() > 0 {
        assert(slot_done(snap[0], slots[0]));
        lemma_step_assemble(snap.drop_first(), slots.drop_first());
        if snap[0] matches v81::StateUpdateKind::Schedule(_) {
            assert(slots[0] is Removed);
            assert(surviving(snap) == surviving(snap.drop_first()));
        } else {
            match slots[0] {
                Slot::Keep(o) => {
                    assert(o == snap[0]);
                    let c = <v82::StateUpdateKind as CarryForward<
                        v81::StateUpdateKind,
                    >>::carried(o);
                    assert(c is Some);
                    match assemble::<v81::StateUpdateKind, v82::StateUpdateKind>(
                        slots.drop_first(),
                    ) {
                        Ok(rest) => {
                            let out = seq![c.unwrap()] + rest;
                            assert(out[0] == c.unwrap());
                            assert(surviving(snap) == seq![snap[0]] + surviving(snap.drop_first()));
                            assert(surviving(snap)[0] == snap[0]);
                            assert(forall|i: int|
                                1 <= i < out.len() ==> out[i] == rest[i - 1] && surviving(snap)[i]
                                    == surviving(snap.drop_first())[i - 1]);
                        },
                        Err(_) => {},
                    }
                },
                _ => {
                    assert(false);
                },
            }
        }
    }
}

/// Deletion, in the general form: on any snapshot whose keys are
/// distinct, applying the step's actions succeeds and yields exactly
/// the non-schedule entries, in order, each reinterpreted under the
/// version-82 type — schedule entries are absent and every other entry
/// is untouched.
pub proof fn lemma_upgrade_applies(
    snap: Seq<v81::StateUpdateKind>,
    actions: Seq<MigrationAction<v81::StateUpdateKind, v82::StateUpdateKind>>,
)
    requires
        distinct_keys(keys_of(snap)),
        step_actions_match(snap, actions),
    ensures
        match apply_spec::<v81::StateUpdateKind, v82::StateUpdateKind>(snap, actions) {
            Ok(out) => {
                &&& out.len() == surviving(snap).len()
                &&& forall|i: int|
                    0 <= i < out.len()
                        ==> <v82::StateUpdateKind as CarryForward<v81::StateUpdateKind>>::carried(
                        surviving(snap)[i],
                    ) == Some(out[i])
            },
            Err(_) => false,
        },
{
    let init = crate::apply::initial_state::<v81::StateUpdateKind, v82::StateUpdateKind>(snap);
    assert(forall|i: int| 0 <= i < snap.len() ==> init.slots[i] == Slot::<
        v81::StateUpdateKind,
        v82::StateUpdateKind,
    >::Keep(snap[i]));
    assert(snap.skip(0) =~= snap);
    lemma_step_fold(snap, actions, init.slots, init.appended, 0);
    match crate::apply::apply_all(keys_of(snap), init, actions) {
        Ok(st2) => {
            lemma_step_assemble(snap, st2.slots);
            match assemble::<v81::StateUpdateKind, v82::StateUpdateKind>(st2.slots) {
                Ok(core) => {
                    assert(core + st2.appended =~= core);
                },
                Err(_) => {},
            }
        },
        Err(_) => {},
    }
}

} // verus!
