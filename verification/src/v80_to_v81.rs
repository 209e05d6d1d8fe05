//! Migration from version 80 to version 81: adds the `sealed` field to
//! `ClusterConfig`.
//!
//! `sealed` is a new boolean field that defaults to `false`: every
//! existing cluster is unsealed after this migration.  Every other kind
//! is shape-identical between the two versions and is carried forward by
//! the applier's structural cast.

use vstd::prelude::*;

use crate::action::{CarryForward, Entry, MigrationAction};
use crate::apply::{apply_spec, assemble, keys_of, ApplyState, Slot};
use crate::keys::{distinct_keys, EntryKey};
use crate::objects_v80 as v80;
use crate::objects_v81 as v81;

verus! {

/// The version-81 counterpart of a version-80 cluster id.
pub open spec fn migrate_cluster_id(id: v80::ClusterId) -> v81::ClusterId {
    match id {
        v80::ClusterId::System(x) => v81::ClusterId::System(x),
        v80::ClusterId::User(x) => v81::ClusterId::User(x),
    }
}

/// The version-81 counterpart of a version-80 role id.
pub open spec fn migrate_role_id(id: v80::RoleId) -> v81::RoleId {
    match id {
        v80::RoleId::System(x) => v81::RoleId::System(x),
        v80::RoleId::User(x) => v81::RoleId::User(x),
        v80::RoleId::Public => v81::RoleId::Public,
        v80::RoleId::Predefined(x) => v81::RoleId::Predefined(x),
    }
}

/// The version-81 counterpart of a version-80 privilege grant.
pub open spec fn migrate_acl_item(item: v80::MzAclItem) -> v81::MzAclItem {
    v81::MzAclItem {
        grantee: migrate_role_id(item.grantee),
        grantor: migrate_role_id(item.grantor),
        acl_mode: v81::AclMode { bitflags: item.acl_mode.bitflags },
    }
}

/// The version-81 counterpart of a version-80 duration.
pub open spec fn migrate_duration(d: v80::Duration) -> v81::Duration {
    v81::Duration { secs: d.secs, nanos: d.nanos }
}

/// The version-81 counterpart of a version-80 replica-logging config.
pub open spec fn migrate_logging(l: v80::ReplicaLogging) -> v81::ReplicaLogging {
    v81::ReplicaLogging {
        log_logging: l.log_logging,
        interval: match l.interval {
            Some(d) => Some(migrate_duration(d)),
            None => None,
        },
    }
}

/// The version-81 counterpart of a version-80 feature override.
pub open spec fn migrate_override(o: v80::OptimizerFeatureOverride) -> v81::OptimizerFeatureOverride {
    v81::OptimizerFeatureOverride { name: o.name, value: o.value }
}

/// The version-81 counterpart of a version-80 cluster schedule.
pub open spec fn migrate_schedule_variant(s: v80::ClusterSchedule) -> v81::ClusterSchedule {
    match s {
        v80::ClusterSchedule::Manual => v81::ClusterSchedule::Manual,
        v80::ClusterSchedule::Refresh(r) => v81::ClusterSchedule::Refresh(
            v81::ClusterScheduleRefreshOptions {
                rehydration_time_estimate: migrate_duration(r.rehydration_time_estimate),
            },
        ),
    }
}

/// The version-81 counterpart of a version-80 role entry.
pub open spec fn migrate_role(r: v80::Role) -> v81::Role {
    v81::Role {
        key: v81::RoleKey { id: migrate_role_id(r.key.id) },
        value: v81::RoleValue { name: r.value.name },
    }
}

/// The version-81 counterpart of a version-80 database entry.
pub open spec fn migrate_database(d: v80::Database) -> v81::Database {
    v81::Database {
        key: v81::DatabaseKey { id: d.key.id },
        value: v81::DatabaseValue {
            name: d.value.name,
            owner_id: migrate_role_id(d.value.owner_id),
        },
    }
}

/// The version-81 counterpart of a version-80 schedule entry.
pub open spec fn migrate_schedule(s: v80::Schedule) -> v81::Schedule {
    v81::Schedule {
        key: v81::ScheduleKey { id: s.key.id },
        value: v81::ScheduleValue {
            cluster_id: migrate_cluster_id(s.value.cluster_id),
            refresh_interval: migrate_duration(s.value.refresh_interval),
        },
    }
}

/// `new` is the version-81 managed-cluster payload for `old`: every
/// field carried over, vectors compared by contents.
pub open spec fn managed_migrated(old: v80::ManagedCluster, new: v81::ManagedCluster) -> bool {
    &&& new.size == old.size
    &&& new.replication_factor == old.replication_factor
    &&& new.availability_zones@ == old.availability_zones@
    &&& new.logging == migrate_logging(old.logging)
    &&& new.optimizer_feature_overrides@.len() == old.optimizer_feature_overrides@.len()
    &&& forall|i: int|
        0 <= i < old.optimizer_feature_overrides@.len() ==> new.optimizer_feature_overrides@[i]
            == migrate_override(old.optimizer_feature_overrides@[i])
    &&& new.schedule == migrate_schedule_variant(old.schedule)
}

/// `new` is the version-81 cluster variant for `old`.
pub open spec fn variant_migrated(old: v80::ClusterVariant, new: v81::ClusterVariant) -> bool {
    match (old, new) {
        (v80::ClusterVariant::Unmanaged, v81::ClusterVariant::Unmanaged) => true,
        (v80::ClusterVariant::Managed(m), v81::ClusterVariant::Managed(n)) => managed_migrated(
            m,
            n,
        ),
        _ => false,
    }
}

/// `new` is the version-81 cluster configuration for `old`: unaffected
/// fields carried verbatim, and the newly introduced `sealed` field set
/// to its documented default, `false`.
pub open spec fn config_migrated(old: v80::ClusterConfig, new: v81::ClusterConfig) -> bool {
    &&& new.workload_class == old.workload_class
    &&& variant_migrated(old.variant, new.variant)
    &&& new.sealed == false
}

/// `new` is the version-81 cluster entry for `old`.
pub open spec fn cluster_migrated(old: v80::Cluster, new: v81::Cluster) -> bool {
    &&& new.key.id == migrate_cluster_id(old.key.id)
    &&& new.value.name == old.value.name
    &&& new.value.owner_id == migrate_role_id(old.value.owner_id)
    &&& new.value.privileges@.len() == old.value.privileges@.len()
    &&& forall|i: int|
        0 <= i < old.value.privileges@.len() ==> new.value.privileges@[i] == migrate_acl_item(
            old.value.privileges@[i],
        )
    &&& config_migrated(old.value.config, new.value.config)
}

/// `new` is the version-81 entry for `old`: clusters gain the defaulted
/// `sealed` field, every other kind is structurally identical.
pub open spec fn migrated_entry(old: v80::StateUpdateKind, new: v81::StateUpdateKind) -> bool {
    match (old, new) {
        (v80::StateUpdateKind::Cluster(c), v81::StateUpdateKind::Cluster(n)) => cluster_migrated(
            c,
            n,
        ),
        (v80::StateUpdateKind::Role(r), v81::StateUpdateKind::Role(n)) => n == migrate_role(r),
        (v80::StateUpdateKind::Database(d), v81::StateUpdateKind::Database(n)) => n
            == migrate_database(d),
        (v80::StateUpdateKind::Schedule(s), v81::StateUpdateKind::Schedule(n)) => n
            == migrate_schedule(s),
        _ => false,
    }
}

/// Migration to version 81 never renames an entry: the new entry keeps
/// the old entry's key.
pub proof fn lemma_migrated_preserves_key(old: v80::StateUpdateKind, new: v81::StateUpdateKind)
    requires
        migrated_entry(old, new),
    ensures
        new.key() == old.key(),
{
}

impl CarryForward<v80::StateUpdateKind> for v81::StateUpdateKind {
    /// Clusters changed shape (the new `sealed` field has no version-80
    /// counterpart), so they cannot be carried structurally and must be
    /// accounted for by the step; every other kind casts field by field.
    open spec fn carried(old: v80::StateUpdateKind) -> Option<v81::StateUpdateKind> {
        match old {
            v80::StateUpdateKind::Cluster(_) => None,
            v80::StateUpdateKind::Role(r) => Some(v81::StateUpdateKind::Role(migrate_role(r))),
            v80::StateUpdateKind::Database(d) => Some(
                v81::StateUpdateKind::Database(migrate_database(d)),
            ),
            v80::StateUpdateKind::Schedule(s) => Some(
                v81::StateUpdateKind::Schedule(migrate_schedule(s)),
            ),
        }
    }

    fn carry(old: v80::StateUpdateKind) -> (r: Option<v81::StateUpdateKind>) {
        match old {
            v80::StateUpdateKind::Cluster(_) => None,
            v80::StateUpdateKind::Role(r) => Some(
                v81::StateUpdateKind::Role(
                    v81::Role {
                        key: v81::RoleKey { id: upgrade_role_id(r.key.id) },
                        value: v81::RoleValue { name: r.value.name },
                    },
                ),
            ),
            v80::StateUpdateKind::Database(d) => Some(
                v81::StateUpdateKind::Database(
                    v81::Database {
                        key: v81::DatabaseKey { id: d.key.id },
                        value: v81::DatabaseValue {
                            name: d.value.name,
                            owner_id: upgrade_role_id(d.value.owner_id),
                        },
                    },
                ),
            ),
            v80::StateUpdateKind::Schedule(s) => Some(
                v81::StateUpdateKind::Schedule(
                    v81::Schedule {
                        key: v81::ScheduleKey { id: s.key.id },
                        value: v81::ScheduleValue {
                            cluster_id: upgrade_cluster_id(s.value.cluster_id),
                            refresh_interval: v81::Duration {
                                secs: s.value.refresh_interval.secs,
                                nanos: s.value.refresh_interval.nanos,
                            },
                        },
                    },
                ),
            ),
        }
    }
}

pub fn upgrade_cluster_id(id: v80::ClusterId) -> (r: v81::ClusterId)
    ensures
        r == migrate_cluster_id(id),
{
    match id {
        v80::ClusterId::System(id) => v81::ClusterId::System(id),
        v80::ClusterId::User(id) => v81::ClusterId::User(id),
    }
}

pub fn upgrade_role_id(id: v80::RoleId) -> (r: v81::RoleId)
    ensures
        r == migrate_role_id(id),
{
    match id {
        v80::RoleId::System(id) => v81::RoleId::System(id),
        v80::RoleId::User(id) => v81::RoleId::User(id),
        v80::RoleId::Public => v81::RoleId::Public,
        v80::RoleId::Predefined(id) => v81::RoleId::Predefined(id),
    }
}

pub fn upgrade_mz_acl_item(item: v80::MzAclItem) -> (r: v81::MzAclItem)
    ensures
        r == migrate_acl_item(item),
{
    v81::MzAclItem {
        grantee: upgrade_role_id(item.grantee),
        grantor: upgrade_role_id(item.grantor),
        acl_mode: v81::AclMode { bitflags: item.acl_mode.bitflags },
    }
}

/// A structurally equal version-80 variant migrates to the same
/// version-81 variant.
pub proof fn lemma_variant_alike_migrated(
    a: v80::ClusterVariant,
    b: v80::ClusterVariant,
    c: v81::ClusterVariant,
)
    requires
        v80::variant_alike(a, b),
        variant_migrated(b, c),
    ensures
        variant_migrated(a, c),
{
}

#[verifier::loop_isolation(false)]
pub fn upgrade_cluster_variant(variant: v80::ClusterVariant) -> (r: v81::ClusterVariant)
    ensures
        variant_migrated(variant, r),
{
    match variant {
        v80::ClusterVariant::Unmanaged => v81::ClusterVariant::Unmanaged,
        v80::ClusterVariant::Managed(m) => {
            let ghost orig = m;
            let mut overrides_left = m.optimizer_feature_overrides;
            let mut optimizer_feature_overrides: Vec<v81::OptimizerFeatureOverride> = Vec::new();
            while overrides_left.len() > 0
                invariant
                    optimizer_feature_overrides@.len() + overrides_left@.len()
                        == orig.optimizer_feature_overrides@.len(),
                    overrides_left@ == orig.optimizer_feature_overrides@.skip(
                        optimizer_feature_overrides@.len() as int,
                    ),
                    forall|t: int|
                        0 <= t < optimizer_feature_overrides@.len()
                            ==> optimizer_feature_overrides@[t] == migrate_override(
                            orig.optimizer_feature_overrides@[t],
                        ),
                decreases overrides_left.len(),
            {
                let ghost done = optimizer_feature_overrides@.len() as int;
                let o = overrides_left.remove(0);
                proof {
                    assert(o == orig.optimizer_feature_overrides@[done]);
                    assert(overrides_left@ =~= orig.optimizer_feature_overrides@.skip(done + 1));
                }
                optimizer_feature_overrides.push(
                    v81::OptimizerFeatureOverride { name: o.name, value: o.value },
                );
            }
            v81::ClusterVariant::Managed(
                v81::ManagedCluster {
                    size: m.size,
                    replication_factor: m.replication_factor,
                    availability_zones: m.availability_zones,
                    logging: v81::ReplicaLogging {
                        log_logging: m.logging.log_logging,
                        interval: match m.logging.interval {
                            Some(d) => Some(v81::Duration { secs: d.secs, nanos: d.nanos }),
                            None => None,
                        },
                    },
                    optimizer_feature_overrides,
                    schedule: match m.schedule {
                        v80::ClusterSchedule::Manual => v81::ClusterSchedule::Manual,
                        v80::ClusterSchedule::Refresh(r) => v81::ClusterSchedule::Refresh(
                            v81::ClusterScheduleRefreshOptions {
                                rehydration_time_estimate: v81::Duration {
                                    secs: r.rehydration_time_estimate.secs,
                                    nanos: r.rehydration_time_estimate.nanos,
                                },
                            },
                        ),
                    },
                },
            )
        },
    }
}

/// The action a version-80 cluster entry owes to the step: an update
/// whose old side is that entry (by structural equality) and whose new
/// side is its version-81 migration.
pub open spec fn cluster_action_matches(
    e: v80::StateUpdateKind,
    a: MigrationAction<v80::StateUpdateKind, v81::StateUpdateKind>,
) -> bool {
    match (e, a) {
        (v80::StateUpdateKind::Cluster(c), MigrationAction::Update(o, n)) => {
            &&& match o {
                v80::StateUpdateKind::Cluster(oc) => v80::cluster_alike(c, oc),
                _ => false,
            }
            &&& migrated_entry(e, n)
        },
        _ => false,
    }
}

/// The step's whole output, entry by entry: one update per cluster, in
/// snapshot order, and nothing else.
pub open spec fn step_actions_match(
    snap: Seq<v80::StateUpdateKind>,
    actions: Seq<MigrationAction<v80::StateUpdateKind, v81::StateUpdateKind>>,
) -> bool
    decreases snap.len(),
{
    if snap.len() == 0 {
        actions.len() == 0
    } else if snap[0] matches v80::StateUpdateKind::Cluster(_) {
        &&& actions.len() > 0
        &&& cluster_action_matches(snap[0], actions[0])
        &&& step_actions_match(snap.drop_first(), actions.drop_first())
    } else {
        step_actions_match(snap.drop_first(), actions)
    }
}

/// Extending a matched prefix with a cluster entry and its action.
proof fn lemma_match_push_cluster(
    snap: Seq<v80::StateUpdateKind>,
    actions: Seq<MigrationAction<v80::StateUpdateKind, v81::StateUpdateKind>>,
    e: v80::StateUpdateKind,
    a: MigrationAction<v80::StateUpdateKind, v81::StateUpdateKind>,
)
    requires
        step_actions_match(snap, actions),
        e matches v80::StateUpdateKind::Cluster(_),
        cluster_action_matches(e, a),
    ensures
        step_actions_match(snap.push(e), actions.push(a)),
    decreases snap.len(),
{
    if snap.len() == 0 {
        assert(snap.push(e)[0] == e);
        assert(actions.len() == 0);
        assert(actions.push(a)[0] == a);
        assert(snap.push(e).drop_first() =~= snap);
        assert(actions.push(a).drop_first() =~= actions);
        assert(step_actions_match(snap, actions));
    } else {
        assert(snap.push(e)[0] == snap[0]);
        if snap[0] matches v80::StateUpdateKind::Cluster(_) {
            lemma_match_push_cluster(snap.drop_first(), actions.drop_first(), e, a);
            assert(snap.push(e).drop_first() =~= snap.drop_first().push(e));
            assert(actions.push(a).drop_first() =~= actions.drop_first().push(a));
            assert(actions.push(a)[0] == actions[0]);
        } else {
            lemma_match_push_cluster(snap.drop_first(), actions, e, a);
            assert(snap.push(e).drop_first() =~= snap.drop_first().push(e));
        }
    }
}

/// Extending a matched prefix with an entry that owes no action.
proof fn lemma_match_push_other(
    snap: Seq<v80::StateUpdateKind>,
    actions: Seq<MigrationAction<v80::StateUpdateKind, v81::StateUpdateKind>>,
    e: v80::StateUpdateKind,
)
    requires
        step_actions_match(snap, actions),
        !(e matches v80::StateUpdateKind::Cluster(_)),
    ensures
        step_actions_match(snap.push(e), actions),
    decreases snap.len(),
{
    if snap.len() == 0 {
        assert(snap.push(e)[0] == e);
        assert(snap.push(e).drop_first() =~= snap);
    } else {
        assert(snap.push(e)[0] == snap[0]);
        if snap[0] matches v80::StateUpdateKind::Cluster(_) {
            lemma_match_push_other(snap.drop_first(), actions.drop_first(), e);
            assert(snap.push(e).drop_first() =~= snap.drop_first().push(e));
        } else {
            lemma_match_push_other(snap.drop_first(), actions, e);
            assert(snap.push(e).drop_first() =~= snap.drop_first().push(e));
        }
    }
}

/// The upgrade step from version 80 to version 81.
///
/// Emits, in snapshot order, one update action per cluster entry —
/// translating the full old value and setting the new `sealed` field to
/// `false` — and no other action; all other kinds are carried forward
/// unchanged by the applier.
#[verifier::loop_isolation(false)]
pub fn upgrade(snapshot: &Vec<v80::StateUpdateKind>) -> (r: Vec<
    MigrationAction<v80::StateUpdateKind, v81::StateUpdateKind>,
>)
    ensures
        step_actions_match(snapshot@, r@),
{
    let mut actions: Vec<MigrationAction<v80::StateUpdateKind, v81::StateUpdateKind>> = Vec::new();
    let mut i: usize = 0;
    proof {
        assert(snapshot@.take(0) =~= Seq::<v80::StateUpdateKind>::empty());
    }
    while i < snapshot.len()
        invariant
            i <= snapshot.len(),
            step_actions_match(snapshot@.take(i as int), actions@),
        decreases snapshot.len() - i,
    {
        match &snapshot[i] {
            v80::StateUpdateKind::Cluster(cluster) => {
                let old_cluster = cluster.clone();
                let mut privileges: Vec<v81::MzAclItem> = Vec::new();
                let mut j: usize = 0;
                while j < cluster.value.privileges.len()
                    invariant
                        j <= cluster.value.privileges.len(),
                        privileges@.len() == j,
                        forall|t: int|
                            0 <= t < j ==> privileges@[t] == migrate_acl_item(
                                cluster.value.privileges@[t],
                            ),
                    decreases cluster.value.privileges.len() - j,
                {
                    privileges.push(upgrade_mz_acl_item(cluster.value.privileges[j]));
                    j = j + 1;
                }
                let variant_copy = cluster.value.config.variant.clone();
                let new_variant = upgrade_cluster_variant(variant_copy);
                proof {
                    lemma_variant_alike_migrated(
                        cluster.value.config.variant,
                        variant_copy,
                        new_variant,
                    );
                }
                let new_entry = v81::StateUpdateKind::Cluster(
                    v81::Cluster {
                        key: v81::ClusterKey { id: upgrade_cluster_id(cluster.key.id) },
                        value: v81::ClusterValue {
                            name: cluster.value.name.clone(),
                            owner_id: upgrade_role_id(cluster.value.owner_id),
                            privileges,
                            config: v81::ClusterConfig {
                                workload_class: match &cluster.value.config.workload_class {
                                    Some(w) => Some(w.clone()),
                                    None => None,
                                },
                                variant: new_variant,
                                // New field: default to false (unsealed)
                                sealed: false,
                            },
                        },
                    },
                );
                let act = MigrationAction::Update(
                    v80::StateUpdateKind::Cluster(old_cluster),
                    new_entry,
                );
                proof {
                    assert(cluster_action_matches(snapshot@[i as int], act));
                    lemma_match_push_cluster(snapshot@.take(i as int), actions@, snapshot@[i as int], act);
                }
                actions.push(act);
            },
            _ => {
                proof {
                    lemma_match_push_other(snapshot@.take(i as int), actions@, snapshot@[i as int]);
                }
            },
        }
        proof {
            assert(snapshot@.take(i + 1) =~= snapshot@.take(i as int).push(snapshot@[i as int]));
        }
        i = i + 1;
    }
    proof {
        assert(snapshot@.take(snapshot@.len() as int) =~= snapshot@);
    }
    actions
}

/// The fate the applier owes each pre-step position: clusters replaced
/// by their migration, everything else still kept.
pub open spec fn slot_done(
    e: v80::StateUpdateKind,
    slot: Slot<v80::StateUpdateKind, v81::StateUpdateKind>,
) -> bool {
    if e matches v80::StateUpdateKind::Cluster(_) {
        match slot {
            Slot::Replaced(n) => migrated_entry(e, n),
            _ => false,
        }
    } else {
        slot == Slot::<v80::StateUpdateKind, v81::StateUpdateKind>::Keep(e)
    }
}

proof fn lemma_step_fold(
    snap: Seq<v80::StateUpdateKind>,
    actions: Seq<MigrationAction<v80::StateUpdateKind, v81::StateUpdateKind>>,
    slots: Seq<Slot<v80::StateUpdateKind, v81::StateUpdateKind>>,
    app: Seq<v81::StateUpdateKind>,
    p: int,
)
    requires
        distinct_keys(keys_of(snap)),
        0 <= p <= snap.len(),
        slots.len() == snap.len(),
        forall|i: int| p <= i < snap.len() ==> slots[i] == Slot::<
            v80::StateUpdateKind,
            v81::StateUpdateKind,
        >::Keep(snap[i]),
        forall|i: int| 0 <= i < p ==> slot_done(snap[i], slots[i]),
        step_actions_match(snap.skip(p), actions),
    ensures
        match crate::apply::apply_all(keys_of(snap), ApplyState { slots, appended: app }, actions) {
            Ok(st2) => {
                &&& st2.appended == app
                &&& st2.slots.len() == snap.len()
                &&& forall|i: int| 0 <= i < snap.len() ==> slot_done(snap[i], st2.slots[i])
            },
            Err(_) => false,
        },
    decreases snap.len() - p,
{
    let keys = keys_of(snap);
    if p == snap.len() {
        assert(snap.skip(p) =~= Seq::<v80::StateUpdateKind>::empty());
        assert(actions.len() == 0);
    } else {
        assert(snap.skip(p)[0] == snap[p]);
        assert(snap.skip(p).drop_first() =~= snap.skip(p + 1));
        if snap[p] matches v80::StateUpdateKind::Cluster(_) {
            let a = actions[0];
            assert(cluster_action_matches(snap[p], a));
            match a {
                MigrationAction::Update(o, n) => {
                    assert(o.key() == snap[p].key());
                    assert(keys[p] == snap[p].key());
                    crate::keys::lemma_distinct_count(keys, o.key(), p);
                    crate::keys::lemma_unique_index(keys, o.key(), p);
                    let slots2 = slots.update(
                        p,
                        Slot::<v80::StateUpdateKind, v81::StateUpdateKind>::Replaced(n),
                    );
                    assert(slot_done(snap[p], slots2[p]));
                    lemma_step_fold(snap, actions.drop_first(), slots2, app, p + 1);
                },
                _ => {
                    assert(false);
                },
            }
        } else {
            lemma_step_fold(snap, actions, slots, app, p + 1);
        }
    }
}

proof fn lemma_step_assemble(
    snap: Seq<v80::StateUpdateKind>,
    slots: Seq<Slot<v80::StateUpdateKind, v81::StateUpdateKind>>,
)
    requires
        slots.len() == snap.len(),
        forall|i: int| 0 <= i < snap.len() ==> slot_done(snap[i], slots[i]),
    ensures
        match assemble::<v80::StateUpdateKind, v81::StateUpdateKind>(slots) {
            Ok(out) => {
                &&& out.len() == snap.len()
                &&& forall|i: int| 0 <= i < snap.len() ==> migrated_entry(snap[i], out[i])
            },
            Err(_) => false,
        },
    decreases slots.len(),
{
    if slots.len() > 0 {
        assert(slot_done(snap[0], slots[0]));
        lemma_step_assemble(snap.drop_first(), slots.drop_first());
        match slots[0] {
            Slot::Keep(o) => {
                assert(o == snap[0]);
                let c = <v81::StateUpdateKind as CarryForward<v80::StateUpdateKind>>::carried(o);
                assert(c is Some);
                assert(migrated_entry(snap[0], c.unwrap()));
                match assemble::<v80::StateUpdateKind, v81::StateUpdateKind>(slots.drop_first()) {
                    Ok(rest) => {
                        let out = seq![c.unwrap()] + rest;
                        assert(out[0] == c.unwrap());
                        assert(forall|i: int|
                            1 <= i < out.len() ==> out[i] == rest[i - 1] && snap[i]
                                == snap.drop_first()[i - 1]);
                    },
                    Err(_) => {},
                }
            },
            Slot::Replaced(n) => {
                match assemble::<v80::StateUpdateKind, v81::StateUpdateKind>(slots.drop_first()) {
                    Ok(rest) => {
                        let out = seq![n] + rest;
                        assert(out[0] == n);
                        assert(forall|i: int|
                            1 <= i < out.len() ==> out[i] == rest[i - 1] && snap[i]
                                == snap.drop_first()[i - 1]);
                    },
                    Err(_) => {},
                }
            },
            Slot::Removed => {
                assert(false);
            },
        }
    }
}

/// Totality of the migration to version 81: on any snapshot whose keys
/// are distinct, applying the step's actions succeeds, yields exactly
/// one entry per input entry, in order, and each output entry is its
/// input entry's migration — no kind is left unhandled, no entry is
/// lost or invented.
pub proof fn lemma_upgrade_applies(
    snap: Seq<v80::StateUpdateKind>,
    actions: Seq<MigrationAction<v80::StateUpdateKind, v81::StateUpdateKind>>,
)
    requires
        distinct_keys(keys_of(snap)),
        step_actions_match(snap, actions),
    ensures
        match apply_spec::<v80::StateUpdateKind, v81::StateUpdateKind>(snap, actions) {
            Ok(out) => {
                &&& out.len() == snap.len()
                &&& forall|i: int| 0 <= i < snap.len() ==> migrated_entry(snap[i], out[i])
            },
            Err(_) => false,
        },
{
    let init = crate::apply::initial_state::<v80::StateUpdateKind, v81::StateUpdateKind>(snap);
    assert(init.slots.len() == snap.len());
    assert(forall|i: int| 0 <= i < snap.len() ==> init.slots[i] == Slot::<
        v80::StateUpdateKind,
        v81::StateUpdateKind,
    >::Keep(snap[i]));
    assert(snap.skip(0) =~= snap);
    lemma_step_fold(snap, actions, init.slots, init.appended, 0);
    match crate::apply::apply_all(keys_of(snap), init, actions) {
        Ok(st2) => {
            lemma_step_assemble(snap, st2.slots);
            match assemble::<v80::StateUpdateKind, v81::StateUpdateKind>(st2.slots) {
                Ok(core) => {
                    assert(core + st2.appended =~= core);
                },
                Err(_) => {},
            }
        },
        Err(_) => {},
    }
}

/// Round-trip field preservation: a cluster's update action carries
/// every field shared by both versions over unchanged — the name, the
/// owner, each privilege grant, the workload class, and the whole
/// variant payload.
pub proof fn lemma_update_preserves_cluster_fields(c: v80::Cluster, n: v81::Cluster)
    requires
        cluster_migrated(c, n),
    ensures
        n.value.name == c.value.name,
        n.value.owner_id == migrate_role_id(c.value.owner_id),
        n.value.privileges@.len() == c.value.privileges@.len(),
        forall|i: int|
            0 <= i < c.value.privileges@.len() ==> n.value.privileges@[i] == migrate_acl_item(
                c.value.privileges@[i],
            ),
        n.value.config.workload_class == c.value.config.workload_class,
        variant_migrated(c.value.config.variant, n.value.config.variant),
{
}

/// Default-value contract: every migrated entry that did not previously
/// carry the `sealed` field — that is, every cluster — carries its
/// documented default, `false`, after the migration.
pub proof fn lemma_sealed_defaults_to_false(old: v80::StateUpdateKind, new: v81::StateUpdateKind)
    requires
        migrated_entry(old, new),
    ensures
        match new {
            v81::StateUpdateKind::Cluster(n) => n.value.config.sealed == false,
            _ => true,
        },
{
}

} // verus!
