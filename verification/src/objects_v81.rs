//! The catalog object model at schema version 81.
//!
//! Differs from version 80 in one way: `ClusterConfig` gains the boolean
//! `sealed` field.  Frozen once released, like every version's module.

use vstd::prelude::*;

use crate::action::Entry;
use crate::keys::{EntryKey, NamespacedId};

verus! {

#[derive(Clone, Copy, PartialEq, Eq, Debug)]
pub enum ClusterId {
    System(u64),
    User(u64),
}

#[derive(Clone, Copy, PartialEq, Eq, Debug)]
pub enum RoleId {
    System(u64),
    User(u64),
    Public,
    Predefined(u64),
}

#[derive(Clone, Copy, PartialEq, Eq, Debug)]
pub struct AclMode {
    pub bitflags: u64,
}

/// One privilege grant: who granted which modes to whom.
#[derive(Clone, Copy, PartialEq, Eq, Debug)]
pub struct MzAclItem {
    pub grantee: RoleId,
    pub grantor: RoleId,
    pub acl_mode: AclMode,
}

#[derive(Clone, Copy, PartialEq, Eq, Debug)]
pub struct Duration {
    pub secs: u64,
    pub nanos: u32,
}

#[derive(Clone, Copy, PartialEq, Eq, Debug)]
pub struct ReplicaLogging {
    pub log_logging: bool,
    pub interval: Option<Duration>,
}

#[derive(PartialEq, Eq, Debug)]
pub struct OptimizerFeatureOverride {
    pub name: String,
    pub value: String,
}

#[derive(Clone, Copy, PartialEq, Eq, Debug)]
pub struct ClusterScheduleRefreshOptions {
    pub rehydration_time_estimate: Duration,
}

#[derive(Clone, Copy, PartialEq, Eq, Debug)]
pub enum ClusterSchedule {
    Manual,
    Refresh(ClusterScheduleRefreshOptions),
}

#[derive(PartialEq, Eq, Debug)]
pub struct ManagedCluster {
    pub size: String,
    pub replication_factor: u32,
    pub availability_zones: Vec<String>,
    pub logging: ReplicaLogging,
    pub optimizer_feature_overrides: Vec<OptimizerFeatureOverride>,
    pub schedule: ClusterSchedule,
}

#[derive(PartialEq, Eq, Debug)]
pub enum ClusterVariant {
    Unmanaged,
    Managed(ManagedCluster),
}

#[derive(PartialEq, Eq, Debug)]
pub struct ClusterConfig {
    pub workload_class: Option<String>,
    pub variant: ClusterVariant,
    /// Whether the cluster refuses configuration changes.  New in this
    /// version; the migration from version 80 sets it to `false`.
    pub sealed: bool,
}

#[derive(Clone, Copy, PartialEq, Eq, Debug)]
pub struct ClusterKey {
    pub id: ClusterId,
}

#[derive(PartialEq, Eq, Debug)]
pub struct ClusterValue {
    pub name: String,
    pub owner_id: RoleId,
    pub privileges: Vec<MzAclItem>,
    pub config: ClusterConfig,
}

#[derive(PartialEq, Eq, Debug)]
pub struct Cluster {
    pub key: ClusterKey,
    pub value: ClusterValue,
}

#[derive(Clone, Copy, PartialEq, Eq, Debug)]
pub struct RoleKey {
    pub id: RoleId,
}

#[derive(PartialEq, Eq, Debug)]
pub struct RoleValue {
    pub name: String,
}

#[derive(PartialEq, Eq, Debug)]
pub struct Role {
    pub key: RoleKey,
    pub value: RoleValue,
}

#[derive(Clone, Copy, PartialEq, Eq, Debug)]
pub struct DatabaseKey {
    pub id: u64,
}

#[derive(PartialEq, Eq, Debug)]
pub struct DatabaseValue {
    pub name: String,
    pub owner_id: RoleId,
}

#[derive(PartialEq, Eq, Debug)]
pub struct Database {
    pub key: DatabaseKey,
    pub value: DatabaseValue,
}

#[derive(Clone, Copy, PartialEq, Eq, Debug)]
pub struct ScheduleKey {
    pub id: u64,
}

#[derive(Clone, Copy, PartialEq, Eq, Debug)]
pub struct ScheduleValue {
    pub cluster_id: ClusterId,
    pub refresh_interval: Duration,
}

/// A standing refresh schedule attached to a cluster.
#[derive(Clone, Copy, PartialEq, Eq, Debug)]
pub struct Schedule {
    pub key: ScheduleKey,
    pub value: ScheduleValue,
}

/// The closed set of catalog object kinds at version 81.
#[derive(PartialEq, Eq, Debug)]
pub enum StateUpdateKind {
    Cluster(Cluster),
    Role(Role),
    Database(Database),
    Schedule(Schedule),
}

/// The version-independent identity carried by a version-81 cluster id.
pub open spec fn cluster_id_key(id: ClusterId) -> NamespacedId {
    match id {
        ClusterId::System(x) => NamespacedId::System(x),
        ClusterId::User(x) => NamespacedId::User(x),
    }
}

/// The version-independent identity carried by a version-81 role id.
pub open spec fn role_id_key(id: RoleId) -> NamespacedId {
    match id {
        RoleId::System(x) => NamespacedId::System(x),
        RoleId::User(x) => NamespacedId::User(x),
        RoleId::Public => NamespacedId::Public,
        RoleId::Predefined(x) => NamespacedId::Predefined(x),
    }
}

impl Entry for StateUpdateKind {
    open spec fn key(&self) -> EntryKey {
        match self {
            StateUpdateKind::Cluster(c) => EntryKey::Cluster(cluster_id_key(c.key.id)),
            StateUpdateKind::Role(r) => EntryKey::Role(role_id_key(r.key.id)),
            StateUpdateKind::Database(d) => EntryKey::Database(d.key.id),
            StateUpdateKind::Schedule(s) => EntryKey::Schedule(s.key.id),
        }
    }

    fn entry_key(&self) -> (k: EntryKey) {
        match self {
            StateUpdateKind::Cluster(c) => EntryKey::Cluster(
                match c.key.id {
                    ClusterId::System(x) => NamespacedId::System(x),
                    ClusterId::User(x) => NamespacedId::User(x),
                },
            ),
            StateUpdateKind::Role(r) => EntryKey::Role(
                match r.key.id {
                    RoleId::System(x) => NamespacedId::System(x),
                    RoleId::User(x) => NamespacedId::User(x),
                    RoleId::Public => NamespacedId::Public,
                    RoleId::Predefined(x) => NamespacedId::Predefined(x),
                },
            ),
            StateUpdateKind::Database(d) => EntryKey::Database(d.key.id),
            StateUpdateKind::Schedule(s) => EntryKey::Schedule(s.key.id),
        }
    }
}

} // verus!
