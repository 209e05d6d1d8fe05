//! The catalog object model at schema version 80.
//!
//! Frozen: this module describes a released version's on-disk shapes and
//! is never edited again, only superseded by the next version's module.

use vstd::prelude::*;

use crate::action::Entry;
use crate::keys::{EntryKey, NamespacedId};

verus! {

#[derive(Clone, Copy, PartialEq, Eq, Debug)]
pub enum ClusterId {
    System(u64),
    User(u64),
}

#[derive(Clone, Copy, PartialEq, Eq, Debug)]
pub enum RoleId {
    System(u64),
    User(u64),
    Public,
    Predefined(u64),
}

#[derive(Clone, Copy, PartialEq, Eq, Debug)]
pub struct AclMode {
    pub bitflags: u64,
}

/// One privilege grant: who granted which modes to whom.
#[derive(Clone, Copy, PartialEq, Eq, Debug)]
pub struct MzAclItem {
    pub grantee: RoleId,
    pub grantor: RoleId,
    pub acl_mode: AclMode,
}

#[derive(Clone, Copy, PartialEq, Eq, Debug)]
pub struct Duration {
    pub secs: u64,
    pub nanos: u32,
}

#[derive(Clone, Copy, PartialEq, Eq, Debug)]
pub struct ReplicaLogging {
    pub log_logging: bool,
    pub interval: Option<Duration>,
}

#[derive(PartialEq, Eq, Debug)]
pub struct OptimizerFeatureOverride {
    pub name: String,
    pub value: String,
}

#[derive(Clone, Copy, PartialEq, Eq, Debug)]
pub struct ClusterScheduleRefreshOptions {
    pub rehydration_time_estimate: Duration,
}

#[derive(Clone, Copy, PartialEq, Eq, Debug)]
pub enum ClusterSchedule {
    Manual,
    Refresh(ClusterScheduleRefreshOptions),
}

#[derive(PartialEq, Eq, Debug)]
pub struct ManagedCluster {
    pub size: String,
    pub replication_factor: u32,
    pub availability_zones: Vec<String>,
    pub logging: ReplicaLogging,
    pub optimizer_feature_overrides: Vec<OptimizerFeatureOverride>,
    pub schedule: ClusterSchedule,
}

#[derive(PartialEq, Eq, Debug)]
pub enum ClusterVariant {
    Unmanaged,
    Managed(ManagedCluster),
}

#[derive(PartialEq, Eq, Debug)]
pub struct ClusterConfig {
    pub workload_class: Option<String>,
    pub variant: ClusterVariant,
}

#[derive(Clone, Copy, PartialEq, Eq, Debug)]
pub struct ClusterKey {
    pub id: ClusterId,
}

#[derive(PartialEq, Eq, Debug)]
pub struct ClusterValue {
    pub name: String,
    pub owner_id: RoleId,
    pub privileges: Vec<MzAclItem>,
    pub config: ClusterConfig,
}

#[derive(PartialEq, Eq, Debug)]
pub struct Cluster {
    pub key: ClusterKey,
    pub value: ClusterValue,
}

#[derive(Clone, Copy, PartialEq, Eq, Debug)]
pub struct RoleKey {
    pub id: RoleId,
}

#[derive(PartialEq, Eq, Debug)]
pub struct RoleValue {
    pub name: String,
}

#[derive(PartialEq, Eq, Debug)]
pub struct Role {
    pub key: RoleKey,
    pub value: RoleValue,
}

#[derive(Clone, Copy, PartialEq, Eq, Debug)]
pub struct DatabaseKey {
    pub id: u64,
}

#[derive(PartialEq, Eq, Debug)]
pub struct DatabaseValue {
    pub name: String,
    pub owner_id: RoleId,
}

#[derive(PartialEq, Eq, Debug)]
pub struct Database {
    pub key: DatabaseKey,
    pub value: DatabaseValue,
}

#[derive(Clone, Copy, PartialEq, Eq, Debug)]
pub struct ScheduleKey {
    pub id: u64,
}

#[derive(Clone, Copy, PartialEq, Eq, Debug)]
pub struct ScheduleValue {
    pub cluster_id: ClusterId,
    pub refresh_interval: Duration,
}

/// A standing refresh schedule attached to a cluster.
#[derive(Clone, Copy, PartialEq, Eq, Debug)]
pub struct Schedule {
    pub key: ScheduleKey,
    pub value: ScheduleValue,
}

/// The closed set of catalog object kinds at version 80.
#[derive(PartialEq, Eq, Debug)]
pub enum StateUpdateKind {
    Cluster(Cluster),
    Role(Role),
    Database(Database),
    Schedule(Schedule),
}

/// The version-independent identity carried by a version-80 cluster id.
pub open spec fn cluster_id_key(id: ClusterId) -> NamespacedId {
    match id {
        ClusterId::System(x) => NamespacedId::System(x),
        ClusterId::User(x) => NamespacedId::User(x),
    }
}

/// The version-independent identity carried by a version-80 role id.
pub open spec fn role_id_key(id: RoleId) -> NamespacedId {
    match id {
        RoleId::System(x) => NamespacedId::System(x),
        RoleId::User(x) => NamespacedId::User(x),
        RoleId::Public => NamespacedId::Public,
        RoleId::Predefined(x) => NamespacedId::Predefined(x),
    }
}

impl Entry for StateUpdateKind {
    open spec fn key(&self) -> EntryKey {
        match self {
            StateUpdateKind::Cluster(c) => EntryKey::Cluster(cluster_id_key(c.key.id)),
            StateUpdateKind::Role(r) => EntryKey::Role(role_id_key(r.key.id)),
            StateUpdateKind::Database(d) => EntryKey::Database(d.key.id),
            StateUpdateKind::Schedule(s) => EntryKey::Schedule(s.key.id),
        }
    }

    fn entry_key(&self) -> (k: EntryKey) {
        match self {
            StateUpdateKind::Cluster(c) => EntryKey::Cluster(
                match c.key.id {
                    ClusterId::System(x) => NamespacedId::System(x),
                    ClusterId::User(x) => NamespacedId::User(x),
                },
            ),
            StateUpdateKind::Role(r) => EntryKey::Role(
                match r.key.id {
                    RoleId::System(x) => NamespacedId::System(x),
                    RoleId::User(x) => NamespacedId::User(x),
                    RoleId::Public => NamespacedId::Public,
                    RoleId::Predefined(x) => NamespacedId::Predefined(x),
                },
            ),
            StateUpdateKind::Database(d) => EntryKey::Database(d.key.id),
            StateUpdateKind::Schedule(s) => EntryKey::Schedule(s.key.id),
        }
    }
}

/// Structural equality of two version-80 managed-cluster payloads,
/// comparing vector contents rather than vector identity.
pub open spec fn managed_alike(a: ManagedCluster, b: ManagedCluster) -> bool {
    &&& b.size == a.size
    &&& b.replication_factor == a.replication_factor
    &&& b.availability_zones@ == a.availability_zones@
    &&& b.logging == a.logging
    &&& b.optimizer_feature_overrides@ == a.optimizer_feature_overrides@
    &&& b.schedule == a.schedule
}

/// Structural equality of two version-80 cluster variants.
pub open spec fn variant_alike(a: ClusterVariant, b: ClusterVariant) -> bool {
    match (a, b) {
        (ClusterVariant::Unmanaged, ClusterVariant::Unmanaged) => true,
        (ClusterVariant::Managed(m), ClusterVariant::Managed(n)) => managed_alike(m, n),
        _ => false,
    }
}

/// Structural equality of two version-80 cluster configurations.
pub open spec fn config_alike(a: ClusterConfig, b: ClusterConfig) -> bool {
    &&& b.workload_class == a.workload_class
    &&& variant_alike(a.variant, b.variant)
}

/// Structural equality of two version-80 cluster values.
pub open spec fn cluster_value_alike(a: ClusterValue, b: ClusterValue) -> bool {
    &&& b.name == a.name
    &&& b.owner_id == a.owner_id
    &&& b.privileges@ == a.privileges@
    &&& config_alike(a.config, b.config)
}

/// Structural equality of two version-80 cluster entries.
pub open spec fn cluster_alike(a: Cluster, b: Cluster) -> bool {
    &&& b.key == a.key
    &&& cluster_value_alike(a.value, b.value)
}

impl Clone for OptimizerFeatureOverride {
    fn clone(&self) -> (r: Self)
        ensures
            r == *self,
    {
        OptimizerFeatureOverride { name: self.name.clone(), value: self.value.clone() }
    }
}

impl Clone for ManagedCluster {
    #[verifier::loop_isolation(false)]
    fn clone(&self) -> (r: Self)
        ensures
            managed_alike(*self, r),
    {
        let mut availability_zones: Vec<String> = Vec::new();
        let mut i: usize = 0;
        while i < self.availability_zones.len()
            invariant
                availability_zones@ =~= self.availability_zones@.take(i as int),
                i <= self.availability_zones.len(),
            decreases self.availability_zones.len() - i,
        {
            availability_zones.push(self.availability_zones[i].clone());
            i = i + 1;
        }
        proof {
            assert(availability_zones@ =~= self.availability_zones@);
        }
        let mut optimizer_feature_overrides: Vec<OptimizerFeatureOverride> = Vec::new();
        let mut j: usize = 0;
        while j < self.optimizer_feature_overrides.len()
            invariant
                optimizer_feature_overrides@ =~= self.optimizer_feature_overrides@.take(j as int),
                j <= self.optimizer_feature_overrides.len(),
            decreases self.optimizer_feature_overrides.len() - j,
        {
            optimizer_feature_overrides.push(self.optimizer_feature_overrides[j].clone());
            j = j + 1;
        }
        proof {
            assert(optimizer_feature_overrides@ =~= self.optimizer_feature_overrides@);
        }
        ManagedCluster {
            size: self.size.clone(),
            replication_factor: self.replication_factor,
            availability_zones,
            logging: self.logging,
            optimizer_feature_overrides,
            schedule: self.schedule,
        }
    }
}

impl Clone for ClusterVariant {
    fn clone(&self) -> (r: Self)
        ensures
            variant_alike(*self, r),
    {
        match self {
            ClusterVariant::Unmanaged => ClusterVariant::Unmanaged,
            ClusterVariant::Managed(m) => ClusterVariant::Managed(m.clone()),
        }
    }
}

impl Clone for ClusterConfig {
    fn clone(&self) -> (r: Self)
        ensures
            config_alike(*self, r),
    {
        ClusterConfig {
            workload_class: match &self.workload_class {
                Some(w) => Some(w.clone()),
                None => None,
            },
            variant: self.variant.clone(),
        }
    }
}

impl Clone for ClusterValue {
    #[verifier::loop_isolation(false)]
    fn clone(&self) -> (r: Self)
        ensures
            cluster_value_alike(*self, r),
    {
        let mut privileges: Vec<MzAclItem> = Vec::new();
        let mut i: usize = 0;
        while i < self.privileges.len()
            invariant
                privileges@ =~= self.privileges@.take(i as int),
                i <= self.privileges.len(),
            decreases self.privileges.len() - i,
        {
            privileges.push(self.privileges[i]);
            i = i + 1;
        }
        proof {
            assert(privileges@ =~= self.privileges@);
        }
        ClusterValue {
            name: self.name.clone(),
            owner_id: self.owner_id,
            privileges,
            config: self.config.clone(),
        }
    }
}

impl Clone for Cluster {
    fn clone(&self) -> (r: Self)
        ensures
            cluster_alike(*self, r),
    {
        Cluster { key: self.key, value: self.value.clone() }
    }
}

} // verus!
