//! The catalog object model at schema version 82.
//!
//! Differs from version 81 in one way: standing refresh schedules were
//! folded into cluster configuration elsewhere, so the standalone
//! schedule kind is removed; the migration from version 81 deletes its
//! entries.  The surviving kinds did not change shape, so their
//! version-81 structs are reused as-is and the carry-forward cast is the
//! identity on them.  Frozen once released, like every version's module.

use vstd::prelude::*;

use crate::action::Entry;
use crate::keys::{EntryKey, NamespacedId};
use crate::objects_v81::{cluster_id_key, role_id_key, Cluster, ClusterId, Database, Role, RoleId};

verus! {

/// The closed set of catalog object kinds at version 82.  The schedule
/// kind of version 81 no longer exists.
#[derive(PartialEq, Eq, Debug)]
pub enum StateUpdateKind {
    Cluster(Cluster),
    Role(Role),
    Database(Database),
}

impl Entry for StateUpdateKind {
    open spec fn key(&self) -> EntryKey {
        match self {
            StateUpdateKind::Cluster(c) => EntryKey::Cluster(cluster_id_key(c.key.id)),
            StateUpdateKind::Role(r) => EntryKey::Role(role_id_key(r.key.id)),
            StateUpdateKind::Database(d) => EntryKey::Database(d.key.id),
        }
    }

    fn entry_key(&self) -> (k: EntryKey) {
        match self {
            StateUpdateKind::Cluster(c) => EntryKey::Cluster(
                match c.key.id {
                    ClusterId::System(x) => NamespacedId::System(x),
                    ClusterId::User(x) => NamespacedId::User(x),
                },
            ),
            StateUpdateKind::Role(r) => EntryKey::Role(
                match r.key.id {
                    RoleId::System(x) => NamespacedId::System(x),
                    RoleId::User(x) => NamespacedId::User(x),
                    RoleId::Public => NamespacedId::Public,
                    RoleId::Predefined(x) => NamespacedId::Predefined(x),
                },
            ),
            StateUpdateKind::Database(d) => EntryKey::Database(d.key.id),
        }
    }
}

} // verus!
