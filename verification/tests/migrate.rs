use catalog_migrate::action::{MigrationAction, MigrationError};
use catalog_migrate::apply::apply;
use catalog_migrate::keys::{EntryKey, NamespacedId};
use catalog_migrate::objects_v80 as v80;
use catalog_migrate::objects_v81 as v81;
use catalog_migrate::objects_v82 as v82;
use catalog_migrate::runner::{registry, run, VersionedSnapshot};
use catalog_migrate::v80_to_v81;
use catalog_migrate::v81_to_v82;

fn sample_cluster_v80() -> v80::StateUpdateKind {
    v80::StateUpdateKind::Cluster(v80::Cluster {
        key: v80::ClusterKey {
            id: v80::ClusterId::User(7),
        },
        value: v80::ClusterValue {
            name: "prod".to_string(),
            owner_id: v80::RoleId::User(3),
            privileges: vec![
                v80::MzAclItem {
                    grantee: v80::RoleId::Public,
                    grantor: v80::RoleId::System(1),
                    acl_mode: v80::AclMode { bitflags: 0b1010 },
                },
                v80::MzAclItem {
                    grantee: v80::RoleId::Predefined(9),
                    grantor: v80::RoleId::User(3),
                    acl_mode: v80::AclMode { bitflags: 0b0001 },
                },
            ],
            config: v80::ClusterConfig {
                workload_class: Some("standard".to_string()),
                variant: v80::ClusterVariant::Managed(v80::ManagedCluster {
                    size: "medium".to_string(),
                    replication_factor: 2,
                    availability_zones: vec!["az-a".to_string(), "az-b".to_string()],
                    logging: v80::ReplicaLogging {
                        log_logging: true,
                        interval: Some(v80::Duration {
                            secs: 60,
                            nanos: 500,
                        }),
                    },
                    optimizer_feature_overrides: vec![v80::OptimizerFeatureOverride {
                        name: "enable_eager_delta_joins".to_string(),
                        value: "true".to_string(),
                    }],
                    schedule: v80::ClusterSchedule::Refresh(v80::ClusterScheduleRefreshOptions {
                        rehydration_time_estimate: v80::Duration {
                            secs: 180,
                            nanos: 0,
                        },
                    }),
                }),
            },
        },
    })
}

fn sample_role_v80(id: u64) -> v80::StateUpdateKind {
    v80::StateUpdateKind::Role(v80::Role {
        key: v80::RoleKey {
            id: v80::RoleId::User(id),
        },
        value: v80::RoleValue {
            name: format!("role-{}", id),
        },
    })
}

fn sample_database_v80() -> v80::StateUpdateKind {
    v80::StateUpdateKind::Database(v80::Database {
        key: v80::DatabaseKey { id: 11 },
        value: v80::DatabaseValue {
            name: "materialize".to_string(),
            owner_id: v80::RoleId::User(3),
        },
    })
}

fn sample_schedule_v80() -> v80::StateUpdateKind {
    v80::StateUpdateKind::Schedule(v80::Schedule {
        key: v80::ScheduleKey { id: 4 },
        value: v80::ScheduleValue {
            cluster_id: v80::ClusterId::User(7),
            refresh_interval: v80::Duration {
                secs: 3600,
                nanos: 0,
            },
        },
    })
}

fn sample_role_v81(id: u64) -> v81::StateUpdateKind {
    v81::StateUpdateKind::Role(v81::Role {
        key: v81::RoleKey {
            id: v81::RoleId::User(id),
        },
        value: v81::RoleValue {
            name: format!("role-{}", id),
        },
    })
}

fn sample_schedule_v81(id: u64) -> v81::StateUpdateKind {
    v81::StateUpdateKind::Schedule(v81::Schedule {
        key: v81::ScheduleKey { id },
        value: v81::ScheduleValue {
            cluster_id: v81::ClusterId::User(7),
            refresh_interval: v81::Duration {
                secs: 3600,
                nanos: 0,
            },
        },
    })
}

fn sample_database_v81() -> v81::StateUpdateKind {
    v81::StateUpdateKind::Database(v81::Database {
        key: v81::DatabaseKey { id: 11 },
        value: v81::DatabaseValue {
            name: "materialize".to_string(),
            owner_id: v81::RoleId::User(3),
        },
    })
}

/// A cluster lacking the later-added `sealed` flag migrates to exactly
/// one entry whose configuration carries the documented default, with
/// every other field identical to the input.
#[test]
fn cluster_gains_sealed_default() {
    let snapshot = vec![sample_cluster_v80()];
    let result = run(VersionedSnapshot::V80(snapshot), 81).unwrap();
    let out = match result {
        VersionedSnapshot::V81(out) => out,
        _ => panic!("expected a version-81 snapshot"),
    };
    assert_eq!(out.len(), 1);
    let cluster = match &out[0] {
        v81::StateUpdateKind::Cluster(c) => c,
        _ => panic!("expected a cluster entry"),
    };
    assert_eq!(cluster.key.id, v81::ClusterId::User(7));
    assert_eq!(cluster.value.name, "prod".to_string());
    assert_eq!(cluster.value.owner_id, v81::RoleId::User(3));
    assert_eq!(
        cluster.value.privileges,
        vec![
            v81::MzAclItem {
                grantee: v81::RoleId::Public,
                grantor: v81::RoleId::System(1),
                acl_mode: v81::AclMode { bitflags: 0b1010 },
            },
            v81::MzAclItem {
                grantee: v81::RoleId::Predefined(9),
                grantor: v81::RoleId::User(3),
                acl_mode: v81::AclMode { bitflags: 0b0001 },
            },
        ]
    );
    assert_eq!(
        cluster.value.config.workload_class,
        Some("standard".to_string())
    );
    assert_eq!(cluster.value.config.sealed, false);
    let managed = match &cluster.value.config.variant {
        v81::ClusterVariant::Managed(m) => m,
        _ => panic!("expected a managed cluster"),
    };
    assert_eq!(managed.size, "medium".to_string());
    assert_eq!(managed.replication_factor, 2);
    assert_eq!(
        managed.availability_zones,
        vec!["az-a".to_string(), "az-b".to_string()]
    );
    assert_eq!(
        managed.logging,
        v81::ReplicaLogging {
            log_logging: true,
            interval: Some(v81::Duration {
                secs: 60,
                nanos: 500
            }),
        }
    );
    assert_eq!(
        managed.optimizer_feature_overrides,
        vec![v81::OptimizerFeatureOverride {
            name: "enable_eager_delta_joins".to_string(),
            value: "true".to_string(),
        }]
    );
    assert_eq!(
        managed.schedule,
        v81::ClusterSchedule::Refresh(v81::ClusterScheduleRefreshOptions {
            rehydration_time_estimate: v81::Duration {
                secs: 180,
                nanos: 0
            },
        })
    );
}

/// An unmanaged cluster with no workload class also migrates with the
/// default, exercising the other variant case.
#[test]
fn unmanaged_cluster_gains_sealed_default() {
    let snapshot = vec![v80::StateUpdateKind::Cluster(v80::Cluster {
        key: v80::ClusterKey {
            id: v80::ClusterId::System(2),
        },
        value: v80::ClusterValue {
            name: "mz_system".to_string(),
            owner_id: v80::RoleId::System(1),
            privileges: vec![],
            config: v80::ClusterConfig {
                workload_class: None,
                variant: v80::ClusterVariant::Unmanaged,
            },
        },
    })];
    let result = run(VersionedSnapshot::V80(snapshot), 81).unwrap();
    let out = match result {
        VersionedSnapshot::V81(out) => out,
        _ => panic!("expected a version-81 snapshot"),
    };
    assert_eq!(out.len(), 1);
    match &out[0] {
        v81::StateUpdateKind::Cluster(c) => {
            assert_eq!(c.key.id, v81::ClusterId::System(2));
            assert_eq!(c.value.config.workload_class, None);
            assert!(matches!(
                c.value.config.variant,
                v81::ClusterVariant::Unmanaged
            ));
            assert_eq!(c.value.config.sealed, false);
            assert!(c.value.privileges.is_empty());
        }
        _ => panic!("expected a cluster entry"),
    }
}

/// Every kind of the version-80 model has a defined migration outcome.
#[test]
fn every_kind_has_an_outcome() {
    let snapshot = vec![
        sample_role_v80(1),
        sample_cluster_v80(),
        sample_database_v80(),
        sample_schedule_v80(),
    ];
    let result = run(VersionedSnapshot::V80(snapshot), 81).unwrap();
    let out = match result {
        VersionedSnapshot::V81(out) => out,
        _ => panic!("expected a version-81 snapshot"),
    };
    assert_eq!(out.len(), 4);
    assert!(matches!(out[0], v81::StateUpdateKind::Role(_)));
    assert!(matches!(out[1], v81::StateUpdateKind::Cluster(_)));
    assert!(matches!(out[2], v81::StateUpdateKind::Database(_)));
    assert!(matches!(out[3], v81::StateUpdateKind::Schedule(_)));
}

/// Untouched entries pass through the migration to version 81 with
/// their payloads intact and their order preserved.
#[test]
fn untouched_entries_pass_through() {
    let snapshot = vec![sample_role_v80(1), sample_database_v80()];
    let result = run(VersionedSnapshot::V80(snapshot), 81).unwrap();
    let out = match result {
        VersionedSnapshot::V81(out) => out,
        _ => panic!("expected a version-81 snapshot"),
    };
    assert_eq!(out, vec![sample_role_v81(1), sample_database_v81()]);
}

/// An entry of the kind removed in version 82 is absent afterwards and
/// all other entries are untouched.
#[test]
fn removed_kind_is_deleted() {
    let snapshot = vec![
        sample_role_v81(1),
        sample_schedule_v81(4),
        sample_database_v81(),
    ];
    let result = run(VersionedSnapshot::V81(snapshot), 82).unwrap();
    let out = match result {
        VersionedSnapshot::V82(out) => out,
        _ => panic!("expected a version-82 snapshot"),
    };
    assert_eq!(out.len(), 2);
    match (&out[0], &out[1]) {
        (v82::StateUpdateKind::Role(r), v82::StateUpdateKind::Database(d)) => {
            assert_eq!(r.value.name, "role-1".to_string());
            assert_eq!(d.value.name, "materialize".to_string());
        }
        _ => panic!("expected the role and the database to survive"),
    }
}

/// Migrating across both steps drops the schedule and seals nothing:
/// the cluster arrives at version 82 with `sealed == false` and the
/// rest of the catalog intact.
#[test]
fn chain_runs_from_80_to_82() {
    let snapshot = vec![
        sample_cluster_v80(),
        sample_role_v80(1),
        sample_schedule_v80(),
    ];
    let result = run(VersionedSnapshot::V80(snapshot), 82).unwrap();
    let out = match result {
        VersionedSnapshot::V82(out) => out,
        _ => panic!("expected a version-82 snapshot"),
    };
    assert_eq!(out.len(), 2);
    match &out[0] {
        v82::StateUpdateKind::Cluster(c) => {
            assert_eq!(c.value.name, "prod".to_string());
            assert_eq!(c.value.config.sealed, false);
        }
        _ => panic!("expected the cluster first"),
    }
    assert!(matches!(out[1], v82::StateUpdateKind::Role(_)));
}

/// Running the chain with current == target is a no-op returning the
/// input snapshot unchanged.
#[test]
fn run_at_target_is_noop() {
    let snapshot = VersionedSnapshot::V81(vec![sample_role_v81(1), sample_schedule_v81(4)]);
    let expected = VersionedSnapshot::V81(vec![sample_role_v81(1), sample_schedule_v81(4)]);
    assert_eq!(run(snapshot, 81), Ok(expected));
}

/// A snapshot newer than the requested target is a downgrade attempt
/// and is rejected explicitly.
#[test]
fn downgrade_is_rejected() {
    let snapshot = VersionedSnapshot::V81(vec![]);
    assert_eq!(
        run(snapshot, 80),
        Err(MigrationError::UnsupportedVersion {
            current: 81,
            target: 80
        })
    );
}

/// A target beyond the newest registered step is a registry gap.
#[test]
fn target_beyond_registry_is_a_gap() {
    let snapshot = VersionedSnapshot::V80(vec![]);
    assert_eq!(
        run(snapshot, 83),
        Err(MigrationError::RegistryGap { from: 82, to: 83 })
    );
}

/// A key collision in the input snapshot aborts the upgrade with the
/// offending key.
#[test]
fn duplicate_key_is_a_structural_violation() {
    let snapshot = VersionedSnapshot::V80(vec![sample_role_v80(5), sample_role_v80(5)]);
    assert_eq!(
        run(snapshot, 81),
        Err(MigrationError::StructuralViolation {
            key: EntryKey::Role(NamespacedId::User(5))
        })
    );
}

/// The registered steps form a contiguous chain.
#[test]
fn registry_is_contiguous() {
    assert_eq!(registry(), vec![(80, 81), (81, 82)]);
}

/// The step emits exactly one update per cluster and nothing else.
#[test]
fn upgrade_emits_one_update_per_cluster() {
    let snapshot = vec![sample_role_v80(1), sample_cluster_v80(), sample_database_v80()];
    let actions = v80_to_v81::upgrade(&snapshot);
    assert_eq!(actions.len(), 1);
    match &actions[0] {
        MigrationAction::Update(old, new) => {
            assert!(matches!(old, v80::StateUpdateKind::Cluster(_)));
            assert!(matches!(new, v81::StateUpdateKind::Cluster(_)));
        }
        _ => panic!("expected an update action"),
    }
}

/// The deletion step emits exactly one delete per schedule.
#[test]
fn upgrade_emits_one_delete_per_schedule() {
    let snapshot = vec![
        sample_schedule_v81(4),
        sample_role_v81(1),
        sample_schedule_v81(6),
    ];
    let actions = v81_to_v82::upgrade(&snapshot);
    assert_eq!(actions.len(), 2);
    assert_eq!(
        actions[0],
        MigrationAction::Delete(sample_schedule_v81(4))
    );
    assert_eq!(
        actions[1],
        MigrationAction::Delete(sample_schedule_v81(6))
    );
}

/// The id helpers translate every namespace unchanged.
#[test]
fn id_helpers_translate_each_namespace() {
    assert_eq!(
        v80_to_v81::upgrade_cluster_id(v80::ClusterId::System(1)),
        v81::ClusterId::System(1)
    );
    assert_eq!(
        v80_to_v81::upgrade_cluster_id(v80::ClusterId::User(2)),
        v81::ClusterId::User(2)
    );
    assert_eq!(
        v80_to_v81::upgrade_role_id(v80::RoleId::Public),
        v81::RoleId::Public
    );
    assert_eq!(
        v80_to_v81::upgrade_role_id(v80::RoleId::Predefined(8)),
        v81::RoleId::Predefined(8)
    );
    let item = v80::MzAclItem {
        grantee: v80::RoleId::User(2),
        grantor: v80::RoleId::System(1),
        acl_mode: v80::AclMode { bitflags: 5 },
    };
    assert_eq!(
        v80_to_v81::upgrade_mz_acl_item(item),
        v81::MzAclItem {
            grantee: v81::RoleId::User(2),
            grantor: v81::RoleId::System(1),
            acl_mode: v81::AclMode { bitflags: 5 },
        }
    );
}

/// The applier appends inserted entries after the carried ones.
#[test]
fn apply_insert_appends() {
    let snapshot = vec![sample_role_v80(1)];
    let actions = vec![MigrationAction::Insert(sample_role_v81(2))];
    let out = apply(snapshot, actions).unwrap();
    assert_eq!(out, vec![sample_role_v81(1), sample_role_v81(2)]);
}

/// Inserting an entry whose key already exists fails.
#[test]
fn apply_insert_existing_key_fails() {
    let snapshot = vec![sample_role_v80(1)];
    let actions = vec![MigrationAction::Insert(sample_role_v81(1))];
    assert_eq!(
        apply(snapshot, actions),
        Err(MigrationError::StructuralViolation {
            key: EntryKey::Role(NamespacedId::User(1))
        })
    );
}

/// An update whose old key is absent from the snapshot fails.
#[test]
fn apply_update_missing_key_fails() {
    let snapshot: Vec<v80::StateUpdateKind> = vec![sample_database_v80()];
    let actions = vec![MigrationAction::Update(
        sample_role_v80(1),
        sample_role_v81(1),
    )];
    assert_eq!(
        apply(snapshot, actions),
        Err(MigrationError::StructuralViolation {
            key: EntryKey::Role(NamespacedId::User(1))
        })
    );
}

/// Two actions referencing the same entry fail on the second.
#[test]
fn apply_double_reference_fails() {
    let snapshot = vec![sample_role_v80(1)];
    let actions = vec![
        MigrationAction::Update(sample_role_v80(1), sample_role_v81(1)),
        MigrationAction::Delete(sample_role_v80(1)),
    ];
    assert_eq!(
        apply(snapshot, actions),
        Err(MigrationError::StructuralViolation {
            key: EntryKey::Role(NamespacedId::User(1))
        })
    );
}

/// An update replaces its entry in place, preserving the position of
/// untouched neighbours.
fn renamed_role() -> v81::StateUpdateKind {
    v81::StateUpdateKind::Role(v81::Role {
        key: v81::RoleKey {
            id: v81::RoleId::User(1),
        },
        value: v81::RoleValue {
            name: "renamed".to_string(),
        },
    })
}

/// An entry whose shape changed and that no action accounts for is
/// reported, not silently dropped or guessed at: a version-80 cluster
/// cannot be carried to version 81 structurally.
#[test]
fn apply_refuses_unaccounted_cluster() {
    let snapshot = vec![sample_cluster_v80()];
    let actions: Vec<MigrationAction<v80::StateUpdateKind, v81::StateUpdateKind>> = vec![];
    assert_eq!(
        apply(snapshot, actions),
        Err(MigrationError::StructuralViolation {
            key: EntryKey::Cluster(NamespacedId::User(7))
        })
    );
}

/// A key collision is caught before the second step of the chain too.
#[test]
fn duplicate_key_rejected_before_deletion_step() {
    let snapshot = VersionedSnapshot::V81(vec![sample_schedule_v81(4), sample_schedule_v81(4)]);
    assert_eq!(
        run(snapshot, 82),
        Err(MigrationError::StructuralViolation {
            key: EntryKey::Schedule(4)
        })
    );
}

#[test]
fn apply_update_replaces_in_place() {
    let snapshot = vec![sample_role_v80(1), sample_role_v80(2)];
    let actions = vec![MigrationAction::Update(sample_role_v80(1), renamed_role())];
    let out = apply(snapshot, actions).unwrap();
    assert_eq!(out, vec![renamed_role(), sample_role_v81(2)]);
}
