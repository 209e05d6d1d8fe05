//! Catalog schema migration framework.
//!
//! A durable catalog is persisted as a versioned snapshot: an ordered
//! sequence of typed entries (clusters, roles, databases, schedules).
//! Every release may change the shape of those entries.  This crate
//! provides the machinery that upgrades a snapshot written at one schema
//! version to the next: per-version object models, a migration action
//! type, a generic snapshot applier, per-version upgrade steps, and a
//! chain runner that walks the steps in strictly increasing order.

pub mod action;
pub mod apply;
pub mod keys;
pub mod objects_v80;
pub mod objects_v81;
pub mod objects_v82;
pub mod runner;
pub mod v80_to_v81;
pub mod v81_to_v82;
