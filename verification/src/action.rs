//! Migration actions, errors, and the per-version entry interface.

use vstd::prelude::*;

use crate::keys::EntryKey;

verus! {

/// A single edit to a snapshot, produced by an upgrade step.
///
/// `Old` is the entry type of the version being migrated away from,
/// `New` the entry type of the version being migrated to.
#[derive(PartialEq, Eq, Debug)]
pub enum MigrationAction<Old, New> {
    /// A brand-new entry with no prior counterpart; appended to the
    /// evolving snapshot.
    Insert(New),
    /// Replaces the unique existing entry whose key is the first
    /// component's key, in place.
    Update(Old, New),
    /// Removes the unique existing entry whose key is this entry's key.
    Delete(Old),
}

/// Why a migration was refused.  All of these are unrecoverable: a
/// half-migrated snapshot is not a valid state for any version, so the
/// caller must refuse to load the catalog rather than retry.
#[derive(Clone, Copy, PartialEq, Eq, Structural, Debug)]
pub enum MigrationError {
    /// An action referenced a key that is absent from, duplicated in, or
    /// already consumed by an earlier action of, the snapshot being
    /// transformed — or an untouched entry of a shape the next version
    /// cannot represent was left without an action.  A bug in the step.
    StructuralViolation { key: EntryKey },
    /// No upgrade step is registered for the adjacent version pair
    /// `(from, to)`.  A configuration bug in the chain.
    RegistryGap { from: u64, to: u64 },
    /// The snapshot's recorded version is ahead of the requested target
    /// (a downgrade attempt), which is deliberately rejected.
    UnsupportedVersion { current: u64, target: u64 },
}

/// One snapshot entry of some schema version: a keyed, typed value.
pub trait Entry: Sized {
    /// The entry's identity.
    spec fn key(&self) -> EntryKey;

    /// Computes the entry's identity.
    fn entry_key(&self) -> (k: EntryKey)
        ensures
            k == self.key(),
    ;
}

/// Structural reinterpretation of an untouched entry under the next
/// version's entry type.
///
/// The applier carries every entry not referenced by any action forward
/// through [`CarryForward::carry`].  The carry is a shape-preserving
/// cast, defined exactly where old and new shapes agree; an entry whose
/// shape changed (or whose kind was removed) yields `None`, which forces
/// the upgrade step to account for it with an explicit action — an
/// untouched such entry is reported rather than silently dropped or
/// guessed at.
pub trait CarryForward<Old: Entry>: Entry + Sized {
    /// What the cast yields, as a function of the old entry.
    spec fn carried(old: Old) -> Option<Self>;

    /// Performs the cast.
    fn carry(old: Old) -> (r: Option<Self>)
        ensures
            r == Self::carried(old),
    ;
}

} // verus!
