//! The shared catalog-plus-status store: the single point where the
//! scanner publishes and readers take snapshots. One mutual-exclusion
//! guard around a value of this type (held by the embedding program)
//! makes each operation one critical section; every operation is pure
//! in-memory copying, never device work.

use vstd::prelude::*;
use crate::catalog::{Catalog, CATALOG_CAP};
use crate::entry::{EntryModel, NAME_CAP};
use crate::status::Status;

verus! {

/// A copy of the pair a reader observes: both fields taken from the
/// same store state.
pub struct Snapshot {
    pub status: Status,
    pub entries: Catalog,
}

/// The catalog and status as one unit, always read and written as the
/// pair produced by a single scan outcome.
pub struct SharedCatalog {
    catalog: Catalog,
    status: Status,
}

impl SharedCatalog {
    /// The published listing.
    pub closed spec fn spec_entries(self) -> Seq<EntryModel> {
        self.catalog@
    }

    /// The published health status.
    pub closed spec fn spec_status(self) -> Status {
        self.status
    }

    /// The listing stays within the catalog bounds.
    pub open spec fn wf(self) -> bool {
        &&& self.spec_entries().len() <= CATALOG_CAP
        &&& forall|i: int|
            0 <= i < self.spec_entries().len() ==> (#[trigger] self.spec_entries()[i]).name.len()
                <= NAME_CAP
    }

    /// The store of process start: empty listing, `Initializing` status.
    pub fn new() -> (s: SharedCatalog)
        ensures
            s.wf(),
            s.spec_entries() == Seq::<EntryModel>::empty(),
            s.spec_status() == Status::Initializing,
    {
        SharedCatalog { catalog: Catalog::new(), status: Status::Initializing }
    }

    /// Replace the whole listing; the status is untouched.
    pub fn replace_all(&mut self, entries: Catalog)
        requires
            entries.wf(),
        ensures
            final(self).wf(),
            final(self).spec_entries() == entries@,
            final(self).spec_status() == old(self).spec_status(),
    {
        self.catalog = entries;
    }

    /// Set the status; the listing is untouched.
    pub fn set_status(&mut self, status: Status)
        requires
            old(self).wf(),
        ensures
            final(self).wf(),
            final(self).spec_entries() == old(self).spec_entries(),
            final(self).spec_status() == status,
    {
        self.status = status;
    }

    /// Copy the current status and listing as one pair. Both fields of
    /// the snapshot come from the same state: a reader never sees the
    /// status of one scan outcome beside the listing of another.
    pub fn snapshot(&self) -> (s: Snapshot)
        ensures
            s.status == self.spec_status(),
            s.entries@ == self.spec_entries(),
    {
        Snapshot { status: self.status, entries: self.catalog.duplicate() }
    }
}

} // verus!
