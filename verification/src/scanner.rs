//! The scanner's decisions: how one scan attempt's outcome becomes the
//! published catalog-and-status pair. The embedding program runs the
//! periodic loop (settle once, then scan, publish, sleep, repeat) and
//! performs the device work; every decision it publishes goes through
//! `scan_cycle` or `apply_outcome`.

use vstd::prelude::*;
use crate::catalog::{spec_catalog_of, spec_items_view};
use crate::entry::EntryModel;
use crate::protocol::{DriverReport, ScanOutcome, ScanReturn, run_scan, spec_stage_failure};
use crate::status::{ScanError, Status};
use crate::store::SharedCatalog;

verus! {

/// Seconds the scanner waits once at startup before the first attempt.
pub const SETTLE_DELAY_SECS: u64 = 3;

/// Seconds between the end of one scan attempt and the next.
pub const SCAN_INTERVAL_SECS: u64 = 15;

/// The pair one publication leaves behind: a success replaces the
/// listing wholesale and reports `Ready`; a failure reports the stage's
/// error and leaves the listing exactly as it was.
pub open spec fn spec_publish(
    entries: Seq<EntryModel>,
    outcome: Result<Seq<EntryModel>, ScanError>,
) -> (Seq<EntryModel>, Status) {
    match outcome {
        Ok(listing) => (listing, Status::Ready),
        Err(e) => (entries, Status::Error(e)),
    }
}

/// Publish one scan outcome to the store: both fields of the pair are
/// set by the same outcome, in what the embedding program makes one
/// critical section.
pub fn apply_outcome(store: &mut SharedCatalog, outcome: ScanOutcome)
    requires
        old(store).wf(),
        outcome.wf(),
    ensures
        final(store).wf(),
        (final(store).spec_entries(), final(store).spec_status()) == spec_publish(
            old(store).spec_entries(),
            outcome@,
        ),
{
    match outcome {
        ScanOutcome::Scanned(listing) => {
            store.replace_all(listing);
            store.set_status(Status::Ready);
        },
        ScanOutcome::Failed(e) => {
            store.set_status(Status::Error(e));
        },
    }
}

/// One full scan cycle over the store and the resource pair: run the
/// attempt, publish its outcome, hand the pair back unchanged. On
/// success the published listing is exactly the enumeration, decoded in
/// order and truncated to the catalog bound, under `Ready`; on failure
/// the listing is untouched and the status names the failed stage.
pub fn scan_cycle<B, C>(
    store: &mut SharedCatalog,
    bus: B,
    cs: C,
    report: DriverReport,
) -> (r: (B, C))
    requires
        old(store).wf(),
    ensures
        final(store).wf(),
        r.0 == bus,
        r.1 == cs,
        spec_stage_failure(report.probe_ok, report.mount_ok, report.root_ok) matches Some(e) ==> (
        final(store).spec_status() == Status::Error(e) && final(store).spec_entries() == old(
            store,
        ).spec_entries()),
        spec_stage_failure(report.probe_ok, report.mount_ok, report.root_ok) is None ==> (
        final(store).spec_status() == Status::Ready && final(store).spec_entries()
            == spec_catalog_of(spec_items_view(report.items@))),
{
    let ScanReturn { bus, cs, outcome } = run_scan(bus, cs, report);
    apply_outcome(store, outcome);
    (bus, cs)
}

/// The pair after a whole history of publications, starting from the
/// empty listing under `Initializing`.
pub open spec fn spec_history(outcomes: Seq<Result<Seq<EntryModel>, ScanError>>) -> (
    Seq<EntryModel>,
    Status,
)
    decreases outcomes.len(),
{
    if outcomes.len() == 0 {
        (Seq::empty(), Status::Initializing)
    } else {
        spec_publish(spec_history(outcomes.drop_last()).0, outcomes.last())
    }
}

/// The listing of the most recent successful scan in a history, or the
/// empty listing if none has succeeded yet.
pub open spec fn spec_last_success(outcomes: Seq<Result<Seq<EntryModel>, ScanError>>) -> Seq<
    EntryModel,
>
    decreases outcomes.len(),
{
    if outcomes.len() == 0 {
        Seq::empty()
    } else {
        match outcomes.last() {
            Ok(listing) => listing,
            Err(_) => spec_last_success(outcomes.drop_last()),
        }
    }
}

/// The published pair never mixes two scan outcomes: after any history,
/// the status reflects exactly the last outcome (`Initializing` before
/// the first), and the listing is exactly the one of the most recent
/// success. In particular `Ready` only ever stands beside the listing
/// that the same, latest scan produced, and a failure changes the status
/// alone.
pub proof fn lemma_history_unmixed(outcomes: Seq<Result<Seq<EntryModel>, ScanError>>)
    ensures
        spec_history(outcomes).0 == spec_last_success(outcomes),
        outcomes.len() == 0 ==> spec_history(outcomes).1 == Status::Initializing,
        outcomes.len() > 0 ==> match outcomes.last() {
            Ok(_) => spec_history(outcomes).1 == Status::Ready,
            Err(e) => spec_history(outcomes).1 == Status::Error(e),
        },
    decreases outcomes.len(),
{
    if outcomes.len() > 0 {
        lemma_history_unmixed(outcomes.drop_last());
    }
}

} // verus!
