use sdscan::entry::{DirItem, RawEntry};
use sdscan::protocol::{DriverReport, ScanOutcome, ScanReturn, run_scan};
use sdscan::scanner::scan_cycle;
use sdscan::status::{ScanError, Status};
use sdscan::store::SharedCatalog;

fn raw(name: &[u8], size: u32, is_dir: bool) -> RawEntry {
    RawEntry { name: name.to_vec(), size, is_dir }
}

fn decoded(name: &[u8], size: u32, is_dir: bool) -> DirItem {
    DirItem::Decoded(raw(name, size, is_dir))
}

fn report_ok(items: Vec<DirItem>) -> DriverReport {
    DriverReport { probe_ok: true, mount_ok: true, root_ok: true, items }
}

#[test]
fn ownership_roundtrip_through_all_failure_stages() {
    // One failure per stage, then a success, all over the same pair:
    // after every attempt the returned pair must be the original one,
    // immediately reusable for the next attempt.
    let mut store = SharedCatalog::new();
    let mut bus: u32 = 0xB05;
    let mut cs: u8 = 5;

    let failures = [
        (false, true, true, ScanError::DeviceAbsent),
        (true, false, true, ScanError::VolumeUnreadable),
        (true, true, false, ScanError::DirectoryUnreadable),
    ];
    for (probe_ok, mount_ok, root_ok, expected) in failures {
        let report = DriverReport { probe_ok, mount_ok, root_ok, items: Vec::new() };
        let (b, c) = scan_cycle(&mut store, bus, cs, report);
        assert_eq!(b, 0xB05);
        assert_eq!(c, 5);
        assert_eq!(store.snapshot().status, Status::Error(expected));
        bus = b;
        cs = c;
    }

    let items = vec![decoded(b"LOG.TXT", 10, false)];
    let (b, c) = scan_cycle(&mut store, bus, cs, report_ok(items));
    assert_eq!(b, 0xB05);
    assert_eq!(c, 5);
    let snap = store.snapshot();
    assert_eq!(snap.status, Status::Ready);
    assert_eq!(snap.entries.len(), 1);
    assert_eq!(snap.entries.get(0).name, b"LOG.TXT".to_vec());
}

#[test]
fn run_scan_returns_pair_on_success() {
    let ScanReturn { bus, cs, outcome } = run_scan(17u64, 3u16, report_ok(Vec::new()));
    assert_eq!(bus, 17u64);
    assert_eq!(cs, 3u16);
    assert!(matches!(outcome, ScanOutcome::Scanned(_)));
}

#[test]
fn run_scan_reports_first_failing_stage() {
    // The probe outranks the mount, the mount outranks the root open.
    let r = run_scan(0u8, 0u8, DriverReport {
        probe_ok: false,
        mount_ok: false,
        root_ok: false,
        items: Vec::new(),
    });
    assert!(matches!(r.outcome, ScanOutcome::Failed(ScanError::DeviceAbsent)));

    let r = run_scan(0u8, 0u8, DriverReport {
        probe_ok: true,
        mount_ok: false,
        root_ok: false,
        items: Vec::new(),
    });
    assert!(matches!(r.outcome, ScanOutcome::Failed(ScanError::VolumeUnreadable)));
}

#[test]
fn unformatted_card_reports_volume_error_and_keeps_catalog() {
    // A card that answers the probe but mounts no volume: the status
    // names the mount failure, the catalog stays as it was (empty on
    // first boot).
    let mut store = SharedCatalog::new();
    let report = DriverReport { probe_ok: true, mount_ok: false, root_ok: true, items: Vec::new() };
    let _ = scan_cycle(&mut store, 0u8, 0u8, report);
    let snap = store.snapshot();
    assert_eq!(snap.status.message(), "Failed to open volume (format as FAT32)");
    assert_eq!(snap.entries.len(), 0);
}

#[test]
fn five_files_and_a_directory_are_listed_with_flags() {
    let mut store = SharedCatalog::new();
    let items = vec![
        decoded(b"A.TXT", 1, false),
        decoded(b"B.TXT", 2, false),
        decoded(b"C.TXT", 3, false),
        decoded(b"D.TXT", 4, false),
        decoded(b"E.TXT", 5, false),
        decoded(b"MUSIC", 0, true),
    ];
    let _ = scan_cycle(&mut store, 0u8, 0u8, report_ok(items));
    let snap = store.snapshot();
    assert_eq!(snap.status.message(), "Ready");
    assert_eq!(snap.entries.len(), 6);
    for i in 0..5usize {
        assert!(!snap.entries.get(i).is_dir);
    }
    assert!(snap.entries.get(5).is_dir);
    assert_eq!(snap.entries.get(5).name, b"MUSIC".to_vec());
    assert_eq!(snap.entries.get(2).size, 3);
}

#[test]
fn forty_entries_keep_exactly_the_first_thirty_two() {
    let mut store = SharedCatalog::new();
    let mut items: Vec<DirItem> = Vec::new();
    for i in 0..40u32 {
        let name = format!("F{:03}.BIN", i);
        items.push(decoded(name.as_bytes(), i, false));
    }
    let _ = scan_cycle(&mut store, 0u8, 0u8, report_ok(items));
    let snap = store.snapshot();
    // The excess is dropped silently: the scan still counts as a success.
    assert_eq!(snap.status, Status::Ready);
    assert_eq!(snap.entries.len(), 32);
    for i in 0..32usize {
        let expected = format!("F{:03}.BIN", i);
        assert_eq!(snap.entries.get(i).name, expected.as_bytes().to_vec());
        assert_eq!(snap.entries.get(i).size, i as u32);
    }
}

#[test]
fn card_removal_keeps_last_good_listing() {
    // A successful scan, then the card is pulled: the status turns to
    // the probe failure while the listing of the last success stays.
    let mut store = SharedCatalog::new();
    let items = vec![decoded(b"KEEP.ME", 42, false)];
    let _ = scan_cycle(&mut store, 0u8, 0u8, report_ok(items));
    assert_eq!(store.snapshot().status, Status::Ready);

    let gone = DriverReport { probe_ok: false, mount_ok: true, root_ok: true, items: Vec::new() };
    let _ = scan_cycle(&mut store, 0u8, 0u8, gone);
    let snap = store.snapshot();
    assert_eq!(snap.status.message(), "No SD card detected");
    assert_eq!(snap.entries.len(), 1);
    assert_eq!(snap.entries.get(0).name, b"KEEP.ME".to_vec());
    assert_eq!(snap.entries.get(0).size, 42);
}

#[test]
fn undecodable_entries_are_skipped_without_failing_the_scan() {
    let mut store = SharedCatalog::new();
    let items = vec![
        decoded(b"GOOD.ONE", 1, false),
        DirItem::Undecodable,
        decoded(b"GOOD.TWO", 2, false),
        DirItem::Undecodable,
    ];
    let _ = scan_cycle(&mut store, 0u8, 0u8, report_ok(items));
    let snap = store.snapshot();
    assert_eq!(snap.status, Status::Ready);
    assert_eq!(snap.entries.len(), 2);
    assert_eq!(snap.entries.get(0).name, b"GOOD.ONE".to_vec());
    assert_eq!(snap.entries.get(1).name, b"GOOD.TWO".to_vec());
}

#[test]
fn snapshot_is_a_copy_not_a_window() {
    // A snapshot taken before a publication keeps showing the old pair.
    let mut store = SharedCatalog::new();
    let before = store.snapshot();
    let items = vec![decoded(b"NEW.TXT", 9, false)];
    let _ = scan_cycle(&mut store, 0u8, 0u8, report_ok(items));
    assert_eq!(before.status, Status::Initializing);
    assert_eq!(before.entries.len(), 0);
    let after = store.snapshot();
    assert_eq!(after.status, Status::Ready);
    assert_eq!(after.entries.len(), 1);
}
