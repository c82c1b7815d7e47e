//! Bus ownership and recovery: one scan attempt over the caller's
//! bus-handle and select-line pair, with the guarantee that the pair
//! comes back unchanged on every success and failure path.
//!
//! Each driver layer takes ownership of the layer below it, exactly as
//! the storage stack does: the exclusive bus device holds the pair, the
//! card driver holds the device, the volume driver holds the card. A
//! failure mid-stack is unwound layer by layer; the types make it
//! impossible to drop the pair on any path.

use vstd::prelude::*;
use crate::catalog::{Catalog, build_catalog, spec_catalog_of, spec_items_view};
use crate::entry::{DirItem, EntryModel};
use crate::status::ScanError;

verus! {

/// The exclusive pairing of the bus handle with the card's select line.
pub struct BusDevice<B, C> {
    bus: B,
    cs: C,
}

impl<B, C> BusDevice<B, C> {
    pub closed spec fn spec_bus(self) -> B {
        self.bus
    }

    pub closed spec fn spec_cs(self) -> C {
        self.cs
    }

    /// Take exclusive ownership of the pair for one scan attempt.
    pub fn acquire(bus: B, cs: C) -> (d: Self)
        ensures
            d.spec_bus() == bus,
            d.spec_cs() == cs,
    {
        BusDevice { bus, cs }
    }

    /// Hand the pair back, unchanged.
    pub fn release(self) -> (r: (B, C))
        ensures
            r.0 == self.spec_bus(),
            r.1 == self.spec_cs(),
    {
        (self.bus, self.cs)
    }
}

/// The card driver layer: owns the bus device while the card is driven.
pub struct CardDriver<B, C> {
    dev: BusDevice<B, C>,
}

impl<B, C> CardDriver<B, C> {
    pub closed spec fn spec_bus(self) -> B {
        self.dev.spec_bus()
    }

    pub closed spec fn spec_cs(self) -> C {
        self.dev.spec_cs()
    }

    /// Bring the card driver up over the bus device.
    pub fn start(dev: BusDevice<B, C>) -> (card: Self)
        ensures
            card.spec_bus() == dev.spec_bus(),
            card.spec_cs() == dev.spec_cs(),
    {
        CardDriver { dev }
    }

    /// Tear the card driver down, recovering the bus device it owned.
    pub fn stop(self) -> (dev: BusDevice<B, C>)
        ensures
            dev.spec_bus() == self.spec_bus(),
            dev.spec_cs() == self.spec_cs(),
    {
        self.dev
    }
}

/// The volume-management layer: owns the card driver while a volume may
/// be mounted.
pub struct VolumeDriver<B, C> {
    card: CardDriver<B, C>,
}

impl<B, C> VolumeDriver<B, C> {
    pub closed spec fn spec_bus(self) -> B {
        self.card.spec_bus()
    }

    pub closed spec fn spec_cs(self) -> C {
        self.card.spec_cs()
    }

    /// Bring volume management up over the card driver.
    pub fn start(card: CardDriver<B, C>) -> (vol: Self)
        ensures
            vol.spec_bus() == card.spec_bus(),
            vol.spec_cs() == card.spec_cs(),
    {
        VolumeDriver { card }
    }

    /// Tear volume management down, recovering the card driver it owned.
    pub fn stop(self) -> (card: CardDriver<B, C>)
        ensures
            card.spec_bus() == self.spec_bus(),
            card.spec_cs() == self.spec_cs(),
    {
        self.card
    }
}

/// What the storage driver reported during one attempt, stage by stage:
/// the presence probe, the volume mount, the root-directory open, and
/// the enumerated slots. The later reports are meaningful only when the
/// earlier stages succeeded.
pub struct DriverReport {
    pub probe_ok: bool,
    pub mount_ok: bool,
    pub root_ok: bool,
    pub items: Vec<DirItem>,
}

/// The first stage that failed, if any: the probe, then the mount, then
/// the root-directory open. Enumeration never fails a scan.
pub open spec fn spec_stage_failure(probe_ok: bool, mount_ok: bool, root_ok: bool) -> Option<
    ScanError,
> {
    if !probe_ok {
        Some(ScanError::DeviceAbsent)
    } else if !mount_ok {
        Some(ScanError::VolumeUnreadable)
    } else if !root_ok {
        Some(ScanError::DirectoryUnreadable)
    } else {
        None
    }
}

/// How one scan attempt ended: a full listing, or the stage that failed.
pub enum ScanOutcome {
    Scanned(Catalog),
    Failed(ScanError),
}

impl ScanOutcome {
    pub open spec fn wf(self) -> bool {
        self matches ScanOutcome::Scanned(c) ==> c.wf()
    }
}

impl View for ScanOutcome {
    type V = Result<Seq<EntryModel>, ScanError>;

    open spec fn view(&self) -> Result<Seq<EntryModel>, ScanError> {
        match self {
            ScanOutcome::Scanned(c) => Ok(c@),
            ScanOutcome::Failed(e) => Err(*e),
        }
    }
}

/// What a scan attempt hands back: the original resource pair on every
/// path, beside the outcome. No path can consume the pair.
pub struct ScanReturn<B, C> {
    pub bus: B,
    pub cs: C,
    pub outcome: ScanOutcome,
}

/// One scan attempt. The pair is owned for the duration and returned
/// unchanged whether the attempt succeeds or fails at any stage; a
/// failure is unwound layer by layer through whatever driver layers had
/// been brought up. On success the outcome lists exactly what the
/// enumeration decoded, in order, truncated to the catalog bound.
pub fn run_scan<B, C>(bus: B, cs: C, report: DriverReport) -> (r: ScanReturn<B, C>)
    ensures
        r.bus == bus,
        r.cs == cs,
        r.outcome.wf(),
        spec_stage_failure(report.probe_ok, report.mount_ok, report.root_ok) matches Some(e)
            ==> r.outcome == ScanOutcome::Failed(e),
        spec_stage_failure(report.probe_ok, report.mount_ok, report.root_ok) is None ==> (
        r.outcome matches ScanOutcome::Scanned(c) && c@ == spec_catalog_of(
            spec_items_view(report.items@),
        )),
{
    let DriverReport { probe_ok, mount_ok, root_ok, items } = report;
    let dev = BusDevice::acquire(bus, cs);
    let card = CardDriver::start(dev);
    if !probe_ok {
        // The presence probe failed before any higher layer existed.
        let dev = card.stop();
        let (b, c) = dev.release();
        return ScanReturn { bus: b, cs: c, outcome: ScanOutcome::Failed(ScanError::DeviceAbsent) };
    }
    let vol = VolumeDriver::start(card);
    if !mount_ok {
        let card = vol.stop();
        let dev = card.stop();
        let (b, c) = dev.release();
        return ScanReturn {
            bus: b,
            cs: c,
            outcome: ScanOutcome::Failed(ScanError::VolumeUnreadable),
        };
    }
    if !root_ok {
        let card = vol.stop();
        let dev = card.stop();
        let (b, c) = dev.release();
        return ScanReturn {
            bus: b,
            cs: c,
            outcome: ScanOutcome::Failed(ScanError::DirectoryUnreadable),
        };
    }
    let catalog = build_catalog(&items);
    let card = vol.stop();
    let dev = card.stop();
    let (b, c) = dev.release();
    ScanReturn { bus: b, cs: c, outcome: ScanOutcome::Scanned(catalog) }
}

} // verus!
