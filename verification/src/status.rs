//! Health status of the storage subsystem and the fixed set of
//! diagnostic strings a failed scan publishes.

use vstd::prelude::*;

verus! {

/// Why a scan attempt failed, one variant per fallible stage.
#[derive(Clone, Copy, PartialEq, Eq, Structural, Debug)]
pub enum ScanError {
    /// The presence probe found no card.
    DeviceAbsent,
    /// A card answered, but no FAT volume could be mounted.
    VolumeUnreadable,
    /// The volume mounted, but its root directory would not open.
    DirectoryUnreadable,
}

impl ScanError {
    /// The diagnostic string a reader sees for this failure.
    pub open spec fn spec_message(self) -> Seq<char> {
        match self {
            ScanError::DeviceAbsent => "No SD card detected"@,
            ScanError::VolumeUnreadable => "Failed to open volume (format as FAT32)"@,
            ScanError::DirectoryUnreadable => "Failed to open root directory"@,
        }
    }

    pub fn message(&self) -> (m: &'static str)
        ensures
            m@ == self.spec_message(),
    {
        match self {
            ScanError::DeviceAbsent => "No SD card detected",
            ScanError::VolumeUnreadable => "Failed to open volume (format as FAT32)",
            ScanError::DirectoryUnreadable => "Failed to open root directory",
        }
    }
}

/// Current health of the storage subsystem, published beside the catalog.
#[derive(Clone, Copy, PartialEq, Eq, Structural, Debug)]
pub enum Status {
    /// No scan has completed yet since startup.
    Initializing,
    /// The last scan succeeded and the catalog reflects it.
    Ready,
    /// The last scan failed at the recorded stage; the catalog is the
    /// listing from the last success, kept deliberately.
    Error(ScanError),
}

impl Status {
    /// The string a consumer renders for this status.
    pub open spec fn spec_message(self) -> Seq<char> {
        match self {
            Status::Initializing => "Initializing..."@,
            Status::Ready => "Ready"@,
            Status::Error(e) => e.spec_message(),
        }
    }

    pub fn message(&self) -> (m: &'static str)
        ensures
            m@ == self.spec_message(),
    {
        match self {
            Status::Initializing => "Initializing...",
            Status::Ready => "Ready",
            Status::Error(e) => e.message(),
        }
    }
}

} // verus!
