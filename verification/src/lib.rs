//! Background storage-scanning subsystem: a periodic scanner mounts a
//! FAT-formatted card, enumerates its root directory, and publishes the
//! listing together with a health status to concurrent readers.
//!
//! The crate verifies the parts with real invariants: the bounded catalog
//! and its entry model, the bus-ownership protocol that hands the SPI
//! bus and select line back on every success or failure path, the
//! scanner's publication rules, and the shared catalog-plus-status store.

pub mod catalog;
pub mod entry;
pub mod protocol;
pub mod request;
pub mod scanner;
pub mod sizefmt;
pub mod status;
pub mod store;
