//! Instrumentation for mutual-exclusion and reader-writer locks: every lock
//! and every call site that takes a guard on it is tracked, with wait times,
//! hold durations, usage counts and queueing.
//!
//! The [`registry`] is the heart: a table of locks and of their guard call
//! sites, with one exactly specified step for each event in the life of a
//! guard. The [`tracker`] shares one registry between threads and tasks, the
//! [`lifecycle`] turns native guards into tracked ones, and [`std_sync`],
//! [`parking_lot_sync`] and [`tokio_sync`] wrap the native locks. What holds
//! of every run is stated and proved in [`laws`].

pub mod clock;
pub mod guard;
pub mod laws;
pub mod lifecycle;
pub mod location;
pub mod lock;
pub mod parking_lot_sync;
pub mod registry;
pub mod report;
pub mod stats;
pub mod std_sync;
pub mod tokio_sync;
pub mod tracker;

pub use guard::{GuardInfo, GuardKind};
pub use lifecycle::LockGuard;
pub use location::Location;
pub use lock::{LockInfo, LockKind};
pub use tracker::{clear_lock_infos, lock_snapshots, Tracker};
