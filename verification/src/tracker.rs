//! The registry as threads and tasks share it: every step takes the
//! registry for itself for as long as the step lasts, and no longer.

use crate::clock::Clock;
use crate::guard::GuardKind;
use crate::location::Location;
use crate::lock::{LockInfo, LockKind, TrackError};
use crate::registry::{is_snapshot, registry_wf, Registry, RegistryView};
use vstd::prelude::*;
use vstd::rwlock::{RwLock, RwLockPredicate};

verus! {

/// What the shared registry satisfies whenever no step is under way.
pub struct WellFormed;

impl RwLockPredicate<Registry> for WellFormed {
    open spec fn inv(self, v: Registry) -> bool {
        v.wf()
    }
}

/// A registry that any number of threads and tasks may use at once, with the
/// clock that its timestamps come from.
pub struct Tracker {
    state: RwLock<Registry, WellFormed>,
    clock: Clock,
}

impl Tracker {
    /// A tracker that knows no lock; its clock starts now.
    pub fn new() -> Self {
        Tracker { state: RwLock::new(Registry::new(), Ghost(WellFormed)), clock: Clock::new() }
    }

    /// The current time on the tracker's clock, in nanoseconds.
    pub fn now(&self) -> u64 {
        self.clock.now()
    }

    /// Registers the creation of a lock of kind `kind` at `location`; this is
    /// meant to be called when creating wrapper objects for different kinds
    /// of locks. Returns the location under which the lock is known.
    ///
    /// A location that is known already is found under shared access; only
    /// the first registration at a location takes the registry for itself.
    pub fn register(&self, kind: LockKind, location: Location) -> (known: Location)
        ensures
            known@ == location@,
    {
        let reader = self.state.acquire_read();
        let found = match reader.borrow().lock(&location) {
            Some(lock) => Some(lock.location.clone()),
            None => None,
        };
        reader.release_read();
        match found {
            Some(known) => known,
            None => {
                let (mut registry, handle) = self.state.acquire_write();
                let known = registry.register(kind, location);
                handle.release_write(registry);
                known
            },
        }
    }

    /// Records a guard that was acquired without queueing after a wait of
    /// `wait`, and returns its id: what [`Registry::checked_acquire`] does on
    /// the registry as this step finds it, at the time that the clock shows.
    /// The only failures are an unknown lock and exhausted ids.
    pub fn acquire(&self, lock: &Location, kind: GuardKind, site: &Location, wait: u64) -> (res:
        Result<u64, TrackError>)
        ensures
            res is Err ==> res == Err::<u64, TrackError>(TrackError::UnknownLock) || res == Err::<
                u64,
                TrackError,
            >(TrackError::IdsExhausted),
    {
        let (mut registry, handle) = self.state.acquire_write();
        let now = self.clock.now();
        let res = registry.checked_acquire(lock, kind, site, wait, now);
        handle.release_write(registry);
        res
    }

    /// Records what an attempt that did not block came to. An attempt that
    /// got no guard records nothing and answers `None`; one that got its
    /// guard, after a wait of `wait`, is recorded as [`Tracker::acquire`]
    /// records it, and its id is returned.
    pub fn attempted(
        &self,
        acquired: bool,
        lock: &Location,
        kind: GuardKind,
        site: &Location,
        wait: u64,
    ) -> (res: Result<Option<u64>, TrackError>)
        ensures
            !acquired ==> res == Ok::<Option<u64>, TrackError>(None),
            acquired ==> !(res matches Ok(None)),
            res matches Err(e) ==> e == TrackError::UnknownLock || e == TrackError::IdsExhausted,
    {
        let (mut registry, handle) = self.state.acquire_write();
        let now = self.clock.now();
        let res = registry.attempted(acquired, lock, kind, site, wait, now);
        handle.release_write(registry);
        res
    }

    /// Records an acquisition that starts to wait now, and returns its id.
    /// The only failures are an unknown lock and exhausted ids.
    pub fn begin_wait(&self, lock: &Location, kind: GuardKind, site: &Location) -> (res: Result<
        u64,
        TrackError,
    >)
        ensures
            res is Err ==> res == Err::<u64, TrackError>(TrackError::UnknownLock) || res == Err::<
                u64,
                TrackError,
            >(TrackError::IdsExhausted),
    {
        let (mut registry, handle) = self.state.acquire_write();
        let now = self.clock.now();
        let res = registry.begin_wait(lock, kind, site, now);
        handle.release_write(registry);
        res
    }

    /// Records that the waiting acquisition `id` got its guard now, after a
    /// wait of `wait`. It never fails for exhausted ids or a guard that is
    /// not held.
    pub fn finish_wait(&self, lock: &Location, site: &Location, id: u64, wait: u64) -> (res: Result<
        (),
        TrackError,
    >)
        ensures
            res != Err::<(), TrackError>(TrackError::IdsExhausted),
            res != Err::<(), TrackError>(TrackError::NotActive),
    {
        let (mut registry, handle) = self.state.acquire_write();
        let now = self.clock.now();
        let res = registry.finish_wait(lock, site, id, wait, now);
        handle.release_write(registry);
        res
    }

    /// Records that the waiting acquisition `id` was given up. It never fails
    /// for exhausted ids or a guard that is not held.
    pub fn cancel_wait(&self, lock: &Location, site: &Location, id: u64) -> (res: Result<
        (),
        TrackError,
    >)
        ensures
            res != Err::<(), TrackError>(TrackError::IdsExhausted),
            res != Err::<(), TrackError>(TrackError::NotActive),
    {
        let (mut registry, handle) = self.state.acquire_write();
        let res = registry.cancel_wait(lock, site, id);
        handle.release_write(registry);
        res
    }

    /// Records that the held guard `id` is released now, and returns for how
    /// long it was held: what [`Registry::checked_release`] does on the
    /// registry as this step finds it, at the time that the clock shows. It
    /// never fails for exhausted ids or an acquisition that is not waiting.
    pub fn release(&self, lock: &Location, site: &Location, id: u64) -> (res: Result<
        u64,
        TrackError,
    >)
        ensures
            res != Err::<u64, TrackError>(TrackError::IdsExhausted),
            res != Err::<u64, TrackError>(TrackError::NotWaiting),
    {
        let (mut registry, handle) = self.state.acquire_write();
        let now = self.clock.now();
        let res = registry.checked_release(lock, site, id, now);
        handle.release_write(registry);
        res
    }

    /// Returns a vector containing snapshots of the data related to all the
    /// locks: a copy, which later steps do not change, of the locks of the
    /// registry as this step finds it. So the locks in it are distinct, and
    /// so are the call sites of each.
    pub fn lock_snapshots(&self) -> (copy: Vec<LockInfo>)
        ensures
            found_snapshot(copy@),
    {
        let handle = self.state.acquire_read();
        let ghost found = handle.view()@;
        let copy = handle.borrow().snapshots();
        handle.release_read();
        assert(registry_wf(found) && is_snapshot(found, copy@));
        copy
    }

    /// Forgets every lock.
    pub fn clear_lock_infos(&self) {
        let (mut registry, handle) = self.state.acquire_write();
        registry.clear();
        handle.release_write(registry);
    }
}

/// Returns a vector containing snapshots of the data related to all the locks
/// that `tracker` knows: a copy of the locks of its registry as this step
/// finds it.
pub fn lock_snapshots(tracker: &Tracker) -> (copy: Vec<LockInfo>)
    ensures
        found_snapshot(copy@),
{
    tracker.lock_snapshots()
}

/// Forgets every lock that `tracker` knows.
pub fn clear_lock_infos(tracker: &Tracker) {
    tracker.clear_lock_infos()
}

/// `copy` holds the locks of some well-formed registry, in order: of the one
/// that the step which made the copy found. Which registry a step of the
/// tracker finds depends on the steps that other threads took before it.
pub open spec fn found_snapshot(copy: Seq<LockInfo>) -> bool {
    exists|found: RegistryView| registry_wf(found) && #[trigger] is_snapshot(found, copy)
}

} // verus!
