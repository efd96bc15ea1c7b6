//! Tracked versions of the standard library's locks: what of them does not
//! block. A blocking acquisition is made of these steps around the native
//! call that blocks.

use crate::guard::GuardKind;
use crate::lifecycle::{
    begin_acquisition, settle_attempt, AcquireError, Attempt, Begun, LockGuard, TryAcquireError,
};
use crate::location::{Location, LocationView};
use crate::lock::{LockKind, TrackError};
use crate::tracker::Tracker;
use std::sync::{MutexGuard, PoisonError, RwLockReadGuard, RwLockWriteGuard, TryLockError};
use vstd::prelude::*;

verus! {

/// `std::sync::Mutex`, opaque.
#[verifier::external_type_specification]
#[verifier::external_body]
#[verifier::reject_recursive_types(T)]
pub struct ExMutex<T: ?Sized>(std::sync::Mutex<T>);

/// `std::sync::MutexGuard`, opaque.
#[verifier::external_type_specification]
#[verifier::external_body]
#[verifier::reject_recursive_types(T)]
pub struct ExMutexGuard<'a, T: ?Sized + 'a>(MutexGuard<'a, T>);

/// `std::sync::RwLock`, opaque.
#[verifier::external_type_specification]
#[verifier::external_body]
#[verifier::reject_recursive_types(T)]
pub struct ExRwLock<T: ?Sized>(std::sync::RwLock<T>);

/// `std::sync::RwLockReadGuard`, opaque.
#[verifier::external_type_specification]
#[verifier::external_body]
#[verifier::reject_recursive_types(T)]
pub struct ExRwLockReadGuard<'a, T: ?Sized>(RwLockReadGuard<'a, T>);

/// `std::sync::RwLockWriteGuard`, opaque.
#[verifier::external_type_specification]
#[verifier::external_body]
#[verifier::reject_recursive_types(T)]
pub struct ExRwLockWriteGuard<'a, T: ?Sized + 'a>(RwLockWriteGuard<'a, T>);

/// `std::sync::PoisonError`: the failure of a lock whose holder panicked, opaque.
#[verifier::external_type_specification]
#[verifier::external_body]
#[verifier::reject_recursive_types(T)]
pub struct ExPoisonError<T>(PoisonError<T>);

/// `std::sync::Mutex::new`: a mutex around `item`. Nothing is claimed of it.
#[verifier::external_body]
fn native_mutex<T>(item: T) -> std::sync::Mutex<T> {
    std::sync::Mutex::new(item)
}

/// `std::sync::Mutex::try_lock`, with its three answers told apart. Which of
/// them comes depends on the other threads.
#[verifier::external_body]
fn native_try_lock<'a, T>(lock: &'a std::sync::Mutex<T>) -> Attempt<
    MutexGuard<'a, T>,
    PoisonError<MutexGuard<'a, T>>,
> {
    match lock.try_lock() {
        Ok(guard) => Attempt::Acquired(guard),
        Err(TryLockError::WouldBlock) => Attempt::WouldBlock,
        Err(TryLockError::Poisoned(failure)) => Attempt::Failed(failure),
    }
}

/// `std::sync::RwLock::new`: a reader-writer lock around `item`. Nothing is
/// claimed of it.
#[verifier::external_body]
fn native_rwlock<T>(item: T) -> std::sync::RwLock<T> {
    std::sync::RwLock::new(item)
}

/// `std::sync::RwLock::try_read`, with its three answers told apart. Which
/// of them comes depends on the other threads.
#[verifier::external_body]
fn native_try_read<'a, T>(lock: &'a std::sync::RwLock<T>) -> Attempt<
    RwLockReadGuard<'a, T>,
    PoisonError<RwLockReadGuard<'a, T>>,
> {
    match lock.try_read() {
        Ok(guard) => Attempt::Acquired(guard),
        Err(TryLockError::WouldBlock) => Attempt::WouldBlock,
        Err(TryLockError::Poisoned(failure)) => Attempt::Failed(failure),
    }
}

/// `std::sync::RwLock::try_write`, with its three answers told apart. Which
/// of them comes depends on the other threads.
#[verifier::external_body]
fn native_try_write<'a, T>(lock: &'a std::sync::RwLock<T>) -> Attempt<
    RwLockWriteGuard<'a, T>,
    PoisonError<RwLockWriteGuard<'a, T>>,
> {
    match lock.try_write() {
        Ok(guard) => Attempt::Acquired(guard),
        Err(TryLockError::WouldBlock) => Attempt::WouldBlock,
        Err(TryLockError::Poisoned(failure)) => Attempt::Failed(failure),
    }
}

/// A mutex of the standard library whose guards are tracked.
#[verifier::reject_recursive_types(T)]
pub struct Mutex<'t, T> {
    lock: std::sync::Mutex<T>,
    location: Location,
    tracker: &'t Tracker,
}

impl<'t, T> Mutex<'t, T> {
    /// Where the mutex was created.
    pub closed spec fn site(&self) -> LocationView {
        self.location@
    }

    /// The native mutex that this mutex wraps.
    pub closed spec fn spec_native(&self) -> std::sync::Mutex<T> {
        self.lock
    }

    /// A mutex around `item`, created at `site` and registered with
    /// `tracker`.
    pub fn new(item: T, tracker: &'t Tracker, site: Location) -> (m: Self)
        ensures
            m.site() == site@,
    {
        Mutex {
            lock: native_mutex(item),
            location: tracker.register(LockKind::Mutex, site),
            tracker,
        }
    }

    /// Where the mutex was created.
    pub fn location(&self) -> (l: &Location)
        ensures
            l@ == self.site(),
    {
        &self.location
    }

    /// The native mutex, for the code that blocks on it.
    pub fn native(&self) -> (native: &std::sync::Mutex<T>)
        ensures
            *native == self.spec_native(),
    {
        &self.lock
    }

    /// Begins to acquire the mutex for the call site `site`, in the one step that
    /// does not block: where the lock is free, the guard comes back,
    /// recorded; where it is held, the acquisition is queued, and the native
    /// call that blocks is left to the caller, whose answer goes to
    /// `WaitGuard::settle`.
    pub fn lock(&self, site: Location) -> (res: Begun<
        MutexGuard<'_, T>,
        PoisonError<MutexGuard<'_, T>>,
    >)
        ensures
            match res {
                Begun::Acquired(g) => g.lock_site() == self.site() && g.guard_site() == site@,
                Begun::Waiting(w) => {
                    &&& w.spec_kind() == GuardKind::Lock
                    &&& w.lock_site() == self.site()
                    &&& w.guard_site() == site@
                },
                Begun::Failed(AcquireError::Tracking(e)) => e == TrackError::UnknownLock || e
                    == TrackError::IdsExhausted,
                Begun::Failed(AcquireError::Native(_)) => true,
            },
    {
        let started = self.tracker.now();
        begin_acquisition(
            native_try_lock(&self.lock),
            GuardKind::Lock,
            &self.location,
            site,
            started,
            self.tracker,
        )
    }

    /// Attempts to acquire the mutex for the call site `site` without
    /// blocking. A guard that comes back belongs to this mutex and to
    /// `site`.
    pub fn try_lock(&self, site: Location) -> (res: Result<
        LockGuard<MutexGuard<'_, T>>,
        TryAcquireError<PoisonError<MutexGuard<'_, T>>>,
    >)
        ensures
            res matches Ok(g) ==> g.lock_site() == self.site() && g.guard_site() == site@,
            res matches Err(TryAcquireError::Tracking(e)) ==> e == TrackError::UnknownLock || e
                == TrackError::IdsExhausted,
    {
        let started = self.tracker.now();
        settle_attempt(
            native_try_lock(&self.lock),
            GuardKind::Lock,
            &self.location,
            site,
            started,
            self.tracker,
        )
    }
}

/// A reader-writer lock of the standard library whose guards are tracked.
#[verifier::reject_recursive_types(T)]
pub struct RwLock<'t, T> {
    lock: std::sync::RwLock<T>,
    location: Location,
    tracker: &'t Tracker,
}

impl<'t, T> RwLock<'t, T> {
    /// Where the lock was created.
    pub closed spec fn site(&self) -> LocationView {
        self.location@
    }

    /// The native lock that this lock wraps.
    pub closed spec fn spec_native(&self) -> std::sync::RwLock<T> {
        self.lock
    }

    /// A reader-writer lock around `item`, created at `site` and registered
    /// with `tracker`.
    pub fn new(item: T, tracker: &'t Tracker, site: Location) -> (l: Self)
        ensures
            l.site() == site@,
    {
        RwLock {
            lock: native_rwlock(item),
            location: tracker.register(LockKind::RwLock, site),
            tracker,
        }
    }

    /// Where the lock was created.
    pub fn location(&self) -> (l: &Location)
        ensures
            l@ == self.site(),
    {
        &self.location
    }

    /// The native lock, for the code that blocks on it.
    pub fn native(&self) -> (native: &std::sync::RwLock<T>)
        ensures
            *native == self.spec_native(),
    {
        &self.lock
    }

    /// Begins to acquire shared access for the call site `site`, in the one step that
    /// does not block: where the lock is free, the guard comes back,
    /// recorded; where it is held, the acquisition is queued, and the native
    /// call that blocks is left to the caller, whose answer goes to
    /// `WaitGuard::settle`.
    pub fn read(&self, site: Location) -> (res: Begun<
        RwLockReadGuard<'_, T>,
        PoisonError<RwLockReadGuard<'_, T>>,
    >)
        ensures
            match res {
                Begun::Acquired(g) => g.lock_site() == self.site() && g.guard_site() == site@,
                Begun::Waiting(w) => {
                    &&& w.spec_kind() == GuardKind::Read
                    &&& w.lock_site() == self.site()
                    &&& w.guard_site() == site@
                },
                Begun::Failed(AcquireError::Tracking(e)) => e == TrackError::UnknownLock || e
                    == TrackError::IdsExhausted,
                Begun::Failed(AcquireError::Native(_)) => true,
            },
    {
        let started = self.tracker.now();
        begin_acquisition(
            native_try_read(&self.lock),
            GuardKind::Read,
            &self.location,
            site,
            started,
            self.tracker,
        )
    }

    /// Attempts to acquire shared access for the call site `site` without
    /// blocking. A guard that comes back belongs to this lock and to `site`.
    pub fn try_read(&self, site: Location) -> (res: Result<
        LockGuard<RwLockReadGuard<'_, T>>,
        TryAcquireError<PoisonError<RwLockReadGuard<'_, T>>>,
    >)
        ensures
            res matches Ok(g) ==> g.lock_site() == self.site() && g.guard_site() == site@,
            res matches Err(TryAcquireError::Tracking(e)) ==> e == TrackError::UnknownLock || e
                == TrackError::IdsExhausted,
    {
        let started = self.tracker.now();
        settle_attempt(
            native_try_read(&self.lock),
            GuardKind::Read,
            &self.location,
            site,
            started,
            self.tracker,
        )
    }

    /// Begins to acquire exclusive access for the call site `site`, in the one step that
    /// does not block: where the lock is free, the guard comes back,
    /// recorded; where it is held, the acquisition is queued, and the native
    /// call that blocks is left to the caller, whose answer goes to
    /// `WaitGuard::settle`.
    pub fn write(&self, site: Location) -> (res: Begun<
        RwLockWriteGuard<'_, T>,
        PoisonError<RwLockWriteGuard<'_, T>>,
    >)
        ensures
            match res {
                Begun::Acquired(g) => g.lock_site() == self.site() && g.guard_site() == site@,
                Begun::Waiting(w) => {
                    &&& w.spec_kind() == GuardKind::Write
                    &&& w.lock_site() == self.site()
                    &&& w.guard_site() == site@
                },
                Begun::Failed(AcquireError::Tracking(e)) => e == TrackError::UnknownLock || e
                    == TrackError::IdsExhausted,
                Begun::Failed(AcquireError::Native(_)) => true,
            },
    {
        let started = self.tracker.now();
        begin_acquisition(
            native_try_write(&self.lock),
            GuardKind::Write,
            &self.location,
            site,
            started,
            self.tracker,
        )
    }

    /// Attempts to acquire exclusive access for the call site `site` without
    /// blocking. A guard that comes back belongs to this lock and to `site`.
    pub fn try_write(&self, site: Location) -> (res: Result<
        LockGuard<RwLockWriteGuard<'_, T>>,
        TryAcquireError<PoisonError<RwLockWriteGuard<'_, T>>>,
    >)
        ensures
            res matches Ok(g) ==> g.lock_site() == self.site() && g.guard_site() == site@,
            res matches Err(TryAcquireError::Tracking(e)) ==> e == TrackError::UnknownLock || e
                == TrackError::IdsExhausted,
    {
        let started = self.tracker.now();
        settle_attempt(
            native_try_write(&self.lock),
            GuardKind::Write,
            &self.location,
            site,
            started,
            self.tracker,
        )
    }
}

} // verus!
