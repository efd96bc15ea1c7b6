//! Tracked versions of the `tokio` locks: what of them does not suspend. A
//! suspending acquisition is made of these steps around the native await.

use crate::guard::GuardKind;
use crate::lifecycle::{
    begin_acquisition, settle_attempt, AcquireError, Attempt, Begun, LockGuard, TryAcquireError,
    WaitGuard,
};
use crate::location::{Location, LocationView};
use crate::lock::{LockKind, TrackError};
use crate::tracker::Tracker;
use vstd::prelude::*;

verus! {

/// A `tokio::sync::Mutex`. The field is open to the code that awaits on it.
#[verifier::external_body]
#[verifier::reject_recursive_types(T)]
pub struct NativeMutex<T> {
    pub inner: tokio::sync::Mutex<T>,
}

/// A `tokio::sync::RwLock`. The field is open to the code that awaits on it.
#[verifier::external_body]
#[verifier::reject_recursive_types(T)]
pub struct NativeRwLock<T> {
    pub inner: tokio::sync::RwLock<T>,
}

/// `tokio::sync::MutexGuard`, opaque.
#[verifier::external_type_specification]
#[verifier::external_body]
#[verifier::reject_recursive_types(T)]
pub struct ExMutexGuard<'a, T: ?Sized>(tokio::sync::MutexGuard<'a, T>);

/// `tokio::sync::RwLockReadGuard`, opaque.
#[verifier::external_type_specification]
#[verifier::external_body]
#[verifier::reject_recursive_types(T)]
pub struct ExRwLockReadGuard<'a, T: ?Sized>(tokio::sync::RwLockReadGuard<'a, T>);

/// `tokio::sync::RwLockWriteGuard`, opaque.
#[verifier::external_type_specification]
#[verifier::external_body]
#[verifier::reject_recursive_types(T)]
pub struct ExRwLockWriteGuard<'a, T: ?Sized>(tokio::sync::RwLockWriteGuard<'a, T>);

/// `tokio::sync::Mutex::new`: a mutex around `item`. Nothing is claimed of
/// it.
#[verifier::external_body]
fn native_mutex<T>(item: T) -> NativeMutex<T> {
    NativeMutex { inner: tokio::sync::Mutex::new(item) }
}

/// `tokio::sync::Mutex::try_lock`: the guard, or that the mutex is held.
/// Which of the two comes depends on the other tasks; it never fails.
#[verifier::external_body]
fn native_try_lock<'a, T>(lock: &'a NativeMutex<T>) -> (attempt: Attempt<
    tokio::sync::MutexGuard<'a, T>,
    (),
>)
    ensures
        !(attempt is Failed),
{
    match lock.inner.try_lock() {
        Ok(guard) => Attempt::Acquired(guard),
        Err(_) => Attempt::WouldBlock,
    }
}

/// `tokio::sync::RwLock::new`: a reader-writer lock around `item`. Nothing
/// is claimed of it.
#[verifier::external_body]
fn native_rwlock<T>(item: T) -> NativeRwLock<T> {
    NativeRwLock { inner: tokio::sync::RwLock::new(item) }
}

/// `tokio::sync::RwLock::try_read`: the guard, or that shared access is not
/// to be had now. Which of the two comes depends on the other tasks; it
/// never fails.
#[verifier::external_body]
fn native_try_read<'a, T>(lock: &'a NativeRwLock<T>) -> (attempt: Attempt<
    tokio::sync::RwLockReadGuard<'a, T>,
    (),
>)
    ensures
        !(attempt is Failed),
{
    match lock.inner.try_read() {
        Ok(guard) => Attempt::Acquired(guard),
        Err(_) => Attempt::WouldBlock,
    }
}

/// `tokio::sync::RwLock::try_write`: the guard, or that the lock is held.
/// Which of the two comes depends on the other tasks; it never fails.
#[verifier::external_body]
fn native_try_write<'a, T>(lock: &'a NativeRwLock<T>) -> (attempt: Attempt<
    tokio::sync::RwLockWriteGuard<'a, T>,
    (),
>)
    ensures
        !(attempt is Failed),
{
    match lock.inner.try_write() {
        Ok(guard) => Attempt::Acquired(guard),
        Err(_) => Attempt::WouldBlock,
    }
}

/// `tokio::sync::RwLock::into_inner`: what the lock protected.
#[verifier::external_body]
fn native_into_inner<T>(lock: NativeRwLock<T>) -> T {
    lock.inner.into_inner()
}

/// A `tokio` mutex whose guards are tracked.
#[verifier::reject_recursive_types(T)]
pub struct Mutex<'t, T> {
    lock: NativeMutex<T>,
    location: Location,
    tracker: &'t Tracker,
}

impl<'t, T> Mutex<'t, T> {
    /// Where the mutex was created.
    pub closed spec fn site(&self) -> LocationView {
        self.location@
    }

    /// A mutex around `item`, created at `site` and registered with
    /// `tracker`.
    pub fn new(item: T, tracker: &'t Tracker, site: Location) -> (m: Self)
        ensures
            m.site() == site@,
    {
        Mutex {
            lock: native_mutex(item),
            location: tracker.register(LockKind::Mutex, site),
            tracker,
        }
    }

    /// Where the mutex was created.
    pub fn location(&self) -> (l: &Location)
        ensures
            l@ == self.site(),
    {
        &self.location
    }

    /// The native mutex, for the code that awaits on it.
    pub fn native(&self) -> (native: &NativeMutex<T>)
        ensures
            *native == self.spec_native(),
    {
        &self.lock
    }

    /// Begins to acquire the mutex for the call site `site`, in the one step that
    /// does not suspend: where the lock is free, the guard comes back,
    /// recorded; where it is held, the acquisition is queued, and the native
    /// await is left to the caller, whose guard goes to `WaitGuard::finish`.
    pub fn lock(&self, site: Location) -> (res: Begun<tokio::sync::MutexGuard<'_, T>, ()>)
        ensures
            match res {
                Begun::Acquired(g) => g.lock_site() == self.site() && g.guard_site() == site@,
                Begun::Waiting(w) => {
                    &&& w.spec_kind() == GuardKind::Lock
                    &&& w.lock_site() == self.site()
                    &&& w.guard_site() == site@
                },
                Begun::Failed(AcquireError::Tracking(e)) => e == TrackError::UnknownLock || e
                    == TrackError::IdsExhausted,
                Begun::Failed(AcquireError::Native(_)) => false,
            },
    {
        let started = self.tracker.now();
        begin_acquisition(
            native_try_lock(&self.lock),
            GuardKind::Lock,
            &self.location,
            site,
            started,
            self.tracker,
        )
    }

    /// Attempts to acquire the mutex for the call site `site` without
    /// suspending. A guard that comes back belongs to this mutex and to
    /// `site`.
    pub fn try_lock(&self, site: Location) -> (res: Result<
        LockGuard<tokio::sync::MutexGuard<'_, T>>,
        TryAcquireError<()>,
    >)
        ensures
            res matches Ok(g) ==> g.lock_site() == self.site() && g.guard_site() == site@,
            !(res matches Err(TryAcquireError::Native(_))),
            res matches Err(TryAcquireError::Tracking(e)) ==> e == TrackError::UnknownLock || e
                == TrackError::IdsExhausted,
    {
        let started = self.tracker.now();
        settle_attempt(
            native_try_lock(&self.lock),
            GuardKind::Lock,
            &self.location,
            site,
            started,
            self.tracker,
        )
    }

    /// Registers an acquisition for the call site `site` that began at
    /// `started` and found the mutex held: the step before the native await.
    pub fn begin_wait(&self, site: Location, started: u64) -> (res: Result<WaitGuard, TrackError>)
        ensures
            match res {
                Ok(w) => {
                    &&& w.spec_kind() == GuardKind::Lock
                    &&& w.lock_site() == self.site()
                    &&& w.guard_site() == site@
                    &&& w.spec_started() == started
                },
                Err(e) => e == TrackError::UnknownLock || e == TrackError::IdsExhausted,
            },
    {
        WaitGuard::new(GuardKind::Lock, &self.location, site, started, self.tracker)
    }
}

/// A `tokio` reader-writer lock whose guards are tracked.
#[verifier::reject_recursive_types(T)]
pub struct RwLock<'t, T> {
    lock: NativeRwLock<T>,
    location: Location,
    tracker: &'t Tracker,
}

impl<'t, T> RwLock<'t, T> {
    /// Where the lock was created.
    pub closed spec fn site(&self) -> LocationView {
        self.location@
    }

    /// A reader-writer lock around `item`, created at `site` and registered
    /// with `tracker`.
    pub fn new(item: T, tracker: &'t Tracker, site: Location) -> (l: Self)
        ensures
            l.site() == site@,
    {
        RwLock {
            lock: native_rwlock(item),
            location: tracker.register(LockKind::RwLock, site),
            tracker,
        }
    }

    /// Where the lock was created.
    pub fn location(&self) -> (l: &Location)
        ensures
            l@ == self.site(),
    {
        &self.location
    }

    /// The native lock, for the code that awaits on it.
    pub fn native(&self) -> (native: &NativeRwLock<T>)
        ensures
            *native == self.spec_native(),
    {
        &self.lock
    }

    /// Begins to acquire shared access for the call site `site`, in the one step that
    /// does not suspend: where the lock is free, the guard comes back,
    /// recorded; where it is held, the acquisition is queued, and the native
    /// await is left to the caller, whose guard goes to `WaitGuard::finish`.
    pub fn read(&self, site: Location) -> (res: Begun<tokio::sync::RwLockReadGuard<'_, T>, ()>)
        ensures
            match res {
                Begun::Acquired(g) => g.lock_site() == self.site() && g.guard_site() == site@,
                Begun::Waiting(w) => {
                    &&& w.spec_kind() == GuardKind::Read
                    &&& w.lock_site() == self.site()
                    &&& w.guard_site() == site@
                },
                Begun::Failed(AcquireError::Tracking(e)) => e == TrackError::UnknownLock || e
                    == TrackError::IdsExhausted,
                Begun::Failed(AcquireError::Native(_)) => false,
            },
    {
        let started = self.tracker.now();
        begin_acquisition(
            native_try_read(&self.lock),
            GuardKind::Read,
            &self.location,
            site,
            started,
            self.tracker,
        )
    }

    /// Attempts to acquire shared access for the call site `site` without
    /// suspending. A guard that comes back belongs to this lock and to
    /// `site`.
    pub fn try_read(&self, site: Location) -> (res: Result<
        LockGuard<tokio::sync::RwLockReadGuard<'_, T>>,
        TryAcquireError<()>,
    >)
        ensures
            res matches Ok(g) ==> g.lock_site() == self.site() && g.guard_site() == site@,
            !(res matches Err(TryAcquireError::Native(_))),
            res matches Err(TryAcquireError::Tracking(e)) ==> e == TrackError::UnknownLock || e
                == TrackError::IdsExhausted,
    {
        let started = self.tracker.now();
        settle_attempt(
            native_try_read(&self.lock),
            GuardKind::Read,
            &self.location,
            site,
            started,
            self.tracker,
        )
    }

    /// Begins to acquire exclusive access for the call site `site`, in the one step that
    /// does not suspend: where the lock is free, the guard comes back,
    /// recorded; where it is held, the acquisition is queued, and the native
    /// await is left to the caller, whose guard goes to `WaitGuard::finish`.
    pub fn write(&self, site: Location) -> (res: Begun<tokio::sync::RwLockWriteGuard<'_, T>, ()>)
        ensures
            match res {
                Begun::Acquired(g) => g.lock_site() == self.site() && g.guard_site() == site@,
                Begun::Waiting(w) => {
                    &&& w.spec_kind() == GuardKind::Write
                    &&& w.lock_site() == self.site()
                    &&& w.guard_site() == site@
                },
                Begun::Failed(AcquireError::Tracking(e)) => e == TrackError::UnknownLock || e
                    == TrackError::IdsExhausted,
                Begun::Failed(AcquireError::Native(_)) => false,
            },
    {
        let started = self.tracker.now();
        begin_acquisition(
            native_try_write(&self.lock),
            GuardKind::Write,
            &self.location,
            site,
            started,
            self.tracker,
        )
    }

    /// Attempts to acquire exclusive access for the call site `site`
    /// without suspending. A guard that comes back belongs to this lock and
    /// to `site`.
    pub fn try_write(&self, site: Location) -> (res: Result<
        LockGuard<tokio::sync::RwLockWriteGuard<'_, T>>,
        TryAcquireError<()>,
    >)
        ensures
            res matches Ok(g) ==> g.lock_site() == self.site() && g.guard_site() == site@,
            !(res matches Err(TryAcquireError::Native(_))),
            res matches Err(TryAcquireError::Tracking(e)) ==> e == TrackError::UnknownLock || e
                == TrackError::IdsExhausted,
    {
        let started = self.tracker.now();
        settle_attempt(
            native_try_write(&self.lock),
            GuardKind::Write,
            &self.location,
            site,
            started,
            self.tracker,
        )
    }

    /// Registers an acquisition of kind `kind` for the call site `site` that
    /// began at `started`: the step before the native await.
    pub fn begin_wait(&self, kind: GuardKind, site: Location, started: u64) -> (res: Result<
        WaitGuard,
        TrackError,
    >)
        ensures
            match res {
                Ok(w) => {
                    &&& w.spec_kind() == kind
                    &&& w.lock_site() == self.site()
                    &&& w.guard_site() == site@
                    &&& w.spec_started() == started
                },
                Err(e) => e == TrackError::UnknownLock || e == TrackError::IdsExhausted,
            },
    {
        WaitGuard::new(kind, &self.location, site, started, self.tracker)
    }

    /// Consumes the lock and returns what it protected.
    pub fn into_inner(self) -> T {
        native_into_inner(self.lock)
    }
}

impl<'t, T> Mutex<'t, T> {
    /// The native mutex that this mutex wraps.
    pub closed spec fn spec_native(&self) -> NativeMutex<T> {
        self.lock
    }
}

impl<'t, T> RwLock<'t, T> {
    /// The native lock that this lock wraps.
    pub closed spec fn spec_native(&self) -> NativeRwLock<T> {
        self.lock
    }
}

} // verus!
