//! Tracked versions of the `parking_lot` locks: what of them does not block.
//! A blocking acquisition is made of these steps around the native call that
//! blocks.

use crate::guard::GuardKind;
use crate::lifecycle::{
    begin_acquisition, settle_attempt, AcquireError, Attempt, Begun, LockGuard, TryAcquireError,
};
use crate::location::{Location, LocationView};
use crate::lock::{LockKind, TrackError};
use crate::tracker::Tracker;
use vstd::prelude::*;

verus! {

/// A `parking_lot::Mutex`. The field is open to the code that blocks on it.
#[verifier::external_body]
#[verifier::reject_recursive_types(T)]
pub struct NativeMutex<T> {
    pub inner: parking_lot::Mutex<T>,
}

/// A `parking_lot::MutexGuard`. The field is open to the code that gets the
/// guard from a call that blocks.
#[verifier::external_body]
#[verifier::reject_recursive_types(T)]
pub struct NativeMutexGuard<'a, T> {
    pub inner: parking_lot::MutexGuard<'a, T>,
}

/// A `parking_lot::RwLock`. The field is open to the code that blocks on
/// it.
#[verifier::external_body]
#[verifier::reject_recursive_types(T)]
pub struct NativeRwLock<T> {
    pub inner: parking_lot::RwLock<T>,
}

/// A `parking_lot::RwLockReadGuard`. The field is open to the code that
/// gets the guard from a call that blocks.
#[verifier::external_body]
#[verifier::reject_recursive_types(T)]
pub struct NativeReadGuard<'a, T> {
    pub inner: parking_lot::RwLockReadGuard<'a, T>,
}

/// A `parking_lot::RwLockWriteGuard`. The field is open to the code that
/// gets the guard from a call that blocks.
#[verifier::external_body]
#[verifier::reject_recursive_types(T)]
pub struct NativeWriteGuard<'a, T> {
    pub inner: parking_lot::RwLockWriteGuard<'a, T>,
}

impl<'a, T> core::ops::Deref for NativeMutexGuard<'a, T> {
    type Target = T;

    /// The `deref` of `parking_lot::MutexGuard`: what the mutex protects.
    #[verifier::external_body]
    fn deref(&self) -> &T {
        &self.inner
    }
}

impl<'a, T> core::ops::DerefMut for NativeMutexGuard<'a, T> {
    /// The `deref_mut` of `parking_lot::MutexGuard`: what the mutex
    /// protects, for writing.
    #[verifier::external_body]
    fn deref_mut(&mut self) -> &mut T {
        &mut self.inner
    }
}

impl<'a, T> core::ops::Deref for NativeReadGuard<'a, T> {
    type Target = T;

    /// The `deref` of `parking_lot::RwLockReadGuard`: what the lock
    /// protects.
    #[verifier::external_body]
    fn deref(&self) -> &T {
        &self.inner
    }
}

impl<'a, T> core::ops::Deref for NativeWriteGuard<'a, T> {
    type Target = T;

    /// The `deref` of `parking_lot::RwLockWriteGuard`: what the lock
    /// protects.
    #[verifier::external_body]
    fn deref(&self) -> &T {
        &self.inner
    }
}

impl<'a, T> core::ops::DerefMut for NativeWriteGuard<'a, T> {
    /// The `deref_mut` of `parking_lot::RwLockWriteGuard`: what the lock
    /// protects, for writing.
    #[verifier::external_body]
    fn deref_mut(&mut self) -> &mut T {
        &mut self.inner
    }
}

/// `parking_lot::Mutex::new`: a mutex around `item`. Nothing is claimed of
/// it.
#[verifier::external_body]
fn native_mutex<T>(item: T) -> NativeMutex<T> {
    NativeMutex { inner: parking_lot::Mutex::new(item) }
}

/// `parking_lot::Mutex::try_lock`: the guard, or that the mutex is held.
/// Which of the two comes depends on the other threads; it never fails.
#[verifier::external_body]
fn native_try_lock<'a, T>(lock: &'a NativeMutex<T>) -> (attempt: Attempt<
    NativeMutexGuard<'a, T>,
    (),
>)
    ensures
        !(attempt is Failed),
{
    match lock.inner.try_lock() {
        Some(inner) => Attempt::Acquired(NativeMutexGuard { inner }),
        None => Attempt::WouldBlock,
    }
}

/// `parking_lot::RwLock::new`: a reader-writer lock around `item`. Nothing
/// is claimed of it.
#[verifier::external_body]
fn native_rwlock<T>(item: T) -> NativeRwLock<T> {
    NativeRwLock { inner: parking_lot::RwLock::new(item) }
}

/// `parking_lot::RwLock::try_read`: the guard, or that shared access is not
/// to be had now. Which of the two comes depends on the other threads; it
/// never fails.
#[verifier::external_body]
fn native_try_read<'a, T>(lock: &'a NativeRwLock<T>) -> (attempt: Attempt<
    NativeReadGuard<'a, T>,
    (),
>)
    ensures
        !(attempt is Failed),
{
    match lock.inner.try_read() {
        Some(inner) => Attempt::Acquired(NativeReadGuard { inner }),
        None => Attempt::WouldBlock,
    }
}

/// `parking_lot::RwLock::try_write`: the guard, or that the lock is held.
/// Which of the two comes depends on the other threads; it never fails.
#[verifier::external_body]
fn native_try_write<'a, T>(lock: &'a NativeRwLock<T>) -> (attempt: Attempt<
    NativeWriteGuard<'a, T>,
    (),
>)
    ensures
        !(attempt is Failed),
{
    match lock.inner.try_write() {
        Some(inner) => Attempt::Acquired(NativeWriteGuard { inner }),
        None => Attempt::WouldBlock,
    }
}

/// `parking_lot::RwLock::into_inner`: what the lock protected.
#[verifier::external_body]
fn native_into_inner<T>(lock: NativeRwLock<T>) -> T {
    lock.inner.into_inner()
}

/// What a fast attempt on a lock that never fails gave: the guard, nothing
/// where the lock is held, or why the guard could not be recorded.
fn settled<G>(fast: Result<LockGuard<G>, TryAcquireError<()>>) -> (res: Result<
    Option<LockGuard<G>>,
    TrackError,
>)
    requires
        !(fast matches Err(TryAcquireError::Native(_))),
    ensures
        match fast {
            Ok(g) => res == Ok::<Option<LockGuard<G>>, TrackError>(Some(g)),
            Err(TryAcquireError::WouldBlock) => res == Ok::<Option<LockGuard<G>>, TrackError>(
                None,
            ),
            Err(TryAcquireError::Tracking(e)) => res == Err::<Option<LockGuard<G>>, TrackError>(
                e,
            ),
            Err(TryAcquireError::Native(_)) => false,
        },
{
    match fast {
        Ok(g) => Ok(Some(g)),
        Err(TryAcquireError::Tracking(e)) => Err(e),
        Err(_) => Ok(None),
    }
}

/// A `parking_lot` mutex whose guards are tracked.
#[verifier::reject_recursive_types(T)]
pub struct Mutex<'t, T> {
    lock: NativeMutex<T>,
    location: Location,
    tracker: &'t Tracker,
}

impl<'t, T> Mutex<'t, T> {
    /// Where the mutex was created.
    pub closed spec fn site(&self) -> LocationView {
        self.location@
    }

    /// The native mutex that this mutex wraps.
    pub closed spec fn spec_native(&self) -> NativeMutex<T> {
        self.lock
    }

    /// A mutex around `item`, created at `site` and registered with
    /// `tracker`.
    pub fn new(item: T, tracker: &'t Tracker, site: Location) -> (m: Self)
        ensures
            m.site() == site@,
    {
        Mutex {
            lock: native_mutex(item),
            location: tracker.register(LockKind::Mutex, site),
            tracker,
        }
    }

    /// Where the mutex was created.
    pub fn location(&self) -> (l: &Location)
        ensures
            l@ == self.site(),
    {
        &self.location
    }

    /// The native mutex, for the code that blocks on it.
    pub fn native(&self) -> (native: &NativeMutex<T>)
        ensures
            *native == self.spec_native(),
    {
        &self.lock
    }

    /// Begins to acquire the mutex for the call site `site`, in the one step that
    /// does not block: where the lock is free, the guard comes back,
    /// recorded; where it is held, the acquisition is queued, and the native
    /// call that blocks is left to the caller, whose answer goes to
    /// `WaitGuard::finish`.
    pub fn lock(&self, site: Location) -> (res: Begun<NativeMutexGuard<'_, T>, ()>)
        ensures
            match res {
                Begun::Acquired(g) => g.lock_site() == self.site() && g.guard_site() == site@,
                Begun::Waiting(w) => {
                    &&& w.spec_kind() == GuardKind::Lock
                    &&& w.lock_site() == self.site()
                    &&& w.guard_site() == site@
                },
                Begun::Failed(AcquireError::Tracking(e)) => e == TrackError::UnknownLock || e
                    == TrackError::IdsExhausted,
                Begun::Failed(AcquireError::Native(_)) => false,
            },
    {
        let started = self.tracker.now();
        begin_acquisition(
            native_try_lock(&self.lock),
            GuardKind::Lock,
            &self.location,
            site,
            started,
            self.tracker,
        )
    }

    /// Attempts to acquire the mutex for the call site `site` without
    /// blocking; `None` where it is held by another. A guard that comes back
    /// belongs to this mutex and to `site`.
    pub fn try_lock(&self, site: Location) -> (res: Result<
        Option<LockGuard<NativeMutexGuard<'_, T>>>,
        TrackError,
    >)
        ensures
            res matches Ok(Some(g)) ==> g.lock_site() == self.site() && g.guard_site() == site@,
            res matches Err(e) ==> e == TrackError::UnknownLock || e == TrackError::IdsExhausted,
    {
        let started = self.tracker.now();
        settled(
            settle_attempt(
                native_try_lock(&self.lock),
                GuardKind::Lock,
                &self.location,
                site,
                started,
                self.tracker,
            ),
        )
    }
}

/// A `parking_lot` reader-writer lock whose guards are tracked.
#[verifier::reject_recursive_types(T)]
pub struct RwLock<'t, T> {
    lock: NativeRwLock<T>,
    location: Location,
    tracker: &'t Tracker,
}

impl<'t, T> RwLock<'t, T> {
    /// Where the lock was created.
    pub closed spec fn site(&self) -> LocationView {
        self.location@
    }

    /// The native lock that this lock wraps.
    pub closed spec fn spec_native(&self) -> NativeRwLock<T> {
        self.lock
    }

    /// A reader-writer lock around `item`, created at `site` and registered
    /// with `tracker`.
    pub fn new(item: T, tracker: &'t Tracker, site: Location) -> (l: Self)
        ensures
            l.site() == site@,
    {
        RwLock {
            lock: native_rwlock(item),
            location: tracker.register(LockKind::RwLock, site),
            tracker,
        }
    }

    /// Where the lock was created.
    pub fn location(&self) -> (l: &Location)
        ensures
            l@ == self.site(),
    {
        &self.location
    }

    /// The native lock, for the code that blocks on it.
    pub fn native(&self) -> (native: &NativeRwLock<T>)
        ensures
            *native == self.spec_native(),
    {
        &self.lock
    }

    /// Begins to acquire shared access for the call site `site`, in the one step that
    /// does not block: where the lock is free, the guard comes back,
    /// recorded; where it is held, the acquisition is queued, and the native
    /// call that blocks is left to the caller, whose answer goes to
    /// `WaitGuard::finish`.
    pub fn read(&self, site: Location) -> (res: Begun<NativeReadGuard<'_, T>, ()>)
        ensures
            match res {
                Begun::Acquired(g) => g.lock_site() == self.site() && g.guard_site() == site@,
                Begun::Waiting(w) => {
                    &&& w.spec_kind() == GuardKind::Read
                    &&& w.lock_site() == self.site()
                    &&& w.guard_site() == site@
                },
                Begun::Failed(AcquireError::Tracking(e)) => e == TrackError::UnknownLock || e
                    == TrackError::IdsExhausted,
                Begun::Failed(AcquireError::Native(_)) => false,
            },
    {
        let started = self.tracker.now();
        begin_acquisition(
            native_try_read(&self.lock),
            GuardKind::Read,
            &self.location,
            site,
            started,
            self.tracker,
        )
    }

    /// Attempts to acquire shared access for the call site `site` without
    /// blocking; `None` where it is not to be had now. A guard that comes
    /// back belongs to this lock and to `site`.
    pub fn try_read(&self, site: Location) -> (res: Result<
        Option<LockGuard<NativeReadGuard<'_, T>>>,
        TrackError,
    >)
        ensures
            res matches Ok(Some(g)) ==> g.lock_site() == self.site() && g.guard_site() == site@,
            res matches Err(e) ==> e == TrackError::UnknownLock || e == TrackError::IdsExhausted,
    {
        let started = self.tracker.now();
        settled(
            settle_attempt(
                native_try_read(&self.lock),
                GuardKind::Read,
                &self.location,
                site,
                started,
                self.tracker,
            ),
        )
    }

    /// Begins to acquire exclusive access for the call site `site`, in the one step that
    /// does not block: where the lock is free, the guard comes back,
    /// recorded; where it is held, the acquisition is queued, and the native
    /// call that blocks is left to the caller, whose answer goes to
    /// `WaitGuard::finish`.
    pub fn write(&self, site: Location) -> (res: Begun<NativeWriteGuard<'_, T>, ()>)
        ensures
            match res {
                Begun::Acquired(g) => g.lock_site() == self.site() && g.guard_site() == site@,
                Begun::Waiting(w) => {
                    &&& w.spec_kind() == GuardKind::Write
                    &&& w.lock_site() == self.site()
                    &&& w.guard_site() == site@
                },
                Begun::Failed(AcquireError::Tracking(e)) => e == TrackError::UnknownLock || e
                    == TrackError::IdsExhausted,
                Begun::Failed(AcquireError::Native(_)) => false,
            },
    {
        let started = self.tracker.now();
        begin_acquisition(
            native_try_write(&self.lock),
            GuardKind::Write,
            &self.location,
            site,
            started,
            self.tracker,
        )
    }

    /// Attempts to acquire exclusive access for the call site `site`
    /// without blocking; `None` where the lock is held by another. A guard
    /// that comes back belongs to this lock and to `site`.
    pub fn try_write(&self, site: Location) -> (res: Result<
        Option<LockGuard<NativeWriteGuard<'_, T>>>,
        TrackError,
    >)
        ensures
            res matches Ok(Some(g)) ==> g.lock_site() == self.site() && g.guard_site() == site@,
            res matches Err(e) ==> e == TrackError::UnknownLock || e == TrackError::IdsExhausted,
    {
        let started = self.tracker.now();
        settled(
            settle_attempt(
                native_try_write(&self.lock),
                GuardKind::Write,
                &self.location,
                site,
                started,
                self.tracker,
            ),
        )
    }

    /// Consumes the lock and returns what it protected.
    pub fn into_inner(self) -> T {
        native_into_inner(self.lock)
    }
}

} // verus!
