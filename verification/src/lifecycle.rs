//! The life of one acquisition: a fast attempt, a wait where the lock is
//! contended, the guard, and its release.

use crate::clock::elapsed_between;
use crate::guard::GuardKind;
use crate::location::{Location, LocationView};
use crate::lock::TrackError;
use crate::tracker::Tracker;
use vstd::pervasive::unreached;
use vstd::prelude::*;

verus! {

/// What a native lock answers to an attempt that does not block.
pub enum Attempt<G, E> {
    /// The lock was free: here is its guard.
    Acquired(G),
    /// The lock is held by another.
    WouldBlock,
    /// The lock is unusable for good.
    Failed(E),
}

/// Why an acquisition produced no guard.
pub enum AcquireError<E> {
    /// The native lock failed for good; its failure is handed on unchanged.
    Native(E),
    /// The native lock was acquired, and released again, because the guard
    /// could not be recorded.
    Tracking(TrackError),
}

/// Why an attempt that does not block produced no guard.
pub enum TryAcquireError<E> {
    /// The lock is held by another.
    WouldBlock,
    /// The native lock failed for good; its failure is handed on unchanged.
    Native(E),
    /// The native lock was acquired, and released again, because the guard
    /// could not be recorded.
    Tracking(TrackError),
}

/// A wrapper for the lock guard produced when working with a lock. It
/// only contains the guard itself and metadata that allows it to be
/// distinguished from other guards belonging to a single lock.
pub struct LockGuard<T> {
    /// The native guard.
    pub guard: T,
    pub lock_location: Location,
    pub guard_location: Location,
    /// What tells the guard apart from the others of its call site.
    pub id: u64,
}

/// An acquisition that waits for a contended lock.
pub struct WaitGuard {
    pub lock_location: Location,
    pub guard_location: Location,
    pub kind: GuardKind,
    /// What tells the acquisition apart from the others of its call site.
    pub id: u64,
    /// When the acquisition began, on the tracker's clock.
    pub started: u64,
}

impl<T> LockGuard<T> {
    /// Where the guard's lock was created.
    pub open spec fn lock_site(&self) -> LocationView {
        self.lock_location@
    }

    /// Where the guard was taken.
    pub open spec fn guard_site(&self) -> LocationView {
        self.guard_location@
    }

    /// The native guard inside.
    pub open spec fn inner(&self) -> T {
        self.guard
    }

    /// The id that tells the guard apart from the others of its call site.
    pub open spec fn spec_id(&self) -> u64 {
        self.id
    }

    /// Registers the creation of a guard that was acquired without queueing
    /// and returns it wrapped in an object used to perform relevant
    /// accounting when the guard is released. Where the guard cannot be
    /// recorded, the native guard is dropped.
    pub fn new(
        guard: T,
        guard_kind: GuardKind,
        lock_location: &Location,
        guard_location: Location,
        wait_time: u64,
        tracker: &Tracker,
    ) -> (res: Result<Self, TrackError>)
        ensures
            match res {
                Ok(g) => {
                    &&& g.inner() == guard
                    &&& g.lock_site() == lock_location@
                    &&& g.guard_site() == guard_location@
                },
                Err(e) => e == TrackError::UnknownLock || e == TrackError::IdsExhausted,
            },
    {
        match tracker.acquire(lock_location, guard_kind, &guard_location, wait_time) {
            Ok(id) => Ok(
                LockGuard { guard, lock_location: lock_location.clone(), guard_location, id },
            ),
            Err(e) => Err(e),
        }
    }

    /// The id that tells the guard apart from the others of its call site.
    pub fn id(&self) -> (id: u64)
        ensures
            id == self.spec_id(),
    {
        self.id
    }

    /// Read access to what the native guard protects goes through the native
    /// guard.
    pub fn get(&self) -> (guard: &T)
        ensures
            *guard == self.inner(),
    {
        &self.guard
    }

    /// Write access to what the native guard protects goes through the
    /// native guard; the metadata stays.
    pub fn get_mut(&mut self) -> (guard: &mut T)
        ensures
            *guard == old(self).inner(),
            final(self).inner() == *final(guard),
            final(self).spec_id() == old(self).spec_id(),
            final(self).lock_site() == old(self).lock_site(),
            final(self).guard_site() == old(self).guard_site(),
    {
        &mut self.guard
    }

    /// Ends the guard: its release is recorded, with the time for which it
    /// was held, and then the native guard is dropped. Returns the time for
    /// which it was held.
    pub fn release(self, tracker: &Tracker) -> (res: Result<u64, TrackError>)
        ensures
            res != Err::<u64, TrackError>(TrackError::IdsExhausted),
            res != Err::<u64, TrackError>(TrackError::NotWaiting),
    {
        let LockGuard { guard, lock_location, guard_location, id } = self;
        let res = tracker.release(&lock_location, &guard_location, id);
        let _ = guard;
        res
    }
}

impl<T: core::ops::Deref> core::ops::Deref for LockGuard<T> {
    type Target = T::Target;

    /// Read access goes through to what the native guard protects: the
    /// result is what the native guard's own `deref` hands out.
    fn deref(&self) -> (target: &Self::Target)
        ensures
            call_ensures(T::deref, (&self.inner(),), target),
    {
        self.guard.deref()
    }
}

impl<T: core::ops::DerefMut> core::ops::DerefMut for LockGuard<T> {
    /// Write access goes through to what the native guard protects; the
    /// metadata stays.
    fn deref_mut(&mut self) -> (target: &mut Self::Target)
        ensures
            exists|native: &mut T|
                {
                    &&& *native == old(self).inner()
                    &&& *final(native) == final(self).inner()
                    &&& #[trigger] call_ensures(T::deref_mut, (native,), target)
                },
            final(self).spec_id() == old(self).spec_id(),
            final(self).lock_site() == old(self).lock_site(),
            final(self).guard_site() == old(self).guard_site(),
    {
        self.guard.deref_mut()
    }
}

impl WaitGuard {
    /// Where the lock was created.
    pub open spec fn lock_site(&self) -> LocationView {
        self.lock_location@
    }

    /// Where the acquisition was issued.
    pub open spec fn guard_site(&self) -> LocationView {
        self.guard_location@
    }

    /// The kind of guard that is waited for.
    pub open spec fn spec_kind(&self) -> GuardKind {
        self.kind
    }

    /// The id of the waiting acquisition; its guard keeps it.
    pub open spec fn spec_id(&self) -> u64 {
        self.id
    }

    /// When the acquisition began, on the tracker's clock.
    pub open spec fn spec_started(&self) -> u64 {
        self.started
    }

    /// Registers an acquisition that began at `started` and found its lock
    /// contended: from now on it counts as waiting.
    pub fn new(
        kind: GuardKind,
        lock_location: &Location,
        guard_location: Location,
        started: u64,
        tracker: &Tracker,
    ) -> (res: Result<Self, TrackError>)
        ensures
            match res {
                Ok(w) => {
                    &&& w.spec_kind() == kind
                    &&& w.lock_site() == lock_location@
                    &&& w.guard_site() == guard_location@
                    &&& w.spec_started() == started
                },
                Err(e) => e == TrackError::UnknownLock || e == TrackError::IdsExhausted,
            },
    {
        match tracker.begin_wait(lock_location, kind, &guard_location) {
            Ok(id) => Ok(
                WaitGuard {
                    lock_location: lock_location.clone(),
                    guard_location,
                    kind,
                    id,
                    started,
                },
            ),
            Err(e) => Err(e),
        }
    }

    /// The id of the waiting acquisition.
    pub fn id(&self) -> (id: u64)
        ensures
            id == self.spec_id(),
    {
        self.id
    }

    /// The wait is over and the native guard is here: the waiting entry
    /// becomes a held guard under the same id, with the time since the
    /// acquisition began as its wait. Where that cannot be recorded, the
    /// native guard is dropped.
    pub fn finish<T>(self, guard: T, tracker: &Tracker) -> (res: Result<LockGuard<T>, TrackError>)
        ensures
            match res {
                Ok(g) => {
                    &&& g.inner() == guard
                    &&& g.spec_id() == self.spec_id()
                    &&& g.lock_site() == self.lock_site()
                    &&& g.guard_site() == self.guard_site()
                },
                Err(e) => e != TrackError::IdsExhausted && e != TrackError::NotActive,
            },
    {
        let WaitGuard { lock_location, guard_location, kind: _, id, started } = self;
        let wait = elapsed_between(started, tracker.now());
        match tracker.finish_wait(&lock_location, &guard_location, id, wait) {
            Ok(()) => Ok(LockGuard { guard, lock_location, guard_location, id }),
            Err(e) => Err(e),
        }
    }

    /// The acquisition is abandoned: its waiting entry leaves, and nothing
    /// else is recorded of it.
    pub fn cancel(self, tracker: &Tracker) -> (res: Result<(), TrackError>)
        ensures
            res != Err::<(), TrackError>(TrackError::IdsExhausted),
            res != Err::<(), TrackError>(TrackError::NotActive),
    {
        tracker.cancel_wait(&self.lock_location, &self.guard_location, self.id)
    }

    /// Ends the wait with what the native lock answered: its guard becomes a
    /// recorded guard, and its failure is handed on after the waiting entry
    /// has left.
    pub fn settle<G, E>(self, outcome: Result<G, E>, tracker: &Tracker) -> (res: Result<
        LockGuard<G>,
        AcquireError<E>,
    >)
        ensures
            match outcome {
                Ok(guard) => match res {
                    Ok(g) => {
                        &&& g.inner() == guard
                        &&& g.spec_id() == self.spec_id()
                        &&& g.lock_site() == self.lock_site()
                        &&& g.guard_site() == self.guard_site()
                    },
                    Err(AcquireError::Tracking(e)) => e != TrackError::IdsExhausted && e
                        != TrackError::NotActive,
                    Err(AcquireError::Native(_)) => false,
                },
                Err(failure) => res == Err::<LockGuard<G>, AcquireError<E>>(
                    AcquireError::Native(failure),
                ),
            },
    {
        match outcome {
            Ok(guard) => match self.finish(guard, tracker) {
                Ok(g) => Ok(g),
                Err(e) => Err(AcquireError::Tracking(e)),
            },
            Err(failure) => {
                let _ = self.cancel(tracker);
                Err(AcquireError::Native(failure))
            },
        }
    }
}

/// Settles an attempt that did not block, which began at `started`. What
/// the attempt came to is handed to [`Tracker::attempted`], which records a
/// guard that the native lock handed out, with the time since `started` as
/// its wait, and records nothing of a contended lock or a failure; these two
/// are handed on unchanged.
pub fn settle_attempt<G, E>(
    attempt: Attempt<G, E>,
    kind: GuardKind,
    lock_location: &Location,
    guard_location: Location,
    started: u64,
    tracker: &Tracker,
) -> (res: Result<LockGuard<G>, TryAcquireError<E>>)
    ensures
        match attempt {
            Attempt::Acquired(guard) => match res {
                Ok(g) => {
                    &&& g.inner() == guard
                    &&& g.lock_site() == lock_location@
                    &&& g.guard_site() == guard_location@
                },
                Err(TryAcquireError::Tracking(e)) => e == TrackError::UnknownLock || e
                    == TrackError::IdsExhausted,
                Err(_) => false,
            },
            Attempt::WouldBlock => res == Err::<LockGuard<G>, TryAcquireError<E>>(
                TryAcquireError::WouldBlock,
            ),
            Attempt::Failed(failure) => res == Err::<LockGuard<G>, TryAcquireError<E>>(
                TryAcquireError::Native(failure),
            ),
        },
{
    let wait = elapsed_between(started, tracker.now());
    let acquired = match &attempt {
        Attempt::Acquired(_) => true,
        _ => false,
    };
    let recorded = tracker.attempted(acquired, lock_location, kind, &guard_location, wait);
    match attempt {
        Attempt::Acquired(guard) => match recorded {
            Ok(Some(id)) => Ok(
                LockGuard { guard, lock_location: lock_location.clone(), guard_location, id },
            ),
            Ok(None) => unreached(),
            Err(e) => Err(TryAcquireError::Tracking(e)),
        },
        Attempt::WouldBlock => Err(TryAcquireError::WouldBlock),
        Attempt::Failed(failure) => Err(TryAcquireError::Native(failure)),
    }
}

/// How an acquisition that may block stands after its first attempt.
pub enum Begun<G, E> {
    /// The lock was free: here is the guard, recorded.
    Acquired(LockGuard<G>),
    /// The lock is held: the acquisition is queued. The native call that
    /// blocks comes next, and its answer goes to [`WaitGuard::settle`].
    Waiting(WaitGuard),
    /// No guard will come.
    Failed(AcquireError<E>),
}

/// Begins an acquisition that may block, with what the first, non-blocking
/// attempt on the native lock gave: a guard is recorded as by
/// [`settle_attempt`]; a lock that is held has the acquisition queued, from
/// `started` on; a failure of the native lock is handed on unchanged, with
/// nothing recorded.
pub fn begin_acquisition<G, E>(
    attempt: Attempt<G, E>,
    kind: GuardKind,
    lock_location: &Location,
    guard_location: Location,
    started: u64,
    tracker: &Tracker,
) -> (res: Begun<G, E>)
    ensures
        match attempt {
            Attempt::Acquired(guard) => match res {
                Begun::Acquired(g) => {
                    &&& g.inner() == guard
                    &&& g.lock_site() == lock_location@
                    &&& g.guard_site() == guard_location@
                },
                Begun::Failed(AcquireError::Tracking(e)) => e == TrackError::UnknownLock || e
                    == TrackError::IdsExhausted,
                _ => false,
            },
            Attempt::WouldBlock => match res {
                Begun::Waiting(w) => {
                    &&& w.spec_kind() == kind
                    &&& w.lock_site() == lock_location@
                    &&& w.guard_site() == guard_location@
                    &&& w.spec_started() == started
                },
                Begun::Failed(AcquireError::Tracking(e)) => e == TrackError::UnknownLock || e
                    == TrackError::IdsExhausted,
                _ => false,
            },
            Attempt::Failed(failure) => res == Begun::<G, E>::Failed(
                AcquireError::Native(failure),
            ),
        },
{
    let site = guard_location.clone();
    match settle_attempt(attempt, kind, lock_location, guard_location, started, tracker) {
        Ok(g) => Begun::Acquired(g),
        Err(TryAcquireError::Native(failure)) => Begun::Failed(AcquireError::Native(failure)),
        Err(TryAcquireError::Tracking(e)) => Begun::Failed(AcquireError::Tracking(e)),
        Err(TryAcquireError::WouldBlock) => match WaitGuard::new(
            kind,
            lock_location,
            site,
            started,
            tracker,
        ) {
            Ok(w) => Begun::Waiting(w),
            Err(e) => Begun::Failed(AcquireError::Tracking(e)),
        },
    }
}

} // verus!
