//! The table of all known locks, and the steps of a guard's life on it:
//! acquisition, queueing, conversion, cancellation and release.

use crate::guard::{
    fresh_guard, guard_acquired, guard_dequeued, guard_queued, guard_released, guard_wf,
    lemma_guard_acquired_wf, lemma_guard_converted_wf, lemma_guard_dequeued_wf,
    lemma_guard_queued_wf, lemma_guard_released_wf, time_between, GuardKind, GuardView,
};
use crate::location::{Location, LocationView};
use crate::lock::{
    fresh_lock, guard_index, has_guard, lemma_guard_index, lemma_lock_acquired_wf,
    lemma_lock_visited, lemma_lock_wf_later, lemma_lock_with, lemma_lock_with_wf, lock_acquired,
    lock_cancelled, lock_converted, lock_guard, lock_queued, lock_released, lock_visited,
    lock_wf, lock_with, LockInfo, LockKind, LockView, TrackError,
};
use vstd::pervasive::unreached;
use vstd::prelude::*;

verus! {

broadcast use vstd::std_specs::hash::group_hash_axioms;

/// The mathematical value of a [`Registry`].
pub struct RegistryView {
    /// The known locks, in order of registration.
    pub locks: Seq<LockView>,
    /// The id that the next acquisition gets.
    pub next_id: nat,
}

/// Some lock among `locks` was created at `location`.
pub open spec fn has_lock(locks: Seq<LockView>, location: LocationView) -> bool {
    exists|i: int| 0 <= i < locks.len() && (#[trigger] locks[i]).location == location
}

/// The position among `locks` of the lock created at `location`.
pub open spec fn lock_index(locks: Seq<LockView>, location: LocationView) -> int {
    choose|i: int| 0 <= i < locks.len() && (#[trigger] locks[i]).location == location
}

/// No two locks share a location.
pub open spec fn distinct_locks(locks: Seq<LockView>) -> bool {
    forall|i: int, j: int|
        0 <= i < j < locks.len() ==> (#[trigger] locks[i]).location != (
        #[trigger] locks[j]).location
}

/// The lock created at `location`, which the registry knows.
pub open spec fn lock_at(r: RegistryView, location: LocationView) -> LockView {
    r.locks[lock_index(r.locks, location)]
}

/// The registry knows a lock at `lock` and, on it, a guard call site at
/// `site`.
pub open spec fn knows_guard(r: RegistryView, lock: LocationView, site: LocationView) -> bool {
    has_lock(r.locks, lock) && has_guard(lock_at(r, lock).guards, site)
}

/// The guard call site at `site` of the lock at `lock`, both known.
pub open spec fn guard_at(r: RegistryView, lock: LocationView, site: LocationView) -> GuardView {
    lock_guard(lock_at(r, lock), site)
}

/// The guard call site at `site` of the known lock at `lock` as the next
/// step of kind `kind` finds it: as it is, or fresh where the lock does not
/// know it yet.
pub open spec fn guard_or_fresh(
    r: RegistryView,
    lock: LocationView,
    kind: GuardKind,
    site: LocationView,
) -> GuardView {
    if knows_guard(r, lock, site) {
        guard_at(r, lock, site)
    } else {
        fresh_guard(kind, site)
    }
}

/// The registry with the lock at `location` replaced by `l`.
pub open spec fn registry_with(r: RegistryView, location: LocationView, l: LockView)
    -> RegistryView {
    RegistryView { locks: r.locks.update(lock_index(r.locks, location), l), ..r }
}

/// What holds of every registry: its locks are distinct, each is well formed,
/// and the next id is one that a `u64` holds.
pub open spec fn registry_wf(r: RegistryView) -> bool {
    &&& distinct_locks(r.locks)
    &&& r.next_id <= u64::MAX
    &&& forall|i: int| 0 <= i < r.locks.len() ==> lock_wf(#[trigger] r.locks[i], r.next_id)
}

/// No lock is known and no id was handed out.
pub open spec fn empty_registry() -> RegistryView {
    RegistryView { locks: Seq::empty(), next_id: 0 }
}

/// A lock of kind `kind` is registered at `location`: the first registration
/// at a location adds a lock, every later one changes nothing.
pub open spec fn after_register(r: RegistryView, kind: LockKind, location: LocationView)
    -> RegistryView {
    if has_lock(r.locks, location) {
        r
    } else {
        RegistryView { locks: r.locks.push(fresh_lock(kind, location)), ..r }
    }
}

/// A guard on the known lock at `lock` is acquired at call site `site`
/// without queueing; it gets the next id.
pub open spec fn after_acquire(
    r: RegistryView,
    lock: LocationView,
    kind: GuardKind,
    site: LocationView,
    wait: u64,
    now: u64,
) -> RegistryView {
    RegistryView {
        next_id: r.next_id + 1,
        ..registry_with(
            r,
            lock,
            lock_acquired(lock_at(r, lock), kind, site, r.next_id as u64, wait, now),
        )
    }
}

/// An acquisition on the known lock at `lock` starts to wait at call site
/// `site`; it gets the next id.
pub open spec fn after_begin_wait(
    r: RegistryView,
    lock: LocationView,
    kind: GuardKind,
    site: LocationView,
    now: u64,
) -> RegistryView {
    RegistryView {
        next_id: r.next_id + 1,
        ..registry_with(r, lock, lock_queued(lock_at(r, lock), kind, site, r.next_id as u64, now))
    }
}

/// The waiting acquisition `id` becomes a held guard.
pub open spec fn after_finish_wait(
    r: RegistryView,
    lock: LocationView,
    site: LocationView,
    id: u64,
    wait: u64,
    now: u64,
) -> RegistryView {
    registry_with(r, lock, lock_converted(lock_at(r, lock), site, id, wait, now))
}

/// The waiting acquisition `id` is given up.
pub open spec fn after_cancel_wait(
    r: RegistryView,
    lock: LocationView,
    site: LocationView,
    id: u64,
) -> RegistryView {
    registry_with(r, lock, lock_cancelled(lock_at(r, lock), site, id))
}

/// The held guard `id` is released.
pub open spec fn after_release(
    r: RegistryView,
    lock: LocationView,
    site: LocationView,
    id: u64,
    now: u64,
) -> RegistryView {
    registry_with(r, lock, lock_released(lock_at(r, lock), site, id, now))
}

/// The mathematical values of a sequence of lock records.
pub open spec fn lock_views(locks: Seq<LockInfo>) -> Seq<LockView> {
    Seq::new(locks.len(), |i: int| locks[i]@)
}

/// `copy` holds the locks of the registry `found`, in order.
pub open spec fn is_snapshot(found: RegistryView, copy: Seq<LockInfo>) -> bool {
    lock_views(copy) == found.locks
}

/// Among distinct locks, the position of a location is the one place where
/// it occurs.
pub proof fn lemma_lock_index(locks: Seq<LockView>, i: int)
    requires
        distinct_locks(locks),
        0 <= i < locks.len(),
    ensures
        has_lock(locks, locks[i].location),
        lock_index(locks, locks[i].location) == i,
{
    let location = locks[i].location;
    assert(has_lock(locks, location));
    let j = lock_index(locks, location);
    assert(0 <= j < locks.len() && locks[j].location == location);
    if j < i {
        assert(locks[j].location != locks[i].location);
    } else if i < j {
        assert(locks[i].location != locks[j].location);
    }
}

/// Replacing a lock by a well-formed one at the same location, while more ids
/// may have been handed out, keeps the registry well formed and every other
/// lock as it was.
pub proof fn lemma_registry_with(r: RegistryView, location: LocationView, l: LockView, later: nat)
    requires
        registry_wf(r),
        has_lock(r.locks, location),
        l.location == location,
        lock_wf(l, later),
        r.next_id <= later <= u64::MAX,
    ensures
        registry_wf(RegistryView { next_id: later, ..registry_with(r, location, l) }),
        has_lock(registry_with(r, location, l).locks, location),
        lock_at(registry_with(r, location, l), location) == l,
        registry_with(r, location, l).locks.len() == r.locks.len(),
        forall|other: LocationView|
            has_lock(registry_with(r, location, l).locks, other) == has_lock(r.locks, other),
        forall|other: LocationView|
            other != location && has_lock(r.locks, other) ==> lock_at(
                registry_with(r, location, l),
                other,
            ) == lock_at(r, other),
{
    let i = lock_index(r.locks, location);
    let after = registry_with(r, location, l).locks;
    assert forall|a: int, b: int| 0 <= a < b < after.len() implies (#[trigger] after[a]).location
        != (#[trigger] after[b]).location by {
        assert(after[a].location == r.locks[a].location);
        assert(after[b].location == r.locks[b].location);
    }
    assert forall|j: int| 0 <= j < after.len() implies lock_wf(#[trigger] after[j], later) by {
        if j != i {
            assert(after[j] == r.locks[j]);
            lemma_lock_wf_later(r.locks[j], r.next_id, later);
        }
    }
    assert(after[i].location == location);
    lemma_lock_index(after, i);
    assert forall|other: LocationView| has_lock(after, other) == has_lock(r.locks, other) by {
        if has_lock(after, other) {
            let j = lock_index(after, other);
            assert(r.locks[j].location == other);
        }
        if has_lock(r.locks, other) {
            let j = lock_index(r.locks, other);
            assert(after[j].location == other);
        }
    }
    assert forall|other: LocationView|
        other != location && has_lock(r.locks, other) implies lock_at(
        registry_with(r, location, l),
        other,
    ) == lock_at(r, other) by {
        let j = lock_index(r.locks, other);
        assert(after[j].location == other);
        lemma_lock_index(after, j);
    }
}

/// Registering a lock keeps the registry well formed, and the lock is then
/// known.
pub proof fn lemma_register(r: RegistryView, kind: LockKind, location: LocationView)
    requires
        registry_wf(r),
    ensures
        registry_wf(after_register(r, kind, location)),
        has_lock(after_register(r, kind, location).locks, location),
{
    let after = after_register(r, kind, location);
    if !has_lock(r.locks, location) {
        let n = r.locks.len() as int;
        assert(after.locks[n] == fresh_lock(kind, location));
        assert forall|a: int, b: int| 0 <= a < b < after.locks.len() implies (
        #[trigger] after.locks[a]).location != (#[trigger] after.locks[b]).location by {
            if b < n {
                assert(r.locks[a].location != r.locks[b].location);
            } else {
                assert(after.locks[a] == r.locks[a]);
            }
        }
        assert forall|j: int| 0 <= j < after.locks.len() implies lock_wf(
            #[trigger] after.locks[j],
            after.next_id,
        ) by {
            if j < n {
                assert(after.locks[j] == r.locks[j]);
            }
        }
        lemma_lock_index(after.locks, n);
    }
}

/// `after` differs from `before` at most in the guard call site at `site`
/// of the lock at `lock`: the same locks are known, every other lock is as
/// it was, and so is every other call site of the lock.
pub open spec fn only_site_changed(
    before: RegistryView,
    after: RegistryView,
    lock: LocationView,
    site: LocationView,
) -> bool {
    &&& after.locks.len() == before.locks.len()
    &&& forall|other: LocationView|
        has_lock(after.locks, other) == has_lock(before.locks, other)
    &&& forall|other: LocationView|
        other != lock && has_lock(before.locks, other) ==> lock_at(after, other) == lock_at(
            before,
            other,
        )
    &&& forall|other: LocationView|
        other != site && knows_guard(before, lock, other) ==> knows_guard(after, lock, other)
            && guard_at(after, lock, other) == guard_at(before, lock, other)
    &&& forall|other: LocationView|
        other != site && knows_guard(after, lock, other) ==> knows_guard(before, lock, other)
}

/// One step on the call site at `site` of the known lock at `lock`: the site
/// is made known and then replaced by `g`. The registry stays well formed,
/// the site is then known and is `g`, and nothing else changes.
pub proof fn lemma_step(
    r: RegistryView,
    lock: LocationView,
    kind: GuardKind,
    site: LocationView,
    g: GuardView,
    later: nat,
)
    requires
        registry_wf(r),
        has_lock(r.locks, lock),
        g.location == site,
        guard_wf(g, later),
        r.next_id <= later <= u64::MAX,
    ensures
        ({
            let visited = lock_visited(lock_at(r, lock), kind, site);
            let after = RegistryView {
                next_id: later,
                ..registry_with(r, lock, lock_with(visited, site, g))
            };
            &&& registry_wf(after)
            &&& lock_guard(visited, site) == guard_or_fresh(r, lock, kind, site)
            &&& guard_wf(guard_or_fresh(r, lock, kind, site), r.next_id)
            &&& guard_or_fresh(r, lock, kind, site).location == site
            &&& knows_guard(r, lock, site) ==> visited == lock_at(r, lock)
            &&& knows_guard(after, lock, site)
            &&& guard_at(after, lock, site) == g
            &&& only_site_changed(r, after, lock, site)
        }),
{
    let l = lock_at(r, lock);
    assert(lock_wf(l, r.next_id));
    lemma_lock_visited(l, kind, site, r.next_id);
    let visited = lock_visited(l, kind, site);
    if has_guard(l.guards, site) {
        assert(guard_wf(l.guards[guard_index(l.guards, site)], r.next_id));
    }
    lemma_lock_with(visited, site, g);
    lemma_lock_with_wf(visited, site, g, r.next_id, later);
    let stepped = lock_with(visited, site, g);
    lemma_registry_with(r, lock, stepped, later);
    let after = RegistryView { next_id: later, ..registry_with(r, lock, stepped) };
    assert(lock_at(after, lock) == stepped);
    assert forall|other: LocationView|
        other != site && knows_guard(r, lock, other) implies knows_guard(after, lock, other)
        && guard_at(after, lock, other) == guard_at(r, lock, other) by {
        let j = guard_index(l.guards, other);
        assert(visited.guards[j] == l.guards[j]);
        lemma_guard_index(visited.guards, j);
        assert(has_guard(visited.guards, other));
        assert(has_guard(stepped.guards, other));
    }
    assert forall|other: LocationView|
        other != site && knows_guard(after, lock, other) implies knows_guard(r, lock, other) by {
        assert(has_guard(visited.guards, other));
        let j = guard_index(visited.guards, other);
        assert(visited.guards[j].location == other);
        if j < l.guards.len() {
            assert(l.guards[j].location == other);
        }
    }
}

/// What acquiring a guard does: the registry stays well formed, the call
/// site is known afterwards and is what it was (or a fresh one) with the
/// guard acquired under the next id, and nothing else changes.
pub proof fn lemma_acquire(
    r: RegistryView,
    lock: LocationView,
    kind: GuardKind,
    site: LocationView,
    wait: u64,
    now: u64,
)
    requires
        registry_wf(r),
        has_lock(r.locks, lock),
        r.next_id < u64::MAX,
    ensures
        ({
            let after = after_acquire(r, lock, kind, site, wait, now);
            &&& registry_wf(after)
            &&& knows_guard(after, lock, site)
            &&& guard_at(after, lock, site) == guard_acquired(
                guard_or_fresh(r, lock, kind, site),
                r.next_id as u64,
                wait,
                now,
            )
            &&& only_site_changed(r, after, lock, site)
        }),
{
    let before = guard_or_fresh(r, lock, kind, site);
    lemma_step(r, lock, kind, site, before, r.next_id);
    lemma_guard_acquired_wf(before, r.next_id as u64, wait, now, r.next_id);
    lemma_step(
        r,
        lock,
        kind,
        site,
        guard_acquired(before, r.next_id as u64, wait, now),
        r.next_id + 1,
    );
}

/// What queueing an acquisition does: the registry stays well formed, the
/// call site is known afterwards and is what it was (or a fresh one) with
/// the waiting entry under the next id, and nothing else changes.
pub proof fn lemma_begin_wait(
    r: RegistryView,
    lock: LocationView,
    kind: GuardKind,
    site: LocationView,
    now: u64,
)
    requires
        registry_wf(r),
        has_lock(r.locks, lock),
        r.next_id < u64::MAX,
    ensures
        ({
            let after = after_begin_wait(r, lock, kind, site, now);
            &&& registry_wf(after)
            &&& knows_guard(after, lock, site)
            &&& guard_at(after, lock, site) == guard_queued(
                guard_or_fresh(r, lock, kind, site),
                r.next_id as u64,
                now,
            )
            &&& only_site_changed(r, after, lock, site)
        }),
{
    let before = guard_or_fresh(r, lock, kind, site);
    lemma_step(r, lock, kind, site, before, r.next_id);
    lemma_guard_queued_wf(before, r.next_id as u64, now, r.next_id);
    lemma_step(r, lock, kind, site, guard_queued(before, r.next_id as u64, now), r.next_id + 1);
}

/// What the end of a wait does: the registry stays well formed, the call
/// site is what it was with the waiting entry turned into a held guard, and
/// nothing else changes. The call site's count of uses has room for it.
pub proof fn lemma_finish_wait(
    r: RegistryView,
    lock: LocationView,
    site: LocationView,
    id: u64,
    wait: u64,
    now: u64,
)
    requires
        registry_wf(r),
        knows_guard(r, lock, site),
        guard_at(r, lock, site).waiting.contains_key(id),
    ensures
        ({
            let after = after_finish_wait(r, lock, site, id, wait, now);
            &&& registry_wf(after)
            &&& knows_guard(after, lock, site)
            &&& guard_at(after, lock, site) == guard_acquired(
                guard_dequeued(guard_at(r, lock, site), id),
                id,
                wait,
                now,
            )
            &&& only_site_changed(r, after, lock, site)
            &&& guard_at(r, lock, site).num_uses < u64::MAX
        }),
{
    let before = guard_at(r, lock, site);
    lemma_step(r, lock, GuardKind::Lock, site, before, r.next_id);
    lemma_guard_converted_wf(before, id, wait, now, r.next_id);
    lemma_step(
        r,
        lock,
        GuardKind::Lock,
        site,
        guard_acquired(guard_dequeued(before, id), id, wait, now),
        r.next_id,
    );
}

/// What giving up a wait does: the registry stays well formed, the call site
/// is what it was without the waiting entry, and nothing else changes.
pub proof fn lemma_cancel_wait(r: RegistryView, lock: LocationView, site: LocationView, id: u64)
    requires
        registry_wf(r),
        knows_guard(r, lock, site),
    ensures
        ({
            let after = after_cancel_wait(r, lock, site, id);
            &&& registry_wf(after)
            &&& knows_guard(after, lock, site)
            &&& guard_at(after, lock, site) == guard_dequeued(guard_at(r, lock, site), id)
            &&& only_site_changed(r, after, lock, site)
        }),
{
    let before = guard_at(r, lock, site);
    lemma_step(r, lock, GuardKind::Lock, site, before, r.next_id);
    lemma_guard_dequeued_wf(before, id, r.next_id);
    lemma_step(r, lock, GuardKind::Lock, site, guard_dequeued(before, id), r.next_id);
}

/// What releasing a guard does: the registry stays well formed, the call
/// site is what it was with the guard released, and nothing else changes.
pub proof fn lemma_release(
    r: RegistryView,
    lock: LocationView,
    site: LocationView,
    id: u64,
    now: u64,
)
    requires
        registry_wf(r),
        knows_guard(r, lock, site),
    ensures
        ({
            let after = after_release(r, lock, site, id, now);
            &&& registry_wf(after)
            &&& knows_guard(after, lock, site)
            &&& guard_at(after, lock, site) == guard_released(guard_at(r, lock, site), id, now)
            &&& only_site_changed(r, after, lock, site)
        }),
{
    let before = guard_at(r, lock, site);
    lemma_step(r, lock, GuardKind::Lock, site, before, r.next_id);
    lemma_guard_released_wf(before, id, now, r.next_id);
    lemma_step(r, lock, GuardKind::Lock, site, guard_released(before, id, now), r.next_id);
}

/// The table of all known locks, in order of registration, with the source
/// of the ids that tell the guards of a call site apart.
#[derive(Debug)]
pub struct Registry {
    locks: Vec<LockInfo>,
    next_id: u64,
}

impl View for Registry {
    type V = RegistryView;

    closed spec fn view(&self) -> RegistryView {
        RegistryView {
            locks: Seq::new(self.locks@.len(), |i: int| self.locks@[i]@),
            next_id: self.next_id as nat,
        }
    }
}

impl Registry {
    /// The registry's locks are distinct and well formed.
    pub open spec fn wf(&self) -> bool {
        registry_wf(self@)
    }

    /// A registry that knows no lock.
    pub fn new() -> (r: Self)
        ensures
            r.wf(),
            r@ == empty_registry(),
    {
        let r = Registry { locks: Vec::new(), next_id: 0 };
        assert(r@.locks =~= Seq::empty());
        r
    }

    /// A registry that knows no lock and hands out the ids from `first_id`
    /// on.
    pub fn starting_at(first_id: u64) -> (r: Self)
        ensures
            r.wf(),
            r@ == (RegistryView { locks: Seq::empty(), next_id: first_id as nat }),
    {
        let r = Registry { locks: Vec::new(), next_id: first_id };
        assert(r@.locks =~= Seq::empty());
        r
    }

    /// The number of known locks.
    pub fn len(&self) -> (n: usize)
        ensures
            n == self@.locks.len(),
    {
        self.locks.len()
    }

    /// The position of the lock created at `location`, if it is known.
    fn find_lock(&self, location: &Location) -> (found: Option<usize>)
        requires
            self.wf(),
        ensures
            match found {
                Some(i) => {
                    &&& has_lock(self@.locks, location@)
                    &&& i == lock_index(self@.locks, location@)
                    &&& i < self.locks.len()
                },
                None => !has_lock(self@.locks, location@),
            },
    {
        let mut i: usize = 0;
        while i < self.locks.len()
            invariant
                self.wf(),
                i <= self.locks.len(),
                forall|j: int| 0 <= j < i ==> (#[trigger] self@.locks[j]).location != location@,
            decreases self.locks.len() - i,
        {
            if self.locks[i].location == *location {
                proof {
                    lemma_lock_index(self@.locks, i as int);
                }
                return Some(i);
            }
            i += 1;
        }
        None
    }

    /// The record of the lock created at `location`, if it is known.
    pub fn lock(&self, location: &Location) -> (found: Option<&LockInfo>)
        requires
            self.wf(),
        ensures
            match found {
                Some(l) => has_lock(self@.locks, location@) && l@ == lock_at(self@, location@)
                    && l.wf(),
                None => !has_lock(self@.locks, location@),
            },
    {
        match self.find_lock(location) {
            Some(i) => {
                assert(lock_wf(self@.locks[i as int], self@.next_id));
                Some(&self.locks[i])
            },
            None => None,
        }
    }

    /// Registers the creation of a lock of kind `kind` at `location` and
    /// returns the location under which the lock is known. The first
    /// registration at a location adds the lock; a later one changes nothing.
    pub fn register(&mut self, kind: LockKind, location: Location) -> (known: Location)
        requires
            old(self).wf(),
        ensures
            final(self).wf(),
            known@ == location@,
            final(self)@ == after_register(old(self)@, kind, location@),
            has_lock(final(self)@.locks, location@),
    {
        proof {
            lemma_register(self@, kind, location@);
        }
        match self.find_lock(&location) {
            Some(i) => self.locks[i].location.clone(),
            None => {
                self.locks.push(LockInfo::new(kind, location.clone()));
                assert(self@.locks =~= old(self)@.locks.push(fresh_lock(kind, location@)));
                location
            },
        }
    }

    /// Whether a lock is registered at `location`.
    pub fn knows(&self, location: &Location) -> (known: bool)
        requires
            self.wf(),
        ensures
            known == has_lock(self@.locks, location@),
    {
        self.find_lock(location).is_some()
    }

    /// Records that a guard of kind `kind` on the registered lock at `lock`
    /// was acquired at call site `site` at `now`, without queueing, after a
    /// wait of `wait`, and returns the guard's id. Fails, with nothing
    /// recorded, where every id was handed out.
    pub fn acquire(
        &mut self,
        lock: &Location,
        kind: GuardKind,
        site: &Location,
        wait: u64,
        now: u64,
    ) -> (res: Result<u64, TrackError>)
        requires
            old(self).wf(),
            has_lock(old(self)@.locks, lock@),
        ensures
            final(self).wf(),
            match res {
                Ok(id) => {
                    &&& id == old(self)@.next_id
                    &&& final(self)@ == after_acquire(old(self)@, lock@, kind, site@, wait, now)
                    &&& knows_guard(final(self)@, lock@, site@)
                    &&& guard_at(final(self)@, lock@, site@) == guard_acquired(
                        guard_or_fresh(old(self)@, lock@, kind, site@),
                        id,
                        wait,
                        now,
                    )
                    &&& only_site_changed(old(self)@, final(self)@, lock@, site@)
                },
                Err(e) => {
                    &&& final(self)@ == old(self)@
                    &&& e == TrackError::IdsExhausted
                    &&& old(self)@.next_id == u64::MAX
                },
            },
    {
        let i = match self.find_lock(lock) {
            Some(i) => i,
            None => unreached(),
        };
        if self.next_id == u64::MAX {
            return Err(TrackError::IdsExhausted);
        }
        let id = self.next_id;
        proof {
            assert(lock_wf(self@.locks[i as int], self@.next_id));
            lemma_lock_acquired_wf(self@.locks[i as int], kind, site@, id, wait, now, id as nat);
            lemma_acquire(self@, lock@, kind, site@, wait, now);
        }
        self.locks[i].acquired(kind, site, id, wait, now);
        self.next_id = id + 1;
        assert(self@.locks =~= after_acquire(old(self)@, lock@, kind, site@, wait, now).locks);
        Ok(id)
    }

    /// Records an acquired guard as [`Registry::acquire`] does, where the
    /// lock at `lock` is registered. Fails, with nothing recorded, where it
    /// is not, and where every id was handed out.
    pub fn checked_acquire(
        &mut self,
        lock: &Location,
        kind: GuardKind,
        site: &Location,
        wait: u64,
        now: u64,
    ) -> (res: Result<u64, TrackError>)
        requires
            old(self).wf(),
        ensures
            final(self).wf(),
            match res {
                Ok(id) => {
                    &&& has_lock(old(self)@.locks, lock@)
                    &&& id == old(self)@.next_id
                    &&& final(self)@ == after_acquire(old(self)@, lock@, kind, site@, wait, now)
                    &&& knows_guard(final(self)@, lock@, site@)
                    &&& guard_at(final(self)@, lock@, site@) == guard_acquired(
                        guard_or_fresh(old(self)@, lock@, kind, site@),
                        id,
                        wait,
                        now,
                    )
                    &&& only_site_changed(old(self)@, final(self)@, lock@, site@)
                },
                Err(e) => {
                    &&& final(self)@ == old(self)@
                    &&& e == (if !has_lock(old(self)@.locks, lock@) {
                        TrackError::UnknownLock
                    } else {
                        TrackError::IdsExhausted
                    })
                    &&& has_lock(old(self)@.locks, lock@) ==> old(self)@.next_id == u64::MAX
                },
            },
    {
        if self.knows(lock) {
            self.acquire(lock, kind, site, wait, now)
        } else {
            Err(TrackError::UnknownLock)
        }
    }

    /// Records what an attempt that did not block came to, for a guard of
    /// kind `kind` on the lock at `lock`, at call site `site`. An attempt
    /// that got no guard records nothing: no call site is made known, and no
    /// count and no statistic changes. One that got its guard is recorded as
    /// [`Registry::checked_acquire`] records it, and its id is returned.
    pub fn attempted(
        &mut self,
        acquired: bool,
        lock: &Location,
        kind: GuardKind,
        site: &Location,
        wait: u64,
        now: u64,
    ) -> (res: Result<Option<u64>, TrackError>)
        requires
            old(self).wf(),
        ensures
            final(self).wf(),
            !acquired ==> res == Ok::<Option<u64>, TrackError>(None) && final(self)@ == old(
                self,
            )@,
            acquired ==> match res {
                Ok(Some(id)) => {
                    &&& has_lock(old(self)@.locks, lock@)
                    &&& id == old(self)@.next_id
                    &&& final(self)@ == after_acquire(old(self)@, lock@, kind, site@, wait, now)
                    &&& knows_guard(final(self)@, lock@, site@)
                    &&& guard_at(final(self)@, lock@, site@) == guard_acquired(
                        guard_or_fresh(old(self)@, lock@, kind, site@),
                        id,
                        wait,
                        now,
                    )
                    &&& only_site_changed(old(self)@, final(self)@, lock@, site@)
                },
                Ok(None) => false,
                Err(e) => {
                    &&& final(self)@ == old(self)@
                    &&& e == (if !has_lock(old(self)@.locks, lock@) {
                        TrackError::UnknownLock
                    } else {
                        TrackError::IdsExhausted
                    })
                    &&& has_lock(old(self)@.locks, lock@) ==> old(self)@.next_id == u64::MAX
                },
            },
    {
        if acquired {
            match self.checked_acquire(lock, kind, site, wait, now) {
                Ok(id) => Ok(Some(id)),
                Err(e) => Err(e),
            }
        } else {
            Ok(None)
        }
    }

    /// Records that an acquisition of kind `kind` on the lock at `lock` began
    /// to wait at call site `site` at `now`, and returns its id. Fails, with
    /// nothing recorded, where the lock is unknown or every id was handed out.
    pub fn begin_wait(
        &mut self,
        lock: &Location,
        kind: GuardKind,
        site: &Location,
        now: u64,
    ) -> (res: Result<u64, TrackError>)
        requires
            old(self).wf(),
        ensures
            final(self).wf(),
            match res {
                Ok(id) => {
                    &&& has_lock(old(self)@.locks, lock@)
                    &&& id == old(self)@.next_id
                    &&& final(self)@ == after_begin_wait(old(self)@, lock@, kind, site@, now)
                    &&& knows_guard(final(self)@, lock@, site@)
                    &&& guard_at(final(self)@, lock@, site@) == guard_queued(
                        guard_or_fresh(old(self)@, lock@, kind, site@),
                        id,
                        now,
                    )
                    &&& only_site_changed(old(self)@, final(self)@, lock@, site@)
                },
                Err(e) => {
                    &&& final(self)@ == old(self)@
                    &&& e == (if !has_lock(old(self)@.locks, lock@) {
                        TrackError::UnknownLock
                    } else {
                        TrackError::IdsExhausted
                    })
                    &&& has_lock(old(self)@.locks, lock@) ==> old(self)@.next_id == u64::MAX
                },
            },
    {
        let i = match self.find_lock(lock) {
            Some(i) => i,
            None => {
                return Err(TrackError::UnknownLock);
            },
        };
        if self.next_id == u64::MAX {
            return Err(TrackError::IdsExhausted);
        }
        let id = self.next_id;
        proof {
            assert(lock_wf(self@.locks[i as int], self@.next_id));
            lemma_begin_wait(self@, lock@, kind, site@, now);
        }
        self.locks[i].queued(kind, site, id, now);
        self.next_id = id + 1;
        assert(self@.locks =~= after_begin_wait(old(self)@, lock@, kind, site@, now).locks);
        Ok(id)
    }

    /// Records that the waiting acquisition `id` got its guard at `now` after
    /// a wait of `wait`. Fails, with nothing recorded, where the lock, the
    /// call site or the waiting entry is unknown.
    pub fn finish_wait(
        &mut self,
        lock: &Location,
        site: &Location,
        id: u64,
        wait: u64,
        now: u64,
    ) -> (res: Result<(), TrackError>)
        requires
            old(self).wf(),
        ensures
            final(self).wf(),
            match res {
                Ok(()) => {
                    &&& knows_guard(old(self)@, lock@, site@)
                    &&& guard_at(old(self)@, lock@, site@).waiting.contains_key(id)
                    &&& final(self)@ == after_finish_wait(old(self)@, lock@, site@, id, wait, now)
                    &&& knows_guard(final(self)@, lock@, site@)
                    &&& guard_at(final(self)@, lock@, site@) == guard_acquired(
                        guard_dequeued(guard_at(old(self)@, lock@, site@), id),
                        id,
                        wait,
                        now,
                    )
                    &&& only_site_changed(old(self)@, final(self)@, lock@, site@)
                },
                Err(e) => {
                    &&& final(self)@ == old(self)@
                    &&& e == (if !has_lock(old(self)@.locks, lock@) {
                        TrackError::UnknownLock
                    } else if !knows_guard(old(self)@, lock@, site@) {
                        TrackError::UnknownGuard
                    } else {
                        TrackError::NotWaiting
                    })
                    &&& knows_guard(old(self)@, lock@, site@) ==> !guard_at(
                        old(self)@,
                        lock@,
                        site@,
                    ).waiting.contains_key(id)
                },
            },
    {
        let i = match self.find_lock(lock) {
            Some(i) => i,
            None => {
                return Err(TrackError::UnknownLock);
            },
        };
        proof {
            assert(lock_wf(self@.locks[i as int], self@.next_id));
            if knows_guard(self@, lock@, site@) && guard_at(
                self@,
                lock@,
                site@,
            ).waiting.contains_key(id) {
                lemma_finish_wait(self@, lock@, site@, id, wait, now);
            }
        }
        let res = self.locks[i].converted(site, id, wait, now);
        proof {
            if res is Ok {
                assert(self@.locks =~= after_finish_wait(
                    old(self)@,
                    lock@,
                    site@,
                    id,
                    wait,
                    now,
                ).locks);
            } else {
                assert(self@.locks =~= old(self)@.locks);
            }
        }
        res
    }

    /// Records that the waiting acquisition `id` was given up: its waiting
    /// entry leaves, and neither the count of uses nor any statistic changes.
    /// Fails, with nothing recorded, where the lock, the call site or the
    /// waiting entry is unknown.
    pub fn cancel_wait(&mut self, lock: &Location, site: &Location, id: u64) -> (res: Result<
        (),
        TrackError,
    >)
        requires
            old(self).wf(),
        ensures
            final(self).wf(),
            match res {
                Ok(()) => {
                    &&& knows_guard(old(self)@, lock@, site@)
                    &&& guard_at(old(self)@, lock@, site@).waiting.contains_key(id)
                    &&& final(self)@ == after_cancel_wait(old(self)@, lock@, site@, id)
                    &&& knows_guard(final(self)@, lock@, site@)
                    &&& guard_at(final(self)@, lock@, site@) == guard_dequeued(
                        guard_at(old(self)@, lock@, site@),
                        id,
                    )
                    &&& only_site_changed(old(self)@, final(self)@, lock@, site@)
                },
                Err(e) => {
                    &&& final(self)@ == old(self)@
                    &&& e == (if !has_lock(old(self)@.locks, lock@) {
                        TrackError::UnknownLock
                    } else if !knows_guard(old(self)@, lock@, site@) {
                        TrackError::UnknownGuard
                    } else {
                        TrackError::NotWaiting
                    })
                    &&& knows_guard(old(self)@, lock@, site@) ==> !guard_at(
                        old(self)@,
                        lock@,
                        site@,
                    ).waiting.contains_key(id)
                },
            },
    {
        let i = match self.find_lock(lock) {
            Some(i) => i,
            None => {
                return Err(TrackError::UnknownLock);
            },
        };
        proof {
            assert(lock_wf(self@.locks[i as int], self@.next_id));
            if knows_guard(self@, lock@, site@) {
                lemma_cancel_wait(self@, lock@, site@, id);
            }
        }
        let res = self.locks[i].cancelled(site, id);
        proof {
            if res is Ok {
                assert(self@.locks =~= after_cancel_wait(old(self)@, lock@, site@, id).locks);
            } else {
                assert(self@.locks =~= old(self)@.locks);
            }
        }
        res
    }

    /// Whether the guard `id` is held at the call site `site` of the lock at
    /// `lock`; where it is not, the error names what is missing.
    pub fn check_held(&self, lock: &Location, site: &Location, id: u64) -> (res: Result<
        (),
        TrackError,
    >)
        requires
            self.wf(),
        ensures
            match res {
                Ok(()) => knows_guard(self@, lock@, site@) && guard_at(
                    self@,
                    lock@,
                    site@,
                ).active.contains_key(id),
                Err(e) => {
                    &&& e == (if !has_lock(self@.locks, lock@) {
                        TrackError::UnknownLock
                    } else if !knows_guard(self@, lock@, site@) {
                        TrackError::UnknownGuard
                    } else {
                        TrackError::NotActive
                    })
                    &&& knows_guard(self@, lock@, site@) ==> !guard_at(
                        self@,
                        lock@,
                        site@,
                    ).active.contains_key(id)
                },
            },
    {
        match self.lock(lock) {
            None => Err(TrackError::UnknownLock),
            Some(info) => match info.guard(site) {
                None => Err(TrackError::UnknownGuard),
                Some(guard) => if guard.active_uses.contains_key(&id) {
                    Ok(())
                } else {
                    Err(TrackError::NotActive)
                },
            },
        }
    }

    /// Records that the guard `id`, which is held at the call site `site` of
    /// the lock at `lock`, was released at `now`, and returns for how long it
    /// was held: its active entry leaves and the duration enters the hold
    /// statistics of its call site.
    pub fn release(&mut self, lock: &Location, site: &Location, id: u64, now: u64) -> (hold: u64)
        requires
            old(self).wf(),
            knows_guard(old(self)@, lock@, site@),
            guard_at(old(self)@, lock@, site@).active.contains_key(id),
        ensures
            final(self).wf(),
            hold == time_between(guard_at(old(self)@, lock@, site@).active[id], now),
            final(self)@ == after_release(old(self)@, lock@, site@, id, now),
            knows_guard(final(self)@, lock@, site@),
            guard_at(final(self)@, lock@, site@) == guard_released(
                guard_at(old(self)@, lock@, site@),
                id,
                now,
            ),
            only_site_changed(old(self)@, final(self)@, lock@, site@),
    {
        let i = match self.find_lock(lock) {
            Some(i) => i,
            None => unreached(),
        };
        proof {
            assert(lock_wf(self@.locks[i as int], self@.next_id));
            lemma_release(self@, lock@, site@, id, now);
        }
        match self.locks[i].released(site, id, now) {
            Ok(hold) => {
                assert(self@.locks =~= after_release(old(self)@, lock@, site@, id, now).locks);
                hold
            },
            Err(_) => unreached(),
        }
    }

    /// Records a release as [`Registry::release`] does, where the guard `id`
    /// is held at the call site `site` of the lock at `lock`. Fails, with
    /// nothing recorded, where the lock, the call site or the active entry is
    /// unknown.
    pub fn checked_release(&mut self, lock: &Location, site: &Location, id: u64, now: u64) -> (res:
        Result<u64, TrackError>)
        requires
            old(self).wf(),
        ensures
            final(self).wf(),
            match res {
                Ok(hold) => {
                    &&& knows_guard(old(self)@, lock@, site@)
                    &&& guard_at(old(self)@, lock@, site@).active.contains_key(id)
                    &&& hold == time_between(guard_at(old(self)@, lock@, site@).active[id], now)
                    &&& final(self)@ == after_release(old(self)@, lock@, site@, id, now)
                    &&& knows_guard(final(self)@, lock@, site@)
                    &&& guard_at(final(self)@, lock@, site@) == guard_released(
                        guard_at(old(self)@, lock@, site@),
                        id,
                        now,
                    )
                    &&& only_site_changed(old(self)@, final(self)@, lock@, site@)
                },
                Err(e) => {
                    &&& final(self)@ == old(self)@
                    &&& e == (if !has_lock(old(self)@.locks, lock@) {
                        TrackError::UnknownLock
                    } else if !knows_guard(old(self)@, lock@, site@) {
                        TrackError::UnknownGuard
                    } else {
                        TrackError::NotActive
                    })
                    &&& knows_guard(old(self)@, lock@, site@) ==> !guard_at(
                        old(self)@,
                        lock@,
                        site@,
                    ).active.contains_key(id)
                },
            },
    {
        match self.check_held(lock, site, id) {
            Ok(()) => Ok(self.release(lock, site, id, now)),
            Err(e) => Err(e),
        }
    }

    /// Returns a vector containing snapshots of the data related to all the
    /// locks, in order of registration: a copy that no later step changes.
    pub fn snapshots(&self) -> (copy: Vec<LockInfo>)
        ensures
            copy@.len() == self@.locks.len(),
            forall|i: int| 0 <= i < copy@.len() ==> (#[trigger] copy@[i])@ == self@.locks[i],
            is_snapshot(self@, copy@),
    {
        let mut copy: Vec<LockInfo> = Vec::new();
        let mut i: usize = 0;
        while i < self.locks.len()
            invariant
                i <= self.locks.len(),
                copy@.len() == i,
                forall|j: int| 0 <= j < i ==> (#[trigger] copy@[j])@ == self.locks@[j]@,
            decreases self.locks.len() - i,
        {
            copy.push(self.locks[i].clone());
            i += 1;
        }
        assert(lock_views(copy@) =~= self@.locks);
        copy
    }

    /// Forgets every lock. The ids that were handed out stay retired.
    pub fn clear(&mut self)
        requires
            old(self).wf(),
        ensures
            final(self).wf(),
            final(self)@ == (RegistryView { locks: Seq::empty(), ..old(self)@ }),
    {
        self.locks.clear();
        assert(self@.locks =~= Seq::empty());
    }
}

} // verus!
