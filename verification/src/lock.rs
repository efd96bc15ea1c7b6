//! The record of one lock: its creation site and its guard call sites.

use crate::guard::{
    fresh_guard, guard_acquired, guard_dequeued, guard_queued, guard_released, guard_wf,
    lemma_guard_acquired_wf, lemma_guard_wf_later, time_between, GuardInfo, GuardKind,
    GuardView,
};
use crate::location::{Location, LocationView};
use vstd::prelude::*;

verus! {

/// The type of the lock; either a `Mutex` or an `RwLock`.
#[derive(Debug, Clone, Copy, PartialEq, Eq, Hash, Structural)]
pub enum LockKind {
    Mutex,
    RwLock,
}

/// Why a step of a guard's life could not be recorded.
#[derive(Debug, Clone, Copy, PartialEq, Eq, Hash, Structural)]
pub enum TrackError {
    /// No lock is registered at the lock's location.
    UnknownLock,
    /// The lock has no guard call site at the guard's location.
    UnknownGuard,
    /// No acquisition with the id is waiting at the call site.
    NotWaiting,
    /// No guard with the id is held at the call site.
    NotActive,
    /// Every id was handed out.
    IdsExhausted,
}

/// Contains all the details related to a given lock: where it was created,
/// and the statistics of every call site that took a guard on it, in order of
/// first use.
#[derive(Debug)]
pub struct LockInfo {
    pub kind: LockKind,
    pub location: Location,
    pub known_guards: Vec<GuardInfo>,
}

/// The mathematical value of a [`LockInfo`].
pub struct LockView {
    pub kind: LockKind,
    pub location: LocationView,
    pub guards: Seq<GuardView>,
}

impl View for LockInfo {
    type V = LockView;

    open spec fn view(&self) -> LockView {
        LockView {
            kind: self.kind,
            location: self.location@,
            guards: Seq::new(self.known_guards@.len(), |i: int| self.known_guards@[i]@),
        }
    }
}

/// Some guard call site among `guards` is at `site`.
pub open spec fn has_guard(guards: Seq<GuardView>, site: LocationView) -> bool {
    exists|i: int| 0 <= i < guards.len() && (#[trigger] guards[i]).location == site
}

/// The position among `guards` of the call site at `site`.
pub open spec fn guard_index(guards: Seq<GuardView>, site: LocationView) -> int {
    choose|i: int| 0 <= i < guards.len() && (#[trigger] guards[i]).location == site
}

/// No two guard call sites share a location.
pub open spec fn distinct_sites(guards: Seq<GuardView>) -> bool {
    forall|i: int, j: int|
        0 <= i < j < guards.len() ==> (#[trigger] guards[i]).location != (
        #[trigger] guards[j]).location
}

/// The guard call sites with one at `site`: a fresh one is appended where
/// there was none.
pub open spec fn with_guard(guards: Seq<GuardView>, kind: GuardKind, site: LocationView) -> Seq<
    GuardView,
> {
    if has_guard(guards, site) {
        guards
    } else {
        guards.push(fresh_guard(kind, site))
    }
}

/// A lock on which no guard was taken yet.
pub open spec fn fresh_lock(kind: LockKind, location: LocationView) -> LockView {
    LockView { kind, location, guards: Seq::empty() }
}

/// The lock with the call site at `site` replaced by `g`.
pub open spec fn lock_with(l: LockView, site: LocationView, g: GuardView) -> LockView {
    LockView { guards: l.guards.update(guard_index(l.guards, site), g), ..l }
}

/// The lock with a call site at `site`, fresh where there was none.
pub open spec fn lock_visited(l: LockView, kind: GuardKind, site: LocationView) -> LockView {
    LockView { guards: with_guard(l.guards, kind, site), ..l }
}

/// The call site at `site`, which the lock knows.
pub open spec fn lock_guard(l: LockView, site: LocationView) -> GuardView {
    l.guards[guard_index(l.guards, site)]
}

/// A guard of kind `kind` is acquired at call site `site`, without queueing.
pub open spec fn lock_acquired(
    l: LockView,
    kind: GuardKind,
    site: LocationView,
    id: u64,
    wait: u64,
    now: u64,
) -> LockView {
    let v = lock_visited(l, kind, site);
    lock_with(v, site, guard_acquired(lock_guard(v, site), id, wait, now))
}

/// An acquisition of kind `kind` starts to wait at call site `site`.
pub open spec fn lock_queued(l: LockView, kind: GuardKind, site: LocationView, id: u64, now: u64)
    -> LockView {
    let v = lock_visited(l, kind, site);
    lock_with(v, site, guard_queued(lock_guard(v, site), id, now))
}

/// The waiting acquisition `id` at the known call site `site` is given up.
pub open spec fn lock_cancelled(l: LockView, site: LocationView, id: u64) -> LockView {
    lock_with(l, site, guard_dequeued(lock_guard(l, site), id))
}

/// The waiting acquisition `id` at the known call site `site` becomes a held
/// guard.
pub open spec fn lock_converted(l: LockView, site: LocationView, id: u64, wait: u64, now: u64)
    -> LockView {
    lock_with(l, site, guard_acquired(guard_dequeued(lock_guard(l, site), id), id, wait, now))
}

/// The held guard `id` at the known call site `site` is released.
pub open spec fn lock_released(l: LockView, site: LocationView, id: u64, now: u64) -> LockView {
    lock_with(l, site, guard_released(lock_guard(l, site), id, now))
}

/// In a sequence of distinct call sites, the position of a site is the one
/// place where it occurs.
pub proof fn lemma_guard_index(guards: Seq<GuardView>, i: int)
    requires
        distinct_sites(guards),
        0 <= i < guards.len(),
    ensures
        has_guard(guards, guards[i].location),
        guard_index(guards, guards[i].location) == i,
{
    let site = guards[i].location;
    assert(has_guard(guards, site));
    let j = guard_index(guards, site);
    assert(0 <= j < guards.len() && guards[j].location == site);
    if j < i {
        assert(guards[j].location != guards[i].location);
    } else if i < j {
        assert(guards[i].location != guards[j].location);
    }
}

/// Replacing a call site by one at the same location keeps the sites
/// distinct and in place.
pub proof fn lemma_lock_with(l: LockView, site: LocationView, g: GuardView)
    requires
        distinct_sites(l.guards),
        has_guard(l.guards, site),
        g.location == site,
    ensures
        distinct_sites(lock_with(l, site, g).guards),
        has_guard(lock_with(l, site, g).guards, site),
        guard_index(lock_with(l, site, g).guards, site) == guard_index(l.guards, site),
        lock_guard(lock_with(l, site, g), site) == g,
        forall|other: LocationView|
            has_guard(lock_with(l, site, g).guards, other) == has_guard(l.guards, other),
        forall|other: LocationView|
            other != site && has_guard(l.guards, other) ==> lock_guard(
                lock_with(l, site, g),
                other,
            ) == lock_guard(l, other) && guard_index(lock_with(l, site, g).guards, other)
                == guard_index(l.guards, other),
{
    let i = guard_index(l.guards, site);
    let after = lock_with(l, site, g).guards;
    assert forall|a: int, b: int| 0 <= a < b < after.len() implies (#[trigger] after[a]).location
        != (#[trigger] after[b]).location by {
        assert(after[a].location == l.guards[a].location);
        assert(after[b].location == l.guards[b].location);
    }
    assert(after[i].location == site);
    lemma_guard_index(after, i);
    assert forall|other: LocationView| has_guard(after, other) == has_guard(l.guards, other) by {
        if has_guard(after, other) {
            let j = guard_index(after, other);
            assert(l.guards[j].location == other);
        }
        if has_guard(l.guards, other) {
            let j = guard_index(l.guards, other);
            assert(after[j].location == other);
        }
    }
    assert forall|other: LocationView|
        other != site && has_guard(l.guards, other) implies lock_guard(
        lock_with(l, site, g),
        other,
    ) == lock_guard(l, other) && guard_index(after, other) == guard_index(l.guards, other) by {
        let j = guard_index(l.guards, other);
        assert(after[j].location == other);
        lemma_guard_index(after, j);
    }
}

/// What holds of a lock while ids below `next_id` were handed out: its call
/// sites are distinct, and each is well formed.
pub open spec fn lock_wf(l: LockView, next_id: nat) -> bool {
    &&& distinct_sites(l.guards)
    &&& forall|j: int| 0 <= j < l.guards.len() ==> guard_wf(#[trigger] l.guards[j], next_id)
}

/// A well-formed lock stays so when more ids are handed out.
pub proof fn lemma_lock_wf_later(l: LockView, next_id: nat, later: nat)
    requires
        lock_wf(l, next_id),
        next_id <= later,
    ensures
        lock_wf(l, later),
{
    assert forall|j: int| 0 <= j < l.guards.len() implies guard_wf(
        #[trigger] l.guards[j],
        later,
    ) by {
        lemma_guard_wf_later(l.guards[j], next_id, later);
    }
}

/// Making a call site known keeps a lock well formed, and the site is then
/// known under its location.
pub proof fn lemma_lock_visited(l: LockView, kind: GuardKind, site: LocationView, next_id: nat)
    requires
        lock_wf(l, next_id),
    ensures
        lock_wf(lock_visited(l, kind, site), next_id),
        has_guard(lock_visited(l, kind, site).guards, site),
        lock_guard(lock_visited(l, kind, site), site).location == site,
        has_guard(l.guards, site) ==> lock_visited(l, kind, site) == l,
        !has_guard(l.guards, site) ==> lock_guard(lock_visited(l, kind, site), site)
            == fresh_guard(kind, site),
{
    let v = lock_visited(l, kind, site);
    if !has_guard(l.guards, site) {
        let n = l.guards.len() as int;
        assert(v.guards[n] == fresh_guard(kind, site));
        assert forall|a: int, b: int| 0 <= a < b < v.guards.len() implies (
        #[trigger] v.guards[a]).location != (#[trigger] v.guards[b]).location by {
            if b < n {
                assert(l.guards[a].location != l.guards[b].location);
            } else {
                assert(v.guards[a] == l.guards[a]);
            }
        }
        assert forall|j: int| 0 <= j < v.guards.len() implies guard_wf(
            #[trigger] v.guards[j],
            next_id,
        ) by {
            if j < n {
                assert(v.guards[j] == l.guards[j]);
            }
        }
        lemma_guard_index(v.guards, n);
    }
}

/// Replacing a call site by a well-formed one at the same location keeps a
/// lock well formed.
pub proof fn lemma_lock_with_wf(
    l: LockView,
    site: LocationView,
    g: GuardView,
    next_id: nat,
    later: nat,
)
    requires
        lock_wf(l, next_id),
        has_guard(l.guards, site),
        g.location == site,
        guard_wf(g, later),
        next_id <= later,
    ensures
        lock_wf(lock_with(l, site, g), later),
{
    lemma_lock_with(l, site, g);
    let after = lock_with(l, site, g);
    assert forall|j: int| 0 <= j < after.guards.len() implies guard_wf(
        #[trigger] after.guards[j],
        later,
    ) by {
        if j != guard_index(l.guards, site) {
            assert(after.guards[j] == l.guards[j]);
            lemma_guard_wf_later(l.guards[j], next_id, later);
        }
    }
}

/// Acquiring a guard under the next id keeps a lock well formed.
pub proof fn lemma_lock_acquired_wf(
    l: LockView,
    kind: GuardKind,
    site: LocationView,
    id: u64,
    wait: u64,
    now: u64,
    next_id: nat,
)
    requires
        lock_wf(l, next_id),
        id == next_id,
    ensures
        lock_wf(lock_acquired(l, kind, site, id, wait, now), next_id + 1),
        has_guard(l.guards, site) ==> lock_guard(l, site).num_uses <= next_id,
{
    lemma_lock_visited(l, kind, site, next_id);
    let v = lock_visited(l, kind, site);
    let g = lock_guard(v, site);
    lemma_guard_acquired_wf(g, id, wait, now, next_id);
    lemma_lock_with_wf(v, site, guard_acquired(g, id, wait, now), next_id, next_id + 1);
}

impl LockInfo {
    /// No two guard call sites of the lock share a location.
    pub open spec fn wf(&self) -> bool {
        distinct_sites(self@.guards)
    }

    /// The record of a lock on which no guard was taken yet.
    pub fn new(kind: LockKind, location: Location) -> (l: Self)
        ensures
            l@ == fresh_lock(kind, location@),
            l.wf(),
    {
        let l = LockInfo { kind, location, known_guards: Vec::new() };
        assert(l@.guards =~= Seq::empty());
        l
    }

    /// The position of the guard call site at `site`, if the lock knows it.
    pub fn find_guard(&self, site: &Location) -> (found: Option<usize>)
        requires
            self.wf(),
        ensures
            match found {
                Some(i) => has_guard(self@.guards, site@) && i == guard_index(
                    self@.guards,
                    site@,
                ),
                None => !has_guard(self@.guards, site@),
            },
    {
        let mut i: usize = 0;
        while i < self.known_guards.len()
            invariant
                self.wf(),
                i <= self.known_guards.len(),
                forall|j: int| 0 <= j < i ==> (#[trigger] self@.guards[j]).location != site@,
            decreases self.known_guards.len() - i,
        {
            if self.known_guards[i].location == *site {
                proof {
                    lemma_guard_index(self@.guards, i as int);
                }
                return Some(i);
            }
            i += 1;
        }
        None
    }

    /// The statistics of the guard call site at `site`, if the lock knows it.
    pub fn guard(&self, site: &Location) -> (found: Option<&GuardInfo>)
        requires
            self.wf(),
        ensures
            match found {
                Some(g) => has_guard(self@.guards, site@) && g@ == lock_guard(self@, site@),
                None => !has_guard(self@.guards, site@),
            },
    {
        match self.find_guard(site) {
            Some(i) => Some(&self.known_guards[i]),
            None => None,
        }
    }

    /// Makes sure that the lock knows the call site at `site`, and returns its
    /// position.
    pub fn visit(&mut self, kind: GuardKind, site: &Location) -> (i: usize)
        requires
            old(self).wf(),
        ensures
            final(self).wf(),
            final(self)@ == lock_visited(old(self)@, kind, site@),
            has_guard(final(self)@.guards, site@),
            i == guard_index(final(self)@.guards, site@),
            i < final(self).known_guards.len(),
    {
        match self.find_guard(site) {
            Some(i) => i,
            None => {
                let i = self.known_guards.len();
                self.known_guards.push(GuardInfo::new(kind, site.clone()));
                proof {
                    assert(self@.guards =~= old(self)@.guards.push(fresh_guard(kind, site@)));
                    assert forall|a: int, b: int| 0 <= a < b < self@.guards.len() implies (
                    #[trigger] self@.guards[a]).location != (
                    #[trigger] self@.guards[b]).location by {
                        if b < i {
                            assert(old(self)@.guards[a].location != old(self)@.guards[b].location);
                        } else {
                            assert(self@.guards[a] == old(self)@.guards[a]);
                        }
                    }
                    lemma_guard_index(self@.guards, i as int);
                }
                i
            },
        }
    }

    /// Records that a guard of kind `kind` was acquired at `site` without
    /// queueing: its call site is made known and counts one more use, the
    /// wait enters its wait statistics, and the guard is held from `now`.
    pub fn acquired(
        &mut self,
        kind: GuardKind,
        site: &Location,
        id: u64,
        wait: u64,
        now: u64,
    )
        requires
            old(self).wf(),
            has_guard(old(self)@.guards, site@) ==> lock_guard(old(self)@, site@).num_uses
                < u64::MAX,
        ensures
            final(self).wf(),
            final(self)@ == lock_acquired(old(self)@, kind, site@, id, wait, now),
    {
        let i = self.visit(kind, site);
        let ghost visited = self@;
        self.known_guards[i].note_acquired(id, wait, now);
        proof {
            let g = guard_acquired(lock_guard(visited, site@), id, wait, now);
            assert(self@.guards =~= lock_with(visited, site@, g).guards);
            lemma_lock_with(visited, site@, g);
        }
    }

    /// Records that an acquisition of kind `kind` began to wait at `site`:
    /// its call site is made known and holds the waiting entry from `now`.
    pub fn queued(&mut self, kind: GuardKind, site: &Location, id: u64, now: u64)
        requires
            old(self).wf(),
        ensures
            final(self).wf(),
            final(self)@ == lock_queued(old(self)@, kind, site@, id, now),
    {
        let i = self.visit(kind, site);
        let ghost visited = self@;
        self.known_guards[i].note_queued(id, now);
        proof {
            let g = guard_queued(lock_guard(visited, site@), id, now);
            assert(self@.guards =~= lock_with(visited, site@, g).guards);
            lemma_lock_with(visited, site@, g);
        }
    }

    /// Records that the waiting acquisition `id` at `site` was given up: its
    /// waiting entry leaves and nothing else changes. Fails, with nothing
    /// recorded, where the call site or the waiting entry is unknown.
    pub fn cancelled(&mut self, site: &Location, id: u64) -> (res: Result<(), TrackError>)
        requires
            old(self).wf(),
        ensures
            final(self).wf(),
            match res {
                Ok(()) => {
                    &&& has_guard(old(self)@.guards, site@)
                    &&& lock_guard(old(self)@, site@).waiting.contains_key(id)
                    &&& final(self)@ == lock_cancelled(old(self)@, site@, id)
                },
                Err(e) => {
                    &&& final(self)@ == old(self)@
                    &&& e == (if !has_guard(old(self)@.guards, site@) {
                        TrackError::UnknownGuard
                    } else {
                        TrackError::NotWaiting
                    })
                    &&& has_guard(old(self)@.guards, site@) ==> !lock_guard(
                        old(self)@,
                        site@,
                    ).waiting.contains_key(id)
                },
            },
    {
        match self.find_guard(site) {
            None => Err(TrackError::UnknownGuard),
            Some(i) => {
                if self.known_guards[i].note_dequeued(id) {
                    proof {
                        let g = guard_dequeued(lock_guard(old(self)@, site@), id);
                        assert(self@.guards =~= lock_with(old(self)@, site@, g).guards);
                        lemma_lock_with(old(self)@, site@, g);
                    }
                    Ok(())
                } else {
                    proof {
                        let before = lock_guard(old(self)@, site@);
                        assert(before.waiting.remove(id) =~= before.waiting);
                        assert(self@.guards =~= old(self)@.guards);
                    }
                    Err(TrackError::NotWaiting)
                }
            },
        }
    }

    /// Records that the waiting acquisition `id` at `site` got its guard at
    /// `now` after a wait of `wait`: the waiting entry leaves, the call site
    /// counts one more use, the wait enters its wait statistics, and the
    /// guard is held from `now`. Fails, with nothing recorded, where the call
    /// site or the waiting entry is unknown.
    pub fn converted(&mut self, site: &Location, id: u64, wait: u64, now: u64) -> (res: Result<
        (),
        TrackError,
    >)
        requires
            old(self).wf(),
            has_guard(old(self)@.guards, site@) && lock_guard(
                old(self)@,
                site@,
            ).waiting.contains_key(id) ==> lock_guard(old(self)@, site@).num_uses < u64::MAX,
        ensures
            final(self).wf(),
            match res {
                Ok(()) => {
                    &&& has_guard(old(self)@.guards, site@)
                    &&& lock_guard(old(self)@, site@).waiting.contains_key(id)
                    &&& final(self)@ == lock_converted(old(self)@, site@, id, wait, now)
                },
                Err(e) => {
                    &&& final(self)@ == old(self)@
                    &&& e == (if !has_guard(old(self)@.guards, site@) {
                        TrackError::UnknownGuard
                    } else {
                        TrackError::NotWaiting
                    })
                    &&& has_guard(old(self)@.guards, site@) ==> !lock_guard(
                        old(self)@,
                        site@,
                    ).waiting.contains_key(id)
                },
            },
    {
        match self.find_guard(site) {
            None => Err(TrackError::UnknownGuard),
            Some(i) => {
                if self.known_guards[i].note_dequeued(id) {
                    self.known_guards[i].note_acquired(id, wait, now);
                    proof {
                        let g = guard_acquired(
                            guard_dequeued(lock_guard(old(self)@, site@), id),
                            id,
                            wait,
                            now,
                        );
                        assert(self@.guards =~= lock_with(old(self)@, site@, g).guards);
                        lemma_lock_with(old(self)@, site@, g);
                    }
                    Ok(())
                } else {
                    proof {
                        let before = lock_guard(old(self)@, site@);
                        assert(before.waiting.remove(id) =~= before.waiting);
                        assert(self@.guards =~= old(self)@.guards);
                    }
                    Err(TrackError::NotWaiting)
                }
            },
        }
    }

    /// Records that the held guard `id` at `site` was released at `now`, and
    /// returns for how long it was held: its active entry leaves and the
    /// duration enters the hold statistics. Fails, with nothing recorded,
    /// where the call site or the active entry is unknown.
    pub fn released(&mut self, site: &Location, id: u64, now: u64) -> (res: Result<
        u64,
        TrackError,
    >)
        requires
            old(self).wf(),
        ensures
            final(self).wf(),
            match res {
                Ok(hold) => {
                    &&& has_guard(old(self)@.guards, site@)
                    &&& lock_guard(old(self)@, site@).active.contains_key(id)
                    &&& hold == time_between(lock_guard(old(self)@, site@).active[id], now)
                    &&& final(self)@ == lock_released(old(self)@, site@, id, now)
                },
                Err(e) => {
                    &&& final(self)@ == old(self)@
                    &&& e == (if !has_guard(old(self)@.guards, site@) {
                        TrackError::UnknownGuard
                    } else {
                        TrackError::NotActive
                    })
                    &&& has_guard(old(self)@.guards, site@) ==> !lock_guard(
                        old(self)@,
                        site@,
                    ).active.contains_key(id)
                },
            },
    {
        match self.find_guard(site) {
            None => Err(TrackError::UnknownGuard),
            Some(i) => {
                match self.known_guards[i].note_released(id, now) {
                    Some(hold) => {
                        proof {
                            let g = guard_released(lock_guard(old(self)@, site@), id, now);
                            assert(self@.guards =~= lock_with(old(self)@, site@, g).guards);
                            lemma_lock_with(old(self)@, site@, g);
                        }
                        Ok(hold)
                    },
                    None => {
                        proof {
                            assert(self@.guards =~= old(self)@.guards);
                        }
                        Err(TrackError::NotActive)
                    },
                }
            },
        }
    }
}

impl Clone for LockInfo {
    fn clone(&self) -> (l: Self)
        ensures
            l@ == self@,
    {
        let mut guards: Vec<GuardInfo> = Vec::new();
        let mut i: usize = 0;
        while i < self.known_guards.len()
            invariant
                i <= self.known_guards.len(),
                guards@.len() == i,
                forall|j: int| 0 <= j < i ==> (#[trigger] guards@[j])@ == self.known_guards@[j]@,
            decreases self.known_guards.len() - i,
        {
            guards.push(self.known_guards[i].clone());
            i += 1;
        }
        let l = LockInfo { kind: self.kind, location: self.location.clone(), known_guards: guards };
        assert(l@.guards =~= self@.guards);
        l
    }
}

} // verus!
