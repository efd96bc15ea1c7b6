//! The statistics kept for one guard call site of one lock.

use crate::location::{Location, LocationView};
use crate::stats::{mean, slide, MovingAverage};
use std::collections::HashMap;
use vstd::prelude::*;

verus! {

broadcast use vstd::std_specs::hash::group_hash_axioms;

/// The type of the guard that was created when working with a lock.
#[derive(Debug, Clone, Copy, PartialEq, Eq, Hash, Structural)]
pub enum GuardKind {
    Lock,
    Read,
    Write,
}

/// Contains data and statistics related to a single guard call site. Times
/// are in nanoseconds.
#[derive(Debug)]
pub struct GuardInfo {
    pub kind: GuardKind,
    pub location: Location,
    /// The number of completed acquisitions.
    pub num_uses: u64,
    /// The guards that are held now: their ids and when each was acquired.
    pub active_uses: HashMap<u64, u64>,
    /// The acquisitions that are queued now: their ids and when each began.
    pub waiting_tasks: HashMap<u64, u64>,
    pub avg_wait_time: MovingAverage,
    pub max_wait_time: u64,
    pub avg_duration: MovingAverage,
    pub max_duration: u64,
}

/// The mathematical value of a [`GuardInfo`].
pub struct GuardView {
    pub kind: GuardKind,
    pub location: LocationView,
    pub num_uses: nat,
    pub active: Map<u64, u64>,
    pub waiting: Map<u64, u64>,
    /// The most recent wait times, oldest first.
    pub waits: Seq<nat>,
    pub max_wait: u64,
    /// The most recent hold durations, oldest first.
    pub holds: Seq<nat>,
    pub max_hold: u64,
}

impl View for GuardInfo {
    type V = GuardView;

    open spec fn view(&self) -> GuardView {
        GuardView {
            kind: self.kind,
            location: self.location@,
            num_uses: self.num_uses as nat,
            active: self.active_uses@,
            waiting: self.waiting_tasks@,
            waits: self.avg_wait_time@,
            max_wait: self.max_wait_time,
            holds: self.avg_duration@,
            max_hold: self.max_duration,
        }
    }
}

/// The larger of two durations.
pub open spec fn larger(a: u64, b: u64) -> u64 {
    if a >= b {
        a
    } else {
        b
    }
}

/// The time from `start` to `end`, zero where `end` is the earlier one.
pub open spec fn time_between(start: u64, end: u64) -> u64 {
    if end >= start {
        (end - start) as u64
    } else {
        0
    }
}

/// A guard call site that was never used.
pub open spec fn fresh_guard(kind: GuardKind, location: LocationView) -> GuardView {
    GuardView {
        kind,
        location,
        num_uses: 0,
        active: Map::empty(),
        waiting: Map::empty(),
        waits: Seq::empty(),
        max_wait: 0,
        holds: Seq::empty(),
        max_hold: 0,
    }
}

/// The acquisition `id` starts to wait at `now`.
pub open spec fn guard_queued(g: GuardView, id: u64, now: u64) -> GuardView {
    GuardView { waiting: g.waiting.insert(id, now), ..g }
}

/// The acquisition `id` waits no longer.
pub open spec fn guard_dequeued(g: GuardView, id: u64) -> GuardView {
    GuardView { waiting: g.waiting.remove(id), ..g }
}

/// The guard `id` is acquired at `now`, after it waited for `wait`.
pub open spec fn guard_acquired(g: GuardView, id: u64, wait: u64, now: u64) -> GuardView {
    GuardView {
        num_uses: g.num_uses + 1,
        active: g.active.insert(id, now),
        waits: slide(g.waits, wait as nat),
        max_wait: larger(g.max_wait, wait),
        ..g
    }
}

/// The guard `id`, which is held, is released at `now`.
pub open spec fn guard_released(g: GuardView, id: u64, now: u64) -> GuardView {
    let hold = time_between(g.active[id], now);
    GuardView {
        active: g.active.remove(id),
        holds: slide(g.holds, hold as nat),
        max_hold: larger(g.max_hold, hold),
        ..g
    }
}

/// What holds of a guard call site while ids below `next_id` were handed
/// out: its entries carry such ids, it holds no more guards than it counted
/// uses, and its uses and waiting entries took an id each.
pub open spec fn guard_wf(g: GuardView, next_id: nat) -> bool {
    &&& g.active.dom().finite()
    &&& g.waiting.dom().finite()
    &&& forall|id: u64| #[trigger] g.active.contains_key(id) ==> id < next_id
    &&& forall|id: u64| #[trigger] g.waiting.contains_key(id) ==> id < next_id
    &&& g.active.len() <= g.num_uses
    &&& g.num_uses + g.waiting.len() <= next_id
}

/// A well-formed call site stays so when more ids are handed out.
pub proof fn lemma_guard_wf_later(g: GuardView, next_id: nat, later: nat)
    requires
        guard_wf(g, next_id),
        next_id <= later,
    ensures
        guard_wf(g, later),
{
}

/// Acquiring a guard under the next id keeps a call site well formed.
pub proof fn lemma_guard_acquired_wf(g: GuardView, id: u64, wait: u64, now: u64, next_id: nat)
    requires
        guard_wf(g, next_id),
        id == next_id,
    ensures
        guard_wf(guard_acquired(g, id, wait, now), next_id + 1),
        g.num_uses < next_id + 1,
{
    assert(!g.active.contains_key(id));
    let after = guard_acquired(g, id, wait, now);
    assert(after.active.dom() =~= g.active.dom().insert(id));
}

/// Queueing an acquisition under the next id keeps a call site well formed.
pub proof fn lemma_guard_queued_wf(g: GuardView, id: u64, now: u64, next_id: nat)
    requires
        guard_wf(g, next_id),
        id == next_id,
    ensures
        guard_wf(guard_queued(g, id, now), next_id + 1),
{
    assert(!g.waiting.contains_key(id));
    let after = guard_queued(g, id, now);
    assert(after.waiting.dom() =~= g.waiting.dom().insert(id));
}

/// Giving up a waiting acquisition keeps a call site well formed.
pub proof fn lemma_guard_dequeued_wf(g: GuardView, id: u64, next_id: nat)
    requires
        guard_wf(g, next_id),
    ensures
        guard_wf(guard_dequeued(g, id), next_id),
        g.waiting.contains_key(id) ==> guard_dequeued(g, id).waiting.len() + 1
            == g.waiting.len(),
{
    let after = guard_dequeued(g, id);
    assert(after.waiting.dom() =~= g.waiting.dom().remove(id));
}

/// Turning a waiting acquisition into a held guard keeps a call site well
/// formed, and its count of uses has room for one more.
pub proof fn lemma_guard_converted_wf(g: GuardView, id: u64, wait: u64, now: u64, next_id: nat)
    requires
        guard_wf(g, next_id),
        g.waiting.contains_key(id),
    ensures
        guard_wf(guard_acquired(guard_dequeued(g, id), id, wait, now), next_id),
        g.num_uses < next_id,
{
    lemma_guard_dequeued_wf(g, id, next_id);
    let mid = guard_dequeued(g, id);
    let after = guard_acquired(mid, id, wait, now);
    assert(after.active.dom() =~= mid.active.dom().insert(id));
}

/// Releasing a guard keeps a call site well formed.
pub proof fn lemma_guard_released_wf(g: GuardView, id: u64, now: u64, next_id: nat)
    requires
        guard_wf(g, next_id),
    ensures
        guard_wf(guard_released(g, id, now), next_id),
{
    let after = guard_released(g, id, now);
    assert(after.active.dom() =~= g.active.dom().remove(id));
}

impl GuardInfo {
    /// The statistics of a guard call site that was never used.
    pub fn new(kind: GuardKind, location: Location) -> (g: Self)
        ensures
            g@ == fresh_guard(kind, location@),
    {
        GuardInfo {
            kind,
            location,
            num_uses: 0,
            active_uses: HashMap::new(),
            waiting_tasks: HashMap::new(),
            avg_wait_time: MovingAverage::new(),
            max_wait_time: 0,
            avg_duration: MovingAverage::new(),
            max_duration: 0,
        }
    }

    /// Returns the number of current uses of the guard. It can
    /// be greater than `1` only in case of a read guard, and `0`
    /// indicates that the guard is currently inactive.
    pub fn num_active_uses(&self) -> (n: usize)
        ensures
            n == self@.active.len(),
    {
        self.active_uses.len()
    }

    /// Returns the number of acquisitions that are queued at this call site.
    pub fn num_waiting(&self) -> (n: usize)
        ensures
            n == self@.waiting.len(),
    {
        self.waiting_tasks.len()
    }

    /// Returns the average wait time for the guard. It is a moving
    /// average that gets updated with each use.
    pub fn avg_wait_time(&self) -> (avg: u64)
        ensures
            avg == mean(self@.waits),
    {
        self.avg_wait_time.get_average()
    }

    /// Returns the average duration of the guard. It is a moving
    /// average that gets updated with each use.
    pub fn avg_duration(&self) -> (avg: u64)
        ensures
            avg == mean(self@.holds),
    {
        self.avg_duration.get_average()
    }

    /// Records that the acquisition `id` began to wait at `now`.
    pub fn note_queued(&mut self, id: u64, now: u64)
        ensures
            final(self)@ == guard_queued(old(self)@, id, now),
    {
        self.waiting_tasks.insert(id, now);
    }

    /// Records that the acquisition `id` waits no longer, and says whether it
    /// was waiting.
    pub fn note_dequeued(&mut self, id: u64) -> (was_waiting: bool)
        ensures
            was_waiting == old(self)@.waiting.contains_key(id),
            final(self)@ == guard_dequeued(old(self)@, id),
    {
        let removed = self.waiting_tasks.remove(&id);
        proof {
            if !old(self)@.waiting.contains_key(id) {
                assert(old(self)@.waiting.remove(id) =~= old(self)@.waiting);
            }
        }
        removed.is_some()
    }

    /// Records that the guard `id` was acquired at `now` after a wait of
    /// `wait`.
    pub fn note_acquired(&mut self, id: u64, wait: u64, now: u64)
        requires
            old(self).num_uses < u64::MAX,
        ensures
            final(self)@ == guard_acquired(old(self)@, id, wait, now),
    {
        self.num_uses = self.num_uses + 1;
        self.avg_wait_time.add_sample(wait);
        if wait > self.max_wait_time {
            self.max_wait_time = wait;
        }
        self.active_uses.insert(id, now);
    }

    /// Records that the guard `id` was released at `now`, and returns for how
    /// long it was held; `None`, with nothing recorded, where no such guard is
    /// held.
    pub fn note_released(&mut self, id: u64, now: u64) -> (hold: Option<u64>)
        ensures
            match hold {
                Some(h) => {
                    &&& old(self)@.active.contains_key(id)
                    &&& h == time_between(old(self)@.active[id], now)
                    &&& final(self)@ == guard_released(old(self)@, id, now)
                },
                None => !old(self)@.active.contains_key(id) && final(self)@ == old(self)@,
            },
    {
        match self.active_uses.remove(&id) {
            Some(since) => {
                let hold: u64 = if now >= since {
                    now - since
                } else {
                    0
                };
                self.avg_duration.add_sample(hold);
                if hold > self.max_duration {
                    self.max_duration = hold;
                }
                Some(hold)
            },
            None => {
                proof {
                    assert(old(self)@.active.remove(id) =~= old(self)@.active);
                }
                None
            },
        }
    }
}

impl Clone for GuardInfo {
    fn clone(&self) -> (g: Self)
        ensures
            g@ == self@,
    {
        GuardInfo {
            kind: self.kind,
            location: self.location.clone(),
            num_uses: self.num_uses,
            active_uses: self.active_uses.clone(),
            waiting_tasks: self.waiting_tasks.clone(),
            avg_wait_time: self.avg_wait_time.clone(),
            max_wait_time: self.max_wait_time,
            avg_duration: self.avg_duration.clone(),
            max_duration: self.max_duration,
        }
    }
}

} // verus!
