//! What holds of the registry and its statistics whatever the locks, the
//! call sites and the times are.

use crate::guard::{
    fresh_guard, guard_acquired, guard_dequeued, guard_queued, guard_released, larger,
    time_between, GuardKind, GuardView,
};
use crate::location::LocationView;
use crate::lock::{guard_index, LockKind};
use crate::registry::{
    after_acquire, after_begin_wait, after_cancel_wait, after_finish_wait, after_register,
    after_release, guard_at, guard_or_fresh, has_lock, knows_guard, lemma_acquire,
    lemma_begin_wait, lemma_cancel_wait, lemma_finish_wait, lemma_release, lemma_step, lock_at,
    registry_wf, RegistryView,
};
use crate::stats::{slide, WINDOW};
use vstd::prelude::*;

verus! {

/// Registering a lock a second time at the same location changes nothing:
/// the registry holds one lock for the location, and as many locks as after
/// the first registration. The first registration adds one lock where the
/// location was unknown, and none where it was known.
pub proof fn law_register_is_idempotent(
    r: RegistryView,
    first: LockKind,
    second: LockKind,
    location: LocationView,
)
    ensures
        after_register(after_register(r, first, location), second, location) == after_register(
            r,
            first,
            location,
        ),
        has_lock(after_register(r, first, location).locks, location),
        after_register(r, first, location).locks.len() == r.locks.len() + (if has_lock(
            r.locks,
            location,
        ) {
            0nat
        } else {
            1nat
        }),
        after_register(r, first, location).next_id == r.next_id,
{
    let once = after_register(r, first, location);
    if !has_lock(r.locks, location) {
        assert(once.locks[r.locks.len() as int].location == location);
    }
}

/// Two guards taken at different call sites on one lock get a statistics
/// entry each, under the one record of their lock: the registry holds as many
/// locks as before, and the lock knows both call sites, at different
/// positions.
pub proof fn law_call_sites_are_told_apart(
    r: RegistryView,
    lock: LocationView,
    first_kind: GuardKind,
    first_site: LocationView,
    first_wait: u64,
    first_now: u64,
    second_kind: GuardKind,
    second_site: LocationView,
    second_wait: u64,
    second_now: u64,
)
    requires
        registry_wf(r),
        has_lock(r.locks, lock),
        r.next_id + 1 < u64::MAX,
        first_site != second_site,
    ensures
        ({
            let one = after_acquire(r, lock, first_kind, first_site, first_wait, first_now);
            let two = after_acquire(one, lock, second_kind, second_site, second_wait, second_now);
            &&& two.locks.len() == r.locks.len()
            &&& has_lock(one.locks, lock)
            &&& knows_guard(two, lock, first_site)
            &&& knows_guard(two, lock, second_site)
            &&& guard_index(lock_at(two, lock).guards, first_site) != guard_index(
                lock_at(two, lock).guards,
                second_site,
            )
            &&& guard_at(two, lock, first_site) == guard_acquired(
                guard_or_fresh(r, lock, first_kind, first_site),
                r.next_id as u64,
                first_wait,
                first_now,
            )
            &&& guard_at(two, lock, second_site) == guard_acquired(
                guard_or_fresh(r, lock, second_kind, second_site),
                (r.next_id + 1) as u64,
                second_wait,
                second_now,
            )
        }),
{
    lemma_acquire(r, lock, first_kind, first_site, first_wait, first_now);
    let one = after_acquire(r, lock, first_kind, first_site, first_wait, first_now);
    assert(has_lock(one.locks, lock));
    lemma_acquire(one, lock, second_kind, second_site, second_wait, second_now);
    let two = after_acquire(one, lock, second_kind, second_site, second_wait, second_now);
    assert(guard_at(two, lock, first_site) == guard_at(one, lock, first_site));
    assert(knows_guard(one, lock, second_site) == knows_guard(r, lock, second_site));
    let guards = lock_at(two, lock).guards;
    let a = guard_index(guards, first_site);
    let b = guard_index(guards, second_site);
    assert(guards[a].location == first_site);
    assert(guards[b].location == second_site);
}

/// An acquisition that starts to wait and is then given up leaves no trace
/// but its call site: the waiting entry is gone, and the call site's count of
/// uses, its held guards and its wait and hold statistics are what they were
/// before (those of a fresh call site, where the site was not known). Every
/// other lock is untouched.
pub proof fn law_cancelled_wait_leaves_no_trace(
    r: RegistryView,
    lock: LocationView,
    kind: GuardKind,
    site: LocationView,
    now: u64,
)
    requires
        registry_wf(r),
        has_lock(r.locks, lock),
        r.next_id < u64::MAX,
    ensures
        ({
            let id = r.next_id as u64;
            let waiting = after_begin_wait(r, lock, kind, site, now);
            let given_up = after_cancel_wait(waiting, lock, site, id);
            let before = guard_or_fresh(r, lock, kind, site);
            &&& knows_guard(waiting, lock, site)
            &&& guard_at(waiting, lock, site).waiting.contains_key(id)
            &&& guard_at(waiting, lock, site) == guard_queued(before, id, now)
            &&& knows_guard(given_up, lock, site)
            &&& guard_at(given_up, lock, site) == before
            &&& !guard_at(given_up, lock, site).waiting.contains_key(id)
            &&& given_up.locks.len() == r.locks.len()
            &&& forall|other: LocationView|
                other != lock && has_lock(r.locks, other) ==> lock_at(given_up, other) == lock_at(
                    r,
                    other,
                )
        }),
{
    let id = r.next_id as u64;
    let before = guard_or_fresh(r, lock, kind, site);
    lemma_step(r, lock, kind, site, before, r.next_id);
    lemma_begin_wait(r, lock, kind, site, now);
    let waiting = after_begin_wait(r, lock, kind, site, now);
    assert(has_lock(waiting.locks, lock));
    lemma_cancel_wait(waiting, lock, site, id);
    let back = guard_dequeued(guard_queued(before, id, now), id);
    assert(back.waiting =~= before.waiting);
    assert(back == before);
    let given_up = after_cancel_wait(waiting, lock, site, id);
    assert forall|other: LocationView| other != lock && has_lock(r.locks, other) implies lock_at(
        given_up,
        other,
    ) == lock_at(r, other) by {
        assert(has_lock(waiting.locks, other));
        assert(lock_at(waiting, other) == lock_at(r, other));
    }
}

/// A wait that ends with its guard counts as one acquisition: the waiting
/// entry is gone, and the call site is what acquiring the guard under the
/// wait's id, without queueing, would have made of it.
pub proof fn law_finished_wait_is_an_acquisition(
    r: RegistryView,
    lock: LocationView,
    kind: GuardKind,
    site: LocationView,
    queued_at: u64,
    wait: u64,
    now: u64,
)
    requires
        registry_wf(r),
        has_lock(r.locks, lock),
        r.next_id < u64::MAX,
    ensures
        ({
            let id = r.next_id as u64;
            let waiting = after_begin_wait(r, lock, kind, site, queued_at);
            let held = after_finish_wait(waiting, lock, site, id, wait, now);
            let before = guard_or_fresh(r, lock, kind, site);
            &&& knows_guard(waiting, lock, site)
            &&& guard_at(waiting, lock, site).waiting.contains_key(id)
            &&& knows_guard(held, lock, site)
            &&& guard_at(held, lock, site) == guard_acquired(before, id, wait, now)
            &&& !guard_at(held, lock, site).waiting.contains_key(id)
            &&& guard_at(held, lock, site).active.contains_key(id)
            &&& guard_at(held, lock, site).active[id] == now
            &&& guard_at(held, lock, site).num_uses == before.num_uses + 1
        }),
{
    let id = r.next_id as u64;
    let before = guard_or_fresh(r, lock, kind, site);
    lemma_step(r, lock, kind, site, before, r.next_id);
    lemma_begin_wait(r, lock, kind, site, queued_at);
    let waiting = after_begin_wait(r, lock, kind, site, queued_at);
    lemma_finish_wait(waiting, lock, site, id, wait, now);
    let back = guard_dequeued(guard_queued(before, id, queued_at), id);
    assert(back.waiting =~= before.waiting);
    assert(back == before);
}

/// A guard is accounted for once when it is acquired and once when it is
/// released: after both, the call site holds the guards and the waiting
/// entries that it held before, counts one use more, and has the wait and
/// the hold duration of this guard, and no other sample, added to its
/// statistics.
pub proof fn law_release_ends_what_acquire_began(
    r: RegistryView,
    lock: LocationView,
    kind: GuardKind,
    site: LocationView,
    wait: u64,
    acquired_at: u64,
    released_at: u64,
)
    requires
        registry_wf(r),
        has_lock(r.locks, lock),
        r.next_id < u64::MAX,
    ensures
        ({
            let id = r.next_id as u64;
            let held = after_acquire(r, lock, kind, site, wait, acquired_at);
            let done = after_release(held, lock, site, id, released_at);
            let before = guard_or_fresh(r, lock, kind, site);
            let hold = time_between(acquired_at, released_at);
            &&& knows_guard(held, lock, site)
            &&& guard_at(held, lock, site).active.contains_key(id)
            &&& guard_at(held, lock, site).active[id] == acquired_at
            &&& guard_at(held, lock, site).active.len() == before.active.len() + 1
            &&& guard_at(done, lock, site) == (GuardView {
                num_uses: before.num_uses + 1,
                waits: slide(before.waits, wait as nat),
                max_wait: larger(before.max_wait, wait),
                holds: slide(before.holds, hold as nat),
                max_hold: larger(before.max_hold, hold),
                ..before
            })
        }),
{
    let id = r.next_id as u64;
    let before = guard_or_fresh(r, lock, kind, site);
    lemma_step(r, lock, kind, site, before, r.next_id);
    lemma_acquire(r, lock, kind, site, wait, acquired_at);
    let held = after_acquire(r, lock, kind, site, wait, acquired_at);
    let got = guard_acquired(before, id, wait, acquired_at);
    assert(!before.active.contains_key(id));
    assert(got.active.dom() =~= before.active.dom().insert(id));
    lemma_release(held, lock, site, id, released_at);
    assert(guard_released(got, id, released_at).active =~= before.active);
}

/// The samples that a moving average holds after `samples` were added in
/// order, starting from none.
pub open spec fn fed(samples: Seq<nat>) -> Seq<nat>
    decreases samples.len(),
{
    if samples.len() == 0 {
        Seq::empty()
    } else {
        slide(fed(samples.drop_last()), samples.last())
    }
}

/// The [`WINDOW`] most recent of `samples`, or all of them where there are
/// fewer.
pub open spec fn recent(samples: Seq<nat>) -> Seq<nat> {
    if samples.len() <= WINDOW {
        samples
    } else {
        samples.subrange(samples.len() - WINDOW, samples.len() as int)
    }
}

/// The running maximum after `samples` were seen in order, starting from
/// zero.
pub open spec fn highest(samples: Seq<u64>) -> u64
    decreases samples.len(),
{
    if samples.len() == 0 {
        0
    } else {
        larger(highest(samples.drop_last()), samples.last())
    }
}

/// A moving average holds the most recent samples, however many were added:
/// all of them up to the window size, and the last window-sized run of them
/// beyond it. Its value is the arithmetic mean of exactly these.
pub proof fn law_average_covers_recent_samples(samples: Seq<nat>)
    ensures
        fed(samples) == recent(samples),
    decreases samples.len(),
{
    if samples.len() > 0 {
        let front = samples.drop_last();
        law_average_covers_recent_samples(front);
        assert(fed(samples) =~= recent(samples));
    } else {
        assert(fed(samples) =~= recent(samples));
    }
}

/// The running maximum is the true maximum of all samples seen so far: no
/// sample exceeds it, and it is one of them (zero where there is none).
pub proof fn law_highest_is_maximum(samples: Seq<u64>)
    ensures
        forall|i: int| 0 <= i < samples.len() ==> #[trigger] samples[i] <= highest(samples),
        samples.len() > 0 ==> exists|i: int|
            0 <= i < samples.len() && #[trigger] samples[i] == highest(samples),
        samples.len() == 0 ==> highest(samples) == 0,
    decreases samples.len(),
{
    if samples.len() > 0 {
        let front = samples.drop_last();
        law_highest_is_maximum(front);
        assert forall|i: int| 0 <= i < samples.len() implies #[trigger] samples[i] <= highest(
            samples,
        ) by {
            if i < front.len() {
                assert(front[i] == samples[i]);
            }
        }
        if highest(samples) == samples.last() {
            assert(samples[samples.len() - 1] == highest(samples));
        } else {
            let i = choose|i: int| 0 <= i < front.len() && #[trigger] front[i] == highest(front);
            assert(samples[i] == highest(samples));
        }
    }
}

/// A guard call site after the guards `ids` were acquired at it in order,
/// guard `i` at `nows[i]` after a wait of `waits[i]`.
pub open spec fn guard_used(g: GuardView, ids: Seq<u64>, waits: Seq<u64>, nows: Seq<u64>)
    -> GuardView
    decreases waits.len(),
{
    if waits.len() == 0 || ids.len() != waits.len() || nows.len() != waits.len() {
        g
    } else {
        guard_acquired(
            guard_used(g, ids.drop_last(), waits.drop_last(), nows.drop_last()),
            ids.last(),
            waits.last(),
            nows.last(),
        )
    }
}

/// The wait statistics of a call site follow its acquisitions: after any
/// number of them on a fresh call site, the count of uses is their number,
/// the wait window holds the most recent waits, and the maximum wait is the
/// true maximum of all of them.
pub proof fn law_wait_statistics_follow_uses(
    kind: GuardKind,
    site: LocationView,
    ids: Seq<u64>,
    waits: Seq<u64>,
    nows: Seq<u64>,
)
    requires
        ids.len() == waits.len(),
        nows.len() == waits.len(),
    ensures
        ({
            let g = guard_used(fresh_guard(kind, site), ids, waits, nows);
            &&& g.num_uses == waits.len()
            &&& g.waits == recent(waits.map_values(|w: u64| w as nat))
            &&& g.max_wait == highest(waits)
            &&& g.holds == Seq::<nat>::empty()
            &&& g.max_hold == 0
        }),
    decreases waits.len(),
{
    let as_nat = |w: u64| w as nat;
    law_average_covers_recent_samples(waits.map_values(as_nat));
    lemma_waits_fed(kind, site, ids, waits, nows);
}

proof fn lemma_waits_fed(
    kind: GuardKind,
    site: LocationView,
    ids: Seq<u64>,
    waits: Seq<u64>,
    nows: Seq<u64>,
)
    requires
        ids.len() == waits.len(),
        nows.len() == waits.len(),
    ensures
        ({
            let g = guard_used(fresh_guard(kind, site), ids, waits, nows);
            &&& g.num_uses == waits.len()
            &&& g.waits == fed(waits.map_values(|w: u64| w as nat))
            &&& g.max_wait == highest(waits)
            &&& g.holds == Seq::<nat>::empty()
            &&& g.max_hold == 0
        }),
    decreases waits.len(),
{
    let as_nat = |w: u64| w as nat;
    if waits.len() > 0 {
        lemma_waits_fed(kind, site, ids.drop_last(), waits.drop_last(), nows.drop_last());
        assert(waits.map_values(as_nat).drop_last() =~= waits.drop_last().map_values(as_nat));
        assert(waits.map_values(as_nat).last() == waits.last() as nat);
    } else {
        assert(waits.map_values(as_nat) =~= Seq::<nat>::empty());
    }
}

/// One event in the life of a guard call site.
pub enum GuardEvent {
    /// The guard `id` is acquired at `now` after a wait of `wait`.
    Acquired { id: u64, wait: u64, now: u64 },
    /// The guard `id` is released at `now`.
    Released { id: u64, now: u64 },
}

/// The call site after one event.
pub open spec fn guard_stepped(g: GuardView, event: GuardEvent) -> GuardView {
    match event {
        GuardEvent::Acquired { id, wait, now } => guard_acquired(g, id, wait, now),
        GuardEvent::Released { id, now } => guard_released(g, id, now),
    }
}

/// The event keeps to the protocol: a guard is acquired under an id that is
/// not held, and only a held guard is released.
pub open spec fn event_fits(g: GuardView, event: GuardEvent) -> bool {
    match event {
        GuardEvent::Acquired { id, wait, now } => !g.active.contains_key(id),
        GuardEvent::Released { id, now } => g.active.contains_key(id),
    }
}

/// The call site after the events of a history, in order.
pub open spec fn guard_after(g: GuardView, events: Seq<GuardEvent>) -> GuardView
    decreases events.len(),
{
    if events.len() == 0 {
        g
    } else {
        guard_stepped(guard_after(g, events.drop_last()), events.last())
    }
}

/// Every event of the history keeps to the protocol when its turn comes.
pub open spec fn history_fits(g: GuardView, events: Seq<GuardEvent>) -> bool
    decreases events.len(),
{
    events.len() == 0 || (history_fits(g, events.drop_last()) && event_fits(
        guard_after(g, events.drop_last()),
        events.last(),
    ))
}

/// The number of acquisitions in a history.
pub open spec fn acquisitions(events: Seq<GuardEvent>) -> nat
    decreases events.len(),
{
    if events.len() == 0 {
        0
    } else {
        acquisitions(events.drop_last()) + (if events.last() is Acquired {
            1nat
        } else {
            0nat
        })
    }
}

/// The number of releases in a history.
pub open spec fn releases(events: Seq<GuardEvent>) -> nat
    decreases events.len(),
{
    if events.len() == 0 {
        0
    } else {
        releases(events.drop_last()) + (if events.last() is Released {
            1nat
        } else {
            0nat
        })
    }
}

/// The waits of the acquisitions of a history, in order.
pub open spec fn wait_times(events: Seq<GuardEvent>) -> Seq<u64>
    decreases events.len(),
{
    if events.len() == 0 {
        Seq::empty()
    } else {
        match events.last() {
            GuardEvent::Acquired { id, wait, now } => wait_times(events.drop_last()).push(wait),
            GuardEvent::Released { id, now } => wait_times(events.drop_last()),
        }
    }
}

/// For each release of a history, in order, the time for which its guard was
/// held: from the acquisition recorded under its id to the release.
pub open spec fn hold_times(g: GuardView, events: Seq<GuardEvent>) -> Seq<u64>
    decreases events.len(),
{
    if events.len() == 0 {
        Seq::empty()
    } else {
        match events.last() {
            GuardEvent::Acquired { id, wait, now } => hold_times(g, events.drop_last()),
            GuardEvent::Released { id, now } => hold_times(g, events.drop_last()).push(
                time_between(guard_after(g, events.drop_last()).active[id], now),
            ),
        }
    }
}

/// Durations as samples of a moving average.
pub open spec fn as_samples(times: Seq<u64>) -> Seq<nat> {
    times.map_values(|t: u64| t as nat)
}

/// Every acquisition and every release is accounted for exactly once. After
/// any history that keeps to the protocol, on a fresh call site: the guards
/// that are held are the acquisitions less the releases, the count of uses
/// is the number of acquisitions, the wait window holds the most recent
/// waits and the hold window the most recent hold durations, and each
/// maximum is the true maximum of all waits, or of all hold durations.
pub proof fn law_history_is_accounted_for(
    kind: GuardKind,
    site: LocationView,
    events: Seq<GuardEvent>,
)
    requires
        history_fits(fresh_guard(kind, site), events),
    ensures
        ({
            let g = guard_after(fresh_guard(kind, site), events);
            &&& g.active.dom().finite()
            &&& g.active.len() + releases(events) == acquisitions(events)
            &&& g.num_uses == acquisitions(events)
            &&& g.waits == recent(as_samples(wait_times(events)))
            &&& g.max_wait == highest(wait_times(events))
            &&& g.holds == recent(as_samples(hold_times(fresh_guard(kind, site), events)))
            &&& g.max_hold == highest(hold_times(fresh_guard(kind, site), events))
        }),
{
    lemma_history(kind, site, events);
    law_average_covers_recent_samples(as_samples(wait_times(events)));
    law_average_covers_recent_samples(as_samples(hold_times(fresh_guard(kind, site), events)));
}

proof fn lemma_history(kind: GuardKind, site: LocationView, events: Seq<GuardEvent>)
    requires
        history_fits(fresh_guard(kind, site), events),
    ensures
        ({
            let g = guard_after(fresh_guard(kind, site), events);
            &&& g.active.dom().finite()
            &&& g.active.len() + releases(events) == acquisitions(events)
            &&& g.num_uses == acquisitions(events)
            &&& g.waits == fed(as_samples(wait_times(events)))
            &&& g.max_wait == highest(wait_times(events))
            &&& g.holds == fed(as_samples(hold_times(fresh_guard(kind, site), events)))
            &&& g.max_hold == highest(hold_times(fresh_guard(kind, site), events))
        }),
    decreases events.len(),
{
    let fresh = fresh_guard(kind, site);
    if events.len() == 0 {
        assert(as_samples(wait_times(events)) =~= Seq::<nat>::empty());
        assert(as_samples(hold_times(fresh, events)) =~= Seq::<nat>::empty());
    } else {
        let front = events.drop_last();
        lemma_history(kind, site, front);
        let before = guard_after(fresh, front);
        let after = guard_after(fresh, events);
        match events.last() {
            GuardEvent::Acquired { id, wait, now } => {
                assert(after.active.dom() =~= before.active.dom().insert(id));
                lemma_fed_push(wait_times(front), wait);
                assert(hold_times(fresh, events) == hold_times(fresh, front));
            },
            GuardEvent::Released { id, now } => {
                assert(after.active.dom() =~= before.active.dom().remove(id));
                let hold = time_between(before.active[id], now);
                lemma_fed_push(hold_times(fresh, front), hold);
                assert(wait_times(events) == wait_times(front));
            },
        }
    }
}

/// One more duration is one more sample, which slides into the window, and
/// the running maximum moves with it.
proof fn lemma_fed_push(times: Seq<u64>, time: u64)
    ensures
        fed(as_samples(times.push(time))) == slide(fed(as_samples(times)), time as nat),
        highest(times.push(time)) == larger(highest(times), time),
{
    let more = times.push(time);
    assert(more.drop_last() =~= times);
    assert(as_samples(more).drop_last() =~= as_samples(times));
    assert(as_samples(more).last() == time as nat);
}

} // verus!
