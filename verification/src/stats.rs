//! Bounded-memory statistics over durations: a moving average over the most
//! recent samples.

use simple_moving_average::{SingleSumSMA, SMA};
use vstd::prelude::*;

verus! {

/// The number of most recent samples that a moving average covers.
pub const WINDOW: usize = 50;

/// `simple_moving_average::SingleSumSMA`, whose inside only its methods know.
#[verifier::external_type_specification]
#[verifier::external_body]
#[verifier::reject_recursive_types(Sample)]
#[verifier::reject_recursive_types(Divisor)]
pub struct ExSingleSumSMA<Sample, Divisor, const WINDOW_SIZE: usize>(
    SingleSumSMA<Sample, Divisor, WINDOW_SIZE>,
);

/// The samples that a `SingleSumSMA` currently holds, oldest first.
pub uninterp spec fn window_samples(sma: SingleSumSMA<u128, u128, 50>) -> Seq<nat>;

/// The window after one more sample: the sample is appended, and the oldest
/// one leaves once the window is full.
pub open spec fn slide(window: Seq<nat>, sample: nat) -> Seq<nat> {
    if window.len() < WINDOW {
        window.push(sample)
    } else {
        window.drop_first().push(sample)
    }
}

/// The sum of the samples.
pub open spec fn total(window: Seq<nat>) -> nat
    decreases window.len(),
{
    if window.len() == 0 {
        0
    } else {
        total(window.drop_last()) + window.last()
    }
}

/// The arithmetic mean of the samples, rounded down; zero for no samples.
pub open spec fn mean(window: Seq<nat>) -> nat {
    if window.len() == 0 {
        0
    } else {
        total(window) / window.len()
    }
}

/// `SingleSumSMA::from_zero`: a moving average that holds no sample yet.
#[verifier::external_body]
fn sma_new() -> (sma: SingleSumSMA<u128, u128, 50>)
    ensures
        window_samples(sma) == Seq::<nat>::empty(),
{
    SingleSumSMA::from_zero(0)
}

/// `SMA::add_sample`: the sample enters the window, and the oldest sample
/// leaves if the window was full. The crate keeps the sum of the window in a
/// `u128`, so the sum with the new sample must fit.
#[verifier::external_body]
fn sma_add(sma: &mut SingleSumSMA<u128, u128, 50>, sample: u128)
    requires
        total(window_samples(*old(sma))) + sample <= u128::MAX,
    ensures
        window_samples(*final(sma)) == slide(window_samples(*old(sma)), sample as nat),
{
    sma.add_sample(sample)
}

/// `SMA::get_average`: the sum of the window divided by the number of samples
/// in it, or zero where it holds none.
#[verifier::external_body]
fn sma_average(sma: &SingleSumSMA<u128, u128, 50>) -> (avg: u128)
    ensures
        avg == mean(window_samples(*sma)),
{
    sma.get_average()
}

/// Every sample fits in a `u64`, and there are at most [`WINDOW`] of them.
pub open spec fn bounded(window: Seq<nat>) -> bool {
    &&& window.len() <= WINDOW
    &&& forall|i: int| 0 <= i < window.len() ==> #[trigger] window[i] <= u64::MAX
}

/// The sum of a window is at most its length times the largest `u64`.
pub proof fn lemma_total_bound(window: Seq<nat>)
    requires
        forall|i: int| 0 <= i < window.len() ==> #[trigger] window[i] <= u64::MAX,
    ensures
        total(window) <= window.len() * u64::MAX,
    decreases window.len(),
{
    if window.len() > 0 {
        let front = window.drop_last();
        assert forall|i: int| 0 <= i < front.len() implies #[trigger] front[i] <= u64::MAX by {
            assert(front[i] == window[i]);
        }
        lemma_total_bound(front);
        assert(total(window) <= front.len() * u64::MAX + u64::MAX);
        assert(front.len() * u64::MAX + u64::MAX == window.len() * u64::MAX) by (nonlinear_arith)
            requires
                front.len() + 1 == window.len(),
        ;
    }
}

/// The mean of samples that fit in a `u64` fits in a `u64`.
pub proof fn lemma_mean_bound(window: Seq<nat>)
    requires
        forall|i: int| 0 <= i < window.len() ==> #[trigger] window[i] <= u64::MAX,
    ensures
        mean(window) <= u64::MAX,
{
    if window.len() > 0 {
        lemma_total_bound(window);
        let n = window.len();
        let t = total(window);
        assert(t / n <= u64::MAX) by (nonlinear_arith)
            requires
                n > 0,
                t <= n * u64::MAX,
        ;
    }
}

/// Sliding keeps a bounded window bounded.
pub proof fn lemma_slide_bounded(window: Seq<nat>, sample: nat)
    requires
        bounded(window),
        sample <= u64::MAX,
    ensures
        bounded(slide(window, sample)),
{
    let next = slide(window, sample);
    assert forall|i: int| 0 <= i < next.len() implies #[trigger] next[i] <= u64::MAX by {
        if window.len() < WINDOW {
            if i < window.len() {
                assert(next[i] == window[i]);
            }
        } else {
            if i < next.len() - 1 {
                assert(next[i] == window[i + 1]);
            }
        }
    }
}

/// A moving average over the [`WINDOW`] most recent samples, each a number of
/// nanoseconds.
#[derive(Debug)]
pub struct MovingAverage {
    sma: SingleSumSMA<u128, u128, 50>,
}

impl View for MovingAverage {
    type V = Seq<nat>;

    /// The samples in the window, oldest first.
    closed spec fn view(&self) -> Seq<nat> {
        window_samples(self.sma)
    }
}

impl MovingAverage {
    #[verifier::type_invariant]
    spec fn inv(self) -> bool {
        bounded(window_samples(self.sma))
    }

    /// A moving average without samples.
    pub fn new() -> (r: Self)
        ensures
            r@ == Seq::<nat>::empty(),
    {
        MovingAverage { sma: sma_new() }
    }

    /// Adds a sample; once the window is full, the oldest sample leaves.
    pub fn add_sample(&mut self, sample: u64)
        ensures
            final(self)@ == slide(old(self)@, sample as nat),
    {
        proof {
            use_type_invariant(&*self);
            lemma_total_bound(window_samples(self.sma));
            lemma_slide_bounded(window_samples(self.sma), sample as nat);
            assert(window_samples(self.sma).len() * u64::MAX <= 50 * u64::MAX) by (nonlinear_arith)
                requires
                    window_samples(self.sma).len() <= 50,
            ;
        }
        let mut sma = self.sma;
        sma_add(&mut sma, sample as u128);
        self.sma = sma;
    }

    /// The mean of the samples in the window, rounded down; zero where there
    /// is none.
    pub fn get_average(&self) -> (avg: u64)
        ensures
            avg == mean(self@),
    {
        proof {
            use_type_invariant(self);
            lemma_mean_bound(window_samples(self.sma));
        }
        let avg: u128 = sma_average(&self.sma);
        avg as u64
    }
}

impl Clone for MovingAverage {
    fn clone(&self) -> (r: Self)
        ensures
            r@ == self@,
    {
        proof {
            use_type_invariant(self);
        }
        MovingAverage { sma: self.sma }
    }
}

} // verus!
