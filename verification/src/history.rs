//! A bounded rolling window of recent temperature samples.

use std::collections::VecDeque;
use vstd::prelude::*;

verus! {

/// One sample: the CPU temperature and the keyboard temperature taken at the
/// same poll, both in thousandths of a degree.
pub type Sample = (i32, i32);

/// Capacity of the default history: two minutes of samples at one sample every
/// two seconds.
pub const HISTORY_CAPACITY: usize = 60;

/// What is left of `samples` when only the newest `capacity` of them are kept,
/// in their order.
pub open spec fn newest(samples: Seq<Sample>, capacity: nat) -> Seq<Sample> {
    if samples.len() <= capacity {
        samples
    } else {
        samples.subrange(samples.len() - capacity, samples.len() as int)
    }
}

/// The contents of a history of the given capacity after the samples of `pushed`
/// were pushed into it, one by one, starting from an empty history.
pub open spec fn after_pushes(capacity: nat, pushed: Seq<Sample>) -> Seq<Sample>
    decreases pushed.len(),
{
    if pushed.len() == 0 {
        Seq::empty()
    } else {
        newest(after_pushes(capacity, pushed.drop_last()).push(pushed.last()), capacity)
    }
}

/// The CPU temperatures of a sequence of samples.
pub open spec fn cpu_values(samples: Seq<Sample>) -> Seq<i32> {
    Seq::new(samples.len(), |i: int| samples[i].0)
}

/// The keyboard temperatures of a sequence of samples.
pub open spec fn kbd_values(samples: Seq<Sample>) -> Seq<i32> {
    Seq::new(samples.len(), |i: int| samples[i].1)
}

/// The values of a series, each paired with its position.
pub open spec fn indexed(values: Seq<i32>) -> Seq<(usize, i32)> {
    Seq::new(values.len(), |i: int| (i as usize, values[i]))
}

/// The most recent temperature samples, oldest first, never more than the
/// capacity chosen at construction. The view is the sequence of samples held.
/// A sample holds both temperatures of a poll, so the CPU series and the
/// keyboard series always have the same length.
#[derive(Debug)]
pub struct TemperatureHistory {
    samples: VecDeque<Sample>,
    capacity: usize,
}

impl View for TemperatureHistory {
    type V = Seq<Sample>;

    closed spec fn view(&self) -> Seq<Sample> {
        self.samples@
    }
}

impl TemperatureHistory {
    #[verifier::type_invariant]
    spec fn within_capacity(self) -> bool {
        self.samples@.len() <= self.capacity
    }

    /// The largest number of samples that the history holds.
    pub closed spec fn limit(&self) -> nat {
        self.capacity as nat
    }

    /// An empty history that will hold at most `capacity` samples.
    pub fn new(capacity: usize) -> (history: Self)
        ensures
            history@ == Seq::<Sample>::empty(),
            history.limit() == capacity,
    {
        TemperatureHistory { samples: VecDeque::new(), capacity }
    }

    /// Appends a sample. A history that is full drops its oldest sample first,
    /// so the newest `limit()` samples remain, in the order in which they came.
    pub fn push(&mut self, cpu: i32, kbd: i32)
        ensures
            final(self)@ == newest(old(self)@.push((cpu, kbd)), old(self).limit()),
            final(self).limit() == old(self).limit(),
            final(self)@.len() <= final(self).limit(),
    {
        proof {
            use_type_invariant(&*self);
        }
        if self.capacity == 0 {
            assert(self@ =~= newest(self@.push((cpu, kbd)), 0));
            return ;
        }
        let mut samples: VecDeque<Sample> = VecDeque::new();
        std::mem::swap(&mut samples, &mut self.samples);
        if samples.len() >= self.capacity {
            samples.pop_front();
        }
        samples.push_back((cpu, kbd));
        assert(samples@ =~= newest(old(self)@.push((cpu, kbd)), self.capacity as nat));
        self.samples = samples;
    }

    /// The number of samples held.
    pub fn len(&self) -> (n: usize)
        ensures
            n == self@.len(),
            n <= self.limit(),
    {
        proof {
            use_type_invariant(self);
        }
        self.samples.len()
    }

    /// Whether no sample is held.
    pub fn is_empty(&self) -> (empty: bool)
        ensures
            empty <==> self@.len() == 0,
    {
        self.samples.len() == 0
    }

    /// The largest number of samples that the history holds.
    pub fn capacity(&self) -> (capacity: usize)
        ensures
            capacity == self.limit(),
    {
        self.capacity
    }

    /// The sample at position `index`, counted from the oldest, if there is one.
    pub fn get(&self, index: usize) -> (sample: Option<Sample>)
        ensures
            sample == (if index < self@.len() {
                Some(self@[index as int])
            } else {
                None
            }),
    {
        if index < self.samples.len() {
            Some(self.samples[index])
        } else {
            None
        }
    }

    /// The CPU temperatures held, oldest first, each with its position: the
    /// positions count up from 0 without a gap.
    pub fn cpu_points(&self) -> (points: Vec<(usize, i32)>)
        ensures
            points@ == indexed(cpu_values(self@)),
            points@.len() == self@.len(),
            forall|i: int| 0 <= i < points@.len() ==> (#[trigger] points@[i]).0 == i,
            forall|i: int, j: int|
                0 <= i < j < points@.len() ==> (#[trigger] points@[i]).0 < (#[trigger] points@[j]).0,
    {
        let n: usize = self.samples.len();
        let mut points: Vec<(usize, i32)> = Vec::new();
        let mut i: usize = 0;
        while i < n
            invariant
                n == self.samples@.len(),
                i <= n,
                points@.len() == i,
                forall|k: int| 0 <= k < i ==> points@[k] == (k as usize, self.samples@[k].0),
            decreases n - i,
        {
            points.push((i, self.samples[i].0));
            i += 1;
        }
        assert(points@ =~= indexed(cpu_values(self@)));
        points
    }

    /// The keyboard temperatures held, oldest first, each with its position:
    /// the positions count up from 0 without a gap.
    pub fn kbd_points(&self) -> (points: Vec<(usize, i32)>)
        ensures
            points@ == indexed(kbd_values(self@)),
            points@.len() == self@.len(),
            forall|i: int| 0 <= i < points@.len() ==> (#[trigger] points@[i]).0 == i,
            forall|i: int, j: int|
                0 <= i < j < points@.len() ==> (#[trigger] points@[i]).0 < (#[trigger] points@[j]).0,
    {
        let n: usize = self.samples.len();
        let mut points: Vec<(usize, i32)> = Vec::new();
        let mut i: usize = 0;
        while i < n
            invariant
                n == self.samples@.len(),
                i <= n,
                points@.len() == i,
                forall|k: int| 0 <= k < i ==> points@[k] == (k as usize, self.samples@[k].1),
            decreases n - i,
        {
            points.push((i, self.samples[i].1));
            i += 1;
        }
        assert(points@ =~= indexed(kbd_values(self@)));
        points
    }
}

impl Default for TemperatureHistory {
    /// An empty history of [`HISTORY_CAPACITY`] samples.
    fn default() -> (history: Self)
        ensures
            history@ == Seq::<Sample>::empty(),
            history.limit() == HISTORY_CAPACITY,
    {
        TemperatureHistory::new(HISTORY_CAPACITY)
    }
}

/// Keeping the newest samples never keeps more than the capacity, and keeps
/// all of them where they fit.
pub proof fn lemma_newest_len(samples: Seq<Sample>, capacity: nat)
    ensures
        newest(samples, capacity).len() == if samples.len() <= capacity {
            samples.len()
        } else {
            capacity
        },
{
}

/// After any number of pushes into an empty history, the history holds the
/// newest of the pushed samples, as many as fit, in the order in which they
/// were pushed. So its length is the smaller of the number of pushes and the
/// capacity.
pub proof fn lemma_pushes_keep_newest(capacity: nat, pushed: Seq<Sample>)
    ensures
        after_pushes(capacity, pushed) == newest(pushed, capacity),
        after_pushes(capacity, pushed).len() == if pushed.len() <= capacity {
            pushed.len()
        } else {
            capacity
        },
    decreases pushed.len(),
{
    if pushed.len() > 0 {
        lemma_pushes_keep_newest(capacity, pushed.drop_last());
        let before = newest(pushed.drop_last(), capacity);
        assert(newest(before.push(pushed.last()), capacity) =~= newest(pushed, capacity));
    } else {
        assert(after_pushes(capacity, pushed) =~= newest(pushed, capacity));
    }
}

/// First in, first out: one push more than the capacity drops exactly the sample
/// pushed first, and the others remain in their order.
pub proof fn lemma_overflow_evicts_first(capacity: nat, pushed: Seq<Sample>)
    requires
        capacity >= 1,
        pushed.len() == capacity + 1,
    ensures
        after_pushes(capacity, pushed) == pushed.subrange(1, pushed.len() as int),
{
    lemma_pushes_keep_newest(capacity, pushed);
}

} // verus!
