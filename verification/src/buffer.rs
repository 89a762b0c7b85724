use vstd::prelude::*;
use crate::entry::MeasurementSerieEntry;
use crate::measurement::Measurement;

verus! {

/// Measurement-shaped record of the maximum per-field change tolerated
/// before a sample counts as a new data point.  The analog channels
/// hold IEEE-754 single-precision bit patterns, like `Measurement`.
#[derive(Clone, Copy, PartialEq, Eq, Structural, Debug)]
pub struct DeviationThreshold {
    pub battery: u8,
    pub lux: u32,
    pub temperature: u32,
    pub humidity: u32,
    pub soil_pf: u32,
}

impl DeviationThreshold {
    /// The device's standard threshold: one percent of battery, 100
    /// lux, 1.0 degree, 0.1 percent of humidity and 0.1 pF, the analog
    /// values given as their single-precision bit patterns.
    pub fn max_deviation() -> (r: Self)
        ensures
            r == (DeviationThreshold {
                battery: 1,
                lux: 0x42C80000,
                temperature: 0x3F800000,
                humidity: 0x3DCCCCCD,
                soil_pf: 0x3DCCCCCD,
            }),
    {
        DeviationThreshold {
            battery: 1,
            lux: 0x42C80000,
            temperature: 0x3F800000,
            humidity: 0x3DCCCCCD,
            soil_pf: 0x3DCCCCCD,
        }
    }
}

/// One compacted run of measurements: a representative held
/// approximately constant over the half-open time range from `start`
/// to `end`.
#[derive(Clone, Copy, PartialEq, Eq, Structural, Debug)]
pub struct Bucket {
    pub start: i64,
    pub end: i64,
    pub value: Measurement,
}

/// The mathematical shape of a buffer: its fixed capacity, its
/// threshold and the bucket sequence.
#[verifier::ext_equal]
pub struct BufferView {
    pub capacity: nat,
    pub threshold: DeviationThreshold,
    pub buckets: Seq<Bucket>,
}

impl BufferView {
    /// Well-formed: never more buckets than the capacity, every range
    /// ordered, and bucket ranges in non-decreasing time order.
    pub open spec fn wf(self) -> bool {
        &&& self.buckets.len() <= self.capacity
        &&& forall|i: int|
            0 <= i < self.buckets.len() ==> self.buckets[i].start <= self.buckets[i].end
        &&& forall|i: int|
            0 <= i < self.buckets.len() - 1 ==> self.buckets[i].end <= self.buckets[i + 1].start
    }

    /// What one append does: an empty buffer gains its first bucket
    /// (capacity permitting); a sample that does not deviate extends
    /// the last bucket's range with the representative unchanged; a
    /// deviating sample opens a new bucket while room is left.  Once
    /// the buffer is full it accepts nothing more, folding included,
    /// until it is replaced.
    pub open spec fn spec_append(self, timestamp: i64, value: Measurement, deviates: bool) -> BufferView {
        if self.buckets.len() == self.capacity {
            self
        } else if self.buckets.len() == 0 {
            BufferView {
                buckets: seq![Bucket { start: timestamp, end: timestamp, value }],
                ..self
            }
        } else if !deviates {
            let last = self.buckets[self.buckets.len() - 1];
            BufferView {
                buckets: self.buckets.update(
                    self.buckets.len() - 1,
                    Bucket { end: timestamp, ..last },
                ),
                ..self
            }
        } else {
            BufferView {
                buckets: self.buckets.push(Bucket { start: timestamp, end: timestamp, value }),
                ..self
            }
        }
    }
}

/// Folds a run of appends, every one of them deviating.
pub open spec fn spec_append_all_deviating(v: BufferView, samples: Seq<(i64, Measurement)>) -> BufferView
    decreases samples.len(),
{
    if samples.len() == 0 {
        v
    } else {
        spec_append_all_deviating(
            v.spec_append(samples[0].0, samples[0].1, true),
            samples.drop_first(),
        )
    }
}

/// A sample that does not deviate from the last representative never
/// increases the bucket count: it only widens the last bucket's range.
pub proof fn lemma_nondeviating_append_keeps_count(v: BufferView, timestamp: i64, value: Measurement)
    requires
        v.buckets.len() >= 1,
    ensures
        v.spec_append(timestamp, value, false).buckets.len() == v.buckets.len(),
{
}

/// Once the buffer holds as many buckets as its capacity, any further
/// append — deviating or not — is a no-op: the buffer is left exactly
/// as it was until it is replaced.
pub proof fn lemma_full_append_is_noop(
    v: BufferView,
    timestamp: i64,
    value: Measurement,
    deviates: bool,
)
    requires
        v.buckets.len() == v.capacity,
    ensures
        v.spec_append(timestamp, value, deviates) == v,
{
}

/// A well-formed buffer's buckets stand in time order: start times
/// never decrease along the sequence.
pub proof fn lemma_buckets_in_time_order(v: BufferView, i: int, j: int)
    requires
        v.wf(),
        0 <= i <= j < v.buckets.len(),
    ensures
        v.buckets[i].start <= v.buckets[j].start,
    decreases j - i,
{
    if i < j {
        lemma_buckets_in_time_order(v, i + 1, j);
    }
}

/// Deviating appends onto a non-empty buffer grow the bucket count one
/// by one until the capacity is reached, and no further.
pub proof fn lemma_deviating_appends_grow(v: BufferView, samples: Seq<(i64, Measurement)>)
    requires
        1 <= v.buckets.len() <= v.capacity,
    ensures
        spec_append_all_deviating(v, samples).buckets.len() == if v.buckets.len() + samples.len()
            <= v.capacity {
            (v.buckets.len() + samples.len()) as int
        } else {
            v.capacity as int
        },
    decreases samples.len(),
{
    if samples.len() > 0 {
        lemma_deviating_appends_grow(
            v.spec_append(samples[0].0, samples[0].1, true),
            samples.drop_first(),
        );
    }
}

/// From empty, a run of at least as many deviating appends as the
/// buffer's capacity fills it exactly to that capacity.
pub proof fn lemma_deviating_appends_fill(v: BufferView, samples: Seq<(i64, Measurement)>)
    requires
        v.buckets.len() == 0,
        v.capacity >= 1,
        samples.len() >= v.capacity,
    ensures
        spec_append_all_deviating(v, samples).buckets.len() == v.capacity,
{
    lemma_deviating_appends_grow(
        v.spec_append(samples[0].0, samples[0].1, true),
        samples.drop_first(),
    );
}

/// Fixed-capacity compacting time series: an ordered sequence of at
/// most `capacity` buckets with non-decreasing start times, bound to
/// an immutable per-field deviation threshold.
#[derive(Debug)]
pub struct DeviationBuffer {
    pub capacity: usize,
    pub threshold: DeviationThreshold,
    pub buckets: Vec<Bucket>,
}

impl View for DeviationBuffer {
    type V = BufferView;

    open spec fn view(&self) -> BufferView {
        BufferView {
            capacity: self.capacity as nat,
            threshold: self.threshold,
            buckets: self.buckets@,
        }
    }
}

impl Clone for DeviationBuffer {
    /// A deep copy, field for field: the persisted buffer is never
    /// mutated in place, it is cloned and replaced.
    fn clone(&self) -> (r: Self)
        ensures
            r@ == self@,
    {
        let mut buckets: Vec<Bucket> = Vec::new();
        let mut i: usize = 0;
        while i < self.buckets.len()
            invariant
                i <= self.buckets@.len(),
                buckets@ == self.buckets@.take(i as int),
            decreases self.buckets@.len() - i,
        {
            buckets.push(self.buckets[i]);
            proof {
                assert(buckets@ =~= self.buckets@.take(i as int + 1));
            }
            i += 1;
        }
        proof {
            assert(buckets@ =~= self.buckets@);
        }
        let r = DeviationBuffer { capacity: self.capacity, threshold: self.threshold, buckets };
        proof {
            assert(r@ =~= self@);
        }
        r
    }
}

impl DeviationBuffer {
    /// An empty buffer bound to a fixed capacity and a threshold.
    pub fn new(capacity: usize, threshold: DeviationThreshold) -> (r: Self)
        ensures
            r@.capacity == capacity,
            r@.threshold == threshold,
            r@.buckets.len() == 0,
            r@.wf(),
    {
        DeviationBuffer { capacity, threshold, buckets: Vec::new() }
    }

    /// Number of buckets held.
    pub fn len(&self) -> (r: usize)
        ensures
            r == self@.buckets.len(),
    {
        self.buckets.len()
    }

    /// True once the bucket count has reached the capacity; callers
    /// check this before sampling, since appends onto a full buffer
    /// are silently dropped.
    pub fn is_full(&self) -> (r: bool)
        ensures
            r == (self@.buckets.len() == self@.capacity),
    {
        self.buckets.len() == self.capacity
    }

    /// The representative of the last bucket, if any: the value a new
    /// sample is compared against by the deviation predicate.
    pub fn last_value(&self) -> (r: Option<Measurement>)
        ensures
            self@.buckets.len() == 0 ==> r is None,
            self@.buckets.len() > 0 ==> r == Some(
                self@.buckets[self@.buckets.len() - 1].value,
            ),
    {
        if self.buckets.len() == 0 {
            None
        } else {
            Some(self.buckets[self.buckets.len() - 1].value)
        }
    }

    /// Appends a sample taken at `timestamp`.  The caller owes two
    /// things: timestamps never go backwards, and `deviates` is the
    /// deviation predicate's verdict on `value` against the last
    /// bucket's representative (it is ignored on an empty buffer).
    pub fn append_monotonic(&mut self, timestamp: i64, value: Measurement, deviates: bool)
        requires
            old(self)@.wf(),
            old(self)@.buckets.len() > 0 ==> old(self)@.buckets[old(self)@.buckets.len()
                - 1].end <= timestamp,
        ensures
            final(self)@ == old(self)@.spec_append(timestamp, value, deviates),
            final(self)@.wf(),
    {
        let n = self.buckets.len();
        if n == self.capacity {
            // Full: the sample is dropped; callers check `is_full`
            // before sampling.
        } else if n == 0 {
            self.buckets.push(Bucket { start: timestamp, end: timestamp, value });
        } else if !deviates {
            let last = self.buckets[n - 1];
            self.buckets.set(n - 1, Bucket { end: timestamp, ..last });
        } else {
            self.buckets.push(Bucket { start: timestamp, end: timestamp, value });
        }
        proof {
            assert(self@ =~= old(self)@.spec_append(timestamp, value, deviates));
        }
    }

    /// Flattens the buffer for transfer: one entry per bucket, in time
    /// order, stamped with the bucket's range start.
    pub fn to_entries(&self) -> (r: Vec<MeasurementSerieEntry>)
        ensures
            r@.len() == self@.buckets.len(),
            forall|i: int|
                0 <= i < r@.len() ==> r@[i] == (MeasurementSerieEntry {
                    timestamp: self@.buckets[i].start,
                    measurement: self@.buckets[i].value,
                }),
    {
        let mut r: Vec<MeasurementSerieEntry> = Vec::new();
        let mut i: usize = 0;
        while i < self.buckets.len()
            invariant
                i <= self.buckets@.len(),
                r@.len() == i,
                forall|j: int|
                    0 <= j < i ==> r@[j] == (MeasurementSerieEntry {
                        timestamp: self.buckets@[j].start,
                        measurement: self.buckets@[j].value,
                    }),
            decreases self.buckets@.len() - i,
        {
            let b = self.buckets[i];
            r.push(MeasurementSerieEntry { timestamp: b.start, measurement: b.value });
            i += 1;
        }
        r
    }
}

} // verus!
