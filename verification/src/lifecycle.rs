use vstd::prelude::*;
use crate::buffer::{BufferView, DeviationBuffer, DeviationThreshold};
use crate::measurement::Measurement;

verus! {

/// Buckets the node accumulates before it flushes to the hub.
pub const BUFFER_CAPACITY: usize = 6;

/// Fixed wake timer, in seconds, armed before every deep sleep.
pub const WAKE_INTERVAL_SECS: u64 = 10;

/// The lifecycle state persisted in retained memory across deep
/// sleeps.  Exactly one instance exists per node; it changes only at
/// boot-time transition points.
#[derive(Debug)]
pub enum DeviceState {
    AwaitingTimeSync,
    Buffering(DeviationBuffer),
    Flush(DeviationBuffer),
}

impl DeviceState {
    /// Whatever buffer the state carries is well formed.
    pub open spec fn wf(self) -> bool {
        match self {
            DeviceState::AwaitingTimeSync => true,
            DeviceState::Buffering(b) => b@.wf(),
            DeviceState::Flush(b) => b@.wf(),
        }
    }
}

/// How a sync session raced against the fixed timeout ended.
#[derive(Clone, Copy, PartialEq, Eq, Structural, Debug)]
pub enum SyncOutcome {
    Completed,
    TimedOut,
}

/// One sensor reading as handed to a transition: when it was taken,
/// what was read, and the deviation predicate's verdict on the value
/// against the last bucket's representative (ignored when the buffer
/// it meets is empty).
#[derive(Clone, Copy, PartialEq, Eq, Structural, Debug)]
pub struct Sample {
    pub timestamp: i64,
    pub value: Measurement,
    pub deviates: bool,
}

/// Outcome of one sampling attempt; a failure is swallowed at the
/// lifecycle boundary and leaves the state unchanged for that boot.
#[derive(Clone, Copy, PartialEq, Eq, Structural, Debug)]
pub enum SampleOutcome {
    Sampled(Sample),
    Failed,
}

/// An empty buffer view with the given bounds.
pub open spec fn spec_empty_buffer(capacity: nat, threshold: DeviationThreshold) -> BufferView {
    BufferView { capacity, threshold, buckets: Seq::empty() }
}

/// Boot step while awaiting the first time sync: a completed session
/// moves the node to buffering with a fresh empty buffer; a timeout
/// leaves it waiting, to retry on the next wake.
pub fn awaiting_time_sync(outcome: SyncOutcome, capacity: usize, threshold: DeviationThreshold) -> (r:
    DeviceState)
    ensures
        outcome is Completed ==> (r matches DeviceState::Buffering(b) && b@ == spec_empty_buffer(
            capacity as nat,
            threshold,
        )),
        outcome is TimedOut ==> r is AwaitingTimeSync,
        r.wf(),
{
    match outcome {
        SyncOutcome::Completed => {
            let b = DeviationBuffer::new(capacity, threshold);
            proof {
                assert(b@ =~= spec_empty_buffer(capacity as nat, threshold));
            }
            DeviceState::Buffering(b)
        },
        SyncOutcome::TimedOut => DeviceState::AwaitingTimeSync,
    }
}

/// Boot step while buffering: on a successful sample the persisted
/// buffer is copied, the sample appended, and the node moves to flush
/// exactly when the copy has become full; on a failed sample the state
/// is unchanged.  The caller owes a timestamp no older than the last
/// bucket's range end.
pub fn buffering(buf: &DeviationBuffer, outcome: SampleOutcome) -> (r: DeviceState)
    requires
        buf@.wf(),
        outcome matches SampleOutcome::Sampled(s) ==> (buf@.buckets.len() > 0
            ==> buf@.buckets[buf@.buckets.len() - 1].end <= s.timestamp),
    ensures
        outcome is Failed ==> (r matches DeviceState::Buffering(b) && b@ == buf@),
        outcome matches SampleOutcome::Sampled(s) ==> {
            let appended = buf@.spec_append(s.timestamp, s.value, s.deviates);
            if appended.buckets.len() == appended.capacity {
                r matches DeviceState::Flush(b) && b@ == appended
            } else {
                r matches DeviceState::Buffering(b) && b@ == appended
            }
        },
        r.wf(),
{
    match outcome {
        SampleOutcome::Failed => DeviceState::Buffering(buf.clone()),
        SampleOutcome::Sampled(s) => {
            let mut copy = buf.clone();
            copy.append_monotonic(s.timestamp, s.value, s.deviates);
            if copy.is_full() {
                DeviceState::Flush(copy)
            } else {
                DeviceState::Buffering(copy)
            }
        },
    }
}

/// Boot step while flushing: a timed-out session keeps the batch for
/// re-delivery on the next wake; a completed session starts a new
/// buffer seeded with one fresh sample, or, when that sample fails,
/// also keeps the old state for another round.
pub fn flushing(buf: &DeviationBuffer, sync: SyncOutcome, fresh: SampleOutcome) -> (r: DeviceState)
    requires
        buf@.wf(),
    ensures
        sync is TimedOut ==> (r matches DeviceState::Flush(b) && b@ == buf@),
        sync is Completed && fresh is Failed ==> (r matches DeviceState::Flush(b) && b@ == buf@),
        sync is Completed ==> (fresh matches SampleOutcome::Sampled(s) ==> (r matches
            DeviceState::Buffering(b) && b@ == spec_empty_buffer(
            buf@.capacity,
            buf@.threshold,
        ).spec_append(s.timestamp, s.value, s.deviates))),
        r.wf(),
{
    match sync {
        SyncOutcome::TimedOut => DeviceState::Flush(buf.clone()),
        SyncOutcome::Completed => match fresh {
            SampleOutcome::Failed => DeviceState::Flush(buf.clone()),
            SampleOutcome::Sampled(s) => {
                let mut seeded = DeviationBuffer::new(buf.capacity, buf.threshold);
                proof {
                    assert(seeded@ =~= spec_empty_buffer(buf@.capacity, buf@.threshold));
                }
                seeded.append_monotonic(s.timestamp, s.value, s.deviates);
                DeviceState::Buffering(seeded)
            },
        },
    }
}

} // verus!
