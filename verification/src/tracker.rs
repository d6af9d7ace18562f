//! Process-scoped accounting of guest memory usage and instance count.
//!
//! The tracker is constructed once at startup and handed by reference to
//! whatever observes instance lifecycles; sharing it across concurrent
//! requests is the embedding program's business (a lock around the whole
//! tracker is enough, since no invariant spans more than one field).

use vstd::prelude::*;

verus! {

/// Record of peak memory, most recently observed memory, and the total
/// number of prepared instances across all requests so far.
pub struct MemoryTracker {
    pub peak_memory: u64,
    pub current_memory: u64,
    pub instance_count: u64,
}

impl MemoryTracker {
    /// The recorded peak never falls below the most recently recorded
    /// current usage.
    pub open spec fn wf(self) -> bool {
        self.peak_memory >= self.current_memory
    }

    pub open spec fn peak(self) -> u64 {
        self.peak_memory
    }

    pub open spec fn current(self) -> u64 {
        self.current_memory
    }

    pub open spec fn count(self) -> u64 {
        self.instance_count
    }

    /// The state a fresh tracker starts in: nothing observed yet.
    pub open spec fn spec_new() -> MemoryTracker {
        MemoryTracker { peak_memory: 0, current_memory: 0, instance_count: 0 }
    }

    /// What one `update_memory(v)` call does to the tracker: current is
    /// replaced, peak is raised to `v` when `v` exceeds it.
    pub open spec fn spec_update(self, v: u64) -> MemoryTracker {
        MemoryTracker {
            peak_memory: if v > self.peak_memory { v } else { self.peak_memory },
            current_memory: v,
            instance_count: self.instance_count,
        }
    }

    /// What one `increment_instance_count` call does to the tracker.
    pub open spec fn spec_increment(self) -> MemoryTracker {
        MemoryTracker { instance_count: (self.instance_count + 1) as u64, ..self }
    }

    pub fn new() -> (t: MemoryTracker)
        ensures
            t == MemoryTracker::spec_new(),
            t.wf(),
    {
        MemoryTracker { peak_memory: 0, current_memory: 0, instance_count: 0 }
    }

    /// Record the currently observed memory usage; the peak is a monotone
    /// maximum over every value recorded so far.
    pub fn update_memory(&mut self, memory_usage: u64)
        ensures
            *final(self) == old(self).spec_update(memory_usage),
            final(self).current() == memory_usage,
            final(self).peak() >= old(self).peak(),
            final(self).peak() >= memory_usage,
            final(self).count() == old(self).count(),
            old(self).wf() ==> final(self).wf(),
    {
        self.current_memory = memory_usage;
        if memory_usage > self.peak_memory {
            self.peak_memory = memory_usage;
        }
    }

    pub fn get_peak_memory(&self) -> (r: u64)
        ensures
            r == self.peak(),
    {
        self.peak_memory
    }

    pub fn get_current_memory(&self) -> (r: u64)
        ensures
            r == self.current(),
    {
        self.current_memory
    }

    /// Count one more prepared instance; the count only ever grows.
    pub fn increment_instance_count(&mut self)
        requires
            old(self).count() < u64::MAX,
        ensures
            *final(self) == old(self).spec_increment(),
            final(self).count() == old(self).count() + 1,
            final(self).peak() == old(self).peak(),
            final(self).current() == old(self).current(),
            old(self).wf() ==> final(self).wf(),
    {
        self.instance_count = self.instance_count + 1;
    }

    pub fn get_instance_count(&self) -> (r: u64)
        ensures
            r == self.count(),
    {
        self.instance_count
    }
}

impl Default for MemoryTracker {
    fn default() -> (t: MemoryTracker)
        ensures
            t == MemoryTracker::spec_new(),
    {
        MemoryTracker::new()
    }
}

/// The tracker after a whole sequence of `update_memory` calls, first
/// element first.
pub open spec fn apply_updates(t: MemoryTracker, vs: Seq<u64>) -> MemoryTracker
    decreases vs.len(),
{
    if vs.len() == 0 {
        t
    } else {
        apply_updates(t.spec_update(vs[0]), vs.drop_first())
    }
}

/// The largest value of a non-empty sequence.
pub open spec fn seq_max(vs: Seq<u64>) -> u64
    recommends
        vs.len() > 0,
    decreases vs.len(),
{
    if vs.len() <= 1 {
        vs[0]
    } else {
        let rest = seq_max(vs.drop_first());
        if vs[0] > rest {
            vs[0]
        } else {
            rest
        }
    }
}

/// After updates `v1, ..., vn`, the current usage is `vn` and the peak is
/// the maximum of the starting peak and `v1, ..., vn`; the instance count
/// is untouched.
pub proof fn lemma_update_memory_sequence(t: MemoryTracker, vs: Seq<u64>)
    requires
        vs.len() > 0,
    ensures
        apply_updates(t, vs).current() == vs.last(),
        apply_updates(t, vs).peak() == if seq_max(vs) > t.peak() {
            seq_max(vs)
        } else {
            t.peak()
        },
        apply_updates(t, vs).count() == t.count(),
    decreases vs.len(),
{
    if vs.len() == 1 {
        assert(vs.drop_first().len() == 0);
        assert(apply_updates(t.spec_update(vs[0]), vs.drop_first()) == t.spec_update(vs[0]));
    } else {
        lemma_update_memory_sequence(t.spec_update(vs[0]), vs.drop_first());
    }
}

/// After updates `v1, ..., vn` on a fresh tracker, the peak is exactly
/// `max(v1, ..., vn)` and the current usage is exactly `vn`.
pub proof fn lemma_peak_is_maximum(vs: Seq<u64>)
    requires
        vs.len() > 0,
    ensures
        apply_updates(MemoryTracker::spec_new(), vs).peak() == seq_max(vs),
        apply_updates(MemoryTracker::spec_new(), vs).current() == vs.last(),
{
    lemma_update_memory_sequence(MemoryTracker::spec_new(), vs);
}

/// The tracker after `n` further `increment_instance_count` calls.
pub open spec fn apply_increments(t: MemoryTracker, n: nat) -> MemoryTracker
    decreases n,
{
    if n == 0 {
        t
    } else {
        apply_increments(t, (n - 1) as nat).spec_increment()
    }
}

/// `n` increments add exactly `n` to the instance count and touch nothing
/// else: no update is lost, whatever order concurrent requests reach the
/// tracker in.
pub proof fn lemma_increment_sequence(t: MemoryTracker, n: nat)
    requires
        t.count() + n <= u64::MAX,
    ensures
        apply_increments(t, n).count() == t.count() + n,
        apply_increments(t, n).peak() == t.peak(),
        apply_increments(t, n).current() == t.current(),
    decreases n,
{
    if n > 0 {
        lemma_increment_sequence(t, (n - 1) as nat);
    }
}

} // verus!
