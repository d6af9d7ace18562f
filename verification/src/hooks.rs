//! Lifecycle hooks consulted while a guest instance is prepared.
//!
//! Hooks compose as an ordered chain, invoked in registration order; any
//! hook failure aborts the whole instantiation and is handed back verbatim.

use vstd::prelude::*;
use crate::tracker::MemoryTracker;

verus! {

/// Why a lifecycle hook refused to let an instantiation proceed.
#[derive(Debug)]
pub struct HookError {
    pub message: String,
}

/// A lifecycle extension invoked while a guest instance is prepared.
///
/// A hook observes the instance being built and the shared tracker; it may
/// grow, but never shrink, what the tracker has accounted for.
pub trait ExecutorHook {
    /// Runs before the guest instance is created; an error is fatal to this
    /// instantiation attempt.
    fn prepare_instance(&self, tracker: &mut MemoryTracker) -> (r: Result<(), HookError>)
        requires
            old(tracker).wf(),
        ensures
            final(tracker).wf(),
            final(tracker).peak() >= old(tracker).peak(),
            final(tracker).count() >= old(tracker).count(),
    ;
}

/// Runs every hook in registration order. The first failure aborts the
/// chain: its error is handed back untouched and later hooks are not
/// consulted. Later hooks may therefore assume that earlier ones ran.
/// Only a hook can make the chain fail: with no hooks registered the
/// chain succeeds and leaves the tracker untouched.
pub fn run_prepare_hooks<H: ExecutorHook>(hooks: &Vec<H>, tracker: &mut MemoryTracker) -> (r:
    Result<(), HookError>)
    requires
        old(tracker).wf(),
    ensures
        final(tracker).wf(),
        final(tracker).peak() >= old(tracker).peak(),
        final(tracker).count() >= old(tracker).count(),
        hooks@.len() == 0 ==> (r matches Ok(_)) && *final(tracker) == *old(tracker),
{
    let mut i: usize = 0;
    while i < hooks.len()
        invariant
            tracker.wf(),
            tracker.peak() >= old(tracker).peak(),
            tracker.count() >= old(tracker).count(),
            hooks@.len() == 0 ==> *tracker == *old(tracker),
        decreases hooks.len() - i,
    {
        let r = hooks[i].prepare_instance(tracker);
        if let Err(e) = r {
            return Err(e);
        }
        i = i + 1;
    }
    Ok(())
}

/// The memory ceiling an instantiation is gated with, if any: a
/// command-line override takes precedence over the resolved runtime
/// configuration; with neither set, no ceiling hook is registered at all.
pub open spec fn spec_memory_ceiling(cli_override: Option<u64>, runtime_config: Option<u64>) -> Option<u64> {
    match cli_override {
        Some(v) => Some(v),
        None => runtime_config,
    }
}

/// Decides the memory ceiling from the two places it can be configured.
pub fn memory_ceiling(cli_override: Option<u64>, runtime_config: Option<u64>) -> (r: Option<u64>)
    ensures
        r == spec_memory_ceiling(cli_override, runtime_config),
{
    match cli_override {
        Some(v) => Some(v),
        None => runtime_config,
    }
}

/// The hook that counts each prepared instance in the shared tracker.
pub struct MemoryTrackerHook;

impl MemoryTrackerHook {
    pub fn new() -> (h: MemoryTrackerHook) {
        MemoryTrackerHook
    }

    /// Account for one more prepared instance.
    pub fn record_instance(&self, tracker: &mut MemoryTracker)
        requires
            old(tracker).wf(),
            old(tracker).count() < u64::MAX,
        ensures
            *final(tracker) == old(tracker).spec_increment(),
            final(tracker).count() == old(tracker).count() + 1,
            final(tracker).wf(),
    {
        tracker.increment_instance_count();
    }
}

impl ExecutorHook for MemoryTrackerHook {
    /// Never aborts an instantiation; counts it, leaving everything else
    /// untouched (the count stays put only at its `u64` ceiling).
    fn prepare_instance(&self, tracker: &mut MemoryTracker) -> (r: Result<(), HookError>)
        ensures
            r matches Ok(_),
            old(tracker).count() < u64::MAX ==> final(tracker).count() == old(tracker).count()
                + 1,
            old(tracker).count() == u64::MAX ==> final(tracker).count() == old(tracker).count(),
            final(tracker).peak() == old(tracker).peak(),
            final(tracker).current() == old(tracker).current(),
    {
        if tracker.get_instance_count() < u64::MAX {
            self.record_instance(tracker);
        }
        Ok(())
    }
}

} // verus!
