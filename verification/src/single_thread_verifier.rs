//! Detection of hooked code running off the hooking thread.
//!
//! The design assumes — but cannot enforce — that the host drives every
//! hooked entry point from the single thread that installed the hooks. A
//! `ThreadMarker` records the first thread identity it sees and flags every
//! later call from a different thread. Detection only: a flagged call is
//! reported, never turned into a failure, so a violation cannot itself crash
//! the host.

use vstd::prelude::*;

verus! {

/// One observation step: the marker's bound thread after seeing `current`,
/// and whether the call is flagged as a mismatch.
pub open spec fn observe_step(bound: Option<u64>, current: u64) -> (Option<u64>, bool) {
    match bound {
        None => (Some(current), false),
        Some(t) => (Some(t), t != current),
    }
}

/// The thread the marker is bound to after a whole sequence of calls.
pub open spec fn bound_after(calls: Seq<u64>) -> Option<u64>
    decreases calls.len(),
{
    if calls.len() == 0 {
        None
    } else {
        observe_step(bound_after(calls.drop_last()), calls.last()).0
    }
}

/// How many calls of the sequence the marker flags.
pub open spec fn flagged(calls: Seq<u64>) -> nat
    decreases calls.len(),
{
    if calls.len() == 0 {
        0
    } else {
        flagged(calls.drop_last()) + if observe_step(
            bound_after(calls.drop_last()),
            calls.last(),
        ).1 {
            1nat
        } else {
            0nat
        }
    }
}

/// How many calls after the first name a different thread than the first.
pub open spec fn foreign_calls(calls: Seq<u64>) -> nat
    decreases calls.len(),
{
    if calls.len() <= 1 {
        0
    } else {
        foreign_calls(calls.drop_last()) + if calls.last() != calls[0] {
            1nat
        } else {
            0nat
        }
    }
}

/// The marker binds to the first caller and never rebinds.
pub proof fn lemma_bound_is_first(calls: Seq<u64>)
    ensures
        calls.len() == 0 ==> bound_after(calls) is None,
        calls.len() > 0 ==> bound_after(calls) == Some(calls[0]),
    decreases calls.len(),
{
    if calls.len() > 0 {
        lemma_bound_is_first(calls.drop_last());
    }
}

/// Thread-affinity detection policy: over any sequence of calls, the first
/// call binds its thread and is never flagged, and exactly one mismatch is
/// flagged per later call from a different thread — no more, no fewer.
pub proof fn lemma_one_flag_per_foreign_call(calls: Seq<u64>)
    ensures
        flagged(calls) == foreign_calls(calls),
    decreases calls.len(),
{
    if calls.len() > 0 {
        lemma_one_flag_per_foreign_call(calls.drop_last());
        lemma_bound_is_first(calls.drop_last());
    }
}

/// The recorded identity of the single thread expected to drive all hooked
/// entry points: unset until the first observation, then bound for good.
pub struct ThreadMarker {
    pub bound: Option<u64>,
}

impl ThreadMarker {
    /// A fresh marker that has seen no thread yet.
    pub fn new() -> (m: ThreadMarker)
        ensures
            m.bound is None,
    {
        ThreadMarker { bound: None }
    }

    /// Observes one call from the thread with identity `current`: the first
    /// call binds the marker, every later call is compared against the bound
    /// identity, and the result says whether to report a mismatch.
    pub fn assert_thread(&mut self, current: u64) -> (mismatch: bool)
        ensures
            final(self).bound == observe_step(old(self).bound, current).0,
            mismatch == observe_step(old(self).bound, current).1,
    {
        match self.bound {
            None => {
                self.bound = Some(current);
                false
            },
            Some(t) => t != current,
        }
    }
}

/// The notice logged when hooking starts, saying the single-thread
/// assumption is being checked.
pub fn notice() -> (r: &'static str)
    ensures
        r@ == "Verifying that a single thread accesses all the hooked functions."@,
{
    proof {
        reveal_strlit("Verifying that a single thread accesses all the hooked functions.");
    }
    "Verifying that a single thread accesses all the hooked functions."
}

} // verus!
