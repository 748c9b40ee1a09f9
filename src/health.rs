//! Health of the pod that a resource already owns, and what to do about it.
use vstd::prelude::*;

verus! {

/// How long a terminated worker is left in place, in milliseconds.
pub const TERMINATION_GRACE_MS: i64 = 60000;

/// What a reconcile pass reads of an existing pod.
#[derive(Clone, Debug)]
pub struct ObservedPod {
    pub name: String,
    /// When the first container terminated, if it has terminated with a
    /// completion time.
    pub finished_at: Option<i64>,
}

/// The verdict on an existing pod.
#[derive(Clone, Copy, Debug, PartialEq, Eq, Structural)]
pub enum Health {
    /// No pod, or a pod whose container has not terminated: nothing to do.
    Healthy,
    /// Terminated less than the grace window ago: keep it, report an error.
    RecentlyTerminated { finished_at: i64 },
    /// Terminated at least the grace window ago: delete and recreate it.
    StaleTerminated,
}

/// Milliseconds from `finished_at` to `now`, or zero where `now` is earlier.
pub open spec fn elapsed_ms(finished_at: i64, now: i64) -> int {
    if now >= finished_at {
        now - finished_at
    } else {
        0
    }
}

/// The verdict on a container that finished at `finished_at`, seen at `now`.
pub open spec fn termination_health(finished_at: i64, now: i64) -> Health {
    if elapsed_ms(finished_at, now) >= TERMINATION_GRACE_MS {
        Health::StaleTerminated
    } else {
        Health::RecentlyTerminated { finished_at }
    }
}

/// The verdict on what was found, seen at `now`.
pub open spec fn health_of(pod: Option<ObservedPod>, now: i64) -> Health {
    match pod {
        Some(p) => match p.finished_at {
            Some(t) => termination_health(t, now),
            None => Health::Healthy,
        },
        None => Health::Healthy,
    }
}

/// How many restarts a verdict adds to the count.
pub open spec fn restart_increment(h: Health) -> u32 {
    if h is StaleTerminated {
        1
    } else {
        0
    }
}

/// Judges an existing pod (or its absence) at the instant `now`.
pub fn evaluate_health(pod: &Option<ObservedPod>, now: i64) -> (r: Health)
    ensures
        r == health_of(*pod, now),
{
    match pod {
        None => Health::Healthy,
        Some(p) => match p.finished_at {
            None => Health::Healthy,
            Some(t) => {
                let elapsed: i128 = if now >= t {
                    now as i128 - t as i128
                } else {
                    0
                };
                if elapsed >= TERMINATION_GRACE_MS as i128 {
                    Health::StaleTerminated
                } else {
                    Health::RecentlyTerminated { finished_at: t }
                }
            },
        },
    }
}

} // verus!
