//! Readiness probing: poll the allocated port until the child listens.
//!
//! After a spawn the child is polled at a fixed interval, up to a fixed
//! number of attempts, for whether its port is occupied — the first occupied
//! observation means ready and polling stops at once. Exhausting the budget
//! is a warning, never a failure: the supervisor still reports the start
//! optimistically. The caller sleeps and observes the port between steps and
//! feeds each observation in.

use vstd::prelude::*;

verus! {

/// How many observations are made before the probe gives up.
pub const PROBE_ATTEMPTS: u32 = 30;

/// How long the caller sleeps before each observation, in milliseconds.
pub const PROBE_INTERVAL_MS: u64 = 500;

/// The remaining budget of one readiness-probing run.
pub struct ReadinessProbe {
    /// How many observations may still be made.
    pub attempts_left: u32,
}

impl ReadinessProbe {
    /// A fresh probe with the full budget.
    pub fn new() -> (p: Self)
        ensures
            p.attempts_left == PROBE_ATTEMPTS,
    {
        ReadinessProbe { attempts_left: PROBE_ATTEMPTS }
    }

    /// Whether the budget is spent; the caller stops polling then and the
    /// child is treated as ready anyway.
    pub fn exhausted(&self) -> (b: bool)
        ensures
            b == (self.attempts_left == 0),
    {
        self.attempts_left == 0
    }

    /// Feeds in one observation of the port, spending one attempt. Ready
    /// exactly when the port was observed occupied, so the first occupied
    /// observation ends the run.
    pub fn observe(&mut self, occupied: bool) -> (ready: bool)
        requires
            old(self).attempts_left >= 1,
        ensures
            ready == occupied,
            final(self).attempts_left == old(self).attempts_left - 1,
    {
        self.attempts_left = self.attempts_left - 1;
        occupied
    }
}

} // verus!
