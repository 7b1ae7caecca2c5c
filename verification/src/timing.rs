//! Timing controller: the configurable per-event delay of one engine
//! instance. Every injected event is preceded by a pause of the configured
//! duration; a delay of zero disables pausing. A change takes effect on the
//! next event, never retroactively.

use vstd::prelude::*;

verus! {

/// The per-event delay, in milliseconds.
pub struct TimingController {
    delay_ms: u32,
}

impl TimingController {
    /// The configured per-event delay in milliseconds.
    pub closed spec fn delay(self) -> u32 {
        self.delay_ms
    }

    /// What holds of a controller after `set_delay(ms)`: the new delay is
    /// `ms` and nothing else of the controller remains to differ.
    pub closed spec fn set_delay_post(self, ms: u32) -> bool {
        self == (TimingController { delay_ms: ms })
    }

    /// A controller with the given initial delay.
    pub fn new(ms: u32) -> (t: Self)
        ensures
            t.delay() == ms,
    {
        TimingController { delay_ms: ms }
    }

    /// The configured delay.
    pub fn delay_ms(&self) -> (r: u32)
        ensures
            r == self.delay(),
    {
        self.delay_ms
    }

    /// Change the delay; this affects every subsequent event until changed
    /// again, and has no other effect.
    pub fn set_delay(&mut self, ms: u32)
        ensures
            final(self).set_delay_post(ms),
            final(self).delay() == ms,
    {
        self.delay_ms = ms;
    }
}

/// Law: setting the delay is idempotent and side-effect-free. If one call
/// of `set_delay(n)` turned `t0` into `t1` and a second turned `t1` into
/// `t2`, then the second call changed nothing at all and the delay reads
/// back as `n`.
pub proof fn lemma_set_delay_idempotent(
    t0: TimingController,
    t1: TimingController,
    t2: TimingController,
    n: u32,
)
    requires
        t1.set_delay_post(n),
        t2.set_delay_post(n),
    ensures
        t2 == t1,
        t1.delay() == n,
{
}

} // verus!
