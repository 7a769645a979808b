//! Per-thread CPU-time alarm: the arithmetic that arms the OS timer and
//! accounts thread CPU time. The timer measures only CPU time the sandbox
//! thread itself consumed; creating and re-arming the OS timer object and
//! delivering its signal live outside the verified core.

use vstd::prelude::*;
use vstd::arithmetic::div_mod::lemma_div_by_multiple;

verus! {

/// A per-thread CPU-time alarm: fires `initial_expiry` ms of consumed CPU
/// time after arming, then every `interval` ms of consumed CPU time.
#[derive(Debug, Clone, Copy, PartialEq, Eq, Structural)]
pub struct CPUTimer {
    /// First expiry, in milliseconds of CPU time.
    pub initial_expiry: u64,
    /// Re-arm interval, in milliseconds of CPU time; zero disables re-arming.
    pub interval: u64,
}

/// The seconds-and-nanoseconds pairs an OS interval timer is armed with.
#[derive(Debug, Clone, Copy, PartialEq, Eq, Structural)]
pub struct TimerArming {
    pub value_sec: i64,
    pub value_nsec: i64,
    pub interval_sec: i64,
    pub interval_nsec: i64,
}

/// Splits an expiry in milliseconds into the whole seconds and remaining
/// nanoseconds an OS timer is armed with. The split is exact: it encodes
/// precisely the given number of milliseconds.
pub fn ms_to_timespec_parts(ms: u64) -> (r: (i64, i64))
    ensures
        r.0 == ms as int / 1000,
        r.1 == (ms as int % 1000) * 1000000,
        0 <= r.1 < 1000000000,
        r.0 * 1000 + r.1 / 1000000 == ms,
        r.0 >= 0,
{
    let secs = ms / 1000;
    let msecs = ms % 1000;
    proof {
        lemma_div_by_multiple(ms as int % 1000, 1000000);
    }
    (secs as i64, (msecs * 1000000) as i64)
}

impl CPUTimer {
    /// A timer configuration with the given expiry and interval.
    pub fn new(initial_expiry: u64, interval: u64) -> (r: CPUTimer)
        ensures
            r.initial_expiry == initial_expiry,
            r.interval == interval,
    {
        CPUTimer { initial_expiry, interval }
    }

    /// The exact arming values for this timer: the initial expiry and the
    /// re-arm interval, each split into whole seconds and nanoseconds.
    pub fn arming(&self) -> (r: TimerArming)
        ensures
            r.value_sec == self.initial_expiry as int / 1000,
            r.value_nsec == (self.initial_expiry as int % 1000) * 1000000,
            r.interval_sec == self.interval as int / 1000,
            r.interval_nsec == (self.interval as int % 1000) * 1000000,
            r.value_sec * 1000 + r.value_nsec / 1000000 == self.initial_expiry,
            r.interval_sec * 1000 + r.interval_nsec / 1000000 == self.interval,
            0 <= r.value_nsec < 1000000000,
            0 <= r.interval_nsec < 1000000000,
    {
        let (value_sec, value_nsec) = ms_to_timespec_parts(self.initial_expiry);
        let (interval_sec, interval_nsec) = ms_to_timespec_parts(self.interval);
        TimerArming { value_sec, value_nsec, interval_sec, interval_nsec }
    }
}

/// Combines a seconds-and-nanoseconds reading of the thread CPU clock into
/// one figure in nanoseconds.
pub fn thread_time_ns(sec: i64, nsec: i64) -> (r: i64)
    requires
        0 <= sec,
        0 <= nsec < 1000000000,
        sec * 1000000000 + nsec <= i64::MAX,
    ensures
        r == sec * 1000000000 + nsec,
{
    sec * 1000000000 + nsec
}

} // verus!
