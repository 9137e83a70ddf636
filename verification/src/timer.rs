//! Per-field render-time bookkeeping: a running average of measured
//! durations that signals once every `print_every` measurements.

use vstd::prelude::*;

verus! {

/// Upper bound on the whole-microsecond count of an elapsed `Duration`,
/// which holds at most `u64::MAX` seconds plus a fraction under one second.
pub const MAX_ELAPSED_MICROS: u128 = 18446744073709551615u128 * 1000000 + 999999;

#[verifier::external_type_specification]
#[verifier::external_body]
pub struct ExInstant(std::time::Instant);

/// Relies on `std::time::Instant::now`: an opaque monotonic clock reading,
/// about whose value nothing is assumed.
#[verifier::external_body]
fn instant_now() -> std::time::Instant {
    std::time::Instant::now()
}

/// Relies on `Instant::elapsed` and `Duration::as_micros`: the whole
/// microseconds of the time since `since`, which a `Duration` bounds by
/// `MAX_ELAPSED_MICROS`; the value itself depends on the clock and is
/// otherwise unspecified.
#[verifier::external_body]
fn elapsed_micros(since: &std::time::Instant) -> (r: u128)
    ensures
        r <= MAX_ELAPSED_MICROS,
{
    since.elapsed().as_micros()
}

/// The running average after folding in one elapsed measurement: the mean
/// with the previous average once one exists, the measurement itself before.
pub open spec fn folded_average(avg: u128, e: u128) -> u128 {
    if avg > 0 {
        ((avg + e) / 2) as u128
    } else {
        e
    }
}

/// A running average of measured durations in microseconds, reported once
/// every `print_every` measurements.
pub struct AvgPerformanceTimer {
    pub avg_us: u128,
    pub instant: std::time::Instant,
    pub current_tick: u128,
    pub print_every: u128,
}

impl AvgPerformanceTimer {
    /// The average stays a bounded microsecond count and the tick counter
    /// never passes its period.
    pub open spec fn wf(&self) -> bool {
        &&& self.avg_us <= MAX_ELAPSED_MICROS
        &&& self.current_tick <= self.print_every
    }

    /// A fresh timer that reports every `print_every`-th measurement.
    pub fn new(print_every: u128) -> (r: Self)
        ensures
            r.wf(),
            r.avg_us == 0,
            r.current_tick == 0,
            r.print_every == print_every,
    {
        AvgPerformanceTimer { avg_us: 0, instant: instant_now(), current_tick: 0, print_every }
    }

    /// Starts one measurement.
    pub fn begin(&mut self)
        ensures
            final(self).avg_us == old(self).avg_us,
            final(self).current_tick == old(self).current_tick,
            final(self).print_every == old(self).print_every,
    {
        self.instant = instant_now();
    }

    /// Ends one measurement: folds the elapsed time into the running
    /// average (halving with the previous average once one exists) and
    /// counts the tick. Every `print_every`-th call resets the counter and
    /// returns the average to report; other calls return `None`.
    pub fn end(&mut self) -> (r: Option<u128>)
        requires
            old(self).wf(),
        ensures
            final(self).wf(),
            final(self).print_every == old(self).print_every,
            exists|e: u128|
                e <= MAX_ELAPSED_MICROS && final(self).avg_us == #[trigger] folded_average(
                    old(self).avg_us,
                    e,
                ),
            r is Some <==> old(self).current_tick == old(self).print_every,
            r is Some ==> r == Some(final(self).avg_us) && final(self).current_tick == 0,
            r is None ==> final(self).current_tick == old(self).current_tick + 1,
    {
        let elapsed_us = elapsed_micros(&self.instant);
        if self.avg_us > 0 {
            self.avg_us = (self.avg_us + elapsed_us) / 2;
        } else {
            self.avg_us = elapsed_us;
        }
        proof {
            assert(elapsed_us <= MAX_ELAPSED_MICROS && self.avg_us == folded_average(
                old(self).avg_us,
                elapsed_us,
            ));
        }
        if self.current_tick == self.print_every {
            self.current_tick = 0;
            Some(self.avg_us)
        } else {
            self.current_tick = self.current_tick + 1;
            None
        }
    }
}

} // verus!
