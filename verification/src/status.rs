//! Rate-limited status sampling.
//!
//! After each successful control cycle the reporter checks the clock it is
//! handed: at most one structured sample is produced per fixed sub-second
//! interval, and the per-second throughput figure is recomputed once per
//! whole-second boundary. The reporter never blocks; rendering the sample
//! (and overwriting the previous terminal line) is the caller's side.

use vstd::prelude::*;

verus! {

use crate::stats::Counters;

/// Width of one reporting sub-interval, in microseconds.
pub const REPORT_INTERVAL_MICROS: u64 = 200_000;

/// Microseconds in a whole second.
pub const SECOND_MICROS: u64 = 1_000_000;

/// The whole second a microsecond clock value falls in.
pub open spec fn second_of(micros: u64) -> int {
    micros as int / SECOND_MICROS as int
}

/// The sub-second reporting interval a microsecond clock value falls in.
pub open spec fn interval_of(micros: u64) -> int {
    (micros as int % SECOND_MICROS as int) / REPORT_INTERVAL_MICROS as int
}

/// One structured diagnostic sample.
#[derive(Clone, Copy, Debug, PartialEq, Eq, Structural)]
pub struct StatusSample {
    /// Elapsed microseconds since the previous sample (wrapping).
    pub delta_micros: u64,
    /// The raw reading of the cycle that produced this sample.
    pub raw: u64,
    /// The normalized fraction of that reading, scaled by
    /// [`crate::mapping::SCALE`].
    pub normalized: u64,
    /// The brightness level written in that cycle.
    pub level: u64,
    /// The device's maximum brightness level.
    pub screen_max: u64,
    /// Reports completed in the last whole second.
    pub rate: u16,
    /// Reports dropped since startup (wrapping).
    pub dropped: u16,
    /// Whether the previously rendered line is still current and may be
    /// overwritten in place.
    pub overwrite: bool,
}

/// The reporter's memory between cycles.
#[derive(Clone, Copy, Debug, PartialEq, Eq, Structural)]
pub struct Reporter {
    /// The clock value of the last sample produced.
    pub prev_micros: u64,
    /// The whole second the rate was last recomputed for.
    pub prev_sec: u64,
    /// The sub-interval a sample was last produced in.
    pub prev_sub: u64,
    /// Reports completed in the last whole second.
    pub prev_reports: u16,
    /// Whether the line rendered last is still current on screen.
    pub line_shown: bool,
}

impl Reporter {
    /// A fresh reporter: nothing sampled, nothing on screen.
    pub fn new() -> (r: Reporter)
        ensures
            r == (Reporter {
                prev_micros: 0,
                prev_sec: 0,
                prev_sub: 0,
                prev_reports: 0,
                line_shown: false,
            }),
    {
        Reporter { prev_micros: 0, prev_sec: 0, prev_sub: 0, prev_reports: 0, line_shown: false }
    }

    /// A fault interrupted the output: whatever is on screen is stale, so
    /// the next sample must start a fresh line.
    pub fn mark_degraded(&mut self)
        ensures
            *final(self) == (Reporter { line_shown: false, ..*old(self) }),
    {
        self.line_shown = false;
    }

    /// The status check after one successful cycle, against the
    /// microseconds elapsed since startup. At most one sample comes out per
    /// sub-second interval; the rate is taken from the counters once per
    /// whole second. Purely a check against the clock it is handed: it
    /// never blocks.
    pub fn sample(
        &mut self,
        counters: &mut Counters,
        now_micros: u64,
        raw: u64,
        normalized: u64,
        level: u64,
        screen_max: u64,
    ) -> (out: Option<StatusSample>)
        ensures
            final(self).prev_sec == second_of(now_micros),
            final(self).prev_sub == interval_of(now_micros),
            final(self).prev_reports == (if second_of(now_micros) != old(self).prev_sec {
                old(counters).reports
            } else {
                old(self).prev_reports
            }),
            final(counters).reports == (if second_of(now_micros) != old(self).prev_sec {
                0u16
            } else {
                old(counters).reports
            }),
            final(counters).dropped == old(counters).dropped,
            out is Some <==> interval_of(now_micros) != old(self).prev_sub,
            out matches Some(s) ==> s == (StatusSample {
                delta_micros: vstd::wrapping::u64_specs::wrapping_sub(
                    now_micros,
                    old(self).prev_micros,
                ),
                raw,
                normalized,
                level,
                screen_max,
                rate: final(self).prev_reports,
                dropped: old(counters).dropped,
                overwrite: old(self).line_shown,
            }),
            final(self).prev_micros == (if out is Some {
                now_micros
            } else {
                old(self).prev_micros
            }),
            final(self).line_shown == (out is Some || old(self).line_shown),
    {
        let sec: u64 = now_micros / SECOND_MICROS;
        let sub: u64 = (now_micros % SECOND_MICROS) / REPORT_INTERVAL_MICROS;
        if sec != self.prev_sec {
            self.prev_sec = sec;
            self.prev_reports = counters.take_reports();
        }
        if sub != self.prev_sub {
            self.prev_sub = sub;
            let s = StatusSample {
                delta_micros: now_micros.wrapping_sub(self.prev_micros),
                raw,
                normalized,
                level,
                screen_max,
                rate: self.prev_reports,
                dropped: counters.dropped,
                overwrite: self.line_shown,
            };
            self.prev_micros = now_micros;
            self.line_shown = true;
            Some(s)
        } else {
            None
        }
    }
}

/// Microsecond timestamp of a captured frame, from the driver's seconds and
/// microseconds, with the same wraparound the display expects.
pub fn frame_micros(sec: u64, usec: u64) -> (t: u64)
    ensures
        t == vstd::wrapping::u64_specs::wrapping_add(
            vstd::wrapping::u64_specs::wrapping_mul(sec, 1_000_000),
            usec,
        ),
{
    sec.wrapping_mul(1_000_000).wrapping_add(usec)
}

} // verus!
