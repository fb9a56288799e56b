//! Throughput counters for the acquisition loop.
//!
//! The loop counts completed reports and coalesced (dropped) reports. Both
//! counters wrap modulo 2^16 instead of panicking, so no amount of uptime
//! can take the control loop down; the status reporter restarts the report
//! counter at second boundaries.

use vstd::prelude::*;

verus! {

/// Completed and dropped report counts, both wrapping.
#[derive(Clone, Copy, Debug, PartialEq, Eq, Structural)]
pub struct Counters {
    /// Reports completed since the counter was last restarted.
    pub reports: u16,
    /// Reports silently coalesced away since startup.
    pub dropped: u16,
}

impl Counters {
    /// Fresh counters, both zero.
    pub fn new() -> (c: Counters)
        ensures
            c == (Counters { reports: 0, dropped: 0 }),
    {
        Counters { reports: 0, dropped: 0 }
    }

    /// Law: accounting for a completed cycle wraps both counters modulo
    /// 2^16 — incrementing past the maximum cannot panic, for any counter
    /// value and any drop increment.
    pub fn record_report(&mut self, drop_increment: u16)
        ensures
            final(self).reports == (old(self).reports + 1) % 0x10000,
            final(self).dropped == (old(self).dropped + drop_increment) % 0x10000,
    {
        self.reports = self.reports.wrapping_add(1);
        self.dropped = self.dropped.wrapping_add(drop_increment);
    }

    /// Hands out the completed report count and restarts it; the drop count
    /// keeps accumulating.
    pub fn take_reports(&mut self) -> (r: u16)
        ensures
            r == old(self).reports,
            final(self).reports == 0,
            final(self).dropped == old(self).dropped,
    {
        let r = self.reports;
        self.reports = 0;
        r
    }
}

} // verus!
