//! The serial port's bounded reconnection probe.
//!
//! When the port is lost, candidate device paths (a fixed path prefix plus a
//! small index) are tried in order, each with the same fixed line settings.
//! The probe either connects, stops on a real open error, or — after every
//! candidate was tried — gives up for good: there is no infinite retry at
//! this level. The transitions are pure; opening devices is the caller's
//! side.

use vstd::prelude::*;

verus! {

/// Number of candidate device paths probed before giving up.
pub const PROBE_LIMIT: u16 = 16;

/// What opening one candidate path yielded.
#[derive(Clone, Copy, Debug, PartialEq, Eq, Structural)]
pub enum ProbeEvent {
    /// The candidate opened and was configured.
    Opened,
    /// Nothing behind this candidate; the next one may still open.
    NoDevice,
    /// Opening or configuring failed with a real error.
    OpenFailed,
}

/// Where the probe stands. `Exhausted` and `Faulted` are fatal: the
/// acquisition loop must terminate the process.
#[derive(Clone, Copy, Debug, PartialEq, Eq, Structural)]
pub enum ProbeState {
    /// This candidate index is to be tried next.
    Trying { index: u16 },
    /// The candidate at this index opened; the port is connected.
    Connected { index: u16 },
    /// Every candidate was probed without success.
    Exhausted,
    /// A candidate failed to open with a real error.
    Faulted,
}

impl ProbeState {
    /// Candidate indexes stay below the probe bound.
    pub open spec fn wf(self) -> bool {
        match self {
            ProbeState::Trying { index } => index < PROBE_LIMIT,
            ProbeState::Connected { index } => index < PROBE_LIMIT,
            _ => true,
        }
    }
}

/// The probe's transition: one open attempt's outcome advances the state.
/// Terminal states absorb further events.
pub open spec fn probe_step_spec(s: ProbeState, e: ProbeEvent) -> ProbeState {
    match s {
        ProbeState::Trying { index } => match e {
            ProbeEvent::Opened => ProbeState::Connected { index },
            ProbeEvent::NoDevice => if index + 1 < PROBE_LIMIT {
                ProbeState::Trying { index: (index + 1) as u16 }
            } else {
                ProbeState::Exhausted
            },
            ProbeEvent::OpenFailed => ProbeState::Faulted,
        },
        _ => s,
    }
}

/// Advances the probe by one observed open attempt, per [`probe_step_spec`].
pub fn probe_step(s: ProbeState, e: ProbeEvent) -> (r: ProbeState)
    requires
        s.wf(),
    ensures
        r == probe_step_spec(s, e),
        r.wf(),
{
    match s {
        ProbeState::Trying { index } => match e {
            ProbeEvent::Opened => ProbeState::Connected { index },
            ProbeEvent::NoDevice => if index + 1 < PROBE_LIMIT {
                ProbeState::Trying { index: index + 1 }
            } else {
                ProbeState::Exhausted
            },
            ProbeEvent::OpenFailed => ProbeState::Faulted,
        },
        _ => s,
    }
}

/// The probe's state after starting fresh and observing a sequence of open
/// attempts.
pub open spec fn probe_run(events: Seq<ProbeEvent>) -> ProbeState
    decreases events.len(),
{
    if events.len() == 0 {
        ProbeState::Trying { index: 0 }
    } else {
        probe_step_spec(probe_run(events.drop_last()), events.last())
    }
}

/// Law: when no candidate ever opens, the probe fails after exactly
/// [`PROBE_LIMIT`] attempts — after fewer it is still trying (the candidate
/// index counts the attempts made), and from the bound onward it is
/// exhausted for good, never retrying indefinitely.
pub proof fn lemma_probe_exhausts_at_bound(events: Seq<ProbeEvent>)
    requires
        forall|i: int| 0 <= i < events.len() ==> events[i] == ProbeEvent::NoDevice,
    ensures
        events.len() < PROBE_LIMIT ==> probe_run(events) == (ProbeState::Trying {
            index: events.len() as u16,
        }),
        events.len() >= PROBE_LIMIT ==> probe_run(events) == ProbeState::Exhausted,
    decreases events.len(),
{
    if events.len() > 0 {
        let prefix = events.drop_last();
        assert(forall|i: int| 0 <= i < prefix.len() ==> prefix[i] == events[i]);
        lemma_probe_exhausts_at_bound(prefix);
        assert(events.last() == ProbeEvent::NoDevice);
    }
}

} // verus!
