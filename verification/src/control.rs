//! The acquisition loops' decisions.
//!
//! Each variant's loop cycles through reading, mapping, writing and
//! reporting. Every decision the cycle takes — whether a read outcome is a
//! usable report, a lost device, or a transient fault, and what the written
//! level must be — is a pure function here; performing the reads, writes
//! and waits is the caller's side.

use vstd::prelude::*;

verus! {

use crate::luma::MAX_FRAME_LEN;
use crate::luma::frame_sum;
use crate::luma::luma_sum;
use crate::mapping::MappingConfig;
use crate::mapping::level_spec;
use crate::mapping::map_level;
use crate::mapping::normalize;
use crate::mapping::normalized_fp;
use crate::serial_frame::MAX_READ_LEN;
use crate::serial_frame::SensorReport;
use crate::serial_frame::decode_read;
use crate::serial_frame::dropped_of;
use crate::serial_frame::light_of;
use crate::serial_frame::switch_of;

/// Uniform cool-down before retrying after a recoverable fault, in
/// milliseconds: a single fixed value, not a backoff schedule.
pub const COOL_DOWN_MILLIS: u64 = 1_000;

/// What one serial read attempt yielded, as the loop sees it.
#[derive(Clone, Copy, Debug, PartialEq, Eq, Structural)]
pub enum SerialReadEvent {
    /// The read returned this many bytes.
    Bytes(usize),
    /// The read timed out with no data.
    TimedOut,
    /// The read failed with a real I/O error.
    Failed,
}

/// What the serial loop does with a read attempt's outcome.
#[derive(Clone, Copy, Debug, PartialEq, Eq, Structural)]
pub enum SerialStep {
    /// At least one whole report arrived: decode the latest and carry on.
    DecodeLatest,
    /// A short read signals a lost device: probe candidate paths again.
    Reconnect,
    /// Nothing arrived yet: read again from the same port.
    RetryRead,
    /// An unrecoverable read error: the loop must fail.
    FailFatal,
}

/// Decides the serial loop's next step from one read outcome: two or more
/// bytes decode, a short read means the port is lost, a timeout only
/// retries, and a real error is fatal.
pub fn serial_read_step(e: SerialReadEvent) -> (s: SerialStep)
    ensures
        (e matches SerialReadEvent::Bytes(n) && n >= 2) <==> s == SerialStep::DecodeLatest,
        (e matches SerialReadEvent::Bytes(n) && n < 2) <==> s == SerialStep::Reconnect,
        e == SerialReadEvent::TimedOut <==> s == SerialStep::RetryRead,
        e == SerialReadEvent::Failed <==> s == SerialStep::FailFatal,
{
    match e {
        SerialReadEvent::Bytes(n) => if n >= 2 {
            SerialStep::DecodeLatest
        } else {
            SerialStep::Reconnect
        },
        SerialReadEvent::TimedOut => SerialStep::RetryRead,
        SerialReadEvent::Failed => SerialStep::FailFatal,
    }
}

/// The computing heart of one successful serial cycle: the read's latest
/// report decoded, the normalized fraction of its light value, and the
/// brightness level it maps to.
pub fn serial_cycle(c: &MappingConfig, bytes: &[u8]) -> (r: (SensorReport, u64, u64))
    requires
        c.wf(),
        2 <= bytes@.len() <= MAX_READ_LEN,
    ensures
        r.0.light == light_of(bytes@[bytes@.len() - 2], bytes@[bytes@.len() - 1]),
        r.0.switch1 == switch_of(bytes@[bytes@.len() - 1], 0),
        r.0.switch2 == switch_of(bytes@[bytes@.len() - 1], 1),
        r.0.switch3 == switch_of(bytes@[bytes@.len() - 1], 2),
        r.0.switch4 == switch_of(bytes@[bytes@.len() - 1], 3),
        r.0.dropped == dropped_of(bytes@.len() as int),
        r.1 == normalized_fp(*c, r.0.light as int),
        r.2 == level_spec(*c, r.0.light as int),
        r.2 <= c.screen_max,
{
    let report = decode_read(bytes);
    let normalized = normalize(c, report.light as u64);
    let level = map_level(c, report.light as u64);
    (report, normalized, level)
}

/// The computing heart of one successful camera cycle: the frame reduced to
/// its raw luma sum, the normalized fraction of that sum, and the
/// brightness level it maps to.
pub fn camera_cycle(c: &MappingConfig, frame: &[u8]) -> (r: (u64, u64, u64))
    requires
        c.wf(),
        frame@.len() <= MAX_FRAME_LEN,
    ensures
        r.0 == luma_sum(frame@),
        r.1 == normalized_fp(*c, luma_sum(frame@)),
        r.2 == level_spec(*c, luma_sum(frame@)),
        r.2 <= c.screen_max,
{
    let sum = frame_sum(frame);
    let normalized = normalize(c, sum);
    let level = map_level(c, sum);
    (sum, normalized, level)
}

} // verus!
