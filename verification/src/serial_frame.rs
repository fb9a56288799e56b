//! Decoding of the serial sensor's fixed-size reports.
//!
//! The microcontroller writes 2-byte reports: a 12-bit light value (the low
//! byte plus the 4 low bits of the high byte) and 4 independent switch flags
//! in the 4 high bits. Reports may coalesce in one read; only the last 2
//! bytes of a read are current, and the decoder reports how many earlier
//! reports the read silently dropped.

use vstd::prelude::*;

verus! {

/// Longest read the decoder accepts; keeps the drop count inside `u16`.
/// The acquisition loop's read buffer is far smaller.
pub const MAX_READ_LEN: usize = 0x2_0000;

/// One decoded sensor report, plus how many older reports the same read
/// coalesced over.
#[derive(Clone, Copy, Debug, PartialEq, Eq, Structural)]
pub struct SensorReport {
    /// The 12-bit raw light value.
    pub light: u16,
    /// High-byte bit 4.
    pub switch1: bool,
    /// High-byte bit 5.
    pub switch2: bool,
    /// High-byte bit 6.
    pub switch3: bool,
    /// High-byte bit 7.
    pub switch4: bool,
    /// Reports silently coalesced into this read: one fewer than the number
    /// of 2-byte reports the read contained.
    pub dropped: u16,
}

/// The 12-bit light value held in a report's two bytes: the low byte plus
/// the 4 low bits of the high byte.
pub open spec fn light_of(low: u8, high: u8) -> int {
    low + 256 * ((high as int) % 16)
}

/// Switch flag `k` (0-based) of a report's high byte: bit `4 + k`.
pub open spec fn switch_of(high: u8, k: nat) -> bool {
    if k == 0 {
        ((high as int) / 16) % 2 == 1
    } else if k == 1 {
        ((high as int) / 32) % 2 == 1
    } else if k == 2 {
        ((high as int) / 64) % 2 == 1
    } else {
        ((high as int) / 128) % 2 == 1
    }
}

/// How many reports a read of `len` bytes dropped: all but the last of its
/// 2-byte reports.
pub open spec fn dropped_of(len: int) -> int {
    len / 2 - 1
}

/// Decodes the most recent report out of one read's bytes: the last 2 bytes
/// carry the current value, everything earlier is counted as dropped.
pub fn decode_read(bytes: &[u8]) -> (r: SensorReport)
    requires
        2 <= bytes@.len() <= MAX_READ_LEN,
    ensures
        r.light == light_of(bytes@[bytes@.len() - 2], bytes@[bytes@.len() - 1]),
        r.light < 4096,
        r.switch1 == switch_of(bytes@[bytes@.len() - 1], 0),
        r.switch2 == switch_of(bytes@[bytes@.len() - 1], 1),
        r.switch3 == switch_of(bytes@[bytes@.len() - 1], 2),
        r.switch4 == switch_of(bytes@[bytes@.len() - 1], 3),
        r.dropped == dropped_of(bytes@.len() as int),
{
    let n = bytes.len();
    let low = bytes[n - 2];
    let high = bytes[n - 1];
    let light: u16 = (low as u16) + 256 * ((high as u16) % 16);
    let dropped: u16 = (n / 2 - 1) as u16;
    SensorReport {
        light,
        switch1: (high / 16) % 2 == 1,
        switch2: (high / 32) % 2 == 1,
        switch3: (high / 64) % 2 == 1,
        switch4: (high / 128) % 2 == 1,
        dropped,
    }
}

} // verus!
