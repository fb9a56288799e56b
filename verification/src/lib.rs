//! Core logic for an ambient-light-driven backlight controller.
//!
//! Two sensor front-ends feed the same brightness pipeline: a video-capture
//! luminance sampler (a frame's luma bytes are summed into a raw reading) and
//! a serial link on which a microcontroller reports a 12-bit light value.
//! A raw reading is clamped into a configured range, normalized, shaped by a
//! power-law response curve, and scaled into the display's brightness range.
//! All curve arithmetic is fixed-point over integers, so every step of the
//! pipeline is verified: monotonicity, clamping at the range ends, and the
//! output staying inside the display's range are proved, not sampled.
//!
//! The I/O around the pipeline (device reads, backlight writes, terminal
//! output) stays outside this crate; the acquisition loop's decisions — when
//! to decode, reconnect, retry, or fail — are pure functions here, driven by
//! plain events, so the resilience policy is verified as well.

pub mod control;
pub mod luma;
pub mod mapping;
pub mod probe;
pub mod serial_frame;
pub mod stats;
pub mod status;
