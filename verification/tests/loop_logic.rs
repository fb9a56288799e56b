use als_core::control::{camera_cycle, serial_cycle, serial_read_step, SerialReadEvent, SerialStep};
use als_core::luma::frame_sum;
use als_core::mapping::MappingConfig;
use als_core::probe::{probe_step, ProbeEvent, ProbeState, PROBE_LIMIT};
use als_core::serial_frame::decode_read;
use als_core::stats::Counters;
use als_core::status::{frame_micros, Reporter};

#[test]
fn decode_two_byte_report() {
    // [0x34, 0x02]: light = 0x0234, all flags clear, nothing dropped
    let r = decode_read(&[0x34, 0x02]);
    assert_eq!(r.light, 0x0234);
    assert!(!r.switch1 && !r.switch2 && !r.switch3 && !r.switch4);
    assert_eq!(r.dropped, 0);
}

#[test]
fn decode_coalesced_read_drops_two() {
    // 6 bytes = 3 reports coalesced; only the last is decoded, 2 dropped
    let r = decode_read(&[0x11, 0x01, 0x22, 0x02, 0x34, 0x02]);
    assert_eq!(r.light, 0x0234);
    assert_eq!(r.dropped, 2);
}

#[test]
fn decode_switch_flags() {
    let r = decode_read(&[0x00, 0xF0]);
    assert_eq!(r.light, 0);
    assert!(r.switch1 && r.switch2 && r.switch3 && r.switch4);
    let r = decode_read(&[0xFF, 0x1F]);
    assert_eq!(r.light, 0x0FFF);
    assert!(r.switch1 && !r.switch2 && !r.switch3 && !r.switch4);
}

#[test]
fn decode_odd_length_ignores_leading_byte() {
    // 5 bytes: the last 2 decode, 5/2 - 1 = 1 dropped
    let r = decode_read(&[0x01, 0x02, 0x03, 0x10, 0x00]);
    assert_eq!(r.light, 0x0010);
    assert_eq!(r.dropped, 1);
}

#[test]
fn counters_wrap_without_panic() {
    let mut c = Counters::new();
    c.reports = u16::MAX;
    c.dropped = u16::MAX - 1;
    c.record_report(5);
    assert_eq!(c.reports, 0);
    assert_eq!(c.dropped, 3);
}

#[test]
fn counters_take_reports_restarts() {
    let mut c = Counters::new();
    c.record_report(1);
    c.record_report(0);
    assert_eq!(c.reports, 2);
    assert_eq!(c.dropped, 1);
    assert_eq!(c.take_reports(), 2);
    assert_eq!(c.reports, 0);
    assert_eq!(c.dropped, 1);
}

#[test]
fn probe_exhausts_after_exact_bound() {
    // no candidate ever opens: still trying before the bound, exhausted at it
    let mut s = ProbeState::Trying { index: 0 };
    for attempt in 1..=PROBE_LIMIT {
        assert!(matches!(s, ProbeState::Trying { index } if index == attempt - 1));
        s = probe_step(s, ProbeEvent::NoDevice);
        if attempt < PROBE_LIMIT {
            assert!(matches!(s, ProbeState::Trying { .. }));
        }
    }
    assert_eq!(s, ProbeState::Exhausted);
}

#[test]
fn probe_connects_and_faults() {
    let s = probe_step(ProbeState::Trying { index: 3 }, ProbeEvent::Opened);
    assert_eq!(s, ProbeState::Connected { index: 3 });
    let s = probe_step(ProbeState::Trying { index: 3 }, ProbeEvent::OpenFailed);
    assert_eq!(s, ProbeState::Faulted);
    // terminal states absorb further events
    assert_eq!(probe_step(s, ProbeEvent::Opened), ProbeState::Faulted);
}

#[test]
fn serial_read_step_policy() {
    assert_eq!(serial_read_step(SerialReadEvent::Bytes(2)), SerialStep::DecodeLatest);
    assert_eq!(serial_read_step(SerialReadEvent::Bytes(100)), SerialStep::DecodeLatest);
    assert_eq!(serial_read_step(SerialReadEvent::Bytes(1)), SerialStep::Reconnect);
    assert_eq!(serial_read_step(SerialReadEvent::Bytes(0)), SerialStep::Reconnect);
    assert_eq!(serial_read_step(SerialReadEvent::TimedOut), SerialStep::RetryRead);
    assert_eq!(serial_read_step(SerialReadEvent::Failed), SerialStep::FailFatal);
}

#[test]
fn serial_cycle_decodes_and_maps() {
    // light range 0..4095 linear onto 0..4095: level equals the decoded light
    let c = MappingConfig::new(0, 4095, 0, 1, 4095).unwrap();
    let (report, normalized, level) = serial_cycle(&c, &[0x34, 0x02]);
    assert_eq!(report.light, 0x0234);
    // 564 / 4095 of the range, as a fraction scaled by 10000
    assert_eq!(normalized, 564 * 10_000 / 4095);
    assert_eq!(level, 0x0234);
}

#[test]
fn camera_cycle_sums_and_maps() {
    // 3 pairs of luma 100 -> sum 300; linear 0..600 onto 0..600
    let frame = [100, 7, 100, 7, 100, 7];
    let c = MappingConfig::new(0, 600, 0, 1, 600).unwrap();
    let (sum, normalized, level) = camera_cycle(&c, &frame);
    assert_eq!(sum, 300);
    assert_eq!(normalized, 5000);
    assert_eq!(level, 300);
}

#[test]
fn frame_sum_takes_luma_bytes_only() {
    assert_eq!(frame_sum(&[]), 0);
    assert_eq!(frame_sum(&[10, 99, 20, 88]), 30);
    // a trailing odd byte is not part of a pair
    assert_eq!(frame_sum(&[1, 2, 3]), 1);
    assert_eq!(frame_sum(&[255, 255, 255, 255]), 510);
}

#[test]
fn reporter_throttles_to_one_sample_per_interval() {
    let mut rep = Reporter::new();
    let mut counters = Counters::new();
    // still inside the first sub-interval: nothing to report
    assert!(rep.sample(&mut counters, 0, 10, 500, 20, 100).is_none());
    assert!(rep.sample(&mut counters, 150_000, 10, 500, 20, 100).is_none());
    // next 200ms interval: exactly one sample comes out
    let s = rep.sample(&mut counters, 200_000, 10, 500, 20, 100).unwrap();
    assert_eq!(s.raw, 10);
    assert_eq!(s.normalized, 500);
    assert_eq!(s.level, 20);
    assert_eq!(s.screen_max, 100);
    assert_eq!(s.delta_micros, 200_000);
    assert!(!s.overwrite);
    assert!(rep.sample(&mut counters, 250_000, 11, 510, 21, 100).is_none());
    // the following sample may overwrite the line already shown
    let s = rep.sample(&mut counters, 400_000, 11, 510, 21, 100).unwrap();
    assert!(s.overwrite);
    assert_eq!(s.delta_micros, 200_000);
}

#[test]
fn reporter_recomputes_rate_each_whole_second() {
    let mut rep = Reporter::new();
    let mut counters = Counters::new();
    counters.record_report(0);
    counters.record_report(0);
    counters.record_report(1);
    // crossing the second boundary moves the count into the rate and restarts it
    let s = rep.sample(&mut counters, 1_200_000, 5, 50, 6, 100).unwrap();
    assert_eq!(s.rate, 3);
    assert_eq!(s.dropped, 1);
    assert_eq!(counters.reports, 0);
    assert_eq!(counters.dropped, 1);
    // within the same second the rate is kept
    let s = rep.sample(&mut counters, 1_400_000, 5, 50, 6, 100).unwrap();
    assert_eq!(s.rate, 3);
}

#[test]
fn reporter_degraded_starts_fresh_line() {
    let mut rep = Reporter::new();
    let mut counters = Counters::new();
    let s = rep.sample(&mut counters, 200_000, 1, 10, 2, 100).unwrap();
    assert!(!s.overwrite);
    rep.mark_degraded();
    let s = rep.sample(&mut counters, 400_000, 1, 10, 2, 100).unwrap();
    assert!(!s.overwrite);
}

#[test]
fn micros_wrap_like_the_display_expects() {
    assert_eq!(frame_micros(1, 500_000), 1_500_000);
    // wrapping, not panicking, on overflow
    assert_eq!(frame_micros(u64::MAX, 0), u64::MAX.wrapping_mul(1_000_000));
}

#[test]
fn reporter_delta_wraps_on_clock_reversal() {
    let mut rep = Reporter::new();
    let mut counters = Counters::new();
    let s = rep.sample(&mut counters, 600_000, 1, 10, 2, 100).unwrap();
    assert_eq!(s.delta_micros, 600_000);
    // a clock that runs backwards wraps the delta instead of panicking
    let s = rep.sample(&mut counters, 200_000, 1, 10, 2, 100).unwrap();
    assert_eq!(s.delta_micros, (200_000u64).wrapping_sub(600_000));
}
