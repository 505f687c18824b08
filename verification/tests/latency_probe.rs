use neosynth::latency::{LatencyProbe, ProbeOutcome, SETTLE_PERIODS, TIMEOUT_FRAMES};

#[test]
fn impulse_goes_out_after_settling() {
    let p = LatencyProbe::after_settling(128);
    assert_eq!(p.impulse_frame(), SETTLE_PERIODS * 128);
}

#[test]
fn detection_counts_frames_since_the_impulse() {
    let mut p = LatencyProbe::after_settling(128);
    assert_eq!(p.on_period(128, None), ProbeOutcome::Continue);
    assert_eq!(p.on_period(128, Some(10)), ProbeOutcome::Detected { latency_frames: 138 });
}

#[test]
fn echo_heard_in_the_first_period_is_immediate() {
    let mut p = LatencyProbe::after_settling(64);
    assert_eq!(p.on_period(64, Some(0)), ProbeOutcome::Detected { latency_frames: 0 });
}

#[test]
fn silence_times_out() {
    let mut p = LatencyProbe::after_settling(0);
    assert_eq!(p.on_period(TIMEOUT_FRAMES, None), ProbeOutcome::Continue);
    assert_eq!(p.on_period(1, None), ProbeOutcome::TimedOut);
}
