use neosynth::engine::{
    is_positive_multiple, period_for, periods_per_buffer, ring_capacity, target_buffer_size, target_period_size,
    AlsaSettings, Engine, SampleFormat,
};
use neosynth::meters::{EngineTelemetry, MetersOutput};
use neosynth::xrun::{XrunEvent, XrunKind};

#[test]
fn bytes_per_sample() {
    assert_eq!(SampleFormat::S16Le.bytes_per_sample(), 2);
    assert_eq!(SampleFormat::S24_3Le.bytes_per_sample(), 3);
    assert_eq!(SampleFormat::S24_3Be.bytes_per_sample(), 3);
    assert_eq!(SampleFormat::S32Le.bytes_per_sample(), 4);
}

#[test]
fn engine_defaults_and_setters() {
    let mut e = Engine::new("hw:0".to_string(), "hw:1".to_string(), 48_000);
    let s = e.alsa_settings();
    assert_eq!(s.input_device, "hw:0");
    assert_eq!(s.output_device, "hw:1");
    assert_eq!(s.sample_rate, 48_000);
    assert_eq!(s.sample_format, SampleFormat::S32Le);
    assert_eq!(s.buffer_size, None);
    assert_eq!(s.period_size, None);
    assert_eq!(s.num_input_channels, 2);
    assert_eq!(s.num_output_channels, 2);
    e.set_sample_format(SampleFormat::S24_3Be);
    e.set_buffer_size(256);
    e.set_period_size(64);
    e.set_input_channels(4);
    let s = e.alsa_settings();
    assert_eq!(s.sample_format, SampleFormat::S24_3Be);
    assert_eq!(s.buffer_size, Some(256));
    assert_eq!(s.period_size, Some(64));
    assert_eq!(s.num_input_channels, 4);
}

fn settings(buffer: Option<u32>, period: Option<u32>) -> AlsaSettings {
    AlsaSettings {
        input_device: "default".to_string(),
        output_device: "default".to_string(),
        num_input_channels: 2,
        num_output_channels: 2,
        sample_rate: 48_000,
        sample_format: SampleFormat::S16Le,
        buffer_size: buffer,
        period_size: period,
    }
}

#[test]
fn buffer_and_period_defaults() {
    assert_eq!(target_buffer_size(&settings(None, None)), 512);
    assert_eq!(target_buffer_size(&settings(Some(128), None)), 128);
    assert_eq!(target_period_size(&settings(None, Some(32))), Some(32));
    assert_eq!(period_for(512, None), 128);
    assert_eq!(period_for(4, None), 2);
    assert_eq!(period_for(512, Some(100)), 100);
}

#[test]
fn buffer_period_checks() {
    assert!(is_positive_multiple(512, 128));
    assert!(!is_positive_multiple(500, 128));
    assert!(!is_positive_multiple(64, 128));
    assert_eq!(periods_per_buffer(512, 128), 4);
    assert_eq!(periods_per_buffer(100, 128), 1);
    assert_eq!(ring_capacity(128, 3), 768);
}

#[test]
fn meters_start_at_zero() {
    let m = MetersOutput::new(3);
    assert_eq!(m.num_inputs(), 3);
    assert_eq!(m.load_input(0), (0, 0));
    m.store_input(1, 7, 9);
    assert_eq!(m.load_input(1), (7, 9));
    // Out-of-range strips are ignored and read as zero.
    m.store_input(5, 1, 1);
    assert_eq!(m.load_input(5), (0, 0));
    m.store_master(1, 2, 3, 4);
    assert_eq!(m.load_master(), ((1, 2), (3, 4)));
    m.store_compressor_gr_db(42);
    assert_eq!(m.load_compressor_gr_db(), 42);
}

#[test]
fn telemetry_max_is_taken_once() {
    let t = EngineTelemetry::new();
    assert_eq!(t.take_dsp_load_max_pct(), 0);
    t.store_dsp_load(5, 8);
    assert_eq!(t.dsp_load_peak_pct(), 8);
    assert_eq!(t.dsp_load_pct(), 5);
    loop {
        let cur = t.dsp_load_max_pct();
        if t.compare_exchange_max_pct(cur, 77).is_ok() {
            break;
        }
    }
    assert_eq!(t.take_dsp_load_max_pct(), 77);
    assert_eq!(t.take_dsp_load_max_pct(), 0);
}

#[test]
fn successful_exchange_reports_the_expected_value() {
    let t = EngineTelemetry::new();
    loop {
        match t.compare_exchange_max_pct(0, 9) {
            Ok(previous) => {
                assert_eq!(previous, 0);
                break;
            }
            Err(actual) => assert_eq!(actual, 0),
        }
    }
    assert!(t.compare_exchange_max_pct(0, 3).is_err());
    assert_eq!(t.dsp_load_max_pct(), 9);
    t.increment_overrun();
    t.increment_underrun();
    t.increment_underrun();
    assert_eq!((t.overrun_count(), t.underrun_count()), (1, 2));
}

#[test]
fn xrun_event_is_plain_data() {
    let e = XrunEvent { kind: XrunKind::Underrun, timestamp_us: 12 };
    assert_eq!(e, XrunEvent { kind: XrunKind::Underrun, timestamp_us: 12 });
    assert_ne!(e.kind, XrunKind::Overrun);
}

#[test]
fn load_is_reported_once_per_buffer() {
    let mut c = neosynth::engine::LoadCadence::new(4);
    let reports: Vec<bool> = (0..9).map(|_| c.tick()).collect();
    assert_eq!(reports, vec![false, false, false, true, false, false, false, true, false]);
    let mut every = neosynth::engine::LoadCadence::new(1);
    assert!(every.tick());
    assert!(every.tick());
}
