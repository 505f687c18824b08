use neosynth::mixer::{MixerBoolId, MixerFloatId, MixerParam};
use neosynth::params::{CompressorParam, EchoParam, ReverbParam, TapeDelayParam};
use neosynth::parameters::InputParameters;
use neosynth::persist::{
    AppState, CompressorParams, EchoParams, FxReturnState, InputStripState, MixerSnapshot, PersistableState,
    ReverbParams,
};

fn strip(x: f32) -> InputStripState<f32> {
    InputStripState { gain_db: x, pan: x / 10.0, mute: x > 0.0, send_reverb: 0.1, send_echo: 0.2, send_pre_fader: false }
}

fn state(seed: f32, inputs: usize) -> AppState<f32> {
    AppState {
        version: 1,
        mixer: MixerSnapshot {
            inputs: (0..inputs).map(|i| strip(seed + i as f32)).collect(),
            reverb_return: FxReturnState { gain_db: seed, pan: -0.5, mute: true },
            echo_return: FxReturnState { gain_db: -seed, pan: 0.5, mute: false },
            master_gain_db: seed * 2.0,
        },
        reverb: ReverbParams {
            size: seed,
            feedback: 0.7,
            balance: 0.5,
            pre_delay_ms: 5.0,
            hpf_hz: 200.0,
            lpf_hz: 8000.0,
            chorus: 0.5,
            send: 1.0,
        },
        echo: EchoParams { send: 1.0, fb_local: 0.4, fb_cross: seed, time_l_ms: 400.0, time_r_ms: 300.0, lpf_hz: 8000.0 },
        compressor: CompressorParams {
            threshold_db: seed,
            ratio: 4.0,
            attack_ms: 5.0,
            release_ms: 100.0,
            knee_db: 6.0,
            makeup_db: 0.0,
        },
    }
}

fn same(a: &AppState<f32>, b: &AppState<f32>) -> bool {
    format!("{:?}", (&a.mixer, &a.reverb, &a.echo, &a.compressor))
        == format!("{:?}", (&b.mixer, &b.reverb, &b.echo, &b.compressor))
}

#[test]
fn replay_reproduces_state() {
    let s = state(3.0, 2);
    let events = s.replay_events();
    assert_eq!(events.len(), 8 + 6 + 6 + 6 * 2 + 7);
    let mut t = state(-9.0, 2);
    assert!(!same(&s, &t));
    for e in events {
        t.apply(e);
    }
    assert!(same(&s, &t));
}

#[test]
fn apply_ignores_missing_strip() {
    let mut s = state(1.0, 1);
    let before = format!("{:?}", s.mixer);
    s.apply(InputParameters::Mixer(MixerParam::InputGainDb(5, -3.0)));
    assert_eq!(format!("{:?}", s.mixer), before);
    s.apply(InputParameters::Mixer(MixerParam::InputGainDb(0, -3.0)));
    assert_eq!(s.mixer.inputs[0].gain_db, -3.0);
}

#[test]
fn apply_each_effect() {
    let mut s = state(0.0, 1);
    s.apply(InputParameters::Reverb(ReverbParam::Chorus(0.25)));
    s.apply(InputParameters::Echo(EchoParam::TimeRMs(123.0)));
    s.apply(InputParameters::Compressor(CompressorParam::KneeDb(9.0)));
    s.apply(InputParameters::TapeDelay(TapeDelayParam::Send(1.0)));
    s.apply(InputParameters::Mixer(MixerParam::EchoReturnMute(true)));
    assert_eq!(s.reverb.chorus, 0.25);
    assert_eq!(s.echo.time_r_ms, 123.0);
    assert_eq!(s.compressor.knee_db, 9.0);
    assert!(s.mixer.echo_return.mute);
}

#[test]
fn align_inputs_pads_and_truncates() {
    let mut s = state(0.0, 3);
    s.align_inputs(1, strip(0.0));
    assert_eq!(s.mixer.inputs.len(), 1);
    s.align_inputs(4, strip(9.0));
    assert_eq!(s.mixer.inputs.len(), 4);
    assert_eq!(s.mixer.inputs[3].gain_db, 9.0);
    assert_eq!(s.mixer.inputs[0].gain_db, 0.0);
}

#[test]
fn reads_from_snapshot() {
    let s = state(2.0, 2);
    assert_eq!(MixerFloatId::InputGainDb(1).read(&s.mixer), Some(3.0));
    assert_eq!(MixerFloatId::InputGainDb(2).read(&s.mixer), None);
    assert_eq!(MixerFloatId::MasterGainDb.read(&s.mixer), Some(4.0));
    assert_eq!(MixerBoolId::InputMute(0).read(&s.mixer), Some(true));
    assert_eq!(MixerBoolId::InputSendPreFader(9).read(&s.mixer), None);
    assert_eq!(MixerBoolId::ReverbReturnMute.read(&s.mixer), Some(true));
}

#[test]
fn persistable_marks_dirty() {
    let mut p = PersistableState::new(state(0.0, 1));
    assert!(!p.dirty);
    p.apply_and_mark_dirty(InputParameters::Mixer(MixerParam::MasterGainDb(-1.0)));
    assert!(p.dirty);
    assert_eq!(p.state.mixer.master_gain_db, -1.0);
}
