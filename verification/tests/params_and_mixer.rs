use neosynth::mixer::{default_param_order, MixerBoolId, MixerFloatId, MixerParam, MixerParamId, ValueRange};
use neosynth::params::{
    CompressorParam, CompressorParamKind, EchoParamKind, FloatParams, ReverbParamKind, TapeDelayParamKind,
};

#[test]
fn effect_osc_paths() {
    assert_eq!(ReverbParamKind::PreDelayMs.osc_path(), "/reverb/pre_delay_ms");
    assert_eq!(EchoParamKind::FbCross.osc_path(), "/stereo_delay/fb_cross");
    assert_eq!(TapeDelayParamKind::H2Level.osc_path(), "/tape_delay/h2_level");
    assert_eq!(CompressorParamKind::KneeDb.osc_path(), "/compressor/knee_db");
}

#[test]
fn effect_lists_and_names() {
    assert_eq!(ReverbParamKind::all().len(), 8);
    assert_eq!(EchoParamKind::all().len(), 6);
    assert_eq!(TapeDelayParamKind::all().len(), 12);
    assert_eq!(CompressorParamKind::all().len(), 6);
    assert_eq!(ReverbParamKind::all()[3], ReverbParamKind::PreDelayMs);
    assert_eq!(ReverbParamKind::PreDelayMs.name(), "Pre-delay (ms)");
    assert_eq!(TapeDelayParamKind::SaturationDrive.name(), "Tape Drive");
    assert_eq!(CompressorParamKind::osc_namespace(), "/compressor");
}

#[test]
fn build_wraps_value() {
    match CompressorParamKind::Ratio.build(4.0f64) {
        CompressorParam::Ratio(v) => assert_eq!(v, 4.0),
        other => panic!("wrong variant {other:?}"),
    }
    match MixerFloatId::InputPan(3).build(-0.5f64) {
        MixerParam::InputPan(3, v) => assert_eq!(v, -0.5),
        other => panic!("wrong variant {other:?}"),
    }
    match MixerBoolId::EchoReturnMute.build::<f64>(true) {
        MixerParam::EchoReturnMute(true) => {}
        other => panic!("wrong variant {other:?}"),
    }
}

#[test]
fn mixer_osc_paths() {
    assert_eq!(MixerFloatId::InputGainDb(0).osc_path(), "/mixer/input/0/gain_db");
    assert_eq!(MixerFloatId::InputSendEcho(10).osc_path(), "/mixer/input/10/send_echo");
    assert_eq!(MixerFloatId::EchoReturnPan.osc_path(), "/mixer/echo_return/pan");
    assert_eq!(MixerBoolId::InputSendPreFader(7).osc_path(), "/mixer/input/7/send_pre_fader");
    assert_eq!(MixerBoolId::ReverbReturnMute.osc_path(), "/mixer/reverb_return/mute");
    assert!(!MixerBoolId::InputMute(1).default_value());
}

#[test]
fn param_order_layout() {
    let order = default_param_order(3);
    assert_eq!(order.len(), 6 * 3 + 7);
    assert_eq!(order[6], MixerParamId::Float(MixerFloatId::InputGainDb(1)));
    assert_eq!(order[17], MixerParamId::Bool(MixerBoolId::InputSendPreFader(2)));
    assert_eq!(order[18], MixerParamId::Float(MixerFloatId::ReverbReturnGainDb));
    assert_eq!(order[24], MixerParamId::Float(MixerFloatId::MasterGainDb));
    assert_eq!(default_param_order(0).len(), 7);
}

#[test]
fn clamp_ranges() {
    assert_eq!(MixerParam::InputPan(0, 0.0f64).value_range(), ValueRange::Bipolar);
    assert_eq!(MixerParam::InputSendReverb(0, 0.0f64).value_range(), ValueRange::Unit);
    assert_eq!(MixerParam::MasterGainDb(0.0f64).value_range(), ValueRange::Free);
    assert_eq!(MixerParam::<f64>::InputMute(0, true).value_range(), ValueRange::Free);
}

#[test]
fn display_order_lists_each_identifier_once() {
    let n = 3;
    let order = default_param_order(n);
    assert_eq!(order.len(), 6 * n + 7);
    for (i, a) in order.iter().enumerate() {
        for b in &order[i + 1..] {
            assert_ne!(a, b);
        }
    }
    for i in 0..n {
        for id in [
            MixerParamId::Float(MixerFloatId::InputGainDb(i)),
            MixerParamId::Float(MixerFloatId::InputPan(i)),
            MixerParamId::Float(MixerFloatId::InputSendReverb(i)),
            MixerParamId::Float(MixerFloatId::InputSendEcho(i)),
            MixerParamId::Bool(MixerBoolId::InputMute(i)),
            MixerParamId::Bool(MixerBoolId::InputSendPreFader(i)),
        ] {
            assert_eq!(order.iter().filter(|x| **x == id).count(), 1);
        }
    }
    assert!(!order.contains(&MixerParamId::Float(MixerFloatId::InputGainDb(n))));
    assert_eq!(order[order.len() - 1], MixerParamId::Float(MixerFloatId::MasterGainDb));
}
