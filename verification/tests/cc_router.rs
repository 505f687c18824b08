use neosynth::mapping::{default_mapping, BoolMode, BoolTarget, CcBinding, CcRouter, FloatTarget, RoutedCc};
use neosynth::mixer::{MixerBoolId, MixerFloatId, MixerParam};
use neosynth::params::{EchoParamKind, ReverbParamKind};
use neosynth::parameters::InputParameters;

/// A linear curve over `[min, max]`, as the engine's control surfaces use.
#[derive(Debug, Clone, Copy, PartialEq)]
struct Linear {
    min: f32,
    max: f32,
}

fn apply_linear(c: Linear, cc_value: u8) -> f64 {
    let t = cc_value.min(127) as f32 / 127.0;
    (c.min + t * (c.max - c.min)) as f64
}

fn float_binding(cc: u8, target: FloatTarget, curve: Linear) -> CcBinding<Linear> {
    CcBinding::Float { channel: 0, cc, target, curve }
}

fn bool_binding(cc: u8, target: BoolTarget, mode: BoolMode) -> CcBinding<Linear> {
    CcBinding::Bool { channel: 0, cc, target, mode }
}

fn to_param(r: Option<RoutedCc<Linear>>) -> Option<InputParameters<f64>> {
    r.map(|r| match r {
        RoutedCc::Float { target, curve, value } => target.into_param(apply_linear(curve, value)),
        RoutedCc::Bool { target, on } => target.into_param(on),
    })
}

#[test]
fn linear_curve_maps_full_range() {
    let mut r = CcRouter::new(vec![float_binding(
        1,
        FloatTarget::Mixer(MixerFloatId::MasterGainDb),
        Linear { min: -60.0, max: 12.0 },
    )]);
    let p = to_param(r.route(0, 1, 127)).unwrap();
    match p {
        InputParameters::Mixer(MixerParam::MasterGainDb(v)) => {
            assert!((v - 12.0).abs() < 1e-3, "got {v}");
        }
        _ => panic!("wrong variant: {p:?}"),
    }
}

#[test]
fn unmatched_cc_returns_none() {
    let mut r = CcRouter::new(vec![float_binding(
        1,
        FloatTarget::Mixer(MixerFloatId::MasterGainDb),
        Linear { min: -60.0, max: 12.0 },
    )]);
    assert!(r.route(0, 2, 64).is_none());
    assert!(r.route(1, 1, 64).is_none()); // wrong channel
}

#[test]
fn latched_bool_threshold_at_64() {
    let mut r = CcRouter::new(vec![bool_binding(
        1,
        BoolTarget::Mixer(MixerBoolId::ReverbReturnMute),
        BoolMode::Latched,
    )]);
    match to_param(r.route(0, 1, 0)) {
        Some(InputParameters::Mixer(MixerParam::ReverbReturnMute(false))) => {}
        other => panic!("expected mute=false, got {other:?}"),
    }
    match to_param(r.route(0, 1, 64)) {
        Some(InputParameters::Mixer(MixerParam::ReverbReturnMute(true))) => {}
        other => panic!("expected mute=true, got {other:?}"),
    }
}

#[test]
fn toggle_only_fires_on_rising_edge() {
    let mut r = CcRouter::new(vec![bool_binding(
        1,
        BoolTarget::Mixer(MixerBoolId::ReverbReturnMute),
        BoolMode::Toggle { threshold: 64 },
    )]);

    // First press: rising edge → toggle to true.
    match to_param(r.route(0, 1, 127)) {
        Some(InputParameters::Mixer(MixerParam::ReverbReturnMute(true))) => {}
        other => panic!("expected toggle true, got {other:?}"),
    }
    // Hold high — no edge, no event.
    assert!(r.route(0, 1, 127).is_none());
    // Release — falling edge, no event.
    assert!(r.route(0, 1, 0).is_none());
    // Second press: rising edge → toggle back to false.
    match to_param(r.route(0, 1, 127)) {
        Some(InputParameters::Mixer(MixerParam::ReverbReturnMute(false))) => {}
        other => panic!("expected toggle false, got {other:?}"),
    }
}

#[test]
fn first_matching_binding_wins() {
    let mut r = CcRouter::new(vec![
        bool_binding(5, BoolTarget::Mixer(MixerBoolId::EchoReturnMute), BoolMode::Latched),
        float_binding(5, FloatTarget::Mixer(MixerFloatId::MasterGainDb), Linear { min: 0.0, max: 1.0 }),
    ]);
    match r.route(0, 5, 100) {
        Some(RoutedCc::Bool { target: BoolTarget::Mixer(MixerBoolId::EchoReturnMute), on: true }) => {}
        other => panic!("expected the bool binding, got {other:?}"),
    }
}

#[test]
fn default_mapping_numbers_controllers_from_one() {
    let bindings = default_mapping(2, |t: FloatTarget| t);
    // 6 per strip + 7 mixer + 8 reverb + 6 echo.
    assert_eq!(bindings.len(), 6 * 2 + 21);
    for (j, b) in bindings.iter().enumerate() {
        match b {
            CcBinding::Float { channel, cc, target, curve } => {
                assert_eq!(*channel, 0);
                assert_eq!(*cc as usize, j + 1);
                assert_eq!(target, curve);
            }
            CcBinding::Bool { channel, cc, mode, .. } => {
                assert_eq!(*channel, 0);
                assert_eq!(*cc as usize, j + 1);
                assert_eq!(*mode, BoolMode::Latched);
            }
        }
    }
    match bindings[0] {
        CcBinding::Float { target: FloatTarget::Mixer(MixerFloatId::InputGainDb(0)), .. } => {}
        ref other => panic!("unexpected first binding {other:?}"),
    }
    match bindings[4] {
        CcBinding::Bool { target: BoolTarget::Mixer(MixerBoolId::InputMute(0)), .. } => {}
        ref other => panic!("unexpected binding {other:?}"),
    }
    match bindings[19] {
        CcBinding::Float { target: FloatTarget::Reverb(ReverbParamKind::Size), .. } => {}
        ref other => panic!("unexpected binding {other:?}"),
    }
    match bindings[32] {
        CcBinding::Float { target: FloatTarget::Echo(EchoParamKind::LpfHz), cc: 33, .. } => {}
        ref other => panic!("unexpected last binding {other:?}"),
    }
}

#[test]
fn every_default_controller_reaches_its_slot() {
    let bindings = default_mapping(3, |t: FloatTarget| t);
    let mut r = CcRouter::new(bindings.clone());
    for (j, b) in bindings.iter().enumerate() {
        let routed = r.route(0, (j + 1) as u8, 127).expect("bound controller");
        match (b, routed) {
            (CcBinding::Float { target, .. }, RoutedCc::Float { target: t, curve, value }) => {
                assert_eq!(*target, t);
                assert_eq!(curve, t);
                assert_eq!(value, 127);
            }
            (CcBinding::Bool { target, .. }, RoutedCc::Bool { target: t, on }) => {
                assert_eq!(*target, t);
                assert!(on);
            }
            other => panic!("controller {} routed to {:?}", j + 1, other),
        }
    }
    assert!(r.route(0, (bindings.len() + 1) as u8, 127).is_none());
}
