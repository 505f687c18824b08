use neosynth::mixer::MixerParam;
use neosynth::osc::{
    broadcast_messages, command_of, first_arg, MeterReadings, input_meter_address, list_item_message, state_address, state_message, ListedKind, OscArg,
    OscCommand, OscRouter, OscValue, RouteTarget, ServerAction, WireNumber,
};
use neosynth::persist::{
    AppState, CompressorParams, EchoParams, FxReturnState, InputStripState, MixerSnapshot, ReverbParams,
};
use neosynth::params::{ReverbParam, ReverbParamKind};
use neosynth::parameters::InputParameters;
use neosynth::wire::{bundle_datagram, datagram_messages, message_datagram, WireArg, WireMessage};

/// The first argument as the server reads it: an OSC float, as `f64`.
fn float_arg(v: f32) -> OscArg<f64> {
    OscArg { number: Some(v as f64), switch: Some(v >= 0.5) }
}

/// An OSC float argument.
fn float(v: f32) -> WireArg {
    WireArg::FloatBits(v.to_bits())
}

/// The first float of a routed event, as the wire carried it.
fn float_of(n: WireNumber) -> f32 {
    match n {
        WireNumber::FloatBits(b) => f32::from_bits(b),
        other => panic!("not a float: {other:?}"),
    }
}

#[test]
fn reverb_path_routes_to_reverb_param() {
    let r = OscRouter::new(2);
    let p = r.route("/reverb/size", first_arg(&[float(0.7)])).expect("known path");
    match p {
        InputParameters::Reverb(ReverbParam::Size(v)) => {
            assert!((float_of(v) - 0.7).abs() < 1e-6);
        }
        other => panic!("wrong variant: {other:?}"),
    }
}

#[test]
fn mixer_indexed_input_path_routes() {
    let r = OscRouter::new(4);
    let p = r.route("/mixer/input/2/gain_db", first_arg(&[float(-6.0)])).expect("known path");
    match p {
        InputParameters::Mixer(MixerParam::InputGainDb(2, v)) => {
            assert!((float_of(v) - -6.0).abs() < 1e-6);
        }
        other => panic!("wrong variant: {other:?}"),
    }
}

#[test]
fn mute_path_takes_bool_or_int() {
    let r = OscRouter::new(2);
    match r.route("/mixer/input/0/mute", first_arg(&[WireArg::Bool(true)])).expect("known path") {
        InputParameters::Mixer(MixerParam::InputMute(0, true)) => {}
        other => panic!("wrong variant: {other:?}"),
    }
    match r.route("/mixer/input/0/mute", first_arg(&[WireArg::Int(1)])).expect("known path") {
        InputParameters::Mixer(MixerParam::InputMute(0, true)) => {}
        other => panic!("wrong variant: {other:?}"),
    }
}

#[test]
fn unknown_path_returns_none() {
    let r = OscRouter::new(2);
    assert!(r.route("/nonsense", first_arg(&[float(1.0)])).is_none());
}

#[test]
fn introspection_includes_all_effect_and_mixer_params() {
    let r = OscRouter::new(2);
    let paths: Vec<&str> = r.introspection().iter().map(|p| p.path.as_str()).collect();
    assert!(paths.contains(&"/reverb/size"));
    assert!(paths.contains(&"/stereo_delay/time_l_ms"));
    assert!(paths.contains(&"/mixer/input/0/gain_db"));
    assert!(paths.contains(&"/mixer/input/1/pan"));
    assert!(paths.contains(&"/mixer/master/gain_db"));
    assert!(paths.contains(&"/mixer/reverb_return/mute"));
}

#[test]
fn float_target_rejects_non_numeric_argument() {
    let r = OscRouter::new(1);
    assert!(r.route("/reverb/size", first_arg(&[WireArg::Bool(true)])).is_none());
    assert!(r.route("/reverb/size", first_arg(&[WireArg::Text("0.5".into())])).is_none());
    assert!(r.route("/reverb/size", first_arg(&[])).is_none());
}

#[test]
fn switch_coercion_follows_the_argument_kind() {
    let r = OscRouter::new(1);
    let mute = |args: &[WireArg]| match r.route("/mixer/input/0/mute", first_arg(args)) {
        Some(InputParameters::Mixer(MixerParam::InputMute(0, on))) => Some(on),
        None => None,
        other => panic!("wrong variant: {other:?}"),
    };
    assert_eq!(mute(&[WireArg::Int(0)]), Some(false));
    assert_eq!(mute(&[WireArg::Int(-3)]), Some(true));
    assert_eq!(mute(&[WireArg::Long(0)]), Some(false));
    assert_eq!(mute(&[WireArg::Long(1 << 40)]), Some(true));
    assert_eq!(mute(&[float(0.5)]), Some(true));
    assert_eq!(mute(&[float(0.4999)]), Some(false));
    assert_eq!(mute(&[float(-1.0)]), Some(false));
    assert_eq!(mute(&[float(f32::INFINITY)]), Some(true));
    assert_eq!(mute(&[float(f32::NAN)]), Some(false));
    assert_eq!(mute(&[WireArg::DoubleBits(0.75f64.to_bits())]), Some(true));
    assert_eq!(mute(&[WireArg::DoubleBits(0.25f64.to_bits())]), Some(false));
    assert_eq!(mute(&[WireArg::Text("T".into())]), Some(true));
    assert_eq!(mute(&[WireArg::Text("F".into())]), Some(false));
    assert_eq!(mute(&[WireArg::Text("yes".into())]), None);
    assert_eq!(mute(&[WireArg::Other]), None);
    assert_eq!(mute(&[]), None);
}

#[test]
fn bits_rule_agrees_with_float_comparison() {
    for v in [0.0f32, 0.25, 0.4999999, 0.5, 0.5000001, 1.0, 3.0e38, -0.5, -0.0, f32::MIN_POSITIVE, f32::INFINITY, f32::NEG_INFINITY, f32::NAN] {
        let a = first_arg(&[float(v)]);
        assert_eq!(a.switch, Some(v >= 0.5), "{v}");
    }
    for v in [0.0f64, 0.49999999999, 0.5, 2.0, -7.0, f64::INFINITY, f64::NAN] {
        let a = first_arg(&[WireArg::DoubleBits(v.to_bits())]);
        assert_eq!(a.switch, Some(v >= 0.5), "{v}");
    }
}

#[test]
fn introspection_lists_effects_then_mixer() {
    let r = OscRouter::new(2);
    let paths: Vec<&str> = r.introspection().iter().map(|p| p.path.as_str()).collect();
    // 8 reverb + 6 stereo delay + 12 tape delay + 6 compressor + 6 * 2 strips + 7.
    assert_eq!(paths.len(), 8 + 6 + 12 + 6 + 12 + 7);
    assert_eq!(paths[0], "/reverb/size");
    assert!(paths.contains(&"/stereo_delay/time_l_ms"));
    assert!(paths.contains(&"/tape_delay/flutter_rate_hz"));
    assert!(paths.contains(&"/compressor/makeup_db"));
    assert_eq!(paths[paths.len() - 1], "/mixer/master/gain_db");
    // Every listed path routes back to its own target.
    for p in r.introspection() {
        assert_eq!(r.target(&p.path), Some(p.target));
    }
    assert_eq!(r.target("/reverb/size"), Some(RouteTarget::Reverb(ReverbParamKind::Size)));
}

#[test]
fn datagram_actions_follow_bundle_order() {
    let r = OscRouter::new(2);
    let msg = |addr: &str, args: Vec<WireArg>| WireMessage { addr: addr.into(), args };
    let bytes = bundle_datagram(vec![
        msg("/subscribe", vec![]),
        msg("/mixer/input/1/mute", vec![WireArg::Int(1)]),
        msg("/reverb/send", vec![float(0.25)]),
        msg("/nonsense", vec![float(1.0)]),
    ]);
    let acts = r.datagram_actions(&bytes).expect("an OSC packet");
    assert_eq!(acts.len(), 4);
    assert!(matches!(acts[0], ServerAction::Subscribe));
    assert!(matches!(acts[1], ServerAction::Apply(InputParameters::Mixer(MixerParam::InputMute(1, true)))));
    match acts[2] {
        ServerAction::Apply(InputParameters::Reverb(ReverbParam::Send(v))) => assert_eq!(float_of(v), 0.25),
        other => panic!("wrong action: {other:?}"),
    }
    assert!(matches!(acts[3], ServerAction::Ignore));
    // A single message works too; bytes that are no OSC packet give `None`.
    let one = r.datagram_actions(&message_datagram(msg("/list", vec![]))).expect("an OSC packet");
    assert_eq!(one.len(), 1);
    assert!(matches!(one[0], ServerAction::ReplyList));
    assert!(r.datagram_actions(&[1, 2, 3]).is_none());
}

#[test]
fn routed_number_converts_back_to_the_value_sent() {
    let r = OscRouter::new(1);
    let p = r.route("/compressor/ratio", first_arg(&[WireArg::Int(4)])).expect("known path");
    assert!(matches!(p.number(), Some(WireNumber::Int(4))));
    let q: InputParameters<f64> = p.with_number(4.0);
    assert!(matches!(q, InputParameters::Compressor(neosynth::params::CompressorParam::Ratio(v)) if v == 4.0));
    let m = r.route("/mixer/input/0/mute", first_arg(&[WireArg::Bool(true)])).expect("known path");
    assert!(m.number().is_none());
    assert!(matches!(m.with_number(0.0f64), InputParameters::Mixer(MixerParam::InputMute(0, true))));
}

#[test]
fn replies_decode_to_what_was_encoded() {
    let item = list_item_message("/mixer/input/0/mute", ListedKind::Bool { default: true });
    let ms = datagram_messages(&message_datagram(item)).expect("an OSC packet");
    assert_eq!(ms.len(), 1);
    assert_eq!(ms[0].addr, "/list/item");
    let args = &ms[0].args;
    assert_eq!(args.len(), 5);
    assert!(matches!(&args[0], WireArg::Text(s) if s == "/mixer/input/0/mute"));
    assert!(matches!(&args[1], WireArg::Text(s) if s == "b"));
    assert!(matches!(args[2], WireArg::FloatBits(b) if f32::from_bits(b) == 0.0));
    assert!(matches!(args[3], WireArg::FloatBits(b) if f32::from_bits(b) == 1.0));
    assert!(matches!(args[4], WireArg::FloatBits(b) if f32::from_bits(b) == 1.0));

    let state = state_message("/reverb/size", OscValue::Float(0.7f32.to_bits()));
    let ms = datagram_messages(&message_datagram(state)).expect("an OSC packet");
    assert_eq!(ms[0].addr, "/state/reverb/size");
    assert!(matches!(ms[0].args[..], [WireArg::FloatBits(b)] if f32::from_bits(b) == 0.7));

    let float_item = list_item_message(
        "/reverb/size",
        ListedKind::Float { min_bits: 0.0f32.to_bits(), max_bits: 1.0f32.to_bits(), default_bits: 0.5f32.to_bits() },
    );
    let ms = datagram_messages(&message_datagram(float_item)).expect("an OSC packet");
    assert!(matches!(&ms[0].args[1], WireArg::Text(s) if s == "f"));
    assert!(matches!(ms[0].args[4], WireArg::FloatBits(b) if f32::from_bits(b) == 0.5));
}

/// A string padded to four bytes, as OSC writes it.
fn padded(s: &str) -> Vec<u8> {
    let mut v = s.as_bytes().to_vec();
    v.push(0);
    while v.len() % 4 != 0 {
        v.push(0);
    }
    v
}

/// An OSC message with one integer argument.
fn message(addr: &str, v: i32) -> Vec<u8> {
    let mut b = padded(addr);
    b.extend(padded(",i"));
    b.extend(v.to_be_bytes());
    b
}

/// An OSC bundle with the immediate time tag.
fn bundle(parts: Vec<Vec<u8>>) -> Vec<u8> {
    let mut b = padded("#bundle");
    b.extend([0u8; 7]);
    b.push(1);
    for p in parts {
        b.extend((p.len() as u32).to_be_bytes());
        b.extend(p);
    }
    b
}

#[test]
fn nested_bundles_flatten_in_order() {
    // A bundle holding a bundle, built by hand in the OSC 1.0 layout.
    let bytes = bundle(vec![message("/a", 1), bundle(vec![message("/b", 2), message("/c", 3)]), message("/d", 4)]);
    let ms = datagram_messages(&bytes).expect("an OSC packet");
    let addrs: Vec<&str> = ms.iter().map(|m| m.addr.as_str()).collect();
    assert_eq!(addrs, vec!["/a", "/b", "/c", "/d"]);
    assert!(matches!(ms[2].args[..], [WireArg::Int(3)]));
}

#[test]
fn commands_are_recognised() {
    assert_eq!(command_of("/list"), OscCommand::List);
    assert_eq!(command_of("/get_all"), OscCommand::GetAll);
    assert_eq!(command_of("/subscribe"), OscCommand::Subscribe);
    assert_eq!(command_of("/unsubscribe"), OscCommand::Unsubscribe);
    assert_eq!(command_of("/list/item"), OscCommand::Parameter);
    assert_eq!(command_of("/reverb/size"), OscCommand::Parameter);
}

#[test]
fn reply_addresses() {
    assert_eq!(state_address("/reverb/size"), "/state/reverb/size");
    assert_eq!(input_meter_address(12, "rms"), "/meters/input/12/rms");
}

#[test]
fn current_values_come_from_state() {
    let strip = InputStripState { gain_db: -3.0f32, pan: 0.25, mute: true, send_reverb: 0.5, send_echo: 0.0, send_pre_fader: false };
    let state = AppState {
        version: 1,
        mixer: MixerSnapshot {
            inputs: vec![strip],
            reverb_return: FxReturnState { gain_db: 0.0, pan: 0.0, mute: false },
            echo_return: FxReturnState { gain_db: 0.0, pan: 0.0, mute: false },
            master_gain_db: -1.5,
        },
        reverb: ReverbParams {
            size: 0.7, feedback: 0.5, balance: 0.5, pre_delay_ms: 10.0, hpf_hz: 100.0, lpf_hz: 9000.0, chorus: 0.1, send: 1.0,
        },
        echo: EchoParams { send: 1.0, fb_local: 0.4, fb_cross: 0.1, time_l_ms: 300.0, time_r_ms: 400.0, lpf_hz: 8000.0 },
        compressor: CompressorParams {
            threshold_db: -18.0, ratio: 4.0, attack_ms: 5.0, release_ms: 100.0, knee_db: 6.0, makeup_db: 0.0,
        },
    };
    let r = OscRouter::new(2);
    assert!(matches!(r.current_value("/reverb/size", &state), Some(OscValue::Float(v)) if v == 0.7));
    assert!(matches!(r.current_value("/stereo_delay/time_r_ms", &state), Some(OscValue::Float(v)) if v == 400.0));
    assert!(matches!(r.current_value("/compressor/ratio", &state), Some(OscValue::Float(v)) if v == 4.0));
    assert!(matches!(r.current_value("/mixer/input/0/mute", &state), Some(OscValue::Bool(true))));
    assert!(matches!(r.current_value("/mixer/master/gain_db", &state), Some(OscValue::Float(v)) if v == -1.5));
    // Strip 1 is routed but the state holds one strip only.
    assert!(r.current_value("/mixer/input/1/pan", &state).is_none());
    // Tape-delay settings are not persisted.
    assert!(r.current_value("/tape_delay/send", &state).is_none());
    assert!(r.current_value("/nonsense", &state).is_none());
}

#[test]
fn every_listed_address_is_unique() {
    let r = OscRouter::new(3);
    let paths: Vec<&str> = r.introspection().iter().map(|p| p.path.as_str()).collect();
    for (i, a) in paths.iter().enumerate() {
        for b in &paths[i + 1..] {
            assert_ne!(a, b);
        }
    }
}

#[test]
fn state_reads_back_what_a_message_wrote() {
    let strip = InputStripState { gain_db: 0.0f64, pan: 0.0, mute: false, send_reverb: 0.0, send_echo: 0.0, send_pre_fader: false };
    let mut state = AppState {
        version: 1,
        mixer: MixerSnapshot {
            inputs: vec![strip, strip],
            reverb_return: FxReturnState { gain_db: 0.0, pan: 0.0, mute: false },
            echo_return: FxReturnState { gain_db: 0.0, pan: 0.0, mute: false },
            master_gain_db: 0.0,
        },
        reverb: ReverbParams {
            size: 0.5, feedback: 0.7, balance: 0.5, pre_delay_ms: 5.0, hpf_hz: 200.0, lpf_hz: 8000.0, chorus: 0.5, send: 1.0,
        },
        echo: EchoParams { send: 1.0, fb_local: 0.4, fb_cross: 0.0, time_l_ms: 400.0, time_r_ms: 300.0, lpf_hz: 8000.0 },
        compressor: CompressorParams {
            threshold_db: 0.0, ratio: 4.0, attack_ms: 5.0, release_ms: 100.0, knee_db: 6.0, makeup_db: 0.0,
        },
    };
    let r = OscRouter::new(2);
    for (addr, v) in [("/reverb/size", 0.25f32), ("/stereo_delay/lpf_hz", 4000.0), ("/mixer/input/1/pan", -0.5), ("/compressor/knee_db", 3.0)] {
        let ev = r.route(addr, float_arg(v)).expect("known path");
        state.apply(ev);
        assert!(matches!(r.current_value(addr, &state), Some(OscValue::Float(x)) if x == v as f64), "{addr}");
    }
    let on: OscArg<f64> = OscArg { number: None, switch: Some(true) };
    let ev = r.route("/mixer/reverb_return/mute", on).expect("known path");
    state.apply(ev);
    assert!(matches!(r.current_value("/mixer/reverb_return/mute", &state), Some(OscValue::Bool(true))));
}

#[test]
fn server_actions_follow_the_protocol() {
    let r = OscRouter::new(1);
    assert!(matches!(r.action_for("/list", float_arg(0.0)), ServerAction::ReplyList));
    assert!(matches!(r.action_for("/get_all", float_arg(0.0)), ServerAction::ReplyState));
    assert!(matches!(r.action_for("/subscribe", float_arg(0.0)), ServerAction::Subscribe));
    assert!(matches!(r.action_for("/unsubscribe", float_arg(0.0)), ServerAction::Unsubscribe));
    assert!(matches!(
        r.action_for("/reverb/send", float_arg(0.5)),
        ServerAction::Apply(InputParameters::Reverb(ReverbParam::Send(v))) if v == 0.5
    ));
    assert!(matches!(r.action_for("/mixer/input/3/pan", float_arg(0.5)), ServerAction::Ignore));
    let no_number: OscArg<f64> = OscArg { number: None, switch: None };
    assert!(matches!(r.action_for("/reverb/send", no_number), ServerAction::Ignore));
}

#[test]
fn broadcast_bundle_lists_meters_then_telemetry() {
    let readings = MeterReadings {
        inputs: vec![(1, 2), (3, 4)],
        reverb: (5, 6),
        echo: (7, 8),
        master_l: (9, 10),
        master_r: (11, 12),
        compressor_gr_db: 13,
        dsp_load: 42.5f32.to_bits(),
        overruns: 2,
        underruns: 1,
    };
    let ms = broadcast_messages(&readings);
    let addrs: Vec<&str> = ms.iter().map(|m| m.addr.as_str()).collect();
    assert_eq!(
        addrs,
        vec![
            "/meters/input/0/peak",
            "/meters/input/0/rms",
            "/meters/input/1/peak",
            "/meters/input/1/rms",
            "/meters/reverb/peak",
            "/meters/reverb/rms",
            "/meters/echo/peak",
            "/meters/echo/rms",
            "/meters/master/l/peak",
            "/meters/master/l/rms",
            "/meters/master/r/peak",
            "/meters/master/r/rms",
            "/meters/compressor/gr_db",
            "/telemetry/dsp_load",
            "/telemetry/xrun_overrun",
            "/telemetry/xrun_underrun",
        ]
    );
    assert!(matches!(ms[3].args[..], [WireArg::FloatBits(4)]));
    assert!(matches!(ms[14].args[..], [WireArg::Int(2)]));
    // Sent as one bundle, it decodes to the same messages in order.
    let back = datagram_messages(&bundle_datagram(ms)).expect("an OSC packet");
    assert_eq!(back.len(), 16);
    assert_eq!(back[13].addr, "/telemetry/dsp_load");
    assert!(matches!(back[13].args[..], [WireArg::FloatBits(b)] if f32::from_bits(b) == 42.5));
}
