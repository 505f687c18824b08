use neosynth::wire::{bundle_datagram, WireArg, WireMessage};
use neosynth::panel::{
    datagram_updates, initial_switch, list_arg,
    extract_updates, group_layout, group_priority, lex_less, parse_list_item, row_of, update_for, InboundMessage,
    ListArg, MsgArg, Param, ParamKind, UiUpdate,
};

fn chars(s: &str) -> Vec<char> {
    s.chars().collect()
}

fn text(s: &str) -> ListArg<f32> {
    ListArg::Text(s.to_string())
}

fn float(v: f32) -> ListArg<f32> {
    ListArg::Float { value: v, at_least_half: v >= 0.5 }
}

fn item(path: &str, ty: &str, min: f32, max: f32, default: f32) -> Vec<ListArg<f32>> {
    vec![text(path), text(ty), float(min), float(max), float(default)]
}

fn param(path: &str) -> Param<f32> {
    parse_list_item(&item(path, "f", 0.0, 1.0, 0.5)).expect("valid item")
}

#[test]
fn list_item_float_parameter() {
    let p = parse_list_item(&item("/reverb/pre_delay_ms", "f", 0.0, 100.0, 10.0)).unwrap();
    assert_eq!(p.path, "/reverb/pre_delay_ms");
    assert_eq!(p.label, "Pre Delay (ms)");
    assert_eq!(p.group, "Reverb");
    assert_eq!(p.order, 3);
    match p.kind {
        ParamKind::Float { min, max, default } => assert_eq!((min, max, default), (0.0, 100.0, 10.0)),
        other => panic!("wrong kind: {other:?}"),
    }
}

#[test]
fn list_item_bool_parameter_reads_default_threshold() {
    let on = parse_list_item(&item("/mixer/input/1/mute", "b", 0.0, 1.0, 1.0)).unwrap();
    assert_eq!(on.group, "Input 2");
    assert_eq!(on.order, 2);
    assert!(matches!(on.kind, ParamKind::Bool { default: true }));
    let off = parse_list_item(&item("/mixer/input/1/mute", "b", 0.0, 1.0, 0.25)).unwrap();
    assert!(matches!(off.kind, ParamKind::Bool { default: false }));
}

#[test]
fn list_item_rejects_malformed_arguments() {
    assert!(parse_list_item(&item("/reverb/size", "i", 0.0, 1.0, 0.5)).is_none());
    let mut short = item("/reverb/size", "f", 0.0, 1.0, 0.5);
    short.pop();
    assert!(parse_list_item(&short).is_none());
    let mut wrong = item("/reverb/size", "f", 0.0, 1.0, 0.5);
    wrong[2] = ListArg::Other;
    assert!(parse_list_item(&wrong).is_none());
    assert!(parse_list_item::<f32>(&[]).is_none());
    // Extra arguments are ignored.
    let mut long = item("/reverb/size", "f", 0.0, 1.0, 0.5);
    long.push(ListArg::Other);
    assert!(parse_list_item(&long).is_some());
}

#[test]
fn group_priorities() {
    assert_eq!(group_priority(&chars("Reverb")), 0);
    assert_eq!(group_priority(&chars("Compressor")), 3);
    assert_eq!(group_priority(&chars("Tape Delay Return")), 7);
    assert_eq!(group_priority(&chars("Input 3")), 13);
    assert_eq!(group_priority(&chars("Input Input 4")), 14);
    assert_eq!(group_priority(&chars("Input x")), 10);
    assert_eq!(group_priority(&chars("Other")), 100);
}

#[test]
fn lexicographic_order() {
    assert!(lex_less(&chars("Input 10"), &chars("Input 2")));
    assert!(lex_less(&chars("ab"), &chars("abc")));
    assert!(!lex_less(&chars("abc"), &chars("abc")));
    assert!(!lex_less(&chars("b"), &chars("abc")));
}

#[test]
fn layout_orders_groups_and_members() {
    let schema = vec![
        param("/mixer/input/1/pan"),
        param("/mixer/master/gain_db"),
        param("/reverb/send"),
        param("/mixer/input/1/gain_db"),
        param("/reverb/size"),
        param("/mixer/input/0/mute"),
        param("/nowhere"),
        param("/mixer/input/9/pan"),
        param("/reverb/size"),
    ];
    let layout = group_layout(&schema);
    let titles: Vec<&str> = layout.iter().map(|g| g.title.as_str()).collect();
    assert_eq!(titles, vec!["Reverb", "Master", "Input 1", "Input 2", "Input 10", "Other"]);
    assert_eq!(layout[0].members, vec![4, 8, 2]);
    assert_eq!(layout[1].members, vec![1]);
    assert_eq!(layout[2].members, vec![5]);
    assert_eq!(layout[3].members, vec![3, 0]);
    assert_eq!(layout[4].members, vec![7]);
    assert_eq!(layout[5].members, vec![6]);
}

#[test]
fn row_lookup_takes_the_last_row() {
    let schema = vec![param("/reverb/size"), param("/reverb/send"), param("/reverb/size")];
    let layout = group_layout(&schema);
    assert_eq!(layout.len(), 1);
    assert_eq!(row_of(&layout, &schema, "/reverb/send"), Some((0, 2)));
    assert_eq!(row_of(&layout, &schema, "/reverb/size"), Some((0, 1)));
    assert_eq!(row_of(&layout, &schema, "/reverb/feedback"), None);
}

#[test]
fn pushed_messages_become_panel_updates() {
    match update_for("/telemetry/dsp_load", Some(MsgArg::Float(12.5f32))) {
        Some(UiUpdate::DspLoad(v)) => assert_eq!(v, 12.5),
        other => panic!("unexpected {other:?}"),
    }
    assert!(update_for::<f32>("/telemetry/dsp_load", Some(MsgArg::Int(3))).is_none());
    assert!(matches!(
        update_for::<f32>("/telemetry/xrun_overrun", Some(MsgArg::Int(3))),
        Some(UiUpdate::OverrunCount(3))
    ));
    assert!(matches!(
        update_for::<f32>("/telemetry/xrun_underrun", Some(MsgArg::Int(4))),
        Some(UiUpdate::UnderrunCount(4))
    ));
    assert!(update_for("/meters/input/0/peak", Some(MsgArg::Float(0.5f32))).is_none());
    match update_for("/state/mixer/input/0/mute", Some(MsgArg::<f32>::Bool(true))) {
        Some(UiUpdate::StateBool { path, value }) => {
            assert_eq!(path, "/mixer/input/0/mute");
            assert!(value);
        }
        other => panic!("unexpected {other:?}"),
    }
    match update_for("/state/reverb/size", Some(MsgArg::Float(0.25f32))) {
        Some(UiUpdate::StateFloat { path, value }) => {
            assert_eq!(path, "/reverb/size");
            assert_eq!(value, 0.25);
        }
        other => panic!("unexpected {other:?}"),
    }
    assert!(update_for::<f32>("/state/reverb/size", None).is_none());
    assert!(update_for::<f32>("/other", Some(MsgArg::Int(1))).is_none());
}

#[test]
fn bundle_updates_keep_message_order() {
    let msgs = vec![
        InboundMessage { addr: "/meters/reverb/peak".to_string(), first: Some(MsgArg::Float(0.1f32)) },
        InboundMessage { addr: "/telemetry/xrun_underrun".to_string(), first: Some(MsgArg::Int(2)) },
        InboundMessage { addr: "/telemetry/dsp_load".to_string(), first: Some(MsgArg::Float(40.0)) },
    ];
    let out = extract_updates(&msgs);
    assert_eq!(out.len(), 2);
    assert!(matches!(out[0], UiUpdate::UnderrunCount(2)));
    assert!(matches!(out[1], UiUpdate::DspLoad(v) if v == 40.0));
}

#[test]
fn pushed_datagram_becomes_panel_updates() {
    let msg = |addr: &str, args: Vec<WireArg>| WireMessage { addr: addr.into(), args };
    let bytes = bundle_datagram(vec![
        msg("/meters/input/0/peak", vec![WireArg::FloatBits(0.5f32.to_bits())]),
        msg("/telemetry/dsp_load", vec![WireArg::FloatBits(12.5f32.to_bits())]),
        msg("/telemetry/xrun_overrun", vec![WireArg::Int(3)]),
        msg("/state/reverb/size", vec![WireArg::FloatBits(0.7f32.to_bits())]),
        msg("/state/mixer/input/0/mute", vec![WireArg::Bool(true)]),
        msg("/state/reverb/send", vec![WireArg::Text("x".into())]),
    ]);
    let updates = datagram_updates(&bytes).expect("an OSC packet");
    assert_eq!(updates.len(), 4);
    assert!(matches!(updates[0], UiUpdate::DspLoad(b) if f32::from_bits(b) == 12.5));
    assert!(matches!(updates[1], UiUpdate::OverrunCount(3)));
    assert!(matches!(&updates[2], UiUpdate::StateFloat { path, value } if path == "/reverb/size" && f32::from_bits(*value) == 0.7));
    assert!(matches!(&updates[3], UiUpdate::StateBool { path, value: true } if path == "/mixer/input/0/mute"));
    assert!(datagram_updates(b"not osc").is_none());
}

#[test]
fn list_arguments_read_off_the_wire() {
    assert!(matches!(list_arg(&WireArg::Text("/reverb/size".into())), ListArg::Text(s) if s == "/reverb/size"));
    assert!(matches!(list_arg(&WireArg::FloatBits(1.0f32.to_bits())), ListArg::Float { value, at_least_half: true } if f32::from_bits(value) == 1.0));
    assert!(matches!(list_arg(&WireArg::FloatBits(0.0f32.to_bits())), ListArg::Float { at_least_half: false, .. }));
    assert!(matches!(list_arg(&WireArg::Int(1)), ListArg::Other));
    let args: Vec<ListArg<u32>> = [
        WireArg::Text("/mixer/input/0/mute".into()),
        WireArg::Text("b".into()),
        WireArg::FloatBits(0.0f32.to_bits()),
        WireArg::FloatBits(1.0f32.to_bits()),
        WireArg::FloatBits(1.0f32.to_bits()),
    ]
    .iter()
    .map(list_arg)
    .collect();
    let p = parse_list_item(&args).expect("a parameter");
    assert!(matches!(p.kind, ParamKind::Bool { default: true }));
}

#[test]
fn initial_switch_reads_the_pushed_value() {
    assert!(initial_switch(Some(&WireArg::Bool(true)), false));
    assert!(!initial_switch(Some(&WireArg::Int(0)), true));
    assert!(initial_switch(Some(&WireArg::Int(2)), false));
    assert!(initial_switch(Some(&WireArg::FloatBits(0.5f32.to_bits())), false));
    assert!(!initial_switch(Some(&WireArg::FloatBits(0.25f32.to_bits())), true));
    assert!(initial_switch(Some(&WireArg::Text("T".into())), true));
    assert!(!initial_switch(None, false));
}
