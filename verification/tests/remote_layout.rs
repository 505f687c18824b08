use neosynth::remote::{group_and_order, label_for, mixer_segment_order, reverb_echo_order};

#[test]
fn groups_of_effect_paths() {
    assert_eq!(group_and_order("/reverb/size"), ("Reverb".to_string(), 0));
    assert_eq!(group_and_order("/reverb/send"), ("Reverb".to_string(), 7));
    assert_eq!(group_and_order("/stereo_delay/time_r_ms"), ("Stereo Delay".to_string(), 4));
    assert_eq!(group_and_order("/tape_delay/flutter_rate_hz"), ("Tape Delay".to_string(), 11));
    assert_eq!(group_and_order("/compressor/attack_ms"), ("Compressor".to_string(), 2));
    // Unknown segment sorts after the known ones.
    assert_eq!(group_and_order("/reverb/unknown"), ("Reverb".to_string(), 8));
}

#[test]
fn groups_of_mixer_paths() {
    assert_eq!(group_and_order("/mixer/master/gain_db"), ("Master".to_string(), 0));
    assert_eq!(group_and_order("/mixer/reverb_return/mute"), ("Reverb Return".to_string(), 2));
    assert_eq!(group_and_order("/mixer/stereo_delay_return/pan"), ("Stereo Delay Return".to_string(), 1));
    assert_eq!(group_and_order("/mixer/tape_delay_return/foo"), ("Tape Delay Return".to_string(), 99));
    assert_eq!(group_and_order("/mixer/input/0/pan"), ("Input 1".to_string(), 1));
    assert_eq!(group_and_order("/mixer/input/11/send_pre_fader"), ("Input 12".to_string(), 6));
    assert_eq!(group_and_order("/mixer/input/+3/mute"), ("Input 4".to_string(), 2));
}

#[test]
fn unparsable_paths_go_to_other() {
    assert_eq!(group_and_order("/mixer/input/x/pan"), ("Other".to_string(), 999));
    assert_eq!(group_and_order("/mixer/input/3"), ("Other".to_string(), 999));
    assert_eq!(group_and_order("/mixer/input//pan"), ("Other".to_string(), 999));
    assert_eq!(group_and_order("/nothing"), ("Other".to_string(), 999));
    assert_eq!(group_and_order(""), ("Other".to_string(), 999));
}

#[test]
fn segment_orders() {
    assert_eq!(reverb_echo_order("b", &["a", "b", "c"]), 1);
    assert_eq!(reverb_echo_order("z", &["a", "b", "c"]), 3);
    assert_eq!(mixer_segment_order("send_tape_delay"), 5);
    assert_eq!(mixer_segment_order("gain"), 99);
}

#[test]
fn labels() {
    assert_eq!(label_for("/reverb/pre_delay_ms"), "Pre Delay (ms)");
    assert_eq!(label_for("/mixer/input/0/gain_db"), "Gain (dB)");
    assert_eq!(label_for("/echo/lpf_hz"), "Lpf (Hz)");
    assert_eq!(label_for("/tape_delay/h1_level"), "H1 Level");
    assert_eq!(label_for("size"), "Size");
    assert_eq!(label_for("/reverb/"), "");
    assert_eq!(label_for("/x/a__b"), "A  B");
}
