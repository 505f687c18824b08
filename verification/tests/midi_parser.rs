use neosynth::midi::MidiParser;

fn feed_all(p: &mut MidiParser, bytes: &[u8]) -> Vec<(u8, u8, u8)> {
    let mut out = Vec::new();
    for &b in bytes {
        if let Some(ev) = p.feed(b) {
            out.push(ev);
        }
    }
    out
}

#[test]
fn single_cc_message() {
    let mut p = MidiParser::new();
    let evs = feed_all(&mut p, &[0xB0, 0x07, 0x40]);
    assert_eq!(evs, vec![(0, 7, 64)]);
}

#[test]
fn cc_on_channel_5() {
    let mut p = MidiParser::new();
    let evs = feed_all(&mut p, &[0xB5, 0x0A, 0x7F]);
    assert_eq!(evs, vec![(5, 10, 127)]);
}

#[test]
fn running_status_emits_repeated_cc() {
    let mut p = MidiParser::new();
    let evs = feed_all(&mut p, &[0xB0, 0x07, 0x40, 0x07, 0x42, 0x08, 0x01]);
    assert_eq!(evs, vec![(0, 7, 64), (0, 7, 66), (0, 8, 1)]);
}

#[test]
fn realtime_bytes_do_not_disturb_running_status() {
    let mut p = MidiParser::new();
    // 0xF8 = MIDI clock — must be transparent.
    let evs = feed_all(&mut p, &[0xB0, 0xF8, 0x07, 0xFE, 0x40]);
    assert_eq!(evs, vec![(0, 7, 64)]);
}

#[test]
fn note_on_consumed_but_not_emitted() {
    let mut p = MidiParser::new();
    let evs = feed_all(&mut p, &[0x90, 0x40, 0x7F]);
    assert!(evs.is_empty());
}

#[test]
fn status_change_clears_data_buffer() {
    let mut p = MidiParser::new();
    // Start a CC, switch mid-message to Note On — first CC byte is dropped.
    let evs = feed_all(&mut p, &[0xB0, 0x07, 0x90, 0x40, 0x7F]);
    assert!(evs.is_empty());
}

#[test]
fn system_common_clears_running_status() {
    let mut p = MidiParser::new();
    // 0xF6 = Tune Request (System Common, no data) — clears running status.
    let evs = feed_all(&mut p, &[0xB0, 0x07, 0x40, 0xF6, 0x07, 0x42]);
    assert_eq!(evs, vec![(0, 7, 64)]);
}

#[test]
fn data_bytes_without_status_are_ignored() {
    let mut p = MidiParser::new();
    let evs = feed_all(&mut p, &[0x07, 0x40, 0x10, 0x20]);
    assert!(evs.is_empty());
}

#[test]
fn realtime_inserted_between_every_byte_changes_nothing() {
    let plain = [0xB3u8, 0x01, 0x02, 0x03, 0x04];
    let mut with_rt = Vec::new();
    for &b in &plain {
        with_rt.push(0xF8);
        with_rt.push(b);
        with_rt.push(0xFF);
    }
    let mut p1 = MidiParser::new();
    let mut p2 = MidiParser::new();
    let a = feed_all(&mut p1, &plain);
    let b = feed_all(&mut p2, &with_rt);
    assert_eq!(a, vec![(3, 1, 2), (3, 3, 4)]);
    assert_eq!(a, b);
}

#[test]
fn program_change_data_is_swallowed() {
    let mut p = MidiParser::new();
    // Program Change keeps running status but never emits.
    let evs = feed_all(&mut p, &[0xC0, 0x05, 0x06, 0xB1, 0x0B, 0x0C]);
    assert_eq!(evs, vec![(1, 11, 12)]);
}

#[test]
fn pitch_bend_keeps_cursor_in_sync() {
    let mut p = MidiParser::new();
    // Two pitch-bend messages under running status, then a CC.
    let evs = feed_all(&mut p, &[0xE2, 0x00, 0x40, 0x10, 0x20, 0xB2, 0x07, 0x7F]);
    assert_eq!(evs, vec![(2, 7, 127)]);
}
