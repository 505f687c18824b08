use neosynth::buffer::GenericAudioBuffer;

#[test]
fn push_then_pop_returns_samples_in_reverse() {
    let mut b: GenericAudioBuffer<f32, 4> = GenericAudioBuffer::new(0.0);
    assert!(b.is_empty());
    b.push(1.0);
    b.push(2.0);
    assert_eq!(b.len(), 2);
    assert_eq!(b.pop(), Some(2.0));
    assert_eq!(b.pop(), Some(1.0));
    assert_eq!(b.pop(), None);
    assert!(b.is_empty());
}

#[test]
fn filling_the_buffer_wraps_the_cursor() {
    let mut b: GenericAudioBuffer<i32, 3> = GenericAudioBuffer::new(0);
    b.push(7);
    b.push(8);
    b.push(9);
    // The third push filled the last slot and wrapped the cursor to the start.
    assert_eq!(b.len(), 0);
    assert_eq!(b.pop(), None);
    assert_eq!(b.get_all(), &[7, 8, 9]);
}

#[test]
fn clear_resets_slots_and_cursor() {
    let mut b: GenericAudioBuffer<f32, 2> = GenericAudioBuffer::new(0.0);
    b.push(0.5);
    b.clear(0.0);
    assert!(b.is_empty());
    assert_eq!(b.get_all(), &[0.0, 0.0]);
}

#[test]
fn byte_size_counts_every_slot() {
    assert_eq!(GenericAudioBuffer::<f32, 64>::byte_size(), 256);
    assert_eq!(GenericAudioBuffer::<i16, 10>::byte_size(), 20);
}
