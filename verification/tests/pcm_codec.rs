use neosynth::engine::SampleFormat;

#[test]
fn s24_3le_sign_extension() {
    // -1 in 24-bit signed = 0xFFFFFF; 0x800000 is the most negative value.
    let bytes = [0xFFu8, 0xFF, 0xFF, 0x00, 0x00, 0x80];
    assert_eq!(SampleFormat::S24_3Le.decode_to_int(&bytes, 1), vec![-1, -8_388_608]);
}

#[test]
fn s24_3be_most_negative() {
    let bytes = [0x80u8, 0x00, 0x00];
    assert_eq!(SampleFormat::S24_3Be.decode_to_int(&bytes, 1), vec![-8_388_608]);
}

#[test]
fn s16le_deinterleaves_channels() {
    // Two frames of two channels: L0 R0 L1 R1.
    let bytes = [0x01u8, 0x00, 0x02, 0x00, 0x03, 0x00, 0xFF, 0xFF];
    // Channel blocks: [L0, L1], [R0, R1].
    assert_eq!(SampleFormat::S16Le.decode_to_int(&bytes, 2), vec![1, 3, 2, -1]);
}

#[test]
fn s32le_extremes() {
    let src = [i32::MIN, i32::MAX];
    let bytes = SampleFormat::S32Le.encode_from_int(&src, 1);
    assert_eq!(bytes, vec![0x00, 0x00, 0x00, 0x80, 0xFF, 0xFF, 0xFF, 0x7F]);
    assert_eq!(SampleFormat::S32Le.decode_to_int(&bytes, 1), vec![i32::MIN, i32::MAX]);
}

#[test]
fn encode_interleaves_channels() {
    // Channel blocks [1, 2] and [3, 4] → frames (1, 3), (2, 4).
    let bytes = SampleFormat::S24_3Be.encode_from_int(&[1, 2, 3, 4], 2);
    assert_eq!(bytes, vec![0, 0, 1, 0, 0, 3, 0, 0, 2, 0, 0, 4]);
}

#[test]
fn round_trip_every_format() {
    for fmt in [SampleFormat::S16Le, SampleFormat::S24_3Le, SampleFormat::S24_3Be, SampleFormat::S32Le] {
        let half: i64 = match fmt {
            SampleFormat::S16Le => 1 << 15,
            SampleFormat::S24_3Le | SampleFormat::S24_3Be => 1 << 23,
            SampleFormat::S32Le => 1 << 31,
        };
        let channels = 3;
        let period = 5;
        let mut src = Vec::new();
        for k in 0..(channels * period) as i64 {
            let v = (k * 7919 - 50) % half;
            src.push(if k % 2 == 0 { v as i32 } else { (-v - 1) as i32 });
        }
        src[0] = (-half) as i32;
        src[1] = (half - 1) as i32;
        let bytes = fmt.encode_from_int(&src, channels);
        assert_eq!(bytes.len(), src.len() * fmt.bytes_per_sample());
        assert_eq!(fmt.decode_to_int(&bytes, channels), src, "format {fmt:?}");
    }
}

const S24_MAX: f32 = 8_388_607.0;

#[test]
fn s24_3le_endianness_sanity() {
    // -1 in 24-bit signed = 0xFFFFFF
    // -1 / S24_MAX ≈ -1.19e-7 (one LSB below zero)
    let bytes = [0xFFu8, 0xFF, 0xFF, /* second sample */ 0x00, 0x00, 0x80];
    let out: Vec<f32> = SampleFormat::S24_3Le.decode_to_int(&bytes, 1).iter().map(|&v| v as f32 / S24_MAX).collect();
    assert!(out[0] < 0.0 && out[0] > -1e-6);
    // 0x800000 = -8388608 = the most negative 24-bit value = -1.0
    assert!((out[1] - (-1.0)).abs() < 1e-3, "got {}", out[1]);
}

#[test]
fn s24_3be_endianness_sanity() {
    // Most negative 24-bit value, big-endian: [0x80, 0x00, 0x00]
    let bytes = [0x80u8, 0x00, 0x00];
    let out: Vec<f32> = SampleFormat::S24_3Be.decode_to_int(&bytes, 1).iter().map(|&v| v as f32 / S24_MAX).collect();
    assert!((out[0] - (-1.0)).abs() < 1e-3, "got {}", out[0]);
}

const S16_MAX: f32 = 32_767.0;
const S32_MAX: f32 = 2_147_483_647.0;

fn full_scale(fmt: SampleFormat) -> f32 {
    match fmt {
        SampleFormat::S16Le => S16_MAX,
        SampleFormat::S24_3Le | SampleFormat::S24_3Be => S24_MAX,
        SampleFormat::S32Le => S32_MAX,
    }
}

/// Float samples to wire bytes: clamp to ±1, scale to full scale, pack.
fn encode_from_float(fmt: SampleFormat, src: &[f32], channels: usize) -> Vec<u8> {
    let ints: Vec<i32> = src.iter().map(|&x| (x.clamp(-1.0, 1.0 - f32::EPSILON) * full_scale(fmt)) as i32).collect();
    fmt.encode_from_int(&ints, channels)
}

/// Wire bytes to float samples: unpack, divide by full scale.
fn decode_to_float(fmt: SampleFormat, bytes: &[u8], channels: usize) -> Vec<f32> {
    fmt.decode_to_int(bytes, channels).iter().map(|&v| v as f32 / full_scale(fmt)).collect()
}

fn round_trip(fmt: SampleFormat) {
    let channels = 2;
    let period = 64;
    // Some interesting values across the dynamic range.
    let mut src = vec![0.0f32; period * channels];
    for ch in 0..channels {
        for f in 0..period {
            let phase = (f as f32) * 0.1 + (ch as f32) * 0.05;
            src[ch * period + f] = phase.sin() * 0.7;
        }
    }
    let bytes = encode_from_float(fmt, &src, channels);
    assert_eq!(bytes.len(), period * channels * fmt.bytes_per_sample());
    let decoded = decode_to_float(fmt, &bytes, channels);

    // Quantization tolerance per format: ~1 LSB.
    let tol = match fmt {
        SampleFormat::S16Le => 1.0 / S16_MAX,
        SampleFormat::S24_3Le | SampleFormat::S24_3Be => 1.0 / S24_MAX,
        SampleFormat::S32Le => 1.0 / S32_MAX,
    } * 2.0;

    for i in 0..src.len() {
        assert!(
            (src[i] - decoded[i]).abs() < tol,
            "fmt {:?} mismatch at {}: src={} dec={} tol={}",
            fmt,
            i,
            src[i],
            decoded[i],
            tol
        );
    }
}

#[test]
fn s16le_round_trip() {
    round_trip(SampleFormat::S16Le);
}

#[test]
fn s24_3le_round_trip() {
    round_trip(SampleFormat::S24_3Le);
}

#[test]
fn s24_3be_round_trip() {
    round_trip(SampleFormat::S24_3Be);
}

#[test]
fn s32le_round_trip() {
    round_trip(SampleFormat::S32Le);
}

#[test]
fn clamp_handles_overshoot() {
    // 1.5 should clamp to nearly 1.0
    let src = [1.5f32, -1.5];
    let bytes = encode_from_float(SampleFormat::S32Le, &src, 1);
    let decoded = decode_to_float(SampleFormat::S32Le, &bytes, 1);
    assert!((decoded[0] - (1.0 - f32::EPSILON)).abs() < 1e-6);
    assert!((decoded[1] - (-1.0)).abs() < 1e-6);
}
