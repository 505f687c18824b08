//! Integer PCM packing: interleaved wire bytes of each sample format to and
//! from deinterleaved integer samples (channel blocks of one period each).
//! Scaling between integers and the engine's float samples happens outside.

use vstd::prelude::*;
use crate::engine::SampleFormat;

verus! {

/// `2^bits` for the format's sample width.
pub open spec fn modulus(fmt: SampleFormat) -> int {
    match fmt {
        SampleFormat::S16Le => 65536,
        SampleFormat::S24_3Le => 16777216,
        SampleFormat::S24_3Be => 16777216,
        SampleFormat::S32Le => 4294967296,
    }
}

/// True when `v` is representable in the format's sample width.
pub open spec fn in_range(fmt: SampleFormat, v: int) -> bool {
    -(modulus(fmt) / 2) <= v < modulus(fmt) / 2
}

/// Two's complement: the signed value of an unsigned pattern `u` of width `m`.
pub open spec fn signed_of(m: int, u: int) -> int {
    if u >= m / 2 {
        u - m
    } else {
        u
    }
}

/// Two's complement: the unsigned pattern of width `m` of a signed value `v`.
pub open spec fn unsigned_of(m: int, v: int) -> int {
    if v < 0 {
        v + m
    } else {
        v
    }
}

/// Byte `i` (0 = least significant) of `u`.
pub open spec fn byte_of(u: int, i: int) -> u8 {
    if i == 0 {
        (u % 256) as u8
    } else if i == 1 {
        ((u / 256) % 256) as u8
    } else if i == 2 {
        (((u / 256) / 256) % 256) as u8
    } else {
        ((((u / 256) / 256) / 256) % 256) as u8
    }
}

/// The sample whose bytes start at `o` in `b`.
pub open spec fn sample_at(fmt: SampleFormat, b: Seq<u8>, o: int) -> int {
    match fmt {
        SampleFormat::S16Le => signed_of(65536, b[o] + 256 * b[o + 1]),
        SampleFormat::S24_3Le => signed_of(16777216, b[o] + 256 * b[o + 1] + 65536 * b[o + 2]),
        SampleFormat::S24_3Be => signed_of(16777216, b[o + 2] + 256 * b[o + 1] + 65536 * b[o]),
        SampleFormat::S32Le => signed_of(
            4294967296,
            b[o] + 256 * b[o + 1] + 65536 * b[o + 2] + 16777216 * b[o + 3],
        ),
    }
}

/// The wire bytes of sample `v`.
pub open spec fn sample_bytes(fmt: SampleFormat, v: int) -> Seq<u8> {
    let u = unsigned_of(modulus(fmt), v);
    match fmt {
        SampleFormat::S16Le => seq![byte_of(u, 0), byte_of(u, 1)],
        SampleFormat::S24_3Le => seq![byte_of(u, 0), byte_of(u, 1), byte_of(u, 2)],
        SampleFormat::S24_3Be => seq![byte_of(u, 2), byte_of(u, 1), byte_of(u, 0)],
        SampleFormat::S32Le => seq![byte_of(u, 0), byte_of(u, 1), byte_of(u, 2), byte_of(u, 3)],
    }
}

/// Byte offset, in an interleaved buffer, of deinterleaved sample `k`
/// (channel `k / period`, frame `k % period`).
pub open spec fn source_offset(k: int, period: int, channels: int, bps: int) -> int {
    ((k % period) * channels + k / period) * bps
}

/// Deinterleaved index of interleaved sample `j` (frame `j / channels`,
/// channel `j % channels`).
pub open spec fn source_index(j: int, period: int, channels: int) -> int {
    (j % channels) * period + j / channels
}

/// The bytes of interleaved sample `j`.
pub open spec fn chunk(b: Seq<u8>, j: int, bps: int) -> Seq<u8> {
    b.subrange(j * bps, j * bps + bps)
}

/// `out` is the deinterleaved decoding of the interleaved buffer `bytes`.
pub open spec fn decoded(fmt: SampleFormat, bytes: Seq<u8>, channels: int, out: Seq<i32>) -> bool {
    let bps = fmt.spec_bytes_per_sample() as int;
    let period = bytes.len() as int / (channels * bps);
    &&& out.len() == period * channels
    &&& forall|k: int| 0 <= k < out.len() ==> #[trigger] out[k] == sample_at(fmt, bytes, source_offset(k, period, channels, bps))
}

/// `bytes` is the interleaved encoding of the deinterleaved samples `src`.
pub open spec fn encoded(fmt: SampleFormat, src: Seq<i32>, channels: int, bytes: Seq<u8>) -> bool {
    let bps = fmt.spec_bytes_per_sample() as int;
    let period = src.len() as int / channels;
    &&& bytes.len() == src.len() * bps
    &&& forall|j: int| 0 <= j < src.len() ==> #[trigger] chunk(bytes, j, bps) == sample_bytes(fmt, src[source_index(j, period, channels)] as int)
}

/// `u` is the sum of its bytes.
proof fn lemma_bytes_sum(u: int)
    requires
        0 <= u < 4294967296,
    ensures
        u == byte_of(u, 0) + 256 * byte_of(u, 1) + 65536 * byte_of(u, 2) + 16777216 * byte_of(u, 3),
        u < 16777216 ==> byte_of(u, 3) == 0,
        u < 65536 ==> byte_of(u, 2) == 0,
{
    let q1 = u / 256;
    let r0 = u % 256;
    vstd::arithmetic::div_mod::lemma_fundamental_div_mod(u, 256);
    let q2 = q1 / 256;
    let r1 = q1 % 256;
    vstd::arithmetic::div_mod::lemma_fundamental_div_mod(q1, 256);
    let q3 = q2 / 256;
    let r2 = q2 % 256;
    vstd::arithmetic::div_mod::lemma_fundamental_div_mod(q2, 256);
    let r3 = q3 % 256;
    vstd::arithmetic::div_mod::lemma_fundamental_div_mod(q3, 256);
    assert(0 <= r0 < 256 && 0 <= r1 < 256 && 0 <= r2 < 256 && 0 <= r3 < 256);
    assert(q1 >= 0 && q2 >= 0 && q3 >= 0);
    assert(q3 < 256);
    assert(q3 / 256 == 0);
    assert(r3 == q3);
}

/// Law (per sample): decoding the bytes of an in-range sample gives it back.
pub proof fn lemma_sample_roundtrip(fmt: SampleFormat, v: int)
    requires
        in_range(fmt, v),
    ensures
        sample_at(fmt, sample_bytes(fmt, v), 0) == v,
{
    let m = modulus(fmt);
    let u = unsigned_of(m, v);
    lemma_bytes_sum(u);
}

/// The power of 256 that wire byte `k` of a sample carries: the
/// little-endian formats put the least significant byte first, `S24_3Be` the
/// most significant byte first.
pub open spec fn byte_weight(fmt: SampleFormat, k: int) -> int {
    match fmt {
        SampleFormat::S24_3Be => if k == 0 {
            65536
        } else if k == 1 {
            256
        } else {
            1
        },
        _ => if k == 0 {
            1
        } else if k == 1 {
            256
        } else if k == 2 {
            65536
        } else {
            16777216
        },
    }
}

/// Law: the wire bytes of an in-range sample are its two's-complement
/// pattern (the value, plus `2^bits` when negative) written out in base 256:
/// byte `k` is the digit of weight `byte_weight(fmt, k)`.
pub proof fn lemma_wire_bytes_layout(fmt: SampleFormat, v: int)
    requires
        in_range(fmt, v),
    ensures
        sample_bytes(fmt, v).len() == fmt.spec_bytes_per_sample(),
        forall|k: int|
            0 <= k < fmt.spec_bytes_per_sample() ==> #[trigger] sample_bytes(fmt, v)[k] as int == ((if v < 0 {
                v + modulus(fmt)
            } else {
                v
            }) / byte_weight(fmt, k)) % 256,
{
    let u = unsigned_of(modulus(fmt), v);
    assert(0 <= u < 4294967296);
    vstd::arithmetic::div_mod::lemma_div_denominator(u, 256, 256);
    vstd::arithmetic::div_mod::lemma_div_denominator(u, 65536, 256);
    assert(byte_of(u, 2) as int == (u / 65536) % 256);
    assert(byte_of(u, 3) as int == (u / 16777216) % 256);
}

/// The base-256 digits `d0..d3` (least significant first) are the bytes of
/// the number they write.
proof fn lemma_digits(d0: int, d1: int, d2: int, d3: int)
    requires
        0 <= d0 < 256,
        0 <= d1 < 256,
        0 <= d2 < 256,
        0 <= d3 < 256,
    ensures
        ({
            let u = d0 + 256 * d1 + 65536 * d2 + 16777216 * d3;
            &&& 0 <= u < 4294967296
            &&& byte_of(u, 0) == d0 && byte_of(u, 1) == d1 && byte_of(u, 2) == d2 && byte_of(u, 3) == d3
        }),
{
    let q2 = d2 + 256 * d3;
    let q1 = d1 + 256 * q2;
    let u = d0 + 256 * q1;
    assert(u == d0 + 256 * d1 + 65536 * d2 + 16777216 * d3);
    vstd::arithmetic::div_mod::lemma_fundamental_div_mod_converse(u, 256, q1, d0);
    vstd::arithmetic::div_mod::lemma_fundamental_div_mod_converse(q1, 256, q2, d1);
    vstd::arithmetic::div_mod::lemma_fundamental_div_mod_converse(q2, 256, d3, d2);
    vstd::arithmetic::div_mod::lemma_fundamental_div_mod_converse(d3, 256, 0, d3);
}

/// Law: every byte pattern is the wire form of the sample it decodes to:
/// decoding gives an in-range sample whose bytes are exactly the ones read.
pub proof fn lemma_decoded_sample_encodes_back(fmt: SampleFormat, b: Seq<u8>, o: int)
    requires
        0 <= o,
        o + fmt.spec_bytes_per_sample() <= b.len(),
    ensures
        in_range(fmt, sample_at(fmt, b, o)),
        sample_bytes(fmt, sample_at(fmt, b, o)) == b.subrange(o, o + fmt.spec_bytes_per_sample()),
{
    let n = fmt.spec_bytes_per_sample() as int;
    match fmt {
        SampleFormat::S16Le => {
            lemma_digits(b[o] as int, b[o + 1] as int, 0, 0);
        },
        SampleFormat::S24_3Le => {
            lemma_digits(b[o] as int, b[o + 1] as int, b[o + 2] as int, 0);
        },
        SampleFormat::S24_3Be => {
            lemma_digits(b[o + 2] as int, b[o + 1] as int, b[o] as int, 0);
        },
        SampleFormat::S32Le => {
            lemma_digits(b[o] as int, b[o + 1] as int, b[o + 2] as int, b[o + 3] as int);
        },
    }
    assert(sample_bytes(fmt, sample_at(fmt, b, o)) =~= b.subrange(o, o + n));
}

/// Layout facts of deinterleaved index `k`.
proof fn lemma_source_offset(k: int, period: int, channels: int, bps: int)
    requires
        0 <= k < period * channels,
        period > 0,
        channels > 0,
        bps > 0,
    ensures
        0 <= k % period < period,
        0 <= k / period < channels,
        0 <= source_offset(k, period, channels, bps),
        source_offset(k, period, channels, bps) + bps <= period * channels * bps,
{
    vstd::arithmetic::div_mod::lemma_fundamental_div_mod(k, period);
    let f = k % period;
    let c = k / period;
    assert(0 <= f < period);
    assert(c >= 0);
    assert(c < channels) by (nonlinear_arith)
        requires
            k == period * c + f,
            0 <= f,
            k < period * channels,
            period > 0,
    ;
    assert((f * channels + c) * bps + bps <= period * channels * bps) by (nonlinear_arith)
        requires
            0 <= f < period,
            0 <= c < channels,
            bps > 0,
    ;
    assert((f * channels + c) * bps >= 0) by (nonlinear_arith)
        requires
            0 <= f,
            0 <= c,
            channels > 0,
            bps > 0,
    ;
}

/// Decodes one sample starting at byte `o`.
fn decode_sample(fmt: SampleFormat, bytes: &[u8], o: usize) -> (v: i32)
    requires
        o + fmt.spec_bytes_per_sample() <= bytes.len(),
    ensures
        v as int == sample_at(fmt, bytes@, o as int),
{
    match fmt {
        SampleFormat::S16Le => {
            let u: u32 = bytes[o] as u32 + 256 * (bytes[o + 1] as u32);
            if u >= 32768 {
                (u as i64 - 65536) as i32
            } else {
                u as i32
            }
        },
        SampleFormat::S24_3Le => {
            let u: u32 = bytes[o] as u32 + 256 * (bytes[o + 1] as u32) + 65536 * (bytes[o + 2] as u32);
            if u >= 8388608 {
                (u as i64 - 16777216) as i32
            } else {
                u as i32
            }
        },
        SampleFormat::S24_3Be => {
            let u: u32 = bytes[o + 2] as u32 + 256 * (bytes[o + 1] as u32) + 65536 * (bytes[o] as u32);
            if u >= 8388608 {
                (u as i64 - 16777216) as i32
            } else {
                u as i32
            }
        },
        SampleFormat::S32Le => {
            let u: u64 = bytes[o] as u64 + 256 * (bytes[o + 1] as u64) + 65536 * (bytes[o + 2] as u64)
                + 16777216 * (bytes[o + 3] as u64);
            if u >= 2147483648 {
                (u as i64 - 4294967296) as i32
            } else {
                u as i32
            }
        },
    }
}

/// Appends the wire bytes of one in-range sample.
fn push_sample(fmt: SampleFormat, out: &mut Vec<u8>, v: i32)
    requires
        in_range(fmt, v as int),
    ensures
        final(out)@ == old(out)@ + sample_bytes(fmt, v as int),
{
    let m: i64 = match fmt {
        SampleFormat::S16Le => 65536,
        SampleFormat::S24_3Le | SampleFormat::S24_3Be => 16777216,
        SampleFormat::S32Le => 4294967296,
    };
    let u: u64 = if v < 0 {
        (v as i64 + m) as u64
    } else {
        v as u64
    };
    let b0 = (u % 256) as u8;
    let b1 = ((u / 256) % 256) as u8;
    let b2 = (((u / 256) / 256) % 256) as u8;
    let b3 = ((((u / 256) / 256) / 256) % 256) as u8;
    match fmt {
        SampleFormat::S16Le => {
            out.push(b0);
            out.push(b1);
        },
        SampleFormat::S24_3Le => {
            out.push(b0);
            out.push(b1);
            out.push(b2);
        },
        SampleFormat::S24_3Be => {
            out.push(b2);
            out.push(b1);
            out.push(b0);
        },
        SampleFormat::S32Le => {
            out.push(b0);
            out.push(b1);
            out.push(b2);
            out.push(b3);
        },
    }
    assert(final(out)@ =~= old(out)@ + sample_bytes(fmt, v as int));
}

impl SampleFormat {
    /// Decode interleaved PCM bytes into deinterleaved integer samples: one
    /// block of `period` samples per channel, where `period` is the number of
    /// whole frames in `bytes`.
    pub fn decode_to_int(self, bytes: &[u8], num_channels: usize) -> (out: Vec<i32>)
        requires
            num_channels > 0,
            num_channels * self.spec_bytes_per_sample() <= usize::MAX,
            bytes.len() as int % (num_channels * self.spec_bytes_per_sample()) as int == 0,
        ensures
            decoded(self, bytes@, num_channels as int, out@),
    {
        let bps = self.bytes_per_sample();
        let frame_bytes = num_channels * bps;
        let period = bytes.len() / frame_bytes;
        let ghost len = bytes.len() as int;
        proof {
            vstd::arithmetic::div_mod::lemma_fundamental_div_mod(len, frame_bytes as int);
            assert(frame_bytes as int == num_channels * self.spec_bytes_per_sample());
            assert(len % (frame_bytes as int) == 0);
            assert(period as int == len / (frame_bytes as int));
            assert(len == (frame_bytes as int) * period);
            assert(len == period * (num_channels * bps));
            assert(period * num_channels * bps == len) by (nonlinear_arith)
                requires
                    len == period * (num_channels * bps),
            ;
            assert(period * num_channels <= len) by (nonlinear_arith)
                requires
                    period * num_channels * bps == len,
                    bps >= 1,
                    period >= 0,
                    num_channels >= 1,
            ;
        }
        let total = period * num_channels;
        let mut out: Vec<i32> = Vec::new();
        let mut k: usize = 0;
        while k < total
            invariant
                bps as nat == self.spec_bytes_per_sample(),
                bps >= 2,
                num_channels > 0,
                period * num_channels * bps == bytes.len(),
                period == bytes.len() as int / (num_channels * bps),
                total == period * num_channels,
                k <= total,
                out.len() == k,
                forall|j: int|
                    0 <= j < k ==> #[trigger] out@[j] == sample_at(
                        self,
                        bytes@,
                        source_offset(j, period as int, num_channels as int, bps as int),
                    ),
            decreases total - k,
        {
            proof {
                lemma_source_offset(k as int, period as int, num_channels as int, bps as int);
            }
            let f = k % period;
            let c = k / period;
            let off = (f * num_channels + c) * bps;
            let v = decode_sample(self, bytes, off);
            out.push(v);
            k = k + 1;
        }
        out
    }

    /// Encode deinterleaved integer samples (one block of `period` samples per
    /// channel) into interleaved PCM bytes. Every sample must fit the format.
    pub fn encode_from_int(self, src: &[i32], num_channels: usize) -> (bytes: Vec<u8>)
        requires
            num_channels > 0,
            src.len() % num_channels == 0,
            src.len() * self.spec_bytes_per_sample() <= usize::MAX,
            forall|i: int| 0 <= i < src.len() ==> in_range(self, #[trigger] src@[i] as int),
        ensures
            encoded(self, src@, num_channels as int, bytes@),
    {
        let bps = self.bytes_per_sample();
        let period = src.len() / num_channels;
        proof {
            vstd::arithmetic::div_mod::lemma_fundamental_div_mod(src.len() as int, num_channels as int);
        }
        let mut bytes: Vec<u8> = Vec::new();
        let mut j: usize = 0;
        while j < src.len()
            invariant
                bps as nat == self.spec_bytes_per_sample(),
                bps >= 2,
                num_channels > 0,
                src.len() == num_channels * period,
                period == src.len() as int / num_channels as int,
                src.len() * bps <= usize::MAX,
                forall|i: int| 0 <= i < src.len() ==> in_range(self, #[trigger] src@[i] as int),
                j <= src.len(),
                bytes.len() == j * bps,
                forall|i: int|
                    0 <= i < j ==> #[trigger] chunk(bytes@, i, bps as int) == sample_bytes(
                        self,
                        src@[source_index(i, period as int, num_channels as int)] as int,
                    ),
            decreases src.len() - j,
        {
            let ch = j % num_channels;
            let frame = j / num_channels;
            proof {
                vstd::arithmetic::div_mod::lemma_fundamental_div_mod(j as int, num_channels as int);
                assert(frame < period) by (nonlinear_arith)
                    requires
                        j == num_channels * frame + ch,
                        ch >= 0,
                        j < num_channels * period,
                        num_channels > 0,
                ;
                assert(ch * period + frame < src.len()) by (nonlinear_arith)
                    requires
                        0 <= ch < num_channels,
                        0 <= frame < period,
                        src.len() == num_channels * period,
                ;
                assert((j + 1) * bps <= src.len() * bps) by (nonlinear_arith)
                    requires
                        j < src.len(),
                        bps > 0,
                ;
            }
            let idx = ch * period + frame;
            let ghost before = bytes@;
            push_sample(self, &mut bytes, src[idx]);
            proof {
                assert(bytes.len() == (j + 1) * bps) by (nonlinear_arith)
                    requires
                        bytes.len() == j * bps + bps,
                ;
                assert forall|i: int| 0 <= i < j + 1 implies #[trigger] chunk(bytes@, i, bps as int)
                    == sample_bytes(self, src@[source_index(i, period as int, num_channels as int)] as int) by {
                    if i < j {
                        assert(i * bps + bps <= j * bps) by (nonlinear_arith)
                            requires
                                i < j,
                                bps > 0,
                        ;
                        assert(i * bps >= 0) by (nonlinear_arith)
                            requires
                                i >= 0,
                                bps > 0,
                        ;
                        assert(chunk(bytes@, i, bps as int) =~= chunk(before, i, bps as int));
                    } else {
                        assert(chunk(bytes@, i, bps as int) =~= sample_bytes(self, src@[idx as int] as int));
                    }
                }
            }
            j = j + 1;
        }
        bytes
    }
}

/// Law: decoding the encoding of in-range deinterleaved samples gives the
/// samples back, for every format and channel count.
pub proof fn lemma_encode_decode_roundtrip(
    fmt: SampleFormat,
    src: Seq<i32>,
    channels: int,
    bytes: Seq<u8>,
    out: Seq<i32>,
)
    requires
        channels > 0,
        src.len() as int % channels == 0,
        forall|i: int| 0 <= i < src.len() ==> in_range(fmt, #[trigger] src[i] as int),
        encoded(fmt, src, channels, bytes),
        decoded(fmt, bytes, channels, out),
    ensures
        out == src,
{
    let bps = fmt.spec_bytes_per_sample() as int;
    let period = src.len() as int / channels;
    vstd::arithmetic::div_mod::lemma_fundamental_div_mod(src.len() as int, channels);
    assert(src.len() == channels * period);
    assert(bytes.len() == (period * channels) * bps) by (nonlinear_arith)
        requires
            bytes.len() == src.len() * bps,
            src.len() == channels * period,
    ;
    assert(bytes.len() as int / (channels * bps) == period) by (nonlinear_arith)
        requires
            bytes.len() == (period * channels) * bps,
            channels > 0,
            bps > 0,
    ;
    assert(out.len() == src.len());
    assert forall|k: int| 0 <= k < out.len() implies out[k] == src[k] by {
        if period > 0 {
            lemma_source_offset(k, period, channels, bps);
            let f = k % period;
            let c = k / period;
            let j = f * channels + c;
            vstd::arithmetic::div_mod::lemma_fundamental_div_mod(k, period);
            vstd::arithmetic::div_mod::lemma_fundamental_div_mod_converse(j, channels, f, c);
            assert(source_index(j, period, channels) == k) by (nonlinear_arith)
                requires
                    j % channels == c,
                    j / channels == f,
                    k == period * c + f,
            ;
            assert(0 <= j < src.len()) by (nonlinear_arith)
                requires
                    0 <= f < period,
                    0 <= c < channels,
                    src.len() == channels * period,
                    j == f * channels + c,
            ;
            let ch = chunk(bytes, j, bps);
            assert(ch == sample_bytes(fmt, src[k] as int));
            lemma_sample_roundtrip(fmt, src[k] as int);
            assert(source_offset(k, period, channels, bps) == j * bps);
            assert(j * bps + bps <= bytes.len()) by (nonlinear_arith)
                requires
                    j < src.len(),
                    bytes.len() == src.len() * bps,
                    bps > 0,
            ;
            assert(j * bps >= 0) by (nonlinear_arith)
                requires
                    j >= 0,
                    bps > 0,
            ;
            assert(sample_at(fmt, bytes, j * bps) == sample_at(fmt, ch, 0));
        }
    }
    assert(out =~= src);
}

} // verus!
