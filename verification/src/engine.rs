//! Engine configuration: the wire sample formats, the ALSA settings the
//! engine asks for, and the buffer/period arithmetic of the audio threads.

use vstd::prelude::*;

verus! {

/// PCM sample formats supported on the wire. Internal DSP is always float.
#[derive(Clone, Copy, Debug, PartialEq, Eq, Structural)]
pub enum SampleFormat {
    /// 16-bit signed little-endian, 2 bytes/sample.
    S16Le,
    /// 24-bit signed little-endian packed in 3 bytes (LSB first).
    S24_3Le,
    /// 24-bit signed big-endian packed in 3 bytes (MSB first).
    S24_3Be,
    /// 32-bit signed little-endian, 4 bytes/sample.
    S32Le,
}

impl SampleFormat {
    /// Bytes one sample of this format takes on the wire.
    pub open spec fn spec_bytes_per_sample(self) -> nat {
        match self {
            SampleFormat::S16Le => 2,
            SampleFormat::S24_3Le => 3,
            SampleFormat::S24_3Be => 3,
            SampleFormat::S32Le => 4,
        }
    }

    /// Bytes one sample of this format takes on the wire.
    pub fn bytes_per_sample(self) -> (r: usize)
        ensures
            r as nat == self.spec_bytes_per_sample(),
    {
        match self {
            SampleFormat::S16Le => 2,
            SampleFormat::S24_3Le | SampleFormat::S24_3Be => 3,
            SampleFormat::S32Le => 4,
        }
    }
}

/// Number of output channels the engine plays.
pub const NUM_OUTPUT_CHANNELS: u32 = 2;

/// Input channels the engine captures unless told otherwise.
pub const DEFAULT_INPUT_CHANNELS: u32 = 2;

/// Default buffer size in frames, applied to both capture and playback.
pub const DEFAULT_BUFFER: i64 = 512;

/// Target number of periods per buffer.
pub const TARGET_PERIODS: i64 = 4;

/// Periods of samples each worker ring buffer holds.
pub const AUDIO_RB_PERIODS: usize = 2;

/// What the engine asks ALSA for.
#[derive(Clone, Debug)]
pub struct AlsaSettings {
    pub input_device: String,
    pub output_device: String,
    pub num_input_channels: u32,
    pub num_output_channels: u32,
    pub sample_rate: u32,
    /// PCM sample format on the wire.
    pub sample_format: SampleFormat,
    /// Buffer size in frames, used for both capture and playback (default: 512).
    pub buffer_size: Option<u32>,
    /// Period size in frames; if `None`, `buffer_size / TARGET_PERIODS`.
    pub period_size: Option<u32>,
}

/// The buffer size to request: the configured one, or [`DEFAULT_BUFFER`].
pub fn target_buffer_size(settings: &AlsaSettings) -> (r: i64)
    ensures
        r == (match settings.buffer_size {
            Some(b) => b as i64,
            None => DEFAULT_BUFFER,
        }),
{
    match settings.buffer_size {
        Some(b) => b as i64,
        None => DEFAULT_BUFFER,
    }
}

/// The configured period size, widened to frames.
pub fn target_period_size(settings: &AlsaSettings) -> (r: Option<i64>)
    ensures
        r == (match settings.period_size {
            Some(p) => Some(p as i64),
            None => None::<i64>,
        }),
{
    match settings.period_size {
        Some(p) => Some(p as i64),
        None => None,
    }
}

/// The period size to request: the configured one, or a quarter of the
/// buffer, but at least 2 frames.
pub fn period_for(buffer_size: i64, period_size: Option<i64>) -> (r: i64)
    requires
        buffer_size >= 0,
    ensures
        r == (match period_size {
            Some(p) => p as int,
            None => if buffer_size / TARGET_PERIODS >= 2 {
                buffer_size / TARGET_PERIODS
            } else {
                2
            },
        }),
{
    match period_size {
        Some(p) => p,
        None => {
            let q = buffer_size / TARGET_PERIODS;
            if q >= 2 {
                q
            } else {
                2
            }
        },
    }
}

/// True when `buffer_size` is a positive whole multiple of `period_size`,
/// which the per-buffer load aggregation of the callback thread relies on.
pub fn is_positive_multiple(buffer_size: i64, period_size: i64) -> (r: bool)
    requires
        buffer_size >= 0,
        period_size > 0,
    ensures
        r == (buffer_size % period_size == 0 && buffer_size / period_size >= 1),
{
    buffer_size % period_size == 0 && buffer_size / period_size >= 1
}

/// Periods per buffer used to average the DSP load, at least 1.
pub fn periods_per_buffer(buffer_size: usize, period_size: usize) -> (r: usize)
    requires
        period_size > 0,
    ensures
        r == (if buffer_size / period_size >= 1 {
            buffer_size / period_size
        } else {
            1
        }),
        r >= 1,
{
    let q = buffer_size / period_size;
    if q >= 1 {
        q
    } else {
        1
    }
}

/// The cadence at which the callback thread reports the DSP load: one
/// report per buffer, that is every `periods` processed periods.
pub struct LoadCadence {
    periods: usize,
    counter: usize,
}

impl LoadCadence {
    /// Periods per report.
    pub closed spec fn spec_periods(&self) -> nat {
        self.periods as nat
    }

    /// Periods counted since the last report.
    pub closed spec fn spec_counter(&self) -> nat {
        self.counter as nat
    }

    /// The counter stays below the period count.
    pub open spec fn wf(&self) -> bool {
        self.spec_counter() < self.spec_periods()
    }

    /// A cadence of one report every `periods` periods, none counted yet.
    pub fn new(periods: usize) -> (c: Self)
        requires
            periods >= 1,
        ensures
            c.wf(),
            c.spec_periods() == periods,
            c.spec_counter() == 0,
    {
        LoadCadence { periods, counter: 0 }
    }

    /// Count one processed period; true when it completes a buffer, which
    /// starts the count again.
    pub fn tick(&mut self) -> (report: bool)
        requires
            old(self).wf(),
        ensures
            final(self).wf(),
            final(self).spec_periods() == old(self).spec_periods(),
            report == (old(self).spec_counter() + 1 == old(self).spec_periods()),
            final(self).spec_counter() == if report {
                0
            } else {
                old(self).spec_counter() + 1
            },
    {
        self.counter = self.counter + 1;
        if self.counter >= self.periods {
            self.counter = 0;
            true
        } else {
            false
        }
    }
}

/// Law: a tick from counter `k % periods` (which a fresh cadence holds for
/// `k == 0`) reports exactly when `k + 1` periods are a whole number of
/// buffers, and leaves the counter at `(k + 1) % periods`; so the `k`-th
/// period reports exactly when `k` is a multiple of the period count.
pub proof fn lemma_cadence_reports_every_buffer(periods: nat, k: nat)
    requires
        periods >= 1,
    ensures
        (k % periods + 1 == periods) == ((k + 1) % periods == 0),
        (k + 1) % periods == if k % periods + 1 == periods {
            0
        } else {
            k % periods + 1
        },
{
    let p = periods as int;
    let kk = k as int;
    let q = kk / p;
    let r = kk % p;
    vstd::arithmetic::div_mod::lemma_fundamental_div_mod(kk, p);
    vstd::arithmetic::div_mod::lemma_mod_bound(kk, p);
    if r + 1 == p {
        assert(kk + 1 == (q + 1) * p) by (nonlinear_arith)
            requires
                kk == p * q + r,
                r + 1 == p,
        ;
        vstd::arithmetic::div_mod::lemma_mod_multiples_basic(q + 1, p);
    } else {
        assert(kk + 1 == q * p + (r + 1)) by (nonlinear_arith)
            requires
                kk == p * q + r,
        ;
        vstd::arithmetic::div_mod::lemma_mod_multiples_vanish(q, r + 1, p);
        vstd::arithmetic::div_mod::lemma_small_mod((r + 1) as nat, periods);
    }
}

/// Capacity, in samples, of a worker ring buffer: [`AUDIO_RB_PERIODS`]
/// periods of `channels` interleaved channels.
pub fn ring_capacity(period_size: usize, channels: usize) -> (r: usize)
    requires
        AUDIO_RB_PERIODS * period_size <= usize::MAX,
        AUDIO_RB_PERIODS * period_size * channels <= usize::MAX,
    ensures
        r == AUDIO_RB_PERIODS * period_size * channels,
{
    AUDIO_RB_PERIODS * period_size * channels
}

/// The audio engine's configuration, set up before it runs.
pub struct Engine {
    input_device: String,
    output_device: String,
    sample_rate: u32,
    sample_format: SampleFormat,
    buffer_size: Option<u32>,
    period_size: Option<u32>,
    num_input_channels: u32,
}

impl Engine {
    /// The settings that running the engine asks ALSA for.
    pub closed spec fn spec_settings(&self) -> AlsaSettings {
        AlsaSettings {
            input_device: self.input_device,
            output_device: self.output_device,
            num_input_channels: self.num_input_channels,
            num_output_channels: NUM_OUTPUT_CHANNELS,
            sample_rate: self.sample_rate,
            sample_format: self.sample_format,
            buffer_size: self.buffer_size,
            period_size: self.period_size,
        }
    }

    /// An engine for the given devices and rate: 32-bit little-endian
    /// samples, buffer and period sizes left to the defaults, two inputs.
    pub fn new(input_device: String, output_device: String, sample_rate: u32) -> (e: Self)
        ensures
            e.spec_settings() == (AlsaSettings {
                input_device,
                output_device,
                num_input_channels: DEFAULT_INPUT_CHANNELS,
                num_output_channels: NUM_OUTPUT_CHANNELS,
                sample_rate,
                sample_format: SampleFormat::S32Le,
                buffer_size: None,
                period_size: None,
            }),
    {
        Engine {
            input_device,
            output_device,
            sample_rate,
            sample_format: SampleFormat::S32Le,
            buffer_size: None,
            period_size: None,
            num_input_channels: DEFAULT_INPUT_CHANNELS,
        }
    }

    /// Sets the wire sample format.
    pub fn set_sample_format(&mut self, fmt: SampleFormat)
        ensures
            final(self).spec_settings() == (AlsaSettings { sample_format: fmt, ..old(self).spec_settings() }),
    {
        self.sample_format = fmt;
    }

    /// Sets the buffer size in frames.
    pub fn set_buffer_size(&mut self, size: u32)
        ensures
            final(self).spec_settings() == (AlsaSettings { buffer_size: Some(size), ..old(self).spec_settings() }),
    {
        self.buffer_size = Some(size);
    }

    /// Sets the period size in frames.
    pub fn set_period_size(&mut self, size: u32)
        ensures
            final(self).spec_settings() == (AlsaSettings { period_size: Some(size), ..old(self).spec_settings() }),
    {
        self.period_size = Some(size);
    }

    /// Sets the number of captured input channels.
    pub fn set_input_channels(&mut self, n: u32)
        ensures
            final(self).spec_settings() == (AlsaSettings { num_input_channels: n, ..old(self).spec_settings() }),
    {
        self.num_input_channels = n;
    }

    /// The settings that running the engine asks ALSA for.
    pub fn alsa_settings(&self) -> (s: AlsaSettings)
        ensures
            s == self.spec_settings(),
    {
        AlsaSettings {
            input_device: self.input_device.clone(),
            output_device: self.output_device.clone(),
            num_input_channels: self.num_input_channels,
            num_output_channels: NUM_OUTPUT_CHANNELS,
            sample_rate: self.sample_rate,
            sample_format: self.sample_format,
            buffer_size: self.buffer_size,
            period_size: self.period_size,
        }
    }
}

} // verus!
