//! Lock-free, latest-value-wins publication of meter levels and engine
//! telemetry from the audio thread to the UI. Values travel as the bit
//! patterns of 32-bit floats; a pattern of 0 is 0.0.

use vstd::prelude::*;
use std::sync::atomic::AtomicU32;
use std::sync::atomic::Ordering;

verus! {

/// Relaxed weak compare-and-exchange on a 32-bit atomic.
///
/// Calls `AtomicU32::compare_exchange_weak`. The contract claims what its
/// documentation guarantees: on success the returned previous value equals
/// `current`. It says nothing of a failure (which may be spurious) or of the
/// value a failure reports, which another thread may have stored.
#[verifier::external_body]
fn compare_exchange_weak_u32(a: &AtomicU32, current: u32, new: u32) -> (r: Result<u32, u32>)
    ensures
        r matches Ok(previous) ==> previous == current,
{
    a.compare_exchange_weak(current, new, Ordering::Relaxed, Ordering::Relaxed)
}

/// One meter cell holding the latest peak and RMS.
pub struct MeterCell {
    peak: AtomicU32,
    rms: AtomicU32,
}

impl MeterCell {
    /// A cell reading zero.
    pub fn new() -> (c: Self) {
        MeterCell { peak: AtomicU32::new(0), rms: AtomicU32::new(0) }
    }

    /// Publish a peak and an RMS value.
    pub fn store(&self, peak: u32, rms: u32) {
        self.peak.store(peak, Ordering::Relaxed);
        self.rms.store(rms, Ordering::Relaxed);
    }

    /// The latest peak and RMS values.
    pub fn load(&self) -> (r: (u32, u32)) {
        (self.peak.load(Ordering::Relaxed), self.rms.load(Ordering::Relaxed))
    }
}

/// Meter levels of every input strip, the FX returns, the master bus and
/// the master compressor's gain reduction. The audio thread stores once per
/// buffer; the UI loads at its own rate; stores never block.
pub struct MetersOutput {
    inputs: Vec<MeterCell>,
    reverb: MeterCell,
    echo: MeterCell,
    master_l: MeterCell,
    master_r: MeterCell,
    compressor_gr_db: AtomicU32,
}

impl MetersOutput {
    /// Number of input strips metered.
    pub closed spec fn spec_num_inputs(&self) -> nat {
        self.inputs@.len()
    }

    /// Meters for `num_inputs` input strips, all reading zero.
    pub fn new(num_inputs: usize) -> (m: Self)
        ensures
            m.spec_num_inputs() == num_inputs,
    {
        let mut inputs: Vec<MeterCell> = Vec::new();
        let mut i: usize = 0;
        while i < num_inputs
            invariant
                i <= num_inputs,
                inputs.len() == i,
            decreases num_inputs - i,
        {
            inputs.push(MeterCell::new());
            i = i + 1;
        }
        MetersOutput {
            inputs,
            reverb: MeterCell::new(),
            echo: MeterCell::new(),
            master_l: MeterCell::new(),
            master_r: MeterCell::new(),
            compressor_gr_db: AtomicU32::new(0),
        }
    }

    /// Number of input strips metered.
    pub fn num_inputs(&self) -> (r: usize)
        ensures
            r == self.spec_num_inputs(),
    {
        self.inputs.len()
    }

    /// Publish the compressor's gain reduction.
    pub fn store_compressor_gr_db(&self, gr_db: u32) {
        self.compressor_gr_db.store(gr_db, Ordering::Relaxed);
    }

    /// The latest compressor gain reduction.
    pub fn load_compressor_gr_db(&self) -> (r: u32) {
        self.compressor_gr_db.load(Ordering::Relaxed)
    }

    /// Publish the levels of input strip `idx`; ignored for a strip that does not exist.
    pub fn store_input(&self, idx: usize, peak: u32, rms: u32) {
        if idx < self.inputs.len() {
            self.inputs[idx].store(peak, rms);
        }
    }

    /// The latest levels of input strip `idx`; zero for a strip that does not exist.
    pub fn load_input(&self, idx: usize) -> (r: (u32, u32))
        ensures
            idx >= self.spec_num_inputs() ==> r == (0u32, 0u32),
    {
        if idx < self.inputs.len() {
            self.inputs[idx].load()
        } else {
            (0, 0)
        }
    }

    /// Publish the reverb return levels.
    pub fn store_reverb(&self, peak: u32, rms: u32) {
        self.reverb.store(peak, rms);
    }

    /// The latest reverb return levels.
    pub fn load_reverb(&self) -> (r: (u32, u32)) {
        self.reverb.load()
    }

    /// Publish the echo return levels.
    pub fn store_echo(&self, peak: u32, rms: u32) {
        self.echo.store(peak, rms);
    }

    /// The latest echo return levels.
    pub fn load_echo(&self) -> (r: (u32, u32)) {
        self.echo.load()
    }

    /// Publish the master levels of both channels.
    pub fn store_master(&self, peak_l: u32, rms_l: u32, peak_r: u32, rms_r: u32) {
        self.master_l.store(peak_l, rms_l);
        self.master_r.store(peak_r, rms_r);
    }

    /// The latest master levels, left then right.
    pub fn load_master(&self) -> (r: ((u32, u32), (u32, u32))) {
        (self.master_l.load(), self.master_r.load())
    }
}

/// Lock-free, latest-value-wins engine telemetry: the smoothed DSP load, its
/// decaying peak-hold, the running maximum since the last read, and the
/// cumulative xrun counts (which wrap around after `u32::MAX`).
pub struct EngineTelemetry {
    dsp_load_pct: AtomicU32,
    dsp_load_peak_pct: AtomicU32,
    dsp_load_max_pct: AtomicU32,
    overruns: AtomicU32,
    underruns: AtomicU32,
}

impl EngineTelemetry {
    /// Telemetry reading zero.
    pub fn new() -> (t: Self) {
        EngineTelemetry {
            dsp_load_pct: AtomicU32::new(0),
            dsp_load_peak_pct: AtomicU32::new(0),
            dsp_load_max_pct: AtomicU32::new(0),
            overruns: AtomicU32::new(0),
            underruns: AtomicU32::new(0),
        }
    }

    /// Count one capture overrun.
    pub fn increment_overrun(&self) {
        self.overruns.fetch_add(1, Ordering::Relaxed);
    }

    /// Count one playback underrun.
    pub fn increment_underrun(&self) {
        self.underruns.fetch_add(1, Ordering::Relaxed);
    }

    /// Capture overruns counted so far.
    pub fn overrun_count(&self) -> (r: u32) {
        self.overruns.load(Ordering::Relaxed)
    }

    /// Playback underruns counted so far.
    pub fn underrun_count(&self) -> (r: u32) {
        self.underruns.load(Ordering::Relaxed)
    }

    /// Publish the smoothed load and the peak-hold load.
    pub fn store_dsp_load(&self, ema_pct: u32, peak_pct: u32) {
        self.dsp_load_pct.store(ema_pct, Ordering::Relaxed);
        self.dsp_load_peak_pct.store(peak_pct, Ordering::Relaxed);
    }

    /// The latest smoothed load.
    pub fn dsp_load_pct(&self) -> (r: u32) {
        self.dsp_load_pct.load(Ordering::Relaxed)
    }

    /// The latest peak-hold load.
    pub fn dsp_load_peak_pct(&self) -> (r: u32) {
        self.dsp_load_peak_pct.load(Ordering::Relaxed)
    }

    /// The running maximum as it stands.
    pub fn dsp_load_max_pct(&self) -> (r: u32) {
        self.dsp_load_max_pct.load(Ordering::Relaxed)
    }

    /// Replace the running maximum with `new` if it still is `current`;
    /// otherwise report the value it has.
    pub fn compare_exchange_max_pct(&self, current: u32, new: u32) -> (r: Result<u32, u32>)
        ensures
            r matches Ok(previous) ==> previous == current,
    {
        compare_exchange_weak_u32(&self.dsp_load_max_pct, current, new)
    }

    /// Read the running maximum since the last call and reset it to zero.
    pub fn take_dsp_load_max_pct(&self) -> (r: u32) {
        self.dsp_load_max_pct.swap(0, Ordering::Relaxed)
    }
}

} // verus!
