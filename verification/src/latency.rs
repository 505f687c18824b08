//! Round-trip latency measurement over a loopback cable: the bookkeeping of
//! frames between the impulse leaving the output and coming back on the
//! input. The device I/O and the level detection stay with the caller, which
//! feeds each captured period in and performs what comes back.

use vstd::prelude::*;

verus! {

/// Periods of silence before the impulse so the device buffers reach steady state.
pub const SETTLE_PERIODS: usize = 16;

/// Frames to wait for the impulse after it was sent before giving up (about
/// 3 s at 48 kHz).
pub const TIMEOUT_FRAMES: usize = 144_000;

/// What the measurement asks for after a captured period.
#[derive(Debug, Clone, Copy, PartialEq, Eq, Structural)]
pub enum ProbeOutcome {
    /// The impulse came back this many input frames after it was sent.
    Detected { latency_frames: usize },
    /// Nothing came back in time.
    TimedOut,
    /// Keep playback fed with silence and capture the next period.
    Continue,
}

/// Frame counters of a running measurement, after the settling periods and
/// the impulse were written.
pub struct LatencyProbe {
    /// Input frames captured so far.
    input_frames: usize,
    /// The output frame that carried the impulse.
    impulse_frame: usize,
    /// The input frame after which the measurement gives up.
    timeout_frame: usize,
}

impl LatencyProbe {
    /// Input frames captured so far.
    pub closed spec fn spec_input_frames(&self) -> nat {
        self.input_frames as nat
    }

    /// The output frame that carried the impulse.
    pub closed spec fn spec_impulse_frame(&self) -> nat {
        self.impulse_frame as nat
    }

    /// The input frame after which the measurement gives up.
    pub closed spec fn spec_timeout_frame(&self) -> nat {
        self.timeout_frame as nat
    }

    /// Still listening: no more input captured than the timeout allows.
    pub open spec fn wf(&self) -> bool {
        self.spec_input_frames() <= self.spec_timeout_frame()
    }

    /// The counters once the settling periods of `period_frames` frames have
    /// been written and captured: the impulse goes out in the next period.
    pub fn after_settling(period_frames: usize) -> (p: Self)
        requires
            SETTLE_PERIODS * period_frames + TIMEOUT_FRAMES <= usize::MAX,
        ensures
            p.wf(),
            p.spec_input_frames() == SETTLE_PERIODS * period_frames,
            p.spec_impulse_frame() == SETTLE_PERIODS * period_frames,
            p.spec_timeout_frame() == SETTLE_PERIODS * period_frames + TIMEOUT_FRAMES,
    {
        let settled = SETTLE_PERIODS * period_frames;
        LatencyProbe { input_frames: settled, impulse_frame: settled, timeout_frame: settled + TIMEOUT_FRAMES }
    }

    /// The output frame that carried the impulse.
    pub fn impulse_frame(&self) -> (r: usize)
        ensures
            r == self.spec_impulse_frame(),
    {
        self.impulse_frame
    }

    /// Account for one captured period of `frames_read` frames, in which the
    /// impulse was first heard at frame `hit` of the period, if at all.
    /// Detection reports the frames from the impulse's output frame to the
    /// input frame it was heard at (zero if heard earlier); otherwise the
    /// period's frames are counted and the measurement times out once the
    /// input has passed the timeout frame.
    pub fn on_period(&mut self, frames_read: usize, hit: Option<usize>) -> (r: ProbeOutcome)
        requires
            old(self).wf(),
            frames_read <= usize::MAX - old(self).spec_timeout_frame(),
            hit matches Some(idx) ==> idx < frames_read,
        ensures
            final(self).spec_impulse_frame() == old(self).spec_impulse_frame(),
            final(self).spec_timeout_frame() == old(self).spec_timeout_frame(),
            match hit {
                Some(idx) => {
                    &&& r == (ProbeOutcome::Detected {
                        latency_frames: (if old(self).spec_input_frames() + idx >= old(self).spec_impulse_frame() {
                            old(self).spec_input_frames() + idx - old(self).spec_impulse_frame()
                        } else {
                            0
                        }) as usize,
                    })
                    &&& final(self).spec_input_frames() == old(self).spec_input_frames()
                },
                None => {
                    &&& final(self).spec_input_frames() == old(self).spec_input_frames() + frames_read
                    &&& r == (if final(self).spec_input_frames() > final(self).spec_timeout_frame() {
                        ProbeOutcome::TimedOut
                    } else {
                        ProbeOutcome::Continue
                    })
                },
            },
            r == ProbeOutcome::Continue ==> final(self).wf(),
    {
        match hit {
            Some(idx) => {
                let detected_at = self.input_frames + idx;
                ProbeOutcome::Detected { latency_frames: detected_at.saturating_sub(self.impulse_frame) }
            },
            None => {
                self.input_frames = self.input_frames + frames_read;
                if self.input_frames > self.timeout_frame {
                    ProbeOutcome::TimedOut
                } else {
                    ProbeOutcome::Continue
                }
            },
        }
    }
}

} // verus!
