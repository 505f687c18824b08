//! Discrete xrun events delivered from the callback thread to the UI and the
//! logger.

use vstd::prelude::*;

verus! {

/// Which side of the duplex stream ran out.
#[derive(Debug, Clone, Copy, PartialEq, Eq, Structural)]
pub enum XrunKind {
    /// Capture overrun: the kernel filled the input buffer before it was read.
    Overrun,
    /// Playback underrun: the kernel emptied the output buffer before the
    /// next period was written.
    Underrun,
}

/// One xrun, stamped with the monotonic clock in microseconds.
#[derive(Debug, Clone, Copy, PartialEq, Eq, Structural)]
pub struct XrunEvent {
    pub kind: XrunKind,
    pub timestamp_us: i64,
}

} // verus!
