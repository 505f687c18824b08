//! Verified core of the neosynth realtime audio engine: MIDI parsing and
//! Control Change routing, parameter identifiers and their OSC addresses,
//! the OSC router, the persisted state and its replay, PCM integer packing,
//! engine configuration, the latency measurement's bookkeeping, and the
//! remote's layout rules and parameter panel.

pub mod midi;
pub mod text;
pub mod params;
pub mod mixer;
pub mod parameters;
pub mod mapping;
pub mod wire;
pub mod osc;
pub mod remote;
pub mod engine;
pub mod meters;
pub mod xrun;
pub mod persist;
pub mod pcm;
pub mod panel;
pub mod latency;
pub mod buffer;
