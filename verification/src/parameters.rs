//! The parameter events carried from the control surfaces (UI, MIDI, OSC) to
//! the audio engine and the persisted state.

use vstd::prelude::*;
use crate::mixer::MixerParam;
use crate::params::{CompressorParam, EchoParam, ReverbParam, TapeDelayParam};

verus! {

/// One parameter change; float-typed values have type `V`.
#[derive(Debug, Clone, Copy)]
pub enum InputParameters<V> {
    Reverb(ReverbParam<V>),
    Echo(EchoParam<V>),
    TapeDelay(TapeDelayParam<V>),
    Mixer(MixerParam<V>),
    Compressor(CompressorParam<V>),
}

impl<V: Copy> InputParameters<V> {
    /// The float value this event carries; `None` for a mixer switch.
    pub open spec fn spec_number(self) -> Option<V> {
        match self {
            InputParameters::Reverb(p) => Some(p.value()),
            InputParameters::Echo(p) => Some(p.value()),
            InputParameters::TapeDelay(p) => Some(p.value()),
            InputParameters::Mixer(p) => p.spec_number(),
            InputParameters::Compressor(p) => Some(p.value()),
        }
    }

    /// The float value this event carries; `None` for a mixer switch.
    pub fn number(&self) -> (r: Option<V>)
        ensures
            r == self.spec_number(),
    {
        match self {
            InputParameters::Reverb(p) => Some(p.value_of()),
            InputParameters::Echo(p) => Some(p.value_of()),
            InputParameters::TapeDelay(p) => Some(p.value_of()),
            InputParameters::Mixer(p) => p.number(),
            InputParameters::Compressor(p) => Some(p.value_of()),
        }
    }

    /// The same event with its float value replaced by `w`; a mixer switch
    /// keeps its state.
    pub open spec fn spec_with_number<W>(self, w: W) -> InputParameters<W> {
        match self {
            InputParameters::Reverb(p) => InputParameters::Reverb(p.kind().spec_build(w)),
            InputParameters::Echo(p) => InputParameters::Echo(p.kind().spec_build(w)),
            InputParameters::TapeDelay(p) => InputParameters::TapeDelay(p.kind().spec_build(w)),
            InputParameters::Mixer(p) => InputParameters::Mixer(p.spec_with_number(w)),
            InputParameters::Compressor(p) => InputParameters::Compressor(p.kind().spec_build(w)),
        }
    }

    /// The same event with its float value replaced by `w`; a mixer switch
    /// keeps its state.
    pub fn with_number<W>(self, w: W) -> (r: InputParameters<W>)
        ensures
            r == self.spec_with_number(w),
    {
        match self {
            InputParameters::Reverb(p) => InputParameters::Reverb(p.with_value(w)),
            InputParameters::Echo(p) => InputParameters::Echo(p.with_value(w)),
            InputParameters::TapeDelay(p) => InputParameters::TapeDelay(p.with_value(w)),
            InputParameters::Mixer(p) => InputParameters::Mixer(p.with_number(w)),
            InputParameters::Compressor(p) => InputParameters::Compressor(p.with_value(w)),
        }
    }
}

} // verus!
