//! The persisted user state: a mirror of every parameter event, its replay
//! at startup, and the reads that answer state queries. The state is generic
//! over the float type `F` of its values.

use vstd::prelude::*;
use crate::mixer::{MixerBoolId, MixerFloatId, MixerParam};
use crate::params::{
    CompressorParam, CompressorParamKind, EchoParam, EchoParamKind, FloatParams, ReverbParam, ReverbParamKind,
};
use crate::parameters::InputParameters;

verus! {

/// Persisted settings of one input strip.
#[derive(Debug, Clone, Copy)]
pub struct InputStripState<F> {
    pub gain_db: F,
    pub pan: F,
    pub mute: bool,
    pub send_reverb: F,
    pub send_echo: F,
    pub send_pre_fader: bool,
}

/// Persisted settings of one FX return.
#[derive(Debug, Clone, Copy)]
pub struct FxReturnState<F> {
    pub gain_db: F,
    pub pan: F,
    pub mute: bool,
}

/// Persisted mixer settings.
#[derive(Debug, Clone)]
pub struct MixerSnapshot<F> {
    pub inputs: Vec<InputStripState<F>>,
    pub reverb_return: FxReturnState<F>,
    pub echo_return: FxReturnState<F>,
    pub master_gain_db: F,
}

/// Mathematical view of the mixer settings.
pub struct MixerView<F> {
    pub inputs: Seq<InputStripState<F>>,
    pub reverb_return: FxReturnState<F>,
    pub echo_return: FxReturnState<F>,
    pub master_gain_db: F,
}

impl<F> View for MixerSnapshot<F> {
    type V = MixerView<F>;

    open spec fn view(&self) -> MixerView<F> {
        MixerView {
            inputs: self.inputs@,
            reverb_return: self.reverb_return,
            echo_return: self.echo_return,
            master_gain_db: self.master_gain_db,
        }
    }
}

/// Persisted reverb settings; `F` is the float type.
#[derive(Debug, Clone, Copy)]
pub struct ReverbParams<F> {
    pub size: F,
    pub feedback: F,
    pub balance: F,
    pub pre_delay_ms: F,
    pub hpf_hz: F,
    pub lpf_hz: F,
    pub chorus: F,
    pub send: F,
}

/// The reverb settings after event `p`.
pub open spec fn apply_reverb_spec<F>(p: ReverbParam<F>, s: ReverbParams<F>) -> ReverbParams<F> {
    match p {
        ReverbParam::Size(x) => ReverbParams { size: x, ..s },
        ReverbParam::Feedback(x) => ReverbParams { feedback: x, ..s },
        ReverbParam::Balance(x) => ReverbParams { balance: x, ..s },
        ReverbParam::PreDelayMs(x) => ReverbParams { pre_delay_ms: x, ..s },
        ReverbParam::HpfHz(x) => ReverbParams { hpf_hz: x, ..s },
        ReverbParam::LpfHz(x) => ReverbParams { lpf_hz: x, ..s },
        ReverbParam::Chorus(x) => ReverbParams { chorus: x, ..s },
        ReverbParam::Send(x) => ReverbParams { send: x, ..s },
    }
}

/// Mirror a reverb event into the persisted settings.
pub fn apply_reverb<F: Copy>(p: ReverbParam<F>, s: &mut ReverbParams<F>)
    ensures
        *final(s) == apply_reverb_spec(p, *old(s)),
{
    match p {
        ReverbParam::Size(x) => s.size = x,
        ReverbParam::Feedback(x) => s.feedback = x,
        ReverbParam::Balance(x) => s.balance = x,
        ReverbParam::PreDelayMs(x) => s.pre_delay_ms = x,
        ReverbParam::HpfHz(x) => s.hpf_hz = x,
        ReverbParam::LpfHz(x) => s.lpf_hz = x,
        ReverbParam::Chorus(x) => s.chorus = x,
        ReverbParam::Send(x) => s.send = x,
    }
}

/// The persisted value of a reverb parameter.
pub open spec fn reverb_read_spec<F>(k: ReverbParamKind, s: ReverbParams<F>) -> F {
    match k {
        ReverbParamKind::Size => s.size,
        ReverbParamKind::Feedback => s.feedback,
        ReverbParamKind::Balance => s.balance,
        ReverbParamKind::PreDelayMs => s.pre_delay_ms,
        ReverbParamKind::HpfHz => s.hpf_hz,
        ReverbParamKind::LpfHz => s.lpf_hz,
        ReverbParamKind::Chorus => s.chorus,
        ReverbParamKind::Send => s.send,
    }
}

impl ReverbParamKind {
    /// Read this parameter's current value out of the persisted settings.
    pub fn read<F: Copy>(self, state: &ReverbParams<F>) -> (r: F)
        ensures
            r == reverb_read_spec(self, *state),
    {
        match self {
            ReverbParamKind::Size => state.size,
            ReverbParamKind::Feedback => state.feedback,
            ReverbParamKind::Balance => state.balance,
            ReverbParamKind::PreDelayMs => state.pre_delay_ms,
            ReverbParamKind::HpfHz => state.hpf_hz,
            ReverbParamKind::LpfHz => state.lpf_hz,
            ReverbParamKind::Chorus => state.chorus,
            ReverbParamKind::Send => state.send,
        }
    }
}

/// The events that reproduce the reverb settings `s`, one per parameter in display order.
pub open spec fn reverb_replay<F>(s: ReverbParams<F>) -> Seq<InputParameters<F>> {
    ReverbParamKind::spec_all().map_values(|k: ReverbParamKind| InputParameters::Reverb(k.spec_build(reverb_read_spec(k, s))))
}

/// Replaying the reverb events of `s` onto any state sets the reverb settings to `s` and nothing else.
proof fn lemma_reverb_replay<F>(t: AppStateView<F>, s: ReverbParams<F>)
    ensures
        apply_all(t, reverb_replay(s)) == (AppStateView { reverb: s, ..t }),
{
    let ev = reverb_replay(s);
    let mut cur = t;
    let mut i: int = 0;
    lemma_apply_all_step(cur, ev.subrange(0, ev.len() as int));
    assert(ev.subrange(0, ev.len() as int)[0] == ev[0]);
    assert(ev.subrange(0, ev.len() as int).drop_first() =~= ev.subrange(1, ev.len() as int));
    cur = apply_spec(cur, ev[0]);
    lemma_apply_all_step(cur, ev.subrange(1, ev.len() as int));
    assert(ev.subrange(1, ev.len() as int)[0] == ev[1]);
    assert(ev.subrange(1, ev.len() as int).drop_first() =~= ev.subrange(2, ev.len() as int));
    cur = apply_spec(cur, ev[1]);
    lemma_apply_all_step(cur, ev.subrange(2, ev.len() as int));
    assert(ev.subrange(2, ev.len() as int)[0] == ev[2]);
    assert(ev.subrange(2, ev.len() as int).drop_first() =~= ev.subrange(3, ev.len() as int));
    cur = apply_spec(cur, ev[2]);
    lemma_apply_all_step(cur, ev.subrange(3, ev.len() as int));
    assert(ev.subrange(3, ev.len() as int)[0] == ev[3]);
    assert(ev.subrange(3, ev.len() as int).drop_first() =~= ev.subrange(4, ev.len() as int));
    cur = apply_spec(cur, ev[3]);
    lemma_apply_all_step(cur, ev.subrange(4, ev.len() as int));
    assert(ev.subrange(4, ev.len() as int)[0] == ev[4]);
    assert(ev.subrange(4, ev.len() as int).drop_first() =~= ev.subrange(5, ev.len() as int));
    cur = apply_spec(cur, ev[4]);
    lemma_apply_all_step(cur, ev.subrange(5, ev.len() as int));
    assert(ev.subrange(5, ev.len() as int)[0] == ev[5]);
    assert(ev.subrange(5, ev.len() as int).drop_first() =~= ev.subrange(6, ev.len() as int));
    cur = apply_spec(cur, ev[5]);
    lemma_apply_all_step(cur, ev.subrange(6, ev.len() as int));
    assert(ev.subrange(6, ev.len() as int)[0] == ev[6]);
    assert(ev.subrange(6, ev.len() as int).drop_first() =~= ev.subrange(7, ev.len() as int));
    cur = apply_spec(cur, ev[6]);
    lemma_apply_all_step(cur, ev.subrange(7, ev.len() as int));
    assert(ev.subrange(7, ev.len() as int)[0] == ev[7]);
    assert(ev.subrange(7, ev.len() as int).drop_first() =~= ev.subrange(8, ev.len() as int));
    cur = apply_spec(cur, ev[7]);
    assert(ev.subrange(0, ev.len() as int) =~= ev);
    assert(ev.subrange(ev.len() as int, ev.len() as int) =~= Seq::<InputParameters<F>>::empty());
    assert(cur.reverb == s);
}

/// Persisted echo settings; `F` is the float type.
#[derive(Debug, Clone, Copy)]
pub struct EchoParams<F> {
    pub send: F,
    pub fb_local: F,
    pub fb_cross: F,
    pub time_l_ms: F,
    pub time_r_ms: F,
    pub lpf_hz: F,
}

/// The echo settings after event `p`.
pub open spec fn apply_echo_spec<F>(p: EchoParam<F>, s: EchoParams<F>) -> EchoParams<F> {
    match p {
        EchoParam::Send(x) => EchoParams { send: x, ..s },
        EchoParam::FbLocal(x) => EchoParams { fb_local: x, ..s },
        EchoParam::FbCross(x) => EchoParams { fb_cross: x, ..s },
        EchoParam::TimeLMs(x) => EchoParams { time_l_ms: x, ..s },
        EchoParam::TimeRMs(x) => EchoParams { time_r_ms: x, ..s },
        EchoParam::LpfHz(x) => EchoParams { lpf_hz: x, ..s },
    }
}

/// Mirror a echo event into the persisted settings.
pub fn apply_echo<F: Copy>(p: EchoParam<F>, s: &mut EchoParams<F>)
    ensures
        *final(s) == apply_echo_spec(p, *old(s)),
{
    match p {
        EchoParam::Send(x) => s.send = x,
        EchoParam::FbLocal(x) => s.fb_local = x,
        EchoParam::FbCross(x) => s.fb_cross = x,
        EchoParam::TimeLMs(x) => s.time_l_ms = x,
        EchoParam::TimeRMs(x) => s.time_r_ms = x,
        EchoParam::LpfHz(x) => s.lpf_hz = x,
    }
}

/// The persisted value of a echo parameter.
pub open spec fn echo_read_spec<F>(k: EchoParamKind, s: EchoParams<F>) -> F {
    match k {
        EchoParamKind::Send => s.send,
        EchoParamKind::FbLocal => s.fb_local,
        EchoParamKind::FbCross => s.fb_cross,
        EchoParamKind::TimeLMs => s.time_l_ms,
        EchoParamKind::TimeRMs => s.time_r_ms,
        EchoParamKind::LpfHz => s.lpf_hz,
    }
}

impl EchoParamKind {
    /// Read this parameter's current value out of the persisted settings.
    pub fn read<F: Copy>(self, state: &EchoParams<F>) -> (r: F)
        ensures
            r == echo_read_spec(self, *state),
    {
        match self {
            EchoParamKind::Send => state.send,
            EchoParamKind::FbLocal => state.fb_local,
            EchoParamKind::FbCross => state.fb_cross,
            EchoParamKind::TimeLMs => state.time_l_ms,
            EchoParamKind::TimeRMs => state.time_r_ms,
            EchoParamKind::LpfHz => state.lpf_hz,
        }
    }
}

/// The events that reproduce the echo settings `s`, one per parameter in display order.
pub open spec fn echo_replay<F>(s: EchoParams<F>) -> Seq<InputParameters<F>> {
    EchoParamKind::spec_all().map_values(|k: EchoParamKind| InputParameters::Echo(k.spec_build(echo_read_spec(k, s))))
}

/// Replaying the echo events of `s` onto any state sets the echo settings to `s` and nothing else.
proof fn lemma_echo_replay<F>(t: AppStateView<F>, s: EchoParams<F>)
    ensures
        apply_all(t, echo_replay(s)) == (AppStateView { echo: s, ..t }),
{
    let ev = echo_replay(s);
    let mut cur = t;
    let mut i: int = 0;
    lemma_apply_all_step(cur, ev.subrange(0, ev.len() as int));
    assert(ev.subrange(0, ev.len() as int)[0] == ev[0]);
    assert(ev.subrange(0, ev.len() as int).drop_first() =~= ev.subrange(1, ev.len() as int));
    cur = apply_spec(cur, ev[0]);
    lemma_apply_all_step(cur, ev.subrange(1, ev.len() as int));
    assert(ev.subrange(1, ev.len() as int)[0] == ev[1]);
    assert(ev.subrange(1, ev.len() as int).drop_first() =~= ev.subrange(2, ev.len() as int));
    cur = apply_spec(cur, ev[1]);
    lemma_apply_all_step(cur, ev.subrange(2, ev.len() as int));
    assert(ev.subrange(2, ev.len() as int)[0] == ev[2]);
    assert(ev.subrange(2, ev.len() as int).drop_first() =~= ev.subrange(3, ev.len() as int));
    cur = apply_spec(cur, ev[2]);
    lemma_apply_all_step(cur, ev.subrange(3, ev.len() as int));
    assert(ev.subrange(3, ev.len() as int)[0] == ev[3]);
    assert(ev.subrange(3, ev.len() as int).drop_first() =~= ev.subrange(4, ev.len() as int));
    cur = apply_spec(cur, ev[3]);
    lemma_apply_all_step(cur, ev.subrange(4, ev.len() as int));
    assert(ev.subrange(4, ev.len() as int)[0] == ev[4]);
    assert(ev.subrange(4, ev.len() as int).drop_first() =~= ev.subrange(5, ev.len() as int));
    cur = apply_spec(cur, ev[4]);
    lemma_apply_all_step(cur, ev.subrange(5, ev.len() as int));
    assert(ev.subrange(5, ev.len() as int)[0] == ev[5]);
    assert(ev.subrange(5, ev.len() as int).drop_first() =~= ev.subrange(6, ev.len() as int));
    cur = apply_spec(cur, ev[5]);
    assert(ev.subrange(0, ev.len() as int) =~= ev);
    assert(ev.subrange(ev.len() as int, ev.len() as int) =~= Seq::<InputParameters<F>>::empty());
    assert(cur.echo == s);
}

/// Persisted compressor settings; `F` is the float type.
#[derive(Debug, Clone, Copy)]
pub struct CompressorParams<F> {
    pub threshold_db: F,
    pub ratio: F,
    pub attack_ms: F,
    pub release_ms: F,
    pub knee_db: F,
    pub makeup_db: F,
}

/// The compressor settings after event `p`.
pub open spec fn apply_compressor_spec<F>(p: CompressorParam<F>, s: CompressorParams<F>) -> CompressorParams<F> {
    match p {
        CompressorParam::ThresholdDb(x) => CompressorParams { threshold_db: x, ..s },
        CompressorParam::Ratio(x) => CompressorParams { ratio: x, ..s },
        CompressorParam::AttackMs(x) => CompressorParams { attack_ms: x, ..s },
        CompressorParam::ReleaseMs(x) => CompressorParams { release_ms: x, ..s },
        CompressorParam::KneeDb(x) => CompressorParams { knee_db: x, ..s },
        CompressorParam::MakeupDb(x) => CompressorParams { makeup_db: x, ..s },
    }
}

/// Mirror a compressor event into the persisted settings.
pub fn apply_compressor<F: Copy>(p: CompressorParam<F>, s: &mut CompressorParams<F>)
    ensures
        *final(s) == apply_compressor_spec(p, *old(s)),
{
    match p {
        CompressorParam::ThresholdDb(x) => s.threshold_db = x,
        CompressorParam::Ratio(x) => s.ratio = x,
        CompressorParam::AttackMs(x) => s.attack_ms = x,
        CompressorParam::ReleaseMs(x) => s.release_ms = x,
        CompressorParam::KneeDb(x) => s.knee_db = x,
        CompressorParam::MakeupDb(x) => s.makeup_db = x,
    }
}

/// The persisted value of a compressor parameter.
pub open spec fn compressor_read_spec<F>(k: CompressorParamKind, s: CompressorParams<F>) -> F {
    match k {
        CompressorParamKind::ThresholdDb => s.threshold_db,
        CompressorParamKind::Ratio => s.ratio,
        CompressorParamKind::AttackMs => s.attack_ms,
        CompressorParamKind::ReleaseMs => s.release_ms,
        CompressorParamKind::KneeDb => s.knee_db,
        CompressorParamKind::MakeupDb => s.makeup_db,
    }
}

impl CompressorParamKind {
    /// Read this parameter's current value out of the persisted settings.
    pub fn read<F: Copy>(self, state: &CompressorParams<F>) -> (r: F)
        ensures
            r == compressor_read_spec(self, *state),
    {
        match self {
            CompressorParamKind::ThresholdDb => state.threshold_db,
            CompressorParamKind::Ratio => state.ratio,
            CompressorParamKind::AttackMs => state.attack_ms,
            CompressorParamKind::ReleaseMs => state.release_ms,
            CompressorParamKind::KneeDb => state.knee_db,
            CompressorParamKind::MakeupDb => state.makeup_db,
        }
    }
}

/// The events that reproduce the compressor settings `s`, one per parameter in display order.
pub open spec fn compressor_replay<F>(s: CompressorParams<F>) -> Seq<InputParameters<F>> {
    CompressorParamKind::spec_all().map_values(|k: CompressorParamKind| InputParameters::Compressor(k.spec_build(compressor_read_spec(k, s))))
}

/// Replaying the compressor events of `s` onto any state sets the compressor settings to `s` and nothing else.
proof fn lemma_compressor_replay<F>(t: AppStateView<F>, s: CompressorParams<F>)
    ensures
        apply_all(t, compressor_replay(s)) == (AppStateView { compressor: s, ..t }),
{
    let ev = compressor_replay(s);
    let mut cur = t;
    let mut i: int = 0;
    lemma_apply_all_step(cur, ev.subrange(0, ev.len() as int));
    assert(ev.subrange(0, ev.len() as int)[0] == ev[0]);
    assert(ev.subrange(0, ev.len() as int).drop_first() =~= ev.subrange(1, ev.len() as int));
    cur = apply_spec(cur, ev[0]);
    lemma_apply_all_step(cur, ev.subrange(1, ev.len() as int));
    assert(ev.subrange(1, ev.len() as int)[0] == ev[1]);
    assert(ev.subrange(1, ev.len() as int).drop_first() =~= ev.subrange(2, ev.len() as int));
    cur = apply_spec(cur, ev[1]);
    lemma_apply_all_step(cur, ev.subrange(2, ev.len() as int));
    assert(ev.subrange(2, ev.len() as int)[0] == ev[2]);
    assert(ev.subrange(2, ev.len() as int).drop_first() =~= ev.subrange(3, ev.len() as int));
    cur = apply_spec(cur, ev[2]);
    lemma_apply_all_step(cur, ev.subrange(3, ev.len() as int));
    assert(ev.subrange(3, ev.len() as int)[0] == ev[3]);
    assert(ev.subrange(3, ev.len() as int).drop_first() =~= ev.subrange(4, ev.len() as int));
    cur = apply_spec(cur, ev[3]);
    lemma_apply_all_step(cur, ev.subrange(4, ev.len() as int));
    assert(ev.subrange(4, ev.len() as int)[0] == ev[4]);
    assert(ev.subrange(4, ev.len() as int).drop_first() =~= ev.subrange(5, ev.len() as int));
    cur = apply_spec(cur, ev[4]);
    lemma_apply_all_step(cur, ev.subrange(5, ev.len() as int));
    assert(ev.subrange(5, ev.len() as int)[0] == ev[5]);
    assert(ev.subrange(5, ev.len() as int).drop_first() =~= ev.subrange(6, ev.len() as int));
    cur = apply_spec(cur, ev[5]);
    assert(ev.subrange(0, ev.len() as int) =~= ev);
    assert(ev.subrange(ev.len() as int, ev.len() as int) =~= Seq::<InputParameters<F>>::empty());
    assert(cur.compressor == s);
}

/// Top-level persisted user state.
#[derive(Debug, Clone)]
pub struct AppState<F> {
    pub version: u32,
    pub mixer: MixerSnapshot<F>,
    pub reverb: ReverbParams<F>,
    pub echo: EchoParams<F>,
    pub compressor: CompressorParams<F>,
}

/// Mathematical view of the persisted state.
pub struct AppStateView<F> {
    pub version: u32,
    pub mixer: MixerView<F>,
    pub reverb: ReverbParams<F>,
    pub echo: EchoParams<F>,
    pub compressor: CompressorParams<F>,
}

impl<F> View for AppState<F> {
    type V = AppStateView<F>;

    open spec fn view(&self) -> AppStateView<F> {
        AppStateView {
            version: self.version,
            mixer: self.mixer@,
            reverb: self.reverb,
            echo: self.echo,
            compressor: self.compressor,
        }
    }
}

/// Strip `i` after `f`, when strip `i` exists; the strips unchanged otherwise.
pub open spec fn update_strip<F>(
    inputs: Seq<InputStripState<F>>,
    i: usize,
    f: spec_fn(InputStripState<F>) -> InputStripState<F>,
) -> Seq<InputStripState<F>> {
    if i < inputs.len() {
        inputs.update(i as int, f(inputs[i as int]))
    } else {
        inputs
    }
}

/// The mixer settings after event `e`. Events for strips that do not exist
/// change nothing.
pub open spec fn apply_mixer_spec<F>(e: MixerParam<F>, m: MixerView<F>) -> MixerView<F> {
    match e {
        MixerParam::InputGainDb(i, v) => MixerView {
            inputs: update_strip(m.inputs, i, |s: InputStripState<F>| InputStripState { gain_db: v, ..s }),
            ..m
        },
        MixerParam::InputPan(i, v) => MixerView {
            inputs: update_strip(m.inputs, i, |s: InputStripState<F>| InputStripState { pan: v, ..s }),
            ..m
        },
        MixerParam::InputMute(i, v) => MixerView {
            inputs: update_strip(m.inputs, i, |s: InputStripState<F>| InputStripState { mute: v, ..s }),
            ..m
        },
        MixerParam::InputSendReverb(i, v) => MixerView {
            inputs: update_strip(m.inputs, i, |s: InputStripState<F>| InputStripState { send_reverb: v, ..s }),
            ..m
        },
        MixerParam::InputSendEcho(i, v) => MixerView {
            inputs: update_strip(m.inputs, i, |s: InputStripState<F>| InputStripState { send_echo: v, ..s }),
            ..m
        },
        MixerParam::InputSendPreFader(i, v) => MixerView {
            inputs: update_strip(
                m.inputs,
                i,
                |s: InputStripState<F>| InputStripState { send_pre_fader: v, ..s },
            ),
            ..m
        },
        MixerParam::ReverbReturnGainDb(v) => MixerView {
            reverb_return: FxReturnState { gain_db: v, ..m.reverb_return },
            ..m
        },
        MixerParam::ReverbReturnPan(v) => MixerView { reverb_return: FxReturnState { pan: v, ..m.reverb_return }, ..m },
        MixerParam::ReverbReturnMute(v) => MixerView {
            reverb_return: FxReturnState { mute: v, ..m.reverb_return },
            ..m
        },
        MixerParam::EchoReturnGainDb(v) => MixerView { echo_return: FxReturnState { gain_db: v, ..m.echo_return }, ..m },
        MixerParam::EchoReturnPan(v) => MixerView { echo_return: FxReturnState { pan: v, ..m.echo_return }, ..m },
        MixerParam::EchoReturnMute(v) => MixerView { echo_return: FxReturnState { mute: v, ..m.echo_return }, ..m },
        MixerParam::MasterGainDb(v) => MixerView { master_gain_db: v, ..m },
    }
}

/// The state after event `e`. Tape delay settings are not persisted.
pub open spec fn apply_spec<F>(s: AppStateView<F>, e: InputParameters<F>) -> AppStateView<F> {
    match e {
        InputParameters::Reverb(p) => AppStateView { reverb: apply_reverb_spec(p, s.reverb), ..s },
        InputParameters::Echo(p) => AppStateView { echo: apply_echo_spec(p, s.echo), ..s },
        InputParameters::Compressor(p) => AppStateView { compressor: apply_compressor_spec(p, s.compressor), ..s },
        InputParameters::Mixer(p) => AppStateView { mixer: apply_mixer_spec(p, s.mixer), ..s },
        InputParameters::TapeDelay(_) => s,
    }
}

/// The state after every event of `events`, in order.
pub open spec fn apply_all<F>(s: AppStateView<F>, events: Seq<InputParameters<F>>) -> AppStateView<F>
    decreases events.len(),
{
    if events.len() == 0 {
        s
    } else {
        apply_all(apply_spec(s, events[0]), events.drop_first())
    }
}

/// Applying a non-empty sequence is applying its first event, then the rest.
proof fn lemma_apply_all_step<F>(s: AppStateView<F>, events: Seq<InputParameters<F>>)
    requires
        events.len() > 0,
    ensures
        apply_all(s, events) == apply_all(apply_spec(s, events[0]), events.drop_first()),
{
}

/// Applying a concatenation is applying its parts in turn.
pub proof fn lemma_apply_all_concat<F>(s: AppStateView<F>, a: Seq<InputParameters<F>>, b: Seq<InputParameters<F>>)
    ensures
        apply_all(s, a + b) == apply_all(apply_all(s, a), b),
    decreases a.len(),
{
    if a.len() == 0 {
        assert(a + b =~= b);
    } else {
        assert((a + b)[0] == a[0]);
        assert((a + b).drop_first() =~= a.drop_first() + b);
        lemma_apply_all_concat(apply_spec(s, a[0]), a.drop_first(), b);
    }
}

/// The events that reproduce strip `i`'s settings `st`.
pub open spec fn strip_replay<F>(i: usize, st: InputStripState<F>) -> Seq<InputParameters<F>> {
    seq![
        InputParameters::Mixer(MixerParam::InputGainDb(i, st.gain_db)),
        InputParameters::Mixer(MixerParam::InputPan(i, st.pan)),
        InputParameters::Mixer(MixerParam::InputMute(i, st.mute)),
        InputParameters::Mixer(MixerParam::InputSendReverb(i, st.send_reverb)),
        InputParameters::Mixer(MixerParam::InputSendEcho(i, st.send_echo)),
        InputParameters::Mixer(MixerParam::InputSendPreFader(i, st.send_pre_fader)),
    ]
}

/// The events that reproduce strips `0..n` of `inputs`, strip by strip.
pub open spec fn strips_replay<F>(inputs: Seq<InputStripState<F>>, n: nat) -> Seq<InputParameters<F>>
    decreases n,
{
    if n == 0 {
        Seq::empty()
    } else {
        strips_replay(inputs, (n - 1) as nat) + strip_replay((n - 1) as usize, inputs[n - 1])
    }
}

/// The events that reproduce the FX returns and the master gain.
pub open spec fn returns_replay<F>(m: MixerView<F>) -> Seq<InputParameters<F>> {
    seq![
        InputParameters::Mixer(MixerParam::ReverbReturnGainDb(m.reverb_return.gain_db)),
        InputParameters::Mixer(MixerParam::ReverbReturnPan(m.reverb_return.pan)),
        InputParameters::Mixer(MixerParam::ReverbReturnMute(m.reverb_return.mute)),
        InputParameters::Mixer(MixerParam::EchoReturnGainDb(m.echo_return.gain_db)),
        InputParameters::Mixer(MixerParam::EchoReturnPan(m.echo_return.pan)),
        InputParameters::Mixer(MixerParam::EchoReturnMute(m.echo_return.mute)),
        InputParameters::Mixer(MixerParam::MasterGainDb(m.master_gain_db)),
    ]
}

/// The full startup replay of `s`: reverb, echo and compressor parameters in
/// display order, then every strip, then the FX returns and the master gain.
pub open spec fn replay_spec<F>(s: AppStateView<F>) -> Seq<InputParameters<F>> {
    reverb_replay(s.reverb) + echo_replay(s.echo) + compressor_replay(s.compressor) + strips_replay(
        s.mixer.inputs,
        s.mixer.inputs.len(),
    ) + returns_replay(s.mixer)
}

/// Replaying one strip's events sets that strip and nothing else.
proof fn lemma_strip_replay<F>(t: AppStateView<F>, i: usize, st: InputStripState<F>)
    requires
        i < t.mixer.inputs.len(),
    ensures
        apply_all(t, strip_replay(i, st)) == (AppStateView {
            mixer: MixerView { inputs: t.mixer.inputs.update(i as int, st), ..t.mixer },
            ..t
        }),
{
    let ev = strip_replay(i, st);
    let mut cur = t;
    lemma_apply_all_step(cur, ev.subrange(0, 6));
    assert(ev.subrange(0, 6)[0] == ev[0]);
    assert(ev.subrange(0, 6).drop_first() =~= ev.subrange(1, 6));
    cur = apply_spec(cur, ev[0]);
    lemma_apply_all_step(cur, ev.subrange(1, 6));
    assert(ev.subrange(1, 6)[0] == ev[1]);
    assert(ev.subrange(1, 6).drop_first() =~= ev.subrange(2, 6));
    cur = apply_spec(cur, ev[1]);
    lemma_apply_all_step(cur, ev.subrange(2, 6));
    assert(ev.subrange(2, 6)[0] == ev[2]);
    assert(ev.subrange(2, 6).drop_first() =~= ev.subrange(3, 6));
    cur = apply_spec(cur, ev[2]);
    lemma_apply_all_step(cur, ev.subrange(3, 6));
    assert(ev.subrange(3, 6)[0] == ev[3]);
    assert(ev.subrange(3, 6).drop_first() =~= ev.subrange(4, 6));
    cur = apply_spec(cur, ev[3]);
    lemma_apply_all_step(cur, ev.subrange(4, 6));
    assert(ev.subrange(4, 6)[0] == ev[4]);
    assert(ev.subrange(4, 6).drop_first() =~= ev.subrange(5, 6));
    cur = apply_spec(cur, ev[4]);
    lemma_apply_all_step(cur, ev.subrange(5, 6));
    assert(ev.subrange(5, 6)[0] == ev[5]);
    assert(ev.subrange(5, 6).drop_first() =~= ev.subrange(6, 6));
    cur = apply_spec(cur, ev[5]);
    assert(ev.subrange(0, 6) =~= ev);
    assert(ev.subrange(6, 6) =~= Seq::<InputParameters<F>>::empty());
    assert(cur.mixer.inputs =~= t.mixer.inputs.update(i as int, st));
}

/// Replaying the events of strips `0..n` of `inputs` onto a mixer with as
/// many strips sets those strips and nothing else.
proof fn lemma_strips_replay<F>(t: AppStateView<F>, inputs: Seq<InputStripState<F>>, n: nat)
    requires
        n <= inputs.len(),
        inputs.len() == t.mixer.inputs.len(),
        inputs.len() <= usize::MAX,
    ensures
        apply_all(t, strips_replay(inputs, n)) == (AppStateView {
            mixer: MixerView {
                inputs: inputs.subrange(0, n as int) + t.mixer.inputs.subrange(n as int, inputs.len() as int),
                ..t.mixer
            },
            ..t
        }),
    decreases n,
{
    if n == 0 {
        assert(inputs.subrange(0, 0) + t.mixer.inputs.subrange(0, inputs.len() as int) =~= t.mixer.inputs);
    } else {
        let m = (n - 1) as nat;
        lemma_strips_replay(t, inputs, m);
        lemma_apply_all_concat(t, strips_replay(inputs, m), strip_replay(m as usize, inputs[m as int]));
        let mid = apply_all(t, strips_replay(inputs, m));
        lemma_strip_replay(mid, m as usize, inputs[m as int]);
        assert(mid.mixer.inputs.update(m as int, inputs[m as int]) =~= inputs.subrange(0, n as int)
            + t.mixer.inputs.subrange(n as int, inputs.len() as int));
    }
}

/// Replaying the FX-return and master events sets those and nothing else.
proof fn lemma_returns_replay<F>(t: AppStateView<F>, m: MixerView<F>)
    ensures
        apply_all(t, returns_replay(m)) == (AppStateView {
            mixer: MixerView {
                reverb_return: m.reverb_return,
                echo_return: m.echo_return,
                master_gain_db: m.master_gain_db,
                ..t.mixer
            },
            ..t
        }),
{
    let ev = returns_replay(m);
    let mut cur = t;
    lemma_apply_all_step(cur, ev.subrange(0, 7));
    assert(ev.subrange(0, 7)[0] == ev[0]);
    assert(ev.subrange(0, 7).drop_first() =~= ev.subrange(1, 7));
    cur = apply_spec(cur, ev[0]);
    lemma_apply_all_step(cur, ev.subrange(1, 7));
    assert(ev.subrange(1, 7)[0] == ev[1]);
    assert(ev.subrange(1, 7).drop_first() =~= ev.subrange(2, 7));
    cur = apply_spec(cur, ev[1]);
    lemma_apply_all_step(cur, ev.subrange(2, 7));
    assert(ev.subrange(2, 7)[0] == ev[2]);
    assert(ev.subrange(2, 7).drop_first() =~= ev.subrange(3, 7));
    cur = apply_spec(cur, ev[2]);
    lemma_apply_all_step(cur, ev.subrange(3, 7));
    assert(ev.subrange(3, 7)[0] == ev[3]);
    assert(ev.subrange(3, 7).drop_first() =~= ev.subrange(4, 7));
    cur = apply_spec(cur, ev[3]);
    lemma_apply_all_step(cur, ev.subrange(4, 7));
    assert(ev.subrange(4, 7)[0] == ev[4]);
    assert(ev.subrange(4, 7).drop_first() =~= ev.subrange(5, 7));
    cur = apply_spec(cur, ev[4]);
    lemma_apply_all_step(cur, ev.subrange(5, 7));
    assert(ev.subrange(5, 7)[0] == ev[5]);
    assert(ev.subrange(5, 7).drop_first() =~= ev.subrange(6, 7));
    cur = apply_spec(cur, ev[5]);
    lemma_apply_all_step(cur, ev.subrange(6, 7));
    assert(ev.subrange(6, 7)[0] == ev[6]);
    assert(ev.subrange(6, 7).drop_first() =~= ev.subrange(7, 7));
    cur = apply_spec(cur, ev[6]);
    assert(ev.subrange(0, 7) =~= ev);
    assert(ev.subrange(7, 7) =~= Seq::<InputParameters<F>>::empty());
}

/// Law: replaying the startup events of `s` onto any state with the same
/// number of input strips reproduces `s`; only the schema version stays.
pub proof fn lemma_replay_reproduces<F>(s: AppStateView<F>, t: AppStateView<F>)
    requires
        t.mixer.inputs.len() == s.mixer.inputs.len(),
        s.mixer.inputs.len() <= usize::MAX,
    ensures
        apply_all(t, replay_spec(s)) == (AppStateView { version: t.version, ..s }),
{
    let a = reverb_replay(s.reverb);
    let b = echo_replay(s.echo);
    let c = compressor_replay(s.compressor);
    let d = strips_replay(s.mixer.inputs, s.mixer.inputs.len());
    let e = returns_replay(s.mixer);
    lemma_apply_all_concat(t, a + b + c + d, e);
    lemma_apply_all_concat(t, a + b + c, d);
    lemma_apply_all_concat(t, a + b, c);
    lemma_apply_all_concat(t, a, b);
    lemma_reverb_replay(t, s.reverb);
    let t1 = apply_all(t, a);
    lemma_echo_replay(t1, s.echo);
    let t2 = apply_all(t1, b);
    lemma_compressor_replay(t2, s.compressor);
    let t3 = apply_all(t2, c);
    lemma_strips_replay(t3, s.mixer.inputs, s.mixer.inputs.len());
    let t4 = apply_all(t3, d);
    assert(t4.mixer.inputs =~= s.mixer.inputs);
    lemma_returns_replay(t4, s.mixer);
}

impl<F: Copy> MixerSnapshot<F> {
    /// Mirror a mixer event. Events for strips that do not exist are ignored.
    pub fn apply(&mut self, event: MixerParam<F>)
        ensures
            final(self)@ == apply_mixer_spec(event, old(self)@),
    {
        match event {
            MixerParam::InputGainDb(i, v) => {
                if i < self.inputs.len() {
                    let mut s = self.inputs[i];
                    s.gain_db = v;
                    self.inputs.set(i, s);
                }
            },
            MixerParam::InputPan(i, v) => {
                if i < self.inputs.len() {
                    let mut s = self.inputs[i];
                    s.pan = v;
                    self.inputs.set(i, s);
                }
            },
            MixerParam::InputMute(i, v) => {
                if i < self.inputs.len() {
                    let mut s = self.inputs[i];
                    s.mute = v;
                    self.inputs.set(i, s);
                }
            },
            MixerParam::InputSendReverb(i, v) => {
                if i < self.inputs.len() {
                    let mut s = self.inputs[i];
                    s.send_reverb = v;
                    self.inputs.set(i, s);
                }
            },
            MixerParam::InputSendEcho(i, v) => {
                if i < self.inputs.len() {
                    let mut s = self.inputs[i];
                    s.send_echo = v;
                    self.inputs.set(i, s);
                }
            },
            MixerParam::InputSendPreFader(i, v) => {
                if i < self.inputs.len() {
                    let mut s = self.inputs[i];
                    s.send_pre_fader = v;
                    self.inputs.set(i, s);
                }
            },
            MixerParam::ReverbReturnGainDb(v) => self.reverb_return.gain_db = v,
            MixerParam::ReverbReturnPan(v) => self.reverb_return.pan = v,
            MixerParam::ReverbReturnMute(v) => self.reverb_return.mute = v,
            MixerParam::EchoReturnGainDb(v) => self.echo_return.gain_db = v,
            MixerParam::EchoReturnPan(v) => self.echo_return.pan = v,
            MixerParam::EchoReturnMute(v) => self.echo_return.mute = v,
            MixerParam::MasterGainDb(v) => self.master_gain_db = v,
        }
        assert(self@.inputs =~= apply_mixer_spec(event, old(self)@).inputs);
    }
}

/// The value of a float mixer target in the mixer settings `m`, or `None`
/// if its strip does not exist.
pub open spec fn mixer_float_read_spec<F>(id: MixerFloatId, m: MixerView<F>) -> Option<F> {
    match id {
        MixerFloatId::InputGainDb(i) => if i < m.inputs.len() {
            Some(m.inputs[i as int].gain_db)
        } else {
            None
        },
        MixerFloatId::InputPan(i) => if i < m.inputs.len() {
            Some(m.inputs[i as int].pan)
        } else {
            None
        },
        MixerFloatId::InputSendReverb(i) => if i < m.inputs.len() {
            Some(m.inputs[i as int].send_reverb)
        } else {
            None
        },
        MixerFloatId::InputSendEcho(i) => if i < m.inputs.len() {
            Some(m.inputs[i as int].send_echo)
        } else {
            None
        },
        MixerFloatId::ReverbReturnGainDb => Some(m.reverb_return.gain_db),
        MixerFloatId::ReverbReturnPan => Some(m.reverb_return.pan),
        MixerFloatId::EchoReturnGainDb => Some(m.echo_return.gain_db),
        MixerFloatId::EchoReturnPan => Some(m.echo_return.pan),
        MixerFloatId::MasterGainDb => Some(m.master_gain_db),
    }
}

impl MixerFloatId {
    /// This parameter's value in `snap`, or `None` if its strip does not exist.
    pub fn read<F: Copy>(self, snap: &MixerSnapshot<F>) -> (r: Option<F>)
        ensures
            r == mixer_float_read_spec(self, snap@),
    {
        match self {
            MixerFloatId::InputGainDb(i) => if i < snap.inputs.len() {
                Some(snap.inputs[i].gain_db)
            } else {
                None
            },
            MixerFloatId::InputPan(i) => if i < snap.inputs.len() {
                Some(snap.inputs[i].pan)
            } else {
                None
            },
            MixerFloatId::InputSendReverb(i) => if i < snap.inputs.len() {
                Some(snap.inputs[i].send_reverb)
            } else {
                None
            },
            MixerFloatId::InputSendEcho(i) => if i < snap.inputs.len() {
                Some(snap.inputs[i].send_echo)
            } else {
                None
            },
            MixerFloatId::ReverbReturnGainDb => Some(snap.reverb_return.gain_db),
            MixerFloatId::ReverbReturnPan => Some(snap.reverb_return.pan),
            MixerFloatId::EchoReturnGainDb => Some(snap.echo_return.gain_db),
            MixerFloatId::EchoReturnPan => Some(snap.echo_return.pan),
            MixerFloatId::MasterGainDb => Some(snap.master_gain_db),
        }
    }
}

/// The value of a bool mixer target in the mixer settings `m`, or `None`
/// if its strip does not exist.
pub open spec fn mixer_bool_read_spec<F>(id: MixerBoolId, m: MixerView<F>) -> Option<bool> {
    match id {
        MixerBoolId::InputMute(i) => if i < m.inputs.len() {
            Some(m.inputs[i as int].mute)
        } else {
            None
        },
        MixerBoolId::InputSendPreFader(i) => if i < m.inputs.len() {
            Some(m.inputs[i as int].send_pre_fader)
        } else {
            None
        },
        MixerBoolId::ReverbReturnMute => Some(m.reverb_return.mute),
        MixerBoolId::EchoReturnMute => Some(m.echo_return.mute),
    }
}

impl MixerBoolId {
    /// This parameter's value in `snap`, or `None` if its strip does not exist.
    pub fn read<F: Copy>(self, snap: &MixerSnapshot<F>) -> (r: Option<bool>)
        ensures
            r == mixer_bool_read_spec(self, snap@),
    {
        match self {
            MixerBoolId::InputMute(i) => if i < snap.inputs.len() {
                Some(snap.inputs[i].mute)
            } else {
                None
            },
            MixerBoolId::InputSendPreFader(i) => if i < snap.inputs.len() {
                Some(snap.inputs[i].send_pre_fader)
            } else {
                None
            },
            MixerBoolId::ReverbReturnMute => Some(snap.reverb_return.mute),
            MixerBoolId::EchoReturnMute => Some(snap.echo_return.mute),
        }
    }
}

/// Appends the events that reproduce strip `i`'s settings.
fn push_strip_events<F: Copy>(out: &mut Vec<InputParameters<F>>, i: usize, s: InputStripState<F>)
    ensures
        final(out)@ == old(out)@ + strip_replay(i, s),
{
    out.push(InputParameters::Mixer(MixerParam::InputGainDb(i, s.gain_db)));
    out.push(InputParameters::Mixer(MixerParam::InputPan(i, s.pan)));
    out.push(InputParameters::Mixer(MixerParam::InputMute(i, s.mute)));
    out.push(InputParameters::Mixer(MixerParam::InputSendReverb(i, s.send_reverb)));
    out.push(InputParameters::Mixer(MixerParam::InputSendEcho(i, s.send_echo)));
    out.push(InputParameters::Mixer(MixerParam::InputSendPreFader(i, s.send_pre_fader)));
    assert(final(out)@ =~= old(out)@ + strip_replay(i, s));
}

impl<F: Copy> AppState<F> {
    /// Mirror an event that was just pushed to the audio thread.
    pub fn apply(&mut self, event: InputParameters<F>)
        ensures
            final(self)@ == apply_spec(old(self)@, event),
    {
        match event {
            InputParameters::Reverb(p) => apply_reverb(p, &mut self.reverb),
            InputParameters::Echo(p) => apply_echo(p, &mut self.echo),
            InputParameters::Mixer(p) => self.mixer.apply(p),
            InputParameters::Compressor(p) => apply_compressor(p, &mut self.compressor),
            InputParameters::TapeDelay(_) => {},
        }
    }

    /// Force the mixer to exactly `num_inputs` strips by truncating or by
    /// padding with `fill`.
    pub fn align_inputs(&mut self, num_inputs: usize, fill: InputStripState<F>)
        ensures
            final(self)@ == (AppStateView {
                mixer: MixerView {
                    inputs: if num_inputs <= old(self)@.mixer.inputs.len() {
                        old(self)@.mixer.inputs.subrange(0, num_inputs as int)
                    } else {
                        old(self)@.mixer.inputs + Seq::new(
                            (num_inputs - old(self)@.mixer.inputs.len()) as nat,
                            |j: int| fill,
                        )
                    },
                    ..old(self)@.mixer
                },
                ..old(self)@
            }),
    {
        if num_inputs <= self.mixer.inputs.len() {
            self.mixer.inputs.truncate(num_inputs);
        } else {
            let ghost before = self.mixer.inputs@;
            while self.mixer.inputs.len() < num_inputs
                invariant
                    before.len() <= self.mixer.inputs.len() <= num_inputs,
                    self.mixer.inputs@ == before + Seq::new(
                        (self.mixer.inputs.len() - before.len()) as nat,
                        |j: int| fill,
                    ),
                    self.version == old(self).version,
                    self.reverb == old(self).reverb,
                    self.echo == old(self).echo,
                    self.compressor == old(self).compressor,
                    self.mixer.reverb_return == old(self).mixer.reverb_return,
                    self.mixer.echo_return == old(self).mixer.echo_return,
                    self.mixer.master_gain_db == old(self).mixer.master_gain_db,
                    before == old(self).mixer.inputs@,
                decreases num_inputs - self.mixer.inputs.len(),
            {
                let ghost prev = self.mixer.inputs@;
                self.mixer.inputs.push(fill);
                assert(self.mixer.inputs@ =~= before + Seq::new(
                    (self.mixer.inputs.len() - before.len()) as nat,
                    |j: int| fill,
                ));
            }
        }
        assert(self@.mixer.inputs =~= (if num_inputs <= old(self)@.mixer.inputs.len() {
            old(self)@.mixer.inputs.subrange(0, num_inputs as int)
        } else {
            old(self)@.mixer.inputs + Seq::new(
                (num_inputs - old(self)@.mixer.inputs.len()) as nat,
                |j: int| fill,
            )
        }));
    }

    /// The full sequence of parameter events that, consumed by the audio
    /// thread, reproduces this state. Used at startup.
    pub fn replay_events(&self) -> (out: Vec<InputParameters<F>>)
        ensures
            out@ == replay_spec(self@),
    {
        let mut out: Vec<InputParameters<F>> = Vec::new();
        let reverb_all = ReverbParamKind::all();
        let mut k: usize = 0;
        while k < reverb_all.len()
            invariant
                reverb_all@ == ReverbParamKind::spec_all(),
                k <= reverb_all.len(),
                out@ == reverb_replay(self.reverb).subrange(0, k as int),
            decreases reverb_all.len() - k,
        {
            let id = reverb_all[k];
            let v = id.read(&self.reverb);
            out.push(InputParameters::Reverb(id.build(v)));
            k = k + 1;
            assert(out@ =~= reverb_replay(self.reverb).subrange(0, k as int));
        }
        let ghost p1 = out@;
        assert(p1 =~= reverb_replay(self.reverb));
        let echo_all = EchoParamKind::all();
        k = 0;
        while k < echo_all.len()
            invariant
                echo_all@ == EchoParamKind::spec_all(),
                k <= echo_all.len(),
                out@ == p1 + echo_replay(self.echo).subrange(0, k as int),
            decreases echo_all.len() - k,
        {
            let id = echo_all[k];
            let v = id.read(&self.echo);
            out.push(InputParameters::Echo(id.build(v)));
            k = k + 1;
            assert(out@ =~= p1 + echo_replay(self.echo).subrange(0, k as int));
        }
        let ghost p2 = out@;
        assert(p2 =~= p1 + echo_replay(self.echo));
        let comp_all = CompressorParamKind::all();
        k = 0;
        while k < comp_all.len()
            invariant
                comp_all@ == CompressorParamKind::spec_all(),
                k <= comp_all.len(),
                out@ == p2 + compressor_replay(self.compressor).subrange(0, k as int),
            decreases comp_all.len() - k,
        {
            let id = comp_all[k];
            let v = id.read(&self.compressor);
            out.push(InputParameters::Compressor(id.build(v)));
            k = k + 1;
            assert(out@ =~= p2 + compressor_replay(self.compressor).subrange(0, k as int));
        }
        let ghost p3 = out@;
        assert(p3 =~= p2 + compressor_replay(self.compressor));
        let mut i: usize = 0;
        while i < self.mixer.inputs.len()
            invariant
                i <= self.mixer.inputs.len(),
                out@ == p3 + strips_replay(self.mixer.inputs@, i as nat),
            decreases self.mixer.inputs.len() - i,
        {
            let s = self.mixer.inputs[i];
            push_strip_events(&mut out, i, s);
            i = i + 1;
            assert(out@ =~= p3 + strips_replay(self.mixer.inputs@, i as nat));
        }
        out.push(InputParameters::Mixer(MixerParam::ReverbReturnGainDb(self.mixer.reverb_return.gain_db)));
        out.push(InputParameters::Mixer(MixerParam::ReverbReturnPan(self.mixer.reverb_return.pan)));
        out.push(InputParameters::Mixer(MixerParam::ReverbReturnMute(self.mixer.reverb_return.mute)));
        out.push(InputParameters::Mixer(MixerParam::EchoReturnGainDb(self.mixer.echo_return.gain_db)));
        out.push(InputParameters::Mixer(MixerParam::EchoReturnPan(self.mixer.echo_return.pan)));
        out.push(InputParameters::Mixer(MixerParam::EchoReturnMute(self.mixer.echo_return.mute)));
        out.push(InputParameters::Mixer(MixerParam::MasterGainDb(self.mixer.master_gain_db)));
        assert(out@ =~= replay_spec(self@));
        out
    }
}

/// Persisted state plus a dirty flag for the periodic saver.
pub struct PersistableState<F> {
    pub state: AppState<F>,
    pub dirty: bool,
}

impl<F: Copy> PersistableState<F> {
    /// Wraps a loaded state; nothing is dirty yet.
    pub fn new(state: AppState<F>) -> (p: Self)
        ensures
            p.state@ == state@,
            !p.dirty,
    {
        PersistableState { state, dirty: false }
    }

    /// Mirror an event and mark the state dirty.
    pub fn apply_and_mark_dirty(&mut self, event: InputParameters<F>)
        ensures
            final(self).state@ == apply_spec(old(self).state@, event),
            final(self).dirty,
    {
        self.state.apply(event);
        self.dirty = true;
    }
}

} // verus!
