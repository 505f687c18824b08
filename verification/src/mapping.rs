//! Control Change bindings: what each MIDI controller addresses, the default
//! mapping of a control surface, and the router that turns incoming
//! Control Change events into parameter targets.

use vstd::prelude::*;
use crate::mixer::{default_param_order, param_order, MixerBoolId, MixerFloatId, MixerParamId};
use crate::params::{EchoParamKind, FloatParams, ReverbParamKind};
use crate::parameters::InputParameters;

verus! {

/// What float-typed parameter a binding addresses.
#[derive(Debug, Clone, Copy, PartialEq, Eq, Structural)]
pub enum FloatTarget {
    Reverb(ReverbParamKind),
    Echo(EchoParamKind),
    Mixer(MixerFloatId),
}

impl FloatTarget {
    /// The event setting this target to `v`.
    pub open spec fn spec_into_param<V>(self, v: V) -> InputParameters<V> {
        match self {
            FloatTarget::Reverb(id) => InputParameters::Reverb(id.spec_build(v)),
            FloatTarget::Echo(id) => InputParameters::Echo(id.spec_build(v)),
            FloatTarget::Mixer(id) => InputParameters::Mixer(id.spec_build::<V>(v)),
        }
    }

    /// The event setting this target to `v`.
    pub fn into_param<V>(self, v: V) -> (p: InputParameters<V>)
        ensures
            p == self.spec_into_param(v),
    {
        match self {
            FloatTarget::Reverb(id) => InputParameters::Reverb(id.build(v)),
            FloatTarget::Echo(id) => InputParameters::Echo(id.build(v)),
            FloatTarget::Mixer(id) => InputParameters::Mixer(id.build(v)),
        }
    }
}

/// What bool-typed parameter a binding addresses.
#[derive(Debug, Clone, Copy, PartialEq, Eq, Structural)]
pub enum BoolTarget {
    Mixer(MixerBoolId),
}

impl BoolTarget {
    /// The event setting this target to `v`.
    pub open spec fn spec_into_param<V>(self, v: bool) -> InputParameters<V> {
        match self {
            BoolTarget::Mixer(id) => InputParameters::Mixer(id.spec_build::<V>(v)),
        }
    }

    /// The event setting this target to `v`.
    pub fn into_param<V>(self, v: bool) -> (p: InputParameters<V>)
        ensures
            p == self.spec_into_param::<V>(v),
    {
        match self {
            BoolTarget::Mixer(id) => InputParameters::Mixer(id.build(v)),
        }
    }
}

/// How a bool binding reads controller values.
#[derive(Debug, Clone, Copy, PartialEq, Eq, Structural)]
pub enum BoolMode {
    /// The controller keeps the state and sends 0 or 127; `value >= 64` is on.
    Latched,
    /// The controller sends momentary values; the internal state toggles on
    /// each rising edge (a low-to-high crossing of `threshold`).
    Toggle { threshold: u8 },
}

/// One Control Change binding. `C` is the curve that maps a 7-bit controller
/// value onto a float parameter's range.
#[derive(Debug, Clone, Copy)]
pub enum CcBinding<C> {
    Float { channel: u8, cc: u8, target: FloatTarget, curve: C },
    Bool { channel: u8, cc: u8, target: BoolTarget, mode: BoolMode },
}

/// True when binding `b` listens to controller `cc` on `channel`.
pub open spec fn binding_listens<C>(b: CcBinding<C>, channel: u8, cc: u8) -> bool {
    match b {
        CcBinding::Float { channel: c, cc: n, .. } => c == channel && n == cc,
        CcBinding::Bool { channel: c, cc: n, .. } => c == channel && n == cc,
    }
}

/// What a binding slot of the default mapping addresses.
pub enum Slot {
    Float(FloatTarget),
    Bool(BoolTarget),
}

/// The slot of a mixer parameter.
pub open spec fn mixer_slot(id: MixerParamId) -> Slot {
    match id {
        MixerParamId::Float(f) => Slot::Float(FloatTarget::Mixer(f)),
        MixerParamId::Bool(b) => Slot::Bool(BoolTarget::Mixer(b)),
    }
}

/// The slots of the default mapping, in order: the mixer in display order,
/// then every reverb parameter, then every echo parameter.
pub open spec fn default_slots(num_inputs: nat) -> Seq<Slot> {
    param_order(num_inputs).map_values(|id: MixerParamId| mixer_slot(id)) + ReverbParamKind::spec_all().map_values(
        |k: ReverbParamKind| Slot::Float(FloatTarget::Reverb(k)),
    ) + EchoParamKind::spec_all().map_values(|k: EchoParamKind| Slot::Float(FloatTarget::Echo(k)))
}

/// Binding `b` fills `slot` on channel 0 with controller number `cc`; a float
/// binding's curve is one that `curve_for` gives for its target, and a bool
/// binding is latched.
pub open spec fn fills_slot<C, F: Fn(FloatTarget) -> C>(b: CcBinding<C>, slot: Slot, cc: int, curve_for: F) -> bool {
    match slot {
        Slot::Float(t) => b matches CcBinding::Float { channel, cc: n, target, curve } && channel == 0 && n
            == cc && target == t && curve_for.ensures((t,), curve),
        Slot::Bool(t) => b matches CcBinding::Bool { channel, cc: n, target, mode } && channel == 0 && n
            == cc && target == t && mode == BoolMode::Latched,
    }
}

/// The float target of a reverb parameter.
fn reverb_target(k: ReverbParamKind) -> (t: FloatTarget)
    ensures
        t == FloatTarget::Reverb(k),
{
    FloatTarget::Reverb(k)
}

/// The float target of an echo parameter.
fn echo_target(k: EchoParamKind) -> (t: FloatTarget)
    ensures
        t == FloatTarget::Echo(k),
{
    FloatTarget::Echo(k)
}

/// Appends one float binding per parameter of `K`, numbering controllers on
/// from `*cc`.
fn append_float_params<K: FloatParams, C, W: Fn(K) -> FloatTarget, F: Fn(FloatTarget) -> C>(
    bindings: &mut Vec<CcBinding<C>>,
    cc: &mut u8,
    channel: u8,
    wrap: W,
    curve_for: &F,
)
    requires
        *old(cc) + K::spec_all().len() <= 255,
        old(bindings).len() == *old(cc),
        forall|k: K| wrap.requires((k,)),
        forall|t: FloatTarget| curve_for.requires((t,)),
    ensures
        *final(cc) == *old(cc) + K::spec_all().len(),
        final(bindings).len() == *final(cc),
        forall|j: int| 0 <= j < old(bindings).len() ==> final(bindings)[j] == old(bindings)[j],
        forall|j: int|
            0 <= j < K::spec_all().len() ==> {
                let b = #[trigger] final(bindings)[old(bindings).len() + j];
                b matches CcBinding::Float { channel: c, cc: n, target, curve } && c == channel && n
                    == old(bindings).len() + j + 1 && wrap.ensures((K::spec_all()[j],), target)
                    && curve_for.ensures((target,), curve)
            },
{
    let all = K::all();
    let mut i: usize = 0;
    while i < all.len()
        invariant
            all@ == K::spec_all(),
            i <= all.len(),
            *old(cc) + all.len() <= 255,
            old(bindings).len() == *old(cc),
            *cc == *old(cc) + i,
            bindings.len() == *cc,
            forall|k: K| wrap.requires((k,)),
            forall|t: FloatTarget| curve_for.requires((t,)),
            forall|j: int| 0 <= j < old(bindings).len() ==> bindings[j] == old(bindings)[j],
            forall|j: int|
                0 <= j < i ==> {
                    let b = #[trigger] bindings[old(bindings).len() + j];
                    b matches CcBinding::Float { channel: c, cc: n, target, curve } && c == channel
                        && n == old(bindings).len() + j + 1 && wrap.ensures((K::spec_all()[j],), target)
                        && curve_for.ensures((target,), curve)
                },
        decreases all.len() - i,
    {
        let id = all[i];
        *cc = *cc + 1;
        let target = wrap(id);
        let curve = curve_for(target);
        bindings.push(CcBinding::Float { channel, cc: *cc, target, curve });
        i = i + 1;
    }
}

/// Builds the default mapping: channel 0, controllers numbered from 1, the
/// mixer first (per-strip block, FX returns, master), then the reverb
/// parameters, then the echo parameters. Float bindings take the curve that
/// `curve_for` gives for their target; bool bindings are latched.
pub fn default_mapping<C, F: Fn(FloatTarget) -> C>(num_inputs: usize, curve_for: F) -> (bindings: Vec<
    CcBinding<C>,
>)
    requires
        6 * num_inputs + 21 <= 255,
        forall|t: FloatTarget| curve_for.requires((t,)),
    ensures
        bindings.len() == default_slots(num_inputs as nat).len(),
        bindings.len() == 6 * num_inputs + 21,
        forall|j: int|
            0 <= j < bindings.len() ==> fills_slot(
                #[trigger] bindings[j],
                default_slots(num_inputs as nat)[j],
                j + 1,
                curve_for,
            ),
{
    let channel: u8 = 0;
    let mut bindings: Vec<CcBinding<C>> = Vec::new();
    let mut cc_num: u8 = 0;
    let order = default_param_order(num_inputs);
    proof {
        crate::mixer::lemma_param_order_layout(num_inputs as nat);
    }
    let ghost mixer_slots = param_order(num_inputs as nat).map_values(|id: MixerParamId| mixer_slot(id));
    let mut i: usize = 0;
    while i < order.len()
        invariant
            order@ == param_order(num_inputs as nat),
            order.len() == 6 * num_inputs + 7,
            6 * num_inputs + 21 <= 255,
            mixer_slots == param_order(num_inputs as nat).map_values(|id: MixerParamId| mixer_slot(id)),
            i <= order.len(),
            cc_num == i,
            bindings.len() == i,
            channel == 0,
            forall|t: FloatTarget| curve_for.requires((t,)),
            forall|j: int| 0 <= j < i ==> fills_slot(#[trigger] bindings[j], mixer_slots[j], j + 1, curve_for),
        decreases order.len() - i,
    {
        cc_num = cc_num + 1;
        match order[i] {
            MixerParamId::Float(f) => {
                let target = FloatTarget::Mixer(f);
                let curve = curve_for(target);
                bindings.push(CcBinding::Float { channel, cc: cc_num, target, curve });
            },
            MixerParamId::Bool(b) => {
                bindings.push(
                    CcBinding::Bool { channel, cc: cc_num, target: BoolTarget::Mixer(b), mode: BoolMode::Latched },
                );
            },
        }
        i = i + 1;
    }
    let ghost after_mixer = bindings@;
    append_float_params(
        &mut bindings,
        &mut cc_num,
        channel,
        reverb_target,
        &curve_for,
    );
    let ghost after_reverb = bindings@;
    append_float_params(
        &mut bindings,
        &mut cc_num,
        channel,
        echo_target,
        &curve_for,
    );
    proof {
        let slots = default_slots(num_inputs as nat);
        let m = mixer_slots.len();
        let r = ReverbParamKind::spec_all().len();
        assert(r == 8);
        assert(EchoParamKind::spec_all().len() == 6);
        assert forall|j: int| 0 <= j < bindings.len() implies fills_slot(
            #[trigger] bindings[j],
            slots[j],
            j + 1,
            curve_for,
        ) by {
            if j < m {
                assert(bindings[j] == after_reverb[j]);
                assert(after_reverb[j] == after_mixer[j]);
                assert(slots[j] == mixer_slots[j]);
            } else if j < m + r {
                assert(bindings[j] == after_reverb[j]);
                assert(after_reverb[m + (j - m)] == after_reverb[j]);
                assert(slots[j] == Slot::Float(FloatTarget::Reverb(ReverbParamKind::spec_all()[j - m])));
            } else {
                assert(bindings[(m + r) + (j - m - r)] == bindings[j]);
                assert(slots[j] == Slot::Float(FloatTarget::Echo(EchoParamKind::spec_all()[j - m - r])));
            }
        }
    }
    bindings
}

/// Per-binding state of the router, used by toggle bindings.
#[derive(Debug, Clone, Copy, PartialEq, Eq, Structural)]
pub struct RuntimeState {
    /// The last controller value this binding saw.
    pub last_cc_value: u8,
    /// The current toggled state.
    pub toggle_state: bool,
}

/// What a routed Control Change event asks for.
#[derive(Debug, Clone, Copy)]
pub enum RoutedCc<C> {
    /// Set `target` to the value that `curve` maps controller value `value` to.
    Float { target: FloatTarget, curve: C, value: u8 },
    /// Set `target` to `on`.
    Bool { target: BoolTarget, on: bool },
}

/// The index of the first binding at or after `start` that listens to
/// controller `cc` on `channel`.
pub open spec fn find_binding<C>(bindings: Seq<CcBinding<C>>, channel: u8, cc: u8, start: int) -> Option<int>
    decreases bindings.len() - start,
{
    if start < 0 || start >= bindings.len() {
        None
    } else if binding_listens(bindings[start], channel, cc) {
        Some(start)
    } else {
        find_binding(bindings, channel, cc, start + 1)
    }
}

/// Routing one Control Change event: the new per-binding states and the result.
pub open spec fn route_spec<C>(
    bindings: Seq<CcBinding<C>>,
    states: Seq<RuntimeState>,
    channel: u8,
    cc: u8,
    value: u8,
) -> (Seq<RuntimeState>, Option<RoutedCc<C>>) {
    match find_binding(bindings, channel, cc, 0) {
        None => (states, None),
        Some(i) => match bindings[i] {
            CcBinding::Float { target, curve, .. } => (states, Some(RoutedCc::Float { target, curve, value })),
            CcBinding::Bool { target, mode, .. } => match mode {
                BoolMode::Latched => (states, Some(RoutedCc::Bool { target, on: value >= 64 })),
                BoolMode::Toggle { threshold } => {
                    let st = states[i];
                    let rising = value >= threshold && !(st.last_cc_value >= threshold);
                    let toggled = if rising {
                        !st.toggle_state
                    } else {
                        st.toggle_state
                    };
                    (
                        states.update(i, RuntimeState { last_cc_value: value, toggle_state: toggled }),
                        if rising {
                            Some(RoutedCc::Bool { target, on: toggled })
                        } else {
                            None
                        },
                    )
                },
            },
        },
    }
}

/// Routes incoming Control Change events to parameter targets. Holds
/// per-binding state for toggle edge detection and the toggle latch.
pub struct CcRouter<C> {
    bindings: Vec<CcBinding<C>>,
    state: Vec<RuntimeState>,
}

impl<C: Copy> CcRouter<C> {
    /// The bindings, in priority order.
    pub closed spec fn spec_bindings(&self) -> Seq<CcBinding<C>> {
        self.bindings@
    }

    /// The per-binding states.
    pub closed spec fn spec_states(&self) -> Seq<RuntimeState> {
        self.state@
    }

    /// One state per binding.
    pub open spec fn wf(&self) -> bool {
        self.spec_states().len() == self.spec_bindings().len()
    }

    /// A router over `bindings`, every toggle off and every last value 0.
    pub fn new(bindings: Vec<CcBinding<C>>) -> (r: Self)
        ensures
            r.wf(),
            r.spec_bindings() == bindings@,
            forall|i: int|
                0 <= i < r.spec_states().len() ==> #[trigger] r.spec_states()[i] == (RuntimeState {
                    last_cc_value: 0,
                    toggle_state: false,
                }),
    {
        let len = bindings.len();
        let mut state: Vec<RuntimeState> = Vec::new();
        let mut i: usize = 0;
        while i < len
            invariant
                i <= len,
                state.len() == i,
                forall|j: int|
                    0 <= j < i ==> #[trigger] state@[j] == (RuntimeState { last_cc_value: 0, toggle_state: false }),
            decreases len - i,
        {
            state.push(RuntimeState { last_cc_value: 0, toggle_state: false });
            i = i + 1;
        }
        CcRouter { bindings, state }
    }

    /// Route one Control Change event. The first binding listening to
    /// `(channel, cc)` decides: a float binding asks for its curve applied to
    /// `value`; a latched bool binding asks for `value >= 64`; a toggle
    /// binding flips its state on a rising edge and reports it, and reports
    /// nothing otherwise. With no listening binding nothing is reported.
    pub fn route(&mut self, channel: u8, cc: u8, value: u8) -> (r: Option<RoutedCc<C>>)
        requires
            old(self).wf(),
        ensures
            final(self).wf(),
            final(self).spec_bindings() == old(self).spec_bindings(),
            (final(self).spec_states(), r) == route_spec(
                old(self).spec_bindings(),
                old(self).spec_states(),
                channel,
                cc,
                value,
            ),
    {
        let ghost bs = self.bindings@;
        let mut i: usize = 0;
        while i < self.bindings.len()
            invariant
                bs == self.bindings@,
                self.state@ == old(self).state@,
                self.bindings@ == old(self).bindings@,
                self.state.len() == self.bindings.len(),
                i <= self.bindings.len(),
                find_binding(bs, channel, cc, 0) == find_binding(bs, channel, cc, i as int),
            decreases self.bindings.len() - i,
        {
            match &self.bindings[i] {
                CcBinding::Float { channel: c, cc: n, target, curve } => {
                    if *c == channel && *n == cc {
                        return Some(RoutedCc::Float { target: *target, curve: *curve, value });
                    }
                },
                CcBinding::Bool { channel: c, cc: n, target, mode } => {
                    if *c == channel && *n == cc {
                        let target = *target;
                        match *mode {
                            BoolMode::Latched => {
                                return Some(RoutedCc::Bool { target, on: value >= 64 });
                            },
                            BoolMode::Toggle { threshold } => {
                                let st = self.state[i];
                                let now_high = value >= threshold;
                                let was_high = st.last_cc_value >= threshold;
                                let rising = now_high && !was_high;
                                let toggled = if rising {
                                    !st.toggle_state
                                } else {
                                    st.toggle_state
                                };
                                self.state.set(i, RuntimeState { last_cc_value: value, toggle_state: toggled });
                                if rising {
                                    return Some(RoutedCc::Bool { target, on: toggled });
                                } else {
                                    return None;
                                }
                            },
                        }
                    }
                },
            }
            i = i + 1;
        }
        None
    }
}

/// Law: a toggle binding reports only on rising edges. Holding the
/// controller high after a report, or releasing it, reports nothing; the
/// next press reports the opposite state, so two presses restore the
/// starting toggle state.
pub proof fn lemma_toggle_rising_edge_only<C>(
    bindings: Seq<CcBinding<C>>,
    states: Seq<RuntimeState>,
    channel: u8,
    cc: u8,
    i: int,
    threshold: u8,
    high: u8,
    low: u8,
)
    requires
        states.len() == bindings.len(),
        find_binding(bindings, channel, cc, 0) == Some(i),
        bindings[i] matches CcBinding::Bool { mode, .. } && mode == (BoolMode::Toggle { threshold }),
        high >= threshold,
        low < threshold,
        states[i].last_cc_value < threshold,
    ensures
        ({
            let (s1, r1) = route_spec(bindings, states, channel, cc, high);
            let (s2, r2) = route_spec(bindings, s1, channel, cc, high);
            let (s3, r3) = route_spec(bindings, s2, channel, cc, low);
            let (s4, r4) = route_spec(bindings, s3, channel, cc, high);
            &&& r1 matches Some(RoutedCc::Bool { on, .. }) && on == !states[i].toggle_state
            &&& r2 is None
            &&& r3 is None
            &&& r4 matches Some(RoutedCc::Bool { on, .. }) && on == states[i].toggle_state
            &&& s4[i].toggle_state == states[i].toggle_state
        }),
{
    lemma_find_in_range(bindings, channel, cc, 0);
    let (s1, r1) = route_spec(bindings, states, channel, cc, high);
    assert(s1[i].last_cc_value == high);
    let (s2, r2) = route_spec(bindings, s1, channel, cc, high);
    assert(s2[i] == s1[i]);
    let (s3, r3) = route_spec(bindings, s2, channel, cc, low);
    assert(s3[i].last_cc_value == low);
    assert(s3[i].toggle_state == !states[i].toggle_state);
}

/// A found binding index is a valid index at or after `start`.
pub proof fn lemma_find_in_range<C>(bindings: Seq<CcBinding<C>>, channel: u8, cc: u8, start: int)
    ensures
        find_binding(bindings, channel, cc, start) matches Some(i) ==> start <= i < bindings.len()
            && binding_listens(bindings[i], channel, cc),
    decreases bindings.len() - start,
{
    if 0 <= start < bindings.len() && !binding_listens(bindings[start], channel, cc) {
        lemma_find_in_range(bindings, channel, cc, start + 1);
    }
}

/// Law: when the first binding listening to `(channel, cc)` is a float
/// binding, routing reports that binding's target and curve with the
/// incoming controller value unchanged, and changes no state.
pub proof fn lemma_float_binding_passes_value<C>(
    bindings: Seq<CcBinding<C>>,
    states: Seq<RuntimeState>,
    channel: u8,
    cc: u8,
    i: int,
    value: u8,
)
    requires
        0 <= i < bindings.len(),
        binding_listens(bindings[i], channel, cc),
        forall|k: int| 0 <= k < i ==> !binding_listens(#[trigger] bindings[k], channel, cc),
        bindings[i] is Float,
    ensures
        route_spec(bindings, states, channel, cc, value).0 == states,
        route_spec(bindings, states, channel, cc, value).1 == Some(
            RoutedCc::Float { target: bindings[i]->Float_target, curve: bindings[i]->Float_curve, value },
        ),
{
    lemma_find_first(bindings, channel, cc, 0, i);
}

/// Law: a latched binding reports `value >= 64` and leaves every state unchanged.
pub proof fn lemma_latched_threshold<C>(
    bindings: Seq<CcBinding<C>>,
    states: Seq<RuntimeState>,
    channel: u8,
    cc: u8,
    i: int,
    value: u8,
)
    requires
        find_binding(bindings, channel, cc, 0) == Some(i),
        bindings[i] matches CcBinding::Bool { mode, .. } && mode == BoolMode::Latched,
    ensures
        route_spec(bindings, states, channel, cc, value).0 == states,
        route_spec(bindings, states, channel, cc, value).1 matches Some(RoutedCc::Bool { on, .. }) && on == (
        value >= 64),
{
}

/// Law: an event that no binding listens to routes to nothing and changes no state.
pub proof fn lemma_unmatched_routes_nothing<C>(
    bindings: Seq<CcBinding<C>>,
    states: Seq<RuntimeState>,
    channel: u8,
    cc: u8,
    value: u8,
)
    requires
        forall|j: int| 0 <= j < bindings.len() ==> !binding_listens(#[trigger] bindings[j], channel, cc),
    ensures
        route_spec(bindings, states, channel, cc, value) == (states, None::<RoutedCc<C>>),
{
    lemma_find_none(bindings, channel, cc, 0);
}

/// With no binding listening, the search finds nothing.
proof fn lemma_find_none<C>(bindings: Seq<CcBinding<C>>, channel: u8, cc: u8, start: int)
    requires
        0 <= start,
        forall|j: int| 0 <= j < bindings.len() ==> !binding_listens(#[trigger] bindings[j], channel, cc),
    ensures
        find_binding(bindings, channel, cc, start) is None,
    decreases bindings.len() - start,
{
    if start < bindings.len() {
        assert(!binding_listens(bindings[start], channel, cc));
        lemma_find_none(bindings, channel, cc, start + 1);
    }
}

/// The search from `start` finds `j` when `j` listens and nothing between
/// does.
proof fn lemma_find_first<C>(bindings: Seq<CcBinding<C>>, channel: u8, cc: u8, start: int, j: int)
    requires
        0 <= start <= j < bindings.len(),
        binding_listens(bindings[j], channel, cc),
        forall|k: int| start <= k < j ==> !binding_listens(#[trigger] bindings[k], channel, cc),
    ensures
        find_binding(bindings, channel, cc, start) == Some(j),
    decreases j - start,
{
    if start < j {
        lemma_find_first(bindings, channel, cc, start + 1, j);
    }
}

/// Law: in the default mapping every slot is reachable: controller `j + 1`
/// on channel 0 selects binding `j`, the one that fills slot `j`.
pub proof fn lemma_default_mapping_reaches_every_slot<C, F: Fn(FloatTarget) -> C>(
    bindings: Seq<CcBinding<C>>,
    num_inputs: nat,
    curve_for: F,
)
    requires
        6 * num_inputs + 21 <= 255,
        bindings.len() == 6 * num_inputs + 21,
        forall|j: int|
            0 <= j < bindings.len() ==> fills_slot(
                #[trigger] bindings[j],
                default_slots(num_inputs)[j],
                j + 1,
                curve_for,
            ),
    ensures
        forall|j: int| 0 <= j < bindings.len() ==> find_binding(bindings, 0, (j + 1) as u8, 0) == Some(j),
{
    assert forall|j: int| 0 <= j < bindings.len() implies find_binding(bindings, 0, (j + 1) as u8, 0) == Some(j) by {
        assert(fills_slot(bindings[j], default_slots(num_inputs)[j], j + 1, curve_for));
        assert forall|k: int| 0 <= k < j implies !binding_listens(#[trigger] bindings[k], 0, (j + 1) as u8) by {
            assert(fills_slot(bindings[k], default_slots(num_inputs)[k], k + 1, curve_for));
        }
        lemma_find_first(bindings, 0, (j + 1) as u8, 0, j);
    }
}

} // verus!
