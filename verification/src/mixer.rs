//! Mixer parameter identifiers, their OSC addresses, the value-carrying mixer
//! events and the display order of every mixer parameter.

use vstd::prelude::*;
use vstd::string::*;
use crate::text::{decimal, push_decimal};

verus! {

/// Value-carrying mixer event; float-typed values have type `V`.
#[derive(Debug, Clone, Copy)]
pub enum MixerParam<V> {
    InputGainDb(usize, V),
    InputPan(usize, V),
    InputMute(usize, bool),
    InputSendReverb(usize, V),
    InputSendEcho(usize, V),
    InputSendPreFader(usize, bool),
    ReverbReturnGainDb(V),
    ReverbReturnPan(V),
    ReverbReturnMute(bool),
    EchoReturnGainDb(V),
    EchoReturnPan(V),
    EchoReturnMute(bool),
    MasterGainDb(V),
}

impl<V: Copy> MixerParam<V> {
    /// The float value this event carries; `None` for a switch.
    pub open spec fn spec_number(self) -> Option<V> {
        match self {
            MixerParam::InputGainDb(i, v) => Some(v),
            MixerParam::InputPan(i, v) => Some(v),
            MixerParam::InputMute(i, v) => None,
            MixerParam::InputSendReverb(i, v) => Some(v),
            MixerParam::InputSendEcho(i, v) => Some(v),
            MixerParam::InputSendPreFader(i, v) => None,
            MixerParam::ReverbReturnGainDb(v) => Some(v),
            MixerParam::ReverbReturnPan(v) => Some(v),
            MixerParam::ReverbReturnMute(v) => None,
            MixerParam::EchoReturnGainDb(v) => Some(v),
            MixerParam::EchoReturnPan(v) => Some(v),
            MixerParam::EchoReturnMute(v) => None,
            MixerParam::MasterGainDb(v) => Some(v),
        }
    }

    /// The float value this event carries; `None` for a switch.
    pub fn number(&self) -> (r: Option<V>)
        ensures
            r == self.spec_number(),
    {
        match self {
            MixerParam::InputGainDb(_, v) => Some(*v),
            MixerParam::InputPan(_, v) => Some(*v),
            MixerParam::InputMute(_, v) => None,
            MixerParam::InputSendReverb(_, v) => Some(*v),
            MixerParam::InputSendEcho(_, v) => Some(*v),
            MixerParam::InputSendPreFader(_, v) => None,
            MixerParam::ReverbReturnGainDb(v) => Some(*v),
            MixerParam::ReverbReturnPan(v) => Some(*v),
            MixerParam::ReverbReturnMute(v) => None,
            MixerParam::EchoReturnGainDb(v) => Some(*v),
            MixerParam::EchoReturnPan(v) => Some(*v),
            MixerParam::EchoReturnMute(v) => None,
            MixerParam::MasterGainDb(v) => Some(*v),
        }
    }

    /// The same event with its float value replaced by `w`; a switch keeps
    /// its state.
    pub open spec fn spec_with_number<W>(self, w: W) -> MixerParam<W> {
        match self {
            MixerParam::InputGainDb(i, v) => MixerParam::InputGainDb(i, w),
            MixerParam::InputPan(i, v) => MixerParam::InputPan(i, w),
            MixerParam::InputMute(i, v) => MixerParam::InputMute(i, v),
            MixerParam::InputSendReverb(i, v) => MixerParam::InputSendReverb(i, w),
            MixerParam::InputSendEcho(i, v) => MixerParam::InputSendEcho(i, w),
            MixerParam::InputSendPreFader(i, v) => MixerParam::InputSendPreFader(i, v),
            MixerParam::ReverbReturnGainDb(v) => MixerParam::ReverbReturnGainDb(w),
            MixerParam::ReverbReturnPan(v) => MixerParam::ReverbReturnPan(w),
            MixerParam::ReverbReturnMute(v) => MixerParam::ReverbReturnMute(v),
            MixerParam::EchoReturnGainDb(v) => MixerParam::EchoReturnGainDb(w),
            MixerParam::EchoReturnPan(v) => MixerParam::EchoReturnPan(w),
            MixerParam::EchoReturnMute(v) => MixerParam::EchoReturnMute(v),
            MixerParam::MasterGainDb(v) => MixerParam::MasterGainDb(w),
        }
    }

    /// The same event with its float value replaced by `w`; a switch keeps
    /// its state.
    pub fn with_number<W>(self, w: W) -> (r: MixerParam<W>)
        ensures
            r == self.spec_with_number(w),
    {
        match self {
            MixerParam::InputGainDb(i, v) => MixerParam::InputGainDb(i, w),
            MixerParam::InputPan(i, v) => MixerParam::InputPan(i, w),
            MixerParam::InputMute(i, v) => MixerParam::InputMute(i, v),
            MixerParam::InputSendReverb(i, v) => MixerParam::InputSendReverb(i, w),
            MixerParam::InputSendEcho(i, v) => MixerParam::InputSendEcho(i, w),
            MixerParam::InputSendPreFader(i, v) => MixerParam::InputSendPreFader(i, v),
            MixerParam::ReverbReturnGainDb(v) => MixerParam::ReverbReturnGainDb(w),
            MixerParam::ReverbReturnPan(v) => MixerParam::ReverbReturnPan(w),
            MixerParam::ReverbReturnMute(v) => MixerParam::ReverbReturnMute(v),
            MixerParam::EchoReturnGainDb(v) => MixerParam::EchoReturnGainDb(w),
            MixerParam::EchoReturnPan(v) => MixerParam::EchoReturnPan(w),
            MixerParam::EchoReturnMute(v) => MixerParam::EchoReturnMute(v),
            MixerParam::MasterGainDb(v) => MixerParam::MasterGainDb(w),
        }
    }
}

/// `/mixer/input/{i}` followed by `suffix`.
fn input_path(i: usize, suffix: &str) -> (r: String)
    ensures
        r@ == "/mixer/input/"@ + decimal(i as nat) + suffix@,
{
    let mut s = String::from_str("/mixer/input/");
    push_decimal(&mut s, i);
    s.append(suffix);
    s
}

/// Float-typed mixer targets (kind only, no value). Strip-indexed targets
/// carry the strip index.
#[derive(Debug, Clone, Copy, PartialEq, Eq, Structural)]
pub enum MixerFloatId {
    InputGainDb(usize),
    InputPan(usize),
    InputSendReverb(usize),
    InputSendEcho(usize),
    ReverbReturnGainDb,
    ReverbReturnPan,
    EchoReturnGainDb,
    EchoReturnPan,
    MasterGainDb,
}

impl MixerFloatId {
    /// The mixer event setting this target to `value`.
    pub open spec fn spec_build<V>(self, value: V) -> MixerParam<V> {
        match self {
            MixerFloatId::InputGainDb(i) => MixerParam::InputGainDb(i, value),
            MixerFloatId::InputPan(i) => MixerParam::InputPan(i, value),
            MixerFloatId::InputSendReverb(i) => MixerParam::InputSendReverb(i, value),
            MixerFloatId::InputSendEcho(i) => MixerParam::InputSendEcho(i, value),
            MixerFloatId::ReverbReturnGainDb => MixerParam::ReverbReturnGainDb(value),
            MixerFloatId::ReverbReturnPan => MixerParam::ReverbReturnPan(value),
            MixerFloatId::EchoReturnGainDb => MixerParam::EchoReturnGainDb(value),
            MixerFloatId::EchoReturnPan => MixerParam::EchoReturnPan(value),
            MixerFloatId::MasterGainDb => MixerParam::MasterGainDb(value),
        }
    }

    /// Construct the mixer event setting this target to `value`.
    pub fn build<V>(self, value: V) -> (p: MixerParam<V>)
        ensures
            p == self.spec_build::<V>(value),
    {
        match self {
            MixerFloatId::InputGainDb(i) => MixerParam::InputGainDb(i, value),
            MixerFloatId::InputPan(i) => MixerParam::InputPan(i, value),
            MixerFloatId::InputSendReverb(i) => MixerParam::InputSendReverb(i, value),
            MixerFloatId::InputSendEcho(i) => MixerParam::InputSendEcho(i, value),
            MixerFloatId::ReverbReturnGainDb => MixerParam::ReverbReturnGainDb(value),
            MixerFloatId::ReverbReturnPan => MixerParam::ReverbReturnPan(value),
            MixerFloatId::EchoReturnGainDb => MixerParam::EchoReturnGainDb(value),
            MixerFloatId::EchoReturnPan => MixerParam::EchoReturnPan(value),
            MixerFloatId::MasterGainDb => MixerParam::MasterGainDb(value),
        }
    }

    /// Full OSC address of this target.
    pub open spec fn spec_osc_path(self) -> Seq<char> {
        match self {
            MixerFloatId::InputGainDb(i) => "/mixer/input/"@ + decimal(i as nat) + "/gain_db"@,
            MixerFloatId::InputPan(i) => "/mixer/input/"@ + decimal(i as nat) + "/pan"@,
            MixerFloatId::InputSendReverb(i) => "/mixer/input/"@ + decimal(i as nat) + "/send_reverb"@,
            MixerFloatId::InputSendEcho(i) => "/mixer/input/"@ + decimal(i as nat) + "/send_echo"@,
            MixerFloatId::ReverbReturnGainDb => "/mixer/reverb_return/gain_db"@,
            MixerFloatId::ReverbReturnPan => "/mixer/reverb_return/pan"@,
            MixerFloatId::EchoReturnGainDb => "/mixer/echo_return/gain_db"@,
            MixerFloatId::EchoReturnPan => "/mixer/echo_return/pan"@,
            MixerFloatId::MasterGainDb => "/mixer/master/gain_db"@,
        }
    }

    /// Full OSC address of this target, such as `/mixer/input/0/pan`.
    pub fn osc_path(self) -> (r: String)
        ensures
            r@ == self.spec_osc_path(),
    {
        match self {
            MixerFloatId::InputGainDb(i) => input_path(i, "/gain_db"),
            MixerFloatId::InputPan(i) => input_path(i, "/pan"),
            MixerFloatId::InputSendReverb(i) => input_path(i, "/send_reverb"),
            MixerFloatId::InputSendEcho(i) => input_path(i, "/send_echo"),
            MixerFloatId::ReverbReturnGainDb => String::from_str("/mixer/reverb_return/gain_db"),
            MixerFloatId::ReverbReturnPan => String::from_str("/mixer/reverb_return/pan"),
            MixerFloatId::EchoReturnGainDb => String::from_str("/mixer/echo_return/gain_db"),
            MixerFloatId::EchoReturnPan => String::from_str("/mixer/echo_return/pan"),
            MixerFloatId::MasterGainDb => String::from_str("/mixer/master/gain_db"),
        }
    }
}

/// Bool-typed mixer targets (kind only, no value).
#[derive(Debug, Clone, Copy, PartialEq, Eq, Structural)]
pub enum MixerBoolId {
    InputMute(usize),
    InputSendPreFader(usize),
    ReverbReturnMute,
    EchoReturnMute,
}

impl MixerBoolId {
    /// The mixer event setting this target to `value`.
    pub open spec fn spec_build<V>(self, value: bool) -> MixerParam<V> {
        match self {
            MixerBoolId::InputMute(i) => MixerParam::InputMute(i, value),
            MixerBoolId::InputSendPreFader(i) => MixerParam::InputSendPreFader(i, value),
            MixerBoolId::ReverbReturnMute => MixerParam::ReverbReturnMute(value),
            MixerBoolId::EchoReturnMute => MixerParam::EchoReturnMute(value),
        }
    }

    /// Construct the mixer event setting this target to `value`.
    pub fn build<V>(self, value: bool) -> (p: MixerParam<V>)
        ensures
            p == self.spec_build::<V>(value),
    {
        match self {
            MixerBoolId::InputMute(i) => MixerParam::InputMute(i, value),
            MixerBoolId::InputSendPreFader(i) => MixerParam::InputSendPreFader(i, value),
            MixerBoolId::ReverbReturnMute => MixerParam::ReverbReturnMute(value),
            MixerBoolId::EchoReturnMute => MixerParam::EchoReturnMute(value),
        }
    }

    /// Full OSC address of this target.
    pub open spec fn spec_osc_path(self) -> Seq<char> {
        match self {
            MixerBoolId::InputMute(i) => "/mixer/input/"@ + decimal(i as nat) + "/mute"@,
            MixerBoolId::InputSendPreFader(i) => "/mixer/input/"@ + decimal(i as nat) + "/send_pre_fader"@,
            MixerBoolId::ReverbReturnMute => "/mixer/reverb_return/mute"@,
            MixerBoolId::EchoReturnMute => "/mixer/echo_return/mute"@,
        }
    }

    /// Full OSC address of this target, such as `/mixer/input/0/pan`.
    pub fn osc_path(self) -> (r: String)
        ensures
            r@ == self.spec_osc_path(),
    {
        match self {
            MixerBoolId::InputMute(i) => input_path(i, "/mute"),
            MixerBoolId::InputSendPreFader(i) => input_path(i, "/send_pre_fader"),
            MixerBoolId::ReverbReturnMute => String::from_str("/mixer/reverb_return/mute"),
            MixerBoolId::EchoReturnMute => String::from_str("/mixer/echo_return/mute"),
        }
    }
}

impl MixerBoolId {
    /// Default value of every bool mixer target: off.
    pub fn default_value(self) -> (r: bool)
        ensures
            r == false,
    {
        false
    }
}

/// Either a float-id or a bool-id mixer target.
#[derive(Debug, Clone, Copy, PartialEq, Eq, Structural)]
pub enum MixerParamId {
    Float(MixerFloatId),
    Bool(MixerBoolId),
}

/// The six targets of input strip `i`, in display order.
pub open spec fn strip_ids(i: usize) -> Seq<MixerParamId> {
    seq![
        MixerParamId::Float(MixerFloatId::InputGainDb(i)),
        MixerParamId::Float(MixerFloatId::InputPan(i)),
        MixerParamId::Float(MixerFloatId::InputSendReverb(i)),
        MixerParamId::Float(MixerFloatId::InputSendEcho(i)),
        MixerParamId::Bool(MixerBoolId::InputMute(i)),
        MixerParamId::Bool(MixerBoolId::InputSendPreFader(i)),
    ]
}

/// The targets of strips `0..n`, strip by strip.
pub open spec fn strips_ids(n: nat) -> Seq<MixerParamId>
    decreases n,
{
    if n == 0 {
        Seq::empty()
    } else {
        strips_ids((n - 1) as nat) + strip_ids((n - 1) as usize)
    }
}

/// The FX-return and master targets, in display order.
pub open spec fn return_ids() -> Seq<MixerParamId> {
    seq![
        MixerParamId::Float(MixerFloatId::ReverbReturnGainDb),
        MixerParamId::Float(MixerFloatId::ReverbReturnPan),
        MixerParamId::Bool(MixerBoolId::ReverbReturnMute),
        MixerParamId::Float(MixerFloatId::EchoReturnGainDb),
        MixerParamId::Float(MixerFloatId::EchoReturnPan),
        MixerParamId::Bool(MixerBoolId::EchoReturnMute),
        MixerParamId::Float(MixerFloatId::MasterGainDb),
    ]
}

/// Every mixer target in display order: the strips, then the FX returns and master.
pub open spec fn param_order(num_inputs: nat) -> Seq<MixerParamId> {
    strips_ids(num_inputs) + return_ids()
}

/// Returns every mixer parameter in display order (per-strip block, then FX
/// returns, then master). Strip-indexed targets are expanded for `num_inputs`.
pub fn default_param_order(num_inputs: usize) -> (out: Vec<MixerParamId>)
    ensures
        out@ == param_order(num_inputs as nat),
{
    let mut out: Vec<MixerParamId> = Vec::new();
    let mut i: usize = 0;
    while i < num_inputs
        invariant
            i <= num_inputs,
            out@ == strips_ids(i as nat),
        decreases num_inputs - i,
    {
        out.push(MixerParamId::Float(MixerFloatId::InputGainDb(i)));
        out.push(MixerParamId::Float(MixerFloatId::InputPan(i)));
        out.push(MixerParamId::Float(MixerFloatId::InputSendReverb(i)));
        out.push(MixerParamId::Float(MixerFloatId::InputSendEcho(i)));
        out.push(MixerParamId::Bool(MixerBoolId::InputMute(i)));
        out.push(MixerParamId::Bool(MixerBoolId::InputSendPreFader(i)));
        assert(out@ =~= strips_ids(i as nat) + strip_ids(i));
        i = i + 1;
    }
    out.push(MixerParamId::Float(MixerFloatId::ReverbReturnGainDb));
    out.push(MixerParamId::Float(MixerFloatId::ReverbReturnPan));
    out.push(MixerParamId::Bool(MixerBoolId::ReverbReturnMute));
    out.push(MixerParamId::Float(MixerFloatId::EchoReturnGainDb));
    out.push(MixerParamId::Float(MixerFloatId::EchoReturnPan));
    out.push(MixerParamId::Bool(MixerBoolId::EchoReturnMute));
    out.push(MixerParamId::Float(MixerFloatId::MasterGainDb));
    assert(out@ =~= param_order(num_inputs as nat));
    out
}

/// Law: the display order has six entries per input strip plus seven, and
/// entry `6 * i + k` is the `k`-th target of strip `i`.
pub proof fn lemma_param_order_layout(num_inputs: nat)
    ensures
        param_order(num_inputs).len() == 6 * num_inputs + 7,
        forall|i: int, k: int|
            0 <= i < num_inputs && 0 <= k < 6 ==> #[trigger] param_order(num_inputs)[6 * i + k]
                == strip_ids(i as usize)[k],
        forall|k: int|
            0 <= k < 7 ==> #[trigger] param_order(num_inputs)[6 * num_inputs + k] == return_ids()[k],
{
    lemma_strips_layout(num_inputs);
}

/// The strip blocks of `n` strips: six entries each, strip `i` at `6 * i`.
proof fn lemma_strips_layout(n: nat)
    ensures
        strips_ids(n).len() == 6 * n,
        forall|i: int, k: int|
            0 <= i < n && 0 <= k < 6 ==> #[trigger] strips_ids(n)[6 * i + k] == strip_ids(i as usize)[k],
    decreases n,
{
    if n > 0 {
        lemma_strips_layout((n - 1) as nat);
        assert forall|i: int, k: int| 0 <= i < n && 0 <= k < 6 implies #[trigger] strips_ids(n)[6 * i + k]
            == strip_ids(i as usize)[k] by {
            if i < n - 1 {
                assert(strips_ids(n)[6 * i + k] == strips_ids((n - 1) as nat)[6 * i + k]);
            } else {
                assert(strips_ids(n)[6 * i + k] == strip_ids((n - 1) as usize)[k]);
            }
        }
    }
}

/// The strip a mixer identifier belongs to; `None` for the FX returns and master.
pub open spec fn id_strip(id: MixerParamId) -> Option<usize> {
    match id {
        MixerParamId::Float(MixerFloatId::InputGainDb(i)) => Some(i),
        MixerParamId::Float(MixerFloatId::InputPan(i)) => Some(i),
        MixerParamId::Float(MixerFloatId::InputSendReverb(i)) => Some(i),
        MixerParamId::Float(MixerFloatId::InputSendEcho(i)) => Some(i),
        MixerParamId::Bool(MixerBoolId::InputMute(i)) => Some(i),
        MixerParamId::Bool(MixerBoolId::InputSendPreFader(i)) => Some(i),
        _ => None,
    }
}

/// Whether a mixer identifier exists for a mixer of `num_inputs` strips: its
/// strip, if any, is below `num_inputs`.
pub open spec fn id_in_mixer(id: MixerParamId, num_inputs: nat) -> bool {
    match id_strip(id) {
        Some(i) => i < num_inputs,
        None => true,
    }
}

/// The place of an identifier within its block: within its strip's six, or
/// within the seven returns and master.
spec fn slot_of(id: MixerParamId) -> int {
    match id {
        MixerParamId::Float(MixerFloatId::InputGainDb(_)) => 0,
        MixerParamId::Float(MixerFloatId::InputPan(_)) => 1,
        MixerParamId::Float(MixerFloatId::InputSendReverb(_)) => 2,
        MixerParamId::Float(MixerFloatId::InputSendEcho(_)) => 3,
        MixerParamId::Bool(MixerBoolId::InputMute(_)) => 4,
        MixerParamId::Bool(MixerBoolId::InputSendPreFader(_)) => 5,
        MixerParamId::Float(MixerFloatId::ReverbReturnGainDb) => 0,
        MixerParamId::Float(MixerFloatId::ReverbReturnPan) => 1,
        MixerParamId::Bool(MixerBoolId::ReverbReturnMute) => 2,
        MixerParamId::Float(MixerFloatId::EchoReturnGainDb) => 3,
        MixerParamId::Float(MixerFloatId::EchoReturnPan) => 4,
        MixerParamId::Bool(MixerBoolId::EchoReturnMute) => 5,
        MixerParamId::Float(MixerFloatId::MasterGainDb) => 6,
    }
}

/// Where an identifier stands in the display order of `n` strips.
spec fn order_position(id: MixerParamId, n: nat) -> int {
    match id_strip(id) {
        Some(i) => 6 * i + slot_of(id),
        None => 6 * n + slot_of(id),
    }
}

/// The entry at each position of the display order stands at that position.
proof fn lemma_position_of_entry(n: usize, p: int)
    requires
        0 <= p < 6 * n + 7,
    ensures
        order_position(param_order(n as nat)[p], n as nat) == p,
        id_in_mixer(param_order(n as nat)[p], n as nat),
{
    lemma_param_order_layout(n as nat);
    if p < 6 * n {
        let i = p / 6;
        let k = p % 6;
        assert(p == 6 * i + k && 0 <= i < n && 0 <= k < 6) by (nonlinear_arith)
            requires
                0 <= p < 6 * n,
                i == p / 6,
                k == p % 6,
        ;
        assert(param_order(n as nat)[6 * i + k] == strip_ids(i as usize)[k]);
    } else {
        let k = p - 6 * n;
        assert(param_order(n as nat)[6 * n + k] == return_ids()[k]);
    }
}

/// Every identifier of the mixer stands in the display order, at its position.
proof fn lemma_entry_at_position(n: usize, id: MixerParamId)
    requires
        id_in_mixer(id, n as nat),
    ensures
        0 <= order_position(id, n as nat) < param_order(n as nat).len(),
        param_order(n as nat)[order_position(id, n as nat)] == id,
{
    lemma_param_order_layout(n as nat);
    match id_strip(id) {
        Some(i) => {
            let k = slot_of(id);
            assert(param_order(n as nat)[6 * i + k] == strip_ids(i)[k]);
        },
        None => {
            let k = slot_of(id);
            assert(param_order(n as nat)[6 * n + k] == return_ids()[k]);
        },
    }
}

/// Law: the display order of a mixer with `num_inputs` strips lists every
/// identifier of that mixer exactly once: nothing twice, nothing missing, and
/// nothing of a strip the mixer does not have.
pub proof fn lemma_param_order_lists_each_once(num_inputs: usize)
    ensures
        param_order(num_inputs as nat).no_duplicates(),
        forall|id: MixerParamId| #[trigger] param_order(num_inputs as nat).contains(id) <==> id_in_mixer(id, num_inputs as nat),
{
    let order = param_order(num_inputs as nat);
    lemma_param_order_layout(num_inputs as nat);
    assert forall|a: int, b: int| 0 <= a < order.len() && 0 <= b < order.len() && a != b implies order[a] != order[b] by {
        lemma_position_of_entry(num_inputs, a);
        lemma_position_of_entry(num_inputs, b);
    }
    assert forall|id: MixerParamId| #[trigger] order.contains(id) <==> id_in_mixer(id, num_inputs as nat) by {
        if order.contains(id) {
            let p = choose|p: int| 0 <= p < order.len() && order[p] == id;
            lemma_position_of_entry(num_inputs, p);
        }
        if id_in_mixer(id, num_inputs as nat) {
            lemma_entry_at_position(num_inputs, id);
        }
    }
}

/// The range a mixer value is clamped to before it is stored.
#[derive(Debug, Clone, Copy, PartialEq, Eq, Structural)]
pub enum ValueRange {
    /// Stored as given (gains in dB).
    Free,
    /// Clamped to `-1..=1` (pans).
    Bipolar,
    /// Clamped to `0..=1` (send levels).
    Unit,
}

impl<V> MixerParam<V> {
    /// The range this event's value is clamped to: pans are bipolar, sends
    /// are unit levels, everything else is stored as given.
    pub open spec fn spec_value_range(&self) -> ValueRange {
        match self {
            MixerParam::InputPan(..) | MixerParam::ReverbReturnPan(..) | MixerParam::EchoReturnPan(..) => ValueRange::Bipolar,
            MixerParam::InputSendReverb(..) | MixerParam::InputSendEcho(..) => ValueRange::Unit,
            _ => ValueRange::Free,
        }
    }

    /// The range this event's value is clamped to.
    pub fn value_range(&self) -> (r: ValueRange)
        ensures
            r == self.spec_value_range(),
    {
        match self {
            MixerParam::InputPan(..) | MixerParam::ReverbReturnPan(..) | MixerParam::EchoReturnPan(..) => ValueRange::Bipolar,
            MixerParam::InputSendReverb(..) | MixerParam::InputSendEcho(..) => ValueRange::Unit,
            _ => ValueRange::Free,
        }
    }
}

} // verus!
