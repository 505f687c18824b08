//! OSC routing: the table of OSC-addressable parameters, built once from the
//! effects' and the mixer's parameter lists, and the translation of inbound
//! messages into parameter events.

use vstd::prelude::*;
use crate::mixer::{default_param_order, param_order, MixerBoolId, MixerFloatId, MixerParam, MixerParamId};
use crate::params::{
    osc_path_of, CompressorParamKind, EchoParamKind, FloatParams, ReverbParamKind, TapeDelayParamKind,
};
use crate::parameters::InputParameters;
use crate::persist::{
    apply_compressor_spec, apply_echo_spec, apply_reverb_spec, apply_spec, compressor_read_spec, echo_read_spec,
    mixer_bool_read_spec, mixer_float_read_spec, reverb_read_spec, AppState, AppStateView,
};
use vstd::string::*;
use crate::text::{decimal, is_digit, lemma_decimal_injective, lemma_decimal_value, push_decimal, str_equal};
use crate::wire::{
    args_view, datagram_messages, decoded_messages, messages_view, WireArg, WireArgView, WireMessage, WireMessageView,
};

verus! {

/// What an OSC address controls.
#[derive(Debug, Clone, Copy, PartialEq, Eq, Structural)]
pub enum RouteTarget {
    Reverb(ReverbParamKind),
    Echo(EchoParamKind),
    TapeDelay(TapeDelayParamKind),
    Compressor(CompressorParamKind),
    MixerFloat(MixerFloatId),
    MixerBool(MixerBoolId),
}

/// The OSC address of a target.
pub open spec fn target_path(t: RouteTarget) -> Seq<char> {
    match t {
        RouteTarget::Reverb(k) => osc_path_of(ReverbParamKind::spec_namespace(), k.spec_segment()),
        RouteTarget::Echo(k) => osc_path_of(EchoParamKind::spec_namespace(), k.spec_segment()),
        RouteTarget::TapeDelay(k) => osc_path_of(TapeDelayParamKind::spec_namespace(), k.spec_segment()),
        RouteTarget::Compressor(k) => osc_path_of(CompressorParamKind::spec_namespace(), k.spec_segment()),
        RouteTarget::MixerFloat(f) => f.spec_osc_path(),
        RouteTarget::MixerBool(b) => b.spec_osc_path(),
    }
}

/// The route target of a mixer parameter.
pub open spec fn mixer_target(id: MixerParamId) -> RouteTarget {
    match id {
        MixerParamId::Float(f) => RouteTarget::MixerFloat(f),
        MixerParamId::Bool(b) => RouteTarget::MixerBool(b),
    }
}

/// Every routed target, in display order: reverb, echo, tape delay and
/// compressor parameters, then the mixer in its display order.
pub open spec fn route_targets(num_inputs: nat) -> Seq<RouteTarget> {
    ReverbParamKind::spec_all().map_values(|k: ReverbParamKind| RouteTarget::Reverb(k))
        + EchoParamKind::spec_all().map_values(|k: EchoParamKind| RouteTarget::Echo(k))
        + TapeDelayParamKind::spec_all().map_values(|k: TapeDelayParamKind| RouteTarget::TapeDelay(k))
        + CompressorParamKind::spec_all().map_values(|k: CompressorParamKind| RouteTarget::Compressor(k))
        + param_order(num_inputs).map_values(|id: MixerParamId| mixer_target(id))
}

/// One known OSC-addressable parameter: its full address and what it controls.
#[derive(Debug, Clone)]
pub struct OscParameter {
    pub path: String,
    pub target: RouteTarget,
}

/// The first argument of an inbound message, read both ways: as a number
/// (`None` when it is not numeric) and as a switch (`None` when it cannot be
/// read as one).
#[derive(Debug, Clone, Copy)]
pub struct OscArg<V> {
    pub number: Option<V>,
    pub switch: Option<bool>,
}

/// The event that a message to `t` with first argument `arg` asks for.
pub open spec fn event_for<V>(t: RouteTarget, arg: OscArg<V>) -> Option<InputParameters<V>> {
    match t {
        RouteTarget::MixerBool(b) => match arg.switch {
            Some(v) => Some(InputParameters::Mixer(b.spec_build::<V>(v))),
            None => None,
        },
        _ => match arg.number {
            Some(v) => Some(
                match t {
                    RouteTarget::Reverb(k) => InputParameters::Reverb(k.spec_build(v)),
                    RouteTarget::Echo(k) => InputParameters::Echo(k.spec_build(v)),
                    RouteTarget::TapeDelay(k) => InputParameters::TapeDelay(k.spec_build(v)),
                    RouteTarget::Compressor(k) => InputParameters::Compressor(k.spec_build(v)),
                    RouteTarget::MixerFloat(f) => InputParameters::Mixer(f.spec_build::<V>(v)),
                    RouteTarget::MixerBool(b) => InputParameters::Mixer(b.spec_build::<V>(false)),
                },
            ),
            None => None,
        },
    }
}

/// Current value of an OSC-addressable parameter, as the `/get_all` reply
/// reports it.
#[derive(Debug, Clone, Copy)]
pub enum OscValue<F> {
    Float(F),
    Bool(bool),
}

/// The persisted value of target `t` in state `s`. Tape-delay settings are
/// not persisted, so they have no current value; nor does a strip that the
/// state does not hold.
pub open spec fn current_value_spec<F>(t: RouteTarget, s: AppStateView<F>) -> Option<OscValue<F>> {
    match t {
        RouteTarget::Reverb(k) => Some(OscValue::Float(reverb_read_spec(k, s.reverb))),
        RouteTarget::Echo(k) => Some(OscValue::Float(echo_read_spec(k, s.echo))),
        RouteTarget::TapeDelay(_) => None,
        RouteTarget::Compressor(k) => Some(OscValue::Float(compressor_read_spec(k, s.compressor))),
        RouteTarget::MixerFloat(f) => match mixer_float_read_spec(f, s.mixer) {
            Some(v) => Some(OscValue::Float(v)),
            None => None,
        },
        RouteTarget::MixerBool(b) => match mixer_bool_read_spec(b, s.mixer) {
            Some(v) => Some(OscValue::Bool(v)),
            None => None,
        },
    }
}

/// The index of the first entry at or after `start` whose path is `addr`.
pub open spec fn find_path(paths: Seq<Seq<char>>, addr: Seq<char>, start: int) -> Option<int>
    decreases paths.len() - start,
{
    if start < 0 || start >= paths.len() {
        None
    } else if paths[start] == addr {
        Some(start)
    } else {
        find_path(paths, addr, start + 1)
    }
}

/// Translates incoming OSC messages into parameter events. Built once at
/// startup; the table also answers `/list` queries, in display order.
pub struct OscRouter {
    introspection: Vec<OscParameter>,
}

/// The wrapping of effect parameters into route targets.
fn reverb_route(k: ReverbParamKind) -> (t: RouteTarget)
    ensures
        t == RouteTarget::Reverb(k),
{
    RouteTarget::Reverb(k)
}

fn echo_route(k: EchoParamKind) -> (t: RouteTarget)
    ensures
        t == RouteTarget::Echo(k),
{
    RouteTarget::Echo(k)
}

fn tape_delay_route(k: TapeDelayParamKind) -> (t: RouteTarget)
    ensures
        t == RouteTarget::TapeDelay(k),
{
    RouteTarget::TapeDelay(k)
}

fn compressor_route(k: CompressorParamKind) -> (t: RouteTarget)
    ensures
        t == RouteTarget::Compressor(k),
{
    RouteTarget::Compressor(k)
}

/// Appends one entry per parameter of `K`.
fn push_effect<K: FloatParams, W: Fn(K) -> RouteTarget>(entries: &mut Vec<OscParameter>, wrap: W)
    requires
        forall|k: K| wrap.requires((k,)),
        forall|k: K, t: RouteTarget| wrap.ensures((k,), t) ==> target_path(t) == osc_path_of(
            K::spec_namespace(),
            k.spec_segment(),
        ),
    ensures
        final(entries).len() == old(entries).len() + K::spec_all().len(),
        forall|j: int| 0 <= j < old(entries).len() ==> final(entries)[j] == old(entries)[j],
        forall|j: int|
            0 <= j < K::spec_all().len() ==> {
                let e = #[trigger] final(entries)[old(entries).len() + j];
                wrap.ensures((K::spec_all()[j],), e.target) && e.path@ == target_path(e.target)
            },
{
    let all = K::all();
    let ghost start = entries.len();
    let mut i: usize = 0;
    while i < all.len()
        invariant
            all@ == K::spec_all(),
            i <= all.len(),
            start == old(entries).len(),
            entries.len() == start + i,
            forall|k: K| wrap.requires((k,)),
            forall|k: K, t: RouteTarget| wrap.ensures((k,), t) ==> target_path(t) == osc_path_of(
                K::spec_namespace(),
                k.spec_segment(),
            ),
            forall|j: int| 0 <= j < start ==> entries[j] == old(entries)[j],
            forall|j: int|
                0 <= j < i ==> {
                    let e = #[trigger] entries[start + j];
                    wrap.ensures((K::spec_all()[j],), e.target) && e.path@ == target_path(e.target)
                },
        decreases all.len() - i,
    {
        let k = all[i];
        let path = k.osc_path();
        let target = wrap(k);
        entries.push(OscParameter { path, target });
        i = i + 1;
    }
}

impl OscRouter {
    /// The routing table, in display order.
    pub closed spec fn spec_entries(&self) -> Seq<OscParameter> {
        self.introspection@
    }

    /// The addresses of the routing table, in display order.
    pub open spec fn spec_paths(&self) -> Seq<Seq<char>> {
        self.spec_entries().map_values(|e: OscParameter| e.path@)
    }

    /// Every entry's path is the address of its target.
    pub open spec fn wf(&self) -> bool {
        forall|j: int|
            0 <= j < self.spec_entries().len() ==> (#[trigger] self.spec_entries()[j]).path@ == target_path(
                self.spec_entries()[j].target,
            )
    }

    /// The routing table for `num_inputs` input strips: every effect
    /// parameter, then every mixer parameter, each at its OSC address.
    pub fn new(num_inputs: usize) -> (r: Self)
        ensures
            r.wf(),
            r.spec_entries().map_values(|e: OscParameter| e.target) == route_targets(num_inputs as nat),
    {
        let mut entries: Vec<OscParameter> = Vec::new();
        push_effect(&mut entries, reverb_route);
        let ghost a1 = entries@;
        push_effect(&mut entries, echo_route);
        let ghost a2 = entries@;
        push_effect(&mut entries, tape_delay_route);
        let ghost a3 = entries@;
        push_effect(&mut entries, compressor_route);
        let ghost a4 = entries@;
        let order = default_param_order(num_inputs);
        let mut i: usize = 0;
        while i < order.len()
            invariant
                order@ == param_order(num_inputs as nat),
                i <= order.len(),
                entries.len() == a4.len() + i,
                forall|j: int| 0 <= j < a4.len() ==> entries[j] == a4[j],
                forall|j: int|
                    0 <= j < i ==> {
                        let e = #[trigger] entries[a4.len() + j];
                        e.target == mixer_target(order@[j]) && e.path@ == target_path(e.target)
                    },
            decreases order.len() - i,
        {
            match order[i] {
                MixerParamId::Float(f) => {
                    let path = f.osc_path();
                    entries.push(OscParameter { path, target: RouteTarget::MixerFloat(f) });
                },
                MixerParamId::Bool(b) => {
                    let path = b.osc_path();
                    entries.push(OscParameter { path, target: RouteTarget::MixerBool(b) });
                },
            }
            i = i + 1;
        }
        let r = OscRouter { introspection: entries };
        proof {
            let n1 = ReverbParamKind::spec_all().len();
            let n2 = EchoParamKind::spec_all().len();
            let n3 = TapeDelayParamKind::spec_all().len();
            let n4 = CompressorParamKind::spec_all().len();
            assert(a1.len() == n1);
            assert(a2.len() == n1 + n2);
            assert(a3.len() == n1 + n2 + n3);
            assert(a4.len() == n1 + n2 + n3 + n4);
            let targets = r.spec_entries().map_values(|e: OscParameter| e.target);
            let expect = route_targets(num_inputs as nat);
            assert forall|j: int| 0 <= j < entries.len() implies #[trigger] entries@[j].target == expect[j]
                && entries@[j].path@ == target_path(entries@[j].target) by {
                if j < n1 {
                    assert(entries@[j] == a4[j]);
                    assert(a4[j] == a3[j]);
                    assert(a3[j] == a2[j]);
                    assert(a2[j] == a1[j]);
                    assert(a1[0 + j] == a1[j]);
                } else if j < n1 + n2 {
                    assert(entries@[j] == a4[j]);
                    assert(a4[j] == a3[j]);
                    assert(a3[j] == a2[j]);
                    assert(a2[a1.len() + (j - n1)] == a2[j]);
                } else if j < n1 + n2 + n3 {
                    assert(entries@[j] == a4[j]);
                    assert(a4[j] == a3[j]);
                    assert(a3[a2.len() + (j - n1 - n2)] == a3[j]);
                } else if j < n1 + n2 + n3 + n4 {
                    assert(entries@[j] == a4[j]);
                    assert(a4[a3.len() + (j - n1 - n2 - n3)] == a4[j]);
                } else {
                    assert(entries@[a4.len() + (j - a4.len())] == entries@[j]);
                }
            }
            assert(targets =~= expect);
        }
        r
    }

    /// The target of the first entry whose address is `addr`, if any.
    pub fn target(&self, addr: &str) -> (r: Option<RouteTarget>)
        ensures
            r == (match find_path(self.spec_paths(), addr@, 0) {
                Some(j) => Some(self.spec_entries()[j].target),
                None => None,
            }),
    {
        let ghost paths = self.spec_paths();
        let mut i: usize = 0;
        while i < self.introspection.len()
            invariant
                paths == self.spec_paths(),
                paths.len() == self.introspection.len(),
                i <= self.introspection.len(),
                find_path(paths, addr@, 0) == find_path(paths, addr@, i as int),
            decreases self.introspection.len() - i,
        {
            if str_equal(self.introspection[i].path.as_str(), addr) {
                return Some(self.introspection[i].target);
            }
            i = i + 1;
        }
        None
    }

    /// Translate an inbound message to a parameter event. Returns `None` if
    /// the address is unknown or the first argument does not fit the target:
    /// bool targets take the argument as a switch, all others as a number.
    pub fn route<V: Copy>(&self, addr: &str, arg: OscArg<V>) -> (r: Option<InputParameters<V>>)
        ensures
            r == (match find_path(self.spec_paths(), addr@, 0) {
                Some(j) => event_for(self.spec_entries()[j].target, arg),
                None => None,
            }),
    {
        let target = match self.target(addr) {
            Some(t) => t,
            None => return None,
        };
        match target {
            RouteTarget::MixerBool(b) => match arg.switch {
                Some(v) => Some(InputParameters::Mixer(b.build(v))),
                None => None,
            },
            RouteTarget::Reverb(k) => match arg.number {
                Some(v) => Some(InputParameters::Reverb(k.build(v))),
                None => None,
            },
            RouteTarget::Echo(k) => match arg.number {
                Some(v) => Some(InputParameters::Echo(k.build(v))),
                None => None,
            },
            RouteTarget::TapeDelay(k) => match arg.number {
                Some(v) => Some(InputParameters::TapeDelay(k.build(v))),
                None => None,
            },
            RouteTarget::Compressor(k) => match arg.number {
                Some(v) => Some(InputParameters::Compressor(k.build(v))),
                None => None,
            },
            RouteTarget::MixerFloat(f) => match arg.number {
                Some(v) => Some(InputParameters::Mixer(f.build(v))),
                None => None,
            },
        }
    }

    /// A parameter's current value out of `state`, for the `/get_all` reply;
    /// `None` when the address is unknown or the state holds no value for it.
    pub fn current_value<F: Copy>(&self, addr: &str, state: &AppState<F>) -> (r: Option<OscValue<F>>)
        ensures
            r == (match find_path(self.spec_paths(), addr@, 0) {
                Some(j) => current_value_spec(self.spec_entries()[j].target, state@),
                None => None,
            }),
    {
        let target = match self.target(addr) {
            Some(t) => t,
            None => return None,
        };
        match target {
            RouteTarget::Reverb(k) => Some(OscValue::Float(k.read(&state.reverb))),
            RouteTarget::Echo(k) => Some(OscValue::Float(k.read(&state.echo))),
            RouteTarget::TapeDelay(_) => None,
            RouteTarget::Compressor(k) => Some(OscValue::Float(k.read(&state.compressor))),
            RouteTarget::MixerFloat(f) => match f.read(&state.mixer) {
                Some(v) => Some(OscValue::Float(v)),
                None => None,
            },
            RouteTarget::MixerBool(b) => match b.read(&state.mixer) {
                Some(v) => Some(OscValue::Bool(v)),
                None => None,
            },
        }
    }

    /// The parameter list, in display order, for `/list` queries.
    pub fn introspection(&self) -> (r: &[OscParameter])
        ensures
            r@ == self.spec_entries(),
    {
        self.introspection.as_slice()
    }
}

/// Law: an address routes exactly when some table entry has it, and then to
/// a target whose address it is.
pub proof fn lemma_route_sound(router: OscRouter, addr: Seq<char>)
    requires
        router.wf(),
    ensures
        find_path(router.spec_paths(), addr, 0) matches Some(j) ==> 0 <= j < router.spec_entries().len()
            && target_path(router.spec_entries()[j].target) == addr,
        find_path(router.spec_paths(), addr, 0) is None ==> forall|j: int|
            0 <= j < router.spec_entries().len() ==> (#[trigger] router.spec_entries()[j]).path@ != addr,
{
    lemma_find_path(router.spec_paths(), addr, 0);
    if find_path(router.spec_paths(), addr, 0) is None {
        assert forall|j: int| 0 <= j < router.spec_entries().len() implies (#[trigger] router.spec_entries()[j]).path@
            != addr by {
            assert(router.spec_paths()[j] == router.spec_entries()[j].path@);
        }
    }
}

/// `find_path` finds the first matching index, or none when no index matches.
pub proof fn lemma_find_path(paths: Seq<Seq<char>>, addr: Seq<char>, start: int)
    requires
        0 <= start,
    ensures
        find_path(paths, addr, start) matches Some(j) ==> start <= j < paths.len() && paths[j] == addr
            && forall|k: int| start <= k < j ==> paths[k] != addr,
        find_path(paths, addr, start) is None ==> forall|k: int| start <= k < paths.len() ==> paths[k] != addr,
    decreases paths.len() - start,
{
    if start < paths.len() && paths[start] != addr {
        lemma_find_path(paths, addr, start + 1);
    }
}

/// The character after the leading `/` of a target's address: it names the
/// effect, or `m` for the mixer.
pub open spec fn namespace_char(t: RouteTarget) -> char {
    match t {
        RouteTarget::Reverb(_) => 'r',
        RouteTarget::Echo(_) => 's',
        RouteTarget::TapeDelay(_) => 't',
        RouteTarget::Compressor(_) => 'c',
        RouteTarget::MixerFloat(_) => 'm',
        RouteTarget::MixerBool(_) => 'm',
    }
}

/// The strip index of a strip-indexed mixer target.
pub open spec fn strip_of(t: RouteTarget) -> Option<usize> {
    match t {
        RouteTarget::MixerFloat(MixerFloatId::InputGainDb(i)) => Some(i),
        RouteTarget::MixerFloat(MixerFloatId::InputPan(i)) => Some(i),
        RouteTarget::MixerFloat(MixerFloatId::InputSendReverb(i)) => Some(i),
        RouteTarget::MixerFloat(MixerFloatId::InputSendEcho(i)) => Some(i),
        RouteTarget::MixerBool(MixerBoolId::InputMute(i)) => Some(i),
        RouteTarget::MixerBool(MixerBoolId::InputSendPreFader(i)) => Some(i),
        _ => None,
    }
}

/// The part of a strip-indexed address after the strip number.
pub open spec fn strip_suffix(t: RouteTarget) -> Seq<char> {
    match t {
        RouteTarget::MixerFloat(MixerFloatId::InputGainDb(_)) => "/gain_db"@,
        RouteTarget::MixerFloat(MixerFloatId::InputPan(_)) => "/pan"@,
        RouteTarget::MixerFloat(MixerFloatId::InputSendReverb(_)) => "/send_reverb"@,
        RouteTarget::MixerFloat(MixerFloatId::InputSendEcho(_)) => "/send_echo"@,
        RouteTarget::MixerBool(MixerBoolId::InputMute(_)) => "/mute"@,
        RouteTarget::MixerBool(MixerBoolId::InputSendPreFader(_)) => "/send_pre_fader"@,
        _ => Seq::empty(),
    }
}

/// Every address starts with `/`, then the namespace character.
proof fn lemma_namespace_char(t: RouteTarget)
    ensures
        target_path(t).len() > 1,
        target_path(t)[1] == namespace_char(t),
{
    reveal_strlit("/reverb");
    reveal_strlit("/stereo_delay");
    reveal_strlit("/tape_delay");
    reveal_strlit("/compressor");
    reveal_strlit("/mixer/input/");
    reveal_strlit("/mixer/reverb_return/gain_db");
    reveal_strlit("/mixer/reverb_return/pan");
    reveal_strlit("/mixer/reverb_return/mute");
    reveal_strlit("/mixer/echo_return/gain_db");
    reveal_strlit("/mixer/echo_return/pan");
    reveal_strlit("/mixer/echo_return/mute");
    reveal_strlit("/mixer/master/gain_db");
    match t {
        RouteTarget::Reverb(k) => {
            assert(target_path(t)[1] == "/reverb"@[1]);
        },
        RouteTarget::Echo(k) => {
            assert(target_path(t)[1] == "/stereo_delay"@[1]);
        },
        RouteTarget::TapeDelay(k) => {
            assert(target_path(t)[1] == "/tape_delay"@[1]);
        },
        RouteTarget::Compressor(k) => {
            assert(target_path(t)[1] == "/compressor"@[1]);
        },
        _ => {
            if strip_of(t) is Some {
                assert(target_path(t)[1] == "/mixer/input/"@[1]);
            }
        },
    }
}

/// A strip-indexed address is `/mixer/input/`, the strip number and the
/// target's suffix; every other mixer address has no `i` at position 7.
proof fn lemma_mixer_layout(t: RouteTarget)
    requires
        namespace_char(t) == 'm',
    ensures
        strip_of(t) matches Some(i) ==> target_path(t) == "/mixer/input/"@ + (decimal(i as nat)
            + strip_suffix(t)) && target_path(t)[7] == 'i',
        strip_of(t) is None ==> target_path(t)[7] != 'i',
{
    reveal_strlit("/mixer/input/");
    reveal_strlit("/mixer/reverb_return/gain_db");
    reveal_strlit("/mixer/reverb_return/pan");
    reveal_strlit("/mixer/reverb_return/mute");
    reveal_strlit("/mixer/echo_return/gain_db");
    reveal_strlit("/mixer/echo_return/pan");
    reveal_strlit("/mixer/echo_return/mute");
    reveal_strlit("/mixer/master/gain_db");
    if let Some(i) = strip_of(t) {
        let d = decimal(i as nat);
        assert(target_path(t) =~= "/mixer/input/"@ + (d + strip_suffix(t)));
        assert(target_path(t)[7] == "/mixer/input/"@[7]);
    }
}

/// Two strip addresses agree only for the same strip and suffix: the strip
/// number is all digits and each suffix starts with `/`.
proof fn lemma_strip_address(i: nat, s1: Seq<char>, j: nat, s2: Seq<char>)
    requires
        s1.len() > 0,
        s2.len() > 0,
        s1[0] == '/',
        s2[0] == '/',
        decimal(i) + s1 == decimal(j) + s2,
    ensures
        i == j,
        s1 == s2,
{
    lemma_decimal_value(i);
    lemma_decimal_value(j);
    let x = decimal(i);
    let y = decimal(j);
    let p = x + s1;
    if x.len() < y.len() {
        assert(p[x.len() as int] == s1[0]);
        assert((y + s2)[x.len() as int] == y[x.len() as int]);
        assert(is_digit(y[x.len() as int]));
    } else if y.len() < x.len() {
        assert((y + s2)[y.len() as int] == s2[0]);
        assert(p[y.len() as int] == x[y.len() as int]);
        assert(is_digit(x[y.len() as int]));
    }
    assert(x =~= p.subrange(0, x.len() as int));
    assert(y =~= (y + s2).subrange(0, y.len() as int));
    assert(s1 =~= p.subrange(x.len() as int, p.len() as int));
    assert(s2 =~= (y + s2).subrange(y.len() as int, p.len() as int));
    lemma_decimal_injective(i, j);
}

/// Parameters of one effect with the same address are the same parameter.
proof fn lemma_effect_path_injective<K: FloatParams>(a: K, b: K)
    requires
        osc_path_of(K::spec_namespace(), a.spec_segment()) == osc_path_of(K::spec_namespace(), b.spec_segment()),
    ensures
        a == b,
{
    if a != b {
        K::lemma_segments_distinct(a, b);
        let n = K::spec_namespace().len() as int + 1;
        let pa = osc_path_of(K::spec_namespace(), a.spec_segment());
        let pb = osc_path_of(K::spec_namespace(), b.spec_segment());
        assert(a.spec_segment() =~= pa.subrange(n, pa.len() as int));
        assert(b.spec_segment() =~= pb.subrange(n, pb.len() as int));
    }
}

/// Law: distinct targets have distinct OSC addresses, so an address names at
/// most one parameter.
pub proof fn lemma_target_path_injective(a: RouteTarget, b: RouteTarget)
    requires
        target_path(a) == target_path(b),
    ensures
        a == b,
{
    lemma_namespace_char(a);
    lemma_namespace_char(b);
    match (a, b) {
        (RouteTarget::Reverb(x), RouteTarget::Reverb(y)) => lemma_effect_path_injective(x, y),
        (RouteTarget::Echo(x), RouteTarget::Echo(y)) => lemma_effect_path_injective(x, y),
        (RouteTarget::TapeDelay(x), RouteTarget::TapeDelay(y)) => lemma_effect_path_injective(x, y),
        (RouteTarget::Compressor(x), RouteTarget::Compressor(y)) => lemma_effect_path_injective(x, y),
        _ => {
            if namespace_char(a) == 'm' && namespace_char(b) == 'm' {
                lemma_mixer_layout(a);
                lemma_mixer_layout(b);
                lemma_mixer_paths_injective(a, b);
            }
        },
    }
}

/// Mixer targets with the same address are the same target.
proof fn lemma_mixer_paths_injective(a: RouteTarget, b: RouteTarget)
    requires
        namespace_char(a) == 'm',
        namespace_char(b) == 'm',
        target_path(a) == target_path(b),
    ensures
        a == b,
{
    lemma_mixer_layout(a);
    lemma_mixer_layout(b);
    reveal_strlit("/gain_db");
    reveal_strlit("/pan");
    reveal_strlit("/send_reverb");
    reveal_strlit("/send_echo");
    reveal_strlit("/mute");
    reveal_strlit("/send_pre_fader");
    if let (Some(i), Some(j)) = (strip_of(a), strip_of(b)) {
        let pre = "/mixer/input/"@;
        let p = target_path(a);
        assert(decimal(i as nat) + strip_suffix(a) =~= p.subrange(pre.len() as int, p.len() as int));
        assert(decimal(j as nat) + strip_suffix(b) =~= p.subrange(pre.len() as int, p.len() as int));
        lemma_strip_address(i as nat, strip_suffix(a), j as nat, strip_suffix(b));
    } else if strip_of(a) is None && strip_of(b) is None {
        reveal_strlit("/mixer/reverb_return/gain_db");
        reveal_strlit("/mixer/reverb_return/pan");
        reveal_strlit("/mixer/reverb_return/mute");
        reveal_strlit("/mixer/echo_return/gain_db");
        reveal_strlit("/mixer/echo_return/pan");
        reveal_strlit("/mixer/echo_return/mute");
        reveal_strlit("/mixer/master/gain_db");
        let p = target_path(a);
        let q = target_path(b);
        // Position 7 tells the group apart, the length the parameter.
        assert(p.len() != q.len() || p[7] != q[7] || a == b);
    }
}

/// Law: in a well-formed table, an entry's own address routes to that
/// entry's target.
pub proof fn lemma_entry_routes_to_itself(router: OscRouter, j: int)
    requires
        router.wf(),
        0 <= j < router.spec_entries().len(),
    ensures
        find_path(router.spec_paths(), router.spec_entries()[j].path@, 0) matches Some(k)
            && router.spec_entries()[k].target == router.spec_entries()[j].target,
{
    let addr = router.spec_entries()[j].path@;
    lemma_find_path(router.spec_paths(), addr, 0);
    assert(router.spec_paths()[j] == addr);
    if let Some(k) = find_path(router.spec_paths(), addr, 0) {
        assert(router.spec_paths()[k] == router.spec_entries()[k].path@);
        lemma_target_path_injective(router.spec_entries()[k].target, router.spec_entries()[j].target);
    }
}

/// Law: a state query reads back what a routed message wrote. After the
/// event that a message to target `t` asks for is mirrored into the state,
/// the current value of `t` is the message's value: its number for a float
/// target, its switch for a bool target. Tape-delay targets (not persisted)
/// and strips that the state does not hold are left out, as they have no
/// current value.
pub proof fn lemma_state_reads_back_write<F>(t: RouteTarget, arg: OscArg<F>, s: AppStateView<F>)
    requires
        !(t is TapeDelay),
        strip_of(t) matches Some(i) ==> i < s.mixer.inputs.len(),
        event_for(t, arg) is Some,
    ensures
        current_value_spec(t, apply_spec(s, event_for(t, arg)->0)) == Some(
            match t {
                RouteTarget::MixerBool(_) => OscValue::Bool(arg.switch->0),
                _ => OscValue::Float(arg.number->0),
            },
        ),
{
    let e = event_for(t, arg)->0;
    let s2 = apply_spec(s, e);
    match t {
        RouteTarget::MixerFloat(f) => {
            match f {
                MixerFloatId::InputGainDb(i) | MixerFloatId::InputPan(i) | MixerFloatId::InputSendReverb(i)
                | MixerFloatId::InputSendEcho(i) => {
                    assert(s2.mixer.inputs[i as int] == s2.mixer.inputs[i as int]);
                },
                _ => {},
            }
        },
        RouteTarget::MixerBool(b) => {
            match b {
                MixerBoolId::InputMute(i) | MixerBoolId::InputSendPreFader(i) => {
                    assert(s2.mixer.inputs[i as int] == s2.mixer.inputs[i as int]);
                },
                _ => {},
            }
        },
        RouteTarget::Reverb(k) => {
            assert(reverb_read_spec(k, apply_reverb_spec(k.spec_build(arg.number->0), s.reverb)) == arg.number->0);
        },
        RouteTarget::Echo(k) => {
            assert(echo_read_spec(k, apply_echo_spec(k.spec_build(arg.number->0), s.echo)) == arg.number->0);
        },
        RouteTarget::Compressor(k) => {
            assert(compressor_read_spec(k, apply_compressor_spec(k.spec_build(arg.number->0), s.compressor))
                == arg.number->0);
        },
        _ => {},
    }
}

/// The target that a mixer event sets.
pub open spec fn mixer_event_target<V>(m: MixerParam<V>) -> RouteTarget {
    match m {
        MixerParam::InputGainDb(i, _) => RouteTarget::MixerFloat(MixerFloatId::InputGainDb(i)),
        MixerParam::InputPan(i, _) => RouteTarget::MixerFloat(MixerFloatId::InputPan(i)),
        MixerParam::InputMute(i, _) => RouteTarget::MixerBool(MixerBoolId::InputMute(i)),
        MixerParam::InputSendReverb(i, _) => RouteTarget::MixerFloat(MixerFloatId::InputSendReverb(i)),
        MixerParam::InputSendEcho(i, _) => RouteTarget::MixerFloat(MixerFloatId::InputSendEcho(i)),
        MixerParam::InputSendPreFader(i, _) => RouteTarget::MixerBool(MixerBoolId::InputSendPreFader(i)),
        MixerParam::ReverbReturnGainDb(_) => RouteTarget::MixerFloat(MixerFloatId::ReverbReturnGainDb),
        MixerParam::ReverbReturnPan(_) => RouteTarget::MixerFloat(MixerFloatId::ReverbReturnPan),
        MixerParam::ReverbReturnMute(_) => RouteTarget::MixerBool(MixerBoolId::ReverbReturnMute),
        MixerParam::EchoReturnGainDb(_) => RouteTarget::MixerFloat(MixerFloatId::EchoReturnGainDb),
        MixerParam::EchoReturnPan(_) => RouteTarget::MixerFloat(MixerFloatId::EchoReturnPan),
        MixerParam::EchoReturnMute(_) => RouteTarget::MixerBool(MixerBoolId::EchoReturnMute),
        MixerParam::MasterGainDb(_) => RouteTarget::MixerFloat(MixerFloatId::MasterGainDb),
    }
}

/// The target that an event sets.
pub open spec fn event_target<V>(e: InputParameters<V>) -> RouteTarget {
    match e {
        InputParameters::Reverb(p) => RouteTarget::Reverb(p.kind()),
        InputParameters::Echo(p) => RouteTarget::Echo(p.kind()),
        InputParameters::TapeDelay(p) => RouteTarget::TapeDelay(p.kind()),
        InputParameters::Compressor(p) => RouteTarget::Compressor(p.kind()),
        InputParameters::Mixer(m) => mixer_event_target(m),
    }
}

/// The state a switch event sets; `None` for an event that carries a number.
pub open spec fn event_switch<V>(e: InputParameters<V>) -> Option<bool> {
    match e {
        InputParameters::Mixer(MixerParam::InputMute(_, b)) => Some(b),
        InputParameters::Mixer(MixerParam::InputSendPreFader(_, b)) => Some(b),
        InputParameters::Mixer(MixerParam::ReverbReturnMute(b)) => Some(b),
        InputParameters::Mixer(MixerParam::EchoReturnMute(b)) => Some(b),
        _ => None,
    }
}

/// Law: a message to any listed address becomes the event that sets exactly
/// that entry's target to the message's value, whatever the target (tape
/// delay included): a switch target takes the argument's switch reading, any
/// other target its number; without such a reading nothing is routed.
pub proof fn lemma_route_sets_listed_target<V: Copy>(router: OscRouter, j: int, arg: OscArg<V>)
    requires
        router.wf(),
        0 <= j < router.spec_entries().len(),
    ensures
        ({
            let t = router.spec_entries()[j].target;
            let r = match find_path(router.spec_paths(), router.spec_entries()[j].path@, 0) {
                Some(k) => event_for(router.spec_entries()[k].target, arg),
                None => None,
            };
            &&& t is MixerBool ==> (r is Some <==> arg.switch is Some)
            &&& !(t is MixerBool) ==> (r is Some <==> arg.number is Some)
            &&& r matches Some(e) ==> event_target(e) == t
            &&& r matches Some(e) ==> (t is MixerBool ==> event_switch(e) == arg.switch && e.spec_number() is None)
            &&& r matches Some(e) ==> (!(t is MixerBool) ==> e.spec_number() == arg.number && event_switch(e) is None)
        }),
{
    lemma_entry_routes_to_itself(router, j);
    let t = router.spec_entries()[j].target;
    match t {
        RouteTarget::MixerFloat(f) => {
            match f {
                MixerFloatId::InputGainDb(_) => {},
                MixerFloatId::InputPan(_) => {},
                MixerFloatId::InputSendReverb(_) => {},
                MixerFloatId::InputSendEcho(_) => {},
                _ => {},
            }
        },
        RouteTarget::MixerBool(b) => {
            match b {
                MixerBoolId::InputMute(_) => {},
                MixerBoolId::InputSendPreFader(_) => {},
                _ => {},
            }
        },
        RouteTarget::Reverb(k) => {
            if arg.number is Some {
                assert(k.spec_build(arg.number->0).kind() == k);
                assert(k.spec_build(arg.number->0).value() == arg.number->0);
            }
        },
        RouteTarget::Echo(k) => {
            if arg.number is Some {
                assert(k.spec_build(arg.number->0).kind() == k);
                assert(k.spec_build(arg.number->0).value() == arg.number->0);
            }
        },
        RouteTarget::TapeDelay(k) => {
            if arg.number is Some {
                assert(k.spec_build(arg.number->0).kind() == k);
                assert(k.spec_build(arg.number->0).value() == arg.number->0);
            }
        },
        RouteTarget::Compressor(k) => {
            if arg.number is Some {
                assert(k.spec_build(arg.number->0).kind() == k);
                assert(k.spec_build(arg.number->0).value() == arg.number->0);
            }
        },
    }
}

/// Law: mirroring the event of a message to target `t` into the state leaves
/// the current value of every other target as it was.
pub proof fn lemma_write_leaves_other_targets<F>(t: RouteTarget, u: RouteTarget, arg: OscArg<F>, s: AppStateView<F>)
    requires
        t != u,
        event_for(t, arg) is Some,
    ensures
        current_value_spec(u, apply_spec(s, event_for(t, arg)->0)) == current_value_spec(u, s),
{
    let s2 = apply_spec(s, event_for(t, arg)->0);
    assert(s2.mixer.inputs.len() == s.mixer.inputs.len());
    match u {
        RouteTarget::MixerFloat(f) => match f {
            MixerFloatId::InputGainDb(i) | MixerFloatId::InputPan(i) | MixerFloatId::InputSendReverb(i)
            | MixerFloatId::InputSendEcho(i) => {
                if i < s.mixer.inputs.len() {
                    assert(s2.mixer.inputs[i as int] == s2.mixer.inputs[i as int]);
                }
            },
            _ => {},
        },
        RouteTarget::MixerBool(b) => match b {
            MixerBoolId::InputMute(i) | MixerBoolId::InputSendPreFader(i) => {
                if i < s.mixer.inputs.len() {
                    assert(s2.mixer.inputs[i as int] == s2.mixer.inputs[i as int]);
                }
            },
            _ => {},
        },
        _ => {},
    }
}

/// What an inbound message asks the server for.
#[derive(Debug, Clone, Copy, PartialEq, Eq, Structural)]
pub enum OscCommand {
    /// `/list`: reply one `/list/item` per parameter, then `/list/end`.
    List,
    /// `/get_all`: reply one `/state<path>` per parameter, then `/state/end`.
    GetAll,
    /// `/subscribe`: add the sender to the broadcast list.
    Subscribe,
    /// `/unsubscribe`: remove the sender from the broadcast list.
    Unsubscribe,
    /// Anything else: a parameter change to route.
    Parameter,
}

/// The command of an inbound message address.
pub open spec fn command_spec(addr: Seq<char>) -> OscCommand {
    if addr == "/list"@ {
        OscCommand::List
    } else if addr == "/get_all"@ {
        OscCommand::GetAll
    } else if addr == "/subscribe"@ {
        OscCommand::Subscribe
    } else if addr == "/unsubscribe"@ {
        OscCommand::Unsubscribe
    } else {
        OscCommand::Parameter
    }
}

/// The command of an inbound message address.
pub fn command_of(addr: &str) -> (r: OscCommand)
    ensures
        r == command_spec(addr@),
{
    if str_equal(addr, "/list") {
        OscCommand::List
    } else if str_equal(addr, "/get_all") {
        OscCommand::GetAll
    } else if str_equal(addr, "/subscribe") {
        OscCommand::Subscribe
    } else if str_equal(addr, "/unsubscribe") {
        OscCommand::Unsubscribe
    } else {
        OscCommand::Parameter
    }
}

/// What the server does with one inbound message.
#[derive(Debug, Clone, Copy)]
pub enum ServerAction<V> {
    /// Reply with the parameter list.
    ReplyList,
    /// Reply with every parameter's current value.
    ReplyState,
    /// Add the sender to the broadcast list.
    Subscribe,
    /// Remove the sender from the broadcast list.
    Unsubscribe,
    /// Push this parameter event to the engine and mirror it into the state.
    Apply(InputParameters<V>),
    /// Nothing: an unknown address, or an argument that does not fit.
    Ignore,
}

/// The action for a message to `addr` with first argument `arg`, given the
/// routing table's addresses and targets.
pub open spec fn action_spec<V>(
    paths: Seq<Seq<char>>,
    entries: Seq<OscParameter>,
    addr: Seq<char>,
    arg: OscArg<V>,
) -> ServerAction<V> {
    match command_spec(addr) {
        OscCommand::List => ServerAction::ReplyList,
        OscCommand::GetAll => ServerAction::ReplyState,
        OscCommand::Subscribe => ServerAction::Subscribe,
        OscCommand::Unsubscribe => ServerAction::Unsubscribe,
        OscCommand::Parameter => match find_path(paths, addr, 0) {
            Some(j) => match event_for(entries[j].target, arg) {
                Some(e) => ServerAction::Apply(e),
                None => ServerAction::Ignore,
            },
            None => ServerAction::Ignore,
        },
    }
}

impl OscRouter {
    /// What the server does with a message to `addr` whose first argument
    /// reads as `arg`: the protocol commands first, then parameter routing.
    pub fn action_for<V: Copy>(&self, addr: &str, arg: OscArg<V>) -> (r: ServerAction<V>)
        ensures
            r == action_spec(self.spec_paths(), self.spec_entries(), addr@, arg),
    {
        match command_of(addr) {
            OscCommand::List => ServerAction::ReplyList,
            OscCommand::GetAll => ServerAction::ReplyState,
            OscCommand::Subscribe => ServerAction::Subscribe,
            OscCommand::Unsubscribe => ServerAction::Unsubscribe,
            OscCommand::Parameter => match self.route(addr, arg) {
                Some(e) => ServerAction::Apply(e),
                None => ServerAction::Ignore,
            },
        }
    }
}

/// A numeric first argument as it came on the wire; floats by their bits.
#[derive(Debug, Clone, Copy)]
pub enum WireNumber {
    Int(i32),
    Long(i64),
    FloatBits(u32),
    DoubleBits(u64),
}

/// Whether the IEEE-754 single with these bits is at least one half: the
/// positive values from 0.5 (`0x3F00_0000`) up to and including infinity
/// (`0x7F80_0000`); negatives (sign bit set) and NaNs are not.
pub open spec fn float_bits_at_least_half(bits: u32) -> bool {
    0x3F00_0000u32 <= bits && bits <= 0x7F80_0000u32
}

/// Whether the IEEE-754 double with these bits is at least one half: from
/// 0.5 (`0x3FE0_0000_0000_0000`) up to and including infinity
/// (`0x7FF0_0000_0000_0000`).
pub open spec fn double_bits_at_least_half(bits: u64) -> bool {
    0x3FE0_0000_0000_0000u64 <= bits && bits <= 0x7FF0_0000_0000_0000u64
}

/// An argument read as a number: integers, longs, floats and doubles.
pub open spec fn number_of(a: WireArgView) -> Option<WireNumber> {
    match a {
        WireArgView::Int(v) => Some(WireNumber::Int(v)),
        WireArgView::Long(v) => Some(WireNumber::Long(v)),
        WireArgView::FloatBits(b) => Some(WireNumber::FloatBits(b)),
        WireArgView::DoubleBits(b) => Some(WireNumber::DoubleBits(b)),
        _ => None,
    }
}

/// An argument read as a switch: a bool as it is, a non-zero integer or long
/// as on, a float or double of at least one half as on, and the symbols `T`
/// and `F` as on and off.
pub open spec fn switch_of(a: WireArgView) -> Option<bool> {
    match a {
        WireArgView::Bool(b) => Some(b),
        WireArgView::Int(v) => Some(v != 0),
        WireArgView::Long(v) => Some(v != 0),
        WireArgView::FloatBits(b) => Some(float_bits_at_least_half(b)),
        WireArgView::DoubleBits(b) => Some(double_bits_at_least_half(b)),
        WireArgView::Text(s) => if s == "T"@ {
            Some(true)
        } else if s == "F"@ {
            Some(false)
        } else {
            None
        },
        WireArgView::Other => None,
    }
}

/// The first argument of a message read both ways; neither when there is none.
pub open spec fn first_arg_spec(args: Seq<WireArgView>) -> OscArg<WireNumber> {
    if args.len() == 0 {
        OscArg { number: None, switch: None }
    } else {
        OscArg { number: number_of(args[0]), switch: switch_of(args[0]) }
    }
}

/// The first argument of a message read both ways, as the router takes it.
pub fn first_arg(args: &[WireArg]) -> (r: OscArg<WireNumber>)
    ensures
        r == first_arg_spec(args_view(args@)),
{
    if args.len() == 0 {
        return OscArg { number: None, switch: None };
    }
    proof {
        reveal_strlit("T");
        reveal_strlit("F");
    }
    match &args[0] {
        WireArg::Int(v) => OscArg { number: Some(WireNumber::Int(*v)), switch: Some(*v != 0) },
        WireArg::Long(v) => OscArg { number: Some(WireNumber::Long(*v)), switch: Some(*v != 0) },
        WireArg::FloatBits(b) => OscArg {
            number: Some(WireNumber::FloatBits(*b)),
            switch: Some(0x3F00_0000u32 <= *b && *b <= 0x7F80_0000u32),
        },
        WireArg::DoubleBits(b) => OscArg {
            number: Some(WireNumber::DoubleBits(*b)),
            switch: Some(0x3FE0_0000_0000_0000u64 <= *b && *b <= 0x7FF0_0000_0000_0000u64),
        },
        WireArg::Bool(v) => OscArg { number: None, switch: Some(*v) },
        WireArg::Text(s) => {
            let switch = if str_equal(s.as_str(), "T") {
                Some(true)
            } else if str_equal(s.as_str(), "F") {
                Some(false)
            } else {
                None
            };
            OscArg { number: None, switch }
        },
        WireArg::Other => OscArg { number: None, switch: None },
    }
}

/// The action for one decoded message.
pub open spec fn message_action(
    paths: Seq<Seq<char>>,
    entries: Seq<OscParameter>,
    m: WireMessageView,
) -> ServerAction<WireNumber> {
    action_spec(paths, entries, m.addr, first_arg_spec(m.args))
}

impl OscRouter {
    /// What the server does with a datagram: decoded, each of its messages in
    /// visiting order (bundles flattened) gives one action. `None` when the
    /// bytes are not an OSC packet.
    pub fn datagram_actions(&self, bytes: &[u8]) -> (r: Option<Vec<ServerAction<WireNumber>>>)
        ensures
            match decoded_messages(bytes@) {
                Some(ms) => r matches Some(acts) && acts@ == ms.map_values(
                    |m: WireMessageView| message_action(self.spec_paths(), self.spec_entries(), m),
                ),
                None => r is None,
            },
    {
        let messages = match datagram_messages(bytes) {
            Some(ms) => ms,
            None => return None,
        };
        let ghost ms = messages_view(messages@);
        let mut acts: Vec<ServerAction<WireNumber>> = Vec::new();
        let mut i: usize = 0;
        while i < messages.len()
            invariant
                i <= messages.len(),
                ms == messages_view(messages@),
                acts@ == ms.take(i as int).map_values(
                    |m: WireMessageView| message_action(self.spec_paths(), self.spec_entries(), m),
                ),
            decreases messages.len() - i,
        {
            let a = self.action_for(messages[i].addr.as_str(), first_arg(messages[i].args.as_slice()));
            proof {
                assert(ms[i as int] == messages@[i as int]@);
            }
            acts.push(a);
            i = i + 1;
            proof {
                assert(acts@ =~= ms.take(i as int).map_values(
                    |m: WireMessageView| message_action(self.spec_paths(), self.spec_entries(), m),
                ));
            }
        }
        proof {
            assert(ms.take(i as int) =~= ms);
        }
        Some(acts)
    }
}

/// How a parameter is announced in a `/list/item` reply: a float with its
/// range and default (by their bits), or a bool with its default.
#[derive(Debug, Clone, Copy)]
pub enum ListedKind {
    Float { min_bits: u32, max_bits: u32, default_bits: u32 },
    Bool { default: bool },
}

/// The bits of the single-precision 1.0.
pub const ONE_BITS: u32 = 0x3F80_0000u32;

/// The arguments of a `/list/item` reply: path, type tag (`f` or `b`),
/// minimum, maximum, default; a bool is announced as the range 0.0 to 1.0
/// with its default as 0.0 or 1.0.
pub open spec fn list_item_args(path: Seq<char>, kind: ListedKind) -> Seq<WireArgView> {
    match kind {
        ListedKind::Float { min_bits, max_bits, default_bits } => seq![
            WireArgView::Text(path),
            WireArgView::Text("f"@),
            WireArgView::FloatBits(min_bits),
            WireArgView::FloatBits(max_bits),
            WireArgView::FloatBits(default_bits),
        ],
        ListedKind::Bool { default } => seq![
            WireArgView::Text(path),
            WireArgView::Text("b"@),
            WireArgView::FloatBits(0),
            WireArgView::FloatBits(ONE_BITS),
            WireArgView::FloatBits(if default { ONE_BITS } else { 0 }),
        ],
    }
}

/// The `/list/item` reply announcing the parameter at `path`.
pub fn list_item_message(path: &str, kind: ListedKind) -> (r: WireMessage)
    ensures
        r@.addr == "/list/item"@,
        r@.args == list_item_args(path@, kind),
{
    let mut args: Vec<WireArg> = Vec::new();
    args.push(WireArg::Text(String::from_str(path)));
    match kind {
        ListedKind::Float { min_bits, max_bits, default_bits } => {
            args.push(WireArg::Text(String::from_str("f")));
            args.push(WireArg::FloatBits(min_bits));
            args.push(WireArg::FloatBits(max_bits));
            args.push(WireArg::FloatBits(default_bits));
        },
        ListedKind::Bool { default } => {
            args.push(WireArg::Text(String::from_str("b")));
            args.push(WireArg::FloatBits(0));
            args.push(WireArg::FloatBits(ONE_BITS));
            args.push(WireArg::FloatBits(if default { ONE_BITS } else { 0 }));
        },
    }
    let r = WireMessage { addr: String::from_str("/list/item"), args };
    assert(r@.args =~= list_item_args(path@, kind));
    r
}

/// The argument that reports a current value: a float by its bits, or a bool.
pub open spec fn value_arg(v: OscValue<u32>) -> WireArgView {
    match v {
        OscValue::Float(b) => WireArgView::FloatBits(b),
        OscValue::Bool(b) => WireArgView::Bool(b),
    }
}

/// The `/get_all` reply for the parameter at `path`: `/state` followed by the
/// path, with the current value as its one argument.
pub fn state_message(path: &str, value: OscValue<u32>) -> (r: WireMessage)
    ensures
        r@.addr == "/state"@ + path@,
        r@.args == seq![value_arg(value)],
{
    let arg = match value {
        OscValue::Float(b) => WireArg::FloatBits(b),
        OscValue::Bool(b) => WireArg::Bool(b),
    };
    let mut args: Vec<WireArg> = Vec::new();
    args.push(arg);
    let r = WireMessage { addr: state_address(path), args };
    assert(r@.args =~= seq![value_arg(value)]);
    r
}

/// One broadcast's readings: peak and RMS of each input, the FX returns and
/// both master channels, the compressor's gain reduction and the DSP load
/// (every float by its bits), and the xrun counters.
#[derive(Debug)]
pub struct MeterReadings {
    pub inputs: Vec<(u32, u32)>,
    pub reverb: (u32, u32),
    pub echo: (u32, u32),
    pub master_l: (u32, u32),
    pub master_r: (u32, u32),
    pub compressor_gr_db: u32,
    pub dsp_load: u32,
    pub overruns: i32,
    pub underruns: i32,
}

/// A message with one float argument, by its bits.
pub open spec fn float_msg(addr: Seq<char>, bits: u32) -> WireMessageView {
    WireMessageView { addr, args: seq![WireArgView::FloatBits(bits)] }
}

/// A message with one integer argument.
pub open spec fn int_msg(addr: Seq<char>, v: i32) -> WireMessageView {
    WireMessageView { addr, args: seq![WireArgView::Int(v)] }
}

/// The peak and RMS messages of inputs `0..readings.len()`, input by input.
pub open spec fn input_meter_msgs(readings: Seq<(u32, u32)>) -> Seq<WireMessageView>
    decreases readings.len(),
{
    if readings.len() == 0 {
        Seq::empty()
    } else {
        let i = (readings.len() - 1) as nat;
        input_meter_msgs(readings.drop_last()) + seq![
            float_msg("/meters/input/"@ + decimal(i) + "/peak"@, readings.last().0),
            float_msg("/meters/input/"@ + decimal(i) + "/rms"@, readings.last().1),
        ]
    }
}

/// The messages of one broadcast bundle, in order: the inputs' meters, the
/// reverb and echo returns, the master channels, the compressor's gain
/// reduction, then the DSP load and the xrun counters.
pub open spec fn broadcast_msgs(r: MeterReadings) -> Seq<WireMessageView> {
    input_meter_msgs(r.inputs@) + seq![
        float_msg("/meters/reverb/peak"@, r.reverb.0),
        float_msg("/meters/reverb/rms"@, r.reverb.1),
        float_msg("/meters/echo/peak"@, r.echo.0),
        float_msg("/meters/echo/rms"@, r.echo.1),
        float_msg("/meters/master/l/peak"@, r.master_l.0),
        float_msg("/meters/master/l/rms"@, r.master_l.1),
        float_msg("/meters/master/r/peak"@, r.master_r.0),
        float_msg("/meters/master/r/rms"@, r.master_r.1),
        float_msg("/meters/compressor/gr_db"@, r.compressor_gr_db),
        float_msg("/telemetry/dsp_load"@, r.dsp_load),
        int_msg("/telemetry/xrun_overrun"@, r.overruns),
        int_msg("/telemetry/xrun_underrun"@, r.underruns),
    ]
}

/// A message with one float argument, by its bits.
fn float_message(addr: String, bits: u32) -> (m: WireMessage)
    ensures
        m@ == float_msg(addr@, bits),
{
    let mut args: Vec<WireArg> = Vec::new();
    args.push(WireArg::FloatBits(bits));
    let m = WireMessage { addr, args };
    assert(m@.args =~= seq![WireArgView::FloatBits(bits)]);
    m
}

/// A message with one integer argument.
fn int_message(addr: String, v: i32) -> (m: WireMessage)
    ensures
        m@ == int_msg(addr@, v),
{
    let mut args: Vec<WireArg> = Vec::new();
    args.push(WireArg::Int(v));
    let m = WireMessage { addr, args };
    assert(m@.args =~= seq![WireArgView::Int(v)]);
    m
}

/// The messages of one broadcast bundle.
pub fn broadcast_messages(r: &MeterReadings) -> (out: Vec<WireMessage>)
    ensures
        messages_view(out@) == broadcast_msgs(*r),
{
    let mut out: Vec<WireMessage> = Vec::new();
    let mut i: usize = 0;
    while i < r.inputs.len()
        invariant
            i <= r.inputs.len(),
            messages_view(out@) == input_meter_msgs(r.inputs@.take(i as int)),
        decreases r.inputs.len() - i,
    {
        let (peak, rms) = r.inputs[i];
        let ghost prev = out@;
        out.push(float_message(input_meter_address(i, "peak"), peak));
        out.push(float_message(input_meter_address(i, "rms"), rms));
        proof {
            reveal_strlit("peak");
            reveal_strlit("rms");
            reveal_strlit("/");
            reveal_strlit("/peak");
            reveal_strlit("/rms");
            let base = "/meters/input/"@ + decimal(i as nat);
            assert(base + "/"@ + "peak"@ =~= base + "/peak"@);
            assert(base + "/"@ + "rms"@ =~= base + "/rms"@);
            let t = r.inputs@.take(i + 1);
            assert(t.drop_last() =~= r.inputs@.take(i as int));
            assert(t.last() == r.inputs@[i as int]);
            assert(messages_view(out@) =~= messages_view(prev) + seq![out@[prev.len() as int]@, out@[prev.len() as int + 1]@]);
        }
        i = i + 1;
    }
    assert(r.inputs@.take(i as int) =~= r.inputs@);
    let ghost strips = out@;
    out.push(float_message(String::from_str("/meters/reverb/peak"), r.reverb.0));
    out.push(float_message(String::from_str("/meters/reverb/rms"), r.reverb.1));
    out.push(float_message(String::from_str("/meters/echo/peak"), r.echo.0));
    out.push(float_message(String::from_str("/meters/echo/rms"), r.echo.1));
    out.push(float_message(String::from_str("/meters/master/l/peak"), r.master_l.0));
    out.push(float_message(String::from_str("/meters/master/l/rms"), r.master_l.1));
    out.push(float_message(String::from_str("/meters/master/r/peak"), r.master_r.0));
    out.push(float_message(String::from_str("/meters/master/r/rms"), r.master_r.1));
    out.push(float_message(String::from_str("/meters/compressor/gr_db"), r.compressor_gr_db));
    out.push(float_message(String::from_str("/telemetry/dsp_load"), r.dsp_load));
    out.push(int_message(String::from_str("/telemetry/xrun_overrun"), r.overruns));
    out.push(int_message(String::from_str("/telemetry/xrun_underrun"), r.underruns));
    assert(messages_view(out@) =~= broadcast_msgs(*r));
    out
}

/// The address of a `/get_all` reply for parameter `path`: `/state` followed by it.
pub fn state_address(path: &str) -> (r: String)
    ensures
        r@ == "/state"@ + path@,
{
    let mut s = String::from_str("/state");
    s.append(path);
    s
}

/// The broadcast address of input strip `i`'s meter `field` (`peak` or `rms`).
pub fn input_meter_address(i: usize, field: &str) -> (r: String)
    ensures
        r@ == "/meters/input/"@ + decimal(i as nat) + "/"@ + field@,
{
    let mut s = String::from_str("/meters/input/");
    push_decimal(&mut s, i);
    s.append("/");
    s.append(field);
    s
}

} // verus!
