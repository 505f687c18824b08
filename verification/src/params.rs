//! Effect parameters: value-less identifiers in display order, their labels
//! and OSC addresses, and the value-carrying events built from them.

use vstd::prelude::*;
use vstd::string::*;

verus! {

/// The OSC address of a parameter: its effect's namespace, a `/`, and its segment.
pub open spec fn osc_path_of(namespace: Seq<char>, segment: Seq<char>) -> Seq<char> {
    namespace + seq!['/'] + segment
}

/// What an effect exposes about its float parameters to the mapping layers
/// (MIDI bindings, OSC routes, UI labels). Implemented on a value-less
/// "kind" enum with one variant per parameter.
pub trait FloatParams: Sized + Copy {
    /// Every parameter, in display order.
    spec fn spec_all() -> Seq<Self>;

    /// The OSC namespace of the effect, such as `/reverb`.
    spec fn spec_namespace() -> Seq<char>;

    /// The last OSC address segment of this parameter.
    spec fn spec_segment(self) -> Seq<char>;

    /// The human-readable label of this parameter.
    spec fn spec_name(self) -> Seq<char>;

    /// The position of `k` in `spec_all()`.
    spec fn spec_index_of(k: Self) -> int;

    /// Every parameter, in display order.
    fn all() -> (r: Vec<Self>)
        ensures
            r@ == Self::spec_all(),
    ;

    /// The OSC namespace of the effect.
    fn osc_namespace() -> (r: &'static str)
        ensures
            r@ == Self::spec_namespace(),
    ;

    /// The last OSC address segment of this parameter.
    fn osc_segment(self) -> (r: &'static str)
        ensures
            r@ == self.spec_segment(),
    ;

    /// Human-readable label, with units where relevant.
    fn name(self) -> (r: &'static str)
        ensures
            r@ == self.spec_name(),
    ;

    /// Every parameter occurs in `spec_all()`, at `spec_index_of`.
    proof fn lemma_all_complete(k: Self)
        ensures
            0 <= Self::spec_index_of(k) < Self::spec_all().len(),
            Self::spec_all()[Self::spec_index_of(k)] == k,
    ;

    /// Distinct parameters have distinct segments.
    proof fn lemma_segments_distinct(a: Self, b: Self)
        requires
            a != b,
        ensures
            a.spec_segment() != b.spec_segment(),
    ;

    /// Full OSC address of this parameter, such as `/reverb/size`.
    fn osc_path(self) -> (r: String)
        ensures
            r@ == osc_path_of(Self::spec_namespace(), self.spec_segment()),
    {
        let mut s = String::from_str(Self::osc_namespace());
        proof {
            reveal_strlit("/");
        }
        s.append("/");
        s.append(self.osc_segment());
        s
    }
}

/// Value-carrying reverb parameter event; `V` is the value type.
#[derive(Debug, Clone, Copy)]
pub enum ReverbParam<V> {
    Size(V),
    Feedback(V),
    Balance(V),
    PreDelayMs(V),
    HpfHz(V),
    LpfHz(V),
    Chorus(V),
    Send(V),
}

/// Value-less identifier of each reverb parameter, in display order.
#[derive(Debug, Clone, Copy, PartialEq, Eq, Structural)]
pub enum ReverbParamKind {
    Size,
    Feedback,
    Balance,
    PreDelayMs,
    HpfHz,
    LpfHz,
    Chorus,
    Send,
}

impl ReverbParamKind {
    /// The event carrying `value` for this parameter.
    pub open spec fn spec_build<V>(self, value: V) -> ReverbParam<V> {
        match self {
            ReverbParamKind::Size => ReverbParam::Size(value),
            ReverbParamKind::Feedback => ReverbParam::Feedback(value),
            ReverbParamKind::Balance => ReverbParam::Balance(value),
            ReverbParamKind::PreDelayMs => ReverbParam::PreDelayMs(value),
            ReverbParamKind::HpfHz => ReverbParam::HpfHz(value),
            ReverbParamKind::LpfHz => ReverbParam::LpfHz(value),
            ReverbParamKind::Chorus => ReverbParam::Chorus(value),
            ReverbParamKind::Send => ReverbParam::Send(value),
        }
    }

    /// Construct the value-carrying event for this parameter.
    pub fn build<V>(self, value: V) -> (p: ReverbParam<V>)
        ensures
            p == self.spec_build(value),
    {
        match self {
            ReverbParamKind::Size => ReverbParam::Size(value),
            ReverbParamKind::Feedback => ReverbParam::Feedback(value),
            ReverbParamKind::Balance => ReverbParam::Balance(value),
            ReverbParamKind::PreDelayMs => ReverbParam::PreDelayMs(value),
            ReverbParamKind::HpfHz => ReverbParam::HpfHz(value),
            ReverbParamKind::LpfHz => ReverbParam::LpfHz(value),
            ReverbParamKind::Chorus => ReverbParam::Chorus(value),
            ReverbParamKind::Send => ReverbParam::Send(value),
        }
    }
}

impl<V> ReverbParam<V> {
    /// Which parameter this event addresses.
    pub open spec fn kind(self) -> ReverbParamKind {
        match self {
            ReverbParam::Size(_) => ReverbParamKind::Size,
            ReverbParam::Feedback(_) => ReverbParamKind::Feedback,
            ReverbParam::Balance(_) => ReverbParamKind::Balance,
            ReverbParam::PreDelayMs(_) => ReverbParamKind::PreDelayMs,
            ReverbParam::HpfHz(_) => ReverbParamKind::HpfHz,
            ReverbParam::LpfHz(_) => ReverbParamKind::LpfHz,
            ReverbParam::Chorus(_) => ReverbParamKind::Chorus,
            ReverbParam::Send(_) => ReverbParamKind::Send,
        }
    }

    /// The value this event carries.
    pub open spec fn value(self) -> V {
        match self {
            ReverbParam::Size(x) => x,
            ReverbParam::Feedback(x) => x,
            ReverbParam::Balance(x) => x,
            ReverbParam::PreDelayMs(x) => x,
            ReverbParam::HpfHz(x) => x,
            ReverbParam::LpfHz(x) => x,
            ReverbParam::Chorus(x) => x,
            ReverbParam::Send(x) => x,
        }
    }
}

impl<V: Copy> ReverbParam<V> {
    /// The value this event carries.
    pub fn value_of(&self) -> (r: V)
        ensures
            r == self.value(),
    {
        match self {
            ReverbParam::Size(x) => *x,
            ReverbParam::Feedback(x) => *x,
            ReverbParam::Balance(x) => *x,
            ReverbParam::PreDelayMs(x) => *x,
            ReverbParam::HpfHz(x) => *x,
            ReverbParam::LpfHz(x) => *x,
            ReverbParam::Chorus(x) => *x,
            ReverbParam::Send(x) => *x,
        }
    }

    /// The same parameter, set to `w`.
    pub fn with_value<W>(self, w: W) -> (r: ReverbParam<W>)
        ensures
            r == self.kind().spec_build(w),
    {
        match self {
            ReverbParam::Size(_) => ReverbParam::Size(w),
            ReverbParam::Feedback(_) => ReverbParam::Feedback(w),
            ReverbParam::Balance(_) => ReverbParam::Balance(w),
            ReverbParam::PreDelayMs(_) => ReverbParam::PreDelayMs(w),
            ReverbParam::HpfHz(_) => ReverbParam::HpfHz(w),
            ReverbParam::LpfHz(_) => ReverbParam::LpfHz(w),
            ReverbParam::Chorus(_) => ReverbParam::Chorus(w),
            ReverbParam::Send(_) => ReverbParam::Send(w),
        }
    }
}

impl FloatParams for ReverbParamKind {
    open spec fn spec_all() -> Seq<Self> {
        seq![ReverbParamKind::Size, ReverbParamKind::Feedback, ReverbParamKind::Balance, ReverbParamKind::PreDelayMs, ReverbParamKind::HpfHz, ReverbParamKind::LpfHz, ReverbParamKind::Chorus, ReverbParamKind::Send]
    }

    open spec fn spec_namespace() -> Seq<char> {
        "/reverb"@
    }

    open spec fn spec_segment(self) -> Seq<char> {
        match self {
            ReverbParamKind::Size => "size"@,
            ReverbParamKind::Feedback => "feedback"@,
            ReverbParamKind::Balance => "balance"@,
            ReverbParamKind::PreDelayMs => "pre_delay_ms"@,
            ReverbParamKind::HpfHz => "hpf_hz"@,
            ReverbParamKind::LpfHz => "lpf_hz"@,
            ReverbParamKind::Chorus => "chorus"@,
            ReverbParamKind::Send => "send"@,
        }
    }

    open spec fn spec_name(self) -> Seq<char> {
        match self {
            ReverbParamKind::Size => "Size"@,
            ReverbParamKind::Feedback => "Feedback"@,
            ReverbParamKind::Balance => "Balance"@,
            ReverbParamKind::PreDelayMs => "Pre-delay (ms)"@,
            ReverbParamKind::HpfHz => "HPF (Hz)"@,
            ReverbParamKind::LpfHz => "LPF (Hz)"@,
            ReverbParamKind::Chorus => "Chorus"@,
            ReverbParamKind::Send => "Send"@,
        }
    }

    fn all() -> (r: Vec<Self>) {
        let mut r: Vec<Self> = Vec::new();
        r.push(ReverbParamKind::Size);
        r.push(ReverbParamKind::Feedback);
        r.push(ReverbParamKind::Balance);
        r.push(ReverbParamKind::PreDelayMs);
        r.push(ReverbParamKind::HpfHz);
        r.push(ReverbParamKind::LpfHz);
        r.push(ReverbParamKind::Chorus);
        r.push(ReverbParamKind::Send);
        assert(r@ =~= Self::spec_all());
        r
    }

    fn osc_namespace() -> (r: &'static str) {
        "/reverb"
    }

    fn osc_segment(self) -> (r: &'static str) {
        match self {
            ReverbParamKind::Size => "size",
            ReverbParamKind::Feedback => "feedback",
            ReverbParamKind::Balance => "balance",
            ReverbParamKind::PreDelayMs => "pre_delay_ms",
            ReverbParamKind::HpfHz => "hpf_hz",
            ReverbParamKind::LpfHz => "lpf_hz",
            ReverbParamKind::Chorus => "chorus",
            ReverbParamKind::Send => "send",
        }
    }

    fn name(self) -> (r: &'static str) {
        match self {
            ReverbParamKind::Size => "Size",
            ReverbParamKind::Feedback => "Feedback",
            ReverbParamKind::Balance => "Balance",
            ReverbParamKind::PreDelayMs => "Pre-delay (ms)",
            ReverbParamKind::HpfHz => "HPF (Hz)",
            ReverbParamKind::LpfHz => "LPF (Hz)",
            ReverbParamKind::Chorus => "Chorus",
            ReverbParamKind::Send => "Send",
        }
    }

    proof fn lemma_segments_distinct(a: Self, b: Self) {
        // Length and the characters at 0, 1, 3 and 5 tell every segment apart.
        let x = a.spec_segment();
        let y = b.spec_segment();
        reveal_strlit("size");
        reveal_strlit("feedback");
        reveal_strlit("balance");
        reveal_strlit("pre_delay_ms");
        reveal_strlit("hpf_hz");
        reveal_strlit("lpf_hz");
        reveal_strlit("chorus");
        reveal_strlit("send");
        assert(x.len() != y.len() || x[0] != y[0] || x[1] != y[1] || x[3] != y[3] || x[5] != y[5]);
    }

    proof fn lemma_all_complete(k: Self) {
        assert(Self::spec_all()[Self::spec_index_of(k)] == k);
    }

    open spec fn spec_index_of(k: Self) -> int {
        match k {
            ReverbParamKind::Size => 0,
            ReverbParamKind::Feedback => 1,
            ReverbParamKind::Balance => 2,
            ReverbParamKind::PreDelayMs => 3,
            ReverbParamKind::HpfHz => 4,
            ReverbParamKind::LpfHz => 5,
            ReverbParamKind::Chorus => 6,
            ReverbParamKind::Send => 7,
        }
    }
}

/// Value-carrying echo parameter event; `V` is the value type.
#[derive(Debug, Clone, Copy)]
pub enum EchoParam<V> {
    Send(V),
    FbLocal(V),
    FbCross(V),
    TimeLMs(V),
    TimeRMs(V),
    LpfHz(V),
}

/// Value-less identifier of each echo parameter, in display order.
#[derive(Debug, Clone, Copy, PartialEq, Eq, Structural)]
pub enum EchoParamKind {
    Send,
    FbLocal,
    FbCross,
    TimeLMs,
    TimeRMs,
    LpfHz,
}

impl EchoParamKind {
    /// The event carrying `value` for this parameter.
    pub open spec fn spec_build<V>(self, value: V) -> EchoParam<V> {
        match self {
            EchoParamKind::Send => EchoParam::Send(value),
            EchoParamKind::FbLocal => EchoParam::FbLocal(value),
            EchoParamKind::FbCross => EchoParam::FbCross(value),
            EchoParamKind::TimeLMs => EchoParam::TimeLMs(value),
            EchoParamKind::TimeRMs => EchoParam::TimeRMs(value),
            EchoParamKind::LpfHz => EchoParam::LpfHz(value),
        }
    }

    /// Construct the value-carrying event for this parameter.
    pub fn build<V>(self, value: V) -> (p: EchoParam<V>)
        ensures
            p == self.spec_build(value),
    {
        match self {
            EchoParamKind::Send => EchoParam::Send(value),
            EchoParamKind::FbLocal => EchoParam::FbLocal(value),
            EchoParamKind::FbCross => EchoParam::FbCross(value),
            EchoParamKind::TimeLMs => EchoParam::TimeLMs(value),
            EchoParamKind::TimeRMs => EchoParam::TimeRMs(value),
            EchoParamKind::LpfHz => EchoParam::LpfHz(value),
        }
    }
}

impl<V> EchoParam<V> {
    /// Which parameter this event addresses.
    pub open spec fn kind(self) -> EchoParamKind {
        match self {
            EchoParam::Send(_) => EchoParamKind::Send,
            EchoParam::FbLocal(_) => EchoParamKind::FbLocal,
            EchoParam::FbCross(_) => EchoParamKind::FbCross,
            EchoParam::TimeLMs(_) => EchoParamKind::TimeLMs,
            EchoParam::TimeRMs(_) => EchoParamKind::TimeRMs,
            EchoParam::LpfHz(_) => EchoParamKind::LpfHz,
        }
    }

    /// The value this event carries.
    pub open spec fn value(self) -> V {
        match self {
            EchoParam::Send(x) => x,
            EchoParam::FbLocal(x) => x,
            EchoParam::FbCross(x) => x,
            EchoParam::TimeLMs(x) => x,
            EchoParam::TimeRMs(x) => x,
            EchoParam::LpfHz(x) => x,
        }
    }
}

impl<V: Copy> EchoParam<V> {
    /// The value this event carries.
    pub fn value_of(&self) -> (r: V)
        ensures
            r == self.value(),
    {
        match self {
            EchoParam::Send(x) => *x,
            EchoParam::FbLocal(x) => *x,
            EchoParam::FbCross(x) => *x,
            EchoParam::TimeLMs(x) => *x,
            EchoParam::TimeRMs(x) => *x,
            EchoParam::LpfHz(x) => *x,
        }
    }

    /// The same parameter, set to `w`.
    pub fn with_value<W>(self, w: W) -> (r: EchoParam<W>)
        ensures
            r == self.kind().spec_build(w),
    {
        match self {
            EchoParam::Send(_) => EchoParam::Send(w),
            EchoParam::FbLocal(_) => EchoParam::FbLocal(w),
            EchoParam::FbCross(_) => EchoParam::FbCross(w),
            EchoParam::TimeLMs(_) => EchoParam::TimeLMs(w),
            EchoParam::TimeRMs(_) => EchoParam::TimeRMs(w),
            EchoParam::LpfHz(_) => EchoParam::LpfHz(w),
        }
    }
}

impl FloatParams for EchoParamKind {
    open spec fn spec_all() -> Seq<Self> {
        seq![EchoParamKind::Send, EchoParamKind::FbLocal, EchoParamKind::FbCross, EchoParamKind::TimeLMs, EchoParamKind::TimeRMs, EchoParamKind::LpfHz]
    }

    open spec fn spec_namespace() -> Seq<char> {
        "/stereo_delay"@
    }

    open spec fn spec_segment(self) -> Seq<char> {
        match self {
            EchoParamKind::Send => "send"@,
            EchoParamKind::FbLocal => "fb_local"@,
            EchoParamKind::FbCross => "fb_cross"@,
            EchoParamKind::TimeLMs => "time_l_ms"@,
            EchoParamKind::TimeRMs => "time_r_ms"@,
            EchoParamKind::LpfHz => "lpf_hz"@,
        }
    }

    open spec fn spec_name(self) -> Seq<char> {
        match self {
            EchoParamKind::Send => "Send"@,
            EchoParamKind::FbLocal => "FB Local"@,
            EchoParamKind::FbCross => "FB Cross"@,
            EchoParamKind::TimeLMs => "Time L (ms)"@,
            EchoParamKind::TimeRMs => "Time R (ms)"@,
            EchoParamKind::LpfHz => "LPF (Hz)"@,
        }
    }

    fn all() -> (r: Vec<Self>) {
        let mut r: Vec<Self> = Vec::new();
        r.push(EchoParamKind::Send);
        r.push(EchoParamKind::FbLocal);
        r.push(EchoParamKind::FbCross);
        r.push(EchoParamKind::TimeLMs);
        r.push(EchoParamKind::TimeRMs);
        r.push(EchoParamKind::LpfHz);
        assert(r@ =~= Self::spec_all());
        r
    }

    fn osc_namespace() -> (r: &'static str) {
        "/stereo_delay"
    }

    fn osc_segment(self) -> (r: &'static str) {
        match self {
            EchoParamKind::Send => "send",
            EchoParamKind::FbLocal => "fb_local",
            EchoParamKind::FbCross => "fb_cross",
            EchoParamKind::TimeLMs => "time_l_ms",
            EchoParamKind::TimeRMs => "time_r_ms",
            EchoParamKind::LpfHz => "lpf_hz",
        }
    }

    fn name(self) -> (r: &'static str) {
        match self {
            EchoParamKind::Send => "Send",
            EchoParamKind::FbLocal => "FB Local",
            EchoParamKind::FbCross => "FB Cross",
            EchoParamKind::TimeLMs => "Time L (ms)",
            EchoParamKind::TimeRMs => "Time R (ms)",
            EchoParamKind::LpfHz => "LPF (Hz)",
        }
    }

    proof fn lemma_segments_distinct(a: Self, b: Self) {
        // Length and the characters at 0, 1, 3 and 5 tell every segment apart.
        let x = a.spec_segment();
        let y = b.spec_segment();
        reveal_strlit("send");
        reveal_strlit("fb_local");
        reveal_strlit("fb_cross");
        reveal_strlit("time_l_ms");
        reveal_strlit("time_r_ms");
        reveal_strlit("lpf_hz");
        assert(x.len() != y.len() || x[0] != y[0] || x[1] != y[1] || x[3] != y[3] || x[5] != y[5]);
    }

    proof fn lemma_all_complete(k: Self) {
        assert(Self::spec_all()[Self::spec_index_of(k)] == k);
    }

    open spec fn spec_index_of(k: Self) -> int {
        match k {
            EchoParamKind::Send => 0,
            EchoParamKind::FbLocal => 1,
            EchoParamKind::FbCross => 2,
            EchoParamKind::TimeLMs => 3,
            EchoParamKind::TimeRMs => 4,
            EchoParamKind::LpfHz => 5,
        }
    }
}

/// Value-carrying tape delay parameter event; `V` is the value type.
#[derive(Debug, Clone, Copy)]
pub enum TapeDelayParam<V> {
    Send(V),
    RepeatRateMs(V),
    Intensity(V),
    H1Level(V),
    H2Level(V),
    H3Level(V),
    SaturationDrive(V),
    HfRolloffHz(V),
    WowDepth(V),
    WowRateHz(V),
    FlutterDepth(V),
    FlutterRateHz(V),
}

/// Value-less identifier of each tape delay parameter, in display order.
#[derive(Debug, Clone, Copy, PartialEq, Eq, Structural)]
pub enum TapeDelayParamKind {
    Send,
    RepeatRateMs,
    Intensity,
    H1Level,
    H2Level,
    H3Level,
    SaturationDrive,
    HfRolloffHz,
    WowDepth,
    WowRateHz,
    FlutterDepth,
    FlutterRateHz,
}

impl TapeDelayParamKind {
    /// The event carrying `value` for this parameter.
    pub open spec fn spec_build<V>(self, value: V) -> TapeDelayParam<V> {
        match self {
            TapeDelayParamKind::Send => TapeDelayParam::Send(value),
            TapeDelayParamKind::RepeatRateMs => TapeDelayParam::RepeatRateMs(value),
            TapeDelayParamKind::Intensity => TapeDelayParam::Intensity(value),
            TapeDelayParamKind::H1Level => TapeDelayParam::H1Level(value),
            TapeDelayParamKind::H2Level => TapeDelayParam::H2Level(value),
            TapeDelayParamKind::H3Level => TapeDelayParam::H3Level(value),
            TapeDelayParamKind::SaturationDrive => TapeDelayParam::SaturationDrive(value),
            TapeDelayParamKind::HfRolloffHz => TapeDelayParam::HfRolloffHz(value),
            TapeDelayParamKind::WowDepth => TapeDelayParam::WowDepth(value),
            TapeDelayParamKind::WowRateHz => TapeDelayParam::WowRateHz(value),
            TapeDelayParamKind::FlutterDepth => TapeDelayParam::FlutterDepth(value),
            TapeDelayParamKind::FlutterRateHz => TapeDelayParam::FlutterRateHz(value),
        }
    }

    /// Construct the value-carrying event for this parameter.
    pub fn build<V>(self, value: V) -> (p: TapeDelayParam<V>)
        ensures
            p == self.spec_build(value),
    {
        match self {
            TapeDelayParamKind::Send => TapeDelayParam::Send(value),
            TapeDelayParamKind::RepeatRateMs => TapeDelayParam::RepeatRateMs(value),
            TapeDelayParamKind::Intensity => TapeDelayParam::Intensity(value),
            TapeDelayParamKind::H1Level => TapeDelayParam::H1Level(value),
            TapeDelayParamKind::H2Level => TapeDelayParam::H2Level(value),
            TapeDelayParamKind::H3Level => TapeDelayParam::H3Level(value),
            TapeDelayParamKind::SaturationDrive => TapeDelayParam::SaturationDrive(value),
            TapeDelayParamKind::HfRolloffHz => TapeDelayParam::HfRolloffHz(value),
            TapeDelayParamKind::WowDepth => TapeDelayParam::WowDepth(value),
            TapeDelayParamKind::WowRateHz => TapeDelayParam::WowRateHz(value),
            TapeDelayParamKind::FlutterDepth => TapeDelayParam::FlutterDepth(value),
            TapeDelayParamKind::FlutterRateHz => TapeDelayParam::FlutterRateHz(value),
        }
    }
}

impl<V> TapeDelayParam<V> {
    /// Which parameter this event addresses.
    pub open spec fn kind(self) -> TapeDelayParamKind {
        match self {
            TapeDelayParam::Send(_) => TapeDelayParamKind::Send,
            TapeDelayParam::RepeatRateMs(_) => TapeDelayParamKind::RepeatRateMs,
            TapeDelayParam::Intensity(_) => TapeDelayParamKind::Intensity,
            TapeDelayParam::H1Level(_) => TapeDelayParamKind::H1Level,
            TapeDelayParam::H2Level(_) => TapeDelayParamKind::H2Level,
            TapeDelayParam::H3Level(_) => TapeDelayParamKind::H3Level,
            TapeDelayParam::SaturationDrive(_) => TapeDelayParamKind::SaturationDrive,
            TapeDelayParam::HfRolloffHz(_) => TapeDelayParamKind::HfRolloffHz,
            TapeDelayParam::WowDepth(_) => TapeDelayParamKind::WowDepth,
            TapeDelayParam::WowRateHz(_) => TapeDelayParamKind::WowRateHz,
            TapeDelayParam::FlutterDepth(_) => TapeDelayParamKind::FlutterDepth,
            TapeDelayParam::FlutterRateHz(_) => TapeDelayParamKind::FlutterRateHz,
        }
    }

    /// The value this event carries.
    pub open spec fn value(self) -> V {
        match self {
            TapeDelayParam::Send(x) => x,
            TapeDelayParam::RepeatRateMs(x) => x,
            TapeDelayParam::Intensity(x) => x,
            TapeDelayParam::H1Level(x) => x,
            TapeDelayParam::H2Level(x) => x,
            TapeDelayParam::H3Level(x) => x,
            TapeDelayParam::SaturationDrive(x) => x,
            TapeDelayParam::HfRolloffHz(x) => x,
            TapeDelayParam::WowDepth(x) => x,
            TapeDelayParam::WowRateHz(x) => x,
            TapeDelayParam::FlutterDepth(x) => x,
            TapeDelayParam::FlutterRateHz(x) => x,
        }
    }
}

impl<V: Copy> TapeDelayParam<V> {
    /// The value this event carries.
    pub fn value_of(&self) -> (r: V)
        ensures
            r == self.value(),
    {
        match self {
            TapeDelayParam::Send(x) => *x,
            TapeDelayParam::RepeatRateMs(x) => *x,
            TapeDelayParam::Intensity(x) => *x,
            TapeDelayParam::H1Level(x) => *x,
            TapeDelayParam::H2Level(x) => *x,
            TapeDelayParam::H3Level(x) => *x,
            TapeDelayParam::SaturationDrive(x) => *x,
            TapeDelayParam::HfRolloffHz(x) => *x,
            TapeDelayParam::WowDepth(x) => *x,
            TapeDelayParam::WowRateHz(x) => *x,
            TapeDelayParam::FlutterDepth(x) => *x,
            TapeDelayParam::FlutterRateHz(x) => *x,
        }
    }

    /// The same parameter, set to `w`.
    pub fn with_value<W>(self, w: W) -> (r: TapeDelayParam<W>)
        ensures
            r == self.kind().spec_build(w),
    {
        match self {
            TapeDelayParam::Send(_) => TapeDelayParam::Send(w),
            TapeDelayParam::RepeatRateMs(_) => TapeDelayParam::RepeatRateMs(w),
            TapeDelayParam::Intensity(_) => TapeDelayParam::Intensity(w),
            TapeDelayParam::H1Level(_) => TapeDelayParam::H1Level(w),
            TapeDelayParam::H2Level(_) => TapeDelayParam::H2Level(w),
            TapeDelayParam::H3Level(_) => TapeDelayParam::H3Level(w),
            TapeDelayParam::SaturationDrive(_) => TapeDelayParam::SaturationDrive(w),
            TapeDelayParam::HfRolloffHz(_) => TapeDelayParam::HfRolloffHz(w),
            TapeDelayParam::WowDepth(_) => TapeDelayParam::WowDepth(w),
            TapeDelayParam::WowRateHz(_) => TapeDelayParam::WowRateHz(w),
            TapeDelayParam::FlutterDepth(_) => TapeDelayParam::FlutterDepth(w),
            TapeDelayParam::FlutterRateHz(_) => TapeDelayParam::FlutterRateHz(w),
        }
    }
}

impl FloatParams for TapeDelayParamKind {
    open spec fn spec_all() -> Seq<Self> {
        seq![TapeDelayParamKind::Send, TapeDelayParamKind::RepeatRateMs, TapeDelayParamKind::Intensity, TapeDelayParamKind::H1Level, TapeDelayParamKind::H2Level, TapeDelayParamKind::H3Level, TapeDelayParamKind::SaturationDrive, TapeDelayParamKind::HfRolloffHz, TapeDelayParamKind::WowDepth, TapeDelayParamKind::WowRateHz, TapeDelayParamKind::FlutterDepth, TapeDelayParamKind::FlutterRateHz]
    }

    open spec fn spec_namespace() -> Seq<char> {
        "/tape_delay"@
    }

    open spec fn spec_segment(self) -> Seq<char> {
        match self {
            TapeDelayParamKind::Send => "send"@,
            TapeDelayParamKind::RepeatRateMs => "repeat_rate_ms"@,
            TapeDelayParamKind::Intensity => "intensity"@,
            TapeDelayParamKind::H1Level => "h1_level"@,
            TapeDelayParamKind::H2Level => "h2_level"@,
            TapeDelayParamKind::H3Level => "h3_level"@,
            TapeDelayParamKind::SaturationDrive => "saturation_drive"@,
            TapeDelayParamKind::HfRolloffHz => "hf_rolloff_hz"@,
            TapeDelayParamKind::WowDepth => "wow_depth"@,
            TapeDelayParamKind::WowRateHz => "wow_rate_hz"@,
            TapeDelayParamKind::FlutterDepth => "flutter_depth"@,
            TapeDelayParamKind::FlutterRateHz => "flutter_rate_hz"@,
        }
    }

    open spec fn spec_name(self) -> Seq<char> {
        match self {
            TapeDelayParamKind::Send => "Send"@,
            TapeDelayParamKind::RepeatRateMs => "Repeat Rate (ms)"@,
            TapeDelayParamKind::Intensity => "Intensity"@,
            TapeDelayParamKind::H1Level => "Head 1 Level"@,
            TapeDelayParamKind::H2Level => "Head 2 Level"@,
            TapeDelayParamKind::H3Level => "Head 3 Level"@,
            TapeDelayParamKind::SaturationDrive => "Tape Drive"@,
            TapeDelayParamKind::HfRolloffHz => "HF Rolloff (Hz)"@,
            TapeDelayParamKind::WowDepth => "Wow Depth"@,
            TapeDelayParamKind::WowRateHz => "Wow Rate (Hz)"@,
            TapeDelayParamKind::FlutterDepth => "Flutter Depth"@,
            TapeDelayParamKind::FlutterRateHz => "Flutter Rate (Hz)"@,
        }
    }

    fn all() -> (r: Vec<Self>) {
        let mut r: Vec<Self> = Vec::new();
        r.push(TapeDelayParamKind::Send);
        r.push(TapeDelayParamKind::RepeatRateMs);
        r.push(TapeDelayParamKind::Intensity);
        r.push(TapeDelayParamKind::H1Level);
        r.push(TapeDelayParamKind::H2Level);
        r.push(TapeDelayParamKind::H3Level);
        r.push(TapeDelayParamKind::SaturationDrive);
        r.push(TapeDelayParamKind::HfRolloffHz);
        r.push(TapeDelayParamKind::WowDepth);
        r.push(TapeDelayParamKind::WowRateHz);
        r.push(TapeDelayParamKind::FlutterDepth);
        r.push(TapeDelayParamKind::FlutterRateHz);
        assert(r@ =~= Self::spec_all());
        r
    }

    fn osc_namespace() -> (r: &'static str) {
        "/tape_delay"
    }

    fn osc_segment(self) -> (r: &'static str) {
        match self {
            TapeDelayParamKind::Send => "send",
            TapeDelayParamKind::RepeatRateMs => "repeat_rate_ms",
            TapeDelayParamKind::Intensity => "intensity",
            TapeDelayParamKind::H1Level => "h1_level",
            TapeDelayParamKind::H2Level => "h2_level",
            TapeDelayParamKind::H3Level => "h3_level",
            TapeDelayParamKind::SaturationDrive => "saturation_drive",
            TapeDelayParamKind::HfRolloffHz => "hf_rolloff_hz",
            TapeDelayParamKind::WowDepth => "wow_depth",
            TapeDelayParamKind::WowRateHz => "wow_rate_hz",
            TapeDelayParamKind::FlutterDepth => "flutter_depth",
            TapeDelayParamKind::FlutterRateHz => "flutter_rate_hz",
        }
    }

    fn name(self) -> (r: &'static str) {
        match self {
            TapeDelayParamKind::Send => "Send",
            TapeDelayParamKind::RepeatRateMs => "Repeat Rate (ms)",
            TapeDelayParamKind::Intensity => "Intensity",
            TapeDelayParamKind::H1Level => "Head 1 Level",
            TapeDelayParamKind::H2Level => "Head 2 Level",
            TapeDelayParamKind::H3Level => "Head 3 Level",
            TapeDelayParamKind::SaturationDrive => "Tape Drive",
            TapeDelayParamKind::HfRolloffHz => "HF Rolloff (Hz)",
            TapeDelayParamKind::WowDepth => "Wow Depth",
            TapeDelayParamKind::WowRateHz => "Wow Rate (Hz)",
            TapeDelayParamKind::FlutterDepth => "Flutter Depth",
            TapeDelayParamKind::FlutterRateHz => "Flutter Rate (Hz)",
        }
    }

    proof fn lemma_segments_distinct(a: Self, b: Self) {
        // Length and the characters at 0, 1, 3 and 5 tell every segment apart.
        let x = a.spec_segment();
        let y = b.spec_segment();
        reveal_strlit("send");
        reveal_strlit("repeat_rate_ms");
        reveal_strlit("intensity");
        reveal_strlit("h1_level");
        reveal_strlit("h2_level");
        reveal_strlit("h3_level");
        reveal_strlit("saturation_drive");
        reveal_strlit("hf_rolloff_hz");
        reveal_strlit("wow_depth");
        reveal_strlit("wow_rate_hz");
        reveal_strlit("flutter_depth");
        reveal_strlit("flutter_rate_hz");
        assert(x.len() != y.len() || x[0] != y[0] || x[1] != y[1] || x[3] != y[3] || x[5] != y[5]);
    }

    proof fn lemma_all_complete(k: Self) {
        assert(Self::spec_all()[Self::spec_index_of(k)] == k);
    }

    open spec fn spec_index_of(k: Self) -> int {
        match k {
            TapeDelayParamKind::Send => 0,
            TapeDelayParamKind::RepeatRateMs => 1,
            TapeDelayParamKind::Intensity => 2,
            TapeDelayParamKind::H1Level => 3,
            TapeDelayParamKind::H2Level => 4,
            TapeDelayParamKind::H3Level => 5,
            TapeDelayParamKind::SaturationDrive => 6,
            TapeDelayParamKind::HfRolloffHz => 7,
            TapeDelayParamKind::WowDepth => 8,
            TapeDelayParamKind::WowRateHz => 9,
            TapeDelayParamKind::FlutterDepth => 10,
            TapeDelayParamKind::FlutterRateHz => 11,
        }
    }
}

/// Value-carrying compressor parameter event; `V` is the value type.
#[derive(Debug, Clone, Copy)]
pub enum CompressorParam<V> {
    ThresholdDb(V),
    Ratio(V),
    AttackMs(V),
    ReleaseMs(V),
    KneeDb(V),
    MakeupDb(V),
}

/// Value-less identifier of each compressor parameter, in display order.
#[derive(Debug, Clone, Copy, PartialEq, Eq, Structural)]
pub enum CompressorParamKind {
    ThresholdDb,
    Ratio,
    AttackMs,
    ReleaseMs,
    KneeDb,
    MakeupDb,
}

impl CompressorParamKind {
    /// The event carrying `value` for this parameter.
    pub open spec fn spec_build<V>(self, value: V) -> CompressorParam<V> {
        match self {
            CompressorParamKind::ThresholdDb => CompressorParam::ThresholdDb(value),
            CompressorParamKind::Ratio => CompressorParam::Ratio(value),
            CompressorParamKind::AttackMs => CompressorParam::AttackMs(value),
            CompressorParamKind::ReleaseMs => CompressorParam::ReleaseMs(value),
            CompressorParamKind::KneeDb => CompressorParam::KneeDb(value),
            CompressorParamKind::MakeupDb => CompressorParam::MakeupDb(value),
        }
    }

    /// Construct the value-carrying event for this parameter.
    pub fn build<V>(self, value: V) -> (p: CompressorParam<V>)
        ensures
            p == self.spec_build(value),
    {
        match self {
            CompressorParamKind::ThresholdDb => CompressorParam::ThresholdDb(value),
            CompressorParamKind::Ratio => CompressorParam::Ratio(value),
            CompressorParamKind::AttackMs => CompressorParam::AttackMs(value),
            CompressorParamKind::ReleaseMs => CompressorParam::ReleaseMs(value),
            CompressorParamKind::KneeDb => CompressorParam::KneeDb(value),
            CompressorParamKind::MakeupDb => CompressorParam::MakeupDb(value),
        }
    }
}

impl<V> CompressorParam<V> {
    /// Which parameter this event addresses.
    pub open spec fn kind(self) -> CompressorParamKind {
        match self {
            CompressorParam::ThresholdDb(_) => CompressorParamKind::ThresholdDb,
            CompressorParam::Ratio(_) => CompressorParamKind::Ratio,
            CompressorParam::AttackMs(_) => CompressorParamKind::AttackMs,
            CompressorParam::ReleaseMs(_) => CompressorParamKind::ReleaseMs,
            CompressorParam::KneeDb(_) => CompressorParamKind::KneeDb,
            CompressorParam::MakeupDb(_) => CompressorParamKind::MakeupDb,
        }
    }

    /// The value this event carries.
    pub open spec fn value(self) -> V {
        match self {
            CompressorParam::ThresholdDb(x) => x,
            CompressorParam::Ratio(x) => x,
            CompressorParam::AttackMs(x) => x,
            CompressorParam::ReleaseMs(x) => x,
            CompressorParam::KneeDb(x) => x,
            CompressorParam::MakeupDb(x) => x,
        }
    }
}

impl<V: Copy> CompressorParam<V> {
    /// The value this event carries.
    pub fn value_of(&self) -> (r: V)
        ensures
            r == self.value(),
    {
        match self {
            CompressorParam::ThresholdDb(x) => *x,
            CompressorParam::Ratio(x) => *x,
            CompressorParam::AttackMs(x) => *x,
            CompressorParam::ReleaseMs(x) => *x,
            CompressorParam::KneeDb(x) => *x,
            CompressorParam::MakeupDb(x) => *x,
        }
    }

    /// The same parameter, set to `w`.
    pub fn with_value<W>(self, w: W) -> (r: CompressorParam<W>)
        ensures
            r == self.kind().spec_build(w),
    {
        match self {
            CompressorParam::ThresholdDb(_) => CompressorParam::ThresholdDb(w),
            CompressorParam::Ratio(_) => CompressorParam::Ratio(w),
            CompressorParam::AttackMs(_) => CompressorParam::AttackMs(w),
            CompressorParam::ReleaseMs(_) => CompressorParam::ReleaseMs(w),
            CompressorParam::KneeDb(_) => CompressorParam::KneeDb(w),
            CompressorParam::MakeupDb(_) => CompressorParam::MakeupDb(w),
        }
    }
}

impl FloatParams for CompressorParamKind {
    open spec fn spec_all() -> Seq<Self> {
        seq![CompressorParamKind::ThresholdDb, CompressorParamKind::Ratio, CompressorParamKind::AttackMs, CompressorParamKind::ReleaseMs, CompressorParamKind::KneeDb, CompressorParamKind::MakeupDb]
    }

    open spec fn spec_namespace() -> Seq<char> {
        "/compressor"@
    }

    open spec fn spec_segment(self) -> Seq<char> {
        match self {
            CompressorParamKind::ThresholdDb => "threshold_db"@,
            CompressorParamKind::Ratio => "ratio"@,
            CompressorParamKind::AttackMs => "attack_ms"@,
            CompressorParamKind::ReleaseMs => "release_ms"@,
            CompressorParamKind::KneeDb => "knee_db"@,
            CompressorParamKind::MakeupDb => "makeup_db"@,
        }
    }

    open spec fn spec_name(self) -> Seq<char> {
        match self {
            CompressorParamKind::ThresholdDb => "Threshold (dB)"@,
            CompressorParamKind::Ratio => "Ratio"@,
            CompressorParamKind::AttackMs => "Attack (ms)"@,
            CompressorParamKind::ReleaseMs => "Release (ms)"@,
            CompressorParamKind::KneeDb => "Knee (dB)"@,
            CompressorParamKind::MakeupDb => "Makeup (dB)"@,
        }
    }

    fn all() -> (r: Vec<Self>) {
        let mut r: Vec<Self> = Vec::new();
        r.push(CompressorParamKind::ThresholdDb);
        r.push(CompressorParamKind::Ratio);
        r.push(CompressorParamKind::AttackMs);
        r.push(CompressorParamKind::ReleaseMs);
        r.push(CompressorParamKind::KneeDb);
        r.push(CompressorParamKind::MakeupDb);
        assert(r@ =~= Self::spec_all());
        r
    }

    fn osc_namespace() -> (r: &'static str) {
        "/compressor"
    }

    fn osc_segment(self) -> (r: &'static str) {
        match self {
            CompressorParamKind::ThresholdDb => "threshold_db",
            CompressorParamKind::Ratio => "ratio",
            CompressorParamKind::AttackMs => "attack_ms",
            CompressorParamKind::ReleaseMs => "release_ms",
            CompressorParamKind::KneeDb => "knee_db",
            CompressorParamKind::MakeupDb => "makeup_db",
        }
    }

    fn name(self) -> (r: &'static str) {
        match self {
            CompressorParamKind::ThresholdDb => "Threshold (dB)",
            CompressorParamKind::Ratio => "Ratio",
            CompressorParamKind::AttackMs => "Attack (ms)",
            CompressorParamKind::ReleaseMs => "Release (ms)",
            CompressorParamKind::KneeDb => "Knee (dB)",
            CompressorParamKind::MakeupDb => "Makeup (dB)",
        }
    }

    proof fn lemma_segments_distinct(a: Self, b: Self) {
        // Length and the characters at 0, 1, 3 and 5 tell every segment apart.
        let x = a.spec_segment();
        let y = b.spec_segment();
        reveal_strlit("threshold_db");
        reveal_strlit("ratio");
        reveal_strlit("attack_ms");
        reveal_strlit("release_ms");
        reveal_strlit("knee_db");
        reveal_strlit("makeup_db");
        assert(x.len() != y.len() || x[0] != y[0] || x[1] != y[1] || x[3] != y[3] || x[5] != y[5]);
    }

    proof fn lemma_all_complete(k: Self) {
        assert(Self::spec_all()[Self::spec_index_of(k)] == k);
    }

    open spec fn spec_index_of(k: Self) -> int {
        match k {
            CompressorParamKind::ThresholdDb => 0,
            CompressorParamKind::Ratio => 1,
            CompressorParamKind::AttackMs => 2,
            CompressorParamKind::ReleaseMs => 3,
            CompressorParamKind::KneeDb => 4,
            CompressorParamKind::MakeupDb => 5,
        }
    }
}

} // verus!
