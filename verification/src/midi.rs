//! Streaming MIDI byte parser that extracts Control Change events.
//!
//! The parser keeps the running status and at most one pending data byte.
//! System Real-Time bytes (`0xF8..=0xFF`) may be interleaved anywhere and are
//! transparent; System Common bytes (`0xF0..=0xF7`) clear the running status;
//! two-byte channel messages other than Control Change are consumed so the
//! data cursor stays in sync, and only Control Change events are emitted.

use vstd::prelude::*;

verus! {

/// Abstract state of the parser: the running status byte (0 when there is
/// none) and the first data byte of a two-byte message, if one is pending.
pub struct MidiState {
    pub status: u8,
    pub pending: Option<u8>,
}

/// A Control Change event: `(channel, controller number, value)`.
pub type CcEvent = (u8, u8, u8);

/// True for System Real-Time bytes.
pub open spec fn is_realtime(byte: u8) -> bool {
    byte >= 0xF8
}

/// True for data bytes (high bit clear).
pub open spec fn is_data(byte: u8) -> bool {
    byte < 0x80
}

/// The high nibble of a status byte, as a status value (`0x80`, `0x90`, ...).
pub open spec fn message_type(status: u8) -> int {
    (status / 16) * 16
}

/// The low nibble of a status byte.
pub open spec fn channel_of(status: u8) -> u8 {
    (status % 16) as u8
}

/// One parser step: the state after `byte` and the event it completes.
pub open spec fn step(s: MidiState, byte: u8) -> (MidiState, Option<CcEvent>) {
    if is_realtime(byte) {
        (s, None)
    } else if !is_data(byte) {
        if byte >= 0xF0 {
            (MidiState { status: 0, pending: None }, None)
        } else {
            (MidiState { status: byte, pending: None }, None)
        }
    } else if s.status == 0 {
        (s, None)
    } else {
        let t = message_type(s.status);
        if t == 0xB0 {
            match s.pending {
                Some(cc) => (
                    MidiState { status: s.status, pending: None },
                    Some((channel_of(s.status), cc, byte)),
                ),
                None => (MidiState { status: s.status, pending: Some(byte) }, None),
            }
        } else if t == 0x80 || t == 0x90 || t == 0xA0 || t == 0xE0 {
            match s.pending {
                Some(_) => (MidiState { status: s.status, pending: None }, None),
                None => (MidiState { status: s.status, pending: Some(byte) }, None),
            }
        } else {
            (s, None)
        }
    }
}

/// The events of an optional event, as a sequence of length 0 or 1.
pub open spec fn opt_seq(e: Option<CcEvent>) -> Seq<CcEvent> {
    match e {
        Some(ev) => seq![ev],
        None => Seq::empty(),
    }
}

/// Feeding a whole byte stream: the final state and every emitted event, in order.
pub open spec fn run(s: MidiState, bytes: Seq<u8>) -> (MidiState, Seq<CcEvent>)
    decreases bytes.len(),
{
    if bytes.len() == 0 {
        (s, Seq::empty())
    } else {
        let (s1, e) = step(s, bytes[0]);
        let (s2, es) = run(s1, bytes.drop_first());
        (s2, opt_seq(e) + es)
    }
}

/// The state of a freshly created parser.
pub open spec fn initial_state() -> MidiState {
    MidiState { status: 0, pending: None }
}

/// States the parser can actually be in: the running status is either absent
/// or a channel-message status byte, and a pending byte is always a data byte.
pub open spec fn reachable(s: MidiState) -> bool {
    &&& (s.status == 0 || (0x80 <= s.status && s.status < 0xF0))
    &&& (s.pending matches Some(d) ==> d < 0x80)
}

/// `bytes` with every System Real-Time byte removed.
pub open spec fn without_realtime(bytes: Seq<u8>) -> Seq<u8>
    decreases bytes.len(),
{
    if bytes.len() == 0 {
        bytes
    } else if is_realtime(bytes[0]) {
        without_realtime(bytes.drop_first())
    } else {
        seq![bytes[0]] + without_realtime(bytes.drop_first())
    }
}

/// The Control Change events that consecutive `(cc, value)` data-byte pairs
/// produce on `channel` under a running Control Change status.
pub open spec fn cc_pairs(channel: u8, data: Seq<u8>) -> Seq<CcEvent>
    decreases data.len(),
{
    if data.len() < 2 {
        Seq::empty()
    } else {
        seq![(channel, data[0], data[1])] + cc_pairs(channel, data.subrange(2, data.len() as int))
    }
}

/// Streaming parser. Feed it one byte at a time.
pub struct MidiParser {
    status: u8,
    pending_data: Option<u8>,
}

impl View for MidiParser {
    type V = MidiState;

    closed spec fn view(&self) -> MidiState {
        MidiState { status: self.status, pending: self.pending_data }
    }
}

impl MidiParser {
    /// Every parser is in a reachable state: its running status is absent or
    /// a channel-message status byte, and a pending byte is a data byte.
    #[verifier::type_invariant]
    spec fn parser_inv(self) -> bool {
        reachable(MidiState { status: self.status, pending: self.pending_data })
    }

    /// A parser with no running status and nothing pending.
    pub fn new() -> (p: Self)
        ensures
            p@ == initial_state(),
            reachable(p@),
    {
        MidiParser { status: 0, pending_data: None }
    }

    /// Feed one byte. Returns `Some((channel, cc, value))` when the byte
    /// completes a Control Change message; `None` otherwise.
    pub fn feed(&mut self, byte: u8) -> (r: Option<CcEvent>)
        ensures
            (final(self)@, r) == step(old(self)@, byte),
            reachable(old(self)@),
            reachable(final(self)@),
            r matches Some(ev) ==> ev.0 < 16 && ev.1 < 0x80 && ev.2 < 0x80,
    {
        proof {
            use_type_invariant(&*self);
            lemma_step_reachable(self@, byte);
        }
        // System Real-Time: transparent, running status untouched.
        if byte >= 0xF8 {
            return None;
        }
        // Status byte.
        if byte >= 0x80 {
            if byte >= 0xF0 {
                // System Common clears running status.
                self.status = 0;
                self.pending_data = None;
                return None;
            }
            self.status = byte;
            self.pending_data = None;
            return None;
        }
        // Data byte without running status is ignored.
        if self.status == 0 {
            return None;
        }
        let msg_type: u8 = (self.status / 16) * 16;
        let channel: u8 = self.status % 16;
        if msg_type == 0xB0 {
            match self.pending_data {
                Some(cc) => {
                    self.pending_data = None;
                    Some((channel, cc, byte))
                },
                None => {
                    self.pending_data = Some(byte);
                    None
                },
            }
        } else if msg_type == 0x80 || msg_type == 0x90 || msg_type == 0xA0 || msg_type == 0xE0 {
            if self.pending_data.is_some() {
                self.pending_data = None;
            } else {
                self.pending_data = Some(byte);
            }
            None
        } else {
            None
        }
    }
}

/// Running a concatenation is running the first part, then the second part
/// from where the first left off.
pub proof fn lemma_run_concat(s: MidiState, a: Seq<u8>, b: Seq<u8>)
    ensures
        run(s, a + b).0 == run(run(s, a).0, b).0,
        run(s, a + b).1 == run(s, a).1 + run(run(s, a).0, b).1,
    decreases a.len(),
{
    if a.len() == 0 {
        assert(a + b =~= b);
    } else {
        let (s1, e) = step(s, a[0]);
        assert((a + b)[0] == a[0]);
        assert((a + b).drop_first() =~= a.drop_first() + b);
        lemma_run_concat(s1, a.drop_first(), b);
        assert(opt_seq(e) + (run(s1, a.drop_first()).1 + run(run(s1, a.drop_first()).0, b).1)
            =~= (opt_seq(e) + run(s1, a.drop_first()).1) + run(run(s1, a.drop_first()).0, b).1);
    }
}

/// Steps keep the parser in a reachable state, and every emitted event has a
/// channel below 16 and 7-bit controller number and value.
pub proof fn lemma_step_reachable(s: MidiState, byte: u8)
    requires
        reachable(s),
    ensures
        reachable(step(s, byte).0),
        step(s, byte).1 matches Some(ev) ==> ev.0 < 16 && ev.1 < 0x80 && ev.2 < 0x80,
{
}

/// Law: from a reachable state, every event a stream produces is a Control
/// Change with a channel below 16 and 7-bit controller number and value, and
/// the parser stays reachable.
pub proof fn lemma_events_well_formed(s: MidiState, bytes: Seq<u8>)
    requires
        reachable(s),
    ensures
        reachable(run(s, bytes).0),
        forall|i: int|
            0 <= i < run(s, bytes).1.len() ==> {
                let ev = #[trigger] run(s, bytes).1[i];
                ev.0 < 16 && ev.1 < 0x80 && ev.2 < 0x80
            },
    decreases bytes.len(),
{
    if bytes.len() > 0 {
        let (s1, e) = step(s, bytes[0]);
        lemma_step_reachable(s, bytes[0]);
        lemma_events_well_formed(s1, bytes.drop_first());
        let rest = run(s1, bytes.drop_first()).1;
        assert forall|i: int| 0 <= i < run(s, bytes).1.len() implies {
            let ev = #[trigger] run(s, bytes).1[i];
            ev.0 < 16 && ev.1 < 0x80 && ev.2 < 0x80
        } by {
            if e is Some && i == 0 {
            } else {
                let k = if e is Some { i - 1 } else { i };
                assert(run(s, bytes).1[i] == rest[k]);
            }
        }
    }
}

/// Law: System Real-Time bytes are transparent. Removing all of them from a
/// stream changes neither the events nor the final state.
pub proof fn lemma_realtime_transparent(s: MidiState, bytes: Seq<u8>)
    ensures
        run(s, without_realtime(bytes)) == run(s, bytes),
    decreases bytes.len(),
{
    if bytes.len() > 0 {
        lemma_realtime_transparent(step(s, bytes[0]).0, bytes.drop_first());
        if is_realtime(bytes[0]) {
            lemma_realtime_transparent(s, bytes.drop_first());
            assert(opt_seq(None) + run(s, bytes.drop_first()).1 =~= run(s, bytes.drop_first()).1);
        } else {
            let w = seq![bytes[0]] + without_realtime(bytes.drop_first());
            assert(w[0] == bytes[0]);
            assert(w.drop_first() =~= without_realtime(bytes.drop_first()));
        }
    }
}

/// Running a single byte is one step.
proof fn lemma_run_one(s: MidiState, byte: u8)
    ensures
        run(s, seq![byte]) == (step(s, byte).0, opt_seq(step(s, byte).1)),
{
    let one = seq![byte];
    assert(one[0] == byte);
    assert(one.drop_first() =~= Seq::<u8>::empty());
    let (s1, e) = step(s, byte);
    assert(run(s1, one.drop_first()) == (s1, Seq::<CcEvent>::empty()));
    assert(opt_seq(e) + Seq::<CcEvent>::empty() =~= opt_seq(e));
}

/// Law: inserting one System Real-Time byte anywhere in a stream does not
/// change the events or the final state.
pub proof fn lemma_realtime_insertion(s: MidiState, a: Seq<u8>, rt: u8, b: Seq<u8>)
    requires
        is_realtime(rt),
    ensures
        run(s, a + seq![rt] + b) == run(s, a + b),
{
    lemma_run_concat(s, a + seq![rt], b);
    lemma_run_concat(s, a, seq![rt]);
    lemma_run_concat(s, a, b);
    let m = run(s, a).0;
    lemma_run_one(m, rt);
    assert(run(m, seq![rt]).1 =~= Seq::<CcEvent>::empty());
    assert(run(s, a).1 + Seq::<CcEvent>::empty() =~= run(s, a).1);
}

/// Law: under a running Control Change status with nothing pending, a run of
/// data bytes emits one event per `(cc, value)` pair, on the status' channel.
pub proof fn lemma_running_status(channel: u8, data: Seq<u8>)
    requires
        channel < 16,
        forall|i: int| 0 <= i < data.len() ==> is_data(#[trigger] data[i]),
        data.len() % 2 == 0,
    ensures
        run(MidiState { status: (0xB0 + channel) as u8, pending: None }, data).1 == cc_pairs(channel, data),
        run(MidiState { status: (0xB0 + channel) as u8, pending: None }, data).0 == (MidiState {
            status: (0xB0 + channel) as u8,
            pending: None,
        }),
    decreases data.len(),
{
    let st = (0xB0 + channel) as u8;
    let s = MidiState { status: st, pending: None };
    if data.len() > 0 {
        let rest = data.subrange(2, data.len() as int);
        assert forall|i: int| 0 <= i < rest.len() implies is_data(#[trigger] rest[i]) by {
            assert(rest[i] == data[i + 2]);
        }
        lemma_running_status(channel, rest);
        assert(is_data(data[0]));
        assert(is_data(data[1]));
        let s1 = MidiState { status: st, pending: Some(data[0]) };
        assert(step(s, data[0]) == (s1, None::<CcEvent>));
        assert(data.drop_first()[0] == data[1]);
        assert(step(s1, data[1]) == (s, Some((channel, data[0], data[1]))));
        assert(data.drop_first().drop_first() =~= rest);
        assert(run(s1, data.drop_first()).1 =~= seq![(channel, data[0], data[1])] + run(s, rest).1);
        assert(run(s, data).1 =~= Seq::<CcEvent>::empty() + run(s1, data.drop_first()).1);
    }
}

/// Law: a System Common byte clears the running status, so data bytes that
/// follow it produce no events until a new status byte arrives.
pub proof fn lemma_system_common_clears(s: MidiState, sys: u8, data: Seq<u8>)
    requires
        0xF0 <= sys && sys < 0xF8,
        forall|i: int| 0 <= i < data.len() ==> is_data(#[trigger] data[i]),
    ensures
        run(s, seq![sys] + data).1 == Seq::<CcEvent>::empty(),
    decreases data.len(),
{
    lemma_run_concat(s, seq![sys], data);
    lemma_run_one(s, sys);
    let cleared = MidiState { status: 0, pending: None };
    assert(run(s, seq![sys]).0 == cleared);
    lemma_idle_data_silent(data);
    assert(run(s, seq![sys]).1 =~= Seq::<CcEvent>::empty());
}

/// Data bytes without a running status leave the parser idle and silent.
proof fn lemma_idle_data_silent(data: Seq<u8>)
    requires
        forall|i: int| 0 <= i < data.len() ==> is_data(#[trigger] data[i]),
    ensures
        run(MidiState { status: 0, pending: None }, data).1 == Seq::<CcEvent>::empty(),
    decreases data.len(),
{
    if data.len() > 0 {
        assert(is_data(data[0]));
        assert forall|i: int| 0 <= i < data.drop_first().len() implies is_data(
            #[trigger] data.drop_first()[i],
        ) by {
            assert(data.drop_first()[i] == data[i + 1]);
        }
        lemma_idle_data_silent(data.drop_first());
        assert(Seq::<CcEvent>::empty() + Seq::<CcEvent>::empty() =~= Seq::<CcEvent>::empty());
    }
}

} // verus!
