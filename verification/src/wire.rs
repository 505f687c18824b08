//! OSC datagrams as the library reads and writes them: messages with their
//! arguments (floats carried by their IEEE-754 bits), bundles nested to any
//! depth, the messages of a packet in visiting order, and the calls into
//! `rosc` that decode and encode the bytes.

use vstd::prelude::*;

verus! {

#[verifier::external_type_specification]
#[verifier::external_body]
pub struct ExOscPacket(rosc::OscPacket);

#[verifier::external_type_specification]
#[verifier::external_body]
pub struct ExOscMessage(rosc::OscMessage);

#[verifier::external_type_specification]
#[verifier::external_body]
pub struct ExOscType(rosc::OscType);

/// One OSC argument. Floats and doubles are carried by their bits; kinds the
/// library does not read (blobs, time tags, colours, ...) are `Other`.
#[derive(Debug, Clone)]
pub enum WireArg {
    Int(i32),
    Long(i64),
    FloatBits(u32),
    DoubleBits(u64),
    Bool(bool),
    Text(String),
    Other,
}

/// The mathematical value of a [`WireArg`].
pub enum WireArgView {
    Int(i32),
    Long(i64),
    FloatBits(u32),
    DoubleBits(u64),
    Bool(bool),
    Text(Seq<char>),
    Other,
}

impl View for WireArg {
    type V = WireArgView;

    open spec fn view(&self) -> WireArgView {
        match self {
            WireArg::Int(v) => WireArgView::Int(*v),
            WireArg::Long(v) => WireArgView::Long(*v),
            WireArg::FloatBits(v) => WireArgView::FloatBits(*v),
            WireArg::DoubleBits(v) => WireArgView::DoubleBits(*v),
            WireArg::Bool(v) => WireArgView::Bool(*v),
            WireArg::Text(s) => WireArgView::Text(s@),
            WireArg::Other => WireArgView::Other,
        }
    }
}

/// One OSC message: its address and its arguments.
#[derive(Debug, Clone)]
pub struct WireMessage {
    pub addr: String,
    pub args: Vec<WireArg>,
}

/// The mathematical value of a [`WireMessage`].
pub struct WireMessageView {
    pub addr: Seq<char>,
    pub args: Seq<WireArgView>,
}

/// The views of a sequence of arguments.
pub open spec fn args_view(args: Seq<WireArg>) -> Seq<WireArgView> {
    args.map_values(|a: WireArg| a@)
}

/// The views of a sequence of messages.
pub open spec fn messages_view(ms: Seq<WireMessage>) -> Seq<WireMessageView> {
    ms.map_values(|m: WireMessage| m@)
}

impl View for WireMessage {
    type V = WireMessageView;

    open spec fn view(&self) -> WireMessageView {
        WireMessageView { addr: self.addr@, args: args_view(self.args@) }
    }
}

/// A decoded packet: one message, or a bundle of packets.
#[derive(Debug)]
pub enum WirePacket {
    Message(WireMessage),
    Bundle(Vec<WirePacket>),
}

/// The messages of a packet in visiting order: a bundle's contents one after
/// the other, nested bundles in place.
pub open spec fn packet_messages(p: WirePacket) -> Seq<WireMessageView>
    decreases p,
{
    match p {
        WirePacket::Message(m) => seq![m@],
        WirePacket::Bundle(v) => packets_messages(v@),
    }
}

/// The messages of a sequence of packets, in order.
pub open spec fn packets_messages(ps: Seq<WirePacket>) -> Seq<WireMessageView>
    decreases ps,
{
    if ps.len() == 0 {
        Seq::empty()
    } else {
        packet_messages(ps[0]) + packets_messages(ps.subrange(1, ps.len() as int))
    }
}

/// The messages of the packet that `rosc` decodes from a datagram, in
/// visiting order; `None` when the bytes are not an OSC packet.
pub uninterp spec fn decoded_messages(bytes: Seq<u8>) -> Option<Seq<WireMessageView>>;

/// A packet to send: one message, or a bundle of messages with the immediate
/// time tag.
#[derive(Debug)]
pub enum OutPacket {
    Message(WireMessage),
    Bundle(Vec<WireMessage>),
}

/// The mathematical value of an [`OutPacket`].
pub enum OutPacketView {
    Message(WireMessageView),
    Bundle(Seq<WireMessageView>),
}

impl View for OutPacket {
    type V = OutPacketView;

    open spec fn view(&self) -> OutPacketView {
        match self {
            OutPacket::Message(m) => OutPacketView::Message(m@),
            OutPacket::Bundle(ms) => OutPacketView::Bundle(messages_view(ms@)),
        }
    }
}

/// The bytes `rosc` encodes a packet to.
pub uninterp spec fn encoded_packet(p: OutPacketView) -> Seq<u8>;

/// `rosc::decoder::decode_udp` on a datagram, the decoded packet converted
/// one for one. The contract claims that the messages of the result are the
/// named decoding of the bytes, and that the result is `None` exactly when
/// `rosc` refuses the bytes.
#[verifier::external_body]
fn decode_packet(bytes: &[u8]) -> (r: Option<WirePacket>)
    ensures
        decoded_messages(bytes@) == (match r {
            Some(p) => Some(packet_messages(p)),
            None => None,
        }),
{
    match rosc::decoder::decode_udp(bytes) {
        Ok((_, p)) => Some(packet_from_rosc(&p)),
        Err(_) => None,
    }
}

/// Converts a packet that `rosc` decoded, one for one: messages keep their
/// address and arguments, bundles their contents in order. Its only caller
/// is `decode_packet`, whose contract speaks of the result.
#[verifier::external_body]
fn packet_from_rosc(p: &rosc::OscPacket) -> (r: WirePacket) {
    match p {
        rosc::OscPacket::Message(m) => WirePacket::Message(WireMessage {
            addr: m.addr.clone(),
            args: m.args.iter().map(arg_from_rosc).collect(),
        }),
        rosc::OscPacket::Bundle(b) => WirePacket::Bundle(b.content.iter().map(packet_from_rosc).collect()),
    }
}

/// Converts one `rosc` argument: numbers by their bits, strings as text,
/// every other kind to `Other`. Its only caller is `packet_from_rosc`.
#[verifier::external_body]
fn arg_from_rosc(a: &rosc::OscType) -> (r: WireArg) {
    match a {
        rosc::OscType::Int(v) => WireArg::Int(*v),
        rosc::OscType::Long(v) => WireArg::Long(*v),
        rosc::OscType::Float(v) => WireArg::FloatBits(v.to_bits()),
        rosc::OscType::Double(v) => WireArg::DoubleBits(v.to_bits()),
        rosc::OscType::Bool(v) => WireArg::Bool(*v),
        rosc::OscType::String(s) => WireArg::Text(s.clone()),
        _ => WireArg::Other,
    }
}

/// `rosc::encoder::encode` on a packet converted one for one (a bundle gets
/// the immediate time tag, zero seconds and zero fraction). `encode` writes
/// into a `Vec` and its source returns `Ok` on every packet; the contract
/// claims that the bytes are the named encoding of the packet.
#[verifier::external_body]
fn encode_packet(p: &OutPacket) -> (r: Vec<u8>)
    ensures
        r@ == encoded_packet(p@),
{
    let packet = match p {
        OutPacket::Message(m) => rosc::OscPacket::Message(message_to_rosc(m)),
        OutPacket::Bundle(ms) => rosc::OscPacket::Bundle(rosc::OscBundle {
            timetag: rosc::OscTime { seconds: 0, fractional: 0 },
            content: ms.iter().map(|m| rosc::OscPacket::Message(message_to_rosc(m))).collect(),
        }),
    };
    rosc::encoder::encode(&packet).unwrap_or_default()
}

/// Converts a message for `rosc`, one argument for one; `Other` goes out as
/// nil. Its only caller is `encode_packet`.
#[verifier::external_body]
fn message_to_rosc(m: &WireMessage) -> (r: rosc::OscMessage) {
    rosc::OscMessage { addr: m.addr.clone(), args: m.args.iter().map(arg_to_rosc).collect() }
}

/// Converts one argument for `rosc`: numbers from their bits, text as a
/// string, `Other` as nil. Its only caller is `message_to_rosc`.
#[verifier::external_body]
fn arg_to_rosc(a: &WireArg) -> (r: rosc::OscType) {
    match a {
        WireArg::Int(v) => rosc::OscType::Int(*v),
        WireArg::Long(v) => rosc::OscType::Long(*v),
        WireArg::FloatBits(b) => rosc::OscType::Float(num_traits::FromBytes::from_be_bytes(&b.to_be_bytes())),
        WireArg::DoubleBits(b) => rosc::OscType::Double(num_traits::FromBytes::from_be_bytes(&b.to_be_bytes())),
        WireArg::Bool(v) => rosc::OscType::Bool(*v),
        WireArg::Text(s) => rosc::OscType::String(s.clone()),
        WireArg::Other => rosc::OscType::Nil,
    }
}

/// The messages of a packet in visiting order, moved out of it.
pub fn packet_into_messages(p: WirePacket) -> (r: Vec<WireMessage>)
    ensures
        messages_view(r@) == packet_messages(p),
    decreases p,
{
    match p {
        WirePacket::Message(m) => {
            let mut r: Vec<WireMessage> = Vec::new();
            r.push(m);
            assert(messages_view(r@) =~= seq![m@]);
            r
        },
        WirePacket::Bundle(v) => {
            let ghost all = v@;
            let mut rest = v;
            let mut out: Vec<WireMessage> = Vec::new();
            let ghost mut k: int = 0;
            assert(all.subrange(0, all.len() as int) =~= all);
            while rest.len() > 0
                invariant
                    0 <= k <= all.len(),
                    rest@ == all.subrange(k, all.len() as int),
                    messages_view(out@) + packets_messages(rest@) == packets_messages(all),
                    all == v@,
                    p == WirePacket::Bundle(v),
                decreases rest.len(),
            {
                let ghost before = rest@;
                let q = rest.remove(0);
                proof {
                    assert(q == all[k]);
                    assert(decreases_to!(p => p->Bundle_0));
                    assert(decreases_to!(p->Bundle_0 => p->Bundle_0@));
                    assert(decreases_to!(p->Bundle_0@ => p->Bundle_0@[k]));
                }
                let mut sub = packet_into_messages(q);
                let ghost prev = out@;
                out.append(&mut sub);
                proof {
                    assert(before[0] == q);
                    assert(before.subrange(1, before.len() as int) =~= rest@);
                    assert(messages_view(out@) =~= messages_view(prev) + packet_messages(q));
                    assert(packets_messages(before) == packet_messages(q) + packets_messages(rest@));
                    k = k + 1;
                    assert(rest@ =~= all.subrange(k, all.len() as int));
                }
            }
            assert(packets_messages(rest@) =~= Seq::<WireMessageView>::empty());
            out
        },
    }
}

/// Decodes a datagram and lists its messages in visiting order; `None` when
/// the bytes are not an OSC packet.
pub fn datagram_messages(bytes: &[u8]) -> (r: Option<Vec<WireMessage>>)
    ensures
        decoded_messages(bytes@) == (match r {
            Some(ms) => Some(messages_view(ms@)),
            None => None,
        }),
{
    match decode_packet(bytes) {
        Some(p) => Some(packet_into_messages(p)),
        None => None,
    }
}

/// The bytes of one message, as sent on the wire.
pub fn message_datagram(m: WireMessage) -> (r: Vec<u8>)
    ensures
        r@ == encoded_packet(OutPacketView::Message(m@)),
{
    encode_packet(&OutPacket::Message(m))
}

/// The bytes of a bundle of messages with the immediate time tag.
pub fn bundle_datagram(ms: Vec<WireMessage>) -> (r: Vec<u8>)
    ensures
        r@ == encoded_packet(OutPacketView::Bundle(messages_view(ms@))),
{
    encode_packet(&OutPacket::Bundle(ms))
}

} // verus!
