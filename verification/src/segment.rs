//! Segments: what the state machine reads from a TCP segment and writes into
//! one, and the message types that tell the kinds of segment apart by their
//! flags.

use vstd::prelude::*;
use crate::codec::{emit_segment, emitted_segment, parse_segment, parsed_segment};
use crate::error::ChannelError;
use crate::message::{delivery, from_be16, Message};
use crate::seq_number::SeqNumber;

verus! {

/// An IPv4 address, by its four octets.
#[derive(Clone, Copy, Debug, PartialEq, Eq)]
pub struct Ipv4Address(pub [u8; 4]);

impl Ipv4Address {
    /// The address `a.b.c.d`.
    pub fn new(a: u8, b: u8, c: u8, d: u8) -> (address: Self)
        ensures
            address.0@ == seq![a, b, c, d],
    {
        let address = Ipv4Address([a, b, c, d]);
        assert(address.0@ =~= seq![a, b, c, d]);
        address
    }
}

/// The control flag of a segment.
#[derive(Clone, Copy, Debug, PartialEq, Eq, Structural)]
pub enum Control {
    Empty,
    Psh,
    Syn,
    Fin,
    Rst,
}

/// A segment without data, as the state machine sees it.
#[derive(Clone, Copy, Debug, PartialEq, Eq)]
pub struct Segment {
    pub src_port: u16,
    pub dst_port: u16,
    pub control: Control,
    pub seq_number: SeqNumber,
    pub ack_number: Option<SeqNumber>,
    pub window_len: u16,
    pub max_seg_size: Option<u16>,
}

impl Segment {
    /// How many sequence numbers the segment takes: one where it carries `SYN`
    /// or `FIN`, none otherwise.
    pub open spec fn len(self) -> int {
        if self.control == Control::Syn || self.control == Control::Fin {
            1
        } else {
            0
        }
    }

    /// How many sequence numbers the segment takes.
    pub fn segment_len(&self) -> (len: u32)
        ensures
            len == self.len(),
    {
        match self.control {
            Control::Syn => 1,
            Control::Fin => 1,
            _ => 0,
        }
    }

    /// Lets the packet codec write the segment as it travels from `src` to `dst`.
    ///
    /// The buffer is the codec's; it holds the kind of segment that the control
    /// flag and the acknowledgement number make.
    pub fn emit(&self, src: Ipv4Address, dst: Ipv4Address) -> (bytes: Vec<u8>)
        ensures
            bytes@ == emitted_segment(*self, src, dst),
            kind_of(bytes@) == kind_for(self.control, self.ack_number is Some),
    {
        emit_segment(
            self.src_port,
            self.dst_port,
            self.control,
            self.seq_number,
            self.ack_number,
            self.window_len,
            self.max_seg_size,
            src,
            dst,
        )
    }

    /// Lets the packet codec read a buffer that travelled from `src` to `dst`.
    ///
    /// A buffer that does not hold a whole header is rejected here; of any other
    /// buffer the result is the codec's.
    pub fn parse(bytes: &Vec<u8>, src: Ipv4Address, dst: Ipv4Address) -> (r: Option<Segment>)
        ensures
            r == if well_framed(bytes@) {
                parsed_segment(bytes@, src, dst)
            } else {
                None
            },
    {
        if bytes.len() < 20 {
            return None;
        }
        let announced: usize = (bytes[12] / 16) as usize * 4;
        if announced < 20 || announced > bytes.len() {
            return None;
        }
        parse_segment(bytes, src, dst)
    }
}

/// The length of the header that a buffer announces: four times the upper half
/// of its thirteenth byte.
pub open spec fn header_len(bytes: Seq<u8>) -> int
    recommends
        bytes.len() > 12,
{
    (bytes[12] as int / 16) * 4
}

/// Whether a buffer holds a whole header: it has the twenty bytes of the fixed
/// fields, and the header that it announces is no shorter than these and no
/// longer than the buffer.
pub open spec fn well_framed(bytes: Seq<u8>) -> bool {
    bytes.len() >= 20 && 20 <= header_len(bytes) <= bytes.len()
}

/// Whether the flag with the given mask is set in a buffer's flags byte.
pub open spec fn flag(bytes: Seq<u8>, mask: u8) -> bool
    recommends
        bytes.len() > 13,
{
    bytes[13] & mask != 0
}

/// The destination port that a buffer names: its third and fourth byte, most
/// significant first.
pub open spec fn destination_port_of(bytes: Seq<u8>) -> u16
    recommends
        bytes.len() >= 4,
{
    from_be16(bytes[2], bytes[3])
}

/// Whether a buffer is a segment for the given port. A receiver that shares its
/// transport with other traffic skips the buffers that are not for its port.
pub fn is_addressed_to(bytes: &Vec<u8>, port: u16) -> (mine: bool)
    ensures
        mine == (bytes.len() >= 4 && destination_port_of(bytes@) == port),
{
    bytes.len() >= 4 && bytes[2] as u16 * 256 + bytes[3] as u16 == port
}

/// The kinds of segment that the state machine tells apart.
#[derive(Clone, Copy, Debug, PartialEq, Eq, Structural)]
pub enum SegmentKind {
    /// `SYN` alone.
    Syn,
    /// `SYN` and `ACK`.
    SynAck,
    /// `ACK` alone.
    Ack,
    /// `FIN` and `ACK`.
    FinAck,
    /// `RST` alone.
    Rst,
}

/// The kind of segment that a buffer holds, by its `SYN`, `ACK`, `FIN` and `RST`
/// flags; none where the buffer holds no whole header or its flags are those of
/// no kind.
pub open spec fn kind_of(bytes: Seq<u8>) -> Option<SegmentKind> {
    if !well_framed(bytes) {
        None
    } else {
        let syn = flag(bytes, 0x02);
        let ack = flag(bytes, 0x10);
        let fin = flag(bytes, 0x01);
        let rst = flag(bytes, 0x04);
        if syn && !ack && !fin && !rst {
            Some(SegmentKind::Syn)
        } else if syn && ack && !fin && !rst {
            Some(SegmentKind::SynAck)
        } else if !syn && ack && !fin && !rst {
            Some(SegmentKind::Ack)
        } else if !syn && ack && fin && !rst {
            Some(SegmentKind::FinAck)
        } else if !syn && !ack && !fin && rst {
            Some(SegmentKind::Rst)
        } else {
            None
        }
    }
}

/// The kind of a segment without data that carries the given control flag, and
/// an acknowledgement number or none; none where no kind has these flags.
pub open spec fn kind_for(control: Control, acknowledges: bool) -> Option<SegmentKind> {
    match (control, acknowledges) {
        (Control::Syn, false) => Some(SegmentKind::Syn),
        (Control::Syn, true) => Some(SegmentKind::SynAck),
        (Control::Empty, true) => Some(SegmentKind::Ack),
        (Control::Psh, true) => Some(SegmentKind::Ack),
        (Control::Fin, true) => Some(SegmentKind::FinAck),
        (Control::Rst, false) => Some(SegmentKind::Rst),
        _ => None,
    }
}

/// The kind of segment that a buffer holds.
///
/// This is how the offering side of a branching can tell from a buffer which
/// alternative the peer has taken.
pub fn classify(bytes: &Vec<u8>) -> (kind: Option<SegmentKind>)
    ensures
        kind == kind_of(bytes@),
{
    if bytes.len() < 20 {
        return None;
    }
    let announced: usize = (bytes[12] / 16) as usize * 4;
    if announced < 20 || announced > bytes.len() {
        return None;
    }
    let syn = bytes[13] & 0x02 != 0;
    let ack = bytes[13] & 0x10 != 0;
    let fin = bytes[13] & 0x01 != 0;
    let rst = bytes[13] & 0x04 != 0;
    if syn && !ack && !fin && !rst {
        Some(SegmentKind::Syn)
    } else if syn && ack && !fin && !rst {
        Some(SegmentKind::SynAck)
    } else if !syn && ack && !fin && !rst {
        Some(SegmentKind::Ack)
    } else if !syn && ack && fin && !rst {
        Some(SegmentKind::FinAck)
    } else if !syn && !ack && !fin && rst {
        Some(SegmentKind::Rst)
    } else {
        None
    }
}

/// Whether a buffer holds a segment of the given kind.
pub fn is_kind(bytes: &Vec<u8>, kind: SegmentKind) -> (is: bool)
    ensures
        is == (kind_of(bytes@) == Some(kind)),
{
    match classify(bytes) {
        Some(k) => k == kind,
        None => false,
    }
}

/// A message that is one segment in a buffer.
pub trait SmolMessage: Message + View<V = Seq<u8>> {
    /// The kind of segment that messages of this type hold.
    spec fn kind() -> SegmentKind;

    /// The message that `buf` holds; `None` where `buf` is no segment of this
    /// type's kind.
    fn from_packet(buf: Vec<u8>) -> (m: Option<Self>)
        ensures
            match m {
                Some(m) => m@ == buf@ && kind_of(buf@) == Some(Self::kind()),
                None => kind_of(buf@) != Some(Self::kind()),
            },
    ;

    /// The buffer that holds the segment.
    fn packet(&self) -> (p: &Vec<u8>)
        ensures
            p@ == self@,
            kind_of(p@) == Some(Self::kind()),
    ;

    /// The codec of a segment type goes by the kind alone: a message is its
    /// buffer, and a buffer is a message exactly where it holds a segment of the
    /// type's kind.
    proof fn lemma_codec_by_kind(bytes: Seq<u8>)
        ensures
            Self::valid(bytes) == (kind_of(bytes) == Some(Self::kind())),
            Self::encoding(bytes) == bytes,
            Self::decoding(bytes) == if kind_of(bytes) == Some(Self::kind()) {
                Some(bytes)
            } else {
                None
            },
    ;
}

/// A segment with the `SYN` flag alone: the request to open a connection.
pub struct Syn {
    packet: Vec<u8>,
}

impl Syn {
    #[verifier::type_invariant]
    spec fn holds_its_kind(self) -> bool {
        kind_of(self.packet@) == Some(SegmentKind::Syn)
    }
}

impl View for Syn {
    type V = Seq<u8>;

    closed spec fn view(&self) -> Seq<u8> {
        self.packet@
    }
}

impl Message for Syn {
    open spec fn label() -> int {
        0x202
    }

    fn tag() -> (tag: u32) {
        0x202
    }

    open spec fn valid(v: Seq<u8>) -> bool {
        kind_of(v) == Some(SegmentKind::Syn)
    }

    open spec fn encoding(v: Seq<u8>) -> Seq<u8> {
        v
    }

    open spec fn decoding(bytes: Seq<u8>) -> Option<Seq<u8>> {
        if kind_of(bytes) == Some(SegmentKind::Syn) {
            Some(bytes)
        } else {
            None
        }
    }

    fn to_net_representation(self) -> (bytes: Vec<u8>) {
        proof {
            use_type_invariant(&self);
        }
        self.packet
    }

    fn from_net_representation(packet: Vec<u8>) -> (m: Option<Self>) {
        if is_kind(&packet, SegmentKind::Syn) {
            Some(Syn { packet })
        } else {
            None
        }
    }

    proof fn lemma_decoded_is_valid(bytes: Seq<u8>) {
    }

    proof fn lemma_round_trip(v: Seq<u8>) {
    }
}

impl SmolMessage for Syn {
    open spec fn kind() -> SegmentKind {
        SegmentKind::Syn
    }

    fn from_packet(buf: Vec<u8>) -> (m: Option<Self>) {
        Self::from_net_representation(buf)
    }

    fn packet(&self) -> (p: &Vec<u8>) {
        proof {
            use_type_invariant(self);
        }
        &self.packet
    }

    proof fn lemma_codec_by_kind(bytes: Seq<u8>) {
    }
}

/// A segment with the `SYN` and `ACK` flags: the answer to a request to open.
pub struct SynAck {
    packet: Vec<u8>,
}

impl SynAck {
    #[verifier::type_invariant]
    spec fn holds_its_kind(self) -> bool {
        kind_of(self.packet@) == Some(SegmentKind::SynAck)
    }
}

impl View for SynAck {
    type V = Seq<u8>;

    closed spec fn view(&self) -> Seq<u8> {
        self.packet@
    }
}

impl Message for SynAck {
    open spec fn label() -> int {
        0x212
    }

    fn tag() -> (tag: u32) {
        0x212
    }

    open spec fn valid(v: Seq<u8>) -> bool {
        kind_of(v) == Some(SegmentKind::SynAck)
    }

    open spec fn encoding(v: Seq<u8>) -> Seq<u8> {
        v
    }

    open spec fn decoding(bytes: Seq<u8>) -> Option<Seq<u8>> {
        if kind_of(bytes) == Some(SegmentKind::SynAck) {
            Some(bytes)
        } else {
            None
        }
    }

    fn to_net_representation(self) -> (bytes: Vec<u8>) {
        proof {
            use_type_invariant(&self);
        }
        self.packet
    }

    fn from_net_representation(packet: Vec<u8>) -> (m: Option<Self>) {
        if is_kind(&packet, SegmentKind::SynAck) {
            Some(SynAck { packet })
        } else {
            None
        }
    }

    proof fn lemma_decoded_is_valid(bytes: Seq<u8>) {
    }

    proof fn lemma_round_trip(v: Seq<u8>) {
    }
}

impl SmolMessage for SynAck {
    open spec fn kind() -> SegmentKind {
        SegmentKind::SynAck
    }

    fn from_packet(buf: Vec<u8>) -> (m: Option<Self>) {
        Self::from_net_representation(buf)
    }

    fn packet(&self) -> (p: &Vec<u8>) {
        proof {
            use_type_invariant(self);
        }
        &self.packet
    }

    proof fn lemma_codec_by_kind(bytes: Seq<u8>) {
    }
}

/// A segment with the `ACK` flag alone: an acknowledgement.
pub struct Ack {
    packet: Vec<u8>,
}

impl Ack {
    #[verifier::type_invariant]
    spec fn holds_its_kind(self) -> bool {
        kind_of(self.packet@) == Some(SegmentKind::Ack)
    }
}

impl View for Ack {
    type V = Seq<u8>;

    closed spec fn view(&self) -> Seq<u8> {
        self.packet@
    }
}

impl Message for Ack {
    open spec fn label() -> int {
        0x210
    }

    fn tag() -> (tag: u32) {
        0x210
    }

    open spec fn valid(v: Seq<u8>) -> bool {
        kind_of(v) == Some(SegmentKind::Ack)
    }

    open spec fn encoding(v: Seq<u8>) -> Seq<u8> {
        v
    }

    open spec fn decoding(bytes: Seq<u8>) -> Option<Seq<u8>> {
        if kind_of(bytes) == Some(SegmentKind::Ack) {
            Some(bytes)
        } else {
            None
        }
    }

    fn to_net_representation(self) -> (bytes: Vec<u8>) {
        proof {
            use_type_invariant(&self);
        }
        self.packet
    }

    fn from_net_representation(packet: Vec<u8>) -> (m: Option<Self>) {
        if is_kind(&packet, SegmentKind::Ack) {
            Some(Ack { packet })
        } else {
            None
        }
    }

    proof fn lemma_decoded_is_valid(bytes: Seq<u8>) {
    }

    proof fn lemma_round_trip(v: Seq<u8>) {
    }
}

impl SmolMessage for Ack {
    open spec fn kind() -> SegmentKind {
        SegmentKind::Ack
    }

    fn from_packet(buf: Vec<u8>) -> (m: Option<Self>) {
        Self::from_net_representation(buf)
    }

    fn packet(&self) -> (p: &Vec<u8>) {
        proof {
            use_type_invariant(self);
        }
        &self.packet
    }

    proof fn lemma_codec_by_kind(bytes: Seq<u8>) {
    }
}

/// A segment with the `FIN` and `ACK` flags: the request to close.
pub struct FinAck {
    packet: Vec<u8>,
}

impl FinAck {
    #[verifier::type_invariant]
    spec fn holds_its_kind(self) -> bool {
        kind_of(self.packet@) == Some(SegmentKind::FinAck)
    }
}

impl View for FinAck {
    type V = Seq<u8>;

    closed spec fn view(&self) -> Seq<u8> {
        self.packet@
    }
}

impl Message for FinAck {
    open spec fn label() -> int {
        0x211
    }

    fn tag() -> (tag: u32) {
        0x211
    }

    open spec fn valid(v: Seq<u8>) -> bool {
        kind_of(v) == Some(SegmentKind::FinAck)
    }

    open spec fn encoding(v: Seq<u8>) -> Seq<u8> {
        v
    }

    open spec fn decoding(bytes: Seq<u8>) -> Option<Seq<u8>> {
        if kind_of(bytes) == Some(SegmentKind::FinAck) {
            Some(bytes)
        } else {
            None
        }
    }

    fn to_net_representation(self) -> (bytes: Vec<u8>) {
        proof {
            use_type_invariant(&self);
        }
        self.packet
    }

    fn from_net_representation(packet: Vec<u8>) -> (m: Option<Self>) {
        if is_kind(&packet, SegmentKind::FinAck) {
            Some(FinAck { packet })
        } else {
            None
        }
    }

    proof fn lemma_decoded_is_valid(bytes: Seq<u8>) {
    }

    proof fn lemma_round_trip(v: Seq<u8>) {
    }
}

impl SmolMessage for FinAck {
    open spec fn kind() -> SegmentKind {
        SegmentKind::FinAck
    }

    fn from_packet(buf: Vec<u8>) -> (m: Option<Self>) {
        Self::from_net_representation(buf)
    }

    fn packet(&self) -> (p: &Vec<u8>) {
        proof {
            use_type_invariant(self);
        }
        &self.packet
    }

    proof fn lemma_codec_by_kind(bytes: Seq<u8>) {
    }
}

/// A segment with the `RST` flag alone: the connection is reset.
pub struct Rst {
    packet: Vec<u8>,
}

impl Rst {
    #[verifier::type_invariant]
    spec fn holds_its_kind(self) -> bool {
        kind_of(self.packet@) == Some(SegmentKind::Rst)
    }
}

impl View for Rst {
    type V = Seq<u8>;

    closed spec fn view(&self) -> Seq<u8> {
        self.packet@
    }
}

impl Message for Rst {
    open spec fn label() -> int {
        0x204
    }

    fn tag() -> (tag: u32) {
        0x204
    }

    open spec fn valid(v: Seq<u8>) -> bool {
        kind_of(v) == Some(SegmentKind::Rst)
    }

    open spec fn encoding(v: Seq<u8>) -> Seq<u8> {
        v
    }

    open spec fn decoding(bytes: Seq<u8>) -> Option<Seq<u8>> {
        if kind_of(bytes) == Some(SegmentKind::Rst) {
            Some(bytes)
        } else {
            None
        }
    }

    fn to_net_representation(self) -> (bytes: Vec<u8>) {
        proof {
            use_type_invariant(&self);
        }
        self.packet
    }

    fn from_net_representation(packet: Vec<u8>) -> (m: Option<Self>) {
        if is_kind(&packet, SegmentKind::Rst) {
            Some(Rst { packet })
        } else {
            None
        }
    }

    proof fn lemma_decoded_is_valid(bytes: Seq<u8>) {
    }

    proof fn lemma_round_trip(v: Seq<u8>) {
    }
}

impl SmolMessage for Rst {
    open spec fn kind() -> SegmentKind {
        SegmentKind::Rst
    }

    fn from_packet(buf: Vec<u8>) -> (m: Option<Self>) {
        Self::from_net_representation(buf)
    }

    fn packet(&self) -> (p: &Vec<u8>) {
        proof {
            use_type_invariant(self);
        }
        &self.packet
    }

    proof fn lemma_codec_by_kind(bytes: Seq<u8>) {
    }
}

/// Where the offering side takes a segment for one of another kind, the step
/// fails: a message of one segment type, written to a buffer, is read as no
/// message of a segment type of another kind.
pub proof fn lemma_wrong_inference_fails<M: SmolMessage, N: SmolMessage>(v: Seq<u8>)
    requires
        M::kind() != N::kind(),
        M::valid(v),
    ensures
        delivery::<N>(Ok(M::encoding(v))) == Err::<Seq<u8>, ChannelError>(ChannelError::Decode),
{
    M::lemma_codec_by_kind(v);
    N::lemma_codec_by_kind(v);
}

/// Where the offering side takes a segment for one of its own kind, the step
/// gives the message that was sent.
pub proof fn lemma_right_inference_delivers<M: SmolMessage>(v: Seq<u8>)
    requires
        M::valid(v),
    ensures
        delivery::<M>(Ok(M::encoding(v))) == Ok::<Seq<u8>, ChannelError>(v),
{
    M::lemma_codec_by_kind(v);
}

} // verus!
