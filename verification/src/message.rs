//! Messages and their codec: every message type that a protocol step carries
//! can be turned into a buffer and read back from one.

use vstd::prelude::*;
use crate::error::{ChannelError, TransportError};

verus! {

/// A message type with its codec.
///
/// The codec is stated over views. `valid` says which views belong to values of
/// the type; for these, reading back what was written gives the value again.
pub trait Message: View + Sized {
    /// The label that names this message type in a protocol's shape.
    spec fn label() -> int;

    /// The label, as a number that a running program can hold.
    fn tag() -> (tag: u32)
        ensures
            tag == Self::label(),
    ;

    /// Whether `v` is the view of a message of this type.
    spec fn valid(v: Self::V) -> bool;

    /// The buffer that stands for a message.
    spec fn encoding(v: Self::V) -> Seq<u8>;

    /// The message that a buffer stands for, if it stands for one of this type.
    spec fn decoding(bytes: Seq<u8>) -> Option<Self::V>;

    /// Writes the message as a buffer. Reading the buffer back gives the message.
    fn to_net_representation(self) -> (bytes: Vec<u8>)
        ensures
            Self::valid(self@),
            bytes@ == Self::encoding(self@),
            Self::decoding(bytes@) == Some(self@),
    ;

    /// Reads a message from a buffer; `None` where the buffer is no message of
    /// this type.
    fn from_net_representation(packet: Vec<u8>) -> (m: Option<Self>)
        ensures
            match m {
                Some(m) => Self::decoding(packet@) == Some(m@),
                None => Self::decoding(packet@) is None,
            },
    ;

    /// Whatever can be read from a buffer is a message of this type.
    proof fn lemma_decoded_is_valid(bytes: Seq<u8>)
        ensures
            Self::decoding(bytes) matches Some(v) ==> Self::valid(v),
    ;

    /// Reading back what was written gives the message again.
    proof fn lemma_round_trip(v: Self::V)
        requires
            Self::valid(v),
        ensures
            Self::decoding(Self::encoding(v)) == Some(v),
    ;
}

/// Whether `after` is `before` with one more buffer at its end.
pub open spec fn one_more(before: Seq<Seq<u8>>, after: Seq<Seq<u8>>) -> bool {
    after.len() == before.len() + 1 && after.drop_last() == before
}

/// How the outcome of a receiving step for a message of type `M` relates to the
/// buffers obtained from the transport before and after it: a message is what the
/// one new buffer stands for, a decode error says that the one new buffer stands
/// for no message of type `M`, and after a transport failure no buffer is new.
pub open spec fn received<M: Message>(
    before: Seq<Seq<u8>>,
    after: Seq<Seq<u8>>,
    outcome: Result<M::V, ChannelError>,
) -> bool {
    match outcome {
        Ok(v) => one_more(before, after) && M::decoding(after.last()) == Some(v),
        Err(ChannelError::Decode) => one_more(before, after) && M::decoding(after.last()) is None,
        Err(ChannelError::Transport(_)) => after == before,
    }
}

/// What a receiving step makes of what the transport handed over: a transport
/// failure stays one, a buffer that is no message of type `M` is a decode error,
/// any other buffer is the message it stands for.
pub open spec fn delivery<M: Message>(incoming: Result<Seq<u8>, TransportError>) -> Result<
    M::V,
    ChannelError,
> {
    match incoming {
        Ok(bytes) => match M::decoding(bytes) {
            Some(v) => Ok(v),
            None => Err(ChannelError::Decode),
        },
        Err(e) => Err(ChannelError::Transport(e)),
    }
}

/// The view of what the transport handed over.
pub open spec fn incoming_view(incoming: Result<Vec<u8>, TransportError>) -> Result<
    Seq<u8>,
    TransportError,
> {
    match incoming {
        Ok(bytes) => Ok(bytes@),
        Err(e) => Err(e),
    }
}

/// Reads the message of a receiving step from what the transport handed over.
pub fn deliver<M: Message>(incoming: Result<Vec<u8>, TransportError>) -> (r: Result<
    M,
    ChannelError,
>)
    ensures
        match r {
            Ok(m) => delivery::<M>(incoming_view(incoming)) == Ok::<M::V, ChannelError>(m@),
            Err(e) => delivery::<M>(incoming_view(incoming)) == Err::<M::V, ChannelError>(e),
        },
{
    match incoming {
        Ok(bytes) => match M::from_net_representation(bytes) {
            Some(m) => Ok(m),
            None => Err(ChannelError::Decode),
        },
        Err(e) => Err(ChannelError::Transport(e)),
    }
}

/// Reading back what was written gives the message again, for every message type
/// and every message of it.
pub proof fn lemma_codec_round_trip<M: Message>(v: M::V)
    requires
        M::valid(v),
    ensures
        M::decoding(M::encoding(v)) == Some(v),
        delivery::<M>(Ok(M::encoding(v))) == Ok::<M::V, ChannelError>(v),
{
    M::lemma_round_trip(v);
}

/// The two bytes of a 16-bit number, most significant first.
pub open spec fn be16(v: u16) -> Seq<u8> {
    seq![(v / 256) as u8, (v % 256) as u8]
}

/// The four bytes of a 32-bit number, most significant first.
pub open spec fn be32(v: u32) -> Seq<u8> {
    seq![
        (v / 0x100_0000) as u8,
        ((v / 0x1_0000) % 256) as u8,
        ((v / 0x100) % 256) as u8,
        (v % 256) as u8,
    ]
}

/// The 16-bit number that two bytes stand for, most significant first.
pub open spec fn from_be16(hi: u8, lo: u8) -> u16 {
    (hi as int * 256 + lo as int) as u16
}

/// The 32-bit number that four bytes stand for, most significant first.
pub open spec fn from_be32(b0: u8, b1: u8, b2: u8, b3: u8) -> u32 {
    (b0 as int * 0x100_0000 + b1 as int * 0x1_0000 + b2 as int * 0x100 + b3 as int) as u32
}

/// A 16-bit number travels as its two bytes, most significant first.
impl Message for u16 {
    open spec fn label() -> int {
        116
    }

    fn tag() -> (tag: u32) {
        116
    }

    open spec fn valid(v: u16) -> bool {
        true
    }

    open spec fn encoding(v: u16) -> Seq<u8> {
        be16(v)
    }

    open spec fn decoding(bytes: Seq<u8>) -> Option<u16> {
        if bytes.len() == 2 {
            Some(from_be16(bytes[0], bytes[1]))
        } else {
            None
        }
    }

    fn to_net_representation(self) -> (bytes: Vec<u8>) {
        let mut bytes: Vec<u8> = Vec::new();
        bytes.push((self / 256) as u8);
        bytes.push((self % 256) as u8);
        assert(bytes@ =~= be16(self));
        bytes
    }

    fn from_net_representation(packet: Vec<u8>) -> (m: Option<Self>) {
        if packet.len() == 2 {
            Some(packet[0] as u16 * 256 + packet[1] as u16)
        } else {
            None
        }
    }

    proof fn lemma_decoded_is_valid(bytes: Seq<u8>) {
    }

    proof fn lemma_round_trip(v: u16) {
    }
}

/// A 32-bit number travels as its four bytes, most significant first.
impl Message for u32 {
    open spec fn label() -> int {
        132
    }

    fn tag() -> (tag: u32) {
        132
    }

    open spec fn valid(v: u32) -> bool {
        true
    }

    open spec fn encoding(v: u32) -> Seq<u8> {
        be32(v)
    }

    open spec fn decoding(bytes: Seq<u8>) -> Option<u32> {
        if bytes.len() == 4 {
            Some(from_be32(bytes[0], bytes[1], bytes[2], bytes[3]))
        } else {
            None
        }
    }

    fn to_net_representation(self) -> (bytes: Vec<u8>) {
        let mut bytes: Vec<u8> = Vec::new();
        bytes.push((self / 0x100_0000) as u8);
        bytes.push(((self / 0x1_0000) % 256) as u8);
        bytes.push(((self / 0x100) % 256) as u8);
        bytes.push((self % 256) as u8);
        assert(bytes@ =~= be32(self));
        bytes
    }

    fn from_net_representation(packet: Vec<u8>) -> (m: Option<Self>) {
        if packet.len() == 4 {
            Some(
                packet[0] as u32 * 0x100_0000 + packet[1] as u32 * 0x1_0000 + packet[2] as u32
                    * 0x100 + packet[3] as u32,
            )
        } else {
            None
        }
    }

    proof fn lemma_decoded_is_valid(bytes: Seq<u8>) {
    }

    proof fn lemma_round_trip(v: u32) {
    }
}

/// The user's call that asks the system to accept a connection. It carries no
/// data: it travels as an empty buffer, and any buffer is read as this call.
#[derive(Clone, Copy, Debug, PartialEq, Eq, Structural)]
pub struct Open {}

/// The system's notice that a control block is there and a connection can come.
#[derive(Clone, Copy, Debug, PartialEq, Eq, Structural)]
pub struct TcbCreated {}

/// The call, and the notice, that the connection is to be closed.
#[derive(Clone, Copy, Debug, PartialEq, Eq, Structural)]
pub struct Close {}

/// The system's notice that the connection is established.
#[derive(Clone, Copy, Debug, PartialEq, Eq, Structural)]
pub struct Connected {}

impl View for Open {
    type V = Open;

    open spec fn view(&self) -> Open {
        *self
    }
}

impl View for TcbCreated {
    type V = TcbCreated;

    open spec fn view(&self) -> TcbCreated {
        *self
    }
}

impl View for Close {
    type V = Close;

    open spec fn view(&self) -> Close {
        *self
    }
}

impl View for Connected {
    type V = Connected;

    open spec fn view(&self) -> Connected {
        *self
    }
}

impl Message for Open {
    open spec fn label() -> int {
        1
    }

    fn tag() -> (tag: u32) {
        1
    }

    open spec fn valid(v: Open) -> bool {
        true
    }

    open spec fn encoding(v: Open) -> Seq<u8> {
        Seq::empty()
    }

    open spec fn decoding(bytes: Seq<u8>) -> Option<Open> {
        Some(Open {  })
    }

    fn to_net_representation(self) -> (bytes: Vec<u8>) {
        Vec::new()
    }

    fn from_net_representation(packet: Vec<u8>) -> (m: Option<Self>) {
        Some(Open {  })
    }

    proof fn lemma_decoded_is_valid(bytes: Seq<u8>) {
    }

    proof fn lemma_round_trip(v: Open) {
    }
}

impl Message for TcbCreated {
    open spec fn label() -> int {
        2
    }

    fn tag() -> (tag: u32) {
        2
    }

    open spec fn valid(v: TcbCreated) -> bool {
        true
    }

    open spec fn encoding(v: TcbCreated) -> Seq<u8> {
        Seq::empty()
    }

    open spec fn decoding(bytes: Seq<u8>) -> Option<TcbCreated> {
        Some(TcbCreated {  })
    }

    fn to_net_representation(self) -> (bytes: Vec<u8>) {
        Vec::new()
    }

    fn from_net_representation(packet: Vec<u8>) -> (m: Option<Self>) {
        Some(TcbCreated {  })
    }

    proof fn lemma_decoded_is_valid(bytes: Seq<u8>) {
    }

    proof fn lemma_round_trip(v: TcbCreated) {
    }
}

impl Message for Close {
    open spec fn label() -> int {
        3
    }

    fn tag() -> (tag: u32) {
        3
    }

    open spec fn valid(v: Close) -> bool {
        true
    }

    open spec fn encoding(v: Close) -> Seq<u8> {
        Seq::empty()
    }

    open spec fn decoding(bytes: Seq<u8>) -> Option<Close> {
        Some(Close {  })
    }

    fn to_net_representation(self) -> (bytes: Vec<u8>) {
        Vec::new()
    }

    fn from_net_representation(packet: Vec<u8>) -> (m: Option<Self>) {
        Some(Close {  })
    }

    proof fn lemma_decoded_is_valid(bytes: Seq<u8>) {
    }

    proof fn lemma_round_trip(v: Close) {
    }
}

impl Message for Connected {
    open spec fn label() -> int {
        4
    }

    fn tag() -> (tag: u32) {
        4
    }

    open spec fn valid(v: Connected) -> bool {
        true
    }

    open spec fn encoding(v: Connected) -> Seq<u8> {
        Seq::empty()
    }

    open spec fn decoding(bytes: Seq<u8>) -> Option<Connected> {
        Some(Connected {  })
    }

    fn to_net_representation(self) -> (bytes: Vec<u8>) {
        Vec::new()
    }

    fn from_net_representation(packet: Vec<u8>) -> (m: Option<Self>) {
        Some(Connected {  })
    }

    proof fn lemma_decoded_is_valid(bytes: Seq<u8>) {
    }

    proof fn lemma_round_trip(v: Connected) {
    }
}

} // verus!
