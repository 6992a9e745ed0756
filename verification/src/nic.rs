//! Sessions over a network interface that hands over whole segments: the
//! acknowledgement and the request to open as parsed headers with their
//! payloads, and the steps that receive and send them.

use vstd::prelude::*;
use std::marker::PhantomData;
use crate::endpoint::{RecvEndpoint, SendEndpoint};
use crate::error::{ChannelError, TransportError};
use crate::message::{deliver, from_be16, from_be32, incoming_view, received, Message};
use crate::multiparty::{OfferOne, Role, SelectOne, SessionTypedChannel};
use crate::segment::{flag, header_len, well_framed};
use crate::session::Action;

verus! {

/// The fixed fields of a TCP header.
#[derive(Clone, Copy, Debug, PartialEq, Eq, Structural)]
pub struct Header {
    pub source_port: u16,
    pub destination_port: u16,
    pub sequence_number: u32,
    pub acknowledgment_number: u32,
    pub fin: bool,
    pub syn: bool,
    pub rst: bool,
    pub psh: bool,
    pub ack: bool,
    pub window_size: u16,
}

/// The fixed fields that a buffer holds, each read most significant byte first
/// from its place in the header.
pub open spec fn header_of(bytes: Seq<u8>) -> Header
    recommends
        bytes.len() >= 20,
{
    Header {
        source_port: from_be16(bytes[0], bytes[1]),
        destination_port: from_be16(bytes[2], bytes[3]),
        sequence_number: from_be32(bytes[4], bytes[5], bytes[6], bytes[7]),
        acknowledgment_number: from_be32(bytes[8], bytes[9], bytes[10], bytes[11]),
        fin: flag(bytes, 0x01),
        syn: flag(bytes, 0x02),
        rst: flag(bytes, 0x04),
        psh: flag(bytes, 0x08),
        ack: flag(bytes, 0x10),
        window_size: from_be16(bytes[14], bytes[15]),
    }
}

/// `etherparse::TcpHeader::from_slice`: the header is accepted exactly where the
/// buffer holds a whole header; then the fields are those that the buffer holds,
/// and the rest is the buffer after the header that it announces.
#[verifier::external_body]
pub(crate) fn read_tcp_header(bytes: &Vec<u8>) -> (r: Result<
    (Header, Vec<u8>),
    etherparse::ReadError,
>)
    ensures
        r is Ok == well_framed(bytes@),
        r matches Ok((header, rest)) ==> header == header_of(bytes@) && rest@ == bytes@.skip(
            header_len(bytes@),
        ),
{
    let (h, rest) = etherparse::TcpHeader::from_slice(bytes)?;
    let header = Header {
        source_port: h.source_port,
        destination_port: h.destination_port,
        sequence_number: h.sequence_number,
        acknowledgment_number: h.acknowledgment_number,
        fin: h.fin,
        syn: h.syn,
        rst: h.rst,
        psh: h.psh,
        ack: h.ack,
        window_size: h.window_size,
    };
    Ok((header, rest.to_vec()))
}

/// Why a buffer is not the expected segment.
#[derive(Clone, Copy, Debug, PartialEq, Eq, Structural)]
pub enum NicError {
    /// The buffer holds no whole header.
    Malformed,
    /// The header's flags are not those of the expected segment.
    UnexpectedFlags,
}

/// Marks the message types that stand for an acknowledgement in a protocol.
pub trait AckMessage: Message {

}

/// Marks the message types that stand for a request to open in a protocol.
pub trait SynMessage: Message {

}

/// Whether the flags are those of an acknowledgement: `ACK` without `SYN`, `FIN`
/// and `RST`.
pub open spec fn ack_flags(header: Header) -> bool {
    header.ack && !header.rst && !header.syn && !header.fin
}

/// Whether the flags are those of a request to open: `SYN` without `ACK`, `FIN`
/// and `RST`.
pub open spec fn syn_flags(header: Header) -> bool {
    header.syn && !header.rst && !header.ack && !header.fin
}

/// The segment that a step expects.
#[derive(Clone, Copy, Debug, PartialEq, Eq, Structural)]
pub enum Expected {
    /// An acknowledgement.
    Ack,
    /// A request to open.
    Syn,
}

/// Whether the header's flags are those of the expected segment.
pub open spec fn fits(expected: Expected, header: Header) -> bool {
    match expected {
        Expected::Ack => ack_flags(header),
        Expected::Syn => syn_flags(header),
    }
}

/// What a buffer is read as where the given segment is expected: the header and
/// the payload behind it, or the reason why not.
pub open spec fn reading(bytes: Seq<u8>, expected: Expected) -> Result<
    (Header, Seq<u8>),
    NicError,
> {
    if !well_framed(bytes) {
        Err(NicError::Malformed)
    } else if !fits(expected, header_of(bytes)) {
        Err(NicError::UnexpectedFlags)
    } else {
        Ok((header_of(bytes), bytes.skip(header_len(bytes))))
    }
}

/// An acknowledgement: a segment whose header has the `ACK` flag and none of
/// `SYN`, `FIN` and `RST`.
///
/// The message is its buffer; the header and the payload are kept beside it as
/// they were read.
#[derive(Debug, PartialEq, Eq)]
pub struct Ack {
    packet: Vec<u8>,
    header: Header,
    payload: Vec<u8>,
}

impl View for Ack {
    type V = Seq<u8>;

    closed spec fn view(&self) -> Seq<u8> {
        self.packet@
    }
}

impl Ack {
    #[verifier::type_invariant]
    spec fn read_from_its_buffer(self) -> bool {
        reading(self.packet@, Expected::Ack) == Ok::<(Header, Seq<u8>), NicError>(
            (self.header, self.payload@),
        )
    }

    /// The header.
    pub fn header(&self) -> (header: Header)
        ensures
            header == header_of(self@),
            ack_flags(header),
    {
        proof {
            use_type_invariant(self);
        }
        self.header
    }

    /// The payload: the buffer behind the header.
    pub fn payload(&self) -> (payload: &Vec<u8>)
        ensures
            payload@ == self@.skip(header_len(self@)),
    {
        proof {
            use_type_invariant(self);
        }
        &self.payload
    }
}

impl Message for Ack {
    open spec fn label() -> int {
        0x310
    }

    fn tag() -> (tag: u32) {
        0x310
    }

    open spec fn valid(v: Seq<u8>) -> bool {
        reading(v, Expected::Ack) is Ok
    }

    open spec fn encoding(v: Seq<u8>) -> Seq<u8> {
        v
    }

    open spec fn decoding(bytes: Seq<u8>) -> Option<Seq<u8>> {
        if reading(bytes, Expected::Ack) is Ok {
            Some(bytes)
        } else {
            None
        }
    }

    fn to_net_representation(self) -> (bytes: Vec<u8>) {
        proof {
            use_type_invariant(&self);
        }
        self.packet
    }

    fn from_net_representation(packet: Vec<u8>) -> (m: Option<Self>) {
        match read_ack(packet) {
            Ok(message) => Some(message),
            Err(_) => None,
        }
    }

    proof fn lemma_decoded_is_valid(bytes: Seq<u8>) {
    }

    proof fn lemma_round_trip(v: Seq<u8>) {
    }
}

impl AckMessage for Ack {

}

fn read_ack(slice: Vec<u8>) -> (r: Result<Ack, NicError>)
    ensures
        match r {
            Ok(message) => message@ == slice@ && reading(slice@, Expected::Ack) is Ok,
            Err(e) => reading(slice@, Expected::Ack) == Err::<(Header, Seq<u8>), NicError>(e),
        },
{
    match read_tcp_header(&slice) {
        Ok((header, payload)) => {
            if !header.ack || (header.rst || header.syn || header.fin) {
                Err(NicError::UnexpectedFlags)
            } else {
                Ok(Ack { packet: slice, header, payload })
            }
        },
        Err(_) => Err(NicError::Malformed),
    }
}

/// A request to open: a segment whose header has the `SYN` flag and none of
/// `ACK`, `FIN` and `RST`.
///
/// The message is its buffer; the header and the payload are kept beside it as
/// they were read.
#[derive(Debug, PartialEq, Eq)]
pub struct Syn {
    packet: Vec<u8>,
    header: Header,
    payload: Vec<u8>,
}

impl View for Syn {
    type V = Seq<u8>;

    closed spec fn view(&self) -> Seq<u8> {
        self.packet@
    }
}

impl Syn {
    #[verifier::type_invariant]
    spec fn read_from_its_buffer(self) -> bool {
        reading(self.packet@, Expected::Syn) == Ok::<(Header, Seq<u8>), NicError>(
            (self.header, self.payload@),
        )
    }

    /// The header.
    pub fn header(&self) -> (header: Header)
        ensures
            header == header_of(self@),
            syn_flags(header),
    {
        proof {
            use_type_invariant(self);
        }
        self.header
    }

    /// The payload: the buffer behind the header.
    pub fn payload(&self) -> (payload: &Vec<u8>)
        ensures
            payload@ == self@.skip(header_len(self@)),
    {
        proof {
            use_type_invariant(self);
        }
        &self.payload
    }
}

impl Message for Syn {
    open spec fn label() -> int {
        0x302
    }

    fn tag() -> (tag: u32) {
        0x302
    }

    open spec fn valid(v: Seq<u8>) -> bool {
        reading(v, Expected::Syn) is Ok
    }

    open spec fn encoding(v: Seq<u8>) -> Seq<u8> {
        v
    }

    open spec fn decoding(bytes: Seq<u8>) -> Option<Seq<u8>> {
        if reading(bytes, Expected::Syn) is Ok {
            Some(bytes)
        } else {
            None
        }
    }

    fn to_net_representation(self) -> (bytes: Vec<u8>) {
        proof {
            use_type_invariant(&self);
        }
        self.packet
    }

    fn from_net_representation(packet: Vec<u8>) -> (m: Option<Self>) {
        match read_syn(packet) {
            Ok(message) => Some(message),
            Err(_) => None,
        }
    }

    proof fn lemma_decoded_is_valid(bytes: Seq<u8>) {
    }

    proof fn lemma_round_trip(v: Seq<u8>) {
    }
}

impl SynMessage for Syn {

}

fn read_syn(slice: Vec<u8>) -> (r: Result<Syn, NicError>)
    ensures
        match r {
            Ok(message) => message@ == slice@ && reading(slice@, Expected::Syn) is Ok,
            Err(e) => reading(slice@, Expected::Syn) == Err::<(Header, Seq<u8>), NicError>(e),
        },
{
    match read_tcp_header(&slice) {
        Ok((header, payload)) => {
            if !header.syn || (header.rst || header.ack || header.fin) {
                Err(NicError::UnexpectedFlags)
            } else {
                Ok(Syn { packet: slice, header, payload })
            }
        },
        Err(_) => Err(NicError::Malformed),
    }
}

/// An interface between role `R1` and role `R2` that hands over and takes whole
/// segments. It keeps, for the proofs, the buffers handed to the interface and
/// the buffers obtained from it, in order.
pub struct Nic<R1, R2, I> {
    nic: I,
    emitted: Ghost<Seq<Seq<u8>>>,
    awaited: Ghost<Seq<Seq<u8>>>,
    phantom: PhantomData<(R1, R2)>,
}

impl<R1: Role, R2: Role, I: SendEndpoint<Vec<u8>> + RecvEndpoint<Vec<u8>>> Nic<R1, R2, I> {
    /// A session-typed view of the interface `nic`, on which nothing has been
    /// written or read yet.
    pub fn new(nic: I) -> (channel: Self)
        ensures
            channel.emitted() == Seq::<Seq<u8>>::empty(),
            channel.awaited() == Seq::<Seq<u8>>::empty(),
    {
        Nic { nic, emitted: Ghost(Seq::empty()), awaited: Ghost(Seq::empty()), phantom: PhantomData }
    }
}

impl<R1, R2, I> Nic<R1, R2, I> {
    /// Reads an acknowledgement from a buffer. The buffer has to hold a whole
    /// header whose flags are `ACK` without `SYN`, `FIN` and `RST`.
    pub fn to_ack_message(slice: Vec<u8>) -> (r: Result<Ack, NicError>)
        ensures
            match r {
                Ok(ack) => ack@ == slice@ && reading(slice@, Expected::Ack) is Ok,
                Err(e) => reading(slice@, Expected::Ack) == Err::<(Header, Seq<u8>), NicError>(e),
            },
    {
        read_ack(slice)
    }

    /// Writes an acknowledgement: the buffer that it was read from. Reading the
    /// buffer gives the acknowledgement again.
    pub fn from_ack_message(ack: Ack) -> (bytes: Vec<u8>)
        ensures
            bytes@ == ack@,
            reading(bytes@, Expected::Ack) is Ok,
    {
        ack.to_net_representation()
    }

    /// Reads a request to open from a buffer. The buffer has to hold a whole
    /// header whose flags are `SYN` without `ACK`, `FIN` and `RST`.
    pub fn to_syn_message(slice: Vec<u8>) -> (r: Result<Syn, NicError>)
        ensures
            match r {
                Ok(syn) => syn@ == slice@ && reading(slice@, Expected::Syn) is Ok,
                Err(e) => reading(slice@, Expected::Syn) == Err::<(Header, Seq<u8>), NicError>(e),
            },
    {
        read_syn(slice)
    }

    /// Writes a request to open: the buffer that it was read from. Reading the
    /// buffer gives the request again.
    pub fn from_syn_message(syn: Syn) -> (bytes: Vec<u8>)
        ensures
            bytes@ == syn@,
            reading(bytes@, Expected::Syn) is Ok,
    {
        syn.to_net_representation()
    }
}

impl<R1: Role, R2: Role, I: SendEndpoint<Vec<u8>> + RecvEndpoint<Vec<u8>>> SessionTypedChannel<
    R1,
    R2,
> for Nic<R1, R2, I> {
    closed spec fn emitted(&self) -> Seq<Seq<u8>> {
        self.emitted@
    }

    closed spec fn awaited(&self) -> Seq<Seq<u8>> {
        self.awaited@
    }

    fn emit(&mut self, bytes: Vec<u8>) -> (r: Result<(), TransportError>) {
        let ghost written = bytes@;
        let r = self.nic.send(bytes);
        if r.is_ok() {
            self.emitted = Ghost(self.emitted@.push(written));
        }
        r
    }

    fn await_one(&mut self) -> (r: Result<Vec<u8>, TransportError>) {
        let r = self.nic.recv();
        if r.is_ok() {
            self.awaited = Ghost(self.awaited@.push(incoming_view(r)->Ok_0));
        }
        r
    }
}

/// Receives the acknowledgement that the state `_o` expects from the interface
/// and returns it with the next state. Whatever message type the state names
/// for the acknowledgement, the buffer is read as an [`Ack`].
#[must_use]
pub fn offer_one_ack<
    R1: Role,
    R2: Role,
    M: AckMessage,
    A: Action,
    I: SendEndpoint<Vec<u8>> + RecvEndpoint<Vec<u8>>,
>(_o: OfferOne<R1, M, A>, channel: &mut Nic<R2, R1, I>) -> (r: Result<(Ack, A), ChannelError>)
    ensures
        final(channel).emitted() == old(channel).emitted(),
        match r {
            Ok((ack, _)) => received::<Ack>(
                old(channel).awaited(),
                final(channel).awaited(),
                Ok(ack@),
            ),
            Err(e) => received::<Ack>(old(channel).awaited(), final(channel).awaited(), Err(e)),
        },
{
    let incoming = channel.await_one();
    assert(incoming is Ok ==> channel.awaited().drop_last() =~= old(channel).awaited());
    match deliver::<Ack>(incoming) {
        Ok(ack) => Ok((ack, A::new())),
        Err(e) => Err(e),
    }
}

/// Receives the request to open that the state `_o` expects from the interface
/// and returns it with the next state. Whatever message type the state names
/// for the request, the buffer is read as a [`Syn`].
#[must_use]
pub fn offer_one_syn<
    R1: Role,
    R2: Role,
    M: SynMessage,
    A: Action,
    I: SendEndpoint<Vec<u8>> + RecvEndpoint<Vec<u8>>,
>(_o: OfferOne<R1, M, A>, channel: &mut Nic<R2, R1, I>) -> (r: Result<(Syn, A), ChannelError>)
    ensures
        final(channel).emitted() == old(channel).emitted(),
        match r {
            Ok((syn, _)) => received::<Syn>(
                old(channel).awaited(),
                final(channel).awaited(),
                Ok(syn@),
            ),
            Err(e) => received::<Syn>(old(channel).awaited(), final(channel).awaited(), Err(e)),
        },
{
    let incoming = channel.await_one();
    assert(incoming is Ok ==> channel.awaited().drop_last() =~= old(channel).awaited());
    match deliver::<Syn>(incoming) {
        Ok(syn) => Ok((syn, A::new())),
        Err(e) => Err(e),
    }
}

/// Sends the acknowledgement `message` on the interface as the state `_o` asks
/// and returns the next state.
#[must_use]
pub fn select_one_ack<
    R1: Role,
    R2: Role,
    M: AckMessage,
    A: Action,
    I: SendEndpoint<Vec<u8>> + RecvEndpoint<Vec<u8>>,
>(_o: SelectOne<R2, M, A>, message: Ack, channel: &mut Nic<R1, R2, I>) -> (r: Result<
    A,
    ChannelError,
>)
    ensures
        final(channel).awaited() == old(channel).awaited(),
        match r {
            Ok(_) => final(channel).emitted() == old(channel).emitted().push(message@),
            Err(e) => e is Transport && final(channel).emitted() == old(channel).emitted(),
        },
{
    match channel.emit(Nic::<R1, R2, I>::from_ack_message(message)) {
        Ok(()) => Ok(A::new()),
        Err(e) => Err(ChannelError::Transport(e)),
    }
}

/// Sends the request to open `message` on the interface as the state `_o` asks
/// and returns the next state.
#[must_use]
pub fn select_one_syn<
    R1: Role,
    R2: Role,
    M: SynMessage,
    A: Action,
    I: SendEndpoint<Vec<u8>> + RecvEndpoint<Vec<u8>>,
>(_o: SelectOne<R2, M, A>, message: Syn, channel: &mut Nic<R1, R2, I>) -> (r: Result<
    A,
    ChannelError,
>)
    ensures
        final(channel).awaited() == old(channel).awaited(),
        match r {
            Ok(_) => final(channel).emitted() == old(channel).emitted().push(message@),
            Err(e) => e is Transport && final(channel).emitted() == old(channel).emitted(),
        },
{
    match channel.emit(Nic::<R1, R2, I>::from_syn_message(message)) {
        Ok(()) => Ok(A::new()),
        Err(e) => Err(ChannelError::Transport(e)),
    }
}

} // verus!
