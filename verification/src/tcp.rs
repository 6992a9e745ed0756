//! The connection state machine: a passive open, the three-way handshake, and
//! the close, each transition reading or writing one segment and keeping the
//! connection's control block.
//!
//! The state of a connection is part of its type, so a transition can only be
//! taken from the state that has it. A segment that does not fit the state ends
//! the connection: nothing is retried and nothing waits for a better segment.

use vstd::prelude::*;
use std::collections::VecDeque;
use std::marker::PhantomData;
use crate::codec::{emitted_segment, parsed_segment, random_u32};
use crate::segment::{Ack, Control, FinAck, Ipv4Address, Segment, SmolMessage, Syn, SynAck};
use crate::seq_number::SeqNumber;

verus! {

/// Why a transition did not take place.
#[derive(Clone, Copy, Debug, PartialEq, Eq, Structural)]
pub enum TcpError {
    /// The packet codec rejects the segment that arrived.
    Decode,
    /// The segment does not acknowledge what was sent.
    Sequencing,
}

/// The local end of a connection.
#[derive(Clone, Copy, Debug, PartialEq, Eq)]
pub struct LocalAddr {
    pub addr: Ipv4Address,
    pub port: u16,
}

/// The remote end of a connection.
#[derive(Clone, Copy, Debug, PartialEq, Eq)]
pub struct RemoteAddr {
    pub addr: Ipv4Address,
    pub port: u16,
}

/// A state of the connection.
pub trait TcpState {

}

/// No connection.
#[derive(Clone, Copy, Debug)]
pub struct Closed;

/// A request to open has been sent.
#[derive(Clone, Copy, Debug)]
pub struct SynSent;

/// A request to open has arrived and has been answered; the answer is not yet
/// acknowledged.
#[derive(Clone, Copy, Debug)]
pub struct SynReceived;

/// The connection is open.
#[derive(Clone, Copy, Debug)]
pub struct Established;

/// A request to close has been sent and is not yet acknowledged.
#[derive(Clone, Copy, Debug)]
pub struct FinWait1;

/// The request to close has been acknowledged; the peer has not closed yet.
#[derive(Clone, Copy, Debug)]
pub struct FinWait2;

/// The peer has closed; the local user has not.
#[derive(Clone, Copy, Debug)]
pub struct CloseWait;

/// Both sides have asked to close at once.
#[derive(Clone, Copy, Debug)]
pub struct Closing;

/// The peer has closed, and the local request to close is not yet acknowledged.
#[derive(Clone, Copy, Debug)]
pub struct LastAck;

/// The connection is closed and waits for segments that are still under way.
#[derive(Clone, Copy, Debug)]
pub struct TimeWait;

impl TcpState for Closed {

}

impl TcpState for SynSent {

}

impl TcpState for SynReceived {

}

impl TcpState for Established {

}

impl TcpState for FinWait1 {

}

impl TcpState for FinWait2 {

}

impl TcpState for CloseWait {

}

impl TcpState for Closing {

}

impl TcpState for LastAck {

}

impl TcpState for TimeWait {

}

/// Waiting for a request to open.
#[derive(Debug)]
pub struct Listen {
    pub local: LocalAddr,
}

/// The control block of a connection: where sending and receiving stand.
#[derive(Clone, Copy, Debug, PartialEq, Eq, Structural)]
pub struct Tcb {
    /// The oldest sequence number sent and not yet acknowledged.
    pub snd_una: SeqNumber,
    /// The next sequence number to send.
    pub snd_nxt: SeqNumber,
    /// The send window.
    pub snd_wnd: u16,
    /// The send urgent pointer.
    pub snd_up: u16,
    /// The sequence number of the segment used for the last window update.
    pub snd_wl1: SeqNumber,
    /// The acknowledgement number of the segment used for the last window update.
    pub snd_wl2: SeqNumber,
    /// The initial send sequence number.
    pub iss: SeqNumber,
    /// The next sequence number expected from the peer.
    pub rcv_nxt: SeqNumber,
    /// The receive window.
    pub rcv_wnd: u16,
    /// The receive urgent pointer.
    pub rcv_up: u16,
    /// The initial receive sequence number.
    pub irs: SeqNumber,
}

/// A connection in state `S`: its two ends, its control block, and the segments
/// that wait to be sent again. The handshake puts nothing into that queue.
///
/// A connection is made by the transitions alone; its parts can be read.
pub struct Tcp<S> {
    local: LocalAddr,
    remote: RemoteAddr,
    tcb: Tcb,
    retransmission_queue: VecDeque<Vec<u8>>,
    _phantom: PhantomData<S>,
}

/// A connection as a mathematical value, whatever its state.
pub struct TcpView {
    pub local: LocalAddr,
    pub remote: RemoteAddr,
    pub tcb: Tcb,
    pub retransmission_queue: Seq<Seq<u8>>,
}

impl<S> View for Tcp<S> {
    type V = TcpView;

    closed spec fn view(&self) -> TcpView {
        TcpView {
            local: self.local,
            remote: self.remote,
            tcb: self.tcb,
            retransmission_queue: self.retransmission_queue@.map_values(|v: Vec<u8>| v@),
        }
    }
}

/// The maximum segment size that a connection announces when none is agreed.
pub const DEFAULT_MAX_SEG_SIZE: u16 = 536;

/// Draws an initial sequence number from all sequence numbers.
pub fn generate_iss() -> SeqNumber {
    SeqNumber(random_u32())
}

impl Tcb {
    /// The control block of a connection that starts from a peer's request with
    /// sequence number `irs`, with `iss` as its own first sequence number:
    /// nothing sent yet, and the peer's next number expected.
    pub open spec fn opened(iss: SeqNumber, irs: SeqNumber) -> Tcb {
        Tcb {
            snd_una: iss,
            snd_nxt: iss,
            snd_wnd: 0,
            snd_up: 0,
            snd_wl1: irs,
            snd_wl2: iss,
            iss,
            rcv_nxt: irs.plus(1),
            rcv_wnd: 0,
            rcv_up: 0,
            irs,
        }
    }

    /// The control block after a segment that takes `len` sequence numbers has
    /// been sent.
    pub open spec fn sent(self, len: int) -> Tcb {
        Tcb { snd_nxt: self.snd_nxt.plus(len), ..self }
    }

    /// Whether `segment` acknowledges all that has been sent.
    pub open spec fn acknowledged_by(self, segment: Segment) -> bool {
        segment.ack_number == Some(self.snd_nxt)
    }

    /// The control block after all that has been sent is acknowledged.
    pub open spec fn acknowledged(self) -> Tcb {
        Tcb { snd_una: self.snd_nxt, ..self }
    }

    /// The segment without data that this side sends next with the given control
    /// flag: it starts at the next sequence number to send and acknowledges what
    /// has been received.
    pub open spec fn next_segment(
        self,
        control: Control,
        src_port: u16,
        dst_port: u16,
        max_seg_size: Option<u16>,
    ) -> Segment {
        Segment {
            src_port,
            dst_port,
            control,
            seq_number: self.snd_nxt,
            ack_number: Some(self.rcv_nxt),
            window_len: self.rcv_wnd,
            max_seg_size,
        }
    }

    /// The control block of a connection that starts from a peer's request.
    pub fn open(iss: SeqNumber, irs: SeqNumber) -> (tcb: Tcb)
        ensures
            tcb == Tcb::opened(iss, irs),
    {
        Tcb {
            snd_una: iss,
            snd_nxt: iss,
            snd_wnd: 0,
            snd_up: 0,
            snd_wl1: irs,
            snd_wl2: iss,
            iss,
            rcv_nxt: irs.advance(1),
            rcv_wnd: 0,
            rcv_up: 0,
            irs,
        }
    }

    /// Builds the segment that this side sends next with the given control flag.
    pub fn segment(&self, control: Control, src_port: u16, dst_port: u16, max_seg_size: Option<u16>) -> (segment: Segment)
        ensures
            segment == self.next_segment(control, src_port, dst_port, max_seg_size),
    {
        Segment {
            src_port,
            dst_port,
            control,
            seq_number: self.snd_nxt,
            ack_number: Some(self.rcv_nxt),
            window_len: self.rcv_wnd,
            max_seg_size,
        }
    }

    /// Takes note that `segment` has been sent: the next sequence number to send
    /// moves on by the segment's length.
    pub fn record_sent(&mut self, segment: &Segment)
        ensures
            *final(self) == old(self).sent(segment.len()),
    {
        self.snd_nxt = self.snd_nxt.advance(segment.segment_len());
    }

    /// Takes note of an acknowledgement. The segment has to acknowledge exactly
    /// what has been sent; any other segment is a sequencing error and leaves the
    /// control block as it is.
    pub fn record_ack(&mut self, segment: &Segment) -> (r: Result<(), TcpError>)
        ensures
            match r {
                Ok(()) => old(self).acknowledged_by(*segment) && *final(self) == old(
                    self,
                ).acknowledged(),
                Err(e) => !old(self).acknowledged_by(*segment) && e == TcpError::Sequencing
                    && *final(self) == *old(self),
            },
    {
        match segment.ack_number {
            Some(n) => {
                if n.0 == self.snd_nxt.0 {
                    self.snd_una = self.snd_nxt;
                    Ok(())
                } else {
                    Err(TcpError::Sequencing)
                }
            },
            None => Err(TcpError::Sequencing),
        }
    }
}

impl Closed {
    /// The state before anything has happened.
    pub fn new() -> (closed: Self)
        ensures
            closed == Closed,
    {
        Closed
    }

    /// Starts to wait for a request to open on `local_addr`.
    pub fn passive_open(self, local_addr: LocalAddr) -> (listen: Listen)
        ensures
            listen.local == local_addr,
    {
        Listen { local: local_addr }
    }
}

impl TcpView {
    /// This connection with `tcb` as its control block.
    pub open spec fn with_tcb(self, tcb: Tcb) -> TcpView {
        TcpView { tcb, ..self }
    }

    /// What the codec reads from `packet` as a segment from the remote end to the
    /// local end.
    pub open spec fn reading(self, packet: Seq<u8>) -> Option<Segment> {
        parsed_segment(packet, self.remote.addr, self.local.addr)
    }

    /// What the codec writes for `segment` as a segment from the local end to the
    /// remote end.
    pub open spec fn writing(self, segment: Segment) -> Seq<u8> {
        emitted_segment(segment, self.local.addr, self.remote.addr)
    }
}

impl<S> Tcp<S> {
    /// The local end.
    pub fn local(&self) -> (local: LocalAddr)
        ensures
            local == self@.local,
    {
        self.local
    }

    /// The remote end.
    pub fn remote(&self) -> (remote: RemoteAddr)
        ensures
            remote == self@.remote,
    {
        self.remote
    }

    /// The control block.
    pub fn tcb(&self) -> (tcb: Tcb)
        ensures
            tcb == self@.tcb,
    {
        self.tcb
    }

    /// The segments that wait to be sent again.
    pub fn retransmission_queue(&self) -> (queue: &VecDeque<Vec<u8>>)
        ensures
            queue@.map_values(|v: Vec<u8>| v@) == self@.retransmission_queue,
    {
        &self.retransmission_queue
    }

    fn move_to<T>(self, tcb: Tcb) -> (next: Tcp<T>)
        ensures
            next@ == self@.with_tcb(tcb),
    {
        Tcp {
            local: self.local,
            remote: self.remote,
            tcb,
            retransmission_queue: self.retransmission_queue,
            _phantom: PhantomData,
        }
    }
}

impl Listen {
    /// The connection that the request `syn` from `remote` opens, with `iss` as
    /// the initial send sequence number: the control block starts from the two
    /// initial sequence numbers, and the answer has been sent.
    pub open spec fn opening(self, remote: Ipv4Address, syn: Segment, iss: SeqNumber) -> TcpView {
        TcpView {
            local: self.local,
            remote: RemoteAddr { addr: remote, port: syn.src_port },
            tcb: Tcb::opened(iss, syn.seq_number).sent(1),
            retransmission_queue: Seq::empty(),
        }
    }

    /// The answer to the request `syn`: a `SYN` that starts at `iss`,
    /// acknowledges the request and announces the default maximum segment size.
    pub open spec fn answer(self, syn: Segment, iss: SeqNumber) -> Segment {
        Tcb::opened(iss, syn.seq_number).next_segment(
            Control::Syn,
            self.local.port,
            syn.src_port,
            Some(DEFAULT_MAX_SEG_SIZE),
        )
    }

    /// Whether `tcp` and `syn_ack` are what the request `syn` from `remote` leads
    /// to with `iss` as the initial send sequence number: the connection that the
    /// request opens, and the answer as the codec writes it.
    pub open spec fn answering(
        self,
        remote: Ipv4Address,
        syn: Segment,
        iss: SeqNumber,
        tcp: TcpView,
        syn_ack: Seq<u8>,
    ) -> bool {
        tcp == self.opening(remote, syn, iss) && syn_ack == emitted_segment(
            self.answer(syn, iss),
            self.local.addr,
            remote,
        )
    }

    /// Opens the connection for a request that the codec has read, with an
    /// initial sequence number that has been drawn, and builds the answer.
    pub fn accept_syn(self, remote: Ipv4Address, syn: &Segment, iss: SeqNumber) -> (r: (
        Tcp<SynReceived>,
        Segment,
    ))
        ensures
            r.0@ == self.opening(remote, *syn, iss),
            r.1 == self.answer(*syn, iss),
    {
        let mut tcb = Tcb::open(iss, syn.seq_number);
        let answer = tcb.segment(
            Control::Syn,
            self.local.port,
            syn.src_port,
            Some(DEFAULT_MAX_SEG_SIZE),
        );
        tcb.record_sent(&answer);
        let tcp = Tcp {
            local: self.local,
            remote: RemoteAddr { addr: remote, port: syn.src_port },
            tcb,
            retransmission_queue: VecDeque::new(),
            _phantom: PhantomData,
        };
        assert(tcp@.retransmission_queue =~= Seq::empty());
        (tcp, answer)
    }

    /// Receives a request to open from `remote`: lets the codec read it, draws an
    /// initial sequence number, opens the connection and has the answer written.
    ///
    /// The step fails where the codec rejects the request, and only there.
    pub fn recv_syn(self, remote: Ipv4Address, syn: &Syn) -> (r: Result<
        (Tcp<SynReceived>, SynAck),
        TcpError,
    >)
        ensures
            match r {
                Ok((tcp, syn_ack)) => parsed_segment(syn@, remote, self.local.addr) is Some
                    && exists|iss: SeqNumber| #[trigger]
                    self.answering(
                        remote,
                        parsed_segment(syn@, remote, self.local.addr)->Some_0,
                        iss,
                        tcp@,
                        syn_ack@,
                    ),
                Err(e) => e == TcpError::Decode && parsed_segment(syn@, remote, self.local.addr)
                    is None,
            },
    {
        let local = self.local.addr;
        match Segment::parse(syn.packet(), remote, local) {
            Some(request) => {
                let iss = generate_iss();
                let (tcp, answer) = self.accept_syn(remote, &request, iss);
                match SynAck::from_packet(answer.emit(local, remote)) {
                    Some(syn_ack) => {
                        let r = Ok((tcp, syn_ack));
                        assert(r matches Ok((t, s)) && self.answering(remote, request, iss, t@, s@));
                        r
                    },
                    None => unreached(),
                }
            },
            None => Err(TcpError::Decode),
        }
    }
}

impl<S> Tcp<S> {
    /// Takes an acknowledgement that the codec has read: where it acknowledges
    /// all that has been sent the connection moves on, any other segment is a
    /// sequencing error.
    fn acknowledge<T>(self, ack: &Segment) -> (r: Result<Tcp<T>, TcpError>)
        ensures
            match r {
                Ok(next) => self@.tcb.acknowledged_by(*ack) && next@ == self@.with_tcb(
                    self@.tcb.acknowledged(),
                ),
                Err(e) => !self@.tcb.acknowledged_by(*ack) && e == TcpError::Sequencing,
            },
    {
        let mut tcb = self.tcb;
        match tcb.record_ack(ack) {
            Ok(()) => Ok(self.move_to(tcb)),
            Err(e) => Err(e),
        }
    }

    /// Receives an acknowledgement: lets the codec read it and takes it.
    fn recv_acknowledgement<T>(self, ack: &Ack) -> (r: Result<Tcp<T>, TcpError>)
        ensures
            self@.acknowledging::<T>(ack@, r),
    {
        match Segment::parse(ack.packet(), self.remote.addr, self.local.addr) {
            Some(segment) => self.acknowledge(&segment),
            None => Err(TcpError::Decode),
        }
    }
}

impl TcpView {
    /// How the outcome of receiving the acknowledgement in `packet` relates to
    /// the connection before: the step succeeds where the codec reads the packet
    /// and the segment acknowledges all that has been sent, and then that is
    /// taken note of; where the codec rejects the packet the step fails with a
    /// decode error, and with a sequencing error on any other segment.
    pub open spec fn acknowledging<T>(self, packet: Seq<u8>, outcome: Result<Tcp<T>, TcpError>) -> bool {
        match self.reading(packet) {
            None => outcome == Err::<Tcp<T>, TcpError>(TcpError::Decode),
            Some(segment) => if self.tcb.acknowledged_by(segment) {
                outcome matches Ok(next) && next@ == self.with_tcb(self.tcb.acknowledged())
            } else {
                outcome == Err::<Tcp<T>, TcpError>(TcpError::Sequencing)
            },
        }
    }
}

impl Tcp<SynReceived> {
    /// Takes the acknowledgement of the answer, once the codec has read it: the
    /// connection is established where the segment acknowledges the answer.
    pub fn accept_ack(self, ack: &Segment) -> (r: Result<Tcp<Established>, TcpError>)
        ensures
            match r {
                Ok(next) => self@.tcb.acknowledged_by(*ack) && next@ == self@.with_tcb(
                    self@.tcb.acknowledged(),
                ),
                Err(e) => !self@.tcb.acknowledged_by(*ack) && e == TcpError::Sequencing,
            },
    {
        self.acknowledge(ack)
    }

    /// Receives the acknowledgement of the answer. With it the connection is
    /// established.
    pub fn recv_ack(self, ack: &Ack) -> (r: Result<Tcp<Established>, TcpError>)
        ensures
            self@.acknowledging::<Established>(ack@, r),
    {
        self.recv_acknowledgement(ack)
    }
}

impl Tcp<Established> {
    /// Asks to close: has the request to close written and takes note that it has
    /// been sent.
    pub fn send_fin_ack(self) -> (r: (Tcp<FinWait1>, FinAck))
        ensures
            r.0@ == self@.with_tcb(self@.tcb.sent(1)),
            r.1@ == self@.writing(
                self@.tcb.next_segment(Control::Fin, self@.local.port, self@.remote.port, None),
            ),
    {
        let mut tcb = self.tcb;
        let request = tcb.segment(Control::Fin, self.local.port, self.remote.port, None);
        tcb.record_sent(&request);
        let bytes = request.emit(self.local.addr, self.remote.addr);
        match FinAck::from_packet(bytes) {
            Some(fin_ack) => (self.move_to(tcb), fin_ack),
            None => unreached(),
        }
    }
}

impl Tcp<FinWait1> {
    /// Takes the acknowledgement of the request to close, once the codec has
    /// read it.
    pub fn accept_ack(self, ack: &Segment) -> (r: Result<Tcp<TimeWait>, TcpError>)
        ensures
            match r {
                Ok(next) => self@.tcb.acknowledged_by(*ack) && next@ == self@.with_tcb(
                    self@.tcb.acknowledged(),
                ),
                Err(e) => !self@.tcb.acknowledged_by(*ack) && e == TcpError::Sequencing,
            },
    {
        self.acknowledge(ack)
    }

    /// Receives the acknowledgement of the request to close. After it the
    /// connection only waits.
    pub fn recv_ack(self, ack: &Ack) -> (r: Result<Tcp<TimeWait>, TcpError>)
        ensures
            self@.acknowledging::<TimeWait>(ack@, r),
    {
        self.recv_acknowledgement(ack)
    }
}

impl Tcp<TimeWait> {
    /// Ends the wait: the connection is gone.
    pub fn time_out(self) -> (closed: Closed)
        ensures
            closed == Closed,
    {
        Closed
    }
}

/// The three-way handshake, over the segments and for every initial sequence
/// number: the connection that a request opens has the request's sequence number
/// as its initial receive sequence number and expects the number after it; the
/// answer starts at the initial send sequence number and acknowledges the
/// request; and a segment that acknowledges the number after the initial send
/// sequence number is accepted and leaves nothing unacknowledged.
pub proof fn lemma_three_way_handshake(
    listen: Listen,
    remote: Ipv4Address,
    syn: Segment,
    iss: SeqNumber,
    ack: Segment,
)
    requires
        ack.ack_number == Some(iss.plus(1)),
    ensures
        listen.opening(remote, syn, iss).tcb.irs == syn.seq_number,
        listen.opening(remote, syn, iss).tcb.rcv_nxt == syn.seq_number.plus(1),
        listen.opening(remote, syn, iss).tcb.snd_una == iss,
        listen.opening(remote, syn, iss).tcb.snd_nxt == iss.plus(1),
        listen.answer(syn, iss).control == Control::Syn,
        listen.answer(syn, iss).seq_number == iss,
        listen.answer(syn, iss).ack_number == Some(syn.seq_number.plus(1)),
        listen.opening(remote, syn, iss).tcb.acknowledged_by(ack),
        listen.opening(remote, syn, iss).tcb.acknowledged().snd_una == iss.plus(1),
        listen.opening(remote, syn, iss).tcb.acknowledged().snd_nxt == iss.plus(1),
{
}

} // verus!
