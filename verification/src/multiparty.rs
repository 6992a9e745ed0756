//! Channels between named participants.
//!
//! A participant that talks to several peers holds one channel for each of them
//! and one session token for its whole local protocol. Every step takes the
//! token of the current state and the channel to the peer that the state names,
//! and returns the token of the next state. A channel is tagged with the local
//! role and the peer's role, a state with the peer's role, so a step cannot be
//! taken on the channel to another peer.

use vstd::prelude::*;
use std::marker::PhantomData;
use crate::endpoint::{queue_recv, queue_send, RecvEndpoint, SendEndpoint};
use crate::error::{ChannelError, TransportError};
use crate::message::{deliver, incoming_view, received, Message};
use crate::protocol::{lemma_branching_shape, shapes, Protocol, Shape};
use crate::session::{Action, Branch};

verus! {

/// A participant of a protocol. A role is a name: it holds nothing.
pub trait Role {

}

/// The system side of the server: the connection state machine.
pub struct RoleServerSystem;

/// The user of the server, who opens and closes the connection.
pub struct RoleServerUser;

/// The remote client that connects to the server.
pub struct RoleServerClient;

impl Role for RoleServerSystem {

}

impl Role for RoleServerUser {

}

impl Role for RoleServerClient {

}

/// Receive a message of type `M` from role `R`, then go on as `A`.
pub struct OfferOne<R, M, A> {
    phantom: PhantomData<(R, M, A)>,
}

/// Send a message of type `M` to role `R`, then go on as `A`.
pub struct SelectOne<R, M, A> {
    phantom: PhantomData<(R, M, A)>,
}

/// Let role `R` decide: it sends an `M1` and this side goes on as `A1`, or it
/// sends an `M2` and this side goes on as `A2`.
pub struct OfferTwo<R, M1, M2, A1, A2> {
    phantom: PhantomData<(R, M1, M2, A1, A2)>,
}

/// Decide: send an `M1` to role `R` and go on as `A1`, or send an `M2` and go on
/// as `A2`.
pub struct SelectTwo<R, M1, M2, A1, A2> {
    phantom: PhantomData<(R, M1, M2, A1, A2)>,
}

/// The protocol is over.
pub struct End {}

impl<R: Role, M: Message, A: Action> Action for OfferOne<R, M, A> {
    open spec fn shape() -> Shape {
        Shape::Receive(M::label(), Box::new(A::shape()))
    }

    fn new() -> (a: Self) {
        OfferOne { phantom: PhantomData }
    }

    fn protocol() -> (p: Protocol) {
        Protocol::Receive(M::tag(), Box::new(A::protocol()))
    }
}

impl<R: Role, M: Message, A: Action> Action for SelectOne<R, M, A> {
    open spec fn shape() -> Shape {
        Shape::Send(M::label(), Box::new(A::shape()))
    }

    fn new() -> (a: Self) {
        SelectOne { phantom: PhantomData }
    }

    fn protocol() -> (p: Protocol) {
        Protocol::Send(M::tag(), Box::new(A::protocol()))
    }
}

impl<R: Role, M1: Message, M2: Message, A1: Action, A2: Action> Action for OfferTwo<
    R,
    M1,
    M2,
    A1,
    A2,
> {
    open spec fn shape() -> Shape {
        Shape::Offer(
            seq![
                Shape::Receive(M1::label(), Box::new(A1::shape())),
                Shape::Receive(M2::label(), Box::new(A2::shape())),
            ],
        )
    }

    fn new() -> (a: Self) {
        OfferTwo { phantom: PhantomData }
    }

    fn protocol() -> (p: Protocol) {
        let mut alts: Vec<Protocol> = Vec::new();
        alts.push(Protocol::Receive(M1::tag(), Box::new(A1::protocol())));
        alts.push(Protocol::Receive(M2::tag(), Box::new(A2::protocol())));
        proof {
            lemma_branching_shape(alts);
            assert(shapes(alts@) =~= seq![
                Shape::Receive(M1::label(), Box::new(A1::shape())),
                Shape::Receive(M2::label(), Box::new(A2::shape())),
            ]);
        }
        Protocol::Offer(alts)
    }
}

impl<R: Role, M1: Message, M2: Message, A1: Action, A2: Action> Action for SelectTwo<
    R,
    M1,
    M2,
    A1,
    A2,
> {
    open spec fn shape() -> Shape {
        Shape::Choose(
            seq![
                Shape::Send(M1::label(), Box::new(A1::shape())),
                Shape::Send(M2::label(), Box::new(A2::shape())),
            ],
        )
    }

    fn new() -> (a: Self) {
        SelectTwo { phantom: PhantomData }
    }

    fn protocol() -> (p: Protocol) {
        let mut alts: Vec<Protocol> = Vec::new();
        alts.push(Protocol::Send(M1::tag(), Box::new(A1::protocol())));
        alts.push(Protocol::Send(M2::tag(), Box::new(A2::protocol())));
        proof {
            lemma_branching_shape(alts);
            assert(shapes(alts@) =~= seq![
                Shape::Send(M1::label(), Box::new(A1::shape())),
                Shape::Send(M2::label(), Box::new(A2::shape())),
            ]);
        }
        Protocol::Choose(alts)
    }
}

impl Action for End {
    open spec fn shape() -> Shape {
        Shape::Terminate
    }

    fn new() -> (a: Self) {
        End {  }
    }

    fn protocol() -> (p: Protocol) {
        Protocol::Terminate
    }
}

impl End {
    /// Ends the protocol on `channel` and releases its transport.
    pub fn close<R1: Role, R2: Role, C: SessionTypedChannel<R1, R2>>(self, channel: C) {
        channel.close(self)
    }
}

/// How the outcome of an offer between two alternatives relates to the decision
/// `first` and to the buffers obtained from the transport before and after it:
/// the result is the alternative that the decision names, with the message that
/// the one new buffer stands for in that alternative's type; an error is that of
/// receiving a message of that alternative's type.
pub open spec fn offered_two<M1: Message, M2: Message, A1, A2>(
    first: bool,
    before: Seq<Seq<u8>>,
    after: Seq<Seq<u8>>,
    outcome: Result<Branch<(M1, A1), (M2, A2)>, ChannelError>,
) -> bool {
    match outcome {
        Ok(Branch::Left((m, _))) => first && received::<M1>(before, after, Ok(m@)),
        Ok(Branch::Right((m, _))) => !first && received::<M2>(before, after, Ok(m@)),
        Err(e) => if first {
            received::<M1>(before, after, Err(e))
        } else {
            received::<M2>(before, after, Err(e))
        },
    }
}

/// Offer and choice agree. Let the choosing side take the first alternative and
/// send a message `v`, and let the buffer that the offering side obtains next be
/// that message's buffer. Where the offering side's decision names the first
/// alternative too, its step gives the first alternative with the message `v`.
/// Where the decision names the second alternative, and the second alternative's
/// message type reads no message from that buffer, the step fails with a decode
/// error: it does not go on with wrong data.
pub proof fn lemma_offer_agrees_with_left<M1: Message, M2: Message, A1, A2>(
    v: M1::V,
    first: bool,
    before: Seq<Seq<u8>>,
    outcome: Result<Branch<(M1, A1), (M2, A2)>, ChannelError>,
)
    requires
        M1::valid(v),
        offered_two(first, before, before.push(M1::encoding(v)), outcome),
    ensures
        first ==> (outcome matches Ok(Branch::Left((m, _))) && m@ == v),
        !first && M2::decoding(M1::encoding(v)) is None ==> outcome == Err::<
            Branch<(M1, A1), (M2, A2)>,
            ChannelError,
        >(ChannelError::Decode),
{
    M1::lemma_round_trip(v);
    assert(before.push(M1::encoding(v)).last() == M1::encoding(v));
}

/// Offer and choice agree, where the choosing side takes the second alternative:
/// as [`lemma_offer_agrees_with_left`], with the alternatives exchanged.
pub proof fn lemma_offer_agrees_with_right<M1: Message, M2: Message, A1, A2>(
    v: M2::V,
    first: bool,
    before: Seq<Seq<u8>>,
    outcome: Result<Branch<(M1, A1), (M2, A2)>, ChannelError>,
)
    requires
        M2::valid(v),
        offered_two(first, before, before.push(M2::encoding(v)), outcome),
    ensures
        !first ==> (outcome matches Ok(Branch::Right((m, _))) && m@ == v),
        first && M1::decoding(M2::encoding(v)) is None ==> outcome == Err::<
            Branch<(M1, A1), (M2, A2)>,
            ChannelError,
        >(ChannelError::Decode),
{
    M2::lemma_round_trip(v);
    assert(before.push(M2::encoding(v)).last() == M2::encoding(v));
}

/// A channel from role `R1` to role `R2` on which the steps of a session can be
/// taken.
///
/// A transport provides `emit` and `await_one`; the steps are built on them. The
/// channel keeps, for the proofs, the buffers handed to the transport and the
/// buffers obtained from it, in order.
pub trait SessionTypedChannel<R1: Role, R2: Role>: Sized {
    /// The buffers handed to the transport so far, oldest first.
    spec fn emitted(&self) -> Seq<Seq<u8>>;

    /// The buffers obtained from the transport so far, oldest first.
    spec fn awaited(&self) -> Seq<Seq<u8>>;

    /// Hands one buffer to the transport.
    fn emit(&mut self, bytes: Vec<u8>) -> (r: Result<(), TransportError>)
        ensures
            final(self).awaited() == old(self).awaited(),
            r is Ok ==> final(self).emitted() == old(self).emitted().push(bytes@),
            r is Err ==> final(self).emitted() == old(self).emitted(),
    ;

    /// Blocks until the transport has one buffer.
    fn await_one(&mut self) -> (r: Result<Vec<u8>, TransportError>)
        ensures
            final(self).emitted() == old(self).emitted(),
            match r {
                Ok(bytes) => final(self).awaited() == old(self).awaited().push(bytes@),
                Err(_) => final(self).awaited() == old(self).awaited(),
            },
    ;

    /// Receives the message of the state `_o` from the peer and returns it with
    /// the next state.
    #[must_use]
    fn offer_one<M: Message, A: Action>(&mut self, _o: OfferOne<R2, M, A>) -> (r: Result<
        (M, A),
        ChannelError,
    >)
        ensures
            final(self).emitted() == old(self).emitted(),
            match r {
                Ok((m, _)) => received::<M>(old(self).awaited(), final(self).awaited(), Ok(m@)),
                Err(e) => received::<M>(old(self).awaited(), final(self).awaited(), Err(e)),
            },
    {
        let incoming = self.await_one();
        assert(incoming is Ok ==> self.awaited().drop_last() =~= old(self).awaited());
        match deliver::<M>(incoming) {
            Ok(m) => Ok((m, A::new())),
            Err(e) => Err(e),
        }
    }

    /// Sends `message` to the peer as the state `_o` asks and returns the next
    /// state.
    #[must_use]
    fn select_one<M: Message, A: Action>(&mut self, _o: SelectOne<R2, M, A>, message: M) -> (r:
        Result<A, ChannelError>)
        ensures
            final(self).awaited() == old(self).awaited(),
            match r {
                Ok(_) => final(self).emitted() == old(self).emitted().push(M::encoding(message@)),
                Err(e) => e is Transport && final(self).emitted() == old(self).emitted(),
            },
    {
        match self.emit(message.to_net_representation()) {
            Ok(()) => Ok(A::new()),
            Err(e) => Err(ChannelError::Transport(e)),
        }
    }

    /// Lets `picker` say which alternative the peer has taken, receives that
    /// alternative's message and returns it with the alternative's next state.
    ///
    /// `picker` returns `true` for the first alternative and `false` for the
    /// second. Where it names the alternative that the peer did not take, the
    /// buffer does not stand for the expected message and the step fails with a
    /// decode error, as far as the two message types can be told apart.
    fn offer_two<M1: Message, M2: Message, A1: Action, A2: Action, F: FnOnce() -> bool>(
        &mut self,
        _o: OfferTwo<R2, M1, M2, A1, A2>,
        picker: F,
    ) -> (r: Result<Branch<(M1, A1), (M2, A2)>, ChannelError>)
        requires
            picker.requires(()),
        ensures
            final(self).emitted() == old(self).emitted(),
            exists|first: bool|
                picker.ensures((), first) && #[trigger] offered_two(
                    first,
                    old(self).awaited(),
                    final(self).awaited(),
                    r,
                ),
    {
        let first = picker();
        let incoming = self.await_one();
        assert(incoming is Ok ==> self.awaited().drop_last() =~= old(self).awaited());
        let r = if first {
            match deliver::<M1>(incoming) {
                Ok(m) => Ok(Branch::Left((m, A1::new()))),
                Err(e) => Err(e),
            }
        } else {
            match deliver::<M2>(incoming) {
                Ok(m) => Ok(Branch::Right((m, A2::new()))),
                Err(e) => Err(e),
            }
        };
        assert(offered_two(first, old(self).awaited(), self.awaited(), r));
        r
    }

    /// Takes the first alternative: sends its message and returns its next state.
    #[must_use]
    fn select_left<M1: Message, M2: Message, A1: Action, A2: Action>(
        &mut self,
        _o: SelectTwo<R2, M1, M2, A1, A2>,
        message: M1,
    ) -> (r: Result<A1, ChannelError>)
        ensures
            final(self).awaited() == old(self).awaited(),
            match r {
                Ok(_) => final(self).emitted() == old(self).emitted().push(
                    M1::encoding(message@),
                ),
                Err(e) => e is Transport && final(self).emitted() == old(self).emitted(),
            },
    {
        match self.emit(message.to_net_representation()) {
            Ok(()) => Ok(A1::new()),
            Err(e) => Err(ChannelError::Transport(e)),
        }
    }

    /// Takes the second alternative: sends its message and returns its next
    /// state.
    #[must_use]
    fn select_right<M1: Message, M2: Message, A1: Action, A2: Action>(
        &mut self,
        _o: SelectTwo<R2, M1, M2, A1, A2>,
        message: M2,
    ) -> (r: Result<A2, ChannelError>)
        ensures
            final(self).awaited() == old(self).awaited(),
            match r {
                Ok(_) => final(self).emitted() == old(self).emitted().push(
                    M2::encoding(message@),
                ),
                Err(e) => e is Transport && final(self).emitted() == old(self).emitted(),
            },
    {
        match self.emit(message.to_net_representation()) {
            Ok(()) => Ok(A2::new()),
            Err(e) => Err(ChannelError::Transport(e)),
        }
    }

    /// Ends the protocol and releases the transport.
    fn close(self, _end: End) {
    }
}

/// A channel between two roles over an in-process queue in each direction.
pub struct CrossBeamRoleChannel<R1, R2> {
    send: crossbeam_channel::Sender<Vec<u8>>,
    recv: crossbeam_channel::Receiver<Vec<u8>>,
    emitted: Ghost<Seq<Seq<u8>>>,
    awaited: Ghost<Seq<Seq<u8>>>,
    phantom: PhantomData<(R1, R2)>,
}

impl<R1: Role, R2: Role> CrossBeamRoleChannel<R1, R2> {
    /// A channel that writes to `send` and reads from `recv`, on which nothing
    /// has been written or read yet.
    pub fn new(
        send: crossbeam_channel::Sender<Vec<u8>>,
        recv: crossbeam_channel::Receiver<Vec<u8>>,
    ) -> (channel: Self)
        ensures
            channel.emitted() == Seq::<Seq<u8>>::empty(),
            channel.awaited() == Seq::<Seq<u8>>::empty(),
    {
        CrossBeamRoleChannel {
            send,
            recv,
            emitted: Ghost(Seq::empty()),
            awaited: Ghost(Seq::empty()),
            phantom: PhantomData,
        }
    }
}

impl<R1: Role, R2: Role> SessionTypedChannel<R1, R2> for CrossBeamRoleChannel<R1, R2> {
    closed spec fn emitted(&self) -> Seq<Seq<u8>> {
        self.emitted@
    }

    closed spec fn awaited(&self) -> Seq<Seq<u8>> {
        self.awaited@
    }

    fn emit(&mut self, bytes: Vec<u8>) -> (r: Result<(), TransportError>) {
        let ghost written = bytes@;
        let r = queue_send(&self.send, bytes);
        if r.is_ok() {
            self.emitted = Ghost(self.emitted@.push(written));
        }
        r
    }

    fn await_one(&mut self) -> (r: Result<Vec<u8>, TransportError>) {
        let r = queue_recv(&self.recv);
        if r.is_ok() {
            self.awaited = Ghost(self.awaited@.push(incoming_view(r)->Ok_0));
        }
        r
    }
}

/// A channel between two roles over the two capabilities of any transport: a raw
/// socket, a virtual interface, a queue.
pub struct NetChannel<R1, R2> {
    rx: Box<dyn RecvEndpoint<Vec<u8>>>,
    tx: Box<dyn SendEndpoint<Vec<u8>>>,
    emitted: Ghost<Seq<Seq<u8>>>,
    awaited: Ghost<Seq<Seq<u8>>>,
    phantom: PhantomData<(R1, R2)>,
}

impl<R1: Role, R2: Role> NetChannel<R1, R2> {
    /// A channel that reads from `rx` and writes to `tx`, on which nothing has
    /// been written or read yet.
    pub fn new(rx: Box<dyn RecvEndpoint<Vec<u8>>>, tx: Box<dyn SendEndpoint<Vec<u8>>>) -> (channel:
        Self)
        ensures
            channel.emitted() == Seq::<Seq<u8>>::empty(),
            channel.awaited() == Seq::<Seq<u8>>::empty(),
    {
        NetChannel {
            rx,
            tx,
            emitted: Ghost(Seq::empty()),
            awaited: Ghost(Seq::empty()),
            phantom: PhantomData,
        }
    }
}

impl<R1: Role, R2: Role> SessionTypedChannel<R1, R2> for NetChannel<R1, R2> {
    closed spec fn emitted(&self) -> Seq<Seq<u8>> {
        self.emitted@
    }

    closed spec fn awaited(&self) -> Seq<Seq<u8>> {
        self.awaited@
    }

    fn emit(&mut self, bytes: Vec<u8>) -> (r: Result<(), TransportError>) {
        let ghost written = bytes@;
        let r = self.tx.send(bytes);
        if r.is_ok() {
            self.emitted = Ghost(self.emitted@.push(written));
        }
        r
    }

    fn await_one(&mut self) -> (r: Result<Vec<u8>, TransportError>) {
        let r = self.rx.recv();
        if r.is_ok() {
            self.awaited = Ghost(self.awaited@.push(incoming_view(r)->Ok_0));
        }
        r
    }
}

/// Receives the message of the state `o` on `channel`; see
/// [`SessionTypedChannel::offer_one`].
#[must_use]
pub fn offer_one<R1: Role, R2: Role, M: Message, A: Action, C: SessionTypedChannel<R1, R2>>(
    o: OfferOne<R2, M, A>,
    channel: &mut C,
) -> (r: Result<(M, A), ChannelError>)
    ensures
        final(channel).emitted() == old(channel).emitted(),
        match r {
            Ok((m, _)) => received::<M>(old(channel).awaited(), final(channel).awaited(), Ok(m@)),
            Err(e) => received::<M>(old(channel).awaited(), final(channel).awaited(), Err(e)),
        },
{
    channel.offer_one(o)
}

/// Sends `message` on `channel` as the state `o` asks; see
/// [`SessionTypedChannel::select_one`].
#[must_use]
pub fn select_one<R1: Role, R2: Role, M: Message, A: Action, C: SessionTypedChannel<R1, R2>>(
    o: SelectOne<R2, M, A>,
    message: M,
    channel: &mut C,
) -> (r: Result<A, ChannelError>)
    ensures
        final(channel).awaited() == old(channel).awaited(),
        match r {
            Ok(_) => final(channel).emitted() == old(channel).emitted().push(
                M::encoding(message@),
            ),
            Err(e) => e is Transport && final(channel).emitted() == old(channel).emitted(),
        },
{
    channel.select_one(o, message)
}

/// Offers two alternatives on `channel`; see
/// [`SessionTypedChannel::offer_two`].
pub fn offer_two<
    R1: Role,
    R2: Role,
    M1: Message,
    M2: Message,
    A1: Action,
    A2: Action,
    C: SessionTypedChannel<R1, R2>,
    F: FnOnce() -> bool,
>(o: OfferTwo<R2, M1, M2, A1, A2>, channel: &mut C, picker: F) -> (r: Result<
    Branch<(M1, A1), (M2, A2)>,
    ChannelError,
>)
    requires
        picker.requires(()),
    ensures
        final(channel).emitted() == old(channel).emitted(),
        exists|first: bool|
            picker.ensures((), first) && #[trigger] offered_two(
                first,
                old(channel).awaited(),
                final(channel).awaited(),
                r,
            ),
{
    channel.offer_two(o, picker)
}

/// Takes the first alternative on `channel`; see
/// [`SessionTypedChannel::select_left`].
#[must_use]
pub fn select_left<
    R1: Role,
    R2: Role,
    M1: Message,
    M2: Message,
    A1: Action,
    A2: Action,
    C: SessionTypedChannel<R1, R2>,
>(o: SelectTwo<R2, M1, M2, A1, A2>, channel: &mut C, message: M1) -> (r: Result<A1, ChannelError>)
    ensures
        final(channel).awaited() == old(channel).awaited(),
        match r {
            Ok(_) => final(channel).emitted() == old(channel).emitted().push(
                M1::encoding(message@),
            ),
            Err(e) => e is Transport && final(channel).emitted() == old(channel).emitted(),
        },
{
    channel.select_left(o, message)
}

/// Takes the second alternative on `channel`; see
/// [`SessionTypedChannel::select_right`].
#[must_use]
pub fn select_right<
    R1: Role,
    R2: Role,
    M1: Message,
    M2: Message,
    A1: Action,
    A2: Action,
    C: SessionTypedChannel<R1, R2>,
>(o: SelectTwo<R2, M1, M2, A1, A2>, channel: &mut C, message: M2) -> (r: Result<A2, ChannelError>)
    ensures
        final(channel).awaited() == old(channel).awaited(),
        match r {
            Ok(_) => final(channel).emitted() == old(channel).emitted().push(
                M2::encoding(message@),
            ),
            Err(e) => e is Transport && final(channel).emitted() == old(channel).emitted(),
        },
{
    channel.select_right(o, message)
}

} // verus!
