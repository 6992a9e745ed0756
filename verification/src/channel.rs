//! The linear channel: one value that stands for a connection at a protocol
//! state. Each step consumes the channel and returns the channel at the next
//! state, over the same transport.

use vstd::prelude::*;
use std::marker::PhantomData;
use crate::endpoint::{RecvEndpoint, SendEndpoint};
use crate::error::{ChannelError, TransportError};
use crate::message::{deliver, delivery, incoming_view, received, Message};
use crate::session::{
    Action, Branch, Choose, ChooseFour, ChooseThree, Four, FourChoice, Offer, OfferFour,
    OfferThree, Recv, Send, Tau, Terminate, Three, ThreeChoice,
};

verus! {

/// A connection at protocol state `A`, over a transport whose sending capability
/// is a `Tx` and whose receiving capability is an `Rx`.
///
/// The channel owns the two capabilities of its transport. It also keeps, for
/// the proofs, the buffers that it has handed to the transport and those that it
/// has obtained from it, in order.
pub struct Channel<A, Tx, Rx> {
    sender: Tx,
    receiver: Rx,
    emitted: Ghost<Seq<Seq<u8>>>,
    awaited: Ghost<Seq<Seq<u8>>>,
    phantom: PhantomData<A>,
}

impl<A, Tx, Rx> Channel<A, Tx, Rx> {
    /// The capability that forwards buffers.
    pub closed spec fn sender(&self) -> Tx {
        self.sender
    }

    /// The capability that waits for buffers.
    pub closed spec fn receiver(&self) -> Rx {
        self.receiver
    }

    /// The buffers handed to the transport so far, oldest first.
    pub closed spec fn emitted(&self) -> Seq<Seq<u8>> {
        self.emitted@
    }

    /// The buffers obtained from the transport so far, oldest first.
    pub closed spec fn awaited(&self) -> Seq<Seq<u8>> {
        self.awaited@
    }

    /// Whether `next` is this connection at another state: the same transport,
    /// and nothing written or read in between.
    pub open spec fn retyped_as<B>(&self, next: &Channel<B, Tx, Rx>) -> bool {
        &&& next.sender() == self.sender()
        &&& next.receiver() == self.receiver()
        &&& next.emitted() == self.emitted()
        &&& next.awaited() == self.awaited()
    }

    /// A channel over the two capabilities of a transport, on which nothing has
    /// been written or read yet.
    #[must_use]
    pub fn new(sender: Tx, receiver: Rx) -> (channel: Self)
        ensures
            channel.sender() == sender,
            channel.receiver() == receiver,
            channel.emitted() == Seq::<Seq<u8>>::empty(),
            channel.awaited() == Seq::<Seq<u8>>::empty(),
    {
        Channel {
            sender,
            receiver,
            emitted: Ghost(Seq::empty()),
            awaited: Ghost(Seq::empty()),
            phantom: PhantomData,
        }
    }

    fn retype<B>(self) -> (next: Channel<B, Tx, Rx>)
        ensures
            self.retyped_as(&next),
    {
        Channel {
            sender: self.sender,
            receiver: self.receiver,
            emitted: self.emitted,
            awaited: self.awaited,
            phantom: PhantomData,
        }
    }
}

impl<M: Message, A: Action, Tx: SendEndpoint<Vec<u8>>, Rx> Channel<Send<M, A>, Tx, Rx> {
    /// Sends `message` and goes on as `A`.
    ///
    /// The message's encoding is handed to the transport, once. Where the
    /// transport takes it, the result is the same connection at `A`; where it
    /// fails, the channel is lost with the failure.
    #[must_use]
    pub fn send(self, message: M) -> (r: Result<Channel<A, Tx, Rx>, ChannelError>)
        ensures
            match r {
                Ok(next) => {
                    &&& next.sender() == self.sender()
                    &&& next.receiver() == self.receiver()
                    &&& next.emitted() == self.emitted().push(M::encoding(message@))
                    &&& next.awaited() == self.awaited()
                },
                Err(e) => e is Transport,
            },
    {
        let ghost written = M::encoding(message@);
        let bytes = message.to_net_representation();
        match self.sender.send(bytes) {
            Ok(()) => Ok(
                Channel {
                    sender: self.sender,
                    receiver: self.receiver,
                    emitted: Ghost(self.emitted@.push(written)),
                    awaited: self.awaited,
                    phantom: PhantomData,
                },
            ),
            Err(e) => Err(ChannelError::Transport(e)),
        }
    }
}

impl<M: Message, A: Action, Tx, Rx: RecvEndpoint<Vec<u8>>> Channel<Recv<M, A>, Tx, Rx> {
    /// Waits for a message and goes on as `A`.
    ///
    /// One buffer is obtained from the transport. Where it stands for a message
    /// of type `M`, the result is that message and the same connection at `A`.
    /// Where the transport fails, or the buffer is no such message, the channel
    /// is lost with the error.
    #[must_use]
    pub fn recv(self) -> (r: Result<(M, Channel<A, Tx, Rx>), ChannelError>)
        ensures
            match r {
                Ok((message, next)) => {
                    &&& next.sender() == self.sender()
                    &&& next.receiver() == self.receiver()
                    &&& next.emitted() == self.emitted()
                    &&& received::<M>(self.awaited(), next.awaited(), Ok(message@))
                },
                Err(e) => exists|incoming: Result<Seq<u8>, TransportError>| #[trigger]
                    delivery::<M>(incoming) == Err::<M::V, ChannelError>(e),
            },
    {
        let incoming = self.receiver.recv();
        let ghost read = incoming_view(incoming)->Ok_0;
        match deliver::<M>(incoming) {
            Ok(message) => {
                let next = Channel {
                    sender: self.sender,
                    receiver: self.receiver,
                    emitted: self.emitted,
                    awaited: Ghost(self.awaited@.push(read)),
                    phantom: PhantomData,
                };
                assert(next.awaited().drop_last() =~= self.awaited());
                Ok((message, next))
            },
            Err(e) => {
                assert(delivery::<M>(incoming_view(incoming)) == Err::<M::V, ChannelError>(e));
                Err(e)
            },
        }
    }
}

impl<Tx, Rx> Channel<Terminate, Tx, Rx> {
    /// Ends the protocol and releases the transport.
    pub fn close(self) {
    }
}

impl<M, A: Action, O: Action, Tx, Rx> Channel<Offer<M, A, O>, Tx, Rx> {
    /// Lets `choice` say which alternative the peer has taken: the first where it
    /// returns `true`, the second where it returns `false`. Nothing is written or
    /// read; the alternative's own first step reads what the peer sent.
    #[must_use]
    pub fn offer<F: FnOnce() -> bool>(self, choice: F) -> (branch: Branch<Channel<A, Tx, Rx>, Channel<O, Tx, Rx>>)
        requires
            choice.requires(()),
        ensures
            match branch {
                Branch::Left(next) => choice.ensures((), true) && self.retyped_as(&next),
                Branch::Right(next) => choice.ensures((), false) && self.retyped_as(&next),
            },
    {
        if choice() {
            Branch::Left(self.retype())
        } else {
            Branch::Right(self.retype())
        }
    }
}

impl<M, A: Action, O: Action, Tx, Rx> Channel<Choose<M, A, O>, Tx, Rx> {
    /// Commits to the first alternative.
    pub fn choose_left(self) -> (next: Channel<A, Tx, Rx>)
        ensures
            self.retyped_as(&next),
    {
        self.retype()
    }

    /// Commits to the second alternative.
    pub fn choose_right(self) -> (next: Channel<O, Tx, Rx>)
        ensures
            self.retyped_as(&next),
    {
        self.retype()
    }
}

impl<A: Action, Tx, Rx> Channel<Tau<A>, Tx, Rx> {
    /// Takes the internal step `action` on `arg` and goes on as `A`.
    pub fn do_action<T, F: FnOnce(T)>(self, action: F, arg: T) -> (next: Channel<A, Tx, Rx>)
        requires
            action.requires((arg,)),
        ensures
            action.ensures((arg,), ()),
            self.retyped_as(&next),
    {
        action(arg);
        self.retype()
    }
}

impl<M, A: Action, O: Action, S: Action, Tx, Rx> Channel<OfferThree<M, A, O, S>, Tx, Rx> {
    /// Lets `choice` say which of the three alternatives the peer has taken.
    #[must_use]
    pub fn offer<F: FnOnce() -> ThreeChoice>(self, choice: F) -> (branch: Three<
        Channel<A, Tx, Rx>,
        Channel<O, Tx, Rx>,
        Channel<S, Tx, Rx>,
    >)
        requires
            choice.requires(()),
        ensures
            match branch {
                Three::First(next) => choice.ensures((), ThreeChoice::One) && self.retyped_as(
                    &next,
                ),
                Three::Second(next) => choice.ensures((), ThreeChoice::Two) && self.retyped_as(
                    &next,
                ),
                Three::Third(next) => choice.ensures((), ThreeChoice::Three) && self.retyped_as(
                    &next,
                ),
            },
    {
        match choice() {
            ThreeChoice::One => Three::First(self.retype()),
            ThreeChoice::Two => Three::Second(self.retype()),
            ThreeChoice::Three => Three::Third(self.retype()),
        }
    }
}

impl<M, A: Action, O: Action, S: Action, R: Action, Tx, Rx> Channel<
    OfferFour<M, A, O, S, R>,
    Tx,
    Rx,
> {
    /// Lets `choice` say which of the four alternatives the peer has taken.
    #[must_use]
    pub fn offer<F: FnOnce() -> FourChoice>(self, choice: F) -> (branch: Four<
        Channel<A, Tx, Rx>,
        Channel<O, Tx, Rx>,
        Channel<S, Tx, Rx>,
        Channel<R, Tx, Rx>,
    >)
        requires
            choice.requires(()),
        ensures
            match branch {
                Four::First(next) => choice.ensures((), FourChoice::One) && self.retyped_as(&next),
                Four::Second(next) => choice.ensures((), FourChoice::Two) && self.retyped_as(
                    &next,
                ),
                Four::Third(next) => choice.ensures((), FourChoice::Three) && self.retyped_as(
                    &next,
                ),
                Four::Fourth(next) => choice.ensures((), FourChoice::Four) && self.retyped_as(
                    &next,
                ),
            },
    {
        match choice() {
            FourChoice::One => Four::First(self.retype()),
            FourChoice::Two => Four::Second(self.retype()),
            FourChoice::Three => Four::Third(self.retype()),
            FourChoice::Four => Four::Fourth(self.retype()),
        }
    }
}

impl<M, A: Action, O: Action, S: Action, Tx, Rx> Channel<ChooseThree<M, A, O, S>, Tx, Rx> {
    /// Commits to the first alternative.
    pub fn choose_first(self) -> (next: Channel<A, Tx, Rx>)
        ensures
            self.retyped_as(&next),
    {
        self.retype()
    }

    /// Commits to the second alternative.
    pub fn choose_second(self) -> (next: Channel<O, Tx, Rx>)
        ensures
            self.retyped_as(&next),
    {
        self.retype()
    }

    /// Commits to the third alternative.
    pub fn choose_third(self) -> (next: Channel<S, Tx, Rx>)
        ensures
            self.retyped_as(&next),
    {
        self.retype()
    }
}

impl<M, A: Action, O: Action, S: Action, R: Action, Tx, Rx> Channel<
    ChooseFour<M, A, O, S, R>,
    Tx,
    Rx,
> {
    /// Commits to the first alternative.
    pub fn choose_first(self) -> (next: Channel<A, Tx, Rx>)
        ensures
            self.retyped_as(&next),
    {
        self.retype()
    }

    /// Commits to the second alternative.
    pub fn choose_second(self) -> (next: Channel<O, Tx, Rx>)
        ensures
            self.retyped_as(&next),
    {
        self.retype()
    }

    /// Commits to the third alternative.
    pub fn choose_third(self) -> (next: Channel<S, Tx, Rx>)
        ensures
            self.retyped_as(&next),
    {
        self.retype()
    }

    /// Commits to the fourth alternative.
    pub fn choose_fourth(self) -> (next: Channel<R, Tx, Rx>)
        ensures
            self.retyped_as(&next),
    {
        self.retype()
    }
}

} // verus!
