//! Branching between three alternatives, each with its own message and its own
//! next state, where the caller brings the capabilities that obtain and forward
//! the messages.
//!
//! The side that offers learns from its `picker` which alternative the peer has
//! taken, obtains that alternative's message and goes on in that alternative's
//! state. The side that selects lets its `picker` decide, forwards that
//! alternative's message and goes on in that alternative's state. Either way
//! exactly one alternative is taken, and only its capability is used.

use vstd::prelude::*;
use std::marker::PhantomData;
use crate::message::Message;
use crate::protocol::{lemma_branching_shape, shapes, Protocol, Shape};
use crate::session::Action;

verus! {

/// Which of three alternatives the peer has taken.
#[derive(Clone, Copy, Debug, PartialEq, Eq, Structural)]
pub enum BranchingsOfferToRoleA3Choices {
    Branch0,
    Branch1,
    Branch2,
}

/// Which of three alternatives this side takes.
#[derive(Clone, Copy, Debug, PartialEq, Eq, Structural)]
pub enum BranchingsSelectFromRoleA3Choices {
    Branch0,
    Branch1,
    Branch2,
}

/// What one of three alternatives of an offer led to.
pub enum BranchingsA3Choices<A, B, C> {
    One(A),
    Two(B),
    Three(C),
}

/// What one of three alternatives of a selection led to.
pub enum BranchingsSelectA3Choices<A, B, C> {
    One(A),
    Two(B),
    Three(C),
}

/// Let the peer decide between three alternatives: it sends an `M0`, an `M1` or
/// an `M2`, and this side goes on as `A0`, `A1` or `A2`.
pub struct OfferToRoleA3Choices<M0, M1, M2, A0, A1, A2> {
    phantom: PhantomData<(M0, M1, M2, A0, A1, A2)>,
}

/// Decide between three alternatives: send an `M0`, an `M1` or an `M2`, and go on
/// as `A0`, `A1` or `A2`.
pub struct SelectFromRoleA3Choices<M0, M1, M2, A0, A1, A2> {
    phantom: PhantomData<(M0, M1, M2, A0, A1, A2)>,
}

impl<M0: Message, M1: Message, M2: Message, A0: Action, A1: Action, A2: Action> Action for OfferToRoleA3Choices<
    M0,
    M1,
    M2,
    A0,
    A1,
    A2,
> {
    open spec fn shape() -> Shape {
        Shape::Offer(
            seq![
                Shape::Receive(M0::label(), Box::new(A0::shape())),
                Shape::Receive(M1::label(), Box::new(A1::shape())),
                Shape::Receive(M2::label(), Box::new(A2::shape())),
            ],
        )
    }

    fn new() -> (a: Self) {
        OfferToRoleA3Choices { phantom: PhantomData }
    }

    fn protocol() -> (p: Protocol) {
        let mut alts: Vec<Protocol> = Vec::new();
        alts.push(Protocol::Receive(M0::tag(), Box::new(A0::protocol())));
        alts.push(Protocol::Receive(M1::tag(), Box::new(A1::protocol())));
        alts.push(Protocol::Receive(M2::tag(), Box::new(A2::protocol())));
        proof {
            lemma_branching_shape(alts);
            assert(shapes(alts@) =~= seq![
                Shape::Receive(M0::label(), Box::new(A0::shape())),
                Shape::Receive(M1::label(), Box::new(A1::shape())),
                Shape::Receive(M2::label(), Box::new(A2::shape())),
            ]);
        }
        Protocol::Offer(alts)
    }
}

impl<M0: Message, M1: Message, M2: Message, A0: Action, A1: Action, A2: Action> Action for SelectFromRoleA3Choices<
    M0,
    M1,
    M2,
    A0,
    A1,
    A2,
> {
    open spec fn shape() -> Shape {
        Shape::Choose(
            seq![
                Shape::Send(M0::label(), Box::new(A0::shape())),
                Shape::Send(M1::label(), Box::new(A1::shape())),
                Shape::Send(M2::label(), Box::new(A2::shape())),
            ],
        )
    }

    fn new() -> (a: Self) {
        SelectFromRoleA3Choices { phantom: PhantomData }
    }

    fn protocol() -> (p: Protocol) {
        let mut alts: Vec<Protocol> = Vec::new();
        alts.push(Protocol::Send(M0::tag(), Box::new(A0::protocol())));
        alts.push(Protocol::Send(M1::tag(), Box::new(A1::protocol())));
        alts.push(Protocol::Send(M2::tag(), Box::new(A2::protocol())));
        proof {
            lemma_branching_shape(alts);
            assert(shapes(alts@) =~= seq![
                Shape::Send(M0::label(), Box::new(A0::shape())),
                Shape::Send(M1::label(), Box::new(A1::shape())),
                Shape::Send(M2::label(), Box::new(A2::shape())),
            ]);
        }
        Protocol::Choose(alts)
    }
}

impl<M0: Message, M1: Message, M2: Message, A0: Action, A1: Action, A2: Action> OfferToRoleA3Choices<
    M0,
    M1,
    M2,
    A0,
    A1,
    A2,
> {
    /// Lets `picker` say which alternative the peer has taken, obtains that
    /// alternative's message from its emitter and returns it with the
    /// alternative's next state. The other two emitters are not used.
    pub fn offer<P, E0, E1, E2>(self, emitter0: E0, emitter1: E1, emitter2: E2, picker: P) -> (r:
        BranchingsA3Choices<(M0, A0), (M1, A1), (M2, A2)>) where
        P: FnOnce() -> BranchingsOfferToRoleA3Choices,
        E0: FnOnce() -> M0,
        E1: FnOnce() -> M1,
        E2: FnOnce() -> M2,

        requires
            picker.requires(()),
            emitter0.requires(()),
            emitter1.requires(()),
            emitter2.requires(()),
        ensures
            match r {
                BranchingsA3Choices::One((m, _)) => picker.ensures(
                    (),
                    BranchingsOfferToRoleA3Choices::Branch0,
                ) && emitter0.ensures((), m),
                BranchingsA3Choices::Two((m, _)) => picker.ensures(
                    (),
                    BranchingsOfferToRoleA3Choices::Branch1,
                ) && emitter1.ensures((), m),
                BranchingsA3Choices::Three((m, _)) => picker.ensures(
                    (),
                    BranchingsOfferToRoleA3Choices::Branch2,
                ) && emitter2.ensures((), m),
            },
    {
        match picker() {
            BranchingsOfferToRoleA3Choices::Branch0 => {
                let message = emitter0();
                BranchingsA3Choices::One((message, A0::new()))
            },
            BranchingsOfferToRoleA3Choices::Branch1 => {
                let message = emitter1();
                BranchingsA3Choices::Two((message, A1::new()))
            },
            BranchingsOfferToRoleA3Choices::Branch2 => {
                let message = emitter2();
                BranchingsA3Choices::Three((message, A2::new()))
            },
        }
    }
}

impl<M0: Message, M1: Message, M2: Message, A0: Action, A1: Action, A2: Action> SelectFromRoleA3Choices<
    M0,
    M1,
    M2,
    A0,
    A1,
    A2,
> {
    /// Lets `picker` decide between the three alternatives, hands that
    /// alternative's message to its emitter and returns the alternative's next
    /// state. The other two messages are dropped, their emitters not used.
    pub fn select<P, E0, E1, E2>(
        self,
        emitter0: E0,
        emitter1: E1,
        emitter2: E2,
        message0: M0,
        message1: M1,
        message2: M2,
        picker: P,
    ) -> (r: BranchingsSelectA3Choices<A0, A1, A2>) where
        P: FnOnce() -> BranchingsSelectFromRoleA3Choices,
        E0: FnOnce(M0),
        E1: FnOnce(M1),
        E2: FnOnce(M2),

        requires
            picker.requires(()),
            emitter0.requires((message0,)),
            emitter1.requires((message1,)),
            emitter2.requires((message2,)),
        ensures
            match r {
                BranchingsSelectA3Choices::One(_) => picker.ensures(
                    (),
                    BranchingsSelectFromRoleA3Choices::Branch0,
                ) && emitter0.ensures((message0,), ()),
                BranchingsSelectA3Choices::Two(_) => picker.ensures(
                    (),
                    BranchingsSelectFromRoleA3Choices::Branch1,
                ) && emitter1.ensures((message1,), ()),
                BranchingsSelectA3Choices::Three(_) => picker.ensures(
                    (),
                    BranchingsSelectFromRoleA3Choices::Branch2,
                ) && emitter2.ensures((message2,), ()),
            },
    {
        match picker() {
            BranchingsSelectFromRoleA3Choices::Branch0 => {
                emitter0(message0);
                BranchingsSelectA3Choices::One(A0::new())
            },
            BranchingsSelectFromRoleA3Choices::Branch1 => {
                emitter1(message1);
                BranchingsSelectA3Choices::Two(A1::new())
            },
            BranchingsSelectFromRoleA3Choices::Branch2 => {
                emitter2(message2);
                BranchingsSelectA3Choices::Three(A2::new())
            },
        }
    }

    /// As [`SelectFromRoleA3Choices::select`], for a `picker` that names the
    /// alternative by a value of the offering side's result type; what that
    /// value holds is not looked at.
    pub fn offer<P, E0, E1, E2>(
        self,
        emitter0: E0,
        emitter1: E1,
        emitter2: E2,
        message0: M0,
        message1: M1,
        message2: M2,
        picker: P,
    ) -> (r: BranchingsSelectA3Choices<A0, A1, A2>) where
        P: FnOnce() -> BranchingsA3Choices<(M0, A0), (M1, A1), (M2, A2)>,
        E0: FnOnce(M0),
        E1: FnOnce(M1),
        E2: FnOnce(M2),

        requires
            picker.requires(()),
            emitter0.requires((message0,)),
            emitter1.requires((message1,)),
            emitter2.requires((message2,)),
        ensures
            exists|choice: BranchingsA3Choices<(M0, A0), (M1, A1), (M2, A2)>|
                picker.ensures((), choice) && match r {
                    BranchingsSelectA3Choices::One(_) => choice is One && emitter0.ensures(
                        (message0,),
                        (),
                    ),
                    BranchingsSelectA3Choices::Two(_) => choice is Two && emitter1.ensures(
                        (message1,),
                        (),
                    ),
                    BranchingsSelectA3Choices::Three(_) => choice is Three && emitter2.ensures(
                        (message2,),
                        (),
                    ),
                },
    {
        match picker() {
            BranchingsA3Choices::One(_) => {
                emitter0(message0);
                BranchingsSelectA3Choices::One(A0::new())
            },
            BranchingsA3Choices::Two(_) => {
                emitter1(message1);
                BranchingsSelectA3Choices::Two(A1::new())
            },
            BranchingsA3Choices::Three(_) => {
                emitter2(message2);
                BranchingsSelectA3Choices::Three(A2::new())
            },
        }
    }
}

} // verus!
