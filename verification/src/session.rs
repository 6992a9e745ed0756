//! Protocols as types, and the linear channel that advances through them.
//!
//! A protocol state is a type that implements [`Action`]; its [`Shape`] says what
//! it stands for. A [`Channel`] at a state offers only the step of that state.
//! Every step takes the channel by value and gives back the channel at the next
//! state, over the same transport, so a channel cannot be used twice.

use vstd::prelude::*;
use std::marker::PhantomData;
use crate::endpoint::{RecvEndpoint, SendEndpoint};
use crate::error::ChannelError;
use crate::message::{deliver, delivery, Message};
use crate::protocol::{lemma_branching_shape, lemma_dual_of_branching, shapes, Protocol, Shape};

verus! {

/// A protocol state.
pub trait Action: Sized {
    /// The protocol that remains to be run from this state.
    spec fn shape() -> Shape;

    /// The token of this state.
    fn new() -> (a: Self);

    /// The protocol that remains to be run from this state, as a value.
    fn protocol() -> (p: Protocol)
        ensures
            p@ == Self::shape(),
    ;
}

/// A protocol state with the state that the peer is in.
pub trait HasDual: Action {
    /// The peer's state.
    type Dual: Action;

    /// The peer's state stands for the dual protocol.
    proof fn lemma_dual()
        ensures
            Self::Dual::shape() == Self::shape().dual(),
    ;
}

/// A protocol state whose leading internal steps can be left out.
pub trait Reducable: Action {
    /// The first state that the peer can observe.
    type Reduced: Action;

    /// The reduced state stands for the reduced protocol.
    proof fn lemma_reduced()
        ensures
            Self::Reduced::shape() == Self::shape().reduced(),
    ;
}

/// The protocol is over.
pub struct Terminate {}

/// Send a message of type `M`, then go on as `A`.
pub struct Send<M, A> {
    phantom: PhantomData<(M, A)>,
}

/// Receive a message of type `M`, then go on as `A`.
pub struct Recv<M, A> {
    phantom: PhantomData<(M, A)>,
}

/// Let the peer decide between `A` and `O`. `M` names the branching.
pub struct Offer<M, A, O> {
    phantom: PhantomData<(M, A, O)>,
}

/// Decide between `A` and `O`. `M` names the branching.
pub struct Choose<M, A, O> {
    phantom: PhantomData<(M, A, O)>,
}

/// Take an internal step, then go on as `A`.
pub struct Tau<A> {
    phantom: PhantomData<A>,
}

/// Let the peer decide between three alternatives.
pub struct OfferThree<M, A, O, S> {
    phantom: PhantomData<(M, A, O, S)>,
}

/// Let the peer decide between four alternatives.
pub struct OfferFour<M, A, O, S, R> {
    phantom: PhantomData<(M, A, O, S, R)>,
}

/// Decide between three alternatives.
pub struct ChooseThree<M, A, O, S> {
    phantom: PhantomData<(M, A, O, S)>,
}

/// Decide between four alternatives.
pub struct ChooseFour<M, A, O, S, R> {
    phantom: PhantomData<(M, A, O, S, R)>,
}

/// One of two continuations.
pub enum Branch<L, R> {
    Left(L),
    Right(R),
}

/// One of three continuations.
pub enum Three<F, S, T> {
    First(F),
    Second(S),
    Third(T),
}

/// A decision between three alternatives.
#[derive(Clone, Copy, Debug, PartialEq, Eq, Structural)]
pub enum ThreeChoice {
    One,
    Two,
    Three,
}

/// One of four continuations.
pub enum Four<F, S, T, Fo> {
    First(F),
    Second(S),
    Third(T),
    Fourth(Fo),
}

/// A decision between four alternatives.
#[derive(Clone, Copy, Debug, PartialEq, Eq, Structural)]
pub enum FourChoice {
    One,
    Two,
    Three,
    Four,
}

impl Action for Terminate {
    open spec fn shape() -> Shape {
        Shape::Terminate
    }

    fn new() -> (a: Self) {
        Terminate {  }
    }

    fn protocol() -> (p: Protocol) {
        Protocol::Terminate
    }
}

impl<M: Message, A: Action> Action for Send<M, A> {
    open spec fn shape() -> Shape {
        Shape::Send(M::label(), Box::new(A::shape()))
    }

    fn new() -> (a: Self) {
        Send { phantom: PhantomData }
    }

    fn protocol() -> (p: Protocol) {
        Protocol::Send(M::tag(), Box::new(A::protocol()))
    }
}

impl<M: Message, A: Action> Action for Recv<M, A> {
    open spec fn shape() -> Shape {
        Shape::Receive(M::label(), Box::new(A::shape()))
    }

    fn new() -> (a: Self) {
        Recv { phantom: PhantomData }
    }

    fn protocol() -> (p: Protocol) {
        Protocol::Receive(M::tag(), Box::new(A::protocol()))
    }
}

impl<M, A: Action, O: Action> Action for Offer<M, A, O> {
    open spec fn shape() -> Shape {
        Shape::Offer(seq![A::shape(), O::shape()])
    }

    fn new() -> (a: Self) {
        Offer { phantom: PhantomData }
    }

    fn protocol() -> (p: Protocol) {
        let mut alts: Vec<Protocol> = Vec::new();
        alts.push(A::protocol());
        alts.push(O::protocol());
        proof {
            lemma_branching_shape(alts);
            assert(shapes(alts@) =~= seq![A::shape(), O::shape()]);
        }
        Protocol::Offer(alts)
    }
}

impl<M, A: Action, O: Action> Action for Choose<M, A, O> {
    open spec fn shape() -> Shape {
        Shape::Choose(seq![A::shape(), O::shape()])
    }

    fn new() -> (a: Self) {
        Choose { phantom: PhantomData }
    }

    fn protocol() -> (p: Protocol) {
        let mut alts: Vec<Protocol> = Vec::new();
        alts.push(A::protocol());
        alts.push(O::protocol());
        proof {
            lemma_branching_shape(alts);
            assert(shapes(alts@) =~= seq![A::shape(), O::shape()]);
        }
        Protocol::Choose(alts)
    }
}

impl<A: Action> Action for Tau<A> {
    open spec fn shape() -> Shape {
        Shape::Tau(Box::new(A::shape()))
    }

    fn new() -> (a: Self) {
        Tau { phantom: PhantomData }
    }

    fn protocol() -> (p: Protocol) {
        Protocol::Tau(Box::new(A::protocol()))
    }
}

impl<M, A: Action, O: Action, S: Action> Action for OfferThree<M, A, O, S> {
    open spec fn shape() -> Shape {
        Shape::Offer(seq![A::shape(), O::shape(), S::shape()])
    }

    fn new() -> (a: Self) {
        OfferThree { phantom: PhantomData }
    }

    fn protocol() -> (p: Protocol) {
        let mut alts: Vec<Protocol> = Vec::new();
        alts.push(A::protocol());
        alts.push(O::protocol());
        alts.push(S::protocol());
        proof {
            lemma_branching_shape(alts);
            assert(shapes(alts@) =~= seq![A::shape(), O::shape(), S::shape()]);
        }
        Protocol::Offer(alts)
    }
}

impl<M, A: Action, O: Action, S: Action> Action for ChooseThree<M, A, O, S> {
    open spec fn shape() -> Shape {
        Shape::Choose(seq![A::shape(), O::shape(), S::shape()])
    }

    fn new() -> (a: Self) {
        ChooseThree { phantom: PhantomData }
    }

    fn protocol() -> (p: Protocol) {
        let mut alts: Vec<Protocol> = Vec::new();
        alts.push(A::protocol());
        alts.push(O::protocol());
        alts.push(S::protocol());
        proof {
            lemma_branching_shape(alts);
            assert(shapes(alts@) =~= seq![A::shape(), O::shape(), S::shape()]);
        }
        Protocol::Choose(alts)
    }
}

impl<M, A: Action, O: Action, S: Action, R: Action> Action for OfferFour<M, A, O, S, R> {
    open spec fn shape() -> Shape {
        Shape::Offer(seq![A::shape(), O::shape(), S::shape(), R::shape()])
    }

    fn new() -> (a: Self) {
        OfferFour { phantom: PhantomData }
    }

    fn protocol() -> (p: Protocol) {
        let mut alts: Vec<Protocol> = Vec::new();
        alts.push(A::protocol());
        alts.push(O::protocol());
        alts.push(S::protocol());
        alts.push(R::protocol());
        proof {
            lemma_branching_shape(alts);
            assert(shapes(alts@) =~= seq![A::shape(), O::shape(), S::shape(), R::shape()]);
        }
        Protocol::Offer(alts)
    }
}

impl<M, A: Action, O: Action, S: Action, R: Action> Action for ChooseFour<M, A, O, S, R> {
    open spec fn shape() -> Shape {
        Shape::Choose(seq![A::shape(), O::shape(), S::shape(), R::shape()])
    }

    fn new() -> (a: Self) {
        ChooseFour { phantom: PhantomData }
    }

    fn protocol() -> (p: Protocol) {
        let mut alts: Vec<Protocol> = Vec::new();
        alts.push(A::protocol());
        alts.push(O::protocol());
        alts.push(S::protocol());
        alts.push(R::protocol());
        proof {
            lemma_branching_shape(alts);
            assert(shapes(alts@) =~= seq![A::shape(), O::shape(), S::shape(), R::shape()]);
        }
        Protocol::Choose(alts)
    }
}

impl HasDual for Terminate {
    type Dual = Terminate;

    proof fn lemma_dual() {
    }
}

impl<M: Message, A: HasDual> HasDual for Send<M, A> {
    type Dual = Recv<M, A::Dual>;

    proof fn lemma_dual() {
        A::lemma_dual();
    }
}

impl<M: Message, A: HasDual> HasDual for Recv<M, A> {
    type Dual = Send<M, A::Dual>;

    proof fn lemma_dual() {
        A::lemma_dual();
    }
}

impl<M, A: HasDual, O: HasDual> HasDual for Offer<M, A, O> {
    type Dual = Choose<M, A::Dual, O::Dual>;

    proof fn lemma_dual() {
        A::lemma_dual();
        O::lemma_dual();
        let alts = seq![A::shape(), O::shape()];
        lemma_dual_of_branching(alts);
        assert(alts.map_values(|a: Shape| a.dual()) =~= seq![A::Dual::shape(), O::Dual::shape()]);
    }
}

impl<M, A: HasDual, O: HasDual> HasDual for Choose<M, A, O> {
    type Dual = Offer<M, A::Dual, O::Dual>;

    proof fn lemma_dual() {
        A::lemma_dual();
        O::lemma_dual();
        let alts = seq![A::shape(), O::shape()];
        lemma_dual_of_branching(alts);
        assert(alts.map_values(|a: Shape| a.dual()) =~= seq![A::Dual::shape(), O::Dual::shape()]);
    }
}

impl<A: Action> HasDual for Tau<A> {
    type Dual = Tau<A>;

    proof fn lemma_dual() {
    }
}

impl<M, A: HasDual, O: HasDual, S: HasDual> HasDual for OfferThree<M, A, O, S> {
    type Dual = ChooseThree<M, A::Dual, O::Dual, S::Dual>;

    proof fn lemma_dual() {
        A::lemma_dual();
        O::lemma_dual();
        S::lemma_dual();
        let alts = seq![A::shape(), O::shape(), S::shape()];
        lemma_dual_of_branching(alts);
        assert(alts.map_values(|a: Shape| a.dual()) =~= seq![
            A::Dual::shape(),
            O::Dual::shape(),
            S::Dual::shape(),
        ]);
    }
}

impl<M, A: HasDual, O: HasDual, S: HasDual> HasDual for ChooseThree<M, A, O, S> {
    type Dual = OfferThree<M, A::Dual, O::Dual, S::Dual>;

    proof fn lemma_dual() {
        A::lemma_dual();
        O::lemma_dual();
        S::lemma_dual();
        let alts = seq![A::shape(), O::shape(), S::shape()];
        lemma_dual_of_branching(alts);
        assert(alts.map_values(|a: Shape| a.dual()) =~= seq![
            A::Dual::shape(),
            O::Dual::shape(),
            S::Dual::shape(),
        ]);
    }
}

impl<M, A: HasDual, O: HasDual, S: HasDual, R: HasDual> HasDual for OfferFour<M, A, O, S, R> {
    type Dual = ChooseFour<M, A::Dual, O::Dual, S::Dual, R::Dual>;

    proof fn lemma_dual() {
        A::lemma_dual();
        O::lemma_dual();
        S::lemma_dual();
        R::lemma_dual();
        let alts = seq![A::shape(), O::shape(), S::shape(), R::shape()];
        lemma_dual_of_branching(alts);
        assert(alts.map_values(|a: Shape| a.dual()) =~= seq![
            A::Dual::shape(),
            O::Dual::shape(),
            S::Dual::shape(),
            R::Dual::shape(),
        ]);
    }
}

impl<M, A: HasDual, O: HasDual, S: HasDual, R: HasDual> HasDual for ChooseFour<M, A, O, S, R> {
    type Dual = OfferFour<M, A::Dual, O::Dual, S::Dual, R::Dual>;

    proof fn lemma_dual() {
        A::lemma_dual();
        O::lemma_dual();
        S::lemma_dual();
        R::lemma_dual();
        let alts = seq![A::shape(), O::shape(), S::shape(), R::shape()];
        lemma_dual_of_branching(alts);
        assert(alts.map_values(|a: Shape| a.dual()) =~= seq![
            A::Dual::shape(),
            O::Dual::shape(),
            S::Dual::shape(),
            R::Dual::shape(),
        ]);
    }
}

impl Reducable for Terminate {
    type Reduced = Terminate;

    proof fn lemma_reduced() {
    }
}

impl<M: Message, A: Action> Reducable for Send<M, A> {
    type Reduced = Send<M, A>;

    proof fn lemma_reduced() {
    }
}

impl<M: Message, A: Action> Reducable for Recv<M, A> {
    type Reduced = Recv<M, A>;

    proof fn lemma_reduced() {
    }
}

impl<M, A: Action, O: Action> Reducable for Offer<M, A, O> {
    type Reduced = Offer<M, A, O>;

    proof fn lemma_reduced() {
    }
}

impl<M, A: Action, O: Action> Reducable for Choose<M, A, O> {
    type Reduced = Choose<M, A, O>;

    proof fn lemma_reduced() {
    }
}

impl<A: Reducable> Reducable for Tau<A> {
    type Reduced = A::Reduced;

    proof fn lemma_reduced() {
        A::lemma_reduced();
    }
}

/// For every protocol state, the peer of its peer stands for the same protocol,
/// and where the state is an offer its peer is the choice among the duals.
pub proof fn lemma_peer_of_peer<A: HasDual>()
    ensures
        A::Dual::shape().dual() == A::shape(),
{
    A::lemma_dual();
    crate::protocol::lemma_dual_involutive(A::shape());
}

} // verus!
