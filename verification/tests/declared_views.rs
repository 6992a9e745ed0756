use tcpst::choices::{OfferToRoleA3Choices, SelectFromRoleA3Choices};
use tcpst::message::{Close, Message, Open};
use tcpst::multiparty::{End, OfferOne, OfferTwo, RoleServerSystem, RoleServerUser, SelectOne, SelectTwo};
use tcpst::protocol::Protocol;
use tcpst::segment::{Ack, Syn};
use tcpst::session::{
    Action, Choose, ChooseFour, HasDual, Offer, OfferFour, OfferThree, Recv, Reducable, Send, Tau,
    Terminate,
};

fn send(label: u32, next: Protocol) -> Protocol {
    Protocol::Send(label, Box::new(next))
}

fn receive(label: u32, next: Protocol) -> Protocol {
    Protocol::Receive(label, Box::new(next))
}

#[test]
fn a_state_describes_its_protocol() {
    type Server = Recv<u16, Recv<u16, Send<u16, Terminate>>>;
    let n = u16::tag();
    assert_eq!(Server::protocol(), receive(n, receive(n, send(n, Protocol::Terminate))));
    assert_eq!(Terminate::protocol(), Protocol::Terminate);
    assert_eq!(
        Offer::<bool, Terminate, Send<u32, Terminate>>::protocol(),
        Protocol::Offer(vec![Protocol::Terminate, send(u32::tag(), Protocol::Terminate)])
    );
    assert_eq!(
        Tau::<Send<u32, Terminate>>::protocol(),
        Protocol::Tau(Box::new(send(u32::tag(), Protocol::Terminate)))
    );
}

fn check_dual<P: HasDual>() {
    let own = P::protocol();
    let peer = <P as HasDual>::Dual::protocol();
    assert_eq!(own.dual(), peer);
    assert!(own.is_dual_of(&peer));
    assert!(peer.is_dual_of(&own));
    assert_eq!(peer.dual(), own);
}

#[test]
fn the_peer_of_a_declared_state_follows_the_dual_protocol() {
    check_dual::<Terminate>();
    check_dual::<Recv<u16, Recv<u16, Send<u16, Terminate>>>>();
    check_dual::<Offer<bool, Recv<u16, Terminate>, Send<u32, Terminate>>>();
    check_dual::<Choose<bool, Recv<u16, Terminate>, Offer<u8, Terminate, Terminate>>>();
    check_dual::<OfferThree<u8, Terminate, Send<u16, Terminate>, Recv<u16, Terminate>>>();
    check_dual::<ChooseFour<u8, Terminate, Terminate, Send<Syn, Terminate>, Recv<Ack, Terminate>>>();
    check_dual::<OfferFour<u8, Terminate, Terminate, Terminate, Terminate>>();
    check_dual::<Tau<Send<u16, Terminate>>>();
}

#[test]
fn reducing_leaves_out_the_leading_internal_steps() {
    type P = Tau<Tau<Send<u32, Terminate>>>;
    assert_eq!(<P as Reducable>::Reduced::protocol(), send(u32::tag(), Protocol::Terminate));
    assert_eq!(P::protocol().reduced(), &<P as Reducable>::Reduced::protocol());
    assert_eq!(
        <<P as Reducable>::Reduced as HasDual>::Dual::protocol(),
        receive(u32::tag(), Protocol::Terminate)
    );
}

#[test]
fn role_states_describe_their_steps() {
    type User = SelectOne<RoleServerSystem, Open, OfferOne<RoleServerSystem, Close, End>>;
    type System = OfferOne<RoleServerUser, Open, SelectOne<RoleServerUser, Close, End>>;
    assert_eq!(
        User::protocol(),
        send(Open::tag(), receive(Close::tag(), Protocol::Terminate))
    );
    assert!(User::protocol().is_dual_of(&System::protocol()));

    type Offering = OfferTwo<RoleServerUser, Ack, Syn, End, End>;
    type Choosing = SelectTwo<RoleServerSystem, Ack, Syn, End, End>;
    assert_eq!(
        Offering::protocol(),
        Protocol::Offer(vec![
            receive(Ack::tag(), Protocol::Terminate),
            receive(Syn::tag(), Protocol::Terminate)
        ])
    );
    assert!(Offering::protocol().is_dual_of(&Choosing::protocol()));

    type Three = OfferToRoleA3Choices<Open, u16, Close, End, End, End>;
    type ThreeSel = SelectFromRoleA3Choices<Open, u16, Close, End, End, End>;
    assert!(Three::protocol().is_dual_of(&ThreeSel::protocol()));
    assert!(Three::protocol().is_constructible());
}
