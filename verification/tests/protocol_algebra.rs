use tcpst::protocol::Protocol;

fn send(label: u32, next: Protocol) -> Protocol {
    Protocol::Send(label, Box::new(next))
}

fn receive(label: u32, next: Protocol) -> Protocol {
    Protocol::Receive(label, Box::new(next))
}

#[test]
fn dual_of_terminate_is_terminate() {
    assert_eq!(Protocol::Terminate.dual(), Protocol::Terminate);
}

#[test]
fn dual_swaps_send_and_receive() {
    let p = send(1, receive(2, Protocol::Terminate));
    assert_eq!(p.dual(), receive(1, send(2, Protocol::Terminate)));
}

#[test]
fn dual_is_an_involution() {
    let p = Protocol::Offer(vec![
        send(1, Protocol::Terminate),
        receive(2, Protocol::Choose(vec![Protocol::Terminate, send(3, Protocol::Terminate)])),
    ]);
    assert_eq!(p.dual().dual(), p);
    assert!(p.dual().dual().same_shape(&p));
}

#[test]
fn dual_of_an_offer_is_the_choice_among_the_duals() {
    let alts = || vec![send(1, Protocol::Terminate), receive(2, Protocol::Terminate), Protocol::Terminate];
    let duals = || vec![receive(1, Protocol::Terminate), send(2, Protocol::Terminate), Protocol::Terminate];
    assert_eq!(Protocol::Offer(alts()).dual(), Protocol::Choose(duals()));
    assert_eq!(Protocol::Choose(alts()).dual(), Protocol::Offer(duals()));
}

#[test]
fn dual_of_an_internal_step_is_itself() {
    let p = Protocol::Tau(Box::new(send(1, Protocol::Terminate)));
    assert_eq!(p.dual(), Protocol::Tau(Box::new(send(1, Protocol::Terminate))));
    assert_eq!(p.reduced(), &send(1, Protocol::Terminate));
    let nested = Protocol::Tau(Box::new(Protocol::Tau(Box::new(Protocol::Terminate))));
    assert_eq!(nested.reduced(), &Protocol::Terminate);
    assert_eq!(send(1, Protocol::Tau(Box::new(Protocol::Terminate))).reduced(), &send(1, Protocol::Tau(Box::new(Protocol::Terminate))));
}

#[test]
fn two_local_views_are_checked_to_be_duals() {
    let server = receive(1, receive(1, send(1, Protocol::Terminate)));
    let client = send(1, send(1, receive(1, Protocol::Terminate)));
    assert!(server.is_dual_of(&client));
    assert!(client.is_dual_of(&server));
    assert!(!server.is_dual_of(&server));
    assert!(!server.is_dual_of(&send(2, send(1, receive(1, Protocol::Terminate)))));
    assert!(!Protocol::Offer(vec![Protocol::Terminate, Protocol::Terminate])
        .is_dual_of(&Protocol::Choose(vec![Protocol::Terminate])));
    assert!(Protocol::Offer(vec![server.duplicate(), Protocol::Terminate])
        .is_dual_of(&Protocol::Choose(vec![client.duplicate(), Protocol::Terminate])));
}

#[test]
fn structural_equality_looks_at_every_step() {
    let p = Protocol::Offer(vec![send(1, Protocol::Terminate), Protocol::Terminate]);
    assert!(p.same_shape(&p.duplicate()));
    assert!(!p.same_shape(&Protocol::Offer(vec![send(2, Protocol::Terminate), Protocol::Terminate])));
    assert!(!p.same_shape(&Protocol::Choose(vec![send(1, Protocol::Terminate), Protocol::Terminate])));
    assert!(!p.same_shape(&Protocol::Offer(vec![Protocol::Terminate, send(1, Protocol::Terminate)])));
    assert!(!send(1, Protocol::Terminate).same_shape(&receive(1, Protocol::Terminate)));
    assert_eq!(p.duplicate(), p);
}

#[test]
fn branching_needs_two_alternatives_to_be_constructible() {
    assert!(Protocol::Terminate.is_constructible());
    assert!(Protocol::Offer(vec![Protocol::Terminate, Protocol::Terminate]).is_constructible());
    assert!(!Protocol::Offer(vec![Protocol::Terminate]).is_constructible());
    assert!(!Protocol::Choose(vec![]).is_constructible());
    assert!(!send(1, Protocol::Choose(vec![Protocol::Terminate])).is_constructible());
    assert!(!Protocol::Offer(vec![Protocol::Terminate, Protocol::Choose(vec![])]).is_constructible());
    assert!(Protocol::Tau(Box::new(receive(3, Protocol::Terminate))).is_constructible());
}
