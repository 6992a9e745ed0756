use crossbeam_channel::unbounded;
use tcpst::error::{ChannelError, TransportError};
use tcpst::message::{Close, Connected, Message, Open, TcbCreated};
use tcpst::multiparty::{
    offer_one, offer_two, select_left, select_one, select_right, CrossBeamRoleChannel, End,
    NetChannel, OfferOne, OfferTwo, Role, RoleServerClient, RoleServerSystem, RoleServerUser,
    SelectOne, SelectTwo, SessionTypedChannel,
};
use tcpst::segment::{Ack, Control, Ipv4Address, Segment, SmolMessage, Syn};
use tcpst::seq_number::SeqNumber;
use tcpst::session::{Action, Branch};

struct RoleA;
impl Role for RoleA {}

struct RoleB;
impl Role for RoleB {}

fn pair<R1: Role, R2: Role>() -> (CrossBeamRoleChannel<R1, R2>, CrossBeamRoleChannel<R2, R1>) {
    let (s1, r1) = unbounded();
    let (s2, r2) = unbounded();
    (CrossBeamRoleChannel::new(s1, r2), CrossBeamRoleChannel::new(s2, r1))
}

fn bytes_of(control: Control, seq: u32, ack: Option<u32>) -> Vec<u8> {
    let segment = Segment {
        src_port: 4000,
        dst_port: 49155,
        control,
        seq_number: SeqNumber(seq),
        ack_number: ack.map(SeqNumber),
        window_len: 64,
        max_seg_size: None,
    };
    segment.emit(Ipv4Address::new(127, 0, 0, 1), Ipv4Address::new(127, 0, 0, 1))
}

fn syn() -> Syn {
    Syn::from_packet(bytes_of(Control::Syn, 11, None)).unwrap()
}

fn ack() -> Ack {
    Ack::from_packet(bytes_of(Control::Empty, 12, Some(1))).unwrap()
}

#[test]
fn two_party_handshake_runs_to_the_end() {
    type StA = OfferOne<RoleB, Syn, OfferOne<RoleB, Ack, End>>;
    type StB = SelectOne<RoleA, Syn, SelectOne<RoleA, Ack, End>>;
    let (mut a_to_b, mut b_to_a) = pair::<RoleA, RoleB>();

    let sent_syn = syn().to_net_representation();
    let sent_ack = ack().to_net_representation();

    let b = StB::new();
    let cont = b_to_a.select_one(b, syn()).unwrap();
    let cont = b_to_a.select_one(cont, ack()).unwrap();
    b_to_a.close(cont);

    let a = StA::new();
    let (first, cont) = a_to_b.offer_one(a).unwrap();
    let (second, cont) = a_to_b.offer_one(cont).unwrap();
    a_to_b.close(cont);

    assert_eq!(first.packet(), &sent_syn);
    assert_eq!(second.packet(), &sent_ack);
}

#[test]
fn branching_follows_the_decision_for_both_alternatives() {
    type Offering = OfferTwo<RoleB, Ack, Syn, End, OfferOne<RoleB, Ack, End>>;
    type Choosing = SelectTwo<RoleA, Ack, Syn, End, SelectOne<RoleA, Ack, End>>;

    let (mut a_to_b, mut b_to_a) = pair::<RoleA, RoleB>();
    let cont = b_to_a.select_left(Choosing::new(), ack()).unwrap();
    b_to_a.close(cont);
    match a_to_b.offer_two(Offering::new(), || true).unwrap() {
        Branch::Left((message, cont)) => {
            assert_eq!(message.packet(), &ack().to_net_representation());
            a_to_b.close(cont);
        }
        Branch::Right(_) => panic!("the first alternative was taken"),
    }

    let (mut a_to_b, mut b_to_a) = pair::<RoleA, RoleB>();
    let cont = b_to_a.select_right(Choosing::new(), syn()).unwrap();
    let cont = b_to_a.select_one(cont, ack()).unwrap();
    b_to_a.close(cont);
    match a_to_b.offer_two(Offering::new(), || false).unwrap() {
        Branch::Right((message, cont)) => {
            assert_eq!(message.packet(), &syn().to_net_representation());
            let (message, cont) = a_to_b.offer_one(cont).unwrap();
            assert_eq!(message.packet(), &ack().to_net_representation());
            a_to_b.close(cont);
        }
        Branch::Left(_) => panic!("the second alternative was taken"),
    }
}

#[test]
fn a_wrong_decision_fails_to_decode() {
    type Offering = OfferTwo<RoleB, Ack, Syn, End, End>;
    type Choosing = SelectTwo<RoleA, Ack, Syn, End, End>;

    let (mut a_to_b, mut b_to_a) = pair::<RoleA, RoleB>();
    let cont = b_to_a.select_right(Choosing::new(), syn()).unwrap();
    b_to_a.close(cont);
    match a_to_b.offer_two(Offering::new(), || true) {
        Err(e) => assert_eq!(e, ChannelError::Decode),
        Ok(_) => panic!("a SYN was read as an ACK"),
    }

    let (mut a_to_b, mut b_to_a) = pair::<RoleA, RoleB>();
    let cont = b_to_a.select_left(Choosing::new(), ack()).unwrap();
    b_to_a.close(cont);
    match a_to_b.offer_two(Offering::new(), || false) {
        Err(e) => assert_eq!(e, ChannelError::Decode),
        Ok(_) => panic!("an ACK was read as a SYN"),
    }
}

#[test]
fn steps_report_a_disconnected_queue() {
    let (mut a_to_b, b_to_a) = pair::<RoleA, RoleB>();
    drop(b_to_a);
    match a_to_b.select_one(SelectOne::<RoleB, Open, End>::new(), Open {}) {
        Err(e) => assert_eq!(e, ChannelError::Transport(TransportError::Disconnected)),
        Ok(_) => panic!("a queue without receiver took a message"),
    }
    match a_to_b.offer_one(OfferOne::<RoleB, Open, End>::new()) {
        Err(e) => assert_eq!(e, ChannelError::Transport(TransportError::Disconnected)),
        Ok(_) => panic!("a queue without sender gave a message"),
    }
}

#[test]
fn server_talks_to_its_user_and_to_the_client() {
    type System = OfferOne<
        RoleServerUser,
        Open,
        SelectOne<
            RoleServerUser,
            TcbCreated,
            OfferOne<RoleServerClient, Syn, SelectOne<RoleServerUser, Connected, End>>,
        >,
    >;
    type User =
        SelectOne<RoleServerSystem, Open, OfferOne<RoleServerSystem, TcbCreated, OfferOne<RoleServerSystem, Connected, End>>>;
    type Client = SelectOne<RoleServerSystem, Syn, End>;

    let (mut system_user, mut user_system) = pair::<RoleServerSystem, RoleServerUser>();
    let (to_system, from_client) = unbounded::<Vec<u8>>();
    let (to_client, from_system) = unbounded::<Vec<u8>>();
    let mut system_client: NetChannel<RoleServerSystem, RoleServerClient> =
        NetChannel::new(Box::new(from_client), Box::new(to_client));
    let mut client_system: NetChannel<RoleServerClient, RoleServerSystem> =
        NetChannel::new(Box::new(from_system), Box::new(to_system));

    let user = select_one(User::new(), Open {}, &mut user_system).unwrap();
    let client = select_one(Client::new(), syn(), &mut client_system).unwrap();
    End::close(client, client_system);

    let (_, system) = offer_one(System::new(), &mut system_user).unwrap();
    let system = select_one(system, TcbCreated {}, &mut system_user).unwrap();
    let (request, system) = system_client.offer_one(system).unwrap();
    assert_eq!(request.packet(), &syn().to_net_representation());
    let system = system_user.select_one(system, Connected {}).unwrap();
    system_client.close(system);

    let (created, user) = user_system.offer_one(user).unwrap();
    assert_eq!(created, TcbCreated {});
    let (connected, user) = user_system.offer_one(user).unwrap();
    assert_eq!(connected, Connected {});
    user_system.close(user);
}

#[test]
fn free_functions_take_the_same_steps() {
    type Offering = OfferTwo<RoleB, Open, Close, End, End>;
    type Choosing = SelectTwo<RoleA, Open, Close, End, End>;
    let (mut a_to_b, mut b_to_a) = pair::<RoleA, RoleB>();
    let end = select_left(Choosing::new(), &mut b_to_a, Open {}).unwrap();
    end.close(b_to_a);
    match offer_two(Offering::new(), &mut a_to_b, || true).unwrap() {
        Branch::Left((message, _)) => assert_eq!(message, Open {}),
        Branch::Right(_) => panic!("the first alternative was taken"),
    }
    let (mut a_to_b, mut b_to_a) = pair::<RoleA, RoleB>();
    let _ = select_right(Choosing::new(), &mut b_to_a, Close {}).unwrap();
    match offer_two(Offering::new(), &mut a_to_b, || false).unwrap() {
        Branch::Right((message, _)) => assert_eq!(message, Close {}),
        Branch::Left(_) => panic!("the second alternative was taken"),
    }
}
