use crossbeam_channel::{unbounded, Receiver, Sender};
use tcpst::channel::Channel;
use tcpst::endpoint::{RecvEndpoint, SendEndpoint};
use tcpst::error::{ChannelError, TransportError};
use tcpst::session::{
    Branch, ChooseThree, Four, FourChoice, HasDual, Offer, OfferFour, OfferThree, Recv, Reducable,
    Send, Tau, Terminate, Three, ThreeChoice,
};

type Tx = Sender<Vec<u8>>;
type Rx = Receiver<Vec<u8>>;

struct DeadEnd;

impl SendEndpoint<Vec<u8>> for DeadEnd {
    fn send(&self, _message: Vec<u8>) -> Result<(), TransportError> {
        Err(TransportError::Failed)
    }
}

impl RecvEndpoint<Vec<u8>> for DeadEnd {
    fn recv(&self) -> Result<Vec<u8>, TransportError> {
        Err(TransportError::Failed)
    }
}

#[test]
fn test_multiplication_server() {
    type Protocol = Recv<u16, Recv<u16, Send<u16, Terminate>>>;
    type Dual = <Protocol as HasDual>::Dual;
    let (s1, r1) = unbounded();
    let (s2, r2) = unbounded();

    let num1 = 10_u16;
    let num2 = 2_u16;
    let channel_client: Channel<Dual, Tx, Rx> = Channel::new(s2, r1);
    let cont = channel_client.send(num1).unwrap();
    let client = cont.send(num2).unwrap();

    let channel_server: Channel<Protocol, Tx, Rx> = Channel::new(s1, r2);
    let (val1, cont) = channel_server.recv().unwrap();
    let (val2, cont) = cont.recv().unwrap();
    let answer = val1 * val2;
    let cont = cont.send(answer).unwrap();
    cont.close();

    let (answer, cont) = client.recv().unwrap();
    assert_eq!(num1 * num2, answer);
    cont.close();
}

#[test]
fn test_choice_simple() {
    type Protocol = Offer<u16, Terminate, Terminate>;
    type Dual = <Protocol as HasDual>::Dual;
    let (s1, r1) = unbounded();
    let (s2, r2) = unbounded();

    let channel_client: Channel<Dual, Tx, Rx> = Channel::new(s2, r1);
    let cont = channel_client.choose_right();
    cont.close();

    let channel_server: Channel<Protocol, Tx, Rx> = Channel::new(s1, r2);
    let cont = channel_server.offer(Box::new(Box::new(|| false)));
    match cont {
        Branch::Left(cont) => {
            cont.close();
            panic!("the first alternative was not chosen");
        }
        Branch::Right(cont) => {
            cont.close();
        }
    }
}

fn picker_right() -> bool {
    false
}

#[test]
fn test_add_two_or_three_numbers() {
    type Protocol = Offer<
        bool,
        Recv<u16, Recv<u16, Send<u16, Terminate>>>,
        Recv<u16, Recv<u16, Recv<u16, Send<u16, Terminate>>>>,
    >;
    type Dual = <Protocol as HasDual>::Dual;
    let (s1, r1) = unbounded();
    let (s2, r2) = unbounded();

    let num1 = 10_u16;
    let num2 = 2_u16;
    let num3 = 3_u16;
    let channel_client: Channel<Dual, Tx, Rx> = Channel::new(s2, r1);
    let cont = channel_client.choose_right();
    let cont = cont.send(num1).unwrap();
    let cont = cont.send(num2).unwrap();
    let client = cont.send(num3).unwrap();

    let channel_server: Channel<Protocol, Tx, Rx> = Channel::new(s1, r2);
    let cont = channel_server.offer(Box::new(picker_right));
    match cont {
        Branch::Left(cont) => {
            let (val1, cont) = cont.recv().unwrap();
            let (val2, cont) = cont.recv().unwrap();
            let val = val1 + val2;
            let cont = cont.send(val).unwrap();
            cont.close();
        }
        Branch::Right(cont) => {
            let (val1, cont) = cont.recv().unwrap();
            let (val2, cont) = cont.recv().unwrap();
            let (val3, cont) = cont.recv().unwrap();
            let val = val1 + val2 + val3;
            let cont = cont.send(val).unwrap();
            cont.close();
        }
    }

    let (answer, cont) = client.recv().unwrap();
    assert_eq!(num1 + num2 + num3, answer);
    cont.close();
}

fn dummy(s: String) {
    assert_eq!(s, "hello")
}

#[test]
fn test_simple_tau() {
    type Protocol = Tau<Terminate>;
    type Reduced = <Protocol as Reducable>::Reduced;
    type Client = <Reduced as HasDual>::Dual;

    let (s1, r1) = unbounded();
    let (s2, r2) = unbounded();
    let channel_client: Channel<Client, Tx, Rx> = Channel::new(s2, r1);
    channel_client.close();

    let channel_server: Channel<Protocol, Tx, Rx> = Channel::new(s1, r2);
    let cont = channel_server.do_action(Box::new(dummy), "hello".to_owned());
    cont.close();
}

#[test]
fn test_nested_tau() {
    type Protocol = Tau<Tau<Send<u32, Terminate>>>;
    type Reduced = <Protocol as Reducable>::Reduced;
    type Client = <Reduced as HasDual>::Dual;

    let (s1, r1) = unbounded();
    let (s2, r2) = unbounded();

    let num1 = 10_u32;
    let channel_server: Channel<Protocol, Tx, Rx> = Channel::new(s1, r2);
    let cont = channel_server.do_action(Box::new(dummy), "hello".to_owned());
    let cont = cont.do_action(Box::new(dummy), "hello".to_owned());
    let cont = cont.send(num1).unwrap();
    cont.close();

    let channel_client: Channel<Client, Tx, Rx> = Channel::new(s2, r1);
    let (num, cont) = channel_client.recv().unwrap();
    assert_eq!(num, num1);
    cont.close();
}

#[test]
fn send_reports_a_transport_failure() {
    let channel: Channel<Send<u16, Terminate>, DeadEnd, DeadEnd> = Channel::new(DeadEnd, DeadEnd);
    match channel.send(1) {
        Err(e) => assert_eq!(e, ChannelError::Transport(TransportError::Failed)),
        Ok(_) => panic!("a dead end took a message"),
    }
}

#[test]
fn recv_reports_a_transport_failure_and_a_disconnected_queue() {
    let channel: Channel<Recv<u16, Terminate>, DeadEnd, DeadEnd> = Channel::new(DeadEnd, DeadEnd);
    match channel.recv() {
        Err(e) => assert_eq!(e, ChannelError::Transport(TransportError::Failed)),
        Ok(_) => panic!("a dead end gave a message"),
    }
    let (s1, r1) = unbounded::<Vec<u8>>();
    let (s2, r2) = unbounded::<Vec<u8>>();
    drop(s1);
    drop(r2);
    let channel: Channel<Recv<u16, Terminate>, Tx, Rx> = Channel::new(s2, r1);
    match channel.recv() {
        Err(e) => assert_eq!(e, ChannelError::Transport(TransportError::Disconnected)),
        Ok(_) => panic!("an empty queue without senders gave a message"),
    }
}

#[test]
fn recv_rejects_a_buffer_that_is_no_message_of_the_expected_type() {
    let (s1, r1) = unbounded();
    let (s2, r2) = unbounded();
    let sender: Channel<Send<u32, Terminate>, Tx, Rx> = Channel::new(s1, r2);
    sender.send(7).unwrap().close();
    let receiver: Channel<Recv<u16, Terminate>, Tx, Rx> = Channel::new(s2, r1);
    match receiver.recv() {
        Err(e) => assert_eq!(e, ChannelError::Decode),
        Ok(_) => panic!("four bytes were read as a 16-bit number"),
    }
}

#[test]
fn three_and_four_way_branching_follow_the_decision() {
    type ThreeWay = OfferThree<u16, Terminate, Send<u16, Terminate>, Terminate>;
    let (s1, r1) = unbounded();
    let (s2, r2) = unbounded();
    let server: Channel<ThreeWay, Tx, Rx> = Channel::new(s1, r2);
    let client: Channel<<ThreeWay as HasDual>::Dual, Tx, Rx> = Channel::new(s2, r1);
    let _check: &Channel<ChooseThree<u16, Terminate, Recv<u16, Terminate>, Terminate>, Tx, Rx> =
        &client;
    let client = client.choose_second();
    match server.offer(|| ThreeChoice::Two) {
        Three::Second(cont) => cont.send(5).unwrap().close(),
        _ => panic!("the second alternative was chosen"),
    }
    let (n, cont) = client.recv().unwrap();
    assert_eq!(n, 5);
    cont.close();

    type FourWay = OfferFour<u16, Terminate, Terminate, Terminate, Recv<u32, Terminate>>;
    let (s1, r1) = unbounded();
    let (s2, r2) = unbounded();
    let server: Channel<FourWay, Tx, Rx> = Channel::new(s1, r2);
    let client: Channel<<FourWay as HasDual>::Dual, Tx, Rx> = Channel::new(s2, r1);
    client.choose_fourth().send(70000).unwrap().close();
    match server.offer(|| FourChoice::Four) {
        Four::Fourth(cont) => {
            let (n, cont) = cont.recv().unwrap();
            assert_eq!(n, 70000);
            cont.close();
        }
        _ => panic!("the fourth alternative was chosen"),
    }
}
