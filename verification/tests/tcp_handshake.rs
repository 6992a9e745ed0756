use tcpst::message::Message;
use tcpst::segment::{
    classify, Ack, Control, FinAck, Ipv4Address, Segment, SegmentKind, SmolMessage, Syn, SynAck,
};
use tcpst::seq_number::SeqNumber;
use tcpst::tcp::{Closed, LocalAddr, TcpError};

fn local() -> LocalAddr {
    LocalAddr { addr: Ipv4Address::new(10, 0, 0, 1), port: 5000 }
}

fn remote() -> Ipv4Address {
    Ipv4Address::new(10, 0, 0, 2)
}

fn segment(control: Control, seq: u32, ack: Option<u32>) -> Segment {
    Segment {
        src_port: 40000,
        dst_port: 5000,
        control,
        seq_number: SeqNumber(seq),
        ack_number: ack.map(SeqNumber),
        window_len: 1024,
        max_seg_size: None,
    }
}

fn syn(seq: u32) -> Syn {
    let bytes = segment(Control::Syn, seq, None).emit(remote(), local().addr);
    Syn::from_packet(bytes).unwrap()
}

fn ack(seq: u32, acked: u32) -> Ack {
    let bytes = segment(Control::Empty, seq, Some(acked)).emit(remote(), local().addr);
    Ack::from_packet(bytes).unwrap()
}

#[test]
fn three_way_handshake_with_real_tcb() {
    let listen = Closed::new().passive_open(local());
    let (tcp, syn_ack) = listen.recv_syn(remote(), &syn(1000)).unwrap();
    let tcb = tcp.tcb();
    let iss = tcb.iss;
    assert_eq!(tcb.irs, SeqNumber(1000));
    assert_eq!(tcb.rcv_nxt, SeqNumber(1001));
    assert_eq!(tcb.snd_una, iss);
    assert_eq!(tcb.snd_nxt, iss.advance(1));
    assert_eq!(tcp.remote().port, 40000);
    assert_eq!(tcp.remote().addr, remote());
    assert_eq!(tcp.local(), local());
    assert!(tcp.retransmission_queue().is_empty());

    let answer = Segment::parse(syn_ack.packet(), local().addr, remote()).unwrap();
    assert_eq!(answer.control, Control::Syn);
    assert_eq!(answer.seq_number, iss);
    assert_eq!(answer.ack_number, Some(SeqNumber(1001)));
    assert_eq!(answer.src_port, 5000);
    assert_eq!(answer.dst_port, 40000);
    assert_eq!(answer.max_seg_size, Some(536));
    assert_eq!(classify(syn_ack.packet()), Some(SegmentKind::SynAck));

    let established = tcp.recv_ack(&ack(1001, iss.advance(1).0)).unwrap();
    assert_eq!(established.tcb().snd_una, iss.advance(1));
    assert_eq!(established.tcb().snd_nxt, iss.advance(1));
    assert_eq!(established.tcb().rcv_nxt, SeqNumber(1001));
}

#[test]
fn handshake_fails_on_an_unexpected_acknowledgement() {
    let listen = Closed::new().passive_open(local());
    let (tcp, _) = listen.recv_syn(remote(), &syn(1000)).unwrap();
    let iss = tcp.tcb().iss;
    assert_eq!(tcp.recv_ack(&ack(1001, iss.advance(7).0)).err(), Some(TcpError::Sequencing));
}

#[test]
fn handshake_fails_on_a_segment_with_a_wrong_checksum() {
    let mut bytes = syn(1000).to_net_representation();
    bytes[16] ^= 0xff;
    let broken = Syn::from_packet(bytes).unwrap();
    let listen = Closed::new().passive_open(local());
    assert_eq!(listen.recv_syn(remote(), &broken).err(), Some(TcpError::Decode));
}

#[test]
fn close_sends_fin_ack_and_waits_for_its_acknowledgement() {
    let listen = Closed::new().passive_open(local());
    let (tcp, _) = listen.recv_syn(remote(), &syn(77)).unwrap();
    let iss = tcp.tcb().iss;
    let established = tcp.recv_ack(&ack(78, iss.advance(1).0)).unwrap();
    let (fin_wait, fin_ack) = established.send_fin_ack();
    assert_eq!(classify(fin_ack.packet()), Some(SegmentKind::FinAck));
    let request = Segment::parse(fin_ack.packet(), local().addr, remote()).unwrap();
    assert_eq!(request.control, Control::Fin);
    assert_eq!(request.seq_number, iss.advance(1));
    assert_eq!(request.ack_number, Some(SeqNumber(78)));
    assert_eq!(fin_wait.tcb().snd_nxt, iss.advance(2));
    assert_eq!(fin_wait.tcb().snd_una, iss.advance(1));
    let time_wait = fin_wait.recv_ack(&ack(78, iss.advance(2).0)).unwrap();
    assert_eq!(time_wait.tcb().snd_una, iss.advance(2));
    time_wait.time_out();
}

#[test]
fn segment_kinds_are_told_apart_by_their_flags() {
    let s = segment(Control::Syn, 1, None).emit(remote(), local().addr);
    assert_eq!(classify(&s), Some(SegmentKind::Syn));
    assert!(Ack::from_packet(s.clone()).is_none());
    assert!(SynAck::from_packet(s.clone()).is_none());
    assert!(FinAck::from_packet(s.clone()).is_none());
    assert!(Syn::from_packet(s).is_some());
    let a = segment(Control::Empty, 1, Some(2)).emit(remote(), local().addr);
    assert_eq!(classify(&a), Some(SegmentKind::Ack));
    assert!(Syn::from_packet(a).is_none());
    let r = segment(Control::Rst, 1, None).emit(remote(), local().addr);
    assert_eq!(classify(&r), Some(SegmentKind::Rst));
    assert_eq!(classify(&vec![0u8; 19]), None);
    assert_eq!(classify(&vec![0u8; 20]), None);
}

#[test]
fn segment_messages_round_trip() {
    let bytes = segment(Control::Syn, 9, None).emit(remote(), local().addr);
    let message = Syn::from_net_representation(bytes.clone()).unwrap();
    assert_eq!(message.packet(), &bytes);
    assert_eq!(message.to_net_representation(), bytes);
}
