//! The packet codec. Header layout, options and checksum are the codec's
//! business: the state machine hands it the fields of a segment and gets a
//! buffer, or hands it a buffer and gets the fields.

use vstd::prelude::*;
use smoltcp::wire::{Ipv4Address as WireAddress, TcpControl, TcpPacket, TcpRepr, TcpSeqNumber};
use crate::segment::Control::{Empty, Fin, Psh, Rst, Syn};
use crate::segment::{kind_for, kind_of, well_framed, Control, Ipv4Address, Segment};
use crate::seq_number::SeqNumber;

verus! {

/// What the packet codec reads from a buffer that travelled from `src` to `dst`:
/// the fields of the segment, or nothing where it rejects the buffer.
pub uninterp spec fn parsed_segment(bytes: Seq<u8>, src: Ipv4Address, dst: Ipv4Address) -> Option<Segment>;

/// The buffer that the packet codec writes for a segment that travels from `src`
/// to `dst`.
pub uninterp spec fn emitted_segment(segment: Segment, src: Ipv4Address, dst: Ipv4Address) -> Seq<u8>;

/// `smoltcp::wire::TcpRepr::parse` on a packet over `bytes`, with the default
/// checksum capabilities: the codec's reading of the buffer, the checksum
/// verified against the two addresses. Of what the codec reads, the ports, the
/// control flag, the two numbers, the window and the maximum segment size are
/// handed on; the data and the other options are not.
///
/// The accessors that `parse` calls index the buffer up to the header length
/// that the buffer announces, so the buffer has to hold a whole header.
#[verifier::external_body]
pub(crate) fn parse_segment(bytes: &Vec<u8>, src: Ipv4Address, dst: Ipv4Address) -> (r: Option<
    Segment,
>)
    requires
        well_framed(bytes@),
    ensures
        r == parsed_segment(bytes@, src, dst),
{
    let packet = TcpPacket::new_unchecked(&bytes[..]);
    let (s, d) = (WireAddress(src.0).into(), WireAddress(dst.0).into());
    let r = TcpRepr::parse(&packet, &s, &d, &Default::default()).ok()?;
    let control = match r.control {
        TcpControl::None => Empty,
        TcpControl::Psh => Psh,
        TcpControl::Syn => Syn,
        TcpControl::Fin => Fin,
        TcpControl::Rst => Rst,
    };
    let seq_number = SeqNumber(r.seq_number.0 as u32);
    let ack_number = r.ack_number.map(|n| SeqNumber(n.0 as u32));
    let TcpRepr { src_port, dst_port, window_len, max_seg_size, .. } = r;
    Some(Segment { src_port, dst_port, control, seq_number, ack_number, window_len, max_seg_size })
}

/// `smoltcp::wire::TcpRepr::emit`, with the default checksum capabilities, into a
/// zeroed buffer of the length that `TcpRepr::buffer_len` gives: the codec's
/// writing of a segment without data and without options other than the maximum
/// segment size, the checksum computed over the two addresses.
///
/// Of the buffer's content the contract says one thing more, which `emit` shows
/// line by line: the header length written is that of the buffer, every flag is
/// cleared, then the flag of the control is set, and `ACK` where there is an
/// acknowledgement number. So the buffer holds the kind of segment that was
/// asked for.
#[verifier::external_body]
pub(crate) fn emit_segment(
    src_port: u16,
    dst_port: u16,
    control: Control,
    seq_number: SeqNumber,
    ack_number: Option<SeqNumber>,
    window_len: u16,
    max_seg_size: Option<u16>,
    src: Ipv4Address,
    dst: Ipv4Address,
) -> (bytes: Vec<u8>)
    ensures
        bytes@ == emitted_segment(
            (Segment { src_port, dst_port, control, seq_number, ack_number, window_len, max_seg_size }),
            src,
            dst,
        ),
        kind_of(bytes@) == kind_for(control, ack_number is Some),
{
    let control = match control {
        Empty => TcpControl::None,
        Psh => TcpControl::Psh,
        Syn => TcpControl::Syn,
        Fin => TcpControl::Fin,
        Rst => TcpControl::Rst,
    };
    let seq_number = TcpSeqNumber(seq_number.0 as i32);
    let ack_number = ack_number.map(|n| TcpSeqNumber(n.0 as i32));
    let repr = TcpRepr { src_port, dst_port, control, seq_number, ack_number, window_len, window_scale: None, max_seg_size, sack_permitted: false, sack_ranges: [None; 3], payload: &[] };
    let mut bytes = vec![0; repr.buffer_len()];
    let (s, d) = (WireAddress(src.0).into(), WireAddress(dst.0).into());
    repr.emit(&mut TcpPacket::new_unchecked(&mut bytes), &s, &d, &Default::default());
    bytes
}

/// `rand::Rng::gen` on the thread's generator: a number drawn from all 32-bit
/// numbers. Nothing is known of it in advance.
#[verifier::external_body]
pub(crate) fn random_u32() -> (n: u32) {
    rand::Rng::gen::<u32>(&mut rand::thread_rng())
}

} // verus!
