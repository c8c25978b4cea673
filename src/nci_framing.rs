//! Segmentation and reassembly of NCI packets on the NCI transport
//! ([NCI] §3.4).
//!
//! Every segment starts with a 3-byte header: octet 0 holds the message
//! type (bits 7..5), the Packet Boundary Flag (bit 4) and the GID or Conn
//! ID; octet 1 the OID; octet 2 the length of the segment's payload.

use crate::octets::{append_bytes, append_range};
use vstd::prelude::*;

verus! {

pub const HEADER_SIZE: usize = 3;

/// Largest payload of one segment.
pub const MAX_SEGMENT_PAYLOAD: usize = 255;

/// Mask of the Packet Boundary Flag in octet 0 of a header.
pub const PBF_MASK: u8 = 0x10;

/// The Packet Boundary Flag of header octet 0 says that more segments follow.
pub open spec fn is_incomplete(b0: u8) -> bool {
    b0 & 0x10 != 0
}

/// Header octet 0 carries one of the four message types (data, command,
/// response, notification).
pub open spec fn valid_message_type(b0: u8) -> bool {
    b0 >> 5u8 <= 3
}

/// What reading one packet from the front of a byte stream yields.
pub enum Reassembly {
    /// The whole packet, and the number of stream bytes it took.
    Complete(Seq<u8>, nat),
    /// The stream ends before the packet does.
    Truncated,
    /// A segment header carries an unknown message type.
    Invalid,
}

/// Reassembly of the packet at the front of `s`: the header of the last
/// segment followed by the payloads of all segments.
pub open spec fn reassemble(s: Seq<u8>) -> Reassembly
    decreases s.len(),
{
    if s.len() < 3 {
        Reassembly::Truncated
    } else if !valid_message_type(s[0]) {
        Reassembly::Invalid
    } else if s.len() < 3 + s[2] {
        Reassembly::Truncated
    } else if !is_incomplete(s[0]) {
        Reassembly::Complete(s.take(3 + s[2]), (3 + s[2]) as nat)
    } else {
        match reassemble(s.skip(3 + s[2])) {
            Reassembly::Complete(p, c) => Reassembly::Complete(
                p.take(3) + s.subrange(3, 3 + s[2]) + p.skip(3),
                (3 + s[2] + c) as nat,
            ),
            other => other,
        }
    }
}

/// The segments written for a packet whose header octets are `b0`, `b1`
/// and whose payload is `payload`: at most 255 payload bytes each, all but
/// the last flagged incomplete.
pub open spec fn segments(b0: u8, b1: u8, payload: Seq<u8>) -> Seq<u8>
    decreases payload.len(),
{
    if payload.len() <= 255 {
        seq![b0 & 0xef, b1, payload.len() as u8] + payload
    } else {
        seq![(b0 & 0xef) | 0x10, b1, 255u8] + payload.take(255) + segments(
            b0,
            b1,
            payload.skip(255),
        )
    }
}

/// Payload length of the last segment written for `n` payload bytes.
pub open spec fn last_segment_length(n: nat) -> nat
    decreases n,
{
    if n <= 255 {
        n
    } else {
        last_segment_length((n - 255) as nat)
    }
}

/// Outcome of `read_packet`.
#[derive(Debug)]
pub enum NciRead {
    Packet { packet: Vec<u8>, consumed: usize },
    NeedMore,
    InvalidHeader,
}

/// The packet rebuilt from `acc` payload bytes already gathered over `pos`
/// stream bytes, followed by what is read from the rest of the stream.
pub open spec fn resume(acc: Seq<u8>, pos: nat, r: Reassembly) -> Reassembly {
    match r {
        Reassembly::Complete(p, c) => Reassembly::Complete(p.take(3) + acc + p.skip(3), pos + c),
        other => other,
    }
}

proof fn lemma_reassemble_bounds(s: Seq<u8>)
    ensures
        reassemble(s) matches Reassembly::Complete(p, c) ==> p.len() >= 3 && c <= s.len(),
    decreases s.len(),
{
    if s.len() >= 3 && valid_message_type(s[0]) && s.len() >= 3 + s[2] && is_incomplete(s[0]) {
        lemma_reassemble_bounds(s.skip(3 + s[2]));
    }
}

/// Read one whole NCI packet from the front of `stream`, reassembling its
/// segments.
pub fn read_packet(stream: &[u8]) -> (r: NciRead)
    ensures
        match reassemble(stream@) {
            Reassembly::Complete(p, c) => r matches NciRead::Packet { packet, consumed } && packet@
                == p && consumed == c,
            Reassembly::Truncated => r is NeedMore,
            Reassembly::Invalid => r is InvalidHeader,
        },
{
    let ghost s = stream@;
    let mut pos: usize = 0;
    let mut payload: Vec<u8> = Vec::new();
    proof {
        lemma_reassemble_bounds(s);
        assert(s.skip(0) =~= s);
        if let Reassembly::Complete(p, c) = reassemble(s) {
            assert(p.take(3) + Seq::<u8>::empty() + p.skip(3) =~= p);
        }
    }
    loop
        invariant
            pos <= s.len(),
            s == stream@,
            reassemble(s) == resume(payload@, pos as nat, reassemble(s.skip(pos as int))),
        decreases s.len() - pos,
    {
        let ghost rest = s.skip(pos as int);
        if stream.len() - pos < HEADER_SIZE {
            return NciRead::NeedMore;
        }
        let b0 = stream[pos];
        assert(rest[0] == b0);
        if b0 >> 5u8 > 3 {
            return NciRead::InvalidHeader;
        }
        let n = stream[pos + 2] as usize;
        assert(rest[2] == n);
        if stream.len() - pos - HEADER_SIZE < n {
            return NciRead::NeedMore;
        }
        let end = pos + HEADER_SIZE + n;
        if b0 & PBF_MASK == 0 {
            assert(!is_incomplete(b0)) by (bit_vector)
                requires
                    b0 & 0x10 == 0,
            ;
            let mut packet: Vec<u8> = Vec::new();
            packet.push(b0);
            packet.push(stream[pos + 1]);
            packet.push(stream[pos + 2]);
            append_bytes(&mut packet, payload.as_slice());
            append_range(&mut packet, stream, pos + HEADER_SIZE, end);
            proof {
                let p = rest.take(3 + n);
                assert(p.take(3) =~= seq![b0, stream@[pos + 1], stream@[pos + 2]]);
                assert(p.skip(3) =~= s.subrange(pos + 3, end as int));
            }
            assert(packet@ =~= rest.take(3 + n).take(3) + payload@ + rest.take(3 + n).skip(3));
            return NciRead::Packet { packet, consumed: end };
        }
        assert(is_incomplete(b0)) by (bit_vector)
            requires
                b0 & 0x10 != 0,
        ;
        let ghost old_payload = payload@;
        append_range(&mut payload, stream, pos + HEADER_SIZE, end);
        proof {
            let seg = rest.subrange(3, 3 + n);
            assert(seg =~= s.subrange(pos + 3, end as int));
            assert(rest.skip(3 + n) =~= s.skip(end as int));
            lemma_reassemble_bounds(s.skip(end as int));
            if let Reassembly::Complete(p, c) = reassemble(s.skip(end as int)) {
                let q = p.take(3) + seg + p.skip(3);
                assert(q.take(3) =~= p.take(3));
                assert(q.skip(3) =~= seg + p.skip(3));
                assert(q.take(3) + old_payload + q.skip(3) =~= p.take(3) + payload@ + p.skip(3));
            }
        }
        pos = end;
    }
}

/// Bytes written on the transport for `packet`: its payload cut into
/// segments of at most 255 bytes, each behind a copy of the header whose
/// Packet Boundary Flag and length octet describe that segment.
pub fn segment(packet: &[u8]) -> (r: Vec<u8>)
    requires
        packet@.len() >= 3,
    ensures
        r@ == segments(packet@[0], packet@[1], packet@.skip(3)),
{
    let ghost p = packet@;
    let b0 = packet[0] & !PBF_MASK;
    let b1 = packet[1];
    assert(!0x10u8 == 0xefu8) by (bit_vector);
    let mut out: Vec<u8> = Vec::new();
    let mut pos: usize = HEADER_SIZE;
    loop
        invariant
            HEADER_SIZE <= pos <= p.len(),
            p == packet@,
            b0 == p[0] & 0xef,
            b1 == p[1],
            out@ + segments(p[0], p[1], p.skip(pos as int)) == segments(p[0], p[1], p.skip(3)),
        decreases p.len() - pos,
    {
        let ghost rest = p.skip(pos as int);
        let remaining = packet.len() - pos;
        let ghost before = out@;
        if remaining <= MAX_SEGMENT_PAYLOAD {
            out.push(b0);
            out.push(b1);
            out.push(remaining as u8);
            append_range(&mut out, packet, pos, packet.len());
            assert(packet@.subrange(pos as int, p.len() as int) =~= rest);
            assert(out@ =~= before + segments(p[0], p[1], rest));
            return out;
        }
        out.push(b0 | PBF_MASK);
        out.push(b1);
        out.push(255u8);
        append_range(&mut out, packet, pos, pos + MAX_SEGMENT_PAYLOAD);
        assert(packet@.subrange(pos as int, pos + 255) =~= rest.take(255));
        assert(rest.skip(255) =~= p.skip(pos + 255));
        assert(out@ + segments(p[0], p[1], p.skip(pos + 255)) =~= before + segments(
            p[0],
            p[1],
            rest,
        ));
        pos = pos + MAX_SEGMENT_PAYLOAD;
    }
}

/// Reading back the segments written for a packet gives the header of its
/// last segment followed by the whole payload, and takes every byte written.
pub proof fn lemma_segments_reassemble(b0: u8, b1: u8, payload: Seq<u8>)
    requires
        valid_message_type(b0),
    ensures
        reassemble(segments(b0, b1, payload)) == Reassembly::Complete(
            seq![b0 & 0xef, b1, last_segment_length(payload.len()) as u8] + payload,
            segments(b0, b1, payload).len(),
        ),
    decreases payload.len(),
{
    let s = segments(b0, b1, payload);
    assert(valid_message_type(b0 & 0xef) && !is_incomplete(b0 & 0xef)) by (bit_vector)
        requires
            b0 >> 5u8 <= 3,
    ;
    if payload.len() <= 255 {
        assert(s.take(3 + s[2]) =~= s);
        assert(s =~= seq![b0 & 0xef, b1, last_segment_length(payload.len()) as u8] + payload);
    } else {
        let h = (b0 & 0xef) | 0x10;
        assert(valid_message_type(h) && is_incomplete(h)) by (bit_vector)
            requires
                b0 >> 5u8 <= 3,
                h == (b0 & 0xef) | 0x10,
        ;
        let rest = segments(b0, b1, payload.skip(255));
        lemma_segments_reassemble(b0, b1, payload.skip(255));
        assert(s.skip(258) =~= rest);
        let p = seq![b0 & 0xef, b1, last_segment_length(payload.len()) as u8] + payload.skip(255);
        assert(p.take(3) + s.subrange(3, 258) + p.skip(3) =~= seq![
            b0 & 0xef,
            b1,
            last_segment_length(payload.len()) as u8,
        ] + payload);
    }
}

/// A packet segmented by `segment` and read back by `read_packet` is
/// recovered byte for byte, all bytes written being consumed, when its
/// header is the one its last segment carries: boundary flag clear and
/// length octet equal to that segment's payload length.
pub proof fn lemma_segment_round_trip(packet: Seq<u8>)
    requires
        packet.len() >= 3,
        valid_message_type(packet[0]),
        !is_incomplete(packet[0]),
        packet[2] == last_segment_length((packet.len() - 3) as nat),
    ensures
        reassemble(segments(packet[0], packet[1], packet.skip(3))) == Reassembly::Complete(
            packet,
            segments(packet[0], packet[1], packet.skip(3)).len(),
        ),
{
    let b0 = packet[0];
    lemma_segments_reassemble(b0, packet[1], packet.skip(3));
    assert(b0 & 0xef == b0) by (bit_vector)
        requires
            b0 & 0x10 == 0,
    ;
    assert(seq![packet[0] & 0xef, packet[1], last_segment_length((packet.len() - 3) as nat) as u8]
        + packet.skip(3) =~= packet);
}

} // verus!
