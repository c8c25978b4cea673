//! Framing of RF packets on a byte stream: each packet follows its length,
//! coded as a little-endian `u16`. Also the header fields that a raw RF
//! peer's packets are routed by.

use crate::octets::{append_bytes, append_range, le16};
use vstd::prelude::*;

verus! {

/// The packet is longer than a frame can carry.
#[derive(Clone, Copy, Debug, PartialEq, Eq, Structural)]
pub struct FrameTooLong;

/// The frame holding packet `p`.
pub open spec fn frame(p: Seq<u8>) -> Seq<u8> {
    le16(p.len() as u16) + p
}

/// The packet framed at the front of `s`, and the number of bytes taken;
/// `None` while the stream holds no whole frame.
pub open spec fn deframe(s: Seq<u8>) -> Option<(Seq<u8>, nat)> {
    if s.len() < 2 {
        None
    } else {
        let n = s[0] + 256 * s[1];
        if s.len() < 2 + n {
            None
        } else {
            Some((s.subrange(2, 2 + n), (2 + n) as nat))
        }
    }
}

/// Frame `packet` for the RF transport.
pub fn write_frame(packet: &[u8]) -> (r: Result<Vec<u8>, FrameTooLong>)
    ensures
        packet@.len() <= 0xffff ==> (r matches Ok(f) && f@ == frame(packet@)),
        packet@.len() > 0xffff ==> r == Err::<Vec<u8>, FrameTooLong>(FrameTooLong),
{
    if packet.len() > 0xffff {
        return Err(FrameTooLong);
    }
    let n = packet.len() as u16;
    let mut f: Vec<u8> = Vec::new();
    f.push((n & 0xff) as u8);
    f.push((n >> 8u16) as u8);
    append_bytes(&mut f, packet);
    assert(f@ =~= frame(packet@));
    Ok(f)
}

/// Read the packet framed at the front of `stream`.
pub fn read_frame(stream: &[u8]) -> (r: Option<(Vec<u8>, usize)>)
    ensures
        match deframe(stream@) {
            Some((p, c)) => r matches Some((v, n)) && v@ == p && n == c,
            None => r is None,
        },
{
    if stream.len() < 2 {
        return None;
    }
    let n = stream[0] as usize + 256 * stream[1] as usize;
    if stream.len() - 2 < n {
        return None;
    }
    let mut p: Vec<u8> = Vec::new();
    append_range(&mut p, stream, 2, 2 + n);
    assert(p@ =~= stream@.subrange(2, 2 + n));
    Some((p, 2 + n))
}

/// Reading back a frame gives the packet, and takes the whole frame.
pub proof fn lemma_frame_round_trip(p: Seq<u8>)
    requires
        p.len() <= 0xffff,
    ensures
        deframe(frame(p)) == Some((p, (p.len() + 2) as nat)),
{
    let n = p.len() as u16;
    assert((n & 0xff) as u8 + 256 * ((n >> 8u16) as u8) == n) by (bit_vector);
    assert(frame(p).subrange(2, 2 + p.len() as int) =~= p);
}

/// Sender identifier of an RF packet: its first two bytes, little-endian.
pub open spec fn sender_of(packet: Seq<u8>) -> int {
    packet[0] + 256 * packet[1]
}

/// Receiver identifier of an RF packet: its bytes 2 and 3, little-endian.
pub open spec fn receiver_of(packet: Seq<u8>) -> int {
    packet[2] + 256 * packet[3]
}

/// Sender and receiver of the RF packet `packet`; `None` when it is too
/// short to hold them.
pub fn read_addresses(packet: &[u8]) -> (r: Option<(u16, u16)>)
    ensures
        packet@.len() < 4 ==> r is None,
        packet@.len() >= 4 ==> (r matches Some((s, d)) && s == sender_of(packet@) && d
            == receiver_of(packet@)),
{
    if packet.len() < 4 {
        return None;
    }
    let s = packet[0] as u16 + 256 * packet[1] as u16;
    let d = packet[2] as u16 + 256 * packet[3] as u16;
    Some((s, d))
}

/// Overwrite the sender field of the RF packet `packet` with `id`, so that
/// a raw RF peer cannot send in another device's name. Returns false, and
/// leaves the packet alone, when it is too short to hold the field.
pub fn rewrite_sender(packet: &mut Vec<u8>, id: u16) -> (r: bool)
    ensures
        r == (old(packet)@.len() >= 2),
        r ==> final(packet)@ == le16(id) + old(packet)@.skip(2),
        !r ==> final(packet)@ == old(packet)@,
{
    if packet.len() < 2 {
        return false;
    }
    packet.set(0, (id & 0xff) as u8);
    packet.set(1, (id >> 8u16) as u8);
    assert(packet@ =~= le16(id) + old(packet)@.skip(2));
    true
}

} // verus!
