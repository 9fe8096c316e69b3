//! Framing of message bodies into UART packets, and recovering them from received bytes.
//!
//! The sender gives each packet the next sequence number and a varying value to feed the
//! CRC. The receiver resynchronizes after garbage by dropping one byte at a time until a
//! header with a valid CRC is at the front, discards packets whose sequence number it has
//! already seen (each packet is sent [RESEND_COUNT](super::RESEND_COUNT) times), and hands
//! out the body of every other packet whose body CRC is valid.

use vstd::prelude::*;

use super::{
    compare_seqnums, law_header_bytes_roundtrip, law_new_header_is_valid, spec_compare_seqnums,
    Header, SeqnumResult, HEADER_LEN, MAX_BODY_LEN,
};
use crate::rx_buffer::{RxBuffer, RX_BUF_CAP};

verus! {

/// The bytes of the packet that carries `body`.
pub open spec fn spec_frame(random: u8, seqnum: u16, body: Seq<u8>) -> Seq<u8> {
    Header::spec_new(random, seqnum, body).spec_to_bytes() + body
}

/// Appends `src` to `dst`.
fn extend_vec(dst: &mut Vec<u8>, src: &[u8])
    ensures
        final(dst)@ == old(dst)@ + src@,
{
    let mut i: usize = 0;
    while i < src.len()
        invariant
            i <= src@.len(),
            dst@ == old(dst)@ + src@.take(i as int),
        decreases src@.len() - i,
    {
        dst.push(src[i]);
        i = i + 1;
        assert(dst@ =~= old(dst)@ + src@.take(i as int));
    }
    assert(src@.take(src@.len() as int) =~= src@);
}

/// The bytes of the packet that carries `body`.
pub fn frame(random: u8, seqnum: u16, body: &[u8]) -> (p: Vec<u8>)
    requires
        body@.len() <= MAX_BODY_LEN,
    ensures
        p@ == spec_frame(random, seqnum, body@),
{
    let header = Header::new(random, seqnum, body);
    let bytes = header.to_bytes();
    let mut p: Vec<u8> = Vec::new();
    extend_vec(&mut p, &bytes);
    extend_vec(&mut p, body);
    p
}

/// The sending side of a UART line.
pub struct PacketSender {
    counter: u8,
    seqnum: u16,
}

impl PacketSender {
    /// The value that fed the CRC of the last packet.
    pub closed spec fn counter(&self) -> u8 {
        self.counter
    }

    /// The sequence number of the next packet.
    pub closed spec fn next_seqnum(&self) -> u16 {
        self.seqnum
    }

    /// A sender whose first packet has sequence number 0.
    pub fn new() -> (s: PacketSender)
        ensures
            s.counter() == 0,
            s.next_seqnum() == 0,
    {
        PacketSender { counter: 0, seqnum: 0 }
    }

    /// The packet that carries `body`. Each packet gets a new "random" value (a wrapping
    /// counter) and the next sequence number (wrapping).
    pub fn next_packet(&mut self, body: &[u8]) -> (p: Vec<u8>)
        requires
            body@.len() <= MAX_BODY_LEN,
        ensures
            final(self).counter() == (if old(self).counter() == u8::MAX {
                0
            } else {
                old(self).counter() + 1
            }),
            final(self).next_seqnum() == (if old(self).next_seqnum() == u16::MAX {
                0
            } else {
                old(self).next_seqnum() + 1
            }),
            p@ == spec_frame(final(self).counter(), old(self).next_seqnum(), body@),
    {
        // add a "random" value to feed the crc
        self.counter = self.counter.wrapping_add(1);
        let seqnum = self.seqnum;
        self.seqnum = self.seqnum.wrapping_add(1);
        frame(self.counter, seqnum, body)
    }
}

/// What the receiver found at the front of its buffer.
#[derive(Clone, Copy, Debug, PartialEq, Eq, Structural)]
pub enum RxKind {
    /// No complete packet yet: more bytes must be read.
    NeedBytes,
    /// The header CRC did not match; the first byte was dropped.
    BadHeader,
    /// A packet that was already received; it was dropped.
    OldPacket,
    /// The body CRC did not match; the packet was dropped.
    BadBody,
    /// A packet; its body is handed out and the packet dropped.
    Packet,
}

/// The outcome of [PacketReceiver::poll].
#[derive(Debug)]
pub enum RxStep {
    NeedBytes,
    BadHeader,
    OldPacket,
    BadBody,
    Packet(Vec<u8>),
}

impl RxStep {
    pub open spec fn kind(&self) -> RxKind {
        match self {
            RxStep::NeedBytes => RxKind::NeedBytes,
            RxStep::BadHeader => RxKind::BadHeader,
            RxStep::OldPacket => RxKind::OldPacket,
            RxStep::BadBody => RxKind::BadBody,
            RxStep::Packet(_) => RxKind::Packet,
        }
    }

    /// The body handed out, empty unless a packet was found.
    pub open spec fn body(&self) -> Seq<u8> {
        match self {
            RxStep::Packet(b) => b@,
            _ => Seq::empty(),
        }
    }
}

/// Whether a packet with sequence number `seqnum` is a resend of one already handed out:
/// never before any packet has been handed out.
pub open spec fn is_old_packet(seqnum: u16, newest: Option<u16>) -> bool {
    match newest {
        Some(n) => spec_compare_seqnums(seqnum, n) == SeqnumResult::OldSeqnum,
        None => false,
    }
}

/// The buffer, the newest seen sequence number (if any), and the outcome after one step of
/// the receiver with buffer `buf` and newest seen sequence number `newest`.
pub open spec fn rx_step(buf: Seq<u8>, newest: Option<u16>) -> (Seq<u8>, Option<u16>, RxKind, Seq<u8>) {
    if buf.len() < HEADER_LEN {
        (buf, newest, RxKind::NeedBytes, Seq::empty())
    } else {
        let h = Header::spec_from_bytes(buf);
        let len = h.spec_len() as int;
        if !h.header_crc_ok() {
            (buf.drop_first(), newest, RxKind::BadHeader, Seq::empty())
        } else if buf.len() - HEADER_LEN < len {
            (buf, newest, RxKind::NeedBytes, Seq::empty())
        } else if is_old_packet(h.spec_seqnum(), newest) {
            (buf.skip(HEADER_LEN + len), newest, RxKind::OldPacket, Seq::empty())
        } else if !h.body_crc_ok(buf.subrange(HEADER_LEN as int, HEADER_LEN + len)) {
            (buf.skip(HEADER_LEN + len), newest, RxKind::BadBody, Seq::empty())
        } else {
            (
                buf.skip(HEADER_LEN + len),
                Some(h.spec_seqnum()),
                RxKind::Packet,
                buf.subrange(HEADER_LEN as int, HEADER_LEN + len),
            )
        }
    }
}

/// The receiving side of a UART line.
pub struct PacketReceiver {
    buf: RxBuffer,
    newest_seen_seqnum: Option<u16>,
}

impl PacketReceiver {
    /// The received bytes that are not used yet.
    pub closed spec fn buffered(&self) -> Seq<u8> {
        self.buf@
    }

    /// The sequence number of the newest packet handed out, if any has been.
    pub closed spec fn newest_seen(&self) -> Option<u16> {
        self.newest_seen_seqnum
    }

    /// A receiver with an empty buffer that has not handed out any packet yet, so that the
    /// first packet it sees is new whatever its sequence number.
    pub fn new() -> (r: PacketReceiver)
        ensures
            r.buffered() == Seq::<u8>::empty(),
            r.newest_seen() == None::<u16>,
    {
        PacketReceiver { buf: RxBuffer::new(), newest_seen_seqnum: None }
    }

    /// Appends received bytes. If they do not fit in the buffer, the buffer is cleared
    /// instead and `false` returned.
    pub fn push_bytes(&mut self, chunk: &[u8]) -> (fits: bool)
        ensures
            fits <==> old(self).buffered().len() + chunk@.len() <= RX_BUF_CAP,
            fits ==> final(self).buffered() == old(self).buffered() + chunk@,
            !fits ==> final(self).buffered() == Seq::<u8>::empty(),
            final(self).newest_seen() == old(self).newest_seen(),
    {
        self.buf.push_bytes(chunk)
    }

    /// Looks at the front of the buffer: hands out the body of a complete, valid, new packet,
    /// drops what is invalid or already seen, or asks for more bytes.
    pub fn poll(&mut self) -> (r: RxStep)
        ensures
            final(self).buffered() == rx_step(old(self).buffered(), old(self).newest_seen()).0,
            final(self).newest_seen() == rx_step(old(self).buffered(), old(self).newest_seen()).1,
            r.kind() == rx_step(old(self).buffered(), old(self).newest_seen()).2,
            r.body() == rx_step(old(self).buffered(), old(self).newest_seen()).3,
    {
        let bytes = self.buf.as_slice();
        if bytes.len() < HEADER_LEN {
            return RxStep::NeedBytes;
        }
        let header = Header::from_bytes(bytes);
        if !header.valid_header_crc() {
            // drop the first byte and hope we find a good packet header
            self.buf.drop_first_byte();
            return RxStep::BadHeader;
        }
        let len = header.len() as usize;
        if bytes.len() - HEADER_LEN < len {
            return RxStep::NeedBytes;
        }
        let packet_len = HEADER_LEN + len;
        // check if this is a resend of an old packet, if so: ignore it.
        if let Some(newest) = self.newest_seen_seqnum {
            if compare_seqnums(header.seqnum(), newest).should_discard_message() {
                self.buf.drop_front(packet_len);
                return RxStep::OldPacket;
            }
        }
        let body = &bytes[HEADER_LEN..packet_len];
        if !header.valid_body_crc(body) {
            self.buf.drop_front(packet_len);
            return RxStep::BadBody;
        }
        let body = vstd::slice::slice_to_vec(body);
        self.newest_seen_seqnum = Some(header.seqnum());
        self.buf.drop_front(packet_len);
        RxStep::Packet(body)
    }
}

/// A packet followed by more bytes, at the front of the receiver's buffer: if its sequence
/// number is not an old one, the receiver hands out exactly its body, remembers its sequence
/// number, and keeps the bytes that follow.
#[verifier::spinoff_prover]
pub proof fn law_framed_body_is_received(
    random: u8,
    seqnum: u16,
    body: Seq<u8>,
    rest: Seq<u8>,
    newest: Option<u16>,
)
    requires
        body.len() <= MAX_BODY_LEN,
        !is_old_packet(seqnum, newest),
    ensures
        rx_step(spec_frame(random, seqnum, body) + rest, newest) == (
            rest,
            Some(seqnum),
            RxKind::Packet,
            body,
        ),
{
    lemma_frame_parts(random, seqnum, body, rest);
}

/// Only resends are dropped: a complete packet with valid checks, behind which more bytes
/// may follow, is handed out (and its sequence number remembered) unless its sequence number
/// is the newest one handed out or at most [crate::hemicom::BAD_SEQNUM_THRESHOLD] behind it,
/// counting around the wrap. In particular a packet whose sequence
/// number is out of step with the newest one (the other half restarted its count, say) is
/// handed out, and so is every packet of a receiver that has handed out none yet.
#[verifier::spinoff_prover]
pub proof fn law_only_old_packets_are_dropped(
    random: u8,
    seqnum: u16,
    body: Seq<u8>,
    rest: Seq<u8>,
    newest: Option<u16>,
)
    requires
        body.len() <= MAX_BODY_LEN,
    ensures
        ({
            let step = rx_step(spec_frame(random, seqnum, body) + rest, newest);
            let old = newest matches Some(n) && (n - seqnum + 65536) % 65536
                <= crate::hemicom::BAD_SEQNUM_THRESHOLD;
            &&& step.0 == rest
            &&& old ==> step.1 == newest && step.2 == RxKind::OldPacket && step.3 == Seq::<u8>::empty()
            &&& !old ==> step.1 == Some(seqnum) && step.2 == RxKind::Packet && step.3 == body
        }),
{
    lemma_frame_parts(random, seqnum, body, rest);
}

/// A packet whose sequence number is the newest one seen (such as a resend of the packet
/// just received) is dropped, and the bytes that follow are kept.
#[verifier::spinoff_prover]
pub proof fn law_resent_packet_is_dropped(random: u8, seqnum: u16, body: Seq<u8>, rest: Seq<u8>)
    requires
        body.len() <= MAX_BODY_LEN,
    ensures
        rx_step(spec_frame(random, seqnum, body) + rest, Some(seqnum)) == (
            rest,
            Some(seqnum),
            RxKind::OldPacket,
            Seq::<u8>::empty(),
        ),
{
    lemma_frame_parts(random, seqnum, body, rest);
}

/// The first packet that a fresh receiver sees is handed out, whatever its sequence number,
/// and its resends that follow are then dropped: each packet of a sender that sends every
/// packet [crate::hemicom::RESEND_COUNT] times is delivered exactly once, from the first one on.
#[verifier::spinoff_prover]
pub proof fn law_first_packet_is_received_once(random: u8, seqnum: u16, body: Seq<u8>, rest: Seq<u8>)
    requires
        body.len() <= MAX_BODY_LEN,
    ensures
        ({
            let p = spec_frame(random, seqnum, body);
            let s1 = rx_step(p + p + rest, None);
            let s2 = rx_step(s1.0, s1.1);
            &&& s1 == (p + rest, Some(seqnum), RxKind::Packet, body)
            &&& s2 == (rest, Some(seqnum), RxKind::OldPacket, Seq::<u8>::empty())
        }),
{
    let p = spec_frame(random, seqnum, body);
    assert(p + p + rest == p + (p + rest));
    law_framed_body_is_received(random, seqnum, body, p + rest, None);
    law_resent_packet_is_dropped(random, seqnum, body, rest);
}

#[verifier::spinoff_prover]
proof fn lemma_frame_parts(random: u8, seqnum: u16, body: Seq<u8>, rest: Seq<u8>)
    requires
        body.len() <= MAX_BODY_LEN,
    ensures
        ({
            let buf = spec_frame(random, seqnum, body) + rest;
            let h = Header::spec_new(random, seqnum, body);
            &&& buf.len() >= HEADER_LEN
            &&& Header::spec_from_bytes(buf) == h
            &&& h.header_crc_ok()
            &&& h.body_crc_ok(body)
            &&& h.spec_len() == body.len()
            &&& h.spec_seqnum() == seqnum
            &&& buf.len() - HEADER_LEN >= body.len()
            &&& buf.subrange(HEADER_LEN as int, HEADER_LEN + body.len()) == body
            &&& buf.skip(HEADER_LEN + body.len()) == rest
        }),
{
    let h = Header::spec_new(random, seqnum, body);
    let hb = h.spec_to_bytes();
    let buf = spec_frame(random, seqnum, body) + rest;
    law_header_bytes_roundtrip(h);
    law_new_header_is_valid(random, seqnum, body);
    assert(buf =~= hb + (body + rest));
    assert forall|i: int| 0 <= i < HEADER_LEN implies buf[i] == hb[i] by {}
    assert(Header::spec_from_bytes(buf) == Header::spec_from_bytes(hb));
    assert(buf.subrange(HEADER_LEN as int, HEADER_LEN + body.len()) =~= body);
    assert(buf.skip(HEADER_LEN + body.len()) =~= rest);
}

} // verus!
