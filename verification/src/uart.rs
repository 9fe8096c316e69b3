//! The first UART protocol between keyboard halves, without sequence numbers.
//!
//! A packet is a 4-byte header followed by the body: the body's length, a value that varies
//! from packet to packet, and the little-endian CRC-16 of those two bytes.

use vstd::prelude::*;

use crate::hemicom::framing::{RxKind, RxStep};
use crate::hemicom::{crc16, crc16_arc, from_le, le_bytes, to_le_bytes};
use crate::rx_buffer::{RxBuffer, RX_BUF_CAP};

verus! {

/// Size of a legacy packet header.
pub const LEGACY_HEADER_LEN: usize = 4;

/// The largest body that a legacy packet carries in full.
pub const LEGACY_MAX_BODY_LEN: usize = 256;

/// Whether the first four bytes of `buf` are a header with a valid CRC.
pub open spec fn legacy_header_ok(buf: Seq<u8>) -> bool {
    from_le(buf[2], buf[3]) == crc16_arc(seq![buf[0], buf[1]])
}

/// The bytes of the packet that carries `body`. The length byte is the body's length modulo
/// 256, and only that many bytes of the body are sent.
pub open spec fn spec_legacy_frame(random: u8, body: Seq<u8>) -> Seq<u8> {
    let len = (body.len() % 256) as u8;
    seq![len, random] + le_bytes(crc16_arc(seq![len, random])) + body.take(len as int)
}

/// The buffer, the outcome, and the body handed out after one step of the receiver.
pub open spec fn legacy_rx_step(buf: Seq<u8>) -> (Seq<u8>, RxKind, Seq<u8>) {
    if buf.len() < LEGACY_HEADER_LEN {
        (buf, RxKind::NeedBytes, Seq::empty())
    } else if !legacy_header_ok(buf) {
        (buf.drop_first(), RxKind::BadHeader, Seq::empty())
    } else if buf.len() - LEGACY_HEADER_LEN < buf[0] {
        (buf, RxKind::NeedBytes, Seq::empty())
    } else {
        (
            buf.skip(LEGACY_HEADER_LEN + buf[0]),
            RxKind::Packet,
            buf.subrange(LEGACY_HEADER_LEN as int, LEGACY_HEADER_LEN + buf[0]),
        )
    }
}

/// The bytes of the packet that carries `body`.
pub fn legacy_frame(random: u8, body: &[u8]) -> (p: Vec<u8>)
    requires
        body@.len() <= LEGACY_MAX_BODY_LEN,
    ensures
        p@ == spec_legacy_frame(random, body@),
{
    let len = (body.len() % 256) as u8;
    let header_bytes = [len, random];
    let crc = to_le_bytes(crc16(&header_bytes));
    assert(header_bytes@ =~= seq![len, random]);
    let mut p: Vec<u8> = Vec::new();
    p.push(len);
    p.push(random);
    p.push(crc[0]);
    p.push(crc[1]);
    let mut i: usize = 0;
    while i < len as usize
        invariant
            len == (body@.len() % 256) as u8,
            body@.len() <= LEGACY_MAX_BODY_LEN,
            i <= len,
            p@ == seq![len, random] + le_bytes(crc16_arc(seq![len, random])) + body@.take(i as int),
        decreases len - i,
    {
        p.push(body[i]);
        i = i + 1;
        assert(p@ =~= seq![len, random] + le_bytes(crc16_arc(seq![len, random])) + body@.take(
            i as int,
        ));
    }
    p
}

/// The sending side of a legacy UART line.
pub struct LegacySender {
    counter: u8,
}

impl LegacySender {
    /// The value that fed the CRC of the last packet.
    pub closed spec fn counter(&self) -> u8 {
        self.counter
    }

    pub fn new() -> (s: LegacySender)
        ensures
            s.counter() == 0,
    {
        LegacySender { counter: 0 }
    }

    /// The packet that carries `body`, with a new "random" value (a wrapping counter).
    pub fn next_packet(&mut self, body: &[u8]) -> (p: Vec<u8>)
        requires
            body@.len() <= LEGACY_MAX_BODY_LEN,
        ensures
            final(self).counter() == (if old(self).counter() == u8::MAX {
                0
            } else {
                old(self).counter() + 1
            }),
            p@ == spec_legacy_frame(final(self).counter(), body@),
    {
        self.counter = self.counter.wrapping_add(1);
        legacy_frame(self.counter, body)
    }
}

/// The receiving side of a legacy UART line.
pub struct LegacyReceiver {
    buf: RxBuffer,
}

impl LegacyReceiver {
    /// The received bytes that are not used yet.
    pub closed spec fn buffered(&self) -> Seq<u8> {
        self.buf@
    }

    pub fn new() -> (r: LegacyReceiver)
        ensures
            r.buffered() == Seq::<u8>::empty(),
    {
        LegacyReceiver { buf: RxBuffer::new() }
    }

    /// Appends received bytes. If they do not fit in the buffer, the buffer is cleared
    /// instead and `false` returned.
    pub fn push_bytes(&mut self, chunk: &[u8]) -> (fits: bool)
        ensures
            fits <==> old(self).buffered().len() + chunk@.len() <= RX_BUF_CAP,
            fits ==> final(self).buffered() == old(self).buffered() + chunk@,
            !fits ==> final(self).buffered() == Seq::<u8>::empty(),
    {
        self.buf.push_bytes(chunk)
    }

    /// Looks at the front of the buffer: hands out the body of a complete packet with a valid
    /// header, drops a byte if the header is invalid, or asks for more bytes.
    pub fn poll(&mut self) -> (r: RxStep)
        ensures
            final(self).buffered() == legacy_rx_step(old(self).buffered()).0,
            r.kind() == legacy_rx_step(old(self).buffered()).1,
            r.body() == legacy_rx_step(old(self).buffered()).2,
    {
        let bytes = self.buf.as_slice();
        if bytes.len() < LEGACY_HEADER_LEN {
            return RxStep::NeedBytes;
        }
        let crc = crate::hemicom::u16_from_le(bytes[2], bytes[3]);
        let header_bytes = [bytes[0], bytes[1]];
        let calculated_crc = crc16(&header_bytes);
        assert(header_bytes@ =~= seq![bytes@[0], bytes@[1]]);
        if calculated_crc != crc {
            // drop the first byte and hope we find a good packet header
            self.buf.drop_first_byte();
            return RxStep::BadHeader;
        }
        let len = bytes[0] as usize;
        if bytes.len() - LEGACY_HEADER_LEN < len {
            return RxStep::NeedBytes;
        }
        let packet_len = LEGACY_HEADER_LEN + len;
        let body = vstd::slice::slice_to_vec(&bytes[LEGACY_HEADER_LEN..packet_len]);
        self.buf.drop_front(packet_len);
        RxStep::Packet(body)
    }
}

/// A packet carrying a body of at most 255 bytes, at the front of the buffer, is handed out
/// whole, and the bytes that follow it are kept.
pub proof fn law_legacy_framed_body_is_received(random: u8, body: Seq<u8>, rest: Seq<u8>)
    requires
        body.len() < 256,
    ensures
        legacy_rx_step(spec_legacy_frame(random, body) + rest) == (rest, RxKind::Packet, body),
{
    let buf = spec_legacy_frame(random, body) + rest;
    let len = (body.len() % 256) as u8;
    assert(len == body.len());
    assert(body.take(len as int) =~= body);
    let c = crc16_arc(seq![len, random]);
    assert(buf[0] == len && buf[1] == random && buf[2] == (c % 256) as u8 && buf[3] == (c / 256) as u8);
    assert(seq![buf[0], buf[1]] =~= seq![len, random]);
    assert(buf.subrange(LEGACY_HEADER_LEN as int, LEGACY_HEADER_LEN + buf[0]) =~= body);
    assert(buf.skip(LEGACY_HEADER_LEN + buf[0]) =~= rest);
}

} // verus!
