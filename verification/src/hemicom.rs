//! Communication between keyboard halves.
//!
//! A packet on the UART line is a [Header] of [HEADER_LEN] bytes followed by a body of at
//! most [MAX_BODY_LEN] bytes. The header holds the body's length, a value that varies from
//! packet to packet, a sequence number, a CRC of the body, and a CRC of the header itself
//! (computed with that last field set to 0). All 16-bit fields are little-endian.

use vstd::prelude::*;

use crate::event::switch;
use crate::event::Half;
use crate::usb::UsbEvent;

pub mod framing;

verus! {

/// Send messages this many times to decrease likelyhood of missed messages.
pub const RESEND_COUNT: usize = 3;

/// How old a sequence number is allowed to be before we think something is wrong.
pub const BAD_SEQNUM_THRESHOLD: u16 = 10;

/// If `known - new` (wrapping) is at least this, `new` is indeed a new seqnum.
pub const NEW_SEQNUM_THRESHOLD: u16 = 65526;

/// Size of a [Header].
pub const HEADER_LEN: usize = 8;

/// Size of a packet body.
pub const MAX_BODY_LEN: usize = 255;

/// A message between the keyboard halves, carried in the body of a packet.
#[derive(Clone, Copy, Debug)]
pub enum Message {
    KeyboardEvent(switch::Event),
    UsbEvent(UsbEvent),
}

/// The message that forwards a switch event to the other half, if it is forwarded: only
/// this half's own events are, never those that came from the other half.
pub open spec fn spec_outgoing_event(event: switch::Event, this_half: Half) -> Option<Message> {
    if event.source == this_half {
        Some(Message::KeyboardEvent(event))
    } else {
        None
    }
}

/// The message that forwards a switch event to the other half: `None` for an event that
/// came from the other half, so that it is not sent back.
pub fn outgoing_event(event: switch::Event, this_half: Half) -> (m: Option<Message>)
    ensures
        m == spec_outgoing_event(event, this_half),
{
    if event.source != this_half {
        // do not forward messages from the other half back to it
        None
    } else {
        Some(Message::KeyboardEvent(event))
    }
}

/// Events never go back where they came from: an event of the other half is not forwarded,
/// and every event of this half is, unchanged.
pub proof fn law_no_echo(event: switch::Event, this_half: Half)
    ensures
        event.source != this_half ==> spec_outgoing_event(event, this_half) is None,
        event.source == this_half ==> spec_outgoing_event(event, this_half) == Some(
            Message::KeyboardEvent(event),
        ),
{
}

/// One bit step of the reflected CRC-16 with polynomial 0x8005 (reflected: 0xA001).
pub open spec fn crc16_arc_bit(c: u16) -> u16 {
    if c % 2 == 1 {
        (c / 2) ^ 0xA001u16
    } else {
        c / 2
    }
}

/// `n` bit steps of the reflected CRC-16.
pub open spec fn crc16_arc_bits(c: u16, n: nat) -> u16
    decreases n,
{
    if n == 0 {
        c
    } else {
        crc16_arc_bits(crc16_arc_bit(c), (n - 1) as nat)
    }
}

/// The CRC register after taking in the byte `b`.
pub open spec fn crc16_arc_byte(c: u16, b: u8) -> u16 {
    crc16_arc_bits(c ^ (b as u16), 8)
}

/// The CRC-16/ARC of `data`: polynomial 0x8005, input and output reflected, initial value
/// 0, no final xor. Opaque: the proofs here only need that equal bytes give equal CRCs.
#[verifier::opaque]
pub open spec fn crc16_arc(data: Seq<u8>) -> u16
    decreases data.len(),
{
    if data.len() == 0 {
        0
    } else {
        crc16_arc_byte(crc16_arc(data.drop_last()), data.last())
    }
}

/// `crc_any::CRCu16::crc16`, then `digest` of `data`, then `get_crc`: the CRC-16/ARC of
/// `data` (the parameters that crc_any documents for `crc16`: polynomial 0x8005 reflected,
/// initial value 0, reflected, no final xor; check value 0xBB3D).
#[verifier::external_body]
pub(crate) fn crc16(data: &[u8]) -> (r: u16)
    ensures
        r == crc16_arc(data@),
{
    let mut crc = crc_any::CRCu16::crc16();
    crc.digest(data);
    crc.get_crc()
}

/// The two little-endian bytes of `x`.
pub open spec fn le_bytes(x: u16) -> Seq<u8> {
    seq![(x % 256) as u8, (x / 256) as u8]
}

/// The `u16` whose little-endian bytes are `lo` and `hi`.
pub open spec fn from_le(lo: u8, hi: u8) -> u16 {
    (lo + hi * 256) as u16
}

/// The little-endian bytes of `x`.
pub fn to_le_bytes(x: u16) -> (r: [u8; 2])
    ensures
        r@ == le_bytes(x),
{
    [(x % 256) as u8, (x / 256) as u8]
}

/// The `u16` whose little-endian bytes are `lo` and `hi`.
pub fn u16_from_le(lo: u8, hi: u8) -> (r: u16)
    ensures
        r == from_le(lo, hi),
{
    lo as u16 + hi as u16 * 256
}

/// The header of a UART packet.
#[derive(Clone, Copy, Debug, PartialEq, Eq, Structural)]
pub struct Header {
    /// The length of the payload.
    len: u8,
    /// An arbitrary value to feed the crc, should be different for each message.
    random: u8,
    /// A sequence number, each new message sent must increment this by 1.
    seqnum: u16,
    /// CRC of the body.
    body_crc: u16,
    /// CRC of the header. When calculated, this field must be set to 0.
    header_crc: u16,
}

impl Header {
    pub closed spec fn spec_len(self) -> u8 {
        self.len
    }

    pub closed spec fn spec_random(self) -> u8 {
        self.random
    }

    pub closed spec fn spec_seqnum(self) -> u16 {
        self.seqnum
    }

    pub closed spec fn spec_body_crc(self) -> u16 {
        self.body_crc
    }

    pub closed spec fn spec_header_crc(self) -> u16 {
        self.header_crc
    }

    /// The header's bytes on the wire.
    pub closed spec fn spec_to_bytes(self) -> Seq<u8> {
        seq![self.len, self.random] + le_bytes(self.seqnum) + le_bytes(self.body_crc) + le_bytes(
            self.header_crc,
        )
    }

    /// The header that `bytes` (at least [HEADER_LEN] of them) encode.
    pub closed spec fn spec_from_bytes(bytes: Seq<u8>) -> Header {
        Header {
            len: bytes[0],
            random: bytes[1],
            seqnum: from_le(bytes[2], bytes[3]),
            body_crc: from_le(bytes[4], bytes[5]),
            header_crc: from_le(bytes[6], bytes[7]),
        }
    }

    /// The CRC that the header field must hold: that of the header's bytes with that field
    /// set to 0.
    pub closed spec fn expected_header_crc(self) -> u16 {
        crc16_arc(Header { header_crc: 0, ..self }.spec_to_bytes())
    }

    /// Whether the header CRC matches the rest of the header.
    pub closed spec fn header_crc_ok(self) -> bool {
        self.header_crc == self.expected_header_crc()
    }

    /// Whether the body CRC matches `body`.
    pub closed spec fn body_crc_ok(self, body: Seq<u8>) -> bool {
        self.body_crc == crc16_arc(body)
    }

    /// The header that [Header::new] builds.
    pub closed spec fn spec_new(random: u8, seqnum: u16, body: Seq<u8>) -> Header {
        let h = Header {
            len: body.len() as u8,
            random: random,
            seqnum: seqnum,
            body_crc: crc16_arc(body),
            header_crc: 0,
        };
        Header { header_crc: crc16_arc(h.spec_to_bytes()), ..h }
    }

    /// Construct a new valid header.
    pub fn new(random: u8, seqnum: u16, body: &[u8]) -> (h: Header)
        requires
            body@.len() <= MAX_BODY_LEN,
        ensures
            h == Header::spec_new(random, seqnum, body@),
    {
        let len = body.len() as u8;
        let mut header = Header {
            len,
            random,
            seqnum,
            body_crc: Self::calculate_body_crc(body),
            header_crc: 0,
        };
        let bytes = header.to_bytes();
        header.header_crc = crc16(&bytes);
        header
    }

    /// The length of the body that follows the header.
    pub fn len(&self) -> (r: u8)
        ensures
            r == self.spec_len(),
    {
        self.len
    }

    /// The header's sequence number.
    pub fn seqnum(&self) -> (r: u16)
        ensures
            r == self.spec_seqnum(),
    {
        self.seqnum
    }

    /// The header's bytes on the wire.
    pub fn to_bytes(&self) -> (r: [u8; HEADER_LEN])
        ensures
            r@ == self.spec_to_bytes(),
    {
        let s = to_le_bytes(self.seqnum);
        let b = to_le_bytes(self.body_crc);
        let h = to_le_bytes(self.header_crc);
        let r = [self.len, self.random, s[0], s[1], b[0], b[1], h[0], h[1]];
        assert(r@ =~= self.spec_to_bytes());
        r
    }

    /// The header that the first [HEADER_LEN] bytes of `bytes` encode.
    pub fn from_bytes(bytes: &[u8]) -> (h: Header)
        requires
            bytes@.len() >= HEADER_LEN,
        ensures
            h == Header::spec_from_bytes(bytes@),
    {
        Header {
            len: bytes[0],
            random: bytes[1],
            seqnum: u16_from_le(bytes[2], bytes[3]),
            body_crc: u16_from_le(bytes[4], bytes[5]),
            header_crc: u16_from_le(bytes[6], bytes[7]),
        }
    }

    /// The CRC of the header's bytes with the header CRC field set to 0.
    pub fn calculate_header_crc(&self) -> (r: u16)
        ensures
            r == self.expected_header_crc(),
    {
        let header = Header { header_crc: 0, ..*self };
        let bytes = header.to_bytes();
        crc16(&bytes)
    }

    /// The CRC of a packet body.
    pub fn calculate_body_crc(body: &[u8]) -> (r: u16)
        ensures
            r == crc16_arc(body@),
    {
        crc16(body)
    }

    /// Whether the header CRC matches the rest of the header.
    pub fn valid_header_crc(&self) -> (r: bool)
        ensures
            r == self.header_crc_ok(),
    {
        let expected_crc = self.calculate_header_crc();
        self.header_crc == expected_crc
    }

    /// Whether the body CRC matches `body`.
    pub fn valid_body_crc(&self, body: &[u8]) -> (r: bool)
        ensures
            r == self.body_crc_ok(body@),
    {
        let expected_crc = Self::calculate_body_crc(body);
        self.body_crc == expected_crc
    }
}

/// Decoding the bytes of a header gives the header back.
pub proof fn law_header_bytes_roundtrip(h: Header)
    ensures
        h.spec_to_bytes().len() == HEADER_LEN,
        Header::spec_from_bytes(h.spec_to_bytes()) == h,
{
}

/// Encoding a decoded header gives the bytes back.
pub proof fn law_header_from_bytes_roundtrip(bytes: Seq<u8>)
    requires
        bytes.len() == HEADER_LEN,
    ensures
        Header::spec_from_bytes(bytes).spec_to_bytes() == bytes,
{
    assert(Header::spec_from_bytes(bytes).spec_to_bytes() =~= bytes);
}

/// A header built by [Header::new] for a body has a valid header CRC, a valid body CRC for
/// that body, and the body's length.
pub proof fn law_new_header_is_valid(random: u8, seqnum: u16, body: Seq<u8>)
    requires
        body.len() <= MAX_BODY_LEN,
    ensures
        Header::spec_new(random, seqnum, body).header_crc_ok(),
        Header::spec_new(random, seqnum, body).body_crc_ok(body),
        Header::spec_new(random, seqnum, body).spec_len() == body.len(),
        Header::spec_new(random, seqnum, body).spec_seqnum() == seqnum,
        Header::spec_new(random, seqnum, body).spec_random() == random,
{
    let h = Header::spec_new(random, seqnum, body);
    assert(Header { header_crc: 0, ..h } == Header {
        len: body.len() as u8,
        random: random,
        seqnum: seqnum,
        body_crc: crc16_arc(body),
        header_crc: 0,
    });
}

/// Result of comparing a received sequence number to the newest one seen.
#[derive(Clone, Copy, Debug, PartialEq, Eq, Structural)]
pub enum SeqnumResult {
    OldSeqnum,
    NewSeqnum,
    Desync,
}

impl SeqnumResult {
    /// Whether a newly received message should be discarded based on the seqnum.
    pub fn should_discard_message(&self) -> (r: bool)
        ensures
            r == (*self == SeqnumResult::OldSeqnum),
    {
        matches!(self, SeqnumResult::OldSeqnum)
    }
}

/// How far `known` is ahead of `new`, modulo 2^16.
pub open spec fn seqnum_distance(new: u16, known: u16) -> int {
    (known - new + 65536) % 65536
}

/// The comparison that [compare_seqnums] makes.
pub open spec fn spec_compare_seqnums(new: u16, known: u16) -> SeqnumResult {
    let diff = seqnum_distance(new, known);
    if diff <= BAD_SEQNUM_THRESHOLD {
        SeqnumResult::OldSeqnum
    } else if diff >= NEW_SEQNUM_THRESHOLD {
        SeqnumResult::NewSeqnum
    } else {
        SeqnumResult::Desync
    }
}

/// Classifies `new` against the newest seen seqnum `known`, taking wrapping into account:
/// `new` is old if it is at most [BAD_SEQNUM_THRESHOLD] behind `known` (or equal), new if it
/// is at most that far ahead, and out of sync otherwise.
pub fn compare_seqnums(new: u16, known: u16) -> (r: SeqnumResult)
    ensures
        r == spec_compare_seqnums(new, known),
{
    let diff = known.wrapping_sub(new);
    if diff <= BAD_SEQNUM_THRESHOLD {
        SeqnumResult::OldSeqnum
    } else if diff >= NEW_SEQNUM_THRESHOLD {
        SeqnumResult::NewSeqnum
    } else {
        SeqnumResult::Desync
    }
}

/// A seqnum is never newer than itself: a resent message is discarded.
pub proof fn law_same_seqnum_is_old(s: u16)
    ensures
        spec_compare_seqnums(s, s) == SeqnumResult::OldSeqnum,
{
}

/// The seqnum that follows `known` (wrapping) is new.
pub proof fn law_next_seqnum_is_new(known: u16)
    ensures
        spec_compare_seqnums(if known == u16::MAX { 0 } else { (known + 1) as u16 }, known)
            == SeqnumResult::NewSeqnum,
{
}

/// Exactly the seqnums at most [BAD_SEQNUM_THRESHOLD] ahead of `known` (wrapping) are new.
pub proof fn law_new_seqnums(new: u16, known: u16)
    ensures
        spec_compare_seqnums(new, known) == SeqnumResult::NewSeqnum <==> 1 <= seqnum_distance(
            known,
            new,
        ) <= BAD_SEQNUM_THRESHOLD,
{
}

} // verus!
