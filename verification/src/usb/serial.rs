//! The USB serial connection to the host: finding the host's messages in the bytes that
//! arrive.
//!
//! Received bytes collect in a buffer until they hold a complete message, which is then
//! removed from the front of the buffer. A message that does not complete within a timeout,
//! one that does not decode, or bytes that fill the whole buffer are thrown away.

use vstd::prelude::*;

use super::MAX_PACKET_SIZE;
use crate::serial_proto::owned::LogRecord;

verus! {

/// Size of the buffer of bytes that wait to be sent to the host.
pub const BUFFER_SIZE: usize = 16384;

/// How long an incomplete message may wait for the rest of its bytes, in milliseconds.
pub const MESSAGE_TIMEOUT_MS: u64 = 30;

/// `<[u8]>::rotate_left`: the first `mid` bytes move to the end.
#[verifier::external_body]
fn slice_rotate_left(s: &mut [u8], mid: usize)
    requires
        mid <= old(s)@.len(),
    ensures
        final(s)@ == old(s)@.skip(mid as int) + old(s)@.take(mid as int),
{
    s.rotate_left(mid)
}

/// What decoding the pending bytes as a message gave.
#[derive(Clone, Copy, Debug, PartialEq, Eq, Structural)]
pub enum Unpacked {
    /// A message, decoded from the first `consumed` pending bytes.
    Message { consumed: usize },
    /// The bytes end before the message does.
    UnexpectedEof,
    /// The bytes are not a message.
    Corrupt,
}

/// What reading from the connection gave.
#[derive(Clone, Copy, Debug, PartialEq, Eq, Structural)]
pub enum ReadOutcome {
    /// Bytes were added to the pending bytes.
    Read,
    /// The buffer was already full: the pending bytes were thrown away.
    Overflow,
    /// Nothing could be read: the connection is gone.
    Eof,
}

pub struct MessageParser<'a> {
    pub buf: &'a mut [u8],
    pub len: usize,
}

impl<'buf> MessageParser<'buf> {
    /// The bytes that wait to be decoded.
    pub open spec fn pending(&self) -> Seq<u8> {
        self.buf@.take(self.len as int)
    }

    /// The size of the buffer.
    pub open spec fn capacity(&self) -> nat {
        self.buf@.len()
    }

    /// The length never exceeds the buffer.
    pub open spec fn wf(&self) -> bool {
        self.len <= self.buf@.len()
    }

    /// A parser with no pending bytes that collects them in `buf`.
    pub fn new(buf: &'buf mut [u8]) -> (p: MessageParser<'buf>)
        ensures
            p.len == 0,
            p.buf@ == old(buf)@,
            p.pending() == Seq::<u8>::empty(),
            p.wf(),
    {
        MessageParser { buf, len: 0 }
    }

    /// The bytes that wait to be decoded.
    pub fn pending_bytes(&self) -> (s: &[u8])
        requires
            self.wf(),
        ensures
            s@ == self.pending(),
    {
        &self.buf[0..self.len]
    }

    /// Applies what decoding the pending bytes gave. Returns whether a message was found:
    /// then its bytes are removed. Corrupt bytes are thrown away; an incomplete message stays.
    pub fn after_unpack(&mut self, unpacked: Unpacked) -> (found: bool)
        requires
            old(self).wf(),
            unpacked matches Unpacked::Message { consumed } ==> consumed <= old(self).len,
        ensures
            final(self).wf(),
            final(self).buf@.len() == old(self).buf@.len(),
            found == unpacked is Message,
            match unpacked {
                Unpacked::Message { consumed } => final(self).pending() == old(self).pending().skip(
                    consumed as int,
                ),
                Unpacked::UnexpectedEof => final(self).pending() == old(self).pending(),
                Unpacked::Corrupt => final(self).pending() == Seq::<u8>::empty(),
            },
    {
        match unpacked {
            Unpacked::Message { consumed } => {
                // remove the decoded bytes from buf
                if consumed == self.len {
                    self.len = 0;
                } else {
                    let ghost old_buf = self.buf@;
                    slice_rotate_left(self.buf, consumed);
                    self.len = self.len - consumed;
                    assert(self.pending() =~= old_buf.take(old(self).len as int).skip(
                        consumed as int,
                    ));
                }
                true
            },
            // we probably have not gotten the entire message yet, go back to reading bytes.
            Unpacked::UnexpectedEof => false,
            // on any other error, the message is corrupt. clear the buffer.
            Unpacked::Corrupt => {
                self.len = 0;
                false
            },
        }
    }

    /// Whether the pending bytes should be thrown away if no more bytes arrive within
    /// [MESSAGE_TIMEOUT_MS].
    pub fn timeout_armed(&self) -> (armed: bool)
        ensures
            armed == (self.len != 0),
    {
        self.len != 0
    }

    /// No more bytes arrived in time: the pending bytes are thrown away.
    pub fn on_timeout(&mut self)
        ensures
            final(self).len == 0,
            final(self).buf@ == old(self).buf@,
    {
        self.len = 0;
    }

    /// How many bytes the next read may add.
    pub fn free_space(&self) -> (n: usize)
        requires
            self.wf(),
        ensures
            n == self.capacity() - self.len,
    {
        self.buf.len() - self.len
    }

    /// Adds the bytes that a read returned, unless the buffer was already full (then the
    /// pending bytes are thrown away). A read of no bytes means the connection is gone.
    pub fn on_read(&mut self, chunk: &[u8]) -> (r: ReadOutcome)
        requires
            old(self).wf(),
            chunk@.len() <= old(self).buf@.len() - old(self).len,
        ensures
            final(self).wf(),
            final(self).buf@.len() == old(self).buf@.len(),
            old(self).len >= old(self).buf@.len() ==> r == ReadOutcome::Overflow
                && final(self).pending() == Seq::<u8>::empty(),
            old(self).len < old(self).buf@.len() ==> final(self).pending() == old(self).pending()
                + chunk@ && (r == if chunk@.len() == 0 {
                ReadOutcome::Eof
            } else {
                ReadOutcome::Read
            }),
    {
        // make sure we're not just reading garbage forever
        if self.len >= self.buf.len() {
            self.len = 0;
            return ReadOutcome::Overflow;
        }
        let n = chunk.len();
        let cap = self.buf.len();
        let ghost start = self.buf@;
        let mut i: usize = 0;
        while i < n
            invariant
                n == chunk@.len(),
                cap == self.buf@.len(),
                start == old(self).buf@,
                self.len == old(self).len,
                self.len + n <= self.buf@.len(),
                self.buf@.len() == start.len(),
                i <= n,
                self.buf@.take(self.len as int) == start.take(self.len as int),
                forall|j: int| 0 <= j < i ==> self.buf@[self.len + j] == chunk@[j],
            decreases n - i,
        {
            self.buf[self.len + i] = chunk[i];
            i = i + 1;
            assert(self.buf@.take(self.len as int) =~= start.take(self.len as int));
        }
        let ghost old_len = self.len;
        self.len = self.len + n;
        assert(self.pending() =~= start.take(old_len as int) + chunk@);
        if n == 0 {
            ReadOutcome::Eof
        } else {
            ReadOutcome::Read
        }
    }
}

/// Whether a packet of `n` bytes just written must be followed by an empty packet: a packet
/// of exactly [MAX_PACKET_SIZE] bytes does not end a transfer, so when nothing else is
/// waiting to be sent, an empty one must "flush" it.
pub fn needs_flush_packet(n: usize, out_empty: bool) -> (r: bool)
    ensures
        r == (out_empty && n == MAX_PACKET_SIZE),
{
    out_empty && n == MAX_PACKET_SIZE as usize
}

/// The serial connection as a destination of log records.
#[derive(Clone, Copy)]
pub struct UsbSerial;

impl UsbSerial {
    /// The record that a log entry is sent to the host as: the time since boot in
    /// milliseconds, the displayed level and the displayed message.
    pub fn log_record(&self, timestamp_ms: u64, level: &str, message: &str) -> (r: LogRecord)
        ensures
            r.timestamp == timestamp_ms,
            r.level@ == level@,
            r.message@ == message@,
    {
        LogRecord {
            timestamp: timestamp_ms,
            level: String::from_str(level),
            message: String::from_str(message),
        }
    }
}

} // verus!
