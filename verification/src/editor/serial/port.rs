//! Finding the keyboard's messages in the bytes read from its serial device.
//!
//! Bytes collect in a buffer; complete messages are taken off its front one after another.
//! A message that does not decode, or a buffer that grows beyond [MAX_MESSAGE_SIZE], is thrown
//! away, and so is an incomplete message when no more bytes arrive within
//! [MESSAGE_TIMEOUT_MS].

use vstd::prelude::*;

use crate::usb::serial::Unpacked;

verus! {

/// The most bytes that one message may take.
pub const MAX_MESSAGE_SIZE: usize = 16384;

/// How long an incomplete message may wait for the rest of its bytes, in milliseconds.
pub const MESSAGE_TIMEOUT_MS: u64 = 30;

/// What the reading task does after a read.
#[derive(Clone, Copy, Debug, PartialEq, Eq, Structural)]
pub enum HostRead {
    /// The device is gone: stop reading.
    Eof,
    /// Too many bytes without a complete message: they were thrown away.
    Overflow,
    /// Try to decode messages from the buffer.
    Decode,
}

/// Bytes read from the serial device that wait to be decoded.
pub struct ReadBuffer {
    buf: Vec<u8>,
}

impl ReadBuffer {
    /// The bytes that wait to be decoded.
    pub closed spec fn view(&self) -> Seq<u8> {
        self.buf@
    }

    pub fn new() -> (b: ReadBuffer)
        ensures
            b@ == Seq::<u8>::empty(),
    {
        ReadBuffer { buf: Vec::new() }
    }

    /// The bytes that wait to be decoded.
    pub fn pending(&self) -> (s: &[u8])
        ensures
            s@ == self@,
    {
        self.buf.as_slice()
    }

    /// Whether an incomplete message is waiting, so that a timeout applies.
    pub fn timeout_armed(&self) -> (armed: bool)
        ensures
            armed == (self@.len() != 0),
    {
        self.buf.len() != 0
    }

    /// No more bytes arrived in time: the pending bytes are thrown away.
    pub fn on_timeout(&mut self)
        ensures
            final(self)@ == Seq::<u8>::empty(),
    {
        self.buf.clear();
    }

    /// Adds the bytes of a read. A read of no bytes means the device is gone; more than
    /// [MAX_MESSAGE_SIZE] pending bytes are thrown away.
    pub fn on_read(&mut self, chunk: &[u8]) -> (r: HostRead)
        ensures
            chunk@.len() == 0 ==> r == HostRead::Eof && final(self)@ == old(self)@,
            chunk@.len() > 0 && old(self)@.len() + chunk@.len() > MAX_MESSAGE_SIZE ==> r
                == HostRead::Overflow && final(self)@ == Seq::<u8>::empty(),
            chunk@.len() > 0 && old(self)@.len() + chunk@.len() <= MAX_MESSAGE_SIZE ==> r
                == HostRead::Decode && final(self)@ == old(self)@ + chunk@,
    {
        // exit on eof
        if chunk.len() == 0 {
            return HostRead::Eof;
        }
        let mut i: usize = 0;
        while i < chunk.len()
            invariant
                i <= chunk@.len(),
                self.buf@ == old(self)@ + chunk@.take(i as int),
            decreases chunk@.len() - i,
        {
            self.buf.push(chunk[i]);
            i = i + 1;
            assert(self.buf@ =~= old(self)@ + chunk@.take(i as int));
        }
        assert(chunk@.take(chunk@.len() as int) =~= chunk@);
        // make sure we're not just reading garbage forever
        if self.buf.len() > MAX_MESSAGE_SIZE {
            self.buf.clear();
            return HostRead::Overflow;
        }
        HostRead::Decode
    }

    /// Applies what decoding the pending bytes gave. Returns whether to try to decode
    /// another message: only after a message, and only if bytes are left.
    pub fn after_unpack(&mut self, unpacked: Unpacked) -> (again: bool)
        requires
            unpacked matches Unpacked::Message { consumed } ==> consumed <= old(self)@.len(),
        ensures
            match unpacked {
                Unpacked::Message { consumed } => final(self)@ == old(self)@.skip(consumed as int)
                    && again == (final(self)@.len() > 0),
                Unpacked::UnexpectedEof => final(self)@ == old(self)@ && !again,
                Unpacked::Corrupt => final(self)@ == Seq::<u8>::empty() && !again,
            },
    {
        match unpacked {
            Unpacked::Message { consumed } => {
                // remove the decoded bytes from buf
                let rest = vstd::slice::slice_to_vec(&self.buf.as_slice()[consumed..self.buf.len()]);
                self.buf = rest;
                assert(self.buf@ =~= old(self)@.skip(consumed as int));
                self.buf.len() > 0
            },
            // we probably have not gotten the entire message yet, go back to reading bytes.
            Unpacked::UnexpectedEof => false,
            // on any other error, the message is corrupt. clear the buffer.
            Unpacked::Corrupt => {
                self.buf.clear();
                false
            },
        }
    }
}

} // verus!
