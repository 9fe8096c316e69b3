//! The receive buffer of a UART line: bytes that arrived and have not been used yet.

use vstd::prelude::*;

verus! {

/// How many received bytes the buffer holds at most.
pub const RX_BUF_CAP: usize = 1024;

#[verifier::external_type_specification]
#[verifier::external_body]
#[verifier::reject_recursive_types(T)]
pub struct ExHeaplessVec<T, const N: usize>(heapless::Vec<T, N>);

/// The bytes that a receive buffer holds, oldest first.
pub uninterp spec fn held_bytes(v: heapless::Vec<u8, RX_BUF_CAP>) -> Seq<u8>;

/// `heapless::Vec::new`: an empty buffer.
#[verifier::external_body]
fn bytes_new() -> (v: heapless::Vec<u8, RX_BUF_CAP>)
    ensures
        held_bytes(v) == Seq::<u8>::empty(),
{
    heapless::Vec::new()
}

/// `heapless::Vec::as_slice`: the held bytes, never more than the capacity.
#[verifier::external_body]
fn bytes_as_slice(v: &heapless::Vec<u8, RX_BUF_CAP>) -> (s: &[u8])
    ensures
        s@ == held_bytes(*v),
        s@.len() <= RX_BUF_CAP,
{
    v.as_slice()
}

/// `heapless::Vec::extend_from_slice`: appends all of `other` if it fits, else changes
/// nothing and fails.
#[verifier::external_body]
fn bytes_extend(v: &mut heapless::Vec<u8, RX_BUF_CAP>, other: &[u8]) -> (r: Result<(), ()>)
    ensures
        r is Ok <==> held_bytes(*old(v)).len() + other@.len() <= RX_BUF_CAP,
        r is Ok ==> held_bytes(*final(v)) == held_bytes(*old(v)) + other@,
        r is Err ==> held_bytes(*final(v)) == held_bytes(*old(v)),
{
    v.extend_from_slice(other)
}

/// `heapless::Vec::remove`: removes and returns the byte at `index`, shifting the later bytes
/// forward.
#[verifier::external_body]
fn bytes_remove(v: &mut heapless::Vec<u8, RX_BUF_CAP>, index: usize) -> (b: u8)
    requires
        index < held_bytes(*old(v)).len(),
    ensures
        b == held_bytes(*old(v))[index as int],
        held_bytes(*final(v)) == held_bytes(*old(v)).remove(index as int),
{
    v.remove(index)
}

/// `<[u8]>::rotate_left` on the held bytes: the first `mid` bytes move to the end.
#[verifier::external_body]
fn bytes_rotate_left(v: &mut heapless::Vec<u8, RX_BUF_CAP>, mid: usize)
    requires
        mid <= held_bytes(*old(v)).len(),
    ensures
        held_bytes(*final(v)) == held_bytes(*old(v)).skip(mid as int) + held_bytes(*old(v)).take(
            mid as int,
        ),
{
    v.rotate_left(mid)
}

/// `heapless::Vec::truncate`: keeps the first `len` bytes; nothing changes if there are not
/// more than `len`.
#[verifier::external_body]
fn bytes_truncate(v: &mut heapless::Vec<u8, RX_BUF_CAP>, len: usize)
    ensures
        len <= held_bytes(*old(v)).len() ==> held_bytes(*final(v)) == held_bytes(*old(v)).take(
            len as int,
        ),
        len > held_bytes(*old(v)).len() ==> held_bytes(*final(v)) == held_bytes(*old(v)),
{
    v.truncate(len)
}

/// `heapless::Vec::clear`: removes every byte.
#[verifier::external_body]
fn bytes_clear(v: &mut heapless::Vec<u8, RX_BUF_CAP>)
    ensures
        held_bytes(*final(v)) == Seq::<u8>::empty(),
{
    v.clear()
}

/// Received bytes that wait to be framed into packets.
pub struct RxBuffer {
    bytes: heapless::Vec<u8, RX_BUF_CAP>,
}

impl RxBuffer {
    /// The held bytes, oldest first.
    pub closed spec fn view(&self) -> Seq<u8> {
        held_bytes(self.bytes)
    }

    /// An empty buffer.
    pub fn new() -> (b: RxBuffer)
        ensures
            b@ == Seq::<u8>::empty(),
    {
        RxBuffer { bytes: bytes_new() }
    }

    /// The held bytes.
    pub fn as_slice(&self) -> (s: &[u8])
        ensures
            s@ == self@,
            s@.len() <= RX_BUF_CAP,
    {
        bytes_as_slice(&self.bytes)
    }

    /// Appends newly received bytes. If they do not all fit, the buffer is emptied instead and
    /// `false` returned.
    pub fn push_bytes(&mut self, chunk: &[u8]) -> (fits: bool)
        ensures
            fits <==> old(self)@.len() + chunk@.len() <= RX_BUF_CAP,
            fits ==> final(self)@ == old(self)@ + chunk@,
            !fits ==> final(self)@ == Seq::<u8>::empty(),
    {
        if bytes_extend(&mut self.bytes, chunk).is_err() {
            // the buffer is full
            bytes_clear(&mut self.bytes);
            false
        } else {
            true
        }
    }

    /// Drops the oldest byte.
    pub fn drop_first_byte(&mut self)
        requires
            old(self)@.len() > 0,
        ensures
            final(self)@ == old(self)@.drop_first(),
    {
        let _ = bytes_remove(&mut self.bytes, 0);
        assert(old(self)@.remove(0) =~= old(self)@.drop_first());
    }

    /// Drops the `n` oldest bytes, shuffling the rest forward.
    pub fn drop_front(&mut self, n: usize)
        requires
            n <= old(self)@.len(),
        ensures
            final(self)@ == old(self)@.skip(n as int),
    {
        let len = self.as_slice().len();
        bytes_rotate_left(&mut self.bytes, n);
        bytes_truncate(&mut self.bytes, len - n);
        assert((old(self)@.skip(n as int) + old(self)@.take(n as int)).take(len - n) =~= old(
            self,
        )@.skip(n as int));
    }

    /// Drops every byte.
    pub fn clear(&mut self)
        ensures
            final(self)@ == Seq::<u8>::empty(),
    {
        bytes_clear(&mut self.bytes);
    }
}

} // verus!
