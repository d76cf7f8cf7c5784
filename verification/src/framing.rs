//! Frames: a payload behind a four-byte big-endian length, and an in-memory
//! stream to write them to and read them from.

use vstd::prelude::*;
use crate::error::EncodeFault;
use crate::error::ReadExactFault;

verus! {

/// The four bytes of a length prefix, most significant first.
pub open spec fn be32(len: nat) -> Seq<u8> {
    seq![
        (len / 0x100_0000) as u8,
        (len / 0x1_0000 % 256) as u8,
        (len / 0x100 % 256) as u8,
        (len % 256) as u8,
    ]
}

/// The length that the four bytes of a prefix state.
pub open spec fn be32_value(prefix: Seq<u8>) -> nat {
    (prefix[0] as nat) * 0x100_0000 + (prefix[1] as nat) * 0x1_0000 + (prefix[2] as nat) * 0x100
        + (prefix[3] as nat)
}

/// A payload on the wire: its length in four bytes, then the payload.
pub open spec fn frame(payload: Seq<u8>) -> Seq<u8> {
    be32(payload.len()) + payload
}

/// A prefix states the length it was made from.
pub proof fn lemma_be32_roundtrip(len: nat)
    requires
        len <= u32::MAX,
    ensures
        be32(len).len() == 4,
        be32_value(be32(len)) == len,
{
}

/// The length prefix of a payload of `len` bytes. A payload that a 32-bit
/// length cannot state is refused.
pub fn length_prefix(len: usize) -> (r: Result<[u8; 4], EncodeFault>)
    ensures
        match r {
            Ok(prefix) => len <= u32::MAX && prefix@ == be32(len as nat),
            Err(fault) => len > u32::MAX && fault == EncodeFault::PayloadTooLarge,
        },
{
    if len > 0xffff_ffff {
        return Err(EncodeFault::PayloadTooLarge);
    }
    let prefix: [u8; 4] = [
        (len / 0x100_0000) as u8,
        (len / 0x1_0000 % 256) as u8,
        (len / 0x100 % 256) as u8,
        (len % 256) as u8,
    ];
    assert(prefix@ =~= be32(len as nat));
    Ok(prefix)
}

/// The payload length that a prefix states.
pub fn payload_length(prefix: &[u8; 4]) -> (len: u32)
    ensures
        len == be32_value(prefix@),
{
    let b0: u32 = prefix[0] as u32;
    let b1: u32 = prefix[1] as u32;
    let b2: u32 = prefix[2] as u32;
    let b3: u32 = prefix[3] as u32;
    b0 * 0x100_0000 + b1 * 0x1_0000 + b2 * 0x100 + b3
}

/// One direction of a stream, held in memory: bytes are written at its end
/// and read from its front, in order. Its view is the bytes written and not
/// yet read. Reading past them finds the stream finished.
pub struct ByteStream {
    unread: Vec<u8>,
}

impl View for ByteStream {
    type V = Seq<u8>;

    closed spec fn view(&self) -> Seq<u8> {
        self.unread@
    }
}

impl ByteStream {
    /// A stream on which nothing was written.
    pub fn new() -> (stream: ByteStream)
        ensures
            stream@ == Seq::<u8>::empty(),
    {
        ByteStream { unread: Vec::new() }
    }

    /// A stream on which `bytes` were written.
    pub fn from_bytes(bytes: Vec<u8>) -> (stream: ByteStream)
        ensures
            stream@ == bytes@,
    {
        ByteStream { unread: bytes }
    }

    /// How many bytes are left to read.
    pub fn remaining(&self) -> (n: usize)
        ensures
            n == self@.len(),
    {
        self.unread.len()
    }

    /// Writes all of `data` at the end of the stream.
    pub fn write_all(&mut self, data: &[u8])
        ensures
            final(self)@ == old(self)@ + data@,
    {
        let mut i: usize = 0;
        while i < data.len()
            invariant
                i <= data.len(),
                self.unread@ == old(self).unread@ + data@.take(i as int),
            decreases data.len() - i,
        {
            self.unread.push(data[i]);
            assert(data@.take(i + 1) =~= data@.take(i as int).push(data@[i as int]));
            i += 1;
        }
        assert(data@.take(i as int) =~= data@);
    }

    /// Reads exactly `n` bytes from the front of the stream. If fewer are
    /// left, the stream has finished early: all of them are consumed and the
    /// fault says how many there were.
    pub fn read_exact(&mut self, n: usize) -> (r: Result<Vec<u8>, ReadExactFault>)
        ensures
            match r {
                Ok(data) => {
                    &&& n <= old(self)@.len()
                    &&& data@ == old(self)@.take(n as int)
                    &&& final(self)@ == old(self)@.skip(n as int)
                },
                Err(fault) => {
                    &&& n > old(self)@.len()
                    &&& fault == ReadExactFault::FinishedEarly(old(self)@.len() as usize)
                    &&& final(self)@ == Seq::<u8>::empty()
                },
            },
    {
        let left = self.unread.len();
        if n > left {
            self.unread.clear();
            return Err(ReadExactFault::FinishedEarly(left));
        }
        let mut data = self.unread.split_off(n);
        core::mem::swap(&mut self.unread, &mut data);
        assert(data@ =~= old(self)@.take(n as int));
        assert(self@ =~= old(self)@.skip(n as int));
        Ok(data)
    }
}

} // verus!
