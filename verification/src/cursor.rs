use vstd::prelude::*;
use bytes::Bytes;
use crate::buffer::{bytes_model, bytes_len, bytes_get, bytes_slice};

verus! {

/// A big-endian 24-bit unsigned integer read from three bytes of `b`.
pub open spec fn be_u24(b: Seq<u8>, pos: int) -> int {
    b[pos] * 0x10000 + b[pos + 1] * 0x100 + b[pos + 2]
}

/// A big-endian 32-bit unsigned integer read from four bytes of `b`.
pub open spec fn be_u32(b: Seq<u8>, pos: int) -> int {
    b[pos] * 0x1000000 + b[pos + 1] * 0x10000 + b[pos + 2] * 0x100 + b[pos + 3]
}

/// The explicit, single-owner read cursor of the demuxer: the shared input
/// buffer together with the position of the next unread byte. All reads are
/// sequential; slices taken from it are views into the same buffer.
pub struct FlvCursor {
    buf: Bytes,
    pos: usize,
}

impl FlvCursor {
    /// The bytes the cursor walks.
    pub closed spec fn content(self) -> Seq<u8> {
        bytes_model(self.buf)
    }

    /// The position of the next unread byte.
    pub closed spec fn position(self) -> int {
        self.pos as int
    }

    /// The cursor never stands past the end of its buffer.
    pub open spec fn wf(self) -> bool {
        0 <= self.position() <= self.content().len() && self.content().len() <= usize::MAX
    }

    /// The number of bytes not yet read.
    pub open spec fn spec_remaining(self) -> int {
        self.content().len() - self.position()
    }

    /// A cursor at the start of the given buffer.
    pub fn new(buf: Bytes) -> (r: Self)
        ensures
            r.wf(),
            r.content() == bytes_model(buf),
            r.position() == 0,
    {
        let n: usize = bytes_len(&buf);
        FlvCursor { buf, pos: 0 }
    }

    /// How many bytes remain to be read.
    pub fn remaining(&self) -> (r: usize)
        requires
            self.wf(),
        ensures
            r == self.spec_remaining(),
    {
        let n: usize = bytes_len(&self.buf);
        n - self.pos
    }

    /// Whether any byte remains to be read.
    pub fn has_remaining(&self) -> (r: bool)
        requires
            self.wf(),
        ensures
            r == (self.spec_remaining() > 0),
    {
        self.remaining() > 0
    }

    /// The current position, as a value.
    pub fn byte_position(&self) -> (r: usize)
        ensures
            r == self.position(),
    {
        self.pos
    }

    /// Advance over `n` bytes without interpreting them.
    pub fn skip(&mut self, n: usize)
        requires
            old(self).wf(),
            old(self).position() + n <= old(self).content().len(),
        ensures
            final(self).wf(),
            final(self).content() == old(self).content(),
            final(self).position() == old(self).position() + n,
    {
        self.pos = self.pos + n;
    }

    /// Read the next byte.
    pub fn read_u8(&mut self) -> (r: u8)
        requires
            old(self).wf(),
            old(self).spec_remaining() >= 1,
        ensures
            final(self).wf(),
            final(self).content() == old(self).content(),
            final(self).position() == old(self).position() + 1,
            r == old(self).content()[old(self).position()],
    {
        let b = bytes_get(&self.buf, self.pos);
        self.pos = self.pos + 1;
        b
    }

    /// Read the next three bytes as a big-endian unsigned integer.
    pub fn read_u24_be(&mut self) -> (r: u32)
        requires
            old(self).wf(),
            old(self).spec_remaining() >= 3,
        ensures
            final(self).wf(),
            final(self).content() == old(self).content(),
            final(self).position() == old(self).position() + 3,
            r == be_u24(old(self).content(), old(self).position()),
    {
        let b0 = bytes_get(&self.buf, self.pos);
        let b1 = bytes_get(&self.buf, self.pos + 1);
        let b2 = bytes_get(&self.buf, self.pos + 2);
        self.pos = self.pos + 3;
        (b0 as u32) * 0x10000 + (b1 as u32) * 0x100 + (b2 as u32)
    }

    /// Read the next four bytes as a big-endian unsigned integer.
    pub fn read_u32_be(&mut self) -> (r: u32)
        requires
            old(self).wf(),
            old(self).spec_remaining() >= 4,
        ensures
            final(self).wf(),
            final(self).content() == old(self).content(),
            final(self).position() == old(self).position() + 4,
            r == be_u32(old(self).content(), old(self).position()),
    {
        let b0 = bytes_get(&self.buf, self.pos);
        let b1 = bytes_get(&self.buf, self.pos + 1);
        let b2 = bytes_get(&self.buf, self.pos + 2);
        let b3 = bytes_get(&self.buf, self.pos + 3);
        self.pos = self.pos + 4;
        (b0 as u32) * 0x1000000 + (b1 as u32) * 0x10000 + (b2 as u32) * 0x100 + (b3 as u32)
    }

    /// Take the next `n` bytes as a zero-copy view and advance over them.
    pub fn take_bytes(&mut self, n: usize) -> (r: Bytes)
        requires
            old(self).wf(),
            old(self).position() + n <= old(self).content().len(),
        ensures
            final(self).wf(),
            final(self).content() == old(self).content(),
            final(self).position() == old(self).position() + n,
            bytes_model(r) == old(self).content().subrange(
                old(self).position(),
                old(self).position() + n,
            ),
    {
        let r = bytes_slice(&self.buf, self.pos, self.pos + n);
        self.pos = self.pos + n;
        r
    }
}

} // verus!
