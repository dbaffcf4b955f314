//! The cursor-addressed byte buffer that every codec reads from and writes
//! to. Writes always append at the tail and never consult the cursor; reads
//! and skips advance the cursor. The cursor may sit past the end of the
//! buffer, in which case every read fails until more bytes arrive.

use vstd::prelude::*;
use crate::error::BinaryError;

verus! {

/// An owned, growable byte sequence together with a read cursor.
pub struct BinaryStream {
    /// The binary data of the stream.
    pub binary: Vec<u8>,
    /// The current read offset of the stream.
    pub offset: usize,
}

/// The `n` bytes that sit at the cursor of `pre`.
pub open spec fn window(pre: BinaryStream, n: int) -> Seq<u8> {
    pre.binary@.subrange(pre.offset as int, pre.offset + n)
}

/// The bytes of `s` from position `pos` to the end; empty when `pos` sits
/// past the end.
pub open spec fn rest_from(s: Seq<u8>, pos: nat) -> Seq<u8> {
    if pos <= s.len() {
        s.skip(pos as int)
    } else {
        Seq::empty()
    }
}

/// A read of `n` bytes succeeded: the buffer is unchanged and the cursor
/// moved forward by exactly `n`.
pub open spec fn advanced(pre: BinaryStream, post: BinaryStream, n: int) -> bool {
    &&& pre.offset + n <= pre.binary@.len()
    &&& post.binary == pre.binary
    &&& post.offset == pre.offset + n
}

/// A read of `n` bytes failed: fewer than `n` bytes remain at the cursor,
/// and the stream is exactly as it was.
pub open spec fn bounds_failed(pre: BinaryStream, post: BinaryStream, n: int) -> bool {
    &&& pre.offset + n > pre.binary@.len()
    &&& post == pre
}

/// A write appended exactly `bytes` at the tail and left the cursor alone.
pub open spec fn wrote(pre: BinaryStream, post: BinaryStream, bytes: Seq<u8>) -> bool {
    &&& post.binary@ == pre.binary@ + bytes
    &&& post.offset == pre.offset
}

impl BinaryStream {
    /// Creates a new stream from an optional initial buffer and an optional
    /// initial cursor; an absent buffer means empty, an absent cursor means 0.
    pub fn new(buffer: Option<Vec<u8>>, offset: Option<usize>) -> (s: Self)
        ensures
            s.binary@ == (match buffer {
                Some(b) => b@,
                None => Seq::<u8>::empty(),
            }),
            s.offset == (match offset {
                Some(o) => o,
                None => 0usize,
            }),
    {
        let bin = match buffer {
            Some(b) => b,
            None => Vec::new(),
        };
        let off = match offset {
            Some(o) => o,
            None => 0,
        };
        BinaryStream { binary: bin, offset: off }
    }

    /// Creates a new stream from a byte vector and an optional cursor.
    pub fn from(binary: Vec<u8>, offset: Option<usize>) -> (s: Self)
        ensures
            s.binary@ == binary@,
            s.offset == (match offset {
                Some(o) => o,
                None => 0usize,
            }),
    {
        let off = match offset {
            Some(o) => o,
            None => 0,
        };
        BinaryStream { binary, offset: off }
    }

    /// Creates a new stream from a caller-supplied buffer and an optional
    /// cursor.
    pub fn from_buffer(buffer: Vec<u8>, offset: Option<usize>) -> (s: Self)
        ensures
            s.binary@ == buffer@,
            s.offset == (match offset {
                Some(o) => o,
                None => 0usize,
            }),
    {
        Self::from(buffer, offset)
    }

    /// Reads the next `length` bytes at the cursor and advances it by
    /// `length`; fails with `BoundsError`, moving nothing, when fewer bytes
    /// remain.
    pub fn read(&mut self, length: usize) -> (r: Result<Vec<u8>, BinaryError>)
        ensures
            match r {
                Ok(bytes) => bytes@ == window(*old(self), length as int) && advanced(
                    *old(self),
                    *final(self),
                    length as int,
                ),
                Err(e) => e == BinaryError::BoundsError && old(self).offset + length > old(
                    self,
                ).binary@.len() && *final(self) == *old(self),
            },
    {
        let len = self.binary.len();
        if len < length || self.offset > len - length {
            return Err(BinaryError::BoundsError);
        }
        let mut out: Vec<u8> = Vec::new();
        let mut i: usize = 0;
        while i < length
            invariant
                i <= length,
                len == self.binary@.len(),
                self.offset + length <= len,
                out@ == self.binary@.subrange(self.offset as int, self.offset + i),
            decreases length - i,
        {
            out.push(self.binary[self.offset + i]);
            i = i + 1;
            assert(out@ =~= self.binary@.subrange(self.offset as int, self.offset + i));
        }
        self.offset = self.offset + length;
        Ok(out)
    }

    /// Reads the next `length` bytes as a standalone buffer; the same
    /// operation as `read`.
    pub fn read_buffer(&mut self, length: usize) -> (r: Result<Vec<u8>, BinaryError>)
        ensures
            match r {
                Ok(bytes) => bytes@ == window(*old(self), length as int) && advanced(
                    *old(self),
                    *final(self),
                    length as int,
                ),
                Err(e) => e == BinaryError::BoundsError && old(self).offset + length > old(
                    self,
                ).binary@.len() && *final(self) == *old(self),
            },
    {
        self.read(length)
    }

    /// Appends bytes at the tail of the stream; the cursor is unaffected.
    pub fn write(&mut self, data: Vec<u8>)
        ensures
            wrote(*old(self), *final(self), data@),
    {
        let mut data = data;
        self.binary.append(&mut data);
    }

    /// Appends a caller-supplied buffer at the tail of the stream; the
    /// cursor is unaffected.
    pub fn write_buffer(&mut self, data: Vec<u8>)
        ensures
            wrote(*old(self), *final(self), data@),
    {
        self.write(data);
    }

    /// Reads all bytes from the cursor to the end, leaving the cursor at the
    /// end; returns empty when the cursor already sits at or past the end.
    pub fn read_remaining(&mut self) -> (r: Vec<u8>)
        ensures
            r@ == rest_from(old(self).binary@, old(self).offset as nat),
            final(self).binary == old(self).binary,
            final(self).offset == old(self).binary@.len(),
    {
        let len = self.binary.len();
        let start = if self.offset < len {
            self.offset
        } else {
            len
        };
        let mut out: Vec<u8> = Vec::new();
        let mut i: usize = start;
        while i < len
            invariant
                start <= i <= len,
                len == self.binary@.len(),
                out@ == self.binary@.subrange(start as int, i as int),
            decreases len - i,
        {
            out.push(self.binary[i]);
            i = i + 1;
            assert(out@ =~= self.binary@.subrange(start as int, i as int));
        }
        self.offset = len;
        proof {
            assert(out@ =~= rest_from(old(self).binary@, old(self).offset as nat));
        }
        out
    }

    /// Reads the remaining bytes as a standalone buffer; the same operation
    /// as `read_remaining`.
    pub fn read_remaining_buffer(&mut self) -> (r: Vec<u8>)
        ensures
            r@ == rest_from(old(self).binary@, old(self).offset as nat),
            final(self).binary == old(self).binary,
            final(self).offset == old(self).binary@.len(),
    {
        self.read_remaining()
    }

    /// Advances the cursor by `length` without any bounds check; the cursor
    /// may end up past the end of the buffer.
    pub fn skip(&mut self, length: usize)
        requires
            old(self).offset + length <= usize::MAX,
        ensures
            final(self).binary == old(self).binary,
            final(self).offset == old(self).offset + length,
    {
        self.offset = self.offset + length;
    }

    /// Whether the cursor sits at the end of the buffer.
    pub fn cursor_at_end(&self) -> (r: bool)
        ensures
            r == (self.offset == self.binary@.len()),
    {
        self.offset == self.binary.len()
    }

    /// Whether the cursor sits at the start of the buffer.
    pub fn cursor_at_start(&self) -> (r: bool)
        ensures
            r == (self.offset == 0),
    {
        self.offset == 0
    }

    /// A copy of the full current byte sequence.
    pub fn get_buffer(&self) -> (r: Vec<u8>)
        ensures
            r@ == self.binary@,
    {
        let len = self.binary.len();
        let mut out: Vec<u8> = Vec::new();
        let mut i: usize = 0;
        while i < len
            invariant
                i <= len,
                len == self.binary@.len(),
                out@ == self.binary@.subrange(0, i as int),
            decreases len - i,
        {
            out.push(self.binary[i]);
            i = i + 1;
            assert(out@ =~= self.binary@.subrange(0, i as int));
        }
        proof {
            assert(out@ =~= self.binary@);
        }
        out
    }
}

} // verus!
