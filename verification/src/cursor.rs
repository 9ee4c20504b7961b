//! A seekable, readable view over an in-memory byte buffer.
//!
//! Every multi-byte read is little-endian. A read that asks for more bytes
//! than remain fails with [`Truncated`]; following the behaviour of buffered
//! readers, a failed read that started inside the buffer leaves the position
//! at the end of the buffer, while a read attempted past the end leaves the
//! position unchanged.

use vstd::prelude::*;

verus! {

/// Error produced by a cursor read when fewer bytes remain than requested.
#[derive(Clone, Copy, Debug, PartialEq, Eq, Structural)]
pub struct Truncated;

/// Little-endian value of the 2 bytes of `s` starting at `i`.
pub open spec fn le16_at(s: Seq<u8>, i: int) -> int {
    s[i] + 0x100 * s[i + 1]
}

/// Little-endian value of the 4 bytes of `s` starting at `i`.
pub open spec fn le32_at(s: Seq<u8>, i: int) -> int {
    le16_at(s, i) + 0x1_0000 * le16_at(s, i + 2)
}

/// Little-endian value of the 8 bytes of `s` starting at `i`.
pub open spec fn le64_at(s: Seq<u8>, i: int) -> int {
    le32_at(s, i) + 0x1_0000_0000 * le32_at(s, i + 4)
}

/// Little-endian value of the 16 bytes of `s` starting at `i`.
pub open spec fn le128_at(s: Seq<u8>, i: int) -> int {
    le64_at(s, i) + 0x1_0000_0000_0000_0000 * le64_at(s, i + 8)
}

/// Position of a cursor after a read that failed for lack of bytes: a read
/// that started inside the buffer consumes what is left, one that started
/// past the end consumes nothing.
pub open spec fn failed_pos(len: int, pos: int) -> int {
    if pos > len {
        pos
    } else {
        len
    }
}

/// The length bound under which all position arithmetic of the decoder fits
/// in 64 bits. Every buffer that can exist in memory satisfies it, since an
/// allocation never exceeds `isize::MAX` bytes.
pub open spec fn buf_len_ok(s: Seq<u8>) -> bool {
    s.len() < 0x1000_0000_0000_0000
}

/// A readable, seekable view over an owned byte buffer. The position may be
/// set past the end of the buffer; reads from there fail.
#[derive(Debug)]
pub struct Cursor {
    /// The underlying buffer.
    pub data: Vec<u8>,
    /// The absolute position of the next read.
    pub pos: u64,
}

impl Cursor {
    /// Length of the underlying buffer.
    pub open spec fn len(&self) -> int {
        self.data@.len() as int
    }

    /// Creates a cursor over `data`, positioned at byte 0.
    pub fn new(data: Vec<u8>) -> (c: Cursor)
        ensures
            c.data@ == data@,
            c.pos == 0,
    {
        Cursor { data, pos: 0 }
    }

    /// The current absolute position.
    pub fn position(&self) -> (p: u64)
        ensures
            p == self.pos,
    {
        self.pos
    }

    /// Moves the cursor to the absolute position `p`.
    pub fn set_position(&mut self, p: u64)
        ensures
            final(self).data@ == old(self).data@,
            final(self).pos == p,
    {
        self.pos = p;
    }

    /// Reads one byte and advances the position by 1.
    pub fn read_u8(&mut self) -> (r: Result<u8, Truncated>)
        ensures
            final(self).data@ == old(self).data@,
            old(self).pos + 1 <= old(self).len() ==> {
                &&& r matches Ok(b) && b == old(self).data@[old(self).pos as int]
                &&& final(self).pos == old(self).pos + 1
            },
            old(self).pos + 1 > old(self).len() ==> {
                &&& r is Err
                &&& final(self).pos == failed_pos(old(self).len(), old(self).pos as int)
            },
    {
        if self.pos < self.data.len() as u64 {
            let b = self.data[self.pos as usize];
            self.pos = self.pos + 1;
            Ok(b)
        } else {
            Err(Truncated)
        }
    }

    /// Reads a little-endian 16-bit integer and advances the position by 2.
    pub fn read_u16(&mut self) -> (r: Result<u16, Truncated>)
        ensures
            final(self).data@ == old(self).data@,
            old(self).pos + 2 <= old(self).len() ==> {
                &&& r matches Ok(v) && v == le16_at(old(self).data@, old(self).pos as int)
                &&& final(self).pos == old(self).pos + 2
            },
            old(self).pos + 2 > old(self).len() ==> {
                &&& r is Err
                &&& final(self).pos == failed_pos(old(self).len(), old(self).pos as int)
            },
    {
        let b0 = match self.read_u8() {
            Ok(b) => b,
            Err(e) => return Err(e),
        };
        let b1 = match self.read_u8() {
            Ok(b) => b,
            Err(e) => return Err(e),
        };
        Ok(b0 as u16 + 0x100 * b1 as u16)
    }

    /// Reads a little-endian 32-bit integer and advances the position by 4.
    pub fn read_u32(&mut self) -> (r: Result<u32, Truncated>)
        ensures
            final(self).data@ == old(self).data@,
            old(self).pos + 4 <= old(self).len() ==> {
                &&& r matches Ok(v) && v == le32_at(old(self).data@, old(self).pos as int)
                &&& final(self).pos == old(self).pos + 4
            },
            old(self).pos + 4 > old(self).len() ==> {
                &&& r is Err
                &&& final(self).pos == failed_pos(old(self).len(), old(self).pos as int)
            },
    {
        let v0 = match self.read_u16() {
            Ok(v) => v,
            Err(e) => return Err(e),
        };
        let v1 = match self.read_u16() {
            Ok(v) => v,
            Err(e) => return Err(e),
        };
        Ok(v0 as u32 + 0x1_0000 * v1 as u32)
    }

    /// Reads a little-endian 64-bit integer and advances the position by 8.
    pub fn read_u64(&mut self) -> (r: Result<u64, Truncated>)
        ensures
            final(self).data@ == old(self).data@,
            old(self).pos + 8 <= old(self).len() ==> {
                &&& r matches Ok(v) && v == le64_at(old(self).data@, old(self).pos as int)
                &&& final(self).pos == old(self).pos + 8
            },
            old(self).pos + 8 > old(self).len() ==> {
                &&& r is Err
                &&& final(self).pos == failed_pos(old(self).len(), old(self).pos as int)
            },
    {
        let v0 = match self.read_u32() {
            Ok(v) => v,
            Err(e) => return Err(e),
        };
        let v1 = match self.read_u32() {
            Ok(v) => v,
            Err(e) => return Err(e),
        };
        Ok(v0 as u64 + 0x1_0000_0000 * v1 as u64)
    }

    /// Reads a little-endian 128-bit integer and advances the position by 16.
    pub fn read_u128(&mut self) -> (r: Result<u128, Truncated>)
        ensures
            final(self).data@ == old(self).data@,
            old(self).pos + 16 <= old(self).len() ==> {
                &&& r matches Ok(v) && v == le128_at(old(self).data@, old(self).pos as int)
                &&& final(self).pos == old(self).pos + 16
            },
            old(self).pos + 16 > old(self).len() ==> {
                &&& r is Err
                &&& final(self).pos == failed_pos(old(self).len(), old(self).pos as int)
            },
    {
        let v0 = match self.read_u64() {
            Ok(v) => v,
            Err(e) => return Err(e),
        };
        let v1 = match self.read_u64() {
            Ok(v) => v,
            Err(e) => return Err(e),
        };
        Ok(v0 as u128 + 0x1_0000_0000_0000_0000 * v1 as u128)
    }

    /// Reads exactly `n` bytes and advances the position by `n`. Reading zero
    /// bytes always succeeds and leaves the position unchanged.
    pub fn read_exact(&mut self, n: usize) -> (r: Result<Vec<u8>, Truncated>)
        ensures
            final(self).data@ == old(self).data@,
            n == 0 ==> {
                &&& r matches Ok(v) && v@ == Seq::<u8>::empty()
                &&& final(self).pos == old(self).pos
            },
            n > 0 && old(self).pos + n <= old(self).len() ==> {
                &&& r matches Ok(v) && v@ == old(self).data@.subrange(
                    old(self).pos as int,
                    old(self).pos + n,
                )
                &&& final(self).pos == old(self).pos + n
            },
            n > 0 && old(self).pos + n > old(self).len() ==> {
                &&& r is Err
                &&& final(self).pos == failed_pos(old(self).len(), old(self).pos as int)
            },
    {
        if n == 0 {
            return Ok(Vec::new());
        }
        let len64 = self.data.len() as u64;
        if self.pos <= len64 && n as u64 <= len64 - self.pos {
            let mut v: Vec<u8> = Vec::new();
            let mut i: usize = 0;
            while i < n
                invariant
                    0 <= i <= n,
                    self.pos + n <= self.len(),
                    self.len() <= usize::MAX,
                    v@ == self.data@.subrange(self.pos as int, self.pos + i),
                decreases n - i,
            {
                v.push(self.data[(self.pos + i as u64) as usize]);
                i = i + 1;
                proof {
                    assert(v@ =~= self.data@.subrange(self.pos as int, self.pos + i));
                }
            }
            self.pos = self.pos + n as u64;
            Ok(v)
        } else {
            if self.pos < len64 {
                self.pos = len64;
            }
            Err(Truncated)
        }
    }

    /// Copies the `size` bytes starting at absolute position `from`, without
    /// moving the cursor. Returns `None` when the range does not lie inside
    /// the buffer.
    pub fn slice_at(&self, from: u64, size: u64) -> (r: Option<Vec<u8>>)
        ensures
            from + size <= self.len() ==> {
                &&& r matches Some(v) && v@ == self.data@.subrange(from as int, from + size)
            },
            from + size > self.len() ==> r is None,
    {
        let len64 = self.data.len() as u64;
        if from <= len64 && size <= len64 - from {
            let mut v: Vec<u8> = Vec::new();
            let mut i: u64 = 0;
            while i < size
                invariant
                    0 <= i <= size,
                    from + size <= self.len(),
                    self.len() <= usize::MAX,
                    v@ == self.data@.subrange(from as int, from + i),
                decreases size - i,
            {
                v.push(self.data[(from + i) as usize]);
                i = i + 1;
                proof {
                    assert(v@ =~= self.data@.subrange(from as int, from + i));
                }
            }
            Some(v)
        } else {
            None
        }
    }
}

} // verus!
