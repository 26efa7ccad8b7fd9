//! The shared, forward-only read position over an immutable byte buffer,
//! with fixed-width big-endian scalar reads.
//!
//! Exactly one decoding object advances the cursor at any instant; the
//! right to advance it passes strictly by call-stack nesting. A read either
//! consumes exactly its width and returns the typed value, or fails with
//! [`Error::TruncatedInput`] and leaves the cursor untouched.

use vstd::prelude::*;
use vstd::slice::slice_index_get;

use crate::be::{be16, be32, be64, signed16, signed32, signed64, signed8, to_signed16, to_signed32,
    to_signed64, to_signed8};
use crate::error::Error;

verus! {

/// A read position over a borrowed byte buffer. The buffer never changes;
/// the position only moves forward.
pub struct Cursor<'a> {
    pub data: &'a [u8],
    pub pos: usize,
}

impl<'a> Cursor<'a> {
    /// The position never passes the end of the buffer.
    pub open spec fn wf(&self) -> bool {
        self.pos <= self.data@.len()
    }

    /// How many bytes are left to read.
    pub open spec fn spec_remaining(&self) -> nat {
        (self.data@.len() - self.pos) as nat
    }

    /// A fresh cursor at the start of `data`.
    pub fn new(data: &'a [u8]) -> (r: Cursor<'a>)
        ensures
            r.wf(),
            r.data@ == data@,
            r.pos == 0,
    {
        Cursor { data, pos: 0 }
    }

    /// How many bytes are left to read.
    pub fn remaining(&self) -> (r: usize)
        requires
            self.wf(),
        ensures
            r == self.spec_remaining(),
    {
        self.data.len() - self.pos
    }

    /// Advance past `n` bytes without interpreting them. Whichever
    /// component abandons a partially-consumed value must call this for the
    /// unread remainder before any sibling decoding resumes.
    pub fn skip(&mut self, n: usize) -> (r: Result<(), Error>)
        requires
            old(self).wf(),
        ensures
            final(self).wf(),
            final(self).data@ == old(self).data@,
            match r {
                Ok(()) => old(self).spec_remaining() >= n && final(self).pos == old(self).pos + n,
                Err(e) => e == Error::TruncatedInput && old(self).spec_remaining() < n && *final(self) == *old(self),
            },
    {
        if n <= self.data.len() - self.pos {
            self.pos = self.pos + n;
            Ok(())
        } else {
            Err(Error::TruncatedInput)
        }
    }

    /// Read one byte.
    pub fn read_u8(&mut self) -> (r: Result<u8, Error>)
        requires
            old(self).wf(),
        ensures
            final(self).wf(),
            final(self).data@ == old(self).data@,
            match r {
                Ok(v) => old(self).spec_remaining() >= 1 && final(self).pos == old(self).pos + 1
                    && v == old(self).data@[old(self).pos as int],
                Err(e) => e == Error::TruncatedInput && old(self).spec_remaining() < 1 && *final(self) == *old(self),
            },
    {
        if self.pos < self.data.len() {
            let b = *slice_index_get(self.data, self.pos);
            self.pos = self.pos + 1;
            Ok(b)
        } else {
            Err(Error::TruncatedInput)
        }
    }

    /// Read a 16-bit unsigned big-endian scalar.
    pub fn read_u16(&mut self) -> (r: Result<u16, Error>)
        requires
            old(self).wf(),
        ensures
            final(self).wf(),
            final(self).data@ == old(self).data@,
            match r {
                Ok(v) => old(self).spec_remaining() >= 2 && final(self).pos == old(self).pos + 2
                    && v as nat == be16(
                    old(self).data@.subrange(old(self).pos as int, old(self).pos + 2),
                ),
                Err(e) => e == Error::TruncatedInput && old(self).spec_remaining() < 2 && *final(self) == *old(self),
            },
    {
        if 2 <= self.data.len() - self.pos {
            let b0 = *slice_index_get(self.data, self.pos);
            let b1 = *slice_index_get(self.data, self.pos + 1);
            self.pos = self.pos + 2;
            let v: u16 = (b0 as u16) * 0x100 + (b1 as u16);
            proof {
                let s = old(self).data@.subrange(old(self).pos as int, old(self).pos + 2);
                assert(s[0] == b0 && s[1] == b1);
            }
            Ok(v)
        } else {
            Err(Error::TruncatedInput)
        }
    }

    /// Read a 32-bit unsigned big-endian scalar.
    pub fn read_u32(&mut self) -> (r: Result<u32, Error>)
        requires
            old(self).wf(),
        ensures
            final(self).wf(),
            final(self).data@ == old(self).data@,
            match r {
                Ok(v) => old(self).spec_remaining() >= 4 && final(self).pos == old(self).pos + 4
                    && v as nat == be32(
                    old(self).data@.subrange(old(self).pos as int, old(self).pos + 4),
                ),
                Err(e) => e == Error::TruncatedInput && old(self).spec_remaining() < 4 && *final(self) == *old(self),
            },
    {
        if 4 <= self.data.len() - self.pos {
            let b0 = *slice_index_get(self.data, self.pos);
            let b1 = *slice_index_get(self.data, self.pos + 1);
            let b2 = *slice_index_get(self.data, self.pos + 2);
            let b3 = *slice_index_get(self.data, self.pos + 3);
            self.pos = self.pos + 4;
            let v: u32 = (b0 as u32) * 0x100_0000 + (b1 as u32) * 0x1_0000 + (b2 as u32) * 0x100 + (
            b3 as u32);
            proof {
                let s = old(self).data@.subrange(old(self).pos as int, old(self).pos + 4);
                assert(s[0] == b0 && s[1] == b1 && s[2] == b2 && s[3] == b3);
            }
            Ok(v)
        } else {
            Err(Error::TruncatedInput)
        }
    }

    /// Read a 64-bit unsigned big-endian scalar.
    pub fn read_u64(&mut self) -> (r: Result<u64, Error>)
        requires
            old(self).wf(),
        ensures
            final(self).wf(),
            final(self).data@ == old(self).data@,
            match r {
                Ok(v) => old(self).spec_remaining() >= 8 && final(self).pos == old(self).pos + 8
                    && v as nat == be64(
                    old(self).data@.subrange(old(self).pos as int, old(self).pos + 8),
                ),
                Err(e) => e == Error::TruncatedInput && old(self).spec_remaining() < 8 && *final(self) == *old(self),
            },
    {
        if 8 <= self.data.len() - self.pos {
            let b0 = *slice_index_get(self.data, self.pos);
            let b1 = *slice_index_get(self.data, self.pos + 1);
            let b2 = *slice_index_get(self.data, self.pos + 2);
            let b3 = *slice_index_get(self.data, self.pos + 3);
            let b4 = *slice_index_get(self.data, self.pos + 4);
            let b5 = *slice_index_get(self.data, self.pos + 5);
            let b6 = *slice_index_get(self.data, self.pos + 6);
            let b7 = *slice_index_get(self.data, self.pos + 7);
            self.pos = self.pos + 8;
            let v: u64 = (b0 as u64) * 0x100_0000_0000_0000 + (b1 as u64) * 0x1_0000_0000_0000 + (
            b2 as u64) * 0x100_0000_0000 + (b3 as u64) * 0x1_0000_0000 + (b4 as u64) * 0x100_0000 + (
            b5 as u64) * 0x1_0000 + (b6 as u64) * 0x100 + (b7 as u64);
            proof {
                let s = old(self).data@.subrange(old(self).pos as int, old(self).pos + 8);
                assert(s[0] == b0 && s[1] == b1 && s[2] == b2 && s[3] == b3 && s[4] == b4 && s[5]
                    == b5 && s[6] == b6 && s[7] == b7);
            }
            Ok(v)
        } else {
            Err(Error::TruncatedInput)
        }
    }

    /// Read an 8-bit signed scalar.
    pub fn read_i8(&mut self) -> (r: Result<i8, Error>)
        requires
            old(self).wf(),
        ensures
            final(self).wf(),
            final(self).data@ == old(self).data@,
            match r {
                Ok(v) => old(self).spec_remaining() >= 1 && final(self).pos == old(self).pos + 1
                    && v as int == signed8(old(self).data@[old(self).pos as int] as nat),
                Err(e) => e == Error::TruncatedInput && old(self).spec_remaining() < 1 && *final(self) == *old(self),
            },
    {
        match self.read_u8() {
            Ok(u) => Ok(to_signed8(u)),
            Err(e) => Err(e),
        }
    }

    /// Read a 16-bit signed big-endian scalar.
    pub fn read_i16(&mut self) -> (r: Result<i16, Error>)
        requires
            old(self).wf(),
        ensures
            final(self).wf(),
            final(self).data@ == old(self).data@,
            match r {
                Ok(v) => old(self).spec_remaining() >= 2 && final(self).pos == old(self).pos + 2
                    && v as int == signed16(
                    be16(old(self).data@.subrange(old(self).pos as int, old(self).pos + 2)),
                ),
                Err(e) => e == Error::TruncatedInput && old(self).spec_remaining() < 2 && *final(self) == *old(self),
            },
    {
        match self.read_u16() {
            Ok(u) => Ok(to_signed16(u)),
            Err(e) => Err(e),
        }
    }

    /// Read a 32-bit signed big-endian scalar.
    pub fn read_i32(&mut self) -> (r: Result<i32, Error>)
        requires
            old(self).wf(),
        ensures
            final(self).wf(),
            final(self).data@ == old(self).data@,
            match r {
                Ok(v) => old(self).spec_remaining() >= 4 && final(self).pos == old(self).pos + 4
                    && v as int == signed32(
                    be32(old(self).data@.subrange(old(self).pos as int, old(self).pos + 4)),
                ),
                Err(e) => e == Error::TruncatedInput && old(self).spec_remaining() < 4 && *final(self) == *old(self),
            },
    {
        match self.read_u32() {
            Ok(u) => Ok(to_signed32(u)),
            Err(e) => Err(e),
        }
    }

    /// Read a 64-bit signed big-endian scalar.
    pub fn read_i64(&mut self) -> (r: Result<i64, Error>)
        requires
            old(self).wf(),
        ensures
            final(self).wf(),
            final(self).data@ == old(self).data@,
            match r {
                Ok(v) => old(self).spec_remaining() >= 8 && final(self).pos == old(self).pos + 8
                    && v as int == signed64(
                    be64(old(self).data@.subrange(old(self).pos as int, old(self).pos + 8)),
                ),
                Err(e) => e == Error::TruncatedInput && old(self).spec_remaining() < 8 && *final(self) == *old(self),
            },
    {
        match self.read_u64() {
            Ok(u) => Ok(to_signed64(u)),
            Err(e) => Err(e),
        }
    }
}

} // verus!
