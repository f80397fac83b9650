//! A source of bytes held in memory, with a read position, and the
//! primitive reads of the decoder.

use crate::endian::{read_le_u128, read_le_u16, read_le_u32};
use crate::error::Error;
use crate::fourcc::FourCC;
use crate::grammar::{readable, tag_at, u128_at, u16_at, u32_at};
use vstd::prelude::*;
use vstd::slice::{slice_subrange, slice_to_vec};

verus! {

/// What a `ByteCursor` stands for in contracts: all the bytes of the source
/// and the position of the next read.
pub struct Source {
    pub bytes: Seq<u8>,
    pub pos: int,
}

impl Source {
    /// The position lies within the bytes, or just after the last one.
    pub open spec fn wf(self) -> bool {
        0 <= self.pos <= self.bytes.len()
    }

    /// The same bytes, read from `pos` on.
    pub open spec fn at(self, pos: int) -> Source {
        Source { bytes: self.bytes, pos }
    }

    /// The same bytes, with nothing left to read.
    pub open spec fn at_end(self) -> Source {
        Source { bytes: self.bytes, pos: self.bytes.len() as int }
    }
}

/// A byte source in memory. Reads take bytes at the position and move it
/// forward; a read that asks for more than is left fails and leaves the
/// position at the end of the source.
#[derive(Debug)]
pub struct ByteCursor {
    bytes: Vec<u8>,
    pos: usize,
}

impl View for ByteCursor {
    type V = Source;

    closed spec fn view(&self) -> Source {
        Source { bytes: self.bytes@, pos: self.pos as int }
    }
}

impl ByteCursor {
    #[verifier::type_invariant]
    spec fn in_bounds(&self) -> bool {
        self.pos <= self.bytes@.len()
    }

    /// A cursor at the start of `bytes`.
    pub fn new(bytes: Vec<u8>) -> (cursor: ByteCursor)
        ensures
            cursor@ == (Source { bytes: bytes@, pos: 0 }),
    {
        ByteCursor { bytes, pos: 0 }
    }

    /// The position of the next read.
    pub fn position(&self) -> (pos: usize)
        ensures
            pos == self@.pos,
            self@.wf(),
    {
        proof {
            use_type_invariant(self);
        }
        self.pos
    }

    /// All the bytes of the source, read or not.
    pub fn get_ref(&self) -> (bytes: &Vec<u8>)
        ensures
            bytes@ == self@.bytes,
    {
        &self.bytes
    }

    /// Gives the bytes back.
    pub fn into_inner(self) -> (bytes: Vec<u8>)
        ensures
            bytes@ == self@.bytes,
    {
        self.bytes
    }

    /// Reads exactly `n` bytes.
    pub fn read_exact(&mut self, n: usize) -> (r: Result<Vec<u8>, Error>)
        ensures
            final(self)@.wf(),
            match r {
                Ok(data) => {
                    &&& readable(old(self)@.bytes, old(self)@.pos, n as int)
                    &&& data@ == old(self)@.bytes.subrange(old(self)@.pos, old(self)@.pos + n)
                    &&& final(self)@ == old(self)@.at(old(self)@.pos + n)
                },
                Err(e) => {
                    &&& !readable(old(self)@.bytes, old(self)@.pos, n as int)
                    &&& e == Error::IOError
                    &&& final(self)@ == old(self)@.at_end()
                },
            },
    {
        proof {
            use_type_invariant(&*self);
        }
        if n > self.bytes.len() - self.pos {
            self.pos = self.bytes.len();
            return Err(Error::IOError);
        }
        let data = slice_to_vec(slice_subrange(self.bytes.as_slice(), self.pos, self.pos + n));
        self.pos = self.pos + n;
        Ok(data)
    }

    /// Reads a 16-bit little-endian number.
    pub fn read_u16(&mut self) -> (r: Result<u16, Error>)
        ensures
            final(self)@.wf(),
            match r {
                Ok(value) => {
                    &&& readable(old(self)@.bytes, old(self)@.pos, 2)
                    &&& value == u16_at(old(self)@.bytes, old(self)@.pos)
                    &&& final(self)@ == old(self)@.at(old(self)@.pos + 2)
                },
                Err(e) => {
                    &&& !readable(old(self)@.bytes, old(self)@.pos, 2)
                    &&& e == Error::IOError
                    &&& final(self)@ == old(self)@.at_end()
                },
            },
    {
        proof {
            use_type_invariant(&*self);
        }
        if 2 > self.bytes.len() - self.pos {
            self.pos = self.bytes.len();
            return Err(Error::IOError);
        }
        let buf = slice_subrange(self.bytes.as_slice(), self.pos, self.pos + 2);
        proof {
            assert(buf@.subrange(0, 2) =~= buf@);
        }
        let value = read_le_u16(buf);
        self.pos = self.pos + 2;
        Ok(value)
    }

    /// Reads a 32-bit little-endian number.
    pub fn read_u32(&mut self) -> (r: Result<u32, Error>)
        ensures
            final(self)@.wf(),
            match r {
                Ok(value) => {
                    &&& readable(old(self)@.bytes, old(self)@.pos, 4)
                    &&& value == u32_at(old(self)@.bytes, old(self)@.pos)
                    &&& final(self)@ == old(self)@.at(old(self)@.pos + 4)
                },
                Err(e) => {
                    &&& !readable(old(self)@.bytes, old(self)@.pos, 4)
                    &&& e == Error::IOError
                    &&& final(self)@ == old(self)@.at_end()
                },
            },
    {
        proof {
            use_type_invariant(&*self);
        }
        if 4 > self.bytes.len() - self.pos {
            self.pos = self.bytes.len();
            return Err(Error::IOError);
        }
        let buf = slice_subrange(self.bytes.as_slice(), self.pos, self.pos + 4);
        proof {
            assert(buf@.subrange(0, 4) =~= buf@);
        }
        let value = read_le_u32(buf);
        self.pos = self.pos + 4;
        Ok(value)
    }

    /// Reads a 128-bit little-endian number.
    pub fn read_u128(&mut self) -> (r: Result<u128, Error>)
        ensures
            final(self)@.wf(),
            match r {
                Ok(value) => {
                    &&& readable(old(self)@.bytes, old(self)@.pos, 16)
                    &&& value == u128_at(old(self)@.bytes, old(self)@.pos)
                    &&& final(self)@ == old(self)@.at(old(self)@.pos + 16)
                },
                Err(e) => {
                    &&& !readable(old(self)@.bytes, old(self)@.pos, 16)
                    &&& e == Error::IOError
                    &&& final(self)@ == old(self)@.at_end()
                },
            },
    {
        proof {
            use_type_invariant(&*self);
        }
        if 16 > self.bytes.len() - self.pos {
            self.pos = self.bytes.len();
            return Err(Error::IOError);
        }
        let buf = slice_subrange(self.bytes.as_slice(), self.pos, self.pos + 16);
        proof {
            assert(buf@.subrange(0, 16) =~= buf@);
        }
        let value = read_le_u128(buf);
        self.pos = self.pos + 16;
        Ok(value)
    }

    /// Reads a tag and classifies it.
    pub fn read_fourcc(&mut self) -> (r: Result<FourCC, Error>)
        ensures
            final(self)@.wf(),
            match r {
                Ok(tag) => {
                    &&& readable(old(self)@.bytes, old(self)@.pos, 4)
                    &&& tag@ == tag_at(old(self)@.bytes, old(self)@.pos)
                    &&& final(self)@ == old(self)@.at(old(self)@.pos + 4)
                },
                Err(e) => {
                    &&& !readable(old(self)@.bytes, old(self)@.pos, 4)
                    &&& e == Error::IOError
                    &&& final(self)@ == old(self)@.at_end()
                },
            },
    {
        proof {
            use_type_invariant(&*self);
        }
        if 4 > self.bytes.len() - self.pos {
            self.pos = self.bytes.len();
            return Err(Error::IOError);
        }
        let tag = FourCC::from(slice_subrange(self.bytes.as_slice(), self.pos, self.pos + 4));
        self.pos = self.pos + 4;
        Ok(tag)
    }

    /// Reads the tag at the position and puts the position back where it
    /// was, so that the next read sees the same tag.
    pub fn peek_fourcc(&mut self) -> (r: Result<FourCC, Error>)
        ensures
            final(self)@.wf(),
            match r {
                Ok(tag) => {
                    &&& readable(old(self)@.bytes, old(self)@.pos, 4)
                    &&& tag@ == tag_at(old(self)@.bytes, old(self)@.pos)
                    &&& final(self)@ == old(self)@
                },
                Err(e) => {
                    &&& !readable(old(self)@.bytes, old(self)@.pos, 4)
                    &&& e == Error::IOError
                    &&& final(self)@ == old(self)@.at_end()
                },
            },
    {
        let start = self.pos;
        match self.read_fourcc() {
            Ok(tag) => {
                self.pos = start;
                Ok(tag)
            },
            Err(e) => Err(e),
        }
    }

    /// Whether the next four bytes spell a tag that the decoder knows. The
    /// position stays where it was.
    pub fn read_is_fourcc(&mut self) -> (r: Result<bool, Error>)
        ensures
            final(self)@.wf(),
            match r {
                Ok(known) => {
                    &&& readable(old(self)@.bytes, old(self)@.pos, 4)
                    &&& known == tag_at(old(self)@.bytes, old(self)@.pos).is_known()
                    &&& final(self)@ == old(self)@
                },
                Err(e) => {
                    &&& !readable(old(self)@.bytes, old(self)@.pos, 4)
                    &&& e == Error::IOError
                    &&& final(self)@ == old(self)@.at_end()
                },
            },
    {
        match self.peek_fourcc() {
            Ok(tag) => Ok(tag.is_known()),
            Err(e) => Err(e),
        }
    }

    /// Reads whatever is left, up to the end of the source.
    pub fn read_to_end(&mut self) -> (data: Vec<u8>)
        ensures
            old(self)@.wf(),
            data@ == old(self)@.bytes.subrange(old(self)@.pos, old(self)@.bytes.len() as int),
            final(self)@ == old(self)@.at_end(),
    {
        proof {
            use_type_invariant(&*self);
        }
        let data = slice_to_vec(
            slice_subrange(self.bytes.as_slice(), self.pos, self.bytes.len()),
        );
        self.pos = self.bytes.len();
        data
    }
}

} // verus!
