use crate::error::Error;
use vstd::prelude::*;

verus! {

/// The unsigned 16-bit little-endian value of `b[i..i + 2]`.
pub open spec fn u16_le(b: Seq<u8>, i: int) -> int {
    b[i] as int + 256 * b[i + 1]
}

/// The unsigned 32-bit little-endian value of `b[i..i + 4]`.
pub open spec fn u32_le(b: Seq<u8>, i: int) -> int {
    b[i] as int + 256 * b[i + 1] + 65536 * b[i + 2] + 16777216 * b[i + 3]
}

/// A byte read as a two's complement signed value.
pub open spec fn i8_of(x: u8) -> int {
    if x >= 128 { x - 256 } else { x as int }
}

/// The signed (two's complement) 16-bit little-endian value of `b[i..i + 2]`.
pub open spec fn i16_le(b: Seq<u8>, i: int) -> int {
    let u = u16_le(b, i);
    if u >= 0x8000 { u - 0x1_0000 } else { u }
}

/// The signed (two's complement) 32-bit little-endian value of `b[i..i + 4]`.
pub open spec fn i32_le(b: Seq<u8>, i: int) -> int {
    let u = u32_le(b, i);
    if u >= 0x8000_0000 { u - 0x1_0000_0000 } else { u }
}

/// A forward-only cursor over an owned byte buffer.
///
/// Every read either consumes exactly the bytes it decodes, or fails.
pub struct ByteReader {
    data: Vec<u8>,
    pos: usize,
}

impl ByteReader {
    /// The whole input, consumed or not.
    pub closed spec fn bytes(&self) -> Seq<u8> {
        self.data@
    }

    /// How many bytes have been consumed.
    pub closed spec fn position(&self) -> int {
        self.pos as int
    }

    pub open spec fn wf(&self) -> bool {
        0 <= self.position() <= self.bytes().len()
    }

    /// How many bytes are left to read.
    pub open spec fn remaining(&self) -> int {
        self.bytes().len() - self.position()
    }

    /// Whether `self` is `before` advanced by `n` bytes over the same input.
    pub open spec fn advanced(&self, before: &ByteReader, n: int) -> bool {
        &&& self.wf()
        &&& self.bytes() == before.bytes()
        &&& self.position() == before.position() + n
    }

    pub fn new(data: Vec<u8>) -> (r: ByteReader)
        ensures
            r.wf(),
            r.bytes() == data@,
            r.position() == 0,
    {
        ByteReader { data, pos: 0 }
    }

    /// The number of bytes consumed so far.
    pub fn offset(&self) -> (r: usize)
        ensures
            r == self.position(),
    {
        self.pos
    }

    /// The number of bytes not yet consumed.
    pub fn len_remaining(&self) -> (r: usize)
        requires
            self.wf(),
        ensures
            r == self.remaining(),
    {
        self.data.len() - self.pos
    }

    /// Consumes the next `n` bytes and returns them.
    pub fn read_exact(&mut self, n: usize) -> (r: Result<Vec<u8>, Error>)
        requires
            old(self).wf(),
        ensures
            n <= old(self).remaining() ==> {
                &&& final(self).advanced(old(self), n as int)
                &&& r is Ok
                &&& r->Ok_0@ == old(self).bytes().subrange(
                    old(self).position(),
                    old(self).position() + n,
                )
            },
            n > old(self).remaining() ==> r == Err::<Vec<u8>, Error>(Error::UnexpectedEof)
                && final(self).advanced(old(self), 0),
    {
        if n > self.data.len() - self.pos {
            return Err(Error::UnexpectedEof);
        }
        let mut out: Vec<u8> = Vec::with_capacity(n);
        let mut i: usize = 0;
        while i < n
            invariant
                self.wf(),
                n <= self.remaining(),
                self.pos + n <= self.data.len(),
                i <= n,
                out@ == self.bytes().subrange(self.position(), self.position() + i),
            decreases n - i,
        {
            out.push(self.data[self.pos + i]);
            i = i + 1;
            proof {
                assert(out@ =~= self.bytes().subrange(self.position(), self.position() + i));
            }
        }
        self.pos = self.pos + n;
        Ok(out)
    }

    /// Consumes one byte.
    pub fn read_u8(&mut self) -> (r: Result<u8, Error>)
        requires
            old(self).wf(),
        ensures
            old(self).remaining() >= 1 ==> final(self).advanced(old(self), 1) && r == Ok::<u8, Error>(
                old(self).bytes()[old(self).position()],
            ),
            old(self).remaining() < 1 ==> r == Err::<u8, Error>(Error::UnexpectedEof)
                && final(self).advanced(old(self), 0),
    {
        if self.pos >= self.data.len() {
            return Err(Error::UnexpectedEof);
        }
        let b = self.data[self.pos];
        self.pos = self.pos + 1;
        Ok(b)
    }
    /// Consumes one byte, read as a signed value.
    pub fn read_i8(&mut self) -> (r: Result<i8, Error>)
        requires
            old(self).wf(),
        ensures
            old(self).remaining() >= 1 ==> final(self).advanced(old(self), 1) && r is Ok
                && r->Ok_0 as int == i8_of(old(self).bytes()[old(self).position()]),
            old(self).remaining() < 1 ==> r == Err::<i8, Error>(Error::UnexpectedEof)
                && final(self).advanced(old(self), 0),
    {
        let b = self.read_u8()?;
        if b >= 128 {
            Ok((b as i16 - 256) as i8)
        } else {
            Ok(b as i8)
        }
    }

    /// Consumes two bytes, read as an unsigned little-endian value.
    pub fn read_u16_le(&mut self) -> (r: Result<u16, Error>)
        requires
            old(self).wf(),
        ensures
            old(self).remaining() >= 2 ==> final(self).advanced(old(self), 2) && r is Ok
                && r->Ok_0 as int == u16_le(old(self).bytes(), old(self).position()),
            old(self).remaining() < 2 ==> r == Err::<u16, Error>(Error::UnexpectedEof)
                && final(self).advanced(old(self), 0),
    {
        if self.data.len() - self.pos < 2 {
            return Err(Error::UnexpectedEof);
        }
        let p = self.pos;
        let v = self.data[p] as u16 + 256 * (self.data[p + 1] as u16);
        self.pos = p + 2;
        Ok(v)
    }

    /// Consumes two bytes, read as a signed little-endian value.
    pub fn read_i16_le(&mut self) -> (r: Result<i16, Error>)
        requires
            old(self).wf(),
        ensures
            old(self).remaining() >= 2 ==> final(self).advanced(old(self), 2) && r is Ok
                && r->Ok_0 as int == i16_le(old(self).bytes(), old(self).position()),
            old(self).remaining() < 2 ==> r == Err::<i16, Error>(Error::UnexpectedEof)
                && final(self).advanced(old(self), 0),
    {
        let u = self.read_u16_le()?;
        if u >= 0x8000 {
            Ok((u as i32 - 0x1_0000) as i16)
        } else {
            Ok(u as i16)
        }
    }

    /// Consumes four bytes, read as an unsigned little-endian value.
    pub fn read_u32_le(&mut self) -> (r: Result<u32, Error>)
        requires
            old(self).wf(),
        ensures
            old(self).remaining() >= 4 ==> final(self).advanced(old(self), 4) && r is Ok
                && r->Ok_0 as int == u32_le(old(self).bytes(), old(self).position()),
            old(self).remaining() < 4 ==> r == Err::<u32, Error>(Error::UnexpectedEof)
                && final(self).advanced(old(self), 0),
    {
        if self.data.len() - self.pos < 4 {
            return Err(Error::UnexpectedEof);
        }
        let p = self.pos;
        let v = self.data[p] as u32 + 256 * (self.data[p + 1] as u32) + 65536 * (
        self.data[p + 2] as u32) + 16777216 * (self.data[p + 3] as u32);
        self.pos = p + 4;
        Ok(v)
    }

    /// Consumes four bytes, read as a signed little-endian value.
    pub fn read_i32_le(&mut self) -> (r: Result<i32, Error>)
        requires
            old(self).wf(),
        ensures
            old(self).remaining() >= 4 ==> final(self).advanced(old(self), 4) && r is Ok
                && r->Ok_0 as int == i32_le(old(self).bytes(), old(self).position()),
            old(self).remaining() < 4 ==> r == Err::<i32, Error>(Error::UnexpectedEof)
                && final(self).advanced(old(self), 0),
    {
        let u = self.read_u32_le()?;
        if u >= 0x8000_0000 {
            Ok((u as i64 - 0x1_0000_0000) as i32)
        } else {
            Ok(u as i32)
        }
    }
    /// The bit pattern of the `k`-th little-endian 32-bit float after the
    /// cursor. Floats are carried as bit patterns; a caller turns them into
    /// its own vector type.
    pub open spec fn float_bits_at(&self, k: int) -> int {
        u32_le(self.bytes(), self.position() + 4 * k)
    }

    /// Consumes two little-endian floats, returned as their bit patterns.
    pub fn read_vec2(&mut self) -> (r: Result<[u32; 2], Error>)
        requires
            old(self).wf(),
        ensures
            old(self).remaining() >= 8 ==> final(self).advanced(old(self), 8) && r is Ok
                && forall|k: int| 0 <= k < 2 ==> r->Ok_0[k] as int == old(self).float_bits_at(k),
            old(self).remaining() < 8 ==> r is Err && r->Err_0 == Error::UnexpectedEof,
    {
        let x = self.read_u32_le()?;
        let y = self.read_u32_le()?;
        Ok([x, y])
    }

    /// Consumes three little-endian floats, returned as their bit patterns.
    pub fn read_vec3(&mut self) -> (r: Result<[u32; 3], Error>)
        requires
            old(self).wf(),
        ensures
            old(self).remaining() >= 12 ==> final(self).advanced(old(self), 12) && r is Ok
                && forall|k: int| 0 <= k < 3 ==> r->Ok_0[k] as int == old(self).float_bits_at(k),
            old(self).remaining() < 12 ==> r is Err && r->Err_0 == Error::UnexpectedEof,
    {
        let x = self.read_u32_le()?;
        let y = self.read_u32_le()?;
        let z = self.read_u32_le()?;
        Ok([x, y, z])
    }

    /// Consumes four little-endian floats, returned as their bit patterns.
    pub fn read_vec4(&mut self) -> (r: Result<[u32; 4], Error>)
        requires
            old(self).wf(),
        ensures
            old(self).remaining() >= 16 ==> final(self).advanced(old(self), 16) && r is Ok
                && forall|k: int| 0 <= k < 4 ==> r->Ok_0[k] as int == old(self).float_bits_at(k),
            old(self).remaining() < 16 ==> r is Err && r->Err_0 == Error::UnexpectedEof,
    {
        let x = self.read_u32_le()?;
        let y = self.read_u32_le()?;
        let z = self.read_u32_le()?;
        let w = self.read_u32_le()?;
        Ok([x, y, z, w])
    }
}

} // verus!
