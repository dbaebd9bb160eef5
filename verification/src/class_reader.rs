//! A cursor over the bytes of a class file, and the decoding of the
//! primitive items the class file format is built from.
use vstd::prelude::*;
use byteorder::{BigEndian, ByteOrder};
use crate::decode::{be16, be32, be64, in_bounds, sp_u8, sp_i8, sp_u16, sp_i16, sp_u32, sp_i32, sp_u64, sp_i64, repeat, lemma_repeat_err, sp_bytes, u16_decoder, decodes_as, views, Decoded};
use crate::error::ParseError;

verus! {

/// Reads two bytes of `buf` at `pos` as a big-endian `u16`.
///
/// Calls `<BigEndian as ByteOrder>::read_u16` on `buf[pos..]`, which reads the
/// first two bytes of the slice most significant first (it panics on fewer
/// than two bytes, which `requires` rules out). The contract claims that value.
#[verifier::external_body]
fn be_read_u16(buf: &[u8], pos: usize) -> (r: u16)
    requires
        pos + 2 <= buf@.len(),
    ensures
        r == be16(buf@[pos as int], buf@[pos + 1]),
{
    BigEndian::read_u16(&buf[pos..])
}

/// Reads four bytes of `buf` at `pos` as a big-endian `u32`.
///
/// Calls `<BigEndian as ByteOrder>::read_u32` on `buf[pos..]`, which reads the
/// first four bytes of the slice most significant first (it panics on fewer
/// than four bytes, which `requires` rules out). The contract claims that value.
#[verifier::external_body]
fn be_read_u32(buf: &[u8], pos: usize) -> (r: u32)
    requires
        pos + 4 <= buf@.len(),
    ensures
        r == be32(buf@[pos as int], buf@[pos + 1], buf@[pos + 2], buf@[pos + 3]),
{
    BigEndian::read_u32(&buf[pos..])
}

/// Reads eight bytes of `buf` at `pos` as a big-endian `u64`.
///
/// Calls `<BigEndian as ByteOrder>::read_u64` on `buf[pos..]`, which reads the
/// first eight bytes of the slice most significant first (it panics on fewer
/// than eight bytes, which `requires` rules out). The contract claims that value.
#[verifier::external_body]
fn be_read_u64(buf: &[u8], pos: usize) -> (r: u64)
    requires
        pos + 8 <= buf@.len(),
    ensures
        r == be64(buf@, pos as int),
{
    BigEndian::read_u64(&buf[pos..])
}

/// A cursor over a byte buffer.
pub struct ClassReader {
    /// The bytes being read.
    pub bytes: Vec<u8>,
    /// The position of the next byte to read.
    pub pos: usize,
}

/// Whether a reader method left the buffer as it was and, having started at
/// `p0` and stopped at `p1`, produced `r` as `spec` says.
pub open spec fn read_as<T: View>(
    old_r: ClassReader,
    new_r: ClassReader,
    r: Result<T, ParseError>,
    spec: Decoded<T::V>,
) -> bool {
    &&& new_r.bytes@ == old_r.bytes@
    &&& decodes_as(r, spec, new_r.pos as int)
}

/// Whether a reader method left the buffer as it was and produced the values
/// `r` whose mathematical values are what `spec` says.
pub open spec fn read_vec_as<T: View>(
    old_r: ClassReader,
    new_r: ClassReader,
    r: Result<Vec<T>, ParseError>,
    spec: Decoded<Seq<T::V>>,
) -> bool {
    &&& new_r.bytes@ == old_r.bytes@
    &&& match spec {
        Ok((v, q)) => r matches Ok(x) && views(x@) == v && new_r.pos == q,
        Err(e) => r matches Err(e2) && e2 == e,
    }
}

impl ClassReader {
    /// The bytes being read.
    pub open spec fn data(&self) -> Seq<u8> {
        self.bytes@
    }

    /// A reader positioned at the start of a copy of `buffer`.
    pub fn with_buffer(buffer: &[u8]) -> (r: ClassReader)
        ensures
            r.bytes@ == buffer@,
            r.pos == 0,
    {
        let mut bytes: Vec<u8> = Vec::new();
        let mut i: usize = 0;
        while i < buffer.len()
            invariant
                i <= buffer@.len(),
                bytes@ == buffer@.subrange(0, i as int),
            decreases buffer@.len() - i,
        {
            bytes.push(buffer[i]);
            i += 1;
            assert(bytes@ =~= buffer@.subrange(0, i as int));
        }
        assert(bytes@ =~= buffer@);
        ClassReader { bytes, pos: 0 }
    }

    /// The position of the next byte to read.
    pub fn position(&self) -> (p: usize)
        ensures
            p == self.pos,
    {
        self.pos
    }

    /// Whether `n` bytes are left to read.
    fn available(&self, n: usize) -> (b: bool)
        ensures
            b == in_bounds(self.bytes@, self.pos as int, n as int),
            b ==> self.pos + n <= self.bytes.len(),
    {
        self.bytes.len() >= n && self.pos <= self.bytes.len() - n
    }

    /// Moves past the next `n` bytes.
    pub fn skip(&mut self, n: usize) -> (r: Result<(), ParseError>)
        ensures
            final(self).bytes@ == old(self).bytes@,
            in_bounds(old(self).bytes@, old(self).pos as int, n as int) ==> (r is Ok
                && final(self).pos == old(self).pos + n),
            !in_bounds(old(self).bytes@, old(self).pos as int, n as int) ==> r == Err::<(), ParseError>(
                ParseError::UnexpectedEof,
            ),
    {
        if self.available(n) {
            self.pos = self.pos + n;
            Ok(())
        } else {
            Err(ParseError::UnexpectedEof)
        }
    }

    /// Reads a `u8`.
    pub fn read_u8(&mut self) -> (r: Result<u8, ParseError>)
        ensures
            read_as(*old(self), *final(self), r, sp_u8(old(self).bytes@, old(self).pos as int)),
    {
        if self.available(1) {
            let b = self.bytes[self.pos];
            self.pos = self.pos + 1;
            Ok(b)
        } else {
            Err(ParseError::UnexpectedEof)
        }
    }

    /// Reads an `i8`.
    pub fn read_i8(&mut self) -> (r: Result<i8, ParseError>)
        ensures
            read_as(*old(self), *final(self), r, sp_i8(old(self).bytes@, old(self).pos as int)),
    {
        if self.available(1) {
            let b = self.bytes[self.pos];
            self.pos = self.pos + 1;
            Ok(b as i8)
        } else {
            Err(ParseError::UnexpectedEof)
        }
    }

    /// Reads a big-endian `u16`.
    pub fn read_u16(&mut self) -> (r: Result<u16, ParseError>)
        ensures
            read_as(*old(self), *final(self), r, sp_u16(old(self).bytes@, old(self).pos as int)),
    {
        if self.available(2) {
            let v = be_read_u16(self.bytes.as_slice(), self.pos);
            self.pos = self.pos + 2;
            Ok(v)
        } else {
            Err(ParseError::UnexpectedEof)
        }
    }

    /// Reads a big-endian `i16`.
    pub fn read_i16(&mut self) -> (r: Result<i16, ParseError>)
        ensures
            read_as(*old(self), *final(self), r, sp_i16(old(self).bytes@, old(self).pos as int)),
    {
        if self.available(2) {
            let v = be_read_u16(self.bytes.as_slice(), self.pos);
            self.pos = self.pos + 2;
            Ok(v as i16)
        } else {
            Err(ParseError::UnexpectedEof)
        }
    }

    /// Reads a big-endian `u32`.
    pub fn read_u32(&mut self) -> (r: Result<u32, ParseError>)
        ensures
            read_as(*old(self), *final(self), r, sp_u32(old(self).bytes@, old(self).pos as int)),
    {
        if self.available(4) {
            let v = be_read_u32(self.bytes.as_slice(), self.pos);
            self.pos = self.pos + 4;
            Ok(v)
        } else {
            Err(ParseError::UnexpectedEof)
        }
    }

    /// Reads a big-endian `i32`.
    pub fn read_i32(&mut self) -> (r: Result<i32, ParseError>)
        ensures
            read_as(*old(self), *final(self), r, sp_i32(old(self).bytes@, old(self).pos as int)),
    {
        if self.available(4) {
            let v = be_read_u32(self.bytes.as_slice(), self.pos);
            self.pos = self.pos + 4;
            Ok(v as i32)
        } else {
            Err(ParseError::UnexpectedEof)
        }
    }

    /// Reads a big-endian `u64`.
    pub fn read_u64(&mut self) -> (r: Result<u64, ParseError>)
        ensures
            read_as(*old(self), *final(self), r, sp_u64(old(self).bytes@, old(self).pos as int)),
    {
        if self.available(8) {
            let v = be_read_u64(self.bytes.as_slice(), self.pos);
            self.pos = self.pos + 8;
            Ok(v)
        } else {
            Err(ParseError::UnexpectedEof)
        }
    }

    /// Reads a big-endian `i64`.
    pub fn read_i64(&mut self) -> (r: Result<i64, ParseError>)
        ensures
            read_as(*old(self), *final(self), r, sp_i64(old(self).bytes@, old(self).pos as int)),
    {
        if self.available(8) {
            let v = be_read_u64(self.bytes.as_slice(), self.pos);
            self.pos = self.pos + 8;
            Ok(v as i64)
        } else {
            Err(ParseError::UnexpectedEof)
        }
    }

    /// Reads the next `length` bytes without interpreting them.
    pub fn read_bytes(&mut self, length: usize) -> (r: Result<Vec<u8>, ParseError>)
        ensures
            read_as(*old(self), *final(self), r, sp_bytes(old(self).bytes@, old(self).pos as int, length as int)),
    {
        if !self.available(length) {
            return Err(ParseError::UnexpectedEof);
        }
        let ghost s = self.bytes@;
        let ghost p0 = self.pos as int;
        let mut v: Vec<u8> = Vec::new();
        let mut i: usize = 0;
        while i < length
            invariant
                self.bytes@ == s,
                s == old(self).bytes@,
                p0 == old(self).pos,
                p0 + length <= s.len(),
                i <= length,
                self.pos == p0 + i,
                self.bytes@.len() == self.bytes.len(),
                v@ == s.subrange(p0, p0 + i),
            decreases length - i,
        {
            let b = self.bytes[self.pos];
            self.pos = self.pos + 1;
            v.push(b);
            i += 1;
            assert(v@ =~= s.subrange(p0, p0 + i));
        }
        Ok(v)
    }

    /// Reads the next `length` big-endian `u16`s without interpreting them.
    pub fn read_u16s(&mut self, length: usize) -> (r: Result<Vec<u16>, ParseError>)
        ensures
            read_as(*old(self), *final(self), r, repeat(u16_decoder(), old(self).bytes@, old(self).pos as int, length as nat)),
    {
        let ghost s = self.bytes@;
        let ghost p0 = self.pos as int;
        let mut v: Vec<u16> = Vec::new();
        let mut i: usize = 0;
        while i < length
            invariant
                self.bytes@ == s,
                s == old(self).bytes@,
                p0 == old(self).pos,
                i <= length,
                repeat(u16_decoder(), s, p0, i as nat) == Ok::<(Seq<u16>, int), ParseError>((v@, self.pos as int)),
            decreases length - i,
        {
            let ghost q = self.pos as int;
            let ghost prev = v@;
            match self.read_u16() {
                Ok(b) => {
                    v.push(b);
                },
                Err(e) => {
                    proof {
                        assert(repeat(u16_decoder(), s, p0, (i + 1) as nat) == Err::<(Seq<u16>, int), ParseError>(e));
                        lemma_repeat_err(u16_decoder(), s, p0, (i + 1) as nat, length as nat);
                    }
                    return Err(e);
                },
            }
            i += 1;
        }
        Ok(v)
    }
}

/// Checks that a reader stopped exactly where an item of declared length
/// should end.
pub fn validate_cursor(curr: u64, expect: u64) -> (r: Result<(), ParseError>)
    ensures
        r == (if curr == expect {
            Ok::<(), ParseError>(())
        } else {
            Err(ParseError::InvalidCursor)
        }),
{
    if curr != expect {
        return Err(ParseError::InvalidCursor);
    }
    Ok(())
}

} // verus!
