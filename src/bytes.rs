//! Sequential reads of fixed-width little-endian fields from a byte slice.
use crate::error::Error;
use vstd::prelude::*;

verus! {

/// The unsigned integer that four bytes encode, least significant first.
pub open spec fn le_u32(b: Seq<u8>) -> u32
    recommends
        b.len() == 4,
{
    (b[0] as int + b[1] as int * 0x100 + b[2] as int * 0x1_0000 + b[3] as int * 0x100_0000) as u32
}

/// The four bytes that encode `x`, least significant first.
pub open spec fn u32_le(x: u32) -> Seq<u8> {
    seq![
        (x % 0x100) as u8,
        ((x / 0x100) % 0x100) as u8,
        ((x / 0x1_0000) % 0x100) as u8,
        (x / 0x100_0000) as u8,
    ]
}

/// Decoding the encoding of an integer gives the integer back.
pub proof fn lemma_le_u32_of_u32_le(x: u32)
    ensures
        le_u32(u32_le(x)) == x,
{
    let b = u32_le(x);
    assert(b[0] as int == x % 0x100);
    assert(b[1] as int == (x / 0x100) % 0x100);
    assert(b[2] as int == (x / 0x1_0000) % 0x100);
    assert(b[3] as int == x / 0x100_0000);
    assert(x as int == x % 0x100 + ((x / 0x100) % 0x100) * 0x100 + ((x / 0x1_0000) % 0x100)
        * 0x1_0000 + (x / 0x100_0000) * 0x100_0000) by (nonlinear_arith);
}

/// Encodes `x` as four bytes, least significant first.
pub fn u32_to_le(x: u32) -> (r: [u8; 4])
    ensures
        r@ == u32_le(x),
{
    let r = [(x % 0x100) as u8, ((x / 0x100) % 0x100) as u8, ((x / 0x1_0000) % 0x100) as u8, (x
        / 0x100_0000) as u8];
    assert(r@ =~= u32_le(x));
    r
}

/// The unsigned integer that the two bytes at offset `p` of `b` encode, least
/// significant first.
pub open spec fn le_u16(b: Seq<u8>, p: int) -> u16 {
    (b[p] as int + b[p + 1] as int * 0x100) as u16
}

/// The little-endian `u16` at offset `p` of `b`.
pub fn u16_at(b: &[u8], p: usize) -> (r: u16)
    requires
        p + 2 <= b@.len(),
    ensures
        r == le_u16(b@, p as int),
{
    b[p] as u16 + b[p + 1] as u16 * 0x100
}

/// The little-endian `u32` at offset `p` of `b`.
pub fn u32_at(b: &[u8], p: usize) -> (r: u32)
    requires
        p + 4 <= b@.len(),
    ensures
        r == le_u32(b@.subrange(p as int, p + 4)),
{
    b[p] as u32 + b[p + 1] as u32 * 0x100 + b[p + 2] as u32 * 0x1_0000 + b[p + 3] as u32
        * 0x100_0000
}

/// A position in a byte slice, advanced by each read.
pub struct Cursor<'a> {
    pub bytes: &'a [u8],
    pub pos: usize,
}

impl<'a> Cursor<'a> {
    /// The cursor lies within its slice.
    pub open spec fn wf(&self) -> bool {
        self.pos <= self.bytes@.len()
    }

    /// The bytes not read yet.
    pub open spec fn rest(&self) -> Seq<u8> {
        self.bytes@.subrange(self.pos as int, self.bytes@.len() as int)
    }

    /// A cursor at the start of `bytes`.
    pub fn new(bytes: &'a [u8]) -> (r: Cursor<'a>)
        ensures
            r.wf(),
            r.bytes@ == bytes@,
            r.pos == 0,
    {
        Cursor { bytes, pos: 0 }
    }

    /// How many bytes are left to read.
    pub fn remaining(&self) -> (r: usize)
        requires
            self.wf(),
        ensures
            r == self.rest().len(),
    {
        self.bytes.len() - self.pos
    }

    /// Reads exactly `n` bytes, or fails with `Truncated` and reads nothing.
    pub fn read_exact(&mut self, n: usize) -> (r: Result<Vec<u8>, Error>)
        requires
            old(self).wf(),
        ensures
            final(self).wf(),
            final(self).bytes@ == old(self).bytes@,
            n <= old(self).rest().len() ==> r is Ok && r->Ok_0@ == old(self).rest().take(n as int)
                && final(self).pos == old(self).pos + n,
            n > old(self).rest().len() ==> r == Err::<Vec<u8>, Error>(Error::Truncated)
                && final(self).pos == old(self).pos,
    {
        if n > self.bytes.len() - self.pos {
            return Err(Error::Truncated);
        }
        let start = self.pos;
        let bytes = self.bytes;
        let len = bytes.len();
        let mut out: Vec<u8> = Vec::with_capacity(n);
        let mut i: usize = 0;
        while i < n
            invariant
                start + n <= len,
                len == bytes@.len(),
                bytes@ == old(self).bytes@,
                i <= n,
                out@ == bytes@.subrange(start as int, start + i),
            decreases n - i,
        {
            out.push(bytes[start + i]);
            i = i + 1;
            assert(out@ =~= bytes@.subrange(start as int, start + i));
        }
        self.pos = start + n;
        assert(out@ =~= old(self).rest().take(n as int));
        Ok(out)
    }

    /// Reads the rest of the slice.
    pub fn read_to_end(&mut self) -> (r: Vec<u8>)
        requires
            old(self).wf(),
        ensures
            final(self).wf(),
            final(self).bytes@ == old(self).bytes@,
            r@ == old(self).rest(),
            final(self).pos == old(self).bytes@.len(),
    {
        let n = self.bytes.len() - self.pos;
        let r = self.read_exact(n);
        match r {
            Ok(v) => {
                assert(v@ =~= old(self).rest());
                v
            },
            Err(_) => Vec::new(),
        }
    }

    /// Reads four bytes as a little-endian `u32`.
    pub fn read_u32_le(&mut self) -> (r: Result<u32, Error>)
        requires
            old(self).wf(),
        ensures
            final(self).wf(),
            final(self).bytes@ == old(self).bytes@,
            4 <= old(self).rest().len() ==> r == Ok::<u32, Error>(le_u32(old(self).rest().take(4)))
                && final(self).pos == old(self).pos + 4,
            4 > old(self).rest().len() ==> r == Err::<u32, Error>(Error::Truncated)
                && final(self).pos == old(self).pos,
    {
        if self.bytes.len() - self.pos < 4 {
            return Err(Error::Truncated);
        }
        let p = self.pos;
        let v = self.bytes[p] as u32 + self.bytes[p + 1] as u32 * 0x100 + self.bytes[p + 2] as u32
            * 0x1_0000 + self.bytes[p + 3] as u32 * 0x100_0000;
        self.pos = p + 4;
        proof {
            let t = old(self).rest().take(4);
            assert(t[0] == self.bytes@[p as int]);
            assert(t[1] == self.bytes@[p + 1]);
            assert(t[2] == self.bytes@[p + 2]);
            assert(t[3] == self.bytes@[p + 3]);
        }
        Ok(v)
    }

    /// Reads four bytes as they stand.
    pub fn read_tag(&mut self) -> (r: Result<[u8; 4], Error>)
        requires
            old(self).wf(),
        ensures
            final(self).wf(),
            final(self).bytes@ == old(self).bytes@,
            4 <= old(self).rest().len() ==> r is Ok && r->Ok_0@ == old(self).rest().take(4)
                && final(self).pos == old(self).pos + 4,
            4 > old(self).rest().len() ==> r == Err::<[u8; 4], Error>(Error::Truncated)
                && final(self).pos == old(self).pos,
    {
        if self.bytes.len() - self.pos < 4 {
            return Err(Error::Truncated);
        }
        let p = self.pos;
        let t = [self.bytes[p], self.bytes[p + 1], self.bytes[p + 2], self.bytes[p + 3]];
        self.pos = p + 4;
        assert(t@ =~= old(self).rest().take(4));
        Ok(t)
    }
}

} // verus!
