//! Byte cursors for the codec. A read that runs past the end returns
//! `None`, which is what lets a decoder stop and resume at any byte.
use vstd::prelude::*;

verus! {

/// Big-endian register value at `s[i]`, `s[i + 1]`.
pub open spec fn be16(s: Seq<u8>, i: int) -> u16 {
    (s[i] as int * 256 + s[i + 1] as int) as u16
}

/// A read position over a byte slice.
pub struct ReadCtx<'a> {
    buffer: &'a [u8],
    pos: usize,
}

impl<'a> ReadCtx<'a> {
    /// All bytes under the cursor, read or not.
    pub closed spec fn bytes(&self) -> Seq<u8> {
        self.buffer@
    }

    /// Number of bytes read so far.
    pub closed spec fn pos(&self) -> nat {
        self.pos as nat
    }

    pub open spec fn wf(&self) -> bool {
        self.pos() <= self.bytes().len()
    }

    /// The bytes not yet read.
    pub open spec fn rest(&self) -> Seq<u8> {
        self.bytes().skip(self.pos() as int)
    }

    pub fn new(buffer: &'a [u8]) -> (r: ReadCtx<'a>)
        ensures
            r.wf(),
            r.bytes() == buffer@,
            r.pos() == 0,
    {
        ReadCtx { buffer, pos: 0 }
    }

    pub fn read_u8(&mut self) -> (r: Option<u8>)
        requires
            old(self).wf(),
        ensures
            final(self).wf(),
            final(self).bytes() == old(self).bytes(),
            old(self).pos() + 1 <= old(self).bytes().len() ==> r == Some(
                old(self).bytes()[old(self).pos() as int],
            ) && final(self).pos() == old(self).pos() + 1,
            old(self).pos() + 1 > old(self).bytes().len() ==> r is None && final(self).pos()
                == old(self).pos(),
    {
        if self.pos < self.buffer.len() {
            let v = self.buffer[self.pos];
            self.pos = self.pos + 1;
            Some(v)
        } else {
            None
        }
    }

    /// Two bytes, low byte first.
    pub fn read_u16(&mut self) -> (r: Option<u16>)
        requires
            old(self).wf(),
        ensures
            final(self).wf(),
            final(self).bytes() == old(self).bytes(),
            old(self).pos() + 2 <= old(self).bytes().len() ==> r == Some(
                (old(self).bytes()[old(self).pos() as int + 1] as int * 256 + old(self).bytes()[old(self).pos() as int] as int) as u16,
            ) && final(self).pos() == old(self).pos() + 2,
            old(self).pos() + 2 > old(self).bytes().len() ==> r is None && final(self).pos()
                == old(self).pos(),
    {
        if self.buffer.len() - self.pos >= 2 {
            let lo = self.buffer[self.pos];
            let hi = self.buffer[self.pos + 1];
            self.pos = self.pos + 2;
            Some(hi as u16 * 256 + lo as u16)
        } else {
            None
        }
    }

    /// Two bytes, high byte first.
    pub fn read_u16_be(&mut self) -> (r: Option<u16>)
        requires
            old(self).wf(),
        ensures
            final(self).wf(),
            final(self).bytes() == old(self).bytes(),
            old(self).pos() + 2 <= old(self).bytes().len() ==> r == Some(
                be16(old(self).bytes(), old(self).pos() as int),
            ) && final(self).pos() == old(self).pos() + 2,
            old(self).pos() + 2 > old(self).bytes().len() ==> r is None && final(self).pos()
                == old(self).pos(),
    {
        if self.buffer.len() - self.pos >= 2 {
            let hi = self.buffer[self.pos];
            let lo = self.buffer[self.pos + 1];
            self.pos = self.pos + 2;
            Some(hi as u16 * 256 + lo as u16)
        } else {
            None
        }
    }

    /// The `n` bytes at the position, which stays where it is.
    pub fn peek_bytes(&self, n: usize) -> (r: Option<Vec<u8>>)
        requires
            self.wf(),
        ensures
            self.pos() + n <= self.bytes().len() ==> r is Some && r->0@ == self.bytes().subrange(
                self.pos() as int,
                self.pos() + n,
            ),
            self.pos() + n > self.bytes().len() ==> r is None,
    {
        if self.buffer.len() - self.pos >= n {
            let mut out: Vec<u8> = Vec::new();
            let mut i: usize = 0;
            let blen = self.buffer.len();
            while i < n
                invariant
                    self.wf(),
                    blen == self.buffer@.len(),
                    self.pos + n <= self.buffer@.len(),
                    i <= n,
                    out@ == self.buffer@.subrange(self.pos as int, self.pos + i),
                decreases n - i,
            {
                out.push(self.buffer[self.pos + i]);
                i = i + 1;
                assert(out@ =~= self.buffer@.subrange(self.pos as int, self.pos + i));
            }
            Some(out)
        } else {
            None
        }
    }

    /// Moves the position past `n` bytes; `false`, with the position
    /// unchanged, if fewer remain.
    pub fn advance(&mut self, n: usize) -> (r: bool)
        requires
            old(self).wf(),
        ensures
            final(self).wf(),
            final(self).bytes() == old(self).bytes(),
            r == (old(self).pos() + n <= old(self).bytes().len()),
            r ==> final(self).pos() == old(self).pos() + n,
            !r ==> final(self).pos() == old(self).pos(),
    {
        if self.buffer.len() - self.pos >= n {
            self.pos = self.pos + n;
            true
        } else {
            false
        }
    }

    /// `n` bytes as they stand, read past.
    pub fn read_bytes(&mut self, n: usize) -> (r: Option<Vec<u8>>)
        requires
            old(self).wf(),
        ensures
            final(self).wf(),
            final(self).bytes() == old(self).bytes(),
            old(self).pos() + n <= old(self).bytes().len() ==> r is Some && r->0@ == old(self).bytes().subrange(old(self).pos() as int, old(self).pos() + n) && final(self).pos()
                == old(self).pos() + n,
            old(self).pos() + n > old(self).bytes().len() ==> r is None && final(self).pos()
                == old(self).pos(),
    {
        let r = self.peek_bytes(n);
        if r.is_some() {
            self.advance(n);
        }
        r
    }

    /// Number of bytes not yet read.
    pub fn remaining(&self) -> (r: usize)
        requires
            self.wf(),
        ensures
            r == self.bytes().len() - self.pos(),
    {
        self.buffer.len() - self.pos
    }

    /// Number of bytes read so far.
    pub fn processed(&self) -> (r: usize)
        ensures
            r == self.pos(),
    {
        self.pos
    }

    /// `Some(true)` when at least `size` bytes remain, else `None`.
    pub fn is_enough(&self, size: usize) -> (r: Option<bool>)
        requires
            self.wf(),
        ensures
            self.pos() + size <= self.bytes().len() ==> r == Some(true),
            self.pos() + size > self.bytes().len() ==> r is None,
    {
        if self.remaining() >= size {
            Some(true)
        } else {
            None
        }
    }

    /// The whole slice under the cursor, read or not.
    pub fn buffer(&self) -> (r: &'a [u8])
        ensures
            r@ == self.bytes(),
    {
        self.buffer
    }
}

/// A write position over a buffer of fixed length.
pub struct WriteCtx {
    buffer: Vec<u8>,
    pos: usize,
}

impl WriteCtx {
    /// The bytes written so far.
    pub closed spec fn written(&self) -> Seq<u8> {
        self.buffer@.subrange(0, self.pos as int)
    }

    /// Length of the buffer.
    pub closed spec fn capacity(&self) -> nat {
        self.buffer@.len()
    }

    /// All bytes of the buffer.
    pub closed spec fn contents(&self) -> Seq<u8> {
        self.buffer@
    }

    pub closed spec fn wf(&self) -> bool {
        self.pos <= self.buffer@.len()
    }

    pub fn new(buffer: Vec<u8>) -> (r: WriteCtx)
        ensures
            r.wf(),
            r.written() == Seq::<u8>::empty(),
            r.capacity() == buffer@.len(),
            r.contents() == buffer@,
    {
        let r = WriteCtx { buffer, pos: 0 };
        assert(r.written() =~= Seq::<u8>::empty());
        r
    }

    proof fn lemma_written_full(&self)
        requires
            self.wf(),
            self.written().len() == self.capacity(),
        ensures
            self.contents() == self.written(),
    {
        assert(self.buffer@.subrange(0, self.pos as int) =~= self.buffer@);
    }

    pub fn write_u8(&mut self, value: u8) -> (r: Option<()>)
        requires
            old(self).wf(),
        ensures
            final(self).wf(),
            final(self).capacity() == old(self).capacity(),
            old(self).written().len() < old(self).capacity() ==> r is Some && final(self).written()
                == old(self).written().push(value),
            old(self).written().len() >= old(self).capacity() ==> r is None && *final(self) == *old(self),
    {
        if self.pos < self.buffer.len() {
            let ghost before = self.buffer@;
            self.buffer.set(self.pos, value);
            assert(self.buffer@.subrange(0, self.pos + 1) =~= before.subrange(
                0,
                self.pos as int,
            ).push(value));
            self.pos = self.pos + 1;
            Some(())
        } else {
            None
        }
    }

    /// Two bytes, low byte first.
    pub fn write_u16(&mut self, value: u16) -> (r: Option<()>)
        requires
            old(self).wf(),
        ensures
            final(self).wf(),
            final(self).capacity() == old(self).capacity(),
            old(self).written().len() + 2 <= old(self).capacity() ==> r is Some && final(self).written() == old(self).written().push((value % 256) as u8).push((value / 256) as u8),
            old(self).written().len() + 2 > old(self).capacity() ==> r is None && *final(self) == *old(self),
    {
        if self.buffer.len() - self.pos >= 2 {
            self.write_u8((value % 256) as u8);
            self.write_u8((value / 256) as u8);
            Some(())
        } else {
            None
        }
    }

    /// Two bytes, high byte first.
    pub fn write_u16_be(&mut self, value: u16) -> (r: Option<()>)
        requires
            old(self).wf(),
        ensures
            final(self).wf(),
            final(self).capacity() == old(self).capacity(),
            old(self).written().len() + 2 <= old(self).capacity() ==> r is Some && final(self).written() == old(self).written().push((value / 256) as u8).push((value % 256) as u8),
            old(self).written().len() + 2 > old(self).capacity() ==> r is None && *final(self) == *old(self),
    {
        if self.buffer.len() - self.pos >= 2 {
            self.write_u8((value / 256) as u8);
            self.write_u8((value % 256) as u8);
            Some(())
        } else {
            None
        }
    }

    /// Writes `bytes` as they stand; `None` if they do not all fit, in
    /// which case those that fit are written and the buffer is full.
    pub fn write_bytes(&mut self, bytes: &[u8]) -> (r: Option<()>)
        requires
            old(self).wf(),
        ensures
            final(self).wf(),
            final(self).capacity() == old(self).capacity(),
            old(self).written().len() + bytes@.len() <= old(self).capacity() ==> r is Some
                && final(self).written() == old(self).written() + bytes@,
            old(self).written().len() + bytes@.len() > old(self).capacity() ==> r is None
                && final(self).written() == old(self).written() + bytes@.take(
                old(self).capacity() - old(self).written().len(),
            ) && final(self).written().len() == final(self).capacity(),
    {
        let mut i: usize = 0;
        while i < bytes.len()
            invariant
                self.wf(),
                i <= bytes@.len(),
                self.capacity() == old(self).capacity(),
                self.written() == old(self).written() + bytes@.subrange(0, i as int),
            decreases bytes@.len() - i,
        {
            if self.write_u8(bytes[i]).is_none() {
                assert(i == old(self).capacity() - old(self).written().len());
                assert(bytes@.subrange(0, i as int) =~= bytes@.take(i as int));
                return None;
            }
            assert(bytes@.subrange(0, i + 1) =~= bytes@.subrange(0, i as int).push(bytes@[i as int]));
            i = i + 1;
        }
        assert(bytes@.subrange(0, i as int) =~= bytes@);
        Some(())
    }

    /// Writes a buffer of registers held low byte first as big-endian
    /// registers: each pair of bytes changes places.
    pub fn write_data_u16_be(&mut self, values: &[u8]) -> (r: Option<()>)
        requires
            old(self).wf(),
            values@.len() % 2 == 0,
        ensures
            final(self).wf(),
            final(self).capacity() == old(self).capacity(),
            old(self).written().len() + values@.len() <= old(self).capacity() ==> r is Some
                && final(self).written() == old(self).written() + swap_pairs(values@),
            old(self).written().len() + values@.len() > old(self).capacity() ==> r is None
                && final(self).written() == old(self).written() + swap_pairs(values@).take(
                old(self).capacity() - old(self).written().len(),
            ) && final(self).written().len() == final(self).capacity(),
    {
        let vlen = values.len();
        let len = vlen / 2;
        let mut idx: usize = 0;
        while idx < len
            invariant
                self.wf(),
                vlen == values@.len(),
                len == values@.len() / 2,
                values@.len() % 2 == 0,
                idx <= len,
                self.capacity() == old(self).capacity(),
                self.written() == old(self).written() + swap_pairs(values@).subrange(0, 2 * idx),
            decreases len - idx,
        {
            let b1 = values[idx + idx];
            let b2 = values[idx + idx + 1];
            if self.write_u8(b2).is_none() {
                assert(swap_pairs(values@).subrange(0, 2 * idx) =~= swap_pairs(values@).take(
                    2 * idx,
                ));
                return None;
            }
            if self.write_u8(b1).is_none() {
                assert(swap_pairs(values@).subrange(0, 2 * idx).push(b2) =~= swap_pairs(
                    values@,
                ).take(2 * idx + 1));
                return None;
            }
            assert(swap_pairs(values@).subrange(0, 2 * idx + 2) =~= swap_pairs(values@).subrange(
                0,
                2 * idx,
            ).push(b2).push(b1));
            idx = idx + 1;
        }
        assert(swap_pairs(values@).subrange(0, 2 * idx) =~= swap_pairs(values@));
        Some(())
    }

    /// Number of bytes that still fit.
    pub fn remaining(&self) -> (r: usize)
        requires
            self.wf(),
        ensures
            r == self.capacity() - self.written().len(),
    {
        self.buffer.len() - self.pos
    }

    /// Number of bytes written so far.
    pub fn processed(&self) -> (r: usize)
        requires
            self.wf(),
        ensures
            r == self.written().len(),
    {
        self.pos
    }

    /// The whole buffer.
    pub fn buffer(&self) -> (r: &[u8])
        ensures
            r@ == self.contents(),
    {
        self.buffer.as_slice()
    }

    /// The bytes written so far.
    pub fn written_bytes(&self) -> (r: &[u8])
        requires
            self.wf(),
        ensures
            r@ == self.written(),
    {
        vstd::slice::slice_subrange(self.buffer.as_slice(), 0, self.pos)
    }

    /// `Some(true)` when at least `size` more bytes fit, else `None`.
    pub fn is_enough(&self, size: usize) -> (r: Option<bool>)
        requires
            self.wf(),
        ensures
            self.written().len() + size <= self.capacity() ==> r == Some(true),
            self.written().len() + size > self.capacity() ==> r is None,
    {
        if self.remaining() >= size {
            Some(true)
        } else {
            None
        }
    }

    /// Gives the buffer back; once it is full it holds exactly what was
    /// written.
    pub fn into_inner(self) -> (r: Vec<u8>)
        requires
            self.wf(),
        ensures
            r@ == self.contents(),
            self.written().len() == self.capacity() ==> r@ == self.written(),
    {
        proof {
            if self.written().len() == self.capacity() {
                self.lemma_written_full();
            }
        }
        self.buffer
    }
}

/// Each pair of bytes with its two bytes exchanged.
pub open spec fn swap_pairs(s: Seq<u8>) -> Seq<u8> {
    Seq::new(s.len(), |i: int| if i % 2 == 0 { s[i + 1] } else { s[i - 1] })
}

} // verus!
