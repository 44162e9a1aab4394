//! Producers of PDU payloads: each reports how many objects it holds and
//! writes them, in the layout of a data buffer, into a destination.
use vstd::prelude::*;

use crate::checks::{coils_len, get_coils_len, get_registers_len};
use crate::context::{swap_pairs, ReadCtx};

verus! {

/// Copies `src` into the front of `dst`, leaving the rest of `dst` as it was.
fn copy_into(dst: &mut Vec<u8>, src: &[u8])
    requires
        old(dst)@.len() >= src@.len(),
    ensures
        final(dst)@ == src@ + old(dst)@.skip(src@.len() as int),
{
    let mut i: usize = 0;
    while i < src.len()
        invariant
            i <= src@.len(),
            src@.len() <= old(dst)@.len(),
            dst@.len() == old(dst)@.len(),
            dst@ == src@.subrange(0, i as int) + old(dst)@.skip(i as int),
        decreases src@.len() - i,
    {
        dst.set(i, src[i]);
        i = i + 1;
        assert(dst@ =~= src@.subrange(0, i as int) + old(dst)@.skip(i as int));
    }
    assert(src@.subrange(0, i as int) =~= src@);
}

/// The first `n` bytes of `s`.
fn slice_prefix(s: &[u8], n: usize) -> (r: &[u8])
    requires
        n <= s@.len(),
    ensures
        r@ == s@.subrange(0, n as int),
{
    vstd::slice::slice_subrange(s, 0, n)
}

/// Packed coils.
pub trait Coils {
    /// The number of coils and their packed bytes.
    spec fn coils_view(&self) -> (u16, Seq<u8>);

    /// Writes the packed bytes to the front of `dst`; returns the number of
    /// coils written.
    fn coils_write(&self, dst: &mut Vec<u8>) -> (r: u16)
        requires
            old(dst)@.len() >= self.coils_view().1.len(),
        ensures
            r == self.coils_view().0,
            final(dst)@ == self.coils_view().1 + old(dst)@.skip(self.coils_view().1.len() as int),
    ;

    /// The number of coils.
    fn coils_count(&self) -> (r: u16)
        ensures
            r == self.coils_view().0,
            self.coils_view().1.len() == coils_len(r as int),
    ;
}

/// Registers in the layout of a data buffer: low byte first.
pub trait Registers {
    /// The number of registers and their bytes.
    spec fn registers_view(&self) -> (u16, Seq<u8>);

    /// Writes the register bytes to the front of `dst`; returns the number
    /// of registers written.
    fn registers_write(&self, dst: &mut Vec<u8>) -> (r: u16)
        requires
            old(dst)@.len() >= self.registers_view().1.len(),
        ensures
            r == self.registers_view().0,
            final(dst)@ == self.registers_view().1 + old(dst)@.skip(
                self.registers_view().1.len() as int,
            ),
    ;

    /// The number of registers.
    fn registers_count(&self) -> (r: u16)
        ensures
            r == self.registers_view().0,
            self.registers_view().1.len() == 2 * r,
    ;
}

/// A plain run of bytes.
pub trait Bytes {
    /// The bytes.
    spec fn bytes_view(&self) -> Seq<u8>;

    /// Writes as many bytes as fit to the front of `dst`; returns how many.
    fn bytes_write(&self, dst: &mut Vec<u8>) -> (r: u16)
        requires
            self.bytes_view().len() <= u16::MAX,
        ensures
            r == if self.bytes_view().len() <= old(dst)@.len() {
                self.bytes_view().len()
            } else {
                old(dst)@.len()
            },
            final(dst)@ == self.bytes_view().subrange(0, r as int) + old(dst)@.skip(r as int),
    ;

    /// The number of bytes, truncated to 16 bits.
    fn bytes_count(&self) -> (r: u16)
        ensures
            r == self.bytes_view().len() as u16,
    ;
}

/// Coils already packed in a byte slice.
pub struct CoilsSlice {
    bytes: Vec<u8>,
    nobjs: u16,
}

impl CoilsSlice {
    #[verifier::type_invariant]
    spec fn inv(&self) -> bool {
        self.bytes@.len() == coils_len(self.nobjs as int)
    }

    /// The first `nobjs` coils packed in `slice`.
    pub fn new(slice: &[u8], nobjs: u16) -> (r: CoilsSlice)
        requires
            slice@.len() >= coils_len(nobjs as int),
        ensures
            r.coils_view() == (nobjs, slice@.subrange(0, coils_len(nobjs as int))),
    {
        let n = get_coils_len(nobjs);
        let mut bytes: Vec<u8> = Vec::new();
        bytes.extend_from_slice(slice_prefix(slice, n));
        CoilsSlice { bytes, nobjs }
    }
}

impl Coils for CoilsSlice {
    closed spec fn coils_view(&self) -> (u16, Seq<u8>) {
        (self.nobjs, self.bytes@)
    }

    fn coils_write(&self, dst: &mut Vec<u8>) -> (r: u16) {
        copy_into(dst, self.bytes.as_slice());
        self.nobjs
    }

    fn coils_count(&self) -> (r: u16) {
        proof {
            use_type_invariant(self);
        }
        self.nobjs
    }
}

/// Packed coils taken from a read cursor.
pub struct CoilsCursor {
    bytes: Vec<u8>,
    nobjs: u16,
}

impl CoilsCursor {
    #[verifier::type_invariant]
    spec fn inv(&self) -> bool {
        self.bytes@.len() == coils_len(self.nobjs as int)
    }

    /// The `nobjs` packed coils that stand at the cursor's position; the
    /// cursor does not move.
    pub fn new(cursor: &ReadCtx, nobjs: u16) -> (r: CoilsCursor)
        requires
            cursor.wf(),
            cursor.pos() + coils_len(nobjs as int) <= cursor.bytes().len(),
        ensures
            r.coils_view() == (nobjs, cursor.rest().take(coils_len(nobjs as int))),
    {
        let n = get_coils_len(nobjs);
        let got = cursor.peek_bytes(n);
        let bytes = match got {
            Some(b) => b,
            None => Vec::new(),
        };
        assert(cursor.rest().take(n as int) =~= cursor.bytes().subrange(
            cursor.pos() as int,
            cursor.pos() + n,
        ));
        CoilsCursor { bytes, nobjs }
    }
}

impl Coils for CoilsCursor {
    closed spec fn coils_view(&self) -> (u16, Seq<u8>) {
        (self.nobjs, self.bytes@)
    }

    fn coils_write(&self, dst: &mut Vec<u8>) -> (r: u16) {
        copy_into(dst, self.bytes.as_slice());
        self.nobjs
    }

    fn coils_count(&self) -> (r: u16) {
        proof {
            use_type_invariant(self);
        }
        self.nobjs
    }
}

/// Registers taken from a read cursor, where they stand high byte first,
/// and held low byte first.
pub struct RegistersCursorBe {
    bytes: Vec<u8>,
    nobjs: u16,
}

impl RegistersCursorBe {
    #[verifier::type_invariant]
    spec fn inv(&self) -> bool {
        self.bytes@.len() == 2 * self.nobjs
    }

    /// The `nobjs` big-endian registers that stand at the cursor's
    /// position; the cursor does not move.
    pub fn new(cursor: &ReadCtx, nobjs: u16) -> (r: RegistersCursorBe)
        requires
            cursor.wf(),
            cursor.pos() + 2 * nobjs <= cursor.bytes().len(),
        ensures
            r.registers_view() == (nobjs, swap_pairs(cursor.rest().take(2 * nobjs))),
    {
        let n = get_registers_len(nobjs);
        let got = cursor.peek_bytes(n);
        let wire = match got {
            Some(b) => b,
            None => Vec::new(),
        };
        let ghost w = cursor.rest().take(n as int);
        assert(w =~= cursor.bytes().subrange(cursor.pos() as int, cursor.pos() + n));
        assert(w =~= wire@);
        let mut bytes: Vec<u8> = Vec::new();
        let mut i: usize = 0;
        while i < nobjs as usize
            invariant
                i <= nobjs,
                wire@ == w,
                w.len() == 2 * nobjs,
                bytes@ == swap_pairs(w).take(2 * i),
            decreases nobjs - i,
        {
            bytes.push(wire[2 * i + 1]);
            bytes.push(wire[2 * i]);
            i = i + 1;
            assert(bytes@ =~= swap_pairs(w).take(2 * i));
        }
        assert(swap_pairs(w).take(2 * i) =~= swap_pairs(w));
        RegistersCursorBe { bytes, nobjs }
    }
}

impl Registers for RegistersCursorBe {
    closed spec fn registers_view(&self) -> (u16, Seq<u8>) {
        (self.nobjs, self.bytes@)
    }

    fn registers_write(&self, dst: &mut Vec<u8>) -> (r: u16) {
        copy_into(dst, self.bytes.as_slice());
        self.nobjs
    }

    fn registers_count(&self) -> (r: u16) {
        proof {
            use_type_invariant(self);
        }
        self.nobjs
    }
}

/// Weight of bit `k` within a byte.
pub open spec fn bit_weight(k: nat) -> int
    decreases k,
{
    if k == 0 {
        1
    } else {
        2 * bit_weight((k - 1) as nat)
    }
}

/// Value of byte `j` of packed coils `b`, counting its first `k` bits.
pub open spec fn packed_prefix(b: Seq<bool>, j: int, k: nat) -> int
    decreases k,
{
    if k == 0 {
        0
    } else {
        let i = 8 * j + k - 1;
        packed_prefix(b, j, (k - 1) as nat) + if i < b.len() && b[i] {
            bit_weight((k - 1) as nat)
        } else {
            0
        }
    }
}

/// Coils packed eight to a byte, the first coil in the lowest bit and
/// unused high bits of the last byte clear.
pub open spec fn pack_coils(b: Seq<bool>) -> Seq<u8> {
    Seq::new(coils_len(b.len() as int) as nat, |j: int| packed_prefix(b, j, 8) as u8)
}

proof fn lemma_packed_prefix_bound(b: Seq<bool>, j: int, k: nat)
    ensures
        0 <= packed_prefix(b, j, k) < bit_weight(k),
    decreases k,
{
    if k > 0 {
        lemma_packed_prefix_bound(b, j, (k - 1) as nat);
    }
}

proof fn lemma_bit_weights()
    ensures
        bit_weight(0) == 1,
        bit_weight(1) == 2,
        bit_weight(2) == 4,
        bit_weight(3) == 8,
        bit_weight(4) == 16,
        bit_weight(5) == 32,
        bit_weight(6) == 64,
        bit_weight(7) == 128,
        bit_weight(8) == 256,
{
    assert(bit_weight(0) == 1);
    assert(bit_weight(1) == 2);
    assert(bit_weight(2) == 4);
    assert(bit_weight(3) == 8);
    assert(bit_weight(4) == 16);
    assert(bit_weight(5) == 32);
    assert(bit_weight(6) == 64);
    assert(bit_weight(7) == 128);
    assert(bit_weight(8) == 256);
}

impl<'a> Coils for &'a [bool] {
    open spec fn coils_view(&self) -> (u16, Seq<u8>) {
        (self@.len() as u16, pack_coils(self@.take((self@.len() as u16) as int)))
    }

    fn coils_write(&self, dst: &mut Vec<u8>) -> (r: u16) {
        let n = self.len() as u16;
        let ghost b = self@.take(n as int);
        let nbytes = get_coils_len(n);
        let mut ibyte: usize = 0;
        while ibyte < nbytes
            invariant
                ibyte <= nbytes,
                nbytes == coils_len(n as int),
                n as int <= self@.len(),
                b == self@.take(n as int),
                old(dst)@.len() >= nbytes,
                dst@ == pack_coils(b).take(ibyte as int) + old(dst)@.skip(ibyte as int),
            decreases nbytes - ibyte,
        {
            let mut byte: u8 = 0;
            let mut weight: u16 = 1;
            let mut ibit: usize = 0;
            while ibit < 8
                invariant
                    ibit <= 8,
                    ibyte < nbytes,
                    nbytes == coils_len(n as int),
                    n as int <= self@.len(),
                    b == self@.take(n as int),
                    weight == bit_weight(ibit as nat),
                    byte == packed_prefix(b, ibyte as int, ibit as nat),
                decreases 8 - ibit,
            {
                proof {
                    lemma_packed_prefix_bound(b, ibyte as int, ibit as nat);
                    lemma_packed_prefix_bound(b, ibyte as int, (ibit + 1) as nat);
                    lemma_bit_weights();
                }
                let idx = ibyte * 8 + ibit;
                if idx < n as usize && self[idx] {
                    byte = (byte as u16 + weight) as u8;
                }
                weight = weight * 2;
                ibit = ibit + 1;
            }
            dst.set(ibyte, byte);
            ibyte = ibyte + 1;
            assert(dst@ =~= pack_coils(b).take(ibyte as int) + old(dst)@.skip(ibyte as int));
        }
        assert(pack_coils(b).take(ibyte as int) =~= pack_coils(b));
        n
    }

    fn coils_count(&self) -> (r: u16) {
        self.len() as u16
    }
}

/// Register values laid out low byte first.
pub open spec fn registers_bytes(v: Seq<u16>) -> Seq<u8> {
    Seq::new(2 * v.len(), |i: int| if i % 2 == 0 { (v[i / 2] as int % 256) as u8 } else { (v[i / 2] as int / 256) as u8 })
}

impl<'a> Registers for &'a [u16] {
    open spec fn registers_view(&self) -> (u16, Seq<u8>) {
        (self@.len() as u16, registers_bytes(self@.take((self@.len() as u16) as int)))
    }

    fn registers_write(&self, dst: &mut Vec<u8>) -> (r: u16) {
        let n = self.len() as u16;
        let ghost v = self@.take(n as int);
        let mut i: usize = 0;
        while i < n as usize
            invariant
                i <= n,
                n as int <= self@.len(),
                v == self@.take(n as int),
                old(dst)@.len() >= 2 * n,
                dst@ == registers_bytes(v).take(2 * i) + old(dst)@.skip(2 * i),
            decreases n - i,
        {
            let x = self[i];
            dst.set(2 * i, (x % 256) as u8);
            dst.set(2 * i + 1, (x / 256) as u8);
            i = i + 1;
            assert(dst@ =~= registers_bytes(v).take(2 * i) + old(dst)@.skip(2 * i));
        }
        assert(registers_bytes(v).take(2 * i) =~= registers_bytes(v));
        n
    }

    fn registers_count(&self) -> (r: u16) {
        self.len() as u16
    }
}

impl<'a> Registers for &'a [u8] {
    /// Whole pairs of bytes, each a register held low byte first; a last odd
    /// byte is left out.
    open spec fn registers_view(&self) -> (u16, Seq<u8>) {
        (((self@.len() / 2) as u16), self@.take(2 * (((self@.len() / 2) as u16) as int)))
    }

    fn registers_write(&self, dst: &mut Vec<u8>) -> (r: u16) {
        let n = (self.len() / 2) as u16;
        copy_into(dst, slice_prefix(self, 2 * n as usize));
        n
    }

    fn registers_count(&self) -> (r: u16) {
        (self.len() / 2) as u16
    }
}

impl<'a> Bytes for &'a [u8] {
    open spec fn bytes_view(&self) -> Seq<u8> {
        self@
    }

    fn bytes_write(&self, dst: &mut Vec<u8>) -> (r: u16) {
        let len = if self.len() <= dst.len() {
            self.len()
        } else {
            dst.len()
        };
        copy_into(dst, slice_prefix(self, len));
        len as u16
    }

    fn bytes_count(&self) -> (r: u16) {
        self.len() as u16
    }
}

/// Bytes taken from a read cursor.
pub struct BytesCursor {
    bytes: Vec<u8>,
}

impl BytesCursor {
    /// The `nobjs` bytes that stand at the cursor's position; the cursor
    /// does not move.
    pub fn new(cursor: &ReadCtx, nobjs: u16) -> (r: BytesCursor)
        requires
            cursor.wf(),
            cursor.pos() + nobjs <= cursor.bytes().len(),
        ensures
            r.bytes_view() == cursor.rest().take(nobjs as int),
    {
        let got = cursor.peek_bytes(nobjs as usize);
        let bytes = match got {
            Some(b) => b,
            None => Vec::new(),
        };
        assert(cursor.rest().take(nobjs as int) =~= bytes@);
        BytesCursor { bytes }
    }
}

impl Bytes for BytesCursor {
    closed spec fn bytes_view(&self) -> Seq<u8> {
        self.bytes@
    }

    fn bytes_write(&self, dst: &mut Vec<u8>) -> (r: u16) {
        let s = self.bytes.as_slice();
        s.bytes_write(dst)
    }

    fn bytes_count(&self) -> (r: u16) {
        self.bytes.len() as u16
    }
}

} // verus!
