//! The bounded byte buffer that carries the payload of a PDU, held in a
//! small vector whose first `MAX_DATA_SIZE` bytes live inline.
use vstd::prelude::*;

use smallvec::SmallVec;

use crate::checks::{bit_at, get_bit, get_coils_len, get_registers_len, valid_coils_count, valid_registers_count};
use crate::views::{Coils, Registers};
use crate::MAX_DATA_SIZE;

verus! {

/// Inline-first byte vector; what it holds is `small_bytes`.
#[verifier::external_body]
#[derive(Debug)]
pub struct SmallBytes {
    inner: SmallVec<[u8; 256]>,
}

/// The bytes that a small vector holds, in order.
pub uninterp spec fn small_bytes(v: SmallBytes) -> Seq<u8>;

/// Register value carried by two bytes, low byte first.
pub open spec fn u16_le(lo: u8, hi: u8) -> u16 {
    (lo as int + 256 * (hi as int)) as u16
}

/// Low byte of a register value.
pub open spec fn lo_byte(v: u16) -> u8 {
    (v as int % 256) as u8
}

/// High byte of a register value.
pub open spec fn hi_byte(v: u16) -> u8 {
    (v as int / 256) as u8
}

/// Byte `b` with bit `k` set to `v`.
pub open spec fn with_bit(b: u8, k: u8, v: bool) -> u8 {
    if v {
        b | (1u8 << k)
    } else {
        b & !(1u8 << k)
    }
}

/// A byte buffer of at most `MAX_DATA_SIZE` bytes. Registers are held as
/// pairs of bytes, low byte first; coils are packed eight to a byte, the
/// first coil in the lowest bit.
#[derive(Debug)]
pub struct DataStorage {
    buffer: SmallBytes,
}

/// The name under which PDUs refer to their payload buffer.
pub type Data = DataStorage;

impl View for DataStorage {
    type V = Seq<u8>;

    closed spec fn view(&self) -> Seq<u8> {
        small_bytes(self.buffer)
    }
}

impl DataStorage {
    #[verifier::type_invariant]
    spec fn inv(&self) -> bool {
        small_bytes(self.buffer).len() <= MAX_DATA_SIZE
    }

    /// A buffer holding a copy of `bytes`.
    pub fn raw(bytes: &[u8]) -> (r: DataStorage)
        requires
            bytes@.len() <= MAX_DATA_SIZE,
        ensures
            r@ == bytes@,
    {
        DataStorage { buffer: small_from_slice(bytes) }
    }

    /// A buffer of `size` zero bytes.
    pub fn raw_empty(size: usize) -> (r: DataStorage)
        requires
            size <= MAX_DATA_SIZE,
        ensures
            r@ == Seq::new(size as nat, |i: int| 0u8),
    {
        DataStorage { buffer: small_from_elem(0, size) }
    }

    /// A buffer holding the packed bytes of `coils`.
    pub fn coils<C: Coils>(coils: C) -> (r: DataStorage)
        requires
            valid_coils_count(coils.coils_view().0 as int),
        ensures
            r@ == coils.coils_view().1,
    {
        let nobjs = coils.coils_count();
        let n = get_coils_len(nobjs);
        let mut buf: Vec<u8> = vec![0u8; n];
        let written = coils.coils_write(&mut buf);
        assert(buf@ =~= coils.coils_view().1);
        DataStorage::raw(buf.as_slice())
    }

    /// A buffer holding the bytes of `registers`, low byte first.
    pub fn registers<R: Registers>(registers: R) -> (r: DataStorage)
        requires
            valid_registers_count(registers.registers_view().0 as int),
        ensures
            r@ == registers.registers_view().1,
    {
        let nobjs = registers.registers_count();
        let n = get_registers_len(nobjs);
        let mut buf: Vec<u8> = vec![0u8; n];
        let written = registers.registers_write(&mut buf);
        assert(buf@ =~= registers.registers_view().1);
        DataStorage::raw(buf.as_slice())
    }

    pub fn len(&self) -> (r: usize)
        ensures
            r == self@.len(),
            r <= MAX_DATA_SIZE,
    {
        proof {
            use_type_invariant(self);
        }
        small_len(&self.buffer)
    }

    pub fn is_empty(&self) -> (r: bool)
        ensures
            r == (self@.len() == 0),
    {
        self.len() == 0
    }

    /// All bytes of the buffer.
    pub fn get(&self) -> (r: &[u8])
        ensures
            r@ == self@,
    {
        small_as_slice(&self.buffer)
    }

    /// Appends `slice` to the buffer.
    pub fn extend(&mut self, slice: &[u8])
        requires
            old(self)@.len() + slice@.len() <= MAX_DATA_SIZE,
        ensures
            final(self)@ == old(self)@ + slice@,
    {
        small_extend(&mut self.buffer, slice);
    }

    pub fn get_u8(&self, idx: usize) -> (r: Option<u8>)
        ensures
            idx < self@.len() ==> r == Some(self@[idx as int]),
            idx >= self@.len() ==> r is None,
    {
        if idx < self.len() {
            Some(self.get()[idx])
        } else {
            None
        }
    }

    /// Replaces byte `idx`; `false`, with the buffer unchanged, when it is
    /// out of range.
    pub fn set_u8(&mut self, idx: usize, value: u8) -> (r: bool)
        ensures
            r == (idx < old(self)@.len()),
            r ==> final(self)@ == old(self)@.update(idx as int, value),
            !r ==> final(self)@ == old(self)@,
    {
        if idx < self.len() {
            small_set(&mut self.buffer, idx, value);
            true
        } else {
            false
        }
    }

    /// Coil `idx` of the packed buffer.
    pub fn get_bit(&self, idx: usize) -> (r: Option<bool>)
        ensures
            idx < self@.len() * 8 ==> r == Some(bit_at(self@, idx as int)),
            idx >= self@.len() * 8 ==> r is None,
    {
        get_bit(self.get(), idx)
    }

    /// Sets coil `idx` of the packed buffer to `value`.
    pub fn set_bit(&mut self, idx: usize, value: bool) -> (r: bool)
        requires
            idx < old(self)@.len() * 8,
        ensures
            r,
            final(self)@ == old(self)@.update(
                idx as int / 8,
                with_bit(old(self)@[idx as int / 8], (idx % 8) as u8, value),
            ),
    {
        proof {
            use_type_invariant(&*self);
        }
        let byte_idx = idx / 8;
        let offset = (idx % 8) as u8;
        let b = self.get()[byte_idx];
        let nb = if value {
            b | (1u8 << offset)
        } else {
            b & !(1u8 << offset)
        };
        small_set(&mut self.buffer, byte_idx, nb);
        true
    }

    /// Stores register `idx` as bytes `2 * idx` and `2 * idx + 1`.
    pub fn set_u16(&mut self, idx: usize, value: u16) -> (r: bool)
        requires
            2 * idx + 1 < old(self)@.len(),
        ensures
            r,
            final(self)@ == old(self)@.update(2 * idx as int, lo_byte(value)).update(
                2 * idx as int + 1,
                hi_byte(value),
            ),
    {
        let len = self.len();
        assert(2 * idx + 1 < len);
        let start = idx * 2;
        small_set(&mut self.buffer, start, (value % 256) as u8);
        small_set(&mut self.buffer, start + 1, (value / 256) as u8);
        true
    }

    /// Register `idx` of the buffer.
    pub fn get_u16(&self, idx: usize) -> (r: Option<u16>)
        ensures
            2 * idx + 1 < self@.len() ==> r == Some(
                u16_le(self@[2 * idx as int], self@[2 * idx as int + 1]),
            ),
            2 * idx + 1 >= self@.len() ==> r is None,
    {
        let len = self.len();
        if idx < len / 2 {
            let s = self.get();
            let lo = s[2 * idx];
            let hi = s[2 * idx + 1];
            Some(lo as u16 + 256 * hi as u16)
        } else {
            None
        }
    }
}

/// Relies on `SmallVec::from_slice`: the new vector holds a copy of the slice.
#[verifier::external_body]
fn small_from_slice(s: &[u8]) -> (r: SmallBytes)
    ensures
        small_bytes(r) == s@,
{
    SmallBytes { inner: SmallVec::from_slice(s) }
}

/// Relies on `SmallVec::from_elem`: `n` copies of the element.
#[verifier::external_body]
fn small_from_elem(e: u8, n: usize) -> (r: SmallBytes)
    ensures
        small_bytes(r) == Seq::new(n as nat, |i: int| e),
{
    SmallBytes { inner: SmallVec::from_elem(e, n) }
}

/// Relies on `SmallVec::len`: the number of stored elements.
#[verifier::external_body]
fn small_len(v: &SmallBytes) -> (r: usize)
    ensures
        r == small_bytes(*v).len(),
{
    v.inner.len()
}

/// Relies on `SmallVec::as_slice`: a view of all stored elements.
#[verifier::external_body]
fn small_as_slice(v: &SmallBytes) -> (r: &[u8])
    ensures
        r@ == small_bytes(*v),
{
    v.inner.as_slice()
}

/// Relies on `SmallVec`'s `IndexMut`: the element at `i` is replaced; an
/// index in range does not panic.
#[verifier::external_body]
fn small_set(v: &mut SmallBytes, i: usize, b: u8)
    requires
        i < small_bytes(*old(v)).len(),
    ensures
        small_bytes(*final(v)) == small_bytes(*old(v)).update(i as int, b),
    no_unwind
{
    v.inner[i] = b;
}

/// Relies on `SmallVec::extend_from_slice`: the slice is appended; it
/// panics only when the length would overflow `usize`.
#[verifier::external_body]
fn small_extend(v: &mut SmallBytes, s: &[u8])
    requires
        small_bytes(*old(v)).len() + s@.len() <= MAX_DATA_SIZE,
    ensures
        small_bytes(*final(v)) == small_bytes(*old(v)) + s@,
    no_unwind
{
    v.inner.extend_from_slice(s);
}

} // verus!
