//! Counting rules for coils, registers and byte payloads, and bit access
//! into packed coil bytes.
use vstd::prelude::*;

use crate::{MAX_DATA_SIZE, MAX_NCOILS, MAX_NREGS};

verus! {

/// A coil count that a request may carry.
pub open spec fn valid_coils_count(n: int) -> bool {
    1 <= n <= MAX_NCOILS
}

/// A register count that a request may carry.
pub open spec fn valid_registers_count(n: int) -> bool {
    1 <= n <= MAX_NREGS
}

/// Number of bytes that hold `n` packed coils: the ceiling of `n / 8`.
pub open spec fn coils_len(n: int) -> int {
    if n > 0 {
        (n - 1) / 8 + 1
    } else {
        0
    }
}

/// Number of bytes that hold `n` registers.
pub open spec fn registers_len(n: int) -> int {
    2 * n
}

/// Bit `i` of a packed coil sequence: bit `i % 8` of byte `i / 8`.
pub open spec fn bit_at(bytes: Seq<u8>, i: int) -> bool {
    (bytes[i / 8] >> ((i % 8) as u8)) & 1u8 == 1u8
}

pub fn check_coils_count(nobjs: u16) -> (r: bool)
    ensures
        r == valid_coils_count(nobjs as int),
{
    nobjs > 0 && nobjs as usize <= MAX_NCOILS
}

pub fn check_registers_count(nobjs: u16) -> (r: bool)
    ensures
        r == valid_registers_count(nobjs as int),
{
    nobjs > 0 && nobjs as usize <= MAX_NREGS
}

/// A payload length that a data buffer can hold and that is not empty.
pub fn checks_bytes_count(nobjs: usize) -> (r: bool)
    ensures
        r == (1 <= nobjs <= MAX_DATA_SIZE),
{
    nobjs > 0 && nobjs <= MAX_DATA_SIZE
}

pub fn get_coils_len(nobjs: u16) -> (r: usize)
    ensures
        r == coils_len(nobjs as int),
{
    if nobjs > 0 {
        ((nobjs - 1) / 8 + 1) as usize
    } else {
        0
    }
}

pub fn get_registers_len(nobjs: u16) -> (r: usize)
    ensures
        r == registers_len(nobjs as int),
{
    nobjs as usize * 2
}

proof fn lemma_bit_test(b: u8, k: u8)
    requires
        k < 8,
    ensures
        (b & (1u8 << k) > 0) == ((b >> k) & 1u8 == 1u8),
{
    assert((b & (1u8 << k) > 0) == ((b >> k) & 1u8 == 1u8)) by (bit_vector)
        requires
            k < 8,
    ;
}

pub fn get_bit(buffer: &[u8], idx: usize) -> (r: Option<bool>)
    ensures
        idx < buffer@.len() * 8 ==> r == Some(bit_at(buffer@, idx as int)),
        idx >= buffer@.len() * 8 ==> r is None,
{
    if idx / 8 < buffer.len() {
        let byte_idx = idx / 8;
        let offset = (idx % 8) as u8;
        proof {
            lemma_bit_test(buffer@[byte_idx as int], offset);
        }
        Some(buffer[byte_idx] & (1u8 << offset) > 0)
    } else {
        None
    }
}

/// The first `nbits` bits of a packed coil sequence.
pub fn bits_from_bytes(bytes: &[u8], nbits: usize) -> (r: Vec<bool>)
    requires
        nbits <= bytes@.len() * 8,
    ensures
        r@ == Seq::new(nbits as nat, |i: int| bit_at(bytes@, i)),
{
    let mut bits: Vec<bool> = Vec::new();
    let mut i: usize = 0;
    while i < nbits
        invariant
            i <= nbits,
            nbits <= bytes@.len() * 8,
            bits@ == Seq::new(i as nat, |j: int| bit_at(bytes@, j)),
        decreases nbits - i,
    {
        let b = get_bit(bytes, i);
        match b {
            Some(v) => bits.push(v),
            None => {},
        }
        i = i + 1;
        assert(bits@ =~= Seq::new(i as nat, |j: int| bit_at(bytes@, j)));
    }
    bits
}

} // verus!
