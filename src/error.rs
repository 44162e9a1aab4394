//! Codec errors.
use vstd::prelude::*;

verus! {

/// Why a frame could not be decoded or encoded.
#[derive(Debug, Clone, Copy, PartialEq, Eq, Structural)]
pub enum Error {
    /// A structural constraint of the frame is violated.
    InvalidData,
    /// The MBAP protocol id is not zero.
    InvalidVersion,
    /// The CRC of an RTU frame does not match.
    InvalidCrc,
    /// The target buffer has no room for the frame.
    BufferTooSmall,
}

} // verus!
