//! Slave-side Modbus protocol engine: the data model, the byte-exact
//! incremental codec for RTU, TCP and UDP framing, and the bookkeeping
//! that transports use to correlate responses with requests.
use vstd::prelude::*;

pub mod checks;
pub mod codec;
pub mod context;
pub mod crc;
pub mod error;
pub mod frame;
pub mod mbap;
pub mod pdu;
pub mod port;
pub mod queue;
pub mod session;
pub mod settings;
pub mod storage;
pub mod stream;
pub mod views;

verus! {

/// Largest size of a protocol data unit.
pub const MAX_PDU_SIZE: usize = 253;

/// Largest number of registers a single request may address.
pub const MAX_NREGS: usize = 125;

/// Largest number of coils a single request may address.
pub const MAX_NCOILS: usize = MAX_NREGS * 16;

/// Capacity of the data buffer carried by a PDU.
pub const MAX_DATA_SIZE: usize = 256;

/// Length of the MBAP header that precedes a PDU on TCP and UDP.
pub const MBAP_HEADER_LEN: usize = 7;

/// Raw value of a coil that is switched on.
pub const COIL_ON: u16 = 0xFF00;

/// Raw value of a coil that is switched off.
pub const COIL_OFF: u16 = 0x0000;

} // verus!
