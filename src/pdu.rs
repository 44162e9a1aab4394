//! Reading request PDUs and writing response PDUs.
use vstd::prelude::*;

use crate::checks::{self, coils_len, get_coils_len, get_registers_len, valid_coils_count, valid_registers_count};
use crate::context::{be16, swap_pairs, ReadCtx, WriteCtx};
use crate::error::Error;
use crate::frame::{code_value, request_len, request_valid, response_len, response_valid, RequestModel, RequestPdu, ResponseModel, ResponsePdu};
use crate::storage::DataStorage;
use crate::views::{BytesCursor, CoilsCursor, RegistersCursorBe};
use crate::{COIL_OFF, COIL_ON, MAX_DATA_SIZE};

verus! {

/// The outcome of decoding a value from the front of a byte sequence.
pub ghost enum Decoded<T> {
    /// More bytes are needed to decide.
    Incomplete,
    /// The bytes violate the format.
    Invalid(Error),
    /// A value and the number of bytes it took.
    Done(T, nat),
}

/// The smaller of two integers.
pub open spec fn min_int(a: int, b: int) -> int {
    if a <= b { a } else { b }
}

/// Decoding of a read request (0x01 to 0x04): address and count.
pub open spec fn decode_read(s: Seq<u8>) -> Decoded<RequestModel> {
    let f = s[0];
    let address = be16(s, 1);
    let nobjs = be16(s, 3);
    if s.len() < 5 {
        Decoded::Incomplete
    } else if f == 1 || f == 2 {
        if !valid_coils_count(nobjs as int) {
            Decoded::Invalid(Error::InvalidData)
        } else if f == 1 {
            Decoded::Done(RequestModel::ReadCoils { address, nobjs }, 5)
        } else {
            Decoded::Done(RequestModel::ReadDiscreteInputs { address, nobjs }, 5)
        }
    } else {
        if !valid_registers_count(nobjs as int) {
            Decoded::Invalid(Error::InvalidData)
        } else if f == 3 {
            Decoded::Done(RequestModel::ReadHoldingRegisters { address, nobjs }, 5)
        } else {
            Decoded::Done(RequestModel::ReadInputRegisters { address, nobjs }, 5)
        }
    }
}

/// Decoding of a multiple write (0x0F, 0x10): address, count, byte count
/// and payload.
pub open spec fn decode_multiple(s: Seq<u8>) -> Decoded<RequestModel> {
    let f = s[0];
    let address = be16(s, 1);
    let nobjs = be16(s, 3);
    let nbytes = s[5] as int;
    if s.len() < 6 {
        Decoded::Incomplete
    } else if f == 0x0F {
        if !valid_coils_count(nobjs as int) || nbytes != coils_len(nobjs as int) {
            Decoded::Invalid(Error::InvalidData)
        } else if s.len() < 6 + nbytes {
            Decoded::Incomplete
        } else {
            Decoded::Done(
                RequestModel::WriteMultipleCoils {
                    address,
                    nobjs,
                    data: s.subrange(6, 6 + nbytes),
                },
                (6 + nbytes) as nat,
            )
        }
    } else {
        if !valid_registers_count(nobjs as int) || nbytes != 2 * nobjs {
            Decoded::Invalid(Error::InvalidData)
        } else if s.len() < 6 + nbytes {
            Decoded::Incomplete
        } else {
            Decoded::Done(
                RequestModel::WriteMultipleRegisters {
                    address,
                    nobjs,
                    data: swap_pairs(s.subrange(6, 6 + nbytes)),
                },
                (6 + nbytes) as nat,
            )
        }
    }
}

/// Decoding of an encapsulated interface transport request (0x2B): the
/// MEI type, then one byte for 0x0E, or all that remains (at most
/// `MAX_DATA_SIZE` bytes) for 0x0D.
pub open spec fn decode_mei(s: Seq<u8>) -> Decoded<RequestModel> {
    let mei_type = s[1];
    if s.len() < 2 {
        Decoded::Incomplete
    } else if mei_type != 0x0D && mei_type != 0x0E {
        Decoded::Invalid(Error::InvalidData)
    } else if s.len() < 3 {
        Decoded::Incomplete
    } else {
        let n = if mei_type == 0x0E {
            1
        } else {
            min_int(s.len() - 2, MAX_DATA_SIZE as int)
        };
        Decoded::Done(
            RequestModel::EncapsulatedInterfaceTransport { mei_type, data: s.subrange(2, 2 + n) },
            (2 + n) as nat,
        )
    }
}

/// Decoding of a request PDU from the front of `s`.
pub open spec fn decode_pdu(s: Seq<u8>) -> Decoded<RequestModel> {
    if s.len() < 1 {
        Decoded::Incomplete
    } else {
        let f = s[0];
        if 1 <= f <= 4 {
            decode_read(s)
        } else if f == 5 || f == 6 {
            if s.len() < 5 {
                Decoded::Incomplete
            } else if f == 6 {
                Decoded::Done(
                    RequestModel::WriteSingleRegister { address: be16(s, 1), value: be16(s, 3) },
                    5,
                )
            } else if be16(s, 3) == COIL_ON || be16(s, 3) == COIL_OFF {
                Decoded::Done(
                    RequestModel::WriteSingleCoil {
                        address: be16(s, 1),
                        value: be16(s, 3) == COIL_ON,
                    },
                    5,
                )
            } else {
                Decoded::Invalid(Error::InvalidData)
            }
        } else if f == 0x0F || f == 0x10 {
            decode_multiple(s)
        } else if f == 0x2B {
            decode_mei(s)
        } else {
            let n = min_int(s.len() - 1, MAX_DATA_SIZE as int);
            Decoded::Done(RequestModel::Raw { function: f, data: s.subrange(1, 1 + n) }, (1 + n) as nat)
        }
    }
}

/// Every request that the decoder produces respects the structural
/// constraints of its function: counts in range, payload lengths as the
/// counts require. It took exactly its wire length from the input.
pub proof fn lemma_decoded_request_valid(s: Seq<u8>)
    ensures
        decode_pdu(s) matches Decoded::Done(m, n) ==> request_valid(m) && request_len(m) == n
            && n <= s.len(),
{
}

/// What a read of a PDU returns for a decoding outcome.
pub open spec fn read_result_matches(d: Decoded<RequestModel>, r: Result<Option<RequestPdu>, Error>) -> bool {
    match d {
        Decoded::Incomplete => r == Ok::<Option<RequestPdu>, Error>(None),
        Decoded::Invalid(e) => r == Err::<Option<RequestPdu>, Error>(e),
        Decoded::Done(m, _) => r is Ok && r->Ok_0 is Some && r->Ok_0->Some_0@ == m,
    }
}

fn check_coils_count(nobjs: u16) -> (r: Result<(), Error>)
    ensures
        r is Ok <==> valid_coils_count(nobjs as int),
        r is Err ==> r == Err::<(), Error>(Error::InvalidData),
{
    if checks::check_coils_count(nobjs) {
        Ok(())
    } else {
        Err(Error::InvalidData)
    }
}

fn check_registers_count(nobjs: u16) -> (r: Result<(), Error>)
    ensures
        r is Ok <==> valid_registers_count(nobjs as int),
        r is Err ==> r == Err::<(), Error>(Error::InvalidData),
{
    if checks::check_registers_count(nobjs) {
        Ok(())
    } else {
        Err(Error::InvalidData)
    }
}

fn check_matching(requested: usize, actual: usize) -> (r: Result<(), Error>)
    ensures
        r is Ok <==> requested == actual,
        r is Err ==> r == Err::<(), Error>(Error::InvalidData),
{
    if requested == actual {
        Ok(())
    } else {
        Err(Error::InvalidData)
    }
}

fn check_mei_type(mei_type: u8) -> (r: Result<(), Error>)
    ensures
        r is Ok <==> (mei_type == 0x0D || mei_type == 0x0E),
        r is Err ==> r == Err::<(), Error>(Error::InvalidData),
{
    if mei_type == 0x0E || mei_type == 0x0D {
        Ok(())
    } else {
        Err(Error::InvalidData)
    }
}

/// The coil state of a raw write-single-coil value.
fn raw_to_coil(value: u16) -> (r: Result<bool, Error>)
    ensures
        (value == COIL_ON || value == COIL_OFF) ==> r == Ok::<bool, Error>(value == COIL_ON),
        !(value == COIL_ON || value == COIL_OFF) ==> r == Err::<bool, Error>(Error::InvalidData),
{
    if value == COIL_ON || value == COIL_OFF {
        Ok(value == COIL_ON)
    } else {
        Err(Error::InvalidData)
    }
}

/// `BufferTooSmall` unless `requested` more bytes fit in `dst`.
pub fn check_capacity(requested: usize, dst: &WriteCtx) -> (r: Result<(), Error>)
    requires
        dst.wf(),
    ensures
        dst.written().len() + requested <= dst.capacity() ==> r == Ok::<(), Error>(()),
        dst.written().len() + requested > dst.capacity() ==> r == Err::<(), Error>(
            Error::BufferTooSmall,
        ),
{
    if dst.is_enough(requested).is_none() {
        Err(Error::BufferTooSmall)
    } else {
        Ok(())
    }
}

/// Reads a request PDU from `ctx`. `Ok(None)` means that more bytes are
/// needed; on success the cursor stands after the PDU.
pub fn read_pdu(ctx: &mut ReadCtx) -> (r: Result<Option<RequestPdu>, Error>)
    requires
        old(ctx).wf(),
    ensures
        final(ctx).wf(),
        final(ctx).bytes() == old(ctx).bytes(),
        read_result_matches(decode_pdu(old(ctx).rest()), r),
        decode_pdu(old(ctx).rest()) matches Decoded::Done(_, n) ==> final(ctx).pos() == old(
            ctx
        ).pos() + n,
{
    let ghost s = old(ctx).rest();
    let func = match ctx.read_u8() {
        Some(x) => x,
        None => {
            return Ok(None);
        },
    };
    assert(s[0] == func);
    if func == 0x1 || func == 0x2 || func == 0x3 || func == 0x4 {
        let address = match ctx.read_u16_be() {
            Some(x) => x,
            None => {
                return Ok(None);
            },
        };
        let nobjs = match ctx.read_u16_be() {
            Some(x) => x,
            None => {
                return Ok(None);
            },
        };
        assert(be16(s, 1) == address && be16(s, 3) == nobjs);
        if func == 0x1 || func == 0x2 {
            check_coils_count(nobjs)?;
            if func == 0x1 {
                Ok(Some(RequestPdu::read_coils(address, nobjs)))
            } else {
                Ok(Some(RequestPdu::read_discrete_inputs(address, nobjs)))
            }
        } else {
            check_registers_count(nobjs)?;
            if func == 0x3 {
                Ok(Some(RequestPdu::read_holding_registers(address, nobjs)))
            } else {
                Ok(Some(RequestPdu::read_input_registers(address, nobjs)))
            }
        }
    } else if func == 0x5 || func == 0x6 {
        let address = match ctx.read_u16_be() {
            Some(x) => x,
            None => {
                return Ok(None);
            },
        };
        let value = match ctx.read_u16_be() {
            Some(x) => x,
            None => {
                return Ok(None);
            },
        };
        assert(be16(s, 1) == address && be16(s, 3) == value);
        if func == 0x5 {
            let value = raw_to_coil(value)?;
            Ok(Some(RequestPdu::write_single_coil(address, value)))
        } else {
            Ok(Some(RequestPdu::write_single_register(address, value)))
        }
    } else if func == 0xF || func == 0x10 {
        let address = match ctx.read_u16_be() {
            Some(x) => x,
            None => {
                return Ok(None);
            },
        };
        let nobjs = match ctx.read_u16_be() {
            Some(x) => x,
            None => {
                return Ok(None);
            },
        };
        let nbytes = match ctx.read_u8() {
            Some(x) => x,
            None => {
                return Ok(None);
            },
        };
        assert(be16(s, 1) == address && be16(s, 3) == nobjs && s[5] == nbytes);
        if func == 0xF {
            check_coils_count(nobjs)?;
            check_matching(get_coils_len(nobjs), nbytes as usize)?;
            if ctx.is_enough(nbytes as usize).is_none() {
                return Ok(None);
            }
            let ghost rest = ctx.rest();
            let coils = CoilsCursor::new(ctx, nobjs);
            ctx.advance(nbytes as usize);
            assert(rest.take(nbytes as int) =~= s.subrange(6, 6 + nbytes));
            Ok(Some(RequestPdu::write_multiple_coils(address, coils)))
        } else {
            check_registers_count(nobjs)?;
            check_matching(get_registers_len(nobjs), nbytes as usize)?;
            if ctx.is_enough(nbytes as usize).is_none() {
                return Ok(None);
            }
            let ghost rest = ctx.rest();
            let registers = RegistersCursorBe::new(ctx, nobjs);
            ctx.advance(nbytes as usize);
            assert(rest.take(nbytes as int) =~= s.subrange(6, 6 + nbytes));
            Ok(Some(RequestPdu::write_multiple_registers(address, registers)))
        }
    } else if func == 0x2b {
        let mei_type = match ctx.read_u8() {
            Some(x) => x,
            None => {
                return Ok(None);
            },
        };
        assert(s[1] == mei_type);
        check_mei_type(mei_type)?;
        if ctx.is_enough(1).is_none() {
            return Ok(None);
        }
        let n: u16 = if mei_type == 0xE {
            1
        } else {
            let remain = ctx.remaining();
            if remain < MAX_DATA_SIZE {
                remain as u16
            } else {
                MAX_DATA_SIZE as u16
            }
        };
        let ghost rest = ctx.rest();
        let bytes = BytesCursor::new(ctx, n);
        ctx.advance(n as usize);
        assert(rest.take(n as int) =~= s.subrange(2, 2 + n));
        Ok(Some(RequestPdu::encapsulated_interface_transport(mei_type, bytes)))
    } else {
        let remain = ctx.remaining();
        let n = if remain < MAX_DATA_SIZE {
            remain
        } else {
            MAX_DATA_SIZE
        };
        let ghost rest = ctx.rest();
        let got = ctx.read_bytes(n);
        let bytes = match got {
            Some(b) => b,
            None => Vec::new(),
        };
        assert(bytes@ =~= s.subrange(1, 1 + n));
        let data = DataStorage::raw(bytes.as_slice());
        Ok(Some(RequestPdu::raw(func, data)))
    }
}

/// A register value on the wire, high byte first.
pub open spec fn be_bytes(v: u16) -> Seq<u8> {
    seq![(v / 256) as u8, (v % 256) as u8]
}

/// The wire form of a response PDU.
pub open spec fn encode_response(m: ResponseModel) -> Seq<u8> {
    match m {
        ResponseModel::ReadCoils { data, .. } => seq![0x01u8, data.len() as u8] + data,
        ResponseModel::ReadDiscreteInputs { data, .. } => seq![0x02u8, data.len() as u8] + data,
        ResponseModel::ReadHoldingRegisters { data, .. } => seq![0x03u8, data.len() as u8]
            + swap_pairs(data),
        ResponseModel::ReadInputRegisters { data, .. } => seq![0x04u8, data.len() as u8]
            + swap_pairs(data),
        ResponseModel::WriteSingleCoil { address, value } => seq![0x05u8] + be_bytes(address)
            + be_bytes(if value { COIL_ON } else { COIL_OFF }),
        ResponseModel::WriteSingleRegister { address, value } => seq![0x06u8] + be_bytes(address)
            + be_bytes(value),
        ResponseModel::WriteMultipleCoils { address, nobjs } => seq![0x0Fu8] + be_bytes(address)
            + be_bytes(nobjs),
        ResponseModel::WriteMultipleRegisters { address, nobjs } => seq![0x10u8] + be_bytes(
            address,
        ) + be_bytes(nobjs),
        ResponseModel::EncapsulatedInterfaceTransport { mei_type, data } => seq![0x2Bu8, mei_type]
            + data,
        ResponseModel::Exception { function, code } => seq![function | 0x80u8, code_value(code)],
        ResponseModel::Raw { .. } => Seq::empty(),
    }
}

/// Writes a response PDU to `ctx`; `BufferTooSmall`, with nothing
/// written, when it does not fit.
pub fn write_pdu(ctx: &mut WriteCtx, src: &ResponsePdu) -> (r: Result<Option<()>, Error>)
    requires
        old(ctx).wf(),
        response_valid(src@),
    ensures
        final(ctx).wf(),
        final(ctx).capacity() == old(ctx).capacity(),
        old(ctx).written().len() + response_len(src@) <= old(ctx).capacity() ==> r == Ok::<
            Option<()>,
            Error,
        >(Some(())) && final(ctx).written() == old(ctx).written() + encode_response(src@),
        old(ctx).written().len() + response_len(src@) > old(ctx).capacity() ==> r == Err::<
            Option<()>,
            Error,
        >(Error::BufferTooSmall) && *final(ctx) == *old(ctx),
{
    check_capacity(src.len(), ctx)?;
    let ghost w0 = ctx.written();
    match src {
        ResponsePdu::ReadCoils { data, .. } => {
            ctx.write_u8(0x1);
            ctx.write_u8(data.len() as u8);
            ctx.write_bytes(data.get());
        },
        ResponsePdu::ReadDiscreteInputs { data, .. } => {
            ctx.write_u8(0x2);
            ctx.write_u8(data.len() as u8);
            ctx.write_bytes(data.get());
        },
        ResponsePdu::ReadHoldingRegisters { data, .. } => {
            ctx.write_u8(0x3);
            ctx.write_u8(data.len() as u8);
            ctx.write_data_u16_be(data.get());
        },
        ResponsePdu::ReadInputRegisters { data, .. } => {
            ctx.write_u8(0x4);
            ctx.write_u8(data.len() as u8);
            ctx.write_data_u16_be(data.get());
        },
        ResponsePdu::WriteSingleCoil { address, value } => {
            ctx.write_u8(0x5);
            ctx.write_u16_be(*address);
            ctx.write_u16_be(coil_to_raw(*value));
        },
        ResponsePdu::WriteSingleRegister { address, value } => {
            ctx.write_u8(0x6);
            ctx.write_u16_be(*address);
            ctx.write_u16_be(*value);
        },
        ResponsePdu::WriteMultipleCoils { address, nobjs } => {
            ctx.write_u8(0xF);
            ctx.write_u16_be(*address);
            ctx.write_u16_be(*nobjs);
        },
        ResponsePdu::WriteMultipleRegisters { address, nobjs } => {
            ctx.write_u8(0x10);
            ctx.write_u16_be(*address);
            ctx.write_u16_be(*nobjs);
        },
        ResponsePdu::Exception { function, code } => {
            ctx.write_u8(*function | 0x80);
            ctx.write_u8(code.value());
        },
        ResponsePdu::EncapsulatedInterfaceTransport { mei_type, data } => {
            ctx.write_u8(0x2b);
            ctx.write_u8(*mei_type);
            ctx.write_bytes(data.get());
        },
        ResponsePdu::Raw { .. } => {},
    }
    assert(ctx.written() =~= w0 + encode_response(src@));
    Ok(Some(()))
}

/// The raw write-single-coil value of a coil state.
pub fn coil_to_raw(value: bool) -> (r: u16)
    ensures
        r == if value { COIL_ON } else { COIL_OFF },
{
    if value {
        COIL_ON
    } else {
        COIL_OFF
    }
}

} // verus!
