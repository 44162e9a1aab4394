use modbus::checks::{bits_from_bytes, get_bit, get_coils_len, get_registers_len};
use modbus::context::{ReadCtx, WriteCtx};
use modbus::error::Error;
use modbus::frame::{Code, RequestPdu};
use modbus::pdu::read_pdu;
use modbus::queue::FixedQueue;
use modbus::storage::DataStorage;
use modbus::views::{Bytes, BytesCursor, Coils, CoilsCursor, CoilsSlice, Registers, RegistersCursorBe};
use modbus::{MAX_NCOILS, MAX_NREGS};

#[test]
fn from_code() {
    assert_eq!(u8::from(Code::IllegalFunction), 0x01);
    assert_eq!(u8::from(Code::IllegalDataAddress), 0x02);
    assert_eq!(u8::from(Code::IllegalDataValue), 0x03);
    assert_eq!(u8::from(Code::SlaveDeviceFailure), 0x04);
    assert_eq!(u8::from(Code::Acknowledge), 0x05);
    assert_eq!(u8::from(Code::SlaveDeviceBusy), 0x06);
    assert_eq!(u8::from(Code::MemoryParityError), 0x08);
    assert_eq!(u8::from(Code::GatewayPathUnavailable), 0x0A);
    assert_eq!(u8::from(Code::GatewayTargetDeciveFailedToRespond), 0x0B);
}

#[test]
fn coils_slice() {
    let slice = CoilsSlice::new(&[0x0F], 4);
    let mut buffer = vec![0u8];
    assert_eq!(slice.coils_count(), 4);
    slice.coils_write(&mut buffer);
    assert_eq!(buffer[0], 0x0F);
}

#[test]
fn bytes_test_with_u8() {
    let input = [1u8, 2, 3, 4];
    let mut output = vec![0u8; 4];
    let bs: &dyn Bytes = &input.as_slice();
    assert_eq!(bs.bytes_count(), 4);
    let res = bs.bytes_write(&mut output);
    assert_eq!(res, 4);
    assert_eq!(input[..], output[..]);
}

#[test]
fn bytes_test_with_cursor() {
    let input = [1u8, 2, 3, 4];
    let mut output = vec![0u8; 4];
    let mut cursor = ReadCtx::new(&input[..]);
    let bs = BytesCursor::new(&mut cursor, 4);
    assert_eq!(bs.bytes_count(), 4);
    let res = bs.bytes_write(&mut output);
    assert_eq!(res, 4);
    assert_eq!(input[..], output[..]);
}

#[test]
fn read_ctx() {
    let buffer = [0x00, 0x01];
    let mut ctx = ReadCtx::new(&buffer);
    assert_eq!(ctx.processed(), 0);
    assert_eq!(ctx.remaining(), 2);
    ctx.read_u8().unwrap();
    assert_eq!(ctx.processed(), 1);
    assert_eq!(ctx.remaining(), 1);
    ctx.read_u8().unwrap();
    assert_eq!(ctx.processed(), 2);
    assert_eq!(ctx.remaining(), 0);
    assert!(ctx.read_u8().is_none());
}

#[test]
fn read_ctx_und() {
    let buffer = [0x01];
    let mut ctx = ReadCtx::new(&buffer);
    let res = ctx.read_u16();
    assert!(res.is_none());
}

#[test]
fn write_ctx() {
    let mut ctx = WriteCtx::new(vec![0u8; 2]);
    assert_eq!(ctx.processed(), 0);
    assert_eq!(ctx.remaining(), 2);
    ctx.write_u8(1).unwrap();
    assert_eq!(ctx.processed(), 1);
    assert_eq!(ctx.remaining(), 1);
    ctx.write_u8(2);
    assert_eq!(ctx.processed(), 2);
    assert_eq!(ctx.remaining(), 0);
    assert!(ctx.write_u8(3).is_none());
    assert_eq!(ctx.buffer(), [0x1, 0x2]);
}

#[test]
fn push() {
    let mut storage = FixedQueue::<i32>::new(4);
    for i in 0..10 {
        storage.push(i);
    }
    assert_eq!(storage.len(), 4);
    assert_eq!(storage.count_free(), 0);
    let r = storage.take_if(|x| *x == 10);
    assert_eq!(r, None);
    let r = storage.take_if(|x| *x == 0);
    assert_eq!(r, Some(0));
    assert_eq!(storage.len(), 3);
    assert_eq!(storage.count_free(), 1);
    let r = storage.take_if(|x| *x == 0);
    assert_eq!(r, None);
    assert_eq!(storage.len(), 3);
    assert_eq!(storage.count_free(), 1);
    let r = storage.take_if(|x| *x == 1);
    assert_eq!(r, Some(1));
    assert_eq!(storage.len(), 2);
    assert_eq!(storage.count_free(), 2);
}

#[test]
fn push_replace() {
    let mut storage = FixedQueue::<i32>::new(4);
    for i in 0..10 {
        storage.push_replace(i);
    }
    assert_eq!(storage.len(), 4);
    let r = storage.take_if(|x| *x == 9);
    assert_eq!(r, Some(9));
    assert_eq!(storage.len(), 3);
    let r = storage.take_if(|x| *x == 8);
    assert_eq!(r, Some(8));
    assert_eq!(storage.len(), 2);
    let r = storage.take_if(|x| *x == 7);
    assert_eq!(r, Some(7));
    assert_eq!(storage.len(), 1);
    let r = storage.take_if(|x| *x == 6);
    assert_eq!(r, Some(6));
    assert_eq!(storage.len(), 0);
}

#[test]
fn queue_bounds_hold() {
    let mut q = FixedQueue::<u32>::new(3);
    for i in 0..7 {
        q.push_replace(i);
        assert!(q.len() <= 3);
        assert_eq!(q.len() + q.count_free(), 3);
    }
    let before = q.len();
    assert_eq!(q.take_if(|x| *x >= 4), Some(4));
    assert_eq!(q.len(), before - 1);
    assert_eq!(q.take_if(|x| *x == 100), None);
    assert_eq!(q.len(), before - 1);
    let mut zero = FixedQueue::<u32>::new(0);
    assert!(!zero.push_replace(1));
    assert_eq!(zero.len(), 0);
}

#[test]
fn take_if_moves_last_into_place() {
    let mut q = FixedQueue::<u32>::new(4);
    for i in 0..4 {
        q.push(i);
    }
    assert_eq!(q.take_if(|x| *x == 1), Some(1));
    assert_eq!(q.take_if(|x| *x < 10), Some(0));
    assert_eq!(q.take_if(|x| *x < 10), Some(2));
    assert_eq!(q.take_if(|x| *x < 10), Some(3));
}

fn pdu_of(input: &[u8]) -> Result<Option<RequestPdu>, Error> {
    read_pdu(&mut ReadCtx::new(input))
}

#[test]
fn zero_count_is_invalid() {
    for f in [0x01u8, 0x02, 0x03, 0x04] {
        let res = pdu_of(&[f, 0x00, 0x00, 0x00, 0x00]);
        assert_eq!(res.err().unwrap(), Error::InvalidData);
    }
}

#[test]
fn coil_count_limits() {
    let max = MAX_NCOILS as u16;
    let ok = pdu_of(&[0x01, 0x00, 0x00, (max >> 8) as u8, max as u8]).unwrap().unwrap();
    match ok {
        RequestPdu::ReadCoils { nobjs, .. } => assert_eq!(nobjs, 2000),
        _ => unreachable!(),
    }
    let over = max + 1;
    let res = pdu_of(&[0x01, 0x00, 0x00, (over >> 8) as u8, over as u8]);
    assert_eq!(res.err().unwrap(), Error::InvalidData);
}

#[test]
fn register_count_limits() {
    let max = MAX_NREGS as u8;
    let ok = pdu_of(&[0x03, 0x00, 0x00, 0x00, max]).unwrap().unwrap();
    match ok {
        RequestPdu::ReadHoldingRegisters { nobjs, .. } => assert_eq!(nobjs, 125),
        _ => unreachable!(),
    }
    let res = pdu_of(&[0x03, 0x00, 0x00, 0x00, max + 1]);
    assert_eq!(res.err().unwrap(), Error::InvalidData);
}

#[test]
fn single_coil_values() {
    let res = pdu_of(&[0x05, 0x00, 0x01, 0x00, 0x01]);
    assert_eq!(res.err().unwrap(), Error::InvalidData);
    match pdu_of(&[0x05, 0x00, 0x01, 0x00, 0x00]).unwrap().unwrap() {
        RequestPdu::WriteSingleCoil { value, .. } => assert!(!value),
        _ => unreachable!(),
    }
    match pdu_of(&[0x05, 0x00, 0x01, 0xFF, 0x00]).unwrap().unwrap() {
        RequestPdu::WriteSingleCoil { value, .. } => assert!(value),
        _ => unreachable!(),
    }
}

#[test]
fn mei_type_must_be_known() {
    let res = pdu_of(&[0x2B, 0x0C, 0x01]);
    assert_eq!(res.err().unwrap(), Error::InvalidData);
    assert!(pdu_of(&[0x2B, 0x0D]).unwrap().is_none());
    match pdu_of(&[0x2B, 0x0D, 0x01, 0x02, 0x03]).unwrap().unwrap() {
        RequestPdu::EncapsulatedInterfaceTransport { mei_type, data } => {
            assert_eq!(mei_type, 0x0D);
            assert_eq!(data.get(), &[1u8, 2, 3][..]);
        }
        _ => unreachable!(),
    }
}

#[test]
fn lengths_of_counts() {
    assert_eq!(get_coils_len(0), 0);
    assert_eq!(get_coils_len(1), 1);
    assert_eq!(get_coils_len(8), 1);
    assert_eq!(get_coils_len(9), 2);
    assert_eq!(get_coils_len(37), 5);
    assert_eq!(get_registers_len(3), 6);
    assert_eq!(get_registers_len(125), 250);
}

#[test]
fn bits_of_packed_bytes() {
    let bytes = [0xCDu8, 0x01];
    assert_eq!(get_bit(&bytes, 0), Some(true));
    assert_eq!(get_bit(&bytes, 1), Some(false));
    assert_eq!(get_bit(&bytes, 8), Some(true));
    assert_eq!(get_bit(&bytes, 16), None);
    assert_eq!(
        bits_from_bytes(&bytes, 10),
        vec![true, false, true, true, false, false, true, true, true, false]
    );
}

#[test]
fn storage_ops() {
    let input = [1u8, 2, 3, 4];
    let mut data = DataStorage::raw(&input);
    assert_eq!(data.len(), 4);
    assert_eq!(data.get_u8(0).unwrap(), 0x1);
    data.set_u8(0, 0xAA);
    data.set_u8(1, 0xBB);
    assert_eq!(data.get_u16(0).unwrap(), 0xBBAA);
    assert!(!data.set_u8(4, 0));
    assert_eq!(data.get_bit(0).unwrap(), false);
    assert_eq!(data.get_bit(1).unwrap(), true);
    data.set_bit(0, true);
    data.set_bit(1, false);
    assert_eq!(data.get_bit(0).unwrap(), true);
    assert_eq!(data.get_bit(1).unwrap(), false);
    data.set_u16(1, 0x1234);
    assert_eq!(data.get(), &[0xA9u8, 0xBB, 0x34, 0x12][..]);
    assert!(data.get_u16(2).is_none());
    data.extend(&[5, 6]);
    assert_eq!(data.len(), 6);
    assert_eq!(DataStorage::raw_empty(3).get(), &[0u8, 0, 0][..]);
}

#[test]
fn storage_from_registers() {
    let input = [1u16, 2, 0x0304];
    let data = DataStorage::registers(&input[..]);
    assert_eq!(data.len(), 6);
    assert_eq!(data.get_u16(0).unwrap(), 0x1);
    assert_eq!(data.get_u16(2).unwrap(), 0x0304);
    let regs: &[u16] = &input[..];
    assert_eq!(regs.registers_count(), 3);
}

#[test]
fn with_u8() {
    let input = [1u8, 2, 3, 4, 5, 6];
    let mut output = vec![0u8; 6];
    let rs = &input[..];
    let res = rs.registers_write(&mut output);
    assert_eq!(res, 3);
    assert_eq!(rs.registers_count(), 3);
    assert_eq!(input[..], output[..]);
}

#[test]
fn storage_coils_from_bools() {
    let input = [true, false, false, false, true, false, false, false];
    let data = DataStorage::coils(&input[0..1]);
    assert_eq!(data.len(), 1);
    assert_eq!(data.get_bit(0).unwrap(), true);
    assert_eq!(data.get_u8(0).unwrap(), 0x1);
    assert!(data.get_u16(0).is_none());
    let data = DataStorage::coils(&input[..]);
    assert_eq!(data.len(), 1);
    assert_eq!(data.get_u8(0).unwrap(), 0x1 | 0x10);
    let bits = bits_from_bytes(&[0xCD, 0x6B, 0xB2, 0x0E, 0x1B], 37);
    let data = DataStorage::coils(bits.as_slice());
    assert_eq!(data.get(), &[0xCDu8, 0x6B, 0xB2, 0x0E, 0x1B][..]);
}

#[test]
fn cursor_views_leave_position() {
    let input = [0x00u8, 0x0A, 0x01, 0x02, 0xFF];
    let ctx = ReadCtx::new(&input[..]);
    let regs = RegistersCursorBe::new(&ctx, 2);
    assert_eq!(ctx.processed(), 0);
    assert_eq!(regs.registers_count(), 2);
    let mut out = vec![0u8; 4];
    regs.registers_write(&mut out);
    assert_eq!(out, vec![0x0A, 0x00, 0x02, 0x01]);
    let coils = CoilsCursor::new(&ctx, 9);
    assert_eq!(ctx.processed(), 0);
    let mut out = vec![0u8; 2];
    coils.coils_write(&mut out);
    assert_eq!(out, vec![0x00, 0x0A]);
    let bytes = BytesCursor::new(&ctx, 5);
    assert_eq!(ctx.processed(), 0);
    assert_eq!(bytes.bytes_count(), 5);
}

#[test]
fn write_bytes_fills_what_fits() {
    let mut ctx = WriteCtx::new(vec![0u8; 3]);
    ctx.write_u8(9).unwrap();
    assert!(ctx.write_bytes(&[1, 2, 3]).is_none());
    assert_eq!(ctx.processed(), 3);
    assert_eq!(ctx.buffer(), &[9u8, 1, 2][..]);
    let mut ctx = WriteCtx::new(vec![0u8; 3]);
    assert!(ctx.write_data_u16_be(&[1, 2, 3, 4]).is_none());
    assert_eq!(ctx.buffer(), &[2u8, 1, 4][..]);
}
