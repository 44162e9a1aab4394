use modbus::checks::bits_from_bytes;
use modbus::frame::{Code, RequestFrame, RequestPdu, ResponseFrame, ResponsePdu};
use modbus::storage::{Data, DataStorage};

#[test]
fn frame_create_frame() {
    let frame = RequestFrame::new(0x11, RequestPdu::read_coils(1, 1));
    assert_eq!(frame.slave, 0x11);
    match frame.pdu {
        RequestPdu::ReadCoils { .. } => {}
        _ => unreachable!(),
    }
}

#[test]
fn frame_build_fc1_response_builder() {
    let nbits = 37;
    let bytes = [0xCD, 0x6B, 0xB2, 0x0E, 0x1B];
    let bits = bits_from_bytes(&bytes, nbits);
    let frame = ResponseFrame::new(0x11, ResponsePdu::read_coils(bits.as_slice()));
    assert_eq!(frame.slave, 0x11);
    match frame.pdu {
        ResponsePdu::ReadCoils { nobjs, data } => {
            assert_eq!(nobjs, nbits as u16);
            assert_eq!(data.len(), 0x5);
            assert_eq!(data.get_u8(0).unwrap(), 0xCD);
            assert_eq!(data.get_u8(1).unwrap(), 0x6B);
            assert_eq!(data.get_u8(2).unwrap(), 0xB2);
            assert_eq!(data.get_u8(3).unwrap(), 0x0E);
            assert_eq!(data.get_u8(4).unwrap(), 0x1B);
        }
        _ => unreachable!(),
    }
}

#[test]
fn frame_build_fc1_response() {
    let nbits = 37;
    let bytes = [0xCD, 0x6B, 0xB2, 0x0E, 0x1B];
    let bits = bits_from_bytes(&bytes, nbits);
    let frame = ResponseFrame::new(0x11, ResponsePdu::read_coils(bits.as_slice()));
    assert_eq!(frame.slave, 0x11);
    match frame.pdu {
        ResponsePdu::ReadCoils { nobjs, data } => {
            assert_eq!(nobjs, nbits as u16);
            assert_eq!(data.len(), 0x5);
            assert_eq!(data.get_u8(0).unwrap(), 0xCD);
            assert_eq!(data.get_u8(1).unwrap(), 0x6B);
            assert_eq!(data.get_u8(2).unwrap(), 0xB2);
            assert_eq!(data.get_u8(3).unwrap(), 0x0E);
            assert_eq!(data.get_u8(4).unwrap(), 0x1B);
        }
        _ => unreachable!(),
    }
}

#[test]
fn frame_build_fc2_response() {
    let nbits = 37;
    let bytes = [0xCD, 0x6B, 0xB2, 0x0E, 0x1B];
    let bits = bits_from_bytes(&bytes, nbits);
    let frame = ResponseFrame::new(0x11, ResponsePdu::read_discrete_inputs(bits.as_slice()));
    assert_eq!(frame.slave, 0x11);
    match frame.pdu {
        ResponsePdu::ReadDiscreteInputs { nobjs, data } => {
            assert_eq!(nobjs, nbits as u16);
            assert_eq!(data.len(), 0x5);
            assert_eq!(data.get_u8(0).unwrap(), 0xCD);
            assert_eq!(data.get_u8(1).unwrap(), 0x6B);
            assert_eq!(data.get_u8(2).unwrap(), 0xB2);
            assert_eq!(data.get_u8(3).unwrap(), 0x0E);
            assert_eq!(data.get_u8(4).unwrap(), 0x1B);
        }
        _ => unreachable!(),
    }
}

#[test]
fn frame_build_fc3_response() {
    let registers = [1u16, 2, 0xFFFF];
    let frame = ResponseFrame::new(
        0x11,
        ResponsePdu::read_holding_registers(registers.as_slice()),
    );
    assert_eq!(frame.slave, 0x11);
    match frame.pdu {
        ResponsePdu::ReadHoldingRegisters { nobjs, data } => {
            assert_eq!(nobjs, 3);
            assert_eq!(data.len(), 0x6);
            assert_eq!(data.get_u16(0).unwrap(), 1);
            assert_eq!(data.get_u16(1).unwrap(), 2);
            assert_eq!(data.get_u16(2).unwrap(), 0xFFFF);
        }
        _ => unreachable!(),
    }
}

#[test]
fn frame_build_fc4_response() {
    let registers = [1u16, 2, 3, 0xFFFF];
    let frame = ResponseFrame::new(
        0x11,
        ResponsePdu::read_input_registers(registers.as_slice()),
    );
    assert_eq!(frame.slave, 0x11);
    match frame.pdu {
        ResponsePdu::ReadInputRegisters { nobjs, data } => {
            assert_eq!(nobjs, 4);
            assert_eq!(data.len(), 0x8);
            assert_eq!(data.get_u16(0).unwrap(), 1);
            assert_eq!(data.get_u16(1).unwrap(), 2);
            assert_eq!(data.get_u16(2).unwrap(), 3);
            assert_eq!(data.get_u16(3).unwrap(), 0xFFFF);
        }
        _ => unreachable!(),
    }
}

#[test]
fn frame_build_fc5_response() {
    let frame = ResponseFrame::new(0x11, ResponsePdu::write_single_coil(0x00AC, true));
    assert_eq!(frame.slave, 0x11);
    match frame.pdu {
        ResponsePdu::WriteSingleCoil { address, value } => {
            assert_eq!(address, 0x00AC);
            assert_eq!(value, true);
        }
        _ => unreachable!(),
    }
}

#[test]
fn frame_build_fc6_response() {
    let frame = ResponseFrame::new(0x11, ResponsePdu::write_single_register(0x00AC, 0x123));
    assert_eq!(frame.slave, 0x11);
    match frame.pdu {
        ResponsePdu::WriteSingleRegister { address, value } => {
            assert_eq!(address, 0x00AC);
            assert_eq!(value, 0x123);
        }
        _ => unreachable!(),
    }
}

#[test]
fn frame_build_fc15_response() {
    let frame = ResponseFrame::new(0x11, ResponsePdu::write_multiple_coils(0x00AC, 0x10));
    assert_eq!(frame.slave, 0x11);
    match frame.pdu {
        ResponsePdu::WriteMultipleCoils { address, nobjs } => {
            assert_eq!(address, 0x00AC);
            assert_eq!(nobjs, 0x10);
        }
        _ => unreachable!(),
    }
}

#[test]
fn frame_build_fc16_response() {
    let frame = ResponseFrame::new(0x11, ResponsePdu::write_multiple_registers(0x00AC, 0x11));
    assert_eq!(frame.slave, 0x11);
    match frame.pdu {
        ResponsePdu::WriteMultipleRegisters { address, nobjs } => {
            assert_eq!(address, 0x00AC);
            assert_eq!(nobjs, 0x11);
        }
        _ => unreachable!(),
    }
}

#[test]
fn frame_build_exception_response() {
    let frame = ResponseFrame::new(0x11, ResponsePdu::exception(0x3, Code::IllegalFunction));
    assert_eq!(frame.slave, 0x11);
    match frame.pdu {
        ResponsePdu::Exception { function, code } => {
            assert_eq!(function, 0x83);
            assert_eq!(code, Code::IllegalFunction);
        }
        _ => unreachable!(),
    }
}

#[test]
fn response_build_fc1_response_builder() {
    let nbits = 37;
    let bytes = [0xCD, 0x6B, 0xB2, 0x0E, 0x1B];
    let bits = bits_from_bytes(&bytes, nbits);
    let frame = ResponseFrame::new(0x11, ResponsePdu::read_coils(bits.as_slice()));
    assert_eq!(frame.slave, 0x11);
    match frame.pdu {
        ResponsePdu::ReadCoils { nobjs, data } => {
            assert_eq!(nobjs, nbits as u16);
            assert_eq!(data.len(), 0x5);
            assert_eq!(data.get_u8(0).unwrap(), 0xCD);
            assert_eq!(data.get_u8(1).unwrap(), 0x6B);
            assert_eq!(data.get_u8(2).unwrap(), 0xB2);
            assert_eq!(data.get_u8(3).unwrap(), 0x0E);
            assert_eq!(data.get_u8(4).unwrap(), 0x1B);
        }
        _ => unreachable!(),
    }
}

#[test]
fn response_build_fc1_response() {
    let nbits = 37;
    let bytes = [0xCD, 0x6B, 0xB2, 0x0E, 0x1B];
    let bits = bits_from_bytes(&bytes, nbits);
    let frame = ResponseFrame::new(0x11, ResponsePdu::read_coils(bits.as_slice()));
    assert_eq!(frame.slave, 0x11);
    match frame.pdu {
        ResponsePdu::ReadCoils { nobjs, data } => {
            assert_eq!(nobjs, nbits as u16);
            assert_eq!(data.len(), 0x5);
            assert_eq!(data.get_u8(0).unwrap(), 0xCD);
            assert_eq!(data.get_u8(1).unwrap(), 0x6B);
            assert_eq!(data.get_u8(2).unwrap(), 0xB2);
            assert_eq!(data.get_u8(3).unwrap(), 0x0E);
            assert_eq!(data.get_u8(4).unwrap(), 0x1B);
        }
        _ => unreachable!(),
    }
}

#[test]
fn response_build_fc2_response() {
    let nbits = 37;
    let bytes = [0xCD, 0x6B, 0xB2, 0x0E, 0x1B];
    let bits = bits_from_bytes(&bytes, nbits);
    let frame = ResponseFrame::new(0x11, ResponsePdu::read_discrete_inputs(bits.as_slice()));
    assert_eq!(frame.slave, 0x11);
    match frame.pdu {
        ResponsePdu::ReadDiscreteInputs { nobjs, data } => {
            assert_eq!(nobjs, nbits as u16);
            assert_eq!(data.len(), 0x5);
            assert_eq!(data.get_u8(0).unwrap(), 0xCD);
            assert_eq!(data.get_u8(1).unwrap(), 0x6B);
            assert_eq!(data.get_u8(2).unwrap(), 0xB2);
            assert_eq!(data.get_u8(3).unwrap(), 0x0E);
            assert_eq!(data.get_u8(4).unwrap(), 0x1B);
        }
        _ => unreachable!(),
    }
}

#[test]
fn response_build_fc3_response() {
    let registers = [1u16, 2, 0xFFFF];
    let frame = ResponseFrame::new(
        0x11,
        ResponsePdu::read_holding_registers(registers.as_slice()),
    );
    assert_eq!(frame.slave, 0x11);
    match frame.pdu {
        ResponsePdu::ReadHoldingRegisters { nobjs, data } => {
            assert_eq!(nobjs, 3);
            assert_eq!(data.len(), 0x6);
            assert_eq!(data.get_u16(0).unwrap(), 1);
            assert_eq!(data.get_u16(1).unwrap(), 2);
            assert_eq!(data.get_u16(2).unwrap(), 0xFFFF);
        }
        _ => unreachable!(),
    }
}

#[test]
fn response_build_fc4_response() {
    let registers = [1u16, 2, 3, 0xFFFF];
    let frame = ResponseFrame::new(
        0x11,
        ResponsePdu::read_input_registers(registers.as_slice()),
    );
    assert_eq!(frame.slave, 0x11);
    match frame.pdu {
        ResponsePdu::ReadInputRegisters { nobjs, data } => {
            assert_eq!(nobjs, 4);
            assert_eq!(data.len(), 0x8);
            assert_eq!(data.get_u16(0).unwrap(), 1);
            assert_eq!(data.get_u16(1).unwrap(), 2);
            assert_eq!(data.get_u16(2).unwrap(), 3);
            assert_eq!(data.get_u16(3).unwrap(), 0xFFFF);
        }
        _ => unreachable!(),
    }
}

#[test]
fn response_build_fc5_response() {
    let frame = ResponseFrame::new(0x11, ResponsePdu::write_single_coil(0x00AC, true));
    assert_eq!(frame.slave, 0x11);
    match frame.pdu {
        ResponsePdu::WriteSingleCoil { address, value } => {
            assert_eq!(address, 0x00AC);
            assert_eq!(value, true);
        }
        _ => unreachable!(),
    }
}

#[test]
fn response_build_fc6_response() {
    let frame = ResponseFrame::new(0x11, ResponsePdu::write_single_register(0x00AC, 0x123));
    assert_eq!(frame.slave, 0x11);
    match frame.pdu {
        ResponsePdu::WriteSingleRegister { address, value } => {
            assert_eq!(address, 0x00AC);
            assert_eq!(value, 0x123);
        }
        _ => unreachable!(),
    }
}

#[test]
fn response_build_fc15_response() {
    let frame = ResponseFrame::new(0x11, ResponsePdu::write_multiple_coils(0x00AC, 0x10));
    assert_eq!(frame.slave, 0x11);
    match frame.pdu {
        ResponsePdu::WriteMultipleCoils { address, nobjs } => {
            assert_eq!(address, 0x00AC);
            assert_eq!(nobjs, 0x10);
        }
        _ => unreachable!(),
    }
}

#[test]
fn response_build_fc16_response() {
    let frame = ResponseFrame::new(0x11, ResponsePdu::write_multiple_registers(0x00AC, 0x11));
    assert_eq!(frame.slave, 0x11);
    match frame.pdu {
        ResponsePdu::WriteMultipleRegisters { address, nobjs } => {
            assert_eq!(address, 0x00AC);
            assert_eq!(nobjs, 0x11);
        }
        _ => unreachable!(),
    }
}

#[test]
fn response_build_exception_response() {
    let frame = ResponseFrame::new(0x11, ResponsePdu::exception(0x3, Code::IllegalFunction));
    assert_eq!(frame.slave, 0x11);
    match frame.pdu {
        ResponsePdu::Exception { function, code } => {
            assert_eq!(function, 0x83);
            assert_eq!(code, Code::IllegalFunction);
        }
        _ => unreachable!(),
    }
}

#[test]
fn request_create_frame() {
    let frame = RequestFrame::new(0x11, RequestPdu::read_coils(1, 1));
    assert_eq!(frame.slave, 0x11);
    match frame.pdu {
        RequestPdu::ReadCoils { .. } => {}
        _ => unreachable!(),
    }
}

#[test]
fn storage_data_coils() {
    let input = [true, false, false, false, true, false, false, false];

    let data = DataStorage::coils(&input[0..1]);
    assert_eq!(data.len(), 1);
    assert_eq!(data.get_bit(0).unwrap(), true);
    assert_eq!(data.get_u8(0).unwrap(), 0x1);
    assert!(data.get_u16(0).is_none());

    let data = DataStorage::coils(&input[..]);
    assert_eq!(data.len(), 1);
    assert_eq!(data.get_bit(0).unwrap(), true);
    assert_eq!(data.get_u8(0).unwrap(), 0x1 | 0x10);
    assert!(data.get_u16(0).is_none());
}

#[test]
fn storage_data_registers() {
    let input = [1u16, 2, 3, 4];
    let data = DataStorage::registers(&input[0..1]);
    assert_eq!(data.len(), 2);
    assert_eq!(data.get_u16(0).unwrap(), 0x1);
    assert!(data.get_u16(1).is_none());

    let data = DataStorage::registers(&input[..]);
    assert_eq!(data.len(), 8);
    assert_eq!(data.get_u16(0).unwrap(), 0x1);
    assert_eq!(data.get_u16(1).unwrap(), 0x2);
    assert_eq!(data.get_u16(2).unwrap(), 0x3);
    assert_eq!(data.get_u16(3).unwrap(), 0x4);
}

#[test]
fn storage_data_raw() {
    let input = [1u8, 2, 3, 4];
    let data = DataStorage::raw(&input);
    assert_eq!(data.len(), 4);
    assert_eq!(data.get_u8(0).unwrap(), 0x1);
    assert_eq!(data.get_u8(1).unwrap(), 0x2);
    assert!(data.get_u8(4).is_none());
}

#[test]
fn storage_data_ops() {
    let input = [1u8, 2, 3, 4];
    let mut data = DataStorage::raw(&input);
    assert_eq!(data.len(), 4);
    assert_eq!(data.get_u8(0).unwrap(), 0x1);

    data.set_u8(0, 0xAA);
    assert_eq!(data.get_u8(0).unwrap(), 0xAA);

    data.set_u8(1, 0xBB);
    assert_eq!(data.get_u8(1).unwrap(), 0xBB);
    assert_eq!(data.get_u16(0).unwrap(), 0xBBAA);

    assert_eq!(data.get_bit(0).unwrap(), false);
    assert_eq!(data.get_bit(1).unwrap(), true);

    data.set_bit(0, true);
    data.set_bit(1, false);
    assert_eq!(data.get_bit(0).unwrap(), true);
    assert_eq!(data.get_bit(1).unwrap(), false);
}

#[test]
fn data_data_coils() {
    let input = [true, false, false, false, true, false, false, false];

    let data = Data::coils(&input[0..1]);
    assert_eq!(data.len(), 1);
    assert_eq!(data.get_bit(0).unwrap(), true);
    assert_eq!(data.get_u8(0).unwrap(), 0x1);
    assert!(data.get_u16(0).is_none());

    let data = Data::coils(&input[..]);
    assert_eq!(data.len(), 1);
    assert_eq!(data.get_bit(0).unwrap(), true);
    assert_eq!(data.get_u8(0).unwrap(), 0x1 | 0x10);
    assert!(data.get_u16(0).is_none());
}

#[test]
fn data_data_registers() {
    let input = [1u16, 2, 3, 4];
    let data = Data::registers(&input[0..1]);
    assert_eq!(data.len(), 2);
    assert_eq!(data.get_u16(0).unwrap(), 0x1);
    assert!(data.get_u16(1).is_none());

    let data = Data::registers(&input[..]);
    assert_eq!(data.len(), 8);
    assert_eq!(data.get_u16(0).unwrap(), 0x1);
    assert_eq!(data.get_u16(1).unwrap(), 0x2);
    assert_eq!(data.get_u16(2).unwrap(), 0x3);
    assert_eq!(data.get_u16(3).unwrap(), 0x4);
}

#[test]
fn data_data_raw() {
    let input = [1u8, 2, 3, 4];
    let data = Data::raw(&input);
    assert_eq!(data.len(), 4);
    assert_eq!(data.get_u8(0).unwrap(), 0x1);
    assert_eq!(data.get_u8(1).unwrap(), 0x2);
    assert!(data.get_u8(4).is_none());
}

#[test]
fn data_data_ops() {
    let input = [1u8, 2, 3, 4];
    let mut data = Data::raw(&input);
    assert_eq!(data.len(), 4);
    assert_eq!(data.get_u8(0).unwrap(), 0x1);

    data.set_u8(0, 0xAA);
    assert_eq!(data.get_u8(0).unwrap(), 0xAA);

    data.set_u8(1, 0xBB);
    assert_eq!(data.get_u8(1).unwrap(), 0xBB);
    assert_eq!(data.get_u16(0).unwrap(), 0xBBAA);

    assert_eq!(data.get_bit(0).unwrap(), false);
    assert_eq!(data.get_bit(1).unwrap(), true);

    data.set_bit(0, true);
    data.set_bit(1, false);
    assert_eq!(data.get_bit(0).unwrap(), true);
    assert_eq!(data.get_bit(1).unwrap(), false);
}
