use modbus::codec::{read_net_frame, read_rtu_frame, SlaveCodec};
use modbus::context::ReadCtx;
use modbus::error::Error;
use modbus::frame::{RequestPdu, ResponseFrame, ResponsePdu};
use modbus::views::CoilsSlice;

#[test]
fn read_rtu_frame_empty() {
    let buffer: [u8; 0] = [];
    let frame = read_rtu_frame(&mut ReadCtx::new(&buffer));
    assert!(frame.is_ok());
    assert!(frame.unwrap().is_none());
}

#[test]
fn read_rtu_frame_short1() {
    let buffer = [0x1];
    let frame = read_rtu_frame(&mut ReadCtx::new(&buffer));
    assert!(frame.is_ok());
    assert!(frame.unwrap().is_none());
}

#[test]
fn read_rtu_frame_short2() {
    let buffer = [0x1, 0x1];
    let frame = read_rtu_frame(&mut ReadCtx::new(&buffer));
    assert!(frame.is_ok());
    assert!(frame.unwrap().is_none());
}

#[test]
fn read_rtu_frame_fc1() {
    let buffer = [0x11, 0x01, 0x00, 0x13, 0x00, 0x25, 0x0E, 0x84];
    let frame = read_rtu_frame(&mut ReadCtx::new(&buffer)).unwrap().unwrap();
    assert_eq!(frame.id, 0);
    assert_eq!(frame.slave, 0x11);
    match frame.pdu {
        RequestPdu::ReadCoils { address, nobjs } => {
            assert_eq!(address, 0x13);
            assert_eq!(nobjs, 37);
        }
        _ => unreachable!(),
    }
}

#[test]
fn read_rtu_frame_wrong_crc() {
    let check = [
        vec![0x11, 0x01, 0x00, 0x13, 0x00, 0x25, 0x0E, 0x85],
        vec![0x11, 0x02, 0x00, 0xC4, 0x00, 0x16, 0xBA, 0xAA],
        vec![0x11, 0x03, 0x00, 0x6B, 0x00, 0x03, 0x76, 0x88],
    ];

    for rec in check {
        let frame = read_rtu_frame(&mut ReadCtx::new(&rec));
        match frame {
            Err(Error::InvalidCrc) => {}
            _ => unreachable!(),
        }
    }
}

#[test]
fn read_rtu_frame_part_crc() {
    let check = [
        vec![0x11, 0x01, 0x00, 0x13, 0x00, 0x25, 0x0E],
        vec![0x11, 0x02, 0x00, 0xC4, 0x00, 0x16, 0xBA],
        vec![0x11, 0x03, 0x00, 0x6B, 0x00, 0x03, 0x76],
    ];

    for rec in check {
        let res = read_rtu_frame(&mut ReadCtx::new(&rec));
        match res {
            Ok(None) => {}
            _ => unreachable!(),
        }
    }
}

#[test]
fn read_net_frame_fc1() {
    let buffer = [
        0x0, 0x1, 0x0, 0x0, 0x0, 0x6, 0x11, 0x01, 0x00, 0x13, 0x00, 0x25,
    ];
    let frame = read_net_frame(&mut ReadCtx::new(&buffer)).unwrap().unwrap();
    assert_eq!(frame.id, 1);
    assert_eq!(frame.slave, 0x11);
    match frame.pdu {
        RequestPdu::ReadCoils { address, nobjs } => {
            assert_eq!(address, 0x13);
            assert_eq!(nobjs, 37);
        }
        _ => unreachable!(),
    }
}

#[test]
fn slave_decode_fc1() {
    let input = [0x11u8, 0x01, 0x00, 0x13, 0x00, 0x25, 0x0E, 0x84];
    let mut buffer = input.to_vec();
    let frame = SlaveCodec::new_rtu().decode(&mut buffer).unwrap().unwrap();
    match frame.pdu {
        RequestPdu::ReadCoils { address, nobjs } => {
            assert_eq!(address, 0x13);
            assert_eq!(nobjs, 0x25);
        }
        _ => unreachable!(),
    }
    assert_eq!(buffer.len(), 0);
}

#[test]
fn encode_rtu_fc1() {
    let control = [0x11u8, 0x01, 0x05, 0xCD, 0x6B, 0xB2, 0x0E, 0x1B, 0x45, 0xE6];
    let mut buffer = Vec::new();
    let frame = ResponseFrame::new(
        0x11,
        ResponsePdu::read_coils(CoilsSlice::new(&[0xCDu8, 0x6B, 0xB2, 0x0E, 0x1B], 37)),
    );
    SlaveCodec::new_rtu().encode(frame, &mut buffer).unwrap();
    assert_eq!(10, buffer.len());
    assert_eq!(control[..], buffer[..]);
}

#[test]
fn encode_net_fc1() {
    let control = [
        0x0, 0x1, 0x0, 0x0, 0x0, 0x8, 0x11u8, 0x01, 0x05, 0xCD, 0x6B, 0xB2, 0x0E, 0x1B,
    ];
    let mut buffer = Vec::new();
    let frame = ResponseFrame::from_parts(
        0x1,
        0x11,
        ResponsePdu::read_coils(CoilsSlice::new(&[0xCDu8, 0x6B, 0xB2, 0x0E, 0x1B], 37)),
    );
    SlaveCodec::new_tcp().encode(frame, &mut buffer).unwrap();
    assert_eq!(14, buffer.len());
    assert_eq!(control[..], buffer[..]);
}
