use modbus::codec::SlaveCodec;
use modbus::frame::{ResponseFrame, ResponsePdu};
use modbus::session::{IoContext, TcpExchange, UdpExchange};
use modbus::port::{Parity, PortSettings, PortSettingsError, StopBits};
use modbus::settings::{Settings, TransportAddress};
use std::str::FromStr;

#[test]
fn transport_address() {
    let address = TransportAddress::from_str("");
    assert!(address.is_err());
    let address = TransportAddress::from_str("unknown:/dev/tty0");
    assert!(address.is_err());
    let address = TransportAddress::from_str("tcp:127.0.0.1:502").unwrap();
    match address {
        TransportAddress::Tcp(ip) => {
            assert_eq!(ip, "127.0.0.1:502");
        }
        _ => unreachable!(),
    };
    let address = TransportAddress::from_str("udp:127.0.0.1:502").unwrap();
    match address {
        TransportAddress::Udp(ip) => {
            assert_eq!(ip, "127.0.0.1:502");
        }
        _ => unreachable!(),
    };
    let address = TransportAddress::from_str("serial:/dev/tty0").unwrap();
    match address {
        TransportAddress::Serial(name) => {
            assert_eq!(name, "/dev/tty0");
        }
        _ => unreachable!(),
    };
}

#[test]
fn address_needs_a_remainder() {
    assert!(TransportAddress::from_str("tcp:").is_err());
    assert!(TransportAddress::from_str("tcp").is_err());
    let address = TransportAddress::from_str("serial:/dev/ttyUSB0:9600-8-N-1").unwrap();
    assert_eq!(address.get(), "/dev/ttyUSB0:9600-8-N-1");
    assert_eq!(Settings::default().address.get(), "0.0.0.0:502");
}

#[test]
fn tcp_exchange_matches_uuid() {
    let mut ex = TcpExchange::new();
    assert!(!ex.on_request(7, 0x11));
    assert_eq!(ex.on_response(8), None);
    assert!(ex.on_request(9, 0x12));
    assert_eq!(ex.on_response(7), None);
    assert_eq!(ex.on_response(9), Some(0x12));
    assert_eq!(ex.on_response(9), None);
}

#[test]
fn udp_exchange_evicts_oldest() {
    let mut ex: UdpExchange<u32> = UdpExchange::new();
    for i in 0..300u32 {
        ex.on_request(i as u128, i as u16, i);
    }
    assert_eq!(ex.queue.len(), 256);
    assert!(ex.on_response(10).is_none());
    let (info, peer) = ex.on_response(299).unwrap();
    assert_eq!(info.mbid, 299);
    assert_eq!(peer, 299);
    assert_eq!(ex.queue.len(), 255);
}

#[test]
fn io_context_round() {
    let mut ctx = IoContext::new(SlaveCodec::new_tcp());
    ctx.input.extend_from_slice(&[0x00, 0x01, 0x00, 0x00, 0x00, 0x06, 0x11, 0x06, 0x00, 0x01]);
    assert!(ctx.decode().unwrap().is_none());
    assert_eq!(ctx.input.len(), 10);
    ctx.input.extend_from_slice(&[0x00, 0x03]);
    let frame = ctx.decode().unwrap().unwrap();
    assert_eq!(frame.id, 1);
    assert!(ctx.input.is_empty());
    ctx.encode(ResponseFrame::from_parts(1, 0x11, ResponsePdu::write_single_register(1, 3))).unwrap();
    assert_eq!(ctx.output, vec![0x00, 0x01, 0x00, 0x00, 0x00, 0x06, 0x11, 0x06, 0x00, 0x01, 0x00, 0x03]);
    ctx.resize_input(3);
    assert_eq!(ctx.input, vec![0, 0, 0]);
    assert!(ctx.on_idle());
    assert!(ctx.input.is_empty() && ctx.output.is_empty());
    assert!(!ctx.on_idle());
}

#[test]
fn port_read_settings() {
    assert_eq!(PortSettings::from_str(":").is_err(), true);
    assert_eq!(PortSettings::from_str("").is_err(), true);
    assert_eq!(PortSettings::from_str("/dev/ttyUSB0").is_err(), true);
    assert_eq!(PortSettings::from_str("/dev/ttyUSB0:").is_err(), true);
    assert_eq!(PortSettings::from_str("/dev/ttyUSB0:9600").is_err(), true);
    assert_eq!(PortSettings::from_str("/dev/ttyUSB0:9600-8").is_err(), true);
    assert_eq!(
        PortSettings::from_str("/dev/ttyUSB0:9600-8-N").is_err(),
        true
    );
    let correct = PortSettings::from_str("/dev/ttyUSB0:9600-8-N-1").unwrap();
    assert_eq!(correct.name, "/dev/ttyUSB0");
    assert_eq!(correct.speed, 9600);
    assert_eq!(correct.parity, Parity::NoParity);
    assert_eq!(correct.stop_bits, StopBits::One);
}

#[test]
fn port_settings_errors() {
    assert_eq!(PortSettings::parse("tty:9600-8-N-1").err().unwrap(), PortSettingsError::NameTooShort);
    assert_eq!(PortSettings::parse("ttyS0:96x0-8-N-1").err().unwrap(), PortSettingsError::InvalidSpeed);
    assert_eq!(PortSettings::parse("ttyS0:4294967296-8-N-1").err().unwrap(), PortSettingsError::InvalidSpeed);
    assert_eq!(PortSettings::parse("ttyS0:9600-8-X-1").err().unwrap(), PortSettingsError::InvalidParity);
    assert_eq!(PortSettings::parse("ttyS0:9600-8-E-3").err().unwrap(), PortSettingsError::InvalidStopBits);
    let p = PortSettings::parse("ttyS0:+19200-7-O-2-extra").unwrap();
    assert_eq!(p.speed, 19200);
    assert_eq!(p.parity, Parity::Odd);
    assert_eq!(p.stop_bits, StopBits::Two);
    let p = PortSettings::parse("ttyS0:4294967295-8-E-1").unwrap();
    assert_eq!(p.speed, u32::MAX);
    assert_eq!(p.parity, Parity::Even);
}
