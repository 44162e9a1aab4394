//! The frame model: request and response PDUs for the supported function
//! codes, exception codes, and frames that pair a PDU with its transaction
//! id and slave address.
use vstd::prelude::*;

use crate::checks::{coils_len, valid_coils_count, valid_registers_count};
use crate::storage::DataStorage;
use crate::views::{Bytes, Coils, Registers};
use crate::MAX_DATA_SIZE;

verus! {

/// Exception codes that a response may carry.
#[derive(Debug, Clone, Copy, PartialEq, Eq, Structural)]
pub enum Code {
    IllegalFunction,
    IllegalDataAddress,
    IllegalDataValue,
    SlaveDeviceFailure,
    Acknowledge,
    SlaveDeviceBusy,
    MemoryParityError,
    GatewayPathUnavailable,
    GatewayTargetDeciveFailedToRespond,
}

/// The byte that stands for an exception code on the wire.
pub open spec fn code_value(c: Code) -> u8 {
    match c {
        Code::IllegalFunction => 0x01,
        Code::IllegalDataAddress => 0x02,
        Code::IllegalDataValue => 0x03,
        Code::SlaveDeviceFailure => 0x04,
        Code::Acknowledge => 0x05,
        Code::SlaveDeviceBusy => 0x06,
        Code::MemoryParityError => 0x08,
        Code::GatewayPathUnavailable => 0x0A,
        Code::GatewayTargetDeciveFailedToRespond => 0x0B,
    }
}

impl Code {
    /// The wire byte of the code.
    pub fn value(&self) -> (r: u8)
        ensures
            r == code_value(*self),
    {
        match self {
            Code::IllegalFunction => 0x01,
            Code::IllegalDataAddress => 0x02,
            Code::IllegalDataValue => 0x03,
            Code::SlaveDeviceFailure => 0x04,
            Code::Acknowledge => 0x05,
            Code::SlaveDeviceBusy => 0x06,
            Code::MemoryParityError => 0x08,
            Code::GatewayPathUnavailable => 0x0A,
            Code::GatewayTargetDeciveFailedToRespond => 0x0B,
        }
    }
}

impl From<Code> for u8 {
    fn from(value: Code) -> (r: u8) {
        value.value()
    }
}

impl vstd::std_specs::convert::FromSpecImpl<Code> for u8 {
    open spec fn obeys_from_spec() -> bool {
        true
    }

    open spec fn from_spec(v: Code) -> u8 {
        code_value(v)
    }
}

/// A buffer holding the bytes of a producer.
fn bytes_storage<B: Bytes>(bytes: B) -> (r: DataStorage)
    requires
        1 <= bytes.bytes_view().len() <= MAX_DATA_SIZE,
    ensures
        r@ == bytes.bytes_view(),
{
    let len = bytes.bytes_count() as usize;
    let mut buf: Vec<u8> = vec![0u8; len];
    bytes.bytes_write(&mut buf);
    assert(bytes.bytes_view().subrange(0, len as int) =~= bytes.bytes_view());
    assert(buf@ =~= bytes.bytes_view());
    DataStorage::raw(buf.as_slice())
}

/// What a request PDU holds, with payloads as byte sequences.
#[allow(inconsistent_fields)]
pub ghost enum RequestModel {
    ReadCoils { address: u16, nobjs: u16 },
    ReadDiscreteInputs { address: u16, nobjs: u16 },
    ReadHoldingRegisters { address: u16, nobjs: u16 },
    ReadInputRegisters { address: u16, nobjs: u16 },
    WriteSingleCoil { address: u16, value: bool },
    WriteSingleRegister { address: u16, value: u16 },
    WriteMultipleCoils { address: u16, nobjs: u16, data: Seq<u8> },
    WriteMultipleRegisters { address: u16, nobjs: u16, data: Seq<u8> },
    EncapsulatedInterfaceTransport { mei_type: u8, data: Seq<u8> },
    Raw { function: u8, data: Seq<u8> },
}

/// The structural constraints of a request: counts in range and payloads
/// of the size that the counts call for.
pub open spec fn request_valid(m: RequestModel) -> bool {
    match m {
        RequestModel::ReadCoils { nobjs, .. } => valid_coils_count(nobjs as int),
        RequestModel::ReadDiscreteInputs { nobjs, .. } => valid_coils_count(nobjs as int),
        RequestModel::ReadHoldingRegisters { nobjs, .. } => valid_registers_count(nobjs as int),
        RequestModel::ReadInputRegisters { nobjs, .. } => valid_registers_count(nobjs as int),
        RequestModel::WriteSingleCoil { .. } => true,
        RequestModel::WriteSingleRegister { .. } => true,
        RequestModel::WriteMultipleCoils { nobjs, data, .. } => valid_coils_count(nobjs as int)
            && data.len() == coils_len(nobjs as int),
        RequestModel::WriteMultipleRegisters { nobjs, data, .. } => valid_registers_count(
            nobjs as int,
        ) && data.len() == 2 * nobjs,
        RequestModel::EncapsulatedInterfaceTransport { mei_type, data } => (mei_type == 0x0D
            || mei_type == 0x0E) && 1 <= data.len() <= MAX_DATA_SIZE,
        RequestModel::Raw { data, .. } => data.len() <= MAX_DATA_SIZE,
    }
}

/// Length of a request PDU on the wire, function byte included.
pub open spec fn request_len(m: RequestModel) -> nat {
    match m {
        RequestModel::WriteMultipleCoils { data, .. } => 6 + data.len(),
        RequestModel::WriteMultipleRegisters { data, .. } => 6 + data.len(),
        RequestModel::EncapsulatedInterfaceTransport { data, .. } => 2 + data.len(),
        RequestModel::Raw { data, .. } => 1 + data.len(),
        _ => 5,
    }
}

/// Function code of a request.
pub open spec fn request_func(m: RequestModel) -> u8 {
    match m {
        RequestModel::ReadCoils { .. } => 0x01,
        RequestModel::ReadDiscreteInputs { .. } => 0x02,
        RequestModel::ReadHoldingRegisters { .. } => 0x03,
        RequestModel::ReadInputRegisters { .. } => 0x04,
        RequestModel::WriteSingleCoil { .. } => 0x05,
        RequestModel::WriteSingleRegister { .. } => 0x06,
        RequestModel::WriteMultipleCoils { .. } => 0x0F,
        RequestModel::WriteMultipleRegisters { .. } => 0x10,
        RequestModel::EncapsulatedInterfaceTransport { .. } => 0x2B,
        RequestModel::Raw { function, .. } => function,
    }
}

/// A request PDU. Payload buffers hold coils packed, registers low byte
/// first, and other payloads as they came.
#[allow(inconsistent_fields)]
#[derive(Debug)]
pub enum RequestPdu {
    /// 0x01
    ReadCoils { address: u16, nobjs: u16 },
    /// 0x02
    ReadDiscreteInputs { address: u16, nobjs: u16 },
    /// 0x03
    ReadHoldingRegisters { address: u16, nobjs: u16 },
    /// 0x04
    ReadInputRegisters { address: u16, nobjs: u16 },
    /// 0x05
    WriteSingleCoil { address: u16, value: bool },
    /// 0x06
    WriteSingleRegister { address: u16, value: u16 },
    /// 0x0F
    WriteMultipleCoils { address: u16, nobjs: u16, data: DataStorage },
    /// 0x10
    WriteMultipleRegisters { address: u16, nobjs: u16, data: DataStorage },
    /// 0x2B
    EncapsulatedInterfaceTransport { mei_type: u8, data: DataStorage },
    /// Any other function code, with the bytes that followed it.
    Raw { function: u8, data: DataStorage },
}

impl View for RequestPdu {
    type V = RequestModel;

    open spec fn view(&self) -> RequestModel {
        match self {
            RequestPdu::ReadCoils { address, nobjs } => RequestModel::ReadCoils {
                address: *address,
                nobjs: *nobjs,
            },
            RequestPdu::ReadDiscreteInputs { address, nobjs } => RequestModel::ReadDiscreteInputs {
                address: *address,
                nobjs: *nobjs,
            },
            RequestPdu::ReadHoldingRegisters {
                address,
                nobjs,
            } => RequestModel::ReadHoldingRegisters { address: *address, nobjs: *nobjs },
            RequestPdu::ReadInputRegisters { address, nobjs } => RequestModel::ReadInputRegisters {
                address: *address,
                nobjs: *nobjs,
            },
            RequestPdu::WriteSingleCoil { address, value } => RequestModel::WriteSingleCoil {
                address: *address,
                value: *value,
            },
            RequestPdu::WriteSingleRegister { address, value } => RequestModel::WriteSingleRegister {
                address: *address,
                value: *value,
            },
            RequestPdu::WriteMultipleCoils {
                address,
                nobjs,
                data,
            } => RequestModel::WriteMultipleCoils { address: *address, nobjs: *nobjs, data: data@ },
            RequestPdu::WriteMultipleRegisters {
                address,
                nobjs,
                data,
            } => RequestModel::WriteMultipleRegisters {
                address: *address,
                nobjs: *nobjs,
                data: data@,
            },
            RequestPdu::EncapsulatedInterfaceTransport {
                mei_type,
                data,
            } => RequestModel::EncapsulatedInterfaceTransport { mei_type: *mei_type, data: data@ },
            RequestPdu::Raw { function, data } => RequestModel::Raw {
                function: *function,
                data: data@,
            },
        }
    }
}

impl RequestPdu {
    /// 0x01
    pub fn read_coils(address: u16, nobjs: u16) -> (r: RequestPdu)
        requires
            valid_coils_count(nobjs as int),
        ensures
            r@ == (RequestModel::ReadCoils { address, nobjs }),
    {
        RequestPdu::ReadCoils { address, nobjs }
    }

    /// 0x02
    pub fn read_discrete_inputs(address: u16, nobjs: u16) -> (r: RequestPdu)
        requires
            valid_coils_count(nobjs as int),
        ensures
            r@ == (RequestModel::ReadDiscreteInputs { address, nobjs }),
    {
        RequestPdu::ReadDiscreteInputs { address, nobjs }
    }

    /// 0x03
    pub fn read_holding_registers(address: u16, nobjs: u16) -> (r: RequestPdu)
        requires
            valid_registers_count(nobjs as int),
        ensures
            r@ == (RequestModel::ReadHoldingRegisters { address, nobjs }),
    {
        RequestPdu::ReadHoldingRegisters { address, nobjs }
    }

    /// 0x04
    pub fn read_input_registers(address: u16, nobjs: u16) -> (r: RequestPdu)
        requires
            valid_registers_count(nobjs as int),
        ensures
            r@ == (RequestModel::ReadInputRegisters { address, nobjs }),
    {
        RequestPdu::ReadInputRegisters { address, nobjs }
    }

    /// 0x05
    pub fn write_single_coil(address: u16, value: bool) -> (r: RequestPdu)
        ensures
            r@ == (RequestModel::WriteSingleCoil { address, value }),
    {
        RequestPdu::WriteSingleCoil { address, value }
    }

    /// 0x06
    pub fn write_single_register(address: u16, value: u16) -> (r: RequestPdu)
        ensures
            r@ == (RequestModel::WriteSingleRegister { address, value }),
    {
        RequestPdu::WriteSingleRegister { address, value }
    }

    /// 0x0F
    pub fn write_multiple_coils<C: Coils>(address: u16, coils: C) -> (r: RequestPdu)
        requires
            valid_coils_count(coils.coils_view().0 as int),
        ensures
            r@ == (RequestModel::WriteMultipleCoils {
                address,
                nobjs: coils.coils_view().0,
                data: coils.coils_view().1,
            }),
    {
        let nobjs = coils.coils_count();
        let data = DataStorage::coils(coils);
        RequestPdu::WriteMultipleCoils { address, nobjs, data }
    }

    /// 0x10
    pub fn write_multiple_registers<R: Registers>(address: u16, registers: R) -> (r: RequestPdu)
        requires
            valid_registers_count(registers.registers_view().0 as int),
        ensures
            r@ == (RequestModel::WriteMultipleRegisters {
                address,
                nobjs: registers.registers_view().0,
                data: registers.registers_view().1,
            }),
    {
        let nobjs = registers.registers_count();
        let data = DataStorage::registers(registers);
        RequestPdu::WriteMultipleRegisters { address, nobjs, data }
    }

    /// 0x2B
    pub fn encapsulated_interface_transport<B: Bytes>(mei_type: u8, bytes: B) -> (r: RequestPdu)
        requires
            1 <= bytes.bytes_view().len() <= MAX_DATA_SIZE,
        ensures
            r@ == (RequestModel::EncapsulatedInterfaceTransport {
                mei_type,
                data: bytes.bytes_view(),
            }),
    {
        let data = bytes_storage(bytes);
        RequestPdu::EncapsulatedInterfaceTransport { mei_type, data }
    }

    /// Any other function code.
    pub fn raw(func: u8, data: DataStorage) -> (r: RequestPdu)
        ensures
            r@ == (RequestModel::Raw { function: func, data: data@ }),
    {
        RequestPdu::Raw { function: func, data }
    }

    /// Length on the wire, function byte included.
    pub fn len(&self) -> (r: usize)
        ensures
            r == request_len(self@),
    {
        match self {
            RequestPdu::WriteMultipleCoils { data, .. } => 6 + data.len(),
            RequestPdu::WriteMultipleRegisters { data, .. } => 6 + data.len(),
            RequestPdu::EncapsulatedInterfaceTransport { data, .. } => 2 + data.len(),
            RequestPdu::Raw { data, .. } => 1 + data.len(),
            _ => 5,
        }
    }

    /// The function code; every request has one.
    pub fn func(&self) -> (r: Option<u8>)
        ensures
            r == Some(request_func(self@)),
    {
        match self {
            RequestPdu::ReadCoils { .. } => Some(0x1),
            RequestPdu::ReadDiscreteInputs { .. } => Some(0x2),
            RequestPdu::ReadHoldingRegisters { .. } => Some(0x3),
            RequestPdu::ReadInputRegisters { .. } => Some(0x4),
            RequestPdu::WriteSingleCoil { .. } => Some(0x5),
            RequestPdu::WriteSingleRegister { .. } => Some(0x6),
            RequestPdu::WriteMultipleCoils { .. } => Some(0xF),
            RequestPdu::WriteMultipleRegisters { .. } => Some(0x10),
            RequestPdu::EncapsulatedInterfaceTransport { .. } => Some(0x2b),
            RequestPdu::Raw { function, .. } => Some(*function),
        }
    }
}

/// What a response PDU holds, with payloads as byte sequences.
#[allow(inconsistent_fields)]
pub ghost enum ResponseModel {
    ReadCoils { nobjs: u16, data: Seq<u8> },
    ReadDiscreteInputs { nobjs: u16, data: Seq<u8> },
    ReadHoldingRegisters { nobjs: u16, data: Seq<u8> },
    ReadInputRegisters { nobjs: u16, data: Seq<u8> },
    WriteSingleCoil { address: u16, value: bool },
    WriteSingleRegister { address: u16, value: u16 },
    WriteMultipleCoils { address: u16, nobjs: u16 },
    WriteMultipleRegisters { address: u16, nobjs: u16 },
    EncapsulatedInterfaceTransport { mei_type: u8, data: Seq<u8> },
    Raw { function: u8, data: Seq<u8> },
    Exception { function: u8, code: Code },
}

/// A response that the encoder can put on the wire: a known shape, a byte
/// count that fits its one-byte field, and whole registers.
pub open spec fn response_valid(m: ResponseModel) -> bool {
    match m {
        ResponseModel::ReadCoils { data, .. } => data.len() <= 255,
        ResponseModel::ReadDiscreteInputs { data, .. } => data.len() <= 255,
        ResponseModel::ReadHoldingRegisters { data, .. } => data.len() <= 255 && data.len() % 2
            == 0,
        ResponseModel::ReadInputRegisters { data, .. } => data.len() <= 255 && data.len() % 2
            == 0,
        ResponseModel::EncapsulatedInterfaceTransport { data, .. } => data.len() <= MAX_DATA_SIZE,
        ResponseModel::Raw { .. } => false,
        _ => true,
    }
}

/// Length of a response PDU on the wire, function byte included.
pub open spec fn response_len(m: ResponseModel) -> nat {
    match m {
        ResponseModel::ReadCoils { data, .. } => 2 + data.len(),
        ResponseModel::ReadDiscreteInputs { data, .. } => 2 + data.len(),
        ResponseModel::ReadHoldingRegisters { data, .. } => 2 + data.len(),
        ResponseModel::ReadInputRegisters { data, .. } => 2 + data.len(),
        ResponseModel::EncapsulatedInterfaceTransport { data, .. } => 2 + data.len(),
        ResponseModel::Raw { data, .. } => 1 + data.len(),
        ResponseModel::Exception { .. } => 2,
        _ => 5,
    }
}

/// A response PDU. Payload buffers hold coils packed and registers low
/// byte first.
#[allow(inconsistent_fields)]
#[derive(Debug)]
pub enum ResponsePdu {
    /// 0x01
    ReadCoils { nobjs: u16, data: DataStorage },
    /// 0x02
    ReadDiscreteInputs { nobjs: u16, data: DataStorage },
    /// 0x03
    ReadHoldingRegisters { nobjs: u16, data: DataStorage },
    /// 0x04
    ReadInputRegisters { nobjs: u16, data: DataStorage },
    /// 0x05
    WriteSingleCoil { address: u16, value: bool },
    /// 0x06
    WriteSingleRegister { address: u16, value: u16 },
    /// 0x0F
    WriteMultipleCoils { address: u16, nobjs: u16 },
    /// 0x10
    WriteMultipleRegisters { address: u16, nobjs: u16 },
    /// 0x2B
    EncapsulatedInterfaceTransport { mei_type: u8, data: DataStorage },
    /// Any other function code.
    Raw { function: u8, data: DataStorage },
    /// The request failed; `function` has its high bit set.
    Exception { function: u8, code: Code },
}

impl View for ResponsePdu {
    type V = ResponseModel;

    open spec fn view(&self) -> ResponseModel {
        match self {
            ResponsePdu::ReadCoils { nobjs, data } => ResponseModel::ReadCoils {
                nobjs: *nobjs,
                data: data@,
            },
            ResponsePdu::ReadDiscreteInputs { nobjs, data } => ResponseModel::ReadDiscreteInputs {
                nobjs: *nobjs,
                data: data@,
            },
            ResponsePdu::ReadHoldingRegisters { nobjs, data } => ResponseModel::ReadHoldingRegisters {
                nobjs: *nobjs,
                data: data@,
            },
            ResponsePdu::ReadInputRegisters { nobjs, data } => ResponseModel::ReadInputRegisters {
                nobjs: *nobjs,
                data: data@,
            },
            ResponsePdu::WriteSingleCoil { address, value } => ResponseModel::WriteSingleCoil {
                address: *address,
                value: *value,
            },
            ResponsePdu::WriteSingleRegister { address, value } => ResponseModel::WriteSingleRegister {
                address: *address,
                value: *value,
            },
            ResponsePdu::WriteMultipleCoils { address, nobjs } => ResponseModel::WriteMultipleCoils {
                address: *address,
                nobjs: *nobjs,
            },
            ResponsePdu::WriteMultipleRegisters {
                address,
                nobjs,
            } => ResponseModel::WriteMultipleRegisters { address: *address, nobjs: *nobjs },
            ResponsePdu::EncapsulatedInterfaceTransport {
                mei_type,
                data,
            } => ResponseModel::EncapsulatedInterfaceTransport { mei_type: *mei_type, data: data@ },
            ResponsePdu::Raw { function, data } => ResponseModel::Raw {
                function: *function,
                data: data@,
            },
            ResponsePdu::Exception { function, code } => ResponseModel::Exception {
                function: *function,
                code: *code,
            },
        }
    }
}

impl ResponsePdu {
    /// Whether the encoder can put this response on the wire.
    pub fn is_encodable(&self) -> (r: bool)
        ensures
            r == response_valid(self@),
    {
        match self {
            ResponsePdu::ReadCoils { data, .. } => data.len() <= 255,
            ResponsePdu::ReadDiscreteInputs { data, .. } => data.len() <= 255,
            ResponsePdu::ReadHoldingRegisters { data, .. } => data.len() <= 255 && data.len() % 2
                == 0,
            ResponsePdu::ReadInputRegisters { data, .. } => data.len() <= 255 && data.len() % 2
                == 0,
            ResponsePdu::EncapsulatedInterfaceTransport { data, .. } => data.len()
                <= MAX_DATA_SIZE,
            ResponsePdu::Raw { .. } => false,
            _ => true,
        }
    }

    /// Length on the wire, function byte included.
    pub fn len(&self) -> (r: usize)
        ensures
            r == response_len(self@),
            r <= MAX_DATA_SIZE + 2,
    {
        match self {
            ResponsePdu::ReadCoils { data, .. } => 2 + data.len(),
            ResponsePdu::ReadDiscreteInputs { data, .. } => 2 + data.len(),
            ResponsePdu::ReadHoldingRegisters { data, .. } => 2 + data.len(),
            ResponsePdu::ReadInputRegisters { data, .. } => 2 + data.len(),
            ResponsePdu::EncapsulatedInterfaceTransport { data, .. } => 2 + data.len(),
            ResponsePdu::Raw { data, .. } => 1 + data.len(),
            ResponsePdu::Exception { .. } => 2,
            _ => 5,
        }
    }

    /// 0x01
    pub fn read_coils<C: Coils>(coils: C) -> (r: ResponsePdu)
        requires
            valid_coils_count(coils.coils_view().0 as int),
        ensures
            r@ == (ResponseModel::ReadCoils {
                nobjs: coils.coils_view().0,
                data: coils.coils_view().1,
            }),
    {
        let nobjs = coils.coils_count();
        ResponsePdu::ReadCoils { nobjs, data: DataStorage::coils(coils) }
    }

    /// 0x02
    pub fn read_discrete_inputs<C: Coils>(coils: C) -> (r: ResponsePdu)
        requires
            valid_coils_count(coils.coils_view().0 as int),
        ensures
            r@ == (ResponseModel::ReadDiscreteInputs {
                nobjs: coils.coils_view().0,
                data: coils.coils_view().1,
            }),
    {
        let nobjs = coils.coils_count();
        ResponsePdu::ReadDiscreteInputs { nobjs, data: DataStorage::coils(coils) }
    }

    /// 0x03
    pub fn read_holding_registers<R: Registers>(registers: R) -> (r: ResponsePdu)
        requires
            valid_registers_count(registers.registers_view().0 as int),
        ensures
            r@ == (ResponseModel::ReadHoldingRegisters {
                nobjs: registers.registers_view().0,
                data: registers.registers_view().1,
            }),
    {
        let nobjs = registers.registers_count();
        ResponsePdu::ReadHoldingRegisters { nobjs, data: DataStorage::registers(registers) }
    }

    /// 0x04
    pub fn read_input_registers<R: Registers>(registers: R) -> (r: ResponsePdu)
        requires
            valid_registers_count(registers.registers_view().0 as int),
        ensures
            r@ == (ResponseModel::ReadInputRegisters {
                nobjs: registers.registers_view().0,
                data: registers.registers_view().1,
            }),
    {
        let nobjs = registers.registers_count();
        ResponsePdu::ReadInputRegisters { nobjs, data: DataStorage::registers(registers) }
    }

    /// 0x05
    pub fn write_single_coil(address: u16, value: bool) -> (r: ResponsePdu)
        ensures
            r@ == (ResponseModel::WriteSingleCoil { address, value }),
    {
        ResponsePdu::WriteSingleCoil { address, value }
    }

    /// 0x06
    pub fn write_single_register(address: u16, value: u16) -> (r: ResponsePdu)
        ensures
            r@ == (ResponseModel::WriteSingleRegister { address, value }),
    {
        ResponsePdu::WriteSingleRegister { address, value }
    }

    /// 0x0F
    pub fn write_multiple_coils(address: u16, nobjs: u16) -> (r: ResponsePdu)
        requires
            valid_coils_count(nobjs as int),
        ensures
            r@ == (ResponseModel::WriteMultipleCoils { address, nobjs }),
    {
        ResponsePdu::WriteMultipleCoils { address, nobjs }
    }

    /// 0x10
    pub fn write_multiple_registers(address: u16, nobjs: u16) -> (r: ResponsePdu)
        requires
            valid_registers_count(nobjs as int),
        ensures
            r@ == (ResponseModel::WriteMultipleRegisters { address, nobjs }),
    {
        ResponsePdu::WriteMultipleRegisters { address, nobjs }
    }

    /// 0x2B
    pub fn encapsulated_interface_transport(mei_type: u8, data: &[u8]) -> (r: ResponsePdu)
        requires
            1 <= data@.len() <= MAX_DATA_SIZE,
        ensures
            r@ == (ResponseModel::EncapsulatedInterfaceTransport { mei_type, data: data@ }),
    {
        ResponsePdu::EncapsulatedInterfaceTransport { mei_type, data: DataStorage::raw(data) }
    }

    /// An exception response to function `func`.
    pub fn exception(func: u8, code: Code) -> (r: ResponsePdu)
        ensures
            r@ == (ResponseModel::Exception { function: func | 0x80u8, code }),
    {
        ResponsePdu::Exception { function: func | 0x80, code }
    }

    /// Any other function code.
    pub fn raw(func: u8, data: DataStorage) -> (r: ResponsePdu)
        ensures
            r@ == (ResponseModel::Raw { function: func, data: data@ }),
    {
        ResponsePdu::Raw { function: func, data }
    }
}

/// A request with its transaction id (0 on RTU) and slave address.
#[derive(Debug)]
pub struct RequestFrame {
    pub id: u16,
    pub slave: u8,
    pub pdu: RequestPdu,
}

impl View for RequestFrame {
    /// Transaction id, slave address and PDU.
    type V = (u16, u8, RequestModel);

    open spec fn view(&self) -> (u16, u8, RequestModel) {
        (self.id, self.slave, self.pdu@)
    }
}

impl RequestFrame {
    /// A frame with transaction id 0, as on RTU.
    pub fn new(slave: u8, pdu: RequestPdu) -> (r: RequestFrame)
        ensures
            r.id == 0,
            r.slave == slave,
            r.pdu == pdu,
    {
        RequestFrame { id: 0, slave, pdu }
    }

    pub fn from_parts(id: u16, slave: u8, pdu: RequestPdu) -> (r: RequestFrame)
        ensures
            r.id == id,
            r.slave == slave,
            r.pdu == pdu,
    {
        RequestFrame { id, slave, pdu }
    }
}

/// A response with its transaction id (0 on RTU) and slave address.
#[derive(Debug)]
pub struct ResponseFrame {
    pub id: u16,
    pub slave: u8,
    pub pdu: ResponsePdu,
}

impl View for ResponseFrame {
    /// Transaction id, slave address and PDU.
    type V = (u16, u8, ResponseModel);

    open spec fn view(&self) -> (u16, u8, ResponseModel) {
        (self.id, self.slave, self.pdu@)
    }
}

impl ResponseFrame {
    /// A frame with transaction id 0, as on RTU.
    pub fn new(slave: u8, pdu: ResponsePdu) -> (r: ResponseFrame)
        ensures
            r.id == 0,
            r.slave == slave,
            r.pdu == pdu,
    {
        ResponseFrame { id: 0, slave, pdu }
    }

    pub fn from_parts(id: u16, slave: u8, pdu: ResponsePdu) -> (r: ResponseFrame)
        ensures
            r.id == id,
            r.slave == slave,
            r.pdu == pdu,
    {
        ResponseFrame { id, slave, pdu }
    }
}

} // verus!
