//! The slave codec: decodes request frames from a byte buffer and encodes
//! response frames, in RTU or MBAP (TCP, UDP) framing.
use vstd::prelude::*;

use crate::context::{be16, ReadCtx, WriteCtx};
use crate::MAX_DATA_SIZE;
use crate::crc::{calc_crc_inner, crc_le, crc_of};
use crate::error::Error;
use crate::frame::{response_len, response_valid, RequestFrame, RequestModel, ResponseFrame, ResponseModel};
use crate::mbap::{decode_mbap, encode_mbap_prefix, read_mbap, write_mbap, Header};
use crate::pdu::{be_bytes, decode_pdu, encode_response, read_pdu, write_pdu, Decoded};
use crate::{COIL_OFF, COIL_ON};

verus! {

/// A decoded request frame: transaction id, slave address and PDU.
pub type FrameModel = (u16, u8, RequestModel);

/// Decoding of an RTU frame from the front of `s`: slave address, PDU and
/// CRC, the CRC taken over all three.
pub open spec fn decode_rtu(s: Seq<u8>) -> Decoded<FrameModel> {
    if s.len() < 1 {
        Decoded::Incomplete
    } else {
        match decode_pdu(s.skip(1)) {
            Decoded::Incomplete => Decoded::Incomplete,
            Decoded::Invalid(e) => Decoded::Invalid(e),
            Decoded::Done(m, n) => {
                if s.len() < n + 3 {
                    Decoded::Incomplete
                } else if crc_of(s.take(n + 3int)) != 0 {
                    Decoded::Invalid(Error::InvalidCrc)
                } else {
                    Decoded::Done((0u16, s[0], m), n + 3)
                }
            },
        }
    }
}

/// Decoding of an MBAP-framed request from the front of `s`.
pub open spec fn decode_net(s: Seq<u8>) -> Decoded<FrameModel> {
    match decode_mbap(s) {
        Decoded::Incomplete => Decoded::Incomplete,
        Decoded::Invalid(e) => Decoded::Invalid(e),
        Decoded::Done(h, k) => match decode_pdu(s.skip(7)) {
            Decoded::Incomplete => Decoded::Incomplete,
            Decoded::Invalid(e) => Decoded::Invalid(e),
            Decoded::Done(m, n) => Decoded::Done((h.id, h.slave, m), n + 7),
        },
    }
}

/// Decoding of a request frame in the given framing.
pub open spec fn decode_frame(mode: CodecMode, s: Seq<u8>) -> Decoded<FrameModel> {
    match mode {
        CodecMode::Rtu => decode_rtu(s),
        CodecMode::Net => decode_net(s),
    }
}

/// The wire form of a response frame in RTU framing.
pub open spec fn encode_rtu(f: ResponseFrame) -> Seq<u8> {
    let body = seq![f.slave] + encode_response(f.pdu@);
    body + crc_le(crc_of(body))
}

/// The wire form of a response frame in MBAP framing; the length field is
/// the PDU length plus one.
pub open spec fn encode_net(f: ResponseFrame) -> Seq<u8> {
    encode_mbap_prefix(f.id, (response_len(f.pdu@) + 1) as u16) + seq![f.slave] + encode_response(
        f.pdu@,
    )
}

/// The MBAP header of an encoded response reads back as the frame's
/// transaction id and slave, protocol id 0 and length field equal to the
/// PDU length plus one.
pub proof fn lemma_net_header_round_trip(f: ResponseFrame)
    requires
        response_len(f.pdu@) + 1 <= MAX_DATA_SIZE,
    ensures
        decode_mbap(encode_net(f)) == Decoded::Done(
            Header { id: f.id, proto: 0, len: (response_len(f.pdu@) + 1) as u16, slave: f.slave },
            7,
        ),
{
    let e = encode_net(f);
    let len = (response_len(f.pdu@) + 1) as u16;
    assert(e[0] == (f.id / 256) as u8 && e[1] == (f.id % 256) as u8);
    assert(e[4] == (len / 256) as u8 && e[5] == (len % 256) as u8);
    assert(e[6] == f.slave);
    assert(be16(e, 0) == f.id);
    assert(be16(e, 2) == 0);
    assert(be16(e, 4) == len);
}

/// The request whose shape a response repeats: the single writes (0x05,
/// 0x06) echo their request, and an encapsulated interface transport
/// response (0x2B) has the request's layout.
pub open spec fn echoed_request(m: ResponseModel) -> RequestModel {
    match m {
        ResponseModel::WriteSingleCoil { address, value } => RequestModel::WriteSingleCoil {
            address,
            value,
        },
        ResponseModel::WriteSingleRegister { address, value } => RequestModel::WriteSingleRegister {
            address,
            value,
        },
        ResponseModel::EncapsulatedInterfaceTransport {
            mei_type,
            data,
        } => RequestModel::EncapsulatedInterfaceTransport { mei_type, data },
        _ => RequestModel::Raw { function: 0, data: Seq::empty() },
    }
}

/// A response of a shape that a request also has, and that a request could
/// carry: an MEI type the decoder accepts, one payload byte for 0x0E, and a
/// length that fits the MBAP length field's limit.
pub open spec fn echo_shaped(m: ResponseModel) -> bool {
    match m {
        ResponseModel::WriteSingleCoil { .. } => true,
        ResponseModel::WriteSingleRegister { .. } => true,
        ResponseModel::EncapsulatedInterfaceTransport { mei_type, data } => 1 <= data.len() && (
        mei_type == 0x0D || (mei_type == 0x0E && data.len() == 1)) && data.len() + 3
            <= MAX_DATA_SIZE,
        _ => false,
    }
}

/// Round trip on the responses that have the shape of a request: the MBAP
/// encoding of such a frame decodes back, using all its bytes, to the same
/// transaction id, slave and PDU.
pub proof fn lemma_echo_round_trip(f: ResponseFrame)
    requires
        echo_shaped(f.pdu@),
    ensures
        decode_net(encode_net(f)) == Decoded::Done(
            (f.id, f.slave, echoed_request(f.pdu@)),
            encode_net(f).len(),
        ),
{
    lemma_net_header_round_trip(f);
    let e = encode_net(f);
    let p = e.skip(7);
    match f.pdu@ {
        ResponseModel::WriteSingleCoil { address, value } => {
            let raw: u16 = if value { COIL_ON } else { COIL_OFF };
            assert(p =~= seq![0x05u8] + be_bytes(address) + be_bytes(raw));
            assert(be16(p, 1) == address);
            assert(be16(p, 3) == raw);
        },
        ResponseModel::WriteSingleRegister { address, value } => {
            assert(p =~= seq![0x06u8] + be_bytes(address) + be_bytes(value));
            assert(be16(p, 1) == address);
            assert(be16(p, 3) == value);
        },
        ResponseModel::EncapsulatedInterfaceTransport { mei_type, data } => {
            assert(p =~= seq![0x2Bu8, mei_type] + data);
            assert(p.subrange(2, 2 + data.len() as int) =~= data);
        },
        _ => {},
    }
}

/// What a decode returns for a decoding outcome.
pub open spec fn frame_result_matches(
    d: Decoded<FrameModel>,
    r: Result<Option<RequestFrame>, Error>,
) -> bool {
    match d {
        Decoded::Incomplete => r == Ok::<Option<RequestFrame>, Error>(None),
        Decoded::Invalid(e) => r == Err::<Option<RequestFrame>, Error>(e),
        Decoded::Done(m, _) => r is Ok && r->Ok_0 is Some && r->Ok_0->Some_0@ == m,
    }
}

fn read_u8(ctx: &mut ReadCtx) -> (r: Result<Option<u8>, Error>)
    requires
        old(ctx).wf(),
    ensures
        final(ctx).wf(),
        final(ctx).bytes() == old(ctx).bytes(),
        old(ctx).pos() < old(ctx).bytes().len() ==> r == Ok::<Option<u8>, Error>(
            Some(old(ctx).bytes()[old(ctx).pos() as int]),
        ) && final(ctx).pos() == old(ctx).pos() + 1,
        old(ctx).pos() >= old(ctx).bytes().len() ==> r == Ok::<Option<u8>, Error>(None),
{
    Ok(ctx.read_u8())
}

fn write_u8(ctx: &mut WriteCtx, value: u8) -> (r: Result<Option<u8>, Error>)
    requires
        old(ctx).wf(),
    ensures
        final(ctx).wf(),
        final(ctx).capacity() == old(ctx).capacity(),
        old(ctx).written().len() < old(ctx).capacity() ==> r == Ok::<Option<u8>, Error>(
            Some(value),
        ) && final(ctx).written() == old(ctx).written().push(value),
        old(ctx).written().len() >= old(ctx).capacity() ==> r == Err::<Option<u8>, Error>(
            Error::BufferTooSmall,
        ),
{
    match ctx.write_u8(value) {
        Some(_) => Ok(Some(value)),
        None => Err(Error::BufferTooSmall),
    }
}

/// The first `n` bytes of `s`.
fn prefix(s: &[u8], n: usize) -> (r: &[u8])
    requires
        n <= s@.len(),
    ensures
        r@ == s@.take(n as int),
{
    vstd::slice::slice_subrange(s, 0, n)
}

/// Reads the CRC of an RTU frame that starts at the front of the cursor's
/// buffer, and checks it over all bytes read.
pub fn read_crc(ctx: &mut ReadCtx) -> (r: Result<Option<u16>, Error>)
    requires
        old(ctx).wf(),
    ensures
        final(ctx).wf(),
        final(ctx).bytes() == old(ctx).bytes(),
        old(ctx).pos() + 2 > old(ctx).bytes().len() ==> r == Ok::<Option<u16>, Error>(None),
        old(ctx).pos() + 2 <= old(ctx).bytes().len() ==> {
            &&& final(ctx).pos() == old(ctx).pos() + 2
            &&& crc_of(old(ctx).bytes().take(old(ctx).pos() as int + 2)) == 0 ==> r == Ok::<
                Option<u16>,
                Error,
            >(Some(be16(old(ctx).bytes(), old(ctx).pos() as int)))
            &&& crc_of(old(ctx).bytes().take(old(ctx).pos() as int + 2)) != 0 ==> r == Err::<
                Option<u16>,
                Error,
            >(Error::InvalidCrc)
        },
{
    let crc = match ctx.read_u16_be() {
        Some(x) => x,
        None => {
            return Ok(None);
        },
    };
    let end = ctx.processed();
    let calc = calc_crc_inner(0xFFFF, prefix(ctx.buffer(), end));
    if calc == 0 {
        Ok(Some(crc))
    } else {
        Err(Error::InvalidCrc)
    }
}

/// Appends the CRC of all bytes written so far, low byte first.
pub fn write_crc(ctx: &mut WriteCtx) -> (r: Result<Option<u16>, Error>)
    requires
        old(ctx).wf(),
    ensures
        final(ctx).wf(),
        final(ctx).capacity() == old(ctx).capacity(),
        old(ctx).written().len() + 2 <= old(ctx).capacity() ==> r is Ok && final(ctx).written()
            == old(ctx).written() + crc_le(crc_of(old(ctx).written())),
        old(ctx).written().len() + 2 > old(ctx).capacity() ==> r == Err::<Option<u16>, Error>(
            Error::BufferTooSmall,
        ),
{
    let crc = calc_crc_inner(0xFFFF, ctx.written_bytes());
    let ghost w0 = ctx.written();
    match ctx.write_u16(crc) {
        Some(_) => {
            assert((crc & 0xFFu16) == crc % 256 && (crc >> 8u16) == crc / 256) by (bit_vector);
            assert(ctx.written() =~= w0 + crc_le(crc));
            Ok(Some(crc))
        },
        None => Err(Error::BufferTooSmall),
    }
}

/// Reads an RTU frame from a cursor at the front of its buffer.
pub fn read_rtu_frame(ctx: &mut ReadCtx) -> (r: Result<Option<RequestFrame>, Error>)
    requires
        old(ctx).wf(),
        old(ctx).pos() == 0,
    ensures
        final(ctx).wf(),
        final(ctx).bytes() == old(ctx).bytes(),
        frame_result_matches(decode_rtu(old(ctx).bytes()), r),
        decode_rtu(old(ctx).bytes()) matches Decoded::Done(_, n) ==> final(ctx).pos() == n,
{
    let ghost s = old(ctx).bytes();
    assert(old(ctx).rest() =~= s);
    let slave = match read_u8(ctx)? {
        Some(x) => x,
        None => {
            return Ok(None);
        },
    };
    assert(ctx.rest() =~= s.skip(1));
    let pdu = match read_pdu(ctx)? {
        Some(x) => x,
        None => {
            return Ok(None);
        },
    };
    let _ = match read_crc(ctx)? {
        Some(x) => x,
        None => {
            return Ok(None);
        },
    };
    Ok(Some(RequestFrame::from_parts(0, slave, pdu)))
}

/// Writes a response frame in RTU framing.
pub fn write_rtu_frame(ctx: &mut WriteCtx, frame: &ResponseFrame) -> (r: Result<(), Error>)
    requires
        old(ctx).wf(),
        old(ctx).written().len() == 0,
        old(ctx).capacity() == response_len(frame.pdu@) + 3,
        response_valid(frame.pdu@),
    ensures
        final(ctx).wf(),
        final(ctx).capacity() == old(ctx).capacity(),
        r is Ok,
        final(ctx).written() == encode_rtu(*frame),
{
    write_u8(ctx, frame.slave)?;
    write_pdu(ctx, &frame.pdu)?;
    assert(ctx.written() =~= seq![frame.slave] + encode_response(frame.pdu@));
    write_crc(ctx)?;
    Ok(())
}

/// Reads an MBAP-framed request from a cursor.
pub fn read_net_frame(ctx: &mut ReadCtx) -> (r: Result<Option<RequestFrame>, Error>)
    requires
        old(ctx).wf(),
    ensures
        final(ctx).wf(),
        final(ctx).bytes() == old(ctx).bytes(),
        frame_result_matches(decode_net(old(ctx).rest()), r),
        decode_net(old(ctx).rest()) matches Decoded::Done(_, n) ==> final(ctx).pos() == old(ctx).pos() + n,
{
    let ghost s = old(ctx).rest();
    let header = match read_mbap(ctx)? {
        Some(x) => x,
        None => {
            return Ok(None);
        },
    };
    assert(ctx.rest() =~= s.skip(7));
    let pdu = match read_pdu(ctx)? {
        Some(x) => x,
        None => {
            return Ok(None);
        },
    };
    Ok(Some(RequestFrame { id: header.id, slave: header.slave, pdu }))
}

/// Writes a response frame in MBAP framing.
pub fn write_net_frame(ctx: &mut WriteCtx, frame: &ResponseFrame) -> (r: Result<(), Error>)
    requires
        old(ctx).wf(),
        old(ctx).written().len() == 0,
        old(ctx).capacity() == response_len(frame.pdu@) + 7,
        response_valid(frame.pdu@),
    ensures
        final(ctx).wf(),
        final(ctx).capacity() == old(ctx).capacity(),
        r is Ok,
        final(ctx).written() == encode_net(*frame),
{
    write_mbap(ctx, frame)?;
    write_u8(ctx, frame.slave)?;
    write_pdu(ctx, &frame.pdu)?;
    assert(ctx.written() =~= encode_net(*frame));
    Ok(())
}

fn frame_ok<T, E>(frame: &Result<Option<T>, E>) -> (r: bool)
    ensures
        r == (frame is Ok && frame->Ok_0 is Some),
{
    matches!(frame, Ok(Some(_)))
}

fn frame_err<T, E>(frame: &Result<Option<T>, E>) -> (r: bool)
    ensures
        r == frame is Err,
{
    matches!(frame, Err(_))
}

fn frame_in_prog<T, E>(frame: &Result<Option<T>, E>) -> (r: bool)
    ensures
        r == (frame is Ok && frame->Ok_0 is None),
{
    matches!(frame, Ok(None))
}

/// The frame layout.
#[derive(Debug, Clone, Copy, PartialEq, Eq, Structural)]
pub enum CodecMode {
    /// Serial RTU: slave address, PDU, CRC.
    Rtu,
    /// MBAP header, then PDU, as on TCP and UDP.
    Net,
}

/// How bytes arrive.
#[derive(Debug, Clone, Copy, PartialEq, Eq, Structural)]
pub enum CodecFlowType {
    /// Each buffer is one whole datagram.
    Packet,
    /// Bytes arrive as a stream and may be split anywhere.
    Stream,
}

impl CodecFlowType {
    fn is_packet(&self) -> (r: bool)
        ensures
            r == (*self == CodecFlowType::Packet),
    {
        matches!(self, CodecFlowType::Packet)
    }
}

/// The input buffer that a decode leaves behind: the rest after a frame;
/// all of it while more bytes are needed on a stream; nothing after an
/// error, or after an incomplete datagram.
pub open spec fn buffer_after(flow: CodecFlowType, s: Seq<u8>, d: Decoded<FrameModel>) -> Seq<u8> {
    match d {
        Decoded::Done(_, n) => s.skip(n as int),
        Decoded::Incomplete => if flow == CodecFlowType::Stream {
            s
        } else {
            Seq::empty()
        },
        Decoded::Invalid(_) => Seq::empty(),
    }
}

/// Decodes requests and encodes responses for one transport.
pub struct SlaveCodec {
    mode: CodecMode,
    data: CodecFlowType,
}

impl SlaveCodec {
    pub closed spec fn mode(&self) -> CodecMode {
        self.mode
    }

    pub closed spec fn flow(&self) -> CodecFlowType {
        self.data
    }

    /// Serial RTU on a byte stream.
    pub fn new_rtu() -> (r: SlaveCodec)
        ensures
            r.mode() == CodecMode::Rtu,
            r.flow() == CodecFlowType::Stream,
    {
        SlaveCodec { mode: CodecMode::Rtu, data: CodecFlowType::Stream }
    }

    /// MBAP framing on a TCP stream.
    pub fn new_tcp() -> (r: SlaveCodec)
        ensures
            r.mode() == CodecMode::Net,
            r.flow() == CodecFlowType::Stream,
    {
        SlaveCodec { mode: CodecMode::Net, data: CodecFlowType::Stream }
    }

    /// MBAP framing in UDP datagrams.
    pub fn new_udp() -> (r: SlaveCodec)
        ensures
            r.mode() == CodecMode::Net,
            r.flow() == CodecFlowType::Packet,
    {
        SlaveCodec { mode: CodecMode::Net, data: CodecFlowType::Packet }
    }

    fn advance_buffer(
        &self,
        src: &mut Vec<u8>,
        msg: &Result<Option<RequestFrame>, Error>,
        processed: usize,
    )
        requires
            (*msg matches Ok(Some(_))) ==> processed <= old(src)@.len(),
        ensures
            (*msg matches Ok(Some(_))) ==> final(src)@ == old(src)@.skip(processed as int),
            *msg is Err ==> final(src)@ == Seq::<u8>::empty(),
            (*msg matches Ok(None)) ==> final(src)@ == if self.data == CodecFlowType::Packet {
                Seq::<u8>::empty()
            } else {
                old(src)@
            },
    {
        if frame_ok(msg) {
            let rest = src.split_off(processed);
            *src = rest;
        } else {
            let reset = frame_err(msg) || (frame_in_prog(msg) && self.data.is_packet());
            if reset {
                src.clear();
            }
        }
    }

    /// Decodes one request from the front of `src`. On success the frame's
    /// bytes leave `src`; when more bytes are needed on a stream `src` stays
    /// as it is; after an error, or an incomplete datagram, `src` is emptied.
    pub fn decode(&self, src: &mut Vec<u8>) -> (r: Result<Option<RequestFrame>, Error>)
        ensures
            frame_result_matches(decode_frame(self.mode(), old(src)@), r),
            final(src)@ == buffer_after(
                self.flow(),
                old(src)@,
                decode_frame(self.mode(), old(src)@),
            ),
    {
        let ghost s = src@;
        let res;
        let processed;
        {
            let mut ctx = ReadCtx::new(src.as_slice());
            assert(ctx.rest() =~= s);
            res = match self.mode {
                CodecMode::Rtu => read_rtu_frame(&mut ctx),
                CodecMode::Net => read_net_frame(&mut ctx),
            };
            processed = ctx.processed();
        }
        self.advance_buffer(src, &res, processed);
        res
    }

    /// Encodes a response into `dst`, which afterwards holds exactly the
    /// frame's bytes.
    pub fn encode(&self, frame: ResponseFrame, dst: &mut Vec<u8>) -> (r: Result<(), Error>)
        requires
            response_valid(frame.pdu@),
        ensures
            r is Ok,
            self.mode() == CodecMode::Rtu ==> final(dst)@ == encode_rtu(frame),
            self.mode() == CodecMode::Net ==> final(dst)@ == encode_net(frame),
            self.mode() == CodecMode::Net ==> be16(final(dst)@, 4) == response_len(frame.pdu@) + 1,
    {
        proof {
            let e = encode_net(frame);
            let len = (response_len(frame.pdu@) + 1) as u16;
            assert(e[4] == (len / 256) as u8 && e[5] == (len % 256) as u8);
            assert(be16(e, 4) == len);
        }
        match self.mode {
            CodecMode::Rtu => {
                let size = frame.pdu.len() + 3;
                let mut ctx = WriteCtx::new(vec![0u8; size]);
                let res = write_rtu_frame(&mut ctx, &frame);
                *dst = ctx.into_inner();
                res
            },
            CodecMode::Net => {
                let size = frame.pdu.len() + 7;
                let mut ctx = WriteCtx::new(vec![0u8; size]);
                let res = write_net_frame(&mut ctx, &frame);
                *dst = ctx.into_inner();
                res
            },
        }
    }
}

/// The UDP side of the codec: a datagram that does not hold a valid
/// request is dropped rather than reported, since a datagram socket has
/// no stream to resynchronise.
pub struct UdpCodec {
    codec: SlaveCodec,
}

impl UdpCodec {
    #[verifier::type_invariant]
    spec fn inv(&self) -> bool {
        self.codec.mode() == CodecMode::Net && self.codec.flow() == CodecFlowType::Packet
    }

    pub fn new() -> (r: UdpCodec)
        ensures
            r.codec().mode() == CodecMode::Net,
            r.codec().flow() == CodecFlowType::Packet,
    {
        UdpCodec { codec: SlaveCodec::new_udp() }
    }

    pub closed spec fn codec(&self) -> SlaveCodec {
        self.codec
    }

    /// Decodes the request in the datagram `src`, which is emptied
    /// whatever it held unless a request was found and bytes follow it.
    pub fn decode(&self, src: &mut Vec<u8>) -> (r: Option<RequestFrame>)
        ensures
            match decode_net(old(src)@) {
                Decoded::Done(m, n) => r is Some && r->Some_0@ == m && final(src)@ == old(src)@.skip(n as int),
                _ => r is None && final(src)@ == Seq::<u8>::empty(),
            },
    {
        proof {
            use_type_invariant(&*self);
        }
        match self.codec.decode(src) {
            Ok(frame) => frame,
            Err(_) => None,
        }
    }

    /// Encodes a response into `dst` in MBAP framing.
    pub fn encode(&self, frame: ResponseFrame, dst: &mut Vec<u8>) -> (r: Result<(), Error>)
        requires
            response_valid(frame.pdu@),
        ensures
            r is Ok,
            final(dst)@ == encode_net(frame),
    {
        proof {
            use_type_invariant(&*self);
        }
        self.codec.encode(frame, dst)
    }
}

} // verus!
