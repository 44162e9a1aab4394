//! The MBAP header that precedes a PDU on TCP and UDP.
use vstd::prelude::*;

use crate::context::{be16, ReadCtx, WriteCtx};
use crate::error::Error;
use crate::frame::{response_len, ResponseFrame};
use crate::pdu::{be_bytes, check_capacity, Decoded};
use crate::MAX_DATA_SIZE;

verus! {

/// An MBAP header: transaction id, protocol id, length of what follows
/// the length field (slave byte and PDU), and slave address.
#[derive(Debug, Clone, Copy, PartialEq, Eq, Structural)]
pub struct Header {
    pub id: u16,
    pub proto: u16,
    pub len: u16,
    pub slave: u8,
}

impl Header {
    /// A header with protocol id 0.
    pub fn new(id: u16, len: u16, slave: u8) -> (r: Header)
        requires
            0 < len < MAX_DATA_SIZE,
        ensures
            r == (Header { id, proto: 0, len, slave }),
    {
        Header { id, proto: 0, len, slave }
    }
}

/// A header that the decoder accepts.
pub open spec fn header_valid(h: Header) -> bool {
    h.proto == 0 && 2 <= h.len <= MAX_DATA_SIZE
}

/// Decoding of an MBAP header from the front of `s`.
pub open spec fn decode_mbap(s: Seq<u8>) -> Decoded<Header> {
    if s.len() < 7 {
        Decoded::Incomplete
    } else {
        let h = Header { id: be16(s, 0), proto: be16(s, 2), len: be16(s, 4), slave: s[6] };
        if h.proto != 0 {
            Decoded::Invalid(Error::InvalidVersion)
        } else if h.len < 2 || h.len > MAX_DATA_SIZE {
            Decoded::Invalid(Error::InvalidData)
        } else {
            Decoded::Done(h, 7)
        }
    }
}

/// The first six bytes of a header on the wire; the slave byte follows.
pub open spec fn encode_mbap_prefix(id: u16, len: u16) -> Seq<u8> {
    be_bytes(id) + be_bytes(0) + be_bytes(len)
}

fn validate_mbap(mbap: &Header) -> (r: Result<(), Error>)
    ensures
        mbap.proto != 0 ==> r == Err::<(), Error>(Error::InvalidVersion),
        mbap.proto == 0 && (mbap.len < 2 || mbap.len > MAX_DATA_SIZE) ==> r == Err::<(), Error>(
            Error::InvalidData,
        ),
        header_valid(*mbap) ==> r == Ok::<(), Error>(()),
{
    if mbap.proto != 0 {
        Err(Error::InvalidVersion)
    } else if mbap.len < 2 || mbap.len as usize > MAX_DATA_SIZE {
        Err(Error::InvalidData)
    } else {
        Ok(())
    }
}

/// Reads an MBAP header from `ctx`. `Ok(None)` means that fewer than seven
/// bytes remain; on success the cursor stands after the header.
pub fn read_mbap(ctx: &mut ReadCtx) -> (r: Result<Option<Header>, Error>)
    requires
        old(ctx).wf(),
    ensures
        final(ctx).wf(),
        final(ctx).bytes() == old(ctx).bytes(),
        match decode_mbap(old(ctx).rest()) {
            Decoded::Incomplete => r == Ok::<Option<Header>, Error>(None),
            Decoded::Invalid(e) => r == Err::<Option<Header>, Error>(e),
            Decoded::Done(h, n) => r == Ok::<Option<Header>, Error>(Some(h)) && final(ctx).pos()
                == old(ctx).pos() + n,
        },
{
    let ghost s = old(ctx).rest();
    let id = match ctx.read_u16_be() {
        Some(x) => x,
        None => {
            return Ok(None);
        },
    };
    let proto = match ctx.read_u16_be() {
        Some(x) => x,
        None => {
            return Ok(None);
        },
    };
    let len = match ctx.read_u16_be() {
        Some(x) => x,
        None => {
            return Ok(None);
        },
    };
    let slave = match ctx.read_u8() {
        Some(x) => x,
        None => {
            return Ok(None);
        },
    };
    let mbap = Header { id, proto, len, slave };
    assert(be16(s, 0) == id && be16(s, 2) == proto && be16(s, 4) == len && s[6] == slave);
    validate_mbap(&mbap)?;
    Ok(Some(mbap))
}

/// Writes the first six header bytes of a response frame: its id,
/// protocol id 0, and the length field, which is the PDU length plus one
/// (the slave byte that follows is counted too).
pub fn write_mbap(ctx: &mut WriteCtx, frame: &ResponseFrame) -> (r: Result<(), Error>)
    requires
        old(ctx).wf(),
    ensures
        final(ctx).wf(),
        final(ctx).capacity() == old(ctx).capacity(),
        old(ctx).written().len() + 6 <= old(ctx).capacity() ==> {
            &&& r == Ok::<(), Error>(())
            &&& final(ctx).written() == old(ctx).written() + encode_mbap_prefix(
                frame.id,
                (response_len(frame.pdu@) + 1) as u16,
            )
            &&& be16(final(ctx).written(), old(ctx).written().len() as int + 4) == response_len(
                frame.pdu@,
            ) + 1
        },
        old(ctx).written().len() + 6 > old(ctx).capacity() ==> r == Err::<(), Error>(
            Error::BufferTooSmall,
        ),
{
    check_capacity(6, ctx)?;
    let len = (frame.pdu.len() + 1) as u16;
    let ghost w0 = ctx.written();
    ctx.write_u16_be(frame.id);
    ctx.write_u16_be(0);
    ctx.write_u16_be(len);
    assert(ctx.written() =~= w0 + encode_mbap_prefix(frame.id, len));
    assert(be16(ctx.written(), w0.len() as int + 4) == len);
    Ok(())
}

} // verus!
