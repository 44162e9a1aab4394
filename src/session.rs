//! The decisions of the transport sessions, apart from their I/O: the
//! buffers and codec of one channel, and the correlation of responses with
//! the requests they answer.
use vstd::prelude::*;

use crate::codec::{buffer_after, decode_frame, encode_net, encode_rtu, frame_result_matches, CodecMode, SlaveCodec};
use crate::error::Error;
use crate::frame::{response_valid, RequestFrame, ResponseFrame};
use crate::queue::{swap_out, FixedQueue};

verus! {

/// The codec of a channel with its input and output buffers.
pub struct IoContext {
    pub codec: SlaveCodec,
    pub input: Vec<u8>,
    pub output: Vec<u8>,
}

impl IoContext {
    pub fn new(codec: SlaveCodec) -> (r: IoContext)
        ensures
            r.codec == codec,
            r.input@ == Seq::<u8>::empty(),
            r.output@ == Seq::<u8>::empty(),
    {
        IoContext { codec, input: Vec::new(), output: Vec::new() }
    }

    /// Decodes one request from the input buffer, which keeps what the
    /// codec leaves of it.
    pub fn decode(&mut self) -> (r: Result<Option<RequestFrame>, Error>)
        ensures
            final(self).codec == old(self).codec,
            final(self).output == old(self).output,
            frame_result_matches(decode_frame(old(self).codec.mode(), old(self).input@), r),
            final(self).input@ == buffer_after(
                old(self).codec.flow(),
                old(self).input@,
                decode_frame(old(self).codec.mode(), old(self).input@),
            ),
    {
        self.codec.decode(&mut self.input)
    }

    /// Encodes a response into the output buffer.
    pub fn encode(&mut self, response: ResponseFrame) -> (r: Result<(), Error>)
        requires
            response_valid(response.pdu@),
        ensures
            final(self).codec == old(self).codec,
            final(self).input == old(self).input,
            r is Ok,
            old(self).codec.mode() == CodecMode::Rtu ==> final(self).output@ == encode_rtu(
                response,
            ),
            old(self).codec.mode() == CodecMode::Net ==> final(self).output@ == encode_net(
                response,
            ),
    {
        self.codec.encode(response, &mut self.output)
    }

    /// Empties both buffers.
    pub fn reset(&mut self)
        ensures
            final(self).codec == old(self).codec,
            final(self).input@ == Seq::<u8>::empty(),
            final(self).output@ == Seq::<u8>::empty(),
    {
        self.input.clear();
        self.output.clear();
    }

    /// Sets the length of the input buffer, padding with zeros.
    pub fn resize_input(&mut self, size: usize)
        ensures
            final(self).codec == old(self).codec,
            final(self).output == old(self).output,
            final(self).input@.len() == size,
            size <= old(self).input@.len() ==> final(self).input@ == old(self).input@.take(
                size as int,
            ),
            size > old(self).input@.len() ==> final(self).input@ == old(self).input@ + Seq::new(
                (size - old(self).input@.len()) as nat,
                |i: int| 0u8,
            ),
    {
        if size <= self.input.len() {
            self.input.truncate(size);
        } else {
            let mut i: usize = self.input.len();
            let ghost start = self.input@;
            while i < size
                invariant
                    self.codec == old(self).codec,
                    self.output == old(self).output,
                    start.len() <= i <= size,
                    self.input@ == start + Seq::new((i - start.len()) as nat, |j: int| 0u8),
                decreases size - i,
            {
                self.input.push(0);
                i = i + 1;
                assert(self.input@ =~= start + Seq::new((i - start.len()) as nat, |j: int| 0u8));
            }
        }
    }

    /// The inter-frame silence rule of a serial line: after a read timeout
    /// a partial frame is dropped. Returns whether there was one.
    pub fn on_idle(&mut self) -> (r: bool)
        ensures
            final(self).codec == old(self).codec,
            r == (old(self).input@.len() > 0),
            r ==> final(self).input@ == Seq::<u8>::empty() && final(self).output@ == Seq::<
                u8,
            >::empty(),
            !r ==> *final(self) == *old(self),
    {
        if self.input.len() > 0 {
            self.reset();
            true
        } else {
            false
        }
    }
}

/// A request that waits for its response: the id given to it on the way
/// to the handler, and the transaction id of the frame it came in.
#[derive(Debug, Clone, Copy, PartialEq, Eq, Structural)]
pub struct MsgInfo {
    pub uuid: u128,
    pub mbid: u16,
}

/// The correlation state of a TCP session, which serves one request at a
/// time.
pub struct TcpExchange {
    pub wait_for: Option<MsgInfo>,
}

impl TcpExchange {
    pub fn new() -> (r: TcpExchange)
        ensures
            r.wait_for is None,
    {
        TcpExchange { wait_for: None }
    }

    /// Records a request sent to the handler. A request still waiting is
    /// replaced, and its response will no longer match; returns whether
    /// that happened.
    pub fn on_request(&mut self, uuid: u128, mbid: u16) -> (r: bool)
        ensures
            r == old(self).wait_for is Some,
            final(self).wait_for == Some(MsgInfo { uuid, mbid }),
    {
        let replaced = self.wait_for.is_some();
        self.wait_for = Some(MsgInfo { uuid, mbid });
        replaced
    }

    /// Matches a response with the waiting request: on a match, the
    /// transaction id to answer with, and nothing waits any more; a stale or
    /// unknown response changes nothing.
    pub fn on_response(&mut self, uuid: u128) -> (r: Option<u16>)
        ensures
            (old(self).wait_for matches Some(w) && w.uuid == uuid) ==> r == Some(
                old(self).wait_for->Some_0.mbid,
            ) && final(self).wait_for is None,
            !(old(self).wait_for matches Some(w) && w.uuid == uuid) ==> r is None && final(self).wait_for == old(self).wait_for,
    {
        match self.wait_for {
            Some(info) => {
                if info.uuid == uuid {
                    self.wait_for = None;
                    Some(info.mbid)
                } else {
                    None
                }
            },
            None => None,
        }
    }
}

/// Number of requests a UDP server keeps waiting for their responses.
pub const MAX_REQUESTS_NUM: usize = 256;

/// The correlation state of a UDP server: waiting requests with the peer
/// each came from, the oldest evicted when too many wait.
pub struct UdpExchange<A> {
    pub queue: FixedQueue<(MsgInfo, A)>,
}

impl<A> UdpExchange<A> {
    pub fn new() -> (r: UdpExchange<A>)
        ensures
            r.queue.wf(),
            r.queue.items() == Seq::<(MsgInfo, A)>::empty(),
            r.queue.limit() == MAX_REQUESTS_NUM,
    {
        UdpExchange { queue: FixedQueue::new(MAX_REQUESTS_NUM) }
    }

    /// Records a request sent to the handler, evicting the oldest waiting
    /// one if the queue is full.
    pub fn on_request(&mut self, uuid: u128, mbid: u16, peer: A)
        requires
            old(self).queue.wf(),
        ensures
            final(self).queue.wf(),
            final(self).queue.limit() == old(self).queue.limit(),
            old(self).queue.items().len() < old(self).queue.limit() ==> final(self).queue.items()
                == old(self).queue.items().push((MsgInfo { uuid, mbid }, peer)),
            old(self).queue.items().len() == old(self).queue.limit() && old(self).queue.limit() > 0
                ==> final(self).queue.items() == old(self).queue.items().drop_first().push(
                (MsgInfo { uuid, mbid }, peer),
            ),
    {
        self.queue.push_replace((MsgInfo { uuid, mbid }, peer));
    }

    /// Takes out the waiting request that a response answers; `None` if it
    /// is unknown or was evicted.
    pub fn on_response(&mut self, uuid: u128) -> (r: Option<(MsgInfo, A)>)
        requires
            old(self).queue.wf(),
        ensures
            final(self).queue.wf(),
            final(self).queue.limit() == old(self).queue.limit(),
            r matches Some(e) ==> e.0.uuid == uuid && exists|i: int|
                0 <= i < old(self).queue.items().len() && old(self).queue.items()[i] == e && (
                forall|j: int| 0 <= j < i ==> old(self).queue.items()[j].0.uuid != uuid)
                    && final(self).queue.items() == swap_out(old(self).queue.items(), i),
            r is None ==> final(self).queue.items() == old(self).queue.items() && forall|j: int|
                0 <= j < old(self).queue.items().len() ==> old(self).queue.items()[j].0.uuid
                    != uuid,
            r is Some ==> final(self).queue.items().len() + 1 == old(self).queue.items().len(),
    {
        let answers = |e: &(MsgInfo, A)| -> (b: bool)
            ensures
                b == (e.0.uuid == uuid),
            {
                let info = e.0;
                info.uuid == uuid
            };
        self.queue.take_if(answers)
    }
}

} // verus!
