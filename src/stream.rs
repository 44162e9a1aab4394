//! Laws of incremental decoding on a byte stream: a decoder that sees a
//! prefix of the input either asks for more bytes or finds the same frame
//! that it finds in the whole input.
use vstd::prelude::*;

use crate::codec::{buffer_after, decode_frame, CodecFlowType, CodecMode, FrameModel};
use crate::mbap::decode_mbap;
use crate::error::Error;
use crate::pdu::{decode_pdu, lemma_decoded_request_valid, Decoded};

verus! {

/// A PDU whose length follows from its leading fields. A raw PDU of an
/// unknown function, and an 0x2B request of MEI type 0x0D, take whatever
/// bytes follow and are not of this kind.
pub open spec fn fixed_length_pdu(s: Seq<u8>) -> bool {
    s.len() >= 1 && {
        let f = s[0];
        (1 <= f <= 6) || f == 0x0F || f == 0x10 || (f == 0x2B && (s.len() < 2 || s[1] != 0x0D))
    }
}

/// A frame whose PDU, if any, is of fixed length.
pub open spec fn fixed_length_frame(mode: CodecMode, s: Seq<u8>) -> bool {
    match mode {
        CodecMode::Rtu => s.len() < 2 || fixed_length_pdu(s.skip(1)),
        CodecMode::Net => s.len() < 8 || fixed_length_pdu(s.skip(7)),
    }
}

/// How the outcome on a prefix relates to the outcome on the whole input.
pub open spec fn prefix_consistent<T>(whole: Decoded<T>, part: Decoded<T>, k: int) -> bool {
    match whole {
        Decoded::Done(m, n) => if k >= n {
            part == Decoded::Done(m, n)
        } else {
            part is Incomplete
        },
        Decoded::Invalid(e) => part is Incomplete || part == Decoded::<T>::Invalid(e),
        Decoded::Incomplete => part is Incomplete,
    }
}

proof fn lemma_pdu_prefix(s: Seq<u8>, k: int)
    requires
        0 <= k <= s.len(),
        fixed_length_pdu(s),
    ensures
        prefix_consistent(decode_pdu(s), decode_pdu(s.take(k)), k),
{
    let p = s.take(k);
    if k >= 1 {
        assert(p[0] == s[0]);
    }
    if k >= 2 {
        assert(p[1] == s[1]);
    }
    if k >= 5 {
        assert(p[1] == s[1] && p[2] == s[2] && p[3] == s[3] && p[4] == s[4]);
    }
    if k >= 6 {
        assert(p[5] == s[5]);
        let nb = s[5] as int;
        if k >= 6 + nb {
            assert(p.subrange(6, 6 + nb) =~= s.subrange(6, 6 + nb));
        }
    }
    if k >= 3 {
        assert(p.subrange(2, 3) =~= s.subrange(2, 3));
    }
}

proof fn lemma_mbap_prefix(s: Seq<u8>, k: int)
    requires
        0 <= k <= s.len(),
    ensures
        prefix_consistent(decode_mbap(s), decode_mbap(s.take(k)), k),
{
    let p = s.take(k);
    if k >= 7 {
        assert(p[0] == s[0] && p[1] == s[1] && p[2] == s[2] && p[3] == s[3]);
        assert(p[4] == s[4] && p[5] == s[5] && p[6] == s[6]);
    }
}

proof fn lemma_frame_prefix(mode: CodecMode, s: Seq<u8>, k: int)
    requires
        0 <= k <= s.len(),
        fixed_length_frame(mode, s),
    ensures
        prefix_consistent(decode_frame(mode, s), decode_frame(mode, s.take(k)), k),
{
    let p = s.take(k);
    match mode {
        CodecMode::Rtu => {
            if k >= 1 {
                assert(p[0] == s[0]);
                assert(p.skip(1) =~= s.skip(1).take(k - 1));
                if s.len() >= 2 {
                    lemma_pdu_prefix(s.skip(1), k - 1);
                }
                if let Decoded::Done(m, n) = decode_pdu(s.skip(1)) {
                    if k >= n + 3 {
                        assert(p.take(n + 3int) =~= s.take(n + 3int));
                    }
                }
            }
        },
        CodecMode::Net => {
            lemma_mbap_prefix(s, k);
            if k >= 7 {
                assert(p.skip(7) =~= s.skip(7).take(k - 7));
                if s.len() >= 8 {
                    lemma_pdu_prefix(s.skip(7), k - 7);
                }
            }
        },
    }
}

/// Splitting a stream anywhere does not change what is decoded: if the
/// first part already holds a frame, it is the frame of the whole stream,
/// and what is left of the first part followed by the second part is what
/// is left of the whole stream; if it needs more bytes, the buffer that
/// waits for the second part is the first part itself, so that once the
/// second part arrives the decoder sees the whole stream; and an error on
/// the first part is the error on the whole stream.
pub proof fn lemma_split_stream(mode: CodecMode, b1: Seq<u8>, b2: Seq<u8>)
    requires
        fixed_length_frame(mode, b1 + b2),
    ensures
        ({
            let b = b1 + b2;
            let d1 = decode_frame(mode, b1);
            let d = decode_frame(mode, b);
            match d1 {
                Decoded::Incomplete => buffer_after(CodecFlowType::Stream, b1, d1) + b2 == b,
                Decoded::Done(f, n) => d == d1 && buffer_after(CodecFlowType::Stream, b1, d1) + b2
                    == buffer_after(CodecFlowType::Stream, b, d),
                Decoded::Invalid(e) => d == d1,
            }
        }),
{
    let b = b1 + b2;
    assert(b.take(b1.len() as int) =~= b1);
    lemma_frame_prefix(mode, b, b1.len() as int);
    if let Decoded::Done(f, n) = decode_frame(mode, b1) {
        assert(b1.skip(n as int) + b2 =~= b.skip(n as int));
    }
}

/// Decoding a buffer frame after frame until more bytes are needed or an
/// error comes: the frames found, the bytes left waiting, and the error
/// that ended it, if one did.
pub open spec fn decode_all(mode: CodecMode, s: Seq<u8>) -> (Seq<FrameModel>, Seq<u8>, Option<Error>)
    decreases s.len(),
{
    match decode_frame(mode, s) {
        Decoded::Done(f, n) => if 0 < n <= s.len() {
            let r = decode_all(mode, s.skip(n as int));
            (seq![f] + r.0, r.1, r.2)
        } else {
            (Seq::empty(), s, None)
        },
        Decoded::Incomplete => (Seq::empty(), s, None),
        Decoded::Invalid(e) => (Seq::empty(), Seq::empty(), Some(e)),
    }
}

/// Every frame that decoding `s` frame after frame meets is of fixed length.
pub open spec fn all_fixed_length(mode: CodecMode, s: Seq<u8>) -> bool
    decreases s.len(),
{
    fixed_length_frame(mode, s) && match decode_frame(mode, s) {
        Decoded::Done(_, n) => if 0 < n <= s.len() {
            all_fixed_length(mode, s.skip(n as int))
        } else {
            true
        },
        _ => true,
    }
}

proof fn lemma_frame_length(mode: CodecMode, s: Seq<u8>)
    ensures
        decode_frame(mode, s) matches Decoded::Done(_, n) ==> 0 < n <= s.len(),
{
    match mode {
        CodecMode::Rtu => {
            if s.len() >= 1 {
                lemma_decoded_request_valid(s.skip(1));
            }
        },
        CodecMode::Net => {
            if s.len() >= 7 {
                lemma_decoded_request_valid(s.skip(7));
            }
        },
    }
}

/// Feeding a stream in two parts gives the frames that feeding it whole
/// gives: the frames found in the first part, followed by those found once
/// the second part is appended to what the first part left waiting, are
/// the frames of the whole stream, with the same bytes left over and the
/// same error, if any. An error in the first part is the error of the
/// whole stream, after the same frames.
pub proof fn lemma_split_stream_frames(mode: CodecMode, b1: Seq<u8>, b2: Seq<u8>)
    requires
        all_fixed_length(mode, b1 + b2),
    ensures
        ({
            let r1 = decode_all(mode, b1);
            let r = decode_all(mode, b1 + b2);
            &&& r1.2 is None ==> {
                let r2 = decode_all(mode, r1.1 + b2);
                &&& r1.0 + r2.0 == r.0
                &&& r2.1 == r.1
                &&& r2.2 == r.2
            }
            &&& r1.2 is Some ==> r1.0 == r.0 && r1.2 == r.2
        }),
    decreases b1.len(),
{
    let b = b1 + b2;
    lemma_split_stream(mode, b1, b2);
    lemma_frame_length(mode, b1);
    lemma_frame_length(mode, b);
    match decode_frame(mode, b1) {
        Decoded::Done(f, n) => {
            assert(b.skip(n as int) =~= b1.skip(n as int) + b2);
            lemma_split_stream_frames(mode, b1.skip(n as int), b2);
            let r1 = decode_all(mode, b1.skip(n as int));
            let r = decode_all(mode, b.skip(n as int));
            if r1.2 is None {
                let r2 = decode_all(mode, r1.1 + b2);
                assert(seq![f] + r1.0 + r2.0 =~= seq![f] + (r1.0 + r2.0));
            }
        },
        Decoded::Incomplete => {
            assert(Seq::<FrameModel>::empty() + decode_all(mode, b).0 =~= decode_all(mode, b).0);
        },
        Decoded::Invalid(_) => {},
    }
}

} // verus!
