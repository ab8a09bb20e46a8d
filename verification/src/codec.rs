//! Length-prefixed framing for the wire protocol.
//!
//! Every message on the command channel is one frame: a 4-byte
//! little-endian unsigned length followed by exactly that many payload
//! bytes.  `encode_frame` produces a frame; `try_take_frame` extracts the
//! first complete frame from the bytes buffered so far, reporting when
//! more input is needed or when the advertised length is over the cap.

use vstd::bytes::{
    lemma_auto_spec_u32_to_from_le_bytes, spec_u32_from_le_bytes, spec_u32_to_le_bytes,
    u32_from_le_bytes, u32_to_le_bytes,
};
use vstd::prelude::*;
use vstd::slice::{slice_subrange, slice_to_vec};

verus! {

/// Largest payload accepted in a single frame.  The length prefix could
/// name anything up to `u32::MAX`; capping it guards the receiver against
/// memory exhaustion from a hostile length word.
pub const MAX_FRAME_PAYLOAD: u32 = 0x0400_0000;

/// The bytes of one whole frame carrying `payload`.
pub open spec fn spec_frame(payload: Seq<u8>) -> Seq<u8>
    recommends
        payload.len() <= u32::MAX,
{
    spec_u32_to_le_bytes(payload.len() as u32) + payload
}

/// What `try_take_frame` found at the front of the buffer.
pub enum FrameOutcome {
    /// The buffer does not yet hold one whole frame.
    NeedMore,
    /// The length prefix is over `MAX_FRAME_PAYLOAD`; the connection
    /// should be dropped.
    TooLarge,
    /// One whole frame: its payload, and how many buffered bytes the
    /// frame occupied (to be drained from the buffer).
    Ready(Vec<u8>, usize),
}

/// Frames one payload: 4-byte little-endian length, then the payload.
pub fn encode_frame(payload: &Vec<u8>) -> (r: Vec<u8>)
    requires
        payload@.len() <= u32::MAX,
    ensures
        r@ == spec_frame(payload@),
        r@.len() == 4 + payload@.len(),
{
    proof {
        lemma_auto_spec_u32_to_from_le_bytes();
    }
    let mut out = u32_to_le_bytes(payload.len() as u32);
    out.extend_from_slice(payload.as_slice());
    proof {
        assert(out@ =~= spec_frame(payload@));
    }
    out
}

/// Extracts the first complete frame from the bytes received so far.
///
/// The outcome is fully determined by the buffer: with fewer than 4
/// bytes, or with a complete prefix whose advertised payload has not
/// fully arrived, more input is needed; an advertised length over the
/// cap is refused; otherwise the payload bytes and the frame's total
/// size come back.
pub fn try_take_frame(buf: &Vec<u8>) -> (r: FrameOutcome)
    ensures
        ({
            let n = spec_u32_from_le_bytes(buf@.subrange(0, 4)) as int;
            &&& buf@.len() < 4 ==> r is NeedMore
            &&& buf@.len() >= 4 && n > MAX_FRAME_PAYLOAD ==> r is TooLarge
            &&& buf@.len() >= 4 && n <= MAX_FRAME_PAYLOAD && buf@.len() < 4 + n ==> r is NeedMore
            &&& buf@.len() >= 4 && n <= MAX_FRAME_PAYLOAD && buf@.len() >= 4 + n ==> (r matches
                FrameOutcome::Ready(p, c) && p@ == buf@.subrange(4, 4 + n) && c == 4 + n)
        }),
{
    if buf.len() < 4 {
        return FrameOutcome::NeedMore;
    }
    let len_word = u32_from_le_bytes(slice_subrange(buf.as_slice(), 0, 4));
    if len_word > MAX_FRAME_PAYLOAD {
        return FrameOutcome::TooLarge;
    }
    let n = len_word as usize;
    if buf.len() - 4 < n {
        return FrameOutcome::NeedMore;
    }
    let payload = slice_to_vec(slice_subrange(buf.as_slice(), 4, 4 + n));
    FrameOutcome::Ready(payload, 4 + n)
}

/// A frame deposited in front of any further bytes is recovered intact:
/// the length word reads back as the payload length, and the payload
/// bytes sit exactly at offsets 4 through `4 + payload.len()`.
/// Together with the contract of `try_take_frame` this gives the framing
/// round trip.
pub proof fn lemma_take_frame_of_encoded(payload: Seq<u8>, rest: Seq<u8>)
    requires
        payload.len() <= MAX_FRAME_PAYLOAD,
    ensures
        (spec_frame(payload) + rest).len() == 4 + payload.len() + rest.len(),
        spec_u32_from_le_bytes((spec_frame(payload) + rest).subrange(0, 4)) == payload.len(),
        (spec_frame(payload) + rest).subrange(4, 4 + payload.len() as int) == payload,
{
    lemma_auto_spec_u32_to_from_le_bytes();
    let b = spec_frame(payload) + rest;
    assert(b.subrange(0, 4) =~= spec_u32_to_le_bytes(payload.len() as u32));
    assert(b.subrange(4, 4 + payload.len() as int) =~= payload);
}

} // verus!
