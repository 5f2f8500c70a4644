//! Length-prefix framing over a byte stream.
//!
//! A connection accumulates received bytes in a buffer and slices one frame
//! off the front whenever the buffer holds a complete one: an 8-byte
//! big-endian payload length `N` followed by `N` payload bytes. A frame is
//! only consumed once all `N` payload bytes are present; partial data stays
//! buffered, never discarded. A stated length larger than the buffered data
//! is never an error by itself — it only means "keep reading", which the
//! caller bounds with its own end-of-stream handling.

use crate::sgcp::Request;
use crate::sgcp::RequestView;
use crate::sgcp::be_val;
use crate::sgcp::be_bytes;
use crate::sgcp::decode_request;
use crate::sgcp::lemma_be_bytes_len;
use crate::sgcp::lemma_be_val_of_be_bytes;
use crate::sgcp::read_be_u64;
use crate::sgcp::spec_decode_payload;
use crate::sgcp::spec_encode_frame;
use crate::sgcp::spec_encode_payload;
use crate::sgcp::wf_request;
use vstd::prelude::*;

verus! {

/// A complete frame (8-byte prefix plus full payload) is buffered.
pub open spec fn frame_ready(b: Seq<u8>) -> bool {
    b.len() >= 8 && b.len() >= 8 + be_val(b.subrange(0, 8))
}

/// Total size of the frame announced by the length prefix.
pub open spec fn frame_total(b: Seq<u8>) -> int {
    8 + be_val(b.subrange(0, 8))
}

/// The payload bytes of the buffered frame.
pub open spec fn frame_payload(b: Seq<u8>) -> Seq<u8> {
    b.subrange(8, frame_total(b))
}

/// Why a connection failed.
#[derive(Clone, Copy, PartialEq, Eq, Structural, Debug)]
pub enum ProtocolError {
    /// The peer closed the connection in the middle of a frame.
    Truncated,
    /// A complete frame arrived whose payload is not a valid request.
    Malformed,
}

/// Result of one attempt to slice a frame off the receive buffer.
pub enum ParseStep {
    /// A complete frame was consumed and decoded.
    Frame(Request),
    /// Not enough data is buffered yet; nothing was consumed.
    NeedMore,
    /// A complete frame is buffered but its payload does not decode.
    Malformed,
}

/// Result of handing the frame layer one read from the stream.
pub enum FrameOutcome {
    /// A complete frame was consumed and decoded.
    Frame(Request),
    /// The peer closed cleanly with nothing buffered.
    Closed,
    /// More reads are needed before a frame completes.
    Pending,
    /// The connection failed; no further frames should be read.
    Failed(ProtocolError),
}

/// The receive buffer of one connection.
pub struct FrameBuffer {
    buffer: Vec<u8>,
}

impl View for FrameBuffer {
    type V = Seq<u8>;

    closed spec fn view(&self) -> Seq<u8> {
        self.buffer@
    }
}

impl FrameBuffer {
    /// An empty receive buffer for a fresh connection.
    pub fn new() -> (r: Self)
        ensures
            r@ == Seq::<u8>::empty(),
    {
        FrameBuffer { buffer: Vec::new() }
    }

    /// Number of bytes currently buffered.
    pub fn len(&self) -> (n: usize)
        ensures
            n == self@.len(),
    {
        self.buffer.len()
    }

    /// Appends bytes read from the stream to the buffer.
    pub fn feed(&mut self, chunk: &[u8])
        ensures
            final(self)@ == old(self)@ + chunk@,
    {
        self.buffer.extend_from_slice(chunk);
    }

    /// Tries to slice one frame off the front of the buffer. Consumes
    /// bytes exactly when a complete frame decodes; otherwise the buffer
    /// is left untouched.
    pub fn try_parse(&mut self) -> (r: ParseStep)
        ensures
            !frame_ready(old(self)@) ==> r is NeedMore && final(self)@ == old(self)@,
            frame_ready(old(self)@) && spec_decode_payload(frame_payload(old(self)@)) is None
                ==> r is Malformed && final(self)@ == old(self)@,
            frame_ready(old(self)@) && spec_decode_payload(frame_payload(old(self)@)) is Some
                ==> r is Frame && spec_decode_payload(frame_payload(old(self)@))
                == Option::Some(r->Frame_0@) && final(self)@ == old(self)@.subrange(
                frame_total(old(self)@),
                old(self)@.len() as int,
            ),
    {
        if self.buffer.len() < 8 {
            return ParseStep::NeedMore;
        }
        let n64 = read_be_u64(self.buffer.as_slice(), 0);
        proof {
            assert(self.buffer@.subrange(0, 8) =~= self@.subrange(0, 8));
        }
        if n64 > (self.buffer.len() - 8) as u64 {
            return ParseStep::NeedMore;
        }
        let n = n64 as usize;
        let total = 8 + n;
        let payload_slice: &[u8] = &self.buffer.as_slice()[8..total];
        proof {
            assert(payload_slice@ =~= frame_payload(self@));
        }
        match decode_request(payload_slice) {
            Option::None => ParseStep::Malformed,
            Option::Some(req) => {
                let rest = self.buffer.split_off(total);
                self.buffer = rest;
                ParseStep::Frame(req)
            },
        }
    }

    /// Advances the frame layer by one read from the stream: `input` is
    /// what the read returned, and `eof` says the peer has closed. Exactly
    /// one of the outcomes results:
    /// a decoded frame once its bytes are all here, `Pending` while more
    /// reads are needed, a clean close only with an empty buffer, and an
    /// error for a truncated or undecodable frame.
    pub fn read_frame(&mut self, input: &[u8], eof: bool) -> (r: FrameOutcome)
        ensures
            ({
                let b = old(self)@ + input@;
                &&& frame_ready(b) && spec_decode_payload(frame_payload(b)) is Some ==> r
                    is Frame && spec_decode_payload(frame_payload(b)) == Option::Some(r->Frame_0@)
                    && final(self)@ == b.subrange(frame_total(b), b.len() as int)
                &&& frame_ready(b) && spec_decode_payload(frame_payload(b)) is None ==> r
                    == FrameOutcome::Failed(ProtocolError::Malformed) && final(self)@ == b
                &&& !frame_ready(b) && !eof ==> r is Pending && final(self)@ == b
                &&& !frame_ready(b) && eof && b.len() == 0 ==> r is Closed && final(self)@ == b
                &&& !frame_ready(b) && eof && b.len() > 0 ==> r == FrameOutcome::Failed(
                    ProtocolError::Truncated,
                ) && final(self)@ == b
            }),
    {
        self.feed(input);
        match self.try_parse() {
            ParseStep::Frame(req) => FrameOutcome::Frame(req),
            ParseStep::Malformed => FrameOutcome::Failed(ProtocolError::Malformed),
            ParseStep::NeedMore => {
                if !eof {
                    FrameOutcome::Pending
                } else if self.buffer.len() == 0 {
                    FrameOutcome::Closed
                } else {
                    FrameOutcome::Failed(ProtocolError::Truncated)
                }
            },
        }
    }
}

/// An encoded frame followed by any further stream bytes parses as exactly
/// that frame, leaving the further bytes in place.
pub proof fn lemma_frame_round_trip(r: RequestView, rest: Seq<u8>)
    requires
        wf_request(r),
    ensures
        ({
            let b = spec_encode_frame(r) + rest;
            &&& frame_ready(b)
            &&& frame_total(b) == spec_encode_frame(r).len()
            &&& spec_decode_payload(frame_payload(b)) == Option::Some(r)
            &&& b.subrange(frame_total(b), b.len() as int) == rest
        }),
{
    let payload = spec_encode_payload(r);
    let f = spec_encode_frame(r);
    let b = f + rest;
    lemma_be_bytes_len(payload.len() as int, 8);
    assert(b.subrange(0, 8) =~= be_bytes(payload.len() as int, 8));
    lemma_be_val_of_be_bytes(payload.len() as int, 8);
    assert(frame_payload(b) =~= payload);
    crate::sgcp::lemma_payload_round_trip(r);
    assert(b.subrange(frame_total(b), b.len() as int) =~= rest);
}

/// Partial-frame safety: no strict prefix of an encoded frame is ever
/// taken for a complete frame.
pub proof fn lemma_partial_frame_incomplete(r: RequestView, k: int)
    requires
        wf_request(r),
        0 <= k < spec_encode_frame(r).len(),
    ensures
        !frame_ready(spec_encode_frame(r).subrange(0, k)),
{
    let payload = spec_encode_payload(r);
    let f = spec_encode_frame(r);
    let p = f.subrange(0, k);
    lemma_be_bytes_len(payload.len() as int, 8);
    if k >= 8 {
        assert(p.subrange(0, 8) =~= be_bytes(payload.len() as int, 8));
        lemma_be_val_of_be_bytes(payload.len() as int, 8);
    }
}

} // verus!
