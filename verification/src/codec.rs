//! The frame codec: length-prefixed framing over a raw byte stream.
//!
//! A frame is a four-byte big-endian length prefix followed by exactly that
//! many payload bytes. The codec knows nothing about payload semantics; the
//! same framing carries outbound transactions and inbound acknowledgments.

use vstd::prelude::*;

use crate::encoding::{be32_bytes, be32_value, lemma_be32_round_trip, push_be32, read_be32};

verus! {

/// Largest payload length a frame may declare or carry, in bytes.
pub const MAX_FRAME_LEN: u32 = 8388608;

/// Why a byte stream could not be framed or unframed.
#[derive(Clone, Copy, Debug, PartialEq, Eq, Structural)]
pub enum FramingError {
    /// A payload, or a length prefix, exceeds `MAX_FRAME_LEN`.
    Oversized,
    /// The stream ended in the middle of a frame.
    Truncated,
}

/// The bytes of one whole frame: the big-endian length prefix, then the payload.
pub open spec fn frame_bytes(payload: Seq<u8>) -> Seq<u8>
    recommends
        payload.len() <= MAX_FRAME_LEN,
{
    be32_bytes(payload.len() as u32) + payload
}

/// The payload length that the first four buffered bytes declare.
pub open spec fn declared_len(s: Seq<u8>) -> int
    recommends
        s.len() >= 4,
{
    be32_value(s.subrange(0, 4))
}

/// Whether the buffered bytes begin with one whole, acceptable frame.
pub open spec fn has_whole_frame(s: Seq<u8>) -> bool {
    &&& s.len() >= 4
    &&& declared_len(s) <= MAX_FRAME_LEN
    &&& s.len() >= 4 + declared_len(s)
}

/// Encodes one payload as a frame, refusing payloads over `MAX_FRAME_LEN`.
pub fn encode_frame(payload: &Vec<u8>) -> (r: Result<Vec<u8>, FramingError>)
    ensures
        payload@.len() <= MAX_FRAME_LEN ==> (r matches Ok(f) && f@ == frame_bytes(payload@)),
        payload@.len() > MAX_FRAME_LEN ==> r == Err::<Vec<u8>, FramingError>(
            FramingError::Oversized,
        ),
{
    if payload.len() > MAX_FRAME_LEN as usize {
        return Err(FramingError::Oversized);
    }
    let mut out: Vec<u8> = Vec::new();
    push_be32(&mut out, payload.len() as u32);
    let mut i: usize = 0;
    while i < payload.len()
        invariant
            i <= payload@.len(),
            out@ == be32_bytes(payload@.len() as u32) + payload@.subrange(0, i as int),
        decreases payload@.len() - i,
    {
        out.push(payload[i]);
        i = i + 1;
        proof {
            assert(out@ =~= be32_bytes(payload@.len() as u32) + payload@.subrange(0, i as int));
        }
    }
    proof {
        assert(payload@.subrange(0, payload@.len() as int) =~= payload@);
    }
    Ok(out)
}

/// A frame round-trips: the encoded bytes declare the payload's length and
/// carry the payload itself, unsplit and unmerged, after the prefix.
pub proof fn lemma_frame_round_trip(payload: Seq<u8>)
    requires
        payload.len() <= MAX_FRAME_LEN,
    ensures
        frame_bytes(payload).len() == payload.len() + 4,
        declared_len(frame_bytes(payload)) == payload.len(),
        has_whole_frame(frame_bytes(payload)),
        frame_bytes(payload).subrange(4, frame_bytes(payload).len() as int) == payload,
{
    lemma_be32_round_trip(payload.len() as u32);
    assert(frame_bytes(payload).subrange(0, 4) =~= be32_bytes(payload.len() as u32));
    assert(frame_bytes(payload).subrange(4, frame_bytes(payload).len() as int) =~= payload);
}

/// What one decoding attempt on the buffered bytes produced.
#[derive(Debug)]
pub enum FrameStep {
    /// Not enough bytes buffered yet for a whole frame.
    Incomplete,
    /// The length prefix claims more than `MAX_FRAME_LEN` bytes.
    Oversized,
    /// One whole payload, removed from the buffer.
    Payload(Vec<u8>),
}

/// Buffers raw bytes read off a stream and yields whole payloads, never
/// consuming a partial frame.
pub struct FrameBuffer {
    data: Vec<u8>,
}

impl View for FrameBuffer {
    type V = Seq<u8>;

    closed spec fn view(&self) -> Seq<u8> {
        self.data@
    }
}

impl FrameBuffer {
    /// An empty buffer.
    pub fn new() -> (r: FrameBuffer)
        ensures
            r@ == Seq::<u8>::empty(),
    {
        FrameBuffer { data: Vec::new() }
    }

    /// How many bytes sit in the buffer.
    pub fn len(&self) -> (r: usize)
        ensures
            r == self@.len(),
    {
        self.data.len()
    }

    /// Appends freshly read stream bytes to the buffer.
    pub fn feed(&mut self, chunk: &Vec<u8>)
        ensures
            final(self)@ == old(self)@ + chunk@,
    {
        let mut i: usize = 0;
        while i < chunk.len()
            invariant
                i <= chunk@.len(),
                self@ == old(self)@ + chunk@.subrange(0, i as int),
            decreases chunk@.len() - i,
        {
            self.data.push(chunk[i]);
            i = i + 1;
            proof {
                assert(self@ =~= old(self)@ + chunk@.subrange(0, i as int));
            }
        }
        proof {
            assert(old(self)@ + chunk@.subrange(0, chunk@.len() as int) =~= old(self)@ + chunk@);
        }
    }

    /// Tries to take one whole payload off the front of the buffer. The
    /// buffer is left untouched unless a whole acceptable frame is present,
    /// and an oversized length prefix is refused without reading further.
    pub fn next_frame(&mut self) -> (r: FrameStep)
        ensures
            old(self)@.len() < 4 ==> (r matches FrameStep::Incomplete && final(self)@ == old(
                self,
            )@),
            old(self)@.len() >= 4 && declared_len(old(self)@) > MAX_FRAME_LEN ==> (
            r matches FrameStep::Oversized && final(self)@ == old(self)@),
            old(self)@.len() >= 4 && declared_len(old(self)@) <= MAX_FRAME_LEN && old(self)@.len()
                < 4 + declared_len(old(self)@) ==> (r matches FrameStep::Incomplete && final(self)@
                == old(self)@),
            has_whole_frame(old(self)@) ==> (r matches FrameStep::Payload(p) && p@ == old(
                self,
            )@.subrange(4, 4 + declared_len(old(self)@)) && final(self)@ == old(self)@.subrange(
                4 + declared_len(old(self)@),
                old(self)@.len() as int,
            )),
    {
        let n = self.data.len();
        if n < 4 {
            return FrameStep::Incomplete;
        }
        let len = read_be32(&self.data, 0);
        proof {
            assert(self.data@.subrange(0, 4) =~= self@.subrange(0, 4));
        }
        if len > MAX_FRAME_LEN {
            return FrameStep::Oversized;
        }
        let need: usize = 4 + len as usize;
        if n < need {
            return FrameStep::Incomplete;
        }
        let mut payload: Vec<u8> = Vec::new();
        let mut i: usize = 4;
        while i < need
            invariant
                4 <= i <= need <= self.data@.len(),
                self@ == self.data@,
                payload@ == self.data@.subrange(4, i as int),
            decreases need - i,
        {
            payload.push(self.data[i]);
            i = i + 1;
            proof {
                assert(payload@ =~= self.data@.subrange(4, i as int));
            }
        }
        let mut rest: Vec<u8> = Vec::new();
        let mut j: usize = need;
        while j < n
            invariant
                need <= j <= n == self.data@.len(),
                self@ == self.data@,
                rest@ == self.data@.subrange(need as int, j as int),
            decreases n - j,
        {
            rest.push(self.data[j]);
            j = j + 1;
            proof {
                assert(rest@ =~= self.data@.subrange(need as int, j as int));
            }
        }
        self.data = rest;
        FrameStep::Payload(payload)
    }

    /// At end of stream: a clean end if nothing is buffered, else the stream
    /// closed mid-frame and the leftover bytes are a truncated frame.
    pub fn end_of_stream(&self) -> (r: Result<(), FramingError>)
        ensures
            self@.len() == 0 ==> r == Ok::<(), FramingError>(()),
            self@.len() > 0 ==> r == Err::<(), FramingError>(FramingError::Truncated),
    {
        if self.data.len() == 0 {
            Ok(())
        } else {
            Err(FramingError::Truncated)
        }
    }
}

} // verus!
