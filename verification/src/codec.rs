//! The framed codec: length-prefixed datums over a byte stream.
//!
//! A frame is an 8-byte big-endian unsigned length followed by the
//! serialized datum of exactly that many bytes. The decoder is a two-state
//! machine: it waits for the length, then for the payload, and consumes
//! nothing until the part it waits for has fully arrived.

use vstd::prelude::*;

use crate::bytesbuf::{bytes_of, bytesmut_len, bytesmut_split_to, bytesmut_to_vec};
use crate::datum::{
    lemma_datum_wire_roundtrip, spec_datum_bytes, spec_datum_len, spec_parse_datum, AsDatum,
};
use crate::errors::Error;
use crate::wire::{
    lemma_u64_be_bytes_roundtrip, push_u64_be, read_u64_be, spec_u64_from_be_bytes,
    spec_u64_to_be_bytes,
};

verus! {

/// Decoder state: waiting for a length, or for a payload of `len` bytes.
#[derive(Debug, Clone, Copy, PartialEq, Eq, Structural)]
pub enum CodecState {
    /// Waiting for the 8-byte length prefix.
    Len,
    /// Length read; waiting for the payload.
    Payload {
        /// The payload length announced by the prefix.
        len: u64,
    },
}

/// The framing codec: a stateless encoder and a two-state decoder.
#[derive(Debug, Clone, Copy, PartialEq, Eq, Structural)]
pub struct AsCodec {
    /// Decoder state.
    pub state: CodecState,
}

impl Default for AsCodec {
    /// A fresh codec waits for a length prefix.
    fn default() -> (r: Self)
        ensures
            r.state is Len,
    {
        AsCodec { state: CodecState::Len }
    }
}

/// The full frame of one datum: its serialized length, big-endian, then
/// its serialized bytes.
pub open spec fn spec_frame_bytes(t: crate::datum::AsDatumType, ts: u64, mem: Seq<u8>) -> Seq<u8> {
    spec_u64_to_be_bytes(spec_datum_len(t, mem.len()) as u64) + spec_datum_bytes(t, ts, mem)
}

/// What decoding a complete payload returns: the parsed datum when the
/// bytes are one datum's serialization, the decode error otherwise.
pub open spec fn spec_decode_outcome(
    r: Result<Option<AsDatum>, Error>,
    payload: Seq<u8>,
    len: u64,
) -> bool {
    match spec_parse_datum(payload) {
        Some((t, ts, mem)) => {
            &&& r is Ok
            &&& r->Ok_0 is Some
            &&& r->Ok_0->Some_0.t == t
            &&& r->Ok_0->Some_0.ts == ts
            &&& r->Ok_0->Some_0.mem@ == mem
            &&& r->Ok_0->Some_0.len == len
            &&& r->Ok_0->Some_0.wf()
        },
        None => r == Err::<Option<AsDatum>, Error>(Error::DecodeError),
    }
}

impl AsCodec {
    /// Encodes one datum into the buffer: the 8-byte big-endian length of
    /// the serialized datum, then the serialized datum. Never fails.
    pub fn encode(&mut self, d: AsDatum, buf: &mut bytes::BytesMut) -> (r: Result<(), Error>)
        requires
            d.wf(),
        ensures
            r is Ok,
            final(self).state == old(self).state,
            bytes_of(*final(buf)) == bytes_of(*old(buf)) + spec_frame_bytes(d.t, d.ts, d.mem@),
    {
        let payload = d.to_payload();
        let mut frame: Vec<u8> = Vec::new();
        push_u64_be(&mut frame, payload.len() as u64);
        crate::datum::append_bytes(&mut frame, &payload);
        crate::bytesbuf::bytesmut_extend(buf, &frame);
        proof {
            assert(frame@ =~= spec_frame_bytes(d.t, d.ts, d.mem@));
        }
        Ok(())
    }

    /// Decodes at most one datum from the buffer.
    ///
    /// With fewer than 8 buffered bytes while waiting for a length,
    /// returns "need more" and consumes nothing. Once the length is read,
    /// with fewer than `len` buffered bytes, returns "need more" and keeps
    /// its state. Otherwise it consumes exactly `len` bytes, parses them,
    /// and goes back to waiting for a length.
    pub fn decode(&mut self, buf: &mut bytes::BytesMut) -> (r: Result<Option<AsDatum>, Error>)
        ensures
            match old(self).state {
                CodecState::Len => {
                    if bytes_of(*old(buf)).len() < 8 {
                        &&& r == Ok::<Option<AsDatum>, Error>(None)
                        &&& final(self).state is Len
                        &&& bytes_of(*final(buf)) == bytes_of(*old(buf))
                    } else {
                        let flen = spec_u64_from_be_bytes(bytes_of(*old(buf)).take(8));
                        let rest = bytes_of(*old(buf)).skip(8);
                        if rest.len() < flen {
                            &&& r == Ok::<Option<AsDatum>, Error>(None)
                            &&& final(self).state == (CodecState::Payload { len: flen })
                            &&& bytes_of(*final(buf)) == rest
                        } else {
                            &&& spec_decode_outcome(r, rest.take(flen as int), flen)
                            &&& final(self).state is Len
                            &&& bytes_of(*final(buf)) == rest.skip(flen as int)
                        }
                    }
                },
                CodecState::Payload { len } => {
                    if bytes_of(*old(buf)).len() < len {
                        &&& r == Ok::<Option<AsDatum>, Error>(None)
                        &&& final(self).state == old(self).state
                        &&& bytes_of(*final(buf)) == bytes_of(*old(buf))
                    } else {
                        &&& spec_decode_outcome(r, bytes_of(*old(buf)).take(len as int), len)
                        &&& final(self).state is Len
                        &&& bytes_of(*final(buf)) == bytes_of(*old(buf)).skip(len as int)
                    }
                },
            },
    {
        let len: u64;
        match self.state {
            CodecState::Len => {
                let blen = bytesmut_len(buf);
                if blen < 8 {
                    return Ok(None);
                }
                let len_buf = bytesmut_split_to(buf, 8);
                let len_bytes = bytesmut_to_vec(&len_buf);
                proof {
                    assert(len_bytes@.subrange(0, 8) =~= bytes_of(*old(buf)).take(8));
                }
                len = read_u64_be(&len_bytes, 0);
                self.state = CodecState::Payload { len };
            },
            CodecState::Payload { len: l } => {
                len = l;
            },
        }
        let blen = bytesmut_len(buf);
        if (blen as u64) < len {
            return Ok(None);
        }
        let payload_buf = bytesmut_split_to(buf, len as usize);
        let payload = bytesmut_to_vec(&payload_buf);
        self.state = CodecState::Len;
        match AsDatum::from_payload(payload) {
            Ok(d) => Ok(Some(d)),
            Err(e) => Err(e),
        }
    }
}

/// A complete encode/decode cycle returns the datum: the frame of a well
/// formed datum starts with its serialized length, and the bytes after the
/// prefix parse back to the datum's kind, timestamp and payload.
pub proof fn lemma_encode_decode_cycle(d: AsDatum)
    requires
        d.wf(),
    ensures
        spec_frame_bytes(d.t, d.ts, d.mem@).len() == 8 + d.len,
        spec_u64_from_be_bytes(spec_frame_bytes(d.t, d.ts, d.mem@).take(8)) == d.len,
        spec_frame_bytes(d.t, d.ts, d.mem@).skip(8) == spec_datum_bytes(d.t, d.ts, d.mem@),
        spec_parse_datum(spec_frame_bytes(d.t, d.ts, d.mem@).skip(8)) == Some(
            (d.t, d.ts, d.mem@),
        ),
{
    let b = spec_frame_bytes(d.t, d.ts, d.mem@);
    lemma_datum_wire_roundtrip(d.t, d.ts, d.mem@);
    lemma_u64_be_bytes_roundtrip(d.len);
    assert(b.take(8) =~= spec_u64_to_be_bytes(d.len));
    assert(b.skip(8) =~= spec_datum_bytes(d.t, d.ts, d.mem@));
}

} // verus!
