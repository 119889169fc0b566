//! The framed sink: an outbound buffer with explicit backpressure.
//!
//! The platform layer owns the transport; this sink owns the buffer and
//! the policy. A send is rejected while the buffered bytes are at or above
//! the backpressure threshold; draining removes written bytes from the
//! front, and a write of zero bytes while data remains buffered is a
//! transport error.

use vstd::prelude::*;

use crate::bytesbuf::{bytes_of, bytesmut_len, bytesmut_new, bytesmut_split_to};
use crate::codec::{spec_frame_bytes, AsCodec, CodecState};
use crate::datum::AsDatum;
use crate::errors::Error;

verus! {

/// The outbound buffer's initial capacity, in bytes.
pub const INITIAL_CAPACITY: usize = 32 * 1024;

/// The buffered-byte count at or above which sends are rejected.
pub const BACKPRESSURE_BOUNDARY: usize = INITIAL_CAPACITY;

/// The outcome of starting a send: accepted into the buffer, or rejected
/// with the datum handed back because the buffer is in backpressure.
#[derive(Debug)]
pub enum AsyncSink {
    /// The datum was encoded into the buffer.
    Ready,
    /// The buffer is full; the caller must drain and retry with the datum.
    NotReady(AsDatum),
}

/// The sink: the encoder, the outbound buffer, and the threshold.
#[derive(Debug)]
pub struct Socket {
    /// The framing encoder.
    pub encoder: AsCodec,
    /// Bytes encoded and not yet accepted by the transport.
    pub buffer: bytes::BytesMut,
    /// The backpressure threshold in bytes.
    pub threshold: usize,
}

impl Socket {
    /// A sink with an empty buffer and the default backpressure
    /// threshold.
    pub fn new() -> (r: Socket)
        ensures
            bytes_of(r.buffer).len() == 0,
            r.threshold == BACKPRESSURE_BOUNDARY,
            r.encoder.state is Len,
    {
        Socket {
            encoder: AsCodec { state: CodecState::Len },
            buffer: bytesmut_new(),
            threshold: BACKPRESSURE_BOUNDARY,
        }
    }

    /// The bytes currently buffered.
    pub fn buffered(&self) -> (r: usize)
        ensures
            r == bytes_of(self.buffer).len(),
    {
        bytesmut_len(&self.buffer)
    }

    /// Starts sending one datum: rejects it while the buffered bytes are
    /// at or above the threshold, otherwise encodes its frame into the
    /// buffer.
    pub fn start_send(&mut self, item: AsDatum) -> (r: Result<AsyncSink, Error>)
        requires
            item.wf(),
        ensures
            final(self).threshold == old(self).threshold,
            final(self).encoder == old(self).encoder,
            r is Ok,
            if bytes_of(old(self).buffer).len() >= old(self).threshold {
                &&& r->Ok_0 matches AsyncSink::NotReady(d) && d == item
                &&& bytes_of(final(self).buffer) == bytes_of(old(self).buffer)
            } else {
                &&& r->Ok_0 is Ready
                &&& bytes_of(final(self).buffer) == bytes_of(old(self).buffer)
                    + spec_frame_bytes(item.t, item.ts, item.mem@)
            },
    {
        if bytesmut_len(&self.buffer) >= self.threshold {
            return Ok(AsyncSink::NotReady(item));
        }
        match self.encoder.encode(item, &mut self.buffer) {
            Ok(()) => Ok(AsyncSink::Ready),
            Err(e) => Err(e),
        }
    }

    /// Records that the transport accepted `n` bytes: they leave the
    /// front of the buffer. A write of zero bytes while data remains
    /// buffered is a transport error and changes nothing.
    pub fn on_write(&mut self, n: usize) -> (r: Result<(), Error>)
        requires
            n <= bytes_of(old(self).buffer).len(),
        ensures
            final(self).threshold == old(self).threshold,
            final(self).encoder == old(self).encoder,
            if n == 0 && bytes_of(old(self).buffer).len() > 0 {
                &&& r == Err::<(), Error>(Error::Io)
                &&& bytes_of(final(self).buffer) == bytes_of(old(self).buffer)
            } else {
                &&& r is Ok
                &&& bytes_of(final(self).buffer) == bytes_of(old(self).buffer).skip(n as int)
            },
    {
        if n == 0 {
            if bytesmut_len(&self.buffer) > 0 {
                return Err(Error::Io);
            }
            proof {
                assert(bytes_of(self.buffer) =~= bytes_of(self.buffer).skip(0));
            }
            return Ok(());
        }
        let _front = bytesmut_split_to(&mut self.buffer, n);
        Ok(())
    }
}

} // verus!
