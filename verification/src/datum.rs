//! The datum: the unit of data exchanged over the wire.
//!
//! A datum carries a discriminated kind, an opaque payload, a UTC send
//! timestamp in milliseconds, and a cached serialized size. Its wire form
//! is a self-describing tagged record: a one-byte tag, the kind's fields,
//! the timestamp, and the length-prefixed payload, all integers big-endian.

use vstd::prelude::*;

use crate::clock;
use crate::errors::Error;
use crate::wire::{
    lemma_u64_be_bytes_roundtrip, push_u64_be, read_u64_be, spec_u64_from_be_bytes,
    spec_u64_to_be_bytes,
};

verus! {

/// Datum type.
#[derive(Debug, Clone, Copy, PartialEq, Eq, Structural)]
pub enum AsDatumType {
    /// Actual live data (meaningful), with (level, frame_num).
    Live(usize, usize),
    /// Raw data (used for online profiling).
    Raw,
    /// Dummy (bandwidth) probe packet.
    Dummy,
    /// Rtt probe packet.
    LatencyProbe,
    /// Signals that the receiver detects congestion.
    ReceiverCongest,
}

/// Statistics report from the receiver side. Rates are in kbps and the
/// latency in milliseconds.
#[derive(Debug, Clone, Copy, PartialEq, Eq, Structural)]
pub struct ReceiverReport {
    /// Observed application latency in milliseconds.
    pub latency: u64,
    /// Goodput estimate in kbps.
    pub goodput: u64,
    /// Throughput estimate in kbps.
    pub throughput: u64,
}

/// `AsDatum` is the core data object for streaming over the network.
#[derive(Debug, Clone)]
pub struct AsDatum {
    /// The type of this datum.
    pub t: AsDatumType,
    /// The actual payload bytes.
    pub mem: Vec<u8>,
    /// Timestamp associated with the sender: milliseconds of UTC Unix time.
    pub ts: u64,
    /// The size of the serialized form of this datum, cached to avoid
    /// repeated serialization.
    pub len: u64,
}

/// The one-byte wire tag of a datum kind.
pub open spec fn spec_tag(t: AsDatumType) -> u8 {
    match t {
        AsDatumType::Live(_, _) => 0u8,
        AsDatumType::Raw => 1u8,
        AsDatumType::Dummy => 2u8,
        AsDatumType::LatencyProbe => 3u8,
        AsDatumType::ReceiverCongest => 4u8,
    }
}

/// The datum kind denoted by a non-zero wire tag.
pub open spec fn spec_type_of_tag(tag: u8) -> AsDatumType
    recommends
        1 <= tag <= 4,
{
    if tag == 1 {
        AsDatumType::Raw
    } else if tag == 2 {
        AsDatumType::Dummy
    } else if tag == 3 {
        AsDatumType::LatencyProbe
    } else {
        AsDatumType::ReceiverCongest
    }
}

/// The serialized size of a datum: tag, kind fields, timestamp, payload
/// length, payload.
pub open spec fn spec_datum_len(t: AsDatumType, mem_len: nat) -> nat {
    match t {
        AsDatumType::Live(_, _) => 33 + mem_len,
        _ => 17 + mem_len,
    }
}

/// The serialized bytes of a datum.
pub open spec fn spec_datum_bytes(t: AsDatumType, ts: u64, mem: Seq<u8>) -> Seq<u8> {
    (match t {
        AsDatumType::Live(level, frame) => seq![0u8] + spec_u64_to_be_bytes(level as u64)
            + spec_u64_to_be_bytes(frame as u64),
        _ => seq![spec_tag(t)],
    }) + spec_u64_to_be_bytes(ts) + spec_u64_to_be_bytes(mem.len() as u64) + mem
}

/// Parses serialized datum bytes. Returns the kind, the timestamp, and the
/// payload, or nothing when the bytes are not the exact serialization of
/// one datum.
pub open spec fn spec_parse_datum(b: Seq<u8>) -> Option<(AsDatumType, u64, Seq<u8>)> {
    if b.len() < 17 {
        None
    } else if b[0] == 0 {
        if b.len() < 33 {
            None
        } else {
            let level = spec_u64_from_be_bytes(b.subrange(1, 9));
            let frame = spec_u64_from_be_bytes(b.subrange(9, 17));
            let ts = spec_u64_from_be_bytes(b.subrange(17, 25));
            let mlen = spec_u64_from_be_bytes(b.subrange(25, 33));
            if level <= usize::MAX as u64 && frame <= usize::MAX as u64 && b.len() == 33 + mlen {
                Some((AsDatumType::Live(level as usize, frame as usize), ts, b.skip(33)))
            } else {
                None
            }
        }
    } else if b[0] <= 4 {
        let ts = spec_u64_from_be_bytes(b.subrange(1, 9));
        let mlen = spec_u64_from_be_bytes(b.subrange(9, 17));
        if b.len() == 17 + mlen {
            Some((spec_type_of_tag(b[0]), ts, b.skip(17)))
        } else {
            None
        }
    } else {
        None
    }
}

/// Parsing the serialization of a datum yields the datum back: the wire
/// format loses nothing, whatever the kind, timestamp and payload.
pub proof fn lemma_datum_wire_roundtrip(t: AsDatumType, ts: u64, mem: Seq<u8>)
    requires
        spec_datum_len(t, mem.len()) <= u64::MAX,
    ensures
        spec_datum_bytes(t, ts, mem).len() == spec_datum_len(t, mem.len()),
        spec_parse_datum(spec_datum_bytes(t, ts, mem)) == Some((t, ts, mem)),
{
    let b = spec_datum_bytes(t, ts, mem);
    lemma_u64_be_bytes_roundtrip(ts);
    lemma_u64_be_bytes_roundtrip(mem.len() as u64);
    match t {
        AsDatumType::Live(level, frame) => {
            lemma_u64_be_bytes_roundtrip(level as u64);
            lemma_u64_be_bytes_roundtrip(frame as u64);
            assert(b.subrange(1, 9) =~= spec_u64_to_be_bytes(level as u64));
            assert(b.subrange(9, 17) =~= spec_u64_to_be_bytes(frame as u64));
            assert(b.subrange(17, 25) =~= spec_u64_to_be_bytes(ts));
            assert(b.subrange(25, 33) =~= spec_u64_to_be_bytes(mem.len() as u64));
            assert(b.skip(33) =~= mem);
        },
        _ => {
            assert(b[0] == spec_tag(t));
            assert(b.subrange(1, 9) =~= spec_u64_to_be_bytes(ts));
            assert(b.subrange(9, 17) =~= spec_u64_to_be_bytes(mem.len() as u64));
            assert(b.skip(17) =~= mem);
        },
    }
}

/// A vector of `n` zero bytes.
pub fn zero_vec(n: usize) -> (r: Vec<u8>)
    ensures
        r@.len() == n,
        forall|i: int| 0 <= i < n ==> r@[i] == 0u8,
{
    let mut r: Vec<u8> = Vec::new();
    let mut i: usize = 0;
    while i < n
        invariant
            i <= n,
            r@.len() == i,
            forall|j: int| 0 <= j < i ==> r@[j] == 0u8,
        decreases n - i,
    {
        r.push(0u8);
        i = i + 1;
    }
    r
}

/// Appends all of `src` to `dst`.
pub fn append_bytes(dst: &mut Vec<u8>, src: &Vec<u8>)
    ensures
        final(dst)@ == old(dst)@ + src@,
{
    let n = src.len();
    let mut i: usize = 0;
    while i < n
        invariant
            i <= n,
            n == src@.len(),
            dst@ == old(dst)@ + src@.take(i as int),
        decreases n - i,
    {
        dst.push(src[i]);
        assert(dst@ =~= old(dst)@ + src@.take(i + 1));
        i = i + 1;
    }
    assert(dst@ =~= old(dst)@ + src@);
}

/// A copy of `v` from `start` to the end.
pub fn vec_suffix(v: &Vec<u8>, start: usize) -> (r: Vec<u8>)
    requires
        start <= v@.len(),
    ensures
        r@ == v@.skip(start as int),
{
    let n = v.len();
    let mut r: Vec<u8> = Vec::new();
    let mut i: usize = start;
    while i < n
        invariant
            start <= i <= n,
            n == v@.len(),
            r@ == v@.subrange(start as int, i as int),
        decreases n - i,
    {
        r.push(v[i]);
        assert(r@ =~= v@.subrange(start as int, i + 1));
        i = i + 1;
    }
    assert(r@ =~= v@.skip(start as int));
    r
}

impl AsDatum {
    /// A datum is well formed when its cached length is the serialized
    /// size and the serialized size fits the wire's length fields.
    pub open spec fn wf(self) -> bool {
        &&& self.len == spec_datum_len(self.t, self.mem@.len())
        &&& spec_datum_len(self.t, self.mem@.len()) <= u64::MAX
    }

    /// The serialized size of this datum.
    fn compute_len(t: &AsDatumType, mem: &Vec<u8>) -> (r: u64)
        requires
            spec_datum_len(*t, mem@.len()) <= u64::MAX,
        ensures
            r == spec_datum_len(*t, mem@.len()),
    {
        match t {
            AsDatumType::Live(_, _) => 33u64 + mem.len() as u64,
            _ => 17u64 + mem.len() as u64,
        }
    }

    /// Creates a new `AsDatum` object for live data, stamped with the
    /// current time.
    pub fn new(level: usize, frame_num: usize, data: Vec<u8>) -> (d: AsDatum)
        requires
            data@.len() + 33 <= u64::MAX,
        ensures
            d.t == AsDatumType::Live(level, frame_num),
            d.mem@ == data@,
            d.wf(),
    {
        let t = AsDatumType::Live(level, frame_num);
        let len = Self::compute_len(&t, &data);
        AsDatum { t, ts: clock::now_millis_unsigned(), mem: data, len }
    }

    /// Creates a new `AsDatum` object for bandwidth probing: `size` zero
    /// bytes.
    pub fn bw_probe(size: usize) -> (d: AsDatum)
        requires
            size + 33 <= u64::MAX,
        ensures
            d.t == AsDatumType::Dummy,
            d.mem@.len() == size,
            forall|i: int| 0 <= i < size ==> d.mem@[i] == 0u8,
            d.wf(),
    {
        let mem = zero_vec(size);
        let len = Self::compute_len(&AsDatumType::Dummy, &mem);
        AsDatum { t: AsDatumType::Dummy, ts: clock::now_millis_unsigned(), mem, len }
    }

    /// Creates a new `AsDatum` object for probing round-trip latency: an
    /// empty payload.
    pub fn latency_probe() -> (d: AsDatum)
        ensures
            d.t == AsDatumType::LatencyProbe,
            d.mem@.len() == 0,
            d.wf(),
    {
        let mem: Vec<u8> = Vec::new();
        let len = Self::compute_len(&AsDatumType::LatencyProbe, &mem);
        AsDatum { t: AsDatumType::LatencyProbe, ts: clock::now_millis_unsigned(), mem, len }
    }

    /// Creates a new `AsDatum` object acknowledging with a receiver
    /// report. Always succeeds; the report's encoding cannot fail.
    pub fn ack(rr: ReceiverReport) -> (r: Result<AsDatum, Error>)
        ensures
            r is Ok,
            r->Ok_0.t == AsDatumType::ReceiverCongest,
            r->Ok_0.mem@ == spec_report_bytes(rr),
            r->Ok_0.wf(),
    {
        let mem = match rr.to_mem() {
            Ok(m) => m,
            Err(e) => {
                return Err(e);
            },
        };
        let len = Self::compute_len(&AsDatumType::ReceiverCongest, &mem);
        Ok(AsDatum { t: AsDatumType::ReceiverCongest, ts: clock::now_millis_unsigned(), mem, len })
    }

    /// Returns the effective length (in bytes) for network transmission:
    /// the serialized size plus the eight-byte length prefix.
    pub fn net_len(&self) -> (r: usize)
        requires
            self.len + 8 <= usize::MAX,
        ensures
            r == self.len + 8,
    {
        self.len as usize + 8
    }

    /// Returns the datum type.
    pub fn datum_type(&self) -> (r: AsDatumType)
        ensures
            r == self.t,
    {
        self.t
    }

    /// Return the serialized length of this data structure.
    pub fn len(&self) -> (r: usize)
        requires
            self.len <= usize::MAX,
        ensures
            r == self.len,
    {
        self.len as usize
    }

    /// The serialized bytes of this datum.
    pub fn to_payload(&self) -> (r: Vec<u8>)
        requires
            spec_datum_len(self.t, self.mem@.len()) <= u64::MAX,
        ensures
            r@ == spec_datum_bytes(self.t, self.ts, self.mem@),
            r@.len() == spec_datum_len(self.t, self.mem@.len()),
    {
        let mut out: Vec<u8> = Vec::new();
        match self.t {
            AsDatumType::Live(level, frame) => {
                out.push(0u8);
                push_u64_be(&mut out, level as u64);
                push_u64_be(&mut out, frame as u64);
            },
            AsDatumType::Raw => out.push(1u8),
            AsDatumType::Dummy => out.push(2u8),
            AsDatumType::LatencyProbe => out.push(3u8),
            AsDatumType::ReceiverCongest => out.push(4u8),
        }
        push_u64_be(&mut out, self.ts);
        push_u64_be(&mut out, self.mem.len() as u64);
        append_bytes(&mut out, &self.mem);
        proof {
            assert(out@ =~= spec_datum_bytes(self.t, self.ts, self.mem@));
            lemma_datum_wire_roundtrip(self.t, self.ts, self.mem@);
        }
        out
    }

    /// Parses one serialized datum. Succeeds exactly when the bytes are
    /// the serialization of one datum; the cached length is the payload
    /// size, as the wire carried it.
    pub fn from_payload(payload: Vec<u8>) -> (r: Result<AsDatum, Error>)
        ensures
            match spec_parse_datum(payload@) {
                Some((t, ts, mem)) => {
                    &&& r is Ok
                    &&& r->Ok_0.t == t
                    &&& r->Ok_0.ts == ts
                    &&& r->Ok_0.mem@ == mem
                    &&& r->Ok_0.len == payload@.len()
                    &&& r->Ok_0.wf()
                },
                None => r == Err::<AsDatum, Error>(Error::DecodeError),
            },
    {
        let n = payload.len();
        proof {
            assert(n <= u64::MAX);
        }
        if n < 17 {
            return Err(Error::DecodeError);
        }
        let tag = payload[0];
        if tag == 0 {
            if n < 33 {
                return Err(Error::DecodeError);
            }
            let level = read_u64_be(&payload, 1);
            let frame = read_u64_be(&payload, 9);
            let ts = read_u64_be(&payload, 17);
            let mlen = read_u64_be(&payload, 25);
            if level <= usize::MAX as u64 && frame <= usize::MAX as u64 && (n - 33) as u64
                == mlen {
                let mem = vec_suffix(&payload, 33);
                Ok(
                    AsDatum {
                        t: AsDatumType::Live(level as usize, frame as usize),
                        ts,
                        mem,
                        len: n as u64,
                    },
                )
            } else {
                Err(Error::DecodeError)
            }
        } else if tag <= 4 {
            let ts = read_u64_be(&payload, 1);
            let mlen = read_u64_be(&payload, 9);
            if (n - 17) as u64 == mlen {
                let t = if tag == 1 {
                    AsDatumType::Raw
                } else if tag == 2 {
                    AsDatumType::Dummy
                } else if tag == 3 {
                    AsDatumType::LatencyProbe
                } else {
                    AsDatumType::ReceiverCongest
                };
                let mem = vec_suffix(&payload, 17);
                Ok(AsDatum { t, ts, mem, len: n as u64 })
            } else {
                Err(Error::DecodeError)
            }
        } else {
            Err(Error::DecodeError)
        }
    }
}

impl PartialEq for AsDatum {
    /// Structural equality on all fields, the cached length included.
    fn eq(&self, other: &AsDatum) -> (r: bool) {
        let mem_eq = self.mem == other.mem;
        proof {
            if mem_eq {
                assert(self.mem@ =~= other.mem@);
            }
        }
        self.t == other.t && mem_eq && self.ts == other.ts && self.len == other.len
    }
}

impl vstd::std_specs::cmp::PartialEqSpecImpl for AsDatum {
    open spec fn obeys_eq_spec() -> bool {
        true
    }

    open spec fn eq_spec(&self, other: &AsDatum) -> bool {
        self.t == other.t && self.mem@ == other.mem@ && self.ts == other.ts && self.len
            == other.len
    }
}

/// The serialized bytes of a receiver report: latency, goodput,
/// throughput, each eight bytes big-endian.
pub open spec fn spec_report_bytes(rr: ReceiverReport) -> Seq<u8> {
    spec_u64_to_be_bytes(rr.latency) + spec_u64_to_be_bytes(rr.goodput) + spec_u64_to_be_bytes(
        rr.throughput,
    )
}

/// Parses a receiver report: exactly 24 bytes.
pub open spec fn spec_parse_report(b: Seq<u8>) -> Option<ReceiverReport> {
    if b.len() == 24 {
        Some(
            ReceiverReport {
                latency: spec_u64_from_be_bytes(b.subrange(0, 8)),
                goodput: spec_u64_from_be_bytes(b.subrange(8, 16)),
                throughput: spec_u64_from_be_bytes(b.subrange(16, 24)),
            },
        )
    } else {
        None
    }
}

/// Parsing the serialization of a receiver report yields the report back.
pub proof fn lemma_report_roundtrip(rr: ReceiverReport)
    ensures
        spec_report_bytes(rr).len() == 24,
        spec_parse_report(spec_report_bytes(rr)) == Some(rr),
{
    let b = spec_report_bytes(rr);
    lemma_u64_be_bytes_roundtrip(rr.latency);
    lemma_u64_be_bytes_roundtrip(rr.goodput);
    lemma_u64_be_bytes_roundtrip(rr.throughput);
    assert(b.subrange(0, 8) =~= spec_u64_to_be_bytes(rr.latency));
    assert(b.subrange(8, 16) =~= spec_u64_to_be_bytes(rr.goodput));
    assert(b.subrange(16, 24) =~= spec_u64_to_be_bytes(rr.throughput));
}

impl ReceiverReport {
    /// Creates a report from its three statistics.
    pub fn new(latency: u64, goodput: u64, throughput: u64) -> (r: Self)
        ensures
            r == (ReceiverReport { latency, goodput, throughput }),
    {
        ReceiverReport { latency, goodput, throughput }
    }

    /// Decode from memory. Succeeds exactly when `mem` is the 24-byte
    /// serialization of a report.
    pub fn from_mem(mem: &Vec<u8>) -> (r: Result<ReceiverReport, Error>)
        ensures
            match spec_parse_report(mem@) {
                Some(rr) => r == Ok::<ReceiverReport, Error>(rr),
                None => r == Err::<ReceiverReport, Error>(Error::DecodeError),
            },
    {
        if mem.len() == 24 {
            let latency = read_u64_be(mem, 0);
            let goodput = read_u64_be(mem, 8);
            let throughput = read_u64_be(mem, 16);
            Ok(ReceiverReport { latency, goodput, throughput })
        } else {
            Err(Error::DecodeError)
        }
    }

    /// Encode into memory. Never fails; the format has no invalid
    /// reports.
    pub fn to_mem(&self) -> (r: Result<Vec<u8>, Error>)
        ensures
            r is Ok,
            r->Ok_0@ == spec_report_bytes(*self),
    {
        let mut out: Vec<u8> = Vec::new();
        push_u64_be(&mut out, self.latency);
        push_u64_be(&mut out, self.goodput);
        push_u64_be(&mut out, self.throughput);
        assert(out@ =~= spec_report_bytes(*self));
        Ok(out)
    }
}

} // verus!
