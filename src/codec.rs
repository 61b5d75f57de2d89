//! Message framing: `type (u16, big-endian) | length (u32, big-endian) |
//! payload`. The payload is an opaque byte string here; the encoder writes a
//! frame at once and the `FrameReader` rebuilds one from bytes that arrive
//! in pieces of any size.

use vstd::prelude::*;
use crate::error::{RecvError, SendError};

verus! {

/// Type id of the free-text message used for liveness tests.
pub const TEXT_MESSAGE_ID: u16 = 0xFFFF;

/// Type id of a control request.
pub const CONTROL_REQUEST_ID: u16 = 0x1;

/// Type id of a control response.
pub const CONTROL_RESPONSE_ID: u16 = 0x2;

/// Type id of a telemetry message of an autonomous thermometer.
pub const THERMOMETER_MESSAGE_ID: u16 = 0x3;

/// A record that travels in frames of its own type id.
pub trait Message {
    /// The type id written in front of every frame of this record.
    spec fn spec_message_type() -> u16;

    /// The type id written in front of every frame of this record.
    fn message_type() -> (r: u16)
        ensures
            r == Self::spec_message_type(),
    ;
}

/// The big-endian bytes of a 16-bit value.
pub open spec fn be_u16(x: u16) -> Seq<u8> {
    seq![(x / 256) as u8, (x % 256) as u8]
}

/// The big-endian bytes of a 32-bit value.
pub open spec fn be_u32(x: u32) -> Seq<u8> {
    seq![(x / 0x1000000) as u8, ((x / 0x10000) % 256) as u8, ((x / 256) % 256) as u8, (x % 256) as u8]
}

/// The type id that the first two bytes of `s` announce.
pub open spec fn type_of(s: Seq<u8>) -> int {
    s[0] as int * 256 + s[1] as int
}

/// The payload length that bytes 2 to 5 of `s` announce.
pub open spec fn len_of(s: Seq<u8>) -> int {
    s[2] as int * 0x1000000 + s[3] as int * 0x10000 + s[4] as int * 256 + s[5] as int
}

/// The frame of a payload: header, then the payload itself.
pub open spec fn frame(type_id: u16, payload: Seq<u8>) -> Seq<u8> {
    be_u16(type_id) + be_u32(payload.len() as u32) + payload
}

/// How many leading bytes of the stream `s` a reader expecting `expected`
/// takes: it stops after the type id when that does not match, and after the
/// payload when it does.
pub open spec fn frame_extent(expected: u16, s: Seq<u8>) -> int {
    if s.len() < 2 {
        s.len() as int
    } else if type_of(s) != expected as int {
        2
    } else if s.len() < 6 {
        s.len() as int
    } else if s.len() < 6 + len_of(s) {
        s.len() as int
    } else {
        6 + len_of(s)
    }
}

/// The bytes read so far announce another type than the expected one.
pub open spec fn frame_failed(expected: u16, b: Seq<u8>) -> bool {
    b.len() >= 2 && type_of(b) != expected as int
}

/// The bytes read so far form one whole frame of the expected type.
pub open spec fn frame_complete(expected: u16, b: Seq<u8>) -> bool {
    b.len() >= 6 && type_of(b) == expected as int && b.len() == 6 + len_of(b)
}

/// A reader holding `b` has nothing more to read.
pub open spec fn frame_done(expected: u16, b: Seq<u8>) -> bool {
    frame_failed(expected, b) || frame_complete(expected, b)
}

/// A reader never holds bytes beyond the point where it stops.
pub open spec fn frame_settled(expected: u16, b: Seq<u8>) -> bool {
    frame_extent(expected, b) == b.len()
}

/// The bytes a reader holds after it was offered `chunk` while holding `b`.
pub open spec fn feed_spec(expected: u16, b: Seq<u8>, chunk: Seq<u8>) -> Seq<u8> {
    (b + chunk).take(frame_extent(expected, b + chunk))
}

/// How many more bytes a reader holding `b` asks for before its next step:
/// the rest of the type id, of the length, or of the payload.
pub open spec fn frame_wanted(expected: u16, b: Seq<u8>) -> int {
    if frame_done(expected, b) {
        0
    } else if b.len() < 2 {
        2 - b.len()
    } else if b.len() < 6 {
        6 - b.len()
    } else {
        6 + len_of(b) - b.len()
    }
}

/// Decoding the start of the stream `s` as one frame of type `expected`
/// succeeds: the bytes a reader takes form a whole frame of that type.
pub open spec fn decode_ok(expected: u16, s: Seq<u8>) -> bool {
    frame_complete(expected, s.take(frame_extent(expected, s)))
}

/// The payload of a complete frame.
pub open spec fn payload_of(b: Seq<u8>) -> Seq<u8> {
    b.subrange(6, b.len() as int)
}

/// The bytes of a 16-bit value in network order.
pub fn u16_to_be(x: u16) -> (r: [u8; 2])
    ensures
        r@ == be_u16(x),
{
    let r: [u8; 2] = [(x / 256) as u8, (x % 256) as u8];
    assert(r@ =~= be_u16(x));
    r
}

/// The bytes of a 32-bit value in network order.
pub fn u32_to_be(x: u32) -> (r: [u8; 4])
    ensures
        r@ == be_u32(x),
{
    let r: [u8; 4] = [
        (x / 0x1000000) as u8,
        ((x / 0x10000) % 256) as u8,
        ((x / 256) % 256) as u8,
        (x % 256) as u8,
    ];
    assert(r@ =~= be_u32(x));
    r
}

/// Reading back the bytes of a 16-bit value gives the value.
pub proof fn lemma_be_u16(x: u16)
    ensures
        type_of(be_u16(x)) == x as int,
{
}

/// Reading back the bytes of a 32-bit value gives the value.
pub proof fn lemma_be_u32(x: u32)
    ensures
        len_of(seq![0u8, 0u8] + be_u32(x)) == x as int,
{
    let s = seq![0u8, 0u8] + be_u32(x);
    assert(s[2] == (x / 0x1000000) as u8);
    assert(s[3] == ((x / 0x10000) % 256) as u8);
    assert(s[4] == ((x / 256) % 256) as u8);
    assert(s[5] == (x % 256) as u8);
}

/// Writes a frame: the type id and the payload length, both big-endian,
/// then the payload. A payload longer than a 32-bit length can announce is
/// refused.
pub fn encode_frame(type_id: u16, payload: &[u8]) -> (r: Result<Vec<u8>, SendError>)
    ensures
        payload@.len() <= u32::MAX ==> r is Ok && r->Ok_0@ == frame(type_id, payload@),
        payload@.len() > u32::MAX ==> (r matches Err(SendError::TooLong(n)) && n == payload@.len()),
{
    if payload.len() > 0xFFFF_FFFFusize {
        return Err(SendError::TooLong(payload.len()));
    }
    let t = u16_to_be(type_id);
    let l = u32_to_be(payload.len() as u32);
    let mut out: Vec<u8> = Vec::new();
    out.push(t[0]);
    out.push(t[1]);
    out.push(l[0]);
    out.push(l[1]);
    out.push(l[2]);
    out.push(l[3]);
    let ghost head = be_u16(type_id) + be_u32(payload@.len() as u32);
    assert(out@ =~= head);
    let mut i: usize = 0;
    while i < payload.len()
        invariant
            i <= payload@.len(),
            out@ == head + payload@.take(i as int),
        decreases payload@.len() - i,
    {
        out.push(payload[i]);
        i = i + 1;
        assert(out@ =~= head + payload@.take(i as int));
    }
    assert(payload@.take(i as int) =~= payload@);
    Ok(out)
}

/// A reader stops at or before the end of what it is offered.
pub proof fn lemma_extent_bounds(expected: u16, s: Seq<u8>)
    ensures
        0 <= frame_extent(expected, s) <= s.len(),
{
}

/// Once the bytes held make the reader stop, more bytes behind them change
/// nothing: the reader stops at the same point of any longer stream.
pub proof fn lemma_done_prefix(expected: u16, s: Seq<u8>, n: int)
    requires
        0 <= n <= s.len(),
        frame_settled(expected, s.take(n)),
        frame_done(expected, s.take(n)),
    ensures
        frame_extent(expected, s) == n,
{
    let b = s.take(n);
    assert(b[0] == s[0] && b[1] == s[1]);
    if frame_complete(expected, b) {
        assert(b[2] == s[2] && b[3] == s[3] && b[4] == s[4] && b[5] == s[5]);
    }
}

/// One more byte offered to a reader that still reads is taken.
pub proof fn lemma_settled_push(expected: u16, b: Seq<u8>, x: u8)
    requires
        frame_settled(expected, b),
        !frame_done(expected, b),
    ensures
        frame_settled(expected, b.push(x)),
{
    let c = b.push(x);
    if b.len() >= 2 {
        assert(c[0] == b[0] && c[1] == b[1]);
    }
    if b.len() >= 6 {
        assert(c[2] == b[2] && c[3] == b[3] && c[4] == b[4] && c[5] == b[5]);
    }
}

/// What a reader holds after one offer is settled, and it stops short of
/// the offer only when it is done.
pub proof fn lemma_feed_settles(expected: u16, s: Seq<u8>)
    ensures
        frame_settled(expected, s.take(frame_extent(expected, s))),
        frame_extent(expected, s) < s.len() ==> frame_done(expected, s.take(frame_extent(expected, s))),
{
    let n = frame_extent(expected, s);
    let b = s.take(n);
    if n >= 2 {
        assert(b[0] == s[0] && b[1] == s[1]);
    }
    if n >= 6 {
        assert(b[2] == s[2] && b[3] == s[3] && b[4] == s[4] && b[5] == s[5]);
    }
}

/// Two offers in a row leave a reader where one offer of both would.
pub proof fn lemma_feed_compose(expected: u16, b: Seq<u8>, c1: Seq<u8>, c2: Seq<u8>)
    ensures
        feed_spec(expected, feed_spec(expected, b, c1), c2) == feed_spec(expected, b, c1 + c2),
{
    let s1 = b + c1;
    let e1 = frame_extent(expected, s1);
    let b1 = s1.take(e1);
    let s = b + (c1 + c2);
    assert(s == s1 + c2);
    lemma_extent_bounds(expected, s1);
    lemma_feed_settles(expected, s1);
    if e1 == s1.len() {
        assert(b1 =~= s1);
        assert(b1 + c2 =~= s);
    } else {
        assert((b1 + c2).take(e1) =~= b1);
        lemma_done_prefix(expected, b1 + c2, e1);
        assert(s.take(e1) =~= b1);
        lemma_done_prefix(expected, s, e1);
        assert((b1 + c2).take(e1) =~= s.take(e1));
    }
}

/// Offers the chunks one after the other to a reader holding `b`.
pub open spec fn feed_all(expected: u16, b: Seq<u8>, chunks: Seq<Seq<u8>>) -> Seq<u8>
    decreases chunks.len(),
{
    if chunks.len() == 0 {
        b
    } else {
        feed_all(expected, feed_spec(expected, b, chunks[0]), chunks.drop_first())
    }
}

/// The chunks joined into one byte string.
pub open spec fn concat_all(chunks: Seq<Seq<u8>>) -> Seq<u8>
    decreases chunks.len(),
{
    if chunks.len() == 0 {
        Seq::empty()
    } else {
        chunks[0] + concat_all(chunks.drop_first())
    }
}

/// How a stream is cut into pieces does not matter: offering the pieces one
/// by one, however small, leaves the reader exactly where offering the whole
/// stream at once would.
pub proof fn lemma_chunking_irrelevant(expected: u16, b: Seq<u8>, chunks: Seq<Seq<u8>>)
    requires
        frame_settled(expected, b),
    ensures
        feed_all(expected, b, chunks) == feed_spec(expected, b, concat_all(chunks)),
    decreases chunks.len(),
{
    if chunks.len() == 0 {
        assert(b + Seq::<u8>::empty() =~= b);
        assert(b.take(b.len() as int) =~= b);
    } else {
        let b1 = feed_spec(expected, b, chunks[0]);
        lemma_feed_settles(expected, b + chunks[0]);
        lemma_chunking_irrelevant(expected, b1, chunks.drop_first());
        lemma_feed_compose(expected, b, chunks[0], concat_all(chunks.drop_first()));
    }
}

/// A frame decodes to its own payload when read with its own type id.
pub proof fn lemma_frame_round_trip(type_id: u16, payload: Seq<u8>)
    requires
        payload.len() <= u32::MAX,
    ensures
        frame_extent(type_id, frame(type_id, payload)) == frame(type_id, payload).len(),
        frame_complete(type_id, frame(type_id, payload)),
        payload_of(frame(type_id, payload)) == payload,
{
    let f = frame(type_id, payload);
    lemma_be_u16(type_id);
    lemma_be_u32(payload.len() as u32);
    let h = be_u16(type_id);
    assert(f[0] == h[0] && f[1] == h[1]);
    let l = seq![0u8, 0u8] + be_u32(payload.len() as u32);
    assert(f[2] == l[2] && f[3] == l[3] && f[4] == l[4] && f[5] == l[5]);
    assert(payload_of(f) =~= payload);
}

/// A frame read with another type id than its own fails on the type id,
/// before its length or payload is read.
pub proof fn lemma_type_tag_enforced(type_id: u16, expected: u16, payload: Seq<u8>)
    requires
        type_id != expected,
    ensures
        frame_extent(expected, frame(type_id, payload)) == 2,
        frame_failed(expected, frame(type_id, payload).take(2)),
{
    let f = frame(type_id, payload);
    lemma_be_u16(type_id);
    let h = be_u16(type_id);
    assert(f[0] == h[0] && f[1] == h[1]);
    assert(f.take(2)[0] == f[0] && f.take(2)[1] == f[1]);
}

/// Decoding what the encoder wrote gives the payload back: `decode_frame`
/// succeeds on `frame(t, p)` read as type `t` and returns `p`.
pub proof fn lemma_decode_encode(type_id: u16, payload: Seq<u8>)
    requires
        payload.len() <= u32::MAX,
    ensures
        decode_ok(type_id, frame(type_id, payload)),
        payload_of(feed_spec(type_id, Seq::empty(), frame(type_id, payload))) == payload,
{
    let f = frame(type_id, payload);
    lemma_frame_round_trip(type_id, payload);
    assert(Seq::<u8>::empty() + f =~= f);
    assert(f.take(f.len() as int) =~= f);
}

/// Decoding a frame as another type than the one it was written with
/// always fails with `BadType` carrying the written type: `decode_frame`
/// never succeeds on it.
pub proof fn lemma_decode_other_type(type_id: u16, expected: u16, payload: Seq<u8>)
    requires
        type_id != expected,
    ensures
        !decode_ok(expected, frame(type_id, payload)),
        frame_failed(expected, frame(type_id, payload)),
        type_of(frame(type_id, payload)) == type_id as int,
{
    let f = frame(type_id, payload);
    lemma_be_u16(type_id);
    let h = be_u16(type_id);
    assert(f[0] == h[0] && f[1] == h[1]);
    lemma_type_tag_enforced(type_id, expected, payload);
    let b = f.take(2);
    assert(b[0] == f[0] && b[1] == f[1]);
}

/// Rebuilds one frame of an expected type from bytes offered in pieces.
pub struct FrameReader {
    expected: u16,
    buf: Vec<u8>,
}

impl FrameReader {
    /// The type id this reader accepts.
    pub closed spec fn expected_spec(&self) -> u16 {
        self.expected
    }

    /// The bytes taken so far.
    pub closed spec fn held(&self) -> Seq<u8> {
        self.buf@
    }

    /// The reader never holds bytes past the point where it stops.
    pub open spec fn wf(&self) -> bool {
        frame_settled(self.expected_spec(), self.held())
    }

    /// A reader that has taken nothing yet.
    pub fn new(expected: u16) -> (r: FrameReader)
        ensures
            r.expected_spec() == expected,
            r.held() == Seq::<u8>::empty(),
            r.wf(),
    {
        FrameReader { expected, buf: Vec::new() }
    }

    /// Whether the reader has stopped, on a whole frame or on a wrong type.
    pub fn is_done(&self) -> (r: bool)
        ensures
            r == frame_done(self.expected_spec(), self.held()),
    {
        let n = self.buf.len();
        if n < 2 {
            return false;
        }
        let t: u16 = self.buf[0] as u16 * 256 + self.buf[1] as u16;
        if t != self.expected {
            return true;
        }
        if n < 6 {
            return false;
        }
        let l: u64 = self.buf[2] as u64 * 0x1000000 + self.buf[3] as u64 * 0x10000
            + self.buf[4] as u64 * 256 + self.buf[5] as u64;
        n as u64 == 6 + l
    }

    /// How many bytes the reader asks for before its next step; zero once it
    /// has stopped. A transport reading no more than this never reads past
    /// the frame.
    pub fn wanted(&self) -> (r: usize)
        requires
            self.wf(),
        ensures
            r == frame_wanted(self.expected_spec(), self.held()),
    {
        let n = self.buf.len();
        if self.is_done() {
            0
        } else if n < 2 {
            2 - n
        } else if n < 6 {
            6 - n
        } else {
            let l: u64 = self.buf[2] as u64 * 0x1000000 + self.buf[3] as u64 * 0x10000
                + self.buf[4] as u64 * 256 + self.buf[5] as u64;
            (l - (n as u64 - 6)) as usize
        }
    }

    /// Offers bytes to the reader. It takes them up to the point where it
    /// stops and returns how many it took.
    pub fn feed(&mut self, chunk: &[u8]) -> (n: usize)
        requires
            old(self).wf(),
        ensures
            final(self).wf(),
            final(self).expected_spec() == old(self).expected_spec(),
            final(self).held() == feed_spec(old(self).expected_spec(), old(self).held(), chunk@),
            n == final(self).held().len() - old(self).held().len(),
    {
        let ghost e = self.expected;
        let ghost b0 = self.buf@;
        let ghost s = b0 + chunk@;
        let mut i: usize = 0;
        loop
            invariant
                self.expected == e,
                s == b0 + chunk@,
                i <= chunk@.len(),
                self.buf@ == s.take(b0.len() + i),
                frame_settled(e, self.buf@),
            ensures
                i == chunk@.len() || frame_done(e, self.buf@),
            decreases chunk@.len() - i,
        {
            if i >= chunk.len() || self.is_done() {
                break;
            }
            proof {
                lemma_settled_push(e, self.buf@, chunk@[i as int]);
                assert(s[b0.len() + i] == chunk@[i as int]);
            }
            self.buf.push(chunk[i]);
            i = i + 1;
            assert(self.buf@ =~= s.take(b0.len() + i));
        }
        proof {
            if frame_done(e, self.buf@) {
                lemma_done_prefix(e, s, b0.len() + i);
            } else {
                assert(i == chunk@.len());
                assert(s.take(s.len() as int) =~= s);
            }
        }
        i
    }

    /// The payload of the frame read, `BadType` with the announced id when
    /// the type did not match, `Incomplete` when the reader has not stopped.
    pub fn finish(self) -> (r: Result<Vec<u8>, RecvError>)
        requires
            self.wf(),
        ensures
            r is Ok <==> frame_complete(self.expected_spec(), self.held()),
            r is Ok ==> r->Ok_0@ == payload_of(self.held()),
            (r matches Err(RecvError::BadType(t))) <==> frame_failed(self.expected_spec(), self.held()),
            r matches Err(RecvError::BadType(t)) ==> t as int == type_of(self.held()),
            (r matches Err(RecvError::Incomplete)) <==> !frame_done(self.expected_spec(), self.held()),
    {
        let n = self.buf.len();
        if n >= 2 {
            let t: u16 = self.buf[0] as u16 * 256 + self.buf[1] as u16;
            if t != self.expected {
                return Err(RecvError::BadType(t));
            }
        }
        if !self.is_done() {
            return Err(RecvError::Incomplete);
        }
        let mut payload: Vec<u8> = Vec::new();
        let mut i: usize = 6;
        while i < n
            invariant
                6 <= i <= n,
                n == self.buf@.len(),
                payload@ == self.buf@.subrange(6, i as int),
            decreases n - i,
        {
            payload.push(self.buf[i]);
            i = i + 1;
            assert(payload@ =~= self.buf@.subrange(6, i as int));
        }
        Ok(payload)
    }
}

/// Writes the frame of a payload that encodes a record of type `M`.
pub fn encode_message<M: Message>(payload: &[u8]) -> (r: Result<Vec<u8>, SendError>)
    ensures
        payload@.len() <= u32::MAX ==> r is Ok && r->Ok_0@ == frame(M::spec_message_type(), payload@),
        payload@.len() > u32::MAX ==> r is Err,
{
    encode_frame(M::message_type(), payload)
}

/// A reader for one frame of a record of type `M`.
pub fn message_reader<M: Message>() -> (r: FrameReader)
    ensures
        r.expected_spec() == M::spec_message_type(),
        r.held() == Seq::<u8>::empty(),
        r.wf(),
{
    FrameReader::new(M::message_type())
}

/// Decodes one frame of type `expected` from the start of `bytes`.
pub fn decode_frame(expected: u16, bytes: &[u8]) -> (r: Result<Vec<u8>, RecvError>)
    ensures
        r is Ok <==> decode_ok(expected, bytes@),
        r is Ok ==> r->Ok_0@ == payload_of(feed_spec(expected, Seq::empty(), bytes@)),
        (r matches Err(RecvError::BadType(t))) <==> frame_failed(expected, bytes@),
        r matches Err(RecvError::BadType(t)) ==> t as int == type_of(bytes@),
        (r matches Err(RecvError::Incomplete)) <==> !frame_done(
            expected,
            feed_spec(expected, Seq::empty(), bytes@),
        ),
{
    let mut reader = FrameReader::new(expected);
    reader.feed(bytes);
    proof {
        let s = bytes@;
        assert(Seq::<u8>::empty() + s =~= s);
        let b = reader.held();
        lemma_extent_bounds(expected, s);
        if s.len() >= 2 && frame_extent(expected, s) >= 2 {
            assert(b[0] == s[0] && b[1] == s[1]);
        }
    }
    reader.finish()
}

} // verus!
