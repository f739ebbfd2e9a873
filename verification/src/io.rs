//! Framing for the control socket.
//!
//! A message travels as an 8-byte length prefix followed by the opaque
//! payload; file descriptors ride along only on the very first bytes of a
//! message. Encoding and parsing are verified against one another — a framed
//! message parses back to exactly its payload — and the send and receive
//! cursors that the socket layer drives are verified to request the right
//! amounts and to attach descriptors exactly once.

use vstd::prelude::*;

use crate::buf::copy_range;
use crate::buf::push_all;

verus! {

/// The length prefix of a framed message, in bytes.
pub const HEADER_SIZE: usize = 8;

/// A send or receive on the control socket failed.
#[derive(Debug, Clone, PartialEq, Eq)]
pub enum SocketMessageError {
    /// The socket operation failed with this errno.
    Io { errno: i32 },
    /// The payload could not be serialized or deserialized.
    Serialize { message: String },
}

/// The 8 little-endian bytes of a length word.
pub open spec fn spec_le_bytes(n: u64) -> Seq<u8> {
    seq![
        (n & 0xff) as u8,
        ((n >> 8) & 0xff) as u8,
        ((n >> 16) & 0xff) as u8,
        ((n >> 24) & 0xff) as u8,
        ((n >> 32) & 0xff) as u8,
        ((n >> 40) & 0xff) as u8,
        ((n >> 48) & 0xff) as u8,
        ((n >> 56) & 0xff) as u8,
    ]
}

/// The length word the first 8 bytes of `b` spell.
pub open spec fn spec_le_value(b: Seq<u8>) -> u64
    recommends
        b.len() >= 8,
{
    (b[0] as u64) | ((b[1] as u64) << 8) | ((b[2] as u64) << 16) | ((b[3] as u64) << 24) | ((
    b[4] as u64) << 32) | ((b[5] as u64) << 40) | ((b[6] as u64) << 48) | ((b[7] as u64) << 56)
}

/// A length word survives the trip through its 8 bytes.
pub proof fn lemma_le_round_trip(n: u64)
    ensures
        spec_le_value(spec_le_bytes(n)) == n,
{
    assert((((n & 0xff) as u8) as u64) | (((((n >> 8) & 0xff) as u8) as u64) << 8) | (((((n
        >> 16) & 0xff) as u8) as u64) << 16) | (((((n >> 24) & 0xff) as u8) as u64) << 24) | (((((
    n >> 32) & 0xff) as u8) as u64) << 32) | (((((n >> 40) & 0xff) as u8) as u64) << 40) | (((((n
        >> 48) & 0xff) as u8) as u64) << 48) | (((((n >> 56) & 0xff) as u8) as u64) << 56)
        == n) by (bit_vector);
}

/// A whole framed message: the payload's length as 8 little-endian bytes,
/// then the payload itself.
pub open spec fn spec_frame(payload: Seq<u8>) -> Seq<u8>
    recommends
        payload.len() <= u64::MAX,
{
    spec_le_bytes(payload.len() as u64) + payload
}

/// One parse step on a byte stream: the first framed message and the rest of
/// the stream, or `None` when the stream does not hold a whole message yet.
pub open spec fn spec_parse_frame(stream: Seq<u8>) -> Option<(Seq<u8>, Seq<u8>)> {
    if stream.len() < 8 {
        None
    } else {
        let n = spec_le_value(stream.subrange(0, 8)) as int;
        if stream.len() - 8 < n {
            None
        } else {
            Some((stream.subrange(8, 8 + n), stream.subrange(8 + n, stream.len() as int)))
        }
    }
}

/// Framing round-trip: a framed message, followed by anything, parses back to
/// exactly the payload, with the following bytes untouched.
pub proof fn lemma_frame_round_trip(payload: Seq<u8>, rest: Seq<u8>)
    requires
        payload.len() <= u64::MAX,
    ensures
        spec_parse_frame(spec_frame(payload) + rest) == Some((payload, rest)),
{
    let stream = spec_frame(payload) + rest;
    let n = payload.len() as u64;
    lemma_le_round_trip(n);
    assert(stream.subrange(0, 8) =~= spec_le_bytes(n));
    assert(stream.subrange(8, 8 + n as int) =~= payload);
    assert(stream.subrange(8 + n as int, stream.len() as int) =~= rest);
}

/// Appends the 8 little-endian bytes of `n`.
fn push_le_bytes(out: &mut Vec<u8>, n: u64)
    ensures
        final(out)@ == old(out)@ + spec_le_bytes(n),
{
    out.push((n & 0xff) as u8);
    out.push(((n >> 8u64) & 0xff) as u8);
    out.push(((n >> 16u64) & 0xff) as u8);
    out.push(((n >> 24u64) & 0xff) as u8);
    out.push(((n >> 32u64) & 0xff) as u8);
    out.push(((n >> 40u64) & 0xff) as u8);
    out.push(((n >> 48u64) & 0xff) as u8);
    out.push(((n >> 56u64) & 0xff) as u8);
    proof {
        assert(final(out)@ =~= old(out)@ + spec_le_bytes(n));
    }
}

/// Frames a payload: exactly the 8-byte length prefix followed by the
/// payload.
pub fn frame_message(payload: &[u8]) -> (r: Vec<u8>)
    ensures
        r@ == spec_frame(payload@),
        r@.len() == payload@.len() + 8,
{
    let mut out: Vec<u8> = Vec::new();
    push_le_bytes(&mut out, payload.len() as u64);
    push_all(&mut out, payload);
    out
}

/// Frames a payload into an existing buffer — a pooled one, typically:
/// appends exactly the 8-byte length prefix and the payload.
pub fn frame_message_into(out: &mut Vec<u8>, payload: &[u8])
    ensures
        final(out)@ == old(out)@ + spec_frame(payload@),
{
    push_le_bytes(out, payload.len() as u64);
    push_all(out, payload);
    proof {
        assert(final(out)@ =~= old(out)@ + spec_frame(payload@));
    }
}

/// Reads the length word from the 8 header bytes at `start`.
pub fn decode_header_at(stream: &[u8], start: usize) -> (r: u64)
    requires
        start + 8 <= stream@.len(),
    ensures
        r == spec_le_value(stream@.subrange(start as int, stream@.len() as int)),
{
    let r = (stream[start] as u64) | ((stream[start + 1] as u64) << 8u64) | ((stream[start
        + 2] as u64) << 16u64) | ((stream[start + 3] as u64) << 24u64) | ((stream[start
        + 4] as u64) << 32u64) | ((stream[start + 5] as u64) << 40u64) | ((stream[start
        + 6] as u64) << 48u64) | ((stream[start + 7] as u64) << 56u64);
    proof {
        let tail = stream@.subrange(start as int, stream@.len() as int);
        assert(tail[0] == stream@[start as int]);
        assert(tail[1] == stream@[start as int + 1]);
        assert(tail[2] == stream@[start as int + 2]);
        assert(tail[3] == stream@[start as int + 3]);
        assert(tail[4] == stream@[start as int + 4]);
        assert(tail[5] == stream@[start as int + 5]);
        assert(tail[6] == stream@[start as int + 6]);
        assert(tail[7] == stream@[start as int + 7]);
    }
    r
}

/// Reads one framed message out of `stream` at `start`: the payload and the
/// offset of what follows, or `None` when no whole message lies there —
/// exactly as [`spec_parse_frame`] describes.
pub fn read_message(stream: &[u8], start: usize) -> (r: Option<(Vec<u8>, usize)>)
    requires
        start <= stream@.len(),
    ensures
        match spec_parse_frame(stream@.subrange(start as int, stream@.len() as int)) {
            Some((payload, rest)) => r matches Some((buf, next)) && buf@ == payload && start
                < next <= stream@.len() && rest == stream@.subrange(
                next as int,
                stream@.len() as int,
            ),
            None => r is None,
        },
{
    let ghost tail = stream@.subrange(start as int, stream@.len() as int);
    if stream.len() - start < 8 {
        return None;
    }
    let n = decode_header_at(stream, start);
    proof {
        assert(tail.subrange(0, 8) =~= stream@.subrange(start as int, start + 8));
        assert(spec_le_value(tail) == spec_le_value(tail.subrange(0, 8)));
    }
    if n > (stream.len() - start - 8) as u64 {
        return None;
    }
    let len = n as usize;
    let payload = copy_range(stream, start + 8, start + 8 + len);
    proof {
        assert(tail.subrange(8, 8 + len) =~= stream@.subrange(
            start + 8,
            start + 8 + len,
        ));
        assert(tail.subrange(8 + len, tail.len() as int) =~= stream@.subrange(
            start + 8 + len,
            stream@.len() as int,
        ));
    }
    Some((payload, start + 8 + len))
}

/// The progress of sending one framed message: how many of its bytes the
/// socket has taken so far. Descriptors are attached to the send that starts
/// at byte zero and to no other.
#[derive(Debug, Clone, Copy, PartialEq, Eq, Structural)]
pub struct SendState {
    /// Bytes the socket has accepted.
    pub sent: usize,
    /// The whole message's length.
    pub len: usize,
}

impl SendState {
    /// The start of a message of `len` bytes: nothing sent yet.
    pub fn new(len: usize) -> (r: Self)
        ensures
            r.sent == 0,
            r.len == len,
    {
        SendState { sent: 0, len }
    }

    /// Whether the descriptors ride on the next send: only on the first one.
    pub fn attach_fds_now(&self) -> (r: bool)
        ensures
            r == (self.sent == 0),
    {
        self.sent == 0
    }

    /// Whether the whole message has been sent.
    pub fn done(&self) -> (r: bool)
        requires
            self.sent <= self.len,
        ensures
            r == (self.sent == self.len),
    {
        self.sent >= self.len
    }

    /// Records that the socket accepted `n` more bytes.
    pub fn advance(&mut self, n: usize)
        requires
            old(self).sent + n <= old(self).len,
        ensures
            final(self).sent == old(self).sent + n,
            final(self).len == old(self).len,
    {
        self.sent = self.sent + n;
    }
}

/// The sum of the first `i` chunk sizes: the stream offset at which chunk `i`
/// begins.
pub open spec fn spec_offset_before(chunks: Seq<int>, i: int) -> int
    decreases i,
{
    if i <= 0 {
        0
    } else {
        spec_offset_before(chunks, i - 1) + chunks[i - 1]
    }
}

/// Descriptor attachment: over any run of sends that each move at least one
/// byte, only the first send starts at offset zero — so the descriptors,
/// attached exactly to the send from offset zero, go out exactly once.
pub proof fn lemma_fds_attached_once(chunks: Seq<int>, i: int)
    requires
        forall|k: int| 0 <= k < chunks.len() ==> chunks[k] >= 1,
        0 <= i < chunks.len(),
    ensures
        spec_offset_before(chunks, 0) == 0,
        i > 0 ==> spec_offset_before(chunks, i) > 0,
    decreases i,
{
    if i > 0 {
        lemma_fds_attached_once(chunks, i - 1);
    }
}

/// The progress of receiving an exact number of bytes: how many have arrived,
/// how many are wanted.
#[derive(Debug, Clone, Copy, PartialEq, Eq, Structural)]
pub struct RecvState {
    /// Bytes received so far.
    pub got: usize,
    /// The number of bytes wanted in all.
    pub want: usize,
}

impl RecvState {
    /// The start of an exact receive of `want` bytes.
    pub fn new(want: usize) -> (r: Self)
        ensures
            r.got == 0,
            r.want == want,
    {
        RecvState { got: 0, want }
    }

    /// How many bytes the next receive asks for: the rest of the message,
    /// capped by the scratch buffer's size.
    pub fn next_request(&self, scratch: usize) -> (r: usize)
        requires
            self.got <= self.want,
        ensures
            self.want - self.got < scratch ==> r == self.want - self.got,
            self.want - self.got >= scratch ==> r == scratch,
    {
        let remaining = self.want - self.got;
        if remaining < scratch {
            remaining
        } else {
            scratch
        }
    }

    /// Whether everything wanted has arrived.
    pub fn done(&self) -> (r: bool)
        requires
            self.got <= self.want,
        ensures
            r == (self.got == self.want),
    {
        self.got >= self.want
    }

    /// Records `n` more received bytes.
    pub fn advance(&mut self, n: usize)
        requires
            old(self).got + n <= old(self).want,
        ensures
            final(self).got == old(self).got + n,
            final(self).want == old(self).want,
    {
        self.got = self.got + n;
    }
}

} // verus!
