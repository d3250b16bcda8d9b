//! The read side of a framed transport: bytes come in as the stream
//! delivers them, frames go out as soon as they are complete.
use crate::frame::{decode, Decoded, Error, Frame};
use bytes::{Buf, BytesMut};
use vstd::prelude::*;

verus! {

#[verifier::external_type_specification]
#[verifier::external_body]
pub struct ExBytesMut(BytesMut);

/// The bytes a `BytesMut` holds, in order.
pub uninterp spec fn held_bytes(b: BytesMut) -> Seq<u8>;

/// Relies on `BytesMut::with_capacity`: a buffer that holds no bytes yet.
#[verifier::external_body]
fn bytes_with_capacity(capacity: usize) -> (r: BytesMut)
    ensures
        held_bytes(r) == Seq::<u8>::empty(),
{
    BytesMut::with_capacity(capacity)
}

/// Relies on `BytesMut::extend_from_slice`: appends the bytes of `data`.
#[verifier::external_body]
fn bytes_extend(b: &mut BytesMut, data: &[u8])
    ensures
        held_bytes(*final(b)) == held_bytes(*old(b)) + data@,
{
    b.extend_from_slice(data)
}

/// Relies on `BytesMut`'s `Deref` to `[u8]`: the bytes it holds.
#[verifier::external_body]
fn bytes_view(b: &BytesMut) -> (r: &[u8])
    ensures
        r@ == held_bytes(*b),
{
    &b[..]
}

/// Relies on `<BytesMut as Buf>::advance`: drops the first `n` bytes. It
/// panics when `n` exceeds the length, which `requires` rules out.
#[verifier::external_body]
fn bytes_advance(b: &mut BytesMut, n: usize)
    requires
        n <= held_bytes(*old(b)).len(),
    ensures
        held_bytes(*final(b)) == held_bytes(*old(b)).subrange(n as int, held_bytes(*old(b)).len() as int),
{
    b.advance(n)
}

/// Relies on `BytesMut::split`: takes out every byte, leaving the buffer
/// empty.
#[verifier::external_body]
fn bytes_take_all(b: &mut BytesMut) -> (r: Vec<u8>)
    ensures
        r@ == held_bytes(*old(b)),
        held_bytes(*final(b)) == Seq::<u8>::empty(),
{
    b.split().to_vec()
}

/// How a stream ended, judged by what was left unread.
#[derive(Clone, Copy, Debug, PartialEq, Eq, Structural)]
pub enum StreamEnd {
    /// Nothing was pending: a clean end of file.
    Eof,
    /// A frame was cut off: the peer reset the connection.
    Reset,
}

/// Bytes received and not yet consumed as frames.
pub struct FrameBuffer {
    buffer: BytesMut,
}

impl View for FrameBuffer {
    type V = Seq<u8>;

    closed spec fn view(&self) -> Seq<u8> {
        held_bytes(self.buffer)
    }
}

impl FrameBuffer {
    /// An empty buffer.
    pub fn new() -> (r: FrameBuffer)
        ensures
            r@ == Seq::<u8>::empty(),
    {
        FrameBuffer { buffer: bytes_with_capacity(4 * 1024) }
    }

    /// Appends bytes read from the stream.
    pub fn extend(&mut self, data: &[u8])
        ensures
            final(self)@ == old(self)@ + data@,
    {
        bytes_extend(&mut self.buffer, data);
    }

    /// Whether no bytes are pending.
    pub fn is_empty(&self) -> (r: bool)
        ensures
            r == (self@.len() == 0),
    {
        bytes_view(&self.buffer).len() == 0
    }

    /// Takes the first frame off the buffer. Returns `Ok(None)` and keeps
    /// the bytes when the frame is not complete yet; fails, keeping the
    /// bytes, when they cannot start a frame.
    pub fn next_frame(&mut self) -> (r: Result<Option<Frame>, Error>)
        ensures
            match decode(old(self)@) {
                Decoded::Frame(f, n) => r is Ok && r->Ok_0 is Some && r->Ok_0->Some_0@ == f
                    && final(self)@ == old(self)@.subrange(n as int, old(self)@.len() as int),
                Decoded::Failed(Error::Incomplete) => r is Ok && r->Ok_0 is None
                    && final(self)@ == old(self)@,
                Decoded::Failed(e) => r == Err::<Option<Frame>, Error>(e) && final(self)@ == old(self)@,
            },
    {
        match Frame::parse(bytes_view(&self.buffer)) {
            Ok((frame, used)) => {
                bytes_advance(&mut self.buffer, used);
                Ok(Some(frame))
            },
            Err(Error::Incomplete) => Ok(None),
            Err(e) => Err(e),
        }
    }

    /// Takes every pending byte out of the buffer, for a channel that leaves
    /// framing: what follows the last frame is payload.
    pub fn take_pending(&mut self) -> (r: Vec<u8>)
        ensures
            r@ == old(self)@,
            final(self)@ == Seq::<u8>::empty(),
    {
        bytes_take_all(&mut self.buffer)
    }

    /// How the stream ended, given that a read returned no bytes.
    pub fn end_of_stream(&self) -> (r: StreamEnd)
        ensures
            r == (if self@.len() == 0 { StreamEnd::Eof } else { StreamEnd::Reset }),
    {
        if bytes_view(&self.buffer).len() == 0 {
            StreamEnd::Eof
        } else {
            StreamEnd::Reset
        }
    }
}

} // verus!
