//! The frame codec: how one protocol message is delimited on the byte stream.
//!
//! On the wire a frame is a two-byte big-endian length followed by that many
//! bytes of body. Frames follow one another with nothing in between. The top
//! three bits of the first byte of a body give the type of the message.

use crate::buffer::buffer_bytes;
use crate::buffer::buffer_extend;
use crate::buffer::buffer_freeze;
use crate::buffer::buffer_put_u16;
use crate::buffer::buffer_with_capacity;
use crate::error::IoFailure;
use crate::error::RootcanalError;
use vstd::prelude::*;
use vstd::slice::slice_subrange;
use vstd::slice::slice_to_vec;

verus! {

/// The number of bytes of the length field that precedes every frame body.
pub const LENGTH_PREFIX_LEN: usize = 2;

/// The longest body that the length field can announce.
pub const MAX_FRAME_LEN: usize = 65535;

/// Message type of a data packet.
pub const DATA: u8 = 0;

/// Message type of a command packet.
pub const COMMAND: u8 = 1;

/// Message type of a response packet.
pub const RESPONSE: u8 = 2;

/// Message type of a notification packet.
pub const NOTIFICATION: u8 = 3;

/// Message type by which a peer asks for the session to end. This value is a
/// convention of the simulator, not of the controller interface.
pub const TERMINATION: u8 = 4;

/// The length field for a body of `len` bytes: two bytes, the high one first.
pub open spec fn spec_length_prefix(len: nat) -> Seq<u8> {
    seq![(len / 256) as u8, (len % 256) as u8]
}

/// A frame as it stands on the wire: the length field, then the body.
pub open spec fn spec_frame(body: Seq<u8>) -> Seq<u8> {
    spec_length_prefix(body.len()) + body
}

/// The body length that the first two bytes of `source` announce.
pub open spec fn spec_announced_len(source: Seq<u8>) -> nat
    recommends
        source.len() >= 2,
{
    (source[0] as nat) * 256 + (source[1] as nat)
}

/// The number of bytes that `source` lacks before it holds one whole frame:
/// first those of the length field, then those of the body it announces.
pub open spec fn spec_missing(source: Seq<u8>) -> nat {
    if source.len() < 2 {
        (2 - source.len()) as nat
    } else if source.len() < 2 + spec_announced_len(source) {
        (2 + spec_announced_len(source) - source.len()) as nat
    } else {
        0
    }
}

/// What reading one frame from `source` gives, where `source` is all that the
/// stream still holds: the body and the count of bytes consumed, or the way in
/// which the stream fell short.
pub open spec fn spec_read_frame(source: Seq<u8>) -> Result<(Seq<u8>, nat), RootcanalError> {
    if source.len() == 0 {
        Err(RootcanalError::IoError(IoFailure::EndOfStream))
    } else if spec_missing(source) > 0 {
        Err(RootcanalError::IoError(IoFailure::Truncated))
    } else {
        Ok(
            (
                source.subrange(2, 2 + spec_announced_len(source) as int),
                2 + spec_announced_len(source),
            ),
        )
    }
}

/// The message type that a first byte carries in its bits 5 to 7.
pub open spec fn spec_message_type(first: u8) -> u8 {
    (first >> 5) & 0x7
}

/// How many more bytes `source` needs before `read_frame` can cut a frame from
/// it; zero when a whole frame is there.
pub fn missing(source: &[u8]) -> (count: usize)
    ensures
        count == spec_missing(source@),
{
    let have: usize = source.len();
    if have < 2 {
        return 2 - have;
    }
    let announced: usize = announced_len(source);
    if have - 2 < announced {
        announced - (have - 2)
    } else {
        0
    }
}

/// Decodes the length field at the head of `source`.
fn announced_len(source: &[u8]) -> (len: usize)
    requires
        source@.len() >= 2,
    ensures
        len == spec_announced_len(source@),
        len <= MAX_FRAME_LEN,
{
    let high: usize = source[0] as usize;
    let low: usize = source[1] as usize;
    high * 256 + low
}

/// Reads one frame from the head of `source`, which is taken to be everything
/// that the stream still holds.
///
/// On success the result is the body, exactly as long as the length field
/// said, and the number of bytes that the frame took from `source`. An empty
/// `source` is a clean end of stream. A `source` that ends inside the length
/// field or inside the body is a truncated stream.
pub fn read_frame(source: &[u8]) -> (read: Result<(Vec<u8>, usize), RootcanalError>)
    ensures
        match read {
            Ok((body, consumed)) => spec_read_frame(source@) == Ok::<
                (Seq<u8>, nat),
                RootcanalError,
            >((body@, consumed as nat)),
            Err(e) => spec_read_frame(source@) == Err::<(Seq<u8>, nat), RootcanalError>(e),
        },
{
    if source.len() == 0 {
        return Err(RootcanalError::IoError(IoFailure::EndOfStream));
    }
    if missing(source) > 0 {
        return Err(RootcanalError::IoError(IoFailure::Truncated));
    }
    let end: usize = 2 + announced_len(source);
    let body: Vec<u8> = slice_to_vec(slice_subrange(source, 2, end));
    Ok((body, end))
}

/// Writes `body` to `sink` as one frame: the two-byte big-endian length of the
/// body, then the body, appended after what `sink` already holds.
pub fn write_frame(sink: &mut Vec<u8>, body: &[u8])
    requires
        body@.len() <= MAX_FRAME_LEN,
    ensures
        final(sink)@ == old(sink)@ + spec_frame(body@),
{
    let len: usize = body.len();
    let mut data = buffer_with_capacity(len + 2);
    buffer_put_u16(&mut data, len as u16);
    buffer_extend(&mut data, body);
    let mut frozen: Vec<u8> = buffer_freeze(data);
    sink.append(&mut frozen);
}

/// The message type of a frame: bits 5 to 7 of the first byte of its body. An
/// empty body has no first byte and is not a packet.
pub fn message_type(body: &[u8]) -> (kind: Result<u8, RootcanalError>)
    ensures
        body@.len() == 0 ==> kind == Err::<u8, RootcanalError>(RootcanalError::InvalidPacket),
        body@.len() > 0 ==> kind == Ok::<u8, RootcanalError>(spec_message_type(body@[0])),
{
    if body.len() == 0 {
        Err(RootcanalError::InvalidPacket)
    } else {
        Ok((body[0] >> 5) & 0x7)
    }
}

/// Frame boundaries are exact. A body of any length that the length field can
/// announce, written as a frame and followed by whatever comes next on the
/// stream, is read back unchanged: the length field announces the length of
/// the body, and the frame takes the body and its two bytes of length from the
/// stream, no more and no less.
pub proof fn lemma_frame_round_trip(body: Seq<u8>, rest: Seq<u8>)
    requires
        body.len() <= MAX_FRAME_LEN,
    ensures
        spec_frame(body).len() == 2 + body.len(),
        spec_announced_len(spec_frame(body) + rest) == body.len(),
        spec_missing(spec_frame(body) + rest) == 0,
        spec_read_frame(spec_frame(body) + rest) == Ok::<(Seq<u8>, nat), RootcanalError>(
            (body, 2 + body.len()),
        ),
{
    let len = body.len();
    let source = spec_frame(body) + rest;
    assert(source.subrange(2, 2 + len as int) =~= body);
}

} // verus!
