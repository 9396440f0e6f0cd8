//! The frame codec: a message on the wire is its length as four
//! little-endian bytes, followed by the message itself.

use crate::stream::ByteStream;
use vstd::prelude::*;

verus! {

/// Number of bytes in the length header of a frame.
pub const HEADER_LEN: usize = 4;

/// One more than the largest length that a header can hold.
pub open spec fn length_limit() -> nat {
    0x1_0000_0000
}

/// The four header bytes for a message of `n` bytes, least significant first.
/// A length that does not fit into 32 bits is reduced modulo `length_limit()`.
pub open spec fn length_header(n: nat) -> Seq<u8> {
    seq![
        (n % 256) as u8,
        (n / 0x100 % 256) as u8,
        (n / 0x1_0000 % 256) as u8,
        (n / 0x100_0000 % 256) as u8,
    ]
}

/// The length that the first four bytes of `header` announce.
pub open spec fn header_value(header: Seq<u8>) -> nat
    recommends
        header.len() >= 4,
{
    (header[0] as nat) + 0x100 * (header[1] as nat) + 0x1_0000 * (header[2] as nat) + 0x100_0000
        * (header[3] as nat)
}

/// A message as it travels: its length header, then its bytes unchanged.
pub open spec fn frame(message: Seq<u8>) -> Seq<u8> {
    length_header(message.len()) + message
}

/// Why a stream does not hold a complete frame.
#[derive(Debug, Clone, Copy, PartialEq, Eq, Structural)]
pub enum FrameError {
    /// The stream ended after one to three bytes of a length header.
    TruncatedHeader,
    /// The stream ended before the announced number of message bytes.
    ShortBody,
}

/// What the front of a byte stream holds.
pub enum Decoded {
    /// Nothing: the stream has ended where a frame would begin.
    End,
    /// A complete frame with this message, and what follows the frame.
    Message { body: Seq<u8>, rest: Seq<u8> },
    /// An incomplete frame.
    Failed(FrameError),
}

/// Decodes the frame at the front of `stream`.
pub open spec fn decode(stream: Seq<u8>) -> Decoded {
    if stream.len() == 0 {
        Decoded::End
    } else if stream.len() < 4 {
        Decoded::Failed(FrameError::TruncatedHeader)
    } else if stream.len() - 4 < header_value(stream) {
        Decoded::Failed(FrameError::ShortBody)
    } else {
        Decoded::Message {
            body: stream.subrange(4, 4 + header_value(stream) as int),
            rest: stream.skip(4 + header_value(stream) as int),
        }
    }
}

/// What a read of up to four header bytes says about the frame to come.
pub open spec fn header_meaning(bytes: Seq<u8>) -> Result<Option<nat>, FrameError> {
    if bytes.len() == 0 {
        Ok(None)
    } else if bytes.len() < 4 {
        Err(FrameError::TruncatedHeader)
    } else {
        Ok(Some(header_value(bytes)))
    }
}

/// Reads the length out of a complete header.
fn decode_length(header: &[u8]) -> (length: u32)
    requires
        header@.len() >= 4,
    ensures
        length == header_value(header@),
{
    let b0: u32 = header[0] as u32;
    let b1: u32 = header[1] as u32;
    let b2: u32 = header[2] as u32;
    let b3: u32 = header[3] as u32;
    b0 + 0x100 * b1 + 0x1_0000 * b2 + 0x100_0000 * b3
}

/// Judges the bytes that a read of the length header produced: no bytes
/// mean that the stream ended cleanly, one to three that it broke off
/// inside the header, and from four bytes on the first four are the length.
pub fn read_header(bytes: &[u8]) -> (result: Result<Option<u32>, FrameError>)
    ensures
        match header_meaning(bytes@) {
            Ok(None) => result == Ok::<Option<u32>, FrameError>(None),
            Ok(Some(length)) => result == Ok::<Option<u32>, FrameError>(Some(length as u32))
                && length <= u32::MAX,
            Err(error) => result == Err::<Option<u32>, FrameError>(error),
        },
{
    if bytes.len() == 0 {
        Ok(None)
    } else if bytes.len() < HEADER_LEN {
        Err(FrameError::TruncatedHeader)
    } else {
        Ok(Some(decode_length(bytes)))
    }
}

/// Frames a message: four bytes of length, then the message. Of a length
/// that does not fit into the header, the header holds the low 32 bits.
pub fn encode_message(message: &[u8]) -> (out: Vec<u8>)
    ensures
        out@ == frame(message@),
{
    let n: usize = message.len();
    let mut out: Vec<u8> = Vec::new();
    out.push((n % 256) as u8);
    out.push((n / 0x100 % 256) as u8);
    out.push((n / 0x1_0000 % 256) as u8);
    out.push((n / 0x100_0000 % 256) as u8);
    out.extend_from_slice(message);
    out
}

/// Reads one frame off the front of `reader` and returns its message.
///
/// A stream that has ended yields `Ok(None)` and stays as it is. A complete
/// frame yields its message and leaves the reader behind the frame. A frame
/// that breaks off yields the error, and the reader has nothing left.
pub fn read_native_message(reader: &mut ByteStream) -> (result: Result<
    Option<Vec<u8>>,
    FrameError,
>)
    ensures
        match decode(old(reader)@) {
            Decoded::End => result matches Ok(None) && final(reader)@ == old(reader)@,
            Decoded::Message { body, rest } => result matches Ok(Some(message)) && message@ == body
                && final(reader)@ == rest,
            Decoded::Failed(error) => result == Err::<Option<Vec<u8>>, FrameError>(error)
                && final(reader)@.len() == 0,
        },
{
    let header = reader.read(HEADER_LEN);
    match read_header(header.as_slice()) {
        Err(error) => Err(error),
        Ok(None) => Ok(None),
        Ok(Some(length)) => {
            let body = reader.read(length as usize);
            if body.len() < length as usize {
                Err(FrameError::ShortBody)
            } else {
                Ok(Some(body))
            }
        },
    }
}

/// Decoding an encoded message gives the message back, with nothing left
/// over, and the header announces the message's length. This holds for
/// every message whose length fits into the header.
pub proof fn lemma_encode_then_decode(message: Seq<u8>)
    requires
        message.len() < length_limit(),
    ensures
        header_value(frame(message)) == message.len(),
        decode(frame(message)) == (Decoded::Message { body: message, rest: Seq::empty() }),
{
    lemma_frame_then_rest(message, Seq::empty());
    assert(frame(message) + Seq::<u8>::empty() =~= frame(message));
}

/// A frame at the front of a stream decodes to its message and leaves
/// exactly what followed the frame.
pub proof fn lemma_frame_then_rest(message: Seq<u8>, rest: Seq<u8>)
    requires
        message.len() < length_limit(),
    ensures
        header_value(frame(message) + rest) == message.len(),
        decode(frame(message) + rest) == (Decoded::Message { body: message, rest }),
{
    let stream = frame(message) + rest;
    let n = message.len();
    assert(stream[0] == (n % 256) as u8);
    assert(stream[1] == (n / 0x100 % 256) as u8);
    assert(stream[2] == (n / 0x1_0000 % 256) as u8);
    assert(stream[3] == (n / 0x100_0000 % 256) as u8);
    assert(header_value(stream) == n);
    assert(stream.subrange(4, 4 + n as int) =~= message);
    assert(stream.skip(4 + n as int) =~= rest);
}

/// A stream that has ended holds no message; that is not an error.
pub proof fn lemma_empty_stream(stream: Seq<u8>)
    requires
        stream.len() == 0,
    ensures
        decode(stream) == Decoded::End,
{
}

/// A stream of one to three bytes holds a truncated header.
pub proof fn lemma_truncated_header(stream: Seq<u8>)
    requires
        1 <= stream.len() <= 3,
    ensures
        decode(stream) == Decoded::Failed(FrameError::TruncatedHeader),
{
}

/// A header that announces more bytes than follow it makes a short body.
pub proof fn lemma_short_body(stream: Seq<u8>)
    requires
        stream.len() >= 4,
        stream.len() - 4 < header_value(stream),
    ensures
        decode(stream) == Decoded::Failed(FrameError::ShortBody),
{
}

} // verus!
