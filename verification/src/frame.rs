//! Frames: a payload behind its length, as a signed 32-bit number in little-endian order.
use crate::error::{GlycoError, IoErrorKind, IoFailure};
use crate::text::{push_signed_decimal, signed_decimal};
use vstd::prelude::*;
use vstd::slice::*;

verus! {

/// The longest payload that a length prefix can announce.
pub const MAX_PREFIX_LENGTH: usize = 2147483647;

/// How many bytes a length prefix takes.
pub const PREFIX_SIZE: usize = 4;

/// The four bytes of a length, lowest first.
pub open spec fn length_prefix(length: nat) -> Seq<u8> {
    seq![
        (length % 256) as u8,
        (length / 256 % 256) as u8,
        (length / 65536 % 256) as u8,
        (length / 16777216 % 256) as u8,
    ]
}

/// The number that four bytes hold, lowest first, in two's complement.
pub open spec fn prefix_number(bytes: Seq<u8>) -> int {
    let number = bytes[0] + 256 * bytes[1] + 65536 * bytes[2] + 16777216 * bytes[3];
    if number < 0x8000_0000 {
        number
    } else {
        number - 0x1_0000_0000
    }
}

/// A payload behind its length.
pub open spec fn framed(payload: Seq<u8>) -> Seq<u8> {
    length_prefix(payload.len()) + payload
}

/// Whether a payload may be sent under a limit.
pub open spec fn fits_frame(size: nat, max_frame_length: nat) -> bool {
    size <= max_frame_length && size <= MAX_PREFIX_LENGTH
}

/// Puts a payload behind its length. A payload above the limit, or too long for its length to be
/// written, is refused.
pub fn frame_message(payload: &[u8], max_frame_length: usize) -> (frame: Result<
    Vec<u8>,
    GlycoError,
>)
    ensures
        match frame {
            Ok(bytes) => fits_frame(payload@.len(), max_frame_length as nat) && bytes@ == framed(
                payload@,
            ),
            Err(error) => {
                &&& !fits_frame(payload@.len(), max_frame_length as nat)
                &&& error == (GlycoError::FrameTooLarge {
                    size: payload@.len() as usize,
                    limit: if max_frame_length <= MAX_PREFIX_LENGTH {
                        max_frame_length
                    } else {
                        MAX_PREFIX_LENGTH
                    },
                })
            },
        },
{
    let size: usize = payload.len();
    if size > max_frame_length || size > MAX_PREFIX_LENGTH {
        let limit: usize = if max_frame_length <= MAX_PREFIX_LENGTH {
            max_frame_length
        } else {
            MAX_PREFIX_LENGTH
        };
        return Err(GlycoError::FrameTooLarge { size, limit });
    }
    let mut bytes: Vec<u8> = Vec::new();
    bytes.push((size % 256) as u8);
    bytes.push((size / 256 % 256) as u8);
    bytes.push((size / 65536 % 256) as u8);
    bytes.push((size / 16777216 % 256) as u8);
    let mut body = slice_to_vec(payload);
    bytes.append(&mut body);
    assert(bytes@ =~= framed(payload@));
    Ok(bytes)
}

/// The text of the failure for a length that cannot be accepted.
pub open spec fn bad_length_text(length: int) -> Seq<char> {
    "invalid message length: "@ + signed_decimal(length)
}

/// Reads a length prefix. A negative length and one above the limit are invalid.
pub fn message_length(prefix: &[u8], max_frame_length: usize) -> (length: Result<usize, IoFailure>)
    requires
        prefix@.len() == PREFIX_SIZE,
    ensures
        match length {
            Ok(length) => length == prefix_number(prefix@) && length <= max_frame_length,
            Err(failure) => {
                &&& prefix_number(prefix@) < 0 || prefix_number(prefix@) > max_frame_length
                &&& failure.kind == IoErrorKind::InvalidData
                &&& failure.os_code is None
                &&& failure.message@ == bad_length_text(prefix_number(prefix@))
            },
        },
{
    let number: i64 = prefix[0] as i64 + 256 * prefix[1] as i64 + 65536 * prefix[2] as i64
        + 16777216 * prefix[3] as i64;
    let signed: i64 = if number < 0x8000_0000 {
        number
    } else {
        number - 0x1_0000_0000
    };
    if signed < 0 || signed as u64 > max_frame_length as u64 {
        let mut message = "invalid message length: ".to_owned();
        push_signed_decimal(&mut message, signed);
        return Err(IoFailure { kind: IoErrorKind::InvalidData, os_code: None, message });
    }
    Ok(signed as usize)
}

/// Why no message could be taken off a stream.
pub enum ReadFault {
    /// The stream ends inside a frame.
    Truncated,
    /// The length is not one that can be accepted.
    BadLength(int),
}

/// The first payload of a stream of frames and what follows it.
pub open spec fn first_message(stream: Seq<u8>, max_frame_length: nat) -> Result<
    (Seq<u8>, Seq<u8>),
    ReadFault,
> {
    if stream.len() < PREFIX_SIZE {
        Err(ReadFault::Truncated)
    } else {
        let length = prefix_number(stream.take(PREFIX_SIZE as int));
        let rest = stream.skip(PREFIX_SIZE as int);
        if length < 0 || length > max_frame_length {
            Err(ReadFault::BadLength(length))
        } else if rest.len() < length {
            Err(ReadFault::Truncated)
        } else {
            Ok((rest.take(length), rest.skip(length)))
        }
    }
}

/// Takes the first message off a stream, and says how many bytes it took.
pub fn read_message(stream: &[u8], max_frame_length: usize) -> (message: Result<
    (Vec<u8>, usize),
    IoFailure,
>)
    ensures
        match message {
            Ok((payload, taken)) => {
                &&& taken <= stream@.len()
                &&& first_message(stream@, max_frame_length as nat) == Ok::<
                    (Seq<u8>, Seq<u8>),
                    ReadFault,
                >((payload@, stream@.skip(taken as int)))
            },
            Err(failure) => match first_message(stream@, max_frame_length as nat) {
                Err(ReadFault::Truncated) => failure.kind == IoErrorKind::UnexpectedEof
                    && failure.os_code is None && failure.message@ == "failed to fill whole buffer"@,
                Err(ReadFault::BadLength(length)) => failure.kind == IoErrorKind::InvalidData
                    && failure.os_code is None && failure.message@ == bad_length_text(length),
                Ok(_) => false,
            },
        },
{
    let size: usize = stream.len();
    if size < PREFIX_SIZE {
        return Err(
            IoFailure::new(IoErrorKind::UnexpectedEof, "failed to fill whole buffer"),
        );
    }
    let prefix = slice_subrange(stream, 0, PREFIX_SIZE);
    assert(prefix@ =~= stream@.take(PREFIX_SIZE as int));
    let length: usize = match message_length(prefix, max_frame_length) {
        Ok(length) => length,
        Err(failure) => return Err(failure),
    };
    if size - PREFIX_SIZE < length {
        return Err(
            IoFailure::new(IoErrorKind::UnexpectedEof, "failed to fill whole buffer"),
        );
    }
    let payload = slice_subrange(stream, PREFIX_SIZE, PREFIX_SIZE + length);
    proof {
        let rest = stream@.skip(PREFIX_SIZE as int);
        assert(payload@ =~= rest.take(length as int));
        assert(stream@.skip(PREFIX_SIZE + length) =~= rest.skip(length as int));
    }
    Ok((slice_to_vec(payload), PREFIX_SIZE + length))
}

/// What the reader of a stream needs next, from the bytes that it got so far.
#[derive(Debug)]
pub enum ReadStep {
    /// So many bytes more.
    Need(usize),
    /// Nothing: this is the payload.
    Message(Vec<u8>),
    /// Nothing: the length is not one that can be accepted.
    Failed(IoFailure),
}

/// How many bytes are missing to a length prefix, or to the payload that the prefix announces.
pub open spec fn missing(received: Seq<u8>) -> int {
    if received.len() < PREFIX_SIZE {
        PREFIX_SIZE - received.len()
    } else {
        PREFIX_SIZE + prefix_number(received.take(PREFIX_SIZE as int)) - received.len()
    }
}

/// Says what the reader of a stream needs next. It asks for the prefix first, and then for just the
/// bytes that the prefix announces.
pub fn read_step(received: &[u8], max_frame_length: usize) -> (step: ReadStep)
    ensures
        match first_message(received@, max_frame_length as nat) {
            Ok((payload, rest)) => step matches ReadStep::Message(bytes) && bytes@ == payload,
            Err(ReadFault::Truncated) => step matches ReadStep::Need(n) && n == missing(received@)
                && n > 0,
            Err(ReadFault::BadLength(length)) => step matches ReadStep::Failed(failure)
                && failure.kind == IoErrorKind::InvalidData && failure.os_code is None
                && failure.message@ == bad_length_text(length),
        },
{
    let size: usize = received.len();
    if size < PREFIX_SIZE {
        return ReadStep::Need(PREFIX_SIZE - size);
    }
    let prefix = slice_subrange(received, 0, PREFIX_SIZE);
    assert(prefix@ =~= received@.take(PREFIX_SIZE as int));
    let length: usize = match message_length(prefix, max_frame_length) {
        Ok(length) => length,
        Err(failure) => return ReadStep::Failed(failure),
    };
    if size - PREFIX_SIZE < length {
        return ReadStep::Need(length - (size - PREFIX_SIZE));
    }
    let payload = slice_subrange(received, PREFIX_SIZE, PREFIX_SIZE + length);
    assert(payload@ =~= received@.skip(PREFIX_SIZE as int).take(length as int));
    ReadStep::Message(slice_to_vec(payload))
}

/// A reader that gets just the bytes that it asks for takes one message off a stream and not a byte
/// more: before the end of the frame it asks for bytes that are all of that frame, and at its end it
/// has the payload. Whatever length it refuses, it refuses from the prefix alone.
pub proof fn law_reader_takes_one_frame(stream: Seq<u8>, max_frame_length: nat, got: int)
    requires
        0 <= got <= stream.len(),
    ensures
        ({
            let received = stream.take(got);
            match first_message(stream, max_frame_length) {
                Ok((payload, rest)) => {
                    let end = PREFIX_SIZE + payload.len();
                    &&& stream.skip(end) == rest
                    &&& got < end ==> first_message(received, max_frame_length) == Err::<
                        (Seq<u8>, Seq<u8>),
                        ReadFault,
                    >(ReadFault::Truncated) && 0 < missing(received) && got + missing(received)
                        <= end
                    &&& got == end ==> first_message(received, max_frame_length) == Ok::<
                        (Seq<u8>, Seq<u8>),
                        ReadFault,
                    >((payload, Seq::empty()))
                },
                Err(ReadFault::BadLength(length)) => got >= PREFIX_SIZE ==> first_message(
                    received,
                    max_frame_length,
                ) == Err::<(Seq<u8>, Seq<u8>), ReadFault>(ReadFault::BadLength(length)),
                Err(ReadFault::Truncated) => first_message(received, max_frame_length) == Err::<
                    (Seq<u8>, Seq<u8>),
                    ReadFault,
                >(ReadFault::Truncated),
            }
        }),
{
    let received = stream.take(got);
    let prefix = PREFIX_SIZE as int;
    if got >= prefix {
        assert(received.take(prefix) =~= stream.take(prefix));
        assert(received.skip(prefix) =~= stream.skip(prefix).take(got - prefix));
        match first_message(stream, max_frame_length) {
            Ok((payload, rest)) => {
                let end = prefix + payload.len();
                assert(stream.skip(end) =~= rest);
                if got == end {
                    assert(received.skip(prefix).take(payload.len() as int) =~= payload);
                    assert(received.skip(prefix).skip(payload.len() as int) =~= Seq::<u8>::empty());
                }
            },
            Err(_) => {},
        }
    } else {
        match first_message(stream, max_frame_length) {
            Ok((payload, rest)) => {
                assert(stream.skip(prefix + payload.len()) =~= rest);
            },
            Err(_) => {},
        }
    }
}

/// A length that a prefix can hold is read back from it.
pub proof fn lemma_length_read_back(length: nat)
    requires
        length <= MAX_PREFIX_LENGTH,
    ensures
        prefix_number(length_prefix(length)) == length,
{
    let a = length % 256;
    let b = length / 256 % 256;
    let c = length / 65536 % 256;
    let d = length / 16777216 % 256;
    assert(length == a + 256 * b + 65536 * c + 16777216 * d);
}

/// What is framed is read back: from a stream that begins with the frame of a payload, the reader
/// takes that payload and leaves what follows the frame, under every limit that admits it.
pub proof fn law_frame_read_back(payload: Seq<u8>, rest: Seq<u8>, max_frame_length: nat)
    requires
        fits_frame(payload.len(), max_frame_length),
    ensures
        first_message(framed(payload) + rest, max_frame_length) == Ok::<
            (Seq<u8>, Seq<u8>),
            ReadFault,
        >((payload, rest)),
{
    let stream = framed(payload) + rest;
    lemma_length_read_back(payload.len());
    assert(stream.take(PREFIX_SIZE as int) =~= length_prefix(payload.len()));
    assert(stream.skip(PREFIX_SIZE as int) =~= payload + rest);
    assert((payload + rest).take(payload.len() as int) =~= payload);
    assert((payload + rest).skip(payload.len() as int) =~= rest);
}

/// The frames of payloads, one behind the other.
pub open spec fn framed_all(payloads: Seq<Seq<u8>>) -> Seq<u8>
    decreases payloads.len(),
{
    if payloads.len() == 0 {
        seq![]
    } else {
        framed(payloads[0]) + framed_all(payloads.drop_first())
    }
}

/// The payloads of a stream of frames, up to where reading fails.
pub open spec fn all_messages(stream: Seq<u8>, max_frame_length: nat) -> Seq<Seq<u8>>
    decreases stream.len(),
{
    match first_message(stream, max_frame_length) {
        Ok((payload, rest)) => if rest.len() < stream.len() {
            seq![payload] + all_messages(rest, max_frame_length)
        } else {
            seq![]
        },
        Err(_) => seq![],
    }
}

/// Frames sent one behind the other are read back one by one, in order and without loss.
pub proof fn law_frames_read_back(payloads: Seq<Seq<u8>>, max_frame_length: nat)
    requires
        forall|i: int|
            0 <= i < payloads.len() ==> fits_frame(#[trigger] payloads[i].len(), max_frame_length),
    ensures
        all_messages(framed_all(payloads), max_frame_length) == payloads,
    decreases payloads.len(),
{
    let stream = framed_all(payloads);
    if payloads.len() == 0 {
        assert(all_messages(stream, max_frame_length) =~= payloads);
    } else {
        let tail = payloads.drop_first();
        assert(fits_frame(payloads[0].len(), max_frame_length));
        law_frame_read_back(payloads[0], framed_all(tail), max_frame_length);
        assert forall|i: int| 0 <= i < tail.len() implies fits_frame(
            #[trigger] tail[i].len(),
            max_frame_length,
        ) by {
            assert(tail[i] == payloads[i + 1]);
        }
        law_frames_read_back(tail, max_frame_length);
        assert(all_messages(stream, max_frame_length) =~= payloads);
    }
}

} // verus!
