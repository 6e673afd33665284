//! Fixed-size binary control messages.
//!
//! Two message families share this module: the per-stream signal messages
//! exchanged with the server's audio thread (`AudioMessage`: a message id,
//! an error code and a frame count, twelve bytes), and the handshake
//! messages exchanged over the connection socket (a length/id header
//! followed by payload fields). Every record is fixed-size and
//! little-endian; a short read is always a truncation error, never a
//! partial message to be retried.

use vstd::prelude::*;

use crate::format::cras_audio_format_packed;

verus! {

/// Protocol errors for the fixed-size message codecs.
#[derive(Clone, Copy, Debug, PartialEq, Eq, Structural)]
pub enum MessageError {
    /// Fewer bytes than one whole message.
    MessageTruncated,
    /// A message id that names no known message.
    MessageIdError,
    /// The number of passed descriptors does not match the message kind.
    MessageNumFdError,
    /// The payload length does not match the message kind.
    InvalidSize,
    /// A well-formed message of an unexpected kind for this point of the
    /// protocol.
    MessageTypeError,
}

/// Kinds of per-stream signal messages.
#[derive(Clone, Copy, Debug, PartialEq, Eq, Structural)]
pub enum AudioMessageId {
    /// Server asks the client to fill the next playback slot.
    RequestData,
    /// A filled slot is ready (sent with its frame count).
    DataReady,
    /// A captured slot has been drained (sent with its frame count).
    DataCaptured,
}

/// A per-stream signal message: either a successful signal with a kind
/// and a frame count, or an error code from the peer.
#[derive(Clone, Copy, Debug, PartialEq, Eq, Structural)]
pub enum AudioMessage {
    /// A signal of the given kind with a frame count.
    Success { id: AudioMessageId, frames: u32 },
    /// A nonzero error code.
    Error(i32),
}

/// The four little-endian bytes of a 32-bit value.
pub open spec fn le4(v: u32) -> Seq<u8> {
    seq![
        (v as int % 256) as u8,
        (v as int / 256 % 256) as u8,
        (v as int / 65536 % 256) as u8,
        (v as int / 16777216 % 256) as u8,
    ]
}

/// The 32-bit value read from four little-endian bytes.
pub open spec fn u32_of_le(s: Seq<u8>) -> u32 {
    (s[0] + 256 * s[1] + 65536 * s[2] + 16777216 * s[3]) as u32
}

/// Reading back the four little-endian bytes of `v` yields `v`.
pub proof fn lemma_le4_roundtrip(v: u32)
    ensures
        u32_of_le(le4(v)) == v,
{
    let x = v as int;
    let q1 = x / 256;
    let q2 = x / 65536;
    let q3 = x / 16777216;
    vstd::arithmetic::div_mod::lemma_fundamental_div_mod(x, 256);
    vstd::arithmetic::div_mod::lemma_fundamental_div_mod(q1, 256);
    vstd::arithmetic::div_mod::lemma_fundamental_div_mod(q2, 256);
    vstd::arithmetic::div_mod::lemma_div_denominator(x, 256, 256);
    vstd::arithmetic::div_mod::lemma_div_denominator(x, 65536, 256);
    vstd::arithmetic::div_mod::lemma_mod_bound(x, 256);
    vstd::arithmetic::div_mod::lemma_mod_bound(q1, 256);
    vstd::arithmetic::div_mod::lemma_mod_bound(q2, 256);
    assert(q3 <= 0xffffffffint / 16777216) by {
        vstd::arithmetic::div_mod::lemma_div_is_ordered(x, 0xffffffffint, 16777216);
    }
    vstd::arithmetic::div_mod::lemma_small_mod(q3 as nat, 256);
}

/// Appends the four little-endian bytes of `v` to `out`.
pub fn put_u32(v: u32, out: &mut Vec<u8>)
    ensures
        final(out)@ == old(out)@ + le4(v),
{
    out.push((v % 256) as u8);
    out.push((v / 256 % 256) as u8);
    out.push((v / 65536 % 256) as u8);
    out.push((v / 16777216 % 256) as u8);
    proof {
        assert(out@ =~= old(out)@ + le4(v));
    }
}

/// Reads the 32-bit little-endian value at byte offset `at` of `data`.
pub fn read_u32(data: &Vec<u8>, at: usize) -> (r: u32)
    requires
        at + 4 <= data@.len(),
    ensures
        r == u32_of_le(data@.subrange(at as int, at + 4)),
{
    let n: usize = data.len();
    assert(at + 4 <= n);
    let b0 = data[at];
    let b1 = data[at + 1];
    let b2 = data[at + 2];
    let b3 = data[at + 3];
    let r = b0 as u32 + 256 * (b1 as u32) + 65536 * (b2 as u32) + 16777216 * (b3 as u32);
    proof {
        let s = data@.subrange(at as int, at + 4);
        assert(s[0] == b0 && s[1] == b1 && s[2] == b2 && s[3] == b3);
    }
    r
}

/// Wire code of a signal-message kind.
pub open spec fn audio_id_code(id: AudioMessageId) -> u32 {
    match id {
        AudioMessageId::RequestData => 0,
        AudioMessageId::DataReady => 1,
        AudioMessageId::DataCaptured => 2,
    }
}

/// Wire code of a signal-message kind.
pub fn audio_id_code_of(id: &AudioMessageId) -> (r: u32)
    ensures
        r == audio_id_code(*id),
{
    match id {
        AudioMessageId::RequestData => 0,
        AudioMessageId::DataReady => 1,
        AudioMessageId::DataCaptured => 2,
    }
}

/// The twelve wire bytes of a signal message: id, error code, frame
/// count. An error message is carried with id zero and no frames.
pub open spec fn spec_encode_audio_message(m: AudioMessage) -> Seq<u8> {
    match m {
        AudioMessage::Success { id, frames } => le4(audio_id_code(id)) + le4(0u32) + le4(frames),
        AudioMessage::Error(e) => le4(0u32) + le4(e as u32) + le4(0u32),
    }
}

/// What decoding twelve wire bytes yields: any other length is a
/// truncation; a nonzero error field wins over the id; an unknown id is
/// a protocol error.
pub open spec fn spec_decode_audio_message(s: Seq<u8>) -> Result<AudioMessage, MessageError> {
    if s.len() != 12 {
        Err(MessageError::MessageTruncated)
    } else {
        let err = u32_of_le(s.subrange(4, 8));
        if err != 0 {
            Ok(AudioMessage::Error(err as i32))
        } else {
            let id = u32_of_le(s.subrange(0, 4));
            let frames = u32_of_le(s.subrange(8, 12));
            if id == 0 {
                Ok(AudioMessage::Success { id: AudioMessageId::RequestData, frames })
            } else if id == 1 {
                Ok(AudioMessage::Success { id: AudioMessageId::DataReady, frames })
            } else if id == 2 {
                Ok(AudioMessage::Success { id: AudioMessageId::DataCaptured, frames })
            } else {
                Err(MessageError::MessageIdError)
            }
        }
    }
}

/// Encodes a signal message into its twelve wire bytes.
pub fn encode_audio_message(m: &AudioMessage) -> (r: Vec<u8>)
    ensures
        r@ == spec_encode_audio_message(*m),
        r@.len() == 12,
{
    let mut out: Vec<u8> = Vec::new();
    match m {
        AudioMessage::Success { id, frames } => {
            put_u32(audio_id_code_of(id), &mut out);
            put_u32(0, &mut out);
            put_u32(*frames, &mut out);
        },
        AudioMessage::Error(e) => {
            put_u32(0, &mut out);
            put_u32(i32_bits(*e), &mut out);
            put_u32(0, &mut out);
        },
    }
    out
}

/// The bit pattern of a signed 32-bit value, as unsigned.
fn i32_bits(e: i32) -> (r: u32)
    ensures
        r == e as u32,
{
    #[verifier::truncate] (e as u32)
}

/// Decodes a signal message from its twelve wire bytes.
pub fn decode_audio_message(data: &Vec<u8>) -> (r: Result<AudioMessage, MessageError>)
    ensures
        r == spec_decode_audio_message(data@),
{
    if data.len() != 12 {
        return Err(MessageError::MessageTruncated);
    }
    let err = read_u32(data, 4);
    if err != 0 {
        return Ok(AudioMessage::Error(u32_bits(err)));
    }
    let id = read_u32(data, 0);
    let frames = read_u32(data, 8);
    if id == 0 {
        Ok(AudioMessage::Success { id: AudioMessageId::RequestData, frames })
    } else if id == 1 {
        Ok(AudioMessage::Success { id: AudioMessageId::DataReady, frames })
    } else if id == 2 {
        Ok(AudioMessage::Success { id: AudioMessageId::DataCaptured, frames })
    } else {
        Err(MessageError::MessageIdError)
    }
}

/// The bit pattern of an unsigned 32-bit value, as signed.
fn u32_bits(e: u32) -> (r: i32)
    ensures
        r == e as i32,
{
    #[verifier::truncate] (e as i32)
}

/// Round trip of the signal-message codec: decoding an encoded message
/// yields the message back, with its kind and frame count or its error
/// code. The one exception is the error code zero, whose wire form is
/// indistinguishable from a data request: it is excluded here.
pub proof fn lemma_audio_message_roundtrip(m: AudioMessage)
    requires
        m matches AudioMessage::Error(e) ==> e != 0,
    ensures
        spec_decode_audio_message(spec_encode_audio_message(m)) == Ok::<
            AudioMessage,
            MessageError,
        >(m),
{
    let s = spec_encode_audio_message(m);
    match m {
        AudioMessage::Success { id, frames } => {
            assert(s.subrange(0, 4) =~= le4(audio_id_code(id)));
            assert(s.subrange(4, 8) =~= le4(0u32));
            assert(s.subrange(8, 12) =~= le4(frames));
            lemma_le4_roundtrip(audio_id_code(id));
            lemma_le4_roundtrip(0u32);
            lemma_le4_roundtrip(frames);
        },
        AudioMessage::Error(e) => {
            assert(s.subrange(0, 4) =~= le4(0u32));
            assert(s.subrange(4, 8) =~= le4(e as u32));
            assert(s.subrange(8, 12) =~= le4(0u32));
            lemma_le4_roundtrip(0u32);
            lemma_le4_roundtrip(e as u32);
            assert(e != 0 ==> e as u32 != 0) by (bit_vector);
            assert(e as u32 as i32 == e) by (bit_vector);
        },
    }
}

/// The wire bytes of a `DataReady` signal carrying `frames`.
pub fn encode_data_ready(frames: u32) -> (r: Vec<u8>)
    ensures
        r@ == spec_encode_audio_message(
            AudioMessage::Success { id: AudioMessageId::DataReady, frames },
        ),
{
    encode_audio_message(&AudioMessage::Success { id: AudioMessageId::DataReady, frames })
}

/// The wire bytes of a `DataCaptured` signal carrying `frames`.
pub fn encode_capture_ready(frames: u32) -> (r: Vec<u8>)
    ensures
        r@ == spec_encode_audio_message(
            AudioMessage::Success { id: AudioMessageId::DataCaptured, frames },
        ),
{
    encode_audio_message(&AudioMessage::Success { id: AudioMessageId::DataCaptured, frames })
}

/// Direction of a stream: the client plays samples to the server, or
/// captures samples from it.
#[derive(Clone, Copy, Debug, PartialEq, Eq, Structural)]
pub enum StreamDirection {
    /// Client-produced samples, played by the server.
    Playback,
    /// Server-produced samples, read by the client.
    Capture,
}

/// Wire code of a stream direction.
pub open spec fn direction_code(d: StreamDirection) -> u32 {
    match d {
        StreamDirection::Playback => 0,
        StreamDirection::Capture => 1,
    }
}

/// Wire code of a stream direction.
pub fn direction_code_of(d: &StreamDirection) -> (r: u32)
    ensures
        r == direction_code(*d),
{
    match d {
        StreamDirection::Playback => 0,
        StreamDirection::Capture => 1,
    }
}

/// The 23 wire bytes of a packed audio format: sample-format code, frame
/// rate, channel count, and the channel-position entries.
pub open spec fn spec_encode_format(f: cras_audio_format_packed) -> Seq<u8> {
    le4(f.format as u32) + le4(f.frame_rate) + le4(f.num_channels) + f.channel_layout@.map_values(
        |b: i8| b as u8,
    )
}

/// Appends the wire bytes of a packed audio format to `out`.
pub fn encode_format(f: &cras_audio_format_packed, out: &mut Vec<u8>)
    ensures
        final(out)@ == old(out)@ + spec_encode_format(*f),
{
    put_u32(i32_bits(f.format), out);
    put_u32(f.frame_rate, out);
    put_u32(f.num_channels, out);
    let n: usize = f.channel_layout.len();
    let mut i: usize = 0;
    while i < n
        invariant
            i <= n,
            f.channel_layout@.len() == n,
            out@ == old(out)@ + le4(f.format as u32) + le4(f.frame_rate) + le4(f.num_channels)
                + f.channel_layout@.subrange(0, i as int).map_values(|b: i8| b as u8),
        decreases n - i,
    {
        let b = f.channel_layout[i];
        out.push(i8_bits(b));
        proof {
            assert(out@ =~= old(out)@ + le4(f.format as u32) + le4(f.frame_rate) + le4(
                f.num_channels,
            ) + f.channel_layout@.subrange(0, i + 1).map_values(|b: i8| b as u8));
        }
        i = i + 1;
    }
    proof {
        assert(f.channel_layout@.subrange(0, n as int) =~= f.channel_layout@);
    }
}

/// The bit pattern of a signed 8-bit value, as unsigned.
fn i8_bits(b: i8) -> (r: u8)
    ensures
        r == b as u8,
{
    #[verifier::truncate] (b as u8)
}

/// The wire bytes of a connect-stream request: a length/id header, the
/// stream id, the direction, the requested block size in frames (also
/// used as the callback threshold), and the packed audio format.
pub open spec fn spec_encode_connect_stream(
    stream_id: u32,
    direction: StreamDirection,
    block_size: u32,
    fmt: cras_audio_format_packed,
) -> Seq<u8> {
    le4(47u32) + le4(0u32) + le4(stream_id) + le4(direction_code(direction)) + le4(block_size)
        + le4(block_size) + spec_encode_format(fmt)
}

/// Encodes a connect-stream request.
pub fn encode_connect_stream_message(
    stream_id: u32,
    direction: &StreamDirection,
    block_size: u32,
    fmt: &cras_audio_format_packed,
) -> (r: Vec<u8>)
    ensures
        r@ == spec_encode_connect_stream(stream_id, *direction, block_size, *fmt),
{
    let mut out: Vec<u8> = Vec::new();
    put_u32(47, &mut out);
    put_u32(0, &mut out);
    put_u32(stream_id, &mut out);
    put_u32(direction_code_of(direction), &mut out);
    put_u32(block_size, &mut out);
    put_u32(block_size, &mut out);
    encode_format(fmt, &mut out);
    out
}

/// The wire bytes of a disconnect-stream notification: a length/id
/// header and the stream id.
pub open spec fn spec_encode_disconnect_stream(stream_id: u32) -> Seq<u8> {
    le4(12u32) + le4(1u32) + le4(stream_id)
}

/// Encodes a disconnect-stream notification.
pub fn encode_disconnect_stream_message(stream_id: u32) -> (r: Vec<u8>)
    ensures
        r@ == spec_encode_disconnect_stream(stream_id),
{
    let mut out: Vec<u8> = Vec::new();
    put_u32(12, &mut out);
    put_u32(1, &mut out);
    put_u32(stream_id, &mut out);
    out
}

/// The wire bytes of a connection-accepted reply: a length/id header and
/// the client id assigned by the server. One descriptor (the server
/// state region) rides along.
pub open spec fn spec_encode_connected(client_id: u32) -> Seq<u8> {
    le4(12u32) + le4(0u32) + le4(client_id)
}

/// Encodes a connection-accepted reply, as the server sends it.
pub fn encode_connected_message(client_id: u32) -> (r: Vec<u8>)
    ensures
        r@ == spec_encode_connected(client_id),
{
    let mut out: Vec<u8> = Vec::new();
    put_u32(12, &mut out);
    put_u32(0, &mut out);
    put_u32(client_id, &mut out);
    out
}

/// The wire bytes of a stream-connected reply: a length/id header, the
/// stream id and the byte length of the samples region. Two descriptors
/// (header region, samples region) ride along.
pub open spec fn spec_encode_stream_connected(stream_id: u32, samples_shm_size: u32) -> Seq<u8> {
    le4(16u32) + le4(1u32) + le4(stream_id) + le4(samples_shm_size)
}

/// Encodes a stream-connected reply, as the server sends it.
pub fn encode_stream_connected_message(stream_id: u32, samples_shm_size: u32) -> (r: Vec<u8>)
    ensures
        r@ == spec_encode_stream_connected(stream_id, samples_shm_size),
{
    let mut out: Vec<u8> = Vec::new();
    put_u32(16, &mut out);
    put_u32(1, &mut out);
    put_u32(stream_id, &mut out);
    put_u32(samples_shm_size, &mut out);
    out
}

/// A handled reply from the server, with the descriptors that rode
/// along. Descriptors are carried as plain numbers; the surrounding I/O
/// layer owns and eventually closes them.
#[derive(Clone, Copy, Debug, PartialEq, Eq, Structural)]
pub enum ServerResult {
    /// The connection was accepted: the assigned client id and the
    /// server-state region descriptor.
    Connected { client_id: u32, state_fd: i32 },
    /// A stream was connected: its id, the header-region and
    /// samples-region descriptors, and the samples region's byte length.
    StreamConnected { stream_id: u32, header_fd: i32, samples_fd: i32, samples_len: u32 },
}

/// What handling one server reply yields. `fd_count` descriptors rode
/// along, of which the first two are `fd0` and `fd1`: a
/// connection-accepted reply must carry exactly one, a stream-connected
/// reply exactly two.
pub open spec fn spec_handle_server_message(
    data: Seq<u8>,
    fd_count: int,
    fd0: i32,
    fd1: i32,
) -> Result<ServerResult, MessageError> {
    if data.len() < 8 {
        Err(MessageError::MessageTruncated)
    } else {
        let id = u32_of_le(data.subrange(4, 8));
        if id == 0 {
            if fd_count != 1 {
                Err(MessageError::MessageNumFdError)
            } else if data.len() != 12 {
                Err(MessageError::InvalidSize)
            } else {
                Ok(
                    ServerResult::Connected {
                        client_id: u32_of_le(data.subrange(8, 12)),
                        state_fd: fd0,
                    },
                )
            }
        } else if id == 1 {
            if fd_count != 2 {
                Err(MessageError::MessageNumFdError)
            } else if data.len() != 16 {
                Err(MessageError::InvalidSize)
            } else {
                Ok(
                    ServerResult::StreamConnected {
                        stream_id: u32_of_le(data.subrange(8, 12)),
                        header_fd: fd0,
                        samples_fd: fd1,
                        samples_len: u32_of_le(data.subrange(12, 16)),
                    },
                )
            }
        } else {
            Err(MessageError::MessageIdError)
        }
    }
}

impl ServerResult {
    /// Reads one server reply out of its wire bytes and the descriptors
    /// that rode along: the message must be whole, its id known, and the
    /// descriptor count the one its kind demands.
    pub fn handle_server_message(data: &Vec<u8>, fd_count: usize, fd0: i32, fd1: i32) -> (r: Result<
        ServerResult,
        MessageError,
    >)
        ensures
            r == spec_handle_server_message(data@, fd_count as int, fd0, fd1),
    {
        if data.len() < 8 {
            return Err(MessageError::MessageTruncated);
        }
        let id = read_u32(data, 4);
        if id == 0 {
            if fd_count != 1 {
                return Err(MessageError::MessageNumFdError);
            }
            if data.len() != 12 {
                return Err(MessageError::InvalidSize);
            }
            let client_id = read_u32(data, 8);
            Ok(ServerResult::Connected { client_id, state_fd: fd0 })
        } else if id == 1 {
            if fd_count != 2 {
                return Err(MessageError::MessageNumFdError);
            }
            if data.len() != 16 {
                return Err(MessageError::InvalidSize);
            }
            let stream_id = read_u32(data, 8);
            let samples_len = read_u32(data, 12);
            Ok(ServerResult::StreamConnected { stream_id, header_fd: fd0, samples_fd: fd1, samples_len })
        } else {
            Err(MessageError::MessageIdError)
        }
    }
}

/// Round trip of the connection-accepted reply: handling an encoded
/// reply, with its single descriptor, yields the client id and that
/// descriptor back.
pub proof fn lemma_connected_roundtrip(client_id: u32, fd0: i32, fd1: i32)
    ensures
        spec_handle_server_message(spec_encode_connected(client_id), 1, fd0, fd1) == Ok::<
            ServerResult,
            MessageError,
        >(ServerResult::Connected { client_id, state_fd: fd0 }),
{
    let s = spec_encode_connected(client_id);
    assert(s.subrange(4, 8) =~= le4(0u32));
    assert(s.subrange(8, 12) =~= le4(client_id));
    lemma_le4_roundtrip(0u32);
    lemma_le4_roundtrip(client_id);
}

/// Round trip of the stream-connected reply: handling an encoded reply,
/// with its two descriptors, yields the stream id, the region length and
/// both descriptors back.
pub proof fn lemma_stream_connected_roundtrip(
    stream_id: u32,
    samples_shm_size: u32,
    fd0: i32,
    fd1: i32,
)
    ensures
        spec_handle_server_message(
            spec_encode_stream_connected(stream_id, samples_shm_size),
            2,
            fd0,
            fd1,
        ) == Ok::<ServerResult, MessageError>(
            ServerResult::StreamConnected {
                stream_id,
                header_fd: fd0,
                samples_fd: fd1,
                samples_len: samples_shm_size,
            },
        ),
{
    let s = spec_encode_stream_connected(stream_id, samples_shm_size);
    assert(s.subrange(4, 8) =~= le4(1u32));
    assert(s.subrange(8, 12) =~= le4(stream_id));
    assert(s.subrange(12, 16) =~= le4(samples_shm_size));
    lemma_le4_roundtrip(1u32);
    lemma_le4_roundtrip(stream_id);
    lemma_le4_roundtrip(samples_shm_size);
}

} // verus!
