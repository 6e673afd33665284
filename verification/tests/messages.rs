//! Tests for the fixed-size message codecs.

use libcras::messages::{
    decode_audio_message, encode_audio_message, encode_capture_ready, encode_connected_message,
    encode_data_ready, encode_stream_connected_message, AudioMessage, AudioMessageId,
    MessageError, ServerResult,
};

#[test]
fn audio_message_roundtrip_success() {
    let msg = AudioMessage::Success { id: AudioMessageId::RequestData, frames: 0 };
    assert_eq!(decode_audio_message(&encode_audio_message(&msg)), Ok(msg));

    let msg = AudioMessage::Success { id: AudioMessageId::DataReady, frames: 481 };
    assert_eq!(decode_audio_message(&encode_audio_message(&msg)), Ok(msg));

    let msg = AudioMessage::Success { id: AudioMessageId::DataCaptured, frames: 0x01020304 };
    assert_eq!(decode_audio_message(&encode_audio_message(&msg)), Ok(msg));
}

#[test]
fn audio_message_roundtrip_error() {
    let msg = AudioMessage::Error(123);
    assert_eq!(decode_audio_message(&encode_audio_message(&msg)), Ok(msg));

    let msg = AudioMessage::Error(-7);
    assert_eq!(decode_audio_message(&encode_audio_message(&msg)), Ok(msg));
}

#[test]
fn audio_message_error_code_zero_reads_as_request() {
    // An error code of zero is indistinguishable on the wire from a data
    // request with no frames; the codec decodes it as the latter.
    let msg = AudioMessage::Error(0);
    assert_eq!(
        decode_audio_message(&encode_audio_message(&msg)),
        Ok(AudioMessage::Success { id: AudioMessageId::RequestData, frames: 0 })
    );
}

#[test]
fn audio_message_truncated_and_unknown_id() {
    assert_eq!(
        decode_audio_message(&vec![0u8; 11]),
        Err(MessageError::MessageTruncated)
    );
    assert_eq!(
        decode_audio_message(&Vec::new()),
        Err(MessageError::MessageTruncated)
    );
    let mut unknown = vec![0u8; 12];
    unknown[0] = 3;
    assert_eq!(
        decode_audio_message(&unknown),
        Err(MessageError::MessageIdError)
    );
}

#[test]
fn data_ready_wire_shape() {
    // id 1 (data ready), error 0, frames 256, all little-endian.
    let bytes = encode_data_ready(256);
    assert_eq!(bytes, vec![1u8, 0, 0, 0, 0, 0, 0, 0, 0, 1, 0, 0]);
}

#[test]
fn capture_ready_wire_shape() {
    // id 2 (data captured), error 0, frames 256, all little-endian.
    let bytes = encode_capture_ready(256);
    assert_eq!(bytes, vec![2u8, 0, 0, 0, 0, 0, 0, 0, 0, 1, 0, 0]);
}

#[test]
fn handle_server_message_connected() {
    let data = encode_connected_message(42);
    assert_eq!(
        ServerResult::handle_server_message(&data, 1, 7, -1),
        Ok(ServerResult::Connected { client_id: 42, state_fd: 7 })
    );
    // The connection-accepted reply must carry exactly one descriptor.
    assert_eq!(
        ServerResult::handle_server_message(&data, 0, -1, -1),
        Err(MessageError::MessageNumFdError)
    );
    assert_eq!(
        ServerResult::handle_server_message(&data, 2, 7, 8),
        Err(MessageError::MessageNumFdError)
    );
}

#[test]
fn handle_server_message_stream_connected() {
    let data = encode_stream_connected_message(0x50001, 3840);
    assert_eq!(
        ServerResult::handle_server_message(&data, 2, 5, 6),
        Ok(ServerResult::StreamConnected {
            stream_id: 0x50001,
            header_fd: 5,
            samples_fd: 6,
            samples_len: 3840,
        })
    );
    // The stream-connected reply must carry exactly two descriptors.
    assert_eq!(
        ServerResult::handle_server_message(&data, 1, 5, -1),
        Err(MessageError::MessageNumFdError)
    );
}

#[test]
fn handle_server_message_malformed() {
    // Shorter than one header: truncated.
    assert_eq!(
        ServerResult::handle_server_message(&vec![0u8; 7], 1, -1, -1),
        Err(MessageError::MessageTruncated)
    );
    // Unknown message id.
    let mut unknown = vec![0u8; 12];
    unknown[4] = 9;
    assert_eq!(
        ServerResult::handle_server_message(&unknown, 1, -1, -1),
        Err(MessageError::MessageIdError)
    );
    // Right id and descriptor count, wrong payload size.
    let mut oversized = encode_connected_message(42);
    oversized.push(0);
    assert_eq!(
        ServerResult::handle_server_message(&oversized, 1, -1, -1),
        Err(MessageError::InvalidSize)
    );
}
