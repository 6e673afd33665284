//! End-to-end tests for the stream state machine and the connection
//! manager, driving the verified decisions the way the I/O layer does.

use libcras::audio_streams::{BufferDrop, PlaybackBuffer};
use libcras::capture::CaptureBuffer;
use libcras::client::{CaptureStream, CrasClient};
use libcras::format::cras_audio_format_packed;
use libcras::messages::{
    encode_capture_ready, encode_data_ready, AudioMessage, AudioMessageId, StreamDirection,
};
use libcras::shm::{CrasAudioBuffer, CrasAudioHeader, ShmError};
use libcras::stream::{CrasStream, StreamError};

/// Accumulates the frame counts reported on buffer release.
struct TestDrop {
    frame_count: usize,
}

impl BufferDrop for TestDrop {
    fn trigger(&mut self, nwritten: usize) {
        self.frame_count += nwritten;
    }
}

/// A header over two back-to-back 480-frame slots of 4-byte frames.
fn two_slot_header() -> CrasAudioHeader {
    let mut header = CrasAudioHeader::new(3840);
    header.frame_size = 4;
    header.used_size = 1920;
    header.slot1.buffer_offset = 1920;
    header
}

#[test]
fn playback_end_to_end() {
    // With frame size 4 and a 480-frame region, writing 480*4 bytes into
    // an acquired view reports exactly 480 committed frames on release.
    let mut client = CrasClient::new(5);
    let (_control, mut stream, connect_msg) = client.new_playback_stream(2, 48000, 480).unwrap();
    assert_eq!(stream.stream_id(), 5 << 16);
    assert_eq!(connect_msg.len(), 47);

    stream.init_shm(two_slot_header()).unwrap();
    let mut region = CrasAudioBuffer::new(3840);

    let request = AudioMessage::Success { id: AudioMessageId::RequestData, frames: 0 };
    let (offset, len) = stream.next_playback_buffer(&request).unwrap();
    assert_eq!((offset, len), (0, 1920));

    let mut view = PlaybackBuffer::new(4, vec![0u8; len]).unwrap();
    assert_eq!(view.frame_capacity(), 480);
    assert_eq!(view.write(&vec![0xa5u8; 480 * 4]).unwrap(), 480 * 4);

    let mut sink = TestDrop { frame_count: 0 };
    let (bytes, committed_frames) = view.release(&mut sink);
    assert_eq!(committed_frames, 480);
    assert_eq!(sink.frame_count, 480);
    region.write_at(offset, &bytes);
    assert_eq!(region.read_at(0, 4), vec![0xa5u8; 4]);

    let ready = stream.complete_playback_buffer(committed_frames as u32).unwrap();
    assert_eq!(ready, encode_data_ready(480));

    // The committed slot shows its byte count and the writer rotated:
    // a fresh window lookup observes the other slot.
    let committed = stream.header().unwrap();
    assert_eq!(committed.slot0.write_offset, 1920);
    assert_eq!(committed.slot0.read_offset, 0);
    assert_eq!(committed.write_buf_idx, 1);
    assert_eq!(committed.get_write_offset_and_len().unwrap(), (1920, 1920));
}

#[test]
fn playback_single_acquisition_outstanding() {
    let mut client = CrasClient::new(1);
    let (_control, mut stream, _msg) = client.new_playback_stream(2, 48000, 480).unwrap();
    stream.init_shm(two_slot_header()).unwrap();

    let request = AudioMessage::Success { id: AudioMessageId::RequestData, frames: 0 };
    assert!(stream.next_playback_buffer(&request).is_ok());
    // The window is live: a second acquisition is refused until the
    // first is completed.
    assert_eq!(
        stream.next_playback_buffer(&request),
        Err(StreamError::BufferOutstanding)
    );
    assert!(stream.complete_playback_buffer(480).is_ok());
    assert!(stream.next_playback_buffer(&request).is_ok());
}

#[test]
fn playback_stream_errors() {
    let mut client = CrasClient::new(1);
    let (_control, mut stream, _msg) = client.new_playback_stream(2, 48000, 480).unwrap();

    let request = AudioMessage::Success { id: AudioMessageId::RequestData, frames: 0 };
    // No shared memory attached yet.
    assert_eq!(
        stream.next_playback_buffer(&request),
        Err(StreamError::NoShmError)
    );
    // A zero frame size is a layout the client cannot use.
    let unusable = CrasAudioHeader::new(3840);
    assert_eq!(
        stream.init_shm(unusable),
        Err(StreamError::Shm(ShmError::InvalidFrameSize))
    );
    stream.init_shm(two_slot_header()).unwrap();
    // Connecting twice is a protocol error.
    assert_eq!(
        stream.init_shm(two_slot_header()),
        Err(StreamError::AlreadyConnected)
    );
    // A reply of the wrong kind is never acted on.
    let wrong = AudioMessage::Success { id: AudioMessageId::DataReady, frames: 480 };
    assert_eq!(
        stream.next_playback_buffer(&wrong),
        Err(StreamError::MessageTypeError)
    );
    assert_eq!(
        stream.next_playback_buffer(&AudioMessage::Error(-5)),
        Err(StreamError::MessageTypeError)
    );
    // Completing with nothing outstanding is an error.
    assert_eq!(
        stream.complete_playback_buffer(480),
        Err(StreamError::NoBufferOutstanding)
    );
}

#[test]
fn playback_overlapping_layout_is_rejected() {
    let mut client = CrasClient::new(1);
    let (_control, mut stream, _msg) = client.new_playback_stream(2, 48000, 480).unwrap();
    let mut header = two_slot_header();
    // Move slot 1 to share bytes with slot 0.
    header.slot1.buffer_offset = 4;
    stream.init_shm(header).unwrap();
    let request = AudioMessage::Success { id: AudioMessageId::RequestData, frames: 0 };
    assert_eq!(
        stream.next_playback_buffer(&request),
        Err(StreamError::Shm(ShmError::BufferOverlap))
    );
}

#[test]
fn capture_end_to_end() {
    let mut client = CrasClient::new(9);
    client.enable_cras_capture();
    let (_control, capture) = client.new_capture_stream(2, 48000, 480).unwrap();
    let mut stream = match capture {
        CaptureStream::Cras(stream, _msg) => stream,
        CaptureStream::Dummy(_) => panic!("capture should go through the server"),
    };

    // The server filled slot 0 with 480 frames.
    let mut header = two_slot_header();
    header.slot0.write_offset = 1920;
    stream.init_shm(header).unwrap();
    let mut region = CrasAudioBuffer::new(3840);
    region.write_at(0, &vec![0x5au8; 1920]);

    let ready = AudioMessage::Success { id: AudioMessageId::DataReady, frames: 480 };
    let (offset, len) = stream.next_capture_buffer(&ready).unwrap();
    assert_eq!((offset, len), (0, 1920));

    let mut view = CaptureBuffer::new(4, region.read_at(offset, len)).unwrap();
    let mut local = vec![0u8; 1920];
    assert_eq!(view.read(&mut local).unwrap(), 1920);
    assert_eq!(local, vec![0x5au8; 1920]);

    let mut sink = TestDrop { frame_count: 0 };
    let (_bytes, consumed_frames) = view.release(&mut sink);
    assert_eq!(consumed_frames, 480);
    assert_eq!(sink.frame_count, 480);

    let captured = stream.complete_capture_buffer(consumed_frames as u32).unwrap();
    assert_eq!(captured, encode_capture_ready(480));

    // The slot was fully drained: both markers reset and the reader
    // rotated to the other slot.
    let committed = stream.header().unwrap();
    assert_eq!(committed.slot0.read_offset, 0);
    assert_eq!(committed.slot0.write_offset, 0);
    assert_eq!(committed.read_buf_idx, 1);
}

#[test]
fn capture_window_capped_by_signalled_frames() {
    let mut client = CrasClient::new(9);
    client.enable_cras_capture();
    let (_control, capture) = client.new_capture_stream(2, 48000, 480).unwrap();
    let mut stream = match capture {
        CaptureStream::Cras(stream, _msg) => stream,
        CaptureStream::Dummy(_) => panic!("capture should go through the server"),
    };
    let mut header = two_slot_header();
    header.slot0.write_offset = 1920;
    stream.init_shm(header).unwrap();

    // The server signalled fewer frames than the header shows readable:
    // the window covers only the signalled ones.
    let ready = AudioMessage::Success { id: AudioMessageId::DataReady, frames: 100 };
    assert_eq!(stream.next_capture_buffer(&ready).unwrap(), (0, 400));
}

#[test]
fn capture_disabled_serves_local_generator() {
    let mut client = CrasClient::new(2);
    let (_control, capture) = client.new_capture_stream(2, 48000, 480).unwrap();
    match capture {
        CaptureStream::Cras(_, _) => panic!("capture is not enabled for this connection"),
        CaptureStream::Dummy(_stream) => {},
    }
}

#[test]
fn stream_ids_combine_connection_id_and_counter() {
    let mut client = CrasClient::new(5);
    let (_c1, first, _m1) = client.new_playback_stream(2, 48000, 480).unwrap();
    let (_c2, second, _m2) = client.new_playback_stream(2, 48000, 480).unwrap();
    assert_eq!(first.stream_id(), (5 << 16) | 0);
    assert_eq!(second.stream_id(), (5 << 16) | 1);
}

#[test]
fn disconnect_notification_and_teardown() {
    let mut client = CrasClient::new(3);
    let (_control, mut stream, _msg) = client.new_playback_stream(2, 48000, 480).unwrap();
    stream.init_shm(two_slot_header()).unwrap();
    let note = stream.disconnect();
    // Length 12, disconnect id 1, then the stream id, little-endian.
    assert_eq!(note[0..4], [12, 0, 0, 0]);
    assert_eq!(note[4..8], [1, 0, 0, 0]);
    assert_eq!(note[8..12], [0, 0, 3, 0]);
    // After teardown nothing may be exchanged.
    let request = AudioMessage::Success { id: AudioMessageId::RequestData, frames: 0 };
    let mut torn = stream;
    assert_eq!(
        torn.next_playback_buffer(&request),
        Err(StreamError::NoShmError)
    );
}

#[test]
fn connect_message_carries_the_stream_parameters() {
    let mut client = CrasClient::new(5);
    let (_control, _stream, msg) = client.new_playback_stream(2, 48000, 480).unwrap();
    // Header: total length 47, connect-stream id 0.
    assert_eq!(msg[0..4], [47, 0, 0, 0]);
    assert_eq!(msg[4..8], [0, 0, 0, 0]);
    // Stream id (5 << 16), playback direction, block size twice.
    assert_eq!(msg[8..12], [0, 0, 5, 0]);
    assert_eq!(msg[12..16], [0, 0, 0, 0]);
    assert_eq!(msg[16..20], [224, 1, 0, 0]);
    assert_eq!(msg[20..24], [224, 1, 0, 0]);
    // Format: S16LE code 2, rate 48000, two channels, layout 0, 1, -1...
    assert_eq!(msg[24..28], [2, 0, 0, 0]);
    assert_eq!(msg[28..32], [128, 187, 0, 0]);
    assert_eq!(msg[32..36], [2, 0, 0, 0]);
    assert_eq!(msg[36..38], [0, 1]);
    assert_eq!(msg[38..47], [255u8; 9]);
}

#[test]
fn packed_format_layout() {
    let fmt = cras_audio_format_packed::new(2, 48000, 2);
    assert_eq!(fmt.format, 2);
    assert_eq!(fmt.frame_rate, 48000);
    assert_eq!(fmt.num_channels, 2);
    assert_eq!(
        fmt.channel_layout,
        vec![0, 1, -1, -1, -1, -1, -1, -1, -1, -1, -1]
    );
}

#[test]
fn fresh_stream_state() {
    let stream = CrasStream::new(77, 256, StreamDirection::Playback, 44100, 2, 2);
    assert_eq!(stream.stream_id(), 77);
    assert!(stream.header().is_none());
}
