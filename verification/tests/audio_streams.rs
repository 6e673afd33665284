//! Tests for the scoped playback and capture buffers and the paced
//! dummy streams.

use std::time::{Duration, Instant};

use libcras::audio_streams::{
    BufferDrop, DummyBufferDrop, DummyStreamSource, PlaybackBuffer, PlaybackBufferStream,
};
use libcras::capture::{CaptureBuffer, CaptureBufferStream};

/// Accumulates the frame counts reported on buffer release.
struct TestDrop {
    frame_count: usize,
}

impl BufferDrop for TestDrop {
    fn trigger(&mut self, nwritten: usize) {
        self.frame_count += nwritten;
    }
}

#[test]
fn audio_streams_invalid_buffer_length() {
    // Playback buffers can't be created with a size that isn't divisible by the frame size.
    let pb_buf = vec![0xa5u8; 480 * 2 * 2 + 1];
    assert!(PlaybackBuffer::new(2, pb_buf).is_err());
}

#[test]
fn audio_streams_trigger() {
    let mut test_drop = TestDrop { frame_count: 0 };
    {
        let frame_size: usize = 4;
        let buf = vec![0u8; 480 * 4];
        let mut pb_buf = PlaybackBuffer::new(frame_size, buf).unwrap();
        pb_buf.write(&vec![0xa5u8; 480 * 4]).unwrap();
        let (_bytes, nframes) = pb_buf.release(&mut test_drop);
        assert_eq!(nframes, 480);
    }
    assert_eq!(test_drop.frame_count, 480);
}

#[test]
fn audio_streams_sixteen_bit_stereo() {
    let mut server = DummyStreamSource::new();
    let (_, mut stream) = server.new_playback_stream(2, 48000, 480).unwrap();
    let mut stream_buffer = stream.next_playback_buffer().unwrap();
    assert_eq!(stream_buffer.frame_capacity(), 480);
    let pb_buf = vec![0xa5u8; 480 * 2 * 2];
    assert_eq!(stream_buffer.write(&pb_buf).unwrap(), 480 * 2 * 2);
}

#[test]
fn audio_streams_consumption_rate() {
    let mut server = DummyStreamSource::new();
    let (_, mut stream) = server.new_playback_stream(2, 48000, 480).unwrap();
    let start = Instant::now();
    {
        let mut stream_buffer = stream.next_playback_buffer().unwrap();
        let pb_buf = vec![0xa5u8; 480 * 2 * 2];
        assert_eq!(stream_buffer.write(&pb_buf).unwrap(), 480 * 2 * 2);
        stream.release_buffer(stream_buffer);
    }
    // The second call should block until the first buffer is consumed.
    let _stream_buffer = stream.next_playback_buffer().unwrap();
    let elapsed = start.elapsed();
    assert!(
        elapsed > Duration::from_millis(10),
        "next_playback_buffer didn't block long enough {}",
        elapsed.subsec_millis()
    );
}

#[test]
fn capture_invalid_buffer_length() {
    // Capture buffers can't be created with a size that isn't divisible by the frame size.
    let cp_buf = vec![0xa5u8; 480 * 2 * 2 + 1];
    assert!(CaptureBuffer::new(2, cp_buf).is_err());
}

#[test]
fn capture_trigger() {
    let mut test_drop = TestDrop { frame_count: 0 };
    {
        let frame_size: usize = 4;
        let buf = vec![0u8; 480 * 4];
        let mut cp_buf = CaptureBuffer::new(frame_size, buf).unwrap();
        let mut local_buf = vec![0u8; 240 * 4];
        assert_eq!(cp_buf.read(&mut local_buf).unwrap(), 240 * 4);
        let (_bytes, nframes) = cp_buf.release(&mut test_drop);
        // This should be 480 no matter how many samples are read.
        assert_eq!(nframes, 480);
    }
    assert_eq!(test_drop.frame_count, 480);
}

#[test]
fn capture_sixteen_bit_stereo() {
    let mut server = DummyStreamSource::new();
    let (_, mut stream) = server.new_capture_stream(2, 48000, 480).unwrap();
    let mut stream_buffer = stream.next_capture_buffer().unwrap();
    assert_eq!(stream_buffer.frame_capacity(), 480);
    let mut pb_buf = vec![0xa5u8; 480 * 2 * 2];
    assert_eq!(stream_buffer.read(&mut pb_buf).unwrap(), 480 * 2 * 2);
}

#[test]
fn capture_consumption_rate() {
    let mut server = DummyStreamSource::new();
    let (_, mut stream) = server.new_capture_stream(2, 48000, 480).unwrap();
    let start = Instant::now();
    {
        let mut stream_buffer = stream.next_capture_buffer().unwrap();
        let mut cp_buf = vec![0xa5u8; 480 * 2 * 2];
        assert_eq!(stream_buffer.read(&mut cp_buf).unwrap(), 480 * 2 * 2);
        for i in 0..cp_buf.len() {
            assert_eq!(cp_buf[i], 0, "Read samples should all be zeros.");
        }
        stream.release_buffer(stream_buffer);
    }
    // The second call should block until the first buffer is consumed.
    let _stream_buffer = stream.next_capture_buffer().unwrap();
    let elapsed = start.elapsed();
    assert!(
        elapsed > Duration::from_millis(10),
        "next_capture_buffer didn't block long enough {}",
        elapsed.subsec_millis()
    );
}

#[test]
fn playback_write_is_whole_frames_only() {
    // A write of 7 bytes at frame size 4 moves only one whole frame.
    let mut pb_buf = PlaybackBuffer::new(4, vec![0u8; 16]).unwrap();
    assert_eq!(pb_buf.write(&vec![9u8; 7]).unwrap(), 4);
    assert_eq!(pb_buf.write(&vec![9u8; 3]).unwrap(), 0);
}

#[test]
fn playback_second_acquisition_fails_while_live() {
    let mut server = DummyStreamSource::new();
    let (_, mut stream) = server.new_playback_stream(2, 48000, 480).unwrap();
    let first = stream.next_playback_buffer().unwrap();
    // The stream's single buffer is lent out: a second live acquisition
    // is refused until the first is released back.
    assert!(stream.next_playback_buffer().is_err());
    stream.release_buffer(first);
    assert!(stream.next_playback_buffer().is_ok());
}

#[test]
fn playback_copy_cb_fills_window() {
    let mut pb_buf = PlaybackBuffer::new(2, vec![0u8; 8]).unwrap();
    pb_buf.copy_cb(4, |chunk: Vec<u8>| chunk.iter().map(|b| b + 7).collect());
    let mut sink = TestDrop { frame_count: 0 };
    let (bytes, nframes) = pb_buf.release(&mut sink);
    assert_eq!(bytes, vec![7u8, 7, 7, 7, 0, 0, 0, 0]);
    assert_eq!(nframes, 2);
    assert_eq!(sink.frame_count, 2);
}

#[test]
fn capture_copy_cb_hands_out_window() {
    let mut src = vec![0u8; 8];
    src[2] = 5;
    let mut cp_buf = CaptureBuffer::new(2, src).unwrap();
    let mut seen: Vec<u8> = Vec::new();
    cp_buf.copy_cb(4, |chunk: Vec<u8>| {
        seen = chunk;
    });
    assert_eq!(seen, vec![0u8, 0, 5, 0]);
}
