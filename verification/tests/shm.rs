//! Tests for the shared double-buffer header operations.

use libcras::shm::{CrasAudioBuffer, CrasAudioHeader, ShmError};

#[test]
fn cras_audio_header_switch_test() {
    let mut header = CrasAudioHeader::new(20);
    assert_eq!(0, header.get_write_buf_idx());
    header.switch_write_buf_idx();
    assert_eq!(1, header.get_write_buf_idx());
}

#[test]
fn cras_audio_header_write_offset_test() {
    let mut header = CrasAudioHeader::new(20);
    header.frame_size = 2;
    header.used_size = 5;
    header.set_buffer_offset(0, 12).unwrap();

    assert_eq!(0, header.slot0.write_offset);
    // Index out of bound
    assert!(header.set_write_offset(2, 5).is_err());
    // Offset out of bound
    // Buffer length is 4, since that's the largest multiple of frame_size
    // less than used_size.
    assert!(header.set_write_offset(0, 6).is_err());
    assert_eq!(0, header.slot0.write_offset);
    assert!(header.set_write_offset(0, 5).is_err());
    assert_eq!(0, header.slot0.write_offset);
    assert!(header.set_write_offset(0, 4).is_ok());
    assert_eq!(4, header.slot0.write_offset);
}

#[test]
fn cras_audio_header_read_offset_test() {
    let mut header = CrasAudioHeader::new(20);
    header.frame_size = 2;
    header.used_size = 5;
    header.set_buffer_offset(0, 12).unwrap();

    assert_eq!(0, header.slot0.read_offset);
    // Index out of bound
    assert!(header.set_read_offset(2, 5).is_err());
    // Offset out of bound
    // Buffer length is 4, since that's the largest multiple of frame_size
    // less than used_size.
    assert!(header.set_read_offset(0, 6).is_err());
    assert_eq!(0, header.slot0.read_offset);
    assert!(header.set_read_offset(0, 5).is_err());
    assert_eq!(0, header.slot0.read_offset);
    assert!(header.set_read_offset(0, 4).is_ok());
    assert_eq!(4, header.slot0.read_offset);
}

#[test]
fn cras_audio_header_commit_written_frame_test() {
    let mut header = CrasAudioHeader::new(20);
    header.frame_size = 2;
    header.used_size = 10;
    header.slot0.read_offset = 10;
    header.set_buffer_offset(0, 10).unwrap();

    assert!(header.commit_written_frames(5).is_ok());
    assert_eq!(header.slot0.write_offset, 10);
    assert_eq!(header.slot0.read_offset, 0);
    assert_eq!(header.write_buf_idx, 1);
}

#[test]
fn cras_audio_header_get_readable_frames_test() {
    let mut header = CrasAudioHeader::new(20);
    header.frame_size = 2;
    header.used_size = 10;
    header.slot0.read_offset = 2;
    header.slot0.write_offset = 10;
    let frames = header
        .get_readable_frames()
        .expect("Failed to get readable frames.");
    assert_eq!(frames, 4);
}

#[test]
fn cras_audio_header_commit_read_frames_test() {
    let mut header = CrasAudioHeader::new(20);
    header.frame_size = 2;
    header.used_size = 10;
    header.slot0.read_offset = 2;
    header.slot0.write_offset = 10;
    header
        .commit_read_frames(3)
        .expect("Failed to commit read frames.");
    assert_eq!(header.get_read_buf_idx(), 0);
    assert_eq!(header.slot0.read_offset, 8);

    header
        .commit_read_frames(1)
        .expect("Failed to commit read frames.");
    // Read buffer should be switched
    assert_eq!(header.get_read_buf_idx(), 1);
    assert_eq!(header.slot0.read_offset, 0);
    assert_eq!(header.slot0.read_offset, 0);
}

#[test]
fn cras_audio_header_get_write_offset_and_len() {
    let mut header = CrasAudioHeader::new(30);
    header.frame_size = 2;
    header.used_size = 10;
    header.write_buf_idx = 0;
    header.slot0.read_offset = 0;
    header.slot0.write_offset = 0;
    header.slot0.buffer_offset = 0;

    header.read_buf_idx = 1;
    header.slot1.read_offset = 0;
    header.slot1.write_offset = 0;
    header.slot1.buffer_offset = 10;

    // standard offsets and lens
    let (offset, len) = header.get_write_offset_and_len().unwrap();
    assert_eq!(offset, 0);
    assert_eq!(len, 10);

    header.write_buf_idx = 1;
    header.read_buf_idx = 0;
    let (offset, len) = header.get_write_offset_and_len().unwrap();
    assert_eq!(offset, 10);
    assert_eq!(len, 10);

    // relocate buffer offsets
    header.slot1.buffer_offset = 16;
    let (offset, len) = header.get_write_offset_and_len().unwrap();
    assert_eq!(offset, 16);
    assert_eq!(len, 10);

    header.slot0.buffer_offset = 5;
    header.write_buf_idx = 0;
    let (offset, len) = header.get_write_offset_and_len().unwrap();
    assert_eq!(offset, 5);
    assert_eq!(len, 10);

    header.write_buf_idx = 0;
    header.slot0.buffer_offset = 2;
    header.read_buf_idx = 1;
    header.slot1.buffer_offset = 10;
    let result = header.get_write_offset_and_len();
    // Should be an error as write buffer would overrun into other buffer.
    assert!(result.is_err());

    header.slot0.buffer_offset = 24;
    header.slot1.buffer_offset = 10;
    let (offset, len) = header.get_write_offset_and_len().unwrap();
    // Should be ok since we're only running up against the end of samples.
    assert_eq!(offset, 24);
    assert_eq!(len, 6);

    header.slot0.buffer_offset = 25;
    let (offset, len) = header.get_write_offset_and_len().unwrap();
    // Should be ok, but we'll truncate len to frame_size.
    assert_eq!(offset, 25);
    assert_eq!(len, 4);

    header.slot0.buffer_offset = 29;
    let result = header.get_write_offset_and_len();
    // Should be an error as buffer is smaller than frame_size.
    assert!(result.is_err());
}

#[test]
fn cras_audio_header_set_buffer_offset() {
    let mut header = CrasAudioHeader::new(30);
    header.frame_size = 2;
    header.used_size = 10;
    header.write_buf_idx = 0;
    header.slot0.read_offset = 0;
    header.slot0.write_offset = 0;
    header.slot0.buffer_offset = 0;

    header.read_buf_idx = 1;
    header.slot1.read_offset = 0;
    header.slot1.write_offset = 0;
    header.slot1.buffer_offset = 10;

    // Setting buffer_offset to overlap with other buffer is not okay
    assert!(header.set_buffer_offset(0, 10).is_err());

    header.slot0.buffer_offset = 0;
    header.slot1.write_offset = 8;
    // With samples, it's still an error.
    assert!(header.set_buffer_offset(0, 10).is_err());

    // Setting the offset past the end of the other buffer is okay
    assert!(header.set_buffer_offset(0, 20).is_ok());

    // Setting buffer offset such that buffer length is less than used_size
    // is okay, but only at the end of the samples area.
    assert!(header.set_buffer_offset(0, 21).is_ok());
    assert!(header.set_buffer_offset(0, 27).is_ok());

    // It's not okay if we get a buffer with length less than frame_size.
    assert!(header.set_buffer_offset(0, 29).is_err());
    assert!(header.set_buffer_offset(0, 30).is_err());

    // If we try to overlap another buffer with that other buffer at the end,
    // it's not okay.
    assert!(header.set_buffer_offset(1, 25).is_err());
    assert!(header.set_buffer_offset(1, 27).is_err());
    assert!(header.set_buffer_offset(1, 28).is_err());

    // Setting buffer offset past the end of samples is an error.
    assert!(header.set_buffer_offset(0, 33).is_err());
}

#[test]
fn buffer_len_from_offset_errors() {
    let mut header = CrasAudioHeader::new(30);
    header.frame_size = 4;
    header.used_size = 16;
    // Beyond the samples region.
    assert_eq!(
        header.buffer_len_from_offset(31),
        Err(ShmError::OffsetOutOfRange)
    );
    // Room for less than one frame at the very end.
    assert_eq!(
        header.buffer_len_from_offset(28),
        Err(ShmError::BufferTooShort)
    );
    // Nominal length, rounded to whole frames.
    assert_eq!(header.buffer_len_from_offset(0), Ok(16));
    // Capped by the region end, rounded down to whole frames.
    assert_eq!(header.buffer_len_from_offset(18), Ok(12));
    assert_eq!(header.buffer_len_from_offset(21), Ok(8));
}

#[test]
fn check_buffer_offset_accepts_touching_extents() {
    let mut header = CrasAudioHeader::new(20);
    header.frame_size = 2;
    header.used_size = 10;
    header.slot1.buffer_offset = 10;
    // Back-to-back extents [0, 10) and [10, 20) share no byte.
    assert_eq!(header.check_buffer_offset(0, 0), Ok(()));
    // One byte of overlap is rejected.
    assert_eq!(
        header.check_buffer_offset(0, 2),
        Err(ShmError::BufferOverlap)
    );
}

#[test]
fn commit_written_frames_rejects_oversized_count() {
    let mut header = CrasAudioHeader::new(20);
    header.frame_size = 2;
    header.used_size = 10;
    header.slot1.buffer_offset = 10;
    assert_eq!(
        header.commit_written_frames(6),
        Err(ShmError::FrameCountTooLarge)
    );
    // The failed commit left everything in place.
    assert_eq!(header.write_buf_idx, 0);
    assert_eq!(header.slot0.write_offset, 0);
}

#[test]
fn audio_buffer_round_trips_bytes() {
    let mut region = CrasAudioBuffer::new(16);
    assert_eq!(region.len(), 16);
    region.write_at(4, &vec![1u8, 2, 3, 4]);
    assert_eq!(region.read_at(4, 4), vec![1u8, 2, 3, 4]);
    assert_eq!(region.read_at(0, 4), vec![0u8, 0, 0, 0]);
}
