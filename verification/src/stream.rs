//! One playback or capture session against the audio server.
//!
//! A [`CrasStream`] holds the verified half of a session: the stream's
//! parameters, its lifecycle state, and a model of the shared
//! double-buffer header. The unverified I/O layer around it moves bytes
//! and descriptors: it refreshes the header model from the mapped memory
//! before a decision, stores back the fields a commit changed, and sends
//! the signal bytes an operation hands it. Every decision — which message
//! is acceptable, which byte window the caller may touch, what a commit
//! does to the header — is made here.

use vstd::prelude::*;

use crate::messages::{
    spec_encode_audio_message, spec_encode_disconnect_stream, AudioMessage, AudioMessageId,
    StreamDirection, encode_data_ready, encode_capture_ready, encode_disconnect_stream_message,
};
use crate::shm::{CrasAudioHeader, ShmError};

verus! {

/// Errors from a stream operation.
#[derive(Clone, Copy, Debug, PartialEq, Eq, Structural)]
pub enum StreamError {
    /// A well-formed message of the wrong kind for this operation.
    MessageTypeError,
    /// The shared memory has not been attached (or was detached).
    NoShmError,
    /// The shared header cannot be used as laid out.
    Shm(ShmError),
    /// An acquired buffer window is still live; only one acquisition may
    /// be outstanding at a time.
    BufferOutstanding,
    /// A release was reported with no acquisition outstanding.
    NoBufferOutstanding,
    /// The stream already has its shared memory attached.
    AlreadyConnected,
}

/// Lifecycle of a stream: created with its control channel only, then
/// connected to its shared memory, then closed. Connection happens once;
/// teardown may happen from any state and must not fail.
#[derive(Clone, Copy, Debug, PartialEq, Eq, Structural)]
pub enum StreamState {
    /// Control channel open, no shared memory yet.
    Created,
    /// Header and sample region attached; buffers may be exchanged.
    Connected,
    /// Torn down; nothing may be exchanged any more.
    Closed,
}

/// The verified state of one playback or capture session.
pub struct CrasStream {
    stream_id: u32,
    block_size: u32,
    direction: StreamDirection,
    rate: usize,
    num_channels: usize,
    format: i32,
    header: Option<CrasAudioHeader>,
    state: StreamState,
    pending: Option<(usize, usize)>,
}

impl CrasStream {
    /// The stream's identifier.
    pub closed spec fn spec_stream_id(&self) -> u32 {
        self.stream_id
    }

    /// The requested block size in frames.
    pub closed spec fn spec_block_size(&self) -> u32 {
        self.block_size
    }

    /// The stream's direction.
    pub closed spec fn spec_direction(&self) -> StreamDirection {
        self.direction
    }

    /// The stream's frame rate.
    pub closed spec fn spec_rate(&self) -> int {
        self.rate as int
    }

    /// The stream's channel count.
    pub closed spec fn spec_num_channels(&self) -> int {
        self.num_channels as int
    }

    /// The stream's sample-format code.
    pub closed spec fn spec_format(&self) -> i32 {
        self.format
    }

    /// The attached header model, if any.
    pub closed spec fn spec_header(&self) -> Option<CrasAudioHeader> {
        self.header
    }

    /// The stream's lifecycle state.
    pub closed spec fn spec_state(&self) -> StreamState {
        self.state
    }

    /// The live acquisition's byte window, if one is outstanding.
    pub closed spec fn spec_pending(&self) -> Option<(usize, usize)> {
        self.pending
    }

    /// Everything but the header model and the acquisition marker.
    pub open spec fn same_params(&self, other: &CrasStream) -> bool {
        &&& self.spec_stream_id() == other.spec_stream_id()
        &&& self.spec_block_size() == other.spec_block_size()
        &&& self.spec_direction() == other.spec_direction()
        &&& self.spec_rate() == other.spec_rate()
        &&& self.spec_num_channels() == other.spec_num_channels()
        &&& self.spec_format() == other.spec_format()
    }

    /// Well-formedness: an attached header has a usable frame size, and a
    /// live acquisition implies an attached header.
    pub open spec fn wf(&self) -> bool {
        &&& match self.spec_header() {
            Some(h) => h.frame_size >= 1,
            None => true,
        }
        &&& self.spec_pending() is Some ==> self.spec_header() is Some
    }

    /// A fresh stream in the `Created` state: parameters recorded, no
    /// shared memory, no acquisition outstanding.
    pub fn new(
        stream_id: u32,
        block_size: u32,
        direction: StreamDirection,
        rate: usize,
        num_channels: usize,
        format: i32,
    ) -> (s: CrasStream)
        ensures
            s.wf(),
            s.spec_stream_id() == stream_id,
            s.spec_block_size() == block_size,
            s.spec_direction() == direction,
            s.spec_rate() == rate,
            s.spec_num_channels() == num_channels,
            s.spec_format() == format,
            s.spec_header() is None,
            s.spec_state() == StreamState::Created,
            s.spec_pending() is None,
    {
        CrasStream {
            stream_id,
            block_size,
            direction,
            rate,
            num_channels,
            format,
            header: None,
            state: StreamState::Created,
            pending: None,
        }
    }

    /// Attaches the stream's shared memory: the header model read from
    /// the newly mapped region. Happens exactly once, when the connection
    /// manager has received the stream's two region descriptors; a header
    /// whose frame size is zero is unusable and rejected.
    pub fn init_shm(&mut self, header: CrasAudioHeader) -> (r: Result<(), StreamError>)
        requires
            old(self).wf(),
        ensures
            final(self).wf(),
            old(self).spec_state() != StreamState::Created ==> r == Err::<(), StreamError>(
                StreamError::AlreadyConnected,
            ) && *final(self) == *old(self),
            old(self).spec_state() == StreamState::Created && header.frame_size == 0 ==> r == Err::<
                (),
                StreamError,
            >(StreamError::Shm(ShmError::InvalidFrameSize)) && *final(self) == *old(self),
            old(self).spec_state() == StreamState::Created && header.frame_size >= 1 ==> {
                &&& r is Ok
                &&& final(self).same_params(old(self))
                &&& final(self).spec_header() == Some(header)
                &&& final(self).spec_state() == StreamState::Connected
                &&& final(self).spec_pending() == old(self).spec_pending()
            },
    {
        match self.state {
            StreamState::Created => {
                if header.frame_size == 0 {
                    return Err(StreamError::Shm(ShmError::InvalidFrameSize));
                }
                self.header = Some(header);
                self.state = StreamState::Connected;
                Ok(())
            },
            _ => Err(StreamError::AlreadyConnected),
        }
    }

    /// Refreshes the header model from the mapped region: the peer
    /// process mutates the shared cells concurrently, so the I/O layer
    /// reads them anew before each decision. A header whose frame size is
    /// zero is unusable and rejected, leaving the old model in place.
    pub fn update_header(&mut self, header: CrasAudioHeader) -> (r: Result<(), StreamError>)
        requires
            old(self).wf(),
        ensures
            final(self).wf(),
            old(self).spec_header() is None ==> r == Err::<(), StreamError>(StreamError::NoShmError)
                && *final(self) == *old(self),
            old(self).spec_header() is Some && header.frame_size == 0 ==> r == Err::<
                (),
                StreamError,
            >(StreamError::Shm(ShmError::InvalidFrameSize)) && *final(self) == *old(self),
            old(self).spec_header() is Some && header.frame_size >= 1 ==> {
                &&& r is Ok
                &&& final(self).same_params(old(self))
                &&& final(self).spec_header() == Some(header)
                &&& final(self).spec_state() == old(self).spec_state()
                &&& final(self).spec_pending() == old(self).spec_pending()
            },
    {
        match self.header {
            None => Err(StreamError::NoShmError),
            Some(_) => {
                if header.frame_size == 0 {
                    return Err(StreamError::Shm(ShmError::InvalidFrameSize));
                }
                self.header = Some(header);
                Ok(())
            },
        }
    }

    /// Resolves the next playback window from a received signal: the
    /// message must be a data request, the shared memory must be
    /// attached, and no earlier acquisition may still be live. On success
    /// the writer's byte window `(offset, length)` within the samples
    /// region is returned and marked live; the caller fills it from its
    /// start.
    pub fn next_playback_buffer(&mut self, msg: &AudioMessage) -> (r: Result<
        (usize, usize),
        StreamError,
    >)
        requires
            old(self).wf(),
        ensures
            final(self).wf(),
            final(self).same_params(old(self)),
            final(self).spec_header() == old(self).spec_header(),
            final(self).spec_state() == old(self).spec_state(),
            old(self).spec_pending() is Some ==> r == Err::<(usize, usize), StreamError>(
                StreamError::BufferOutstanding,
            ) && *final(self) == *old(self),
            old(self).spec_pending() is None && !(*msg matches AudioMessage::Success {
                id: AudioMessageId::RequestData,
                ..
            }) ==> r == Err::<(usize, usize), StreamError>(StreamError::MessageTypeError) && *final(self) == *old(self),
            old(self).spec_pending() is None && (*msg matches AudioMessage::Success {
                id: AudioMessageId::RequestData,
                ..
            }) ==> match old(self).spec_header() {
                None => r == Err::<(usize, usize), StreamError>(StreamError::NoShmError)
                    && *final(self) == *old(self),
                Some(h) => {
                    &&& h.layout_ok() ==> {
                        let offset = h.extent_start(h.write_idx());
                        let len = h.spec_buffer_len(offset);
                        &&& r is Ok
                        &&& r->Ok_0.0 == offset
                        &&& r->Ok_0.1 == len
                        &&& final(self).spec_pending() == Some(
                            (offset as usize, len as usize),
                        )
                    }
                    &&& !h.layout_ok() ==> r == Err::<(usize, usize), StreamError>(
                        StreamError::Shm(h.layout_err(h.write_idx())),
                    ) && *final(self) == *old(self)
                },
            },
    {
        if self.pending.is_some() {
            return Err(StreamError::BufferOutstanding);
        }
        match msg {
            AudioMessage::Success { id: AudioMessageId::RequestData, .. } => {},
            _ => {
                return Err(StreamError::MessageTypeError);
            },
        }
        match self.header {
            None => Err(StreamError::NoShmError),
            Some(h) => {
                match h.get_write_offset_and_len() {
                    Ok((offset, len)) => {
                        self.pending = Some((offset, len));
                        Ok((offset, len))
                    },
                    Err(e) => Err(StreamError::Shm(e)),
                }
            },
        }
    }

    /// Reports a released playback buffer: commits the written frame
    /// count to the header model (a commit the header cannot take is
    /// dropped, never allowed to block the release) and hands back the
    /// `DataReady` signal bytes for the I/O layer to send.
    pub fn complete_playback_buffer(&mut self, nframes: u32) -> (r: Result<Vec<u8>, StreamError>)
        requires
            old(self).wf(),
        ensures
            final(self).wf(),
            final(self).same_params(old(self)),
            final(self).spec_state() == old(self).spec_state(),
            old(self).spec_pending() is None ==> r == Err::<Vec<u8>, StreamError>(
                StreamError::NoBufferOutstanding,
            ) && *final(self) == *old(self),
            old(self).spec_pending() is Some ==> {
                &&& r is Ok
                &&& r->Ok_0@ == spec_encode_audio_message(
                    AudioMessage::Success { id: AudioMessageId::DataReady, frames: nframes },
                )
                &&& final(self).spec_pending() is None
                &&& final(self).spec_header() == match old(self).spec_header() {
                    Some(h) => Some(h.commit_written_result(nframes)),
                    None => None::<CrasAudioHeader>,
                }
            },
    {
        if self.pending.is_none() {
            return Err(StreamError::NoBufferOutstanding);
        }
        self.pending = None;
        match self.header {
            None => {},
            Some(h) => {
                let mut committed = h;
                let _ = committed.commit_written_frames(nframes);
                self.header = Some(committed);
            },
        }
        Ok(encode_data_ready(nframes))
    }

    /// Resolves the next capture window from a received signal: the
    /// message must be a `DataReady` carrying the frames the server
    /// produced, the shared memory must be attached, and no earlier
    /// acquisition may still be live. The window covers the lesser of the
    /// signalled and the readable frame counts, starting at the read
    /// slot's offset, and is marked live.
    pub fn next_capture_buffer(&mut self, msg: &AudioMessage) -> (r: Result<
        (usize, usize),
        StreamError,
    >)
        requires
            old(self).wf(),
        ensures
            final(self).wf(),
            final(self).same_params(old(self)),
            final(self).spec_header() == old(self).spec_header(),
            final(self).spec_state() == old(self).spec_state(),
            old(self).spec_pending() is Some ==> r == Err::<(usize, usize), StreamError>(
                StreamError::BufferOutstanding,
            ) && *final(self) == *old(self),
            old(self).spec_pending() is None && !(*msg matches AudioMessage::Success {
                id: AudioMessageId::DataReady,
                ..
            }) ==> r == Err::<(usize, usize), StreamError>(StreamError::MessageTypeError) && *final(self) == *old(self),
            old(self).spec_pending() is None ==> (*msg matches AudioMessage::Success {
                id: AudioMessageId::DataReady,
                frames,
            } ==> match old(self).spec_header() {
                None => r == Err::<(usize, usize), StreamError>(StreamError::NoShmError)
                    && *final(self) == *old(self),
                Some(h) => {
                    &&& h.layout_ok() ==> {
                        let offset = h.slot(h.read_idx()).buffer_offset as int;
                        let rf = h.spec_readable_frames();
                        let take = if rf <= frames {
                            rf
                        } else {
                            frames as int
                        };
                        let len = take * h.frame_size as int;
                        &&& r is Ok
                        &&& r->Ok_0.0 == offset
                        &&& r->Ok_0.1 == len
                        &&& final(self).spec_pending() == Some(
                            (offset as usize, len as usize),
                        )
                    }
                    &&& !h.layout_ok() ==> r == Err::<(usize, usize), StreamError>(
                        StreamError::Shm(h.layout_err(h.read_idx())),
                    ) && *final(self) == *old(self)
                },
            }),
    {
        if self.pending.is_some() {
            return Err(StreamError::BufferOutstanding);
        }
        let frames: u32 = match msg {
            AudioMessage::Success { id: AudioMessageId::DataReady, frames } => *frames,
            _ => {
                return Err(StreamError::MessageTypeError);
            },
        };
        match self.header {
            None => Err(StreamError::NoShmError),
            Some(h) => {
                let shm_frames = match h.get_readable_frames() {
                    Ok(f) => f,
                    Err(e) => {
                        return Err(StreamError::Shm(e));
                    },
                };
                let offset = match h.get_read_buffer_offset() {
                    Ok(o) => o,
                    Err(e) => {
                        return Err(StreamError::Shm(e));
                    },
                };
                let frames_usize = frames as usize;
                let take: usize = if shm_frames <= frames_usize {
                    shm_frames
                } else {
                    frames_usize
                };
                proof {
                    lemma_take_times_frame_fits(h, take as int);
                }
                let len: usize = (take as u64 * h.frame_size as u64) as usize;
                self.pending = Some((offset, len));
                Ok((offset, len))
            },
        }
    }

    /// Reports a released capture buffer: commits the consumed frame
    /// count to the header model (an advance the header cannot represent
    /// is dropped, never allowed to block the release) and hands back the
    /// `DataCaptured` signal bytes for the I/O layer to send.
    pub fn complete_capture_buffer(&mut self, nframes: u32) -> (r: Result<Vec<u8>, StreamError>)
        requires
            old(self).wf(),
        ensures
            final(self).wf(),
            final(self).same_params(old(self)),
            final(self).spec_state() == old(self).spec_state(),
            old(self).spec_pending() is None ==> r == Err::<Vec<u8>, StreamError>(
                StreamError::NoBufferOutstanding,
            ) && *final(self) == *old(self),
            old(self).spec_pending() is Some ==> {
                &&& r is Ok
                &&& r->Ok_0@ == spec_encode_audio_message(
                    AudioMessage::Success { id: AudioMessageId::DataCaptured, frames: nframes },
                )
                &&& final(self).spec_pending() is None
                &&& final(self).spec_header() == match old(self).spec_header() {
                    Some(h) => Some(h.commit_read_result(nframes)),
                    None => None::<CrasAudioHeader>,
                }
            },
    {
        if self.pending.is_none() {
            return Err(StreamError::NoBufferOutstanding);
        }
        self.pending = None;
        match self.header {
            None => {},
            Some(h) => {
                let mut committed = h;
                let idx: usize = (committed.read_buf_idx % 2) as usize;
                let read_offset: u32 = if idx == 0 {
                    committed.slot0.read_offset
                } else {
                    committed.slot1.read_offset
                };
                proof {
                    crate::shm::lemma_u32_product_fits_u64(nframes, committed.frame_size);
                }
                let advance: u64 = read_offset as u64 + nframes as u64
                    * committed.frame_size as u64;
                if advance <= 0xffff_ffffu64 {
                    let _ = committed.commit_read_frames(nframes);
                }
                self.header = Some(committed);
            },
        }
        Ok(encode_capture_ready(nframes))
    }

    /// Tears the stream down: detaches the header model, closes the
    /// state machine, and hands back the disconnect notification bytes
    /// for the I/O layer to send best-effort. Teardown never fails and
    /// may be repeated; the I/O layer unmaps the regions and closes the
    /// descriptors exactly once.
    pub fn disconnect(&mut self) -> (r: Vec<u8>)
        ensures
            final(self).wf(),
            final(self).same_params(old(self)),
            final(self).spec_state() == StreamState::Closed,
            final(self).spec_header() is None,
            final(self).spec_pending() is None,
            r@ == spec_encode_disconnect_stream(old(self).spec_stream_id()),
    {
        self.header = None;
        self.pending = None;
        self.state = StreamState::Closed;
        encode_disconnect_stream_message(self.stream_id)
    }

    /// The stream's identifier.
    pub fn stream_id(&self) -> (r: u32)
        ensures
            r == self.spec_stream_id(),
    {
        self.stream_id
    }

    /// A copy of the attached header model, for the I/O layer to store
    /// back the fields a commit changed.
    pub fn header(&self) -> (r: Option<CrasAudioHeader>)
        ensures
            r == self.spec_header(),
    {
        self.header
    }
}

/// A capture window of `take` frames fits in 32 bits: `take` never
/// exceeds the readable frame count, which covers at most the read
/// slot's write marker.
proof fn lemma_take_times_frame_fits(h: CrasAudioHeader, take: int)
    requires
        h.frame_size >= 1,
        0 <= take,
        take <= h.spec_readable_frames(),
    ensures
        take * h.frame_size as int <= u32::MAX,
{
    let s = h.slot(h.read_idx());
    let fs = h.frame_size as int;
    if s.write_offset >= s.read_offset {
        let delta = s.write_offset - s.read_offset;
        vstd::arithmetic::div_mod::lemma_fundamental_div_mod(delta, fs);
        vstd::arithmetic::div_mod::lemma_mod_bound(delta, fs);
        vstd::arithmetic::mul::lemma_mul_is_commutative(delta / fs, fs);
        assert((delta / fs) * fs <= delta);
        vstd::arithmetic::mul::lemma_mul_inequality(take, delta / fs, fs);
    } else {
        assert(take == 0);
    }
}

} // verus!
