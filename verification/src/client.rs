//! The connection manager: stream identifiers and the connect sequence.
//!
//! A [`CrasClient`] models the client side of one server connection: the
//! client id the server assigned, the per-connection stream counter, and
//! the capture switch. Creating a stream allocates the next stream id,
//! builds the connect-stream request bytes, and hands back a fresh
//! [`CrasStream`] in its `Created` state; the unverified I/O layer sends
//! the request (with one end of a fresh socket pair riding along), waits
//! for the stream-connected reply, maps the two delivered regions and
//! attaches them through `init_shm`. When capture is not enabled for the
//! connection, capture streams are served by a local silent generator
//! instead of the server.

use vstd::prelude::*;

use crate::audio_streams::DummyStreamControl;
use crate::capture::DummyCaptureStream;
use crate::format::{cras_audio_format_packed, FORMAT_S16LE};
use crate::messages::{direction_code, le4, StreamDirection, encode_connect_stream_message};
use crate::stream::{CrasStream, StreamError, StreamState};

verus! {

/// What a capture-stream request yields: a server-backed stream with its
/// connect-request bytes, or the local silent generator when capture
/// through the server is not enabled.
pub enum CaptureStream {
    /// A server-backed capture stream and the connect-stream request to
    /// send for it.
    Cras(CrasStream, Vec<u8>),
    /// The local silent generator.
    Dummy(DummyCaptureStream),
}

/// The wire bytes of the connect-stream request that `create_stream`
/// builds, written out over the stream parameters alone.
pub open spec fn spec_connect_stream_bytes(
    stream_id: u32,
    direction: StreamDirection,
    block_size: u32,
    format: i32,
    rate: u32,
    num_channels: u32,
) -> Seq<u8> {
    le4(47u32) + le4(0u32) + le4(stream_id) + le4(direction_code(direction)) + le4(block_size)
        + le4(block_size) + le4(format as u32) + le4(rate) + le4(num_channels)
        + cras_audio_format_packed::spec_layout(num_channels as int).map_values(|b: i8| b as u8)
}

/// The verified state of one connection to the audio server.
pub struct CrasClient {
    client_id: u32,
    next_stream_id: u32,
    cras_capture: bool,
    client_type: u32,
}

impl CrasClient {
    /// The id the server assigned to this connection.
    pub closed spec fn spec_client_id(&self) -> u32 {
        self.client_id
    }

    /// The per-connection stream counter.
    pub closed spec fn spec_next_stream_id(&self) -> u32 {
        self.next_stream_id
    }

    /// Whether capture goes through the server.
    pub closed spec fn spec_cras_capture(&self) -> bool {
        self.cras_capture
    }

    /// The client type recorded for this connection.
    pub closed spec fn spec_client_type(&self) -> u32 {
        self.client_type
    }

    /// The stream id built from the connection id and a counter value.
    pub open spec fn spec_server_stream_id(&self, stream_id: u32) -> u32 {
        (self.spec_client_id() << 16) | stream_id
    }

    /// A fresh connection state around the client id the server assigned
    /// in its connection-accepted reply: stream counter at zero, capture
    /// through the server disabled, unknown client type.
    pub fn new(client_id: u32) -> (c: CrasClient)
        ensures
            c.spec_client_id() == client_id,
            c.spec_next_stream_id() == 0,
            !c.spec_cras_capture(),
            c.spec_client_type() == 0,
    {
        CrasClient { client_id, next_stream_id: 0, cras_capture: false, client_type: 0 }
    }

    /// Enables capturing audio through the server for this connection.
    pub fn enable_cras_capture(&mut self)
        ensures
            final(self).spec_cras_capture(),
            final(self).spec_client_id() == old(self).spec_client_id(),
            final(self).spec_next_stream_id() == old(self).spec_next_stream_id(),
            final(self).spec_client_type() == old(self).spec_client_type(),
    {
        self.cras_capture = true;
    }

    /// Records the client type for this connection. This revision of the
    /// connect-stream request does not carry the value on the wire; it is
    /// kept on the connection state only.
    pub fn set_client_type(&mut self, client_type: u32)
        ensures
            final(self).spec_client_type() == client_type,
            final(self).spec_client_id() == old(self).spec_client_id(),
            final(self).spec_next_stream_id() == old(self).spec_next_stream_id(),
            final(self).spec_cras_capture() == old(self).spec_cras_capture(),
    {
        self.client_type = client_type;
    }

    /// The current value of the per-connection stream counter.
    pub fn next_stream_id(&self) -> (r: u32)
        ensures
            r == self.spec_next_stream_id(),
    {
        self.next_stream_id
    }

    /// The stream id for a given counter value: connection id in the
    /// upper half, counter in the lower.
    fn server_stream_id(&self, stream_id: &u32) -> (r: u32)
        ensures
            r == self.spec_server_stream_id(*stream_id),
    {
        (self.client_id << 16u32) | *stream_id
    }

    /// Allocates the next stream id, advancing the monotonic counter.
    fn next_server_stream_id(&mut self) -> (r: u32)
        requires
            old(self).spec_next_stream_id() < u32::MAX,
        ensures
            r == old(self).spec_server_stream_id(old(self).spec_next_stream_id()),
            final(self).spec_next_stream_id() == old(self).spec_next_stream_id() + 1,
            final(self).spec_client_id() == old(self).spec_client_id(),
            final(self).spec_cras_capture() == old(self).spec_cras_capture(),
            final(self).spec_client_type() == old(self).spec_client_type(),
    {
        let res = self.next_stream_id;
        self.next_stream_id = self.next_stream_id + 1;
        self.server_stream_id(&res)
    }

    /// Builds a stream with the given parameters: allocates its id,
    /// builds the connect-stream request to send for it, and returns the
    /// stream in its `Created` state. The I/O layer sends the request
    /// with one end of a fresh control-socket pair, then attaches the
    /// delivered shared memory through `init_shm`.
    pub fn create_stream(
        &mut self,
        block_size: u32,
        direction: StreamDirection,
        rate: usize,
        channel_num: usize,
        format: i32,
    ) -> (r: Result<(CrasStream, Vec<u8>), StreamError>)
        requires
            old(self).spec_next_stream_id() < u32::MAX,
            rate <= u32::MAX,
            channel_num <= u32::MAX,
        ensures
            r is Ok,
            final(self).spec_next_stream_id() == old(self).spec_next_stream_id() + 1,
            final(self).spec_client_id() == old(self).spec_client_id(),
            final(self).spec_cras_capture() == old(self).spec_cras_capture(),
            final(self).spec_client_type() == old(self).spec_client_type(),
            ({
                let sid = old(self).spec_server_stream_id(old(self).spec_next_stream_id());
                let s = r->Ok_0.0;
                &&& s.wf()
                &&& s.spec_stream_id() == sid
                &&& s.spec_block_size() == block_size
                &&& s.spec_direction() == direction
                &&& s.spec_rate() == rate
                &&& s.spec_num_channels() == channel_num
                &&& s.spec_format() == format
                &&& s.spec_state() == StreamState::Created
                &&& s.spec_header() is None
                &&& s.spec_pending() is None
                &&& r->Ok_0.1@ == spec_connect_stream_bytes(
                    sid,
                    direction,
                    block_size,
                    format,
                    rate as u32,
                    channel_num as u32,
                )
            }),
    {
        let stream_id = self.next_server_stream_id();
        let audio_format = cras_audio_format_packed::new(format, rate, channel_num);
        let msg = encode_connect_stream_message(stream_id, &direction, block_size, &audio_format);
        let stream = CrasStream::new(stream_id, block_size, direction, rate, channel_num, format);
        proof {
            assert(msg@ =~= spec_connect_stream_bytes(
                stream_id,
                direction,
                block_size,
                format,
                rate as u32,
                channel_num as u32,
            ));
        }
        Ok((stream, msg))
    }

    /// A playback stream over the server, as 16-bit little-endian
    /// samples, with its no-op control and the connect-stream request to
    /// send for it.
    pub fn new_playback_stream(
        &mut self,
        num_channels: usize,
        frame_rate: usize,
        buffer_size: usize,
    ) -> (r: Result<(DummyStreamControl, CrasStream, Vec<u8>), StreamError>)
        requires
            old(self).spec_next_stream_id() < u32::MAX,
            frame_rate <= u32::MAX,
            num_channels <= u32::MAX,
            buffer_size <= u32::MAX,
        ensures
            r is Ok,
            final(self).spec_next_stream_id() == old(self).spec_next_stream_id() + 1,
            final(self).spec_client_id() == old(self).spec_client_id(),
            final(self).spec_cras_capture() == old(self).spec_cras_capture(),
            final(self).spec_client_type() == old(self).spec_client_type(),
            ({
                let sid = old(self).spec_server_stream_id(old(self).spec_next_stream_id());
                let s = r->Ok_0.1;
                &&& s.wf()
                &&& s.spec_stream_id() == sid
                &&& s.spec_block_size() == buffer_size
                &&& s.spec_direction() == StreamDirection::Playback
                &&& s.spec_rate() == frame_rate
                &&& s.spec_num_channels() == num_channels
                &&& s.spec_format() == FORMAT_S16LE
                &&& s.spec_state() == StreamState::Created
                &&& s.spec_header() is None
                &&& s.spec_pending() is None
                &&& r->Ok_0.2@ == spec_connect_stream_bytes(
                    sid,
                    StreamDirection::Playback,
                    buffer_size as u32,
                    FORMAT_S16LE,
                    frame_rate as u32,
                    num_channels as u32,
                )
            }),
    {
        match self.create_stream(
            buffer_size as u32,
            StreamDirection::Playback,
            frame_rate,
            num_channels,
            FORMAT_S16LE,
        ) {
            Ok((stream, msg)) => Ok((DummyStreamControl::new(), stream, msg)),
            Err(e) => Err(e),
        }
    }

    /// A capture stream with its no-op control: a server-backed stream
    /// (with its connect-stream request) when capture through the server
    /// is enabled, the local silent generator otherwise.
    pub fn new_capture_stream(
        &mut self,
        num_channels: usize,
        frame_rate: usize,
        buffer_size: usize,
    ) -> (r: Result<(DummyStreamControl, CaptureStream), StreamError>)
        requires
            old(self).spec_next_stream_id() < u32::MAX,
            frame_rate <= u32::MAX,
            num_channels <= u32::MAX,
            buffer_size <= u32::MAX,
            num_channels >= 1,
            frame_rate >= 1,
            2 * num_channels <= usize::MAX,
            buffer_size * (2 * num_channels) <= usize::MAX,
            buffer_size * 1_000_000_000 <= u64::MAX,
        ensures
            r is Ok,
            final(self).spec_client_id() == old(self).spec_client_id(),
            final(self).spec_cras_capture() == old(self).spec_cras_capture(),
            final(self).spec_client_type() == old(self).spec_client_type(),
            old(self).spec_cras_capture() ==> {
                &&& final(self).spec_next_stream_id() == old(self).spec_next_stream_id() + 1
                &&& match r->Ok_0.1 {
                    CaptureStream::Cras(s, m) => {
                        let sid = old(self).spec_server_stream_id(
                            old(self).spec_next_stream_id(),
                        );
                        &&& s.wf()
                        &&& s.spec_stream_id() == sid
                        &&& s.spec_block_size() == buffer_size
                        &&& s.spec_direction() == StreamDirection::Capture
                        &&& s.spec_rate() == frame_rate
                        &&& s.spec_num_channels() == num_channels
                        &&& s.spec_format() == FORMAT_S16LE
                        &&& s.spec_state() == StreamState::Created
                        &&& s.spec_header() is None
                        &&& s.spec_pending() is None
                        &&& m@ == spec_connect_stream_bytes(
                            sid,
                            StreamDirection::Capture,
                            buffer_size as u32,
                            FORMAT_S16LE,
                            frame_rate as u32,
                            num_channels as u32,
                        )
                    },
                    CaptureStream::Dummy(_) => false,
                }
            },
            !old(self).spec_cras_capture() ==> {
                &&& final(self).spec_next_stream_id() == old(self).spec_next_stream_id()
                &&& match r->Ok_0.1 {
                    CaptureStream::Cras(_, _) => false,
                    CaptureStream::Dummy(d) => {
                        &&& d.wf()
                        &&& !d.held()
                        &&& d.spec_frame_size() == 2 * num_channels
                        &&& d.stored().len() == buffer_size * (2 * num_channels)
                    },
                }
            },
    {
        if self.cras_capture {
            match self.create_stream(
                buffer_size as u32,
                StreamDirection::Capture,
                frame_rate,
                num_channels,
                FORMAT_S16LE,
            ) {
                Ok((stream, msg)) => Ok(
                    (DummyStreamControl::new(), CaptureStream::Cras(stream, msg)),
                ),
                Err(e) => Err(e),
            }
        } else {
            Ok(
                (
                    DummyStreamControl::new(),
                    CaptureStream::Dummy(
                        DummyCaptureStream::new(num_channels, frame_rate, buffer_size),
                    ),
                ),
            )
        }
    }
}

} // verus!
