//! Scoped playback buffers and the local (serverless) playback stream.
//!
//! A stream hands out one [`PlaybackBuffer`] at a time: a temporary view
//! over a whole number of audio frames. The caller fills it and releases it
//! back, at which point the committed frame count is reported through a
//! [`BufferDrop`] callback. Only whole frames ever move: writes are
//! truncated down to a multiple of the frame size, and a buffer whose
//! length is not a multiple of the frame size cannot be constructed.

use vstd::prelude::*;

use crate::capture::{CaptureBufferError, DummyCaptureStream};
use crate::clock::{now_nanos, wait_until_elapsed};

verus! {

/// Callback run when an audio buffer is released. `nframes` is the number
/// of whole frames that were written to (or read from) the buffer.
/// Implemented by stream back ends; arbitrary code may run here, so
/// nothing is assumed of it.
pub trait BufferDrop {
    fn trigger(&mut self, nframes: usize);
}

/// Errors possible from a `PlaybackBuffer` or its stream.
#[derive(Clone, Copy, Debug, PartialEq, Eq, Structural)]
pub enum PlaybackBufferError {
    /// The buffer's byte length is not a whole number of frames.
    InvalidLength,
    /// A previously acquired buffer has not been released back yet; only
    /// one acquisition may be outstanding per stream.
    BufferInUse,
}

/// A scoped buffer holding a whole number of audio frames to fill.
///
/// The buffer tracks how many bytes have been written so far; on release
/// the whole-frame count of those bytes is reported to the stream it came
/// from.
pub struct PlaybackBuffer {
    buffer: Vec<u8>,
    offset: usize,
    frame_size: usize,
}

impl PlaybackBuffer {
    /// The bytes backing this buffer.
    pub closed spec fn buf(&self) -> Seq<u8> {
        self.buffer@
    }

    /// How many bytes have been written so far.
    pub closed spec fn spec_offset(&self) -> int {
        self.offset as int
    }

    /// Size of one frame in bytes.
    pub closed spec fn spec_frame_size(&self) -> int {
        self.frame_size as int
    }

    /// Well-formedness: the frame size is positive, and both the write
    /// position and the buffer length are whole numbers of frames.
    pub closed spec fn wf(&self) -> bool {
        &&& self.frame_size >= 1
        &&& self.offset <= self.buffer@.len()
        &&& self.offset as int % self.frame_size as int == 0
        &&& self.buffer@.len() as int % self.frame_size as int == 0
    }

    /// Creates a `PlaybackBuffer` over the backing bytes in `buffer`.
    /// Fails with `InvalidLength` exactly when the byte length is not a
    /// whole number of frames (a zero length is acceptable).
    pub fn new(frame_size: usize, buffer: Vec<u8>) -> (r: Result<
        PlaybackBuffer,
        PlaybackBufferError,
    >)
        requires
            frame_size >= 1,
        ensures
            buffer@.len() as int % frame_size as int != 0 ==> r == Err::<
                PlaybackBuffer,
                PlaybackBufferError,
            >(PlaybackBufferError::InvalidLength),
            buffer@.len() as int % frame_size as int == 0 ==> {
                &&& r is Ok
                &&& r->Ok_0.wf()
                &&& r->Ok_0.buf() == buffer@
                &&& r->Ok_0.spec_offset() == 0
                &&& r->Ok_0.spec_frame_size() == frame_size
            },
    {
        if buffer.len() % frame_size != 0 {
            return Err(PlaybackBufferError::InvalidLength);
        }
        Ok(PlaybackBuffer { buffer, offset: 0, frame_size })
    }

    /// Number of audio frames that fit in the buffer.
    pub fn frame_capacity(&self) -> (r: usize)
        requires
            self.wf(),
        ensures
            r == self.buf().len() as int / self.spec_frame_size(),
    {
        self.buffer.len() / self.frame_size
    }

    /// Writes the leading bytes of `src` at the current position, whole
    /// frames only: the attempt is truncated down to a multiple of the
    /// frame size, then capped by the room left in the buffer. Returns how
    /// many bytes were written; never fails.
    pub fn write(&mut self, src: &Vec<u8>) -> (r: Result<usize, PlaybackBufferError>)
        requires
            old(self).wf(),
        ensures
            final(self).wf(),
            final(self).spec_frame_size() == old(self).spec_frame_size(),
            ({
                let fs = old(self).spec_frame_size();
                let want = src@.len() as int / fs * fs;
                let room = old(self).buf().len() - old(self).spec_offset();
                let written = if want <= room {
                    want
                } else {
                    room
                };
                &&& r == Ok::<usize, PlaybackBufferError>(written as usize)
                &&& final(self).spec_offset() == old(self).spec_offset() + written
                &&& final(self).buf() == old(self).buf().subrange(0, old(self).spec_offset())
                    + src@.subrange(0, written) + old(self).buf().subrange(
                    old(self).spec_offset() + written,
                    old(self).buf().len() as int,
                )
            }),
    {
        let fs = self.frame_size;
        proof {
            lemma_round_down_multiple(src@.len() as int, fs as int);
            lemma_mod_sub(self.buffer@.len() as int, self.offset as int, fs as int);
        }
        let want: usize = src.len() / fs * fs;
        let room: usize = self.buffer.len() - self.offset;
        let written: usize = if want <= room {
            want
        } else {
            room
        };
        let base: usize = self.offset;
        let total_len: usize = self.buffer.len();
        let mut i: usize = 0;
        while i < written
            invariant
                i <= written,
                written <= src@.len(),
                base + written <= self.buffer@.len(),
                self.buffer@.len() == total_len,
                self.offset == base,
                self.frame_size == old(self).spec_frame_size(),
                self.buffer@.len() == old(self).buf().len(),
                forall|j: int| 0 <= j < i ==> self.buffer@[base + j] == src@[j],
                forall|j: int|
                    0 <= j < self.buffer@.len() && !(base <= j < base + i) ==> self.buffer@[j]
                        == old(self).buf()[j],
            decreases written - i,
        {
            let v = src[i];
            self.buffer.set(base + i, v);
            i = i + 1;
        }
        proof {
            lemma_mod_add(base as int, written as int, fs as int);
        }
        self.offset = base + written;
        proof {
            assert(self.buffer@ =~= old(self).buf().subrange(0, base as int) + src@.subrange(
                0,
                written as int,
            ) + old(self).buf().subrange(base + written, old(self).buf().len() as int));
        }
        Ok(written)
    }

    /// Writes up to `size` bytes directly through the given callback:
    /// the window covers the next `size` bytes rounded down to whole
    /// frames, the callback receives the window's current contents and
    /// returns its new contents (of the same length), and the write
    /// position advances past the window.
    pub fn copy_cb<F: FnOnce(Vec<u8>) -> Vec<u8>>(&mut self, size: usize, cb: F)
        requires
            old(self).wf(),
            old(self).spec_offset() + (size as int / old(self).spec_frame_size()) * old(
                self,
            ).spec_frame_size() <= old(self).buf().len(),
            forall|v: Vec<u8>|
                v@ == old(self).buf().subrange(
                    old(self).spec_offset(),
                    old(self).spec_offset() + (size as int / old(self).spec_frame_size()) * old(
                        self,
                    ).spec_frame_size(),
                ) ==> call_requires(cb, (v,)),
            forall|v: Vec<u8>, ret: Vec<u8>| call_ensures(cb, (v,), ret) ==> ret@.len() == v@.len(),
        ensures
            final(self).wf(),
            final(self).spec_frame_size() == old(self).spec_frame_size(),
            final(self).buf().len() == old(self).buf().len(),
            ({
                let len = (size as int / old(self).spec_frame_size()) * old(
                    self,
                ).spec_frame_size();
                &&& final(self).spec_offset() == old(self).spec_offset() + len
                &&& forall|j: int|
                    0 <= j < old(self).buf().len() && !(old(self).spec_offset() <= j < old(
                        self,
                    ).spec_offset() + len) ==> final(self).buf()[j] == old(self).buf()[j]
                &&& exists|inp: Vec<u8>, out: Vec<u8>|
                    {
                        &&& inp@ == old(self).buf().subrange(
                            old(self).spec_offset(),
                            old(self).spec_offset() + len,
                        )
                        &&& #[trigger] call_ensures(cb, (inp,), out)
                        &&& final(self).buf().subrange(
                            old(self).spec_offset(),
                            old(self).spec_offset() + len,
                        ) == out@
                    }
            }),
    {
        let fs = self.frame_size;
        proof {
            lemma_round_down_multiple(size as int, fs as int);
        }
        let len: usize = size / fs * fs;
        let base: usize = self.offset;
        let whole: usize = self.buffer.len();
        let mut chunk: Vec<u8> = Vec::new();
        let mut i: usize = 0;
        while i < len
            invariant
                i <= len,
                base + len <= self.buffer@.len(),
                self.buffer@.len() == whole,
                chunk@.len() == i,
                *self == *old(self),
                base == old(self).spec_offset(),
                forall|j: int| 0 <= j < i ==> chunk@[j] == self.buffer@[base + j],
            decreases len - i,
        {
            let v = self.buffer[base + i];
            chunk.push(v);
            i = i + 1;
        }
        proof {
            assert(chunk@ =~= old(self).buf().subrange(base as int, base + len));
        }
        let out = cb(chunk);
        let total_len: usize = self.buffer.len();
        let mut k: usize = 0;
        while k < len
            invariant
                k <= len,
                out@.len() == len,
                base + len <= self.buffer@.len(),
                self.buffer@.len() == total_len,
                self.offset == base,
                self.frame_size == old(self).spec_frame_size(),
                forall|j: int| 0 <= j < k ==> self.buffer@[base + j] == out@[j],
                forall|j: int|
                    0 <= j < self.buffer@.len() && !(base <= j < base + k) ==> self.buffer@[j]
                        == old(self).buf()[j],
            decreases len - k,
        {
            let v = out[k];
            self.buffer.set(base + k, v);
            k = k + 1;
        }
        proof {
            lemma_mod_add(base as int, len as int, fs as int);
            assert(self.buffer@.subrange(base as int, base + len) =~= out@);
        }
        self.offset = base + len;
    }

    /// Number of whole frames written so far: what a release of this
    /// buffer reports as committed.
    pub fn frames_written(&self) -> (r: usize)
        requires
            self.wf(),
        ensures
            r == self.spec_offset() / self.spec_frame_size(),
    {
        self.offset / self.frame_size
    }

    /// Releases the buffer: hands the backing bytes back to the caller
    /// together with the committed frame count, the number of whole
    /// frames written (`frames_written`), which is also reported to
    /// `handler`. Every acquisition must end here, on every path.
    pub fn release<D: BufferDrop>(self, handler: &mut D) -> (r: (Vec<u8>, usize))
        requires
            self.wf(),
        ensures
            r.0@ == self.buf(),
            r.1 == self.spec_offset() / self.spec_frame_size(),
    {
        let nframes = self.frames_written();
        handler.trigger(nframes);
        let PlaybackBuffer { buffer, offset: _, frame_size: _ } = self;
        (buffer, nframes)
    }
}

/// A stream hands out playback buffers one at a time.
///
/// The contract makes two concurrently live acquisitions impossible: while
/// one buffer is outstanding the next acquisition fails, and a successful
/// acquisition always starts with no buffer outstanding.
pub trait PlaybackBufferStream {
    /// Internal consistency of the stream.
    spec fn stream_wf(&self) -> bool;

    /// Whether an acquired buffer has not been released back yet.
    spec fn outstanding(&self) -> bool;

    /// Size in bytes of the frames this stream exchanges.
    spec fn stream_frame_size(&self) -> int;

    /// The sample bytes the stream currently holds in its rotation.
    spec fn stored_samples(&self) -> Seq<u8>;

    /// Acquires the next buffer to fill, blocking until the stream is
    /// ready for it. A buffer is owed whenever none is outstanding, and
    /// it lends out exactly the stream's stored bytes, from the start.
    fn next_playback_buffer(&mut self) -> (r: Result<PlaybackBuffer, PlaybackBufferError>)
        requires
            old(self).stream_wf(),
        ensures
            final(self).stream_wf(),
            final(self).stream_frame_size() == old(self).stream_frame_size(),
            old(self).outstanding() ==> r == Err::<PlaybackBuffer, PlaybackBufferError>(
                PlaybackBufferError::BufferInUse,
            ),
            !old(self).outstanding() ==> r is Ok,
            r is Ok ==> {
                &&& !old(self).outstanding()
                &&& final(self).outstanding()
                &&& r->Ok_0.wf()
                &&& r->Ok_0.spec_offset() == 0
                &&& r->Ok_0.spec_frame_size() == old(self).stream_frame_size()
                &&& r->Ok_0.buf() == old(self).stored_samples()
            },
    ;
}

/// Stream state observed by the buffer-complete callback of the dummy
/// streams: it only remembers which of the two rotating buffers is up.
pub struct DummyBufferDrop {
    /// Flipped on every completed buffer.
    pub which_buffer: bool,
}

impl BufferDrop for DummyBufferDrop {
    fn trigger(&mut self, _nframes: usize) {
        self.which_buffer = !self.which_buffer;
    }
}

/// Stream that accepts playback samples at the real-time rate and drops
/// them: it blocks acquisition until the previous buffer's play time has
/// passed, so a caller consumes buffers no faster than a real device
/// would.
pub struct DummyStream {
    buffer: Option<Vec<u8>>,
    frame_size: usize,
    interval_nanos: u64,
    next_frame_nanos: u64,
    start_nanos: Option<u64>,
    buffer_drop: DummyBufferDrop,
}

impl DummyStream {
    /// Size of one frame in bytes (two bytes per sample per channel).
    pub closed spec fn spec_frame_size(&self) -> int {
        self.frame_size as int
    }

    /// Play time of one buffer in nanoseconds.
    pub closed spec fn spec_interval_nanos(&self) -> int {
        self.interval_nanos as int
    }

    /// Whether the stream's buffer is currently lent out.
    pub closed spec fn held(&self) -> bool {
        self.buffer is None
    }

    /// Whether the pacing clock has started: it starts on the first
    /// acquisition, which therefore never waits.
    pub closed spec fn clock_started(&self) -> bool {
        self.start_nanos is Some
    }

    /// The bytes currently stored in the stream (empty while lent out).
    pub closed spec fn stored(&self) -> Seq<u8> {
        match self.buffer {
            Some(b) => b@,
            None => Seq::empty(),
        }
    }

    /// Well-formedness: positive frame size, and a stored buffer holds a
    /// whole number of frames.
    pub closed spec fn wf(&self) -> bool {
        &&& self.frame_size >= 1
        &&& match self.buffer {
            Some(b) => b@.len() as int % self.frame_size as int == 0,
            None => true,
        }
    }

    /// A dummy stream for 16-bit little-endian samples: one rotating
    /// buffer of `buffer_size` frames, paced at `frame_rate` frames per
    /// second.
    pub fn new(num_channels: usize, frame_rate: usize, buffer_size: usize) -> (s: DummyStream)
        requires
            num_channels >= 1,
            frame_rate >= 1,
            2 * num_channels <= usize::MAX,
            buffer_size * (2 * num_channels) <= usize::MAX,
            buffer_size * 1_000_000_000 <= u64::MAX,
        ensures
            s.wf(),
            !s.held(),
            s.spec_frame_size() == 2 * num_channels,
            s.stored().len() == buffer_size * (2 * num_channels),
            forall|i: int| 0 <= i < s.stored().len() ==> s.stored()[i] == 0u8,
            s.spec_interval_nanos() == buffer_size * 1000 / frame_rate as int * 1_000_000,
            !s.clock_started(),
    {
        let frame_size: usize = 2 * num_channels;
        // One buffer's play time, truncated to whole milliseconds.
        let interval_millis: u64 = buffer_size as u64 * 1000 / frame_rate as u64;
        proof {
            vstd::arithmetic::div_mod::lemma_div_is_ordered_by_denominator(
                buffer_size as u64 * 1000,
                1,
                frame_rate as int,
            );
        }
        let interval: u64 = interval_millis * 1_000_000;
        let total: usize = buffer_size * frame_size;
        let mut buffer: Vec<u8> = Vec::new();
        while buffer.len() < total
            invariant
                buffer@.len() <= total,
                forall|i: int| 0 <= i < buffer@.len() ==> buffer@[i] == 0u8,
            decreases total - buffer@.len(),
        {
            buffer.push(0u8);
        }
        proof {
            vstd::arithmetic::div_mod::lemma_mod_multiples_basic(
                buffer_size as int,
                frame_size as int,
            );
            vstd::arithmetic::mul::lemma_mul_is_commutative(buffer_size as int, frame_size as int);
        }
        DummyStream {
            buffer: Some(buffer),
            frame_size,
            interval_nanos: interval,
            next_frame_nanos: interval,
            start_nanos: None,
            buffer_drop: DummyBufferDrop { which_buffer: false },
        }
    }

    /// Blocks until the previous buffer's play time has passed, then
    /// advances the schedule by one buffer interval. On the first call it
    /// only starts the clock.
    fn pace(&mut self)
        ensures
            final(self).buffer == old(self).buffer,
            final(self).frame_size == old(self).frame_size,
            final(self).interval_nanos == old(self).interval_nanos,
            final(self).buffer_drop == old(self).buffer_drop,
    {
        match self.start_nanos {
            None => {
                self.start_nanos = Some(now_nanos());
                self.next_frame_nanos = self.interval_nanos;
            },
            Some(start) => {
                wait_until_elapsed(start, self.next_frame_nanos);
                self.next_frame_nanos = self.next_frame_nanos.saturating_add(self.interval_nanos);
            },
        }
    }

    /// Puts a released buffer back into the stream's rotation, reporting
    /// the completion to the stream's own callback.
    pub fn release_buffer(&mut self, buf: PlaybackBuffer)
        requires
            old(self).wf(),
            buf.wf(),
            buf.spec_frame_size() == old(self).spec_frame_size(),
        ensures
            final(self).wf(),
            !final(self).held(),
            final(self).stored() == buf.buf(),
            final(self).spec_frame_size() == old(self).spec_frame_size(),
            final(self).spec_interval_nanos() == old(self).spec_interval_nanos(),
    {
        let (v, _nframes) = buf.release(&mut self.buffer_drop);
        self.buffer = Some(v);
    }
}

impl PlaybackBufferStream for DummyStream {
    open spec fn stream_wf(&self) -> bool {
        self.wf()
    }

    open spec fn outstanding(&self) -> bool {
        self.held()
    }

    open spec fn stream_frame_size(&self) -> int {
        self.spec_frame_size()
    }

    open spec fn stored_samples(&self) -> Seq<u8> {
        self.stored()
    }

    fn next_playback_buffer(&mut self) -> (r: Result<PlaybackBuffer, PlaybackBufferError>) {
        match self.buffer.take() {
            None => Err(PlaybackBufferError::BufferInUse),
            Some(b) => {
                self.pace();
                match PlaybackBuffer::new(self.frame_size, b) {
                    Ok(p) => Ok(p),
                    Err(e) => Err(e),
                }
            },
        }
    }
}

/// No-op control for dummy streams.
#[derive(Default)]
pub struct DummyStreamControl;

impl DummyStreamControl {
    /// A fresh no-op control handle.
    pub fn new() -> (r: DummyStreamControl)
        ensures
            true,
    {
        DummyStreamControl {  }
    }

    /// Mute setter; accepting the request and doing nothing is a valid
    /// default for a stream without a device behind it.
    pub fn set_mute(&mut self, _mute: bool)
        ensures
            *final(self) == *old(self),
    {
    }
}

/// Source of dummy streams and their no-op controls.
#[derive(Default)]
pub struct DummyStreamSource;

impl DummyStreamSource {
    /// A fresh source of dummy streams.
    pub fn new() -> (r: DummyStreamSource)
        ensures
            true,
    {
        DummyStreamSource {  }
    }

    /// A paced local playback stream that drops the samples it is given,
    /// with its no-op control. Never fails.
    pub fn new_playback_stream(
        &mut self,
        num_channels: usize,
        frame_rate: usize,
        buffer_size: usize,
    ) -> (r: Result<(DummyStreamControl, DummyStream), PlaybackBufferError>)
        requires
            num_channels >= 1,
            frame_rate >= 1,
            2 * num_channels <= usize::MAX,
            buffer_size * (2 * num_channels) <= usize::MAX,
            buffer_size * 1_000_000_000 <= u64::MAX,
        ensures
            r is Ok,
            ({
                let s = r->Ok_0.1;
                &&& s.wf()
                &&& !s.held()
                &&& s.spec_frame_size() == 2 * num_channels
                &&& s.stored().len() == buffer_size * (2 * num_channels)
            }),
    {
        Ok((DummyStreamControl::new(), DummyStream::new(num_channels, frame_rate, buffer_size)))
    }

    /// A silent local capture stream with its no-op control. Never fails.
    pub fn new_capture_stream(
        &mut self,
        num_channels: usize,
        frame_rate: usize,
        buffer_size: usize,
    ) -> (r: Result<(DummyStreamControl, DummyCaptureStream), CaptureBufferError>)
        requires
            num_channels >= 1,
            frame_rate >= 1,
            2 * num_channels <= usize::MAX,
            buffer_size * (2 * num_channels) <= usize::MAX,
            buffer_size * 1_000_000_000 <= u64::MAX,
        ensures
            r is Ok,
            ({
                let s = r->Ok_0.1;
                &&& s.wf()
                &&& !s.held()
                &&& s.spec_frame_size() == 2 * num_channels
                &&& s.stored().len() == buffer_size * (2 * num_channels)
            }),
    {
        Ok(
            (
                DummyStreamControl::new(),
                DummyCaptureStream::new(num_channels, frame_rate, buffer_size),
            ),
        )
    }
}

/// Adding two multiples of `m` yields a multiple of `m`.
pub(crate) proof fn lemma_mod_add(a: int, b: int, m: int)
    requires
        m >= 1,
        a % m == 0,
        b % m == 0,
    ensures
        (a + b) % m == 0,
{
    vstd::arithmetic::div_mod::lemma_fundamental_div_mod(a, m);
    vstd::arithmetic::div_mod::lemma_fundamental_div_mod(b, m);
    assert(a + b == m * (a / m + b / m)) by {
        vstd::arithmetic::mul::lemma_mul_is_distributive_add(m, a / m, b / m);
    }
    vstd::arithmetic::mul::lemma_mul_is_commutative(m, a / m + b / m);
    vstd::arithmetic::div_mod::lemma_mod_multiples_basic(a / m + b / m, m);
}

/// Subtracting a multiple of `m` from a multiple of `m` yields a multiple
/// of `m`.
pub(crate) proof fn lemma_mod_sub(a: int, b: int, m: int)
    requires
        m >= 1,
        a % m == 0,
        b % m == 0,
    ensures
        (a - b) % m == 0,
{
    vstd::arithmetic::div_mod::lemma_fundamental_div_mod(a, m);
    vstd::arithmetic::div_mod::lemma_fundamental_div_mod(b, m);
    assert(a - b == m * (a / m - b / m)) by {
        vstd::arithmetic::mul::lemma_mul_is_distributive_sub(m, a / m, b / m);
    }
    vstd::arithmetic::mul::lemma_mul_is_commutative(m, a / m - b / m);
    vstd::arithmetic::div_mod::lemma_mod_multiples_basic(a / m - b / m, m);
}

/// Rounding down to a multiple of `m` yields a multiple no larger than the
/// original value.
pub(crate) proof fn lemma_round_down_multiple(x: int, m: int)
    requires
        x >= 0,
        m >= 1,
    ensures
        (x / m) * m <= x,
        ((x / m) * m) % m == 0,
{
    vstd::arithmetic::div_mod::lemma_fundamental_div_mod(x, m);
    vstd::arithmetic::div_mod::lemma_mod_bound(x, m);
    vstd::arithmetic::mul::lemma_mul_is_commutative(x / m, m);
    vstd::arithmetic::div_mod::lemma_mod_multiples_basic(x / m, m);
}

} // verus!
