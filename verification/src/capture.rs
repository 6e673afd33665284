//! Scoped capture buffers and the local (silent) capture stream.
//!
//! A capture stream hands out one [`CaptureBuffer`] at a time: a temporary
//! view over a whole number of captured audio frames. The caller reads from
//! it and releases it back; the release always reports the buffer's full
//! frame capacity as consumed, because a capture stream assumes its user
//! drains everything it was given.

use vstd::prelude::*;

use crate::audio_streams::{BufferDrop, DummyBufferDrop, DummyStreamControl};
use crate::clock::{now_nanos, wait_until_elapsed};

verus! {

/// Errors possible from a `CaptureBuffer` or its stream.
#[derive(Clone, Copy, Debug, PartialEq, Eq, Structural)]
pub enum CaptureBufferError {
    /// The buffer's byte length is not a whole number of frames.
    InvalidLength,
    /// A previously acquired buffer has not been released back yet; only
    /// one acquisition may be outstanding per stream.
    BufferInUse,
}

/// A scoped buffer holding a whole number of captured audio frames.
///
/// The buffer tracks how many bytes have been read so far; on release the
/// buffer's full frame capacity is reported to the stream it came from,
/// however much the caller actually read.
pub struct CaptureBuffer {
    buffer: Vec<u8>,
    offset: usize,
    frame_size: usize,
}

impl CaptureBuffer {
    /// The bytes backing this buffer.
    pub closed spec fn buf(&self) -> Seq<u8> {
        self.buffer@
    }

    /// How many bytes have been read so far.
    pub closed spec fn spec_offset(&self) -> int {
        self.offset as int
    }

    /// Size of one frame in bytes.
    pub closed spec fn spec_frame_size(&self) -> int {
        self.frame_size as int
    }

    /// Well-formedness: the frame size is positive, and both the read
    /// position and the buffer length are whole numbers of frames.
    pub closed spec fn wf(&self) -> bool {
        &&& self.frame_size >= 1
        &&& self.offset <= self.buffer@.len()
        &&& self.offset as int % self.frame_size as int == 0
        &&& self.buffer@.len() as int % self.frame_size as int == 0
    }

    /// Creates a `CaptureBuffer` over the backing bytes in `buffer`.
    /// Fails with `InvalidLength` exactly when the byte length is not a
    /// whole number of frames (a zero length is acceptable).
    pub fn new(frame_size: usize, buffer: Vec<u8>) -> (r: Result<CaptureBuffer, CaptureBufferError>)
        requires
            frame_size >= 1,
        ensures
            buffer@.len() as int % frame_size as int != 0 ==> r == Err::<
                CaptureBuffer,
                CaptureBufferError,
            >(CaptureBufferError::InvalidLength),
            buffer@.len() as int % frame_size as int == 0 ==> {
                &&& r is Ok
                &&& r->Ok_0.wf()
                &&& r->Ok_0.buf() == buffer@
                &&& r->Ok_0.spec_offset() == 0
                &&& r->Ok_0.spec_frame_size() == frame_size
            },
    {
        if buffer.len() % frame_size != 0 {
            return Err(CaptureBufferError::InvalidLength);
        }
        Ok(CaptureBuffer { buffer, offset: 0, frame_size })
    }

    /// Number of audio frames that fit in the buffer.
    pub fn frame_capacity(&self) -> (r: usize)
        requires
            self.wf(),
        ensures
            r == self.buf().len() as int / self.spec_frame_size(),
    {
        self.buffer.len() / self.frame_size
    }

    /// Reads into the leading bytes of `dst`, whole frames only: the
    /// attempt is truncated down to a multiple of the frame size, then
    /// capped by the bytes left to read. Returns how many bytes were
    /// read; never fails.
    pub fn read(&mut self, dst: &mut Vec<u8>) -> (r: Result<usize, CaptureBufferError>)
        requires
            old(self).wf(),
        ensures
            final(self).wf(),
            final(self).buf() == old(self).buf(),
            final(self).spec_frame_size() == old(self).spec_frame_size(),
            ({
                let fs = old(self).spec_frame_size();
                let want = old(dst)@.len() as int / fs * fs;
                let left = old(self).buf().len() - old(self).spec_offset();
                let count = if want <= left {
                    want
                } else {
                    left
                };
                &&& r == Ok::<usize, CaptureBufferError>(count as usize)
                &&& final(self).spec_offset() == old(self).spec_offset() + count
                &&& final(dst)@ == old(self).buf().subrange(
                    old(self).spec_offset(),
                    old(self).spec_offset() + count,
                ) + old(dst)@.subrange(count, old(dst)@.len() as int)
            }),
    {
        let fs = self.frame_size;
        proof {
            crate::audio_streams::lemma_round_down_multiple(dst@.len() as int, fs as int);
            crate::audio_streams::lemma_mod_sub(
                self.buffer@.len() as int,
                self.offset as int,
                fs as int,
            );
        }
        let want: usize = dst.len() / fs * fs;
        let left: usize = self.buffer.len() - self.offset;
        let count: usize = if want <= left {
            want
        } else {
            left
        };
        let base: usize = self.offset;
        let dst_len: usize = dst.len();
        let src_total: usize = self.buffer.len();
        let mut i: usize = 0;
        while i < count
            invariant
                i <= count,
                count <= dst@.len(),
                base + count <= self.buffer@.len(),
                self.buffer@.len() == src_total,
                dst@.len() == dst_len,
                *self == *old(self),
                base == old(self).spec_offset(),
                forall|j: int| 0 <= j < i ==> dst@[j] == self.buffer@[base + j],
                forall|j: int| i <= j < dst@.len() ==> dst@[j] == old(dst)@[j],
            decreases count - i,
        {
            let v = self.buffer[base + i];
            dst.set(i, v);
            i = i + 1;
        }
        proof {
            crate::audio_streams::lemma_mod_add(base as int, count as int, fs as int);
        }
        self.offset = base + count;
        proof {
            assert(dst@ =~= old(self).buf().subrange(base as int, base + count) + old(
                dst,
            )@.subrange(count as int, dst@.len() as int));
        }
        Ok(count)
    }

    /// Reads up to `size` bytes directly through the given callback: the
    /// window covers the next `size` bytes rounded down to whole frames,
    /// the callback receives a copy of its contents, and the read
    /// position advances past the window.
    pub fn copy_cb<F: FnOnce(Vec<u8>)>(&mut self, size: usize, cb: F)
        requires
            old(self).wf(),
            old(self).spec_offset() + (size as int / old(self).spec_frame_size()) * old(
                self,
            ).spec_frame_size() <= old(self).buf().len(),
            forall|v: Vec<u8>|
                v@ == old(self).buf().subrange(
                    old(self).spec_offset(),
                    old(self).spec_offset() + (size as int / old(self).spec_frame_size()) * old(
                        self,
                    ).spec_frame_size(),
                ) ==> call_requires(cb, (v,)),
        ensures
            final(self).wf(),
            final(self).buf() == old(self).buf(),
            final(self).spec_frame_size() == old(self).spec_frame_size(),
            final(self).spec_offset() == old(self).spec_offset() + (size as int / old(
                self,
            ).spec_frame_size()) * old(self).spec_frame_size(),
    {
        let fs = self.frame_size;
        proof {
            crate::audio_streams::lemma_round_down_multiple(size as int, fs as int);
        }
        let len: usize = size / fs * fs;
        let base: usize = self.offset;
        let whole: usize = self.buffer.len();
        let mut chunk: Vec<u8> = Vec::new();
        let mut i: usize = 0;
        while i < len
            invariant
                i <= len,
                base + len <= self.buffer@.len(),
                self.buffer@.len() == whole,
                chunk@.len() == i,
                *self == *old(self),
                base == old(self).spec_offset(),
                forall|j: int| 0 <= j < i ==> chunk@[j] == self.buffer@[base + j],
            decreases len - i,
        {
            let v = self.buffer[base + i];
            chunk.push(v);
            i = i + 1;
        }
        proof {
            assert(chunk@ =~= old(self).buf().subrange(base as int, base + len));
            crate::audio_streams::lemma_mod_add(base as int, len as int, fs as int);
        }
        cb(chunk);
        self.offset = base + len;
    }

    /// Releases the buffer: hands the backing bytes back to the caller
    /// together with the consumed frame count. That count is always the
    /// buffer's full frame capacity — capture streams assume the caller
    /// drained what it was given, however much it actually read — and
    /// the same count is reported to `handler`. Every acquisition must
    /// end here, on every path.
    pub fn release<D: BufferDrop>(self, handler: &mut D) -> (r: (Vec<u8>, usize))
        requires
            self.wf(),
        ensures
            r.0@ == self.buf(),
            r.1 == self.buf().len() as int / self.spec_frame_size(),
    {
        let nframes = self.frame_capacity();
        handler.trigger(nframes);
        let CaptureBuffer { buffer, offset: _, frame_size: _ } = self;
        (buffer, nframes)
    }
}

/// A stream hands out capture buffers one at a time.
///
/// The contract makes two concurrently live acquisitions impossible: while
/// one buffer is outstanding the next acquisition fails, and a successful
/// acquisition always starts with no buffer outstanding.
pub trait CaptureBufferStream {
    /// Internal consistency of the stream.
    spec fn stream_wf(&self) -> bool;

    /// Whether an acquired buffer has not been released back yet.
    spec fn outstanding(&self) -> bool;

    /// Size in bytes of the frames this stream exchanges.
    spec fn stream_frame_size(&self) -> int;

    /// The sample bytes the stream currently holds in its rotation.
    spec fn stored_samples(&self) -> Seq<u8>;

    /// Acquires the next buffer of captured frames, blocking until the
    /// stream has produced it. A buffer is owed whenever none is
    /// outstanding, and it lends out exactly the stream's stored bytes,
    /// from the start.
    fn next_capture_buffer(&mut self) -> (r: Result<CaptureBuffer, CaptureBufferError>)
        requires
            old(self).stream_wf(),
        ensures
            final(self).stream_wf(),
            final(self).stream_frame_size() == old(self).stream_frame_size(),
            old(self).outstanding() ==> r == Err::<CaptureBuffer, CaptureBufferError>(
                CaptureBufferError::BufferInUse,
            ),
            !old(self).outstanding() ==> r is Ok,
            r is Ok ==> {
                &&& !old(self).outstanding()
                &&& final(self).outstanding()
                &&& r->Ok_0.wf()
                &&& r->Ok_0.spec_offset() == 0
                &&& r->Ok_0.spec_frame_size() == old(self).stream_frame_size()
                &&& r->Ok_0.buf() == old(self).stored_samples()
            },
    ;
}

/// Stream that produces silent (all-zero) capture samples at the
/// real-time rate: it blocks acquisition until the next buffer's capture
/// time has passed.
pub struct DummyCaptureStream {
    buffer: Option<Vec<u8>>,
    frame_size: usize,
    interval_nanos: u64,
    next_frame_nanos: u64,
    start_nanos: Option<u64>,
    buffer_drop: DummyBufferDrop,
}

impl DummyCaptureStream {
    /// Size of one frame in bytes (two bytes per sample per channel).
    pub closed spec fn spec_frame_size(&self) -> int {
        self.frame_size as int
    }

    /// Capture time of one buffer in nanoseconds.
    pub closed spec fn spec_interval_nanos(&self) -> int {
        self.interval_nanos as int
    }

    /// Whether the stream's buffer is currently lent out.
    pub closed spec fn held(&self) -> bool {
        self.buffer is None
    }

    /// Whether the pacing clock has started: it starts on the first
    /// acquisition, which therefore never waits.
    pub closed spec fn clock_started(&self) -> bool {
        self.start_nanos is Some
    }

    /// The bytes currently stored in the stream (empty while lent out).
    pub closed spec fn stored(&self) -> Seq<u8> {
        match self.buffer {
            Some(b) => b@,
            None => Seq::empty(),
        }
    }

    /// Well-formedness: positive frame size, and a stored buffer holds a
    /// whole number of frames.
    pub closed spec fn wf(&self) -> bool {
        &&& self.frame_size >= 1
        &&& match self.buffer {
            Some(b) => b@.len() as int % self.frame_size as int == 0,
            None => true,
        }
    }

    /// A silent capture stream for 16-bit little-endian samples: one
    /// rotating buffer of `buffer_size` frames, paced at `frame_rate`
    /// frames per second.
    pub fn new(num_channels: usize, frame_rate: usize, buffer_size: usize) -> (s:
        DummyCaptureStream)
        requires
            num_channels >= 1,
            frame_rate >= 1,
            2 * num_channels <= usize::MAX,
            buffer_size * (2 * num_channels) <= usize::MAX,
            buffer_size * 1_000_000_000 <= u64::MAX,
        ensures
            s.wf(),
            !s.held(),
            s.spec_frame_size() == 2 * num_channels,
            s.stored().len() == buffer_size * (2 * num_channels),
            forall|i: int| 0 <= i < s.stored().len() ==> s.stored()[i] == 0u8,
            s.spec_interval_nanos() == buffer_size * 1000 / frame_rate as int * 1_000_000,
            !s.clock_started(),
    {
        let frame_size: usize = 2 * num_channels;
        // One buffer's capture time, truncated to whole milliseconds.
        let interval_millis: u64 = buffer_size as u64 * 1000 / frame_rate as u64;
        proof {
            vstd::arithmetic::div_mod::lemma_div_is_ordered_by_denominator(
                buffer_size as u64 * 1000,
                1,
                frame_rate as int,
            );
        }
        let interval: u64 = interval_millis * 1_000_000;
        let total: usize = buffer_size * frame_size;
        let mut buffer: Vec<u8> = Vec::new();
        while buffer.len() < total
            invariant
                buffer@.len() <= total,
                forall|i: int| 0 <= i < buffer@.len() ==> buffer@[i] == 0u8,
            decreases total - buffer@.len(),
        {
            buffer.push(0u8);
        }
        proof {
            vstd::arithmetic::div_mod::lemma_mod_multiples_basic(
                buffer_size as int,
                frame_size as int,
            );
            vstd::arithmetic::mul::lemma_mul_is_commutative(buffer_size as int, frame_size as int);
        }
        DummyCaptureStream {
            buffer: Some(buffer),
            frame_size,
            interval_nanos: interval,
            next_frame_nanos: interval,
            start_nanos: None,
            buffer_drop: DummyBufferDrop { which_buffer: false },
        }
    }

    /// Blocks until the previous buffer's capture time has passed, then
    /// advances the schedule by one buffer interval. On the first call it
    /// only starts the clock.
    fn pace(&mut self)
        ensures
            final(self).buffer == old(self).buffer,
            final(self).frame_size == old(self).frame_size,
            final(self).interval_nanos == old(self).interval_nanos,
            final(self).buffer_drop == old(self).buffer_drop,
    {
        match self.start_nanos {
            None => {
                self.start_nanos = Some(now_nanos());
                self.next_frame_nanos = self.interval_nanos;
            },
            Some(start) => {
                wait_until_elapsed(start, self.next_frame_nanos);
                self.next_frame_nanos = self.next_frame_nanos.saturating_add(self.interval_nanos);
            },
        }
    }

    /// Puts a released buffer back into the stream's rotation, reporting
    /// the completion to the stream's own callback.
    pub fn release_buffer(&mut self, buf: CaptureBuffer)
        requires
            old(self).wf(),
            buf.wf(),
            buf.spec_frame_size() == old(self).spec_frame_size(),
        ensures
            final(self).wf(),
            !final(self).held(),
            final(self).stored() == buf.buf(),
            final(self).spec_frame_size() == old(self).spec_frame_size(),
            final(self).spec_interval_nanos() == old(self).spec_interval_nanos(),
    {
        let (v, _nframes) = buf.release(&mut self.buffer_drop);
        self.buffer = Some(v);
    }
}

impl CaptureBufferStream for DummyCaptureStream {
    open spec fn stream_wf(&self) -> bool {
        self.wf()
    }

    open spec fn outstanding(&self) -> bool {
        self.held()
    }

    open spec fn stream_frame_size(&self) -> int {
        self.spec_frame_size()
    }

    open spec fn stored_samples(&self) -> Seq<u8> {
        self.stored()
    }

    fn next_capture_buffer(&mut self) -> (r: Result<CaptureBuffer, CaptureBufferError>) {
        match self.buffer.take() {
            None => Err(CaptureBufferError::BufferInUse),
            Some(b) => {
                self.pace();
                match CaptureBuffer::new(self.frame_size, b) {
                    Ok(p) => Ok(p),
                    Err(e) => Err(e),
                }
            },
        }
    }
}

} // verus!
