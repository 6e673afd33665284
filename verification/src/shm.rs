//! The shared double-buffer header and the sample region.
//!
//! A playback or capture stream exchanges samples with the audio server
//! through a memory-mapped region holding two rotating buffer slots. The
//! header tracks, for each slot, where its bytes live inside the samples
//! region and how far the writer and the reader have progressed. This module
//! models that header as plain data: every field mirrors one shared-memory
//! cell, and the operations below are the only paths through which slot
//! ownership changes. The unverified mapping layer reads the real cells into
//! a [`CrasAudioHeader`] value before a decision and stores back the fields
//! an operation changed.

use vstd::prelude::*;

verus! {

/// Shared-memory layout errors: a server-provided layout the client cannot
/// safely use, detected at the point of the offset computation.
#[derive(Clone, Copy, Debug, PartialEq, Eq, Structural)]
pub enum ShmError {
    /// A buffer offset lies beyond the end of the samples region.
    OffsetOutOfRange,
    /// A buffer's extent would be too short to hold one full frame.
    BufferTooShort,
    /// The two slots' extents would overlap.
    BufferOverlap,
    /// A read/write offset exceeds the slot's usable length.
    RwOffsetOutOfRange,
    /// A committed frame count does not fit in the nominal buffer length.
    FrameCountTooLarge,
    /// A slot index other than 0 or 1.
    IndexOutOfRange,
    /// A frame size of zero, with which no offset arithmetic is possible.
    InvalidFrameSize,
}

/// Per-slot fields of the double-buffer header.
#[derive(Clone, Copy, Debug, PartialEq, Eq, Structural)]
pub struct Slot {
    /// Byte offset into the samples region where this slot's data begins.
    pub buffer_offset: u32,
    /// Bytes consumed so far within this slot's extent.
    pub read_offset: u32,
    /// Bytes written so far within this slot's extent.
    pub write_offset: u32,
}

impl Slot {
    /// A fresh slot with every field zero, as a newly mapped header reads.
    pub fn new() -> (s: Slot)
        ensures
            s == (Slot { buffer_offset: 0, read_offset: 0, write_offset: 0 }),
    {
        Slot { buffer_offset: 0, read_offset: 0, write_offset: 0 }
    }
}

/// The shared double-buffer header, modelled as plain data.
///
/// The fields are public because the peer process mutates the same cells
/// concurrently: any value can appear in them, and tests and the mapping
/// layer set them directly. The operations below are the only code paths of
/// this library that change `write_buf_idx` or `read_buf_idx`.
#[derive(Clone, Copy, Debug, PartialEq, Eq, Structural)]
pub struct CrasAudioHeader {
    /// Length in bytes of the samples region paired with this header.
    pub samples_len: usize,
    /// Nominal buffer length in bytes, shared by both slots.
    pub used_size: u32,
    /// Size of one frame in bytes.
    pub frame_size: u32,
    /// Which slot is currently being drained; only its lowest bit counts.
    pub read_buf_idx: u32,
    /// Which slot is currently being filled; only its lowest bit counts.
    pub write_buf_idx: u32,
    /// Slot with index 0.
    pub slot0: Slot,
    /// Slot with index 1.
    pub slot1: Slot,
}

impl CrasAudioHeader {
    /// The slot with index `i` (0 or 1).
    pub open spec fn slot(self, i: int) -> Slot {
        if i == 0 {
            self.slot0
        } else {
            self.slot1
        }
    }

    /// Index of the slot currently being filled.
    pub open spec fn write_idx(self) -> int {
        (self.write_buf_idx % 2) as int
    }

    /// Index of the slot currently being drained.
    pub open spec fn read_idx(self) -> int {
        (self.read_buf_idx % 2) as int
    }

    /// The length available to a buffer at `offset`: the nominal length,
    /// capped by the end of the samples region.
    pub open spec fn capped_len(self, offset: int) -> int {
        if self.used_size as int <= self.samples_len - offset {
            self.used_size as int
        } else {
            self.samples_len - offset
        }
    }

    /// The usable length of a buffer at `offset`: the capped length rounded
    /// down to a whole number of frames.
    pub open spec fn spec_buffer_len(self, offset: int) -> int {
        (self.capped_len(offset) / self.frame_size as int) * self.frame_size as int
    }

    /// A buffer may start at `offset` only if it lies within the samples
    /// region and still has room for at least one full frame.
    pub open spec fn offset_valid(self, offset: int) -> bool {
        &&& 0 <= offset <= self.samples_len
        &&& self.capped_len(offset) >= self.frame_size
    }

    /// The error that `buffer_len_from_offset` reports for an invalid offset.
    pub open spec fn offset_err(self, offset: int) -> ShmError {
        if offset > self.samples_len {
            ShmError::OffsetOutOfRange
        } else {
            ShmError::BufferTooShort
        }
    }

    /// First byte of the extent a buffer at `offset` would cover.
    pub open spec fn extent_start(self, i: int) -> int {
        self.slot(i).buffer_offset as int
    }

    /// One past the last byte of slot `i`'s extent, at its stored offset.
    pub open spec fn extent_end(self, i: int) -> int {
        self.extent_start(i) + self.spec_buffer_len(self.extent_start(i))
    }

    /// Whether a buffer for slot `i` placed at `offset` would share bytes
    /// with the other slot's extent (half-open ranges intersecting).
    pub open spec fn overlaps_other(self, i: int, offset: int) -> bool {
        offset < self.extent_end(1 - i) && self.extent_start(1 - i) < offset
            + self.spec_buffer_len(offset)
    }

    /// What checking a candidate `offset` for slot `i` yields: the offset's
    /// own extent must be valid, the other slot's stored extent must be
    /// valid, and the two half-open extents must not intersect.
    pub open spec fn check_offset_spec(self, i: int, offset: int) -> Result<(), ShmError> {
        if !self.offset_valid(offset) {
            Err(self.offset_err(offset))
        } else if !self.offset_valid(self.extent_start(1 - i)) {
            Err(self.offset_err(self.extent_start(1 - i)))
        } else if self.overlaps_other(i, offset) {
            Err(ShmError::BufferOverlap)
        } else {
            Ok(())
        }
    }

    /// A layout the client can safely use: both slots' stored extents are
    /// valid and they do not overlap. This is the invariant the checks
    /// below enforce before any offset from the header is trusted.
    pub open spec fn layout_ok(self) -> bool {
        &&& self.offset_valid(self.extent_start(0))
        &&& self.offset_valid(self.extent_start(1))
        &&& !self.overlaps_other(0, self.extent_start(0))
    }

    /// The error reported when the stored layout, inspected starting from
    /// slot `i`, is not usable.
    pub open spec fn layout_err(self, i: int) -> ShmError {
        if !self.offset_valid(self.extent_start(i)) {
            self.offset_err(self.extent_start(i))
        } else if !self.offset_valid(self.extent_start(1 - i)) {
            self.offset_err(self.extent_start(1 - i))
        } else {
            ShmError::BufferOverlap
        }
    }

    /// `self` with slot `i` replaced by `s`.
    pub open spec fn with_slot(self, i: int, s: Slot) -> CrasAudioHeader {
        if i == 0 {
            CrasAudioHeader { slot0: s, ..self }
        } else {
            CrasAudioHeader { slot1: s, ..self }
        }
    }

    /// The header state after committing `byte_count` written bytes: the
    /// write slot records `byte_count` written and zero read bytes, and the
    /// writer rotates to the other slot.
    pub open spec fn spec_commit_written(self, byte_count: u32) -> CrasAudioHeader {
        let w = self.write_idx();
        let committed = self.with_slot(
            w,
            Slot { write_offset: byte_count, read_offset: 0, ..self.slot(w) },
        );
        CrasAudioHeader { write_buf_idx: (1 - w) as u32, ..committed }
    }

    /// The header state after committing `byte_count` read bytes: the read
    /// offset advances, and once it reaches the write offset the slot is
    /// recycled (both offsets reset) and the reader rotates.
    pub open spec fn spec_commit_read(self, byte_count: u32) -> CrasAudioHeader {
        let r = self.read_idx();
        let advanced = self.slot(r).read_offset + byte_count;
        if advanced >= self.slot(r).write_offset {
            let recycled = self.with_slot(
                r,
                Slot { read_offset: 0, write_offset: 0, ..self.slot(r) },
            );
            CrasAudioHeader { read_buf_idx: (1 - r) as u32, ..recycled }
        } else {
            self.with_slot(r, Slot { read_offset: advanced as u32, ..self.slot(r) })
        }
    }

    /// Whether committing `frame_count` written frames succeeds: the byte
    /// count must fit the nominal buffer length, the layout must be
    /// usable, and the byte count must fit the write slot's usable
    /// length.
    pub open spec fn commit_written_ok(self, frame_count: u32) -> bool {
        let bc = frame_count as int * self.frame_size as int;
        &&& bc <= self.used_size
        &&& self.layout_ok()
        &&& bc <= self.spec_buffer_len(self.extent_start(self.write_idx()))
    }

    /// The header after a written-frame commit is attempted: the committed
    /// state on success, the header untouched on failure (a failed commit
    /// is reported but must not block the buffer's release).
    pub open spec fn commit_written_result(self, frame_count: u32) -> CrasAudioHeader {
        if self.commit_written_ok(frame_count) {
            self.spec_commit_written((frame_count as int * self.frame_size as int) as u32)
        } else {
            self
        }
    }

    /// Whether committing `frame_count` read frames is representable: the
    /// advanced read marker must fit in 32 bits.
    pub open spec fn commit_read_fits(self, frame_count: u32) -> bool {
        self.slot(self.read_idx()).read_offset + frame_count as int * self.frame_size as int
            <= u32::MAX
    }

    /// The header after a read-frame commit is attempted: the committed
    /// state when the advance is representable, the header untouched
    /// otherwise.
    pub open spec fn commit_read_result(self, frame_count: u32) -> CrasAudioHeader {
        if self.commit_read_fits(frame_count) {
            self.spec_commit_read((frame_count as int * self.frame_size as int) as u32)
        } else {
            self
        }
    }

    /// Number of whole frames the reader may still consume from the read
    /// slot; a write marker behind the read marker counts as nothing.
    pub open spec fn spec_readable_frames(self) -> int {
        let s = self.slot(self.read_idx());
        if s.write_offset >= s.read_offset {
            (s.write_offset - s.read_offset) / self.frame_size as int
        } else {
            0
        }
    }

    /// A fresh header over a samples region of `samples_len` bytes, with
    /// every shared field zero, as a newly created mapping reads.
    pub fn new(samples_len: usize) -> (h: CrasAudioHeader)
        ensures
            h.samples_len == samples_len,
            h.used_size == 0,
            h.frame_size == 0,
            h.read_buf_idx == 0,
            h.write_buf_idx == 0,
            h.slot0 == (Slot { buffer_offset: 0, read_offset: 0, write_offset: 0 }),
            h.slot1 == (Slot { buffer_offset: 0, read_offset: 0, write_offset: 0 }),
    {
        CrasAudioHeader {
            samples_len,
            used_size: 0,
            frame_size: 0,
            read_buf_idx: 0,
            write_buf_idx: 0,
            slot0: Slot::new(),
            slot1: Slot::new(),
        }
    }

    /// Calculates the length of a buffer starting at the given offset. The
    /// length is `used_size`, unless the offset is closer than `used_size`
    /// to the end of the samples region, in which case the remainder is
    /// used; the result is rounded down to a multiple of `frame_size`.
    ///
    /// Errors if the offset exceeds the region length or if the resulting
    /// length could not hold one full frame.
    pub fn buffer_len_from_offset(&self, offset: usize) -> (r: Result<usize, ShmError>)
        requires
            self.frame_size >= 1,
        ensures
            offset > self.samples_len ==> r == Err::<usize, ShmError>(ShmError::OffsetOutOfRange),
            offset <= self.samples_len && self.capped_len(offset as int) < self.frame_size ==> r
                == Err::<usize, ShmError>(ShmError::BufferTooShort),
            self.offset_valid(offset as int) ==> {
                &&& r is Ok
                &&& r->Ok_0 == self.spec_buffer_len(offset as int)
            },
            r is Ok ==> {
                &&& r->Ok_0 <= self.used_size
                &&& r->Ok_0 % (self.frame_size as usize) == 0
                &&& r->Ok_0 >= self.frame_size
                &&& offset + r->Ok_0 <= self.samples_len
            },
    {
        if offset > self.samples_len {
            return Err(ShmError::OffsetOutOfRange);
        }
        let used: usize = self.used_size as usize;
        let fs: usize = self.frame_size as usize;
        let avail: usize = self.samples_len - offset;
        let capped: usize = if used <= avail {
            used
        } else {
            avail
        };
        if capped < fs {
            return Err(ShmError::BufferTooShort);
        }
        proof {
            lemma_round_down_to_frames(capped as int, fs as int);
        }
        let len: usize = capped / fs * fs;
        Ok(len)
    }

    /// Checks that `offset` is a valid place for slot `idx`'s buffer: its
    /// extent must stay within the samples region, hold at least one frame,
    /// and not intersect the other slot's stored extent. Accepts extents
    /// that touch back-to-back; rejects any pair that shares a byte.
    pub fn check_buffer_offset(&self, idx: usize, offset: usize) -> (r: Result<(), ShmError>)
        requires
            self.frame_size >= 1,
        ensures
            idx >= 2 ==> r == Err::<(), ShmError>(ShmError::IndexOutOfRange),
            idx < 2 ==> r == self.check_offset_spec(idx as int, offset as int),
    {
        if idx >= 2 {
            return Err(ShmError::IndexOutOfRange);
        }
        let len = self.buffer_len_from_offset(offset)?;
        let other_idx: usize = 1 - idx;
        let other_start: usize = if other_idx == 0 {
            self.slot0.buffer_offset as usize
        } else {
            self.slot1.buffer_offset as usize
        };
        let other_len = self.buffer_len_from_offset(other_start)?;
        if offset < other_start + other_len && other_start < offset + len {
            return Err(ShmError::BufferOverlap);
        }
        Ok(())
    }

    /// The stored offset of slot `idx`'s buffer, after checking that the
    /// whole stored layout is one the client can safely use.
    fn get_buffer_offset(&self, idx: usize) -> (r: Result<usize, ShmError>)
        requires
            self.frame_size >= 1,
        ensures
            idx >= 2 ==> r == Err::<usize, ShmError>(ShmError::IndexOutOfRange),
            idx < 2 && self.layout_ok() ==> r == Ok::<usize, ShmError>(
                self.slot(idx as int).buffer_offset as usize,
            ),
            idx < 2 && !self.layout_ok() ==> r == Err::<usize, ShmError>(
                self.layout_err(idx as int),
            ),
    {
        if idx >= 2 {
            return Err(ShmError::IndexOutOfRange);
        }
        let offset: usize = if idx == 0 {
            self.slot0.buffer_offset as usize
        } else {
            self.slot1.buffer_offset as usize
        };
        self.check_buffer_offset(idx, offset)?;
        Ok(offset)
    }

    /// The base of the write buffer and its usable length, ignoring any
    /// write offset already recorded: a caller always fills a fresh slot
    /// from its start.
    pub fn get_write_offset_and_len(&self) -> (r: Result<(usize, usize), ShmError>)
        requires
            self.frame_size >= 1,
        ensures
            self.layout_ok() ==> {
                &&& r is Ok
                &&& r->Ok_0.0 == self.extent_start(self.write_idx())
                &&& r->Ok_0.1 == self.spec_buffer_len(self.extent_start(self.write_idx()))
            },
            !self.layout_ok() ==> r == Err::<(usize, usize), ShmError>(
                self.layout_err(self.write_idx()),
            ),
    {
        let idx: usize = (self.write_buf_idx % 2) as usize;
        let offset = self.get_buffer_offset(idx)?;
        let len = self.buffer_len_from_offset(offset)?;
        Ok((offset, len))
    }

    /// The stored offset of the read buffer, after checking the layout.
    pub fn get_read_buffer_offset(&self) -> (r: Result<usize, ShmError>)
        requires
            self.frame_size >= 1,
        ensures
            self.layout_ok() ==> r == Ok::<usize, ShmError>(
                self.slot(self.read_idx()).buffer_offset as usize,
            ),
            !self.layout_ok() ==> r == Err::<usize, ShmError>(self.layout_err(self.read_idx())),
    {
        let idx: usize = (self.read_buf_idx % 2) as usize;
        self.get_buffer_offset(idx)
    }

    /// Number of bytes per frame.
    pub fn get_frame_size(&self) -> (r: usize)
        ensures
            r == self.frame_size,
    {
        self.frame_size as usize
    }

    /// Nominal buffer length in bytes.
    pub fn get_used_size(&self) -> (r: usize)
        ensures
            r == self.used_size,
    {
        self.used_size as usize
    }

    /// Index of the slot currently being filled (0 or 1).
    pub fn get_write_buf_idx(&self) -> (r: u32)
        ensures
            r == self.write_idx(),
    {
        self.write_buf_idx % 2
    }

    /// Index of the slot currently being drained (0 or 1).
    pub fn get_read_buf_idx(&self) -> (r: u32)
        ensures
            r == self.read_idx(),
    {
        self.read_buf_idx % 2
    }

    /// Rotates the writer to the other slot.
    pub fn switch_write_buf_idx(&mut self)
        ensures
            *final(self) == (CrasAudioHeader {
                write_buf_idx: (1 - old(self).write_idx()) as u32,
                ..*old(self)
            }),
    {
        let cur: u32 = self.write_buf_idx % 2;
        self.write_buf_idx = if cur == 0 {
            1
        } else {
            0
        };
    }

    /// Rotates the reader to the other slot.
    pub fn switch_read_buf_idx(&mut self)
        ensures
            *final(self) == (CrasAudioHeader {
                read_buf_idx: (1 - old(self).read_idx()) as u32,
                ..*old(self)
            }),
    {
        let cur: u32 = self.read_buf_idx % 2;
        self.read_buf_idx = if cur == 0 {
            1
        } else {
            0
        };
    }

    /// Checks that `offset` can serve as a read or write marker for slot
    /// `idx`: it must not exceed the slot's usable length. A marker equal
    /// to the length leaves nothing to read or write.
    pub fn check_rw_offset(&self, idx: usize, offset: u32) -> (r: Result<(), ShmError>)
        requires
            self.frame_size >= 1,
        ensures
            idx >= 2 ==> r == Err::<(), ShmError>(ShmError::IndexOutOfRange),
            idx < 2 && !self.layout_ok() ==> r == Err::<(), ShmError>(
                self.layout_err(idx as int),
            ),
            idx < 2 && self.layout_ok() ==> r == (if offset > self.spec_buffer_len(
                self.extent_start(idx as int),
            ) {
                Err::<(), ShmError>(ShmError::RwOffsetOutOfRange)
            } else {
                Ok::<(), ShmError>(())
            }),
    {
        let buffer_offset = self.get_buffer_offset(idx)?;
        let buffer_len = self.buffer_len_from_offset(buffer_offset)?;
        if offset as usize > buffer_len {
            return Err(ShmError::RwOffsetOutOfRange);
        }
        Ok(())
    }

    /// Sets slot `idx`'s write marker to `offset` bytes, after validating
    /// it against the slot's usable length. On error the header is
    /// unchanged.
    pub fn set_write_offset(&mut self, idx: usize, offset: u32) -> (r: Result<(), ShmError>)
        requires
            old(self).frame_size >= 1,
        ensures
            r == old(self).check_rw_offset_spec(idx as int, offset, idx < 2),
            r is Err ==> *final(self) == *old(self),
            r is Ok ==> *final(self) == old(self).with_slot(
                idx as int,
                Slot { write_offset: offset, ..old(self).slot(idx as int) },
            ),
    {
        self.check_rw_offset(idx, offset)?;
        if idx == 0 {
            self.slot0.write_offset = offset;
        } else {
            self.slot1.write_offset = offset;
        }
        Ok(())
    }

    /// Sets slot `idx`'s read marker to `offset` bytes, after validating
    /// it against the slot's usable length. On error the header is
    /// unchanged.
    pub fn set_read_offset(&mut self, idx: usize, offset: u32) -> (r: Result<(), ShmError>)
        requires
            old(self).frame_size >= 1,
        ensures
            r == old(self).check_rw_offset_spec(idx as int, offset, idx < 2),
            r is Err ==> *final(self) == *old(self),
            r is Ok ==> *final(self) == old(self).with_slot(
                idx as int,
                Slot { read_offset: offset, ..old(self).slot(idx as int) },
            ),
    {
        self.check_rw_offset(idx, offset)?;
        if idx == 0 {
            self.slot0.read_offset = offset;
        } else {
            self.slot1.read_offset = offset;
        }
        Ok(())
    }

    /// Moves slot `idx`'s buffer to start at `offset`, after checking that
    /// the new extent is valid and does not intersect the other slot's.
    /// On error the header is unchanged.
    pub fn set_buffer_offset(&mut self, idx: usize, offset: usize) -> (r: Result<(), ShmError>)
        requires
            old(self).frame_size >= 1,
            offset <= u32::MAX,
        ensures
            idx >= 2 ==> r == Err::<(), ShmError>(ShmError::IndexOutOfRange) && *final(self)
                == *old(self),
            idx < 2 ==> r == old(self).check_offset_spec(idx as int, offset as int),
            r is Err ==> *final(self) == *old(self),
            r is Ok ==> *final(self) == old(self).with_slot(
                idx as int,
                Slot { buffer_offset: offset as u32, ..old(self).slot(idx as int) },
            ),
    {
        self.check_buffer_offset(idx, offset)?;
        if idx == 0 {
            self.slot0.buffer_offset = offset as u32;
        } else {
            self.slot1.buffer_offset = offset as u32;
        }
        Ok(())
    }

    /// What a read/write-marker check yields; `idx_ok` tells whether the
    /// slot index was in range.
    pub open spec fn check_rw_offset_spec(self, i: int, offset: u32, idx_ok: bool) -> Result<
        (),
        ShmError,
    > {
        if !idx_ok {
            Err(ShmError::IndexOutOfRange)
        } else if !self.layout_ok() {
            Err(self.layout_err(i))
        } else if offset > self.spec_buffer_len(self.extent_start(i)) {
            Err(ShmError::RwOffsetOutOfRange)
        } else {
            Ok(())
        }
    }

    /// Commits `frame_count` written frames: records the byte count as the
    /// write slot's write marker, marks the slot fully unread, and rotates
    /// the writer to the other slot. Must be called exactly once per filled
    /// slot. On error the header is unchanged.
    pub fn commit_written_frames(&mut self, frame_count: u32) -> (r: Result<(), ShmError>)
        requires
            old(self).frame_size >= 1,
        ensures
            ({
                let bc = frame_count as int * old(self).frame_size as int;
                let w = old(self).write_idx();
                &&& (bc > old(self).used_size ==> r == Err::<(), ShmError>(
                    ShmError::FrameCountTooLarge,
                ))
                &&& (bc <= old(self).used_size ==> r == old(self).check_rw_offset_spec(
                    w,
                    bc as u32,
                    true,
                ))
                &&& (r is Err ==> *final(self) == *old(self))
                &&& (r is Ok ==> *final(self) == old(self).spec_commit_written(bc as u32))
            }),
    {
        proof {
            lemma_u32_product_fits_u64(frame_count, self.frame_size);
        }
        let byte_count: u64 = frame_count as u64 * self.frame_size as u64;
        if byte_count > self.used_size as u64 {
            return Err(ShmError::FrameCountTooLarge);
        }
        let idx: usize = (self.write_buf_idx % 2) as usize;
        self.set_write_offset(idx, byte_count as u32)?;
        proof {
            lemma_round_down_to_frames(
                self.capped_len(self.extent_start(idx as int)) as int,
                self.frame_size as int,
            );
        }
        self.set_read_offset(idx, 0)?;
        self.switch_write_buf_idx();
        Ok(())
    }

    /// Number of whole frames the reader may consume from the read slot.
    /// A write marker behind the read marker yields zero rather than an
    /// error: the peer may expose such a state transiently.
    pub fn get_readable_frames(&self) -> (r: Result<usize, ShmError>)
        requires
            self.frame_size >= 1,
        ensures
            r == Ok::<usize, ShmError>(self.spec_readable_frames() as usize),
    {
        let idx: usize = (self.read_buf_idx % 2) as usize;
        let (write_offset, read_offset): (u32, u32) = if idx == 0 {
            (self.slot0.write_offset, self.slot0.read_offset)
        } else {
            (self.slot1.write_offset, self.slot1.read_offset)
        };
        if write_offset >= read_offset {
            Ok(((write_offset - read_offset) / self.frame_size) as usize)
        } else {
            Ok(0)
        }
    }

    /// Commits `frame_count` read frames: advances the read slot's read
    /// marker; once it reaches the write marker the slot is recycled (both
    /// markers reset to zero) and the reader rotates to the other slot.
    pub fn commit_read_frames(&mut self, frame_count: u32) -> (r: Result<(), ShmError>)
        requires
            old(self).slot(old(self).read_idx()).read_offset + frame_count as int * old(
                self,
            ).frame_size as int <= u32::MAX,
        ensures
            r is Ok,
            *final(self) == old(self).spec_commit_read(
                (frame_count as int * old(self).frame_size as int) as u32,
            ),
    {
        let idx: usize = (self.read_buf_idx % 2) as usize;
        let (write_offset, read_offset): (u32, u32) = if idx == 0 {
            (self.slot0.write_offset, self.slot0.read_offset)
        } else {
            (self.slot1.write_offset, self.slot1.read_offset)
        };
        proof {
            lemma_u32_product_fits_u64(frame_count, self.frame_size);
        }
        let advanced64: u64 = read_offset as u64 + frame_count as u64 * self.frame_size as u64;
        let advanced: u32 = advanced64 as u32;
        if advanced >= write_offset {
            if idx == 0 {
                self.slot0.read_offset = 0;
                self.slot0.write_offset = 0;
            } else {
                self.slot1.read_offset = 0;
                self.slot1.write_offset = 0;
            }
            self.switch_read_buf_idx();
        } else {
            if idx == 0 {
                self.slot0.read_offset = advanced;
            } else {
                self.slot1.read_offset = advanced;
            }
        }
        Ok(())
    }
}

/// After a successful written-frame commit, the writer's window is the
/// other slot: a fresh `get_write_offset_and_len` observes the offset and
/// usable length of the slot that was not just filled, and the layout
/// stays exactly as usable as it was.
pub proof fn lemma_commit_written_switches_slot(h: CrasAudioHeader, byte_count: u32)
    ensures
        ({
            let h2 = h.spec_commit_written(byte_count);
            &&& h2.write_idx() == 1 - h.write_idx()
            &&& h2.extent_start(h2.write_idx()) == h.extent_start(1 - h.write_idx())
            &&& h2.spec_buffer_len(h2.extent_start(h2.write_idx())) == h.spec_buffer_len(
                h.extent_start(1 - h.write_idx()),
            )
            &&& h2.layout_ok() == h.layout_ok()
        }),
{
}

/// The samples region paired with a header: a plain byte array of fixed
/// length, exclusively owned by whichever side the handshake says holds
/// the active slot. This models the mapped region; the I/O layer copies
/// a slot's byte window between it and the real mapping.
pub struct CrasAudioBuffer {
    data: Vec<u8>,
}

impl View for CrasAudioBuffer {
    type V = Seq<u8>;

    closed spec fn view(&self) -> Seq<u8> {
        self.data@
    }
}

impl CrasAudioBuffer {
    /// A zeroed samples region of `len` bytes, as a fresh mapping reads.
    pub fn new(len: usize) -> (b: CrasAudioBuffer)
        ensures
            b@.len() == len,
            forall|i: int| 0 <= i < len ==> b@[i] == 0u8,
    {
        let mut data: Vec<u8> = Vec::new();
        while data.len() < len
            invariant
                data@.len() <= len,
                forall|i: int| 0 <= i < data@.len() ==> data@[i] == 0u8,
            decreases len - data@.len(),
        {
            data.push(0u8);
        }
        CrasAudioBuffer { data }
    }

    /// Length of the region in bytes.
    pub fn len(&self) -> (r: usize)
        ensures
            r == self@.len(),
    {
        self.data.len()
    }

    /// Writes `src` into the region starting at `offset`.
    pub fn write_at(&mut self, offset: usize, src: &Vec<u8>)
        requires
            offset + src@.len() <= old(self)@.len(),
        ensures
            final(self)@ == old(self)@.subrange(0, offset as int) + src@ + old(self)@.subrange(
                offset + src@.len(),
                old(self)@.len() as int,
            ),
    {
        let n: usize = src.len();
        let total: usize = self.data.len();
        let mut i: usize = 0;
        while i < n
            invariant
                i <= n,
                n == src@.len(),
                offset + n <= self.data@.len(),
                self.data@.len() == total,
                forall|j: int| 0 <= j < i ==> self.data@[offset + j] == src@[j],
                forall|j: int|
                    0 <= j < self.data@.len() && !(offset <= j < offset + i) ==> self.data@[j]
                        == old(self)@[j],
            decreases n - i,
        {
            let v = src[i];
            self.data.set(offset + i, v);
            i = i + 1;
        }
        proof {
            assert(self.data@ =~= old(self)@.subrange(0, offset as int) + src@ + old(
                self,
            )@.subrange(offset + src@.len(), old(self)@.len() as int));
        }
    }

    /// Reads `len` bytes of the region starting at `offset`.
    pub fn read_at(&self, offset: usize, len: usize) -> (r: Vec<u8>)
        requires
            offset + len <= self@.len(),
        ensures
            r@ == self@.subrange(offset as int, offset + len),
    {
        let total: usize = self.data.len();
        let mut out: Vec<u8> = Vec::new();
        let mut i: usize = 0;
        while i < len
            invariant
                i <= len,
                offset + len <= self@.len(),
                self@.len() == total,
                out@.len() == i,
                forall|j: int| 0 <= j < i ==> out@[j] == self@[offset + j],
            decreases len - i,
        {
            let v = self.data[offset + i];
            out.push(v);
            i = i + 1;
        }
        proof {
            assert(out@ =~= self@.subrange(offset as int, offset + len));
        }
        out
    }
}

/// The product of two 32-bit values, plus one more 32-bit value, still
/// fits in 64 bits.
pub(crate) proof fn lemma_u32_product_fits_u64(a: u32, b: u32)
    ensures
        a as int * b as int + u32::MAX < 0x1_0000_0000_0000_0000,
{
    assert(a as int * b as int <= 0xffff_ffff * 0xffff_ffff) by (nonlinear_arith)
        requires
            0 <= a as int <= 0xffff_ffff,
            0 <= b as int <= 0xffff_ffff,
    ;
}

/// Rounding a nonnegative length down to a whole number of frames yields a
/// multiple of the frame size that is no larger than the length, and loses
/// less than one frame.
proof fn lemma_round_down_to_frames(len: int, fs: int)
    requires
        len >= 0,
        fs >= 1,
    ensures
        (len / fs) * fs <= len,
        (len / fs) * fs > len - fs,
        ((len / fs) * fs) % fs == 0,
        len >= fs ==> (len / fs) * fs >= fs,
{
    let q = len / fs;
    vstd::arithmetic::div_mod::lemma_fundamental_div_mod(len, fs);
    vstd::arithmetic::div_mod::lemma_mod_bound(len, fs);
    vstd::arithmetic::mul::lemma_mul_is_commutative(q, fs);
    assert(q * fs == len - len % fs);
    vstd::arithmetic::div_mod::lemma_mod_multiples_basic(q, fs);
    if len >= fs {
        vstd::arithmetic::div_mod::lemma_div_is_ordered(fs, len, fs);
        vstd::arithmetic::div_mod::lemma_div_by_self(fs);
        assert(q >= 1);
        vstd::arithmetic::mul::lemma_mul_inequality(1, q, fs);
        assert(1 * fs == fs) by (nonlinear_arith);
    }
}

} // verus!
