//! Client-side audio transport library: streams playback and capture audio
//! frames between an application and an audio server over a control channel
//! plus a shared double-buffered sample region.
//!
//! The core is the shared double-buffer header ([`shm`]), whose slot and
//! offset arithmetic decides which bytes each side may touch, and the
//! fixed-size control-message codecs ([`messages`]) that keep the two
//! processes synchronized on buffer ownership without locks. Scoped audio
//! buffers and the locally paced dummy streams live in [`audio_streams`]
//! and [`capture`]; one session's state machine in [`stream`]; the
//! connection manager in [`client`]. Every decision is verified; the
//! unverified I/O layer around the library only moves bytes and
//! descriptors where these modules direct it.

pub mod audio_streams;
pub mod capture;
pub mod client;
pub mod clock;
pub mod format;
pub mod messages;
pub mod shm;
pub mod stream;
