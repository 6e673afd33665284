//! The packed audio-format record carried inside a connect-stream request.

use vstd::prelude::*;

verus! {

/// Number of channel-position entries in a packed format record.
pub const CH_MAX: usize = 11;

/// Sample-format code for signed 16-bit little-endian samples, the only
/// format the client requests.
pub const FORMAT_S16LE: i32 = 2;

/// An audio format as carried on the wire: sample format code, frame
/// rate, channel count, and one position entry per possible channel
/// (the channel's index while in use, -1 for the rest).
#[allow(non_camel_case_types)]
pub struct cras_audio_format_packed {
    /// Sample-format code.
    pub format: i32,
    /// Frames per second.
    pub frame_rate: u32,
    /// Number of channels.
    pub num_channels: u32,
    /// Channel positions; always `CH_MAX` entries.
    pub channel_layout: Vec<i8>,
}

impl cras_audio_format_packed {
    /// The layout entry expected at position `i` for `num_channels`
    /// channels: the channel's own index while in use, -1 past the end.
    pub open spec fn spec_layout_entry(num_channels: int, i: int) -> i8 {
        if i < num_channels {
            i as i8
        } else {
            -1i8
        }
    }

    /// Well-formedness: the layout always has exactly `CH_MAX` entries.
    pub open spec fn wf(&self) -> bool {
        self.channel_layout@.len() == CH_MAX
    }

    /// The whole layout expected for `num_channels` channels.
    pub open spec fn spec_layout(num_channels: int) -> Seq<i8> {
        Seq::new(CH_MAX as nat, |i: int| Self::spec_layout_entry(num_channels, i))
    }

    /// Builds a packed format record from the stream parameters. The
    /// first `num_channels` layout entries (up to `CH_MAX`) name their own
    /// index; the rest are -1.
    pub fn new(format: i32, rate: usize, num_channels: usize) -> (r: cras_audio_format_packed)
        requires
            rate <= u32::MAX,
            num_channels <= u32::MAX,
        ensures
            r.wf(),
            r.format == format,
            r.frame_rate == rate,
            r.num_channels == num_channels,
            r.channel_layout@ == Self::spec_layout(num_channels as int),
    {
        let mut channel_layout: Vec<i8> = Vec::new();
        let mut i: usize = 0;
        while i < CH_MAX
            invariant
                i <= CH_MAX,
                channel_layout@.len() == i,
                forall|j: int|
                    0 <= j < i ==> channel_layout@[j] == Self::spec_layout_entry(
                        num_channels as int,
                        j,
                    ),
            decreases CH_MAX - i,
        {
            if i < num_channels {
                channel_layout.push(i as i8);
            } else {
                channel_layout.push(-1i8);
            }
            i = i + 1;
        }
        proof {
            assert(channel_layout@ =~= Self::spec_layout(num_channels as int));
        }
        cras_audio_format_packed {
            format,
            frame_rate: rate as u32,
            num_channels: num_channels as u32,
            channel_layout,
        }
    }
}

} // verus!
