//! The channel mixer: spreads interleaved stereo frames over the channels of
//! an output device.
//!
//! The mixer is generic in the sample type. It decides where each output
//! sample comes from; adding two samples and scaling a sample by a percentage
//! are done by two functions of the caller.

use crate::config::ChannelMixMode;
use vstd::prelude::*;

verus! {

/// Gain of the mono mix, in percent: half of the sum of left and right.
pub const MONO_GAIN_PERCENT: u8 = 50;

/// Gain of the rear channels, in percent.
pub const REAR_GAIN_PERCENT: u8 = 85;

/// Gain of the subwoofer on top of the mono mix, in percent.
pub const SUBWOOFER_GAIN_PERCENT: u8 = 130;

/// The sample that `Stereo` sends to the output channel `channel`: left to
/// the first, right to the second, silence to all others.
pub open spec fn stereo_sample<T>(left: T, right: T, silence: T, channel: int) -> T {
    if channel == 0 {
        left
    } else if channel == 1 {
        right
    } else {
        silence
    }
}

/// Whether `value` is a mono mix of the frame: half of what `combine` gives for
/// left and right.
pub open spec fn is_mono_mix<T, A: Fn(T, T) -> T, S: Fn(T, u8) -> T>(
    left: T,
    right: T,
    combine: A,
    scale: S,
    value: T,
) -> bool {
    exists|sum: T|
        call_ensures(combine, (left, right), sum) && call_ensures(
            scale,
            (sum, MONO_GAIN_PERCENT),
            value,
        )
}

/// Whether `value` is the sample that a mode other than `Stereo` sends to
/// every output channel for the frame `(left, right)`.
pub open spec fn is_mixed_value<T, A: Fn(T, T) -> T, S: Fn(T, u8) -> T>(
    mode: ChannelMixMode,
    left: T,
    right: T,
    combine: A,
    scale: S,
    value: T,
) -> bool {
    match mode {
        ChannelMixMode::Stereo => false,
        ChannelMixMode::Left | ChannelMixMode::FrontLeft => value == left,
        ChannelMixMode::Right | ChannelMixMode::FrontRight => value == right,
        ChannelMixMode::Center | ChannelMixMode::BackSurround => is_mono_mix(
            left,
            right,
            combine,
            scale,
            value,
        ),
        ChannelMixMode::BackLeft => call_ensures(scale, (left, REAR_GAIN_PERCENT), value),
        ChannelMixMode::BackRight => call_ensures(scale, (right, REAR_GAIN_PERCENT), value),
        ChannelMixMode::Subwoofer => exists|mono: T|
            is_mono_mix(left, right, combine, scale, mono) && call_ensures(
                scale,
                (mono, SUBWOOFER_GAIN_PERCENT),
                value,
            ),
    }
}

/// Whether `frame` is the output frame of `channels` samples that the mode
/// makes of the stereo frame `(left, right)`.
pub open spec fn is_mixed_frame<T, A: Fn(T, T) -> T, S: Fn(T, u8) -> T>(
    mode: ChannelMixMode,
    left: T,
    right: T,
    silence: T,
    combine: A,
    scale: S,
    frame: Seq<T>,
    channels: nat,
) -> bool {
    &&& frame.len() == channels
    &&& if mode == ChannelMixMode::Stereo {
        forall|c: int| 0 <= c < channels ==> frame[c] == stereo_sample(left, right, silence, c)
    } else {
        exists|value: T|
            is_mixed_value(mode, left, right, combine, scale, value) && forall|c: int|
                0 <= c < channels ==> frame[c] == value
    }
}

/// The output samples of frame `index` in an interleaved buffer with
/// `channels` samples per frame.
pub open spec fn output_frame<T>(output: Seq<T>, index: int, channels: nat) -> Seq<T> {
    output.subrange(index * channels, (index + 1) * channels)
}

/// Whether `output` is what the mode makes of the interleaved stereo buffer
/// `input`: nothing for a buffer of odd length, else one output frame for
/// each input frame, in order.
pub open spec fn is_mixed_buffer<T, A: Fn(T, T) -> T, S: Fn(T, u8) -> T>(
    mode: ChannelMixMode,
    input: Seq<T>,
    silence: T,
    combine: A,
    scale: S,
    output: Seq<T>,
    channels: nat,
) -> bool {
    if input.len() % 2 != 0 {
        output.len() == 0
    } else {
        &&& output.len() == (input.len() / 2) * channels
        &&& forall|f: int|
            0 <= f < input.len() / 2 ==> is_mixed_frame(
                mode,
                input[2 * f],
                input[2 * f + 1],
                silence,
                combine,
                scale,
                #[trigger] output_frame(output, f, channels),
                channels,
            )
    }
}

/// Mixes stereo samples according to a mix mode.
#[derive(Debug, Clone, Copy)]
pub struct ChannelMixer {
    mode: ChannelMixMode,
}

impl ChannelMixer {
    /// The mix mode of the mixer.
    pub closed spec fn spec_mode(&self) -> ChannelMixMode {
        self.mode
    }

    /// Creates a mixer with the given mix mode.
    pub fn new(mode: ChannelMixMode) -> (mixer: ChannelMixer)
        ensures
            mixer.spec_mode() == mode,
    {
        ChannelMixer { mode }
    }

    /// Replaces the mix mode.
    pub fn set_mode(&mut self, mode: ChannelMixMode)
        ensures
            final(self).spec_mode() == mode,
    {
        self.mode = mode;
    }

    /// The mix mode of the mixer.
    #[verifier::when_used_as_spec(spec_mode)]
    pub fn mode(&self) -> (mode: ChannelMixMode)
        ensures
            mode == self.spec_mode(),
    {
        self.mode
    }

    /// Mixes one stereo frame to `output_channels` samples.
    pub fn mix_channels<T: Copy, A: Fn(T, T) -> T, S: Fn(T, u8) -> T>(
        &self,
        left: T,
        right: T,
        output_channels: usize,
        silence: T,
        combine: &A,
        scale: &S,
    ) -> (frame: Vec<T>)
        requires
            forall|a: T, b: T| call_requires(*combine, (a, b)),
            forall|x: T, percent: u8| call_requires(*scale, (x, percent)),
        ensures
            is_mixed_frame(
                self.spec_mode(),
                left,
                right,
                silence,
                *combine,
                *scale,
                frame@,
                output_channels as nat,
            ),
    {
        if let ChannelMixMode::Stereo = self.mode {
            let mut frame: Vec<T> = Vec::new();
            let mut channel: usize = 0;
            while channel < output_channels
                invariant
                    channel <= output_channels,
                    frame@.len() == channel,
                    forall|c: int|
                        0 <= c < channel ==> frame@[c] == stereo_sample(left, right, silence, c),
                decreases output_channels - channel,
            {
                if channel == 0 {
                    frame.push(left);
                } else if channel == 1 {
                    frame.push(right);
                } else {
                    frame.push(silence);
                }
                channel = channel + 1;
            }
            return frame;
        }
        let value = match self.mode {
            ChannelMixMode::Stereo | ChannelMixMode::Left | ChannelMixMode::FrontLeft => left,
            ChannelMixMode::Right | ChannelMixMode::FrontRight => right,
            ChannelMixMode::Center | ChannelMixMode::BackSurround => {
                let sum = combine(left, right);
                scale(sum, MONO_GAIN_PERCENT)
            },
            ChannelMixMode::BackLeft => scale(left, REAR_GAIN_PERCENT),
            ChannelMixMode::BackRight => scale(right, REAR_GAIN_PERCENT),
            ChannelMixMode::Subwoofer => {
                let sum = combine(left, right);
                let mono = scale(sum, MONO_GAIN_PERCENT);
                assert(is_mono_mix(left, right, *combine, *scale, mono));
                scale(mono, SUBWOOFER_GAIN_PERCENT)
            },
        };
        assert(is_mixed_value(self.spec_mode(), left, right, *combine, *scale, value));
        repeat_sample(value, output_channels)
    }

    /// Mixes a buffer of interleaved stereo samples (left, right, left,
    /// right, ...) to interleaved frames of `output_channels` samples. A
    /// buffer of odd length holds a torn frame and gives no output.
    pub fn process_samples<T: Copy, A: Fn(T, T) -> T, S: Fn(T, u8) -> T>(
        &self,
        input: &[T],
        output_channels: usize,
        silence: T,
        combine: &A,
        scale: &S,
    ) -> (output: Vec<T>)
        requires
            forall|a: T, b: T| call_requires(*combine, (a, b)),
            forall|x: T, percent: u8| call_requires(*scale, (x, percent)),
        ensures
            input@.len() % 2 != 0 ==> output@.len() == 0,
            input@.len() % 2 == 0 ==> output@.len() == (input@.len() / 2) * output_channels,
            is_mixed_buffer(
                self.spec_mode(),
                input@,
                silence,
                *combine,
                *scale,
                output@,
                output_channels as nat,
            ),
    {
        if input.len() % 2 != 0 {
            return Vec::new();
        }
        let num_frames = input.len() / 2;
        let ghost channels = output_channels as nat;
        let mut output: Vec<T> = Vec::new();
        let mut frame: usize = 0;
        while frame < num_frames
            invariant
                frame <= num_frames,
                num_frames == input@.len() / 2,
                input@.len() % 2 == 0,
                channels == output_channels as nat,
                forall|a: T, b: T| call_requires(*combine, (a, b)),
                forall|x: T, percent: u8| call_requires(*scale, (x, percent)),
                output@.len() == frame * channels,
                forall|f: int|
                    0 <= f < frame ==> is_mixed_frame(
                        self.spec_mode(),
                        input@[2 * f],
                        input@[2 * f + 1],
                        silence,
                        *combine,
                        *scale,
                        #[trigger] output_frame(output@, f, channels),
                        channels,
                    ),
            decreases num_frames - frame,
        {
            let left = input[frame * 2];
            let right = input[frame * 2 + 1];
            let mut mixed = self.mix_channels(left, right, output_channels, silence, combine, scale);
            let ghost before = output@;
            let ghost added = mixed@;
            output.append(&mut mixed);
            proof {
                let done = frame as int;
                assert((done + 1) * channels == done * channels + channels) by (nonlinear_arith);
                assert(output_frame(output@, done, channels) =~= added);
                assert forall|f: int| 0 <= f < done + 1 implies is_mixed_frame(
                    self.spec_mode(),
                    input@[2 * f],
                    input@[2 * f + 1],
                    silence,
                    *combine,
                    *scale,
                    #[trigger] output_frame(output@, f, channels),
                    channels,
                ) by {
                    if f < done {
                        assert(0 <= f * channels <= (f + 1) * channels <= done * channels)
                            by (nonlinear_arith)
                            requires
                                0 <= f,
                                f + 1 <= done,
                                channels >= 0,
                        ;
                        assert(output_frame(output@, f, channels) =~= output_frame(
                            before,
                            f,
                            channels,
                        ));
                    }
                }
            }
            frame = frame + 1;
        }
        output
    }
}

/// A frame that holds `value` in each of its `count` channels.
fn repeat_sample<T: Copy>(value: T, count: usize) -> (frame: Vec<T>)
    ensures
        frame@.len() == count,
        forall|c: int| 0 <= c < count ==> frame@[c] == value,
{
    let mut frame: Vec<T> = Vec::new();
    let mut channel: usize = 0;
    while channel < count
        invariant
            channel <= count,
            frame@.len() == channel,
            forall|c: int| 0 <= c < channel ==> frame@[c] == value,
        decreases count - channel,
    {
        frame.push(value);
        channel = channel + 1;
    }
    frame
}

} // verus!
