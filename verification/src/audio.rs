//! Decoded audio: interleaved 16-bit samples, and what is left of them once
//! the channels of each frame are mixed into one.
//!
//! Samples stay integers throughout. A mixed frame is kept as the exact sum of
//! its channel samples together with the scale that the sum is measured
//! against, so the normalised value of a frame is the quotient of the two and
//! lies between -1 and 1.

use vstd::prelude::*;

verus! {

/// The scale of one 16-bit sample: a sample `s` stands for `s / 32768`.
pub const SAMPLE_SCALE: u32 = 32768;

/// The sum of `count` consecutive samples, the first of them at `start`.
pub open spec fn channel_sum(samples: Seq<i16>, start: int, count: nat) -> int
    decreases count,
{
    if count == 0 {
        0
    } else {
        channel_sum(samples, start, (count - 1) as nat) + samples[start + count - 1]
    }
}

/// Interleaved PCM audio as plain values.
pub struct PcmView {
    pub channels: u16,
    pub sample_rate: u32,
    pub samples: Seq<i16>,
}

/// Audio of one channel as plain values: each frame is a sum of samples, to be
/// read against `scale`.
pub struct MonoView {
    pub sample_rate: u32,
    pub scale: int,
    pub frames: Seq<int>,
}

impl PcmView {
    /// There is at least one channel, and the samples fill whole frames.
    pub open spec fn well_formed(self) -> bool {
        &&& self.channels >= 1
        &&& self.samples.len() % (self.channels as nat) == 0
    }

    /// The number of frames, each of one sample per channel.
    pub open spec fn frame_count(self) -> nat {
        self.samples.len() / (self.channels as nat)
    }

    /// The sum of the channel samples of frame `frame`.
    pub open spec fn frame_sum(self, frame: int) -> int {
        channel_sum(self.samples, frame * self.channels, self.channels as nat)
    }

    /// The audio with the channels of each frame mixed into one: frame by
    /// frame the sum of the channel samples, against a scale that grows with
    /// the number of channels. The quotient is the mean of the normalised
    /// channel samples.
    pub open spec fn to_mono(self) -> MonoView {
        MonoView {
            sample_rate: self.sample_rate,
            scale: SAMPLE_SCALE * self.channels,
            frames: Seq::new(self.frame_count(), |frame: int| self.frame_sum(frame)),
        }
    }
}

impl MonoView {
    /// No frame is, in absolute value, more than the scale.
    pub open spec fn normalized(self) -> bool {
        forall|i: int|
            0 <= i < self.frames.len() ==> -self.scale <= #[trigger] self.frames[i] <= self.scale
    }
}

/// A sum of samples is bounded by the number of its terms.
pub proof fn lemma_channel_sum_bounds(samples: Seq<i16>, start: int, count: nat)
    requires
        0 <= start,
        start + count <= samples.len(),
    ensures
        -32768 * count <= channel_sum(samples, start, count) <= 32767 * count,
    decreases count,
{
    if count > 0 {
        lemma_channel_sum_bounds(samples, start, (count - 1) as nat);
    }
}

/// The frames of well-formed audio take up all of its samples.
pub proof fn lemma_frames_fill(audio: PcmView)
    requires
        audio.well_formed(),
    ensures
        audio.frame_count() * audio.channels == audio.samples.len(),
{
    let c = audio.channels as int;
    let len = audio.samples.len() as int;
    vstd::arithmetic::div_mod::lemma_fundamental_div_mod(len, c);
    assert((len / c) * c == len) by (nonlinear_arith)
        requires
            len == c * (len / c),
    ;
}

/// Frame `frame` of well-formed audio lies within the samples.
pub proof fn lemma_frame_within(audio: PcmView, frame: int)
    requires
        audio.well_formed(),
        0 <= frame < audio.frame_count(),
    ensures
        0 <= frame * audio.channels,
        frame * audio.channels + audio.channels <= audio.samples.len(),
{
    let c = audio.channels as int;
    let n = audio.frame_count() as int;
    lemma_frames_fill(audio);
    assert(0 <= frame * c && frame * c + c <= n * c) by (nonlinear_arith)
        requires
            0 <= frame < n,
            c >= 1,
    ;
}

/// Mixing down keeps the frame rate and leaves one value per frame, each a
/// normalised value: between -1 and 1 when read against the scale.
pub proof fn lemma_to_mono_normalized(audio: PcmView)
    requires
        audio.well_formed(),
    ensures
        audio.to_mono().sample_rate == audio.sample_rate,
        audio.to_mono().frames.len() * audio.channels == audio.samples.len(),
        audio.to_mono().scale == 32768 * audio.channels,
        audio.to_mono().normalized(),
{
    let mono = audio.to_mono();
    lemma_frames_fill(audio);
    assert(mono.frames.len() == audio.frame_count());
    assert forall|i: int| 0 <= i < mono.frames.len() implies -mono.scale
        <= #[trigger] mono.frames[i] <= mono.scale by {
        lemma_frame_within(audio, i);
        lemma_channel_sum_bounds(audio.samples, i * audio.channels, audio.channels as nat);
    }
}

/// Audio of a single channel comes through unchanged: as many frames as there
/// are samples, each frame its sample, in the order of the recording, against the
/// scale of one sample.
pub proof fn lemma_single_channel_is_kept(audio: PcmView)
    requires
        audio.channels == 1,
    ensures
        audio.well_formed(),
        audio.to_mono().scale == 32768,
        audio.to_mono().frames.len() == audio.samples.len(),
        forall|i: int|
            0 <= i < audio.samples.len() ==> #[trigger] audio.to_mono().frames[i]
                == audio.samples[i],
        audio.to_mono().normalized(),
{
    let mono = audio.to_mono();
    assert forall|i: int| 0 <= i < audio.samples.len() implies #[trigger] mono.frames[i]
        == audio.samples[i] by {
        reveal_with_fuel(channel_sum, 2);
    }
    lemma_to_mono_normalized(audio);
}

/// Two channels leave one frame for every two samples, the sum of the pair:
/// as many frames as the recording has, not as many as it has samples.
pub proof fn lemma_two_channels_are_halved(audio: PcmView)
    requires
        audio.well_formed(),
        audio.channels == 2,
    ensures
        audio.to_mono().scale == 65536,
        audio.to_mono().frames.len() * 2 == audio.samples.len(),
        forall|i: int|
            0 <= i < audio.to_mono().frames.len() ==> #[trigger] audio.to_mono().frames[i]
                == audio.samples[2 * i] + audio.samples[2 * i + 1],
{
    let mono = audio.to_mono();
    assert forall|i: int| 0 <= i < mono.frames.len() implies #[trigger] mono.frames[i]
        == audio.samples[2 * i] + audio.samples[2 * i + 1] by {
        reveal_with_fuel(channel_sum, 3);
    }
}

/// Interleaved 16-bit PCM audio: `channels` samples to a frame, frames in the
/// order in which they were recorded.
#[derive(Debug, PartialEq, Eq)]
pub struct PcmAudio {
    channels: u16,
    sample_rate: u32,
    samples: Vec<i16>,
}

impl View for PcmAudio {
    type V = PcmView;

    closed spec fn view(&self) -> PcmView {
        PcmView { channels: self.channels, sample_rate: self.sample_rate, samples: self.samples@ }
    }
}

/// Audio of one channel: per frame the sum of the channel samples that were
/// recorded for it.
#[derive(Debug, PartialEq, Eq)]
pub struct MonoAudio {
    sample_rate: u32,
    scale: u32,
    frames: Vec<i32>,
}

impl View for MonoAudio {
    type V = MonoView;

    closed spec fn view(&self) -> MonoView {
        MonoView {
            sample_rate: self.sample_rate,
            scale: self.scale as int,
            frames: self.frames@.map_values(|sum: i32| sum as int),
        }
    }
}

impl PcmAudio {
    #[verifier::type_invariant]
    spec fn holds_whole_frames(self) -> bool {
        self@.well_formed()
    }

    /// Audio of `channels` channels from interleaved samples; `None` where
    /// there is no channel or the samples do not fill whole frames.
    pub fn new(channels: u16, sample_rate: u32, samples: Vec<i16>) -> (r: Option<PcmAudio>)
        ensures
            match r {
                Some(audio) => {
                    &&& audio@ == (PcmView { channels, sample_rate, samples: samples@ })
                    &&& audio@.well_formed()
                },
                None => !(PcmView { channels, sample_rate, samples: samples@ }).well_formed(),
            },
    {
        if channels == 0 {
            return None;
        }
        if samples.len() % (channels as usize) != 0 {
            return None;
        }
        Some(PcmAudio { channels, sample_rate, samples })
    }

    /// The number of channels, at least one.
    pub fn channels(&self) -> (r: u16)
        ensures
            r == self@.channels,
            r >= 1,
    {
        proof {
            use_type_invariant(self);
        }
        self.channels
    }

    /// The number of frames per second, as the recording states it.
    pub fn sample_rate(&self) -> (r: u32)
        ensures
            r == self@.sample_rate,
    {
        self.sample_rate
    }

    /// The samples, interleaved: whole frames of one sample per channel.
    pub fn samples(&self) -> (r: &Vec<i16>)
        ensures
            r@ == self@.samples,
            self@.well_formed(),
    {
        proof {
            use_type_invariant(self);
        }
        &self.samples
    }

    /// The sum of the channel samples of the frame that starts at `start`.
    fn frame_sum_at(&self, start: usize) -> (r: i32)
        requires
            start + self@.channels <= self@.samples.len(),
        ensures
            r == channel_sum(self@.samples, start as int, self@.channels as nat),
    {
        let channels = self.channels as usize;
        let mut sum: i32 = 0;
        let mut taken: usize = 0;
        while taken < channels
            invariant
                channels == self.channels,
                taken <= channels,
                start + channels <= self.samples.len(),
                sum == channel_sum(self.samples@, start as int, taken as nat),
                -32768 * taken <= sum <= 32767 * taken,
            decreases channels - taken,
        {
            sum = sum + self.samples[start + taken] as i32;
            taken = taken + 1;
        }
        sum
    }

    /// Mixes the channels of each frame into one.
    pub fn to_mono(&self) -> (r: MonoAudio)
        ensures
            r@ == self@.to_mono(),
            r@.normalized(),
    {
        proof {
            use_type_invariant(self);
            lemma_to_mono_normalized(self@);
        }
        let channels = self.channels as usize;
        let count = self.samples.len() / channels;
        let ghost target = self@.to_mono().frames;
        let mut frames: Vec<i32> = Vec::new();
        let mut start: usize = 0;
        while frames.len() < count
            invariant
                self@.well_formed(),
                channels == self@.channels,
                count == self@.frame_count(),
                target == self@.to_mono().frames,
                frames@.len() <= count,
                start == frames@.len() * channels,
                forall|i: int| 0 <= i < frames@.len() ==> #[trigger] frames@[i] == target[i],
            decreases count - frames@.len(),
        {
            proof {
                lemma_frame_within(self@, frames@.len() as int);
            }
            assert(start + channels <= self.samples.len());
            let sum = self.frame_sum_at(start);
            frames.push(sum);
            start = start + channels;
            assert(start == frames@.len() * channels) by (nonlinear_arith)
                requires
                    start == (frames@.len() - 1) * channels + channels,
            ;
        }
        let mono = MonoAudio {
            sample_rate: self.sample_rate,
            scale: SAMPLE_SCALE * (self.channels as u32),
            frames,
        };
        assert(mono@.frames =~= target);
        mono
    }
}

impl MonoAudio {
    #[verifier::type_invariant]
    spec fn holds_normalized_frames(self) -> bool {
        self@.normalized()
    }

    /// The number of frames per second, as the recording states it.
    pub fn sample_rate(&self) -> (r: u32)
        ensures
            r == self@.sample_rate,
    {
        self.sample_rate
    }

    /// What a frame is measured against: a frame `f` stands for the value
    /// `f / scale`.
    pub fn scale(&self) -> (r: u32)
        ensures
            r == self@.scale,
    {
        self.scale
    }

    /// The frames in order, each between `-scale` and `scale`.
    pub fn frames(&self) -> (r: &Vec<i32>)
        ensures
            r@.len() == self@.frames.len(),
            forall|i: int| 0 <= i < r@.len() ==> #[trigger] r@[i] == self@.frames[i],
            forall|i: int| 0 <= i < r@.len() ==> -self@.scale <= #[trigger] r@[i] <= self@.scale,
    {
        proof {
            use_type_invariant(self);
            assert forall|i: int| 0 <= i < self.frames@.len() implies -self@.scale
                <= #[trigger] self.frames@[i] <= self@.scale by {
                assert(self@.frames[i] == self.frames@[i]);
            }
        }
        &self.frames
    }
}

} // verus!
