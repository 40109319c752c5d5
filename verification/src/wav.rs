//! Reading a WAV container.
//!
//! The container is parsed by the `hound` crate, which this module calls and
//! does not look into. What `hound` does is taken on trust and given names:
//! the reader that a buffer opens as, the layout that a reader reports, and
//! the samples that a reader has yet to hand out. [`decode`] is verified
//! against those names.

use vstd::prelude::*;
use crate::audio::{PcmAudio, PcmView};
use crate::error::TranscriberError;

verus! {

/// `hound::WavReader`, a streaming reader of WAV data. Nothing inside it is
/// visible here.
#[verifier::external_type_specification]
#[verifier::external_body]
#[verifier::reject_recursive_types(R)]
pub struct ExWavReader<R>(hound::WavReader<R>);

/// `hound::Error`, the reason why `hound` gave up. Nothing inside it is
/// visible here.
#[verifier::external_type_specification]
#[verifier::external_body]
pub struct ExHoundError(hound::Error);

/// `std::io::Cursor`, a read position over a buffer held in memory. Nothing
/// inside it is visible here.
#[verifier::external_type_specification]
#[verifier::external_body]
#[verifier::reject_recursive_types(T)]
pub struct ExCursor<T>(std::io::Cursor<T>);

/// The reader that `hound::WavReader::new` returns for a buffer of these
/// bytes read from its start, or `None` where it returns an error.
pub uninterp spec fn wav_reader(bytes: Seq<u8>) -> Option<hound::WavReader<std::io::Cursor<Vec<u8>>>>;

/// The number of channels and the sample rate that `hound::WavReader::spec`
/// reports for a reader.
pub uninterp spec fn reader_layout(reader: hound::WavReader<std::io::Cursor<Vec<u8>>>) -> (u16, u32);

/// What the sample iterator of a reader, asked for 16-bit integers, has yet to
/// yield, in order: `Some` with the sample where it yields one, `None` where
/// it yields an error.
pub uninterp spec fn reader_pending(reader: hound::WavReader<std::io::Cursor<Vec<u8>>>) -> Seq<Option<i16>>;

/// Calls `hound::WavReader::new` on the buffer, read from its start.
///
/// Trusted: the outcome is the one that [`wav_reader`] names for these bytes.
/// Reading a buffer in memory involves nothing but the bytes, so the same
/// bytes always open the same way.
#[verifier::external_body]
fn open_reader(bytes: Vec<u8>) -> (r: Result<hound::WavReader<std::io::Cursor<Vec<u8>>>, hound::Error>)
    ensures
        match r {
            Ok(reader) => wav_reader(bytes@) == Some(reader),
            Err(_) => wav_reader(bytes@) is None,
        },
{
    hound::WavReader::new(std::io::Cursor::new(bytes))
}

/// Calls `hound::WavReader::spec` and picks the number of channels and the
/// sample rate out of what it returns.
///
/// Trusted: the pair is the one that [`reader_layout`] names for the reader.
#[verifier::external_body]
fn layout(reader: &hound::WavReader<std::io::Cursor<Vec<u8>>>) -> (r: (u16, u32))
    ensures
        r == reader_layout(*reader),
{
    let spec = reader.spec();
    (spec.channels, spec.sample_rate)
}

/// Calls `next` on the iterator that `hound::WavReader::samples` gives for
/// 16-bit integers.
///
/// Trusted: the iterator ends exactly when nothing is pending; otherwise it
/// yields the first pending item, a sample or an error, and that item is
/// pending no longer.
#[verifier::external_body]
fn next_sample(reader: &mut hound::WavReader<std::io::Cursor<Vec<u8>>>) -> (r: Option<
    Result<i16, hound::Error>,
>)
    ensures
        match r {
            None => reader_pending(*old(reader)).len() == 0,
            Some(item) => {
                &&& reader_pending(*old(reader)).len() > 0
                &&& reader_pending(*final(reader)) == reader_pending(*old(reader)).drop_first()
                &&& match item {
                    Ok(sample) => reader_pending(*old(reader))[0] == Some(sample),
                    Err(_) => reader_pending(*old(reader))[0] is None,
                }
            },
        },
{
    reader.samples::<i16>().next()
}

/// Every pending item is a sample.
pub open spec fn all_decoded(pending: Seq<Option<i16>>) -> bool {
    forall|i: int| 0 <= i < pending.len() ==> (#[trigger] pending[i]) is Some
}

/// The samples of pending items that are all samples.
pub open spec fn decoded_samples(pending: Seq<Option<i16>>) -> Seq<i16> {
    Seq::new(pending.len(), |i: int| pending[i]->0)
}

/// The audio that a buffer of these bytes holds: the buffer opens as a WAV
/// container, each of its samples reads as a 16-bit integer, and the samples
/// fill whole frames. `None` where any of this fails.
pub open spec fn wav_audio(bytes: Seq<u8>) -> Option<PcmView> {
    match wav_reader(bytes) {
        None => None,
        Some(reader) => {
            let audio = PcmView {
                channels: reader_layout(reader).0,
                sample_rate: reader_layout(reader).1,
                samples: decoded_samples(reader_pending(reader)),
            };
            if all_decoded(reader_pending(reader)) && audio.well_formed() {
                Some(audio)
            } else {
                None
            }
        },
    }
}

/// Decodes a WAV container into interleaved 16-bit samples, in the order of
/// the file. A buffer that does not parse, a sample that does not read as a
/// 16-bit integer and samples that leave a frame incomplete are all the same
/// failure: invalid audio data.
pub fn decode(audio_data: Vec<u8>) -> (r: Result<PcmAudio, TranscriberError>)
    ensures
        match wav_audio(audio_data@) {
            Some(audio) => r matches Ok(decoded) && decoded@ == audio,
            None => r matches Err(e) && e == TranscriberError::InvalidAudioData,
        },
{
    let mut reader = match open_reader(audio_data) {
        Ok(reader) => reader,
        Err(_) => {
            return Err(TranscriberError::InvalidAudioData);
        },
    };
    let (channels, sample_rate) = layout(&reader);
    let ghost opened = reader;
    let ghost pending = reader_pending(reader);
    let mut samples: Vec<i16> = Vec::new();
    loop
        invariant_except_break
            reader_pending(reader) == pending.skip(samples@.len() as int),
        invariant
            wav_reader(audio_data@) == Some(opened),
            pending == reader_pending(opened),
            samples@.len() <= pending.len(),
            forall|i: int| 0 <= i < samples@.len() ==> #[trigger] pending[i] == Some(samples@[i]),
        ensures
            samples@.len() == pending.len(),
            forall|i: int| 0 <= i < samples@.len() ==> #[trigger] pending[i] == Some(samples@[i]),
        decreases pending.len() - samples@.len(),
    {
        let ghost before = samples@.len() as int;
        match next_sample(&mut reader) {
            None => {
                break ;
            },
            Some(Err(_)) => {
                assert(pending[before] is None);
                return Err(TranscriberError::InvalidAudioData);
            },
            Some(Ok(sample)) => {
                assert(pending[before] == Some(sample));
                samples.push(sample);
                assert(pending.skip(before).drop_first() =~= pending.skip(before + 1));
            },
        }
    }
    assert(all_decoded(pending));
    assert(samples@ =~= decoded_samples(pending));
    match PcmAudio::new(channels, sample_rate, samples) {
        Some(audio) => Ok(audio),
        None => Err(TranscriberError::InvalidAudioData),
    }
}

} // verus!
