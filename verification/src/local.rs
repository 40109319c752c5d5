//! The local provider: WAV audio in, a session with the inference engine out.

use vstd::prelude::*;
use vstd::string::StringExecFns;
use crate::audio::{lemma_single_channel_is_kept, lemma_to_mono_normalized};
use crate::error::TranscriberError;
use crate::provider::TranscriberProvider;
use crate::session::{Action, Session, SessionView};
use crate::wav::{decode, wav_audio};

verus! {

/// The provider that transcribes on this machine, with the model at a path.
///
/// The provider holds where the model is. The loaded model belongs to the
/// engine that runs the sessions, for as long as the provider is in use.
#[derive(Debug, Clone, PartialEq, Eq)]
pub struct WhisperProvider {
    model_path: String,
}

impl View for WhisperProvider {
    type V = Seq<char>;

    /// The path of the model.
    closed spec fn view(&self) -> Seq<char> {
        self.model_path@
    }
}

/// A failure of the inference engine, as the text in which the engine
/// reports it.
#[derive(Debug, Clone, PartialEq, Eq)]
pub struct WhisperProviderError(pub String);

impl View for WhisperProviderError {
    type V = Seq<char>;

    open spec fn view(&self) -> Seq<char> {
        self.0@
    }
}

impl From<WhisperProviderError> for TranscriberError {
    fn from(err: WhisperProviderError) -> (r: TranscriberError) {
        TranscriberError::Whisper(err.0)
    }
}

impl vstd::std_specs::convert::FromSpecImpl<WhisperProviderError> for TranscriberError {
    open spec fn obeys_from_spec() -> bool {
        true
    }

    open spec fn from_spec(err: WhisperProviderError) -> TranscriberError {
        TranscriberError::Whisper(err.0)
    }
}

/// How inference is run: always the same way.
#[derive(Debug, Clone, PartialEq, Eq)]
pub struct InferenceSettings {
    /// Greedy decoding keeps the best of this many candidates; there is no
    /// beam search.
    pub best_of: i32,
    /// The code of the language that the audio is taken to be in.
    pub language: String,
    pub print_special: bool,
    pub print_progress: bool,
    pub print_realtime: bool,
    pub print_timestamps: bool,
}

/// The code of the language that every run is set to.
pub open spec fn language_code() -> Seq<char> {
    "sk"@
}

impl InferenceSettings {
    /// The settings of every run: greedy decoding with a single candidate,
    /// the fixed language, and nothing printed along the way.
    pub fn fixed() -> (r: InferenceSettings)
        ensures
            r.best_of == 1,
            r.language@ == language_code(),
            !r.print_special,
            !r.print_progress,
            !r.print_realtime,
            !r.print_timestamps,
    {
        InferenceSettings {
            best_of: 1,
            language: String::from_str("sk"),
            print_special: false,
            print_progress: false,
            print_realtime: false,
            print_timestamps: false,
        }
    }
}

/// The session that a buffer of these bytes is admitted with: the buffer is
/// not empty and holds WAV audio, and the session begins over that audio
/// mixed down to one channel. `None` where the buffer is refused.
pub open spec fn admitted(bytes: Seq<u8>) -> Option<SessionView> {
    if bytes.len() == 0 {
        None
    } else {
        match wav_audio(bytes) {
            Some(audio) => Some(SessionView::fresh(audio.to_mono())),
            None => None,
        }
    }
}

/// A buffer that is admitted begins a session that has everything still to
/// do, over the audio that the buffer holds: at the frame rate of the file,
/// with one frame for each frame of the file, every frame a normalised
/// value. Audio of a single channel comes through sample by sample, as many
/// frames as the file has samples, in the order of the file.
pub proof fn lemma_admitted_audio(bytes: Seq<u8>)
    ensures
        admitted(bytes) matches Some(session) ==> {
            &&& bytes.len() > 0
            &&& session.action() == Action::CreateState
            &&& wav_audio(bytes) matches Some(audio)
            &&& session.audio == audio.to_mono()
            &&& session.audio.sample_rate == audio.sample_rate
            &&& session.audio.frames.len() * audio.channels == audio.samples.len()
            &&& session.audio.normalized()
            &&& audio.channels == 1 ==> {
                &&& session.audio.scale == 32768
                &&& session.audio.frames.len() == audio.samples.len()
                &&& forall|i: int|
                    0 <= i < audio.samples.len() ==> #[trigger] session.audio.frames[i]
                        == audio.samples[i]
            }
        },
{
    if let Some(session) = admitted(bytes) {
        let audio = wav_audio(bytes).unwrap();
        lemma_to_mono_normalized(audio);
        if audio.channels == 1 {
            lemma_single_channel_is_kept(audio);
        }
    }
}

impl WhisperProvider {
    /// A provider for the model at `model_path`.
    pub fn new(model_path: &str) -> (r: WhisperProvider)
        ensures
            r@ == model_path@,
    {
        WhisperProvider { model_path: String::from_str(model_path) }
    }

    /// The path of the model.
    pub fn model_path(&self) -> (r: &str)
        ensures
            r@ == self@,
    {
        self.model_path.as_str()
    }
}

impl TranscriberProvider for WhisperProvider {
    type Call = Session;

    /// Admits a buffer that holds WAV audio and begins a session over it.
    /// An empty buffer is refused before anything is decoded; a buffer that
    /// does not decode is refused in the same way.
    fn transcribe(&self, audio_data: Vec<u8>) -> (r: Result<Session, TranscriberError>)
        ensures
            match admitted(audio_data@) {
                Some(session) => r matches Ok(begun) && begun@ == session,
                None => r matches Err(e) && e == TranscriberError::InvalidAudioData,
            },
    {
        if audio_data.len() == 0 {
            return Err(TranscriberError::InvalidAudioData);
        }
        match decode(audio_data) {
            Ok(audio) => Ok(Session::new(audio.to_mono())),
            Err(e) => Err(e),
        }
    }
}

} // verus!
