//! Speech-to-text behind one provider contract.
//!
//! A provider takes a complete, encoded audio buffer and either refuses it or
//! hands out the call it has admitted. The local provider decodes a WAV
//! container, mixes its channels down to one and then steers an inference
//! engine step by step; the remote provider hands the buffer on to a worker.
//! Everything that decides or computes is verified here. Loading a model,
//! running it and talking to a network are left to the caller, which performs
//! the actions that the verified code asks for.

use vstd::prelude::*;
use vstd::string::StringExecFns;

pub mod audio;
pub mod cloudflare;
pub mod config;
pub mod error;
pub mod local;
pub mod provider;
pub mod session;
pub mod transcript;
pub mod wav;

pub use cloudflare::{CloudflareTranscriber, RemoteCall};
pub use error::{ErrorView, TranscriberError};
pub use local::{InferenceSettings, WhisperProvider, WhisperProviderError};
pub use provider::TranscriberProvider;
pub use session::{Action, Event, Session, Step};

verus! {

/// The backends that a provider can be made for.
#[derive(Debug, Clone, Copy, PartialEq, Eq)]
pub enum Backend {
    /// Transcription on this machine.
    Local,
    /// Transcription by a worker.
    Remote,
}

/// Why no provider could be made: the chosen backend lacks the setting that
/// it cannot do without.
#[derive(Debug, Clone, Copy, PartialEq, Eq)]
pub enum ConfigError {
    /// The local backend was chosen and no model path is set.
    MissingModelPath,
    /// The remote backend was chosen and no worker URL is set.
    MissingWorkerUrl,
}

impl ConfigError {
    /// The line that describes the failure to a reader.
    pub open spec fn spec_message(self) -> Seq<char> {
        match self {
            ConfigError::MissingModelPath => "model_path required for local provider"@,
            ConfigError::MissingWorkerUrl => "worker_url required for cloudflare provider"@,
        }
    }

    /// The line that describes the failure to a reader.
    pub fn message(&self) -> (r: String)
        ensures
            r@ == self.spec_message(),
    {
        match self {
            ConfigError::MissingModelPath => String::from_str(
                "model_path required for local provider",
            ),
            ConfigError::MissingWorkerUrl => String::from_str(
                "worker_url required for cloudflare provider",
            ),
        }
    }
}

/// The one provider of a run, of whichever backend was chosen.
#[derive(Debug, Clone, PartialEq, Eq)]
pub enum Provider {
    Local(WhisperProvider),
    Remote(CloudflareTranscriber),
}

/// The call that a [`Provider`] hands out, of the kind of its backend.
#[derive(Debug, PartialEq, Eq)]
pub enum Call {
    Local(Session),
    Remote(RemoteCall),
}

/// Makes the provider of the chosen backend from the settings.
///
/// The choice comes from outside and is never inferred from which settings
/// are there. The local backend needs the model path and the remote backend
/// the worker URL; where the chosen backend's setting is missing there is no
/// provider, and so nothing to transcribe with.
pub fn create_provider(backend: Backend, config: &config::SpeechToTextConfig) -> (r: Result<
    Provider,
    ConfigError,
>)
    ensures
        match backend {
            Backend::Local => match config.model_path {
                Some(path) => r matches Ok(Provider::Local(provider)) && provider@ == path@,
                None => r matches Err(e) && e == ConfigError::MissingModelPath,
            },
            Backend::Remote => match config.worker_url {
                Some(url) => r matches Ok(Provider::Remote(provider)) && provider@ == url@,
                None => r matches Err(e) && e == ConfigError::MissingWorkerUrl,
            },
        },
{
    match backend {
        Backend::Local => match &config.model_path {
            Some(path) => Ok(Provider::Local(WhisperProvider::new(path.as_str()))),
            None => Err(ConfigError::MissingModelPath),
        },
        Backend::Remote => match &config.worker_url {
            Some(url) => Ok(Provider::Remote(CloudflareTranscriber::new(url.as_str()))),
            None => Err(ConfigError::MissingWorkerUrl),
        },
    }
}

impl TranscriberProvider for Provider {
    type Call = Call;

    /// Admits or refuses the buffer as the provider's backend does.
    fn transcribe(&self, audio_data: Vec<u8>) -> (r: Result<Call, TranscriberError>)
        ensures
            match self {
                Provider::Local(_) => match local::admitted(audio_data@) {
                    Some(session) => r matches Ok(Call::Local(begun)) && begun@ == session,
                    None => r matches Err(e) && e == TranscriberError::InvalidAudioData,
                },
                Provider::Remote(provider) => audio_data@.len() > 0 ==> (r matches Ok(
                    Call::Remote(call),
                ) && call.worker_url@ == provider@ && call.audio_data@ == audio_data@),
            },
    {
        match self {
            Provider::Local(provider) => match provider.transcribe(audio_data) {
                Ok(session) => Ok(Call::Local(session)),
                Err(e) => Err(e),
            },
            Provider::Remote(provider) => match provider.transcribe(audio_data) {
                Ok(call) => Ok(Call::Remote(call)),
                Err(e) => Err(e),
            },
        }
    }
}

} // verus!
