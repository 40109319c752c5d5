//! The remote provider: audio handed on to a worker.

use vstd::prelude::*;
use vstd::string::StringExecFns;
use crate::error::TranscriberError;
use crate::provider::TranscriberProvider;

verus! {

/// The provider that has a worker at a URL do the transcription.
#[derive(Debug, Clone, PartialEq, Eq)]
pub struct CloudflareTranscriber {
    worker_url: String,
}

impl View for CloudflareTranscriber {
    type V = Seq<char>;

    /// The URL of the worker.
    closed spec fn view(&self) -> Seq<char> {
        self.worker_url@
    }
}

/// A buffer that the remote provider has admitted, with the worker that it is
/// meant for. How the worker is reached and what it answers is the caller's
/// business.
#[derive(Debug, Clone, PartialEq, Eq)]
pub struct RemoteCall {
    pub worker_url: String,
    pub audio_data: Vec<u8>,
}

impl CloudflareTranscriber {
    /// A provider for the worker at `worker_url`.
    pub fn new(worker_url: &str) -> (r: CloudflareTranscriber)
        ensures
            r@ == worker_url@,
    {
        CloudflareTranscriber { worker_url: String::from_str(worker_url) }
    }

    /// The URL of the worker.
    pub fn worker_url(&self) -> (r: &str)
        ensures
            r@ == self@,
    {
        self.worker_url.as_str()
    }
}

impl TranscriberProvider for CloudflareTranscriber {
    type Call = RemoteCall;

    /// Admits every buffer but an empty one, and hands it out unchanged with
    /// the worker's URL.
    fn transcribe(&self, audio_data: Vec<u8>) -> (r: Result<RemoteCall, TranscriberError>)
        ensures
            audio_data@.len() > 0 ==> (r matches Ok(call) && call.worker_url@ == self@
                && call.audio_data@ == audio_data@),
    {
        if audio_data.len() == 0 {
            return Err(TranscriberError::InvalidAudioData);
        }
        Ok(RemoteCall { worker_url: self.worker_url.clone(), audio_data })
    }
}

} // verus!
