//! What every transcription backend owes its callers.

use vstd::prelude::*;
use crate::error::TranscriberError;

verus! {

/// A backend that turns a complete, encoded audio buffer into text.
///
/// Decoding and deciding are the provider's own work. Running a model or
/// reaching a remote service is not: a provider that admits a buffer hands out
/// a call, which says what is to be done on its behalf and takes the outcome
/// back. A buffer that is refused leaves no call behind, so nothing is decoded
/// or run for it.
pub trait TranscriberProvider {
    /// The call that an admitted buffer leaves with the caller.
    type Call;

    /// Admits a buffer, or refuses it. An empty buffer is invalid audio data
    /// to every provider, whatever else it checks.
    fn transcribe(&self, audio_data: Vec<u8>) -> (r: Result<Self::Call, TranscriberError>)
        ensures
            audio_data@.len() == 0 ==> (r matches Err(e)
                && e == TranscriberError::InvalidAudioData),
    ;
}

} // verus!
