//! The settings that a provider is made from.

use vstd::prelude::*;

verus! {

/// What the backends need between them. Which of it is required depends on
/// the backend that is chosen, and the choice is not part of the settings.
#[derive(Debug, Clone, PartialEq, Eq)]
pub struct SpeechToTextConfig {
    /// Where the model of the local backend is.
    pub model_path: Option<String>,
    /// Where the worker of the remote backend is.
    pub worker_url: Option<String>,
    /// The credential that the worker asks for.
    pub api_key: Option<String>,
}

} // verus!
