//! The failures that a transcription call can end with.

use vstd::prelude::*;
use vstd::string::StringExecFns;

verus! {

/// Why a call to a provider failed. Every provider reports its failures in
/// these kinds and no other.
#[derive(Debug, Clone, PartialEq, Eq)]
pub enum TranscriberError {
    /// The buffer is empty, or it is not audio that the provider can decode.
    InvalidAudioData,
    /// A failure that fits no other kind.
    Unknown(String),
    /// The local inference engine failed; the text is the engine's own.
    Whisper(String),
    /// A backend failed for a reason of its own; the text names the cause.
    Provider(String),
}

/// A [`TranscriberError`] with its texts as sequences of characters.
pub enum ErrorView {
    InvalidAudioData,
    Unknown(Seq<char>),
    Whisper(Seq<char>),
    Provider(Seq<char>),
}

impl ErrorView {
    /// The line that describes the failure to a reader.
    pub open spec fn message(self) -> Seq<char> {
        match self {
            ErrorView::InvalidAudioData => "Invalid audio data"@,
            ErrorView::Unknown(text) => "Unknown error: "@ + text,
            ErrorView::Whisper(text) => "Wishper error: "@ + text,
            ErrorView::Provider(cause) => cause,
        }
    }
}

impl View for TranscriberError {
    type V = ErrorView;

    open spec fn view(&self) -> ErrorView {
        match self {
            TranscriberError::InvalidAudioData => ErrorView::InvalidAudioData,
            TranscriberError::Unknown(text) => ErrorView::Unknown(text@),
            TranscriberError::Whisper(text) => ErrorView::Whisper(text@),
            TranscriberError::Provider(cause) => ErrorView::Provider(cause@),
        }
    }
}

impl TranscriberError {
    /// The line that describes the failure to a reader.
    pub fn message(&self) -> (r: String)
        ensures
            r@ == self@.message(),
    {
        match self {
            TranscriberError::InvalidAudioData => String::from_str("Invalid audio data"),
            TranscriberError::Unknown(text) => {
                String::from_str("Unknown error: ").concat(text.as_str())
            },
            TranscriberError::Whisper(text) => {
                String::from_str("Wishper error: ").concat(text.as_str())
            },
            TranscriberError::Provider(cause) => cause.clone(),
        }
    }
}

} // verus!
