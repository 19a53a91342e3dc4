//! The library's error type.
use vstd::prelude::*;

use crate::kokoro::{KokoroError, KokoroFailure};
use crate::text::{concat2, owned};

verus! {

/// Errors that can occur when using FluidAudio.
#[derive(Debug, Clone)]
pub enum FluidAudioError {
    NotInitialized(String),
    TranscriptionFailed(String),
    ProcessingFailed(String),
    FileNotFound(String),
    BridgeError(String),
    AssetsUnavailable(String),
}

/// An error as a variant and the characters of its payload.
pub enum ErrorView {
    NotInitialized(Seq<char>),
    TranscriptionFailed(Seq<char>),
    ProcessingFailed(Seq<char>),
    FileNotFound(Seq<char>),
    BridgeError(Seq<char>),
    AssetsUnavailable(Seq<char>),
}

impl View for FluidAudioError {
    type V = ErrorView;

    open spec fn view(&self) -> ErrorView {
        match self {
            FluidAudioError::NotInitialized(m) => ErrorView::NotInitialized(m@),
            FluidAudioError::TranscriptionFailed(m) => ErrorView::TranscriptionFailed(m@),
            FluidAudioError::ProcessingFailed(m) => ErrorView::ProcessingFailed(m@),
            FluidAudioError::FileNotFound(m) => ErrorView::FileNotFound(m@),
            FluidAudioError::BridgeError(m) => ErrorView::BridgeError(m@),
            FluidAudioError::AssetsUnavailable(m) => ErrorView::AssetsUnavailable(m@),
        }
    }
}

/// The human-readable text of an error.
pub open spec fn error_text(e: ErrorView) -> Seq<char> {
    match e {
        ErrorView::NotInitialized(m) => "FluidAudio not initialized: "@ + m,
        ErrorView::TranscriptionFailed(m) => "Transcription failed: "@ + m,
        ErrorView::ProcessingFailed(m) => "Processing failed: "@ + m,
        ErrorView::FileNotFound(m) => "Audio file not found: "@ + m,
        ErrorView::BridgeError(m) => "Swift bridge error: "@ + m,
        ErrorView::AssetsUnavailable(m) => "Model assets unavailable: "@ + m,
    }
}

/// The error that a Kokoro failure with `message` becomes: the failure picks
/// the variant, the message is kept.
pub open spec fn kokoro_view(failure: KokoroFailure, message: Seq<char>) -> ErrorView {
    match failure {
        KokoroFailure::NotInitialized => ErrorView::NotInitialized(message),
        KokoroFailure::AssetsUnavailable => ErrorView::AssetsUnavailable(message),
        KokoroFailure::Failed => ErrorView::BridgeError(message),
    }
}

/// The error that a failed Kokoro call becomes.
pub open spec fn kokoro_error_view(e: KokoroError) -> ErrorView {
    kokoro_view(e.failure, e.message@)
}

/// A result with its error taken by its view.
pub open spec fn result_view<T>(r: Result<T, FluidAudioError>) -> Result<T, ErrorView> {
    match r {
        Ok(v) => Ok(v),
        Err(e) => Err(e@),
    }
}

/// The outcome `o` with `v` as its value where it succeeded.
pub open spec fn with_value<T>(o: Result<(), ErrorView>, v: T) -> Result<T, ErrorView> {
    match o {
        Ok(_) => Ok(v),
        Err(e) => Err(e),
    }
}

impl FluidAudioError {
    /// The human-readable text of this error.
    pub fn to_string(&self) -> (r: String)
        ensures
            r@ == error_text(self@),
    {
        match self {
            FluidAudioError::NotInitialized(m) => concat2(
                "FluidAudio not initialized: ",
                m.as_str(),
            ),
            FluidAudioError::TranscriptionFailed(m) => concat2(
                "Transcription failed: ",
                m.as_str(),
            ),
            FluidAudioError::ProcessingFailed(m) => concat2("Processing failed: ", m.as_str()),
            FluidAudioError::FileNotFound(m) => concat2("Audio file not found: ", m.as_str()),
            FluidAudioError::BridgeError(m) => concat2("Swift bridge error: ", m.as_str()),
            FluidAudioError::AssetsUnavailable(m) => concat2(
                "Model assets unavailable: ",
                m.as_str(),
            ),
        }
    }

    /// A bridge error carrying the characters of `message`.
    pub fn bridge(message: &str) -> (e: FluidAudioError)
        ensures
            e@ == ErrorView::BridgeError(message@),
    {
        FluidAudioError::BridgeError(owned(message))
    }
}

impl From<String> for FluidAudioError {
    fn from(s: String) -> (e: FluidAudioError) {
        FluidAudioError::BridgeError(s)
    }
}

impl vstd::std_specs::convert::FromSpecImpl<String> for FluidAudioError {
    open spec fn obeys_from_spec() -> bool {
        true
    }

    open spec fn from_spec(s: String) -> FluidAudioError {
        FluidAudioError::BridgeError(s)
    }
}

impl From<KokoroError> for FluidAudioError {
    fn from(e: KokoroError) -> (r: FluidAudioError) {
        match e.failure {
            KokoroFailure::NotInitialized => FluidAudioError::NotInitialized(e.message),
            KokoroFailure::AssetsUnavailable => FluidAudioError::AssetsUnavailable(e.message),
            KokoroFailure::Failed => FluidAudioError::BridgeError(e.message),
        }
    }
}

impl vstd::std_specs::convert::FromSpecImpl<KokoroError> for FluidAudioError {
    open spec fn obeys_from_spec() -> bool {
        true
    }

    open spec fn from_spec(e: KokoroError) -> FluidAudioError {
        match e.failure {
            KokoroFailure::NotInitialized => FluidAudioError::NotInitialized(e.message),
            KokoroFailure::AssetsUnavailable => FluidAudioError::AssetsUnavailable(e.message),
            KokoroFailure::Failed => FluidAudioError::BridgeError(e.message),
        }
    }
}

/// The error for a failed Kokoro call, by way of `From`.
pub fn from_kokoro(e: KokoroError) -> (r: FluidAudioError)
    ensures
        r@ == kokoro_error_view(e),
{
    FluidAudioError::from(e)
}

/// The text of an error ends with its payload and a converted Kokoro error
/// keeps its message.
pub proof fn lemma_error_text_ends_with_payload(e: ErrorView, k: KokoroError)
    ensures
        ({
            let m = match e {
                ErrorView::NotInitialized(m) => m,
                ErrorView::TranscriptionFailed(m) => m,
                ErrorView::ProcessingFailed(m) => m,
                ErrorView::FileNotFound(m) => m,
                ErrorView::BridgeError(m) => m,
                ErrorView::AssetsUnavailable(m) => m,
            };
            error_text(e).len() > m.len() && error_text(e).subrange(
                error_text(e).len() - m.len(),
                error_text(e).len() as int,
            ) == m
        }),
        ({
            let v = kokoro_error_view(k);
            match v {
                ErrorView::NotInitialized(m) => m == k.message@,
                ErrorView::AssetsUnavailable(m) => m == k.message@,
                ErrorView::BridgeError(m) => m == k.message@,
                _ => false,
            }
        }),
{
    reveal_strlit("FluidAudio not initialized: ");
    reveal_strlit("Transcription failed: ");
    reveal_strlit("Processing failed: ");
    reveal_strlit("Audio file not found: ");
    reveal_strlit("Swift bridge error: ");
    reveal_strlit("Model assets unavailable: ");
    let t = error_text(e);
    match e {
        ErrorView::NotInitialized(m) => { assert(t.subrange(t.len() - m.len(), t.len() as int) =~= m); },
        ErrorView::TranscriptionFailed(m) => { assert(t.subrange(t.len() - m.len(), t.len() as int) =~= m); },
        ErrorView::ProcessingFailed(m) => { assert(t.subrange(t.len() - m.len(), t.len() as int) =~= m); },
        ErrorView::FileNotFound(m) => { assert(t.subrange(t.len() - m.len(), t.len() as int) =~= m); },
        ErrorView::BridgeError(m) => { assert(t.subrange(t.len() - m.len(), t.len() as int) =~= m); },
        ErrorView::AssetsUnavailable(m) => { assert(t.subrange(t.len() - m.len(), t.len() as int) =~= m); },
    }
}

} // verus!
