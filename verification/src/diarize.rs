//! Values that a controlled diarization reports and returns.
use vstd::prelude::*;

verus! {

/// One diarization progress report: `processed_samples` of `total_samples`
/// consumed after `chunks` model invocations.
#[derive(Debug, Clone, Copy, PartialEq, Eq, Structural)]
pub struct DiarizeProgress {
    pub processed_samples: u64,
    pub total_samples: u64,
    pub chunks: u32,
}

/// What a controlled diarization reports while it runs.
///
/// `ModelReady` arrives once and separates the fixed cost of loading the
/// model from the work that scales with the audio.
#[derive(Debug, Clone, Copy, PartialEq, Eq, Structural)]
pub enum DiarizeEvent {
    ModelReady,
    Progress(DiarizeProgress),
}

/// Outcome of a cancellable diarization: the segments, or the note that the
/// caller cancelled it (which is no failure).
#[derive(Debug)]
pub enum DiarizeOutcome<S> {
    Completed(S),
    Cancelled,
}

} // verus!
