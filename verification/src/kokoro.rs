//! Classification of the status codes that the Kokoro text-to-speech entry
//! points return, and the messages built from them.
use vstd::prelude::*;

use crate::text::{concat2, concat3};

verus! {

/// Why a Kokoro entry point failed. The engine returns a status code rather
/// than a message, so this is the whole of what crosses the boundary.
#[derive(Debug, Clone, Copy, PartialEq, Eq, Structural)]
pub enum KokoroFailure {
    /// The engine was not initialized (call `init_kokoro` first).
    NotInitialized,
    /// A model asset was missing and offline mode blocked fetching it.
    AssetsUnavailable,
    /// Anything else; the detail is on the engine's standard error.
    Failed,
}

/// The failure that a Kokoro status code stands for.
pub open spec fn failure_of(status: i32) -> KokoroFailure {
    if status == -2 {
        KokoroFailure::NotInitialized
    } else if status == -3 {
        KokoroFailure::AssetsUnavailable
    } else {
        KokoroFailure::Failed
    }
}

/// The message of a failed Kokoro `operation`.
pub open spec fn kokoro_message(failure: KokoroFailure, operation: Seq<char>) -> Seq<char> {
    match failure {
        KokoroFailure::NotInitialized => operation + ": Kokoro is not initialized"@,
        KokoroFailure::AssetsUnavailable => operation
            + ": model assets are missing and downloads are disabled"@,
        KokoroFailure::Failed => operation + " failed"@,
    }
}

/// The message of a failed Kokoro `operation` with a detail appended.
pub open spec fn kokoro_detailed_message(
    failure: KokoroFailure,
    operation: Seq<char>,
    detail: Seq<char>,
) -> Seq<char> {
    kokoro_message(failure, operation) + ": "@ + detail
}

impl KokoroFailure {
    /// Classifies a nonzero status code of the engine.
    pub fn from_status(status: i32) -> (r: KokoroFailure)
        ensures
            r == failure_of(status),
    {
        match status {
            -2 => KokoroFailure::NotInitialized,
            -3 => KokoroFailure::AssetsUnavailable,
            _ => KokoroFailure::Failed,
        }
    }
}

/// A failed Kokoro call: the classified reason plus the operation that hit it.
#[derive(Debug, Clone)]
pub struct KokoroError {
    pub failure: KokoroFailure,
    pub message: String,
}

impl KokoroError {
    /// The error for `status` returned by `operation`.
    pub fn new(status: i32, operation: &str) -> (e: KokoroError)
        ensures
            e.failure == failure_of(status),
            e.message@ == kokoro_message(failure_of(status), operation@),
    {
        let failure = KokoroFailure::from_status(status);
        let message = match failure {
            KokoroFailure::NotInitialized => concat2(operation, ": Kokoro is not initialized"),
            KokoroFailure::AssetsUnavailable => concat2(
                operation,
                ": model assets are missing and downloads are disabled",
            ),
            KokoroFailure::Failed => concat2(operation, " failed"),
        };
        KokoroError { failure, message }
    }

    /// The error for `status` returned by `operation`, with `detail` appended
    /// to its message.
    pub fn detailed(status: i32, operation: &str, detail: String) -> (e: KokoroError)
        ensures
            e.failure == failure_of(status),
            e.message@ == kokoro_detailed_message(failure_of(status), operation@, detail@),
    {
        let err = KokoroError::new(status, operation);
        let message = concat3(err.message.as_str(), ": ", detail.as_str());
        KokoroError { failure: err.failure, message }
    }
}

/// The message of a failed Kokoro call starts with the operation's name, and
/// the classification of status codes is: -2 not initialized, -3 assets
/// unavailable, anything else failed.
pub proof fn lemma_kokoro_message_names_operation(failure: KokoroFailure, operation: Seq<char>, detail: Seq<char>, status: i32)
    ensures
        kokoro_message(failure, operation).len() > operation.len(),
        kokoro_message(failure, operation).subrange(0, operation.len() as int) == operation,
        kokoro_detailed_message(failure, operation, detail).subrange(0, operation.len() as int) == operation,
        kokoro_detailed_message(failure, operation, detail).subrange(
            kokoro_detailed_message(failure, operation, detail).len() - detail.len(),
            kokoro_detailed_message(failure, operation, detail).len() as int,
        ) == detail,
        status == -2 ==> failure_of(status) == KokoroFailure::NotInitialized,
        status == -3 ==> failure_of(status) == KokoroFailure::AssetsUnavailable,
        status != -2 && status != -3 ==> failure_of(status) == KokoroFailure::Failed,
{
    reveal_strlit(": Kokoro is not initialized");
    reveal_strlit(": model assets are missing and downloads are disabled");
    reveal_strlit(" failed");
    let m = kokoro_message(failure, operation);
    assert(m.subrange(0, operation.len() as int) =~= operation);
    let d = kokoro_detailed_message(failure, operation, detail);
    assert(d.subrange(0, operation.len() as int) =~= operation);
    assert(d.subrange(d.len() - detail.len(), d.len() as int) =~= detail);
}

} // verus!
