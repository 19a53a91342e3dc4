use fluidaudio_rs::error::FluidAudioError;
use fluidaudio_rs::kokoro::{KokoroError, KokoroFailure};

#[test]
fn kokoro_status_codes_are_classified() {
    assert_eq!(KokoroFailure::from_status(-2), KokoroFailure::NotInitialized);
    assert_eq!(KokoroFailure::from_status(-3), KokoroFailure::AssetsUnavailable);
    assert_eq!(KokoroFailure::from_status(-1), KokoroFailure::Failed);
    assert_eq!(KokoroFailure::from_status(7), KokoroFailure::Failed);
}

#[test]
fn kokoro_error_messages_name_the_operation() {
    let e = KokoroError::new(-2, "synthesize");
    assert_eq!(e.failure, KokoroFailure::NotInitialized);
    assert_eq!(e.message, "synthesize: Kokoro is not initialized");
    let e = KokoroError::new(-3, "initialize Kokoro");
    assert_eq!(
        e.message,
        "initialize Kokoro: model assets are missing and downloads are disabled"
    );
    let e = KokoroError::new(-9, "synthesize");
    assert_eq!(e.message, "synthesize failed");
    let e = KokoroError::detailed(-1, "synthesize", "no audio".to_string());
    assert_eq!(e.failure, KokoroFailure::Failed);
    assert_eq!(e.message, "synthesize failed: no audio");
}

#[test]
fn kokoro_errors_convert_by_failure() {
    let e: FluidAudioError = KokoroError::new(-2, "op").into();
    assert!(matches!(e, FluidAudioError::NotInitialized(ref m) if m == "op: Kokoro is not initialized"));
    let e: FluidAudioError = KokoroError::new(-3, "op").into();
    assert!(matches!(e, FluidAudioError::AssetsUnavailable(_)));
    let e: FluidAudioError = KokoroError::new(-1, "op").into();
    assert!(matches!(e, FluidAudioError::BridgeError(ref m) if m == "op failed"));
}

#[test]
fn strings_become_bridge_errors() {
    let e: FluidAudioError = String::from("boom").into();
    assert!(matches!(e, FluidAudioError::BridgeError(ref m) if m == "boom"));
    assert_eq!(e.to_string(), "Swift bridge error: boom");
    assert_eq!(
        FluidAudioError::FileNotFound("a.wav".to_string()).to_string(),
        "Audio file not found: a.wav"
    );
    assert_eq!(
        FluidAudioError::NotInitialized("x".to_string()).to_string(),
        "FluidAudio not initialized: x"
    );
    assert_eq!(
        FluidAudioError::TranscriptionFailed("x".to_string()).to_string(),
        "Transcription failed: x"
    );
    assert_eq!(
        FluidAudioError::ProcessingFailed("x".to_string()).to_string(),
        "Processing failed: x"
    );
}
