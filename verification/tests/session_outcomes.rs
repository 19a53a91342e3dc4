//! The session's decisions on concrete replies, one per law and per error.
use fluidaudio_rs::diarize::DiarizeOutcome;
use fluidaudio_rs::error::FluidAudioError;
use fluidaudio_rs::marshal::{diarization_rows, vad_rows};
use fluidaudio_rs::session::{
    calls_engine_on_lexicon, calls_engine_on_model_paths, calls_engine_on_path, calls_engine_on_text,
    calls_engine_on_texts, FluidAudio,
};
use fluidaudio_rs::text::{ascii_lowercase, is_c_compatible, text_or};
use fluidaudio_rs::units::{DiarizeComputeUnits, KokoroComputeUnits};

fn bridge_message(e: FluidAudioError) -> String {
    match e {
        FluidAudioError::BridgeError(m) => m,
        other => panic!("expected a bridge error, got {other:?}"),
    }
}

#[test]
fn failed_bridge_creation_is_reported() {
    let e = FluidAudio::new(false).err().expect("no bridge");
    assert_eq!(bridge_message(e), "Failed to create bridge");
    let e = FluidAudio::with_models_dir("a\0b", true).err().expect("NUL dir");
    assert_eq!(bridge_message(e), "Failed to create bridge");
}

#[test]
fn init_then_available_and_cleanup_clears_everything() {
    let mut audio = FluidAudio::new(true).unwrap();
    assert_eq!(
        bridge_message(audio.init_asr(-1).unwrap_err()),
        "Failed to initialize ASR"
    );
    assert!(!audio.is_asr_available());
    audio.init_asr(0).unwrap();
    audio.init_streaming_asr(0).unwrap();
    audio.init_vad(0).unwrap();
    audio.init_diarization(0).unwrap();
    audio.init_kokoro("af_heart", "en-us", 0).unwrap();
    assert!(audio.is_asr_available());
    assert!(audio.is_streaming_asr_available());
    assert!(audio.is_vad_available());
    assert!(audio.is_diarization_available());
    assert!(audio.is_kokoro_available());
    audio.cleanup();
    assert!(!audio.is_asr_available());
    assert!(!audio.is_streaming_asr_available());
    assert!(!audio.is_vad_available());
    assert!(!audio.is_diarization_available());
    assert!(!audio.is_kokoro_available());
    audio.cleanup();
    assert!(!audio.is_asr_available());
}

#[test]
fn init_failures_carry_their_messages() {
    let mut audio = FluidAudio::new(true).unwrap();
    assert_eq!(
        bridge_message(audio.init_streaming_asr(1).unwrap_err()),
        "Failed to initialize streaming ASR"
    );
    assert_eq!(bridge_message(audio.init_vad(1).unwrap_err()), "Failed to initialize VAD");
    assert_eq!(
        bridge_message(audio.init_diarization(1).unwrap_err()),
        "Failed to initialize diarization"
    );
}

#[test]
fn streaming_session_finish_returns_text_and_ends_it() {
    let mut audio = FluidAudio::new(true).unwrap();
    audio.init_streaming_asr(0).unwrap();
    audio.streaming_asr_start(0).unwrap();
    audio.streaming_asr_feed(0).unwrap();
    assert_eq!(
        bridge_message(audio.streaming_asr_feed(3).unwrap_err()),
        "Failed to feed samples to streaming ASR"
    );
    assert_eq!(
        audio.streaming_asr_finish(0, Some("hello world".to_string())).unwrap(),
        "hello world"
    );
    assert_eq!(audio.streaming_asr_finish(0, None).unwrap(), "");
    assert_eq!(
        bridge_message(audio.streaming_asr_finish(-1, Some("x".to_string())).unwrap_err()),
        "Failed to finish streaming ASR session"
    );
    assert_eq!(
        bridge_message(audio.streaming_asr_start(-1).unwrap_err()),
        "Failed to start streaming ASR session"
    );
}

#[test]
fn file_calls_check_existence_then_path_then_status() {
    let audio = FluidAudio::new(true).unwrap();
    match audio.transcribe_file("a.wav", false, -1, 5u8).unwrap_err() {
        FluidAudioError::FileNotFound(p) => assert_eq!(p, "a.wav"),
        other => panic!("unexpected {other:?}"),
    }
    assert_eq!(
        bridge_message(audio.transcribe_file("a\0.wav", true, 0, 5u8).unwrap_err()),
        "Invalid path"
    );
    assert_eq!(
        bridge_message(audio.transcribe_file("a.wav", true, -1, 5u8).unwrap_err()),
        "Transcription failed"
    );
    assert_eq!(audio.transcribe_file("a.wav", true, 0, 5u8).unwrap(), 5u8);
    assert_eq!(audio.transcribe_samples(0, 7u8).unwrap(), 7u8);
    assert_eq!(
        bridge_message(audio.transcribe_samples(2, 7u8).unwrap_err()),
        "Transcription failed"
    );
    assert_eq!(
        bridge_message(audio.transcribe_file_streaming("a.wav", true, 1, ()).unwrap_err()),
        "Streaming file transcription failed"
    );
    assert_eq!(
        bridge_message(audio.vad_process_file("a.wav", true, 1, ()).unwrap_err()),
        "VAD process file failed"
    );
    assert_eq!(
        bridge_message(audio.vad_process_samples(1, ()).unwrap_err()),
        "VAD process samples failed"
    );
    assert_eq!(
        bridge_message(audio.diarize_file("a.wav", true, 1, ()).unwrap_err()),
        "Diarization failed"
    );
    assert_eq!(audio.diarize_file("a.wav", true, 0, vec![1, 2]).unwrap(), vec![1, 2]);
}

#[test]
fn model_path_diarization_checks_audio_first() {
    let audio = FluidAudio::new(true).unwrap();
    match audio
        .diarize_file_with_models("a.wav", false, "m.mlpackage", false, 0, ())
        .unwrap_err()
    {
        FluidAudioError::FileNotFound(p) => assert_eq!(p, "a.wav"),
        other => panic!("unexpected {other:?}"),
    }
    match audio
        .diarize_file_with_models("a.wav", true, "m.mlpackage", false, 0, ())
        .unwrap_err()
    {
        FluidAudioError::FileNotFound(p) => assert_eq!(p, "m.mlpackage"),
        other => panic!("unexpected {other:?}"),
    }
    assert_eq!(
        bridge_message(
            audio
                .diarize_file_with_models("a\0", true, "m", true, 0, ())
                .unwrap_err()
        ),
        "Invalid audio path"
    );
    assert_eq!(
        bridge_message(
            audio
                .diarize_file_with_models("a", true, "m\0", true, 0, ())
                .unwrap_err()
        ),
        "Invalid model path"
    );
    assert_eq!(
        bridge_message(
            audio
                .diarize_file_with_models("a", true, "m", true, 4, ())
                .unwrap_err()
        ),
        "Diarization (model path) failed"
    );
}

#[test]
fn controlled_diarization_outcomes() {
    let audio = FluidAudio::new(true).unwrap();
    let run = |status: i32| {
        audio.diarize_file_with_models_controlled(
            "a.wav",
            true,
            "m.mlpackage",
            true,
            DiarizeComputeUnits::CpuAndGpu,
            status,
            vec![9u8],
        )
    };
    assert!(matches!(run(0).unwrap(), DiarizeOutcome::Completed(v) if v == vec![9u8]));
    assert!(matches!(run(-2).unwrap(), DiarizeOutcome::Cancelled));
    assert_eq!(
        bridge_message(run(-1).unwrap_err()),
        "Diarization (model path) failed (compute units: cpu-and-gpu)"
    );
}

#[test]
fn compile_model_outcomes() {
    let audio = FluidAudio::new(true).unwrap();
    assert!(matches!(
        audio.compile_diarization_model("m", false, 0).unwrap_err(),
        FluidAudioError::FileNotFound(_)
    ));
    assert_eq!(
        bridge_message(audio.compile_diarization_model("m\0", true, 0).unwrap_err()),
        "Invalid model path"
    );
    assert_eq!(
        bridge_message(audio.compile_diarization_model("m", true, 1).unwrap_err()),
        "Diarization model warm-up (compile) failed"
    );
    audio.compile_diarization_model("m", true, 0).unwrap();
}

#[test]
fn kokoro_initialization_outcomes() {
    let mut audio = FluidAudio::new(true).unwrap();
    assert_eq!(
        bridge_message(audio.init_kokoro("a\0", "en", 0).unwrap_err()),
        "initialize Kokoro failed: invalid voice"
    );
    assert_eq!(
        bridge_message(audio.init_kokoro("af_heart", "e\0n", 0).unwrap_err()),
        "initialize Kokoro failed: invalid lang"
    );
    match audio.init_kokoro("af_heart", "en-us", -3).unwrap_err() {
        FluidAudioError::AssetsUnavailable(m) => assert_eq!(
            m,
            "initialize Kokoro: model assets are missing and downloads are disabled"
        ),
        other => panic!("unexpected {other:?}"),
    }
    assert!(!audio.is_kokoro_available());
    match audio
        .init_kokoro_with_compute_units("af_heart", "en-us", KokoroComputeUnits::Default, -2)
        .unwrap_err()
    {
        FluidAudioError::NotInitialized(m) => assert_eq!(
            m,
            "initialize Kokoro: Kokoro is not initialized: compute units: default"
        ),
        other => panic!("unexpected {other:?}"),
    }
}

#[test]
fn kokoro_synthesis_outcomes() {
    let audio = FluidAudio::new(true).unwrap();
    match audio.synthesize_kokoro("Hello", "af_heart", -2, Vec::new()).unwrap_err() {
        FluidAudioError::NotInitialized(m) => assert_eq!(m, "synthesize: Kokoro is not initialized"),
        other => panic!("unexpected {other:?}"),
    }
    assert_eq!(
        bridge_message(audio.synthesize_kokoro("He\0llo", "af_heart", 0, vec![1]).unwrap_err()),
        "synthesize failed: invalid text"
    );
    assert_eq!(
        bridge_message(audio.synthesize_kokoro("Hello", "af\0", 0, vec![1]).unwrap_err()),
        "synthesize failed: invalid voice"
    );
    assert_eq!(
        bridge_message(audio.synthesize_kokoro("Hello", "af_heart", 0, Vec::new()).unwrap_err()),
        "synthesize failed: no audio"
    );
    assert_eq!(
        audio.synthesize_kokoro("Hello", "af_heart", 0, vec![82, 73, 70, 70]).unwrap(),
        vec![82, 73, 70, 70]
    );
}

#[test]
fn lexicon_outcomes() {
    let audio = FluidAudio::new(true).unwrap();
    audio.set_kokoro_english_lexicon(&[], 0).unwrap();
    audio.set_kokoro_english_lexicon(&[("JSON", "ˈdʒeɪsən")], 0).unwrap();
    assert_eq!(
        bridge_message(
            audio
                .set_kokoro_english_lexicon(&[("ok", "ok"), ("b\0ad", "x")], 0)
                .unwrap_err()
        ),
        "set the English lexicon failed: invalid word 'b\0ad'"
    );
    assert_eq!(
        bridge_message(
            audio
                .set_kokoro_english_lexicon(&[("word", "x\0"), ("b\0ad", "x")], 0)
                .unwrap_err()
        ),
        "set the English lexicon failed: invalid phonemes for 'word'"
    );
    assert!(matches!(
        audio.set_kokoro_english_lexicon(&[("a", "b")], -3).unwrap_err(),
        FluidAudioError::AssetsUnavailable(_)
    ));
}

#[test]
fn itn_outcomes() {
    let audio = FluidAudio::new(true).unwrap();
    assert_eq!(
        audio.itn_normalize("two hundred thirty two", 0, Some("232".to_string())).unwrap(),
        "232"
    );
    assert_eq!(audio.itn_normalize("x", 0, None).unwrap(), "");
    assert_eq!(
        bridge_message(audio.itn_normalize("a\0b", 0, None).unwrap_err()),
        "Invalid text (NUL byte)"
    );
    assert_eq!(
        bridge_message(audio.itn_normalize("x", 1, None).unwrap_err()),
        "ITN normalize failed"
    );
    assert_eq!(
        bridge_message(audio.itn_normalize_sentence("x", 1, None).unwrap_err()),
        "ITN normalize_sentence failed"
    );
    assert_eq!(
        bridge_message(audio.itn_normalize_sentence_max_span("x", 1, None).unwrap_err()),
        "ITN normalize_sentence_max_span failed"
    );
}

#[test]
fn text_helpers() {
    assert_eq!(ascii_lowercase("CPU-Only Ä"), "cpu-only Ä");
    assert!(is_c_compatible("héllo"));
    assert!(!is_c_compatible("a\0"));
    assert_eq!(text_or(None, "unknown"), "unknown");
    assert_eq!(text_or(Some("macOS".to_string()), "unknown"), "macOS");
}

#[test]
fn parallel_arrays_become_rows() {
    let ids = vec![Some("SPEAKER_00".to_string()), None];
    let starts = [0.0f32, 1.5];
    let ends = [1.5f32, 3.0];
    let q = [0.9f32, 0.8];
    let rows = diarization_rows(2, Some(&ids), Some(&starts[..]), Some(&ends[..]), Some(&q[..]));
    assert_eq!(rows.len(), 2);
    assert_eq!(rows[0], ("SPEAKER_00".to_string(), 0.0, 1.5, 0.9));
    assert_eq!(rows[1], (String::new(), 1.5, 3.0, 0.8));
    assert!(diarization_rows(2, Some(&ids), None, Some(&ends[..]), Some(&q[..])).is_empty());
    assert!(diarization_rows::<f32>(0, None, None, None, None).is_empty());

    let probs = [0.1f32, 0.9, 0.5];
    let voice = [0u8, 1, 2];
    let times = [0.01f64, 0.02, 0.03];
    let frames = vad_rows(3, Some(&probs[..]), Some(&voice[..]), Some(&times[..]));
    assert_eq!(frames, vec![(0.1, false, 0.01), (0.9, true, 0.02), (0.5, true, 0.03)]);
    assert!(vad_rows(3, Some(&probs[..]), None, Some(&times[..])).is_empty());
}

#[test]
fn engine_is_called_only_on_accepted_arguments() {
    assert!(calls_engine_on_path("a.wav", true));
    assert!(!calls_engine_on_path("a.wav", false));
    assert!(!calls_engine_on_path("a\0.wav", true));
    assert!(calls_engine_on_model_paths("a.wav", true, "m.mlpackage", true));
    assert!(!calls_engine_on_model_paths("a.wav", true, "m.mlpackage", false));
    assert!(!calls_engine_on_model_paths("a.wav", false, "m.mlpackage", true));
    assert!(!calls_engine_on_model_paths("a\0", true, "m", true));
    assert!(!calls_engine_on_model_paths("a", true, "m\0", true));
    assert!(calls_engine_on_text("hello"));
    assert!(!calls_engine_on_text("he\0llo"));
    assert!(calls_engine_on_texts("af_heart", "en-us"));
    assert!(!calls_engine_on_texts("af_heart", "en\0"));
    assert!(!calls_engine_on_texts("a\0", "en"));
    assert!(calls_engine_on_lexicon(&[]));
    assert!(calls_engine_on_lexicon(&[("JSON", "ˈdʒeɪsən")]));
    assert!(!calls_engine_on_lexicon(&[("ok", "ok"), ("w", "x\0")]));
    assert!(!calls_engine_on_lexicon(&[("b\0", "x")]));
}

#[test]
fn preset_names_cross_as_c_strings() {
    for u in [
        KokoroComputeUnits::Default,
        KokoroComputeUnits::AllAne,
        KokoroComputeUnits::CpuAndGpu,
        KokoroComputeUnits::CpuOnly,
    ] {
        assert!(is_c_compatible(u.as_str()));
    }
    for u in [
        DiarizeComputeUnits::All,
        DiarizeComputeUnits::CpuAndAne,
        DiarizeComputeUnits::CpuAndGpu,
        DiarizeComputeUnits::CpuOnly,
    ] {
        assert!(is_c_compatible(u.as_str()));
    }
}

#[test]
fn refused_path_outcome_ignores_the_reply() {
    let audio = FluidAudio::new(true).unwrap();
    let a = bridge_message(audio.transcribe_file("a\0", true, 0, ()).unwrap_err());
    let b = bridge_message(audio.transcribe_file("a\0", true, -7, ()).unwrap_err());
    assert_eq!(a, b);
}
