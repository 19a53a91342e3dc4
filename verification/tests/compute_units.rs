use fluidaudio_rs::error::FluidAudioError;
use fluidaudio_rs::units::{DiarizeComputeUnits, KokoroComputeUnits};

#[test]
fn test_create_instance() {
    let _ = FluidAudioError::NotInitialized("test".to_string());
}

#[test]
fn compute_units_emit_the_spellings_fluidaudio_parses() {
    for (units, cli_value) in [
        (KokoroComputeUnits::Default, "default"),
        (KokoroComputeUnits::AllAne, "all-ane"),
        (KokoroComputeUnits::CpuAndGpu, "cpu-and-gpu"),
        (KokoroComputeUnits::CpuOnly, "cpu-only"),
    ] {
        assert_eq!(units.as_str(), cli_value);
        assert_eq!(cli_value.parse::<KokoroComputeUnits>().unwrap(), units);
    }
    assert_eq!(KokoroComputeUnits::default(), KokoroComputeUnits::Default);
}

#[test]
fn compute_units_accepts_aliases_and_rejects_junk() {
    for (spelling, expected) in [
        ("default", KokoroComputeUnits::Default),
        ("all-ane", KokoroComputeUnits::AllAne),
        ("ane", KokoroComputeUnits::AllAne),
        ("neural-engine", KokoroComputeUnits::AllAne),
        ("cpu-and-gpu", KokoroComputeUnits::CpuAndGpu),
        ("cpuandgpu", KokoroComputeUnits::CpuAndGpu),
        ("gpu", KokoroComputeUnits::CpuAndGpu),
        ("cpu-only", KokoroComputeUnits::CpuOnly),
        ("cpu", KokoroComputeUnits::CpuOnly),
        ("cpuonly", KokoroComputeUnits::CpuOnly),
    ] {
        assert_eq!(
            spelling.parse::<KokoroComputeUnits>().unwrap(),
            expected,
            "alias {spelling:?} should parse"
        );
    }

    assert_eq!(
        "CPU-Only".parse::<KokoroComputeUnits>().unwrap(),
        KokoroComputeUnits::CpuOnly
    );

    let err = "tpu".parse::<KokoroComputeUnits>().unwrap_err().to_string();
    assert!(
        err.contains("tpu"),
        "error should quote the bad value: {err}"
    );
    assert!(
        err.contains("cpu-and-gpu"),
        "error should list the accepted spellings: {err}"
    );
}

#[test]
fn diarize_units_round_trip_and_aliases() {
    for units in [
        DiarizeComputeUnits::All,
        DiarizeComputeUnits::CpuAndAne,
        DiarizeComputeUnits::CpuAndGpu,
        DiarizeComputeUnits::CpuOnly,
    ] {
        assert_eq!(units.as_str().parse::<DiarizeComputeUnits>().unwrap(), units);
    }
    assert_eq!(DiarizeComputeUnits::All.as_str(), "all");
    assert_eq!(DiarizeComputeUnits::CpuAndAne.as_str(), "cpu-and-ane");
    assert_eq!(DiarizeComputeUnits::CpuAndGpu.as_str(), "cpu-and-gpu");
    assert_eq!(DiarizeComputeUnits::CpuOnly.as_str(), "cpu-only");
    assert_eq!("Neural-Engine".parse::<DiarizeComputeUnits>().unwrap(), DiarizeComputeUnits::CpuAndAne);
    assert_eq!("GPU".parse::<DiarizeComputeUnits>().unwrap(), DiarizeComputeUnits::CpuAndGpu);
    assert_eq!("cpuonly".parse::<DiarizeComputeUnits>().unwrap(), DiarizeComputeUnits::CpuOnly);
    assert_eq!(DiarizeComputeUnits::default(), DiarizeComputeUnits::All);
}

#[test]
fn diarize_units_rejection_is_a_bridge_error_with_the_exact_text() {
    let err = "TPU".parse::<DiarizeComputeUnits>().unwrap_err();
    match &err {
        FluidAudioError::BridgeError(m) => assert_eq!(
            m,
            "unknown diarization compute-units preset 'tpu' (expected: all, cpu-and-ane, cpu-and-gpu, cpu-only)"
        ),
        other => panic!("unexpected variant {other:?}"),
    }
    assert_eq!(
        err.to_string(),
        "Swift bridge error: unknown diarization compute-units preset 'tpu' (expected: all, cpu-and-ane, cpu-and-gpu, cpu-only)"
    );
}

#[test]
fn kokoro_units_rejection_folds_case_and_lists_every_spelling() {
    let err = "Default-ish".parse::<KokoroComputeUnits>().unwrap_err();
    match err {
        FluidAudioError::BridgeError(m) => assert_eq!(
            m,
            "unknown Kokoro compute-units preset 'default-ish' (expected: default, all-ane, cpu-and-gpu, cpu-only)"
        ),
        other => panic!("unexpected variant {other:?}"),
    }
    assert!("".parse::<KokoroComputeUnits>().is_err());
    assert!("cpu only".parse::<KokoroComputeUnits>().is_err());
}
