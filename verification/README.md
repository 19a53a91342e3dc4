# fluidaudio-rs

Bindings for the FluidAudio engine (speech recognition, voice activity
detection, speaker diarization, Kokoro text-to-speech and inverse text
normalization on Apple platforms), split in two:

- `src/` is the verified library. It holds what the bindings decide: the
  compute-unit presets and their spellings, the classification of Kokoro
  status codes, the error type, what each entry point returns for each reply
  of the engine (missing files, strings that cannot cross as C strings,
  status codes, cancelled runs), which engines the engine has confirmed as
  ready, and the assembly of per-item results from the engine's parallel
  arrays. Every function there carries a contract proved by Verus; the laws
  (preset round trips, case-insensitive parsing, informative refusals,
  cleanup, cancellation, classification of Kokoro failures) are proof
  functions.
- `app/` is the native side: the raw calls into the engine, the result types
  that carry floating-point values, the `FluidAudio` facade that performs a
  call and hands the reply to the verified session, and the error type with
  its `Display` and `std::error::Error` impls.
