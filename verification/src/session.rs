//! The FluidAudio session: what each entry point decides from its arguments
//! and from the engine's reply, and which engines the engine has confirmed as
//! ready.
//!
//! The engine itself (model loading, transcription, synthesis) is a native
//! service. The caller performs each call on it and hands its reply (the status
//! code and any returned value) to the matching method here. Where an argument
//! is refused before the call (a missing file, a string that cannot cross as a
//! C string), the call is not made and the reply is not read; the `calls_*`
//! functions below decide whether a call is made.
//!
//! Whether an engine is ready is answered from the engine's own replies: an
//! engine counts as ready once its initialization returned success, until the
//! next cleanup. This rests on the engine keeping an engine ready from a
//! successful initialization until cleanup and on a failed initialization
//! leaving it as it was; the engine is not asked again.
use vstd::prelude::*;

use crate::diarize::DiarizeOutcome;
use crate::error::{from_kokoro, kokoro_view, result_view, with_value, ErrorView, FluidAudioError};
use crate::kokoro::{failure_of, kokoro_detailed_message, kokoro_message, KokoroError};
use crate::text::{c_compatible, concat2, concat3, is_c_compatible, owned};
use crate::units::{kokoro_units_name, KokoroComputeUnits, DiarizeComputeUnits, diarize_units_name};

verus! {

/// Which engines are ready and whether a streaming session is open.
pub struct Readiness {
    pub asr: bool,
    pub streaming_asr: bool,
    pub streaming_session: bool,
    pub vad: bool,
    pub diarization: bool,
    pub kokoro: bool,
}

/// Nothing is ready and no session is open.
pub open spec fn idle() -> Readiness {
    Readiness {
        asr: false,
        streaming_asr: false,
        streaming_session: false,
        vad: false,
        diarization: false,
        kokoro: false,
    }
}

/// The outcome of a call whose reply is only a status: success on zero, else
/// a bridge error with `failure` as its message.
pub open spec fn status_outcome(status: i32, failure: Seq<char>) -> Result<(), ErrorView> {
    if status == 0 {
        Ok(())
    } else {
        Err(ErrorView::BridgeError(failure))
    }
}

/// The outcome of a call on one file: a missing file is reported before the
/// call, a path that cannot cross as a C string is refused, else the status
/// decides.
pub open spec fn path_outcome(
    path: Seq<char>,
    exists: bool,
    status: i32,
    failure: Seq<char>,
) -> Result<(), ErrorView> {
    if !exists {
        Err(ErrorView::FileNotFound(path))
    } else if !c_compatible(path) {
        Err(ErrorView::BridgeError("Invalid path"@))
    } else {
        status_outcome(status, failure)
    }
}

/// The checks of the calls on an audio file and a model package, in the
/// order they are made.
pub open spec fn model_paths_outcome(
    audio: Seq<char>,
    audio_exists: bool,
    model: Seq<char>,
    model_exists: bool,
) -> Result<(), ErrorView> {
    if !audio_exists {
        Err(ErrorView::FileNotFound(audio))
    } else if !model_exists {
        Err(ErrorView::FileNotFound(model))
    } else if !c_compatible(audio) {
        Err(ErrorView::BridgeError("Invalid audio path"@))
    } else if !c_compatible(model) {
        Err(ErrorView::BridgeError("Invalid model path"@))
    } else {
        Ok(())
    }
}

/// The error for `status` of the Kokoro `operation`.
pub open spec fn kokoro_fault(status: i32, operation: Seq<char>) -> ErrorView {
    kokoro_view(failure_of(status), kokoro_message(failure_of(status), operation))
}

/// The error for `status` of the Kokoro `operation`, with `detail` appended.
pub open spec fn kokoro_fault_detailed(status: i32, operation: Seq<char>, detail: Seq<char>) -> ErrorView {
    kokoro_view(failure_of(status), kokoro_detailed_message(failure_of(status), operation, detail))
}

/// The outcome of initializing Kokoro with `voice` and `lang`.
pub open spec fn kokoro_init_outcome(voice: Seq<char>, lang: Seq<char>, status: i32) -> Result<(), ErrorView> {
    if !c_compatible(voice) {
        Err(kokoro_fault_detailed(-1i32, "initialize Kokoro"@, "invalid voice"@))
    } else if !c_compatible(lang) {
        Err(kokoro_fault_detailed(-1i32, "initialize Kokoro"@, "invalid lang"@))
    } else if status == 0 {
        Ok(())
    } else {
        Err(kokoro_fault(status, "initialize Kokoro"@))
    }
}

/// The outcome of initializing Kokoro on the preset named `units`.
pub open spec fn kokoro_init_units_outcome(
    voice: Seq<char>,
    lang: Seq<char>,
    units: Seq<char>,
    status: i32,
) -> Result<(), ErrorView> {
    if !c_compatible(voice) {
        Err(kokoro_fault_detailed(-1i32, "initialize Kokoro"@, "invalid voice"@))
    } else if !c_compatible(lang) {
        Err(kokoro_fault_detailed(-1i32, "initialize Kokoro"@, "invalid lang"@))
    } else if status == 0 {
        Ok(())
    } else {
        Err(kokoro_fault_detailed(status, "initialize Kokoro"@, "compute units: "@ + units))
    }
}

/// The outcome of a synthesis of `text` with `voice` that produced `audio`.
pub open spec fn synthesis_outcome(
    text: Seq<char>,
    voice: Seq<char>,
    status: i32,
    audio: Seq<u8>,
) -> Result<(), ErrorView> {
    if !c_compatible(text) {
        Err(kokoro_fault_detailed(-1i32, "synthesize"@, "invalid text"@))
    } else if !c_compatible(voice) {
        Err(kokoro_fault_detailed(-1i32, "synthesize"@, "invalid voice"@))
    } else if status != 0 {
        Err(kokoro_fault(status, "synthesize"@))
    } else if audio.len() == 0 {
        Err(kokoro_fault_detailed(-1i32, "synthesize"@, "no audio"@))
    } else {
        Ok(())
    }
}

/// The first lexicon entry that cannot cross as C strings, as the detail of
/// the refusal; `None` when every entry can.
pub open spec fn lexicon_problem(entries: Seq<(Seq<char>, Seq<char>)>) -> Option<Seq<char>>
    decreases entries.len(),
{
    if entries.len() == 0 {
        None
    } else if !c_compatible(entries[0].0) {
        Some("invalid word '"@ + entries[0].0 + "'"@)
    } else if !c_compatible(entries[0].1) {
        Some("invalid phonemes for '"@ + entries[0].0 + "'"@)
    } else {
        lexicon_problem(entries.drop_first())
    }
}

/// The characters of each word and pronunciation of a lexicon.
pub open spec fn lexicon_view(entries: Seq<(&str, &str)>) -> Seq<(Seq<char>, Seq<char>)> {
    entries.map_values(|e: (&str, &str)| (e.0@, e.1@))
}

/// The outcome of installing a lexicon.
pub open spec fn lexicon_outcome(entries: Seq<(Seq<char>, Seq<char>)>, status: i32) -> Result<(), ErrorView> {
    match lexicon_problem(entries) {
        Some(detail) => Err(kokoro_fault_detailed(-1i32, "set the English lexicon"@, detail)),
        None => if status == 0 {
            Ok(())
        } else {
            Err(kokoro_fault(status, "set the English lexicon"@))
        },
    }
}

/// The outcome of a text normalization of `text`.
pub open spec fn itn_outcome(text: Seq<char>, status: i32, failure: Seq<char>) -> Result<(), ErrorView> {
    if !c_compatible(text) {
        Err(ErrorView::BridgeError("Invalid text (NUL byte)"@))
    } else {
        status_outcome(status, failure)
    }
}

/// The characters of text the engine handed back; none stands for empty.
pub open spec fn returned_text(text: Option<String>) -> Seq<char> {
    match text {
        Some(t) => t@,
        None => Seq::empty(),
    }
}

/// What a string result is: its error by view, its text by characters.
pub open spec fn text_result_view(r: Result<String, FluidAudioError>) -> Result<Seq<char>, ErrorView> {
    match r {
        Ok(t) => Ok(t@),
        Err(e) => Err(e@),
    }
}

/// The outcome `o` with the characters `t` as its value where it succeeded.
pub open spec fn with_text(o: Result<(), ErrorView>, t: Seq<char>) -> Result<Seq<char>, ErrorView> {
    match o {
        Ok(_) => Ok(t),
        Err(e) => Err(e),
    }
}

/// The outcome of a controlled diarization on the preset named `units`.
pub open spec fn controlled_outcome<S>(
    paths: Result<(), ErrorView>,
    units: Seq<char>,
    status: i32,
    segments: S,
) -> Result<DiarizeOutcome<S>, ErrorView> {
    match paths {
        Err(e) => Err(e),
        Ok(_) => if status == 0 {
            Ok(DiarizeOutcome::Completed(segments))
        } else if status == -2 {
            Ok(DiarizeOutcome::Cancelled)
        } else {
            Err(
                ErrorView::BridgeError(
                    "Diarization (model path) failed (compute units: "@ + units + ")"@,
                ),
            )
        },
    }
}

/// A status-only reply as a result.
fn check_status(status: i32, failure: &str) -> (r: Result<(), FluidAudioError>)
    ensures
        result_view(r) == status_outcome(status, failure@),
{
    if status == 0 {
        Ok(())
    } else {
        Err(FluidAudioError::bridge(failure))
    }
}

/// The checks and the status of a call on one file.
fn check_path(path: &str, exists: bool, status: i32, failure: &str) -> (r: Result<(), FluidAudioError>)
    ensures
        result_view(r) == path_outcome(path@, exists, status, failure@),
{
    if !exists {
        return Err(FluidAudioError::FileNotFound(owned(path)));
    }
    if !is_c_compatible(path) {
        return Err(FluidAudioError::bridge("Invalid path"));
    }
    check_status(status, failure)
}

/// The checks of a call on an audio file and a model package.
fn check_model_paths(audio: &str, audio_exists: bool, model: &str, model_exists: bool) -> (r: Result<(), FluidAudioError>)
    ensures
        result_view(r) == model_paths_outcome(audio@, audio_exists, model@, model_exists),
{
    if !audio_exists {
        return Err(FluidAudioError::FileNotFound(owned(audio)));
    }
    if !model_exists {
        return Err(FluidAudioError::FileNotFound(owned(model)));
    }
    if !is_c_compatible(audio) {
        return Err(FluidAudioError::bridge("Invalid audio path"));
    }
    if !is_c_compatible(model) {
        return Err(FluidAudioError::bridge("Invalid model path"));
    }
    Ok(())
}

/// `r` with `v` as its value where it succeeded.
fn attach<T>(r: Result<(), FluidAudioError>, v: T) -> (out: Result<T, FluidAudioError>)
    ensures
        result_view(out) == with_value(result_view(r), v),
{
    match r {
        Ok(_) => Ok(v),
        Err(e) => Err(e),
    }
}

/// The Kokoro error for `status` of `operation`.
fn kokoro_failure(status: i32, operation: &str) -> (e: FluidAudioError)
    ensures
        e@ == kokoro_fault(status, operation@),
{
    from_kokoro(KokoroError::new(status, operation))
}

/// The Kokoro error for `status` of `operation`, with `detail` appended.
fn kokoro_failure_detailed(status: i32, operation: &str, detail: String) -> (e: FluidAudioError)
    ensures
        e@ == kokoro_fault_detailed(status, operation@, detail@),
{
    from_kokoro(KokoroError::detailed(status, operation, detail))
}

/// The text the engine handed back; none stands for empty.
fn returned(text: Option<String>) -> (r: String)
    ensures
        r@ == returned_text(text),
{
    match text {
        Some(t) => t,
        None => String::new(),
    }
}

/// The text of a successful normalization.
fn itn_result(text: &str, status: i32, failure: &str, out: Option<String>) -> (r: Result<String, FluidAudioError>)
    ensures
        text_result_view(r) == with_text(itn_outcome(text@, status, failure@), returned_text(out)),
{
    if !is_c_compatible(text) {
        return Err(FluidAudioError::bridge("Invalid text (NUL byte)"));
    }
    match check_status(status, failure) {
        Ok(_) => Ok(returned(out)),
        Err(e) => Err(e),
    }
}

/// The session after a cleanup of `s`: nothing ready, no session open.
pub open spec fn cleaned(s: Readiness) -> Readiness {
    idle()
}

/// Whether a call on the file at `path` is made: only for an existing file
/// whose path can cross as a C string.
pub fn calls_engine_on_path(path: &str, exists: bool) -> (b: bool)
    ensures
        b == (exists && c_compatible(path@)),
        b == (path_outcome(path@, exists, 0, Seq::empty()) is Ok),
{
    exists && is_c_compatible(path)
}

/// Whether a call on an audio file and a model package is made: only when
/// both exist and both paths can cross as C strings.
pub fn calls_engine_on_model_paths(audio: &str, audio_exists: bool, model: &str, model_exists: bool) -> (b: bool)
    ensures
        b == (model_paths_outcome(audio@, audio_exists, model@, model_exists) is Ok),
{
    audio_exists && model_exists && is_c_compatible(audio) && is_c_compatible(model)
}

/// Whether a call that takes one string is made: only when it can cross as a
/// C string.
pub fn calls_engine_on_text(text: &str) -> (b: bool)
    ensures
        b == c_compatible(text@),
{
    is_c_compatible(text)
}

/// Whether a call that takes two strings (a voice and a language, or a text
/// and a voice) is made: only when both can cross as C strings.
pub fn calls_engine_on_texts(first: &str, second: &str) -> (b: bool)
    ensures
        b == (c_compatible(first@) && c_compatible(second@)),
{
    is_c_compatible(first) && is_c_compatible(second)
}

/// Whether the lexicon is handed to the engine: only when every word and
/// every pronunciation can cross as a C string.
pub fn calls_engine_on_lexicon(entries: &[(&str, &str)]) -> (b: bool)
    ensures
        b == (lexicon_problem(lexicon_view(entries@)) is None),
{
    let n = entries.len();
    let ghost all = lexicon_view(entries@);
    let mut i: usize = 0;
    proof {
        assert(all.subrange(0, n as int) =~= all);
    }
    while i < n
        invariant
            n == entries@.len(),
            all == lexicon_view(entries@),
            i <= n,
            lexicon_problem(all) == lexicon_problem(all.subrange(i as int, n as int)),
        decreases n - i,
    {
        let (word, ipa) = entries[i];
        proof {
            let rest = all.subrange(i as int, n as int);
            assert(rest[0] == (word@, ipa@));
            assert(rest.drop_first() =~= all.subrange(i + 1, n as int));
        }
        if !is_c_compatible(word) || !is_c_compatible(ipa) {
            return false;
        }
        i = i + 1;
    }
    proof {
        assert(all.subrange(n as int, n as int) =~= Seq::<(Seq<char>, Seq<char>)>::empty());
    }
    true
}

/// The FluidAudio session as this side sees it: which engines have been
/// confirmed ready by the engine since the session began or was cleaned up.
/// Readiness is taken from the engine's replies to initialization (see the
/// module documentation for what that rests on).
pub struct FluidAudio {
    asr: bool,
    streaming_asr: bool,
    streaming_session: bool,
    vad: bool,
    diarization: bool,
    kokoro: bool,
}

impl View for FluidAudio {
    type V = Readiness;

    closed spec fn view(&self) -> Readiness {
        Readiness {
            asr: self.asr,
            streaming_asr: self.streaming_asr,
            streaming_session: self.streaming_session,
            vad: self.vad,
            diarization: self.diarization,
            kokoro: self.kokoro,
        }
    }
}

impl FluidAudio {
    fn idle_session() -> (s: FluidAudio)
        ensures
            s@ == idle(),
    {
        FluidAudio {
            asr: false,
            streaming_asr: false,
            streaming_session: false,
            vad: false,
            diarization: false,
            kokoro: false,
        }
    }

    /// A new session, given whether the engine created its bridge.
    pub fn new(bridge_created: bool) -> (r: Result<FluidAudio, FluidAudioError>)
        ensures
            bridge_created ==> (r matches Ok(s) && s@ == idle()),
            !bridge_created ==> (r matches Err(e) && e@ == ErrorView::BridgeError(
                "Failed to create bridge"@,
            )),
    {
        if bridge_created {
            Ok(FluidAudio::idle_session())
        } else {
            Err(FluidAudioError::bridge("Failed to create bridge"))
        }
    }

    /// A new session whose models live under `dir`, given whether the engine
    /// created its bridge. A directory that cannot cross as a C string is
    /// never handed to the engine and fails as a failed creation does.
    pub fn with_models_dir(dir: &str, bridge_created: bool) -> (r: Result<FluidAudio, FluidAudioError>)
        ensures
            c_compatible(dir@) && bridge_created ==> (r matches Ok(s) && s@ == idle()),
            !(c_compatible(dir@) && bridge_created) ==> (r matches Err(e) && e@
                == ErrorView::BridgeError("Failed to create bridge"@)),
    {
        if is_c_compatible(dir) && bridge_created {
            Ok(FluidAudio::idle_session())
        } else {
            Err(FluidAudioError::bridge("Failed to create bridge"))
        }
    }

    // ========== ASR ==========

    /// Records the reply to initializing ASR.
    pub fn init_asr(&mut self, status: i32) -> (r: Result<(), FluidAudioError>)
        ensures
            result_view(r) == status_outcome(status, "Failed to initialize ASR"@),
            final(self)@ == (if status == 0 {
                Readiness { asr: true, ..old(self)@ }
            } else {
                old(self)@
            }),
    {
        let r = check_status(status, "Failed to initialize ASR");
        if status == 0 {
            self.asr = true;
        }
        r
    }

    /// Whether ASR is initialized and ready.
    pub fn is_asr_available(&self) -> (b: bool)
        ensures
            b == self@.asr,
    {
        self.asr
    }

    /// The outcome of transcribing the file at `path`, given whether it
    /// exists and the engine's reply `(status, transcript)`.
    pub fn transcribe_file<T>(&self, path: &str, exists: bool, status: i32, transcript: T) -> (r: Result<T, FluidAudioError>)
        ensures
            result_view(r) == with_value(
                path_outcome(path@, exists, status, "Transcription failed"@),
                transcript,
            ),
    {
        attach(check_path(path, exists, status, "Transcription failed"), transcript)
    }

    /// The outcome of transcribing samples, given the engine's reply.
    pub fn transcribe_samples<T>(&self, status: i32, transcript: T) -> (r: Result<T, FluidAudioError>)
        ensures
            result_view(r) == with_value(status_outcome(status, "Transcription failed"@), transcript),
    {
        attach(check_status(status, "Transcription failed"), transcript)
    }

    // ========== Streaming ASR ==========

    /// Records the reply to initializing streaming ASR.
    pub fn init_streaming_asr(&mut self, status: i32) -> (r: Result<(), FluidAudioError>)
        ensures
            result_view(r) == status_outcome(status, "Failed to initialize streaming ASR"@),
            final(self)@ == (if status == 0 {
                Readiness { streaming_asr: true, ..old(self)@ }
            } else {
                old(self)@
            }),
    {
        let r = check_status(status, "Failed to initialize streaming ASR");
        if status == 0 {
            self.streaming_asr = true;
        }
        r
    }

    /// Records the reply to starting a streaming session.
    pub fn streaming_asr_start(&mut self, status: i32) -> (r: Result<(), FluidAudioError>)
        ensures
            result_view(r) == status_outcome(status, "Failed to start streaming ASR session"@),
            final(self)@ == (if status == 0 {
                Readiness { streaming_session: true, ..old(self)@ }
            } else {
                old(self)@
            }),
    {
        let r = check_status(status, "Failed to start streaming ASR session");
        if status == 0 {
            self.streaming_session = true;
        }
        r
    }

    /// The outcome of feeding samples to the streaming session.
    pub fn streaming_asr_feed(&self, status: i32) -> (r: Result<(), FluidAudioError>)
        ensures
            result_view(r) == status_outcome(status, "Failed to feed samples to streaming ASR"@),
    {
        check_status(status, "Failed to feed samples to streaming ASR")
    }

    /// Records the reply to finishing the streaming session and gives its
    /// transcript; a finished session must be started again.
    pub fn streaming_asr_finish(&mut self, status: i32, text: Option<String>) -> (r: Result<String, FluidAudioError>)
        ensures
            text_result_view(r) == with_text(
                status_outcome(status, "Failed to finish streaming ASR session"@),
                returned_text(text),
            ),
            final(self)@ == (if status == 0 {
                Readiness { streaming_session: false, ..old(self)@ }
            } else {
                old(self)@
            }),
    {
        match check_status(status, "Failed to finish streaming ASR session") {
            Ok(_) => {
                self.streaming_session = false;
                Ok(returned(text))
            },
            Err(e) => Err(e),
        }
    }

    /// The outcome of transcribing the file at `path` in streaming mode.
    pub fn transcribe_file_streaming<T>(&self, path: &str, exists: bool, status: i32, transcript: T) -> (r: Result<T, FluidAudioError>)
        ensures
            result_view(r) == with_value(
                path_outcome(path@, exists, status, "Streaming file transcription failed"@),
                transcript,
            ),
    {
        attach(check_path(path, exists, status, "Streaming file transcription failed"), transcript)
    }

    /// Whether streaming ASR is initialized and ready.
    pub fn is_streaming_asr_available(&self) -> (b: bool)
        ensures
            b == self@.streaming_asr,
    {
        self.streaming_asr
    }

    // ========== VAD ==========

    /// Records the reply to initializing VAD.
    pub fn init_vad(&mut self, status: i32) -> (r: Result<(), FluidAudioError>)
        ensures
            result_view(r) == status_outcome(status, "Failed to initialize VAD"@),
            final(self)@ == (if status == 0 {
                Readiness { vad: true, ..old(self)@ }
            } else {
                old(self)@
            }),
    {
        let r = check_status(status, "Failed to initialize VAD");
        if status == 0 {
            self.vad = true;
        }
        r
    }

    /// Whether VAD is initialized and ready.
    pub fn is_vad_available(&self) -> (b: bool)
        ensures
            b == self@.vad,
    {
        self.vad
    }

    /// The outcome of running VAD over the file at `path`.
    pub fn vad_process_file<T>(&self, path: &str, exists: bool, status: i32, frames: T) -> (r: Result<T, FluidAudioError>)
        ensures
            result_view(r) == with_value(
                path_outcome(path@, exists, status, "VAD process file failed"@),
                frames,
            ),
    {
        attach(check_path(path, exists, status, "VAD process file failed"), frames)
    }

    /// The outcome of running VAD over samples.
    pub fn vad_process_samples<T>(&self, status: i32, frames: T) -> (r: Result<T, FluidAudioError>)
        ensures
            result_view(r) == with_value(status_outcome(status, "VAD process samples failed"@), frames),
    {
        attach(check_status(status, "VAD process samples failed"), frames)
    }

    // ========== Diarization ==========

    /// Records the reply to initializing diarization.
    pub fn init_diarization(&mut self, status: i32) -> (r: Result<(), FluidAudioError>)
        ensures
            result_view(r) == status_outcome(status, "Failed to initialize diarization"@),
            final(self)@ == (if status == 0 {
                Readiness { diarization: true, ..old(self)@ }
            } else {
                old(self)@
            }),
    {
        let r = check_status(status, "Failed to initialize diarization");
        if status == 0 {
            self.diarization = true;
        }
        r
    }

    /// Whether diarization is initialized and ready.
    pub fn is_diarization_available(&self) -> (b: bool)
        ensures
            b == self@.diarization,
    {
        self.diarization
    }

    /// The outcome of diarizing the file at `path`.
    pub fn diarize_file<T>(&self, path: &str, exists: bool, status: i32, segments: T) -> (r: Result<T, FluidAudioError>)
        ensures
            result_view(r) == with_value(
                path_outcome(path@, exists, status, "Diarization failed"@),
                segments,
            ),
    {
        attach(check_path(path, exists, status, "Diarization failed"), segments)
    }

    /// The outcome of diarizing `audio` with the staged model at `model`.
    pub fn diarize_file_with_models<T>(
        &self,
        audio: &str,
        audio_exists: bool,
        model: &str,
        model_exists: bool,
        status: i32,
        segments: T,
    ) -> (r: Result<T, FluidAudioError>)
        ensures
            result_view(r) == with_value(
                match model_paths_outcome(audio@, audio_exists, model@, model_exists) {
                    Err(e) => Err(e),
                    Ok(_) => status_outcome(status, "Diarization (model path) failed"@),
                },
                segments,
            ),
    {
        match check_model_paths(audio, audio_exists, model, model_exists) {
            Err(e) => Err(e),
            Ok(_) => attach(check_status(status, "Diarization (model path) failed"), segments),
        }
    }

    /// The outcome of a controlled diarization of `audio` with the staged
    /// model at `model` on `units`: a cancelled run is no error.
    pub fn diarize_file_with_models_controlled<T>(
        &self,
        audio: &str,
        audio_exists: bool,
        model: &str,
        model_exists: bool,
        units: DiarizeComputeUnits,
        status: i32,
        segments: T,
    ) -> (r: Result<DiarizeOutcome<T>, FluidAudioError>)
        ensures
            result_view(r) == controlled_outcome(
                model_paths_outcome(audio@, audio_exists, model@, model_exists),
                diarize_units_name(units),
                status,
                segments,
            ),
    {
        match check_model_paths(audio, audio_exists, model, model_exists) {
            Err(e) => Err(e),
            Ok(_) => {
                if status == 0 {
                    Ok(DiarizeOutcome::Completed(segments))
                } else if status == -2 {
                    Ok(DiarizeOutcome::Cancelled)
                } else {
                    let message = concat3(
                        "Diarization (model path) failed (compute units: ",
                        units.as_str(),
                        ")",
                    );
                    Err(FluidAudioError::BridgeError(message))
                }
            },
        }
    }

    /// The outcome of pre-compiling the staged model at `model_path`.
    pub fn compile_diarization_model(&self, model_path: &str, exists: bool, status: i32) -> (r: Result<(), FluidAudioError>)
        ensures
            result_view(r) == (if !exists {
                Err(ErrorView::FileNotFound(model_path@))
            } else if !c_compatible(model_path@) {
                Err(ErrorView::BridgeError("Invalid model path"@))
            } else {
                status_outcome(status, "Diarization model warm-up (compile) failed"@)
            }),
    {
        if !exists {
            return Err(FluidAudioError::FileNotFound(owned(model_path)));
        }
        if !is_c_compatible(model_path) {
            return Err(FluidAudioError::bridge("Invalid model path"));
        }
        check_status(status, "Diarization model warm-up (compile) failed")
    }

    // ========== Kokoro TTS ==========

    /// Records the reply to initializing Kokoro with a default voice and language.
    pub fn init_kokoro(&mut self, default_voice: &str, lang: &str, status: i32) -> (r: Result<(), FluidAudioError>)
        ensures
            result_view(r) == kokoro_init_outcome(default_voice@, lang@, status),
            final(self)@ == (if r is Ok {
                Readiness { kokoro: true, ..old(self)@ }
            } else {
                old(self)@
            }),
    {
        if !is_c_compatible(default_voice) {
            return Err(kokoro_failure_detailed(-1, "initialize Kokoro", owned("invalid voice")));
        }
        if !is_c_compatible(lang) {
            return Err(kokoro_failure_detailed(-1, "initialize Kokoro", owned("invalid lang")));
        }
        if status == 0 {
            self.kokoro = true;
            Ok(())
        } else {
            Err(kokoro_failure(status, "initialize Kokoro"))
        }
    }

    /// Records the reply to initializing Kokoro on the compute-unit preset `units`.
    pub fn init_kokoro_with_compute_units(
        &mut self,
        default_voice: &str,
        lang: &str,
        units: KokoroComputeUnits,
        status: i32,
    ) -> (r: Result<(), FluidAudioError>)
        ensures
            result_view(r) == kokoro_init_units_outcome(
                default_voice@,
                lang@,
                kokoro_units_name(units),
                status,
            ),
            final(self)@ == (if r is Ok {
                Readiness { kokoro: true, ..old(self)@ }
            } else {
                old(self)@
            }),
    {
        if !is_c_compatible(default_voice) {
            return Err(kokoro_failure_detailed(-1, "initialize Kokoro", owned("invalid voice")));
        }
        if !is_c_compatible(lang) {
            return Err(kokoro_failure_detailed(-1, "initialize Kokoro", owned("invalid lang")));
        }
        if status == 0 {
            self.kokoro = true;
            Ok(())
        } else {
            let detail = concat2("compute units: ", units.as_str());
            Err(kokoro_failure_detailed(status, "initialize Kokoro", detail))
        }
    }

    /// The outcome of synthesizing `text` with `voice`, given the engine's
    /// reply `(status, wav)`; the WAV is returned whole.
    pub fn synthesize_kokoro(&self, text: &str, voice: &str, status: i32, wav: Vec<u8>) -> (r: Result<Vec<u8>, FluidAudioError>)
        ensures
            result_view(r) == with_value(synthesis_outcome(text@, voice@, status, wav@), wav),
    {
        if !is_c_compatible(text) {
            return Err(kokoro_failure_detailed(-1, "synthesize", owned("invalid text")));
        }
        if !is_c_compatible(voice) {
            return Err(kokoro_failure_detailed(-1, "synthesize", owned("invalid voice")));
        }
        if status != 0 {
            return Err(kokoro_failure(status, "synthesize"));
        }
        if wav.len() == 0 {
            return Err(kokoro_failure_detailed(-1, "synthesize", owned("no audio")));
        }
        Ok(wav)
    }

    /// The outcome of installing English pronunciation overrides; an empty
    /// table clears them.
    pub fn set_kokoro_english_lexicon(&self, entries: &[(&str, &str)], status: i32) -> (r: Result<(), FluidAudioError>)
        ensures
            result_view(r) == lexicon_outcome(lexicon_view(entries@), status),
    {
        let n = entries.len();
        let ghost all = lexicon_view(entries@);
        let mut i: usize = 0;
        proof {
            assert(all.subrange(0, n as int) =~= all);
        }
        while i < n
            invariant
                n == entries@.len(),
                all == lexicon_view(entries@),
                i <= n,
                lexicon_problem(all) == lexicon_problem(all.subrange(i as int, n as int)),
            decreases n - i,
        {
            let (word, ipa) = entries[i];
            proof {
                let rest = all.subrange(i as int, n as int);
                assert(rest[0] == (word@, ipa@));
                assert(rest.drop_first() =~= all.subrange(i + 1, n as int));
            }
            if !is_c_compatible(word) {
                let detail = concat3("invalid word '", word, "'");
                return Err(kokoro_failure_detailed(-1, "set the English lexicon", detail));
            }
            if !is_c_compatible(ipa) {
                let detail = concat3("invalid phonemes for '", word, "'");
                return Err(kokoro_failure_detailed(-1, "set the English lexicon", detail));
            }
            i = i + 1;
        }
        proof {
            assert(all.subrange(n as int, n as int) =~= Seq::<(Seq<char>, Seq<char>)>::empty());
        }
        if status == 0 {
            Ok(())
        } else {
            Err(kokoro_failure(status, "set the English lexicon"))
        }
    }

    /// Whether Kokoro TTS is initialized and ready.
    pub fn is_kokoro_available(&self) -> (b: bool)
        ensures
            b == self@.kokoro,
    {
        self.kokoro
    }

    // ========== Inverse text normalization ==========

    /// The normalized form of a short spoken-form expression, given the
    /// engine's reply.
    pub fn itn_normalize(&self, text: &str, status: i32, out: Option<String>) -> (r: Result<String, FluidAudioError>)
        ensures
            text_result_view(r) == with_text(
                itn_outcome(text@, status, "ITN normalize failed"@),
                returned_text(out),
            ),
    {
        itn_result(text, status, "ITN normalize failed", out)
    }

    /// The sentence-mode normalized form of `text`, given the engine's reply.
    pub fn itn_normalize_sentence(&self, text: &str, status: i32, out: Option<String>) -> (r: Result<String, FluidAudioError>)
        ensures
            text_result_view(r) == with_text(
                itn_outcome(text@, status, "ITN normalize_sentence failed"@),
                returned_text(out),
            ),
    {
        itn_result(text, status, "ITN normalize_sentence failed", out)
    }

    /// The sentence-mode normalized form of `text` under a caller-chosen span
    /// limit (which only the engine reads), given the engine's reply.
    pub fn itn_normalize_sentence_max_span(&self, text: &str, status: i32, out: Option<String>) -> (r: Result<String, FluidAudioError>)
        ensures
            text_result_view(r) == with_text(
                itn_outcome(text@, status, "ITN normalize_sentence_max_span failed"@),
                returned_text(out),
            ),
    {
        itn_result(text, status, "ITN normalize_sentence_max_span failed", out)
    }

    // ========== Cleanup ==========

    /// Releases everything: no engine stays ready and no session stays open.
    pub fn cleanup(&mut self)
        ensures
            final(self)@ == cleaned(old(self)@),
    {
        self.asr = false;
        self.streaming_asr = false;
        self.streaming_session = false;
        self.vad = false;
        self.diarization = false;
        self.kokoro = false;
    }
}

/// A missing file is reported as such before any other check and whatever the
/// engine would have replied; with a model package, the audio file is looked
/// at first.
pub proof fn lemma_missing_file_comes_first(
    path: Seq<char>,
    status: i32,
    failure: Seq<char>,
    model: Seq<char>,
    model_exists: bool,
)
    ensures
        path_outcome(path, false, status, failure) == Err::<(), ErrorView>(
            ErrorView::FileNotFound(path),
        ),
        model_paths_outcome(path, false, model, model_exists) == Err::<(), ErrorView>(
            ErrorView::FileNotFound(path),
        ),
{
}

/// A cancelled controlled diarization is an outcome, not an error.
pub proof fn lemma_cancel_is_not_an_error<S>(units: Seq<char>, segments: S)
    ensures
        controlled_outcome(Ok::<(), ErrorView>(()), units, -2i32, segments) == Ok::<
            DiarizeOutcome<S>,
            ErrorView,
        >(DiarizeOutcome::Cancelled),
{
}

/// The variant of a failed Kokoro call tells the caller what went wrong: a
/// call before initialization, a missing asset, or anything else.
pub proof fn lemma_kokoro_status_picks_variant(status: i32, operation: Seq<char>)
    requires
        status != 0,
    ensures
        status == -2 ==> kokoro_fault(status, operation) is NotInitialized,
        status == -3 ==> kokoro_fault(status, operation) is AssetsUnavailable,
        status != -2 && status != -3 ==> kokoro_fault(status, operation) is BridgeError,
{
}

/// Synthesis and lexicon installation refused for want of initialization
/// come back as `NotInitialized`, whatever the text and the entries.
pub proof fn lemma_kokoro_calls_before_init(
    text: Seq<char>,
    voice: Seq<char>,
    audio: Seq<u8>,
    entries: Seq<(Seq<char>, Seq<char>)>,
)
    requires
        c_compatible(text),
        c_compatible(voice),
        lexicon_problem(entries) is None,
    ensures
        synthesis_outcome(text, voice, -2i32, audio) matches Err(e) && e is NotInitialized,
        lexicon_outcome(entries, -2i32) matches Err(e) && e is NotInitialized,
{
}

/// Cleaning up twice leaves the session as cleaning up once does, and a
/// cleaned-up session has no engine ready and no streaming session open.
pub proof fn lemma_cleanup_idempotent(s: Readiness)
    ensures
        cleaned(cleaned(s)) == cleaned(s),
        !cleaned(s).asr && !cleaned(s).streaming_asr && !cleaned(s).streaming_session
            && !cleaned(s).vad && !cleaned(s).diarization && !cleaned(s).kokoro,
{
}

/// Where a call on one file is not made, its outcome does not depend on any
/// reply of the engine.
pub proof fn lemma_refused_path_ignores_reply(
    path: Seq<char>,
    exists: bool,
    status: i32,
    other: i32,
    failure: Seq<char>,
)
    requires
        !(exists && c_compatible(path)),
    ensures
        path_outcome(path, exists, status, failure) == path_outcome(path, exists, other, failure),
        path_outcome(path, exists, status, failure) is Err,
{
}

/// A synthesis with NUL-free text and voice, a zero status and some audio
/// succeeds, whatever the text's length.
pub proof fn lemma_synthesis_succeeds(text: Seq<char>, voice: Seq<char>, audio: Seq<u8>)
    requires
        c_compatible(text),
        c_compatible(voice),
        audio.len() > 0,
    ensures
        synthesis_outcome(text, voice, 0i32, audio) == Ok::<(), ErrorView>(()),
{
}

/// A synthesis fails whenever the engine's status is nonzero or no audio came
/// back.
pub proof fn lemma_synthesis_needs_audio_and_success(text: Seq<char>, voice: Seq<char>, status: i32, audio: Seq<u8>)
    ensures
        status != 0 ==> synthesis_outcome(text, voice, status, audio) is Err,
        audio.len() == 0 ==> synthesis_outcome(text, voice, status, audio) is Err,
{
}

/// Kokoro initialization succeeds exactly when both strings are NUL-free and
/// the engine's status is zero, with or without a compute-unit preset.
pub proof fn lemma_kokoro_init_succeeds_iff(voice: Seq<char>, lang: Seq<char>, units: Seq<char>, status: i32)
    ensures
        (kokoro_init_outcome(voice, lang, status) is Ok) == (c_compatible(voice) && c_compatible(lang)
            && status == 0),
        (kokoro_init_units_outcome(voice, lang, units, status) is Ok) == (c_compatible(voice)
            && c_compatible(lang) && status == 0),
{
}

/// Installing a lexicon succeeds exactly when every entry is NUL-free and the
/// engine's status is zero.
pub proof fn lemma_lexicon_succeeds_iff(entries: Seq<(Seq<char>, Seq<char>)>, status: i32)
    ensures
        (lexicon_outcome(entries, status) is Ok) == (lexicon_problem(entries) is None && status == 0),
{
}

/// The engine's text is handed back unchanged; no text reads as empty.
pub proof fn lemma_returned_text_is_unchanged(t: String)
    ensures
        returned_text(Some(t)) == t@,
        returned_text(None) == Seq::<char>::empty(),
{
}

/// Calls whose reply is a status succeed exactly on a zero status (after the
/// argument checks), and the text they hand back is the engine's, unchanged.
pub proof fn lemma_status_decides(
    path: Seq<char>,
    exists: bool,
    text: Seq<char>,
    status: i32,
    failure: Seq<char>,
    t: Seq<char>,
)
    ensures
        (status_outcome(status, failure) is Ok) == (status == 0),
        (path_outcome(path, exists, status, failure) is Ok) == (exists && c_compatible(path)
            && status == 0),
        (itn_outcome(text, status, failure) is Ok) == (c_compatible(text) && status == 0),
        with_text(itn_outcome(text, status, failure), t) is Ok ==> with_text(
            itn_outcome(text, status, failure),
            t,
        ) == Ok::<Seq<char>, ErrorView>(t),
{
}

/// A controlled diarization past its path checks completes with the engine's
/// segments on a zero status, is cancelled on the cancel status, and fails on
/// every other status.
pub proof fn lemma_controlled_statuses<S>(units: Seq<char>, status: i32, segments: S)
    ensures
        status == 0 ==> controlled_outcome(Ok::<(), ErrorView>(()), units, status, segments) == Ok::<
            DiarizeOutcome<S>,
            ErrorView,
        >(DiarizeOutcome::Completed(segments)),
        status != 0 && status != -2 ==> controlled_outcome(
            Ok::<(), ErrorView>(()),
            units,
            status,
            segments,
        ) is Err,
{
}

} // verus!
