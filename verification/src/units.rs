//! CoreML compute-unit presets and their spellings.
use vstd::prelude::*;

use crate::error::{result_view, ErrorView, FluidAudioError};
use crate::text::{ascii_lowercase, c_compatible, concat3, is_ascii_upper, lemma_lower_of_lower_case, lower_seq, same_text};

verus! {

/// CoreML compute-unit preset for the Kokoro TTS pipeline.
///
/// `as_str` emits the same kebab-case spellings the engine's parser accepts,
/// so the value round-trips across the boundary.
#[derive(Debug, Clone, Copy, PartialEq, Eq, Structural)]
pub enum KokoroComputeUnits {
    /// The engine's empirical per-stage mapping (four stages on the Neural Engine).
    Default,
    /// Every stage on the CPU and the Neural Engine.
    AllAne,
    /// Every stage on the CPU and the GPU: skips the Neural Engine entirely.
    CpuAndGpu,
    /// Every stage on the CPU alone.
    CpuOnly,
}

/// CoreML compute units the Sortformer diarization model is loaded on.
#[derive(Debug, Clone, Copy, PartialEq, Eq, Structural)]
pub enum DiarizeComputeUnits {
    /// CoreML picks per operation, Neural Engine included.
    All,
    /// The CPU and the Neural Engine, excluding the GPU.
    CpuAndAne,
    /// The CPU and the GPU: skips the Neural Engine entirely.
    CpuAndGpu,
    /// The CPU alone.
    CpuOnly,
}

/// The canonical spelling of a Kokoro preset.
pub open spec fn kokoro_units_name(u: KokoroComputeUnits) -> Seq<char> {
    match u {
        KokoroComputeUnits::Default => "default"@,
        KokoroComputeUnits::AllAne => "all-ane"@,
        KokoroComputeUnits::CpuAndGpu => "cpu-and-gpu"@,
        KokoroComputeUnits::CpuOnly => "cpu-only"@,
    }
}

/// The Kokoro preset that a lower-case spelling (canonical or alias) names.
pub open spec fn kokoro_units_named(name: Seq<char>) -> Option<KokoroComputeUnits> {
    if name == "default"@ {
        Some(KokoroComputeUnits::Default)
    } else if name == "all-ane"@ || name == "ane"@ || name == "neural-engine"@ {
        Some(KokoroComputeUnits::AllAne)
    } else if name == "cpu-and-gpu"@ || name == "cpuandgpu"@ || name == "gpu"@ {
        Some(KokoroComputeUnits::CpuAndGpu)
    } else if name == "cpu-only"@ || name == "cpu"@ || name == "cpuonly"@ {
        Some(KokoroComputeUnits::CpuOnly)
    } else {
        None
    }
}

/// The message for a Kokoro spelling that names no preset.
pub open spec fn kokoro_units_rejection(folded: Seq<char>) -> Seq<char> {
    "unknown Kokoro compute-units preset '"@ + folded
        + "' (expected: default, all-ane, cpu-and-gpu, cpu-only)"@
}

/// What parsing `s` as a Kokoro preset gives.
pub open spec fn kokoro_units_parsed(s: Seq<char>, r: Result<KokoroComputeUnits, FluidAudioError>) -> bool {
    match kokoro_units_named(lower_seq(s)) {
        Some(u) => r == Ok::<KokoroComputeUnits, FluidAudioError>(u),
        None => r matches Err(e) && e@ == ErrorView::BridgeError(
            kokoro_units_rejection(lower_seq(s)),
        ),
    }
}

/// The canonical spelling of a diarization preset.
pub open spec fn diarize_units_name(u: DiarizeComputeUnits) -> Seq<char> {
    match u {
        DiarizeComputeUnits::All => "all"@,
        DiarizeComputeUnits::CpuAndAne => "cpu-and-ane"@,
        DiarizeComputeUnits::CpuAndGpu => "cpu-and-gpu"@,
        DiarizeComputeUnits::CpuOnly => "cpu-only"@,
    }
}

/// The diarization preset that a lower-case spelling (canonical or alias) names.
pub open spec fn diarize_units_named(name: Seq<char>) -> Option<DiarizeComputeUnits> {
    if name == "all"@ {
        Some(DiarizeComputeUnits::All)
    } else if name == "cpu-and-ane"@ || name == "ane"@ || name == "neural-engine"@ {
        Some(DiarizeComputeUnits::CpuAndAne)
    } else if name == "cpu-and-gpu"@ || name == "cpuandgpu"@ || name == "gpu"@ {
        Some(DiarizeComputeUnits::CpuAndGpu)
    } else if name == "cpu-only"@ || name == "cpu"@ || name == "cpuonly"@ {
        Some(DiarizeComputeUnits::CpuOnly)
    } else {
        None
    }
}

/// The message for a diarization spelling that names no preset.
pub open spec fn diarize_units_rejection(folded: Seq<char>) -> Seq<char> {
    "unknown diarization compute-units preset '"@ + folded
        + "' (expected: all, cpu-and-ane, cpu-and-gpu, cpu-only)"@
}

/// What parsing `s` as a diarization preset gives.
pub open spec fn diarize_units_parsed(s: Seq<char>, r: Result<DiarizeComputeUnits, FluidAudioError>) -> bool {
    match diarize_units_named(lower_seq(s)) {
        Some(u) => r == Ok::<DiarizeComputeUnits, FluidAudioError>(u),
        None => r matches Err(e) && e@ == ErrorView::BridgeError(
            diarize_units_rejection(lower_seq(s)),
        ),
    }
}

impl KokoroComputeUnits {
    /// Canonical kebab-case name, as the engine's preset parser accepts it.
    pub fn as_str(self) -> (r: &'static str)
        ensures
            r@ == kokoro_units_name(self),
            c_compatible(r@),
    {
        proof {
            reveal_strlit("default");
            reveal_strlit("all-ane");
            reveal_strlit("cpu-and-gpu");
            reveal_strlit("cpu-only");
        }
        match self {
            KokoroComputeUnits::Default => "default",
            KokoroComputeUnits::AllAne => "all-ane",
            KokoroComputeUnits::CpuAndGpu => "cpu-and-gpu",
            KokoroComputeUnits::CpuOnly => "cpu-only",
        }
    }

    /// Parses a preset name: case-insensitive, canonical spellings and aliases.
    pub fn parse(s: &str) -> (r: Result<KokoroComputeUnits, FluidAudioError>)
        ensures
            kokoro_units_parsed(s@, r),
    {
        let folded = ascii_lowercase(s);
        let f = folded.as_str();
        if same_text(f, "default") {
            Ok(KokoroComputeUnits::Default)
        } else if same_text(f, "all-ane") || same_text(f, "ane") || same_text(f, "neural-engine") {
            Ok(KokoroComputeUnits::AllAne)
        } else if same_text(f, "cpu-and-gpu") || same_text(f, "cpuandgpu") || same_text(f, "gpu") {
            Ok(KokoroComputeUnits::CpuAndGpu)
        } else if same_text(f, "cpu-only") || same_text(f, "cpu") || same_text(f, "cpuonly") {
            Ok(KokoroComputeUnits::CpuOnly)
        } else {
            let message = concat3(
                "unknown Kokoro compute-units preset '",
                f,
                "' (expected: default, all-ane, cpu-and-gpu, cpu-only)",
            );
            Err(FluidAudioError::BridgeError(message))
        }
    }
}

impl DiarizeComputeUnits {
    /// Canonical kebab-case name, as the engine side parses it.
    pub fn as_str(self) -> (r: &'static str)
        ensures
            r@ == diarize_units_name(self),
            c_compatible(r@),
    {
        proof {
            reveal_strlit("all");
            reveal_strlit("cpu-and-ane");
            reveal_strlit("cpu-and-gpu");
            reveal_strlit("cpu-only");
        }
        match self {
            DiarizeComputeUnits::All => "all",
            DiarizeComputeUnits::CpuAndAne => "cpu-and-ane",
            DiarizeComputeUnits::CpuAndGpu => "cpu-and-gpu",
            DiarizeComputeUnits::CpuOnly => "cpu-only",
        }
    }

    /// Parses a preset name: case-insensitive, canonical spellings and aliases.
    pub fn parse(s: &str) -> (r: Result<DiarizeComputeUnits, FluidAudioError>)
        ensures
            diarize_units_parsed(s@, r),
    {
        let folded = ascii_lowercase(s);
        let f = folded.as_str();
        if same_text(f, "all") {
            Ok(DiarizeComputeUnits::All)
        } else if same_text(f, "cpu-and-ane") || same_text(f, "ane") || same_text(f, "neural-engine") {
            Ok(DiarizeComputeUnits::CpuAndAne)
        } else if same_text(f, "cpu-and-gpu") || same_text(f, "cpuandgpu") || same_text(f, "gpu") {
            Ok(DiarizeComputeUnits::CpuAndGpu)
        } else if same_text(f, "cpu-only") || same_text(f, "cpu") || same_text(f, "cpuonly") {
            Ok(DiarizeComputeUnits::CpuOnly)
        } else {
            let message = concat3(
                "unknown diarization compute-units preset '",
                f,
                "' (expected: all, cpu-and-ane, cpu-and-gpu, cpu-only)",
            );
            Err(FluidAudioError::BridgeError(message))
        }
    }
}

impl Default for KokoroComputeUnits {
    fn default() -> (r: KokoroComputeUnits)
        ensures
            r == KokoroComputeUnits::Default,
    {
        KokoroComputeUnits::Default
    }
}

impl Default for DiarizeComputeUnits {
    fn default() -> (r: DiarizeComputeUnits)
        ensures
            r == DiarizeComputeUnits::All,
    {
        DiarizeComputeUnits::All
    }
}

impl std::str::FromStr for KokoroComputeUnits {
    type Err = FluidAudioError;

    fn from_str(s: &str) -> (r: Result<KokoroComputeUnits, FluidAudioError>)
        ensures
            kokoro_units_parsed(s@, r),
    {
        KokoroComputeUnits::parse(s)
    }
}

impl std::str::FromStr for DiarizeComputeUnits {
    type Err = FluidAudioError;

    fn from_str(s: &str) -> (r: Result<DiarizeComputeUnits, FluidAudioError>)
        ensures
            diarize_units_parsed(s@, r),
    {
        DiarizeComputeUnits::parse(s)
    }
}

/// Every Kokoro preset's canonical spelling parses back to that preset.
pub proof fn lemma_kokoro_units_round_trip(u: KokoroComputeUnits)
    ensures
        kokoro_units_named(lower_seq(kokoro_units_name(u))) == Some(u),
{
    reveal_strlit("default");
    reveal_strlit("all-ane");
    reveal_strlit("ane");
    reveal_strlit("neural-engine");
    reveal_strlit("cpu-and-gpu");
    reveal_strlit("cpuandgpu");
    reveal_strlit("gpu");
    reveal_strlit("cpu-only");
    reveal_strlit("cpu");
    reveal_strlit("cpuonly");
    let n = kokoro_units_name(u);
    assert forall|i: int| 0 <= i < n.len() implies !is_ascii_upper(#[trigger] n[i]) by {}
    lemma_lower_of_lower_case(n);
    assert(lower_seq(n) == n);
    match u {
        KokoroComputeUnits::Default => {}
        KokoroComputeUnits::AllAne => {
            assert(n[0] != "default"@[0]);
        }
        _ => {}
    }
}

/// Every diarization preset's canonical spelling parses back to that preset.
pub proof fn lemma_diarize_units_round_trip(u: DiarizeComputeUnits)
    ensures
        diarize_units_named(lower_seq(diarize_units_name(u))) == Some(u),
{
    reveal_strlit("all");
    reveal_strlit("cpu-and-ane");
    reveal_strlit("ane");
    reveal_strlit("neural-engine");
    reveal_strlit("cpu-and-gpu");
    reveal_strlit("cpuandgpu");
    reveal_strlit("gpu");
    reveal_strlit("cpu-only");
    reveal_strlit("cpu");
    reveal_strlit("cpuonly");
    let n = diarize_units_name(u);
    assert forall|i: int| 0 <= i < n.len() implies !is_ascii_upper(#[trigger] n[i]) by {}
    lemma_lower_of_lower_case(n);
    match u {
        DiarizeComputeUnits::CpuAndGpu => {
            assert(n[4] != "cpu-and-ane"@[4] || n[8] != "cpu-and-ane"@[8]);
        }
        DiarizeComputeUnits::CpuAndAne => {
            assert(n[8] != "cpu-and-gpu"@[8]);
        }
        _ => {}
    }
}

/// Whether `needle` occurs in `hay` as a contiguous piece.
pub open spec fn occurs_in(needle: Seq<char>, hay: Seq<char>) -> bool {
    exists|k: int|
        0 <= k && k + needle.len() <= hay.len() && #[trigger] hay.subrange(k, k + needle.len())
            == needle
}

/// Parsing a Kokoro preset ignores ASCII case: two spellings that fold alike
/// parse alike.
pub proof fn lemma_kokoro_parse_ignores_case(
    a: Seq<char>,
    b: Seq<char>,
    ra: Result<KokoroComputeUnits, FluidAudioError>,
    rb: Result<KokoroComputeUnits, FluidAudioError>,
)
    requires
        lower_seq(a) == lower_seq(b),
        kokoro_units_parsed(a, ra),
        kokoro_units_parsed(b, rb),
    ensures
        result_view(ra) == result_view(rb),
{
}

/// Parsing a diarization preset ignores ASCII case.
pub proof fn lemma_diarize_parse_ignores_case(
    a: Seq<char>,
    b: Seq<char>,
    ra: Result<DiarizeComputeUnits, FluidAudioError>,
    rb: Result<DiarizeComputeUnits, FluidAudioError>,
)
    requires
        lower_seq(a) == lower_seq(b),
        diarize_units_parsed(a, ra),
        diarize_units_parsed(b, rb),
    ensures
        result_view(ra) == result_view(rb),
{
}

/// The refusal of a Kokoro spelling quotes the folded spelling and lists
/// every canonical spelling.
pub proof fn lemma_kokoro_rejection_is_informative(folded: Seq<char>, u: KokoroComputeUnits)
    ensures
        occurs_in(folded, kokoro_units_rejection(folded)),
        occurs_in(kokoro_units_name(u), kokoro_units_rejection(folded)),
{
    let pre = "unknown Kokoro compute-units preset '"@;
    let post = "' (expected: default, all-ane, cpu-and-gpu, cpu-only)"@;
    let m = kokoro_units_rejection(folded);
    assert(m == pre + folded + post);
    assert(m.subrange(pre.len() as int, (pre.len() + folded.len()) as int) =~= folded);
    reveal_strlit("' (expected: default, all-ane, cpu-and-gpu, cpu-only)");
    reveal_strlit("default");
    reveal_strlit("all-ane");
    reveal_strlit("cpu-and-gpu");
    reveal_strlit("cpu-only");
    let n = kokoro_units_name(u);
    let off: int = match u {
        KokoroComputeUnits::Default => 13,
        KokoroComputeUnits::AllAne => 22,
        KokoroComputeUnits::CpuAndGpu => 31,
        KokoroComputeUnits::CpuOnly => 44,
    };
    let k = pre.len() + folded.len() + off;
    assert(post.subrange(off, off + n.len()) =~= n);
    assert(m.subrange(k, k + n.len()) =~= post.subrange(off, off + n.len()));
}

/// The refusal of a diarization spelling quotes the folded spelling and lists
/// every canonical spelling.
pub proof fn lemma_diarize_rejection_is_informative(folded: Seq<char>, u: DiarizeComputeUnits)
    ensures
        occurs_in(folded, diarize_units_rejection(folded)),
        occurs_in(diarize_units_name(u), diarize_units_rejection(folded)),
{
    let pre = "unknown diarization compute-units preset '"@;
    let post = "' (expected: all, cpu-and-ane, cpu-and-gpu, cpu-only)"@;
    let m = diarize_units_rejection(folded);
    assert(m == pre + folded + post);
    assert(m.subrange(pre.len() as int, (pre.len() + folded.len()) as int) =~= folded);
    reveal_strlit("' (expected: all, cpu-and-ane, cpu-and-gpu, cpu-only)");
    reveal_strlit("all");
    reveal_strlit("cpu-and-ane");
    reveal_strlit("cpu-and-gpu");
    reveal_strlit("cpu-only");
    let n = diarize_units_name(u);
    let off: int = match u {
        DiarizeComputeUnits::All => 13,
        DiarizeComputeUnits::CpuAndAne => 18,
        DiarizeComputeUnits::CpuAndGpu => 31,
        DiarizeComputeUnits::CpuOnly => 44,
    };
    let k = pre.len() + folded.len() + off;
    assert(post.subrange(off, off + n.len()) =~= n);
    assert(m.subrange(k, k + n.len()) =~= post.subrange(off, off + n.len()));
}

/// Every documented Kokoro spelling, in any ASCII case, names its preset:
/// `default`; `all-ane`, `ane`, `neural-engine`; `cpu-and-gpu`, `cpuandgpu`,
/// `gpu`; `cpu-only`, `cpu`, `cpuonly`.
pub proof fn lemma_kokoro_alias_table(s: Seq<char>, r: Result<KokoroComputeUnits, FluidAudioError>)
    requires
        kokoro_units_parsed(s, r),
    ensures
        lower_seq(s) == "default"@ ==> r == Ok::<KokoroComputeUnits, FluidAudioError>(KokoroComputeUnits::Default),
        lower_seq(s) == "all-ane"@ ==> r == Ok::<KokoroComputeUnits, FluidAudioError>(KokoroComputeUnits::AllAne),
        lower_seq(s) == "ane"@ ==> r == Ok::<KokoroComputeUnits, FluidAudioError>(KokoroComputeUnits::AllAne),
        lower_seq(s) == "neural-engine"@ ==> r == Ok::<KokoroComputeUnits, FluidAudioError>(KokoroComputeUnits::AllAne),
        lower_seq(s) == "cpu-and-gpu"@ ==> r == Ok::<KokoroComputeUnits, FluidAudioError>(KokoroComputeUnits::CpuAndGpu),
        lower_seq(s) == "cpuandgpu"@ ==> r == Ok::<KokoroComputeUnits, FluidAudioError>(KokoroComputeUnits::CpuAndGpu),
        lower_seq(s) == "gpu"@ ==> r == Ok::<KokoroComputeUnits, FluidAudioError>(KokoroComputeUnits::CpuAndGpu),
        lower_seq(s) == "cpu-only"@ ==> r == Ok::<KokoroComputeUnits, FluidAudioError>(KokoroComputeUnits::CpuOnly),
        lower_seq(s) == "cpu"@ ==> r == Ok::<KokoroComputeUnits, FluidAudioError>(KokoroComputeUnits::CpuOnly),
        lower_seq(s) == "cpuonly"@ ==> r == Ok::<KokoroComputeUnits, FluidAudioError>(KokoroComputeUnits::CpuOnly),
{
    assert(kokoro_units_named("default"@) == Some(KokoroComputeUnits::Default)) by {
        reveal_strlit("default");
    }
    assert(kokoro_units_named("all-ane"@) == Some(KokoroComputeUnits::AllAne)) by {
        reveal_strlit("all-ane");
        reveal_strlit("default");
        assert("all-ane"@[0] != "default"@[0]);
    }
    assert(kokoro_units_named("ane"@) == Some(KokoroComputeUnits::AllAne)) by {
        reveal_strlit("all-ane");
        reveal_strlit("ane");
        reveal_strlit("default");
        assert("ane"@.len() != "default"@.len());
        assert("ane"@.len() != "all-ane"@.len());
    }
    assert(kokoro_units_named("neural-engine"@) == Some(KokoroComputeUnits::AllAne)) by {
        reveal_strlit("all-ane");
        reveal_strlit("ane");
        reveal_strlit("default");
        reveal_strlit("neural-engine");
        assert("neural-engine"@.len() != "default"@.len());
        assert("neural-engine"@.len() != "all-ane"@.len());
        assert("neural-engine"@.len() != "ane"@.len());
    }
    assert(kokoro_units_named("cpu-and-gpu"@) == Some(KokoroComputeUnits::CpuAndGpu)) by {
        reveal_strlit("all-ane");
        reveal_strlit("ane");
        reveal_strlit("cpu-and-gpu");
        reveal_strlit("default");
        reveal_strlit("neural-engine");
        assert("cpu-and-gpu"@.len() != "default"@.len());
        assert("cpu-and-gpu"@.len() != "all-ane"@.len());
        assert("cpu-and-gpu"@.len() != "ane"@.len());
        assert("cpu-and-gpu"@.len() != "neural-engine"@.len());
    }
    assert(kokoro_units_named("cpuandgpu"@) == Some(KokoroComputeUnits::CpuAndGpu)) by {
        reveal_strlit("all-ane");
        reveal_strlit("ane");
        reveal_strlit("cpu-and-gpu");
        reveal_strlit("cpuandgpu");
        reveal_strlit("default");
        reveal_strlit("neural-engine");
        assert("cpuandgpu"@.len() != "default"@.len());
        assert("cpuandgpu"@.len() != "all-ane"@.len());
        assert("cpuandgpu"@.len() != "ane"@.len());
        assert("cpuandgpu"@.len() != "neural-engine"@.len());
        assert("cpuandgpu"@.len() != "cpu-and-gpu"@.len());
    }
    assert(kokoro_units_named("gpu"@) == Some(KokoroComputeUnits::CpuAndGpu)) by {
        reveal_strlit("all-ane");
        reveal_strlit("ane");
        reveal_strlit("cpu-and-gpu");
        reveal_strlit("cpuandgpu");
        reveal_strlit("default");
        reveal_strlit("gpu");
        reveal_strlit("neural-engine");
        assert("gpu"@.len() != "default"@.len());
        assert("gpu"@.len() != "all-ane"@.len());
        assert("gpu"@[0] != "ane"@[0]);
        assert("gpu"@.len() != "neural-engine"@.len());
        assert("gpu"@.len() != "cpu-and-gpu"@.len());
        assert("gpu"@.len() != "cpuandgpu"@.len());
    }
    assert(kokoro_units_named("cpu-only"@) == Some(KokoroComputeUnits::CpuOnly)) by {
        reveal_strlit("all-ane");
        reveal_strlit("ane");
        reveal_strlit("cpu-and-gpu");
        reveal_strlit("cpu-only");
        reveal_strlit("cpuandgpu");
        reveal_strlit("default");
        reveal_strlit("gpu");
        reveal_strlit("neural-engine");
        assert("cpu-only"@.len() != "default"@.len());
        assert("cpu-only"@.len() != "all-ane"@.len());
        assert("cpu-only"@.len() != "ane"@.len());
        assert("cpu-only"@.len() != "neural-engine"@.len());
        assert("cpu-only"@.len() != "cpu-and-gpu"@.len());
        assert("cpu-only"@.len() != "cpuandgpu"@.len());
        assert("cpu-only"@.len() != "gpu"@.len());
    }
    assert(kokoro_units_named("cpu"@) == Some(KokoroComputeUnits::CpuOnly)) by {
        reveal_strlit("all-ane");
        reveal_strlit("ane");
        reveal_strlit("cpu");
        reveal_strlit("cpu-and-gpu");
        reveal_strlit("cpu-only");
        reveal_strlit("cpuandgpu");
        reveal_strlit("default");
        reveal_strlit("gpu");
        reveal_strlit("neural-engine");
        assert("cpu"@.len() != "default"@.len());
        assert("cpu"@.len() != "all-ane"@.len());
        assert("cpu"@[0] != "ane"@[0]);
        assert("cpu"@.len() != "neural-engine"@.len());
        assert("cpu"@.len() != "cpu-and-gpu"@.len());
        assert("cpu"@.len() != "cpuandgpu"@.len());
        assert("cpu"@[0] != "gpu"@[0]);
        assert("cpu"@.len() != "cpu-only"@.len());
    }
    assert(kokoro_units_named("cpuonly"@) == Some(KokoroComputeUnits::CpuOnly)) by {
        reveal_strlit("all-ane");
        reveal_strlit("ane");
        reveal_strlit("cpu");
        reveal_strlit("cpu-and-gpu");
        reveal_strlit("cpu-only");
        reveal_strlit("cpuandgpu");
        reveal_strlit("cpuonly");
        reveal_strlit("default");
        reveal_strlit("gpu");
        reveal_strlit("neural-engine");
        assert("cpuonly"@[0] != "default"@[0]);
        assert("cpuonly"@[0] != "all-ane"@[0]);
        assert("cpuonly"@.len() != "ane"@.len());
        assert("cpuonly"@.len() != "neural-engine"@.len());
        assert("cpuonly"@.len() != "cpu-and-gpu"@.len());
        assert("cpuonly"@.len() != "cpuandgpu"@.len());
        assert("cpuonly"@.len() != "gpu"@.len());
        assert("cpuonly"@.len() != "cpu-only"@.len());
        assert("cpuonly"@.len() != "cpu"@.len());
    }
}

/// Every documented diarization spelling, in any ASCII case, names its
/// preset: `all`; `cpu-and-ane`, `ane`, `neural-engine`; `cpu-and-gpu`,
/// `cpuandgpu`, `gpu`; `cpu-only`, `cpu`, `cpuonly`.
pub proof fn lemma_diarize_alias_table(s: Seq<char>, r: Result<DiarizeComputeUnits, FluidAudioError>)
    requires
        diarize_units_parsed(s, r),
    ensures
        lower_seq(s) == "all"@ ==> r == Ok::<DiarizeComputeUnits, FluidAudioError>(DiarizeComputeUnits::All),
        lower_seq(s) == "cpu-and-ane"@ ==> r == Ok::<DiarizeComputeUnits, FluidAudioError>(DiarizeComputeUnits::CpuAndAne),
        lower_seq(s) == "ane"@ ==> r == Ok::<DiarizeComputeUnits, FluidAudioError>(DiarizeComputeUnits::CpuAndAne),
        lower_seq(s) == "neural-engine"@ ==> r == Ok::<DiarizeComputeUnits, FluidAudioError>(DiarizeComputeUnits::CpuAndAne),
        lower_seq(s) == "cpu-and-gpu"@ ==> r == Ok::<DiarizeComputeUnits, FluidAudioError>(DiarizeComputeUnits::CpuAndGpu),
        lower_seq(s) == "cpuandgpu"@ ==> r == Ok::<DiarizeComputeUnits, FluidAudioError>(DiarizeComputeUnits::CpuAndGpu),
        lower_seq(s) == "gpu"@ ==> r == Ok::<DiarizeComputeUnits, FluidAudioError>(DiarizeComputeUnits::CpuAndGpu),
        lower_seq(s) == "cpu-only"@ ==> r == Ok::<DiarizeComputeUnits, FluidAudioError>(DiarizeComputeUnits::CpuOnly),
        lower_seq(s) == "cpu"@ ==> r == Ok::<DiarizeComputeUnits, FluidAudioError>(DiarizeComputeUnits::CpuOnly),
        lower_seq(s) == "cpuonly"@ ==> r == Ok::<DiarizeComputeUnits, FluidAudioError>(DiarizeComputeUnits::CpuOnly),
{
    assert(diarize_units_named("all"@) == Some(DiarizeComputeUnits::All)) by {
        reveal_strlit("all");
    }
    assert(diarize_units_named("cpu-and-ane"@) == Some(DiarizeComputeUnits::CpuAndAne)) by {
        reveal_strlit("all");
        reveal_strlit("cpu-and-ane");
        assert("cpu-and-ane"@.len() != "all"@.len());
    }
    assert(diarize_units_named("ane"@) == Some(DiarizeComputeUnits::CpuAndAne)) by {
        reveal_strlit("all");
        reveal_strlit("ane");
        reveal_strlit("cpu-and-ane");
        assert("ane"@[1] != "all"@[1]);
        assert("ane"@.len() != "cpu-and-ane"@.len());
    }
    assert(diarize_units_named("neural-engine"@) == Some(DiarizeComputeUnits::CpuAndAne)) by {
        reveal_strlit("all");
        reveal_strlit("ane");
        reveal_strlit("cpu-and-ane");
        reveal_strlit("neural-engine");
        assert("neural-engine"@.len() != "all"@.len());
        assert("neural-engine"@.len() != "cpu-and-ane"@.len());
        assert("neural-engine"@.len() != "ane"@.len());
    }
    assert(diarize_units_named("cpu-and-gpu"@) == Some(DiarizeComputeUnits::CpuAndGpu)) by {
        reveal_strlit("all");
        reveal_strlit("ane");
        reveal_strlit("cpu-and-ane");
        reveal_strlit("cpu-and-gpu");
        reveal_strlit("neural-engine");
        assert("cpu-and-gpu"@.len() != "all"@.len());
        assert("cpu-and-gpu"@[8] != "cpu-and-ane"@[8]);
        assert("cpu-and-gpu"@.len() != "ane"@.len());
        assert("cpu-and-gpu"@.len() != "neural-engine"@.len());
    }
    assert(diarize_units_named("cpuandgpu"@) == Some(DiarizeComputeUnits::CpuAndGpu)) by {
        reveal_strlit("all");
        reveal_strlit("ane");
        reveal_strlit("cpu-and-ane");
        reveal_strlit("cpu-and-gpu");
        reveal_strlit("cpuandgpu");
        reveal_strlit("neural-engine");
        assert("cpuandgpu"@.len() != "all"@.len());
        assert("cpuandgpu"@.len() != "cpu-and-ane"@.len());
        assert("cpuandgpu"@.len() != "ane"@.len());
        assert("cpuandgpu"@.len() != "neural-engine"@.len());
        assert("cpuandgpu"@.len() != "cpu-and-gpu"@.len());
    }
    assert(diarize_units_named("gpu"@) == Some(DiarizeComputeUnits::CpuAndGpu)) by {
        reveal_strlit("all");
        reveal_strlit("ane");
        reveal_strlit("cpu-and-ane");
        reveal_strlit("cpu-and-gpu");
        reveal_strlit("cpuandgpu");
        reveal_strlit("gpu");
        reveal_strlit("neural-engine");
        assert("gpu"@[0] != "all"@[0]);
        assert("gpu"@.len() != "cpu-and-ane"@.len());
        assert("gpu"@[0] != "ane"@[0]);
        assert("gpu"@.len() != "neural-engine"@.len());
        assert("gpu"@.len() != "cpu-and-gpu"@.len());
        assert("gpu"@.len() != "cpuandgpu"@.len());
    }
    assert(diarize_units_named("cpu-only"@) == Some(DiarizeComputeUnits::CpuOnly)) by {
        reveal_strlit("all");
        reveal_strlit("ane");
        reveal_strlit("cpu-and-ane");
        reveal_strlit("cpu-and-gpu");
        reveal_strlit("cpu-only");
        reveal_strlit("cpuandgpu");
        reveal_strlit("gpu");
        reveal_strlit("neural-engine");
        assert("cpu-only"@.len() != "all"@.len());
        assert("cpu-only"@.len() != "cpu-and-ane"@.len());
        assert("cpu-only"@.len() != "ane"@.len());
        assert("cpu-only"@.len() != "neural-engine"@.len());
        assert("cpu-only"@.len() != "cpu-and-gpu"@.len());
        assert("cpu-only"@.len() != "cpuandgpu"@.len());
        assert("cpu-only"@.len() != "gpu"@.len());
    }
    assert(diarize_units_named("cpu"@) == Some(DiarizeComputeUnits::CpuOnly)) by {
        reveal_strlit("all");
        reveal_strlit("ane");
        reveal_strlit("cpu");
        reveal_strlit("cpu-and-ane");
        reveal_strlit("cpu-and-gpu");
        reveal_strlit("cpu-only");
        reveal_strlit("cpuandgpu");
        reveal_strlit("gpu");
        reveal_strlit("neural-engine");
        assert("cpu"@[0] != "all"@[0]);
        assert("cpu"@.len() != "cpu-and-ane"@.len());
        assert("cpu"@[0] != "ane"@[0]);
        assert("cpu"@.len() != "neural-engine"@.len());
        assert("cpu"@.len() != "cpu-and-gpu"@.len());
        assert("cpu"@.len() != "cpuandgpu"@.len());
        assert("cpu"@[0] != "gpu"@[0]);
        assert("cpu"@.len() != "cpu-only"@.len());
    }
    assert(diarize_units_named("cpuonly"@) == Some(DiarizeComputeUnits::CpuOnly)) by {
        reveal_strlit("all");
        reveal_strlit("ane");
        reveal_strlit("cpu");
        reveal_strlit("cpu-and-ane");
        reveal_strlit("cpu-and-gpu");
        reveal_strlit("cpu-only");
        reveal_strlit("cpuandgpu");
        reveal_strlit("cpuonly");
        reveal_strlit("gpu");
        reveal_strlit("neural-engine");
        assert("cpuonly"@.len() != "all"@.len());
        assert("cpuonly"@.len() != "cpu-and-ane"@.len());
        assert("cpuonly"@.len() != "ane"@.len());
        assert("cpuonly"@.len() != "neural-engine"@.len());
        assert("cpuonly"@.len() != "cpu-and-gpu"@.len());
        assert("cpuonly"@.len() != "cpuandgpu"@.len());
        assert("cpuonly"@.len() != "gpu"@.len());
        assert("cpuonly"@.len() != "cpu-only"@.len());
        assert("cpuonly"@.len() != "cpu"@.len());
    }
}

} // verus!
