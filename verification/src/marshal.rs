//! Assembly of the per-item results that the engine returns as parallel
//! arrays (one entry per diarization segment or per VAD chunk).
use vstd::prelude::*;

verus! {

/// The characters of a speaker label; a missing label is empty.
pub open spec fn label_text(id: Option<String>) -> Seq<char> {
    match id {
        Some(s) => s@,
        None => Seq::empty(),
    }
}

/// Whether an optional array, where present, has `count` entries.
pub open spec fn sized<T>(a: Option<&[T]>, count: usize) -> bool {
    match a {
        Some(s) => s@.len() == count,
        None => true,
    }
}

/// The diarization segments `(speaker, start, end, quality)` held by the
/// engine's parallel arrays: none when the count is zero or any array is
/// missing, else one per index.
pub fn diarization_rows<F: Copy>(
    count: usize,
    ids: Option<&Vec<Option<String>>>,
    starts: Option<&[F]>,
    ends: Option<&[F]>,
    qualities: Option<&[F]>,
) -> (rows: Vec<(String, F, F, F)>)
    requires
        match ids {
            Some(v) => v@.len() == count,
            None => true,
        },
        sized(starts, count),
        sized(ends, count),
        sized(qualities, count),
    ensures
        count == 0 || ids is None || starts is None || ends is None || qualities is None
            ==> rows@.len() == 0,
        !(count == 0 || ids is None || starts is None || ends is None || qualities is None)
            ==> {
            &&& rows@.len() == count
            &&& forall|i: int|
                0 <= i < count ==> {
                    &&& (#[trigger] rows@[i]).0@ == label_text(ids->0@[i])
                    &&& rows@[i].1 == starts->0@[i]
                    &&& rows@[i].2 == ends->0@[i]
                    &&& rows@[i].3 == qualities->0@[i]
                }
        },
{
    let mut rows: Vec<(String, F, F, F)> = Vec::new();
    if count == 0 {
        return rows;
    }
    match (ids, starts, ends, qualities) {
        (Some(ids), Some(starts), Some(ends), Some(qualities)) => {
            let mut i: usize = 0;
            while i < count
                invariant
                    ids@.len() == count,
                    starts@.len() == count,
                    ends@.len() == count,
                    qualities@.len() == count,
                    i <= count,
                    rows@.len() == i,
                    forall|j: int|
                        0 <= j < i ==> {
                            &&& (#[trigger] rows@[j]).0@ == label_text(ids@[j])
                            &&& rows@[j].1 == starts@[j]
                            &&& rows@[j].2 == ends@[j]
                            &&& rows@[j].3 == qualities@[j]
                        },
                decreases count - i,
            {
                let label = match &ids[i] {
                    Some(s) => s.clone(),
                    None => String::new(),
                };
                rows.push((label, starts[i], ends[i], qualities[i]));
                i = i + 1;
            }
            rows
        },
        _ => rows,
    }
}

/// The VAD frames `(probability, voice active, processing time)` held by the
/// engine's parallel arrays: none when the count is zero or any array is
/// missing, else one per index, voice active where its flag is nonzero.
pub fn vad_rows<P: Copy, T: Copy>(
    count: usize,
    probabilities: Option<&[P]>,
    voice: Option<&[u8]>,
    times: Option<&[T]>,
) -> (rows: Vec<(P, bool, T)>)
    requires
        sized(probabilities, count),
        sized(voice, count),
        sized(times, count),
    ensures
        count == 0 || probabilities is None || voice is None || times is None ==> rows@.len() == 0,
        !(count == 0 || probabilities is None || voice is None || times is None) ==> {
            &&& rows@.len() == count
            &&& forall|i: int|
                0 <= i < count ==> {
                    &&& (#[trigger] rows@[i]).0 == probabilities->0@[i]
                    &&& rows@[i].1 == (voice->0@[i] != 0)
                    &&& rows@[i].2 == times->0@[i]
                }
        },
{
    let mut rows: Vec<(P, bool, T)> = Vec::new();
    if count == 0 {
        return rows;
    }
    match (probabilities, voice, times) {
        (Some(probabilities), Some(voice), Some(times)) => {
            let mut i: usize = 0;
            while i < count
                invariant
                    probabilities@.len() == count,
                    voice@.len() == count,
                    times@.len() == count,
                    i <= count,
                    rows@.len() == i,
                    forall|j: int|
                        0 <= j < i ==> {
                            &&& (#[trigger] rows@[j]).0 == probabilities@[j]
                            &&& rows@[j].1 == (voice@[j] != 0)
                            &&& rows@[j].2 == times@[j]
                        },
                decreases count - i,
            {
                rows.push((probabilities[i], voice[i] != 0, times[i]));
                i = i + 1;
            }
            rows
        },
        _ => rows,
    }
}

} // verus!
