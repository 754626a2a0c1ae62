//! Format selector: picks the best stream out of a catalog under the
//! audio-only policy.

use vstd::prelude::*;
use crate::format::Format;

verus! {

/// Whether a descriptor survives the policy filter: audio-only wants a pure
/// audio stream; otherwise only a muxed stream (both tracks, no separate
/// merge step) is acceptable.
pub open spec fn sp_eligible(f: Format, audio_only: bool) -> bool {
    if audio_only {
        f.has_audio && !f.has_video
    } else {
        f.has_audio && f.has_video
    }
}

/// Executable mirror of [`sp_eligible`].
pub fn eligible(f: &Format, audio_only: bool) -> (r: bool)
    ensures
        r == sp_eligible(*f, audio_only),
{
    if audio_only {
        f.has_audio && !f.has_video
    } else {
        f.has_audio && f.has_video
    }
}

/// No catalog entry survives the policy filter.
pub open spec fn sp_none_eligible(formats: Seq<Format>, audio_only: bool) -> bool {
    forall|i: int| 0 <= i < formats.len() ==> !sp_eligible(#[trigger] formats[i], audio_only)
}

/// Index `k` holds the selection: an eligible entry of maximal quality
/// rank, and the earliest entry of that rank.
pub open spec fn sp_selection_ok(formats: Seq<Format>, audio_only: bool, k: int) -> bool {
    &&& 0 <= k < formats.len()
    &&& sp_eligible(formats[k], audio_only)
    &&& forall|i: int| 0 <= i < formats.len() && sp_eligible(#[trigger] formats[i], audio_only)
        ==> formats[i].quality <= formats[k].quality
    &&& forall|i: int| 0 <= i < k && sp_eligible(#[trigger] formats[i], audio_only)
        ==> formats[i].quality < formats[k].quality
}

/// Picks the best eligible descriptor: the first one of maximal quality
/// rank, in input order. Returns its index, or `None` when nothing survives
/// the filter.
pub fn select_best(formats: &Vec<Format>, audio_only: bool) -> (r: Option<usize>)
    ensures
        r is None <==> sp_none_eligible(formats@, audio_only),
        r matches Some(k) ==> sp_selection_ok(formats@, audio_only, k as int),
{
    let n = formats.len();
    let mut best: Option<usize> = None;
    let mut i: usize = 0;
    while i < n
        invariant
            n == formats.len(),
            i <= n,
            best is None ==> (forall|j: int|
                0 <= j < i ==> !sp_eligible(#[trigger] formats[j], audio_only)),
            best matches Some(k) ==> {
                &&& 0 <= k < i
                &&& sp_eligible(formats[k as int], audio_only)
                &&& forall|j: int| 0 <= j < i && sp_eligible(#[trigger] formats[j], audio_only)
                    ==> formats[j].quality <= formats[k as int].quality
                &&& forall|j: int| 0 <= j < k && sp_eligible(#[trigger] formats[j], audio_only)
                    ==> formats[j].quality < formats[k as int].quality
            },
        decreases n - i,
    {
        if eligible(&formats[i], audio_only) {
            match best {
                None => {
                    best = Some(i);
                },
                Some(k) => {
                    if formats[i].quality > formats[k].quality {
                        best = Some(i);
                    }
                },
            }
        }
        i = i + 1;
    }
    best
}

} // verus!
