//! Matching the reference pixels of a relocalization to candidate pixels.
//!
//! Distances are handed in as keys: integers that are ordered as the
//! distances are. The bit pattern of a non-negative single precision number
//! is such a key.

use vstd::prelude::*;
use crate::error::SessionError;

verus! {

/// A candidate pixel of the reference keyframe, seen from one reference
/// pixel.
#[derive(Clone, Copy, PartialEq, Eq, Debug)]
pub struct RankedCandidate {
    /// The key of the distance between the reference pixel and the candidate.
    pub distance: u32,
    /// The coordinates `(x, y)` of the candidate.
    pub pixel: (usize, usize),
    /// The inverse depth of the candidate (bit pattern of a single precision
    /// number).
    pub idepth: u32,
}

/// Whether `i` is the first position of the smallest distance.
pub open spec fn is_first_minimum(candidates: Seq<RankedCandidate>, i: int) -> bool {
    &&& 0 <= i < candidates.len()
    &&& forall|j: int| 0 <= j < candidates.len() ==> candidates[i].distance <= (#[trigger] candidates[j]).distance
    &&& forall|j: int| 0 <= j < i ==> candidates[i].distance < (#[trigger] candidates[j]).distance
}

/// No two positions are both the first minimum.
pub proof fn lemma_first_minimum_unique(candidates: Seq<RankedCandidate>, i: int, j: int)
    requires
        is_first_minimum(candidates, i),
        is_first_minimum(candidates, j),
    ensures
        i == j,
{
    if i < j {
        assert(candidates[j].distance < candidates[i].distance);
        assert(candidates[i].distance <= candidates[j].distance);
    } else if j < i {
        assert(candidates[i].distance < candidates[j].distance);
        assert(candidates[j].distance <= candidates[i].distance);
    }
}

/// Finds the candidate that is nearest to a reference pixel. Of several
/// candidates at the smallest distance the first one is taken, and no
/// distance is too large. Returns the position of the candidate and its
/// coordinates.
pub fn closest_to(candidates: &Vec<RankedCandidate>) -> (result: Result<(usize, (usize, usize)), SessionError>)
    ensures
        match result {
            Ok((id, pixel)) => is_first_minimum(candidates@, id as int) && pixel == candidates@[id as int].pixel,
            Err(error) => error == SessionError::NoCandidatesAvailable && candidates@.len() == 0,
        },
{
    if candidates.len() == 0 {
        return Err(SessionError::NoCandidatesAvailable);
    }
    let mut best: usize = 0;
    let mut i: usize = 1;
    while i < candidates.len()
        invariant
            1 <= i <= candidates.len(),
            0 <= best < i,
            forall|j: int| 0 <= j < i ==> candidates@[best as int].distance <= (#[trigger] candidates@[j]).distance,
            forall|j: int| 0 <= j < best ==> candidates@[best as int].distance < (#[trigger] candidates@[j]).distance,
        decreases candidates.len() - i,
    {
        if candidates[i].distance < candidates[best].distance {
            best = i;
        }
        i = i + 1;
    }
    Ok((best, candidates[best].pixel))
}

/// A reference pixel matched to a candidate of the reference keyframe.
#[derive(Clone, Copy, PartialEq, Eq, Debug)]
pub struct Correspondence {
    /// The position of the candidate in the candidate set.
    pub candidate: usize,
    /// The coordinates `(x, y)` of the candidate.
    pub pixel: (usize, usize),
    /// The inverse depth of the candidate.
    pub idepth: u32,
}

/// Whether `found` is the match of a reference pixel that sees the
/// candidates as `candidates`.
pub open spec fn is_match(found: Correspondence, candidates: Seq<RankedCandidate>) -> bool {
    &&& is_first_minimum(candidates, found.candidate as int)
    &&& found.pixel == candidates[found.candidate as int].pixel
    &&& found.idepth == candidates[found.candidate as int].idepth
}

/// Matches every reference pixel to its nearest candidate and looks up the
/// candidate's inverse depth: `views[k]` is the candidate set as reference
/// pixel `k` sees it. A reference pixel that sees no candidate has no match.
pub fn match_references(views: &Vec<Vec<RankedCandidate>>) -> (result: Result<Vec<Correspondence>, SessionError>)
    ensures
        match result {
            Ok(matches) => {
                &&& matches@.len() == views@.len()
                &&& forall|k: int| 0 <= k < views@.len() ==> is_match(#[trigger] matches@[k], views@[k]@)
            },
            Err(error) => error == SessionError::NoCandidatesAvailable && exists|k: int|
                0 <= k < views@.len() && (#[trigger] views@[k])@.len() == 0,
        },
{
    let mut matches: Vec<Correspondence> = Vec::new();
    let mut k: usize = 0;
    while k < views.len()
        invariant
            0 <= k <= views@.len(),
            matches@.len() == k,
            forall|m: int| 0 <= m < k ==> is_match(#[trigger] matches@[m], views@[m]@),
        decreases views@.len() - k,
    {
        match closest_to(&views[k]) {
            Ok((candidate, pixel)) => {
                matches.push(Correspondence { candidate, pixel, idepth: views[k][candidate].idepth });
            },
            Err(error) => {
                return Err(error);
            },
        }
        k = k + 1;
    }
    Ok(matches)
}

} // verus!
