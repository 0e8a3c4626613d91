//! Matching selector: which candidates are eligible for a requester,
//! and picking one among them.
//!
//! The cool-down rule (a pair is not re-shown while a dating attempt
//! between them is still open or younger than the product's window) is
//! enforced by the storage query; the caller passes the resulting
//! excluded candidate ids in.

use vstd::prelude::*;
use crate::cities::{county_key, subject_key, LocationFilter};
use crate::profile::UserProfile;

verus! {

/// True when the candidate's location satisfies the requester's filter:
/// no constraint country-wide, otherwise the corresponding geographic
/// component must match, which requires both to have a city.
pub open spec fn location_ok(req: UserProfile, cand: UserProfile) -> bool {
    match req.location_filter {
        LocationFilter::Country => true,
        LocationFilter::County => match (req.city.city, cand.city.city) {
            (Some(a), Some(b)) => county_key(a.id) == county_key(b.id),
            _ => false,
        },
        LocationFilter::Subject => match (req.city.city, cand.city.city) {
            (Some(a), Some(b)) => county_key(a.id) == county_key(b.id) && subject_key(a.id)
                == subject_key(b.id),
            _ => false,
        },
        LocationFilter::City => match (req.city.city, cand.city.city) {
            (Some(a), Some(b)) => a.id == b.id,
            _ => false,
        },
    }
}

/// True when the candidate graduates within the requester's tolerance:
/// the "up" delta lowers the earliest allowed year, the "down" delta
/// raises the latest one.
pub open spec fn year_ok(req: UserProfile, cand: UserProfile) -> bool {
    req.graduation_year.year - req.grade_up_filter <= cand.graduation_year.year
        <= req.graduation_year.year + req.grade_down_filter
}

/// True when the candidate studies at least one subject of the
/// requester's filter; an empty filter admits anyone.
pub open spec fn subjects_ok(req: UserProfile, cand: UserProfile) -> bool {
    req.subjects_filter.subjects.bits == 0 || cand.subjects.subjects.bits
        & req.subjects_filter.subjects.bits != 0
}

/// Full eligibility: the candidate is active, is someone else, both
/// gender filters pass symmetrically, and the year, location and
/// subject constraints hold.
pub open spec fn eligible_spec(req: UserProfile, cand: UserProfile) -> bool {
    &&& cand.active
    &&& cand.id != req.id
    &&& req.gender_filter.spec_admits(cand.gender)
    &&& cand.gender_filter.spec_admits(req.gender)
    &&& year_ok(req, cand)
    &&& location_ok(req, cand)
    &&& subjects_ok(req, cand)
}

/// Decides eligibility of one candidate for one requester.
pub fn is_eligible(req: &UserProfile, cand: &UserProfile) -> (r: bool)
    ensures
        r == eligible_spec(*req, *cand),
{
    if !cand.active {
        return false;
    }
    if cand.id == req.id {
        return false;
    }
    if !req.gender_filter.admits(&cand.gender) {
        return false;
    }
    if !cand.gender_filter.admits(&req.gender) {
        return false;
    }
    let ry = req.graduation_year.year as i32;
    let cy = cand.graduation_year.year as i32;
    if !(ry - req.grade_up_filter as i32 <= cy && cy <= ry + req.grade_down_filter as i32) {
        return false;
    }
    let loc = match req.location_filter {
        LocationFilter::Country => true,
        LocationFilter::County => match (req.city.get_city(), cand.city.get_city()) {
            (Some(a), Some(b)) => {
                proof {
                    let x = a.id as u32;
                    let y = b.id as u32;
                    assert((x >> 16u32) <= 0xFFFFu32 && (y >> 16u32) <= 0xFFFFu32)
                        by (bit_vector);
                }
                ((a.id as u32) >> 16u32) == ((b.id as u32) >> 16u32)
            },
            _ => false,
        },
        LocationFilter::Subject => match (req.city.get_city(), cand.city.get_city()) {
            (Some(a), Some(b)) => {
                ((a.id as u32) >> 16u32) == ((b.id as u32) >> 16u32) && (((a.id as u32)
                    >> 8u32) & 0xFFu32) == (((b.id as u32) >> 8u32) & 0xFFu32)
            },
            _ => false,
        },
        LocationFilter::City => match (req.city.get_city(), cand.city.get_city()) {
            (Some(a), Some(b)) => a.id == b.id,
            _ => false,
        },
    };
    if !loc {
        return false;
    }
    req.subjects_filter.subjects.bits == 0 || cand.subjects.subjects.bits
        & req.subjects_filter.subjects.bits != 0
}

/// Tests whether an id list contains `id`.
pub fn contains_id(v: &Vec<i64>, id: i64) -> (r: bool)
    ensures
        r == v@.contains(id),
{
    let n = v.len();
    let mut i: usize = 0;
    while i < n
        invariant
            n == v@.len(),
            0 <= i <= n,
            forall|j: int| 0 <= j < i ==> v@[j] != id,
        decreases n - i,
    {
        if v[i] == id {
            return true;
        }
        i = i + 1;
    }
    false
}

/// Picks the first eligible candidate that is not excluded by the
/// cool-down list; returns its index, or nothing when no candidate
/// qualifies.
pub fn select_candidate(req: &UserProfile, candidates: &Vec<UserProfile>, excluded: &Vec<
    i64,
>) -> (r: Option<usize>)
    ensures
        r matches Some(i) ==> i < candidates@.len() && eligible_spec(*req, candidates@[i as int])
            && !excluded@.contains(candidates@[i as int].id) && forall|j: int|
            0 <= j < i ==> !(eligible_spec(*req, candidates@[j]) && !excluded@.contains(
                candidates@[j].id,
            )),
        r is None ==> forall|j: int|
            0 <= j < candidates@.len() ==> !(eligible_spec(*req, candidates@[j])
                && !excluded@.contains(candidates@[j].id)),
{
    let n = candidates.len();
    let mut i: usize = 0;
    while i < n
        invariant
            n == candidates@.len(),
            0 <= i <= n,
            forall|j: int| 0 <= j < i ==> !(eligible_spec(*req, candidates@[j])
                && !excluded@.contains(candidates@[j].id)),
        decreases n - i,
    {
        if is_eligible(req, &candidates[i]) && !contains_id(excluded, candidates[i].id) {
            return Some(i);
        }
        i = i + 1;
    }
    None
}

} // verus!
