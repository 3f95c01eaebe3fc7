//! The candidates that the catalogue returns for a search.

use vstd::prelude::*;
use crate::json::{array_len, as_flag, as_text, as_unsigned, element, json_of, member, Json};

verus! {

/// One product that the catalogue offers.
#[derive(Debug, Clone)]
pub struct SearchResult {
    pub id: String,
    pub file_size: usize,
    pub online: bool,
    pub num_points: usize,
}

/// What a search result is.
pub ghost struct Candidate {
    pub id: Seq<char>,
    pub file_size: nat,
    pub online: bool,
    pub num_points: nat,
}

impl View for SearchResult {
    type V = Candidate;

    open spec fn view(&self) -> Candidate {
        Candidate {
            id: self.id@,
            file_size: self.file_size as nat,
            online: self.online,
            num_points: self.num_points as nat,
        }
    }
}

/// The outer ring of the footprint of a catalogue entry: the first element
/// of the member `coordinates` of the member `GeoFootprint`.
pub open spec fn footprint_ring(entry: Json) -> Option<Json> {
    match entry.member("GeoFootprint"@) {
        Some(footprint) => match footprint.member("coordinates"@) {
            Some(rings) => rings.element(0),
            None => None,
        },
        None => None,
    }
}

/// The member of an object under `key`, read with `read`.
pub open spec fn field<T>(entry: Json, key: Seq<char>, read: spec_fn(Json) -> Option<T>) -> Option<
    T,
> {
    match entry.member(key) {
        Some(v) => read(v),
        None => None,
    }
}

/// The search result that a catalogue entry describes: its `Id`, its
/// `ContentLength`, whether it is `Online`, and the number of points of the
/// outer ring of its footprint. `None` where one of them is missing, is of
/// another kind, or is a number too large for this machine.
pub open spec fn candidate_of(entry: Json) -> Option<Candidate> {
    let id = field(entry, "Id"@, |v: Json| v.text());
    let size = field(entry, "ContentLength"@, |v: Json| v.unsigned());
    let online = field(entry, "Online"@, |v: Json| v.flag());
    let points = match footprint_ring(entry) {
        Some(ring) => ring.length(),
        None => None,
    };
    if id is Some && size is Some && size->Some_0 <= usize::MAX && online is Some && points is Some {
        Some(
            Candidate {
                id: id->Some_0,
                file_size: size->Some_0 as nat,
                online: online->Some_0,
                num_points: points->Some_0,
            },
        )
    } else {
        None
    }
}

/// The search results that a JSON array of catalogue entries describes, in
/// the array's order. `None` where the value is no array or one of its
/// elements describes no search result.
pub open spec fn candidates_of(list: Json) -> Option<Seq<Candidate>> {
    match list {
        Json::Array(a) => if forall|i: int| 0 <= i < a.len() ==> candidate_of(#[trigger] a[i]) is Some {
            Some(Seq::new(a.len(), |i: int| candidate_of(a[i])->Some_0))
        } else {
            None
        },
        _ => None,
    }
}

/// The view of an optional search result.
pub open spec fn candidate_view(r: Option<SearchResult>) -> Option<Candidate> {
    match r {
        Some(s) => Some(s@),
        None => None,
    }
}

/// The view of an optional list of search results.
pub open spec fn candidates_view(r: Option<Vec<SearchResult>>) -> Option<Seq<Candidate>> {
    match r {
        Some(v) => Some(Seq::new(v@.len(), |i: int| v@[i]@)),
        None => None,
    }
}

impl SearchResult {
    /// Reads a search result from a catalogue entry.
    pub fn new(json: &serde_json::Value) -> (r: Option<SearchResult>)
        ensures
            candidate_view(r) == candidate_of(json_of(*json)),
    {
        let id = match member(json, "Id") {
            Some(v) => as_text(v),
            None => None,
        };
        let size = match member(json, "ContentLength") {
            Some(v) => as_unsigned(v),
            None => None,
        };
        let online = match member(json, "Online") {
            Some(v) => as_flag(v),
            None => None,
        };
        let ring = match member(json, "GeoFootprint") {
            Some(footprint) => match member(footprint, "coordinates") {
                Some(rings) => element(rings, 0),
                None => None,
            },
            None => None,
        };
        let points = match ring {
            Some(v) => array_len(v),
            None => None,
        };
        match (id, size, online, points) {
            (Some(id), Some(size), Some(online), Some(num_points)) => {
                if size <= usize::MAX as u64 {
                    Some(SearchResult { id, file_size: size as usize, online, num_points })
                } else {
                    None
                }
            },
            _ => None,
        }
    }
}

/// Reads the search results from a JSON array of catalogue entries.
pub fn parse_search_result(json: &serde_json::Value) -> (r: Option<Vec<SearchResult>>)
    ensures
        candidates_view(r) == candidates_of(json_of(*json)),
{
    let n = match array_len(json) {
        Some(n) => n,
        None => {
            return None;
        },
    };
    let ghost entries = json_of(*json)->Array_0;
    let mut to_return: Vec<SearchResult> = Vec::new();
    let mut i: usize = 0;
    while i < n
        invariant
            json_of(*json) == Json::Array(entries),
            n == entries.len(),
            0 <= i <= n,
            to_return@.len() == i,
            forall|j: int|
                0 <= j < i ==> candidate_of(#[trigger] entries[j]) == Some(to_return@[j]@),
        decreases n - i,
    {
        let entry = match element(json, i) {
            Some(entry) => entry,
            None => {
                return None;
            },
        };
        match SearchResult::new(entry) {
            Some(result) => {
                to_return.push(result);
            },
            None => {
                return None;
            },
        }
        i += 1;
    }
    Some(to_return)
}

} // verus!
