//! Which entry of an archive carries which band, decided from the entries'
//! names alone.

use vstd::prelude::*;
use crate::sat_data::{DecodeError, BAND_COUNT};

verus! {

/// The byte `/`, which separates the components of an entry's name.
pub const SLASH: u8 = 0x2f;

/// The part of a file name that marks band `band`: `_B`, the band's number in
/// two decimal digits, and `.jp2`.
pub open spec fn band_pattern(band: nat) -> Seq<u8> {
    seq![
        0x5fu8,
        0x42u8,
        (0x30 + band / 10) as u8,
        (0x30 + band % 10) as u8,
        0x2eu8,
        0x6au8,
        0x70u8,
        0x32u8,
    ]
}

/// The name of the directory under which the imagery of a product lies:
/// `GRANULE`.
pub open spec fn granule_dir() -> Seq<u8> {
    seq![0x47u8, 0x52u8, 0x41u8, 0x4eu8, 0x55u8, 0x4cu8, 0x45u8]
}

/// `needle` stands in `hay` at position `at`.
pub open spec fn occurs_at(hay: Seq<u8>, needle: Seq<u8>, at: int) -> bool {
    &&& 0 <= at
    &&& at + needle.len() <= hay.len()
    &&& forall|j: int| 0 <= j < needle.len() ==> hay[at + j] == needle[j]
}

/// `needle` stands somewhere in `hay`.
pub open spec fn occurs(hay: Seq<u8>, needle: Seq<u8>) -> bool {
    exists|at: int| occurs_at(hay, needle, at)
}

/// No byte of `name` from `from` up to, not including, `to` is a slash.
pub open spec fn slash_free(name: Seq<u8>, from: int, to: int) -> bool {
    forall|j: int| from <= j < to ==> name[j] != SLASH
}

/// `s1`, `s2` and `s3` are the positions of the last, the last but one and
/// the last but two slash of `name`.
pub open spec fn last_three_slashes(name: Seq<u8>, s3: int, s2: int, s1: int) -> bool {
    &&& 0 <= s3 < s2 < s1 < name.len()
    &&& name[s3] == SLASH
    &&& name[s2] == SLASH
    &&& name[s1] == SLASH
    &&& slash_free(name, s3 + 1, s2)
    &&& slash_free(name, s2 + 1, s1)
    &&& slash_free(name, s1 + 1, name.len() as int)
}

/// The component of `name` that ends just before position `end` is the
/// imagery directory.
pub open spec fn granule_ends_at(name: Seq<u8>, end: int) -> bool {
    &&& end >= 7
    &&& occurs_at(name, granule_dir(), end - 7)
    &&& (end == 7 || name[end - 8] == SLASH)
}

/// The entry lies in the imagery tree of a product: its name has at least
/// four components, separated by slashes, and the fourth from the end is the
/// imagery directory.
pub open spec fn in_granule_tree(name: Seq<u8>) -> bool {
    exists|s3: int, s2: int, s1: int|
        last_three_slashes(name, s3, s2, s1) && granule_ends_at(name, s3)
}

/// The entry with this name carries band `band`: the band's pattern stands
/// in the name, and the entry lies in the imagery tree.
pub open spec fn carries_band(name: Seq<u8>, band: nat) -> bool {
    occurs(name, band_pattern(band)) && in_granule_tree(name)
}

/// The byte vectors as sequences.
pub open spec fn seqs_of(names: Seq<Vec<u8>>) -> Seq<Seq<u8>> {
    Seq::new(names.len(), |i: int| names[i]@)
}

/// `r` is what the search for the one entry that carries `band` gives: the
/// position of the only such entry, or that there is none, or that there are
/// several.
pub open spec fn locates(names: Seq<Seq<u8>>, band: nat, r: Result<usize, DecodeError>) -> bool {
    match r {
        Ok(i) => {
            &&& i < names.len()
            &&& carries_band(names[i as int], band)
            &&& forall|j: int| 0 <= j < names.len() && j != i ==> !carries_band(names[j], band)
        },
        Err(DecodeError::MissingBand(b)) => {
            &&& b == band
            &&& forall|j: int| 0 <= j < names.len() ==> !carries_band(names[j], band)
        },
        Err(DecodeError::DuplicateBand(b)) => {
            &&& b == band
            &&& exists|i: int, j: int|
                0 <= i < j < names.len() && carries_band(names[i], band) && carries_band(
                    names[j],
                    band,
                )
        },
        Err(_) => false,
    }
}

/// The pattern of band `band` as bytes.
pub fn pattern_of(band: usize) -> (r: Vec<u8>)
    requires
        1 <= band <= BAND_COUNT,
    ensures
        r@ == band_pattern(band as nat),
{
    let tens: u8 = (band / 10) as u8;
    let ones: u8 = (band % 10) as u8;
    let mut r: Vec<u8> = Vec::with_capacity(8);
    r.push(0x5fu8);
    r.push(0x42u8);
    r.push(0x30u8 + tens);
    r.push(0x30u8 + ones);
    r.push(0x2eu8);
    r.push(0x6au8);
    r.push(0x70u8);
    r.push(0x32u8);
    r
}

/// Whether `needle` stands in `hay` at position `at`.
pub fn matches_at(hay: &Vec<u8>, needle: &Vec<u8>, at: usize) -> (r: bool)
    ensures
        r == occurs_at(hay@, needle@, at as int),
{
    let hay_len: usize = hay.len();
    if needle.len() > hay_len || at > hay_len - needle.len() {
        return false;
    }
    let mut j: usize = 0;
    while j < needle.len()
        invariant
            hay_len == hay@.len(),
            at + needle@.len() <= hay@.len(),
            0 <= j <= needle@.len(),
            forall|k: int| 0 <= k < j ==> hay@[at + k] == needle@[k],
        decreases needle@.len() - j,
    {
        if hay[at + j] != needle[j] {
            return false;
        }
        j += 1;
    }
    true
}

/// Whether `needle` stands somewhere in `hay`.
pub fn contains_bytes(hay: &Vec<u8>, needle: &Vec<u8>) -> (r: bool)
    ensures
        r == occurs(hay@, needle@),
{
    if needle.len() > hay.len() {
        return false;
    }
    let last: usize = hay.len() - needle.len();
    let mut at: usize = 0;
    while at < last
        invariant
            last == hay@.len() - needle@.len(),
            0 <= at <= last,
            forall|k: int| 0 <= k < at ==> !occurs_at(hay@, needle@, k),
        decreases last - at,
    {
        if matches_at(hay, needle, at) {
            return true;
        }
        at += 1;
    }
    matches_at(hay, needle, last)
}

/// The position of the last slash of `name` before position `end`.
fn last_slash_before(name: &Vec<u8>, end: usize) -> (r: Option<usize>)
    requires
        end <= name@.len(),
    ensures
        r matches Some(i) ==> i < end && name@[i as int] == SLASH && slash_free(
            name@,
            i + 1,
            end as int,
        ),
        r is None ==> slash_free(name@, 0, end as int),
{
    let mut i: usize = end;
    while i > 0
        invariant
            0 <= i <= end <= name@.len(),
            slash_free(name@, i as int, end as int),
        decreases i,
    {
        i -= 1;
        if name[i] == SLASH {
            return Some(i);
        }
    }
    None
}

/// Whether the component of `name` that ends just before `end` is the
/// imagery directory.
fn granule_before(name: &Vec<u8>, end: usize) -> (r: bool)
    requires
        end <= name@.len(),
    ensures
        r == granule_ends_at(name@, end as int),
{
    if end < 7 {
        return false;
    }
    let start: usize = end - 7;
    let ok: bool = name[start] == 0x47u8 && name[start + 1] == 0x52u8 && name[start + 2] == 0x41u8
        && name[start + 3] == 0x4eu8 && name[start + 4] == 0x55u8 && name[start + 5] == 0x4cu8
        && name[start + 6] == 0x45u8;
    ok && (start == 0 || name[start - 1] == SLASH)
}

/// Whether the entry with this name lies in the imagery tree of a product.
pub fn lies_in_granule_tree(name: &Vec<u8>) -> (r: bool)
    ensures
        r == in_granule_tree(name@),
{
    let s1 = match last_slash_before(name, name.len()) {
        Some(i) => i,
        None => {
            return false;
        },
    };
    let s2 = match last_slash_before(name, s1) {
        Some(i) => i,
        None => {
            return false;
        },
    };
    let s3 = match last_slash_before(name, s2) {
        Some(i) => i,
        None => {
            return false;
        },
    };
    proof {
        assert(last_three_slashes(name@, s3 as int, s2 as int, s1 as int));
    }
    granule_before(name, s3)
}

/// Whether the entry with this name carries band `band`.
pub fn entry_carries_band(name: &Vec<u8>, band: usize) -> (r: bool)
    requires
        1 <= band <= BAND_COUNT,
    ensures
        r == carries_band(name@, band as nat),
{
    let pattern = pattern_of(band);
    contains_bytes(name, &pattern) && lies_in_granule_tree(name)
}

/// Looks for the one entry that carries band `band`.
pub fn find_band(names: &Vec<Vec<u8>>, band: usize) -> (r: Result<usize, DecodeError>)
    requires
        1 <= band <= BAND_COUNT,
    ensures
        locates(seqs_of(names@), band as nat, r),
{
    let ghost all = seqs_of(names@);
    let mut found: Option<usize> = None;
    let mut i: usize = 0;
    while i < names.len()
        invariant
            1 <= band <= BAND_COUNT,
            all == seqs_of(names@),
            0 <= i <= names@.len(),
            found is None ==> forall|j: int| 0 <= j < i ==> !carries_band(all[j], band as nat),
            found matches Some(f) ==> f < i && carries_band(all[f as int], band as nat) && forall|
                j: int,
            | 0 <= j < i && j != f ==> !carries_band(all[j], band as nat),
        decreases names@.len() - i,
    {
        if entry_carries_band(&names[i], band) {
            match found {
                Some(f) => {
                    assert(0 <= f < i < all.len() && carries_band(all[f as int], band as nat)
                        && carries_band(all[i as int], band as nat));
                    return Err(DecodeError::DuplicateBand(band));
                },
                None => {
                    found = Some(i);
                },
            }
        }
        i += 1;
    }
    match found {
        Some(f) => Ok(f),
        None => Err(DecodeError::MissingBand(band)),
    }
}

/// Exactly one entry carries band `band`.
pub open spec fn has_sole_carrier(names: Seq<Seq<u8>>, band: int) -> bool {
    exists|i: usize| locates(names, band as nat, Ok(i))
}

/// `r` is what assigning the twelve bands to the entries with these names
/// gives: for each band the position of the only entry that carries it, or
/// the failure of the first band that is carried by no entry or by several.
pub open spec fn assigns(names: Seq<Seq<u8>>, r: Result<Seq<usize>, DecodeError>) -> bool {
    match r {
        Ok(at) => {
            &&& at.len() == BAND_COUNT
            &&& forall|k: int| 0 <= k < BAND_COUNT ==> locates(names, (k + 1) as nat, Ok(#[trigger] at[k]))
        },
        Err(e) => exists|band: int|
            {
                &&& 1 <= band <= BAND_COUNT
                &&& #[trigger] locates(names, band as nat, Err(e))
                &&& forall|k: int| 1 <= k < band ==> #[trigger] has_sole_carrier(names, k)
            },
    }
}

/// What `assign_bands` returns, with the positions as a sequence.
pub open spec fn assignment(r: Result<Vec<usize>, DecodeError>) -> Result<Seq<usize>, DecodeError> {
    match r {
        Ok(at) => Ok(at@),
        Err(e) => Err(e),
    }
}

/// Assigns each of the twelve bands the entry that carries it. Fails if a
/// band is carried by no entry or by more than one; of several such bands the
/// first is reported.
pub fn assign_bands(names: &Vec<Vec<u8>>) -> (r: Result<Vec<usize>, DecodeError>)
    ensures
        assigns(seqs_of(names@), assignment(r)),
{
    let ghost all = seqs_of(names@);
    let mut at: Vec<usize> = Vec::with_capacity(BAND_COUNT);
    let mut band: usize = 1;
    while band <= BAND_COUNT
        invariant
            all == seqs_of(names@),
            1 <= band <= BAND_COUNT + 1,
            at@.len() == band - 1,
            forall|k: int| 0 <= k < band - 1 ==> locates(all, (k + 1) as nat, Ok(#[trigger] at@[k])),
        decreases BAND_COUNT + 1 - band,
    {
        match find_band(names, band) {
            Ok(i) => {
                at.push(i);
            },
            Err(e) => {
                proof {
                    assert forall|k: int| 1 <= k < band implies #[trigger] has_sole_carrier(
                        all,
                        k,
                    ) by {
                        assert(locates(all, ((k - 1) + 1) as nat, Ok(at@[k - 1])));
                    }
                    let b = band as int;
                    assert(locates(all, b as nat, Err(e)));
                }
                return Err(e);
            },
        }
        band += 1;
    }
    Ok(at)
}

/// At most one result satisfies `locates`: the search for a band's entry has
/// one answer.
pub proof fn lemma_locates_unique(
    names: Seq<Seq<u8>>,
    band: nat,
    a: Result<usize, DecodeError>,
    b: Result<usize, DecodeError>,
)
    requires
        locates(names, band, a),
        locates(names, band, b),
    ensures
        a == b,
{
}

/// At most one result satisfies `assigns`: the assignment of the bands has
/// one answer.
pub proof fn lemma_assigns_unique(
    names: Seq<Seq<u8>>,
    a: Result<Seq<usize>, DecodeError>,
    b: Result<Seq<usize>, DecodeError>,
)
    requires
        assigns(names, a),
        assigns(names, b),
    ensures
        a == b,
{
    match (a, b) {
        (Ok(x), Ok(y)) => {
            assert forall|k: int| 0 <= k < BAND_COUNT implies x[k] == y[k] by {
                lemma_locates_unique(names, (k + 1) as nat, Ok(x[k]), Ok(y[k]));
            }
            assert(x =~= y);
        },
        (Ok(x), Err(e)) => {
            let band = choose|band: int|
                1 <= band <= BAND_COUNT && #[trigger] locates(names, band as nat, Err(e));
            lemma_locates_unique(names, band as nat, Ok(x[band - 1]), Err(e));
        },
        (Err(e), Ok(y)) => {
            let band = choose|band: int|
                1 <= band <= BAND_COUNT && #[trigger] locates(names, band as nat, Err(e));
            lemma_locates_unique(names, band as nat, Ok(y[band - 1]), Err(e));
        },
        (Err(e), Err(f)) => {
            let p = choose|band: int|
                {
                    &&& 1 <= band <= BAND_COUNT
                    &&& #[trigger] locates(names, band as nat, Err(e))
                    &&& forall|k: int| 1 <= k < band ==> #[trigger] has_sole_carrier(names, k)
                };
            let q = choose|band: int|
                {
                    &&& 1 <= band <= BAND_COUNT
                    &&& #[trigger] locates(names, band as nat, Err(f))
                    &&& forall|k: int| 1 <= k < band ==> #[trigger] has_sole_carrier(names, k)
                };
            if p < q {
                assert(has_sole_carrier(names, p));
                let i = choose|i: usize| locates(names, p as nat, Ok(i));
                lemma_locates_unique(names, p as nat, Ok(i), Err(e));
            } else if q < p {
                assert(has_sole_carrier(names, q));
                let i = choose|i: usize| locates(names, q as nat, Ok(i));
                lemma_locates_unique(names, q as nat, Ok(i), Err(f));
            } else {
                lemma_locates_unique(names, p as nat, Err(e), Err(f));
            }
        },
    }
}

} // verus!
