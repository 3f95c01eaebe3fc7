//! Reading the payloads of the twelve bands out of a product's archive.

use vstd::prelude::*;
use crate::bands::{assign_bands, assigns, lemma_assigns_unique, seqs_of};
use crate::sat_data::{DecodeError, BAND_COUNT};
use crate::text::opt_bytes;

verus! {

/// `std::io::Cursor`, which Verus carries through without looking inside.
#[verifier::external_type_specification]
#[verifier::external_body]
#[verifier::reject_recursive_types(T)]
pub struct ExCursor<T>(std::io::Cursor<T>);

/// `zip::ZipArchive`, which Verus carries through without looking inside.
#[verifier::external_type_specification]
#[verifier::external_body]
#[verifier::reject_recursive_types(R)]
pub struct ExZipArchive<R>(zip::ZipArchive<R>);

/// `zip::result::ZipError`, which Verus carries through without looking
/// inside.
#[verifier::external_type_specification]
#[verifier::external_body]
pub struct ExZipError(zip::result::ZipError);

/// For each entry of the archive, in the order of its central directory: the
/// bytes of the entry's name, or `None` where the entry cannot be opened. To
/// open an entry is to call `ZipArchive::by_index_decrypt` on it with an
/// empty password. An entry cannot be opened where that call fails, as it
/// does for a compression method that the reader does not know, or where it
/// refuses the password, as it does for every entry that carries an AES mode
/// and for an encrypted entry that the empty password does not fit.
pub uninterp spec fn archive_names(a: zip::ZipArchive<std::io::Cursor<Vec<u8>>>) -> Seq<
    Option<Seq<u8>>,
>;

/// For each entry of the archive, in the order of its central directory: the
/// entry's content, or `None` where the entry cannot be opened, in the sense
/// of `archive_names` (so also where it carries an AES mode), or the content
/// cannot be read to its end.
pub uninterp spec fn archive_payloads(a: zip::ZipArchive<std::io::Cursor<Vec<u8>>>) -> Seq<
    Option<Seq<u8>>,
>;

/// What `zip::ZipArchive::new` makes of the bytes: `None` where it refuses
/// them, else the names and the contents of the entries of the archive that
/// it returns, as `archive_names` and `archive_payloads` give them.
pub uninterp spec fn archive_listing(data: Seq<u8>) -> Option<
    (Seq<Option<Seq<u8>>>, Seq<Option<Seq<u8>>>),
>;

/// The names and the contents of the entries of an archive.
pub open spec fn listing_of(a: zip::ZipArchive<std::io::Cursor<Vec<u8>>>) -> (
    Seq<Option<Seq<u8>>>,
    Seq<Option<Seq<u8>>>,
) {
    (archive_names(a), archive_payloads(a))
}

/// Calls `zip::ZipArchive::new` on a `std::io::Cursor` over the bytes: the
/// archive that the bytes hold, whose entries are those of
/// `archive_listing`, or the error with which the bytes are refused.
#[verifier::external_body]
fn open_archive(data: Vec<u8>) -> (r: Result<
    zip::ZipArchive<std::io::Cursor<Vec<u8>>>,
    zip::result::ZipError,
>)
    ensures
        r is Ok <==> archive_listing(data@) is Some,
        r matches Ok(a) ==> archive_listing(data@) == Some(listing_of(a)),
{
    zip::ZipArchive::new(std::io::Cursor::new(data))
}

/// Calls `zip::ZipArchive::len`: the number of entries of the archive, which
/// is the length of both `archive_names` and `archive_payloads`.
#[verifier::external_body]
fn entry_count(a: &zip::ZipArchive<std::io::Cursor<Vec<u8>>>) -> (n: usize)
    ensures
        n == archive_names(*a).len(),
        n == archive_payloads(*a).len(),
{
    a.len()
}

/// Calls `zip::ZipArchive::by_index_decrypt` with an empty password, and
/// `ZipFile::name`: the bytes of the name of entry `i`, or `None` where the
/// call fails or refuses the password, or `i` is not below the number of
/// entries. The archive holds afterwards what it held before.
#[verifier::external_body]
fn entry_name(a: &mut zip::ZipArchive<std::io::Cursor<Vec<u8>>>, i: usize) -> (r: Option<Vec<u8>>)
    ensures
        archive_names(*final(a)) == archive_names(*old(a)),
        archive_payloads(*final(a)) == archive_payloads(*old(a)),
        i < archive_names(*old(a)).len() ==> opt_bytes(r) == archive_names(*old(a))[i as int],
        i >= archive_names(*old(a)).len() ==> r is None,
{
    match a.by_index_decrypt(i, &[]) {
        Ok(Ok(file)) => Some(file.name().as_bytes().to_vec()),
        Ok(Err(_)) => None,
        Err(_) => None,
    }
}

/// Calls `zip::ZipArchive::by_index_decrypt` with an empty password and
/// reads the entry to its end with `std::io::Read::read_to_end`: the content
/// of entry `i`, or `None` where the call fails or refuses the password, the
/// read fails, or `i` is not below the number of entries. The archive holds
/// afterwards what it held before.
#[verifier::external_body]
fn entry_payload(a: &mut zip::ZipArchive<std::io::Cursor<Vec<u8>>>, i: usize) -> (r: Option<
    Vec<u8>,
>)
    ensures
        archive_names(*final(a)) == archive_names(*old(a)),
        archive_payloads(*final(a)) == archive_payloads(*old(a)),
        i < archive_payloads(*old(a)).len() ==> opt_bytes(r) == archive_payloads(*old(a))[i as int],
        i >= archive_payloads(*old(a)).len() ==> r is None,
{
    let mut d: Vec<u8> = Vec::new();
    match a.by_index_decrypt(i, &[]) {
        Ok(Ok(mut file)) => match std::io::Read::read_to_end(&mut file, &mut d) {
            Ok(_) => Some(d),
            Err(_) => None,
        },
        Ok(Err(_)) => None,
        Err(_) => None,
    }
}

/// Opens an archive held in memory. Fails with `InvalidArchive` where the
/// bytes are not an archive that can be read.
pub fn unzip_in_memory(data: Vec<u8>) -> (r: Result<
    zip::ZipArchive<std::io::Cursor<Vec<u8>>>,
    DecodeError,
>)
    ensures
        r is Ok <==> archive_listing(data@) is Some,
        r matches Ok(a) ==> archive_listing(data@) == Some(listing_of(a)),
        r matches Err(e) ==> e == DecodeError::InvalidArchive,
{
    match open_archive(data) {
        Ok(a) => Ok(a),
        Err(_) => Err(DecodeError::InvalidArchive),
    }
}

/// Every entry can be opened.
pub open spec fn all_readable(names: Seq<Option<Seq<u8>>>) -> bool {
    forall|i: int| 0 <= i < names.len() ==> (#[trigger] names[i]) is Some
}

/// Entry `i` is the first that cannot be opened.
pub open spec fn first_unreadable(names: Seq<Option<Seq<u8>>>, i: int) -> bool {
    &&& 0 <= i < names.len()
    &&& names[i] is None
    &&& forall|j: int| 0 <= j < i ==> (#[trigger] names[j]) is Some
}

/// The names of the entries of an archive in which every entry can be
/// opened.
pub open spec fn readable_names(names: Seq<Option<Seq<u8>>>) -> Seq<Seq<u8>> {
    Seq::new(names.len(), |i: int| names[i]->Some_0)
}

/// `r` is what reading the entries at the positions `at`, one for each band,
/// gives: the twelve contents, or the first band whose content cannot be
/// read in full.
pub open spec fn reads(
    payloads: Seq<Option<Seq<u8>>>,
    at: Seq<usize>,
    r: Result<Seq<Seq<u8>>, DecodeError>,
) -> bool {
    match r {
        Ok(p) => {
            &&& p.len() == BAND_COUNT
            &&& forall|k: int|
                0 <= k < BAND_COUNT ==> at[k] < payloads.len() && payloads[at[k] as int] == Some(
                    #[trigger] p[k],
                )
        },
        Err(DecodeError::CorruptBand(b)) => {
            &&& 1 <= b <= BAND_COUNT
            &&& !(at[b - 1] < payloads.len() && payloads[at[b - 1] as int] is Some)
            &&& forall|k: int|
                0 <= k < b - 1 ==> (#[trigger] at[k]) < payloads.len() && payloads[at[k] as int] is Some
        },
        Err(_) => false,
    }
}

/// `r` is what extracting the band payloads from an archive with these
/// entries gives. If an entry cannot be opened, the first such entry is
/// reported. Else, if a band is carried by no entry or by several, the first
/// such band is reported. Else, if the content of a band's entry cannot be
/// read in full, the first such band is reported. Else `r` holds the contents
/// of the twelve entries, band 1 first.
pub open spec fn extracts(
    names: Seq<Option<Seq<u8>>>,
    payloads: Seq<Option<Seq<u8>>>,
    r: Result<Seq<Seq<u8>>, DecodeError>,
) -> bool {
    match r {
        Err(DecodeError::UnreadableEntry(i)) => first_unreadable(names, i as int),
        Err(DecodeError::MissingBand(b)) => all_readable(names) && assigns(
            readable_names(names),
            Err(DecodeError::MissingBand(b)),
        ),
        Err(DecodeError::DuplicateBand(b)) => all_readable(names) && assigns(
            readable_names(names),
            Err(DecodeError::DuplicateBand(b)),
        ),
        _ => all_readable(names) && exists|at: Seq<usize>| #[trigger]
            assigns(readable_names(names), Ok(at)) && reads(payloads, at, r),
    }
}

/// What the functions that read an archive return, with the byte vectors as
/// sequences.
pub open spec fn read_outcome(r: Result<Vec<Vec<u8>>, DecodeError>) -> Result<
    Seq<Seq<u8>>,
    DecodeError,
> {
    match r {
        Ok(v) => Ok(seqs_of(v@)),
        Err(e) => Err(e),
    }
}

/// The names of all entries of the archive, in the order of its central
/// directory. Fails with `UnreadableEntry` at the first entry that cannot be
/// opened.
pub fn entry_names(a: &mut zip::ZipArchive<std::io::Cursor<Vec<u8>>>) -> (r: Result<
    Vec<Vec<u8>>,
    DecodeError,
>)
    ensures
        archive_names(*final(a)) == archive_names(*old(a)),
        archive_payloads(*final(a)) == archive_payloads(*old(a)),
        r matches Ok(v) ==> all_readable(archive_names(*old(a))) && seqs_of(v@) == readable_names(
            archive_names(*old(a)),
        ),
        r matches Err(e) ==> exists|i: usize|
            e == DecodeError::UnreadableEntry(i) && first_unreadable(
                archive_names(*old(a)),
                i as int,
            ),
{
    let ghost names = archive_names(*a);
    let ghost payloads = archive_payloads(*a);
    let n: usize = entry_count(a);
    let mut v: Vec<Vec<u8>> = Vec::new();
    let mut i: usize = 0;
    while i < n
        invariant
            names == archive_names(*old(a)),
            payloads == archive_payloads(*old(a)),
            archive_names(*a) == names,
            archive_payloads(*a) == payloads,
            n == names.len(),
            0 <= i <= n,
            v@.len() == i,
            forall|j: int| 0 <= j < i ==> (#[trigger] names[j]) == Some(v@[j]@),
        decreases n - i,
    {
        match entry_name(a, i) {
            Some(name) => {
                v.push(name);
            },
            None => {
                assert(first_unreadable(names, i as int));
                return Err(DecodeError::UnreadableEntry(i));
            },
        }
        i += 1;
    }
    Ok(v)
}

/// The contents of the entries at the positions `at`, one for each band.
/// Fails with `CorruptBand` at the first band whose entry cannot be read in
/// full.
pub fn read_bands(a: &mut zip::ZipArchive<std::io::Cursor<Vec<u8>>>, at: &Vec<usize>) -> (r: Result<
    Vec<Vec<u8>>,
    DecodeError,
>)
    requires
        at@.len() == BAND_COUNT,
    ensures
        archive_names(*final(a)) == archive_names(*old(a)),
        archive_payloads(*final(a)) == archive_payloads(*old(a)),
        reads(archive_payloads(*old(a)), at@, read_outcome(r)),
{
    let ghost names = archive_names(*a);
    let ghost payloads = archive_payloads(*a);
    let mut v: Vec<Vec<u8>> = Vec::with_capacity(BAND_COUNT);
    let mut k: usize = 0;
    while k < BAND_COUNT
        invariant
            names == archive_names(*old(a)),
            payloads == archive_payloads(*old(a)),
            archive_names(*a) == names,
            archive_payloads(*a) == payloads,
            at@.len() == BAND_COUNT,
            0 <= k <= BAND_COUNT,
            v@.len() == k,
            forall|j: int|
                0 <= j < k ==> (#[trigger] at@[j]) < payloads.len() && payloads[at@[j] as int]
                    == Some(v@[j]@),
        decreases BAND_COUNT - k,
    {
        match entry_payload(a, at[k]) {
            Some(content) => {
                v.push(content);
            },
            None => {
                return Err(DecodeError::CorruptBand(k + 1));
            },
        }
        k += 1;
    }
    proof {
        let p = seqs_of(v@);
        assert forall|j: int| 0 <= j < BAND_COUNT implies at@[j] < payloads.len()
            && payloads[at@[j] as int] == Some(#[trigger] p[j]) by {
        }
    }
    Ok(v)
}

/// The encoded rasters of the twelve bands of a product, band 1 first, as
/// its archive holds them.
pub fn band_payloads(a: &mut zip::ZipArchive<std::io::Cursor<Vec<u8>>>) -> (r: Result<
    Vec<Vec<u8>>,
    DecodeError,
>)
    ensures
        archive_names(*final(a)) == archive_names(*old(a)),
        archive_payloads(*final(a)) == archive_payloads(*old(a)),
        extracts(archive_names(*old(a)), archive_payloads(*old(a)), read_outcome(r)),
{
    let names = match entry_names(a) {
        Ok(names) => names,
        Err(e) => {
            return Err(e);
        },
    };
    let at = match assign_bands(&names) {
        Ok(at) => at,
        Err(e) => {
            return Err(e);
        },
    };
    read_bands(a, &at)
}

/// `r` is what decoding the bytes of an archive gives: `InvalidArchive`
/// where the bytes hold no archive, else what extracting the band payloads
/// from the archive's entries gives.
pub open spec fn decodes(data: Seq<u8>, r: Result<Seq<Seq<u8>>, DecodeError>) -> bool {
    match archive_listing(data) {
        None => r == Err::<Seq<Seq<u8>>, DecodeError>(DecodeError::InvalidArchive),
        Some(listing) => r != Err::<Seq<Seq<u8>>, DecodeError>(DecodeError::InvalidArchive)
            && extracts(listing.0, listing.1, r),
    }
}

/// The encoded rasters of the twelve bands of a product, band 1 first, read
/// from the bytes of its archive.
pub fn archive_band_payloads(data: Vec<u8>) -> (r: Result<Vec<Vec<u8>>, DecodeError>)
    ensures
        decodes(data@, read_outcome(r)),
{
    match unzip_in_memory(data) {
        Ok(mut a) => band_payloads(&mut a),
        Err(e) => Err(e),
    }
}

/// At most one result satisfies `reads`: reading the entries of the bands
/// has one answer.
pub proof fn lemma_reads_unique(
    payloads: Seq<Option<Seq<u8>>>,
    at: Seq<usize>,
    a: Result<Seq<Seq<u8>>, DecodeError>,
    b: Result<Seq<Seq<u8>>, DecodeError>,
)
    requires
        reads(payloads, at, a),
        reads(payloads, at, b),
    ensures
        a == b,
{
    match (a, b) {
        (Ok(x), Ok(y)) => {
            assert(x =~= y);
        },
        (Ok(x), Err(DecodeError::CorruptBand(c))) => {
            assert(payloads[at[c - 1] as int] == Some(x[c - 1]));
        },
        (Err(DecodeError::CorruptBand(c)), Ok(y)) => {
            assert(payloads[at[c - 1] as int] == Some(y[c - 1]));
        },
        _ => {},
    }
}

/// The assignment of the bands that stands behind a result of `extracts`.
pub open spec fn extraction_plan(
    names: Seq<Option<Seq<u8>>>,
    payloads: Seq<Option<Seq<u8>>>,
    r: Result<Seq<Seq<u8>>, DecodeError>,
) -> Result<Seq<usize>, DecodeError> {
    match r {
        Err(DecodeError::MissingBand(b)) => Err(DecodeError::MissingBand(b)),
        Err(DecodeError::DuplicateBand(b)) => Err(DecodeError::DuplicateBand(b)),
        _ => Ok(
            choose|at: Seq<usize>| #[trigger]
                assigns(readable_names(names), Ok(at)) && reads(payloads, at, r),
        ),
    }
}

/// Where every entry can be opened, a result of `extracts` rests on an
/// assignment of the bands: it is the failure of that assignment, or what
/// reading the assigned entries gives.
pub proof fn lemma_extraction_plan(
    names: Seq<Option<Seq<u8>>>,
    payloads: Seq<Option<Seq<u8>>>,
    r: Result<Seq<Seq<u8>>, DecodeError>,
)
    requires
        all_readable(names),
        extracts(names, payloads, r),
        !(r matches Err(DecodeError::UnreadableEntry(_))),
    ensures
        assigns(readable_names(names), extraction_plan(names, payloads, r)),
        extraction_plan(names, payloads, r) matches Ok(at) ==> reads(payloads, at, r),
        extraction_plan(names, payloads, r) matches Err(e) ==> r == Err::<
            Seq<Seq<u8>>,
            DecodeError,
        >(e),
{
}

/// At most one result satisfies `extracts`: extracting the band payloads
/// from an archive has one answer.
pub proof fn lemma_extracts_unique(
    names: Seq<Option<Seq<u8>>>,
    payloads: Seq<Option<Seq<u8>>>,
    a: Result<Seq<Seq<u8>>, DecodeError>,
    b: Result<Seq<Seq<u8>>, DecodeError>,
)
    requires
        extracts(names, payloads, a),
        extracts(names, payloads, b),
    ensures
        a == b,
{
    if all_readable(names) {
        let known = readable_names(names);
        let plan_a = extraction_plan(names, payloads, a);
        let plan_b = extraction_plan(names, payloads, b);
        lemma_extraction_plan(names, payloads, a);
        lemma_extraction_plan(names, payloads, b);
        lemma_assigns_unique(known, plan_a, plan_b);
        if plan_a is Ok {
            lemma_reads_unique(payloads, plan_a->Ok_0, a, b);
        }
    }
}

} // verus!
