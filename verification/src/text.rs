//! The case of string slices, and the views of optional strings and byte
//! vectors.

use vstd::prelude::*;

verus! {

/// The view of an optional byte vector.
pub open spec fn opt_bytes(v: Option<Vec<u8>>) -> Option<Seq<u8>> {
    match v {
        Some(b) => Some(b@),
        None => None,
    }
}

/// The view of an optional string.
pub open spec fn opt_text(v: Option<String>) -> Option<Seq<char>> {
    match v {
        Some(s) => Some(s@),
        None => None,
    }
}

/// The upper-case equivalent of a text, as `str::to_uppercase` gives it.
pub uninterp spec fn uppercase_of(text: Seq<char>) -> Seq<char>;

/// Calls `str::to_uppercase`: the upper-case equivalent of the slice.
#[verifier::external_body]
pub(crate) fn to_upper(a: &str) -> (r: String)
    ensures
        r@ == uppercase_of(a@),
{
    a.to_uppercase()
}

} // verus!
