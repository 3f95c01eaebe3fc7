//! The kinds of failure that a request can meet.

use vstd::prelude::*;

verus! {

/// What went wrong while a request was served.
#[derive(Clone, Copy, Debug, PartialEq, Eq, Structural)]
pub enum ErrorKind {
    /// The archive could not be fetched, or a redirect led nowhere.
    NetworkFailure,
    /// The provider rejected the access token.
    AuthFailure,
    /// A band is missing, carried twice, or its payload is corrupt.
    DecodeFailure,
    /// The blob store could not be reached.
    CacheIoFailure,
    /// The codec could not encode the image.
    EncodeFailure,
    /// The encoded image stayed above the size budget at every quality.
    SizeBudgetExceeded,
    /// An event arrived that the request was not waiting for.
    OutOfTurn,
}

/// Whether a failure of this kind ends the request. A blob store that cannot
/// be reached counts as a miss, and an exceeded size budget still yields the
/// best encoding; every other kind is fatal.
pub open spec fn fatal(kind: ErrorKind) -> bool {
    kind != ErrorKind::CacheIoFailure && kind != ErrorKind::SizeBudgetExceeded
}

impl ErrorKind {
    /// Whether a failure of this kind ends the request.
    pub fn is_fatal(self) -> (r: bool)
        ensures
            r == fatal(self),
    {
        match self {
            ErrorKind::CacheIoFailure => false,
            ErrorKind::SizeBudgetExceeded => false,
            _ => true,
        }
    }
}

} // verus!
