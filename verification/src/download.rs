//! The decisions of the archive fetcher: how to go on after each answer of
//! the provider.

use vstd::prelude::*;
use crate::errors::ErrorKind;
use crate::text::opt_text;

verus! {

/// What the fetcher does after the provider answered a request that does
/// not follow redirects by itself.
#[derive(Debug)]
pub enum DownloadStep {
    /// Ask again, with the access token, at this address.
    Follow { url: String },
    /// The address is final: transfer the archive from it, without a time
    /// limit.
    Transfer { url: String },
    /// Give up.
    Fail { kind: ErrorKind },
}

/// A download step, with the address as a sequence of characters.
pub ghost enum DownloadStepView {
    Follow { url: Seq<char> },
    Transfer { url: Seq<char> },
    Fail { kind: ErrorKind },
}

impl View for DownloadStep {
    type V = DownloadStepView;

    open spec fn view(&self) -> DownloadStepView {
        match *self {
            DownloadStep::Follow { url } => DownloadStepView::Follow { url: url@ },
            DownloadStep::Transfer { url } => DownloadStepView::Transfer { url: url@ },
            DownloadStep::Fail { kind } => DownloadStepView::Fail { kind },
        }
    }
}

/// The status codes that send the fetcher to another address.
pub open spec fn redirects(status: u16) -> bool {
    status == 301 || status == 302 || status == 303 || status == 307
}

/// The status codes that report success.
pub open spec fn succeeds(status: u16) -> bool {
    200 <= status < 300
}

/// The step after the provider answered with `status`, and with `location`
/// as its `Location` header, to a request at `url`: a redirect is followed
/// to its location, a redirect without one is a network failure, and any
/// other answer makes `url` the address of the transfer.
pub open spec fn after_probe(url: Seq<char>, status: u16, location: Option<Seq<char>>)
    -> DownloadStepView {
    if redirects(status) {
        match location {
            Some(to) => DownloadStepView::Follow { url: to },
            None => DownloadStepView::Fail { kind: ErrorKind::NetworkFailure },
        }
    } else {
        DownloadStepView::Transfer { url }
    }
}

/// What a status code of the transfer means: a rejected token is an
/// authentication failure, any other code outside the 200s a network
/// failure.
pub open spec fn transfer_outcome(status: u16) -> Result<(), ErrorKind> {
    if succeeds(status) {
        Ok(())
    } else if status == 401 || status == 403 {
        Err(ErrorKind::AuthFailure)
    } else {
        Err(ErrorKind::NetworkFailure)
    }
}

/// Whether the status code sends the fetcher to another address.
pub fn is_redirect(status: u16) -> (r: bool)
    ensures
        r == redirects(status),
{
    status == 301 || status == 302 || status == 303 || status == 307
}

/// Decides how to go on after the provider answered a request at `url`.
pub fn on_probe(url: String, status: u16, location: Option<String>) -> (r: DownloadStep)
    ensures
        r@ == after_probe(url@, status, opt_text(location)),
{
    if is_redirect(status) {
        match location {
            Some(to) => DownloadStep::Follow { url: to },
            None => DownloadStep::Fail { kind: ErrorKind::NetworkFailure },
        }
    } else {
        DownloadStep::Transfer { url }
    }
}

/// Judges the status code of the transfer.
pub fn on_transfer(status: u16) -> (r: Result<(), ErrorKind>)
    ensures
        r == transfer_outcome(status),
{
    if 200 <= status && status < 300 {
        Ok(())
    } else if status == 401 || status == 403 {
        Err(ErrorKind::AuthFailure)
    } else {
        Err(ErrorKind::NetworkFailure)
    }
}

} // verus!
