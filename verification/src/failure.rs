//! The ways in which a download or a run can fail.

use vstd::prelude::*;
use crate::error::Error;
use crate::text::{append, decimal_string, decimal_text};

verus! {

/// Why a download task or the run as a whole failed.
#[derive(Debug, Clone, Copy, PartialEq, Eq, Structural)]
pub enum Failure {
    /// The source location is not an absolute URL.
    Location,
    /// The HTTP collaborator could not connect, or lost the connection.
    Transport,
    /// The metadata probe was answered with this non-success status.
    Status(u16),
    /// The output file could not be created, written or flushed.
    Io,
    /// The progress display could not finish rendering.
    Render,
}

/// The message for a probe of `href` that was answered with `status`.
pub open spec fn status_text(href: Seq<char>, status: u16) -> Seq<char> {
    "Couldn't download URL: "@ + href + ". Error: "@ + decimal_text(status as nat)
}

/// The error that reports a probe of `href` answered with `status`: a single
/// line that names the URL and the status, without a cause.
pub fn status_error(href: &str, status: u16) -> (e: Error)
    ensures
        e.what@ == status_text(href@, status),
        e.source.is_none(),
        e.text() == status_text(href@, status),
{
    let mut what = String::new();
    append(&mut what, "Couldn't download URL: ");
    append(&mut what, href);
    append(&mut what, ". Error: ");
    let code = decimal_string(status);
    append(&mut what, code.as_str());
    assert(what@ =~= status_text(href@, status));
    Error::new(what)
}

} // verus!
