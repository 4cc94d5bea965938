//! Source locations: absolute URLs and the file names derived from them.

use vstd::prelude::*;
use crate::failure::Failure;

verus! {

/// The error of `url::Url::parse`, carried through as an opaque value.
#[verifier::external_type_specification]
#[verifier::external_body]
pub struct ExParseError(url::ParseError);

/// What parsing `input` as an absolute URL gives: `None` where it is not one,
/// else the URL's normalised text and its path segments, which a URL that
/// cannot be a base does not have.
pub uninterp spec fn parsed_url(input: Seq<char>) -> Option<(Seq<char>, Option<Seq<Seq<char>>>)>;

/// A parsed source location.
#[derive(Debug, Clone)]
pub struct Location {
    /// The URL in its normalised form.
    pub href: String,
    /// The segments of the URL's path, where it has any.
    pub segments: Option<Vec<String>>,
}

/// The texts of a list of strings.
pub open spec fn texts(list: Seq<String>) -> Seq<Seq<char>> {
    Seq::new(list.len(), |i: int| list[i]@)
}

/// The texts of an optional list of strings.
pub open spec fn optional_texts(list: Option<Vec<String>>) -> Option<Seq<Seq<char>>> {
    match list {
        Some(v) => Some(texts(v@)),
        None => None,
    }
}

/// The name given to a download whose location has no path segments.
pub open spec fn default_file_name() -> Seq<char> {
    "video.mp4"@
}

/// Whether a location with these path segments has no segment to name a file
/// by: it has no list of segments, or an empty one, or the single empty
/// segment of a root path, as a bare host has.
pub open spec fn lacks_segments(segments: Option<Seq<Seq<char>>>) -> bool {
    match segments {
        Some(parts) => parts.len() == 0 || (parts.len() == 1 && parts[0].len() == 0),
        None => true,
    }
}

/// The file name for a location with these path segments: the default name
/// where there is no segment to name it by, else the last segment as it
/// stands. After a path that ends in a slash the last segment is empty, and
/// so is the name: no file can be created under it.
pub open spec fn spec_file_name(segments: Option<Seq<Seq<char>>>) -> Seq<char> {
    if lacks_segments(segments) {
        default_file_name()
    } else {
        segments->Some_0.last()
    }
}

/// Parses `input` as an absolute URL and takes out its text and path segments.
///
/// Trusted: this is `url::Url::parse`, read through `Url::as_str` and
/// `Url::path_segments`. The contract claims that the outcome is a function
/// of the input text, named `parsed_url`, and that a list of segments, where
/// the URL has one, holds at least one segment.
#[verifier::external_body]
fn parse_url(input: &str) -> (r: Result<Location, url::ParseError>)
    ensures
        match r {
            Ok(loc) => {
                &&& parsed_url(input@) == Some((loc.href@, optional_texts(loc.segments)))
                &&& loc.segments matches Some(parts) ==> parts@.len() > 0
            },
            Err(_) => parsed_url(input@).is_none(),
        },
{
    let url = url::Url::parse(input)?;
    let segments = url.path_segments().map(|parts| parts.map(|part| part.to_string()).collect());
    Ok(Location { href: url.as_str().to_string(), segments })
}

/// The file name for a location with these path segments.
pub fn file_name_from(segments: Option<&Vec<String>>) -> (name: String)
    ensures
        name@ == spec_file_name(
            match segments {
                Some(v) => Some(texts(v@)),
                None => None,
            },
        ),
{
    match segments {
        Some(parts) => {
            let count: usize = parts.len();
            if count == 0 || (count == 1 && parts[0].as_str().is_empty()) {
                "video.mp4".to_owned()
            } else {
                parts[count - 1].clone()
            }
        },
        None => "video.mp4".to_owned(),
    }
}

impl Location {
    /// Parses a source location. It fails with `Failure::Location` exactly
    /// where `input` is no absolute URL. A list of segments, where the
    /// location has one, holds at least one segment.
    pub fn parse(input: &str) -> (r: Result<Location, Failure>)
        ensures
            match r {
                Ok(loc) => {
                    &&& parsed_url(input@) == Some((loc.href@, optional_texts(loc.segments)))
                    &&& loc.segments matches Some(parts) ==> parts@.len() > 0
                },
                Err(e) => e == Failure::Location && parsed_url(input@).is_none(),
            },
    {
        match parse_url(input) {
            Ok(loc) => Ok(loc),
            Err(_) => Err(Failure::Location),
        }
    }

    /// The name of the file that a download of this location is written to.
    pub fn file_name(&self) -> (name: String)
        ensures
            name@ == spec_file_name(optional_texts(self.segments)),
    {
        file_name_from(self.segments.as_ref())
    }
}

} // verus!
