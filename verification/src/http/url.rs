//! Addresses, as far as this library reads them.

use vstd::prelude::*;

verus! {

/// Why the crate `url` refused a text as an address.
#[verifier::external_type_specification]
#[verifier::external_body]
pub struct ExParseError(url::ParseError);

/// What this library reads of an address that was parsed.
#[derive(Clone, Debug, PartialEq, Eq)]
pub struct ParsedUrl {
    /// The address in its normal form.
    pub text: String,
    /// The segments of the path, in order; none for an address that has no path of
    /// segments, such as `data:text/plain,Hello`.
    pub segments: Option<Vec<String>>,
}

/// The segments as texts, if there are segments.
pub open spec fn segments_of(segments: Option<Vec<String>>) -> Option<Seq<Seq<char>>> {
    match segments {
        Some(s) => Some(s@.map_values(|t: String| t@)),
        None => None,
    }
}

/// What parsing `text` as an absolute address gives: nothing where it is none,
/// else the address in its normal form and the segments of its path.
pub uninterp spec fn url_parsed(text: Seq<char>) -> Option<(Seq<char>, Option<Seq<Seq<char>>>)>;

/// Calls `Url::parse` of the crate `url` and, on what it returns, `as_str` and
/// `path_segments`. It hands on the error where `parse` fails, else it gives the
/// serialization of the address and its path segments, each as a text of its
/// own, if it has path segments.
#[verifier::external_body]
pub(crate) fn parse_url(text: &str) -> (r: Result<ParsedUrl, url::ParseError>)
    ensures
        match r {
            Ok(parsed) => url_parsed(text@) == Some((parsed.text@, segments_of(parsed.segments))),
            Err(_) => url_parsed(text@) is None,
        },
{
    match url::Url::parse(text) {
        Ok(parsed) => Ok(
            ParsedUrl {
                text: parsed.as_str().to_string(),
                segments: parsed.path_segments().map(|s| s.map(str::to_string).collect()),
            },
        ),
        Err(e) => Err(e),
    }
}

} // verus!
