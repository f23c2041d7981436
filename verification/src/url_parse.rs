//! The one call into the URL parser, and the name its result goes by.

use vstd::prelude::*;

verus! {

/// What the URL parser extracts from a remote reference: the host, if the
/// parsed URL has one, and the path component.
pub struct UrlParts {
    pub host: Option<String>,
    pub path: String,
}

#[verifier::external_type_specification]
#[verifier::external_body]
pub struct ExParseError(url::ParseError);

/// What parsing a string as an absolute URL yields: `None` if parsing
/// fails, otherwise the host (absent for URLs that cannot have one) and
/// the path component.  Parsing is a pure function of the string.
pub uninterp spec fn url_parts_of(s: Seq<char>) -> Option<(Option<Seq<char>>, Seq<char>)>;

/// Relies on url::Url::parse and the accessors Url::host_str and Url::path:
/// parsing either rejects the string or yields a URL whose host (absent for
/// host-less forms such as mailto: or data:) and path are functions of the
/// input string alone.
#[verifier::external_body]
pub(crate) fn parse_url(candidate: &str) -> (r: Result<UrlParts, url::ParseError>)
    ensures
        (r is Ok) == (url_parts_of(candidate@) is Some),
        r matches Ok(p) ==> ({
            &&& url_parts_of(candidate@) matches Some(parts)
            &&& (p.host is Some) == (parts.0 is Some)
            &&& (p.host matches Some(h) ==> parts.0 matches Some(hs) && h@ == hs)
            &&& p.path@ == parts.1
        }),
{
    match url::Url::parse(candidate) {
        Ok(u) => {
            let host = match u.host_str() {
                Some(h) => Some(h.to_owned()),
                None => None,
            };
            Ok(UrlParts { host, path: u.path().to_owned() })
        }
        Err(e) => Err(e),
    }
}

} // verus!
