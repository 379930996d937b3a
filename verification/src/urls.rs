//! URLs, origins and the origin guard.
//!
//! The origin of a URL — its scheme, host and port — is the unit of trust
//! for the origin guard: a server-supplied link (a pagination or reference
//! link) must not silently redirect calls to a different host. URL parsing
//! is delegated to an outside parser behind trusted wrappers; the guard
//! decision itself is verified.

use vstd::prelude::*;

use crate::error::Error;
use crate::strutil::str_eq;

verus! {

/// The origin of the URL text: `Some` of the ASCII serialization
/// `scheme://host[:port]` when the text parses as a URL whose origin is a
/// (scheme, host, port) tuple; `None` when it does not parse or its origin
/// is opaque. Two URLs are same-origin exactly when both have `Some` and
/// the serializations are equal: an opaque origin equals no other origin.
pub uninterp spec fn origin_of(url: Seq<char>) -> Option<Seq<char>>;

/// Relies on `url::Url::parse`, `url::Url::origin` and
/// `url::Origin::ascii_serialization`: the origin of a URL text is a
/// function of the text alone; a tuple origin serializes as
/// `scheme://host[:port]` (the port omitted exactly when it is the scheme's
/// default), so two tuple origins are equal exactly when their
/// serializations are; an opaque origin is never equal to another origin.
#[verifier::external_body]
pub(crate) fn parse_origin(url: &str) -> (r: Option<String>)
    ensures
        match r {
            Some(o) => origin_of(url@) == Some(o@),
            None => origin_of(url@) is None,
        },
{
    match url::Url::parse(url) {
        Err(_) => None,
        Ok(u) => match u.origin() {
            o@ url::Origin::Tuple(..) => Some(o.ascii_serialization()),
            url::Origin::Opaque(_) => None,
        },
    }
}

/// The URL obtained by parsing `base` and appending `segments` to its path
/// (an empty final segment removed first, each new segment
/// percent-encoded); `None` when `base` does not parse or cannot carry path
/// segments.
pub uninterp spec fn joined_url_of(base: Seq<char>, segments: Seq<Seq<char>>) -> Option<Seq<char>>;

/// Relies on `url::Url::parse` and `url::PathSegmentsMut` (`pop_if_empty`,
/// `extend`): appending path segments to a parsed URL is a function of the
/// base text and the segments alone. The segment edits touch only the
/// path, and the origin of a URL that can carry path segments is computed
/// from its scheme, host and port alone, so the joined URL keeps the
/// base's origin.
#[verifier::external_body]
pub(crate) fn join_url(base: &str, segments: &Vec<String>) -> (r: Option<String>)
    ensures
        match r {
            Some(u) => joined_url_of(base@, segments.deep_view()) == Some(u@) && origin_of(u@)
                == origin_of(base@),
            None => joined_url_of(base@, segments.deep_view()) is None,
        },
{
    let mut u = match url::Url::parse(base) {
        Ok(u) => u,
        Err(_) => return None,
    };
    match u.path_segments_mut() {
        Ok(mut path) => {
            path.pop_if_empty().extend(segments);
        },
        Err(()) => return None,
    }
    Some(String::from(u))
}

/// The view of an optional owned string.
pub open spec fn opt_view(o: Option<String>) -> Option<Seq<char>> {
    match o {
        Some(s) => Some(s@),
        None => None,
    }
}

/// Whether a request URL passes the origin guard: either the guard is off,
/// or the base origin and the request origin are both tuple origins and
/// equal.
pub open spec fn spec_origin_ok(
    enforce: bool,
    base_origin: Option<Seq<char>>,
    request_origin: Option<Seq<char>>,
) -> bool {
    !enforce || (base_origin is Some && request_origin is Some && base_origin == request_origin)
}

/// The origin guard: when enabled, fail with the origin-mismatch error —
/// before any network I/O — unless the request URL's origin equals the
/// configured base origin.
pub fn check_origin(enforce: bool, base_origin: &Option<String>, url: &str) -> (r: Result<
    (),
    Error,
>)
    ensures
        match r {
            Ok(()) => spec_origin_ok(enforce, opt_view(*base_origin), origin_of(url@)),
            Err(e) => !spec_origin_ok(enforce, opt_view(*base_origin), origin_of(url@)) && (
            e matches Error::DifferentOrigin(u) && u@ == url@),
        },
{
    if !enforce {
        return Ok(());
    }
    let request_origin = parse_origin(url);
    match (base_origin, &request_origin) {
        (Some(b), Some(o)) => {
            if str_eq(b.as_str(), o.as_str()) {
                Ok(())
            } else {
                Err(Error::DifferentOrigin(url.to_owned()))
            }
        },
        _ => Err(Error::DifferentOrigin(url.to_owned())),
    }
}

} // verus!
