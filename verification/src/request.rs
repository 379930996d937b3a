//! Plain request and response descriptions, and correlation tagging.
//!
//! A request is a fully formed method, URL, header list and optional body;
//! a response is a status, header list and body. The embedder converts
//! between these plain values and its transport's own types.

use vstd::prelude::*;
use vstd::string::StringExecFns;

use crate::headers::{get_header, header_lookup, names_unique, set_header, Header};

verus! {

/// An outbound HTTP verb.
#[derive(Debug, Clone, Copy, PartialEq, Eq, Structural)]
pub enum Method {
    Get,
    Post,
    Put,
    Delete,
    Patch,
}

/// One fully formed request description.
#[derive(Debug, Clone)]
pub struct HttpRequest {
    pub method: Method,
    pub url: String,
    pub headers: Vec<Header>,
    pub body: Option<Vec<u8>>,
}

impl HttpRequest {
    /// Well-formedness: no duplicate header names.
    pub open spec fn wf(&self) -> bool {
        names_unique(self.headers@)
    }
}

/// One response: status code, headers and body.
#[derive(Debug, Clone)]
pub struct HttpResponse {
    pub status: u16,
    pub headers: Vec<Header>,
    pub body: Vec<u8>,
}

impl HttpResponse {
    /// Well-formedness: no duplicate header names.
    pub open spec fn wf(&self) -> bool {
        names_unique(self.headers@)
    }

    /// Whether the status marks success.
    pub open spec fn spec_is_success(&self) -> bool {
        200 <= self.status < 300
    }

    /// Whether the status marks success.
    pub fn is_success(&self) -> (r: bool)
        ensures
            r == self.spec_is_success(),
    {
        200 <= self.status && self.status < 300
    }

    /// Whether the status is the unauthorized status.
    pub open spec fn spec_is_unauthorized(&self) -> bool {
        self.status == 401
    }

    /// Whether the status is the unauthorized status.
    pub fn is_unauthorized(&self) -> (r: bool)
        ensures
            r == self.spec_is_unauthorized(),
    {
        self.status == 401
    }
}

/// The name of the correlation header.
pub open spec fn spec_correlation_header_name() -> Seq<char> {
    "x-correlation-id"@
}

/// The name of the correlation header.
pub fn correlation_header_name() -> (r: &'static str)
    ensures
        r@ == spec_correlation_header_name(),
{
    "x-correlation-id"
}

/// Correlation tagging: when the request carries no correlation header,
/// attach `fresh` under the correlation header name; when it carries one,
/// leave the request exactly as it is. The identifier then stays stable
/// across the authorization retry.
pub fn ensure_correlation(request: &mut HttpRequest, fresh: String)
    requires
        old(request).wf(),
    ensures
        final(request).wf(),
        final(request).method == old(request).method,
        final(request).url == old(request).url,
        final(request).body == old(request).body,
        header_lookup(final(request).headers@, spec_correlation_header_name()) is Some,
        match header_lookup(old(request).headers@, spec_correlation_header_name()) {
            Some(_) => final(request).headers == old(request).headers,
            None => header_lookup(final(request).headers@, spec_correlation_header_name())
                == Some(fresh@),
        },
        forall|n: Seq<char>|
            n != spec_correlation_header_name() ==> header_lookup(final(request).headers@, n)
                == header_lookup(old(request).headers@, n),
{
    let name = correlation_header_name();
    let present = match get_header(&request.headers, name) {
        Some(_) => true,
        None => false,
    };
    if !present {
        set_header(&mut request.headers, String::from_str(name), fresh);
    }
}

} // verus!
