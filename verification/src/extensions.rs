//! Builder-style construction of a group entry's request sub-object.
//!
//! The wire form of one grouped operation carries a `request` sub-object:
//! a verb, a relative URL and an optional optimistic-lock header. This
//! trait is the shared builder vocabulary for it, stated over the
//! abstract verb, URL and lock value so that every implementation is held
//! to the same meaning.

use vstd::prelude::*;

use crate::request::Method;

verus! {

/// Builder vocabulary for a group entry's request sub-object.
pub trait BundleEntryRequestExt: Sized {
    /// The verb of the built request.
    spec fn spec_method(&self) -> Method;

    /// The relative URL of the built request.
    spec fn spec_url(&self) -> Seq<char>;

    /// The optimistic-lock header value of the built request, if any.
    spec fn spec_if_match(&self) -> Option<Seq<char>>;

    /// A request of this URL alone: GET, and no lock header.
    fn make(url: String) -> (r: Self)
        ensures
            r.spec_method() == Method::Get,
            r.spec_url() == url@,
            r.spec_if_match() is None,
    ;

    /// The same request with the optimistic-lock header set.
    fn with_if_match(self, if_match: String) -> (r: Self)
        ensures
            r.spec_method() == self.spec_method(),
            r.spec_url() == self.spec_url(),
            r.spec_if_match() == Some(if_match@),
    ;

    /// The same request with the verb set to POST.
    fn with_method_post(self) -> (r: Self)
        ensures
            r.spec_method() == Method::Post,
            r.spec_url() == self.spec_url(),
            r.spec_if_match() == self.spec_if_match(),
    ;

    /// The same request with the verb set to PUT.
    fn with_method_put(self) -> (r: Self)
        ensures
            r.spec_method() == Method::Put,
            r.spec_url() == self.spec_url(),
            r.spec_if_match() == self.spec_if_match(),
    ;

    /// The same request with the verb set to DELETE.
    fn with_method_delete(self) -> (r: Self)
        ensures
            r.spec_method() == Method::Delete,
            r.spec_url() == self.spec_url(),
            r.spec_if_match() == self.spec_if_match(),
    ;

    /// The same request with the verb set to GET.
    fn with_method_get(self) -> (r: Self)
        ensures
            r.spec_method() == Method::Get,
            r.spec_url() == self.spec_url(),
            r.spec_if_match() == self.spec_if_match(),
    ;
}

/// The request sub-object of one group entry.
#[derive(Debug, Clone)]
pub struct EntryRequest {
    pub method: Method,
    pub url: String,
    pub if_match: Option<String>,
}

impl BundleEntryRequestExt for EntryRequest {
    open spec fn spec_method(&self) -> Method {
        self.method
    }

    open spec fn spec_url(&self) -> Seq<char> {
        self.url@
    }

    open spec fn spec_if_match(&self) -> Option<Seq<char>> {
        match self.if_match {
            Some(m) => Some(m@),
            None => None,
        }
    }

    fn make(url: String) -> (r: Self) {
        EntryRequest { method: Method::Get, url, if_match: None }
    }

    fn with_if_match(self, if_match: String) -> (r: Self) {
        EntryRequest { if_match: Some(if_match), ..self }
    }

    fn with_method_post(self) -> (r: Self) {
        EntryRequest { method: Method::Post, ..self }
    }

    fn with_method_put(self) -> (r: Self) {
        EntryRequest { method: Method::Put, ..self }
    }

    fn with_method_delete(self) -> (r: Self) {
        EntryRequest { method: Method::Delete, ..self }
    }

    fn with_method_get(self) -> (r: Self) {
        EntryRequest { method: Method::Get, ..self }
    }
}

} // verus!
