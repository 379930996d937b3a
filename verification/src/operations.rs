//! Planners for the named operations of the resource API.
//!
//! Each operation plans a fully formed request description — URL under
//! the base endpoint, verb, media-type headers, and its parameters or
//! query — and reads the response's resource list. The embedder turns
//! parameters into the codec's payload and performs the exchange through
//! the executor.

use vstd::prelude::*;
use vstd::string::StringExecFns;

use crate::client::Client;
use crate::error::Error;
use crate::headers::{header_lookup, set_header, Header};
use crate::request::{HttpRequest, Method};
use crate::strutil::str_eq;
use crate::transaction::WireResource;
use crate::urls::joined_url_of;

verus! {

/// How much payload a subscription notification carries.
#[derive(Debug, Clone, Copy, PartialEq, Eq, Structural)]
pub enum SubscriptionPayloadContent {
    Empty,
    IdOnly,
    FullResource,
}

impl SubscriptionPayloadContent {
    /// The code this choice is written as on the wire.
    pub open spec fn spec_code(&self) -> Seq<char> {
        match self {
            SubscriptionPayloadContent::Empty => "empty"@,
            SubscriptionPayloadContent::IdOnly => "id-only"@,
            SubscriptionPayloadContent::FullResource => "full-resource"@,
        }
    }

    /// The code this choice is written as on the wire.
    pub fn code(&self) -> (r: &'static str)
        ensures
            r@ == self.spec_code(),
    {
        match self {
            SubscriptionPayloadContent::Empty => "empty",
            SubscriptionPayloadContent::IdOnly => "id-only",
            SubscriptionPayloadContent::FullResource => "full-resource",
        }
    }
}

/// One parameter of a parameterized operation, in submission order.
#[derive(Debug, Clone)]
pub enum OperationParam {
    /// A whole resource handed to the operation.
    Resource { name: String, resource: WireResource },
    /// A boolean parameter.
    Boolean { name: String, value: bool },
    /// An integer parameter.
    Integer { name: String, value: i64 },
}

/// One query pair of an operation URL. Integer values are rendered by the
/// embedder when it assembles the final URL.
#[derive(Debug, Clone)]
pub struct QueryParam {
    pub name: String,
    pub value: QueryValue,
}

/// A query value: a number or a code.
#[derive(Debug, Clone, PartialEq, Eq)]
pub enum QueryValue {
    Int(i64),
    Text(String),
}

/// The headers every operation request carries: the revision's media type
/// under `accept`, and — for requests with a payload — under
/// `content-type` as well.
fn operation_headers(mime: &str, with_content_type: bool) -> (r: Vec<Header>)
    ensures
        crate::headers::names_unique(r@),
        header_lookup(r@, "accept"@) == Some(mime@),
        if with_content_type {
            header_lookup(r@, "content-type"@) == Some(mime@)
        } else {
            header_lookup(r@, "content-type"@) is None
        },
{
    proof {
        reveal_strlit("accept");
        reveal_strlit("content-type");
        assert("accept"@.len() != "content-type"@.len());
    }
    let mut headers: Vec<Header> = Vec::new();
    set_header(&mut headers, String::from_str("accept"), mime.to_owned());
    if with_content_type {
        set_header(&mut headers, String::from_str("content-type"), mime.to_owned());
    }
    headers
}

impl Client {
    /// Plan a GET of a named operation on one resource:
    /// `{base}/{resource_type}/{id}/{operation}` with the revision's
    /// media type accepted.
    fn operation_get_plan(&self, resource_type: &str, id: &str, operation: &str) -> (r: Result<
        HttpRequest,
        Error,
    >)
        ensures
            match r {
                Ok(req) => {
                    &&& req.wf()
                    &&& req.method == Method::Get
                    &&& joined_url_of(
                        self.base_url@,
                        seq![resource_type@, id@, operation@],
                    ) == Some(req.url@)
                    &&& header_lookup(req.headers@, "accept"@) == Some(
                        self.version.spec_mime_type(),
                    )
                    &&& req.body is None
                },
                Err(e) => joined_url_of(self.base_url@, seq![resource_type@, id@, operation@])
                    is None && (e matches Error::InvalidUrl(b) && b@ == self.base_url@),
            },
    {
        let mut segments: Vec<String> = Vec::new();
        segments.push(resource_type.to_owned());
        segments.push(id.to_owned());
        segments.push(operation.to_owned());
        proof {
            assert(segments.deep_view() =~= seq![resource_type@, id@, operation@]);
        }
        let url = match self.url(&segments) {
            Ok(u) => u,
            Err(e) => {
                return Err(e);
            },
        };
        let headers = operation_headers(self.version.mime_type(), false);
        Ok(HttpRequest { method: Method::Get, url, headers, body: None })
    }

    /// Plan the everything-operation on one encounter record: all
    /// resources of the record, as a bundle.
    pub fn operation_encounter_everything_plan(&self, id: &str) -> (r: Result<HttpRequest, Error>)
        ensures
            match r {
                Ok(req) => {
                    &&& req.wf()
                    &&& req.method == Method::Get
                    &&& joined_url_of(
                        self.base_url@,
                        seq!["Encounter"@, id@, "$everything"@],
                    ) == Some(req.url@)
                    &&& header_lookup(req.headers@, "accept"@) == Some(
                        self.version.spec_mime_type(),
                    )
                    &&& req.body is None
                },
                Err(e) => joined_url_of(self.base_url@, seq!["Encounter"@, id@, "$everything"@])
                    is None && (e matches Error::InvalidUrl(b) && b@ == self.base_url@),
            },
    {
        self.operation_get_plan("Encounter", id, "$everything")
    }

    /// Plan the everything-operation on one patient record: all resources
    /// of the record, as a bundle.
    pub fn operation_patient_everything_plan(&self, id: &str) -> (r: Result<HttpRequest, Error>)
        ensures
            match r {
                Ok(req) => {
                    &&& req.wf()
                    &&& req.method == Method::Get
                    &&& joined_url_of(
                        self.base_url@,
                        seq!["Patient"@, id@, "$everything"@],
                    ) == Some(req.url@)
                    &&& header_lookup(req.headers@, "accept"@) == Some(
                        self.version.spec_mime_type(),
                    )
                    &&& req.body is None
                },
                Err(e) => joined_url_of(self.base_url@, seq!["Patient"@, id@, "$everything"@])
                    is None && (e matches Error::InvalidUrl(b) && b@ == self.base_url@),
            },
    {
        self.operation_get_plan("Patient", id, "$everything")
    }

    /// Plan the match-operation on patient records: POST the incomplete
    /// patient resource with the certainty flag and the result count, as
    /// three parameters in this order.
    pub fn operation_patient_match_plan(
        &self,
        patient: WireResource,
        only_certain: bool,
        count: i32,
    ) -> (r: Result<(HttpRequest, Vec<OperationParam>), Error>)
        ensures
            match r {
                Ok((req, params)) => {
                    &&& req.wf()
                    &&& req.method == Method::Post
                    &&& joined_url_of(self.base_url@, seq!["Patient"@, "$match"@]) == Some(
                        req.url@,
                    )
                    &&& header_lookup(req.headers@, "accept"@) == Some(
                        self.version.spec_mime_type(),
                    )
                    &&& header_lookup(req.headers@, "content-type"@) == Some(
                        self.version.spec_mime_type(),
                    )
                    &&& req.body is None
                    &&& params@.len() == 3
                    &&& (params@[0] matches OperationParam::Resource { name, resource } && name@
                        == "resource"@ && resource == patient)
                    &&& (params@[1] matches OperationParam::Boolean { name, value } && name@
                        == "onlyCertainMatches"@ && value == only_certain)
                    &&& (params@[2] matches OperationParam::Integer { name, value } && name@
                        == "count"@ && value == count as i64)
                },
                Err(e) => joined_url_of(self.base_url@, seq!["Patient"@, "$match"@]) is None && (
                e matches Error::InvalidUrl(b) && b@ == self.base_url@),
            },
    {
        let mut segments: Vec<String> = Vec::new();
        segments.push(String::from_str("Patient"));
        segments.push(String::from_str("$match"));
        proof {
            assert(segments.deep_view() =~= seq!["Patient"@, "$match"@]);
        }
        let url = match self.url(&segments) {
            Ok(u) => u,
            Err(e) => {
                return Err(e);
            },
        };
        let headers = operation_headers(self.version.mime_type(), true);
        let mut params: Vec<OperationParam> = Vec::new();
        params.push(
            OperationParam::Resource { name: String::from_str("resource"), resource: patient },
        );
        params.push(
            OperationParam::Boolean {
                name: String::from_str("onlyCertainMatches"),
                value: only_certain,
            },
        );
        params.push(
            OperationParam::Integer { name: String::from_str("count"), value: count as i64 },
        );
        let request = HttpRequest { method: Method::Post, url, headers, body: None };
        Ok((request, params))
    }

    /// Plan the status-operation on one subscription.
    pub fn operation_subscription_status_plan(&self, id: &str) -> (r: Result<HttpRequest, Error>)
        ensures
            match r {
                Ok(req) => {
                    &&& req.wf()
                    &&& req.method == Method::Get
                    &&& joined_url_of(
                        self.base_url@,
                        seq!["Subscription"@, id@, "$status"@],
                    ) == Some(req.url@)
                    &&& header_lookup(req.headers@, "accept"@) == Some(
                        self.version.spec_mime_type(),
                    )
                    &&& req.body is None
                },
                Err(e) => joined_url_of(self.base_url@, seq!["Subscription"@, id@, "$status"@])
                    is None && (e matches Error::InvalidUrl(b) && b@ == self.base_url@),
            },
    {
        self.operation_get_plan("Subscription", id, "$status")
    }

    /// Plan the events-operation on one subscription: the query names the
    /// bounds and the payload choice, in this order, each only when
    /// given.
    pub fn operation_subscription_events_plan(
        &self,
        id: &str,
        events_since: Option<i64>,
        events_until: Option<i64>,
        content: Option<SubscriptionPayloadContent>,
    ) -> (r: Result<(HttpRequest, Vec<QueryParam>), Error>)
        ensures
            match r {
                Ok((req, query)) => {
                    &&& req.wf()
                    &&& req.method == Method::Get
                    &&& joined_url_of(
                        self.base_url@,
                        seq!["Subscription"@, id@, "$events"@],
                    ) == Some(req.url@)
                    &&& header_lookup(req.headers@, "accept"@) == Some(
                        self.version.spec_mime_type(),
                    )
                    &&& req.body is None
                    &&& ({
                        let k_since: int = if events_since is Some {
                            1
                        } else {
                            0
                        };
                        let k_until: int = if events_until is Some {
                            1
                        } else {
                            0
                        };
                        let k_content: int = if content is Some {
                            1
                        } else {
                            0
                        };
                        &&& query@.len() == k_since + k_until + k_content
                        &&& (events_since matches Some(n) ==> query@[0].name@
                            == "eventsSinceNumber"@ && query@[0].value == QueryValue::Int(n))
                        &&& (events_until matches Some(n) ==> query@[k_since].name@
                            == "eventsUntilNumber"@ && query@[k_since].value == QueryValue::Int(
                            n,
                        ))
                        &&& (content matches Some(c) ==> query@[k_since + k_until].name@
                            == "content"@ && (query@[k_since + k_until].value
                            matches QueryValue::Text(t) && t@ == c.spec_code()))
                    })
                },
                Err(e) => joined_url_of(self.base_url@, seq!["Subscription"@, id@, "$events"@])
                    is None && (e matches Error::InvalidUrl(b) && b@ == self.base_url@),
            },
    {
        let request = match self.operation_get_plan("Subscription", id, "$events") {
            Ok(req) => req,
            Err(e) => {
                return Err(e);
            },
        };
        let mut query: Vec<QueryParam> = Vec::new();
        match events_since {
            Some(n) => {
                query.push(
                    QueryParam {
                        name: String::from_str("eventsSinceNumber"),
                        value: QueryValue::Int(n),
                    },
                );
            },
            None => {},
        }
        match events_until {
            Some(n) => {
                query.push(
                    QueryParam {
                        name: String::from_str("eventsUntilNumber"),
                        value: QueryValue::Int(n),
                    },
                );
            },
            None => {},
        }
        match content {
            Some(c) => {
                query.push(
                    QueryParam {
                        name: String::from_str("content"),
                        value: QueryValue::Text(c.code().to_owned()),
                    },
                );
            },
            None => {},
        }
        Ok((request, query))
    }
}

/// The position of the first resource of this type in a response's
/// resource list.
pub open spec fn type_index(resources: Seq<WireResource>, resource_type: Seq<char>) -> Option<
    int,
> {
    if exists|i: int|
        0 <= i < resources.len() && (#[trigger] resources[i]).resource_type@ == resource_type {
        Some(
            choose|i: int|
                {
                    &&& 0 <= i < resources.len()
                    &&& (#[trigger] resources[i]).resource_type@ == resource_type
                    &&& forall|j: int|
                        0 <= j < i ==> (#[trigger] resources[j]).resource_type@ != resource_type
                },
        )
    } else {
        None
    }
}

/// Find the first resource of a type in a response's resource list — the
/// subscription status out of a status bundle, for one. When no such
/// resource exists, the typed not-found outcome names the URL that was
/// asked.
pub fn find_resource_of_type<'a>(
    resources: &'a Vec<WireResource>,
    resource_type: &str,
    url: &str,
) -> (r: Result<&'a WireResource, Error>)
    ensures
        match r {
            Ok(w) => type_index(resources@, resource_type@) matches Some(i) && *w
                == resources@[i],
            Err(e) => type_index(resources@, resource_type@) is None && (
            e matches Error::ResourceNotFound(u) && u@ == url@),
        },
{
    let n = resources.len();
    for i in 0..n
        invariant
            n == resources.len(),
            forall|j: int|
                0 <= j < i ==> (#[trigger] resources@[j]).resource_type@ != resource_type@,
    {
        if str_eq(resources[i].resource_type.as_str(), resource_type) {
            proof {
                let w = choose|k: int|
                    {
                        &&& 0 <= k < resources@.len()
                        &&& (#[trigger] resources@[k]).resource_type@ == resource_type@
                        &&& forall|j: int|
                            0 <= j < k ==> (#[trigger] resources@[j]).resource_type@
                                != resource_type@
                    };
                assert(type_index(resources@, resource_type@) == Some(w));
                assert(w == i);
            }
            return Ok(&resources[i]);
        }
    }
    Err(Error::ResourceNotFound(url.to_owned()))
}

} // verus!
