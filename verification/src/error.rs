//! The error taxonomy of the client core.
//!
//! Every failure surfaces to the immediate caller as a typed value of
//! [`Error`]; nothing is silently swallowed. Retries are strictly bounded:
//! transport retries follow the caller-configured policy, and the
//! authorization retry is exactly one attempt.

use vstd::prelude::*;

verus! {

/// A typed failure of the client core.
#[derive(Debug, Clone, PartialEq, Eq)]
pub enum Error {
    /// The request description cannot be duplicated for the potential
    /// authorization retry. A caller error, surfaced before any network
    /// attempt and never retried.
    RequestNotClone,
    /// The base URL (or a URL derived from it) could not be parsed or cannot
    /// carry path segments. Carries the offending URL text.
    InvalidUrl(String),
    /// The target origin of a request differs from the configured base
    /// origin. A security guard, surfaced before any network call and never
    /// retried. Carries the offending request URL.
    DifferentOrigin(String),
    /// The server responded with a different major protocol version than the
    /// client is configured for. Surfaced immediately once detected, never
    /// retried. Carries the observed version text.
    DifferentFhirVersion(String),
    /// The authorization refresh callback failed. Carries the underlying
    /// cause as text; aborts the authorization retry.
    AuthCallback(String),
    /// A transport-level failure (network, timeout), surfaced after the
    /// configured retry policy was exhausted. Carries the transport's own
    /// description of the failure.
    Transport(String),
    /// A grouped exchange returned a list whose length differs from the
    /// submitted list. A protocol error, fatal to that call, never retried.
    GroupLengthMismatch { expected: usize, found: usize },
    /// A grouped exchange returned an entry whose status text does not start
    /// with a decimal status code. A protocol error, fatal to that call.
    MalformedGroupResponse(String),
    /// In all-or-nothing mode, one entry of the grouped response reported a
    /// failure status, so the whole call fails and no entry is individually
    /// trusted. Carries the failing entry's status text.
    GroupEntryFailed(String),
    /// An update operation was submitted for a resource that carries no
    /// identity yet.
    MissingId,
    /// An optimistic-locked update was requested for a resource that carries
    /// no version identifier to lock on.
    MissingVersionId,
    /// A derived lookup found no resource of the requested kind. Carries the
    /// URL that was searched. A typed "not found" outcome, distinct from a
    /// generic failure.
    ResourceNotFound(String),
}

impl Error {
    /// Whether this error marks a failed security or protocol guard, which
    /// is never retried.
    pub open spec fn spec_is_guard_failure(&self) -> bool {
        self is DifferentOrigin || self is DifferentFhirVersion
    }

    /// Whether this error marks a failed security or protocol guard.
    pub fn is_guard_failure(&self) -> (r: bool)
        ensures
            r == self.spec_is_guard_failure(),
    {
        match self {
            Error::DifferentOrigin(_) => true,
            Error::DifferentFhirVersion(_) => true,
            _ => false,
        }
    }
}

} // verus!
