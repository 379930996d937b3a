//! Protocol revisions and the version guard.
//!
//! The client targets one of three mutually incompatible protocol
//! revisions. Every response may carry a header naming the responding
//! server's protocol version; when the guard is enabled, a major version
//! different from the configured one fails the call with the observed
//! value, and absence of the header is not an error.

use vstd::prelude::*;

use crate::error::Error;
use crate::strutil::{prefix_until, spec_prefix_until, str_eq};

verus! {

/// One protocol revision of the resource API.
#[derive(Debug, Clone, Copy, PartialEq, Eq, Structural)]
pub enum FhirVersion {
    Stu3,
    R4B,
    R5,
}

impl FhirVersion {
    /// The numeric version text of this revision.
    pub open spec fn spec_version_str(&self) -> Seq<char> {
        match self {
            FhirVersion::Stu3 => "3.0"@,
            FhirVersion::R4B => "4.3"@,
            FhirVersion::R5 => "5.0"@,
        }
    }

    /// The numeric version text of this revision.
    pub fn version_str(&self) -> (r: &'static str)
        ensures
            r@ == self.spec_version_str(),
    {
        match self {
            FhirVersion::Stu3 => "3.0",
            FhirVersion::R4B => "4.3",
            FhirVersion::R5 => "5.0",
        }
    }

    /// The media type this revision uses for JSON payloads.
    pub open spec fn spec_mime_type(&self) -> Seq<char> {
        match self {
            FhirVersion::Stu3 => "application/fhir+json; fhirVersion=3.0"@,
            FhirVersion::R4B => "application/fhir+json; fhirVersion=4.3"@,
            FhirVersion::R5 => "application/fhir+json; fhirVersion=5.0"@,
        }
    }

    /// The media type this revision uses for JSON payloads.
    pub fn mime_type(&self) -> (r: &'static str)
        ensures
            r@ == self.spec_mime_type(),
    {
        match self {
            FhirVersion::Stu3 => "application/fhir+json; fhirVersion=3.0",
            FhirVersion::R4B => "application/fhir+json; fhirVersion=4.3",
            FhirVersion::R5 => "application/fhir+json; fhirVersion=5.0",
        }
    }

    /// The major component of this revision's version text.
    pub fn major(&self) -> (r: String)
        ensures
            r@ == spec_major_of(self.spec_version_str()),
    {
        prefix_until(self.version_str(), '.')
    }
}

/// The major component of a version text: the characters before the first
/// dot, or the whole text when it has no dot.
pub open spec fn spec_major_of(v: Seq<char>) -> Seq<char> {
    spec_prefix_until(v, '.')
}

/// The name of the response header that carries the responding server's
/// protocol version.
pub open spec fn spec_version_header_name() -> Seq<char> {
    "x-fhir-version"@
}

/// The name of the response header that carries the responding server's
/// protocol version.
pub fn version_header_name() -> (r: &'static str)
    ensures
        r@ == spec_version_header_name(),
{
    "x-fhir-version"
}

/// Whether the version guard rejects a response: the guard is enabled, the
/// response carries a version header, and its major component differs from
/// the configured revision's major component.
pub open spec fn version_mismatch(
    enforce: bool,
    configured: FhirVersion,
    observed: Option<Seq<char>>,
) -> bool {
    enforce && match observed {
        Some(v) => spec_major_of(v) != spec_major_of(configured.spec_version_str()),
        None => false,
    }
}

/// The version guard: when enabled and the response names a version whose
/// major component differs from the configured one, fail with the
/// version-mismatch error carrying the observed value. Absence of the
/// header is not an error.
pub fn check_version(enforce: bool, configured: &FhirVersion, observed: Option<&String>) -> (r:
    Result<(), Error>)
    ensures
        match r {
            Ok(()) => !version_mismatch(
                enforce,
                *configured,
                match observed {
                    Some(v) => Some(v@),
                    None => None,
                },
            ),
            Err(e) => version_mismatch(
                enforce,
                *configured,
                match observed {
                    Some(v) => Some(v@),
                    None => None,
                },
            ) && (e matches Error::DifferentFhirVersion(v) && observed matches Some(o) && v@
                == o@),
        },
{
    if !enforce {
        return Ok(());
    }
    match observed {
        None => Ok(()),
        Some(h) => {
            let observed_major = prefix_until(h.as_str(), '.');
            let expected_major = configured.major();
            if str_eq(observed_major.as_str(), expected_major.as_str()) {
                Ok(())
            } else {
                Err(Error::DifferentFhirVersion(h.clone()))
            }
        },
    }
}

} // verus!
