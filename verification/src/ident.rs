//! Fresh locally-unique identifiers.
//!
//! Correlation identifiers and placeholder references both start from a
//! fresh random token. The token comes from an outside generator behind a
//! trusted wrapper; everything built on top of it is verified.

use vstd::prelude::*;
use vstd::string::StringExecFns;

verus! {

/// Relies on `uuid::Uuid::new_v4` and its `Display` form: a fresh random
/// version-4 identifier rendered as 36 hyphenated lowercase hexadecimal
/// ASCII characters. The value depends on randomness: nothing relates two
/// calls, so only the shape of the text is stated.
#[verifier::external_body]
pub(crate) fn fresh_uuid_string() -> (r: String)
    ensures
        r@.len() == 36,
{
    uuid::Uuid::new_v4().to_string()
}

/// A fresh correlation identifier, attached to a request that carries none
/// so that server-side logs can join retried attempts.
pub fn fresh_correlation_id() -> (r: String)
    ensures
        r@.len() == 36,
{
    fresh_uuid_string()
}

/// Build the canonical placeholder URN for a token: `urn:uuid:` followed by
/// the token.
pub fn placeholder_urn(token: &str) -> (r: String)
    ensures
        r@ == "urn:uuid:"@ + token@,
{
    let prefix = String::from_str("urn:uuid:");
    prefix.concat(token)
}

/// A fresh placeholder URN: `urn:uuid:` followed by a fresh random token.
pub fn fresh_placeholder_urn() -> (r: String)
    ensures
        r@.len() == 45,
        r@.take(9) == "urn:uuid:"@,
{
    let token = fresh_uuid_string();
    let urn = placeholder_urn(token.as_str());
    proof {
        reveal_strlit("urn:uuid:");
        assert(urn@.take(9) =~= "urn:uuid:"@);
    }
    urn
}

} // verus!
