//! Verified core of a REST client for a versioned, resource-oriented
//! health-data API.
//!
//! The library contains the request execution and transaction engine: the
//! logic that turns a caller's intent (a single operation, or an atomic group
//! of operations) into request descriptions, enforces the origin and
//! protocol-version guards, coordinates credential refresh so that concurrent
//! callers never trigger overlapping refreshes, stitches cross-referencing
//! grouped operations together through placeholder references, and correlates
//! the positional response list back to typed outcomes.
//!
//! The HTTP transport itself, the generated resource data model and its
//! serialization are external collaborators: an embedder drives the state
//! machines of this crate, performs the network calls they request, and hands
//! the plain results back.

pub mod client;
pub mod error;
pub mod exec;
pub mod extensions;
pub mod headers;
pub mod ident;
pub mod operations;
pub mod paging;
pub mod request;
pub mod single_flight;
pub mod strutil;
pub mod transaction;
pub mod urls;
pub mod version;
