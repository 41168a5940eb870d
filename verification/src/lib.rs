//! Core request-orchestration logic for a small service that fetches a
//! creature's flavor-text description from a species provider and rewrites it
//! into archaic English through a translation provider.
//!
//! The modules here hold the decision logic of the two upstream clients and of
//! the request handler; the surrounding process (HTTP listener, configuration,
//! logging) lives outside this library and hands it plain values.

pub mod api_clients;
pub mod routes;
