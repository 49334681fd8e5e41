//! The failure taxonomy of the pipeline: transport failures, bad HTTP
//! statuses, and JSON documents whose shape diverged from the expected
//! one, reported with the exact structural path of the divergence.

use vstd::prelude::*;

verus! {

/// How a request other than a single-record view can fail.
#[derive(Debug, Clone, PartialEq)]
pub enum ApiError {
    /// The backend answered with an unusable status.
    Http { status: u16, url: String, body_snippet: String },
    /// The body was not the expected JSON shape; `path` names the
    /// field or index chain where decoding diverged.
    Decode { path: String, message: String, body_snippet: String },
    /// The exchange itself failed: connection, DNS, TLS, or a missing
    /// response.
    Transport(String),
}

/// How viewing a single record can fail.
#[derive(Debug, Clone, PartialEq)]
pub enum RecordViewError {
    /// The record was not found (HTTP 404).
    NotFound { collection: String, identifier: String, body_snippet: String },
    /// Other non-2xx HTTP error.
    Http { status: u16, url: String, body_snippet: String },
    /// JSON decode error, with the structural path where it happened.
    Decode { path: String, source: String, body_snippet: String },
    /// Transport or other lower-level error.
    Transport(String),
}

} // verus!
