//! The errors of the sink.

use vstd::prelude::*;

verus! {

/// The part of a DSN that is malformed.
#[derive(Clone, Copy, Debug, PartialEq, Eq, Structural)]
pub enum DsnError {
    /// The text is no URL, or the URL has no host.
    InvalidUrl,
    /// The scheme is neither `http` nor `https`.
    InvalidScheme,
    /// The public key (the URL's user name) is missing.
    NoUsername,
    /// The project id (the last path segment) is missing.
    NoProjectId,
    /// The project id is empty or not a number.
    InvalidProjectId,
}

/// An error of the sink.
#[derive(Clone, Copy, Debug, PartialEq, Eq, Structural)]
pub enum SinkError {
    /// The DSN is malformed.
    InvalidDsn(DsnError),
    /// The ingestion URL derived from the DSN is not a valid URI.
    InvalidEndpoint,
    /// A part of the envelope could not be serialized.
    EncodingFailure,
    /// A batch limit or the concurrency limit is zero.
    InvalidSettings,
}

} // verus!
