//! Error taxonomy of the backend core: every rejection a verified function
//! can return is one of these variants, and each function's contract says
//! exactly which inputs produce which variant.

use vstd::prelude::*;

verus! {

/// Rejections of a handshake-completion request before any upstream call is
/// made. All of these are client-input errors (HTTP 400): the request either
/// lacks a parameter or carries a CSRF `state` that does not match the one
/// this session generated.
#[derive(Clone, Copy, Debug, PartialEq, Eq, Structural)]
pub enum HandshakeError {
    /// No `state` parameter was supplied.
    MissingState,
    /// The supplied `state` differs from the session's stored nonce, or the
    /// session has no nonce pending and so can match nothing.
    StateMismatch,
    /// No `code` parameter was supplied.
    MissingCode,
}

/// Failures of the identity provider or the metric provider: a response that
/// could not be parsed, or one that lacks a field the integration requires.
/// All are server errors (HTTP 500) to the caller and are never retried
/// inline; no cached or session state is mutated on any of them.
#[derive(Clone, Copy, Debug, PartialEq, Eq, Structural)]
pub enum UpstreamError {
    /// The upstream call itself failed (network error or non-success status).
    FetchFailed,
    /// The response body was not well-formed JSON.
    MalformedResponse,
    /// The token-exchange response carried no `access_token` string.
    MissingToken,
    /// The identity response carried no numeric `id`.
    MissingUserId,
    /// The identity response carried no `name` string.
    MissingUserName,
    /// The repository-metadata response carried no usable star count.
    MissingStarCount,
}

/// Rejections and failures of comment creation.
#[derive(Clone, Copy, Debug, PartialEq, Eq, Structural)]
pub enum CommentError {
    /// The session carries no authenticated identity (HTTP 401).
    Unauthorized,
    /// The user id, user name or comment text exceeds the length limit
    /// (HTTP 400).
    TooLong,
    /// The persistence layer failed to store the comment (HTTP 500).
    StorageFailed,
    /// The stored row came back without one of its required fields
    /// (HTTP 500).
    MalformedRow,
}

/// Outcome of a pass-through list read: an empty result is reported as
/// not-found (HTTP 404) rather than as an empty page.
#[derive(Clone, Copy, Debug, PartialEq, Eq, Structural)]
pub enum FetchError {
    /// The query returned no rows.
    NotFound,
}

} // verus!
