//! Verified core of a personal-site backend: the OAuth authorization-code
//! handshake with CSRF protection, the session-based identity it establishes,
//! a time-bounded cache for an externally sourced metric, and the policy
//! checks guarding persistent mutations.

pub mod cache;
pub mod comments;
pub mod errors;
pub mod handshake;
pub mod session;
pub mod upstream;
