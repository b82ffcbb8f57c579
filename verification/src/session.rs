//! The per-browser session, modeled as the plain values the backend reads and
//! writes through its cookie-backed store: a pending CSRF nonce and the
//! authenticated identity pair. The adapter that encrypts and transports the
//! cookie is an external collaborator; every decision made on session content
//! is verified here.

use vstd::prelude::*;

verus! {

/// The session state of one browser. `oauth_state` is present only between
/// handshake start and completion; `user_id` and `user_name` are written
/// atomically as a pair on a successful handshake and cleared together on
/// logout, so a well-formed session never carries one without the other.
#[derive(Debug)]
pub struct Session {
    /// CSRF nonce generated at handshake start, pending until completion.
    pub oauth_state: Option<String>,
    /// Provider-assigned stable identifier, stringified.
    pub user_id: Option<String>,
    /// Provider-reported display name.
    pub user_name: Option<String>,
}

impl Session {
    /// The identity pair is all-or-nothing: a session must never carry a
    /// `user_id` without a `user_name` or the reverse.
    pub open spec fn identity_consistent(&self) -> bool {
        self.user_id is Some <==> self.user_name is Some
    }

    /// A request is authenticated exactly when both identity fields are
    /// readable from its session.
    pub open spec fn is_authenticated(&self) -> bool {
        self.user_id is Some && self.user_name is Some
    }

    /// A fresh session, as created on the first request of a browser.
    pub fn new() -> (s: Session)
        ensures
            s.oauth_state is None,
            s.user_id is None,
            s.user_name is None,
    {
        Session { oauth_state: None, user_id: None, user_name: None }
    }

    /// Logout: unconditionally purge all session state, the pending nonce
    /// included. Idempotent — purging an empty session leaves it empty.
    pub fn purge(&mut self)
        ensures
            final (self).oauth_state is None,
            final (self).user_id is None,
            final (self).user_name is None,
    {
        self.oauth_state = None;
        self.user_id = None;
        self.user_name = None;
    }
}

/// Pure read of the session's authentication state; no side effects.
pub fn user_status(session: &Session) -> (authenticated: bool)
    ensures
        authenticated == session.is_authenticated(),
{
    session.user_id.is_some() && session.user_name.is_some()
}

/// Law: `logout` followed immediately by `authentication_status` always
/// reports unauthenticated — any session in the state `purge` leaves behind
/// (all fields absent) is not authenticated, and it is identity-consistent.
pub proof fn lemma_logout_then_unauthenticated(s: Session)
    requires
        s.oauth_state is None,
        s.user_id is None,
        s.user_name is None,
    ensures
        !s.is_authenticated(),
        s.identity_consistent(),
{
}

} // verus!
