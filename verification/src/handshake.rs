//! The OAuth authorization-code handshake: generating and storing the CSRF
//! nonce, validating a completion request against it, and materializing the
//! provider-confirmed identity into the session. No client-supplied value is
//! trusted except as cross-checked against server-held state; the exact
//! equality of the `state` parameter with the stored nonce is the sole CSRF
//! defense.

use vstd::prelude::*;
use vstd::string::StringExecFns;
use rand::Rng;
use crate::errors::{HandshakeError, UpstreamError};
use crate::session::Session;

verus! {

/// Length of the generated CSRF nonce, in characters.
pub const STATE_LENGTH: usize = 20;

/// An ASCII alphanumeric character: a digit, an upper-case or a lower-case
/// letter.
pub open spec fn is_alphanumeric_char(c: char) -> bool {
    (48 <= c as int && c as int <= 57) || (65 <= c as int && c as int <= 90) || (97 <= c as int
        && c as int <= 122)
}

/// Draws one cryptographically random alphanumeric string.
///
/// Relies on rand: `rand::rngs::OsRng` is the operating system's CSPRNG, and
/// sampling `rand::distributions::Alphanumeric` yields uniformly random bytes
/// out of the 62 ASCII alphanumeric characters. The result is random, so only
/// its length and its alphabet are promised.
#[verifier::external_body]
fn random_alphanumeric_string(len: usize) -> (r: String)
    ensures
        r@.len() == len as nat,
        forall|i: int| 0 <= i < r@.len() ==> is_alphanumeric_char(#[trigger] r@[i]),
{
    rand::rngs::OsRng.sample_iter(&rand::distributions::Alphanumeric).take(len).map(
        char::from,
    ).collect()
}

/// The provider's authorization URL for one handshake: the fixed endpoint,
/// the client identifier, the server-configured callback, the CSRF nonce and
/// the minimal requested scope.
pub open spec fn oauth_url_chars(client_id: Seq<char>, redirect_uri: Seq<char>, state: Seq<
    char,
>) -> Seq<char> {
    "https://github.com/login/oauth/authorize?client_id="@ + client_id + "&redirect_uri="@
        + redirect_uri + "&state="@ + state + "&scope=read:user%20user:email"@
}

/// Builds the authorization URL a handshake start redirects to.
pub fn generate_oauth_url(client_id: String, state: String, redirect_uri: String) -> (url: String)
    ensures
        url@ == oauth_url_chars(client_id@, redirect_uri@, state@),
{
    let mut url = String::from_str("https://github.com/login/oauth/authorize?client_id=");
    url.append(client_id.as_str());
    url.append("&redirect_uri=");
    url.append(redirect_uri.as_str());
    url.append("&state=");
    url.append(state.as_str());
    url.append("&scope=read:user%20user:email");
    proof {
        assert(url@ =~= oauth_url_chars(client_id@, redirect_uri@, state@));
    }
    url
}

/// Starts a handshake: generates the CSRF nonce, stores it in the session as
/// the pending `oauth_state`, and returns the authorization URL to redirect
/// to. The identity fields are untouched — the session carries a pending
/// nonce but no new identity.
pub fn begin_handshake(session: &mut Session, client_id: String, redirect_uri: String) -> (url:
    String)
    ensures
        final (session).user_id == old(session).user_id,
        final (session).user_name == old(session).user_name,
        final (session).oauth_state matches Some(st) && st@.len() == STATE_LENGTH as nat && (forall|
            i: int,
        | 0 <= i < st@.len() ==> is_alphanumeric_char(#[trigger] st@[i])) && url@ == oauth_url_chars(
            client_id@,
            redirect_uri@,
            st@,
        ),
{
    let state = random_alphanumeric_string(STATE_LENGTH);
    session.oauth_state = Some(state.clone());
    generate_oauth_url(client_id, state, redirect_uri)
}

/// The nonce a completion request is checked against: the session's stored
/// `oauth_state`, absent when no handshake is pending.
pub open spec fn stored_state(s: Session) -> Option<Seq<char>> {
    match s.oauth_state {
        Some(st) => Some(st@),
        None => None,
    }
}

/// The view of an optional request parameter.
pub open spec fn opt_chars(o: Option<String>) -> Option<Seq<char>> {
    match o {
        Some(s) => Some(s@),
        None => None,
    }
}

/// The decision a completion request meets, in order: a missing `state` is a
/// client error; a `state` that is not exactly the stored nonce — a session
/// with no pending nonce can match nothing — is a client error whatever else
/// the request carries; a missing `code` is a client error; otherwise the
/// `code` goes on to the provider exchange.
pub open spec fn callback_decision(
    stored: Option<Seq<char>>,
    state_param: Option<Seq<char>>,
    code_param: Option<Seq<char>>,
) -> Result<Seq<char>, HandshakeError> {
    match state_param {
        None => Err(HandshakeError::MissingState),
        Some(st) => if stored != Some(st) {
            Err(HandshakeError::StateMismatch)
        } else {
            match code_param {
                None => Err(HandshakeError::MissingCode),
                Some(c) => Ok(c),
            }
        },
    }
}

/// Validates a completion request against the session before any upstream
/// call: returns the `code` to exchange exactly when the request carries a
/// `state` equal to the stored nonce and a `code`; otherwise the precise
/// client error. The session is only read.
pub fn validate_callback(
    session: &Session,
    state_param: Option<String>,
    code_param: Option<String>,
) -> (r: Result<String, HandshakeError>)
    ensures
        ({
            let decision = callback_decision(
                stored_state(*session),
                opt_chars(state_param),
                opt_chars(code_param),
            );
            match r {
                Ok(code) => decision == Ok::<Seq<char>, HandshakeError>(code@),
                Err(e) => decision == Err::<Seq<char>, HandshakeError>(e),
            }
        }),
{
    let received = match state_param {
        Some(st) => st,
        None => {
            return Err(HandshakeError::MissingState);
        },
    };
    let state_matches = match &session.oauth_state {
        Some(stored) => *stored == received,
        None => false,
    };
    if !state_matches {
        return Err(HandshakeError::StateMismatch);
    }
    match code_param {
        Some(code) => Ok(code),
        None => Err(HandshakeError::MissingCode),
    }
}

/// The identity pair the provider confirms for one handshake.
#[derive(Debug)]
pub struct UserIdentity {
    /// Provider-assigned stable identifier, stringified.
    pub user_id: String,
    /// Provider-reported display name.
    pub user_name: String,
}

/// How a completion attempt transforms the session once the provider
/// exchange has resolved: a success consumes the pending nonce and writes
/// both identity fields as one pair; any failure leaves the session exactly
/// as it was.
pub open spec fn finish_transition(
    before: Session,
    after: Session,
    outcome: Result<UserIdentity, UpstreamError>,
) -> bool {
    match outcome {
        Ok(u) => {
            &&& after.oauth_state is None
            &&& after.user_id == Some(u.user_id)
            &&& after.user_name == Some(u.user_name)
        },
        Err(_) => after == before,
    }
}

/// Finishes a handshake with the resolved outcome of the provider exchange:
/// on success the identity pair is written atomically and the consumed nonce
/// is discarded; on failure the error is passed through and the session is
/// untouched.
pub fn finish_handshake(session: &mut Session, outcome: Result<UserIdentity, UpstreamError>) -> (r:
    Result<(), UpstreamError>)
    ensures
        finish_transition(*old(session), *final (session), outcome),
        match outcome {
            Ok(_) => r == Ok::<(), UpstreamError>(()),
            Err(e) => r == Err::<(), UpstreamError>(e),
        },
{
    match outcome {
        Ok(u) => {
            session.oauth_state = None;
            session.user_id = Some(u.user_id);
            session.user_name = Some(u.user_name);
            Ok(())
        },
        Err(e) => Err(e),
    }
}

/// Law: for every handshake completion the identity fields are set together,
/// never independently — a success writes both, any failure writes neither,
/// so a session whose identity pair was consistent stays consistent after
/// any completion attempt.
pub proof fn lemma_identity_set_as_pair(
    before: Session,
    after: Session,
    outcome: Result<UserIdentity, UpstreamError>,
)
    requires
        before.identity_consistent(),
        finish_transition(before, after, outcome),
    ensures
        after.identity_consistent(),
        outcome is Ok ==> after.is_authenticated(),
        outcome is Err ==> (after.is_authenticated() <==> before.is_authenticated()),
{
}

/// Law: a completion that returns exactly the pending nonce, together with a
/// code, passes validation and hands that code on to the provider exchange —
/// success is owed whenever both checks hold.
pub proof fn lemma_matching_state_accepted(stored: Seq<char>, code: Seq<char>)
    ensures
        callback_decision(Some(stored), Some(stored), Some(code)) == Ok::<
            Seq<char>,
            HandshakeError,
        >(code),
{
}

/// Law: a completion on a session with no pending nonce is rejected whatever
/// parameters it carries — there is no value an attacker can supply that a
/// nonce-less session would match.
pub proof fn lemma_no_pending_nonce_rejected(
    state_param: Option<Seq<char>>,
    code_param: Option<Seq<char>>,
)
    ensures
        callback_decision(None, state_param, code_param) is Err,
{
}

/// Law: a completion whose `state` differs from the stored nonce is rejected
/// with `StateMismatch` whatever its `code` parameter holds — the presence or
/// validity of a `code` cannot rescue a forged request.
pub proof fn lemma_state_mismatch_rejected(
    stored: Option<Seq<char>>,
    state_param: Seq<char>,
    code_param: Option<Seq<char>>,
)
    requires
        stored != Some(state_param),
    ensures
        callback_decision(stored, Some(state_param), code_param) == Err::<
            Seq<char>,
            HandshakeError,
        >(HandshakeError::StateMismatch),
{
}

} // verus!
