//! Typed interpretation of the upstream providers' JSON responses: the
//! token-exchange reply, the identity record and the repository metadata.
//! The network transport is an external collaborator; what stands here is
//! the reading of a response body into plain fields — each read a named,
//! deterministic function of the body text — and the exhaustive, verified
//! handling of every absent or malformed field as an upstream-integration
//! error, never a silent default.

use vstd::prelude::*;
use vstd::string::StringExecFns;
use crate::errors::UpstreamError;
use crate::handshake::{opt_chars, UserIdentity};

verus! {

/// The `access_token` member of a token-exchange response body: `Err` when
/// the body is not well-formed JSON, `Ok(None)` when the document carries no
/// `access_token` string, `Ok(Some(t))` with the token's characters
/// otherwise — a function of the body text alone.
pub uninterp spec fn token_field_of(body: Seq<char>) -> Result<Option<Seq<char>>, ()>;

/// Reads the `access_token` string out of a token-exchange body.
///
/// Relies on serde_json — `from_str`, `Value::get` and `Value::as_str`: the
/// parse of a JSON document and the lookup of one string member are
/// deterministic in the body text, which is what `token_field_of` names.
#[verifier::external_body]
fn read_token_field(body: &str) -> (r: Result<Option<String>, ()>)
    ensures
        match r {
            Ok(f) => token_field_of(body@) == Ok::<Option<Seq<char>>, ()>(opt_chars(f)),
            Err(_) => token_field_of(body@) is Err,
        },
{
    match serde_json::from_str::<serde_json::Value>(body) {
        Ok(doc) => Ok(doc.get("access_token").and_then(serde_json::Value::as_str).map(
            str::to_owned,
        )),
        Err(_) => Err(()),
    }
}

/// The `id` and `name` members of an identity response body: `Err` when the
/// body is not well-formed JSON; otherwise the numeric `id` if the document
/// carries one representable as a `u64`, paired with the `name` string if the
/// document carries one — a function of the body text alone.
pub uninterp spec fn identity_fields_of(body: Seq<char>) -> Result<
    (Option<u64>, Option<Seq<char>>),
    (),
>;

/// Reads the numeric `id` and the `name` string out of an identity body.
///
/// Relies on serde_json — `from_str`, `Value::get`, `Value::as_u64` and
/// `Value::as_str`: the parse and the two member lookups are deterministic in
/// the body text, which is what `identity_fields_of` names.
#[verifier::external_body]
fn read_identity_fields(body: &str) -> (r: Result<(Option<u64>, Option<String>), ()>)
    ensures
        match r {
            Ok(f) => identity_fields_of(body@) == Ok::<(Option<u64>, Option<Seq<char>>), ()>(
                (f.0, opt_chars(f.1)),
            ),
            Err(_) => identity_fields_of(body@) is Err,
        },
{
    match serde_json::from_str::<serde_json::Value>(body) {
        Ok(doc) => Ok(
            (
                doc.get("id").and_then(serde_json::Value::as_u64),
                doc.get("name").and_then(serde_json::Value::as_str).map(str::to_owned),
            ),
        ),
        Err(_) => Err(()),
    }
}

/// The `stargazers_count` member of a repository-metadata response body:
/// `Err` when the body is not well-formed JSON, otherwise the count if the
/// document carries one representable as an `i64` — a function of the body
/// text alone.
pub uninterp spec fn star_field_of(body: Seq<char>) -> Result<Option<i64>, ()>;

/// Reads the `stargazers_count` number out of a repository-metadata body.
///
/// Relies on serde_json — `from_str`, `Value::get` and `Value::as_i64`: the
/// parse and the member lookup are deterministic in the body text, which is
/// what `star_field_of` names.
#[verifier::external_body]
fn read_star_field(body: &str) -> (r: Result<Option<i64>, ()>)
    ensures
        match r {
            Ok(f) => star_field_of(body@) == Ok::<Option<i64>, ()>(f),
            Err(_) => star_field_of(body@) is Err,
        },
{
    match serde_json::from_str::<serde_json::Value>(body) {
        Ok(doc) => Ok(doc.get("stargazers_count").and_then(serde_json::Value::as_i64)),
        Err(_) => Err(()),
    }
}

/// The character of one decimal digit.
pub open spec fn dec_digit(d: nat) -> char {
    if d == 0 {
        '0'
    } else if d == 1 {
        '1'
    } else if d == 2 {
        '2'
    } else if d == 3 {
        '3'
    } else if d == 4 {
        '4'
    } else if d == 5 {
        '5'
    } else if d == 6 {
        '6'
    } else if d == 7 {
        '7'
    } else if d == 8 {
        '8'
    } else {
        '9'
    }
}

/// The decimal digit characters of `n`, most significant first, with no sign
/// and no leading zeros.
pub open spec fn dec_str(n: nat) -> Seq<char>
    decreases n,
{
    if n < 10 {
        seq![dec_digit(n)]
    } else {
        dec_str(n / 10).push(dec_digit(n % 10))
    }
}

/// The one-character string of one decimal digit.
fn digit_string(d: u64) -> (r: String)
    requires
        d < 10,
    ensures
        r@ == seq![dec_digit(d as nat)],
{
    let s = if d == 0 {
        "0"
    } else if d == 1 {
        "1"
    } else if d == 2 {
        "2"
    } else if d == 3 {
        "3"
    } else if d == 4 {
        "4"
    } else if d == 5 {
        "5"
    } else if d == 6 {
        "6"
    } else if d == 7 {
        "7"
    } else if d == 8 {
        "8"
    } else {
        "9"
    };
    proof {
        reveal_strlit("0");
        reveal_strlit("1");
        reveal_strlit("2");
        reveal_strlit("3");
        reveal_strlit("4");
        reveal_strlit("5");
        reveal_strlit("6");
        reveal_strlit("7");
        reveal_strlit("8");
        reveal_strlit("9");
        assert(s@ =~= seq![dec_digit(d as nat)]);
    }
    String::from_str(s)
}

/// Stringifies the provider's numeric user id: the decimal representation of
/// `n`, most significant digit first, with no sign and no leading zeros.
fn u64_to_dec_string(n: u64) -> (r: String)
    ensures
        r@ == dec_str(n as nat),
    decreases n,
{
    if n < 10 {
        digit_string(n)
    } else {
        let mut s = u64_to_dec_string(n / 10);
        let d = digit_string(n % 10);
        s.append(d.as_str());
        proof {
            assert(s@ =~= dec_str(n as nat));
        }
        s
    }
}

/// What the token-exchange step yields for each possible `access_token`
/// field: the token when the response carried one, an upstream-integration
/// error when it did not.
pub fn interpret_token_field(token: Option<String>) -> (r: Result<String, UpstreamError>)
    ensures
        match token {
            Some(t) => r == Ok::<String, UpstreamError>(t),
            None => r == Err::<String, UpstreamError>(UpstreamError::MissingToken),
        },
{
    match token {
        Some(t) => Ok(t),
        None => Err(UpstreamError::MissingToken),
    }
}

/// Reads the token-exchange response body: the `access_token` string exactly
/// when the body is well-formed JSON that carries one; `MalformedResponse`
/// exactly when the body is not JSON, `MissingToken` exactly when the
/// document lacks the field.
pub fn extract_access_token(body: &str) -> (r: Result<String, UpstreamError>)
    ensures
        match r {
            Ok(t) => token_field_of(body@) == Ok::<Option<Seq<char>>, ()>(Some(t@)),
            Err(e) => match token_field_of(body@) {
                Ok(f) => f is None && e == UpstreamError::MissingToken,
                Err(_) => e == UpstreamError::MalformedResponse,
            },
        },
{
    let token = match read_token_field(body) {
        Ok(f) => f,
        Err(_) => {
            return Err(UpstreamError::MalformedResponse);
        },
    };
    interpret_token_field(token)
}

/// What the identity step yields for each shape of the provider's identity
/// record: a missing numeric `id` or a missing `name` is an
/// upstream-integration error, never silently defaulted; with both present
/// the identity pair is the stringified id and the name.
pub fn interpret_identity_fields(id: Option<u64>, name: Option<String>) -> (r: Result<
    UserIdentity,
    UpstreamError,
>)
    ensures
        match (id, name) {
            (None, _) => r == Err::<UserIdentity, UpstreamError>(UpstreamError::MissingUserId),
            (Some(_), None) => r == Err::<UserIdentity, UpstreamError>(
                UpstreamError::MissingUserName,
            ),
            (Some(i), Some(n)) => r matches Ok(u) && u.user_id@ == dec_str(i as nat) && u.user_name
                == n,
        },
{
    match id {
        None => Err(UpstreamError::MissingUserId),
        Some(i) => match name {
            None => Err(UpstreamError::MissingUserName),
            Some(n) => Ok(UserIdentity { user_id: u64_to_dec_string(i), user_name: n }),
        },
    }
}

/// Reads the provider's identity response body: the identity pair — the
/// stringified numeric `id` and the `name` — exactly when the body is
/// well-formed JSON carrying both; otherwise the precise
/// upstream-integration error, the absent `id` reported first.
pub fn extract_user_identity(body: &str) -> (r: Result<UserIdentity, UpstreamError>)
    ensures
        match r {
            Ok(u) => {
                &&& identity_fields_of(body@) matches Ok(f)
                &&& f.0 matches Some(i)
                &&& u.user_id@ == dec_str(i as nat)
                &&& f.1 matches Some(nm)
                &&& u.user_name@ == nm
            },
            Err(e) => match identity_fields_of(body@) {
                Ok(f) => (f.0 is None && e == UpstreamError::MissingUserId) || (f.0 is Some
                    && f.1 is None && e == UpstreamError::MissingUserName),
                Err(_) => e == UpstreamError::MalformedResponse,
            },
        },
{
    let fields = match read_identity_fields(body) {
        Ok(f) => f,
        Err(_) => {
            return Err(UpstreamError::MalformedResponse);
        },
    };
    let (id, name) = fields;
    interpret_identity_fields(id, name)
}

/// What the metric step yields for each shape of the repository-metadata
/// field: a star count that fits an `i32` is served; a missing field or one
/// out of range is an upstream-integration error.
pub fn interpret_star_field(stars: Option<i64>) -> (r: Result<i32, UpstreamError>)
    ensures
        match stars {
            Some(v) => if i32::MIN <= v <= i32::MAX {
                r == Ok::<i32, UpstreamError>(v as i32)
            } else {
                r == Err::<i32, UpstreamError>(UpstreamError::MissingStarCount)
            },
            None => r == Err::<i32, UpstreamError>(UpstreamError::MissingStarCount),
        },
{
    match stars {
        Some(v) => if i32::MIN as i64 <= v && v <= i32::MAX as i64 {
            Ok(v as i32)
        } else {
            Err(UpstreamError::MissingStarCount)
        },
        None => Err(UpstreamError::MissingStarCount),
    }
}

/// Reads the repository-metadata response body: the `stargazers_count`
/// exactly when the body is well-formed JSON carrying one that fits an
/// `i32`; `MalformedResponse` exactly when the body is not JSON,
/// `MissingStarCount` exactly when the field is absent or out of range.
pub fn extract_star_count(body: &str) -> (r: Result<i32, UpstreamError>)
    ensures
        match r {
            Ok(v) => star_field_of(body@) == Ok::<Option<i64>, ()>(Some(v as i64)),
            Err(e) => match star_field_of(body@) {
                Ok(f) => match f {
                    Some(v) => !(i32::MIN <= v <= i32::MAX) && e
                        == UpstreamError::MissingStarCount,
                    None => e == UpstreamError::MissingStarCount,
                },
                Err(_) => e == UpstreamError::MalformedResponse,
            },
        },
{
    let stars = match read_star_field(body) {
        Ok(f) => f,
        Err(_) => {
            return Err(UpstreamError::MalformedResponse);
        },
    };
    interpret_star_field(stars)
}

} // verus!
