//! Guarded mutations: the authentication and input-policy checks in front of
//! comment creation, the sanitization of untrusted comment text, the
//! assembly of a stored row into a full record, and the parsing of the
//! view-increment path id. The persistence layer itself is an external
//! collaborator; every decision made on its behalf is verified here.

use vstd::prelude::*;
use vstd::string::StrSliceExecFns;
use crate::errors::{CommentError, FetchError};
use crate::session::Session;

verus! {

/// Maximum accepted length, in characters, of the user id, the user name and
/// the comment text.
pub const MAX_CHARS: usize = 255;

/// Result of sanitizing untrusted text: the same text with active markup
/// neutralized, a function of the input alone.
pub uninterp spec fn sanitized_of(s: Seq<char>) -> Seq<char>;

/// Neutralizes markup in untrusted comment text before it is persisted, the
/// defense against stored cross-site scripting.
///
/// Relies on `ammonia::clean`: HTML sanitization with ammonia's default
/// builder, deterministic in the input text.
#[verifier::external_body]
fn sanitize_html(s: &str) -> (r: String)
    ensures
        r@ == sanitized_of(s@),
{
    ammonia::clean(s)
}

/// Body of a comment-creation request.
#[derive(Debug)]
pub struct CreateComment {
    /// The submitted free-text comment, untrusted.
    pub comment: String,
}

/// Path parameter of the view-increment endpoint.
#[derive(Debug)]
pub struct Info {
    /// The raw path segment naming the post.
    pub id: String,
}

/// The full stored record returned on successful comment creation.
#[derive(Debug)]
pub struct CreatedComment {
    /// Server-assigned identifier.
    pub id: i32,
    /// Stable user id of the author.
    pub userid: String,
    /// Display name of the author.
    pub name: String,
    /// Sanitized comment text as persisted.
    pub comment: String,
    /// Server-assigned creation time, Unix seconds.
    pub timestamp: i64,
}

/// A comment that passed every policy check and is ready to persist: the session's
/// identity pair and the sanitized text.
#[derive(Debug)]
pub struct PreparedComment {
    /// Stable user id out of the session.
    pub user_id: String,
    /// Display name out of the session.
    pub user_name: String,
    /// The comment text with markup neutralized.
    pub text: String,
}

/// The three length constraints a comment request must meet.
pub open spec fn within_limits(user_id: Seq<char>, user_name: Seq<char>, comment: Seq<
    char,
>) -> bool {
    user_id.len() <= MAX_CHARS as nat && user_name.len() <= MAX_CHARS as nat && comment.len()
        <= MAX_CHARS as nat
}

/// The policy check in front of comment creation: an unauthenticated session is
/// rejected outright; an oversized user id, user name or comment is
/// rejected; otherwise the comment is prepared for persistence with the
/// session's identity pair and its text sanitized. Nothing is mutated.
pub fn validate_comment_request(session: &Session, body: &CreateComment) -> (r: Result<
    PreparedComment,
    CommentError,
>)
    ensures
        !session.is_authenticated() ==> r == Err::<PreparedComment, CommentError>(
            CommentError::Unauthorized,
        ),
        session.is_authenticated() ==> {
            let uid = session.user_id.unwrap();
            let uname = session.user_name.unwrap();
            if within_limits(uid@, uname@, body.comment@) {
                r matches Ok(p) && p.user_id == uid && p.user_name == uname && p.text@
                    == sanitized_of(body.comment@)
            } else {
                r == Err::<PreparedComment, CommentError>(CommentError::TooLong)
            }
        },
{
    let uid = match &session.user_id {
        Some(i) => i,
        None => {
            return Err(CommentError::Unauthorized);
        },
    };
    let uname = match &session.user_name {
        Some(n) => n,
        None => {
            return Err(CommentError::Unauthorized);
        },
    };
    if uid.as_str().unicode_len() > MAX_CHARS || uname.as_str().unicode_len() > MAX_CHARS
        || body.comment.as_str().unicode_len() > MAX_CHARS {
        return Err(CommentError::TooLong);
    }
    let text = sanitize_html(body.comment.as_str());
    Ok(PreparedComment { user_id: uid.clone(), user_name: uname.clone(), text })
}

/// Assembles the row a successful insert returned into the full created
/// record: every field must have come back, an absent one is a malformed-row
/// failure — the mutation either yields the complete record or is reported
/// failed.
pub fn assemble_comment(
    id: Option<i32>,
    userid: Option<String>,
    name: Option<String>,
    comment: Option<String>,
    timestamp: Option<i64>,
) -> (r: Result<CreatedComment, CommentError>)
    ensures
        (id is Some && userid is Some && name is Some && comment is Some && timestamp is Some)
            ==> (r matches Ok(c) && c.id == id.unwrap() && c.userid == userid.unwrap() && c.name
            == name.unwrap() && c.comment == comment.unwrap() && c.timestamp
            == timestamp.unwrap()),
        !(id is Some && userid is Some && name is Some && comment is Some && timestamp is Some)
            ==> r == Err::<CreatedComment, CommentError>(CommentError::MalformedRow),
{
    match (id, userid, name, comment, timestamp) {
        (Some(i), Some(u), Some(n), Some(c), Some(t)) => Ok(
            CreatedComment { id: i, userid: u, name: n, comment: c, timestamp: t },
        ),
        _ => Err(CommentError::MalformedRow),
    }
}

/// Pass-through read outcome: an empty result list is reported as not-found,
/// a non-empty one is returned unchanged.
pub fn list_response<T>(items: Vec<T>) -> (r: Result<Vec<T>, FetchError>)
    ensures
        items@.len() == 0 ==> r == Err::<Vec<T>, FetchError>(FetchError::NotFound),
        items@.len() > 0 ==> (r matches Ok(v) && v == items),
{
    if items.len() == 0 {
        Err(FetchError::NotFound)
    } else {
        Ok(items)
    }
}

/// An ASCII decimal digit character.
pub open spec fn is_dec_digit(c: char) -> bool {
    48 <= c as int && c as int <= 57
}

/// Numeric value of one digit character.
pub open spec fn digit_val(c: char) -> int {
    c as int - 48
}

/// Whether every character of `s` is a decimal digit.
pub open spec fn all_digits(s: Seq<char>) -> bool {
    forall|i: int| 0 <= i < s.len() ==> is_dec_digit(#[trigger] s[i])
}

/// Numeric value of a digit string, most significant digit first.
pub open spec fn digits_val(s: Seq<char>) -> int
    decreases s.len(),
{
    if s.len() == 0 {
        0
    } else {
        digits_val(s.drop_last()) * 10 + digit_val(s.last())
    }
}

/// The digit part of an integer literal: everything after an optional
/// leading sign.
pub open spec fn unsigned_part(s: Seq<char>) -> Seq<char> {
    if s.len() > 0 && (s[0] == '+' || s[0] == '-') {
        s.subrange(1, s.len() as int)
    } else {
        s
    }
}

/// Sign of an integer literal.
pub open spec fn sign_of(s: Seq<char>) -> int {
    if s.len() > 0 && s[0] == '-' {
        -1
    } else {
        1
    }
}

/// The grammar `i32` parsing accepts: an optional sign, then at least one
/// digit and nothing else, with a value inside `i32`'s range.
pub open spec fn parses_as_i32(s: Seq<char>) -> bool {
    let d = unsigned_part(s);
    d.len() > 0 && all_digits(d) && i32::MIN <= sign_of(s) * digits_val(d) <= i32::MAX
}

/// What the view-increment endpoint takes the path id to mean: the parsed
/// value of a valid `i32` literal, and the sentinel `0` (which matches no
/// stored row) for anything unparsable.
pub open spec fn parsed_id(s: Seq<char>) -> int {
    if parses_as_i32(s) {
        sign_of(s) * digits_val(unsigned_part(s))
    } else {
        0
    }
}

proof fn lemma_digits_val_nonneg(s: Seq<char>)
    requires
        all_digits(s),
    ensures
        digits_val(s) >= 0,
    decreases s.len(),
{
    if s.len() > 0 {
        assert(all_digits(s.drop_last())) by {
            assert(forall|i: int|
                0 <= i < s.len() - 1 ==> s.drop_last()[i] == #[trigger] s[i]);
        }
        lemma_digits_val_nonneg(s.drop_last());
    }
}

/// Extending a digit string to the right can only keep or grow its value.
proof fn lemma_digits_val_prefix_le(s: Seq<char>, i: int, j: int)
    requires
        all_digits(s),
        0 <= i <= j <= s.len(),
    ensures
        digits_val(s.subrange(0, i)) <= digits_val(s.subrange(0, j)),
    decreases j - i,
{
    if i < j {
        let p = s.subrange(0, j - 1);
        let q = s.subrange(0, j);
        assert(q.drop_last() =~= p);
        assert(all_digits(p)) by {
            assert(forall|k: int| 0 <= k < p.len() ==> p[k] == #[trigger] s[k]);
        }
        lemma_digits_val_nonneg(p);
        assert(is_dec_digit(q.last()));
        assert(digits_val(q) == digits_val(p) * 10 + digit_val(q.last()));
        assert(digits_val(p) * 10 >= digits_val(p)) by (nonlinear_arith)
            requires
                digits_val(p) >= 0,
        ;
        lemma_digits_val_prefix_le(s, i, j - 1);
    }
}

/// Parses the path id of a view-increment request exactly as `i32` parsing
/// with a default of `0` does: the literal's value when it is a well-formed
/// `i32`, the sentinel `0` otherwise.
pub fn parse_post_id(s: &str) -> (id: i32)
    ensures
        id as int == parsed_id(s@),
{
    let n = s.unicode_len();
    let mut start: usize = 0;
    let mut negative = false;
    if n > 0 {
        let c0 = s.get_char(0);
        if c0 == '-' {
            negative = true;
            start = 1;
        } else if c0 == '+' {
            start = 1;
        }
    }
    let ghost d = unsigned_part(s@);
    proof {
        assert(d =~= s@.subrange(start as int, n as int));
        assert(negative == (sign_of(s@) == -1));
    }
    if start >= n {
        // no digits at all: not a valid literal
        assert(d.len() == 0);
        return 0;
    }
    let mut i = start;
    let mut acc: u64 = 0;
    while i < n
        invariant
            start <= i <= n,
            n == s@.len(),
            d == unsigned_part(s@),
            d == s@.subrange(start as int, n as int),
            negative == (sign_of(s@) == -1),
            acc <= 0x8000_0000,
            all_digits(d.subrange(0, i - start)),
            acc as int == digits_val(d.subrange(0, i - start)),
        decreases n - i,
    {
        let c = s.get_char(i);
        let u = c as u32;
        let ghost prefix = d.subrange(0, i - start);
        let ghost prefix1 = d.subrange(0, i + 1 - start);
        proof {
            assert(prefix1.drop_last() =~= prefix);
            assert(prefix1.last() == s@[i as int]);
        }
        if u < 48 || u > 57 {
            // a non-digit anywhere makes the whole literal invalid
            assert(!all_digits(d)) by {
                assert(d[i - start] == s@[i as int]);
                assert(!is_dec_digit(d[i - start]));
            }
            return 0;
        }
        let next: u64 = acc * 10 + (u - 48) as u64;
        if next > 0x8000_0000 {
            // magnitude already beyond every i32: invalid whatever follows
            proof {
                assert(digits_val(prefix1) == next as int);
                if all_digits(d) {
                    lemma_digits_val_prefix_le(d, i + 1 - start, d.len() as int);
                    assert(d.subrange(0, d.len() as int) =~= d);
                    assert(digits_val(d) >= digits_val(prefix1));
                    assert(sign_of(s@) * digits_val(d) > i32::MAX || sign_of(s@) * digits_val(d)
                        < i32::MIN) by (nonlinear_arith)
                        requires
                            digits_val(d) > 0x8000_0000,
                            sign_of(s@) == 1 || sign_of(s@) == -1,
                    ;
                }
                assert(!parses_as_i32(s@));
            }
            return 0;
        }
        acc = next;
        i = i + 1;
        proof {
            assert(d.subrange(0, i - start) =~= prefix1);
        }
    }
    proof {
        assert(d.subrange(0, d.len() as int) =~= d);
        assert(acc as int == digits_val(d));
        assert(all_digits(d));
        assert(d.len() > 0);
    }
    if negative {
        // magnitude up to 2^31 is representable as a negative i32
        let v: i64 = -(acc as i64);
        assert(i32::MIN <= v <= i32::MAX);
        assert(parses_as_i32(s@));
        v as i32
    } else {
        if acc > 0x7fff_ffff {
            // 2^31 with a non-negative sign does not fit an i32
            assert(!parses_as_i32(s@));
            return 0;
        }
        assert(parses_as_i32(s@));
        acc as i32
    }
}

impl Info {
    /// The post a view-increment request targets: its path id parsed as an
    /// integer, an unparsable id falling back to the sentinel `0`.
    pub fn post_id(&self) -> (id: i32)
        ensures
            id as int == parsed_id(self.id@),
    {
        parse_post_id(self.id.as_str())
    }
}

} // verus!
