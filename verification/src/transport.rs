//! What the HTTP façade computes around the operations: the session token
//! that a request carries, and the cookie that hands a token to the
//! client.

use vstd::prelude::*;
use vstd::string::*;
use crate::json::Json;
use crate::text::{
    after_first,
    before_first,
    lemma_first_occurrence_some,
    opt_str,
    opt_text,
    strip_prefix,
    text_after_first,
    text_before_first,
    trim,
    trimmed,
    without_prefix,
};

verus! {

/// Seconds for which the client keeps the session cookie.
pub const SESSION_COOKIE_MAX_AGE: u64 = 86400;

/// What a login request carries.
#[derive(Debug, PartialEq)]
pub struct LoginDto {
    pub identifier: String,
    pub password: String,
}

/// What a registration request carries: the email, the password, and
/// whatever else the request names, as free-form traits.
#[derive(Debug, PartialEq)]
pub struct AuthDto {
    pub email: String,
    pub password: String,
    pub traits: Json,
}

/// The session token among the cookies of a `Cookie` header: the value of
/// the first cookie that, with the white space around it removed, begins
/// with `session_token=`. Cookies are separated by `;`.
pub open spec fn session_token_in(header: Seq<char>) -> Option<Seq<char>>
    decreases header.len(),
{
    match without_prefix(trimmed(before_first(header, ";"@)), "session_token="@) {
        Some(token) => Some(token),
        None => match after_first(header, ";"@) {
            Some(rest) => if rest.len() < header.len() {
                session_token_in(rest)
            } else {
                None
            },
            None => None,
        },
    }
}

/// The token of an `Authorization` header: what follows `Bearer `.
pub open spec fn bearer_token_in(authorization: Seq<char>) -> Option<Seq<char>> {
    without_prefix(authorization, "Bearer "@)
}

/// The session token that a request carries: the one among its cookies,
/// or else the bearer token of its `Authorization` header.
pub open spec fn request_token(
    cookie: Option<Seq<char>>,
    authorization: Option<Seq<char>>,
) -> Option<Seq<char>> {
    let from_cookie = match cookie {
        Some(header) => session_token_in(header),
        None => None,
    };
    match from_cookie {
        Some(token) => Some(token),
        None => match authorization {
            Some(header) => bearer_token_in(header),
            None => None,
        },
    }
}

/// The `Set-Cookie` value that hands `token` to the client for a day.
pub open spec fn session_cookie(token: Seq<char>) -> Seq<char> {
    "session_token="@ + token + "; Path=/; HttpOnly; SameSite=Lax; Max-Age=86400"@
}

/// The session token among the cookies of a `Cookie` header.
pub fn session_token_from_cookies(header: &str) -> (r: Option<String>)
    ensures
        opt_text(r) == session_token_in(header@),
{
    let mut rest = header.to_owned();
    loop
        invariant
            session_token_in(header@) == session_token_in(rest@),
        decreases rest@.len(),
    {
        let piece = trim(text_before_first(rest.as_str(), ";").as_str());
        match strip_prefix(piece.as_str(), "session_token=") {
            Some(token) => {
                return Some(token);
            },
            None => {},
        }
        match text_after_first(rest.as_str(), ";") {
            Some(next) => {
                proof {
                    reveal_strlit(";");
                    lemma_first_occurrence_some(rest@, ";"@, 0);
                }
                rest = next;
            },
            None => {
                return None;
            },
        }
    }
}

/// The token of an `Authorization` header.
pub fn bearer_token(authorization: &str) -> (r: Option<String>)
    ensures
        opt_text(r) == bearer_token_in(authorization@),
{
    strip_prefix(authorization, "Bearer ")
}

/// The session token that a request carries.
pub fn token_of_request(cookie: Option<&str>, authorization: Option<&str>) -> (r: Option<String>)
    ensures
        opt_text(r) == request_token(
            opt_str(cookie),
            opt_str(authorization),
        ),
{
    let from_cookie = match cookie {
        Some(header) => session_token_from_cookies(header),
        None => None,
    };
    match from_cookie {
        Some(token) => Some(token),
        None => match authorization {
            Some(header) => bearer_token(header),
            None => None,
        },
    }
}

/// The `Set-Cookie` value that hands `token` to the client for a day.
pub fn set_session_cookie(token: &str) -> (out: String)
    ensures
        out@ == session_cookie(token@),
{
    let mut out = "session_token=".to_owned();
    out.append(token);
    out.append("; Path=/; HttpOnly; SameSite=Lax; Max-Age=86400");
    out
}

/// The `Set-Cookie` value that takes the session token from the client.
pub fn clear_session_cookie() -> (out: String)
    ensures
        out@ == "session_token=; Path=/; Max-Age=0; HttpOnly; SameSite=Lax"@,
{
    "session_token=; Path=/; Max-Age=0; HttpOnly; SameSite=Lax".to_owned()
}

} // verus!
