//! Minting the token that the service issues on its own account.

use vstd::prelude::*;
use vstd::string::*;

verus! {

/// Seconds for which a token is valid.
pub const TOKEN_LIFETIME_SECS: i64 = 86400;

/// What a token claims: the user's id, the user's email, and the second
/// at which the token expires.
#[derive(Debug, PartialEq)]
pub struct Claims {
    pub sub: String,
    pub email: String,
    pub exp: i64,
}

/// The token that `jsonwebtoken::encode` makes, with its default header
/// and the secret as an HMAC key, of the claims `sub`, `email` and `exp`;
/// or the message of the error that it reports.
pub uninterp spec fn signed_token(
    sub: Seq<char>,
    email: Seq<char>,
    exp: i64,
    secret: Seq<char>,
) -> Result<Seq<char>, Seq<char>>;

/// The second at which a token expires that is minted at the second
/// `now`: a day later, if that second can be told.
pub open spec fn expiry(now: i64) -> Option<i64> {
    if now + TOKEN_LIFETIME_SECS <= i64::MAX {
        Some((now + TOKEN_LIFETIME_SECS) as i64)
    } else {
        None
    }
}

/// What minting a token at the second `now` comes to, given what the
/// signing came to.
pub open spec fn token_minted(
    now: i64,
    signed: Result<Seq<char>, Seq<char>>,
) -> Result<Seq<char>, Seq<char>> {
    match expiry(now) {
        None => Err("Failed to generate token: timestamp out of range"@),
        Some(_) => match signed {
            Ok(token) => Ok(token),
            Err(message) => Err("Failed to generate token: "@ + message),
        },
    }
}

/// The token minted for the user at the second `now`, or the message of
/// what went wrong.
pub open spec fn token_at(
    user_id: Seq<char>,
    email: Seq<char>,
    secret: Seq<char>,
    now: i64,
) -> Result<Seq<char>, Seq<char>> {
    match expiry(now) {
        None => token_minted(now, Err(Seq::empty())),
        Some(exp) => token_minted(now, signed_token(user_id, email, exp, secret)),
    }
}

/// The least second that `clock` can tell. chrono computes the second
/// from a day number that is an `i32` and the Unix epoch's day number,
/// 719163, times 86400, plus a second of the day that is a `u32`.
pub const CLOCK_MIN: i64 = -185_604_722_870_400;

/// The greatest second that `clock` can tell, computed likewise.
pub const CLOCK_MAX: i64 = 185_484_746_384_895;

/// Whether `clock` can tell the second `now`.
pub open spec fn clock_tells(now: i64) -> bool {
    CLOCK_MIN <= now <= CLOCK_MAX
}

/// The token minted for the user at a second that the clock can tell: a
/// day is added without fail, so what comes back is the signed token, or
/// the signing's error behind the words `Failed to generate token: `.
pub open spec fn token_signed(
    user_id: Seq<char>,
    email: Seq<char>,
    secret: Seq<char>,
    now: i64,
) -> Result<Seq<char>, Seq<char>> {
    match signed_token(user_id, email, (now + TOKEN_LIFETIME_SECS) as i64, secret) {
        Ok(token) => Ok(token),
        Err(message) => Err("Failed to generate token: "@ + message),
    }
}

/// At a second that the clock can tell, minting comes to signing.
pub proof fn lemma_token_at_clock(
    user_id: Seq<char>,
    email: Seq<char>,
    secret: Seq<char>,
    now: i64,
)
    requires
        clock_tells(now),
    ensures
        expiry(now) == Some((now + TOKEN_LIFETIME_SECS) as i64),
        token_at(user_id, email, secret, now) == token_signed(user_id, email, secret, now),
{
}

/// The model of a minting's result.
pub open spec fn minted_view(r: Result<String, String>) -> Result<Seq<char>, Seq<char>> {
    match r {
        Ok(token) => Ok(token@),
        Err(message) => Err(message@),
    }
}

/// `chrono::Utc::now`, as the number of seconds since the Unix epoch
/// (`DateTime::timestamp`) and as an RFC 3339 text. Nothing is known of
/// what the clock says, but that chrono takes it to stand at or after the
/// epoch, and that `timestamp` makes the second of an `i32` day number and
/// a `u32` second of the day, which bounds it.
#[verifier::external_body]
pub(crate) fn clock() -> (now: (i64, String))
    ensures
        clock_tells(now.0),
{
    let now = chrono::Utc::now();
    (now.timestamp(), now.to_rfc3339())
}

/// `jsonwebtoken::encode` with the default header (HS256), the claims as
/// a JSON object of their three fields, and the secret's bytes as the
/// key: the token, or the error's display text, as `signed_token` names
/// them.
#[verifier::external_body]
fn sign_claims(claims: &Claims, secret: &str) -> (r: Result<String, String>)
    ensures
        minted_view(r) == signed_token(claims.sub@, claims.email@, claims.exp, secret@),
{
    let mut object = serde_json::Map::new();
    object.insert("sub".to_string(), serde_json::Value::from(claims.sub.as_str()));
    object.insert("email".to_string(), serde_json::Value::from(claims.email.as_str()));
    object.insert("exp".to_string(), serde_json::Value::from(claims.exp));
    let key = jsonwebtoken::EncodingKey::from_secret(secret.as_bytes());
    match jsonwebtoken::encode(&jsonwebtoken::Header::default(), &object, &key) {
        Ok(token) => Ok(token),
        Err(error) => Err(error.to_string()),
    }
}

/// Mints tokens.
pub struct JwtService;

impl JwtService {
    /// The claims of a token for the user, minted at the second `now`.
    pub fn claims(user_id: &str, email: &str, now: i64) -> (r: Option<Claims>)
        ensures
            match r {
                Some(c) => expiry(now) == Some(c.exp) && c.sub@ == user_id@ && c.email@ == email@,
                None => expiry(now) is None,
            },
    {
        if now > i64::MAX - TOKEN_LIFETIME_SECS {
            None
        } else {
            Some(
                Claims {
                    sub: user_id.to_owned(),
                    email: email.to_owned(),
                    exp: now + TOKEN_LIFETIME_SECS,
                },
            )
        }
    }

    /// What minting a token at the second `now` comes to, given what the
    /// signing came to.
    pub fn token_from(now: i64, signed: Result<String, String>) -> (r: Result<String, String>)
        ensures
            minted_view(r) == token_minted(now, minted_view(signed)),
    {
        if now > i64::MAX - TOKEN_LIFETIME_SECS {
            return Err("Failed to generate token: timestamp out of range".to_owned());
        }
        match signed {
            Ok(token) => Ok(token),
            Err(message) => {
                let mut text = "Failed to generate token: ".to_owned();
                text.append(message.as_str());
                Err(text)
            },
        }
    }

    /// Mints a token for the user at the second `now`, signed with the
    /// secret and valid for a day.
    pub fn generate_token_at(
        user_id: &str,
        email: &str,
        jwt_secret: &str,
        now: i64,
    ) -> (r: Result<String, String>)
        ensures
            minted_view(r) == token_at(user_id@, email@, jwt_secret@, now),
    {
        match JwtService::claims(user_id, email, now) {
            None => JwtService::token_from(now, Err(String::new())),
            Some(claims) => JwtService::token_from(now, sign_claims(&claims, jwt_secret)),
        }
    }

    /// Mints a token for the user now, signed with the secret and valid
    /// for a day. Whatever the clock says, the result is the token signed
    /// at some second that the clock can tell, or that signing's error; it
    /// is never refused for the time.
    pub fn generate_token(
        user_id: &str,
        email: &str,
        jwt_secret: &str,
    ) -> (r: Result<String, String>)
        ensures
            exists|now: i64|
                clock_tells(now) && minted_view(r) == #[trigger] token_signed(
                    user_id@,
                    email@,
                    jwt_secret@,
                    now,
                ),
    {
        let (now, _) = clock();
        let r = JwtService::generate_token_at(user_id, email, jwt_secret, now);
        proof {
            lemma_token_at_clock(user_id@, email@, jwt_secret@, now);
        }
        assert(clock_tells(now) && minted_view(r) == token_signed(
            user_id@,
            email@,
            jwt_secret@,
            now,
        ));
        r
    }
}

} // verus!
