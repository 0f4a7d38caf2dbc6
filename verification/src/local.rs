//! Accounts that the service issues on its own, without the provider: a
//! placeholder user with a fresh id and a token of the service's own.

use vstd::prelude::*;
use crate::accounts::{RegisterInput, User, UserView};
use crate::jwt::{
    clock,
    clock_tells,
    lemma_token_at_clock,
    minted_view,
    token_signed,
    JwtService,
};
use crate::validate::{check_register_with, email_accepted, email_form, register_checked_with};

verus! {

/// The number of characters of a fresh id: a UUID in its hyphenated form.
pub const ID_CHARS: usize = 36;

/// What the service issues: the token and the user that it is for.
#[derive(Debug, PartialEq)]
pub struct LocalSession {
    pub session_token: String,
    pub user: UserView,
}

/// `uuid::Uuid::new_v4`, in its hyphenated form. The id is random; all
/// that is known of it is its length.
#[verifier::external_body]
fn fresh_id() -> (id: String)
    ensures
        id@.len() == ID_CHARS,
{
    uuid::Uuid::new_v4().to_string()
}

/// The user that is issued for `email` under `login`, with the id `id`,
/// at the time `stamp`.
pub open spec fn issued_user(
    id: Seq<char>,
    email: Seq<char>,
    login: Seq<char>,
    stamp: Seq<char>,
) -> User {
    User { id: id, email: email, login: login, created_at: stamp, updated_at: stamp }
}

/// What a login on the service's own account comes to, given the fresh
/// id, the time and what minting the token came to: an empty email or
/// password is refused, and so is a token that could not be minted.
pub open spec fn local_login_outcome(
    email: Seq<char>,
    password: Seq<char>,
    id: Seq<char>,
    stamp: Seq<char>,
    minted: Result<Seq<char>, Seq<char>>,
) -> Result<(Seq<char>, User), Seq<char>> {
    if email.len() == 0 || password.len() == 0 {
        Err("Invalid email or password"@)
    } else {
        match minted {
            Err(message) => Err(message),
            Ok(token) => Ok((token, issued_user(id, email, "user"@, stamp))),
        }
    }
}

/// What a registration on the service's own account comes to, given the
/// verdict on the email's form, the fresh id, the time and what minting
/// the token came to.
pub open spec fn local_register_outcome(
    email: Seq<char>,
    login: Seq<char>,
    password: Seq<char>,
    email_ok: bool,
    id: Seq<char>,
    stamp: Seq<char>,
    minted: Result<Seq<char>, Seq<char>>,
) -> Result<(Seq<char>, User), Seq<char>> {
    match register_checked_with(email, login, password, email_ok) {
        Err(failure) => Err(failure.message()),
        Ok(()) => match minted {
            Err(message) => Err(message),
            Ok(token) => Ok((token, issued_user(id, email, login, stamp))),
        },
    }
}

/// The model of what the service issues, or of why it does not.
pub open spec fn issued_view(
    r: Result<LocalSession, String>,
) -> Result<(Seq<char>, User), Seq<char>> {
    match r {
        Ok(s) => Ok((s.session_token@, s.user@)),
        Err(message) => Err(message@),
    }
}

/// The user that is issued.
fn issue_user(id: String, email: &str, login: &str, stamp: &str) -> (user: UserView)
    ensures
        user@ == issued_user(id@, email@, login@, stamp@),
{
    UserView {
        id,
        email: email.to_owned(),
        login: login.to_owned(),
        created_at: stamp.to_owned(),
        updated_at: stamp.to_owned(),
    }
}

/// A login on the service's own account, given the fresh id, the time
/// and what minting the token came to.
pub fn local_login_with(
    email: &str,
    password: &str,
    id: String,
    stamp: &str,
    minted: Result<String, String>,
) -> (r: Result<LocalSession, String>)
    ensures
        issued_view(r) == local_login_outcome(
            email@,
            password@,
            id@,
            stamp@,
            minted_view(minted),
        ),
{
    if email.is_empty() || password.is_empty() {
        return Err("Invalid email or password".to_owned());
    }
    match minted {
        Err(message) => Err(message),
        Ok(token) => Ok(
            LocalSession { session_token: token, user: issue_user(id, email, "user", stamp) },
        ),
    }
}

/// A login on the service's own account. The id is fresh and the time is
/// the clock's; whatever they are, the result is that of
/// `local_login_outcome` for some id of the right length, some time and
/// the token minted at some second.
pub fn local_login(
    email: &str,
    password: &str,
    jwt_secret: &str,
) -> (r: Result<LocalSession, String>)
    ensures
        exists|id: Seq<char>, stamp: Seq<char>, now: i64|
            id.len() == ID_CHARS && clock_tells(now) && issued_view(r)
                == #[trigger] local_login_outcome(
                email@,
                password@,
                id,
                stamp,
                token_signed(id, email@, jwt_secret@, now),
            ),
{
    let id = fresh_id();
    let (now, stamp) = clock();
    let minted = JwtService::generate_token_at(id.as_str(), email, jwt_secret, now);
    let ghost id_text = id@;
    proof {
        lemma_token_at_clock(id_text, email@, jwt_secret@, now);
    }
    let r = local_login_with(email, password, id, stamp.as_str(), minted);
    assert(id_text.len() == ID_CHARS && clock_tells(now) && issued_view(r) == local_login_outcome(
        email@,
        password@,
        id_text,
        stamp@,
        token_signed(id_text, email@, jwt_secret@, now),
    ));
    r
}

/// A registration on the service's own account, given the verdict on the
/// email's form, the fresh id, the time and what minting the token came
/// to.
pub fn local_register_with(
    input: &RegisterInput,
    email_ok: bool,
    id: String,
    stamp: &str,
    minted: Result<String, String>,
) -> (r: Result<LocalSession, String>)
    ensures
        issued_view(r) == local_register_outcome(
            input@.email,
            input@.username,
            input@.password,
            email_ok,
            id@,
            stamp@,
            minted_view(minted),
        ),
{
    match check_register_with(
        input.email.as_str(),
        input.username.as_str(),
        input.password.as_str(),
        email_ok,
    ) {
        Err(failure) => Err(failure.message()),
        Ok(()) => match minted {
            Err(message) => Err(message),
            Ok(token) => Ok(
                LocalSession {
                    session_token: token,
                    user: issue_user(id, input.email.as_str(), input.username.as_str(), stamp),
                },
            ),
        },
    }
}

/// A registration on the service's own account. Whatever the id, the
/// time and the clock are, the result is that of `local_register_outcome`
/// for some id of the right length, some time and the token minted at
/// some second.
pub fn local_register(input: &RegisterInput, jwt_secret: &str) -> (r: Result<LocalSession, String>)
    ensures
        exists|id: Seq<char>, stamp: Seq<char>, now: i64|
            id.len() == ID_CHARS && clock_tells(now) && issued_view(r)
                == #[trigger] local_register_outcome(
                input@.email,
                input@.username,
                input@.password,
                email_accepted(input@.email),
                id,
                stamp,
                token_signed(id, input@.email, jwt_secret@, now),
            ),
{
    let email_ok = email_form(input.email.as_str());
    let id = fresh_id();
    let (now, stamp) = clock();
    let minted = JwtService::generate_token_at(
        id.as_str(),
        input.email.as_str(),
        jwt_secret,
        now,
    );
    let ghost id_text = id@;
    proof {
        lemma_token_at_clock(id_text, input@.email, jwt_secret@, now);
    }
    let r = local_register_with(input, email_ok, id, stamp.as_str(), minted);
    assert(id_text.len() == ID_CHARS && clock_tells(now) && issued_view(r)
        == local_register_outcome(
        input@.email,
        input@.username,
        input@.password,
        email_accepted(input@.email),
        id_text,
        stamp@,
        token_signed(id_text, input@.email, jwt_secret@, now),
    ));
    r
}

} // verus!
