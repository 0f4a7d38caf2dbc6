//! The checks that inputs pass before anything is sent.

use vstd::prelude::*;
use crate::error::{AuthError, Failure};

verus! {

/// Whether `validator` takes `email` for an email address: the verdict of
/// its `ValidateEmail::validate_email` on the text.
pub uninterp spec fn email_accepted(email: Seq<char>) -> bool;

/// The fewest characters of a password.
pub const MIN_PASSWORD_CHARS: u64 = 8;

/// The fewest characters of a username.
pub const MIN_USERNAME_CHARS: u64 = 3;

/// The most characters of a username.
pub const MAX_USERNAME_CHARS: u64 = 20;

/// Whether a text has at least `min` and at most `max` characters, each
/// bound counting only where it is given.
pub open spec fn length_within(text: Seq<char>, min: Option<u64>, max: Option<u64>) -> bool {
    &&& min matches Some(least) ==> least <= text.len()
    &&& max matches Some(most) ==> text.len() <= most
}

/// `validator::ValidateEmail::validate_email` on a text: the verdict that
/// `email_accepted` names.
#[verifier::external_body]
fn email_is_valid(email: &str) -> (ok: bool)
    ensures
        ok == email_accepted(email@),
{
    validator::ValidateEmail::validate_email(&email)
}

/// `validator::ValidateLength::validate_length` on a text, without its
/// `equal` bound: the text's number of characters is compared with each
/// bound that is given.
#[verifier::external_body]
fn length_is_within(text: &str, min: Option<u64>, max: Option<u64>) -> (ok: bool)
    ensures
        ok == length_within(text@, min, max),
{
    validator::ValidateLength::validate_length(&text, min, max, None)
}

/// What the check of a registration's inputs comes to: the email must not
/// be empty and must be an email address, and the password must have at
/// least eight characters.
pub open spec fn signup_checked(email: Seq<char>, password: Seq<char>) -> Result<(), Failure> {
    signup_checked_with(email, password, email_accepted(email))
}

/// What the check of a registration's inputs comes to, given the verdict
/// on the email's form.
pub open spec fn signup_checked_with(
    email: Seq<char>,
    password: Seq<char>,
    email_ok: bool,
) -> Result<(), Failure> {
    if email.len() == 0 {
        Err(Failure::ValidationFailure("email"@, "Email is required"@))
    } else if !email_ok {
        Err(Failure::ValidationFailure("email"@, "Email is not valid"@))
    } else if password.len() < MIN_PASSWORD_CHARS {
        Err(Failure::ValidationFailure("password"@, "Password must be at least 8 characters"@))
    } else {
        Ok(())
    }
}

/// What the check of a registration's inputs with a username comes to:
/// the email must be an email address, the username must have three to
/// twenty characters, and the password at least eight.
pub open spec fn register_checked(
    email: Seq<char>,
    username: Seq<char>,
    password: Seq<char>,
) -> Result<(), Failure> {
    register_checked_with(email, username, password, email_accepted(email))
}

/// What the check of a registration's inputs with a username comes to,
/// given the verdict on the email's form.
pub open spec fn register_checked_with(
    email: Seq<char>,
    username: Seq<char>,
    password: Seq<char>,
    email_ok: bool,
) -> Result<(), Failure> {
    if !email_ok {
        Err(Failure::ValidationFailure("email"@, "Email is not valid"@))
    } else if !(MIN_USERNAME_CHARS <= username.len() <= MAX_USERNAME_CHARS) {
        Err(
            Failure::ValidationFailure(
                "username"@,
                "Username must be between 3 and 20 characters"@,
            ),
        )
    } else if password.len() < MIN_PASSWORD_CHARS {
        Err(Failure::ValidationFailure("password"@, "Password must be at least 8 characters"@))
    } else {
        Ok(())
    }
}

/// What the check of a login's inputs comes to: neither the identifier
/// nor the password may be empty.
pub open spec fn login_checked(identifier: Seq<char>, password: Seq<char>) -> Result<(), Failure> {
    if identifier.len() == 0 {
        Err(Failure::ValidationFailure("identifier"@, "Identifier is required"@))
    } else if password.len() == 0 {
        Err(Failure::ValidationFailure("password"@, "Password is required"@))
    } else {
        Ok(())
    }
}

/// What the check of a session token comes to: it may not be empty.
pub open spec fn token_checked(token: Seq<char>) -> Result<(), Failure> {
    if token.len() == 0 {
        Err(Failure::ValidationFailure("token"@, "Session token is required"@))
    } else {
        Ok(())
    }
}

/// The model of a check's result.
pub open spec fn checked_view(r: Result<(), AuthError>) -> Result<(), Failure> {
    match r {
        Ok(()) => Ok(()),
        Err(e) => Err(e@),
    }
}

/// Whether `validator` takes `email` for an email address.
pub fn email_form(email: &str) -> (ok: bool)
    ensures
        ok == email_accepted(email@),
{
    email_is_valid(email)
}

/// Whether a password has the fewest characters or more.
pub fn password_long_enough(password: &str) -> (ok: bool)
    ensures
        ok == (password@.len() >= MIN_PASSWORD_CHARS),
{
    length_is_within(password, Some(MIN_PASSWORD_CHARS), None)
}

/// Whether a username has three to twenty characters.
pub fn username_fits(username: &str) -> (ok: bool)
    ensures
        ok == (MIN_USERNAME_CHARS <= username@.len() <= MAX_USERNAME_CHARS),
{
    length_is_within(username, Some(MIN_USERNAME_CHARS), Some(MAX_USERNAME_CHARS))
}

/// The check of a registration's inputs, given the verdict on the email's
/// form.
pub fn check_signup_with(email: &str, password: &str, email_ok: bool) -> (r: Result<(), AuthError>)
    ensures
        checked_view(r) == signup_checked_with(email@, password@, email_ok),
{
    if email.is_empty() {
        Err(AuthError::invalid("email", "Email is required"))
    } else if !email_ok {
        Err(AuthError::invalid("email", "Email is not valid"))
    } else if !password_long_enough(password) {
        Err(AuthError::invalid("password", "Password must be at least 8 characters"))
    } else {
        Ok(())
    }
}

/// The check of a registration's inputs.
pub fn check_signup(email: &str, password: &str) -> (r: Result<(), AuthError>)
    ensures
        checked_view(r) == signup_checked(email@, password@),
{
    check_signup_with(email, password, email_is_valid(email))
}

/// The check of a registration's inputs with a username, given the
/// verdict on the email's form.
pub fn check_register_with(
    email: &str,
    username: &str,
    password: &str,
    email_ok: bool,
) -> (r: Result<(), AuthError>)
    ensures
        checked_view(r) == register_checked_with(email@, username@, password@, email_ok),
{
    if !email_ok {
        Err(AuthError::invalid("email", "Email is not valid"))
    } else if !username_fits(username) {
        Err(AuthError::invalid("username", "Username must be between 3 and 20 characters"))
    } else if !password_long_enough(password) {
        Err(AuthError::invalid("password", "Password must be at least 8 characters"))
    } else {
        Ok(())
    }
}

/// The check of a registration's inputs with a username.
pub fn check_register(email: &str, username: &str, password: &str) -> (r: Result<(), AuthError>)
    ensures
        checked_view(r) == register_checked(email@, username@, password@),
{
    check_register_with(email, username, password, email_is_valid(email))
}

/// The check of a login's inputs.
pub fn check_login(identifier: &str, password: &str) -> (r: Result<(), AuthError>)
    ensures
        checked_view(r) == login_checked(identifier@, password@),
{
    if identifier.is_empty() {
        Err(AuthError::invalid("identifier", "Identifier is required"))
    } else if password.is_empty() {
        Err(AuthError::invalid("password", "Password is required"))
    } else {
        Ok(())
    }
}

/// The check of a session token.
pub fn check_token(token: &str) -> (r: Result<(), AuthError>)
    ensures
        checked_view(r) == token_checked(token@),
{
    if token.is_empty() {
        Err(AuthError::invalid("token", "Session token is required"))
    } else {
        Ok(())
    }
}

} // verus!
