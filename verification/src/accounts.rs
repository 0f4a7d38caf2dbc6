//! Registration and login as the account API offers them: inputs with a
//! username, and answers that show the user.

use vstd::prelude::*;
use crate::client::{FlowMode, KratosClient};
use crate::error::{AuthError, Failure};
use crate::json::{entry_models, lemma_object_view, Json, JsonValue, Member};
use crate::kratos::{account_of, Account, KratosIdentity};
use crate::orchestrator::{
    flow_started,
    Advance,
    Attempt,
    Credentials,
    FlowOutcome,
    FlowRun,
    Outcome,
    Progress,
    Secret,
};
use crate::text::{copy_texts, opt_text, texts};
use crate::usecases::{login_started, LoggingIn, LoginRun};
use crate::validate::{
    check_register_with,
    checked_view,
    email_accepted,
    email_form,
    register_checked_with,
};

verus! {

/// What a registration takes.
#[derive(Debug, PartialEq)]
pub struct RegisterInput {
    pub email: String,
    pub username: String,
    pub password: String,
    pub geo_location: Option<String>,
}

/// The model of a [`RegisterInput`].
pub struct Registration {
    pub email: Seq<char>,
    pub username: Seq<char>,
    pub password: Seq<char>,
    pub geo_location: Option<Seq<char>>,
}

impl View for RegisterInput {
    type V = Registration;

    open spec fn view(&self) -> Registration {
        Registration {
            email: self.email@,
            username: self.username@,
            password: self.password@,
            geo_location: opt_text(self.geo_location),
        }
    }
}

/// What a login takes: an email or a username, and the password.
#[derive(Debug, PartialEq)]
pub struct LoginInput {
    pub email: Option<String>,
    pub username: Option<String>,
    pub password: String,
}

/// The model of a [`LoginInput`].
pub struct LoginForm {
    pub email: Option<Seq<char>>,
    pub username: Option<Seq<char>>,
    pub password: Seq<char>,
}

impl View for LoginInput {
    type V = LoginForm;

    open spec fn view(&self) -> LoginForm {
        LoginForm {
            email: opt_text(self.email),
            username: opt_text(self.username),
            password: self.password@,
        }
    }
}

/// A user as the account API shows it.
#[derive(Debug, PartialEq)]
pub struct UserView {
    pub id: String,
    pub email: String,
    pub login: String,
    pub created_at: String,
    pub updated_at: String,
}

/// The model of a [`UserView`].
pub struct User {
    pub id: Seq<char>,
    pub email: Seq<char>,
    pub login: Seq<char>,
    pub created_at: Seq<char>,
    pub updated_at: Seq<char>,
}

impl View for UserView {
    type V = User;

    open spec fn view(&self) -> User {
        User {
            id: self.id@,
            email: self.email@,
            login: self.login@,
            created_at: self.created_at@,
            updated_at: self.updated_at@,
        }
    }
}

/// What the account API answers with.
#[derive(Debug, PartialEq)]
pub struct AuthResponse {
    pub user: UserView,
}

impl View for AuthResponse {
    type V = User;

    open spec fn view(&self) -> User {
        self.user@
    }
}

/// The user that an identity is shown as: its username is the login.
pub open spec fn user_of(identity: Account) -> User {
    User {
        id: identity.id,
        email: identity.traits.email,
        login: identity.traits.username,
        created_at: identity.created_at,
        updated_at: identity.updated_at,
    }
}

impl From<KratosIdentity> for UserView {
    /// The user that an identity is shown as.
    fn from(identity: KratosIdentity) -> (out: UserView) {
        UserView {
            id: identity.id,
            email: identity.traits.email,
            login: identity.traits.username,
            created_at: identity.created_at,
            updated_at: identity.updated_at,
        }
    }
}

impl vstd::std_specs::convert::FromSpecImpl<KratosIdentity> for UserView {
    open spec fn obeys_from_spec() -> bool {
        true
    }

    open spec fn from_spec(identity: KratosIdentity) -> UserView {
        UserView {
            id: identity.id,
            email: identity.traits.email,
            login: identity.traits.username,
            created_at: identity.created_at,
            updated_at: identity.updated_at,
        }
    }
}

impl AuthResponse {
    /// The answer that shows `identity`.
    pub fn from_kratos_identity(identity: KratosIdentity) -> (out: AuthResponse)
        ensures
            out@ == user_of(identity@),
    {
        AuthResponse { user: UserView::from(identity) }
    }

    /// The answer that shows `identity`, and beside it the token, which
    /// travels in a cookie and not in the answer.
    pub fn with_token(identity: KratosIdentity, token: String) -> (out: (AuthResponse, String))
        ensures
            out.0@ == user_of(identity@),
            out.1 == token,
    {
        (AuthResponse::from_kratos_identity(identity), token)
    }
}

/// What an outcome is answered with: the user that its identity is shown
/// as, and the cookies to set on the client.
pub open spec fn answered(outcome: Outcome) -> Result<(User, Seq<Seq<char>>), Failure> {
    match account_of(outcome.identity) {
        Err(failure) => Err(failure),
        Ok(identity) => Ok((user_of(identity), outcome.cookies)),
    }
}

/// What an outcome is answered with.
pub fn answer(outcome: &FlowOutcome) -> (r: Result<(AuthResponse, Vec<String>), AuthError>)
    ensures
        match r {
            Ok((response, cookies)) => answered(outcome@) == Ok::<(User, Seq<Seq<char>>), Failure>(
                (response@, texts(cookies@)),
            ),
            Err(e) => answered(outcome@) == Err::<(User, Seq<Seq<char>>), Failure>(e@),
        },
{
    match KratosIdentity::from_identity(&outcome.identity) {
        Err(failure) => Err(failure),
        Ok(identity) => Ok(
            (AuthResponse::from_kratos_identity(identity), copy_texts(&outcome.cookies)),
        ),
    }
}

/// What the check of a login form comes to: an email or a username must
/// be given, the password may not be empty, and neither may an email or a
/// username that is given.
pub open spec fn login_form_checked(form: LoginForm) -> Result<(), Failure> {
    if form.email is None && form.username is None {
        Err(Failure::ValidationFailure("identifier"@, "Email or username required"@))
    } else if form.password.len() == 0 {
        Err(Failure::ValidationFailure("password"@, "Password cannot be empty"@))
    } else if form.email matches Some(email) && email.len() == 0 {
        Err(Failure::ValidationFailure("email"@, "Email cannot be empty"@))
    } else if form.username matches Some(username) && username.len() == 0 {
        Err(Failure::ValidationFailure("username"@, "Username cannot be empty"@))
    } else {
        Ok(())
    }
}

/// What a login form identifies the user by: the email where one is
/// given, else the username.
pub open spec fn identifier_of(form: LoginForm) -> Option<Seq<char>> {
    match form.email {
        Some(email) => Some(email),
        None => form.username,
    }
}

/// How a login by form begins: a form that does not pass the check ends
/// it before anything is sent.
pub open spec fn form_login_executed(
    public: Seq<char>,
    form: LoginForm,
    cookie: Option<Seq<char>>,
) -> Advance<LoggingIn, Outcome> {
    match login_form_checked(form) {
        Err(failure) => Advance::Done(Err(failure)),
        Ok(()) => match identifier_of(form) {
            None => Advance::Done(
                Err(Failure::ValidationFailure("identifier"@, "Email or username required"@)),
            ),
            Some(identifier) => login_started(
                public,
                FlowMode::Browser,
                identifier,
                form.password,
                cookie,
            ),
        },
    }
}

/// Logging in by form.
pub struct LoginUseCase;

impl LoginUseCase {
    /// The check of a login form.
    pub fn validate_input(input: &LoginInput) -> (r: Result<(), AuthError>)
        ensures
            checked_view(r) == login_form_checked(input@),
    {
        if input.email.is_none() && input.username.is_none() {
            return Err(AuthError::invalid("identifier", "Email or username required"));
        }
        if input.password.as_str().is_empty() {
            return Err(AuthError::invalid("password", "Password cannot be empty"));
        }
        match &input.email {
            Some(email) => {
                if email.as_str().is_empty() {
                    return Err(AuthError::invalid("email", "Email cannot be empty"));
                }
            },
            None => {},
        }
        match &input.username {
            Some(username) => {
                if username.as_str().is_empty() {
                    return Err(AuthError::invalid("username", "Username cannot be empty"));
                }
            },
            None => {},
        }
        Ok(())
    }

    /// Begins the login, on behalf of a caller who sent `cookie`.
    pub fn execute(
        input: LoginInput,
        kratos_client: &KratosClient,
        cookie: Option<String>,
    ) -> (progress: Progress<LoginRun, FlowOutcome>)
        ensures
            progress@ == form_login_executed(kratos_client@.public, input@, opt_text(cookie)),
    {
        match LoginUseCase::validate_input(&input) {
            Err(failure) => Progress::Done(Err(failure)),
            Ok(()) => {
                let LoginInput { email, username, password } = input;
                let identifier = match email {
                    Some(email) => Some(email),
                    None => username,
                };
                match identifier {
                    None => Progress::Done(
                        Err(AuthError::invalid("identifier", "Email or username required")),
                    ),
                    Some(identifier) => LoginRun::start(
                        kratos_client,
                        FlowMode::Browser,
                        identifier,
                        password,
                        cookie,
                    ),
                }
            },
        }
    }
}

/// The free-form traits of a registration by form: the username, and the
/// location where one is given.
pub open spec fn form_traits(form: Registration) -> JsonValue {
    match form.geo_location {
        Some(place) => JsonValue::Object(
            seq![
                ("username"@, JsonValue::Text(form.username)),
                ("geo_location"@, JsonValue::Text(place)),
            ],
        ),
        None => JsonValue::Object(seq![("username"@, JsonValue::Text(form.username))]),
    }
}

/// How a registration by form begins, given the verdict on the email's
/// form: a form that does not pass the check ends it before anything is
/// sent.
pub open spec fn form_register_executed(
    public: Seq<char>,
    form: Registration,
    cookie: Option<Seq<char>>,
    email_ok: bool,
) -> Advance<Attempt, Outcome> {
    match register_checked_with(form.email, form.username, form.password, email_ok) {
        Err(failure) => Advance::Done(Err(failure)),
        Ok(()) => flow_started(
            public,
            FlowMode::Browser,
            Secret::Registration {
                email: form.email,
                password: form.password,
                traits: form_traits(form),
            },
            cookie,
        ),
    }
}

/// Registering by form.
pub struct RegisterUseCase;

impl RegisterUseCase {
    /// The check of a registration form, given the verdict on the email's
    /// form.
    pub fn validate_input_with(input: &RegisterInput, email_ok: bool) -> (r: Result<(), AuthError>)
        ensures
            checked_view(r) == register_checked_with(
                input@.email,
                input@.username,
                input@.password,
                email_ok,
            ),
    {
        check_register_with(
            input.email.as_str(),
            input.username.as_str(),
            input.password.as_str(),
            email_ok,
        )
    }

    /// The check of a registration form.
    pub fn validate_input(input: &RegisterInput) -> (r: Result<(), AuthError>)
        ensures
            checked_view(r) == register_checked_with(
                input@.email,
                input@.username,
                input@.password,
                email_accepted(input@.email),
            ),
    {
        RegisterUseCase::validate_input_with(input, email_form(input.email.as_str()))
    }

    /// Begins the registration, given the verdict on the email's form.
    pub fn execute_with(
        input: RegisterInput,
        kratos_client: &KratosClient,
        cookie: Option<String>,
        email_ok: bool,
    ) -> (progress: Progress<FlowRun, FlowOutcome>)
        ensures
            progress@ == form_register_executed(
                kratos_client@.public,
                input@,
                opt_text(cookie),
                email_ok,
            ),
    {
        match RegisterUseCase::validate_input_with(&input, email_ok) {
            Err(failure) => Progress::Done(Err(failure)),
            Ok(()) => {
                let RegisterInput { email, username, password, geo_location } = input;
                let mut entries: Vec<Member> = Vec::new();
                entries.push(Member { key: "username".to_owned(), value: Json::Text(username) });
                match geo_location {
                    Some(place) => {
                        entries.push(
                            Member { key: "geo_location".to_owned(), value: Json::Text(place) },
                        );
                    },
                    None => {},
                }
                proof {
                    lemma_object_view(entries);
                    assert(entry_models(entries@) =~= form_traits(input@)->Object_0);
                }
                FlowRun::start(
                    kratos_client,
                    FlowMode::Browser,
                    Credentials::Registration { email, password, traits: Json::Object(entries) },
                    cookie,
                )
            },
        }
    }

    /// Begins the registration, on behalf of a caller who sent `cookie`.
    pub fn execute(
        input: RegisterInput,
        kratos_client: &KratosClient,
        cookie: Option<String>,
    ) -> (progress: Progress<FlowRun, FlowOutcome>)
        ensures
            progress@ == form_register_executed(
                kratos_client@.public,
                input@,
                opt_text(cookie),
                email_accepted(input@.email),
            ),
    {
        let email_ok = email_form(input.email.as_str());
        RegisterUseCase::execute_with(input, kratos_client, cookie, email_ok)
    }
}

} // verus!
