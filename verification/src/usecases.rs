//! The four operations: signing up, logging in, logging out and looking
//! the session up. Each checks its inputs before anything is sent.

use vstd::prelude::*;
use crate::client::{FlowMode, KratosClient};
use crate::error::{AuthError, Failure};
use crate::http::{Answer, Reply};
use crate::json::{Json, JsonValue};
use crate::lookup::{
    logout_request,
    whoami_outcome,
    whoami_request,
    Cookies,
    Evidence,
    Leaving,
    LogoutRun,
    SessionProof,
};
use crate::orchestrator::{
    flow_resumed,
    flow_started,
    Advance,
    Attempt,
    Credentials,
    FlowOutcome,
    FlowRun,
    Outcome,
    Progress,
    Secret,
};
use crate::session::{Identity, IdentityRecord, Session, SessionRecord};
use crate::text::{copy_opt, opt_text, texts};
use crate::validate::{
    check_login,
    check_signup_with,
    check_token,
    email_accepted,
    login_checked,
    signup_checked_with,
    token_checked,
};

verus! {

/// What a registration hands back.
#[derive(Debug, PartialEq)]
pub struct SignupResponse {
    pub identity: Identity,
    pub session: Option<Session>,
    pub session_token: Option<String>,
    /// The cookies to set on the client.
    pub cookies: Vec<String>,
}

/// The model of a [`SignupResponse`].
pub struct SignedUp {
    pub identity: IdentityRecord,
    pub session: Option<SessionRecord>,
    pub session_token: Option<Seq<char>>,
    pub cookies: Seq<Seq<char>>,
}

impl View for SignupResponse {
    type V = SignedUp;

    open spec fn view(&self) -> SignedUp {
        SignedUp {
            identity: self.identity@,
            session: match self.session {
                Some(s) => Some(s@),
                None => None,
            },
            session_token: opt_text(self.session_token),
            cookies: texts(self.cookies@),
        }
    }
}

/// What a login hands back.
#[derive(Debug, PartialEq)]
pub struct LoginResponse {
    pub session: Session,
    pub session_token: Option<String>,
    /// The cookies to set on the client.
    pub cookies: Vec<String>,
}

/// The model of a [`LoginResponse`].
pub struct LoggedIn {
    pub session: SessionRecord,
    pub session_token: Option<Seq<char>>,
    pub cookies: Seq<Seq<char>>,
}

impl View for LoginResponse {
    type V = LoggedIn;

    open spec fn view(&self) -> LoggedIn {
        LoggedIn {
            session: self.session@,
            session_token: opt_text(self.session_token),
            cookies: texts(self.cookies@),
        }
    }
}

/// What a registration's outcome is handed back as.
pub open spec fn signed_up(outcome: Outcome) -> SignedUp {
    SignedUp {
        identity: outcome.identity,
        session: outcome.session,
        session_token: match outcome.session {
            Some(s) => s.token,
            None => None,
        },
        cookies: outcome.cookies,
    }
}

/// What a login's outcome is handed back as. A login must end with a
/// session.
pub open spec fn logged_in(outcome: Outcome) -> Result<LoggedIn, Failure> {
    match outcome.session {
        None => Err(Failure::MissingField("session"@)),
        Some(s) => Ok(LoggedIn { session: s, session_token: s.token, cookies: outcome.cookies }),
    }
}

impl SignupResponse {
    /// What a registration's outcome is handed back as.
    pub fn from_outcome(outcome: FlowOutcome) -> (out: SignupResponse)
        ensures
            out@ == signed_up(outcome@),
    {
        let session_token = match &outcome.session {
            Some(s) => copy_opt(&s.token),
            None => None,
        };
        SignupResponse {
            identity: outcome.identity,
            session: outcome.session,
            session_token,
            cookies: outcome.cookies,
        }
    }
}

impl LoginResponse {
    /// What a login's outcome is handed back as.
    pub fn from_outcome(outcome: FlowOutcome) -> (r: Result<LoginResponse, AuthError>)
        ensures
            match r {
                Ok(l) => logged_in(outcome@) == Ok::<LoggedIn, Failure>(l@),
                Err(e) => logged_in(outcome@) == Err::<LoggedIn, Failure>(e@),
            },
    {
        match outcome.session {
            None => Err(AuthError::missing("session")),
            Some(session) => {
                let session_token = copy_opt(&session.token);
                Ok(LoginResponse { session, session_token, cookies: outcome.cookies })
            },
        }
    }
}

/// A registration to be made.
#[derive(Debug, PartialEq)]
pub struct Signup {
    email: String,
    password: String,
    traits: Json,
    cookie: Option<String>,
}

/// The model of a [`Signup`].
pub struct SignupInput {
    pub email: Seq<char>,
    pub password: Seq<char>,
    pub traits: JsonValue,
    pub cookie: Option<Seq<char>>,
}

impl View for Signup {
    type V = SignupInput;

    closed spec fn view(&self) -> SignupInput {
        SignupInput {
            email: self.email@,
            password: self.password@,
            traits: self.traits@,
            cookie: opt_text(self.cookie),
        }
    }
}

/// How a registration begins, given the verdict on the email's form:
/// inputs that do not pass the check end it before anything is sent.
pub open spec fn signup_executed(
    public: Seq<char>,
    input: SignupInput,
    email_ok: bool,
) -> Advance<Attempt, Outcome> {
    match signup_checked_with(input.email, input.password, email_ok) {
        Err(failure) => Advance::Done(Err(failure)),
        Ok(()) => flow_started(
            public,
            FlowMode::Api,
            Secret::Registration {
                email: input.email,
                password: input.password,
                traits: input.traits,
            },
            input.cookie,
        ),
    }
}

impl Signup {
    /// A registration of `email` with `password` and free-form `traits`,
    /// on behalf of a caller who sent `cookie`.
    pub fn new(
        email: String,
        password: String,
        traits: Json,
        cookie: Option<String>,
    ) -> (out: Signup)
        ensures
            out@ == (SignupInput {
                email: email@,
                password: password@,
                traits: traits@,
                cookie: opt_text(cookie),
            }),
    {
        Signup { email, password, traits, cookie }
    }

    /// Begins the registration, given the verdict on the email's form.
    pub fn execute_with(
        self,
        client: &KratosClient,
        email_ok: bool,
    ) -> (progress: Progress<FlowRun, FlowOutcome>)
        ensures
            progress@ == signup_executed(client@.public, self@, email_ok),
    {
        match check_signup_with(self.email.as_str(), self.password.as_str(), email_ok) {
            Err(failure) => Progress::Done(Err(failure)),
            Ok(()) => FlowRun::start(
                client,
                FlowMode::Api,
                Credentials::Registration {
                    email: self.email,
                    password: self.password,
                    traits: self.traits,
                },
                self.cookie,
            ),
        }
    }

    /// Begins the registration.
    pub fn execute(self, client: &KratosClient) -> (progress: Progress<FlowRun, FlowOutcome>)
        ensures
            progress@ == signup_executed(client@.public, self@, email_accepted(self@.email)),
    {
        let email_ok = crate::validate::email_form(self.email.as_str());
        self.execute_with(client, email_ok)
    }
}

/// A login that waits for an answer.
#[derive(Debug, PartialEq)]
pub enum LoginRun {
    /// The caller sent a cookie, and the provider was asked whether it
    /// proves a session.
    CheckingSession { mode: FlowMode, identifier: String, password: String, cookie: String },
    /// The login flow is under way.
    Flow(FlowRun),
}

/// The model of a [`LoginRun`].
pub enum LoggingIn {
    CheckingSession { mode: FlowMode, identifier: Seq<char>, password: Seq<char>, cookie: Seq<char> },
    Flow(Attempt),
}

impl View for LoginRun {
    type V = LoggingIn;

    open spec fn view(&self) -> LoggingIn {
        match self {
            LoginRun::CheckingSession { mode, identifier, password, cookie } => {
                LoggingIn::CheckingSession {
                    mode: *mode,
                    identifier: identifier@,
                    password: password@,
                    cookie: cookie@,
                }
            },
            LoginRun::Flow(run) => LoggingIn::Flow(run@),
        }
    }
}

/// The progress of a login flow as the progress of a login.
pub open spec fn as_login(progress: Advance<Attempt, Outcome>) -> Advance<LoggingIn, Outcome> {
    match progress {
        Advance::Send(run, request) => Advance::Send(LoggingIn::Flow(run), request),
        Advance::Done(result) => Advance::Done(result),
    }
}

/// The failure of a login by a caller who is logged in already.
pub open spec fn already_logged_in() -> Failure {
    Failure::ValidationFailure(
        "session"@,
        "Already logged in. Please logout first before logging in again."@,
    )
}

/// How a login begins. A caller who sent a cookie is looked up first; one
/// who sent none goes to the login flow at once.
pub open spec fn login_started(
    public: Seq<char>,
    mode: FlowMode,
    identifier: Seq<char>,
    password: Seq<char>,
    cookie: Option<Seq<char>>,
) -> Advance<LoggingIn, Outcome> {
    match cookie {
        Some(c) => Advance::Send(
            LoggingIn::CheckingSession {
                mode: mode,
                identifier: identifier,
                password: password,
                cookie: c,
            },
            whoami_request(public, Evidence::Cookie(c)),
        ),
        None => as_login(
            flow_started(
                public,
                mode,
                Secret::Login { identifier: identifier, password: password },
                None,
            ),
        ),
    }
}

/// How a login goes on once the caller's session is looked up. Where
/// the lookup found an active session the login ends there, and nothing
/// is fetched or submitted; where it found none, for whatever reason, the
/// login flow begins and carries the caller's cookie along.
pub open spec fn session_checked(
    public: Seq<char>,
    mode: FlowMode,
    identifier: Seq<char>,
    password: Seq<char>,
    cookie: Seq<char>,
    logged_in: bool,
) -> Advance<LoggingIn, Outcome> {
    if logged_in {
        Advance::Done(Err(already_logged_in()))
    } else {
        as_login(
            flow_started(
                public,
                mode,
                Secret::Login { identifier: identifier, password: password },
                Some(cookie),
            ),
        )
    }
}

/// How a login that waits for an answer goes on when the answer comes.
pub open spec fn login_resumed(
    public: Seq<char>,
    run: LoggingIn,
    answer: Answer,
) -> Advance<LoggingIn, Outcome> {
    match run {
        LoggingIn::CheckingSession { mode, identifier, password, cookie } => session_checked(
            public,
            mode,
            identifier,
            password,
            cookie,
            whoami_outcome(answer) is Ok,
        ),
        LoggingIn::Flow(attempt) => as_login(flow_resumed(public, attempt, answer)),
    }
}

/// The progress of a login flow as the progress of a login.
fn wrap_login(progress: Progress<FlowRun, FlowOutcome>) -> (out: Progress<LoginRun, FlowOutcome>)
    ensures
        out@ == as_login(progress@),
{
    match progress {
        Progress::Send(run, request) => Progress::Send(LoginRun::Flow(run), request),
        Progress::Done(result) => Progress::Done(result),
    }
}

impl LoginRun {
    /// Begins a login whose inputs have passed the check.
    pub fn start(
        client: &KratosClient,
        mode: FlowMode,
        identifier: String,
        password: String,
        cookie: Option<String>,
    ) -> (progress: Progress<LoginRun, FlowOutcome>)
        ensures
            progress@ == login_started(
                client@.public,
                mode,
                identifier@,
                password@,
                opt_text(cookie),
            ),
    {
        match cookie {
            Some(c) => {
                let request = client.get_session(&SessionProof::Cookie(c.clone()));
                Progress::Send(
                    LoginRun::CheckingSession { mode, identifier, password, cookie: c },
                    request,
                )
            },
            None => wrap_login(
                FlowRun::start(client, mode, Credentials::Login { identifier, password }, None),
            ),
        }
    }

    /// Goes on once the caller's session is looked up: `logged_in` says
    /// whether the lookup found an active session.
    pub fn session_checked(
        client: &KratosClient,
        mode: FlowMode,
        identifier: String,
        password: String,
        cookie: String,
        logged_in: bool,
    ) -> (progress: Progress<LoginRun, FlowOutcome>)
        ensures
            progress@ == session_checked(
                client@.public,
                mode,
                identifier@,
                password@,
                cookie@,
                logged_in,
            ),
    {
        if logged_in {
            Progress::Done(
                Err(
                    AuthError::invalid(
                        "session",
                        "Already logged in. Please logout first before logging in again.",
                    ),
                ),
            )
        } else {
            wrap_login(
                FlowRun::start(
                    client,
                    mode,
                    Credentials::Login { identifier, password },
                    Some(cookie),
                ),
            )
        }
    }

    /// Goes on when the answer to the request under way comes.
    pub fn resume(
        self,
        client: &KratosClient,
        reply: Reply,
    ) -> (progress: Progress<LoginRun, FlowOutcome>)
        ensures
            progress@ == login_resumed(client@.public, self@, reply@),
    {
        match self {
            LoginRun::CheckingSession { mode, identifier, password, cookie } => {
                let logged_in = client.session_found(reply).is_ok();
                LoginRun::session_checked(client, mode, identifier, password, cookie, logged_in)
            },
            LoginRun::Flow(run) => wrap_login(run.resume(client, reply)),
        }
    }
}

/// A login to be made.
#[derive(Debug, PartialEq)]
pub struct Login {
    identifier: String,
    password: String,
    cookie: Option<String>,
}

/// The model of a [`Login`].
pub struct LoginAttempt {
    pub identifier: Seq<char>,
    pub password: Seq<char>,
    pub cookie: Option<Seq<char>>,
}

impl View for Login {
    type V = LoginAttempt;

    closed spec fn view(&self) -> LoginAttempt {
        LoginAttempt {
            identifier: self.identifier@,
            password: self.password@,
            cookie: opt_text(self.cookie),
        }
    }
}

/// How a login begins: inputs that do not pass the check end it before
/// anything is sent.
pub open spec fn login_executed(
    public: Seq<char>,
    input: LoginAttempt,
) -> Advance<LoggingIn, Outcome> {
    match login_checked(input.identifier, input.password) {
        Err(failure) => Advance::Done(Err(failure)),
        Ok(()) => login_started(
            public,
            FlowMode::Api,
            input.identifier,
            input.password,
            input.cookie,
        ),
    }
}

impl Login {
    /// A login of `identifier` with `password`, on behalf of a caller who
    /// sent `cookie`.
    pub fn new(identifier: String, password: String, cookie: Option<String>) -> (out: Login)
        ensures
            out@ == (LoginAttempt {
                identifier: identifier@,
                password: password@,
                cookie: opt_text(cookie),
            }),
    {
        Login { identifier, password, cookie }
    }

    /// Begins the login.
    pub fn execute(self, client: &KratosClient) -> (progress: Progress<LoginRun, FlowOutcome>)
        ensures
            progress@ == login_executed(client@.public, self@),
    {
        match check_login(self.identifier.as_str(), self.password.as_str()) {
            Err(failure) => Progress::Done(Err(failure)),
            Ok(()) => LoginRun::start(
                client,
                FlowMode::Api,
                self.identifier,
                self.password,
                self.cookie,
            ),
        }
    }
}

/// A logout to be made.
#[derive(Debug, PartialEq)]
pub struct Logout {
    token: String,
}

impl View for Logout {
    type V = Seq<char>;

    closed spec fn view(&self) -> Seq<char> {
        self.token@
    }
}

/// How a logout begins: an empty token ends it before anything is sent.
pub open spec fn logout_executed(
    public: Seq<char>,
    token: Seq<char>,
) -> Advance<Leaving, Seq<Seq<char>>> {
    match token_checked(token) {
        Err(failure) => Advance::Done(Err(failure)),
        Ok(()) => Advance::Send(
            Leaving::AwaitingUrl(Evidence::Token(token)),
            logout_request(public, Evidence::Token(token)),
        ),
    }
}

impl Logout {
    /// A logout of the session that `token` proves.
    pub fn new(token: String) -> (out: Logout)
        ensures
            out@ == token@,
    {
        Logout { token }
    }

    /// Begins the logout.
    pub fn execute(self, client: &KratosClient) -> (progress: Progress<LogoutRun, Cookies>)
        ensures
            progress@ == logout_executed(client@.public, self@),
    {
        match check_token(self.token.as_str()) {
            Err(failure) => Progress::Done(Err(failure)),
            Ok(()) => client.handle_logout(SessionProof::Token(self.token)),
        }
    }
}

/// A session lookup to be made.
#[derive(Debug, PartialEq)]
pub struct GetSession {
    token: String,
}

impl View for GetSession {
    type V = Seq<char>;

    closed spec fn view(&self) -> Seq<char> {
        self.token@
    }
}

/// A session lookup that waits for its answer.
#[derive(Debug, PartialEq)]
pub struct SessionRun;

impl View for SessionRun {
    type V = ();

    open spec fn view(&self) -> () {
        ()
    }
}

/// How a session lookup begins: an empty token ends it before anything
/// is sent.
pub open spec fn get_session_executed(
    public: Seq<char>,
    token: Seq<char>,
) -> Advance<(), SessionRecord> {
    match token_checked(token) {
        Err(failure) => Advance::Done(Err(failure)),
        Ok(()) => Advance::Send((), whoami_request(public, Evidence::Token(token))),
    }
}

impl GetSession {
    /// A lookup of the session that `token` proves.
    pub fn new(token: String) -> (out: GetSession)
        ensures
            out@ == token@,
    {
        GetSession { token }
    }

    /// Begins the lookup.
    pub fn execute(self, client: &KratosClient) -> (progress: Progress<SessionRun, Session>)
        ensures
            progress@ == get_session_executed(client@.public, self@),
    {
        match check_token(self.token.as_str()) {
            Err(failure) => Progress::Done(Err(failure)),
            Ok(()) => Progress::Send(
                SessionRun,
                client.get_session(&SessionProof::Token(self.token)),
            ),
        }
    }
}

impl SessionRun {
    /// Ends the lookup when the answer comes.
    pub fn resume(
        self,
        client: &KratosClient,
        reply: Reply,
    ) -> (progress: Progress<SessionRun, Session>)
        ensures
            progress@ == Advance::<(), SessionRecord>::Done(whoami_outcome(reply@)),
    {
        match client.session_found(reply) {
            Ok(session) => Progress::Done(Ok(session)),
            Err(failure) => Progress::Done(Err(failure)),
        }
    }
}

} // verus!
