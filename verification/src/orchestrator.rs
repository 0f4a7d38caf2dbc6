//! One attempt at a registration or a login: fetch the flow, submit the
//! credentials against it, read the identity and the session out of the
//! answer. Each attempt is fresh; nothing is kept between attempts.

use vstd::prelude::*;
use crate::client::{FlowMode, FlowType, KratosClient};
use crate::cookies::initial_cookies;
use crate::error::{AuthError, Failure};
use crate::flow::{
    fetch_outcome,
    fetch_request,
    fetched_view,
    flow_of,
    flow_read_outcome,
    FetchOutcome,
    FetchStep,
    FetchedFlow,
    FlowResult,
};
use crate::http::{Answer, HttpRequest, Reply, Request};
use crate::json::{Json, JsonValue};
use crate::session::{extract, extracted, Identity, IdentityRecord, Session, SessionRecord};
use crate::submit::{
    build_login_body,
    build_registration_body,
    login_body,
    registration_body,
    submit_outcome,
    submit_request,
};
use crate::text::{opt_text, texts};

verus! {

/// What an attempt submits.
#[derive(Debug, PartialEq)]
pub enum Credentials {
    /// A registration: the email, the password, and free-form traits.
    Registration { email: String, password: String, traits: Json },
    /// A login: the identifier (an email or a username) and the password.
    Login { identifier: String, password: String },
}

/// The model of [`Credentials`].
pub enum Secret {
    Registration { email: Seq<char>, password: Seq<char>, traits: JsonValue },
    Login { identifier: Seq<char>, password: Seq<char> },
}

impl View for Credentials {
    type V = Secret;

    open spec fn view(&self) -> Secret {
        match self {
            Credentials::Registration { email, password, traits } => Secret::Registration {
                email: email@,
                password: password@,
                traits: traits@,
            },
            Credentials::Login { identifier, password } => Secret::Login {
                identifier: identifier@,
                password: password@,
            },
        }
    }
}

impl Secret {
    /// The kind of flow that takes these credentials.
    pub open spec fn flow_type(self) -> FlowType {
        match self {
            Secret::Registration { .. } => FlowType::Registration,
            Secret::Login { .. } => FlowType::Login,
        }
    }

    /// The body that submits these credentials with the given anti-forgery
    /// token.
    pub open spec fn body(self, csrf_token: Seq<char>) -> JsonValue {
        match self {
            Secret::Registration { email, password, traits } => registration_body(
                email,
                password,
                csrf_token,
                traits,
            ),
            Secret::Login { identifier, password } => login_body(identifier, password, csrf_token),
        }
    }
}

impl Credentials {
    /// The kind of flow that takes these credentials.
    pub fn flow_type(&self) -> (flow: FlowType)
        ensures
            flow == self@.flow_type(),
    {
        match self {
            Credentials::Registration { .. } => FlowType::Registration,
            Credentials::Login { .. } => FlowType::Login,
        }
    }

    /// The body that submits these credentials with the given anti-forgery
    /// token.
    pub fn body(&self, csrf_token: &str) -> (out: Json)
        ensures
            out@ == self@.body(csrf_token@),
    {
        match self {
            Credentials::Registration { email, password, traits } => build_registration_body(
                email.as_str(),
                password.as_str(),
                csrf_token,
                traits,
            ),
            Credentials::Login { identifier, password } => build_login_body(
                identifier.as_str(),
                password.as_str(),
                csrf_token,
            ),
        }
    }
}

/// Where an attempt stands while a request is under way.
#[derive(Clone, Copy, Debug, PartialEq, Eq, Structural)]
pub enum Stage {
    /// The request that initiates the flow was sent.
    AwaitingFlow,
    /// The provider redirected; the request that reads the flow back was sent.
    AwaitingFlowRead,
    /// The flow was fetched and the credentials were submitted.
    Submitted,
}

/// An attempt that waits for an answer.
#[derive(Debug, PartialEq)]
pub struct FlowRun {
    pub credentials: Credentials,
    /// The cookie that the caller supplied.
    pub cookie: Option<String>,
    pub stage: Stage,
    /// The cookies of the chain so far, the caller's first.
    pub cookies: Vec<String>,
}

/// The model of a [`FlowRun`].
pub struct Attempt {
    pub credentials: Secret,
    pub cookie: Option<Seq<char>>,
    pub stage: Stage,
    pub cookies: Seq<Seq<char>>,
}

impl View for FlowRun {
    type V = Attempt;

    open spec fn view(&self) -> Attempt {
        Attempt {
            credentials: self.credentials@,
            cookie: opt_text(self.cookie),
            stage: self.stage,
            cookies: texts(self.cookies@),
        }
    }
}

/// What a completed attempt hands back: the identity, the session if
/// there is one, and the cookies to set on the client, which are those
/// that the submission's answer set.
#[derive(Debug, PartialEq)]
pub struct FlowOutcome {
    pub identity: Identity,
    pub session: Option<Session>,
    pub cookies: Vec<String>,
}

/// The model of a [`FlowOutcome`].
pub struct Outcome {
    pub identity: IdentityRecord,
    pub session: Option<SessionRecord>,
    pub cookies: Seq<Seq<char>>,
}

impl View for FlowOutcome {
    type V = Outcome;

    open spec fn view(&self) -> Outcome {
        Outcome {
            identity: self.identity@,
            session: match self.session {
                Some(s) => Some(s@),
                None => None,
            },
            cookies: texts(self.cookies@),
        }
    }
}

impl Outcome {
    /// Whether the outcome authenticates the caller: only an active
    /// session does.
    pub open spec fn authenticated(self) -> bool {
        self.session matches Some(s) && s.authenticated()
    }
}

impl FlowOutcome {
    /// Whether the outcome authenticates the caller: only an active
    /// session does.
    pub fn is_authenticated(&self) -> (r: bool)
        ensures
            r == self@.authenticated(),
    {
        match &self.session {
            Some(session) => session.is_authenticated(),
            None => false,
        }
    }
}

/// What an operation does next: send a request and wait for the answer,
/// or end with a result.
#[derive(Debug, PartialEq)]
pub enum Progress<R, T> {
    /// Send the request; hand the answer back together with the state.
    Send(R, HttpRequest),
    /// The operation has ended.
    Done(Result<T, AuthError>),
}

/// The model of a [`Progress`].
pub enum Advance<R, T> {
    Send(R, Request),
    Done(Result<T, Failure>),
}

impl<R: View, T: View> View for Progress<R, T> {
    type V = Advance<R::V, T::V>;

    open spec fn view(&self) -> Advance<R::V, T::V> {
        match self {
            Progress::Send(run, request) => Advance::Send(run@, request@),
            Progress::Done(Ok(value)) => Advance::Done(Ok(value@)),
            Progress::Done(Err(e)) => Advance::Done(Err(e@)),
        }
    }
}

/// The five states of an attempt.
#[derive(Clone, Copy, Debug, PartialEq, Eq, Structural)]
pub enum FlowState {
    Unstarted,
    FlowFetched,
    Submitted,
    Completed,
    Failed,
}

/// The state that an attempt has reached while it waits at the given
/// stage. Until the flow document is there the attempt has not started on
/// the flow; once the credentials are under way, the flow has been
/// fetched and submitted. The state `FlowFetched` is passed through
/// between the answer that brings the flow and the request that submits
/// it.
pub open spec fn state_at(stage: Stage) -> FlowState {
    match stage {
        Stage::AwaitingFlow => FlowState::Unstarted,
        Stage::AwaitingFlowRead => FlowState::Unstarted,
        Stage::Submitted => FlowState::Submitted,
    }
}

/// The state that an attempt is in once it has made the given progress.
pub open spec fn state_of(progress: Advance<Attempt, Outcome>) -> FlowState {
    match progress {
        Advance::Send(run, _) => state_at(run.stage),
        Advance::Done(Ok(_)) => FlowState::Completed,
        Advance::Done(Err(_)) => FlowState::Failed,
    }
}

/// How an attempt begins: with the request that initiates the flow.
pub open spec fn flow_started(
    public: Seq<char>,
    mode: FlowMode,
    credentials: Secret,
    cookie: Option<Seq<char>>,
) -> Advance<Attempt, Outcome> {
    Advance::Send(
        Attempt {
            credentials: credentials,
            cookie: cookie,
            stage: Stage::AwaitingFlow,
            cookies: initial_cookies(cookie),
        },
        fetch_request(public, credentials.flow_type(), mode, cookie),
    )
}

/// How an attempt goes on once the flow is fetched, or has failed to be:
/// the credentials are submitted against the flow's id, with the flow's
/// anti-forgery token and every cookie of the chain so far.
pub open spec fn flow_fetched(
    public: Seq<char>,
    run: Attempt,
    fetched: Result<FetchedFlow, Failure>,
) -> Advance<Attempt, Outcome> {
    match fetched {
        Err(failure) => Advance::Done(Err(failure)),
        Ok(result) => match flow_of(result, run.credentials.flow_type()) {
            Err(failure) => Advance::Done(Err(failure)),
            Ok(flow) => Advance::Send(
                Attempt {
                    credentials: run.credentials,
                    cookie: run.cookie,
                    stage: Stage::Submitted,
                    cookies: result.cookies,
                },
                submit_request(
                    public,
                    flow.flow_type,
                    flow.id,
                    run.credentials.body(flow.csrf_token),
                    result.cookies,
                ),
            ),
        },
    }
}

/// How an attempt ends once the submission is answered.
pub open spec fn flow_submitted(answer: Answer) -> Result<Outcome, Failure> {
    match submit_outcome(answer) {
        Err(failure) => Err(failure),
        Ok(posted) => match extracted(posted.data) {
            Err(failure) => Err(failure),
            Ok((identity, session)) => Ok(
                Outcome { identity: identity, session: session, cookies: posted.cookies },
            ),
        },
    }
}

/// How an attempt that waits for an answer goes on when the answer comes.
pub open spec fn flow_resumed(
    public: Seq<char>,
    run: Attempt,
    answer: Answer,
) -> Advance<Attempt, Outcome> {
    match run.stage {
        Stage::AwaitingFlow => match fetch_outcome(
            public,
            run.credentials.flow_type(),
            run.cookie,
            answer,
        ) {
            FetchOutcome::Fetched(flow) => flow_fetched(public, run, Ok(flow)),
            FetchOutcome::Redirected(request, cookies) => Advance::Send(
                Attempt {
                    credentials: run.credentials,
                    cookie: run.cookie,
                    stage: Stage::AwaitingFlowRead,
                    cookies: cookies,
                },
                request,
            ),
            FetchOutcome::Failed(failure) => Advance::Done(Err(failure)),
        },
        Stage::AwaitingFlowRead => flow_fetched(
            public,
            run,
            flow_read_outcome(run.cookies, answer),
        ),
        Stage::Submitted => Advance::Done(flow_submitted(answer)),
    }
}

impl FlowRun {
    /// Begins an attempt.
    pub fn start(
        client: &KratosClient,
        mode: FlowMode,
        credentials: Credentials,
        cookie: Option<String>,
    ) -> (progress: Progress<FlowRun, FlowOutcome>)
        ensures
            progress@ == flow_started(client@.public, mode, credentials@, opt_text(cookie)),
    {
        let request = client.fetch_flow(
            credentials.flow_type(),
            mode,
            match &cookie {
                Some(c) => Some(c.as_str()),
                None => None,
            },
        );
        let cookies = crate::cookies::CookieSet::from_cookie(
            match &cookie {
                Some(c) => Some(c.as_str()),
                None => None,
            },
        ).into_vec();
        Progress::Send(FlowRun { credentials, cookie, stage: Stage::AwaitingFlow, cookies }, request)
    }

    /// Goes on once the flow is fetched, or has failed to be.
    pub fn fetched(
        self,
        client: &KratosClient,
        fetched: Result<FlowResult, AuthError>,
    ) -> (progress: Progress<FlowRun, FlowOutcome>)
        ensures
            progress@ == flow_fetched(client@.public, self@, fetched_view(fetched)),
    {
        match fetched {
            Err(failure) => Progress::Done(Err(failure)),
            Ok(result) => match result.into_flow(self.credentials.flow_type()) {
                Err(failure) => Progress::Done(Err(failure)),
                Ok((flow, cookies)) => {
                    let body = self.credentials.body(flow.csrf_token.as_str());
                    let request = client.post_flow(
                        flow.flow_type,
                        flow.id.as_str(),
                        body,
                        &cookies,
                    );
                    Progress::Send(
                        FlowRun {
                            credentials: self.credentials,
                            cookie: self.cookie,
                            stage: Stage::Submitted,
                            cookies,
                        },
                        request,
                    )
                },
            },
        }
    }

    /// Ends the attempt once the submission is answered.
    pub fn submitted(client: &KratosClient, reply: Reply) -> (r: Result<FlowOutcome, AuthError>)
        ensures
            match r {
                Ok(outcome) => flow_submitted(reply@) == Ok::<Outcome, Failure>(outcome@),
                Err(e) => flow_submitted(reply@) == Err::<Outcome, Failure>(e@),
            },
    {
        match client.flow_posted(reply) {
            Err(failure) => Err(failure),
            Ok(posted) => match extract(&posted.data) {
                Err(failure) => Err(failure),
                Ok((identity, session)) => Ok(
                    FlowOutcome { identity, session, cookies: posted.cookies },
                ),
            },
        }
    }

    /// Goes on when the answer to the request under way comes.
    pub fn resume(
        self,
        client: &KratosClient,
        reply: Reply,
    ) -> (progress: Progress<FlowRun, FlowOutcome>)
        ensures
            progress@ == flow_resumed(client@.public, self@, reply@),
    {
        match self.stage {
            Stage::AwaitingFlow => {
                let step = client.flow_initiated(
                    self.credentials.flow_type(),
                    match &self.cookie {
                        Some(c) => Some(c.as_str()),
                        None => None,
                    },
                    reply,
                );
                match step {
                    FetchStep::Fetched(flow) => self.fetched(client, Ok(flow)),
                    FetchStep::Redirected(request, cookies) => Progress::Send(
                        FlowRun {
                            credentials: self.credentials,
                            cookie: self.cookie,
                            stage: Stage::AwaitingFlowRead,
                            cookies,
                        },
                        request,
                    ),
                    FetchStep::Failed(failure) => Progress::Done(Err(failure)),
                }
            },
            Stage::AwaitingFlowRead => {
                let cookies = crate::text::copy_texts(&self.cookies);
                let fetched = client.flow_read(cookies, reply);
                self.fetched(client, fetched)
            },
            Stage::Submitted => Progress::Done(FlowRun::submitted(client, reply)),
        }
    }
}

} // verus!
