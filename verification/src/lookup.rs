//! Looking a session up and ending it.

use vstd::prelude::*;
use vstd::string::*;
use crate::client::{flow_init_url, loopback, whoami_url, FlowMode, FlowType, KratosClient};
use crate::error::{AuthError, Failure};
use crate::http::{is_success, Answer, HttpRequest, Method, Reply, Request};
use crate::json::{json_document, parsed_view, Json, JsonValue};
use crate::orchestrator::{Advance, Progress};
use crate::session::{
    extract,
    extracted,
    identity_of,
    identity_view,
    session_view,
    Identity,
    IdentityRecord,
    Session,
    SessionRecord,
};
use crate::text::{replace_all, texts};

verus! {

/// What a caller proves a session with: the browser's cookies, or a
/// session token.
#[derive(Debug, PartialEq)]
pub enum SessionProof {
    /// The value of a `Cookie` header.
    Cookie(String),
    /// A session token, sent as `X-Session-Token`.
    Token(String),
}

/// The model of a [`SessionProof`].
pub enum Evidence {
    Cookie(Seq<char>),
    Token(Seq<char>),
}

impl View for SessionProof {
    type V = Evidence;

    open spec fn view(&self) -> Evidence {
        match self {
            SessionProof::Cookie(c) => Evidence::Cookie(c@),
            SessionProof::Token(t) => Evidence::Token(t@),
        }
    }
}

/// A GET of `url` that carries the proof.
pub open spec fn proven_get(url: Seq<char>, evidence: Evidence) -> Request {
    Request {
        method: Method::Get,
        url: url,
        cookie: match evidence {
            Evidence::Cookie(c) => Some(c),
            Evidence::Token(_) => None,
        },
        session_token: match evidence {
            Evidence::Cookie(_) => None,
            Evidence::Token(t) => Some(t),
        },
        body: None,
    }
}

/// The request that asks the provider who the caller is.
pub open spec fn whoami_request(public: Seq<char>, evidence: Evidence) -> Request {
    proven_get(whoami_url(public), evidence)
}

/// What the document of a session lookup comes to: the session that it
/// is, which must be active.
pub open spec fn session_of_document(
    status: u16,
    parsed: Result<JsonValue, Seq<char>>,
) -> Result<SessionRecord, Failure> {
    match parsed {
        Err(message) => Err(Failure::ProtocolFailure(status, message)),
        Ok(document) => match extracted(document) {
            Err(failure) => Err(failure),
            Ok((_, None)) => Err(Failure::MissingField("session.id"@)),
            Ok((_, Some(session))) => if session.active {
                Ok(session)
            } else {
                Err(Failure::Unauthorized)
            },
        },
    }
}

/// What the answer to a session lookup comes to. Any status but a
/// success says that the caller is not authenticated, whatever the status
/// and whatever the body.
pub open spec fn whoami_outcome(answer: Answer) -> Result<SessionRecord, Failure> {
    match answer {
        Answer::Unreachable(message) => Err(Failure::NetworkFailure(message)),
        Answer::Response(r) => if is_success(r.status) {
            session_of_document(r.status, json_document(r.body))
        } else {
            Err(Failure::Unauthorized)
        },
    }
}

/// Where the provider's administration keeps the identity `id`.
pub open spec fn identity_url(admin: Seq<char>, id: Seq<char>) -> Seq<char> {
    loopback(admin) + "/admin/identities/"@ + id
}

/// The request that looks the identity `id` up at the provider's
/// administration. It is sent from server to server and carries no proof
/// of any end user.
pub open spec fn identity_request(admin: Seq<char>, id: Seq<char>) -> Request {
    Request {
        method: Method::Get,
        url: identity_url(admin, id),
        cookie: None,
        session_token: None,
        body: None,
    }
}

/// What the document of an identity lookup comes to.
pub open spec fn identity_of_document(
    status: u16,
    parsed: Result<JsonValue, Seq<char>>,
) -> Result<IdentityRecord, Failure> {
    match parsed {
        Err(message) => Err(Failure::ProtocolFailure(status, message)),
        Ok(document) => identity_of(document),
    }
}

/// What the answer to an identity lookup comes to.
pub open spec fn identity_outcome(answer: Answer) -> Result<IdentityRecord, Failure> {
    match answer {
        Answer::Unreachable(message) => Err(Failure::NetworkFailure(message)),
        Answer::Response(r) => if is_success(r.status) {
            identity_of_document(r.status, json_document(r.body))
        } else {
            Err(Failure::ProtocolFailure(r.status, r.body))
        },
    }
}

/// Where a logout is initiated: where a browser initiates the logout flow.
pub open spec fn logout_init_url(public: Seq<char>) -> Seq<char> {
    flow_init_url(public, FlowType::Logout, FlowMode::Browser)
}

/// The request that initiates a logout.
pub open spec fn logout_request(public: Seq<char>, evidence: Evidence) -> Request {
    proven_get(logout_init_url(public), evidence)
}

/// A logout that waits for an answer.
#[derive(Debug, PartialEq)]
pub enum LogoutRun {
    /// The request for the logout address was sent.
    AwaitingUrl(SessionProof),
    /// The request to the logout address was sent.
    AwaitingLogout,
}

/// The model of a [`LogoutRun`].
pub enum Leaving {
    AwaitingUrl(Evidence),
    AwaitingLogout,
}

impl View for LogoutRun {
    type V = Leaving;

    open spec fn view(&self) -> Leaving {
        match self {
            LogoutRun::AwaitingUrl(p) => Leaving::AwaitingUrl(p@),
            LogoutRun::AwaitingLogout => Leaving::AwaitingLogout,
        }
    }
}

/// The cookies that a logout hands back, as a value with a model.
#[derive(Debug, PartialEq)]
pub struct Cookies(pub Vec<String>);

impl View for Cookies {
    type V = Seq<Seq<char>>;

    open spec fn view(&self) -> Seq<Seq<char>> {
        texts(self.0@)
    }
}

/// How a logout goes on once the logout address is read, or has failed to be.
pub open spec fn logout_addressed(
    status: u16,
    parsed: Result<JsonValue, Seq<char>>,
    evidence: Evidence,
) -> Advance<Leaving, Seq<Seq<char>>> {
    match parsed {
        Err(message) => Advance::Done(Err(Failure::ProtocolFailure(status, message))),
        Ok(document) => match document.field("logout_url"@).as_text() {
            None => Advance::Done(Err(Failure::MissingField("logout_url"@))),
            Some(url) => Advance::Send(Leaving::AwaitingLogout, proven_get(loopback(url), evidence)),
        },
    }
}

/// How a logout that waits for an answer goes on when the answer comes.
/// The logout has succeeded when the second answer is a success; what it
/// hands back are the cookies that this answer set.
pub open spec fn logout_resumed(run: Leaving, answer: Answer) -> Advance<Leaving, Seq<Seq<char>>> {
    match answer {
        Answer::Unreachable(message) => Advance::Done(Err(Failure::NetworkFailure(message))),
        Answer::Response(r) => if !is_success(r.status) {
            Advance::Done(Err(Failure::ProtocolFailure(r.status, r.body)))
        } else {
            match run {
                Leaving::AwaitingUrl(evidence) => logout_addressed(
                    r.status,
                    json_document(r.body),
                    evidence,
                ),
                Leaving::AwaitingLogout => Advance::Done(Ok(r.set_cookies)),
            }
        },
    }
}

impl SessionProof {
    /// A GET of `url` that carries the proof.
    pub fn get(&self, url: String) -> (request: HttpRequest)
        ensures
            request@ == proven_get(url@, self@),
    {
        match self {
            SessionProof::Cookie(c) => HttpRequest {
                method: Method::Get,
                url,
                cookie: Some(c.clone()),
                session_token: None,
                body: None,
            },
            SessionProof::Token(t) => HttpRequest {
                method: Method::Get,
                url,
                cookie: None,
                session_token: Some(t.clone()),
                body: None,
            },
        }
    }
}

/// What the document of a session lookup comes to.
pub fn session_from_document(
    status: u16,
    parsed: Result<Json, String>,
) -> (r: Result<Session, AuthError>)
    ensures
        session_view(r) == session_of_document(
            status,
            parsed_view(parsed),
        ),
{
    match parsed {
        Err(message) => Err(AuthError::ProtocolFailure(status, message)),
        Ok(document) => match extract(&document) {
            Err(failure) => Err(failure),
            Ok((_, None)) => Err(AuthError::missing("session.id")),
            Ok((_, Some(session))) => if session.active {
                Ok(session)
            } else {
                Err(AuthError::Unauthorized)
            },
        },
    }
}

/// What the document of an identity lookup comes to.
pub fn identity_from_document(
    status: u16,
    parsed: Result<Json, String>,
) -> (r: Result<Identity, AuthError>)
    ensures
        identity_view(r) == identity_of_document(
            status,
            parsed_view(parsed),
        ),
{
    match parsed {
        Err(message) => Err(AuthError::ProtocolFailure(status, message)),
        Ok(document) => Identity::from_json(&document),
    }
}

/// How a logout goes on once the logout address is read, or has failed to be.
pub fn logout_from_document(
    status: u16,
    parsed: Result<Json, String>,
    evidence: SessionProof,
) -> (progress: Progress<LogoutRun, Cookies>)
    ensures
        progress@ == logout_addressed(
            status,
            parsed_view(parsed),
            evidence@,
        ),
{
    match parsed {
        Err(message) => Progress::Done(Err(AuthError::ProtocolFailure(status, message))),
        Ok(document) => match document.text_at("logout_url") {
            None => Progress::Done(Err(AuthError::missing("logout_url"))),
            Some(url) => Progress::Send(
                LogoutRun::AwaitingLogout,
                evidence.get(replace_all(url.as_str(), "localhost", "127.0.0.1")),
            ),
        },
    }
}

impl KratosClient {
    /// The request that asks the provider who the caller is.
    pub fn get_session(&self, evidence: &SessionProof) -> (request: HttpRequest)
        ensures
            request@ == whoami_request(self@.public, evidence@),
    {
        evidence.get(self.whoami_url())
    }

    /// What the answer to a session lookup comes to.
    pub fn session_found(&self, reply: Reply) -> (r: Result<Session, AuthError>)
        ensures
            session_view(r) == whoami_outcome(reply@),
    {
        match reply {
            Reply::Unreachable(message) => Err(AuthError::NetworkFailure(message)),
            Reply::Response(response) => {
                if response.is_success() {
                    session_from_document(response.status, Json::parse(response.body.as_str()))
                } else {
                    Err(AuthError::Unauthorized)
                }
            },
        }
    }

    /// The request that looks the identity `id` up at the provider's
    /// administration.
    pub fn get_identity(&self, id: &str) -> (request: HttpRequest)
        ensures
            request@ == identity_request(self@.admin, id@),
    {
        let mut url = replace_all(self.admin_url(), "localhost", "127.0.0.1");
        url.append("/admin/identities/");
        url.append(id);
        HttpRequest::get(url, None)
    }

    /// What the answer to an identity lookup comes to.
    pub fn identity_found(&self, reply: Reply) -> (r: Result<Identity, AuthError>)
        ensures
            identity_view(r) == identity_outcome(reply@),
    {
        match reply {
            Reply::Unreachable(message) => Err(AuthError::NetworkFailure(message)),
            Reply::Response(response) => {
                if response.is_success() {
                    identity_from_document(response.status, Json::parse(response.body.as_str()))
                } else {
                    Err(AuthError::ProtocolFailure(response.status, response.body))
                }
            },
        }
    }

    /// Begins a logout: the request for the logout address.
    pub fn handle_logout(&self, evidence: SessionProof) -> (progress: Progress<LogoutRun, Cookies>)
        ensures
            progress@ == Advance::<Leaving, Seq<Seq<char>>>::Send(
                Leaving::AwaitingUrl(evidence@),
                logout_request(self@.public, evidence@),
            ),
    {
        let request = evidence.get(self.flow_init_url(FlowType::Logout, FlowMode::Browser));
        Progress::Send(LogoutRun::AwaitingUrl(evidence), request)
    }
}

impl LogoutRun {
    /// Goes on when the answer to the request under way comes.
    pub fn resume(self, reply: Reply) -> (progress: Progress<LogoutRun, Cookies>)
        ensures
            progress@ == logout_resumed(self@, reply@),
    {
        match reply {
            Reply::Unreachable(message) => Progress::Done(Err(AuthError::NetworkFailure(message))),
            Reply::Response(response) => {
                if !response.is_success() {
                    Progress::Done(Err(AuthError::ProtocolFailure(response.status, response.body)))
                } else {
                    match self {
                        LogoutRun::AwaitingUrl(evidence) => logout_from_document(
                            response.status,
                            Json::parse(response.body.as_str()),
                            evidence,
                        ),
                        LogoutRun::AwaitingLogout => Progress::Done(Ok(Cookies(response.set_cookies))),
                    }
                }
            },
        }
    }
}

} // verus!
