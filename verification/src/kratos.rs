//! Identities and sessions with their traits spelled out, and the
//! operations of the client that hand them out.

use vstd::prelude::*;
use crate::client::{FlowMode, KratosClient};
use crate::error::{AuthError, Failure};
use crate::http::{HttpRequest, Reply};
use crate::json::{entry_models, lemma_object_view, Json, JsonValue, Member};
use crate::lookup::{whoami_outcome, whoami_request, Evidence, SessionProof};
use crate::orchestrator::{
    flow_started,
    Credentials,
    FlowOutcome,
    FlowRun,
    Outcome,
    Progress,
    Secret,
};
use crate::session::{Identity, IdentityRecord, Session, SessionRecord};
use crate::text::{copy_texts, opt_str, opt_text, texts};

verus! {

/// The traits of an identity.
#[derive(Debug, PartialEq)]
pub struct IdentityTraits {
    pub email: String,
    pub username: String,
    pub geo_location: Option<String>,
}

/// The model of [`IdentityTraits`].
pub struct Traits {
    pub email: Seq<char>,
    pub username: Seq<char>,
    pub geo_location: Option<Seq<char>>,
}

impl View for IdentityTraits {
    type V = Traits;

    open spec fn view(&self) -> Traits {
        Traits {
            email: self.email@,
            username: self.username@,
            geo_location: opt_text(self.geo_location),
        }
    }
}

/// An identity with its traits spelled out.
#[derive(Debug, PartialEq)]
pub struct KratosIdentity {
    pub id: String,
    pub schema_id: String,
    pub traits: IdentityTraits,
    pub created_at: String,
    pub updated_at: String,
}

/// The model of a [`KratosIdentity`].
pub struct Account {
    pub id: Seq<char>,
    pub schema_id: Seq<char>,
    pub traits: Traits,
    pub created_at: Seq<char>,
    pub updated_at: Seq<char>,
}

impl View for KratosIdentity {
    type V = Account;

    open spec fn view(&self) -> Account {
        Account {
            id: self.id@,
            schema_id: self.schema_id@,
            traits: self.traits@,
            created_at: self.created_at@,
            updated_at: self.updated_at@,
        }
    }
}

/// A session of an identity with its traits spelled out.
#[derive(Debug, PartialEq)]
pub struct KratosSession {
    pub id: String,
    pub active: bool,
    pub identity: KratosIdentity,
}

/// The model of a [`KratosSession`].
pub struct Signed {
    pub id: Seq<char>,
    pub active: bool,
    pub identity: Account,
}

impl View for KratosSession {
    type V = Signed;

    open spec fn view(&self) -> Signed {
        Signed { id: self.id@, active: self.active, identity: self.identity@ }
    }
}

/// The traits that a `traits` object spells out: `email` and `username`
/// must be texts; `geo_location` is there if it is a text.
pub open spec fn traits_of(traits: JsonValue) -> Result<Traits, Failure> {
    match traits.field("email"@).as_text() {
        None => Err(Failure::MissingField("email"@)),
        Some(email) => match traits.field("username"@).as_text() {
            None => Err(Failure::MissingField("username"@)),
            Some(username) => Ok(
                Traits {
                    email: email,
                    username: username,
                    geo_location: traits.field("geo_location"@).as_text(),
                },
            ),
        },
    }
}

/// The identity with its traits spelled out.
pub open spec fn account_of(identity: IdentityRecord) -> Result<Account, Failure> {
    match traits_of(identity.traits) {
        Err(failure) => Err(failure),
        Ok(traits) => Ok(
            Account {
                id: identity.id,
                schema_id: identity.schema_id,
                traits: traits,
                created_at: identity.created_at,
                updated_at: identity.updated_at,
            },
        ),
    }
}

/// The session with its identity's traits spelled out.
pub open spec fn login_of(session: SessionRecord) -> Result<Signed, Failure> {
    match account_of(session.identity) {
        Err(failure) => Err(failure),
        Ok(identity) => Ok(Signed { id: session.id, active: session.active, identity: identity }),
    }
}

/// The session of an outcome, with the cookies to set on the client. An
/// outcome without a session lacks the field `session`.
pub open spec fn login_of_outcome(outcome: Outcome) -> Result<(Signed, Seq<Seq<char>>), Failure> {
    match outcome.session {
        None => Err(Failure::MissingField("session"@)),
        Some(session) => match login_of(session) {
            Err(failure) => Err(failure),
            Ok(login) => Ok((login, outcome.cookies)),
        },
    }
}

/// The traits that a session lookup's answer names.
pub open spec fn current_user_outcome(answer: crate::http::Answer) -> Result<Traits, Failure> {
    match whoami_outcome(answer) {
        Err(failure) => Err(failure),
        Ok(session) => traits_of(session.identity.traits),
    }
}

/// The `traits` object that names a username.
pub open spec fn username_traits(username: Seq<char>) -> JsonValue {
    JsonValue::Object(seq![("username"@, JsonValue::Text(username))])
}

impl IdentityTraits {
    /// The traits that a `traits` object spells out.
    pub fn from_json(traits: &Json) -> (r: Result<IdentityTraits, AuthError>)
        ensures
            match r {
                Ok(t) => traits_of(traits@) == Ok::<Traits, Failure>(t@),
                Err(e) => traits_of(traits@) == Err::<Traits, Failure>(e@),
            },
    {
        match traits.text_at("email") {
            None => Err(AuthError::missing("email")),
            Some(email) => match traits.text_at("username") {
                None => Err(AuthError::missing("username")),
                Some(username) => Ok(
                    IdentityTraits { email, username, geo_location: traits.text_at("geo_location") },
                ),
            },
        }
    }
}

impl KratosIdentity {
    /// The identity with its traits spelled out.
    pub fn from_identity(identity: &Identity) -> (r: Result<KratosIdentity, AuthError>)
        ensures
            match r {
                Ok(a) => account_of(identity@) == Ok::<Account, Failure>(a@),
                Err(e) => account_of(identity@) == Err::<Account, Failure>(e@),
            },
    {
        match IdentityTraits::from_json(&identity.traits) {
            Err(failure) => Err(failure),
            Ok(traits) => Ok(
                KratosIdentity {
                    id: identity.id.clone(),
                    schema_id: identity.schema_id.clone(),
                    traits,
                    created_at: identity.created_at.clone(),
                    updated_at: identity.updated_at.clone(),
                },
            ),
        }
    }
}

impl KratosSession {
    /// The session with its identity's traits spelled out.
    pub fn from_session(session: &Session) -> (r: Result<KratosSession, AuthError>)
        ensures
            match r {
                Ok(l) => login_of(session@) == Ok::<Signed, Failure>(l@),
                Err(e) => login_of(session@) == Err::<Signed, Failure>(e@),
            },
    {
        match KratosIdentity::from_identity(&session.identity) {
            Err(failure) => Err(failure),
            Ok(identity) => Ok(
                KratosSession { id: session.id.clone(), active: session.active, identity },
            ),
        }
    }

    /// The session of an outcome, with the cookies to set on the client.
    pub fn from_outcome(
        outcome: &FlowOutcome,
    ) -> (r: Result<(KratosSession, Vec<String>), AuthError>)
        ensures
            match r {
                Ok((l, cookies)) => login_of_outcome(outcome@) == Ok::<
                    (Signed, Seq<Seq<char>>),
                    Failure,
                >((l@, texts(cookies@))),
                Err(e) => login_of_outcome(outcome@) == Err::<(Signed, Seq<Seq<char>>), Failure>(
                    e@,
                ),
            },
    {
        match &outcome.session {
            None => Err(AuthError::missing("session")),
            Some(session) => match KratosSession::from_session(session) {
                Err(failure) => Err(failure),
                Ok(login) => Ok((login, copy_texts(&outcome.cookies))),
            },
        }
    }
}

impl KratosClient {
    /// Begins a registration of `email` under `username`, as a browser
    /// would.
    pub fn handle_signup(
        &self,
        email: &str,
        username: &str,
        password: &str,
        cookie: Option<&str>,
    ) -> (progress: Progress<FlowRun, FlowOutcome>)
        ensures
            progress@ == flow_started(
                self@.public,
                FlowMode::Browser,
                Secret::Registration {
                    email: email@,
                    password: password@,
                    traits: username_traits(username@),
                },
                opt_str(cookie),
            ),
    {
        let mut entries: Vec<Member> = Vec::new();
        entries.push(Member { key: "username".to_owned(), value: Json::text(username) });
        proof {
            lemma_object_view(entries);
            assert(entry_models(entries@) =~= seq![("username"@, JsonValue::Text(username@))]);
        }
        let credentials = Credentials::Registration {
            email: email.to_owned(),
            password: password.to_owned(),
            traits: Json::Object(entries),
        };
        FlowRun::start(
            self,
            FlowMode::Browser,
            credentials,
            match cookie {
                Some(c) => Some(c.to_owned()),
                None => None,
            },
        )
    }

    /// Begins a login of `identifier`, as a browser would.
    pub fn handle_login(
        &self,
        identifier: &str,
        password: &str,
        cookie: Option<&str>,
    ) -> (progress: Progress<FlowRun, FlowOutcome>)
        ensures
            progress@ == flow_started(
                self@.public,
                FlowMode::Browser,
                Secret::Login { identifier: identifier@, password: password@ },
                opt_str(cookie),
            ),
    {
        let credentials = Credentials::Login {
            identifier: identifier.to_owned(),
            password: password.to_owned(),
        };
        FlowRun::start(
            self,
            FlowMode::Browser,
            credentials,
            match cookie {
                Some(c) => Some(c.to_owned()),
                None => None,
            },
        )
    }

    /// The request that asks who holds `cookie`.
    pub fn handle_get_current_user(&self, cookie: &str) -> (request: HttpRequest)
        ensures
            request@ == whoami_request(self@.public, Evidence::Cookie(cookie@)),
    {
        self.get_session(&SessionProof::Cookie(cookie.to_owned()))
    }

    /// The traits that a session lookup's answer names.
    pub fn current_user(&self, reply: Reply) -> (r: Result<IdentityTraits, AuthError>)
        ensures
            match r {
                Ok(t) => current_user_outcome(reply@) == Ok::<Traits, Failure>(t@),
                Err(e) => current_user_outcome(reply@) == Err::<Traits, Failure>(e@),
            },
    {
        match self.session_found(reply) {
            Err(failure) => Err(failure),
            Ok(session) => IdentityTraits::from_json(&session.identity.traits),
        }
    }
}

} // verus!
