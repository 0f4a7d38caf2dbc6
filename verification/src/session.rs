//! Identities and sessions, and how they are read out of the provider's
//! answers.

use vstd::prelude::*;
use crate::error::{AuthError, Failure};
use crate::json::{Json, JsonValue};
use crate::text::opt_text;

verus! {

/// The provider's record of a user account.
#[derive(Debug, PartialEq)]
pub struct Identity {
    pub id: String,
    pub schema_id: String,
    /// The identity's attributes; `email` and `username` are texts.
    pub traits: Json,
    pub created_at: String,
    pub updated_at: String,
}

/// The model of an [`Identity`].
pub struct IdentityRecord {
    pub id: Seq<char>,
    pub schema_id: Seq<char>,
    pub traits: JsonValue,
    pub created_at: Seq<char>,
    pub updated_at: Seq<char>,
}

impl View for Identity {
    type V = IdentityRecord;

    open spec fn view(&self) -> IdentityRecord {
        IdentityRecord {
            id: self.id@,
            schema_id: self.schema_id@,
            traits: self.traits@,
            created_at: self.created_at@,
            updated_at: self.updated_at@,
        }
    }
}

/// The provider's proof of an authentication.
#[derive(Debug, PartialEq)]
pub struct Session {
    pub id: String,
    pub active: bool,
    pub identity: Identity,
    /// The bearer token, for flows that hand one out.
    pub token: Option<String>,
}

/// The model of a [`Session`].
pub struct SessionRecord {
    pub id: Seq<char>,
    pub active: bool,
    pub identity: IdentityRecord,
    pub token: Option<Seq<char>>,
}

impl View for Session {
    type V = SessionRecord;

    open spec fn view(&self) -> SessionRecord {
        SessionRecord {
            id: self.id@,
            active: self.active,
            identity: self.identity@,
            token: opt_text(self.token),
        }
    }
}

impl IdentityRecord {
    /// An identity as the extractor hands it out: its id is not empty and
    /// its traits name an email and a username.
    pub open spec fn wf(self) -> bool {
        &&& self.id.len() > 0
        &&& self.traits.field("email"@).as_text() is Some
        &&& self.traits.field("username"@).as_text() is Some
    }
}

impl SessionRecord {
    /// Whether the session authenticates its holder: only an active one does.
    pub open spec fn authenticated(self) -> bool {
        self.active
    }
}

/// The text that `v` is, or `default` where it is none.
pub open spec fn text_or(v: JsonValue, default: Seq<char>) -> Seq<char> {
    match v.as_text() {
        Some(t) => t,
        None => default,
    }
}

/// The identity that the object `source` describes. Its `id` must be a
/// text that is not empty, and its `traits` must name an `email` and a
/// `username`; the schema falls back to `default` and the two dates to the
/// empty text.
pub open spec fn identity_of(source: JsonValue) -> Result<IdentityRecord, Failure> {
    let traits = source.field("traits"@);
    match source.field("id"@).as_text() {
        None => Err(Failure::MissingField("id"@)),
        Some(id) => if id.len() == 0 {
            Err(Failure::MissingField("id"@))
        } else if traits.field("email"@).as_text() is None {
            Err(Failure::MissingField("email"@))
        } else if traits.field("username"@).as_text() is None {
            Err(Failure::MissingField("username"@))
        } else {
            Ok(
                IdentityRecord {
                    id: id,
                    schema_id: text_or(source.field("schema_id"@), "default"@),
                    traits: traits,
                    created_at: text_or(source.field("created_at"@), ""@),
                    updated_at: text_or(source.field("updated_at"@), ""@),
                },
            )
        },
    }
}

/// Whether the object `source` says that its session is active. A flag
/// that is absent, or is no truth value, says that it is not.
pub open spec fn active_of(source: JsonValue) -> bool {
    source.field("active"@).as_bool() == Some(true)
}

/// The provider's identity object in an answer: the `identity` of the
/// answer's `session` where it has one, else the answer's own `identity`.
pub open spec fn identity_source(document: JsonValue) -> JsonValue {
    match document.member("session"@) {
        Some(nested) => nested.field("identity"@),
        None => document.field("identity"@),
    }
}

/// The identity and the session that a submission's answer describes.
///
/// Where the answer has a `session`, the session is that object and the
/// identity is its `identity`. Where it has none, the identity is the
/// answer's own `identity`, and the answer is itself the session if it has
/// an `id`; otherwise there is no session yet. The token is the answer's
/// `session_token`, if it has one.
pub open spec fn extracted(
    document: JsonValue,
) -> Result<(IdentityRecord, Option<SessionRecord>), Failure> {
    let token = document.field("session_token"@).as_text();
    match document.member("session"@) {
        Some(nested) => match identity_of(nested.field("identity"@)) {
            Err(failure) => Err(failure),
            Ok(identity) => match nested.field("id"@).as_text() {
                None => Err(Failure::MissingField("session.id"@)),
                Some(id) => Ok(
                    (
                        identity,
                        Some(
                            SessionRecord {
                                id: id,
                                active: active_of(nested),
                                identity: identity,
                                token: token,
                            },
                        ),
                    ),
                ),
            },
        },
        None => match document.member("identity"@) {
            None => Err(Failure::MissingField("identity"@)),
            Some(source) => match identity_of(source) {
                Err(failure) => Err(failure),
                Ok(identity) => Ok(
                    (
                        identity,
                        match document.field("id"@).as_text() {
                            Some(id) => Some(
                                SessionRecord {
                                    id: id,
                                    active: active_of(document),
                                    identity: identity,
                                    token: token,
                                },
                            ),
                            None => None,
                        },
                    ),
                ),
            },
        },
    }
}

/// The model of an extraction's result.
pub open spec fn extracted_view(
    r: Result<(Identity, Option<Session>), AuthError>,
) -> Result<(IdentityRecord, Option<SessionRecord>), Failure> {
    match r {
        Ok((identity, session)) => Ok(
            (
                identity@,
                match session {
                    Some(s) => Some(s@),
                    None => None,
                },
            ),
        ),
        Err(e) => Err(e@),
    }
}

/// The model of a result that is an identity.
pub open spec fn identity_view(r: Result<Identity, AuthError>) -> Result<IdentityRecord, Failure> {
    match r {
        Ok(identity) => Ok(identity@),
        Err(e) => Err(e@),
    }
}

/// The model of a result that is a session.
pub open spec fn session_view(r: Result<Session, AuthError>) -> Result<SessionRecord, Failure> {
    match r {
        Ok(session) => Ok(session@),
        Err(e) => Err(e@),
    }
}

/// The text that `v` binds `key` to, or `default`.
fn text_or_default(v: &Json, key: &str, default: &str) -> (out: String)
    ensures
        out@ == text_or(v@.field(key@), default@),
{
    match v.text_at(key) {
        Some(t) => t,
        None => default.to_owned(),
    }
}

impl Identity {
    /// The identity that the object `source` describes.
    pub fn from_json(source: &Json) -> (r: Result<Identity, AuthError>)
        ensures
            identity_view(r) == identity_of(source@),
            r matches Ok(identity) ==> identity@.wf(),
    {
        let id = match source.text_at("id") {
            Some(id) => id,
            None => {
                return Err(AuthError::missing("id"));
            },
        };
        if id.as_str().is_empty() {
            return Err(AuthError::missing("id"));
        }
        let traits = match source.get("traits") {
            Some(t) => t.duplicate(),
            None => Json::Null,
        };
        if traits.text_at("email").is_none() {
            return Err(AuthError::missing("email"));
        }
        if traits.text_at("username").is_none() {
            return Err(AuthError::missing("username"));
        }
        Ok(
            Identity {
                id,
                schema_id: text_or_default(source, "schema_id", "default"),
                traits,
                created_at: text_or_default(source, "created_at", ""),
                updated_at: text_or_default(source, "updated_at", ""),
            },
        )
    }

    /// A copy of this identity.
    pub fn duplicate(&self) -> (out: Identity)
        ensures
            out@ == self@,
    {
        Identity {
            id: self.id.clone(),
            schema_id: self.schema_id.clone(),
            traits: self.traits.duplicate(),
            created_at: self.created_at.clone(),
            updated_at: self.updated_at.clone(),
        }
    }
}

impl Session {
    /// Whether the session authenticates its holder: only an active one does.
    pub fn is_authenticated(&self) -> (r: bool)
        ensures
            r == self@.authenticated(),
    {
        self.active
    }
}

/// Whether the object `source` says that its session is active.
fn read_active(source: &Json) -> (r: bool)
    ensures
        r == active_of(source@),
{
    match source.get("active") {
        Some(flag) => match flag.as_bool() {
            Some(b) => b,
            None => false,
        },
        None => false,
    }
}

/// The identity and the session that a submission's answer describes.
pub fn extract(document: &Json) -> (r: Result<(Identity, Option<Session>), AuthError>)
    ensures
        extracted_view(r) == extracted(document@),
        r matches Ok((identity, session)) ==> identity@.wf() && (session matches Some(s)
            ==> s@.identity == identity@),
{
    let token = document.text_at("session_token");
    match document.get("session") {
        Some(nested) => {
            let found = match nested.get("identity") {
                Some(source) => Identity::from_json(source),
                None => Identity::from_json(&Json::Null),
            };
            match found {
                Err(failure) => Err(failure),
                Ok(identity) => match nested.text_at("id") {
                    None => Err(AuthError::missing("session.id")),
                    Some(id) => {
                        let session = Session {
                            id,
                            active: read_active(nested),
                            identity: identity.duplicate(),
                            token,
                        };
                        Ok((identity, Some(session)))
                    },
                },
            }
        },
        None => match document.get("identity") {
            None => Err(AuthError::missing("identity")),
            Some(source) => match Identity::from_json(source) {
                Err(failure) => Err(failure),
                Ok(identity) => {
                    let session = match document.text_at("id") {
                        Some(id) => Some(
                            Session {
                                id,
                                active: read_active(document),
                                identity: identity.duplicate(),
                                token,
                            },
                        ),
                        None => None,
                    };
                    Ok((identity, session))
                },
            },
        },
    }
}

/// An identity that was extracted has an id that is not empty, the one
/// that the provider's identity object carries, and names an email and a
/// username; a session that came with it is a session of that identity.
pub proof fn lemma_extracted_identity(document: JsonValue)
    requires
        extracted(document) is Ok,
    ensures
        ({
            let (identity, session) = extracted(document)->Ok_0;
            &&& identity.wf()
            &&& identity_source(document).field("id"@).as_text() == Some(identity.id)
            &&& session matches Some(s) ==> s.identity == identity
        }),
{
}

} // verus!
