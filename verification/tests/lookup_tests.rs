use kratos_flow::client::{FlowType, KratosClient};
use kratos_flow::error::AuthError;
use kratos_flow::flow::{Flow, FlowResult};
use kratos_flow::http::{HttpRequest, HttpResponse, Method, Reply};
use kratos_flow::json::Json;
use kratos_flow::lookup::{
    identity_from_document, logout_from_document, session_from_document, LogoutRun, SessionProof,
};
use kratos_flow::orchestrator::{FlowOutcome, Progress};
use kratos_flow::session::{Identity, Session};

fn lookup_client() -> KratosClient {
    KratosClient::new("http://localhost:4434".to_string(), "http://localhost:4433".to_string())
}

fn lookup_reply(status: u16, body: &str) -> Reply {
    Reply::Response(HttpResponse {
        status,
        set_cookies: vec![],
        location: None,
        body: body.to_string(),
    })
}

fn lookup_identity() -> Identity {
    Identity {
        id: "u1".to_string(),
        schema_id: "default".to_string(),
        traits: Json::parse(r#"{"email":"a@b.com","username":"ab"}"#).unwrap(),
        created_at: String::new(),
        updated_at: String::new(),
    }
}

#[test]
fn identity_lookup_goes_to_the_administration_without_any_proof() {
    let client = lookup_client();
    assert_eq!(
        client.get_identity("u1"),
        HttpRequest {
            method: Method::Get,
            url: "http://127.0.0.1:4434/admin/identities/u1".to_string(),
            cookie: None,
            session_token: None,
            body: None,
        }
    );
}

#[test]
fn identity_lookup_reads_the_identity_or_names_the_failure() {
    let client = lookup_client();
    assert_eq!(
        client.identity_found(lookup_reply(
            200,
            r#"{"id":"u1","traits":{"email":"a@b.com","username":"ab"}}"#
        )),
        Ok(lookup_identity())
    );
    assert_eq!(
        client.identity_found(lookup_reply(404, "gone")),
        Err(AuthError::ProtocolFailure(404, "gone".to_string()))
    );
    assert_eq!(
        client.identity_found(lookup_reply(200, "{}")),
        Err(AuthError::MissingField("id".to_string()))
    );
    assert_eq!(
        client.identity_found(Reply::Unreachable("down".to_string())),
        Err(AuthError::NetworkFailure("down".to_string()))
    );
    assert_eq!(
        identity_from_document(200, Err("bad".to_string())),
        Err(AuthError::ProtocolFailure(200, "bad".to_string()))
    );
}

#[test]
fn session_from_document_maps_each_case() {
    assert_eq!(
        session_from_document(200, Err("bad".to_string())),
        Err(AuthError::ProtocolFailure(200, "bad".to_string()))
    );
    assert_eq!(
        session_from_document(200, Ok(Json::Null)),
        Err(AuthError::MissingField("identity".to_string()))
    );
    let active = Json::parse(
        r#"{"id":"s1","active":true,"identity":{"id":"u1","traits":{"email":"a@b.com","username":"ab"}}}"#,
    )
    .unwrap();
    assert_eq!(
        session_from_document(200, Ok(active)),
        Ok(Session { id: "s1".to_string(), active: true, identity: lookup_identity(), token: None })
    );
}

#[test]
fn logout_from_document_maps_each_case() {
    let cookie = || SessionProof::Cookie("A".to_string());
    assert_eq!(
        logout_from_document(200, Err("bad".to_string()), cookie()),
        Progress::Done(Err(AuthError::ProtocolFailure(200, "bad".to_string())))
    );
    assert_eq!(
        logout_from_document(200, Ok(Json::parse(r#"{"logout_url":5}"#).unwrap()), cookie()),
        Progress::Done(Err(AuthError::MissingField("logout_url".to_string())))
    );
    assert_eq!(
        logout_from_document(
            200,
            Ok(Json::parse(r#"{"logout_url":"http://localhost/out"}"#).unwrap()),
            SessionProof::Token("T".to_string())
        ),
        Progress::Send(
            LogoutRun::AwaitingLogout,
            HttpRequest {
                method: Method::Get,
                url: "http://127.0.0.1/out".to_string(),
                cookie: None,
                session_token: Some("T".to_string()),
                body: None,
            }
        )
    );
}

#[test]
fn a_fetched_flow_becomes_a_flow_with_its_id() {
    let doc = Json::parse(r#"{"id":"f1","ui":{}}"#).unwrap();
    let result = FlowResult {
        flow: doc.duplicate(),
        csrf_token: "tok".to_string(),
        cookies: vec!["A".to_string()],
    };
    assert_eq!(
        result.into_flow(FlowType::Login),
        Ok((
            Flow {
                id: "f1".to_string(),
                flow_type: FlowType::Login,
                csrf_token: "tok".to_string(),
                raw: doc,
            },
            vec!["A".to_string()]
        ))
    );
    let without_id = FlowResult {
        flow: Json::parse(r#"{"id":1}"#).unwrap(),
        csrf_token: "tok".to_string(),
        cookies: vec![],
    };
    assert_eq!(
        without_id.into_flow(FlowType::Registration),
        Err(AuthError::MissingField("flow.id".to_string()))
    );
}

#[test]
fn only_an_active_session_authenticates() {
    let outcome = |session: Option<Session>| FlowOutcome {
        identity: lookup_identity(),
        session,
        cookies: vec![],
    };
    let session = |active: bool| Session {
        id: "s1".to_string(),
        active,
        identity: lookup_identity(),
        token: None,
    };
    assert!(outcome(Some(session(true))).is_authenticated());
    assert!(!outcome(Some(session(false))).is_authenticated());
    assert!(!outcome(None).is_authenticated());
}
