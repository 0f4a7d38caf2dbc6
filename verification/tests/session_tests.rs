use kratos_flow::error::AuthError;
use kratos_flow::json::Json;
use kratos_flow::kratos::{IdentityTraits, KratosIdentity, KratosSession};
use kratos_flow::session::{extract, Identity, Session};

fn session_doc(text: &str) -> Json {
    Json::parse(text).expect("valid json")
}

fn sample_identity() -> Identity {
    Identity {
        id: "u1".to_string(),
        schema_id: "default".to_string(),
        traits: session_doc(r#"{"email":"a@b.com","username":"ab"}"#),
        created_at: String::new(),
        updated_at: String::new(),
    }
}

#[test]
fn nested_session_with_token() {
    let doc = session_doc(
        r#"{"session":{"id":"s1","active":true,"identity":{"id":"u1","schema_id":"person","traits":{"email":"a@b.com","username":"ab"},"created_at":"2024-01-01","updated_at":"2024-01-02"}},"session_token":"st"}"#,
    );
    let identity = Identity {
        id: "u1".to_string(),
        schema_id: "person".to_string(),
        traits: session_doc(r#"{"email":"a@b.com","username":"ab"}"#),
        created_at: "2024-01-01".to_string(),
        updated_at: "2024-01-02".to_string(),
    };
    assert_eq!(
        extract(&doc),
        Ok((
            identity.duplicate(),
            Some(Session {
                id: "s1".to_string(),
                active: true,
                identity,
                token: Some("st".to_string()),
            })
        ))
    );
}

#[test]
fn flat_session_is_itself_the_session() {
    let doc = session_doc(
        r#"{"id":"s9","active":true,"identity":{"id":"u1","traits":{"email":"a@b.com","username":"ab"}}}"#,
    );
    assert_eq!(
        extract(&doc),
        Ok((
            sample_identity(),
            Some(Session {
                id: "s9".to_string(),
                active: true,
                identity: sample_identity(),
                token: None,
            })
        ))
    );
}

#[test]
fn identity_without_session() {
    let doc = session_doc(
        r#"{"identity":{"id":"u1","traits":{"email":"a@b.com","username":"ab"}},"session_token":"ignored"}"#,
    );
    assert_eq!(extract(&doc), Ok((sample_identity(), None)));
}

#[test]
fn active_defaults_to_false() {
    let absent = session_doc(
        r#"{"session":{"id":"s1","identity":{"id":"u1","traits":{"email":"a@b.com","username":"ab"}}}}"#,
    );
    let not_bool = session_doc(
        r#"{"session":{"id":"s1","active":"true","identity":{"id":"u1","traits":{"email":"a@b.com","username":"ab"}}}}"#,
    );
    let denied = session_doc(
        r#"{"session":{"id":"s1","active":false,"identity":{"id":"u1","traits":{"email":"a@b.com","username":"ab"}}}}"#,
    );
    for doc in [absent, not_bool, denied] {
        let (_, session) = extract(&doc).expect("extracted");
        let session = session.expect("session");
        assert!(!session.active);
        assert!(!session.is_authenticated());
    }
}

#[test]
fn schema_and_dates_have_defaults() {
    let doc = session_doc(
        r#"{"identity":{"id":"u1","schema_id":7,"traits":{"email":"a@b.com","username":"ab"}}}"#,
    );
    let (identity, _) = extract(&doc).expect("extracted");
    assert_eq!(identity.schema_id, "default");
    assert_eq!(identity.created_at, "");
    assert_eq!(identity.updated_at, "");
}

#[test]
fn missing_fields_are_named() {
    let cases = [
        (r#"{}"#, "identity"),
        (r#"{"other":1}"#, "identity"),
        (r#"{"identity":{"traits":{"email":"a@b.com","username":"ab"}}}"#, "id"),
        (r#"{"identity":{"id":7,"traits":{"email":"a@b.com","username":"ab"}}}"#, "id"),
        (r#"{"identity":{"id":"","traits":{"email":"a@b.com","username":"ab"}}}"#, "id"),
        (r#"{"identity":{"id":"u1"}}"#, "email"),
        (r#"{"identity":{"id":"u1","traits":{"username":"ab"}}}"#, "email"),
        (r#"{"identity":{"id":"u1","traits":{"email":"a@b.com"}}}"#, "username"),
        (r#"{"identity":{"id":"u1","traits":{"email":"a@b.com","username":null}}}"#, "username"),
        (r#"{"session":{"id":"s1","active":true}}"#, "id"),
        (r#"{"session":null,"identity":{"id":"u1","traits":{"email":"a@b.com","username":"ab"}}}"#, "id"),
        (
            r#"{"session":{"active":true,"identity":{"id":"u1","traits":{"email":"a@b.com","username":"ab"}}}}"#,
            "session.id",
        ),
    ];
    for (text, name) in cases {
        assert_eq!(
            extract(&session_doc(text)),
            Err(AuthError::MissingField(name.to_string())),
            "for {}",
            text
        );
    }
}

#[test]
fn the_identity_id_is_the_providers_and_never_empty() {
    let doc = session_doc(
        r#"{"session":{"id":"s1","active":true,"identity":{"id":"the-id","traits":{"email":"a@b.com","username":"ab"}}},"identity":{"id":"other","traits":{"email":"x@y.z","username":"xy"}}}"#,
    );
    let (identity, session) = extract(&doc).expect("extracted");
    assert_eq!(identity.id, "the-id");
    assert!(!identity.id.is_empty());
    assert_eq!(session.expect("session").identity.id, "the-id");
}

#[test]
fn identity_from_json_reads_the_object() {
    assert_eq!(
        Identity::from_json(&session_doc(
            r#"{"id":"u1","traits":{"email":"a@b.com","username":"ab"}}"#
        )),
        Ok(sample_identity())
    );
    assert_eq!(
        Identity::from_json(&Json::Null),
        Err(AuthError::MissingField("id".to_string()))
    );
}

#[test]
fn traits_are_spelled_out() {
    assert_eq!(
        IdentityTraits::from_json(&session_doc(
            r#"{"email":"a@b.com","username":"ab","geo_location":"NL"}"#
        )),
        Ok(IdentityTraits {
            email: "a@b.com".to_string(),
            username: "ab".to_string(),
            geo_location: Some("NL".to_string()),
        })
    );
    assert_eq!(
        IdentityTraits::from_json(&session_doc(r#"{"email":"a@b.com","username":"ab","geo_location":3}"#)),
        Ok(IdentityTraits {
            email: "a@b.com".to_string(),
            username: "ab".to_string(),
            geo_location: None,
        })
    );
    assert_eq!(
        IdentityTraits::from_json(&session_doc(r#"{"username":"ab"}"#)),
        Err(AuthError::MissingField("email".to_string()))
    );
    assert_eq!(
        IdentityTraits::from_json(&session_doc(r#"{"email":"a@b.com"}"#)),
        Err(AuthError::MissingField("username".to_string()))
    );
}

#[test]
fn typed_identity_and_session_keep_every_field() {
    let identity = sample_identity();
    let typed = KratosIdentity {
        id: "u1".to_string(),
        schema_id: "default".to_string(),
        traits: IdentityTraits {
            email: "a@b.com".to_string(),
            username: "ab".to_string(),
            geo_location: None,
        },
        created_at: String::new(),
        updated_at: String::new(),
    };
    assert_eq!(KratosIdentity::from_identity(&identity), Ok(KratosIdentity { ..typed }));
    let session = Session { id: "s1".to_string(), active: true, identity, token: None };
    let typed_again = KratosIdentity::from_identity(&session.identity).unwrap();
    assert_eq!(
        KratosSession::from_session(&session),
        Ok(KratosSession { id: "s1".to_string(), active: true, identity: typed_again })
    );
}
