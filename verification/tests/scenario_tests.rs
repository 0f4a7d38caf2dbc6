use kratos_flow::accounts::{answer, LoginInput, LoginUseCase, RegisterInput, RegisterUseCase};
use kratos_flow::client::KratosClient;
use kratos_flow::error::AuthError;
use kratos_flow::http::{HttpRequest, HttpResponse, Method, Reply};
use kratos_flow::json::{Json, Member};
use kratos_flow::kratos::KratosSession;
use kratos_flow::lookup::{Cookies, LogoutRun, SessionProof};
use kratos_flow::orchestrator::{FlowOutcome, FlowRun, Progress, Stage};
use kratos_flow::usecases::{
    GetSession, Login, LoginResponse, LoginRun, Logout, SessionRun, Signup, SignupResponse,
};

const SCENARIO_FLOW: &str = r#"{"id":"f1","ui":{"nodes":[{"attributes":{"name":"csrf_token","value":"tok1"}}]}}"#;
const SCENARIO_SESSION: &str = r#"{"session":{"id":"s1","active":true,"identity":{"id":"u1","traits":{"email":"a@b.com","username":"ab"}}},"session_token":"st"}"#;
const SCENARIO_WHOAMI: &str = r#"{"id":"s1","active":true,"identity":{"id":"u1","traits":{"email":"a@b.com","username":"ab"}}}"#;

fn scenario_client() -> KratosClient {
    KratosClient::new("http://localhost:4434".to_string(), "http://localhost:4433".to_string())
}

fn scenario_reply(status: u16, cookies: &[&str], location: Option<&str>, body: &str) -> Reply {
    Reply::Response(HttpResponse {
        status,
        set_cookies: cookies.iter().map(|c| c.to_string()).collect(),
        location: location.map(|l| l.to_string()),
        body: body.to_string(),
    })
}

fn scenario_obj(entries: Vec<(&str, Json)>) -> Json {
    Json::Object(
        entries
            .into_iter()
            .map(|(key, value)| Member { key: key.to_string(), value })
            .collect(),
    )
}

fn expect_send<R: std::fmt::Debug, T: std::fmt::Debug>(progress: Progress<R, T>) -> (R, HttpRequest) {
    match progress {
        Progress::Send(run, request) => (run, request),
        other => panic!("a request was expected, not {:?}", other),
    }
}

fn expect_done<R: std::fmt::Debug, T: std::fmt::Debug>(progress: Progress<R, T>) -> Result<T, AuthError> {
    match progress {
        Progress::Done(result) => result,
        other => panic!("the end was expected, not {:?}", other),
    }
}

#[test]
fn signup_scenario_fetches_submits_and_returns_the_identity() {
    let client = scenario_client();
    let signup = Signup::new(
        "a@b.com".to_string(),
        "longenough1".to_string(),
        Json::object(),
        None,
    );
    let (run, request) = expect_send(signup.execute(&client));
    assert_eq!(run.stage, Stage::AwaitingFlow);
    assert_eq!(
        request,
        HttpRequest {
            method: Method::Get,
            url: "http://127.0.0.1:4433/self-service/registration/api".to_string(),
            cookie: None,
            session_token: None,
            body: None,
        }
    );

    let (run, request) =
        expect_send(run.resume(&client, scenario_reply(200, &["csrf=abc"], None, SCENARIO_FLOW)));
    assert_eq!(run.stage, Stage::Submitted);
    assert_eq!(
        request,
        HttpRequest {
            method: Method::Post,
            url: "http://127.0.0.1:4433/self-service/registration?flow=f1".to_string(),
            cookie: Some("csrf=abc".to_string()),
            session_token: None,
            body: Some(scenario_obj(vec![
                ("method", Json::text("password")),
                ("password", Json::text("longenough1")),
                ("traits", scenario_obj(vec![("email", Json::text("a@b.com"))])),
                ("csrf_token", Json::text("tok1")),
            ])),
        }
    );

    let outcome = expect_done(run.resume(
        &client,
        scenario_reply(200, &["ory_kratos_session=xyz"], None, SCENARIO_SESSION),
    ))
    .expect("signed up");
    assert_eq!(outcome.identity.id, "u1");
    assert_eq!(outcome.identity.traits.text_at("email"), Some("a@b.com".to_string()));
    assert_eq!(outcome.identity.traits.text_at("username"), Some("ab".to_string()));
    assert!(!outcome.cookies.is_empty());
    assert_eq!(outcome.cookies, vec!["ory_kratos_session=xyz".to_string()]);

    let response = SignupResponse::from_outcome(outcome);
    assert_eq!(response.identity.id, "u1");
    assert_eq!(response.session_token, Some("st".to_string()));
    assert_eq!(response.session.expect("session").id, "s1");
    assert_eq!(response.cookies, vec!["ory_kratos_session=xyz".to_string()]);
}

#[test]
fn signup_with_bad_inputs_sends_nothing() {
    let client = scenario_client();
    let cases = [
        ("", "longenough1", AuthError::ValidationFailure("email".to_string(), "Email is required".to_string())),
        ("not-an-email", "longenough1", AuthError::ValidationFailure("email".to_string(), "Email is not valid".to_string())),
        ("a@b.com", "short", AuthError::ValidationFailure("password".to_string(), "Password must be at least 8 characters".to_string())),
    ];
    for (email, password, failure) in cases {
        let signup = Signup::new(email.to_string(), password.to_string(), Json::Null, None);
        assert_eq!(expect_done(signup.execute(&client)), Err(failure));
    }
}

#[test]
fn two_hop_fetch_forwards_a_then_b_then_c() {
    let client = scenario_client();
    let (run, request) = expect_send(client.handle_login("user", "pw", Some("A")));
    assert_eq!(request.url, "http://127.0.0.1:4433/self-service/login/browser");
    assert_eq!(request.cookie, Some("A".to_string()));

    let (run, request) = expect_send(run.resume(
        &client,
        scenario_reply(303, &["B"], Some("http://127.0.0.1:4455/login/flows?flow=XYZ"), ""),
    ));
    assert_eq!(run.stage, Stage::AwaitingFlowRead);
    assert_eq!(request.method, Method::Get);
    assert_eq!(request.url, "http://127.0.0.1:4433/self-service/login/flows?id=XYZ");
    assert_eq!(request.cookie, Some("A; B".to_string()));

    let (run, request) =
        expect_send(run.resume(&client, scenario_reply(200, &["C"], None, SCENARIO_FLOW)));
    assert_eq!(run.stage, Stage::Submitted);
    assert_eq!(request.method, Method::Post);
    assert_eq!(request.url, "http://127.0.0.1:4433/self-service/login?flow=f1");
    assert_eq!(request.cookie, Some("A; B; C".to_string()));
    assert_eq!(
        request.body,
        Some(scenario_obj(vec![
            ("method", Json::text("password")),
            ("password", Json::text("pw")),
            ("identifier", Json::text("user")),
            ("csrf_token", Json::text("tok1")),
        ]))
    );

    let outcome =
        expect_done(run.resume(&client, scenario_reply(200, &["S"], None, SCENARIO_SESSION)))
            .expect("logged in");
    assert_eq!(outcome.cookies, vec!["S".to_string()]);
    let (session, cookies) = KratosSession::from_outcome(&outcome).expect("typed session");
    assert_eq!(session.id, "s1");
    assert!(session.active);
    assert_eq!(session.identity.traits.email, "a@b.com");
    assert_eq!(cookies, vec!["S".to_string()]);
}

#[test]
fn a_flow_without_csrf_token_ends_the_attempt_before_any_post() {
    let client = scenario_client();
    let (run, _) = expect_send(client.handle_signup("a@b.com", "ab", "longenough1", None));
    let result = expect_done(run.resume(
        &client,
        scenario_reply(200, &[], None, r#"{"id":"f1","ui":{"nodes":[]}}"#),
    ));
    assert_eq!(result, Err(AuthError::MissingField("csrf_token".to_string())));

    let (run, _) = expect_send(client.handle_signup("a@b.com", "ab", "longenough1", None));
    let (run, _) =
        expect_send(run.resume(&client, scenario_reply(303, &[], Some("/r?flow=1"), "")));
    let result =
        expect_done(run.resume(&client, scenario_reply(200, &[], None, r#"{"id":"f1"}"#)));
    assert_eq!(result, Err(AuthError::MissingField("csrf_token".to_string())));
}

#[test]
fn a_flow_without_id_ends_the_attempt() {
    let client = scenario_client();
    let (run, _) = expect_send(client.handle_login("u", "p", None));
    let result = expect_done(run.resume(
        &client,
        scenario_reply(
            200,
            &[],
            None,
            r#"{"ui":{"nodes":[{"attributes":{"name":"csrf_token","value":"t"}}]}}"#,
        ),
    ));
    assert_eq!(result, Err(AuthError::MissingField("flow.id".to_string())));
}

#[test]
fn handle_signup_submits_the_username_as_a_trait() {
    let client = scenario_client();
    let (run, _) = expect_send(client.handle_signup("a@b.com", "ab", "longenough1", Some("A")));
    let (_, request) =
        expect_send(run.resume(&client, scenario_reply(200, &[], None, SCENARIO_FLOW)));
    assert_eq!(request.cookie, Some("A".to_string()));
    assert_eq!(
        request.body,
        Some(scenario_obj(vec![
            ("method", Json::text("password")),
            ("password", Json::text("longenough1")),
            (
                "traits",
                scenario_obj(vec![("email", Json::text("a@b.com")), ("username", Json::text("ab"))])
            ),
            ("csrf_token", Json::text("tok1")),
        ]))
    );
}

#[test]
fn failures_of_the_submission_end_the_attempt() {
    let client = scenario_client();
    let replies = [
        (scenario_reply(400, &[], None, "bad"), AuthError::ProtocolFailure(400, "bad".to_string())),
        (Reply::Unreachable("down".to_string()), AuthError::NetworkFailure("down".to_string())),
        (scenario_reply(200, &[], None, "{}"), AuthError::MissingField("identity".to_string())),
    ];
    for (reply, failure) in replies {
        let (run, _) = expect_send(client.handle_login("u", "p", None));
        let (run, _) =
            expect_send(run.resume(&client, scenario_reply(200, &[], None, SCENARIO_FLOW)));
        assert_eq!(expect_done(run.resume(&client, reply)), Err(failure));
    }
}

#[test]
fn get_session_with_an_invalid_cookie_is_unauthorized() {
    let client = scenario_client();
    let (run, request) = expect_send(GetSession::new("expired".to_string()).execute(&client));
    assert_eq!(
        request,
        HttpRequest {
            method: Method::Get,
            url: "http://127.0.0.1:4433/sessions/whoami".to_string(),
            cookie: None,
            session_token: Some("expired".to_string()),
            body: None,
        }
    );
    let result = expect_done(run.resume(
        &client,
        scenario_reply(401, &[], None, r#"{"error":{"message":"secret provider detail"}}"#),
    ));
    assert_eq!(result, Err(AuthError::Unauthorized));
    assert_eq!(AuthError::Unauthorized.message(), "Unauthorized");
}

#[test]
fn get_session_is_unauthorized_for_every_status_but_success() {
    let client = scenario_client();
    for status in [100u16, 199, 300, 302, 303, 400, 401, 403, 404, 500, 503] {
        assert_eq!(
            client.session_found(scenario_reply(status, &[], None, SCENARIO_WHOAMI)),
            Err(AuthError::Unauthorized)
        );
    }
}

#[test]
fn get_session_twice_returns_the_same_identity() {
    let client = scenario_client();
    let mut ids = Vec::new();
    let mut requests = Vec::new();
    for cookies in [vec!["x=1"], vec![]] {
        let (run, request) = expect_send(GetSession::new("valid".to_string()).execute(&client));
        requests.push(request);
        let session =
            expect_done(run.resume(&client, scenario_reply(200, &cookies, None, SCENARIO_WHOAMI)))
                .expect("session");
        assert!(session.is_authenticated());
        ids.push(session.identity.id);
    }
    assert_eq!(ids[0], "u1");
    assert_eq!(ids[0], ids[1]);
    assert_eq!(requests[0], requests[1]);
}

#[test]
fn get_session_refuses_an_inactive_session_and_an_empty_token() {
    let client = scenario_client();
    let inactive = r#"{"id":"s1","active":false,"identity":{"id":"u1","traits":{"email":"a@b.com","username":"ab"}}}"#;
    assert_eq!(
        client.session_found(scenario_reply(200, &[], None, inactive)),
        Err(AuthError::Unauthorized)
    );
    let no_session = r#"{"identity":{"id":"u1","traits":{"email":"a@b.com","username":"ab"}}}"#;
    assert_eq!(
        client.session_found(scenario_reply(200, &[], None, no_session)),
        Err(AuthError::MissingField("session.id".to_string()))
    );
    assert_eq!(
        client.session_found(scenario_reply(200, &[], None, "oops")),
        Err(AuthError::ProtocolFailure(200, "expected value at line 1 column 1".to_string()))
    );
    assert_eq!(
        client.session_found(Reply::Unreachable("down".to_string())),
        Err(AuthError::NetworkFailure("down".to_string()))
    );
    assert_eq!(
        expect_done(GetSession::new(String::new()).execute(&client)),
        Err(AuthError::ValidationFailure(
            "token".to_string(),
            "Session token is required".to_string()
        ))
    );
    let _ = SessionRun;
}

#[test]
fn current_user_reads_the_traits_of_the_session() {
    let client = scenario_client();
    let request = client.handle_get_current_user("ory=1");
    assert_eq!(request.cookie, Some("ory=1".to_string()));
    assert_eq!(request.session_token, None);
    assert_eq!(request.url, "http://127.0.0.1:4433/sessions/whoami");
    let traits = client
        .current_user(scenario_reply(200, &[], None, SCENARIO_WHOAMI))
        .expect("traits");
    assert_eq!(traits.email, "a@b.com");
    assert_eq!(traits.username, "ab");
    assert_eq!(traits.geo_location, None);
    assert_eq!(
        client.current_user(scenario_reply(401, &[], None, "")),
        Err(AuthError::Unauthorized)
    );
}

#[test]
fn login_is_refused_when_the_cookie_proves_an_active_session() {
    let client = scenario_client();
    let login = Login::new("user".to_string(), "pw".to_string(), Some("A".to_string()));
    let (run, request) = expect_send(login.execute(&client));
    assert_eq!(request.method, Method::Get);
    assert_eq!(request.url, "http://127.0.0.1:4433/sessions/whoami");
    assert_eq!(request.cookie, Some("A".to_string()));
    assert!(matches!(run, LoginRun::CheckingSession { .. }));
    let result = expect_done(run.resume(&client, scenario_reply(200, &[], None, SCENARIO_WHOAMI)));
    assert_eq!(
        result,
        Err(AuthError::ValidationFailure(
            "session".to_string(),
            "Already logged in. Please logout first before logging in again.".to_string()
        ))
    );
}

#[test]
fn login_goes_on_when_the_cookie_proves_no_session() {
    let client = scenario_client();
    let inactive = r#"{"id":"s1","active":false,"identity":{"id":"u1","traits":{"email":"a@b.com","username":"ab"}}}"#;
    let replies = [
        scenario_reply(401, &[], None, ""),
        scenario_reply(200, &[], None, inactive),
        Reply::Unreachable("down".to_string()),
    ];
    for reply in replies {
        let login = Login::new("user".to_string(), "pw".to_string(), Some("A".to_string()));
        let (run, _) = expect_send(login.execute(&client));
        let (run, request) = expect_send(run.resume(&client, reply));
        assert_eq!(request.method, Method::Get);
        assert_eq!(request.url, "http://127.0.0.1:4433/self-service/login/api");
        assert_eq!(request.cookie, Some("A".to_string()));
        let (run, request) =
            expect_send(run.resume(&client, scenario_reply(200, &["B"], None, SCENARIO_FLOW)));
        assert_eq!(request.method, Method::Post);
        assert_eq!(request.cookie, Some("A; B".to_string()));
        let outcome =
            expect_done(run.resume(&client, scenario_reply(200, &["S"], None, SCENARIO_SESSION)))
                .expect("logged in");
        let response = LoginResponse::from_outcome(outcome).expect("session");
        assert_eq!(response.session.id, "s1");
        assert_eq!(response.session_token, Some("st".to_string()));
        assert_eq!(response.cookies, vec!["S".to_string()]);
    }
}

#[test]
fn session_checked_ends_or_begins_the_flow() {
    let client = scenario_client();
    let checked = |logged_in: bool| {
        LoginRun::session_checked(
            &client,
            kratos_flow::client::FlowMode::Browser,
            "user".to_string(),
            "pw".to_string(),
            "A".to_string(),
            logged_in,
        )
    };
    assert!(matches!(
        checked(true),
        Progress::Done(Err(AuthError::ValidationFailure(_, _)))
    ));
    let (run, request) = expect_send(checked(false));
    assert!(matches!(run, LoginRun::Flow(_)));
    assert_eq!(request.url, "http://127.0.0.1:4433/self-service/login/browser");
    assert_eq!(request.cookie, Some("A".to_string()));
}

#[test]
fn login_without_cookie_goes_to_the_flow_at_once() {
    let client = scenario_client();
    let login = Login::new("user".to_string(), "pw".to_string(), None);
    let (run, request) = expect_send(login.execute(&client));
    assert!(matches!(run, LoginRun::Flow(_)));
    assert_eq!(request.url, "http://127.0.0.1:4433/self-service/login/api");
    assert_eq!(request.cookie, None);
}

#[test]
fn login_with_bad_inputs_sends_nothing() {
    let client = scenario_client();
    assert_eq!(
        expect_done(Login::new(String::new(), "pw".to_string(), None).execute(&client)),
        Err(AuthError::ValidationFailure(
            "identifier".to_string(),
            "Identifier is required".to_string()
        ))
    );
    assert_eq!(
        expect_done(
            Login::new("user".to_string(), String::new(), Some("A".to_string())).execute(&client)
        ),
        Err(AuthError::ValidationFailure("password".to_string(), "Password is required".to_string()))
    );
}

#[test]
fn a_login_that_ends_without_session_lacks_the_session() {
    let identity_only = FlowOutcome {
        identity: kratos_flow::session::Identity {
            id: "u1".to_string(),
            schema_id: "default".to_string(),
            traits: Json::Null,
            created_at: String::new(),
            updated_at: String::new(),
        },
        session: None,
        cookies: vec![],
    };
    assert_eq!(
        KratosSession::from_outcome(&identity_only),
        Err(AuthError::MissingField("session".to_string()))
    );
    assert_eq!(
        LoginResponse::from_outcome(identity_only),
        Err(AuthError::MissingField("session".to_string()))
    );
}

#[test]
fn logout_takes_two_hops() {
    let client = scenario_client();
    let (run, request) = expect_send(client.handle_logout(SessionProof::Cookie("A".to_string())));
    assert_eq!(run, LogoutRun::AwaitingUrl(SessionProof::Cookie("A".to_string())));
    assert_eq!(
        request,
        HttpRequest {
            method: Method::Get,
            url: "http://127.0.0.1:4433/self-service/logout/browser".to_string(),
            cookie: Some("A".to_string()),
            session_token: None,
            body: None,
        }
    );
    let (run, request) = expect_send(run.resume(scenario_reply(
        200,
        &["ignored"],
        None,
        r#"{"logout_url":"http://localhost:4433/self-service/logout?token=t1"}"#,
    )));
    assert_eq!(run, LogoutRun::AwaitingLogout);
    assert_eq!(request.url, "http://127.0.0.1:4433/self-service/logout?token=t1");
    assert_eq!(request.cookie, Some("A".to_string()));
    let result = expect_done(run.resume(scenario_reply(204, &["gone=1"], None, "")));
    assert_eq!(result, Ok(Cookies(vec!["gone=1".to_string()])));
}

#[test]
fn logout_fails_when_a_hop_fails() {
    let client = scenario_client();
    let (run, _) = expect_send(Logout::new("tok".to_string()).execute(&client));
    assert_eq!(run, LogoutRun::AwaitingUrl(SessionProof::Token("tok".to_string())));
    assert_eq!(
        expect_done(run.resume(scenario_reply(401, &[], None, "no"))),
        Err(AuthError::ProtocolFailure(401, "no".to_string()))
    );
    let (run, request) = expect_send(Logout::new("tok".to_string()).execute(&client));
    assert_eq!(request.session_token, Some("tok".to_string()));
    assert_eq!(request.cookie, None);
    assert_eq!(
        expect_done(run.resume(scenario_reply(200, &[], None, "{}"))),
        Err(AuthError::MissingField("logout_url".to_string()))
    );
    assert_eq!(
        expect_done(LogoutRun::AwaitingLogout.resume(scenario_reply(500, &[], None, "boom"))),
        Err(AuthError::ProtocolFailure(500, "boom".to_string()))
    );
    assert_eq!(
        expect_done(LogoutRun::AwaitingLogout.resume(Reply::Unreachable("x".to_string()))),
        Err(AuthError::NetworkFailure("x".to_string()))
    );
    assert_eq!(
        expect_done(Logout::new(String::new()).execute(&client)),
        Err(AuthError::ValidationFailure(
            "token".to_string(),
            "Session token is required".to_string()
        ))
    );
}

#[test]
fn form_login_checks_the_form_and_uses_the_email_first() {
    let client = scenario_client();
    let form = LoginInput {
        email: Some("a@b.com".to_string()),
        username: Some("ab".to_string()),
        password: "pw".to_string(),
    };
    let (run, request) = expect_send(LoginUseCase::execute(form, &client, None));
    assert_eq!(request.url, "http://127.0.0.1:4433/self-service/login/browser");
    let (_, request) = match run {
        LoginRun::Flow(flow) => {
            expect_send(flow.resume(&client, scenario_reply(200, &[], None, SCENARIO_FLOW)))
        }
        other => panic!("unexpected run: {:?}", other),
    };
    assert_eq!(
        request.body.expect("body").text_at("identifier"),
        Some("a@b.com".to_string())
    );

    let by_name = LoginInput { email: None, username: Some("ab".to_string()), password: "pw".to_string() };
    let (run, request) = expect_send(LoginUseCase::execute(by_name, &client, Some("A".to_string())));
    assert_eq!(request.url, "http://127.0.0.1:4433/sessions/whoami");
    match run {
        LoginRun::CheckingSession { identifier, cookie, .. } => {
            assert_eq!(identifier, "ab");
            assert_eq!(cookie, "A");
        }
        other => panic!("unexpected run: {:?}", other),
    }
}

#[test]
fn form_login_names_each_refusal() {
    let cases = [
        (None, None, "pw", "identifier", "Email or username required"),
        (Some("a@b.com"), None, "", "password", "Password cannot be empty"),
        (Some(""), Some("ab"), "pw", "email", "Email cannot be empty"),
        (None, Some(""), "pw", "username", "Username cannot be empty"),
        (Some(""), None, "", "password", "Password cannot be empty"),
    ];
    let client = scenario_client();
    for (email, username, password, field, reason) in cases {
        let failure = AuthError::ValidationFailure(field.to_string(), reason.to_string());
        let form = LoginInput {
            email: email.map(|e: &str| e.to_string()),
            username: username.map(|u: &str| u.to_string()),
            password: password.to_string(),
        };
        assert_eq!(LoginUseCase::validate_input(&form), Err(failure.duplicate()));
        assert_eq!(expect_done(LoginUseCase::execute(form, &client, None)), Err(failure));
    }
    let fine = LoginInput { email: Some("a".to_string()), username: None, password: "p".to_string() };
    assert_eq!(LoginUseCase::validate_input(&fine), Ok(()));
}

#[test]
fn form_registration_checks_the_form_and_submits_the_traits() {
    let client = scenario_client();
    let form = RegisterInput {
        email: "a@b.com".to_string(),
        username: "abc".to_string(),
        password: "longenough1".to_string(),
        geo_location: Some("NL".to_string()),
    };
    assert_eq!(RegisterUseCase::validate_input(&form), Ok(()));
    let (run, request) = expect_send(RegisterUseCase::execute(form, &client, Some("A".to_string())));
    assert_eq!(request.url, "http://127.0.0.1:4433/self-service/registration/browser");
    assert_eq!(request.cookie, Some("A".to_string()));
    let (run, request) =
        expect_send(run.resume(&client, scenario_reply(200, &[], None, SCENARIO_FLOW)));
    assert_eq!(
        request.body.expect("body").get("traits"),
        Some(&scenario_obj(vec![
            ("email", Json::text("a@b.com")),
            ("username", Json::text("abc")),
            ("geo_location", Json::text("NL")),
        ]))
    );
    let outcome =
        expect_done(run.resume(&client, scenario_reply(200, &["S"], None, SCENARIO_SESSION)))
            .expect("registered");
    let (response, cookies) = answer(&outcome).expect("answer");
    assert_eq!(response.user.id, "u1");
    assert_eq!(response.user.email, "a@b.com");
    assert_eq!(response.user.login, "ab");
    assert_eq!(cookies, vec!["S".to_string()]);
    let _: Option<FlowRun> = None;
}

#[test]
fn form_registration_names_each_refusal() {
    let client = scenario_client();
    let cases = [
        ("nope", "abc", "longenough1", "email", "Email is not valid"),
        ("", "abc", "longenough1", "email", "Email is not valid"),
        ("a@b.com", "ab", "longenough1", "username", "Username must be between 3 and 20 characters"),
        ("a@b.com", "abcdefghijklmnopqrstu", "longenough1", "username", "Username must be between 3 and 20 characters"),
        ("a@b.com", "abc", "1234567", "password", "Password must be at least 8 characters"),
    ];
    for (email, username, password, field, reason) in cases {
        let form = RegisterInput {
            email: email.to_string(),
            username: username.to_string(),
            password: password.to_string(),
            geo_location: None,
        };
        let failure = AuthError::ValidationFailure(field.to_string(), reason.to_string());
        assert_eq!(RegisterUseCase::validate_input(&form), Err(failure.duplicate()));
        assert_eq!(expect_done(RegisterUseCase::execute(form, &client, None)), Err(failure));
    }
}
