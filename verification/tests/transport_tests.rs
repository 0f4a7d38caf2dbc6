use kratos_flow::transport::{
    bearer_token, clear_session_cookie, session_token_from_cookies, set_session_cookie,
    token_of_request, SESSION_COOKIE_MAX_AGE,
};

#[test]
fn session_token_is_found_among_the_cookies() {
    assert_eq!(session_token_from_cookies("session_token=abc"), Some("abc".to_string()));
    assert_eq!(
        session_token_from_cookies("a=1; session_token=abc; b=2"),
        Some("abc".to_string())
    );
    assert_eq!(
        session_token_from_cookies("a=1;\t session_token=abc \t;b=2"),
        Some("abc".to_string())
    );
    assert_eq!(
        session_token_from_cookies("session_token=first; session_token=second"),
        Some("first".to_string())
    );
    assert_eq!(session_token_from_cookies("session_token="), Some(String::new()));
}

#[test]
fn session_token_is_absent_without_such_a_cookie() {
    assert_eq!(session_token_from_cookies(""), None);
    assert_eq!(session_token_from_cookies("a=1; b=2"), None);
    assert_eq!(session_token_from_cookies("xsession_token=abc"), None);
    assert_eq!(session_token_from_cookies("a=session_token=abc"), None);
    assert_eq!(session_token_from_cookies(";;;"), None);
}

#[test]
fn bearer_token_follows_the_scheme() {
    assert_eq!(bearer_token("Bearer abc"), Some("abc".to_string()));
    assert_eq!(bearer_token("Bearer "), Some(String::new()));
    assert_eq!(bearer_token("bearer abc"), None);
    assert_eq!(bearer_token("Basic abc"), None);
    assert_eq!(bearer_token(""), None);
}

#[test]
fn the_cookie_is_looked_at_before_the_authorization_header() {
    assert_eq!(
        token_of_request(Some("session_token=c"), Some("Bearer b")),
        Some("c".to_string())
    );
    assert_eq!(token_of_request(Some("a=1"), Some("Bearer b")), Some("b".to_string()));
    assert_eq!(token_of_request(None, Some("Bearer b")), Some("b".to_string()));
    assert_eq!(token_of_request(Some("a=1"), Some("Basic b")), None);
    assert_eq!(token_of_request(Some("a=1"), None), None);
    assert_eq!(token_of_request(None, None), None);
}

#[test]
fn session_cookies_are_written_in_full() {
    assert_eq!(SESSION_COOKIE_MAX_AGE, 86400);
    assert_eq!(
        set_session_cookie("abc"),
        "session_token=abc; Path=/; HttpOnly; SameSite=Lax; Max-Age=86400"
    );
    assert_eq!(
        clear_session_cookie(),
        "session_token=; Path=/; Max-Age=0; HttpOnly; SameSite=Lax"
    );
}
