use kratos_flow::jwt::{Claims, JwtService, CLOCK_MAX, CLOCK_MIN, TOKEN_LIFETIME_SECS};
use kratos_flow::local::{local_login, local_login_with, local_register, local_register_with, LocalSession, ID_CHARS};
use kratos_flow::accounts::{RegisterInput, UserView};

fn decode_claims(token: &str, secret: &str) -> serde_json::Value {
    let mut validation = jsonwebtoken::Validation::new(jsonwebtoken::Algorithm::HS256);
    validation.validate_exp = false;
    validation.required_spec_claims.clear();
    jsonwebtoken::decode::<serde_json::Value>(
        token,
        &jsonwebtoken::DecodingKey::from_secret(secret.as_bytes()),
        &validation,
    )
    .expect("a token that verifies")
    .claims
}

#[test]
fn claims_expire_a_day_later() {
    assert_eq!(TOKEN_LIFETIME_SECS, 86400);
    assert_eq!(
        JwtService::claims("u1", "a@b.com", 1_700_000_000),
        Some(Claims { sub: "u1".to_string(), email: "a@b.com".to_string(), exp: 1_700_086_400 })
    );
    assert_eq!(
        JwtService::claims("u1", "a@b.com", i64::MAX - 86400).map(|c| c.exp),
        Some(i64::MAX)
    );
    assert_eq!(JwtService::claims("u1", "a@b.com", i64::MAX - 86399), None);
    assert_eq!(JwtService::claims("u1", "a@b.com", -86400).map(|c| c.exp), Some(0));
}

#[test]
fn a_token_carries_the_claims_and_verifies_with_the_secret() {
    let token = JwtService::generate_token_at("u1", "a@b.com", "secret", 1_700_000_000)
        .expect("a token");
    assert_eq!(token.split('.').count(), 3);
    assert_ne!(token, "u1");
    let claims = decode_claims(&token, "secret");
    assert_eq!(claims["sub"], serde_json::Value::from("u1"));
    assert_eq!(claims["email"], serde_json::Value::from("a@b.com"));
    assert_eq!(claims["exp"], serde_json::Value::from(1_700_086_400i64));
    let header = jsonwebtoken::decode_header(&token).expect("header");
    assert_eq!(header.alg, jsonwebtoken::Algorithm::HS256);
}

#[test]
fn the_same_claims_and_secret_give_the_same_token() {
    let one = JwtService::generate_token_at("u1", "a@b.com", "secret", 5);
    let two = JwtService::generate_token_at("u1", "a@b.com", "secret", 5);
    let other = JwtService::generate_token_at("u1", "a@b.com", "other", 5);
    assert_eq!(one, two);
    assert_ne!(one, other);
}

#[test]
fn a_time_out_of_range_is_refused() {
    assert_eq!(
        JwtService::generate_token_at("u1", "a@b.com", "secret", i64::MAX),
        Err("Failed to generate token: timestamp out of range".to_string())
    );
    assert_eq!(
        JwtService::token_from(0, Err("boom".to_string())),
        Err("Failed to generate token: boom".to_string())
    );
    assert_eq!(JwtService::token_from(0, Ok("t".to_string())), Ok("t".to_string()));
    assert_eq!(
        JwtService::token_from(i64::MAX, Ok("t".to_string())),
        Err("Failed to generate token: timestamp out of range".to_string())
    );
}

#[test]
fn the_clocks_bounds_come_of_an_i32_day_and_a_u32_second() {
    assert_eq!(CLOCK_MIN, (i32::MIN as i64 - 719_163) * 86_400);
    assert_eq!(CLOCK_MAX, (i32::MAX as i64 - 719_163) * 86_400 + u32::MAX as i64);
    let now = chrono::Utc::now().timestamp();
    assert!(CLOCK_MIN <= now && now <= CLOCK_MAX);
    assert_eq!(chrono::DateTime::<chrono::Utc>::MAX_UTC.timestamp() <= CLOCK_MAX, true);
    assert_eq!(chrono::DateTime::<chrono::Utc>::MIN_UTC.timestamp() >= CLOCK_MIN, true);
    for now in [CLOCK_MIN, 0, CLOCK_MAX] {
        let token = JwtService::generate_token_at("u1", "a@b.com", "secret", now).expect("a token");
        assert_eq!(
            decode_claims(&token, "secret")["exp"],
            serde_json::Value::from(now + 86400)
        );
    }
}

#[test]
fn a_token_minted_now_expires_in_a_day() {
    let before = std::time::SystemTime::now()
        .duration_since(std::time::UNIX_EPOCH)
        .expect("clock")
        .as_secs() as i64;
    let token = JwtService::generate_token("u1", "a@b.com", "secret").expect("a token");
    let after = std::time::SystemTime::now()
        .duration_since(std::time::UNIX_EPOCH)
        .expect("clock")
        .as_secs() as i64;
    let exp = decode_claims(&token, "secret")["exp"].as_i64().expect("exp");
    assert!(before + 86400 <= exp && exp <= after + 86400);
}

#[test]
fn local_login_issues_a_placeholder_user() {
    let issued = local_login("a@b.com", "pw", "secret").expect("issued");
    assert_eq!(ID_CHARS, 36);
    assert_eq!(issued.user.id.chars().count(), 36);
    assert_eq!(issued.user.email, "a@b.com");
    assert_eq!(issued.user.login, "user");
    assert_eq!(issued.user.created_at, issued.user.updated_at);
    assert!(!issued.user.created_at.is_empty());
    let claims = decode_claims(&issued.session_token, "secret");
    assert_eq!(claims["sub"], serde_json::Value::from(issued.user.id.as_str()));
    assert_eq!(claims["email"], serde_json::Value::from("a@b.com"));
    let again = local_login("a@b.com", "pw", "secret").expect("issued");
    assert_ne!(again.user.id, issued.user.id);
}

#[test]
fn local_login_refuses_empty_inputs() {
    assert_eq!(local_login("", "pw", "secret"), Err("Invalid email or password".to_string()));
    assert_eq!(local_login("a@b.com", "", "secret"), Err("Invalid email or password".to_string()));
    assert_eq!(
        local_login_with("", "pw", "id".to_string(), "t", Ok("tok".to_string())),
        Err("Invalid email or password".to_string())
    );
    assert_eq!(
        local_login_with("a", "pw", "id".to_string(), "t", Err("no token".to_string())),
        Err("no token".to_string())
    );
    assert_eq!(
        local_login_with("a", "pw", "id".to_string(), "t", Ok("tok".to_string())),
        Ok(LocalSession {
            session_token: "tok".to_string(),
            user: UserView {
                id: "id".to_string(),
                email: "a".to_string(),
                login: "user".to_string(),
                created_at: "t".to_string(),
                updated_at: "t".to_string(),
            },
        })
    );
}

#[test]
fn local_register_checks_the_form() {
    let form = RegisterInput {
        email: "a@b.com".to_string(),
        username: "abc".to_string(),
        password: "longenough1".to_string(),
        geo_location: None,
    };
    let issued = local_register(&form, "secret").expect("issued");
    assert_eq!(issued.user.login, "abc");
    assert_eq!(issued.user.email, "a@b.com");
    assert_eq!(issued.user.id.chars().count(), 36);
    let bad = RegisterInput { email: "nope".to_string(), ..form_copy(&form) };
    assert_eq!(
        local_register(&bad, "secret"),
        Err("Validation error: Email is not valid".to_string())
    );
    assert_eq!(
        local_register_with(&form, false, "id".to_string(), "t", Ok("tok".to_string())),
        Err("Validation error: Email is not valid".to_string())
    );
    assert_eq!(
        local_register_with(&form, true, "id".to_string(), "t", Err("m".to_string())),
        Err("m".to_string())
    );
    assert_eq!(
        local_register_with(&form, true, "id".to_string(), "t", Ok("tok".to_string()))
            .map(|s| s.user.id),
        Ok("id".to_string())
    );
}

fn form_copy(form: &RegisterInput) -> RegisterInput {
    RegisterInput {
        email: form.email.clone(),
        username: form.username.clone(),
        password: form.password.clone(),
        geo_location: form.geo_location.clone(),
    }
}
