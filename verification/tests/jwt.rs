use taitan::middleware::jwt::keys::Key;
use taitan::middleware::jwt::authorizator::{
    AuthorizationResponse, Authorizator, PathWhiteList, TokenBlacklist,
};
use taitan::middleware::jwt::claims::Claims;
use taitan::middleware::jwt::error::AuthError;

#[test]
fn whitelist_add_and_contains() {
    let mut w = PathWhiteList::new();
    assert!(!w.contains("/health"));
    w.add_path("/health");
    w.add_path("/ready");
    assert!(w.contains("/health"));
    assert!(w.contains("/ready"));
    assert!(!w.contains("/healthz"));
    assert!(!w.contains(""));
}

#[test]
fn blacklist_accepts_tokens() {
    let mut b = TokenBlacklist::new();
    assert!(!b.contains("t1"));
    b.add_token("t1");
    b.del_token("t2");
    assert!(b.contains("t1"));
    assert!(b.contains("t2"));
    assert!(!b.contains("t3"));
}

#[test]
fn claims_issued_at() {
    let c = Claims::issued_at("u1", "a1", 1_000, 500);
    assert_eq!(c.user_id, "u1");
    assert_eq!(c.auth_id, "a1");
    assert_eq!(c.iat, 1_000);
    assert_eq!(c.nbf, 1_000);
    assert_eq!(c.exp, 1_500);
    assert_eq!(c.aud, "");
    assert_eq!(c.iss, "");
    assert_eq!(c.sub, "");
}

#[test]
fn claims_new_uses_the_clock_in_seconds() {
    let before = chrono::Utc::now().timestamp() as usize;
    let c = Claims::new("u", "a", 60).unwrap();
    let after = chrono::Utc::now().timestamp() as usize;
    assert!(before <= c.iat && c.iat <= after);
    assert_eq!(c.nbf, c.iat);
    assert_eq!(c.exp, c.iat + 60);
    assert_eq!(c.user_id, "u");
    assert_eq!(c.auth_id, "a");
}

#[test]
fn claims_one_second_lifetime() {
    let c = Claims::issued_at("u", "a", 1_700_000_000, 1);
    assert_eq!(c.exp, 1_700_000_001);
    let d = Claims::issued_at("u", "a", 1_700_000_000, -100);
    assert_eq!(d.exp, 1_699_999_900);
}

#[test]
fn auth_error_messages_and_answers() {
    assert_eq!(AuthError::InvalidToken.to_string(), "invliad token");
    assert_eq!(
        AuthError::JsonWebTokenError("x".to_string()).to_string(),
        "json web token parse error"
    );
    assert_eq!(AuthError::WrongCredentials.status(), 401);
    assert_eq!(AuthError::MissingCredentials.status(), 400);
    assert_eq!(AuthError::TokenCreation.status(), 500);
    assert_eq!(AuthError::InvalidToken.status(), 400);
    assert_eq!(AuthError::JsonWebTokenError(String::new()).status(), 401);
    assert_eq!(
        AuthError::MissingCredentials.response_body(),
        "{\"error\":\"Missing credentials\"}"
    );
    let v: serde_json::Value =
        serde_json::from_str(&AuthError::TokenCreation.response_body()).unwrap();
    assert_eq!(v["error"], "Token creation error");
}

#[test]
fn authorizator_decisions() {
    let mut w = PathWhiteList::new();
    w.add_path("/login");
    let auth = Authorizator::new(w, 3_600, TokenBlacklist::new());
    assert!(!auth.needs_decoding("/login", "tok"));
    assert!(auth.needs_decoding("/api", "tok"));
    assert_eq!(
        auth.validate("/login", "tok", Some(Err(AuthError::InvalidToken))),
        AuthorizationResponse::NotNeed
    );
    assert_eq!(auth.validate("/login", "tok", None), AuthorizationResponse::NotNeed);
    let claims = Claims::issued_at("u", "a", 1, 2);
    assert_eq!(
        auth.validate("/api", "tok", Some(Ok(claims.clone()))),
        AuthorizationResponse::Success(claims)
    );
    assert_eq!(
        auth.validate("/api", "tok", Some(Err(AuthError::JsonWebTokenError("e".to_string())))),
        AuthorizationResponse::Failure("json web token parse error".to_string())
    );
    assert_eq!(
        auth.validate("/api", "tok", None),
        AuthorizationResponse::Failure("invliad token".to_string())
    );
    let c = auth.claims_for("u", "a").unwrap();
    assert_eq!(c.exp, c.iat + 3_600);
}

#[test]
fn logged_out_token_is_refused() {
    let mut w = PathWhiteList::new();
    w.add_path("/login");
    let mut b = TokenBlacklist::new();
    b.add_token("gone");
    let auth = Authorizator::new(w, 60, b);
    assert!(!auth.needs_decoding("/api", "gone"));
    let claims = Claims::issued_at("u", "a", 1, 2);
    assert_eq!(
        auth.validate("/api", "gone", Some(Ok(claims.clone()))),
        AuthorizationResponse::Failure("invliad token".to_string())
    );
    assert_eq!(
        auth.validate("/api", "kept", Some(Ok(claims.clone()))),
        AuthorizationResponse::Success(claims)
    );
    assert_eq!(auth.validate("/login", "gone", None), AuthorizationResponse::NotNeed);
}

#[test]
fn key_secrets_are_alphanumeric() {
    let s = Key::random_secret().unwrap();
    assert_eq!(s.len(), 60);
    assert!(s.chars().all(|c| c.is_ascii_alphanumeric()));
    assert_ne!(Key::random_secret().unwrap(), s);
}

#[test]
fn key_pair_signs_and_checks() {
    let key = Key::new(b"secret");
    let mut claims = std::collections::HashMap::new();
    claims.insert("exp", 4_102_444_800u64);
    let token =
        jsonwebtoken::encode(&jsonwebtoken::Header::default(), &claims, &key.encoding).unwrap();
    let decoded = jsonwebtoken::decode::<std::collections::HashMap<String, u64>>(
        &token,
        &key.decoding,
        &jsonwebtoken::Validation::default(),
    )
    .unwrap();
    assert_eq!(decoded.claims["exp"], 4_102_444_800u64);
    let again = Key::new(b"secret");
    assert!(jsonwebtoken::decode::<std::collections::HashMap<String, u64>>(
        &token,
        &again.decoding,
        &jsonwebtoken::Validation::default(),
    )
    .is_ok());
    let other = Key::generate().unwrap();
    assert!(jsonwebtoken::decode::<std::collections::HashMap<String, u64>>(
        &token,
        &other.decoding,
        &jsonwebtoken::Validation::default(),
    )
    .is_err());
}
