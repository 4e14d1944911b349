use warehouse::dto::AccessTokenClaims;
use warehouse::routes;
use warehouse::error::ErrorCode;
use warehouse::hasher::{compute_password_hash, verify_password_hash};
use warehouse::repository::InMemoryUserRepository;
use warehouse::service::{AuthService, DUMMY_PASSWORD_HASH};

fn new_service() -> AuthService<InMemoryUserRepository> {
    AuthService::new("test-signing-secret".to_string(), InMemoryUserRepository::new())
}

#[test]
fn token_round_trip_recovers_identifier_and_email() {
    let service = new_service();
    let now = chrono::Utc::now().timestamp();
    let claims = AccessTokenClaims {
        exp: now + 86400,
        iat: now,
        id: 227349891266260987654321098765432109u128,
        email: "round.trip@example.com".to_string(),
    };
    let token = service.encode_claims(&claims);
    let decoded = service.decode_access_jwt(&token).expect("Failed to decode access token.");
    assert_eq!(decoded.id, claims.id);
    assert_eq!(decoded.email, claims.email);
    assert_eq!(decoded.exp, claims.exp);
    assert_eq!(decoded.iat, claims.iat);
}

#[test]
fn token_with_passed_expiration_is_rejected() {
    let service = new_service();
    let now = chrono::Utc::now().timestamp();
    let claims = AccessTokenClaims {
        exp: now - 7200,
        iat: now - 93600,
        id: 7u128,
        email: "expired@example.com".to_string(),
    };
    let token = service.encode_claims(&claims);
    let chain = service.decode_access_jwt(&token).expect_err("an expired token");
    assert_eq!(ErrorCode::from_chain(&chain), ErrorCode::UnexpectedError);
}

#[test]
fn token_under_another_secret_is_rejected() {
    let issuing = new_service();
    let verifying = AuthService::new("another-secret".to_string(), InMemoryUserRepository::new());
    let now = chrono::Utc::now().timestamp();
    let claims = AccessTokenClaims {
        exp: now + 86400,
        iat: now,
        id: 7u128,
        email: "someone@example.com".to_string(),
    };
    let token = issuing.encode_claims(&claims);
    assert!(issuing.decode_access_jwt(&token).is_ok());
    assert!(verifying.decode_access_jwt(&token).is_err());
}

#[test]
fn garbage_token_is_rejected() {
    let service = new_service();
    assert!(service.decode_access_jwt("not-a-token").is_err());
    assert!(service.decode_access_jwt("a.b.c").is_err());
    assert!(service.decode_access_jwt("").is_err());
}

#[test]
fn authorize_accepts_only_a_current_bearer_token() {
    let service = new_service();
    let now = chrono::Utc::now().timestamp();
    let claims = AccessTokenClaims {
        exp: now + 86400,
        iat: now,
        id: 99u128,
        email: "bearer@example.com".to_string(),
    };
    let token = service.encode_claims(&claims);

    let header = format!("Bearer {token}");
    let authorized = routes::authorize(&service, &header).expect("a current bearer token");
    assert_eq!(authorized.id, 99u128);
    assert_eq!(authorized.email, "bearer@example.com");

    assert!(routes::authorize(&service, &token).is_err());
    assert!(routes::authorize(&service, &format!("Basic {token}")).is_err());
    assert!(routes::authorize(&service, "Bearer not-a-token").is_err());
    assert!(routes::authorize(&service, "").is_err());
}

#[test]
fn bearer_scheme_extraction_requires_the_exact_prefix() {
    assert_eq!(routes::extract_bearer_token("Bearer abc.def.ghi"), Some("abc.def.ghi"));
    assert_eq!(routes::extract_bearer_token("bearer abc"), None);
    assert_eq!(routes::extract_bearer_token("Bearer"), None);
    assert_eq!(routes::extract_bearer_token(""), None);
}

#[test]
fn computed_hash_verifies_its_own_password_only() {
    let hash = compute_password_hash("correct horse battery").expect("hashing");
    assert!(verify_password_hash(&hash, "correct horse battery").is_ok());
    assert!(verify_password_hash(&hash, "correct horse batterz").is_err());
    assert!(verify_password_hash(&hash, "").is_err());
}

#[test]
fn computed_hash_is_a_fresh_phc_string() {
    let first = compute_password_hash("a shared password").expect("hashing");
    let second = compute_password_hash("a shared password").expect("hashing");
    assert_eq!(first.chars().count(), 97);
    assert!(first.starts_with("$argon2id$v=19$m=15000,t=2,p=1$"));
    // A fresh random salt per call: equal passwords still hash differently.
    assert_ne!(first, second);
    assert_ne!(first, "a shared password");
}

#[test]
fn malformed_stored_hash_is_an_invalid_credentials_failure() {
    assert!(verify_password_hash("not a phc string", "any password").is_err());
    assert!(verify_password_hash("", "any password").is_err());
}

#[test]
fn dummy_hash_matches_no_test_password() {
    assert!(verify_password_hash(DUMMY_PASSWORD_HASH, "administrator-password-1").is_err());
    assert!(verify_password_hash(DUMMY_PASSWORD_HASH, "").is_err());
}
