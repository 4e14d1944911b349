use warehouse::domain::SignUpData;
use warehouse::dto::SignUpRequest;
use warehouse::error::ErrorCode;
use warehouse::repository::{InMemoryUserRepository, UserRepository};
use warehouse::routes;
use warehouse::service::AuthService;

fn new_service() -> AuthService<InMemoryUserRepository> {
    AuthService::new("test-signing-secret".to_string(), InMemoryUserRepository::new())
}

fn request(first_name: &str, last_name: &str, email: &str, password: &str) -> SignUpRequest {
    SignUpRequest {
        first_name: first_name.to_string(),
        last_name: last_name.to_string(),
        email: email.to_string(),
        password: password.to_string(),
    }
}

#[test]
fn signup_works() {
    let mut service = new_service();
    let first_name = "Ada";
    let last_name = "Lovelace";
    let password = "averylongpassword1";
    let email = "ada.lovelace@example.com";

    let tokens = routes::sign_up(&mut service, request(first_name, last_name, email, password))
        .expect("Failed to execute request.");

    let access_token = service
        .decode_access_jwt(&tokens.access_token)
        .expect("Failed to decode access token.");

    let now = chrono::Utc::now().timestamp();
    assert!(access_token.iat <= now);
    assert!(access_token.exp > now);

    let user_in_db = service
        .user_repository()
        .get_by_id(access_token.id)
        .expect("Failed to find user by id.");

    assert_eq!(first_name, user_in_db.first_name);
    assert_eq!(last_name, user_in_db.last_name);
    assert_ne!(password, user_in_db.password_hash);
    assert_eq!(email, user_in_db.email);
}

#[test]
fn signup_with_existing_email_fails() {
    let mut service = new_service();
    let email = "grace.hopper@example.com";

    let first = routes::sign_up(&mut service, request("Grace", "Hopper", email, "firstpassword1"));
    assert!(first.is_ok());

    let second = routes::sign_up(&mut service, request("Another", "Person", email, "otherpassword2"));
    let err = second.expect_err("a duplicate email must be rejected");
    assert_eq!(err.code, ErrorCode::ObjectAlreadyExists);
    assert_eq!(err.code.status_code(), 409);
}

#[test]
fn signup_scenario_duplicate_email_conflicts() {
    // Sign-up at the service layer (shape validation already performed by
    // the caller), then an immediate second sign-up with the same email.
    let mut service = new_service();
    let first = service.sign_up(SignUpData {
        first_name: "A".to_string(),
        last_name: "B".to_string(),
        email: "a@b.com".to_string(),
        password: "longenough1".to_string(),
    });
    let tokens = first.expect("the first sign-up must succeed");
    assert!(!tokens.access_token.is_empty());

    let second = service.sign_up(SignUpData {
        first_name: "A".to_string(),
        last_name: "B".to_string(),
        email: "a@b.com".to_string(),
        password: "longenough1".to_string(),
    });
    let chain = second.expect_err("the second sign-up must be rejected");
    let code = ErrorCode::from_chain(&chain);
    assert_eq!(code, ErrorCode::ObjectAlreadyExists);
    assert_eq!(code.code(), 5);
    assert_eq!(code.status_code(), 409);
}

#[test]
fn signup_rejects_invalid_shapes() {
    let mut service = new_service();
    let cases = vec![
        request("A", "Lovelace", "ada@example.com", "averylongpassword1"),
        request("Ada", "L", "ada@example.com", "averylongpassword1"),
        request("Ada", "Lovelace", "not-an-email", "averylongpassword1"),
        request("Ada", "Lovelace", "ada@example.com", "short"),
        request(
            "Ada",
            "Lovelace",
            "ada@example.com",
            "xxxxxxxxxxxxxxxxxxxxxxxxxxxxxxxxxxxxxxxxxxxxxxxxxxxxxxxxxxxxxxxxx",
        ),
    ];
    for case in cases {
        let err = routes::sign_up(&mut service, case).expect_err("an ill-shaped request");
        assert_eq!(err.code, ErrorCode::ValidationFailed);
        assert_eq!(err.code.status_code(), 400);
        assert_eq!(err.message, "Invalid arguments");
    }
}

#[test]
fn signup_persists_a_phc_hash_not_the_password() {
    let mut service = new_service();
    let email = "alan.turing@example.com";
    let password = "enigmamachine42";
    routes::sign_up(&mut service, request("Alan", "Turing", email, password))
        .expect("Failed to execute request.");

    let user = service
        .user_repository()
        .get_by_email(email)
        .expect("Failed to find user by email.");
    assert_eq!(user.password_hash.chars().count(), 97);
    assert!(user.password_hash.starts_with("$argon2id$v=19$m=15000,t=2,p=1$"));
    assert_ne!(user.password_hash, password);
    assert!(!user.password_hash.contains(password));
}

#[test]
fn change_password_updates_the_stored_hash() {
    let mut service = new_service();
    let email = "margaret@example.com";
    routes::sign_up(&mut service, request("Margaret", "Hamilton", email, "apollopassword1"))
        .expect("Failed to execute request.");
    let user = service
        .user_repository()
        .get_by_email(email)
        .expect("Failed to find user by email.");

    service
        .change_password(user.id, "freshpassword22")
        .expect("Failed to change the password.");

    let ok = service.sign_in(warehouse::domain::SignInData {
        email: email.to_string(),
        password: "freshpassword22".to_string(),
    });
    assert!(ok.is_ok());

    let stale = service.sign_in(warehouse::domain::SignInData {
        email: email.to_string(),
        password: "apollopassword1".to_string(),
    });
    assert!(stale.is_err());
}

#[test]
fn change_password_for_unknown_id_is_not_found() {
    let mut service = new_service();
    let chain = service
        .change_password(12345678901234567890u128, "freshpassword22")
        .expect_err("an unknown identifier must be rejected");
    let code = ErrorCode::from_chain(&chain);
    assert_eq!(code, ErrorCode::ObjectNotFound);
    assert_eq!(code.status_code(), 404);
    assert_eq!(code.code(), 4);
}
