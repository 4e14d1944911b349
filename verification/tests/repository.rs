use warehouse::domain::User;
use warehouse::error::RepositoryError;
use warehouse::repository::{InMemoryUserRepository, UserRepository};

fn account(id: u128, email: &str) -> User {
    User {
        id,
        first_name: "First".to_string(),
        last_name: "Last".to_string(),
        email: email.to_string(),
        password_hash: "an-opaque-hash".to_string(),
    }
}

#[test]
fn create_then_get_back_by_id_and_email() {
    let mut repo = InMemoryUserRepository::new();
    let created = repo.create(account(11, "one@example.com")).expect("create");
    assert_eq!(created.id, 11);
    assert_eq!(created.email, "one@example.com");

    let by_id = repo.get_by_id(11).expect("get_by_id");
    assert_eq!(by_id.email, "one@example.com");

    let by_email = repo.get_by_email("one@example.com").expect("get_by_email");
    assert_eq!(by_email.id, 11);
}

#[test]
fn create_with_existing_email_fails_with_exists() {
    let mut repo = InMemoryUserRepository::new();
    repo.create(account(1, "dup@example.com")).expect("create");
    let err = repo.create(account(2, "dup@example.com")).expect_err("duplicate email");
    assert!(matches!(err, RepositoryError::Exists));
}

#[test]
fn lookups_of_absent_accounts_fail_with_not_found() {
    let repo = InMemoryUserRepository::new();
    assert!(matches!(repo.get_by_id(42).expect_err("missing"), RepositoryError::NotFound));
    assert!(matches!(
        repo.get_by_email("missing@example.com").expect_err("missing"),
        RepositoryError::NotFound
    ));
}

#[test]
fn update_password_hash_overwrites_only_that_account() {
    let mut repo = InMemoryUserRepository::new();
    repo.create(account(1, "one@example.com")).expect("create");
    repo.create(account(2, "two@example.com")).expect("create");

    repo.update_password_hash(2, "a-new-hash").expect("update");

    assert_eq!(repo.get_by_id(1).expect("get").password_hash, "an-opaque-hash");
    assert_eq!(repo.get_by_id(2).expect("get").password_hash, "a-new-hash");
}

#[test]
fn update_password_hash_for_unknown_id_fails_with_not_found() {
    let mut repo = InMemoryUserRepository::new();
    repo.create(account(1, "one@example.com")).expect("create");
    let err = repo.update_password_hash(9, "a-new-hash").expect_err("unknown id");
    assert!(matches!(err, RepositoryError::NotFound));
}
