use warehouse::dto::AppError;
use warehouse::error::{AuthError, Cause, ErrorChain, ErrorCode, RepositoryError, TokenError};

fn chain_of(causes: Vec<Cause>) -> ErrorChain {
    ErrorChain { causes }
}

#[test]
fn classifier_recognizes_each_stopping_cause() {
    let cases = vec![
        (Cause::Validation, ErrorCode::ValidationFailed),
        (Cause::Auth(AuthError::InvalidCredentials), ErrorCode::AuthenticationFailed),
        (Cause::Repository(RepositoryError::NotFound), ErrorCode::ObjectNotFound),
        (Cause::Repository(RepositoryError::Exists), ErrorCode::ObjectAlreadyExists),
    ];
    for (cause, expected) in cases {
        assert_eq!(ErrorCode::from_chain(&ErrorChain::new(cause)), expected);
    }
}

#[test]
fn classifier_scans_past_unrecognized_and_unexpected_causes() {
    let chain = chain_of(vec![
        Cause::Context,
        Cause::Auth(AuthError::UnexpectedError),
        Cause::Repository(RepositoryError::UnexpectedError),
        Cause::Token(TokenError::EncodeFailure),
        Cause::Repository(RepositoryError::NotFound),
    ]);
    assert_eq!(ErrorCode::from_chain(&chain), ErrorCode::ObjectNotFound);
}

#[test]
fn classifier_stops_at_the_first_recognized_cause() {
    let chain = chain_of(vec![
        Cause::Auth(AuthError::InvalidCredentials),
        Cause::Repository(RepositoryError::NotFound),
    ]);
    assert_eq!(ErrorCode::from_chain(&chain), ErrorCode::AuthenticationFailed);

    let chain = chain_of(vec![Cause::Validation, Cause::Repository(RepositoryError::Exists)]);
    assert_eq!(ErrorCode::from_chain(&chain), ErrorCode::ValidationFailed);
}

#[test]
fn classifier_defaults_to_unexpected_on_an_exhausted_chain() {
    assert_eq!(ErrorCode::from_chain(&chain_of(vec![])), ErrorCode::UnexpectedError);
    let unrecognized = chain_of(vec![
        Cause::Context,
        Cause::Token(TokenError::VerifyFailure),
        Cause::Auth(AuthError::UnexpectedError),
        Cause::Repository(RepositoryError::UnexpectedError),
    ]);
    assert_eq!(ErrorCode::from_chain(&unrecognized), ErrorCode::UnexpectedError);
}

#[test]
fn classifier_is_deterministic_on_the_same_chain() {
    let chain = chain_of(vec![
        Cause::Context,
        Cause::Auth(AuthError::UnexpectedError),
        Cause::Repository(RepositoryError::Exists),
    ]);
    let first = ErrorCode::from_chain(&chain);
    let second = ErrorCode::from_chain(&chain);
    assert_eq!(first, second);
    assert_eq!(first, ErrorCode::ObjectAlreadyExists);
}

#[test]
fn context_wrapping_keeps_the_classification() {
    let chain = ErrorChain::new(Cause::Repository(RepositoryError::NotFound));
    let before = ErrorCode::from_chain(&chain);
    let wrapped = chain.context().context();
    assert_eq!(ErrorCode::from_chain(&wrapped), before);
}

#[test]
fn error_codes_and_statuses_follow_the_fixed_table() {
    let table = vec![
        (ErrorCode::Success, 0u8, 200u16, ""),
        (ErrorCode::UnexpectedError, 1, 500, "Unknown error"),
        (ErrorCode::ValidationFailed, 2, 400, "Invalid arguments"),
        (ErrorCode::AuthenticationFailed, 3, 401, "Invalid login or password"),
        (ErrorCode::ObjectNotFound, 4, 404, "Requested object not found"),
        (ErrorCode::ObjectAlreadyExists, 5, 409, "Provided object already exists"),
    ];
    for (kind, code, status, message) in table {
        assert_eq!(kind.code(), code);
        assert_eq!(kind.status_code(), status);
        let payload = AppError::from_code(kind);
        assert_eq!(payload.code, kind);
        assert_eq!(payload.message, message);
    }
}
