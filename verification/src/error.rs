//! Failure taxonomy and the error classifier.
//!
//! Every failing operation carries an ordered causal chain (most specific
//! cause first). The classifier walks the chain and collapses it into one of
//! six stable, API-facing error kinds via a fixed precedence.

use vstd::prelude::*;

verus! {

/// The closed set of API-facing error kinds. Each kind maps one-to-one to an
/// externally visible status code and a stable human-readable message.
#[derive(Clone, Copy, Debug, PartialEq, Eq, Structural)]
pub enum ErrorCode {
    Success,
    UnexpectedError,
    ValidationFailed,
    AuthenticationFailed,
    ObjectNotFound,
    ObjectAlreadyExists,
}

/// Failures raised by the authentication workflows.
#[derive(Clone, Copy, Debug, PartialEq, Eq, Structural)]
pub enum AuthError {
    /// Wrong email or wrong password; the caller is never told which.
    InvalidCredentials,
    /// Any other authentication-layer failure.
    UnexpectedError,
}

/// Failures raised by the user repository.
#[derive(Clone, Copy, Debug, PartialEq, Eq, Structural)]
pub enum RepositoryError {
    /// A uniqueness constraint (the email business key) was violated.
    Exists,
    /// The requested account does not exist.
    NotFound,
    /// Any other storage fault.
    UnexpectedError,
}

/// Failures raised by the token codec.
#[derive(Clone, Copy, Debug, PartialEq, Eq, Structural)]
pub enum TokenError {
    /// A keying or serialization defect while signing.
    EncodeFailure,
    /// Signature or temporal validation failed on an already-issued token.
    VerifyFailure,
}

/// One cause in a causal chain. Lower layers attach a specific cause;
/// wrapping a failure with additional context appends `Context`.
#[derive(Clone, Copy, Debug, PartialEq, Eq, Structural)]
pub enum Cause {
    /// Input-shape validation failed.
    Validation,
    Auth(AuthError),
    Repository(RepositoryError),
    Token(TokenError),
    /// Opaque wrapping context; never recognized by the classifier.
    Context,
}

/// An ordered causal chain, most specific cause first.
#[derive(Debug)]
pub struct ErrorChain {
    pub causes: Vec<Cause>,
}

impl View for ErrorChain {
    type V = Seq<Cause>;

    open spec fn view(&self) -> Seq<Cause> {
        self.causes@
    }
}

impl ErrorChain {
    /// A chain holding a single originating cause.
    pub fn new(cause: Cause) -> (r: ErrorChain)
        ensures
            r@ == seq![cause],
    {
        let mut causes: Vec<Cause> = Vec::new();
        causes.push(cause);
        proof {
            assert(causes@ =~= seq![cause]);
        }
        ErrorChain { causes }
    }

    /// Wraps the chain with one layer of opaque context. The original causes
    /// are kept: context never swallows them.
    pub fn context(self) -> (r: ErrorChain)
        ensures
            r@ == self@.push(Cause::Context),
    {
        let mut causes = self.causes;
        causes.push(Cause::Context);
        ErrorChain { causes }
    }
}

/// The outcome of classifying a causal chain: the first recognized stopping
/// cause determines the kind; unexpected-error variants and unrecognized
/// causes are scanned past; an exhausted chain is an unexpected error.
pub open spec fn classify(chain: Seq<Cause>) -> ErrorCode
    decreases chain.len(),
{
    if chain.len() == 0 {
        ErrorCode::UnexpectedError
    } else {
        match chain[0] {
            Cause::Validation => ErrorCode::ValidationFailed,
            Cause::Auth(AuthError::InvalidCredentials) => ErrorCode::AuthenticationFailed,
            Cause::Repository(RepositoryError::NotFound) => ErrorCode::ObjectNotFound,
            Cause::Repository(RepositoryError::Exists) => ErrorCode::ObjectAlreadyExists,
            _ => classify(chain.subrange(1, chain.len() as int)),
        }
    }
}

/// The fixed status attached to each error kind at the boundary.
pub open spec fn status_of(code: ErrorCode) -> u16 {
    match code {
        ErrorCode::Success => 200,
        ErrorCode::UnexpectedError => 500,
        ErrorCode::ValidationFailed => 400,
        ErrorCode::AuthenticationFailed => 401,
        ErrorCode::ObjectNotFound => 404,
        ErrorCode::ObjectAlreadyExists => 409,
    }
}

/// The fixed wire-level numeric code of each error kind.
pub open spec fn code_of(code: ErrorCode) -> u8 {
    match code {
        ErrorCode::Success => 0,
        ErrorCode::UnexpectedError => 1,
        ErrorCode::ValidationFailed => 2,
        ErrorCode::AuthenticationFailed => 3,
        ErrorCode::ObjectNotFound => 4,
        ErrorCode::ObjectAlreadyExists => 5,
    }
}

impl ErrorCode {
    /// Classifies a causal chain: the sole input to the externally visible
    /// status and message mapping.
    pub fn from_chain(chain: &ErrorChain) -> (r: ErrorCode)
        ensures
            r == classify(chain@),
    {
        let n = chain.causes.len();
        proof {
            assert(chain@.subrange(0, n as int) =~= chain@);
        }
        let mut i: usize = 0;
        while i < n
            invariant
                n == chain.causes.len(),
                i <= n,
                classify(chain@) == classify(chain@.subrange(i as int, n as int)),
            decreases n - i,
        {
            let stop = match chain.causes[i] {
                Cause::Validation => Some(ErrorCode::ValidationFailed),
                Cause::Auth(AuthError::InvalidCredentials) => Some(
                    ErrorCode::AuthenticationFailed,
                ),
                Cause::Repository(RepositoryError::NotFound) => Some(ErrorCode::ObjectNotFound),
                Cause::Repository(RepositoryError::Exists) => Some(ErrorCode::ObjectAlreadyExists),
                _ => None,
            };
            if let Some(code) = stop {
                return code;
            }
            proof {
                assert(chain@.subrange(i as int, n as int).subrange(
                    1,
                    chain@.subrange(i as int, n as int).len() as int,
                ) =~= chain@.subrange(i + 1, n as int));
            }
            i += 1;
        }
        ErrorCode::UnexpectedError
    }

    /// The externally visible status for this kind. The mapping is total:
    /// no default fallback is ever needed at the boundary.
    pub fn status_code(&self) -> (r: u16)
        ensures
            r == status_of(*self),
    {
        match self {
            ErrorCode::Success => 200,
            ErrorCode::UnexpectedError => 500,
            ErrorCode::ValidationFailed => 400,
            ErrorCode::AuthenticationFailed => 401,
            ErrorCode::ObjectNotFound => 404,
            ErrorCode::ObjectAlreadyExists => 409,
        }
    }

    /// The wire-level numeric code for this kind.
    pub fn code(&self) -> (r: u8)
        ensures
            r == code_of(*self),
    {
        match self {
            ErrorCode::Success => 0,
            ErrorCode::UnexpectedError => 1,
            ErrorCode::ValidationFailed => 2,
            ErrorCode::AuthenticationFailed => 3,
            ErrorCode::ObjectNotFound => 4,
            ErrorCode::ObjectAlreadyExists => 5,
        }
    }
}

/// How a chain of one cause classifies.
pub proof fn lemma_classify_singleton(cause: Cause)
    ensures
        classify(seq![cause]) == (match cause {
            Cause::Validation => ErrorCode::ValidationFailed,
            Cause::Auth(AuthError::InvalidCredentials) => ErrorCode::AuthenticationFailed,
            Cause::Repository(RepositoryError::NotFound) => ErrorCode::ObjectNotFound,
            Cause::Repository(RepositoryError::Exists) => ErrorCode::ObjectAlreadyExists,
            _ => ErrorCode::UnexpectedError,
        }),
{
    let chain = seq![cause];
    assert(chain.len() == 1);
    assert(chain[0] == cause);
    assert(chain.subrange(1, 1) =~= Seq::<Cause>::empty());
    assert(classify(chain.subrange(1, 1)) == ErrorCode::UnexpectedError);
}

/// Wrapping a chain in one layer of opaque context never changes how it
/// classifies: context is added, causes are never swallowed.
pub proof fn lemma_context_preserves_classification(chain: Seq<Cause>)
    ensures
        classify(chain.push(Cause::Context)) == classify(chain),
    decreases chain.len(),
{
    let pushed = chain.push(Cause::Context);
    assert(pushed.len() == chain.len() + 1);
    if chain.len() == 0 {
        assert(pushed[0] == Cause::Context);
        assert(pushed.subrange(1, 1) =~= Seq::<Cause>::empty());
        assert(classify(pushed.subrange(1, 1)) == ErrorCode::UnexpectedError);
    } else {
        assert(pushed[0] == chain[0]);
        match chain[0] {
            Cause::Validation => {},
            Cause::Auth(AuthError::InvalidCredentials) => {},
            Cause::Repository(RepositoryError::NotFound) => {},
            Cause::Repository(RepositoryError::Exists) => {},
            _ => {
                lemma_context_preserves_classification(chain.subrange(1, chain.len() as int));
                assert(pushed.subrange(1, pushed.len() as int) =~= chain.subrange(
                    1,
                    chain.len() as int,
                ).push(Cause::Context));
                assert(classify(pushed) == classify(pushed.subrange(1, pushed.len() as int)));
                assert(classify(chain) == classify(chain.subrange(1, chain.len() as int)));
            },
        }
    }
}

/// The classifier is deterministic: classifying the same causal chain twice
/// yields the same error kind.
pub proof fn lemma_classifier_deterministic(a: Seq<Cause>, b: Seq<Cause>)
    requires
        a == b,
    ensures
        classify(a) == classify(b),
{
}

/// Classifying a failure chain never yields the success kind: the boundary
/// mapping never sees `Success` on an error path, so no default fallback is
/// ever needed there.
pub proof fn lemma_classify_never_succeeds(chain: Seq<Cause>)
    ensures
        classify(chain) != ErrorCode::Success,
    decreases chain.len(),
{
    if chain.len() > 0 {
        match chain[0] {
            Cause::Validation => {},
            Cause::Auth(AuthError::InvalidCredentials) => {},
            Cause::Repository(RepositoryError::NotFound) => {},
            Cause::Repository(RepositoryError::Exists) => {},
            _ => {
                lemma_classify_never_succeeds(chain.subrange(1, chain.len() as int));
            },
        }
    }
}

} // verus!
