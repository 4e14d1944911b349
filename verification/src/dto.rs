//! Wire-facing request, response and error payloads, with input validation.

use vstd::prelude::*;
use vstd::string::StrSliceExecFns;

use crate::domain::{SignInData, SignUpData};
use crate::error::{classify, Cause, ErrorChain, ErrorCode};

verus! {

/// Whether a string is a well-formed email address. Relies on validator's
/// HTML5-style check (see [`check_email`]); a function of the string alone.
pub uninterp spec fn is_valid_email(s: Seq<char>) -> bool;

/// Relies on validator's `ValidateEmail::validate_email` for `str`: an
/// HTML5-style well-formedness check whose outcome is a function of the
/// string alone (fixed regular expressions over the user and domain parts
/// with fixed length caps, allowing IP-literal and internationalized
/// domains).
#[verifier::external_body]
fn check_email(email: &str) -> (r: bool)
    ensures
        r == is_valid_email(email@),
{
    validator::ValidateEmail::validate_email(&email)
}

/// A name field must hold 3 to 256 characters.
pub open spec fn valid_name(s: Seq<char>) -> bool {
    3 <= s.len() <= 256
}

/// An email field must hold 3 to 256 characters and be a well-formed email.
pub open spec fn valid_email(s: Seq<char>) -> bool {
    3 <= s.len() <= 256 && is_valid_email(s)
}

/// A password must hold 8 to 64 characters.
pub open spec fn valid_password(s: Seq<char>) -> bool {
    8 <= s.len() <= 64
}

fn valid_name_check(s: &str) -> (r: bool)
    ensures
        r == valid_name(s@),
{
    let n = s.unicode_len();
    3 <= n && n <= 256
}

fn valid_email_check(s: &str) -> (r: bool)
    ensures
        r == valid_email(s@),
{
    let n = s.unicode_len();
    3 <= n && n <= 256 && check_email(s)
}

fn valid_password_check(s: &str) -> (r: bool)
    ensures
        r == valid_password(s@),
{
    let n = s.unicode_len();
    8 <= n && n <= 64
}

/// A one-cause chain marking an input-shape rejection.
fn validation_chain() -> (r: ErrorChain)
    ensures
        classify(r@) == ErrorCode::ValidationFailed,
{
    ErrorChain::new(Cause::Validation)
}

/// A sign-in request as received at the boundary.
#[derive(Debug)]
pub struct SignInRequest {
    pub email: String,
    pub password: String,
}

impl SignInRequest {
    /// The shape this request must have before the authentication service
    /// may be invoked.
    pub open spec fn is_valid(&self) -> bool {
        valid_email(self.email@) && valid_password(self.password@)
    }

    /// Checks the request's shape; a rejection classifies as a validation
    /// failure.
    pub fn validate(&self) -> (r: Result<(), ErrorChain>)
        ensures
            r is Ok <==> self.is_valid(),
            r matches Err(c) ==> classify(c@) == ErrorCode::ValidationFailed,
    {
        if valid_email_check(self.email.as_str()) && valid_password_check(self.password.as_str()) {
            Ok(())
        } else {
            Err(validation_chain())
        }
    }
}

impl From<SignInRequest> for SignInData {
    fn from(req: SignInRequest) -> (r: SignInData) {
        let SignInRequest { email, password } = req;
        SignInData { email, password }
    }
}

impl vstd::std_specs::convert::FromSpecImpl<SignInRequest> for SignInData {
    open spec fn obeys_from_spec() -> bool {
        true
    }

    open spec fn from_spec(req: SignInRequest) -> SignInData {
        SignInData { email: req.email, password: req.password }
    }
}

/// A sign-up request as received at the boundary.
#[derive(Debug)]
pub struct SignUpRequest {
    pub first_name: String,
    pub last_name: String,
    pub email: String,
    pub password: String,
}

impl SignUpRequest {
    /// The shape this request must have before the authentication service
    /// may be invoked.
    pub open spec fn is_valid(&self) -> bool {
        &&& valid_name(self.first_name@)
        &&& valid_name(self.last_name@)
        &&& valid_email(self.email@)
        &&& valid_password(self.password@)
    }

    /// Checks the request's shape; a rejection classifies as a validation
    /// failure.
    pub fn validate(&self) -> (r: Result<(), ErrorChain>)
        ensures
            r is Ok <==> self.is_valid(),
            r matches Err(c) ==> classify(c@) == ErrorCode::ValidationFailed,
    {
        if valid_name_check(self.first_name.as_str()) && valid_name_check(self.last_name.as_str())
            && valid_email_check(self.email.as_str()) && valid_password_check(
            self.password.as_str(),
        ) {
            Ok(())
        } else {
            Err(validation_chain())
        }
    }
}

impl From<SignUpRequest> for SignUpData {
    fn from(req: SignUpRequest) -> (r: SignUpData) {
        let SignUpRequest { first_name, last_name, email, password } = req;
        SignUpData { first_name, last_name, email, password }
    }
}

impl vstd::std_specs::convert::FromSpecImpl<SignUpRequest> for SignUpData {
    open spec fn obeys_from_spec() -> bool {
        true
    }

    open spec fn from_spec(req: SignUpRequest) -> SignUpData {
        SignUpData {
            first_name: req.first_name,
            last_name: req.last_name,
            email: req.email,
            password: req.password,
        }
    }
}

/// Claims embedded in a signed access token. Invariant on every issued
/// token: `exp == iat + 24 h`, both as seconds since the epoch.
#[derive(Debug)]
pub struct AccessTokenClaims {
    pub exp: i64,
    pub iat: i64,
    pub id: u128,
    pub email: String,
}

/// The wire-facing result of a successful sign-up or sign-in: the access
/// token alone. A refresh token is an explicitly deferred item and must not
/// silently appear here.
#[derive(Debug)]
pub struct AuthTokens {
    pub access_token: String,
}

/// The fixed human-readable message of each error kind.
pub open spec fn error_message(code: ErrorCode) -> Seq<char> {
    match code {
        ErrorCode::Success => ""@,
        ErrorCode::UnexpectedError => "Unknown error"@,
        ErrorCode::ValidationFailed => "Invalid arguments"@,
        ErrorCode::AuthenticationFailed => "Invalid login or password"@,
        ErrorCode::ObjectNotFound => "Requested object not found"@,
        ErrorCode::ObjectAlreadyExists => "Provided object already exists"@,
    }
}

/// The boundary serialization of a failure: a stable numeric code and its
/// stable message. Internal cause detail never reaches it.
#[derive(Debug)]
pub struct AppError {
    pub code: ErrorCode,
    pub message: String,
}

impl AppError {
    /// The unique boundary payload of an error kind: the mapping from kind
    /// to code and message is total and fixed.
    pub fn from_code(code: ErrorCode) -> (r: AppError)
        ensures
            r.code == code,
            r.message@ == error_message(code),
    {
        let message = match code {
            ErrorCode::Success => "",
            ErrorCode::UnexpectedError => "Unknown error",
            ErrorCode::ValidationFailed => "Invalid arguments",
            ErrorCode::AuthenticationFailed => "Invalid login or password",
            ErrorCode::ObjectNotFound => "Requested object not found",
            ErrorCode::ObjectAlreadyExists => "Provided object already exists",
        };
        AppError { code, message: message.to_string() }
    }
}

} // verus!
