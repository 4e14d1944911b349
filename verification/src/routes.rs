//! Boundary handlers: validate the request shape, invoke the authentication
//! service, and map any failure to its stable wire payload.
//!
//! Callers only ever see the fixed code/message table ([`AppError`]); internal
//! cause detail never reaches a response.

use vstd::prelude::*;

use crate::domain::{SignInData, SignUpData};
use crate::dto::{error_message, AccessTokenClaims, AppError, AuthTokens, SignInRequest, SignUpRequest};
use crate::error::ErrorCode;
use crate::hasher::{is_phc_hash_string, phc_verifies};
use crate::repository::UserRepository;
use crate::service::{issued_payload, AuthService};
use crate::token::jwt_payload_of;

verus! {

/// Handles a sign-up request: checks its shape, then creates the account and
/// returns its first access token. A duplicate email yields the
/// already-exists payload whatever the names and password; no failure
/// changes account state.
pub fn sign_up<R: UserRepository>(service: &mut AuthService<R>, req: SignUpRequest) -> (r: Result<
    AuthTokens,
    AppError,
>)
    ensures
        final(service).secret() == old(service).secret(),
        !req.is_valid() ==> (r matches Err(e) && e.code == ErrorCode::ValidationFailed),
        r matches Ok(t) ==> (req.is_valid() && {
            let u = final(service).accounts()[req.email@];
            &&& !old(service).accounts().contains_key(req.email@)
            &&& final(service).accounts() == old(service).accounts().insert(req.email@, u)
            &&& u.email == req.email@
            &&& u.first_name == req.first_name@
            &&& u.last_name == req.last_name@
            &&& is_phc_hash_string(u.password_hash)
            &&& phc_verifies(u.password_hash, req.password@)
            &&& issued_payload(final(service).secret(), t.access_token@, u.id, req.email@)
        }),
        r matches Err(e) ==> ({
            &&& final(service).accounts() == old(service).accounts()
            &&& e.message@ == error_message(e.code)
            &&& (e.code == ErrorCode::ValidationFailed || e.code == ErrorCode::ObjectAlreadyExists
                || e.code == ErrorCode::UnexpectedError)
            &&& (e.code == ErrorCode::ObjectAlreadyExists ==> old(
                service,
            ).accounts().contains_key(req.email@))
        }),
        req.is_valid() && old(service).accounts().contains_key(req.email@) ==> (r matches Err(e)
            && (e.code == ErrorCode::ObjectAlreadyExists || e.code == ErrorCode::UnexpectedError)),
{
    match req.validate() {
        Ok(()) => {},
        Err(c) => {
            return Err(AppError::from_code(ErrorCode::from_chain(&c)));
        },
    }
    let data = SignUpData::from(req);
    match service.sign_up(data) {
        Ok(t) => Ok(t),
        Err(c) => Err(AppError::from_code(ErrorCode::from_chain(&c))),
    }
}

/// Handles a sign-in request: checks its shape, then authenticates and
/// returns an access token. A missing account and a wrong password yield the
/// same payload: the authentication-failed code and message.
pub fn sign_in<R: UserRepository>(service: &AuthService<R>, req: SignInRequest) -> (r: Result<
    AuthTokens,
    AppError,
>)
    ensures
        r is Ok <==> (req.is_valid() && service.accounts().contains_key(req.email@)
            && phc_verifies(service.accounts()[req.email@].password_hash, req.password@)),
        r matches Ok(t) ==> issued_payload(
            service.secret(),
            t.access_token@,
            service.accounts()[req.email@].id,
            service.accounts()[req.email@].email,
        ),
        !req.is_valid() ==> (r matches Err(e) && e.code == ErrorCode::ValidationFailed),
        r matches Err(e) ==> ({
            &&& e.message@ == error_message(e.code)
            &&& (e.code == ErrorCode::ValidationFailed || e.code
                == ErrorCode::AuthenticationFailed)
        }),
        req.is_valid() && r is Err ==> (r matches Err(e) && e.code
            == ErrorCode::AuthenticationFailed),
{
    match req.validate() {
        Ok(()) => {},
        Err(c) => {
            return Err(AppError::from_code(ErrorCode::from_chain(&c)));
        },
    }
    let data = SignInData::from(req);
    match service.sign_in(data) {
        Ok(t) => Ok(t),
        Err(c) => Err(AppError::from_code(ErrorCode::from_chain(&c))),
    }
}

/// Picks the token out of an authorization header value of the form
/// `Bearer <token>`; any other shape is rejected.
pub fn extract_bearer_token(header: &str) -> (r: Option<&str>)
    ensures
        r matches Some(t) ==> (header@ == "Bearer "@ + t@ && t@ == header@.subrange(
            7,
            header@.len() as int,
        )),
        r is None ==> !(header@.len() >= 7 && header@.subrange(0, 7) == "Bearer "@),
{
    proof {
        reveal_strlit("Bearer ");
    }
    let n = header.unicode_len();
    if n < 7 {
        return None;
    }
    let prefix = header.substring_char(0, 7);
    if !(prefix.to_string() == "Bearer ".to_string()) {
        return None;
    }
    let token = header.substring_char(7, n);
    proof {
        assert(header@ =~= header@.subrange(0, 7) + header@.subrange(7, n as int));
    }
    Some(token)
}

/// The compute part of bearer-token authorization: accepts only an
/// authorization value of the form `Bearer <token>` whose token verifies
/// under the service's secret and is current, and hands back the claims the
/// token carries. Any failure on an already-issued token is an unexpected
/// outcome, never invalid credentials.
pub fn authorize<R: UserRepository>(service: &AuthService<R>, authorization: &str) -> (r: Result<
    AccessTokenClaims,
    AppError,
>)
    ensures
        r matches Ok(c) ==> (authorization@.len() >= 7 && authorization@.subrange(0, 7)
            == "Bearer "@ && jwt_payload_of(
            service.secret(),
            authorization@.subrange(7, authorization@.len() as int),
        ) == Some((c.exp as int, c.iat as int, c.id as int, c.email@))),
        r matches Err(e) ==> (e.code == ErrorCode::UnexpectedError && e.message@ == error_message(
            e.code,
        )),
{
    let token = match extract_bearer_token(authorization) {
        Some(t) => t,
        None => {
            return Err(AppError::from_code(ErrorCode::UnexpectedError));
        },
    };
    proof {
        reveal_strlit("Bearer ");
        assert(authorization@.len() >= 7);
        assert(authorization@.subrange(0, 7) =~= "Bearer "@);
    }
    match service.decode_access_jwt(token) {
        Ok(claims) => Ok(claims),
        Err(c) => Err(AppError::from_code(ErrorCode::from_chain(&c))),
    }
}

} // verus!
