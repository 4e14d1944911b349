//! The authentication service: the sign-up and sign-in workflows, password
//! change, and access-token issuance and validation.
//!
//! Within one call, hashing (or verification) always completes strictly
//! before the dependent repository write (sign-up, password change) or before
//! any success determination (sign-in); hashing is never skipped or reordered
//! after persistence.

use vstd::prelude::*;

use crate::domain::{SignInData, SignUpData, User, UserView};
use crate::dto::{AccessTokenClaims, AuthTokens};
use crate::error::{
    classify, lemma_classify_singleton, lemma_context_preserves_classification, AuthError, Cause,
    ErrorChain, ErrorCode, RepositoryError,
};
use crate::hasher::{
    compute_password_hash, is_phc_hash_string, phc_verifies, verify_password_hash,
};
use crate::repository::UserRepository;
use crate::token::{jwt_decode, jwt_encode, jwt_payload_of};

verus! {

/// The hard-coded dummy PHC hash that sign-in verifies a candidate against
/// when no account carries the requested email: sign-in then pays the same
/// hashing cost whether or not the email exists. This normalizes only the
/// hashing-phase cost; the lookup phase itself is not disguised and remains
/// a known residual side channel.
pub const DUMMY_PASSWORD_HASH: &'static str = "$argon2id$v=19$m=15000,t=2,p=1$gZiV/M1gPc22ElAH/Jh1Hw$CWOrkoo7oJBQ/iyh7uJ0LO2aLEfrHwTWllSAxT0zRno";

/// Relies on uuid's `Uuid::new_v4`: a fresh, randomly generated 128-bit
/// account identifier. Of a random value nothing is promised.
#[verifier::external_body]
fn new_account_id() -> u128 {
    uuid::Uuid::new_v4().as_u128()
}

/// Relies on chrono's `Utc::now().timestamp()`: the current instant as
/// seconds since the epoch. chrono dates span January 1, 262145 BCE to
/// December 31, 262143 CE, so the value stays well inside ten trillion
/// seconds either way; of the clock nothing else is promised.
#[verifier::external_body]
fn now_timestamp() -> (t: i64)
    ensures
        -10_000_000_000_000 <= t <= 10_000_000_000_000,
{
    chrono::Utc::now().timestamp()
}

/// The payload a successful sign-up or sign-in binds into its token: issued
/// for the given account, expiring exactly 24 hours after issuance.
pub open spec fn issued_payload(
    secret: Seq<char>,
    token: Seq<char>,
    id: u128,
    email: Seq<char>,
) -> bool {
    match jwt_payload_of(secret, token) {
        Some(p) => p.2 == id as int && p.3 == email && p.0 == p.1 + 86400,
        None => false,
    }
}

/// Orchestrates the password hasher, the user repository and the token
/// codec into the account-creation and authentication workflows.
pub struct AuthService<R: UserRepository> {
    jwt_secret: String,
    user_repository: R,
}

impl<R: UserRepository> AuthService<R> {
    /// The signing secret, at spec level only: the secret itself never
    /// leaves the service.
    pub closed spec fn secret(&self) -> Seq<char> {
        self.jwt_secret@
    }

    /// The accounts reachable through the service's repository.
    pub closed spec fn accounts(&self) -> Map<Seq<char>, UserView> {
        self.user_repository.accounts()
    }

    pub fn new(jwt_secret: String, user_repository: R) -> (r: AuthService<R>)
        ensures
            r.secret() == jwt_secret@,
            r.accounts() == user_repository.accounts(),
    {
        AuthService { jwt_secret, user_repository }
    }

    /// The service's repository, for callers that read accounts back.
    pub fn user_repository(&self) -> (r: &R)
        ensures
            r.accounts() == self.accounts(),
    {
        &self.user_repository
    }

    /// Serializes the claims and signs them into a token string.
    pub fn encode_claims(&self, claims: &AccessTokenClaims) -> (t: String)
        ensures
            jwt_payload_of(self.secret(), t@) == Some(
                (claims.exp as int, claims.iat as int, claims.id as int, claims.email@),
            ),
    {
        jwt_encode(
            self.jwt_secret.as_str(),
            claims.exp,
            claims.iat,
            claims.id,
            claims.email.as_str(),
        )
    }

    /// Issues an access token for the account: issued now, expiring exactly
    /// 24 hours later, bound to the account's identifier and email. With a
    /// symmetric signing key, encoding cannot fail.
    pub fn encode_access_jwt(&self, user: &User) -> (r: Result<String, ErrorChain>)
        ensures
            r is Ok,
            r matches Ok(t) ==> issued_payload(self.secret(), t@, user@.id, user@.email),
    {
        let iat = now_timestamp();
        let exp = iat + 86400;
        let claims = AccessTokenClaims { exp, iat, id: user.id, email: user.email.clone() };
        Ok(self.encode_claims(&claims))
    }

    /// Verifies a token's signature and temporal validity and recovers its
    /// claims. A failure here concerns an already-issued token during later
    /// request authorization: it classifies as unexpected, never as invalid
    /// credentials.
    pub fn decode_access_jwt(&self, token: &str) -> (r: Result<AccessTokenClaims, ErrorChain>)
        ensures
            r matches Ok(c) ==> jwt_payload_of(self.secret(), token@) == Some(
                (c.exp as int, c.iat as int, c.id as int, c.email@),
            ),
            jwt_payload_of(self.secret(), token@) is None ==> r is Err,
            r matches Err(c) ==> classify(c@) == ErrorCode::UnexpectedError,
    {
        match jwt_decode(self.jwt_secret.as_str(), token) {
            Ok((exp, iat, id, email)) => Ok(AccessTokenClaims { exp, iat, id, email }),
            Err(e) => {
                let chain = ErrorChain::new(Cause::Token(e));
                proof {
                    lemma_classify_singleton(Cause::Token(e));
                }
                Err(chain)
            },
        }
    }

    /// The persistence and token-issuance tail of sign-up, taking the
    /// already computed password hash: hashing always completes strictly
    /// before any persistence, and a raw password never reaches this point.
    /// Fails with an already-exists outcome exactly when the email is
    /// already bound to an account.
    pub fn sign_up_hashed(&mut self, args: SignUpData, password_hash: String) -> (r: Result<
        AuthTokens,
        ErrorChain,
    >)
        ensures
            final(self).secret() == old(self).secret(),
            old(self).accounts().contains_key(args.email@) ==> (r matches Err(c) && classify(c@)
                == ErrorCode::ObjectAlreadyExists && final(self).accounts() == old(
                self,
            ).accounts()),
            !old(self).accounts().contains_key(args.email@) ==> (r matches Ok(t) && {
                let u = final(self).accounts()[args.email@];
                &&& final(self).accounts() == old(self).accounts().insert(args.email@, u)
                &&& u.email == args.email@
                &&& u.first_name == args.first_name@
                &&& u.last_name == args.last_name@
                &&& u.password_hash == password_hash@
                &&& issued_payload(final(self).secret(), t.access_token@, u.id, args.email@)
            }),
    {
        let id = new_account_id();
        let user = User {
            id,
            first_name: args.first_name,
            last_name: args.last_name,
            email: args.email,
            password_hash,
        };
        match self.user_repository.create(user) {
            Ok(created) => {
                match self.encode_access_jwt(&created) {
                    Ok(access_token) => Ok(AuthTokens { access_token }),
                    Err(c) => Err(c.context()),
                }
            },
            Err(e) => {
                let chain = ErrorChain::new(Cause::Repository(e)).context();
                proof {
                    assert(e == RepositoryError::Exists);
                    lemma_classify_singleton(Cause::Repository(e));
                    lemma_context_preserves_classification(seq![Cause::Repository(e)]);
                }
                Err(chain)
            },
        }
    }

    /// Creates an account and issues its first access token. The password
    /// hash is computed strictly before any persistence: a raw password
    /// never reaches storage. A duplicate email is an already-exists
    /// failure; a hashing fault is an unexpected failure; either way no
    /// account state changes.
    pub fn sign_up(&mut self, args: SignUpData) -> (r: Result<AuthTokens, ErrorChain>)
        ensures
            final(self).secret() == old(self).secret(),
            r matches Ok(t) ==> ({
                let u = final(self).accounts()[args.email@];
                &&& !old(self).accounts().contains_key(args.email@)
                &&& final(self).accounts() == old(self).accounts().insert(args.email@, u)
                &&& u.email == args.email@
                &&& u.first_name == args.first_name@
                &&& u.last_name == args.last_name@
                &&& is_phc_hash_string(u.password_hash)
                &&& phc_verifies(u.password_hash, args.password@)
                &&& issued_payload(final(self).secret(), t.access_token@, u.id, args.email@)
            }),
            r is Err ==> final(self).accounts() == old(self).accounts(),
            r matches Err(c) ==> (classify(c@) == ErrorCode::ObjectAlreadyExists || classify(c@)
                == ErrorCode::UnexpectedError),
            r matches Err(c) ==> (classify(c@) == ErrorCode::ObjectAlreadyExists ==> old(
                self,
            ).accounts().contains_key(args.email@)),
            old(self).accounts().contains_key(args.email@) ==> r is Err,
    {
        let password_hash = match compute_password_hash(args.password.as_str()) {
            Ok(h) => h,
            Err(c) => {
                proof {
                    lemma_context_preserves_classification(c@);
                }
                return Err(c.context());
            },
        };
        self.sign_up_hashed(args, password_hash)
    }

    /// Looks the account up by email and verifies the candidate password.
    /// When no account carries the email, verification still runs against
    /// the fixed [`DUMMY_PASSWORD_HASH`], so the hashing phase costs the
    /// same whether or not the email exists; its outcome is discarded. The
    /// caller is never told which factor was wrong.
    fn validate_credentials(&self, credentials: &SignInData) -> (r: Result<User, ErrorChain>)
        ensures
            r is Ok <==> (self.accounts().contains_key(credentials.email@) && phc_verifies(
                self.accounts()[credentials.email@].password_hash,
                credentials.password@,
            )),
            r matches Ok(u) ==> u@ == self.accounts()[credentials.email@],
            r matches Err(c) ==> classify(c@) == ErrorCode::AuthenticationFailed,
    {
        match self.user_repository.get_by_email(credentials.email.as_str()) {
            Ok(user) => {
                match verify_password_hash(
                    user.password_hash.as_str(),
                    credentials.password.as_str(),
                ) {
                    Ok(()) => Ok(user),
                    Err(e) => {
                        let chain = ErrorChain::new(Cause::Auth(e));
                        proof {
                            lemma_classify_singleton(Cause::Auth(e));
                        }
                        Err(chain)
                    },
                }
            },
            Err(e) => {
                // The email is unknown: pay the hashing cost anyway and
                // discard the outcome.
                let _ = verify_password_hash(DUMMY_PASSWORD_HASH, credentials.password.as_str());
                let chain = ErrorChain::new(Cause::Auth(AuthError::InvalidCredentials));
                proof {
                    assert(e == RepositoryError::NotFound);
                    lemma_classify_singleton(Cause::Auth(AuthError::InvalidCredentials));
                }
                Err(chain)
            },
        }
    }

    /// Authenticates by email and password and issues an access token. A
    /// missing account and a wrong password collapse into one
    /// invalid-credentials outcome, indistinguishable in kind; the hashing
    /// cost is paid either way.
    pub fn sign_in(&self, args: SignInData) -> (r: Result<AuthTokens, ErrorChain>)
        ensures
            r is Ok <==> (self.accounts().contains_key(args.email@) && phc_verifies(
                self.accounts()[args.email@].password_hash,
                args.password@,
            )),
            r matches Ok(t) ==> issued_payload(
                self.secret(),
                t.access_token@,
                self.accounts()[args.email@].id,
                self.accounts()[args.email@].email,
            ),
            r matches Err(c) ==> classify(c@) == ErrorCode::AuthenticationFailed,
    {
        let user = match self.validate_credentials(&args) {
            Ok(u) => u,
            Err(c) => {
                return Err(c);
            },
        };
        match self.encode_access_jwt(&user) {
            Ok(access_token) => Ok(AuthTokens { access_token }),
            Err(c) => Err(c.context()),
        }
    }

    /// Recomputes the hash for the new password and overwrites the stored
    /// one; hashing completes strictly before the repository write. Fails
    /// with a not-found outcome when no account carries the identifier, with
    /// an unexpected outcome on a hashing fault; either way no account state
    /// changes.
    pub fn change_password(&mut self, user_id: u128, password: &str) -> (r: Result<
        (),
        ErrorChain,
    >)
        ensures
            final(self).secret() == old(self).secret(),
            r is Ok ==> exists|email: Seq<char>|
                {
                    &&& #[trigger] old(self).accounts().dom().contains(email)
                    &&& old(self).accounts()[email].id == user_id
                    &&& ({
                        let newh = final(self).accounts()[email].password_hash;
                        &&& final(self).accounts() == old(self).accounts().insert(
                            email,
                            UserView { password_hash: newh, ..old(self).accounts()[email] },
                        )
                        &&& is_phc_hash_string(newh)
                        &&& phc_verifies(newh, password@)
                    })
                },
            r is Err ==> final(self).accounts() == old(self).accounts(),
            r matches Err(c) ==> (classify(c@) == ErrorCode::ObjectNotFound || classify(c@)
                == ErrorCode::UnexpectedError),
            r matches Err(c) ==> (classify(c@) == ErrorCode::ObjectNotFound ==> (forall|
                email: Seq<char>,
            |
                #[trigger] old(self).accounts().dom().contains(email) ==> old(
                    self,
                ).accounts()[email].id != user_id)),
    {
        let password_hash = match compute_password_hash(password) {
            Ok(h) => h,
            Err(c) => {
                proof {
                    lemma_context_preserves_classification(c@);
                }
                return Err(c.context());
            },
        };
        match self.user_repository.update_password_hash(user_id, password_hash.as_str()) {
            Ok(()) => {
                proof {
                    let email = choose|email: Seq<char>|
                        #[trigger] old(self).accounts().dom().contains(email) && old(
                            self,
                        ).accounts()[email].id == user_id && self.accounts() == old(
                            self,
                        ).accounts().insert(
                            email,
                            UserView {
                                password_hash: password_hash@,
                                ..old(self).accounts()[email]
                            },
                        );
                    assert(old(self).accounts().dom().contains(email));
                    assert(self.accounts()[email].password_hash == password_hash@);
                }
                Ok(())
            },
            Err(e) => {
                let chain = ErrorChain::new(Cause::Repository(e)).context();
                proof {
                    assert(e == RepositoryError::NotFound);
                    lemma_classify_singleton(Cause::Repository(e));
                    lemma_context_preserves_classification(seq![Cause::Repository(e)]);
                }
                Err(chain)
            },
        }
    }
}

} // verus!
