//! One-way password hashing and verification.
//!
//! Hashing uses Argon2id, version 0x13, with fixed cost parameters (memory
//! cost 15000 KiB, 2 iterations, parallelism 1) and a fresh random salt per
//! call. The output is a single self-describing PHC string, so a password can
//! be verified later without separately stored parameters.

use vstd::prelude::*;

use crate::error::{classify, AuthError, Cause, ErrorChain, ErrorCode};

verus! {

/// Whether a candidate password matches a stored PHC hash string: the digest
/// recomputed from the candidate with the string's embedded algorithm,
/// parameters and salt equals the string's digest. A function of the two
/// strings alone; only the hash computation can tell what it holds on given
/// values.
pub uninterp spec fn phc_verifies(hash: Seq<char>, password: Seq<char>) -> bool;

/// Shape of every PHC string this hasher emits: the fixed Argon2id parameter
/// header, then a 22-character salt, a separator and a 43-character digest,
/// 97 characters in all.
pub open spec fn is_phc_hash_string(h: Seq<char>) -> bool {
    h.len() == 97 && h.subrange(0, 31) == "$argon2id$v=19$m=15000,t=2,p=1$"@
}

/// Relies on argon2's `Argon2::hash_password` with `Algorithm::Argon2id`,
/// `Version::V0x13` and `Params::new(15000, 2, 1, None)` (which cannot fail
/// on these fixed costs): it hashes under a fresh random 16-byte salt with
/// the default 32-byte output, and the PHC rendering of the result is the
/// fixed 31-character parameter header plus 22 salt characters, a separator
/// and 43 digest characters; verifying the hashed password against the
/// result succeeds. Only the salt generator's operating-system entropy call
/// can fail.
#[verifier::external_body]
fn argon2id_hash(password: &str) -> (r: Option<String>)
    ensures
        r matches Some(h) ==> is_phc_hash_string(h@) && phc_verifies(h@, password@),
{
    let params = match argon2::Params::new(15000, 2, 1, None) {
        Ok(p) => p,
        Err(_) => return None,
    };
    let hasher = argon2::Argon2::new(argon2::Algorithm::Argon2id, argon2::Version::V0x13, params);
    match argon2::PasswordHasher::hash_password(&hasher, password.as_bytes()) {
        Ok(h) => Some(h.to_string()),
        Err(_) => None,
    }
}

/// Relies on argon2's `PasswordVerifier::<str>::verify_password`: it parses
/// the stored string's embedded algorithm, parameters and salt and
/// recomputes the digest from the candidate with exactly them, so the
/// outcome is a function of the two strings alone. A parse failure and a
/// digest mismatch are the same failure.
#[verifier::external_body]
fn argon2id_verify(hash: &str, password: &str) -> (r: bool)
    ensures
        r == phc_verifies(hash@, password@),
{
    let hasher = argon2::Argon2::default();
    argon2::PasswordVerifier::<str>::verify_password(&hasher, password.as_bytes(), hash).is_ok()
}

/// Derives a memory-hard one-way hash of the raw password, as one
/// self-describing PHC string. The password is consumed by this call alone
/// and never appears in the result or in any failure. A hashing fault (the
/// system's entropy source failing) is an unexpected failure.
pub fn compute_password_hash(password: &str) -> (r: Result<String, ErrorChain>)
    ensures
        r matches Ok(h) ==> is_phc_hash_string(h@) && phc_verifies(h@, password@),
        r matches Err(c) ==> classify(c@) == ErrorCode::UnexpectedError,
{
    match argon2id_hash(password) {
        Some(h) => Ok(h),
        None => {
            let chain = ErrorChain::new(Cause::Context);
            proof {
                assert(chain@.len() == 1);
                assert(chain@[0] == Cause::Context);
                assert(chain@.subrange(1, 1) =~= Seq::<Cause>::empty());
                assert(classify(chain@) == classify(chain@.subrange(1, 1)));
            }
            Err(chain)
        },
    }
}

/// Verifies a raw candidate against a stored PHC hash string. Any parse
/// failure or digest mismatch is reported as the single invalid-credentials
/// condition, never distinguished to the caller.
pub fn verify_password_hash(expected_password_hash: &str, password_candidate: &str) -> (r: Result<
    (),
    AuthError,
>)
    ensures
        r is Ok <==> phc_verifies(expected_password_hash@, password_candidate@),
        r is Err ==> (r matches Err(e) && e == AuthError::InvalidCredentials),
{
    if argon2id_verify(expected_password_hash, password_candidate) {
        Ok(())
    } else {
        Err(AuthError::InvalidCredentials)
    }
}

/// A persisted password hash is never the raw password itself: every PHC
/// string this hasher emits is longer than any password shorter than its own
/// 97 characters, the validated inputs capping passwords at 64.
pub proof fn lemma_hash_is_not_the_password(hash: Seq<char>, password: Seq<char>)
    requires
        is_phc_hash_string(hash),
        password.len() < 97,
    ensures
        hash != password,
{
}

} // verus!
