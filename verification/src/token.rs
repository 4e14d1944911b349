//! Signed bearer-token encoding and decoding.
//!
//! Tokens are signed with symmetric message authentication (HMAC-SHA256)
//! keyed by a server-held secret. The secret is sensitive: it never appears
//! in any result, message or failure.

use vstd::prelude::*;

use serde_json::Value;

use crate::error::TokenError;

verus! {

/// The claims a bearer token carries under a signing secret, provided its
/// signature verifies and its payload has the expected shape: expiration
/// instant, issued-at instant, account identifier and email. `None` for a
/// token that signature verification always rejects. A function of the
/// secret and the token alone, disregarding the clock.
pub uninterp spec fn jwt_payload_of(secret: Seq<char>, token: Seq<char>) -> Option<
    (int, int, int, Seq<char>),
>;

/// Relies on jsonwebtoken's `encode` with the default header (HS256) and an
/// HMAC secret. The token is a function of the secret and the claims alone
/// (one canonical JSON rendering, then HMAC-SHA256), and `decode` under the
/// same secret recovers exactly these claims. For an HMAC secret of any
/// length and these JSON-object claims every step of `encode` is infallible,
/// so the final `unwrap` cannot panic.
#[verifier::external_body]
pub(crate) fn jwt_encode(secret: &str, exp: i64, iat: i64, id: u128, email: &str) -> (t: String)
    ensures
        jwt_payload_of(secret@, t@) == Some((exp as int, iat as int, id as int, email@)),
{
    let mut claims = serde_json::Map::new();
    claims.insert("exp".to_owned(), Value::from(exp));
    claims.insert("iat".to_owned(), Value::from(iat));
    claims.insert("id".to_owned(), Value::from(id.to_string()));
    claims.insert("email".to_owned(), Value::from(email));
    let key = jsonwebtoken::EncodingKey::from_secret(secret.as_bytes());
    jsonwebtoken::encode(&jsonwebtoken::Header::default(), &Value::Object(claims), &key).unwrap()
}

/// Relies on jsonwebtoken's `decode` with `Validation::default()` (HS256
/// only, `exp` required and checked against the process clock with 60 s
/// leeway). A token whose signature does not verify under the secret, or
/// whose payload does not carry these claims, is rejected whatever the clock
/// says; accepted claims are exactly the signed payload. A token whose
/// expiration has passed is rejected too, but when that happens depends on
/// the clock, so nothing is promised of it.
#[verifier::external_body]
pub(crate) fn jwt_decode(secret: &str, token: &str) -> (r: Result<
    (i64, i64, u128, String),
    TokenError,
>)
    ensures
        r matches Ok(c) ==> jwt_payload_of(secret@, token@) == Some(
            (c.0 as int, c.1 as int, c.2 as int, c.3@),
        ),
        jwt_payload_of(secret@, token@) is None ==> r is Err,
{
    let key = jsonwebtoken::DecodingKey::from_secret(secret.as_bytes());
    let v = jsonwebtoken::decode::<Value>(token, &key, &jsonwebtoken::Validation::default())
        .map_err(|_| TokenError::VerifyFailure)?
        .claims;
    let id = v.get("id").and_then(Value::as_str).and_then(|s| s.parse::<u128>().ok());
    match (v.get("exp").and_then(Value::as_i64), v.get("iat").and_then(Value::as_i64), id) {
        (Some(e), Some(i), Some(d)) => match v.get("email").and_then(Value::as_str) {
            Some(m) => Ok((e, i, d, m.to_string())),
            _ => Err(TokenError::VerifyFailure),
        },
        _ => Err(TokenError::VerifyFailure),
    }
}

/// Round trip: under one secret a token carries at most one claims payload,
/// so the claims a successful decode recovers are exactly the claims whose
/// encoding produced the token.
pub proof fn lemma_token_round_trip(
    secret: Seq<char>,
    token: Seq<char>,
    issued: (int, int, int, Seq<char>),
    recovered: (int, int, int, Seq<char>),
)
    requires
        jwt_payload_of(secret, token) == Some(issued),
        jwt_payload_of(secret, token) == Some(recovered),
    ensures
        issued == recovered,
{
}

} // verus!
